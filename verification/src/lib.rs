pub mod text;
pub mod json;
pub mod parse;
pub mod model;
pub mod lookup;
pub mod context;
pub mod slim;
pub mod llm;
pub mod storage;
pub mod decide;
pub mod app;
pub mod ui;
pub mod runner;
pub mod mcp;
pub mod play;
pub mod knowledge_server;
pub mod mock;
pub mod decision;
pub mod actions;
