//! The conversation sent to the model for a decision: the system prompt with
//! the rules of the advisor, the recent history, and the user message that
//! carries the (slimmed) game state, the knowledge reference, the notes, the
//! plan and the task; and the tools the model may call.
use vstd::prelude::*;

use crate::json::{Json, JsonValue};
use crate::llm::ChatMessage;
use crate::slim::{slim_state_json, slim_text};
use crate::text::{copy_str, join, join_strings, push_str, views};

verus! {

/// One turn of the conversation history.
#[derive(Debug, Clone)]
pub enum ChatTurn {
    User(String),
    Assistant(String),
}

/// A message by its role and text.
pub struct Msg {
    pub role: Seq<char>,
    pub content: Seq<char>,
}

pub open spec fn msg_of(m: ChatMessage) -> Msg {
    Msg { role: m.role@, content: m.content@ }
}

pub open spec fn turn_msg(t: ChatTurn) -> Msg {
    match t {
        ChatTurn::User(s) => Msg { role: "user"@, content: s@ },
        ChatTurn::Assistant(s) => Msg { role: "assistant"@, content: s@ },
    }
}

/// The last ten turns.
pub open spec fn recent_turns(h: Seq<ChatTurn>) -> Seq<ChatTurn> {
    if h.len() > 10 {
        h.skip(h.len() - 10)
    } else {
        h
    }
}

pub const SYSTEM_HEAD: &'static str = "你是《杀戮尖塔2》的牌手顾问（模型: ";

pub const SYSTEM_BODY: &'static str = r#"）。职责：分析局面，给出结论和打法，回答策略问题，翻译玩家指令为动作。

执行权限——绝对规则（内核强制门禁，违反会被否决）：
- 你没有直接操作游戏的权限。一切游戏操作工具调用只有在自主模式开启时才会被执行；非自主模式下发起的游戏操作会被系统无条件否决。
- 玩家说"自己打""自己打这层""自己打这局"等自主指令时：调用 auto_start 工具（task=任务描述）。系统会开启自主模式并让你逐步执行（每轮给你最新状态，你给出下一步操作，直到任务完成）。
- 玩家给单次操作指令（如"出第二张牌""结束回合""执行"）时：依次调用 auto_start（task=指令）→ 该操作 → auto_stop 三个工具。
- 任务完成或需要停止时：调用 auto_stop（自主模式内的每一轮都如此，完成即关）。
- 纯对话/分析（玩家没让操作）时不发起任何工具调用。
- 禁止根据"上一轮的自主模式""对话历史"推断玩家想操作——除非玩家本轮明确说了。
- lookup 查询不受自主模式限制，随时可用。

战斗决策：
- 出牌前分析手牌、敌人意图、能量。不要空过回合。
- 考虑斩杀线：能杀则不防御直接输出。但不贪输出：已确定能获胜的战斗，优先用防御/低费牌减少战损（掉血、消耗资源），不追求多余的伤害或最快的击杀。
- 攻击意图优先防御，Buff/Debuff/Sleep 意图优先输出。

策略记忆——跨回合计划（PLAN）：
- 需要多步推进时（战斗连招、多回合规划），输出一行 PLAN: <计划>（如"PLAN: 先压血到16，下回合痛击+打击斩杀"）。计划变化时输出新的 PLAN 覆盖，未变化不必重复。
- 系统会在每轮把你的 PLAN 与最近已执行操作回显给你，作为跨回合记忆；不要重复已执行的操作。

思考纪律——保持推理简短流程化：
- 思考按固定流程，不超过 6 步：① 当前目标/局面（1 句）→ ② 列 2-3 个候选方案 → ③ 每个方案一句话算清关键数值 → ④ 选定 + 一句理由。
- 禁止冗长的内心独白：不复述状态 JSON、不逐张枚举无关手牌、不反复推翻自己已经得出的结论。
- 拿牌/路线等规划决策同样走该流程，数值只算关键项（能打到多少、挨多少、差多少）。

表达与决策习惯：
- 不要使用"最优""最好""最佳"等绝对性词语——局势评估有不确定性，用"更倾向""理由是"这类表述并给出依据。
- 拿牌/买牌决策不能只看单卡输出：先分析当前牌组缺什么（防御/过牌/续航/成长）、已经拿了什么、以及这张卡和现有牌组的配合度；同时说明不适合拿的牌及原因。
- 前期决策要有全局视角：考虑后期打法（牌组成型方向、血量控制、金币规划、精英/Boss 压力），为后续留出容错空间，不为眼前小利透支后期。

事实来源——防幻觉规则：
- 卡牌/遗物/药水/敌人的效果一律以状态 JSON 里的 description 字段为准；知识库参考只是辅助，两者冲突时信 description。
- 不确定某机制时就直说"不确定"，禁止根据杀戮尖塔1的经验推测杀戮尖塔2的机制——这是两代游戏，数值和规则不同。
- 数字（伤害/格挡/费用）只引用状态 JSON 里可见的，不要编造。
- 数值计算——非常重要：状态 JSON 中的数值已经计入力量、易伤、虚弱、格挡等 buff 的影响（如敌人意图的攻击力、卡牌的实际伤害）。直接使用 JSON 里的数字做决策，禁止再自行加减 buff 修正重复计算。

知识库主动查询——硬性要求，不是可选项：
- 遇到不认识的卡牌、敌人、遗物、药水、事件，或对某个对象的效果/行为不确定时，必须先输出查询动作再决策（查询不操作游戏）：
  ACTION: lookup | query=<名称或内部ID>
- 特别地：游戏数据参考中标注「知识库未收录」的手牌，若其 description 不足以判断用法，必须查询或明说"不确定"，禁止直接给出打法。
- 优先用英文内部 ID 查询（状态 JSON 的 id 字段）；查不到再用显示名——系统会自动转换。
- 查询分两级：先查本地知识库表格；本地未命中自动查游戏内 Wiki（卡牌/遗物数据，含升级变体）。两级都无记录才会返回"无记录"。
- 查询结果会自动附在下一轮的"知识库查询记录"里，届时继续完成任务。
- 同一对象不要重复查询；每次任务最多查 3 次，用完就基于现有信息决策。

操作规则（工具的详细参数见工具定义）：
- 模式切换（本地请求，不发给游戏）: auto_start 开启自主模式 / auto_stop 关闭自主模式
- 战斗: combat_play_card(card_index, target) / use_potion(slot, target) / combat_end_turn()
  AnyEnemy 的牌必填 target=敌人 entity_id（如 JAW_WORM_0）。Self/None 的牌不带 target。
- 地图: map_choose_node(node_index)
- 奖励: rewards_claim(reward_index) / 卡牌奖励: rewards_pick_card(card_index) / rewards_skip_card()
- 卡牌选择: deck_select_card(card_index) / deck_confirm_selection() / deck_cancel_selection()
  选牌后必须确认：deck_select_card → can_confirm=true → deck_confirm_selection。
- 事件: event_choose_option(option_index) / event_advance_dialogue()
- 休息点: rest_choose_option(option_index) / 商店: shop_purchase(item_index)
- 遗物选择: relic_select(relic_index) / relic_skip() / 宝箱: treasure_claim_relic(relic_index)
- 菜单/游戏结束: menu_select(option)
- 完成当前屏幕操作后检查 can_proceed=true 则 proceed_to_map()。rewards/rest_site/shop/treasure 操作完通常需要 proceed。

卡组信息：player.draw_pile 是牌组剩余牌，player.discard_pile 是弃牌堆，player.hand 是手牌。始终关注牌组整体。

回复格式——绝对规则：
- 禁止使用任何 Markdown 语法（不要用 # 标题、**加粗**、- 列表、`代码块`、> 引用等）。界面无法渲染 Markdown，会原样显示符号。
- 用纯文本回复，极简：只输出分析、结论、打法，不废话、不寒暄、不复述状态。
- 回复控制在 5 句以内。能一句话说清就一句话。
- 操作游戏一律通过工具调用（tool call）发起，不要把操作写进文本。仅当工具调用不可用时才用 ACTION: <tool_name> | <param>=<value> 行代替（此时 auto_start/auto_stop 也按此格式）。
- 如果状态是 unknown，直接说"等待游戏加载"。
- 你可以写 NOTE: <内容> 行来记录当前对局的经验教训（如"Jaw Worm 低血量会狂暴""这把缺防御"）。只在对局中有重要发现时才写 NOTE。"#;

pub const ZH_NOTE: &'static str = "\n\n请用中文（简体）思考并回答，包括思考过程在内的所有输出都使用中文。";

/// The system prompt for a model, with the note to answer in Chinese when asked.
pub open spec fn system_text(model: Seq<char>, zh: bool) -> Seq<char> {
    SYSTEM_HEAD@ + model + SYSTEM_BODY@ + (if zh {
        ZH_NOTE@
    } else {
        Seq::empty()
    })
}

pub open spec fn opt_nonempty(o: Option<Seq<char>>) -> Option<Seq<char>> {
    match o {
        Some(s) => if s.len() > 0 {
            Some(s)
        } else {
            None
        },
        None => None,
    }
}

pub const TASK_HEAD: &'static str = "\n\n当前任务: ";

pub const TASK_TAIL: &'static str = "\n思考: 当前状态离完成任务还差什么？下一步做什么能推进任务？\n有些操作需要确认（如选完角色后需要点 confirm 开始游戏，选完遗物后需要 proceed）。注意当前 state_type 是什么，检查是否需要确认/推进操作。";

pub const KNOWLEDGE_HEAD: &'static str = "\n\n游戏数据参考（从反编译数据生成，以当前游戏状态 JSON 为准）:\n";

pub const NOTES_HEAD: &'static str = "\n\n往期经验:\n";

pub const PLAN_HEAD: &'static str = "\n\n当前计划（你此前声明，若已过时请在 PLAN 中更新）: ";

pub const RECENT_HEAD: &'static str = "\n\n最近已执行的操作（不要重复执行）: ";

pub const STATE_HEAD: &'static str = "当前游戏状态:\n```json\n";

pub const SUMMARY_HEAD: &'static str = "当前状态: ";

pub const SUMMARY_JSON: &'static str = "\n\n完整状态 JSON:\n```json\n";

pub const JSON_TAIL: &'static str = "\n```";

pub const PLAYER_SAYS: &'static str = "\n\n玩家说: ";

pub const PLAYER_TAIL: &'static str = "\n\n请回应玩家的问题或指令。如果玩家要操作游戏，通过工具调用发起（自主模式规则见系统提示）。";

pub const AUTO_TAIL: &'static str = "\n\n你正处于自主模式，游戏操作工具调用会被执行。尽量一次性给出本回合的全部操作（可连续多个工具调用，如出多张牌后结束回合），减少往返；只有当需要看到操作结果才能决定下一步时才停下等下一轮。任务全部完成时才调用 auto_stop；未完成绝不调用。不要只给文字分析而不给操作。";

pub const ADVICE_TAIL: &'static str = "\n\n请分析当前局面，给出行动建议。注意：不要输出 ACTION 行，只给文字建议。";

pub open spec fn part_or_empty(head: Seq<char>, o: Option<Seq<char>>) -> Seq<char> {
    match opt_nonempty(o) {
        Some(s) => head + s,
        None => Seq::empty(),
    }
}

pub open spec fn task_part(task: Option<Seq<char>>) -> Seq<char> {
    match opt_nonempty(task) {
        Some(t) => TASK_HEAD@ + t + TASK_TAIL@,
        None => Seq::empty(),
    }
}

/// The plan the model declared, and the actions executed lately.
pub open spec fn plan_part(plan: Option<Seq<char>>, recent: Seq<Seq<char>>) -> Seq<char> {
    part_or_empty(PLAN_HEAD@, plan) + (if recent.len() > 0 {
        RECENT_HEAD@ + join(recent, " → "@)
    } else {
        Seq::empty()
    })
}

/// The state, as a summary line and the slimmed JSON.
pub open spec fn state_part(summary: Seq<char>, state_json: Seq<char>) -> Seq<char> {
    if summary.len() == 0 {
        STATE_HEAD@ + slim_text(state_json) + JSON_TAIL@
    } else {
        SUMMARY_HEAD@ + summary + SUMMARY_JSON@ + slim_text(state_json) + JSON_TAIL@
    }
}

/// The user message of a decision.
pub open spec fn user_text(
    state_json: Seq<char>,
    summary: Seq<char>,
    user_msg: Option<Seq<char>>,
    auto_mode: bool,
    task: Option<Seq<char>>,
    knowledge: Option<Seq<char>>,
    notes: Option<Seq<char>>,
    plan: Option<Seq<char>>,
    recent: Seq<Seq<char>>,
) -> Seq<char> {
    let context = state_part(summary, state_json) + part_or_empty(KNOWLEDGE_HEAD@, knowledge)
        + part_or_empty(NOTES_HEAD@, notes) + plan_part(plan, recent) + task_part(task);
    match opt_nonempty(user_msg) {
        Some(m) => context + PLAYER_SAYS@ + m + PLAYER_TAIL@,
        None => if auto_mode {
            context + AUTO_TAIL@
        } else {
            state_part(summary, state_json) + part_or_empty(KNOWLEDGE_HEAD@, knowledge)
                + ADVICE_TAIL@
        },
    }
}

/// The messages of a decision: system prompt, the last ten turns, the user message.
pub open spec fn prompt(
    state_json: Seq<char>,
    model: Seq<char>,
    history: Seq<ChatTurn>,
    summary: Seq<char>,
    user_msg: Option<Seq<char>>,
    auto_mode: bool,
    task: Option<Seq<char>>,
    knowledge: Option<Seq<char>>,
    notes: Option<Seq<char>>,
    plan: Option<Seq<char>>,
    recent: Seq<Seq<char>>,
    zh: bool,
) -> Seq<Msg> {
    let h = recent_turns(history);
    seq![Msg { role: "system"@, content: system_text(model, zh) }] + Seq::new(
        h.len(),
        |i: int| turn_msg(h[i]),
    ) + seq![
        Msg {
            role: "user"@,
            content: user_text(
                state_json,
                summary,
                user_msg,
                auto_mode,
                task,
                knowledge,
                notes,
                plan,
                recent,
            ),
        },
    ]
}

fn push_opt_part(out: &mut String, head: &str, o: Option<&str>)
    ensures
        final(out)@ == old(out)@ + part_or_empty(head@, crate::lookup::opt_str_view(o)),
{
    match o {
        Some(s) => if !s.is_empty() {
            push_str(out, head);
            push_str(out, s);
        },
        None => {},
    }
}

fn system_message_text(model: &str, zh: bool) -> (r: String)
    ensures
        r@ == system_text(model@, zh),
{
    let mut sys = copy_str(SYSTEM_HEAD);
    push_str(&mut sys, model);
    push_str(&mut sys, SYSTEM_BODY);
    if zh {
        push_str(&mut sys, ZH_NOTE);
    }
    sys
}

fn state_part_text(state_json: &str, state_summary: &str) -> (r: String)
    ensures
        r@ == state_part(state_summary@, state_json@),
{
    let slim = slim_state_json(state_json);
    let mut out = String::new();
    if state_summary.is_empty() {
        push_str(&mut out, STATE_HEAD);
    } else {
        push_str(&mut out, SUMMARY_HEAD);
        push_str(&mut out, state_summary);
        push_str(&mut out, SUMMARY_JSON);
    }
    push_str(&mut out, slim.as_str());
    push_str(&mut out, JSON_TAIL);
    out
}

fn push_plan_part(out: &mut String, plan: Option<&str>, recent_actions: &Vec<String>)
    ensures
        final(out)@ == old(out)@ + plan_part(
            crate::lookup::opt_str_view(plan),
            views(recent_actions@),
        ),
{
    push_opt_part(out, PLAN_HEAD, plan);
    if recent_actions.len() > 0 {
        push_str(out, RECENT_HEAD);
        let j = join_strings(recent_actions, " → ");
        push_str(out, j.as_str());
    }
}

fn push_task_part(out: &mut String, task: Option<&str>)
    ensures
        final(out)@ == old(out)@ + task_part(crate::lookup::opt_str_view(task)),
{
    match task {
        Some(t) => if !t.is_empty() {
            push_str(out, TASK_HEAD);
            push_str(out, t);
            push_str(out, TASK_TAIL);
        },
        None => {},
    }
}

fn user_message_text(
    state_json: &str,
    state_summary: &str,
    user_msg: Option<&str>,
    auto_mode: bool,
    task: Option<&str>,
    game_knowledge: Option<&str>,
    session_notes: Option<&str>,
    plan: Option<&str>,
    recent_actions: &Vec<String>,
) -> (r: String)
    ensures
        r@ == user_text(
            state_json@,
            state_summary@,
            crate::lookup::opt_str_view(user_msg),
            auto_mode,
            crate::lookup::opt_str_view(task),
            crate::lookup::opt_str_view(game_knowledge),
            crate::lookup::opt_str_view(session_notes),
            crate::lookup::opt_str_view(plan),
            views(recent_actions@),
        ),
{
    let sp = state_part_text(state_json, state_summary);
    let mut content = copy_str(sp.as_str());
    push_opt_part(&mut content, KNOWLEDGE_HEAD, game_knowledge);
    let user_given = match user_msg {
        Some(m) => !m.is_empty(),
        None => false,
    };
    if !user_given && !auto_mode {
        push_str(&mut content, ADVICE_TAIL);
        return content;
    }
    push_opt_part(&mut content, NOTES_HEAD, session_notes);
    push_plan_part(&mut content, plan, recent_actions);
    push_task_part(&mut content, task);
    match user_msg {
        Some(m) => if !m.is_empty() {
            push_str(&mut content, PLAYER_SAYS);
            push_str(&mut content, m);
            push_str(&mut content, PLAYER_TAIL);
        } else {
            push_str(&mut content, AUTO_TAIL);
        },
        None => {
            push_str(&mut content, AUTO_TAIL);
        },
    }
    content
}

/// Builds the messages of one decision.
pub fn build_messages(
    state_json: &str,
    model: &str,
    history: &Vec<ChatTurn>,
    state_summary: &str,
    user_msg: Option<&str>,
    auto_mode: bool,
    task: Option<&str>,
    game_knowledge: Option<&str>,
    session_notes: Option<&str>,
    plan: Option<&str>,
    recent_actions: &Vec<String>,
    zh: bool,
) -> (r: Vec<ChatMessage>)
    ensures
        r@.map_values(|m: ChatMessage| msg_of(m)) == prompt(
            state_json@,
            model@,
            history@,
            state_summary@,
            crate::lookup::opt_str_view(user_msg),
            auto_mode,
            crate::lookup::opt_str_view(task),
            crate::lookup::opt_str_view(game_knowledge),
            crate::lookup::opt_str_view(session_notes),
            crate::lookup::opt_str_view(plan),
            views(recent_actions@),
            zh,
        ),
        forall|i: int|
            0 <= i < r@.len() ==> (#[trigger] r@[i]).tool_calls is None && r@[i].tool_call_id
                is None,
{
    let sys = system_message_text(model, zh);
    let mut msgs: Vec<ChatMessage> = Vec::new();
    msgs.push(ChatMessage::system(sys.as_str()));
    let start: usize = if history.len() > 10 {
        history.len() - 10
    } else {
        0
    };
    let ghost h = recent_turns(history@);
    assert(h =~= history@.skip(start as int));
    let mut i: usize = start;
    while i < history.len()
        invariant
            start <= i <= history@.len(),
            h == history@.skip(start as int),
            msgs@.len() == 1 + (i - start),
            msg_of(msgs@[0]) == (Msg { role: "system"@, content: system_text(model@, zh) }),
            forall|k: int| 1 <= k < msgs@.len() ==> #[trigger] msg_of(msgs@[k]) == turn_msg(h[k - 1]),
            forall|k: int|
                0 <= k < msgs@.len() ==> (#[trigger] msgs@[k]).tool_calls is None
                    && msgs@[k].tool_call_id is None,
        decreases history@.len() - i,
    {
        let m = match &history[i] {
            ChatTurn::User(t) => ChatMessage::user(t.as_str()),
            ChatTurn::Assistant(t) => ChatMessage::assistant(t.as_str()),
        };
        assert(h[i - start] == history@[i as int]);
        msgs.push(m);
        i = i + 1;
    }
    let content = user_message_text(
        state_json,
        state_summary,
        user_msg,
        auto_mode,
        task,
        game_knowledge,
        session_notes,
        plan,
        recent_actions,
    );
    msgs.push(ChatMessage::user(content.as_str()));
    proof {
        let p = prompt(
            state_json@,
            model@,
            history@,
            state_summary@,
            crate::lookup::opt_str_view(user_msg),
            auto_mode,
            crate::lookup::opt_str_view(task),
            crate::lookup::opt_str_view(game_knowledge),
            crate::lookup::opt_str_view(session_notes),
            crate::lookup::opt_str_view(plan),
            views(recent_actions@),
            zh,
        );
        assert(msgs@.map_values(|m: ChatMessage| msg_of(m)) =~= p);
    }
    msgs
}

// ---------------------------------------------------------------------------
// Tool definitions
// ---------------------------------------------------------------------------

/// One parameter of a tool: its name, whether it is an integer (else a
/// string), and its description.
pub struct ParamDef {
    pub name: Seq<char>,
    pub is_int: bool,
    pub desc: Seq<char>,
}

pub open spec fn param_json(p: ParamDef) -> Json {
    Json::Object(
        seq!["type"@, "description"@],
        seq![Json::Str(if p.is_int { "integer"@ } else { "string"@ }), Json::Str(p.desc)],
    )
}

/// The JSON schema of a tool's parameters.
pub open spec fn params_json(ps: Seq<ParamDef>, required: Seq<Seq<char>>) -> Json {
    let props = Json::Object(
        Seq::new(ps.len(), |i: int| ps[i].name),
        Seq::new(ps.len(), |i: int| param_json(ps[i])),
    );
    if required.len() == 0 {
        Json::Object(seq!["type"@, "properties"@], seq![Json::Str("object"@), props])
    } else {
        Json::Object(
            seq!["type"@, "properties"@, "required"@],
            seq![
                Json::Str("object"@),
                props,
                Json::Array(Seq::new(required.len(), |i: int| Json::Str(required[i]))),
            ],
        )
    }
}

/// One entry of the OpenAI-compatible `tools` array.
pub open spec fn tool_def(
    name: Seq<char>,
    desc: Seq<char>,
    ps: Seq<ParamDef>,
    required: Seq<Seq<char>>,
) -> Json {
    Json::Object(
        seq!["type"@, "function"@],
        seq![
            Json::Str("function"@),
            Json::Object(
                seq!["name"@, "description"@, "parameters"@],
                seq![Json::Str(name), Json::Str(desc), params_json(ps, required)],
            ),
        ],
    )
}

/// The tools the model may call: the game's operations and the local
/// requests (`lookup`, `auto_start`, `auto_stop`).
pub open spec fn tool_defs() -> Seq<Json> {
    seq![
        tool_entry(
            "lookup",
            "查询本地知识库/游戏Wiki获取卡牌、敌人、遗物、药水、事件的信息。不操作游戏，随时可用。",
            Some(("query", false, "名称或内部ID，优先英文ID（状态JSON的id字段）")),
            None,
            Some("query"),
        ),
        tool_entry(
            "auto_start",
            "开启自主模式（玩家说\"自己打\"或单次操作指令时调用）。task 填任务描述。",
            Some(("task", false, "任务描述，如：自己打这层 / 出第二张牌")),
            None,
            Some("task"),
        ),
        tool_entry(
            "auto_stop",
            "关闭自主模式。仅当任务已全部完成时调用。",
            None,
            None,
            None,
        ),
        tool_entry(
            "combat_play_card",
            "战斗：出手牌。target_type=AnyEnemy 的牌必须带 target（敌人 entity_id，如 JAW_WORM_0）。",
            Some(("card_index", true, "手牌索引")),
            Some(("target", false, "敌人entity_id，如 JAW_WORM_0")),
            Some("card_index"),
        ),
        tool_entry(
            "combat_end_turn",
            "战斗：结束回合。",
            None,
            None,
            None,
        ),
        tool_entry(
            "use_potion",
            "战斗：使用药水。slot 是药水槽索引；单体药水须带 target。",
            Some(("slot", true, "药水槽索引")),
            Some(("target", false, "敌人entity_id")),
            Some("slot"),
        ),
        tool_entry(
            "discard_potion",
            "战斗：丢弃药水。",
            Some(("slot", true, "药水槽索引")),
            None,
            Some("slot"),
        ),
        tool_entry(
            "map_choose_node",
            "地图：选择下一个节点。",
            Some(("node_index", true, "节点索引")),
            None,
            Some("node_index"),
        ),
        tool_entry(
            "rewards_claim",
            "奖励屏：领取奖励（从右到左领避免索引漂移）。",
            Some(("reward_index", true, "奖励索引")),
            None,
            Some("reward_index"),
        ),
        tool_entry(
            "rewards_pick_card",
            "卡牌奖励：选一张卡。",
            Some(("card_index", true, "卡牌索引")),
            None,
            Some("card_index"),
        ),
        tool_entry(
            "rewards_skip_card",
            "卡牌奖励：跳过。",
            None,
            None,
            None,
        ),
        tool_entry(
            "deck_select_card",
            "卡牌选择屏：选牌。选后若 can_confirm=true 必须 deck_confirm_selection。",
            Some(("card_index", true, "卡牌索引")),
            None,
            Some("card_index"),
        ),
        tool_entry(
            "deck_confirm_selection",
            "卡牌选择屏：确认。",
            None,
            None,
            None,
        ),
        tool_entry(
            "deck_cancel_selection",
            "卡牌选择屏：取消。",
            None,
            None,
            None,
        ),
        tool_entry(
            "event_choose_option",
            "事件：选择选项（含 Proceed）。",
            Some(("option_index", true, "选项索引")),
            None,
            Some("option_index"),
        ),
        tool_entry(
            "event_advance_dialogue",
            "事件：推进对话。",
            None,
            None,
            None,
        ),
        tool_entry(
            "rest_choose_option",
            "休息点：选择（休息/锻造等）。",
            Some(("option_index", true, "选项索引")),
            None,
            Some("option_index"),
        ),
        tool_entry(
            "shop_purchase",
            "商店：购买商品。",
            Some(("item_index", true, "商品索引")),
            None,
            Some("item_index"),
        ),
        tool_entry(
            "proceed_to_map",
            "当前屏幕操作完成且回到地图（can_proceed=true 时）。",
            None,
            None,
            None,
        ),
        tool_entry(
            "relic_select",
            "遗物选择：拿遗物。",
            Some(("relic_index", true, "遗物索引")),
            None,
            Some("relic_index"),
        ),
        tool_entry(
            "relic_skip",
            "遗物选择：跳过。",
            None,
            None,
            None,
        ),
        tool_entry(
            "treasure_claim_relic",
            "宝箱：拿遗物。",
            Some(("relic_index", true, "遗物索引")),
            None,
            Some("relic_index"),
        ),
        tool_entry(
            "menu_select",
            "菜单/游戏结束：选择选项。",
            Some(("option", false, "选项名")),
            None,
            Some("option"),
        ),
    ]
}

/// One tool, with at most two parameters and at most one required.
pub open spec fn tool_entry(
    name: &str,
    desc: &str,
    p1: Option<(&str, bool, &str)>,
    p2: Option<(&str, bool, &str)>,
    required: Option<&str>,
) -> Json {
    tool_def(name@, desc@, opt_param(p1) + opt_param(p2), opt_required(required))
}

/// The name of a tool definition.
pub open spec fn tool_def_name(d: Json) -> Seq<char> {
    match as_name(d) {
        Some(n) => n,
        None => Seq::empty(),
    }
}

pub open spec fn as_name(d: Json) -> Option<Seq<char>> {
    crate::json::as_str(crate::json::field(crate::json::field(d, "function"@), "name"@))
}

/// The place of a name in the list of offered tools, or -1 for any other name.
spec fn tool_position(n: Seq<char>) -> int {
    if n == "lookup"@ {
        0
    } else if n == "auto_start"@ {
        1
    } else if n == "auto_stop"@ {
        2
    } else if n == "combat_play_card"@ {
        3
    } else if n == "combat_end_turn"@ {
        4
    } else if n == "use_potion"@ {
        5
    } else if n == "discard_potion"@ {
        6
    } else if n == "map_choose_node"@ {
        7
    } else if n == "rewards_claim"@ {
        8
    } else if n == "rewards_pick_card"@ {
        9
    } else if n == "rewards_skip_card"@ {
        10
    } else if n == "deck_select_card"@ {
        11
    } else if n == "deck_confirm_selection"@ {
        12
    } else if n == "deck_cancel_selection"@ {
        13
    } else if n == "event_choose_option"@ {
        14
    } else if n == "event_advance_dialogue"@ {
        15
    } else if n == "rest_choose_option"@ {
        16
    } else if n == "shop_purchase"@ {
        17
    } else if n == "proceed_to_map"@ {
        18
    } else if n == "relic_select"@ {
        19
    } else if n == "relic_skip"@ {
        20
    } else if n == "treasure_claim_relic"@ {
        21
    } else if n == "menu_select"@ {
        22
    } else {
        -1
    }
}

/// A tool definition is of type `function` and carries the name it was
/// made with.
proof fn lemma_tool_def_fields()
    ensures
        forall|name: Seq<char>, desc: Seq<char>, ps: Seq<ParamDef>, required: Seq<Seq<char>>|
            #![trigger tool_def(name, desc, ps, required)]
            tool_def_name(tool_def(name, desc, ps, required)) == name
                && crate::json::field(tool_def(name, desc, ps, required), "type"@) == Json::Str(
                "function"@,
            ),
{
    reveal_strlit("type");
    reveal_strlit("function");
    reveal_strlit("name");
    assert("type"@.len() == 4);
    assert("function"@.len() == 8);
    assert forall|name: Seq<char>, desc: Seq<char>, ps: Seq<ParamDef>, required: Seq<Seq<char>>|
        #![trigger tool_def(name, desc, ps, required)]
        tool_def_name(tool_def(name, desc, ps, required)) == name
            && crate::json::field(tool_def(name, desc, ps, required), "type"@) == Json::Str(
            "function"@,
        ) by {
        let d = tool_def(name, desc, ps, required);
        let ks = seq!["type"@, "function"@];
        let vs = d->Object_1;
        assert(ks.drop_first() =~= seq!["function"@]);
        assert(vs.drop_first() =~= seq![vs[1]]);
        reveal_with_fuel(crate::json::obj_get, 2);
        assert(crate::json::field(d, "function"@) == vs[1]);
    }
}

/// Offered tool `k` has a canonical name, found at place `k` of the list.
proof fn lemma_tool_at(k: int)
    requires
        0 <= k < tool_defs().len(),
    ensures
        tool_position(tool_def_name(tool_defs()[k])) == k,
        crate::parse::tool_alias(tool_def_name(tool_defs()[k])) == tool_def_name(tool_defs()[k]),
        crate::json::field(tool_defs()[k], "type"@) == Json::Str("function"@),
        crate::text::is_ascii_str(tool_def_name(tool_defs()[k])),
        crate::text::ascii_lower(tool_def_name(tool_defs()[k])) == tool_def_name(tool_defs()[k]),
{
    lemma_tool_def_fields();
    crate::parse::lemma_tool_alias_fixed();

    reveal_strlit("lookup");
    reveal_strlit("auto_start");
    reveal_strlit("auto_stop");
    reveal_strlit("combat_play_card");
    reveal_strlit("combat_end_turn");
    reveal_strlit("use_potion");
    reveal_strlit("discard_potion");
    reveal_strlit("map_choose_node");
    reveal_strlit("rewards_claim");
    reveal_strlit("rewards_pick_card");
    reveal_strlit("rewards_skip_card");
    reveal_strlit("deck_select_card");
    reveal_strlit("deck_confirm_selection");
    reveal_strlit("deck_cancel_selection");
    reveal_strlit("event_choose_option");
    reveal_strlit("event_advance_dialogue");
    reveal_strlit("rest_choose_option");
    reveal_strlit("shop_purchase");
    reveal_strlit("proceed_to_map");
    reveal_strlit("relic_select");
    reveal_strlit("relic_skip");
    reveal_strlit("treasure_claim_relic");
    reveal_strlit("menu_select");
    assert("use_potion"@[0] == 'u' && "auto_start"@[0] == 'a');
    assert("relic_skip"@[0] == 'r' && "auto_start"@[0] == 'a');
    assert("relic_skip"@[0] == 'r' && "use_potion"@[0] == 'u');
    assert("deck_select_card"@[0] == 'd' && "combat_play_card"@[0] == 'c');
    assert("map_choose_node"@[0] == 'm' && "combat_end_turn"@[0] == 'c');
    assert("proceed_to_map"@[0] == 'p' && "discard_potion"@[0] == 'd');
    assert("shop_purchase"@[0] == 's' && "rewards_claim"@[0] == 'r');
    assert("event_advance_dialogue"@[0] == 'e' && "deck_confirm_selection"@[0] == 'd');
    assert("rewards_skip_card"@[8] == 's' && "rewards_pick_card"@[8] == 'p');
    if k == 0 {
        assert(tool_def_name(tool_defs()[0]) == "lookup"@);
        assert("lookup"@.len() == 6);
        assert(tool_position("lookup"@) == 0);
        assert(crate::parse::is_lower_ascii_name("lookup"@));
        crate::parse::lemma_lower_ascii_name("lookup"@);
    } else if k == 1 {
        assert(tool_def_name(tool_defs()[1]) == "auto_start"@);
        assert("auto_start"@.len() == 10);
        assert(tool_position("auto_start"@) == 1);
        assert(crate::parse::is_lower_ascii_name("auto_start"@));
        crate::parse::lemma_lower_ascii_name("auto_start"@);
    } else if k == 2 {
        assert(tool_def_name(tool_defs()[2]) == "auto_stop"@);
        assert("auto_stop"@.len() == 9);
        assert(tool_position("auto_stop"@) == 2);
        assert(crate::parse::is_lower_ascii_name("auto_stop"@));
        crate::parse::lemma_lower_ascii_name("auto_stop"@);
    } else if k == 3 {
        assert(tool_def_name(tool_defs()[3]) == "combat_play_card"@);
        assert("combat_play_card"@.len() == 16);
        assert(tool_position("combat_play_card"@) == 3);
        assert(crate::parse::is_lower_ascii_name("combat_play_card"@));
        crate::parse::lemma_lower_ascii_name("combat_play_card"@);
    } else if k == 4 {
        assert(tool_def_name(tool_defs()[4]) == "combat_end_turn"@);
        assert("combat_end_turn"@.len() == 15);
        assert(tool_position("combat_end_turn"@) == 4);
        assert(crate::parse::is_lower_ascii_name("combat_end_turn"@));
        crate::parse::lemma_lower_ascii_name("combat_end_turn"@);
    } else if k == 5 {
        assert(tool_def_name(tool_defs()[5]) == "use_potion"@);
        assert("use_potion"@.len() == 10);
        assert(tool_position("use_potion"@) == 5);
        assert(crate::parse::is_lower_ascii_name("use_potion"@));
        crate::parse::lemma_lower_ascii_name("use_potion"@);
    } else if k == 6 {
        assert(tool_def_name(tool_defs()[6]) == "discard_potion"@);
        assert("discard_potion"@.len() == 14);
        assert(tool_position("discard_potion"@) == 6);
        assert(crate::parse::is_lower_ascii_name("discard_potion"@));
        crate::parse::lemma_lower_ascii_name("discard_potion"@);
    } else if k == 7 {
        assert(tool_def_name(tool_defs()[7]) == "map_choose_node"@);
        assert("map_choose_node"@.len() == 15);
        assert(tool_position("map_choose_node"@) == 7);
        assert(crate::parse::is_lower_ascii_name("map_choose_node"@));
        crate::parse::lemma_lower_ascii_name("map_choose_node"@);
    } else if k == 8 {
        assert(tool_def_name(tool_defs()[8]) == "rewards_claim"@);
        assert("rewards_claim"@.len() == 13);
        assert(tool_position("rewards_claim"@) == 8);
        assert(crate::parse::is_lower_ascii_name("rewards_claim"@));
        crate::parse::lemma_lower_ascii_name("rewards_claim"@);
    } else if k == 9 {
        assert(tool_def_name(tool_defs()[9]) == "rewards_pick_card"@);
        assert("rewards_pick_card"@.len() == 17);
        assert(tool_position("rewards_pick_card"@) == 9);
        assert(crate::parse::is_lower_ascii_name("rewards_pick_card"@));
        crate::parse::lemma_lower_ascii_name("rewards_pick_card"@);
    } else if k == 10 {
        assert(tool_def_name(tool_defs()[10]) == "rewards_skip_card"@);
        assert("rewards_skip_card"@.len() == 17);
        assert(tool_position("rewards_skip_card"@) == 10);
        assert(crate::parse::is_lower_ascii_name("rewards_skip_card"@));
        crate::parse::lemma_lower_ascii_name("rewards_skip_card"@);
    } else if k == 11 {
        assert(tool_def_name(tool_defs()[11]) == "deck_select_card"@);
        assert("deck_select_card"@.len() == 16);
        assert(tool_position("deck_select_card"@) == 11);
        assert(crate::parse::is_lower_ascii_name("deck_select_card"@));
        crate::parse::lemma_lower_ascii_name("deck_select_card"@);
    } else if k == 12 {
        assert(tool_def_name(tool_defs()[12]) == "deck_confirm_selection"@);
        assert("deck_confirm_selection"@.len() == 22);
        assert(tool_position("deck_confirm_selection"@) == 12);
        assert(crate::parse::is_lower_ascii_name("deck_confirm_selection"@));
        crate::parse::lemma_lower_ascii_name("deck_confirm_selection"@);
    } else if k == 13 {
        assert(tool_def_name(tool_defs()[13]) == "deck_cancel_selection"@);
        assert("deck_cancel_selection"@.len() == 21);
        assert(tool_position("deck_cancel_selection"@) == 13);
        assert(crate::parse::is_lower_ascii_name("deck_cancel_selection"@));
        crate::parse::lemma_lower_ascii_name("deck_cancel_selection"@);
    } else if k == 14 {
        assert(tool_def_name(tool_defs()[14]) == "event_choose_option"@);
        assert("event_choose_option"@.len() == 19);
        assert(tool_position("event_choose_option"@) == 14);
        assert(crate::parse::is_lower_ascii_name("event_choose_option"@));
        crate::parse::lemma_lower_ascii_name("event_choose_option"@);
    } else if k == 15 {
        assert(tool_def_name(tool_defs()[15]) == "event_advance_dialogue"@);
        assert("event_advance_dialogue"@.len() == 22);
        assert(tool_position("event_advance_dialogue"@) == 15);
        assert(crate::parse::is_lower_ascii_name("event_advance_dialogue"@));
        crate::parse::lemma_lower_ascii_name("event_advance_dialogue"@);
    } else if k == 16 {
        assert(tool_def_name(tool_defs()[16]) == "rest_choose_option"@);
        assert("rest_choose_option"@.len() == 18);
        assert(tool_position("rest_choose_option"@) == 16);
        assert(crate::parse::is_lower_ascii_name("rest_choose_option"@));
        crate::parse::lemma_lower_ascii_name("rest_choose_option"@);
    } else if k == 17 {
        assert(tool_def_name(tool_defs()[17]) == "shop_purchase"@);
        assert("shop_purchase"@.len() == 13);
        assert(tool_position("shop_purchase"@) == 17);
        assert(crate::parse::is_lower_ascii_name("shop_purchase"@));
        crate::parse::lemma_lower_ascii_name("shop_purchase"@);
    } else if k == 18 {
        assert(tool_def_name(tool_defs()[18]) == "proceed_to_map"@);
        assert("proceed_to_map"@.len() == 14);
        assert(tool_position("proceed_to_map"@) == 18);
        assert(crate::parse::is_lower_ascii_name("proceed_to_map"@));
        crate::parse::lemma_lower_ascii_name("proceed_to_map"@);
    } else if k == 19 {
        assert(tool_def_name(tool_defs()[19]) == "relic_select"@);
        assert("relic_select"@.len() == 12);
        assert(tool_position("relic_select"@) == 19);
        assert(crate::parse::is_lower_ascii_name("relic_select"@));
        crate::parse::lemma_lower_ascii_name("relic_select"@);
    } else if k == 20 {
        assert(tool_def_name(tool_defs()[20]) == "relic_skip"@);
        assert("relic_skip"@.len() == 10);
        assert(tool_position("relic_skip"@) == 20);
        assert(crate::parse::is_lower_ascii_name("relic_skip"@));
        crate::parse::lemma_lower_ascii_name("relic_skip"@);
    } else if k == 21 {
        assert(tool_def_name(tool_defs()[21]) == "treasure_claim_relic"@);
        assert("treasure_claim_relic"@.len() == 20);
        assert(tool_position("treasure_claim_relic"@) == 21);
        assert(crate::parse::is_lower_ascii_name("treasure_claim_relic"@));
        crate::parse::lemma_lower_ascii_name("treasure_claim_relic"@);
    } else if k == 22 {
        assert(tool_def_name(tool_defs()[22]) == "menu_select"@);
        assert("menu_select"@.len() == 11);
        assert(tool_position("menu_select"@) == 22);
        assert(crate::parse::is_lower_ascii_name("menu_select"@));
        crate::parse::lemma_lower_ascii_name("menu_select"@);
    }
}

/// The tools offered to the model are functions with distinct names, and
/// each name is canonical: an ASCII name that normalizing (lower-casing,
/// then the alias table) maps to itself, so a call by that name reaches the
/// tool of that name.
pub proof fn lemma_tool_names_canonical()
    ensures
        forall|i: int|
            0 <= i < tool_defs().len() ==> {
                let n = #[trigger] tool_def_name(tool_defs()[i]);
                &&& crate::parse::tool_alias(n) == n
                &&& crate::text::is_ascii_str(n)
                &&& crate::parse::tool_alias(crate::text::ascii_lower(n)) == n
                &&& crate::json::field(tool_defs()[i], "type"@) == Json::Str("function"@)
            },
        forall|i: int, j: int|
            0 <= i < j < tool_defs().len() ==> #[trigger] tool_def_name(tool_defs()[i])
                != #[trigger] tool_def_name(tool_defs()[j]),
{
    assert forall|i: int| 0 <= i < tool_defs().len() implies {
        let n = #[trigger] tool_def_name(tool_defs()[i]);
        &&& crate::parse::tool_alias(n) == n
        &&& crate::text::is_ascii_str(n)
        &&& crate::parse::tool_alias(crate::text::ascii_lower(n)) == n
        &&& crate::json::field(tool_defs()[i], "type"@) == Json::Str("function"@)
    } by {
        lemma_tool_at(i);
    }
    assert forall|i: int, j: int| 0 <= i < j < tool_defs().len() implies #[trigger] tool_def_name(
        tool_defs()[i],
    ) != #[trigger] tool_def_name(tool_defs()[j]) by {
        lemma_tool_at(i);
        lemma_tool_at(j);
    }
}

pub open spec fn opt_param(p: Option<(&str, bool, &str)>) -> Seq<ParamDef> {
    match p {
        Some(x) => seq![ParamDef { name: x.0@, is_int: x.1, desc: x.2@ }],
        None => Seq::empty(),
    }
}

pub open spec fn opt_required(r: Option<&str>) -> Seq<Seq<char>> {
    match r {
        Some(x) => seq![x@],
        None => Seq::empty(),
    }
}

fn param_value(p: (&str, bool, &str)) -> (r: JsonValue)
    ensures
        r@ == param_json(ParamDef { name: p.0@, is_int: p.1, desc: p.2@ }),
{
    let t = JsonValue::Str(copy_str(if p.1 { "integer" } else { "string" }));
    let d = JsonValue::Str(copy_str(p.2));
    let ghost tv = t@;
    let ghost dv = d@;
    let r = JsonValue::Object(vec![(copy_str("type"), t), (copy_str("description"), d)]);
    assert(r@->Object_0 =~= seq!["type"@, "description"@]);
    assert(r@->Object_1 =~= seq![tv, dv]);
    r
}

fn tool_def_value(
    name: &str,
    desc: &str,
    p1: Option<(&str, bool, &str)>,
    p2: Option<(&str, bool, &str)>,
    required: Option<&str>,
) -> (r: JsonValue)
    ensures
        r@ == tool_entry(name, desc, p1, p2, required),
{
    let ghost ps = opt_param(p1) + opt_param(p2);
    let mut keys: Vec<(String, JsonValue)> = Vec::new();
    match p1 {
        Some(p) => {
            let v = param_value(p);
            keys.push((copy_str(p.0), v));
        },
        None => {},
    }
    match p2 {
        Some(p) => {
            let v = param_value(p);
            keys.push((copy_str(p.0), v));
        },
        None => {},
    }
    let ghost kv = keys@;
    assert(kv.len() == ps.len());
    assert(forall|i: int| 0 <= i < ps.len() ==> #[trigger] kv[i].0@ == ps[i].name && kv[i].1@ == param_json(ps[i]));
    let props = JsonValue::Object(keys);
    let ghost pv = props@;
    assert(pv == Json::Object(
        Seq::new(ps.len(), |i: int| ps[i].name),
        Seq::new(ps.len(), |i: int| param_json(ps[i])),
    )) by {
        assert(pv->Object_0 =~= Seq::new(ps.len(), |i: int| ps[i].name));
        assert(pv->Object_1 =~= Seq::new(ps.len(), |i: int| param_json(ps[i])));
    }
    let ty = JsonValue::Str(copy_str("object"));
    let ghost tyv = ty@;
    let params = match required {
        Some(req) => {
            let rv = JsonValue::Str(copy_str(req));
            let ghost rvv = rv@;
            let arr = JsonValue::Array(vec![rv]);
            let ghost av = arr@;
            assert(av->Array_0 =~= Seq::new(1, |i: int| Json::Str(opt_required(required)[i])));
            let p = JsonValue::Object(
                vec![(copy_str("type"), ty), (copy_str("properties"), props), (copy_str("required"), arr)],
            );
            assert(p@->Object_0 =~= seq!["type"@, "properties"@, "required"@]);
            assert(p@->Object_1 =~= seq![tyv, pv, av]);
            p
        },
        None => {
            let p = JsonValue::Object(vec![(copy_str("type"), ty), (copy_str("properties"), props)]);
            assert(p@->Object_0 =~= seq!["type"@, "properties"@]);
            assert(p@->Object_1 =~= seq![tyv, pv]);
            p
        },
    };
    let ghost parv = params@;
    assert(parv == params_json(ps, opt_required(required)));
    let nv = JsonValue::Str(copy_str(name));
    let dv = JsonValue::Str(copy_str(desc));
    let ghost nvv = nv@;
    let ghost dvv = dv@;
    let f = JsonValue::Object(
        vec![(copy_str("name"), nv), (copy_str("description"), dv), (copy_str("parameters"), params)],
    );
    assert(f@->Object_0 =~= seq!["name"@, "description"@, "parameters"@]);
    assert(f@->Object_1 =~= seq![nvv, dvv, parv]);
    let ghost fv = f@;
    let fnv = JsonValue::Str(copy_str("function"));
    let ghost fnvv = fnv@;
    let r = JsonValue::Object(vec![(copy_str("type"), fnv), (copy_str("function"), f)]);
    assert(r@->Object_0 =~= seq!["type"@, "function"@]);
    assert(r@->Object_1 =~= seq![fnvv, fv]);
    r
}

/// The tool definitions sent with each request (OpenAI-compatible `tools`).
#[verifier::rlimit(40)]
pub fn tool_definitions() -> (r: JsonValue)
    ensures
        r@ == Json::Array(tool_defs()),
{
    let mut defs: Vec<JsonValue> = Vec::new();
    defs.push(tool_def_value(
        "lookup",
        "查询本地知识库/游戏Wiki获取卡牌、敌人、遗物、药水、事件的信息。不操作游戏，随时可用。",
        Some(("query", false, "名称或内部ID，优先英文ID（状态JSON的id字段）")),
        None,
        Some("query"),
    ));
    defs.push(tool_def_value(
        "auto_start",
        "开启自主模式（玩家说\"自己打\"或单次操作指令时调用）。task 填任务描述。",
        Some(("task", false, "任务描述，如：自己打这层 / 出第二张牌")),
        None,
        Some("task"),
    ));
    defs.push(tool_def_value(
        "auto_stop",
        "关闭自主模式。仅当任务已全部完成时调用。",
        None,
        None,
        None,
    ));
    defs.push(tool_def_value(
        "combat_play_card",
        "战斗：出手牌。target_type=AnyEnemy 的牌必须带 target（敌人 entity_id，如 JAW_WORM_0）。",
        Some(("card_index", true, "手牌索引")),
        Some(("target", false, "敌人entity_id，如 JAW_WORM_0")),
        Some("card_index"),
    ));
    defs.push(tool_def_value(
        "combat_end_turn",
        "战斗：结束回合。",
        None,
        None,
        None,
    ));
    defs.push(tool_def_value(
        "use_potion",
        "战斗：使用药水。slot 是药水槽索引；单体药水须带 target。",
        Some(("slot", true, "药水槽索引")),
        Some(("target", false, "敌人entity_id")),
        Some("slot"),
    ));
    defs.push(tool_def_value(
        "discard_potion",
        "战斗：丢弃药水。",
        Some(("slot", true, "药水槽索引")),
        None,
        Some("slot"),
    ));
    defs.push(tool_def_value(
        "map_choose_node",
        "地图：选择下一个节点。",
        Some(("node_index", true, "节点索引")),
        None,
        Some("node_index"),
    ));
    defs.push(tool_def_value(
        "rewards_claim",
        "奖励屏：领取奖励（从右到左领避免索引漂移）。",
        Some(("reward_index", true, "奖励索引")),
        None,
        Some("reward_index"),
    ));
    defs.push(tool_def_value(
        "rewards_pick_card",
        "卡牌奖励：选一张卡。",
        Some(("card_index", true, "卡牌索引")),
        None,
        Some("card_index"),
    ));
    defs.push(tool_def_value(
        "rewards_skip_card",
        "卡牌奖励：跳过。",
        None,
        None,
        None,
    ));
    defs.push(tool_def_value(
        "deck_select_card",
        "卡牌选择屏：选牌。选后若 can_confirm=true 必须 deck_confirm_selection。",
        Some(("card_index", true, "卡牌索引")),
        None,
        Some("card_index"),
    ));
    defs.push(tool_def_value(
        "deck_confirm_selection",
        "卡牌选择屏：确认。",
        None,
        None,
        None,
    ));
    defs.push(tool_def_value(
        "deck_cancel_selection",
        "卡牌选择屏：取消。",
        None,
        None,
        None,
    ));
    defs.push(tool_def_value(
        "event_choose_option",
        "事件：选择选项（含 Proceed）。",
        Some(("option_index", true, "选项索引")),
        None,
        Some("option_index"),
    ));
    defs.push(tool_def_value(
        "event_advance_dialogue",
        "事件：推进对话。",
        None,
        None,
        None,
    ));
    defs.push(tool_def_value(
        "rest_choose_option",
        "休息点：选择（休息/锻造等）。",
        Some(("option_index", true, "选项索引")),
        None,
        Some("option_index"),
    ));
    defs.push(tool_def_value(
        "shop_purchase",
        "商店：购买商品。",
        Some(("item_index", true, "商品索引")),
        None,
        Some("item_index"),
    ));
    defs.push(tool_def_value(
        "proceed_to_map",
        "当前屏幕操作完成且回到地图（can_proceed=true 时）。",
        None,
        None,
        None,
    ));
    defs.push(tool_def_value(
        "relic_select",
        "遗物选择：拿遗物。",
        Some(("relic_index", true, "遗物索引")),
        None,
        Some("relic_index"),
    ));
    defs.push(tool_def_value(
        "relic_skip",
        "遗物选择：跳过。",
        None,
        None,
        None,
    ));
    defs.push(tool_def_value(
        "treasure_claim_relic",
        "宝箱：拿遗物。",
        Some(("relic_index", true, "遗物索引")),
        None,
        Some("relic_index"),
    ));
    defs.push(tool_def_value(
        "menu_select",
        "菜单/游戏结束：选择选项。",
        Some(("option", false, "选项名")),
        None,
        Some("option"),
    ));
    let ghost dv = defs@;
    let r = JsonValue::Array(defs);
    assert(r@->Array_0 =~= tool_defs()) by {
        assert(r@->Array_0.len() == dv.len());
        assert forall|i: int| 0 <= i < dv.len() implies r@->Array_0[i] == dv[i]@ by {}
    }
    r
}

} // verus!
