//! The request body of an action: a JSON object whose `action` member names
//! the action in snake case, followed by the action's fields; an optional
//! field that is absent is left out.  Reading a body back gives the action.
use vstd::prelude::*;

use crate::json::{
    add_member, as_str, as_u64, field, field_ref, get, jint, jstr, new_members, object_of,
    opt_as_u64, str_eq, Json, JsonValue,
};
use crate::model::Action;
use crate::text::copy_str;

verus! {

/// An action by its plain values.
pub enum Act {
    PlayCard(u32, Option<Seq<char>>),
    EndTurn,
    UsePotion(u32, Option<Seq<char>>),
    DiscardPotion(u32),
    CombatSelectCard(u32),
    CombatConfirmSelection,
    ClaimReward(u32),
    SelectCardReward(u32),
    SkipCardReward,
    Proceed,
    ChooseMapNode(u32),
    ChooseEventOption(u32),
    AdvanceDialogue,
    ChooseRestOption(u32),
    ShopPurchase(u32),
    SelectCard(u32),
    ConfirmSelection,
    CancelSelection,
    SelectBundle(u32),
    ConfirmBundleSelection,
    CancelBundleSelection,
    SelectRelic(u32),
    SkipRelicSelection,
    ClaimTreasureRelic(u32),
    CrystalSphereSetTool(Seq<char>),
    CrystalSphereClickCell(i32, i32),
    CrystalSphereProceed,
    MenuSelect(Seq<char>, Option<Seq<char>>),
}

pub open spec fn opt_text(o: Option<String>) -> Option<Seq<char>> {
    match o {
        Some(s) => Some(s@),
        None => None,
    }
}

pub open spec fn act_of(a: Action) -> Act {
    match a {
        Action::PlayCard { card_index, target } => Act::PlayCard(card_index, opt_text(target)),
        Action::EndTurn => Act::EndTurn,
        Action::UsePotion { slot, target } => Act::UsePotion(slot, opt_text(target)),
        Action::DiscardPotion { slot } => Act::DiscardPotion(slot),
        Action::CombatSelectCard { card_index } => Act::CombatSelectCard(card_index),
        Action::CombatConfirmSelection => Act::CombatConfirmSelection,
        Action::ClaimReward { index } => Act::ClaimReward(index),
        Action::SelectCardReward { card_index } => Act::SelectCardReward(card_index),
        Action::SkipCardReward => Act::SkipCardReward,
        Action::Proceed => Act::Proceed,
        Action::ChooseMapNode { index } => Act::ChooseMapNode(index),
        Action::ChooseEventOption { index } => Act::ChooseEventOption(index),
        Action::AdvanceDialogue => Act::AdvanceDialogue,
        Action::ChooseRestOption { index } => Act::ChooseRestOption(index),
        Action::ShopPurchase { index } => Act::ShopPurchase(index),
        Action::SelectCard { index } => Act::SelectCard(index),
        Action::ConfirmSelection => Act::ConfirmSelection,
        Action::CancelSelection => Act::CancelSelection,
        Action::SelectBundle { index } => Act::SelectBundle(index),
        Action::ConfirmBundleSelection => Act::ConfirmBundleSelection,
        Action::CancelBundleSelection => Act::CancelBundleSelection,
        Action::SelectRelic { index } => Act::SelectRelic(index),
        Action::SkipRelicSelection => Act::SkipRelicSelection,
        Action::ClaimTreasureRelic { index } => Act::ClaimTreasureRelic(index),
        Action::CrystalSphereSetTool { tool } => Act::CrystalSphereSetTool(tool@),
        Action::CrystalSphereClickCell { x, y } => Act::CrystalSphereClickCell(x, y),
        Action::CrystalSphereProceed => Act::CrystalSphereProceed,
        Action::MenuSelect { option, seed } => Act::MenuSelect(option@, opt_text(seed)),
    }
}

/// `{"action": tag}`.
pub open spec fn tagged(tag: Seq<char>) -> Json {
    Json::Object(seq!["action"@], seq![Json::Str(tag)])
}

/// `{"action": tag, key: n}`.
pub open spec fn tagged_index(tag: Seq<char>, key: Seq<char>, n: u32) -> Json {
    Json::Object(seq!["action"@, key], seq![Json::Str(tag), Json::Int(n as int)])
}

/// `{"action": tag, key: n}` followed by `"target": t` when there is a target.
pub open spec fn tagged_target(tag: Seq<char>, key: Seq<char>, n: u32, target: Option<Seq<char>>) -> Json {
    match target {
        Some(t) => Json::Object(
            seq!["action"@, key, "target"@],
            seq![Json::Str(tag), Json::Int(n as int), Json::Str(t)],
        ),
        None => tagged_index(tag, key, n),
    }
}

/// The request body of an action.
pub open spec fn act_json(a: Act) -> Json {
    match a {
        Act::PlayCard(i, t) => tagged_target("play_card"@, "card_index"@, i, t),
        Act::EndTurn => tagged("end_turn"@),
        Act::UsePotion(s, t) => tagged_target("use_potion"@, "slot"@, s, t),
        Act::DiscardPotion(s) => tagged_index("discard_potion"@, "slot"@, s),
        Act::CombatSelectCard(i) => tagged_index("combat_select_card"@, "card_index"@, i),
        Act::CombatConfirmSelection => tagged("combat_confirm_selection"@),
        Act::ClaimReward(i) => tagged_index("claim_reward"@, "index"@, i),
        Act::SelectCardReward(i) => tagged_index("select_card_reward"@, "card_index"@, i),
        Act::SkipCardReward => tagged("skip_card_reward"@),
        Act::Proceed => tagged("proceed"@),
        Act::ChooseMapNode(i) => tagged_index("choose_map_node"@, "index"@, i),
        Act::ChooseEventOption(i) => tagged_index("choose_event_option"@, "index"@, i),
        Act::AdvanceDialogue => tagged("advance_dialogue"@),
        Act::ChooseRestOption(i) => tagged_index("choose_rest_option"@, "index"@, i),
        Act::ShopPurchase(i) => tagged_index("shop_purchase"@, "index"@, i),
        Act::SelectCard(i) => tagged_index("select_card"@, "index"@, i),
        Act::ConfirmSelection => tagged("confirm_selection"@),
        Act::CancelSelection => tagged("cancel_selection"@),
        Act::SelectBundle(i) => tagged_index("select_bundle"@, "index"@, i),
        Act::ConfirmBundleSelection => tagged("confirm_bundle_selection"@),
        Act::CancelBundleSelection => tagged("cancel_bundle_selection"@),
        Act::SelectRelic(i) => tagged_index("select_relic"@, "index"@, i),
        Act::SkipRelicSelection => tagged("skip_relic_selection"@),
        Act::ClaimTreasureRelic(i) => tagged_index("claim_treasure_relic"@, "index"@, i),
        Act::CrystalSphereSetTool(t) => Json::Object(
            seq!["action"@, "tool"@],
            seq![Json::Str("crystal_sphere_set_tool"@), Json::Str(t)],
        ),
        Act::CrystalSphereClickCell(x, y) => Json::Object(
            seq!["action"@, "x"@, "y"@],
            seq![Json::Str("crystal_sphere_click_cell"@), Json::Int(x as int), Json::Int(y as int)],
        ),
        Act::CrystalSphereProceed => tagged("crystal_sphere_proceed"@),
        Act::MenuSelect(o, s) => match s {
            Some(t) => Json::Object(
                seq!["action"@, "option"@, "seed"@],
                seq![Json::Str("menu_select"@), Json::Str(o), Json::Str(t)],
            ),
            None => Json::Object(
                seq!["action"@, "option"@],
                seq![Json::Str("menu_select"@), Json::Str(o)],
            ),
        },
    }
}

/// A required `u32` member: a non-negative integer that fits.
pub open spec fn u32_field(v: Json, key: Seq<char>) -> Option<u32> {
    match as_u64(field(v, key)) {
        Some(n) => if n <= u32::MAX {
            Some(n as u32)
        } else {
            None
        },
        None => None,
    }
}

/// A required `i32` member.
pub open spec fn i32_field(v: Json, key: Seq<char>) -> Option<i32> {
    match field(v, key) {
        Json::Int(n) => if i32::MIN <= n <= i32::MAX {
            Some(n as i32)
        } else {
            None
        },
        _ => None,
    }
}

/// An optional string member: absent or `null` is `Some(None)`, a string is
/// `Some(Some(s))`, anything else does not read.
pub open spec fn opt_str_field(v: Json, key: Seq<char>) -> Option<Option<Seq<char>>> {
    match field(v, key) {
        Json::Null => Some(None),
        Json::Str(s) => Some(Some(s)),
        _ => None,
    }
}

pub open spec fn with_index(n: Option<u32>, f: spec_fn(u32) -> Act) -> Option<Act> {
    match n {
        Some(i) => Some(f(i)),
        None => None,
    }
}

/// The action whose tag is `tag`, read from the members of `v`.
pub open spec fn act_by_tag(tag: Seq<char>, v: Json) -> Option<Act> {
    if tag == "play_card"@ {
        match (u32_field(v, "card_index"@), opt_str_field(v, "target"@)) {
            (Some(i), Some(t)) => Some(Act::PlayCard(i, t)),
            _ => None,
        }
    } else if tag == "end_turn"@ {
        Some(Act::EndTurn)
    } else if tag == "use_potion"@ {
        match (u32_field(v, "slot"@), opt_str_field(v, "target"@)) {
            (Some(i), Some(t)) => Some(Act::UsePotion(i, t)),
            _ => None,
        }
    } else if tag == "discard_potion"@ {
        with_index(u32_field(v, "slot"@), |i: u32| Act::DiscardPotion(i))
    } else if tag == "combat_select_card"@ {
        with_index(u32_field(v, "card_index"@), |i: u32| Act::CombatSelectCard(i))
    } else if tag == "combat_confirm_selection"@ {
        Some(Act::CombatConfirmSelection)
    } else if tag == "claim_reward"@ {
        with_index(u32_field(v, "index"@), |i: u32| Act::ClaimReward(i))
    } else if tag == "select_card_reward"@ {
        with_index(u32_field(v, "card_index"@), |i: u32| Act::SelectCardReward(i))
    } else if tag == "skip_card_reward"@ {
        Some(Act::SkipCardReward)
    } else if tag == "proceed"@ {
        Some(Act::Proceed)
    } else if tag == "choose_map_node"@ {
        with_index(u32_field(v, "index"@), |i: u32| Act::ChooseMapNode(i))
    } else if tag == "choose_event_option"@ {
        with_index(u32_field(v, "index"@), |i: u32| Act::ChooseEventOption(i))
    } else if tag == "advance_dialogue"@ {
        Some(Act::AdvanceDialogue)
    } else if tag == "choose_rest_option"@ {
        with_index(u32_field(v, "index"@), |i: u32| Act::ChooseRestOption(i))
    } else if tag == "shop_purchase"@ {
        with_index(u32_field(v, "index"@), |i: u32| Act::ShopPurchase(i))
    } else if tag == "select_card"@ {
        with_index(u32_field(v, "index"@), |i: u32| Act::SelectCard(i))
    } else if tag == "confirm_selection"@ {
        Some(Act::ConfirmSelection)
    } else if tag == "cancel_selection"@ {
        Some(Act::CancelSelection)
    } else if tag == "select_bundle"@ {
        with_index(u32_field(v, "index"@), |i: u32| Act::SelectBundle(i))
    } else if tag == "confirm_bundle_selection"@ {
        Some(Act::ConfirmBundleSelection)
    } else if tag == "cancel_bundle_selection"@ {
        Some(Act::CancelBundleSelection)
    } else if tag == "select_relic"@ {
        with_index(u32_field(v, "index"@), |i: u32| Act::SelectRelic(i))
    } else if tag == "skip_relic_selection"@ {
        Some(Act::SkipRelicSelection)
    } else if tag == "claim_treasure_relic"@ {
        with_index(u32_field(v, "index"@), |i: u32| Act::ClaimTreasureRelic(i))
    } else if tag == "crystal_sphere_set_tool"@ {
        match as_str(field(v, "tool"@)) {
            Some(t) => Some(Act::CrystalSphereSetTool(t)),
            None => None,
        }
    } else if tag == "crystal_sphere_click_cell"@ {
        match (i32_field(v, "x"@), i32_field(v, "y"@)) {
            (Some(x), Some(y)) => Some(Act::CrystalSphereClickCell(x, y)),
            _ => None,
        }
    } else if tag == "crystal_sphere_proceed"@ {
        Some(Act::CrystalSphereProceed)
    } else if tag == "menu_select"@ {
        match (as_str(field(v, "option"@)), opt_str_field(v, "seed"@)) {
            (Some(o), Some(s)) => Some(Act::MenuSelect(o, s)),
            _ => None,
        }
    } else {
        None
    }
}

/// The action a request body names: its `action` member must be a string
/// naming an action, and the action's fields must read; other members are
/// ignored.
pub open spec fn act_from_json(v: Json) -> Option<Act> {
    match get(v, "action"@) {
        Some(Json::Str(tag)) => act_by_tag(tag, v),
        _ => None,
    }
}

proof fn lemma_get1(k0: Seq<char>, v0: Json, key: Seq<char>)
    ensures
        get(Json::Object(seq![k0], seq![v0]), key) == (if key == k0 {
            Some(v0)
        } else {
            None
        }),
{
    let ks = seq![k0];
    let vs = seq![v0];
    assert(ks.drop_first() =~= Seq::<Seq<char>>::empty());
    assert(vs.drop_first() =~= Seq::<Json>::empty());
    reveal_with_fuel(crate::json::obj_get, 2);
}

proof fn lemma_get2(k0: Seq<char>, k1: Seq<char>, v0: Json, v1: Json, key: Seq<char>)
    ensures
        get(Json::Object(seq![k0, k1], seq![v0, v1]), key) == (if key == k0 {
            Some(v0)
        } else if key == k1 {
            Some(v1)
        } else {
            None
        }),
{
    let ks = seq![k0, k1];
    let vs = seq![v0, v1];
    assert(ks.drop_first() =~= seq![k1]);
    assert(vs.drop_first() =~= seq![v1]);
    lemma_get1(k1, v1, key);
}

proof fn lemma_get3(k0: Seq<char>, k1: Seq<char>, k2: Seq<char>, v0: Json, v1: Json, v2: Json, key: Seq<char>)
    ensures
        get(Json::Object(seq![k0, k1, k2], seq![v0, v1, v2]), key) == (if key == k0 {
            Some(v0)
        } else if key == k1 {
            Some(v1)
        } else if key == k2 {
            Some(v2)
        } else {
            None
        }),
{
    let ks = seq![k0, k1, k2];
    let vs = seq![v0, v1, v2];
    assert(ks.drop_first() =~= seq![k1, k2]);
    assert(vs.drop_first() =~= seq![v1, v2]);
    lemma_get2(k1, k2, v1, v2, key);
}

/// Reading the request body of an action gives the action back.
pub proof fn lemma_act_roundtrip(a: Act)
    ensures
        act_from_json(act_json(a)) == Some(a),
{
    reveal_strlit("action");
    reveal_strlit("card_index");
    reveal_strlit("target");
    reveal_strlit("slot");
    reveal_strlit("index");
    reveal_strlit("tool");
    reveal_strlit("x");
    reveal_strlit("y");
    reveal_strlit("option");
    reveal_strlit("seed");
    reveal_strlit("play_card");
    reveal_strlit("end_turn");
    reveal_strlit("use_potion");
    reveal_strlit("discard_potion");
    reveal_strlit("combat_select_card");
    reveal_strlit("combat_confirm_selection");
    reveal_strlit("claim_reward");
    reveal_strlit("select_card_reward");
    reveal_strlit("skip_card_reward");
    reveal_strlit("proceed");
    reveal_strlit("choose_map_node");
    reveal_strlit("choose_event_option");
    reveal_strlit("advance_dialogue");
    reveal_strlit("choose_rest_option");
    reveal_strlit("shop_purchase");
    reveal_strlit("select_card");
    reveal_strlit("confirm_selection");
    reveal_strlit("cancel_selection");
    reveal_strlit("select_bundle");
    reveal_strlit("confirm_bundle_selection");
    reveal_strlit("cancel_bundle_selection");
    reveal_strlit("select_relic");
    reveal_strlit("skip_relic_selection");
    reveal_strlit("claim_treasure_relic");
    reveal_strlit("crystal_sphere_set_tool");
    reveal_strlit("crystal_sphere_click_cell");
    reveal_strlit("crystal_sphere_proceed");
    reveal_strlit("menu_select");
    assert("action"@.len() == 6);
    assert("card_index"@.len() == 10);
    assert("target"@.len() == 6);
    assert("slot"@.len() == 4);
    assert("index"@.len() == 5);
    assert("tool"@.len() == 4);
    assert("x"@.len() == 1);
    assert("y"@.len() == 1);
    assert("option"@.len() == 6);
    assert("seed"@.len() == 4);
    assert("play_card"@.len() == 9);
    assert("end_turn"@.len() == 8);
    assert("use_potion"@.len() == 10);
    assert("discard_potion"@.len() == 14);
    assert("combat_select_card"@.len() == 18);
    assert("combat_confirm_selection"@.len() == 24);
    assert("claim_reward"@.len() == 12);
    assert("select_card_reward"@.len() == 18);
    assert("skip_card_reward"@.len() == 16);
    assert("proceed"@.len() == 7);
    assert("choose_map_node"@.len() == 15);
    assert("choose_event_option"@.len() == 19);
    assert("advance_dialogue"@.len() == 16);
    assert("choose_rest_option"@.len() == 18);
    assert("shop_purchase"@.len() == 13);
    assert("select_card"@.len() == 11);
    assert("confirm_selection"@.len() == 17);
    assert("cancel_selection"@.len() == 16);
    assert("select_bundle"@.len() == 13);
    assert("confirm_bundle_selection"@.len() == 24);
    assert("cancel_bundle_selection"@.len() == 23);
    assert("select_relic"@.len() == 12);
    assert("skip_relic_selection"@.len() == 20);
    assert("claim_treasure_relic"@.len() == 20);
    assert("crystal_sphere_set_tool"@.len() == 23);
    assert("crystal_sphere_click_cell"@.len() == 25);
    assert("crystal_sphere_proceed"@.len() == 22);
    assert("menu_select"@.len() == 11);
    assert("action"@[0] == 'a');
    assert("advance_dialogue"@[0] == 'a');
    assert("cancel_bundle_selection"@[1] == 'a');
    assert("cancel_selection"@[0] == 'c');
    assert("card_index"@[0] == 'c');
    assert("choose_rest_option"@[0] == 'c');
    assert("choose_rest_option"@[1] == 'h');
    assert("claim_reward"@[0] == 'c');
    assert("claim_treasure_relic"@[0] == 'c');
    assert("combat_confirm_selection"@[2] == 'm');
    assert("combat_select_card"@[0] == 'c');
    assert("combat_select_card"@[1] == 'o');
    assert("confirm_bundle_selection"@[2] == 'n');
    assert("crystal_sphere_set_tool"@[1] == 'r');
    assert("menu_select"@[0] == 'm');
    assert("option"@[0] == 'o');
    assert("seed"@[0] == 's');
    assert("seed"@[1] == 'e');
    assert("select_bundle"@[1] == 'e');
    assert("select_card"@[0] == 's');
    assert("select_card_reward"@[0] == 's');
    assert("select_relic"@[0] == 's');
    assert("shop_purchase"@[1] == 'h');
    assert("skip_card_reward"@[0] == 's');
    assert("skip_relic_selection"@[0] == 's');
    assert("slot"@[0] == 's');
    assert("slot"@[1] == 'l');
    assert("target"@[0] == 't');
    assert("tool"@[0] == 't');
    assert("use_potion"@[0] == 'u');
    assert("x"@[0] == 'x');
    assert("y"@[0] == 'y');
    match a {
        Act::EndTurn => {
            lemma_get1("action"@, Json::Str("end_turn"@), "action"@);
        },
        Act::CombatConfirmSelection => {
            lemma_get1("action"@, Json::Str("combat_confirm_selection"@), "action"@);
        },
        Act::SkipCardReward => {
            lemma_get1("action"@, Json::Str("skip_card_reward"@), "action"@);
        },
        Act::Proceed => {
            lemma_get1("action"@, Json::Str("proceed"@), "action"@);
        },
        Act::AdvanceDialogue => {
            lemma_get1("action"@, Json::Str("advance_dialogue"@), "action"@);
        },
        Act::ConfirmSelection => {
            lemma_get1("action"@, Json::Str("confirm_selection"@), "action"@);
        },
        Act::CancelSelection => {
            lemma_get1("action"@, Json::Str("cancel_selection"@), "action"@);
        },
        Act::ConfirmBundleSelection => {
            lemma_get1("action"@, Json::Str("confirm_bundle_selection"@), "action"@);
        },
        Act::CancelBundleSelection => {
            lemma_get1("action"@, Json::Str("cancel_bundle_selection"@), "action"@);
        },
        Act::SkipRelicSelection => {
            lemma_get1("action"@, Json::Str("skip_relic_selection"@), "action"@);
        },
        Act::CrystalSphereProceed => {
            lemma_get1("action"@, Json::Str("crystal_sphere_proceed"@), "action"@);
        },
        Act::DiscardPotion(i) => {
            lemma_get2("action"@, "slot"@, Json::Str("discard_potion"@), Json::Int(i as int), "action"@);
            lemma_get2("action"@, "slot"@, Json::Str("discard_potion"@), Json::Int(i as int), "slot"@);
        },
        Act::CombatSelectCard(i) => {
            lemma_get2("action"@, "card_index"@, Json::Str("combat_select_card"@), Json::Int(i as int), "action"@);
            lemma_get2("action"@, "card_index"@, Json::Str("combat_select_card"@), Json::Int(i as int), "card_index"@);
        },
        Act::ClaimReward(i) => {
            lemma_get2("action"@, "index"@, Json::Str("claim_reward"@), Json::Int(i as int), "action"@);
            lemma_get2("action"@, "index"@, Json::Str("claim_reward"@), Json::Int(i as int), "index"@);
        },
        Act::SelectCardReward(i) => {
            lemma_get2("action"@, "card_index"@, Json::Str("select_card_reward"@), Json::Int(i as int), "action"@);
            lemma_get2("action"@, "card_index"@, Json::Str("select_card_reward"@), Json::Int(i as int), "card_index"@);
        },
        Act::ChooseMapNode(i) => {
            lemma_get2("action"@, "index"@, Json::Str("choose_map_node"@), Json::Int(i as int), "action"@);
            lemma_get2("action"@, "index"@, Json::Str("choose_map_node"@), Json::Int(i as int), "index"@);
        },
        Act::ChooseEventOption(i) => {
            lemma_get2("action"@, "index"@, Json::Str("choose_event_option"@), Json::Int(i as int), "action"@);
            lemma_get2("action"@, "index"@, Json::Str("choose_event_option"@), Json::Int(i as int), "index"@);
        },
        Act::ChooseRestOption(i) => {
            lemma_get2("action"@, "index"@, Json::Str("choose_rest_option"@), Json::Int(i as int), "action"@);
            lemma_get2("action"@, "index"@, Json::Str("choose_rest_option"@), Json::Int(i as int), "index"@);
        },
        Act::ShopPurchase(i) => {
            lemma_get2("action"@, "index"@, Json::Str("shop_purchase"@), Json::Int(i as int), "action"@);
            lemma_get2("action"@, "index"@, Json::Str("shop_purchase"@), Json::Int(i as int), "index"@);
        },
        Act::SelectCard(i) => {
            lemma_get2("action"@, "index"@, Json::Str("select_card"@), Json::Int(i as int), "action"@);
            lemma_get2("action"@, "index"@, Json::Str("select_card"@), Json::Int(i as int), "index"@);
        },
        Act::SelectBundle(i) => {
            lemma_get2("action"@, "index"@, Json::Str("select_bundle"@), Json::Int(i as int), "action"@);
            lemma_get2("action"@, "index"@, Json::Str("select_bundle"@), Json::Int(i as int), "index"@);
        },
        Act::SelectRelic(i) => {
            lemma_get2("action"@, "index"@, Json::Str("select_relic"@), Json::Int(i as int), "action"@);
            lemma_get2("action"@, "index"@, Json::Str("select_relic"@), Json::Int(i as int), "index"@);
        },
        Act::ClaimTreasureRelic(i) => {
            lemma_get2("action"@, "index"@, Json::Str("claim_treasure_relic"@), Json::Int(i as int), "action"@);
            lemma_get2("action"@, "index"@, Json::Str("claim_treasure_relic"@), Json::Int(i as int), "index"@);
        },
        Act::PlayCard(i, tg) => {
            match tg {
                Some(x) => {
                    lemma_get3("action"@, "card_index"@, "target"@, Json::Str("play_card"@), Json::Int(i as int), Json::Str(x), "action"@);
                    lemma_get3("action"@, "card_index"@, "target"@, Json::Str("play_card"@), Json::Int(i as int), Json::Str(x), "card_index"@);
                    lemma_get3("action"@, "card_index"@, "target"@, Json::Str("play_card"@), Json::Int(i as int), Json::Str(x), "target"@);
                },
                None => {
                    lemma_get2("action"@, "card_index"@, Json::Str("play_card"@), Json::Int(i as int), "action"@);
                    lemma_get2("action"@, "card_index"@, Json::Str("play_card"@), Json::Int(i as int), "card_index"@);
                    lemma_get2("action"@, "card_index"@, Json::Str("play_card"@), Json::Int(i as int), "target"@);
                },
            }
        },
        Act::UsePotion(i, tg) => {
            match tg {
                Some(x) => {
                    lemma_get3("action"@, "slot"@, "target"@, Json::Str("use_potion"@), Json::Int(i as int), Json::Str(x), "action"@);
                    lemma_get3("action"@, "slot"@, "target"@, Json::Str("use_potion"@), Json::Int(i as int), Json::Str(x), "slot"@);
                    lemma_get3("action"@, "slot"@, "target"@, Json::Str("use_potion"@), Json::Int(i as int), Json::Str(x), "target"@);
                },
                None => {
                    lemma_get2("action"@, "slot"@, Json::Str("use_potion"@), Json::Int(i as int), "action"@);
                    lemma_get2("action"@, "slot"@, Json::Str("use_potion"@), Json::Int(i as int), "slot"@);
                    lemma_get2("action"@, "slot"@, Json::Str("use_potion"@), Json::Int(i as int), "target"@);
                },
            }
        },
        Act::CrystalSphereSetTool(x) => {
            lemma_get2("action"@, "tool"@, Json::Str("crystal_sphere_set_tool"@), Json::Str(x), "action"@);
            lemma_get2("action"@, "tool"@, Json::Str("crystal_sphere_set_tool"@), Json::Str(x), "tool"@);
        },
        Act::CrystalSphereClickCell(x, y) => {
            let t = Json::Str("crystal_sphere_click_cell"@);
            lemma_get3("action"@, "x"@, "y"@, t, Json::Int(x as int), Json::Int(y as int), "action"@);
            lemma_get3("action"@, "x"@, "y"@, t, Json::Int(x as int), Json::Int(y as int), "x"@);
            lemma_get3("action"@, "x"@, "y"@, t, Json::Int(x as int), Json::Int(y as int), "y"@);
        },
        Act::MenuSelect(o, sd) => {
            let t = Json::Str("menu_select"@);
            match sd {
                Some(x) => {
                    lemma_get3("action"@, "option"@, "seed"@, t, Json::Str(o), Json::Str(x), "action"@);
                    lemma_get3("action"@, "option"@, "seed"@, t, Json::Str(o), Json::Str(x), "option"@);
                    lemma_get3("action"@, "option"@, "seed"@, t, Json::Str(o), Json::Str(x), "seed"@);
                },
                None => {
                    lemma_get2("action"@, "option"@, t, Json::Str(o), "action"@);
                    lemma_get2("action"@, "option"@, t, Json::Str(o), "option"@);
                    lemma_get2("action"@, "option"@, t, Json::Str(o), "seed"@);
                },
            }
        },
    }
}

// ---------------------------------------------------------------------------
// Writing a request body
// ---------------------------------------------------------------------------

/// `{"action": tag}`.
fn tagged_body(tag: &str) -> (r: JsonValue)
    ensures
        r@ == tagged(tag@),
{
    let mut ms = new_members();
    add_member(&mut ms, "action", jstr(tag));
    let r = object_of(ms);
    assert(r@->Object_0 =~= seq!["action"@]);
    assert(r@->Object_1 =~= seq![Json::Str(tag@)]);
    r
}

/// `{"action": tag, key: n}`.
fn index_body(tag: &str, key: &str, n: u32) -> (r: JsonValue)
    ensures
        r@ == tagged_index(tag@, key@, n),
{
    let mut ms = new_members();
    add_member(&mut ms, "action", jstr(tag));
    add_member(&mut ms, key, jint(n as i64));
    let r = object_of(ms);
    assert(r@->Object_0 =~= seq!["action"@, key@]);
    assert(r@->Object_1 =~= seq![Json::Str(tag@), Json::Int(n as int)]);
    r
}

/// `{"action": tag, key: n}`, with `"target"` after them when there is one.
fn target_body(tag: &str, key: &str, n: u32, target: &Option<String>) -> (r: JsonValue)
    ensures
        r@ == tagged_target(tag@, key@, n, opt_text(*target)),
{
    match target {
        Some(t) => {
            let mut ms = new_members();
            add_member(&mut ms, "action", jstr(tag));
            add_member(&mut ms, key, jint(n as i64));
            add_member(&mut ms, "target", jstr(t.as_str()));
            let r = object_of(ms);
            assert(r@->Object_0 =~= seq!["action"@, key@, "target"@]);
            assert(r@->Object_1 =~= seq![Json::Str(tag@), Json::Int(n as int), Json::Str(t@)]);
            r
        },
        None => index_body(tag, key, n),
    }
}

/// `{"action": tag, k1: s1, k2: s2}` with two string members.
fn two_str_body(tag: &str, k1: &str, s1: &str, k2: &str, s2: &str) -> (r: JsonValue)
    ensures
        r@ == Json::Object(seq!["action"@, k1@, k2@], seq![Json::Str(tag@), Json::Str(s1@), Json::Str(s2@)]),
{
    let mut ms = new_members();
    add_member(&mut ms, "action", jstr(tag));
    add_member(&mut ms, k1, jstr(s1));
    add_member(&mut ms, k2, jstr(s2));
    let r = object_of(ms);
    assert(r@->Object_0 =~= seq!["action"@, k1@, k2@]);
    assert(r@->Object_1 =~= seq![Json::Str(tag@), Json::Str(s1@), Json::Str(s2@)]);
    r
}

/// `{"action": tag, key: s}` with one string member.
fn str_body(tag: &str, key: &str, s: &str) -> (r: JsonValue)
    ensures
        r@ == Json::Object(seq!["action"@, key@], seq![Json::Str(tag@), Json::Str(s@)]),
{
    let mut ms = new_members();
    add_member(&mut ms, "action", jstr(tag));
    add_member(&mut ms, key, jstr(s));
    let r = object_of(ms);
    assert(r@->Object_0 =~= seq!["action"@, key@]);
    assert(r@->Object_1 =~= seq![Json::Str(tag@), Json::Str(s@)]);
    r
}

/// `{"action": "crystal_sphere_click_cell", "x": x, "y": y}`.
fn cell_body(x: i32, y: i32) -> (r: JsonValue)
    ensures
        r@ == act_json(Act::CrystalSphereClickCell(x, y)),
{
    let mut ms = new_members();
    add_member(&mut ms, "action", jstr("crystal_sphere_click_cell"));
    add_member(&mut ms, "x", jint(x as i64));
    add_member(&mut ms, "y", jint(y as i64));
    let r = object_of(ms);
    assert(r@->Object_0 =~= seq!["action"@, "x"@, "y"@]);
    assert(r@->Object_1 =~= seq![Json::Str("crystal_sphere_click_cell"@), Json::Int(x as int), Json::Int(y as int)]);
    r
}

impl Action {
    /// The body of the request that performs this action: an object whose
    /// `action` member names it in snake case, followed by its fields; an
    /// optional field that is absent is left out.
    pub fn request_body(&self) -> (r: JsonValue)
        ensures
            r@ == act_json(act_of(*self)),
    {
        match self {
            Action::PlayCard { card_index, target } => target_body("play_card", "card_index", *card_index, target),
            Action::EndTurn => tagged_body("end_turn"),
            Action::UsePotion { slot, target } => target_body("use_potion", "slot", *slot, target),
            Action::DiscardPotion { slot } => index_body("discard_potion", "slot", *slot),
            Action::CombatSelectCard { card_index } => index_body("combat_select_card", "card_index", *card_index),
            Action::CombatConfirmSelection => tagged_body("combat_confirm_selection"),
            Action::ClaimReward { index } => index_body("claim_reward", "index", *index),
            Action::SelectCardReward { card_index } => index_body("select_card_reward", "card_index", *card_index),
            Action::SkipCardReward => tagged_body("skip_card_reward"),
            Action::Proceed => tagged_body("proceed"),
            Action::ChooseMapNode { index } => index_body("choose_map_node", "index", *index),
            Action::ChooseEventOption { index } => index_body("choose_event_option", "index", *index),
            Action::AdvanceDialogue => tagged_body("advance_dialogue"),
            Action::ChooseRestOption { index } => index_body("choose_rest_option", "index", *index),
            Action::ShopPurchase { index } => index_body("shop_purchase", "index", *index),
            Action::SelectCard { index } => index_body("select_card", "index", *index),
            Action::ConfirmSelection => tagged_body("confirm_selection"),
            Action::CancelSelection => tagged_body("cancel_selection"),
            Action::SelectBundle { index } => index_body("select_bundle", "index", *index),
            Action::ConfirmBundleSelection => tagged_body("confirm_bundle_selection"),
            Action::CancelBundleSelection => tagged_body("cancel_bundle_selection"),
            Action::SelectRelic { index } => index_body("select_relic", "index", *index),
            Action::SkipRelicSelection => tagged_body("skip_relic_selection"),
            Action::ClaimTreasureRelic { index } => index_body("claim_treasure_relic", "index", *index),
            Action::CrystalSphereSetTool { tool } => str_body("crystal_sphere_set_tool", "tool", tool.as_str()),
            Action::CrystalSphereClickCell { x, y } => cell_body(*x, *y),
            Action::CrystalSphereProceed => tagged_body("crystal_sphere_proceed"),
            Action::MenuSelect { option, seed } => match seed {
                Some(sd) => two_str_body("menu_select", "option", option.as_str(), "seed", sd.as_str()),
                None => str_body("menu_select", "option", option.as_str()),
            },
        }
    }
}

// ---------------------------------------------------------------------------
// Reading a request body
// ---------------------------------------------------------------------------

/// The `u32` member `key` of `v`.
fn read_u32(v: &JsonValue, key: &str) -> (r: Option<u32>)
    ensures
        r == u32_field(v@, key@),
{
    match opt_as_u64(field_ref(Some(v), key)) {
        Some(n) => if n <= 4294967295u64 {
            Some(n as u32)
        } else {
            None
        },
        None => None,
    }
}

/// The `i32` member `key` of `v`.
fn read_i32(v: &JsonValue, key: &str) -> (r: Option<i32>)
    ensures
        r == i32_field(v@, key@),
{
    match v.get(key) {
        Some(JsonValue::Int(n)) => if -2147483648i128 <= *n && *n <= 2147483647i128 {
            Some(*n as i32)
        } else {
            None
        },
        _ => None,
    }
}

/// The string member `key` of `v`.
fn read_str(v: &JsonValue, key: &str) -> (r: Option<String>)
    ensures
        match r {
            Some(s) => as_str(field(v@, key@)) == Some(s@),
            None => as_str(field(v@, key@)) is None,
        },
{
    match v.get(key) {
        Some(JsonValue::Str(s)) => Some(copy_str(s.as_str())),
        _ => None,
    }
}

/// The optional string member `key` of `v`: absent or `null` is `Some(None)`.
fn read_opt_str(v: &JsonValue, key: &str) -> (r: Option<Option<String>>)
    ensures
        match r {
            Some(o) => opt_str_field(v@, key@) == Some(opt_text(o)),
            None => opt_str_field(v@, key@) is None,
        },
{
    match v.get(key) {
        None => Some(None),
        Some(JsonValue::Null) => Some(None),
        Some(JsonValue::Str(s)) => Some(Some(copy_str(s.as_str()))),
        _ => None,
    }
}

/// Reads the fields of the action whose tag is `tag` from the members of `v`.
fn action_by_tag(tag: &str, v: &JsonValue) -> (r: Option<Action>)
    ensures
        match r {
            Some(a) => act_by_tag(tag@, v@) == Some(act_of(a)),
            None => act_by_tag(tag@, v@) is None,
        },
{
    if str_eq(tag, "play_card") {
        match (read_u32(v, "card_index"), read_opt_str(v, "target")) {
            (Some(i), Some(t)) => Some(Action::PlayCard { card_index: i, target: t }),
            _ => None,
        }
    } else if str_eq(tag, "end_turn") {
        Some(Action::EndTurn)
    } else if str_eq(tag, "use_potion") {
        match (read_u32(v, "slot"), read_opt_str(v, "target")) {
            (Some(i), Some(t)) => Some(Action::UsePotion { slot: i, target: t }),
            _ => None,
        }
    } else if str_eq(tag, "discard_potion") {
        match read_u32(v, "slot") {
            Some(i) => Some(Action::DiscardPotion { slot: i }),
            None => None,
        }
    } else if str_eq(tag, "combat_select_card") {
        match read_u32(v, "card_index") {
            Some(i) => Some(Action::CombatSelectCard { card_index: i }),
            None => None,
        }
    } else if str_eq(tag, "combat_confirm_selection") {
        Some(Action::CombatConfirmSelection)
    } else if str_eq(tag, "claim_reward") {
        match read_u32(v, "index") {
            Some(i) => Some(Action::ClaimReward { index: i }),
            None => None,
        }
    } else if str_eq(tag, "select_card_reward") {
        match read_u32(v, "card_index") {
            Some(i) => Some(Action::SelectCardReward { card_index: i }),
            None => None,
        }
    } else if str_eq(tag, "skip_card_reward") {
        Some(Action::SkipCardReward)
    } else if str_eq(tag, "proceed") {
        Some(Action::Proceed)
    } else if str_eq(tag, "choose_map_node") {
        match read_u32(v, "index") {
            Some(i) => Some(Action::ChooseMapNode { index: i }),
            None => None,
        }
    } else if str_eq(tag, "choose_event_option") {
        match read_u32(v, "index") {
            Some(i) => Some(Action::ChooseEventOption { index: i }),
            None => None,
        }
    } else if str_eq(tag, "advance_dialogue") {
        Some(Action::AdvanceDialogue)
    } else if str_eq(tag, "choose_rest_option") {
        match read_u32(v, "index") {
            Some(i) => Some(Action::ChooseRestOption { index: i }),
            None => None,
        }
    } else if str_eq(tag, "shop_purchase") {
        match read_u32(v, "index") {
            Some(i) => Some(Action::ShopPurchase { index: i }),
            None => None,
        }
    } else if str_eq(tag, "select_card") {
        match read_u32(v, "index") {
            Some(i) => Some(Action::SelectCard { index: i }),
            None => None,
        }
    } else if str_eq(tag, "confirm_selection") {
        Some(Action::ConfirmSelection)
    } else if str_eq(tag, "cancel_selection") {
        Some(Action::CancelSelection)
    } else if str_eq(tag, "select_bundle") {
        match read_u32(v, "index") {
            Some(i) => Some(Action::SelectBundle { index: i }),
            None => None,
        }
    } else if str_eq(tag, "confirm_bundle_selection") {
        Some(Action::ConfirmBundleSelection)
    } else if str_eq(tag, "cancel_bundle_selection") {
        Some(Action::CancelBundleSelection)
    } else if str_eq(tag, "select_relic") {
        match read_u32(v, "index") {
            Some(i) => Some(Action::SelectRelic { index: i }),
            None => None,
        }
    } else if str_eq(tag, "skip_relic_selection") {
        Some(Action::SkipRelicSelection)
    } else if str_eq(tag, "claim_treasure_relic") {
        match read_u32(v, "index") {
            Some(i) => Some(Action::ClaimTreasureRelic { index: i }),
            None => None,
        }
    } else if str_eq(tag, "crystal_sphere_set_tool") {
        match read_str(v, "tool") {
            Some(t) => Some(Action::CrystalSphereSetTool { tool: t }),
            None => None,
        }
    } else if str_eq(tag, "crystal_sphere_click_cell") {
        match (read_i32(v, "x"), read_i32(v, "y")) {
            (Some(x), Some(y)) => Some(Action::CrystalSphereClickCell { x, y }),
            _ => None,
        }
    } else if str_eq(tag, "crystal_sphere_proceed") {
        Some(Action::CrystalSphereProceed)
    } else if str_eq(tag, "menu_select") {
        match (read_str(v, "option"), read_opt_str(v, "seed")) {
            (Some(o), Some(sd)) => Some(Action::MenuSelect { option: o, seed: sd }),
            _ => None,
        }
    } else {
        None
    }
}

impl Action {
    /// Reads an action back from a request body: its `action` member must be
    /// a string naming an action and the action's fields must read (an
    /// optional field may be absent or `null`); other members are ignored.
    pub fn from_request_body(v: &JsonValue) -> (r: Option<Action>)
        ensures
            match r {
                Some(a) => act_from_json(v@) == Some(act_of(a)),
                None => act_from_json(v@) is None,
            },
    {
        match v.get("action") {
            Some(JsonValue::Str(tag)) => action_by_tag(tag.as_str(), v),
            _ => None,
        }
    }
}

} // verus!
