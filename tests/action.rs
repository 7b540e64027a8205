use chrysanthemum::preview::format_message_preview;
use chrysanthemum::action::{
    plan_message_actions, plan_reaction_actions, timeout_expiry, MessageAction, ReactionAction,
};
use chrysanthemum::model::ReactionType;

fn delete() -> MessageAction {
    MessageAction::Delete { message_id: 1, channel_id: 2 }
}

fn log() -> MessageAction {
    MessageAction::SendLog {
        to: 9,
        filter_name: "f".to_owned(),
        message_channel: 2,
        content: String::new(),
        filter_reason: "r".to_owned(),
        author: 3,
        context: "message create".to_owned(),
    }
}

#[test]
fn at_most_one_delete_runs() {
    let actions = vec![delete(), log(), delete(), delete()];
    let plan = plan_message_actions(&actions, true);
    assert_eq!(plan, vec![0, 1]);
    let deletes = plan.iter().filter(|i| actions[**i].is_delete()).count();
    assert_eq!(deletes, 1);
}

#[test]
fn unarmed_runs_only_safe_actions() {
    let send = |armed: bool| MessageAction::SendMessage { to: 1, content: "x".to_owned(), requires_armed: armed };
    let actions = vec![delete(), send(true), send(false), log(), delete()];
    assert_eq!(plan_message_actions(&actions, false), vec![2, 3]);
    assert_eq!(plan_message_actions(&actions, true), vec![0, 1, 2, 3]);
}

#[test]
fn requires_armed_per_kind() {
    assert!(delete().requires_armed());
    assert!(!log().requires_armed());
    assert!(MessageAction::Kick { user_id: 1, guild_id: None, reason: String::new() }.requires_armed());
    assert!(MessageAction::Ban { user_id: 1, guild_id: None, delete_message_seconds: 0, reason: String::new() }.requires_armed());
    assert!(MessageAction::Timeout { user_id: 1, guild_id: None, reason: String::new(), duration: 5 }.requires_armed());
}

#[test]
fn reaction_plan_dedups_deletes() {
    let d = || ReactionAction::Delete { message_id: 1, channel_id: 2, reaction: ReactionType::Unicode { name: "x".to_owned() } };
    let actions = vec![d(), d()];
    assert_eq!(plan_reaction_actions(&actions, true), vec![0]);
    assert_eq!(plan_reaction_actions(&actions, false), Vec::<usize>::new());
}

#[test]
fn timeout_expiry_adds_duration() {
    assert_eq!(timeout_expiry(1_000, 60), Some(1_060));
    assert_eq!(timeout_expiry(i64::MAX, 1), None);
}

#[test]
fn preview_fits_whole_content() {
    assert_eq!(format_message_preview("[$MESSAGE_PREVIEW]".to_owned(), "hello"), "[hello]");
    assert_eq!(format_message_preview("no placeholder".to_owned(), "hello"), "no placeholder");
    let out = format_message_preview("$MESSAGE_PREVIEW".to_owned(), &"a".repeat(3000));
    assert_eq!(out, format!("{}…", "a".repeat(1965)));
}
