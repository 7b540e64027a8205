use std::collections::VecDeque;

use chrysanthemum::action::{MessageAction, MessageFilterAction};
use chrysanthemum::extract::Extractors;
use chrysanthemum::filter::{MessageFilter, MessageFilterRule};
use chrysanthemum::message::{
    clean_mentions, filter_and_spam_check_message, filter_message, spam_check_message,
    MessageFilterFailure, SPAM_FILTER_NAME,
};
use chrysanthemum::model::{Mention, MessageInfo};
use chrysanthemum::pattern::Pattern;
use chrysanthemum::scoping::Scoping;
use chrysanthemum::spam::{SpamFilter, SpamRecord};

const MESSAGE_ID: u64 = 1;
const CHANNEL_ID: u64 = 2;
const USER_ID: u64 = 3;
const GUILD_ID: u64 = 4;
const GOOD_CONTENT: &str = "this is an okay message https://discord.gg/ discord.gg/roblox";
const BAD_CONTENT: &str = "asdf bad message z\u{0337}\u{0314}\u{0352}\u{0304}\u{0302}\u{0312}\u{034b}\u{0314}\u{0300}\u{0312}\u{0351}\u{0308}\u{0305}\u{030d}\u{0310}\u{0348}\u{0353}\u{0322}\u{0325}\u{0324}\u{0355}\u{0330}\u{0324}a\u{0336}\u{033f}\u{0318}\u{032c}\u{0321}\u{032f}\u{0329}\u{0323}\u{032a}\u{0324}\u{0339}\u{0316}\u{0353}\u{0349}l\u{0337}\u{0315}\u{034a}\u{034a}\u{0340}\u{0341}\u{033d}\u{0311}\u{033c}\u{032c}g\u{0335}\u{0344}\u{0304}\u{034c}\u{0344}\u{0315}\u{034a}\u{030c}\u{030b}\u{034b}\u{0358}\u{0311}\u{030c}\u{0358}\u{031d}\u{0317}\u{0347}\u{0347}o\u{0335}\u{0351}\u{0300}\u{0302}\u{0357}\u{0341}\u{0344}\u{0340}\u{031b}\u{0330}\u{0331}\u{031f}\u{0322}  https://example.com/ discord.gg/evilserver";

fn message(content: &str) -> MessageInfo {
    MessageInfo {
        author_is_bot: false,
        id: MESSAGE_ID,
        author_id: USER_ID,
        channel_id: CHANNEL_ID,
        guild_id: Some(GUILD_ID),
        author_roles: vec![],
        content: content.to_string(),
        timestamp: 100_000_000,
        attachments: vec![],
        stickers: vec![],
    }
}

fn message_at_time(content: &str, seconds: i64) -> MessageInfo {
    let mut info = message(content);
    info.timestamp = seconds * 1_000_000;
    info
}

fn ex() -> Extractors {
    Extractors::new().unwrap()
}

fn bad_words(pattern: &str) -> Vec<MessageFilterRule> {
    vec![MessageFilterRule::Words { words: Pattern::new(pattern, false).unwrap() }]
}

fn include_own_channel() -> Option<Scoping> {
    Some(Scoping { include_channels: Some(vec![CHANNEL_ID]), ..Default::default() })
}

fn delete() -> MessageAction {
    MessageAction::Delete { message_id: MESSAGE_ID, channel_id: CHANNEL_ID }
}

#[test]
fn message_filter_basic() {
    let filters = vec![MessageFilter {
        name: "first".to_string(),
        rules: bad_words("\\b(bad)\\b"),
        scoping: include_own_channel(),
        actions: Some(vec![
            MessageFilterAction::Delete,
            MessageFilterAction::SendMessage {
                channel_id: 1,
                content: "$USER_ID\n$FILTER_REASON\n$MESSAGE_PREVIEW".to_string(),
                requires_armed: false,
            },
            MessageFilterAction::SendLog { channel_id: 1 },
        ]),
    }];

    let message = message(BAD_CONTENT);
    let result = filter_message(&ex(), &filters, None, None, &message, "message create");
    assert_eq!(
        result,
        Err(MessageFilterFailure {
            filter_name: "first".to_owned(),
            context: "message create".to_owned(),
            actions: vec![
                delete(),
                MessageAction::SendMessage {
                    to: 1,
                    content: format!("3\ncontains word `bad`\n{}", BAD_CONTENT),
                    requires_armed: false,
                },
                MessageAction::SendLog {
                    to: 1,
                    filter_name: "first".to_owned(),
                    message_channel: CHANNEL_ID,
                    content: BAD_CONTENT.to_owned(),
                    filter_reason: "contains word `bad`".to_owned(),
                    author: USER_ID,
                    context: "message create".to_owned(),
                }
            ],
        })
    )
}

#[test]
fn message_use_default_scoping_if_no_scoping() {
    let filters = vec![MessageFilter {
        name: "first".to_string(),
        rules: bad_words("\\b(bad)\\b"),
        scoping: None,
        actions: Some(vec![MessageFilterAction::Delete]),
    }];
    let default_scoping = Scoping { include_channels: Some(vec![CHANNEL_ID]), ..Default::default() };

    let message = message(BAD_CONTENT);
    let result = filter_message(&ex(), &filters, Some(&default_scoping), None, &message, "message create");
    assert_eq!(
        result,
        Err(MessageFilterFailure {
            filter_name: "first".to_owned(),
            context: "message create".to_owned(),
            actions: vec![delete()],
        })
    );
}

#[test]
fn message_scoping_overrides_default_scoping() {
    let filters = vec![MessageFilter {
        name: "first".to_string(),
        rules: bad_words("\\b(bad)\\b"),
        scoping: include_own_channel(),
        actions: Some(vec![MessageFilterAction::Delete]),
    }];
    let default_scoping = Scoping { exclude_channels: Some(vec![CHANNEL_ID]), ..Default::default() };

    let message = message(BAD_CONTENT);
    let result = filter_message(&ex(), &filters, Some(&default_scoping), None, &message, "message create");
    assert_eq!(
        result,
        Err(MessageFilterFailure {
            filter_name: "first".to_owned(),
            context: "message create".to_owned(),
            actions: vec![delete()],
        })
    );
}

#[test]
fn message_evaluate_filters_in_order() {
    let filters = vec![
        MessageFilter {
            name: "first".to_string(),
            rules: bad_words("\\b(bad)\\b"),
            scoping: None,
            actions: Some(vec![MessageFilterAction::Delete]),
        },
        MessageFilter {
            name: "second".to_string(),
            rules: bad_words("\\b(bad|special)\\b"),
            scoping: None,
            actions: Some(vec![MessageFilterAction::Delete]),
        },
    ];
    let default_scoping = Scoping { include_channels: Some(vec![CHANNEL_ID]), ..Default::default() };

    let first = message(BAD_CONTENT);
    let result = filter_message(&ex(), &filters, Some(&default_scoping), None, &first, "message create");
    assert_eq!(
        result,
        Err(MessageFilterFailure {
            filter_name: "first".to_owned(),
            context: "message create".to_owned(),
            actions: vec![delete()],
        })
    );

    let second_message = message("special message");
    let result = filter_message(&ex(), &filters, Some(&default_scoping), None, &second_message, "message create");
    assert_eq!(
        result,
        Err(MessageFilterFailure {
            filter_name: "second".to_owned(),
            context: "message create".to_owned(),
            actions: vec![delete()],
        })
    );
}

#[test]
fn message_use_default_actions_if_no_actions() {
    let filters = vec![MessageFilter {
        name: "first".to_string(),
        rules: bad_words("\\b(bad)\\b"),
        scoping: include_own_channel(),
        actions: None,
    }];
    let default_actions = vec![MessageFilterAction::Delete];

    let message = message(BAD_CONTENT);
    let result = filter_message(&ex(), &filters, None, Some(&default_actions), &message, "message create");
    assert_eq!(
        result,
        Err(MessageFilterFailure {
            filter_name: "first".to_owned(),
            context: "message create".to_owned(),
            actions: vec![delete()],
        })
    );
}

#[test]
fn message_use_no_actions_if_none_are_specified() {
    let filters = vec![MessageFilter {
        name: "first".to_string(),
        rules: bad_words("\\b(bad)\\b"),
        scoping: include_own_channel(),
        actions: None,
    }];

    let message = message(BAD_CONTENT);
    let result = filter_message(&ex(), &filters, None, None, &message, "message create");
    assert_eq!(
        result,
        Err(MessageFilterFailure {
            filter_name: "first".to_owned(),
            context: "message create".to_owned(),
            actions: vec![],
        })
    );
}

#[test]
fn message_actions_override_default_actions() {
    let filters = vec![MessageFilter {
        name: "first".to_string(),
        rules: bad_words("\\b(bad)\\b"),
        scoping: include_own_channel(),
        actions: Some(vec![MessageFilterAction::SendMessage {
            channel_id: 2,
            content: "filtered".to_owned(),
            requires_armed: false,
        }]),
    }];
    let default_actions = vec![MessageFilterAction::Delete];

    let message = message(BAD_CONTENT);
    let result = filter_message(&ex(), &filters, None, Some(&default_actions), &message, "message create");
    assert_eq!(
        result,
        Err(MessageFilterFailure {
            filter_name: "first".to_owned(),
            context: "message create".to_owned(),
            actions: vec![MessageAction::SendMessage {
                to: 2,
                content: "filtered".to_owned(),
                requires_armed: false,
            }],
        })
    );
}

#[test]
fn message_pass_if_no_filters_filter() {
    let filters = vec![MessageFilter {
        name: "first".to_string(),
        rules: bad_words("\\b(bad)\\b"),
        scoping: include_own_channel(),
        actions: Some(vec![MessageFilterAction::Delete]),
    }];

    let message = message(GOOD_CONTENT);
    let result = filter_message(&ex(), &filters, None, None, &message, "message create");
    assert_eq!(result, Ok(()));
}

#[test]
fn message_out_of_scope_is_skipped() {
    let filters = vec![MessageFilter {
        name: "first".to_string(),
        rules: bad_words("\\b(bad)\\b"),
        scoping: Some(Scoping { include_channels: Some(vec![CHANNEL_ID + 1]), ..Default::default() }),
        actions: Some(vec![MessageFilterAction::Delete]),
    }];
    let message = message(BAD_CONTENT);
    assert_eq!(filter_message(&ex(), &filters, None, None, &message, "message create"), Ok(()));
}

#[test]
fn spam_check() {
    let spam_config = SpamFilter {
        duplicates: Some(1),
        actions: Some(vec![MessageFilterAction::Delete]),
        ..Default::default()
    };

    let mut history: VecDeque<SpamRecord> = VecDeque::new();
    let first = message_at_time(BAD_CONTENT, 10);
    let result = spam_check_message(&ex(), &spam_config, None, None, &mut history, &first, "message create", 20);
    assert_eq!(result, Ok(()));

    let second_message = message_at_time(BAD_CONTENT, 30);
    let result = spam_check_message(&ex(), &spam_config, None, None, &mut history, &second_message, "message create", 40);
    assert_eq!(
        result,
        Err(MessageFilterFailure {
            filter_name: SPAM_FILTER_NAME.to_string(),
            context: "message create".to_owned(),
            actions: vec![delete()]
        })
    );
}

#[test]
fn spam_check_use_default_scoping_if_no_scoping() {
    let spam_config = SpamFilter {
        spoilers: Some(1),
        actions: Some(vec![MessageFilterAction::Delete]),
        ..Default::default()
    };
    let default_scoping = Scoping { exclude_channels: Some(vec![CHANNEL_ID]), ..Default::default() };

    let mut history: VecDeque<SpamRecord> = VecDeque::new();
    let message = message_at_time("|| || || ||", 10);
    let result = spam_check_message(&ex(), &spam_config, Some(&default_scoping), None, &mut history, &message, "message create", 20);
    assert_eq!(result, Ok(()));
    assert_eq!(history.len(), 0);
}

#[test]
fn spam_check_scoping_overrides_default_scoping() {
    let spam_config = SpamFilter {
        spoilers: Some(1),
        actions: Some(vec![MessageFilterAction::Delete]),
        scoping: include_own_channel(),
        ..Default::default()
    };
    let default_scoping = Scoping { exclude_channels: Some(vec![CHANNEL_ID]), ..Default::default() };

    let mut history: VecDeque<SpamRecord> = VecDeque::new();
    let message = message_at_time("|| || || ||", 10);
    let result = spam_check_message(&ex(), &spam_config, Some(&default_scoping), None, &mut history, &message, "message create", 20);
    assert_eq!(
        result,
        Err(MessageFilterFailure {
            filter_name: SPAM_FILTER_NAME.to_string(),
            context: "message create".to_owned(),
            actions: vec![delete()]
        })
    );
}

#[test]
fn spam_check_use_default_actions_if_no_actions() {
    let spam_config = SpamFilter { spoilers: Some(1), actions: None, scoping: None, ..Default::default() };
    let default_actions = vec![MessageFilterAction::Delete];

    let mut history: VecDeque<SpamRecord> = VecDeque::new();
    let message = message_at_time("|| || || ||", 10);
    let result = spam_check_message(&ex(), &spam_config, None, Some(&default_actions), &mut history, &message, "message create", 20);
    assert_eq!(
        result,
        Err(MessageFilterFailure {
            filter_name: SPAM_FILTER_NAME.to_string(),
            context: "message create".to_owned(),
            actions: vec![delete()]
        })
    );
}

#[test]
fn spam_check_actions_override_default_actions() {
    let spam_config = SpamFilter {
        spoilers: Some(1),
        actions: Some(vec![MessageFilterAction::Delete]),
        scoping: None,
        ..Default::default()
    };
    let default_actions = vec![];

    let mut history: VecDeque<SpamRecord> = VecDeque::new();
    let message = message_at_time("|| || || ||", 10);
    let result = spam_check_message(&ex(), &spam_config, None, Some(&default_actions), &mut history, &message, "message create", 20);
    assert_eq!(
        result,
        Err(MessageFilterFailure {
            filter_name: SPAM_FILTER_NAME.to_string(),
            context: "message create".to_owned(),
            actions: vec![delete()]
        })
    );
}

#[test]
fn spam_check_after_filters() {
    let filters = vec![MessageFilter {
        name: "first".to_string(),
        rules: bad_words("\\b(bad)\\b"),
        scoping: None,
        actions: Some(vec![MessageFilterAction::Delete]),
    }];
    let spam_config = SpamFilter {
        duplicates: Some(1),
        actions: Some(vec![MessageFilterAction::Delete]),
        ..Default::default()
    };

    let mut history: VecDeque<SpamRecord> = VecDeque::new();
    let message = message_at_time(BAD_CONTENT, 10);
    let result = filter_and_spam_check_message(&ex(), Some(&spam_config), &filters, None, None, &mut history, &message, "message create", 20);
    assert_eq!(
        result,
        Err(MessageFilterFailure {
            filter_name: "first".to_string(),
            context: "message create".to_owned(),
            actions: vec![delete()]
        })
    );

    let second_message = message_at_time(BAD_CONTENT, 30);
    let result = filter_and_spam_check_message(&ex(), Some(&spam_config), &filters, None, None, &mut history, &second_message, "message create", 40);
    assert_eq!(
        result,
        Err(MessageFilterFailure {
            filter_name: "first".to_string(),
            context: "message create".to_owned(),
            actions: vec![delete()]
        })
    );
    assert_eq!(history.len(), 0);
}

#[test]
fn spam_window_expires() {
    let spam_config = SpamFilter {
        duplicates: Some(1),
        interval: 30,
        actions: Some(vec![MessageFilterAction::Delete]),
        ..Default::default()
    };
    let mut history: VecDeque<SpamRecord> = VecDeque::new();
    let filters: Vec<MessageFilter> = vec![];

    let m = message_at_time("x", 5);
    let r = filter_and_spam_check_message(&ex(), Some(&spam_config), &filters, None, None, &mut history, &m, "message create", 5_000_000);
    assert_eq!(r, Ok(()));

    let m = message_at_time("x", 15);
    let r = filter_and_spam_check_message(&ex(), Some(&spam_config), &filters, None, None, &mut history, &m, "message create", 20_000_000);
    assert_eq!(r.unwrap_err().filter_name, "Spam");

    let m = message_at_time("x", 45);
    let r = filter_and_spam_check_message(&ex(), Some(&spam_config), &filters, None, None, &mut history, &m, "message create", 60_000_000);
    assert_eq!(r, Ok(()));
}

#[test]
fn clean_message_mentions() {
    let mention = Mention { id: 5, name: "someone".to_owned(), nick: None };
    let name = mention.name.clone();

    let result = clean_mentions(&format!("Hey <@{}>", mention.id), &[mention]);

    assert_eq!(result, format!("Hey @{}", name));
}

#[test]
fn clean_mentions_prefers_nickname() {
    let mention = Mention { id: 7, name: "someone".to_owned(), nick: Some("nick".to_owned()) };
    let result = clean_mentions("<@7> and <@7>, not <@70>", &[mention]);
    assert_eq!(result, "@nick and @nick, not <@70>");
}

#[test]
fn preview_is_truncated_with_ellipsis() {
    let long = "é".repeat(1500);
    let filters = vec![MessageFilter {
        name: "first".to_string(),
        rules: bad_words("\\b(bad)\\b"),
        scoping: None,
        actions: Some(vec![MessageFilterAction::SendMessage {
            channel_id: 9,
            content: "$MESSAGE_PREVIEW".to_string(),
            requires_armed: true,
        }]),
    }];
    let message = message(&format!("bad {}", long));
    let result = filter_message(&ex(), &filters, None, None, &message, "message create").unwrap_err();
    match &result.actions[0] {
        MessageAction::SendMessage { content, requires_armed, .. } => {
            assert!(*requires_armed);
            assert!(content.ends_with('…'));
            assert!(content.len() <= 2000);
            assert_eq!(content.len(), 1964 + 3);
            assert!(content.starts_with("bad é"));
        }
        other => panic!("unexpected action {:?}", other),
    }
}
