use std::collections::VecDeque;

use chrysanthemum::extract::Extractors;
use chrysanthemum::model::{Attachment, MessageInfo};
use chrysanthemum::spam::{check_spam_record, exceeds_spam_thresholds, SpamFilter, SpamRecord};

const MESSAGE_ID: u64 = 1;
const CHANNEL_ID: u64 = 2;
const USER_ID: u64 = 3;
const GUILD_ID: u64 = 4;
const GOOD_CONTENT: &str = "this is an okay message https://discord.gg/ discord.gg/roblox";
const BAD_CONTENT: &str = "asdf bad message z\u{0337}\u{0314}\u{0352}\u{0304}\u{0302}\u{0312}\u{034b}\u{0314}\u{0300}\u{0312}\u{0351}\u{0308}\u{0305}\u{030d}\u{0310}\u{0348}\u{0353}\u{0322}\u{0325}\u{0324}\u{0355}\u{0330}\u{0324}a\u{0336}\u{033f}\u{0318}\u{032c}\u{0321}\u{032f}\u{0329}\u{0323}\u{032a}\u{0324}\u{0339}\u{0316}\u{0353}\u{0349}l\u{0337}\u{0315}\u{034a}\u{034a}\u{0340}\u{0341}\u{033d}\u{0311}\u{033c}\u{032c}g\u{0335}\u{0344}\u{0304}\u{034c}\u{0344}\u{0315}\u{034a}\u{030c}\u{030b}\u{034b}\u{0358}\u{0311}\u{030c}\u{0358}\u{031d}\u{0317}\u{0347}\u{0347}o\u{0335}\u{0351}\u{0300}\u{0302}\u{0357}\u{0341}\u{0344}\u{0340}\u{031b}\u{0330}\u{0331}\u{031f}\u{0322}  https://example.com/ discord.gg/evilserver";

fn message(content: &str) -> MessageInfo {
    MessageInfo {
        author_is_bot: false,
        id: MESSAGE_ID,
        author_id: USER_ID,
        channel_id: CHANNEL_ID,
        guild_id: Some(GUILD_ID),
        author_roles: vec![],
        content: content.to_string(),
        timestamp: 100_000_000,
        attachments: vec![],
        stickers: vec![],
    }
}

fn message_at_time(content: &str, seconds: i64) -> MessageInfo {
    let mut info = message(content);
    info.timestamp = seconds * 1_000_000;
    info
}

fn record(content: &str, spoilers: u8, emoji: u8, links: u8, mentions: u8, attachments: u8, sent_at: i64) -> SpamRecord {
    SpamRecord { content: content.to_owned(), spoilers, emoji, links, mentions, attachments, sent_at }
}

#[test]
fn spam_record_creation() {
    let ex = Extractors::new().unwrap();
    let mut info = message("test message https://discord.gg/ ||spoiler|| 💟 <@123>");
    info.id = 1;
    info.author_id = 1;
    info.channel_id = 1;
    info.guild_id = Some(1);
    info.attachments = vec![Attachment { content_type: Some("image/jpg".to_owned()) }];

    let record = SpamRecord::from_message(&ex, &info);
    assert_eq!(record.content, info.content);
    assert_eq!(record.spoilers, 1);
    assert_eq!(record.emoji, 1);
    assert_eq!(record.links, 1);
    assert_eq!(record.mentions, 1);
    assert_eq!(record.attachments, 1);
    assert_eq!(record.sent_at, 100_000_000);
}

fn setup_for_testing() -> (VecDeque<SpamRecord>, SpamFilter) {
    let mut history = VecDeque::new();
    let config = SpamFilter {
        emoji: Some(2),
        duplicates: Some(1),
        links: Some(2),
        attachments: Some(2),
        spoilers: Some(2),
        mentions: Some(2),
        interval: 30,
        actions: None,
        scoping: None,
    };
    history.push_back(record("asdf", 1, 1, 1, 1, 1, 0));
    (history, config)
}

#[test]
fn spam_checker_noop() {
    let (history, config) = setup_for_testing();
    let succeeding_record = record("not asdf", 0, 0, 0, 0, 0, 10);
    let result = exceeds_spam_thresholds(&history, &succeeding_record, &config);
    assert_eq!(result, Ok(()))
}

#[test]
fn content_spam_checker() {
    let (history, config) = setup_for_testing();
    let failing_record = record("asdf", 0, 0, 0, 0, 0, 10);
    let result = exceeds_spam_thresholds(&history, &failing_record, &config);
    assert_eq!(result, Err("sent too many duplicate messages".to_owned()));
}

#[test]
fn emoji_spam_checker() {
    let (history, config) = setup_for_testing();
    let failing_record = record("foo", 0, 2, 0, 0, 0, 10);
    let result = exceeds_spam_thresholds(&history, &failing_record, &config);
    assert_eq!(result, Err("sent too many emoji".to_owned()));
}

#[test]
fn link_spam_checker() {
    let (history, config) = setup_for_testing();
    let failing_record = record("foo", 0, 0, 2, 0, 0, 10);
    let result = exceeds_spam_thresholds(&history, &failing_record, &config);
    assert_eq!(result, Err("sent too many links".to_owned()));
}

#[test]
fn mention_spam_checker() {
    let (history, config) = setup_for_testing();
    let failing_record = record("foo", 0, 0, 0, 2, 0, 10);
    let result = exceeds_spam_thresholds(&history, &failing_record, &config);
    assert_eq!(result, Err("sent too many mentions".to_owned()));
}

#[test]
fn attachment_spam_checker() {
    let (history, config) = setup_for_testing();
    let failing_record = record("foo", 0, 0, 0, 0, 2, 10);
    let result = exceeds_spam_thresholds(&history, &failing_record, &config);
    assert_eq!(result, Err("sent too many attachments".to_owned()));
}

#[test]
fn spoiler_spam_checker() {
    let (history, config) = setup_for_testing();
    let failing_record = record("foo", 2, 0, 0, 0, 0, 10);
    let result = exceeds_spam_thresholds(&history, &failing_record, &config);
    assert_eq!(result, Err("sent too many spoilers".to_owned()));
}

#[test]
fn threshold_needs_own_contribution() {
    let (history, config) = setup_for_testing();
    let mut history = history;
    history.push_back(record("x", 0, 5, 0, 0, 0, 5));
    let quiet = record("foo", 0, 0, 0, 0, 0, 10);
    assert_eq!(exceeds_spam_thresholds(&history, &quiet, &config), Ok(()));
}

#[test]
fn counters_saturate() {
    let config = SpamFilter { emoji: Some(254), ..Default::default() };
    let mut history = VecDeque::new();
    history.push_back(record("a", 0, 200, 0, 0, 0, 0));
    history.push_back(record("b", 0, 200, 0, 0, 0, 0));
    let current = record("c", 0, 1, 0, 0, 0, 0);
    assert_eq!(exceeds_spam_thresholds(&history, &current, &config), Err("sent too many emoji".to_owned()));
}

#[test]
fn remove_old_records() {
    let ex = Extractors::new().unwrap();
    let mut history = VecDeque::new();
    let config = SpamFilter {
        emoji: None,
        duplicates: Some(1),
        links: None,
        attachments: None,
        spoilers: None,
        mentions: None,
        interval: 30,
        actions: None,
        scoping: None,
    };

    let first_message = message_at_time(GOOD_CONTENT, 5);
    let result = check_spam_record(&mut history, SpamRecord::from_message(&ex, &first_message), &config, 10 * 1_000_000);
    assert_eq!(result, Ok(()));

    let second_message = message_at_time(GOOD_CONTENT, 15);
    let result = check_spam_record(&mut history, SpamRecord::from_message(&ex, &second_message), &config, 20 * 1_000_000);
    assert_eq!(result, Err("sent too many duplicate messages".to_owned()));

    let third_message = message_at_time(GOOD_CONTENT, 45);
    let result = check_spam_record(&mut history, SpamRecord::from_message(&ex, &third_message), &config, 60 * 1_000_000);
    assert_eq!(result, Ok(()));

    assert_eq!(history.len(), 1);
}

#[test]
fn expired_records_leave_even_out_of_order() {
    let config = SpamFilter { duplicates: Some(1), interval: 30, ..Default::default() };
    let mut history = VecDeque::new();
    history.push_back(record("x", 0, 0, 0, 0, 0, 50_000_000));
    history.push_back(record("x", 0, 0, 0, 0, 0, 0));
    let result = check_spam_record(&mut history, record("y", 0, 0, 0, 0, 0, 40_000_000), &config, 40_000_000);
    assert_eq!(result, Ok(()));
    let kept: Vec<i64> = history.iter().map(|r| r.sent_at).collect();
    assert_eq!(kept, vec![50_000_000, 40_000_000]);
}
