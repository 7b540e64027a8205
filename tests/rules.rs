use chrysanthemum::extract::Extractors;
use chrysanthemum::filter::{FilterMode, MessageFilterRule, ReactionFilterRule};
use chrysanthemum::model::{Attachment, MessageInfo, ReactionType, Sticker};
use chrysanthemum::pattern::{substring_pattern, word_pattern, Pattern, PatternSet};

const MESSAGE_ID: u64 = 1;
const CHANNEL_ID: u64 = 2;
const USER_ID: u64 = 3;
const GUILD_ID: u64 = 4;
const GOOD_CONTENT: &str = "this is an okay message https://discord.gg/ discord.gg/roblox";
const BAD_CONTENT: &str = "asdf bad message z\u{0337}\u{0314}\u{0352}\u{0304}\u{0302}\u{0312}\u{034b}\u{0314}\u{0300}\u{0312}\u{0351}\u{0308}\u{0305}\u{030d}\u{0310}\u{0348}\u{0353}\u{0322}\u{0325}\u{0324}\u{0355}\u{0330}\u{0324}a\u{0336}\u{033f}\u{0318}\u{032c}\u{0321}\u{032f}\u{0329}\u{0323}\u{032a}\u{0324}\u{0339}\u{0316}\u{0353}\u{0349}l\u{0337}\u{0315}\u{034a}\u{034a}\u{0340}\u{0341}\u{033d}\u{0311}\u{033c}\u{032c}g\u{0335}\u{0344}\u{0304}\u{034c}\u{0344}\u{0315}\u{034a}\u{030c}\u{030b}\u{034b}\u{0358}\u{0311}\u{030c}\u{0358}\u{031d}\u{0317}\u{0347}\u{0347}o\u{0335}\u{0351}\u{0300}\u{0302}\u{0357}\u{0341}\u{0344}\u{0340}\u{031b}\u{0330}\u{0331}\u{031f}\u{0322}  https://example.com/ discord.gg/evilserver";

fn message(content: &str) -> MessageInfo {
    MessageInfo {
        author_is_bot: false,
        id: MESSAGE_ID,
        author_id: USER_ID,
        channel_id: CHANNEL_ID,
        guild_id: Some(GUILD_ID),
        author_roles: vec![],
        content: content.to_string(),
        timestamp: 100_000_000,
        attachments: vec![],
        stickers: vec![],
    }
}

fn message_at_time(content: &str, seconds: i64) -> MessageInfo {
    let mut info = message(content);
    info.timestamp = seconds * 1_000_000;
    info
}

fn ex() -> Extractors {
    Extractors::new().unwrap()
}

fn attachment(content_type: Option<&str>) -> Attachment {
    Attachment { content_type: content_type.map(|t| t.to_owned()) }
}

#[test]
fn filter_words() {
    let rule = MessageFilterRule::Words { words: Pattern::new("\\b(bad|asdf)\\b", false).unwrap() };

    assert_eq!(rule.filter_message(&ex(), &message(GOOD_CONTENT)), Ok(()));
    assert_eq!(
        rule.filter_message(&ex(), &message(BAD_CONTENT)),
        Err("contains word `asdf`".to_owned())
    );
}

#[test]
fn filter_substrings() {
    let rule = MessageFilterRule::Substring { substrings: Pattern::new("(bad|asdf)", false).unwrap() };

    assert_eq!(rule.filter_message(&ex(), &message(GOOD_CONTENT)), Ok(()));
    assert_eq!(
        rule.filter_message(&ex(), &message(BAD_CONTENT)),
        Err("contains substring `asdf`".to_owned())
    )
}

#[test]
fn filter_regex() {
    let rule = MessageFilterRule::Regex { regexes: PatternSet::new(vec!["sd".to_owned()]).unwrap() };

    assert_eq!(rule.filter_message(&ex(), &message(GOOD_CONTENT)), Ok(()));
    assert_eq!(
        rule.filter_message(&ex(), &message(BAD_CONTENT)),
        Err("matches regex `sd`".to_owned())
    );
}

#[test]
fn filter_zalgo() {
    let rule = MessageFilterRule::Zalgo;

    assert_eq!(rule.filter_message(&ex(), &message(GOOD_CONTENT)), Ok(()));
    assert_eq!(rule.filter_message(&ex(), &message(BAD_CONTENT)), Err("contains zalgo".to_owned()));
}

#[test]
fn filter_mimetype_deny() {
    let rule = MessageFilterRule::MimeType {
        mode: FilterMode::DenyList,
        types: vec!["image/png".to_owned()],
        allow_unknown: false,
    };

    let mut ok_message = message(GOOD_CONTENT);
    ok_message.attachments = vec![attachment(Some("image/jpg"))];

    let mut wrong_message = message(BAD_CONTENT);
    wrong_message.attachments = vec![attachment(Some("image/png"))];

    let mut missing_content_type_message = message(BAD_CONTENT);
    missing_content_type_message.attachments = vec![attachment(None)];

    assert_eq!(rule.filter_message(&ex(), &ok_message), Ok(()));
    assert_eq!(
        rule.filter_message(&ex(), &wrong_message),
        Err("contains denied content type `image/png`".to_owned())
    );
    assert_eq!(
        rule.filter_message(&ex(), &missing_content_type_message),
        Err("unknown content type for attachment".to_owned())
    );
}

#[test]
fn filter_mimetype_allow() {
    let rule = MessageFilterRule::MimeType {
        mode: FilterMode::AllowList,
        types: vec!["image/png".to_owned()],
        allow_unknown: false,
    };

    let mut ok_message = message(GOOD_CONTENT);
    ok_message.attachments = vec![attachment(Some("image/png"))];

    let mut wrong_message = message(BAD_CONTENT);
    wrong_message.attachments = vec![attachment(Some("image/jpg"))];

    let mut missing_content_type_message = message(BAD_CONTENT);
    missing_content_type_message.attachments = vec![attachment(None)];

    assert_eq!(rule.filter_message(&ex(), &ok_message), Ok(()));
    assert_eq!(
        rule.filter_message(&ex(), &wrong_message),
        Err("contains unallowed content type `image/jpg`".to_owned())
    );
    assert_eq!(
        rule.filter_message(&ex(), &missing_content_type_message),
        Err("unknown content type for attachment".to_owned())
    );
}

#[test]
fn filter_mimetype_unknown_allowed() {
    let rule = MessageFilterRule::MimeType {
        mode: FilterMode::DenyList,
        types: vec!["image/png".to_owned()],
        allow_unknown: true,
    };

    let mut msg = message(GOOD_CONTENT);
    msg.attachments = vec![attachment(None), attachment(Some("image/png"))];
    assert_eq!(
        rule.filter_message(&ex(), &msg),
        Err("contains denied content type `image/png`".to_owned())
    );
    msg.attachments = vec![attachment(None)];
    assert_eq!(rule.filter_message(&ex(), &msg), Ok(()));
}

#[test]
fn filter_domain_deny() {
    let rule = MessageFilterRule::Link {
        mode: FilterMode::DenyList,
        domains: vec!["example.com".to_owned()],
    };

    assert_eq!(rule.filter_message(&ex(), &message(GOOD_CONTENT)), Ok(()));
    assert_eq!(
        rule.filter_message(&ex(), &message(BAD_CONTENT)),
        Err("contains denied domain `example.com`".to_owned())
    );
}

#[test]
fn filter_domain_deny_www_prefix() {
    let rule = MessageFilterRule::Link {
        mode: FilterMode::DenyList,
        domains: vec!["example.com".to_owned()],
    };

    assert_eq!(
        rule.filter_message(&ex(), &message("see https://www.example.com/x")),
        Err("contains denied domain `example.com`".to_owned())
    );
}

#[test]
fn filter_domain_allow() {
    let rule = MessageFilterRule::Link {
        mode: FilterMode::AllowList,
        domains: vec!["discord.gg".to_owned()],
    };

    assert_eq!(rule.filter_message(&ex(), &message(GOOD_CONTENT)), Ok(()));
    assert_eq!(
        rule.filter_message(&ex(), &message(BAD_CONTENT)),
        Err("contains unallowed domain `example.com`".to_owned())
    );
}

#[test]
fn filter_invite_deny() {
    let rule = MessageFilterRule::Invite {
        mode: FilterMode::DenyList,
        invites: vec!["evilserver".to_owned()],
    };

    assert_eq!(rule.filter_message(&ex(), &message(GOOD_CONTENT)), Ok(()));
    assert_eq!(
        rule.filter_message(&ex(), &message(BAD_CONTENT)),
        Err("contains denied invite `evilserver`".to_owned())
    );
}

#[test]
fn filter_invite_allow() {
    let rule = MessageFilterRule::Invite {
        mode: FilterMode::AllowList,
        invites: vec!["roblox".to_owned()],
    };

    assert_eq!(rule.filter_message(&ex(), &message(GOOD_CONTENT)), Ok(()));
    assert_eq!(
        rule.filter_message(&ex(), &message(BAD_CONTENT)),
        Err("contains unallowed invite `evilserver`".to_owned())
    );
}

#[test]
fn filter_sticker_name() {
    let rule = MessageFilterRule::StickerName { stickers: Pattern::new("(badsticker)", false).unwrap() };

    let mut good_message = message(GOOD_CONTENT);
    good_message.stickers = vec![Sticker { id: 1, name: "goodsticker".to_owned() }];

    let mut bad_message = message(BAD_CONTENT);
    bad_message.stickers = vec![Sticker { id: 1, name: "badsticker".to_owned() }];

    assert_eq!(rule.filter_message(&ex(), &good_message), Ok(()));
    assert_eq!(
        rule.filter_message(&ex(), &bad_message),
        Err("contains sticker with denied name substring `badsticker`".to_owned())
    );
}

#[test]
fn filter_sticker_id_allow() {
    let rule = MessageFilterRule::StickerId { mode: FilterMode::AllowList, stickers: vec![1] };

    let mut good_message = message(GOOD_CONTENT);
    good_message.stickers = vec![Sticker { id: 1, name: "goodsticker".to_owned() }];

    let mut bad_message = message(BAD_CONTENT);
    bad_message.stickers = vec![Sticker { id: 2, name: "badsticker".to_owned() }];

    assert_eq!(rule.filter_message(&ex(), &good_message), Ok(()));
    assert_eq!(
        rule.filter_message(&ex(), &bad_message),
        Err("contains unallowed sticker `2`".to_owned())
    );
}

#[test]
fn filter_sticker_id_deny() {
    let rule = MessageFilterRule::StickerId { mode: FilterMode::DenyList, stickers: vec![2] };

    let mut good_message = message(GOOD_CONTENT);
    good_message.stickers = vec![Sticker { id: 1, name: "goodsticker".to_owned() }];

    let mut bad_message = message(BAD_CONTENT);
    bad_message.stickers = vec![Sticker { id: 2, name: "badsticker".to_owned() }];

    assert_eq!(rule.filter_message(&ex(), &good_message), Ok(()));
    assert_eq!(
        rule.filter_message(&ex(), &bad_message),
        Err("contains denied sticker `2`".to_owned())
    );
}

#[test]
fn filter_emoji_name() {
    let rule = MessageFilterRule::EmojiName { names: Pattern::new("(evil)", true).unwrap() };

    assert_eq!(rule.filter_message(&ex(), &message("hi <:good:123>")), Ok(()));
    assert_eq!(
        rule.filter_message(&ex(), &message("hi <:good:1> <a:EvilFace:42>")),
        Err("contains emoji with denied name substring `Evil`".to_owned())
    );
}

#[test]
fn filter_words_with_skeletonization() {
    let rule = MessageFilterRule::Words { words: Pattern::new("\\b(bad)\\b", false).unwrap() };

    assert_eq!(
        rule.filter_message(&ex(), &message("b⍺d message")),
        Err("contains word `bad`".to_owned())
    );
}

#[test]
fn filter_substrings_with_skeletonization() {
    let rule = MessageFilterRule::Substring { substrings: Pattern::new("(bad)", false).unwrap() };

    assert_eq!(
        rule.filter_message(&ex(), &message("b⍺dmessage")),
        Err("contains substring `bad`".to_owned())
    );
}

#[test]
fn filter_regex_with_skeletonization() {
    let rule = MessageFilterRule::Regex { regexes: PatternSet::new(vec!["bad".to_owned()]).unwrap() };

    assert_eq!(
        rule.filter_message(&ex(), &message("b⍺dmessage")),
        Err("matches regex `bad`".to_owned())
    );
}

#[test]
fn deserialize_word_regex() {
    let words = vec!["a".to_owned(), "b".to_owned(), "a(b)".to_owned()];
    let pattern = word_pattern(&words).expect("couldn't build the word pattern");
    assert_eq!(pattern.as_str(), "\\b(a|b|a\\(b\\))\\b");
}

#[test]
fn word_pattern_ignores_case() {
    let words = vec!["bad".to_owned()];
    let rule = MessageFilterRule::Words { words: word_pattern(&words).unwrap() };
    assert_eq!(
        rule.filter_message(&ex(), &message("so BAD")),
        Err("contains word `BAD`".to_owned())
    );
    assert_eq!(rule.filter_message(&ex(), &message("badge")), Ok(()));
}

#[test]
fn substring_pattern_matches_inside_words() {
    let words = vec!["bad".to_owned(), "x.y".to_owned()];
    let pattern = substring_pattern(&words).unwrap();
    assert_eq!(pattern.as_str(), "bad|x\\.y");
    let rule = MessageFilterRule::Substring { substrings: pattern };
    assert_eq!(
        rule.filter_message(&ex(), &message("badge")),
        Err("contains substring `bad`".to_owned())
    );
    assert_eq!(rule.filter_message(&ex(), &message("xzy")), Ok(()));
}

#[test]
fn invalid_pattern_is_rejected() {
    assert!(Pattern::new("(unclosed", false).is_err());
}

#[test]
fn reaction_rules() {
    let deny = ReactionFilterRule::Default { mode: FilterMode::DenyList, emoji: vec!["🍆".to_owned()] };
    let allow = ReactionFilterRule::Default { mode: FilterMode::AllowList, emoji: vec!["👍".to_owned()] };
    let ids = ReactionFilterRule::CustomId { mode: FilterMode::DenyList, emoji: vec![42] };
    let names = ReactionFilterRule::CustomName { names: Pattern::new("(evil)", false).unwrap() };
    let eggplant = ReactionType::Unicode { name: "🍆".to_owned() };
    let custom = ReactionType::Custom { animated: false, id: 42, name: Some("evilface".to_owned()) };

    assert_eq!(deny.filter_reaction(&eggplant), Err("reacted with denied emoji `🍆`".to_owned()));
    assert_eq!(allow.filter_reaction(&eggplant), Err("reacted with unallowed emoji `🍆`".to_owned()));
    assert_eq!(deny.filter_reaction(&custom), Ok(()));
    assert_eq!(ids.filter_reaction(&custom), Err("reacted with denied emoji `42`".to_owned()));
    assert_eq!(names.filter_reaction(&custom), Err("reacted with denied emoji name `evilface`".to_owned()));
    assert_eq!(names.filter_reaction(&eggplant), Ok(()));
}

#[test]
fn words_rule_names_the_word() {
    let rule = MessageFilterRule::Words { words: word_pattern(&vec!["bad".to_owned()]).unwrap() };
    assert_eq!(
        rule.filter_message(&ex(), &message("asdf bad message")),
        Err("contains word `bad`".to_owned())
    );
}
