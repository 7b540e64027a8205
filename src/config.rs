//! Community configuration and its validation. Parsing the configuration file
//! happens outside the library; this checks the parsed values.

use vstd::prelude::*;
use crate::action::MessageFilterAction;
use crate::filter::{MessageFilter, MessageFilterRule, ReactionFilter};
use crate::pattern::{Pattern, regex_set_matches, strings_view};
use crate::scoping::Scoping;
use crate::spam::SpamFilter;
use crate::text::{chars_of, decimal, decimal_string, extend_chars, string_of};

verus! {

/// Whether slash commands are offered in a community.
#[derive(Debug)]
pub struct SlashCommands {
    pub enabled: bool,
}

/// Where notifications go.
#[derive(Debug)]
pub struct Notifications {
    /// Which channel to send notifications to.
    pub channel: u64,
    /// Which roles to ping for notifications.
    pub ping_roles: Option<Vec<u64>>,
}

/// A rule over user names.
pub enum UsernameFilterRule {
    Substring { substrings: Pattern },
    Regex { regexes: Vec<Pattern> },
}

/// What to do when a user name matches.
#[derive(Debug)]
pub enum UsernameFilterAction {
    SendMessage { channel_id: u64, content: String },
}

/// Rules over user names and what to do on a match.
pub struct UsernameFilter {
    /// Rules to apply to usernames.
    pub rules: Vec<UsernameFilterRule>,
    /// Actions to take when a username matches one of the rules.
    pub actions: Vec<UsernameFilterAction>,
}

/// The configuration of one community.
pub struct GuildConfig {
    pub notifications: Option<Notifications>,
    pub slash_commands: Option<SlashCommands>,
    pub default_scoping: Option<Scoping>,
    pub default_actions: Option<Vec<MessageFilterAction>>,
    pub messages: Option<Vec<MessageFilter>>,
    pub reactions: Option<Vec<ReactionFilter>>,
    pub spam: Option<SpamFilter>,
    pub usernames: Option<UsernameFilter>,
    /// Whether events from bots are evaluated too.
    pub include_bots: bool,
}

/// Where metrics are reported.
#[derive(Debug)]
pub struct InfluxConfig {
    pub url: String,
    pub database: String,
    pub token: String,
    pub report_every_n: usize,
}

/// `msg` when `cond` holds, else nothing.
pub open spec fn when(cond: bool, msg: Seq<char>) -> Seq<Seq<char>> {
    if cond { seq![msg] } else { Seq::empty() }
}

/// The problems of a scoping, `ctx` naming where it stands.
pub open spec fn scoping_errors(s: Scoping, ctx: Seq<char>) -> Seq<Seq<char>> {
    when(s.exclude_channels is Some && s.include_channels is Some,
        "in "@ + ctx + ", scoping rule specifies both exclude_channels and include_channels. Specify only one."@)
    + when(s.exclude_channels is Some && s.exclude_channels->0@.len() == 0,
        "in "@ + ctx + ", scoping rule specifies an empty exclude_channels; omit the key instead."@)
    + when(s.include_channels is Some && s.include_channels->0@.len() == 0,
        "in "@ + ctx + ", scoping rule specifies an empty include_channels; omit the key instead."@)
    + when(s.exclude_roles is Some && s.exclude_roles->0@.len() == 0,
        "in "@ + ctx + ", scoping rule specifies an empty exclude_roles; omit the key instead."@)
}

/// One problem for each pattern index in `indices`.
pub open spec fn empty_regex_errors(indices: Seq<usize>, ctx: Seq<char>) -> Seq<Seq<char>>
    decreases indices.len(),
{
    if indices.len() == 0 {
        Seq::empty()
    } else {
        empty_regex_errors(indices.drop_last(), ctx).push(
            "in "@ + ctx + ", regex "@ + decimal(indices.last() as nat)
                + " matches an empty string; this would match all messages"@)
    }
}

/// The problems of a message rule: patterns that would match every message.
pub open spec fn message_rule_errors(rule: MessageFilterRule, ctx: Seq<char>) -> Seq<Seq<char>> {
    match rule {
        MessageFilterRule::Substring { substrings } => when(substrings.captures_spec(Seq::empty()) is Some,
            "in "@ + ctx + ", substrings contains an empty string; this would match all messages"@),
        MessageFilterRule::Words { words } => when(words.captures_spec("a"@) is Some,
            "in "@ + ctx + ", words contains an empty string; this would match all messages"@),
        MessageFilterRule::Regex { regexes } =>
            empty_regex_errors(regex_set_matches(regexes.sources(), Seq::empty()), ctx),
        _ => Seq::empty(),
    }
}

/// `a`, then `b`, then `c`.
fn join3(a: &str, b: &str, c: &str) -> (r: String)
    ensures
        r@ == a@ + b@ + c@,
{
    let mut out = chars_of(a);
    extend_chars(&mut out, &chars_of(b));
    extend_chars(&mut out, &chars_of(c));
    string_of(&out)
}

/// Appends `msg` to `errors` when `cond` holds.
fn push_when(errors: &mut Vec<String>, cond: bool, msg: String)
    ensures
        strings_view(final(errors)@) == strings_view(old(errors)@) + when(cond, msg@),
{
    let ghost before = errors@;
    if cond {
        errors.push(msg);
        assert(strings_view(errors@) =~= strings_view(before) + when(cond, msg@));
    } else {
        assert(strings_view(errors@) =~= strings_view(before) + when(cond, msg@));
    }
}

/// Records the problems of `scoping`, `context` naming where it stands.
pub fn validate_scoping(scoping: &Scoping, context: &str, errors: &mut Vec<String>)
    ensures
        strings_view(final(errors)@) == strings_view(old(errors)@) + scoping_errors(*scoping, context@),
{
    let ghost start = strings_view(errors@);
    push_when(errors, scoping.exclude_channels.is_some() && scoping.include_channels.is_some(),
        join3("in ", context,
            ", scoping rule specifies both exclude_channels and include_channels. Specify only one."));
    let empty_exclude = match &scoping.exclude_channels {
        Some(v) => v.len() == 0,
        None => false,
    };
    push_when(errors, empty_exclude,
        join3("in ", context, ", scoping rule specifies an empty exclude_channels; omit the key instead."));
    let empty_include = match &scoping.include_channels {
        Some(v) => v.len() == 0,
        None => false,
    };
    push_when(errors, empty_include,
        join3("in ", context, ", scoping rule specifies an empty include_channels; omit the key instead."));
    let empty_roles = match &scoping.exclude_roles {
        Some(v) => v.len() == 0,
        None => false,
    };
    push_when(errors, empty_roles,
        join3("in ", context, ", scoping rule specifies an empty exclude_roles; omit the key instead."));
    assert(strings_view(errors@) =~= start + scoping_errors(*scoping, context@));
}

/// Records the patterns of `message_rule` that would match every message.
pub fn validate_message_rule(message_rule: &MessageFilterRule, context: &str, errors: &mut Vec<String>)
    ensures
        strings_view(final(errors)@) == strings_view(old(errors)@) + message_rule_errors(*message_rule, context@),
{
    let ghost start = strings_view(errors@);
    match message_rule {
        MessageFilterRule::Substring { substrings } => {
            let empty = "";
            let hit = substrings.captures(empty).is_some();
            proof {
                reveal_strlit("");
                assert(""@ =~= Seq::<char>::empty());
            }
            push_when(errors, hit,
                join3("in ", context, ", substrings contains an empty string; this would match all messages"));
        },
        MessageFilterRule::Words { words } => {
            push_when(errors, words.captures("a").is_some(),
                join3("in ", context, ", words contains an empty string; this would match all messages"));
        },
        MessageFilterRule::Regex { regexes } => {
            let found = regexes.matches("");
            proof {
                reveal_strlit("");
                assert(""@ =~= Seq::<char>::empty());
            }
            let mut k: usize = 0;
            while k < found.len()
                invariant
                    k <= found@.len(),
                    found@ == regex_set_matches(regexes.sources(), Seq::empty()),
                    strings_view(errors@) == start + empty_regex_errors(found@.subrange(0, k as int), context@),
                decreases found.len() - k,
            {
                let ghost before = errors@;
                let mut text = chars_of("in ");
                extend_chars(&mut text, &chars_of(context));
                extend_chars(&mut text, &chars_of(", regex "));
                extend_chars(&mut text, &decimal_string(found[k] as u64));
                extend_chars(&mut text, &chars_of(" matches an empty string; this would match all messages"));
                errors.push(string_of(&text));
                assert(found@.subrange(0, k + 1).drop_last() =~= found@.subrange(0, k as int));
                assert(strings_view(errors@) =~= strings_view(before).push(text@));
                k = k + 1;
            }
            assert(found@.subrange(0, k as int) =~= found@);
        },
        _ => {
            assert(strings_view(errors@) =~= start + message_rule_errors(*message_rule, context@));
        },
    }
}

/// The problems of a filter's action list, `ctx` naming the filter.
pub open spec fn filter_actions_errors(
    actions: Option<Vec<MessageFilterAction>>,
    ctx: Seq<char>,
    has_default: bool,
) -> Seq<Seq<char>> {
    match actions {
        Some(a) => when(a@.len() == 0,
            ctx + " has an empty actions array; omit the key to use default actions"@),
        None => when(!has_default,
            ctx + " does not specify actions, but this guild has no default actions."@),
    }
}

/// The problems of an optional scoping.
pub open spec fn optional_scoping_errors(s: Option<Scoping>, ctx: Seq<char>) -> Seq<Seq<char>> {
    match s {
        Some(s) => scoping_errors(s, ctx),
        None => Seq::empty(),
    }
}

/// The problems of the first `n` rules of a message filter.
pub open spec fn rule_list_errors(rules: Seq<MessageFilterRule>, ctx: Seq<char>, n: int) -> Seq<Seq<char>>
    decreases n,
{
    if n <= 0 || n > rules.len() {
        Seq::empty()
    } else {
        rule_list_errors(rules, ctx, n - 1)
            + message_rule_errors(rules[n - 1], ctx + ", rule "@ + decimal((n - 1) as nat))
    }
}

/// The name of message filter `i` in problems.
pub open spec fn message_filter_context(i: int) -> Seq<char> {
    "message filter "@ + decimal(i as nat)
}

/// The name of reaction filter `i` in problems.
pub open spec fn reaction_filter_context(i: int) -> Seq<char> {
    "reaction filter "@ + decimal(i as nat)
}

/// The problems of message filter `i`.
pub open spec fn message_filter_errors(f: MessageFilter, i: int, has_default: bool) -> Seq<Seq<char>> {
    let ctx = message_filter_context(i);
    filter_actions_errors(f.actions, ctx, has_default) + optional_scoping_errors(f.scoping, ctx)
        + if f.rules@.len() == 0 {
            seq![ctx + " has no rules"@]
        } else {
            rule_list_errors(f.rules@, ctx, f.rules@.len() as int)
        }
}

/// The problems of the first `n` message filters.
pub open spec fn message_filters_errors(fs: Seq<MessageFilter>, has_default: bool, n: int) -> Seq<Seq<char>>
    decreases n,
{
    if n <= 0 || n > fs.len() {
        Seq::empty()
    } else {
        message_filters_errors(fs, has_default, n - 1) + message_filter_errors(fs[n - 1], n - 1, has_default)
    }
}

/// The problems of reaction filter `i`.
pub open spec fn reaction_filter_errors(f: ReactionFilter, i: int, has_default: bool) -> Seq<Seq<char>> {
    let ctx = reaction_filter_context(i);
    filter_actions_errors(f.actions, ctx, has_default) + optional_scoping_errors(f.scoping, ctx)
        + when(f.rules@.len() == 0, ctx + " has no rules"@)
}

/// The problems of the first `n` reaction filters.
pub open spec fn reaction_filters_errors(fs: Seq<ReactionFilter>, has_default: bool, n: int) -> Seq<Seq<char>>
    decreases n,
{
    if n <= 0 || n > fs.len() {
        Seq::empty()
    } else {
        reaction_filters_errors(fs, has_default, n - 1) + reaction_filter_errors(fs[n - 1], n - 1, has_default)
    }
}

/// The problems of a spam configuration.
pub open spec fn spam_config_errors(sp: SpamFilter, has_default: bool) -> Seq<Seq<char>> {
    optional_scoping_errors(sp.scoping, "spam scoping"@)
        + match sp.actions {
            Some(a) => when(a@.len() == 0, "in spam config, actions is specified but is empty."@),
            None => when(!has_default,
                "in spam config, no actions are specified and there are no default actions for this guild."@),
        }
        + when(sp.emoji is None && sp.attachments is None && sp.duplicates is None && sp.links is None
            && sp.spoilers is None,
            "in spam config, no spam thresholds are specified. Spam filtering will have no effects."@)
}

/// Whether a community has a non-empty default action list.
pub open spec fn has_default_actions(g: GuildConfig) -> bool {
    g.default_actions is Some && g.default_actions->0@.len() > 0
}

/// The problems of the default scoping and default actions.
pub open spec fn defaults_section(g: GuildConfig) -> Seq<Seq<char>> {
    optional_scoping_errors(g.default_scoping, "default scoping"@)
        + when(g.default_actions is Some && g.default_actions->0@.len() == 0,
            "default_actions is specified but is empty."@)
}

/// The problems of the notification settings.
pub open spec fn notifications_section(g: GuildConfig) -> Seq<Seq<char>> {
    match g.notifications {
        Some(n) => when(n.ping_roles is Some && n.ping_roles->0@.len() == 0,
            "notification settings, ping_roles is specified but is empty; omit the key."@),
        None => Seq::empty(),
    }
}

/// The problems of the spam settings.
pub open spec fn spam_section(g: GuildConfig) -> Seq<Seq<char>> {
    match g.spam {
        Some(sp) => spam_config_errors(sp, has_default_actions(g)),
        None => Seq::empty(),
    }
}

/// The problems of the user name settings.
pub open spec fn usernames_section(g: GuildConfig) -> Seq<Seq<char>> {
    match g.usernames {
        Some(u) => when(u.actions@.len() == 0, "in username config, actions is empty."@)
            + when(u.rules@.len() == 0, "in username config, rules is empty."@),
        None => Seq::empty(),
    }
}

/// The problems of the message filters.
pub open spec fn messages_section(g: GuildConfig) -> Seq<Seq<char>> {
    match g.messages {
        Some(ms) => when(ms@.len() == 0, "messages is empty; omit the key."@)
            + message_filters_errors(ms@, has_default_actions(g), ms@.len() as int),
        None => Seq::empty(),
    }
}

/// The problems of the reaction filters.
pub open spec fn reactions_section(g: GuildConfig) -> Seq<Seq<char>> {
    match g.reactions {
        Some(rs) => when(rs@.len() == 0,
            "reactions is specified but is empty; omit the key to disable reaction filtering"@)
            + reaction_filters_errors(rs@, has_default_actions(g), rs@.len() as int),
        None => Seq::empty(),
    }
}

/// Every problem of a community configuration, in the order they are reported.
pub open spec fn guild_config_errors(g: GuildConfig) -> Seq<Seq<char>> {
    defaults_section(g) + notifications_section(g) + spam_section(g) + usernames_section(g)
        + messages_section(g) + reactions_section(g)
}

fn push_filter_actions_errors(
    errors: &mut Vec<String>,
    actions: &Option<Vec<MessageFilterAction>>,
    ctx: &str,
    has_default: bool,
)
    ensures
        strings_view(final(errors)@) == strings_view(old(errors)@)
            + filter_actions_errors(*actions, ctx@, has_default),
{
    match actions {
        Some(a) => push_when(errors, a.len() == 0,
            join3(ctx, " has an empty actions array; omit the key to use default actions", "")),
        None => push_when(errors, !has_default,
            join3(ctx, " does not specify actions, but this guild has no default actions.", "")),
    }
    proof {
        reveal_strlit("");
        assert(""@ =~= Seq::<char>::empty());
    }
    assert(forall|x: Seq<char>| x + ""@ == x) by {
        assert forall|x: Seq<char>| x + ""@ == x by {
            assert(x + ""@ =~= x);
        }
    }
}

fn push_optional_scoping_errors(errors: &mut Vec<String>, scoping: &Option<Scoping>, ctx: &str)
    ensures
        strings_view(final(errors)@) == strings_view(old(errors)@) + optional_scoping_errors(*scoping, ctx@),
{
    match scoping {
        Some(s) => validate_scoping(s, ctx, errors),
        None => {
            assert(strings_view(errors@) + Seq::<Seq<char>>::empty() =~= strings_view(errors@));
        },
    }
}

/// `prefix`, then the decimal form of `i`.
fn numbered(prefix: &str, i: usize) -> (r: String)
    ensures
        r@ == prefix@ + decimal(i as nat),
{
    let mut out = chars_of(prefix);
    extend_chars(&mut out, &decimal_string(i as u64));
    string_of(&out)
}

fn validate_message_filter(errors: &mut Vec<String>, f: &MessageFilter, i: usize, has_default: bool)
    ensures
        strings_view(final(errors)@) == strings_view(old(errors)@) + message_filter_errors(*f, i as int, has_default),
{
    let ghost start = strings_view(errors@);
    let ctx = numbered("message filter ", i);
    assert(ctx@ == message_filter_context(i as int));
    push_filter_actions_errors(errors, &f.actions, ctx.as_str(), has_default);
    push_optional_scoping_errors(errors, &f.scoping, ctx.as_str());
    let ghost mid = strings_view(errors@);
    if f.rules.len() == 0 {
        errors.push(join3(ctx.as_str(), " has no rules", ""));
        proof {
            reveal_strlit("");
            assert(""@ =~= Seq::<char>::empty());
            assert(ctx@ + " has no rules"@ + ""@ =~= ctx@ + " has no rules"@);
        }
        assert(strings_view(errors@) =~= mid + seq![ctx@ + " has no rules"@]);
    } else {
        let mut j: usize = 0;
        while j < f.rules.len()
            invariant
                j <= f.rules@.len(),
                f.rules@.len() > 0,
                strings_view(errors@) == mid + rule_list_errors(f.rules@, ctx@, j as int),
            decreases f.rules.len() - j,
        {
            let rule_ctx = join3(ctx.as_str(), ", rule ", string_of(&decimal_string(j as u64)).as_str());
            validate_message_rule(&f.rules[j], rule_ctx.as_str(), errors);
            j = j + 1;
            assert(strings_view(errors@) =~= mid + rule_list_errors(f.rules@, ctx@, j as int));
        }
    }
    assert(strings_view(errors@) =~= start + message_filter_errors(*f, i as int, has_default));
}

fn validate_reaction_filter(errors: &mut Vec<String>, f: &ReactionFilter, i: usize, has_default: bool)
    ensures
        strings_view(final(errors)@) == strings_view(old(errors)@) + reaction_filter_errors(*f, i as int, has_default),
{
    let ghost start = strings_view(errors@);
    let ctx = numbered("reaction filter ", i);
    assert(ctx@ == reaction_filter_context(i as int));
    push_filter_actions_errors(errors, &f.actions, ctx.as_str(), has_default);
    push_optional_scoping_errors(errors, &f.scoping, ctx.as_str());
    let msg = join3(ctx.as_str(), " has no rules", "");
    proof {
        reveal_strlit("");
        assert(""@ =~= Seq::<char>::empty());
        assert(ctx@ + " has no rules"@ + ""@ =~= ctx@ + " has no rules"@);
    }
    push_when(errors, f.rules.len() == 0, msg);
    assert(strings_view(errors@) =~= start + reaction_filter_errors(*f, i as int, has_default));
}

fn validate_spam(errors: &mut Vec<String>, spam: &SpamFilter, has_default: bool)
    ensures
        strings_view(final(errors)@) == strings_view(old(errors)@) + spam_config_errors(*spam, has_default),
{
    let ghost start = strings_view(errors@);
    push_optional_scoping_errors(errors, &spam.scoping, "spam scoping");
    match &spam.actions {
        Some(actions) => push_when(errors, actions.len() == 0,
            "in spam config, actions is specified but is empty.".to_owned()),
        None => push_when(errors, !has_default,
            "in spam config, no actions are specified and there are no default actions for this guild.".to_owned()),
    }
    push_when(errors,
        spam.emoji.is_none() && spam.attachments.is_none() && spam.duplicates.is_none()
            && spam.links.is_none() && spam.spoilers.is_none(),
        "in spam config, no spam thresholds are specified. Spam filtering will have no effects.".to_owned());
    assert(strings_view(errors@) =~= start + spam_config_errors(*spam, has_default));
}

fn validate_message_filters(errors: &mut Vec<String>, messages: &Vec<MessageFilter>, has_default: bool)
    ensures
        strings_view(final(errors)@) == strings_view(old(errors)@)
            + when(messages@.len() == 0, "messages is empty; omit the key."@)
            + message_filters_errors(messages@, has_default, messages@.len() as int),
{
    let ghost start = strings_view(errors@);
    push_when(errors, messages.len() == 0, "messages is empty; omit the key.".to_owned());
    let ghost base = strings_view(errors@);
    let mut i: usize = 0;
    while i < messages.len()
        invariant
            i <= messages@.len(),
            strings_view(errors@) == base + message_filters_errors(messages@, has_default, i as int),
        decreases messages.len() - i,
    {
        validate_message_filter(errors, &messages[i], i, has_default);
        i = i + 1;
        assert(strings_view(errors@) =~= base + message_filters_errors(messages@, has_default, i as int));
    }
    assert(strings_view(errors@) =~= start + when(messages@.len() == 0, "messages is empty; omit the key."@)
        + message_filters_errors(messages@, has_default, messages@.len() as int));
}

fn validate_reaction_filters(errors: &mut Vec<String>, reactions: &Vec<ReactionFilter>, has_default: bool)
    ensures
        strings_view(final(errors)@) == strings_view(old(errors)@)
            + when(reactions@.len() == 0,
                "reactions is specified but is empty; omit the key to disable reaction filtering"@)
            + reaction_filters_errors(reactions@, has_default, reactions@.len() as int),
{
    let ghost start = strings_view(errors@);
    push_when(errors, reactions.len() == 0,
        "reactions is specified but is empty; omit the key to disable reaction filtering".to_owned());
    let ghost base = strings_view(errors@);
    let mut i: usize = 0;
    while i < reactions.len()
        invariant
            i <= reactions@.len(),
            strings_view(errors@) == base + reaction_filters_errors(reactions@, has_default, i as int),
        decreases reactions.len() - i,
    {
        validate_reaction_filter(errors, &reactions[i], i, has_default);
        i = i + 1;
        assert(strings_view(errors@) =~= base + reaction_filters_errors(reactions@, has_default, i as int));
    }
    assert(strings_view(errors@) =~= start + when(reactions@.len() == 0,
        "reactions is specified but is empty; omit the key to disable reaction filtering"@)
        + reaction_filters_errors(reactions@, has_default, reactions@.len() as int));
}

fn validate_defaults(errors: &mut Vec<String>, guild: &GuildConfig) -> (has_default: bool)
    ensures
        has_default == has_default_actions(*guild),
        strings_view(final(errors)@) == strings_view(old(errors)@) + defaults_section(*guild),
{
    let ghost start = strings_view(errors@);
    push_optional_scoping_errors(errors, &guild.default_scoping, "default scoping");
    let (has_default, empty_defaults) = match &guild.default_actions {
        Some(actions) => (actions.len() > 0, actions.len() == 0),
        None => (false, false),
    };
    push_when(errors, empty_defaults, "default_actions is specified but is empty.".to_owned());
    assert(strings_view(errors@) =~= start + defaults_section(*guild));
    has_default
}

fn validate_notifications(errors: &mut Vec<String>, guild: &GuildConfig)
    ensures
        strings_view(final(errors)@) == strings_view(old(errors)@) + notifications_section(*guild),
{
    let ghost start = strings_view(errors@);
    let empty_ping = match &guild.notifications {
        Some(n) => match &n.ping_roles {
            Some(roles) => roles.len() == 0,
            None => false,
        },
        None => false,
    };
    push_when(errors, empty_ping,
        "notification settings, ping_roles is specified but is empty; omit the key.".to_owned());
    assert(strings_view(errors@) =~= start + notifications_section(*guild));
}

fn validate_usernames(errors: &mut Vec<String>, guild: &GuildConfig)
    ensures
        strings_view(final(errors)@) == strings_view(old(errors)@) + usernames_section(*guild),
{
    let ghost start = strings_view(errors@);
    if let Some(usernames) = &guild.usernames {
        push_when(errors, usernames.actions.len() == 0, "in username config, actions is empty.".to_owned());
        push_when(errors, usernames.rules.len() == 0, "in username config, rules is empty.".to_owned());
    }
    assert(strings_view(errors@) =~= start + usernames_section(*guild));
}

/// Checks a community configuration and lists every problem found: empty
/// lists that should be omitted, contradictory scoping, filters without
/// actions, rules without patterns, and patterns that would match every
/// message.
pub fn validate_guild_config(guild: &GuildConfig) -> (r: Result<(), Vec<String>>)
    ensures
        r is Ok <==> guild_config_errors(*guild).len() == 0,
        r matches Err(errs) ==> strings_view(errs@) == guild_config_errors(*guild),
{
    let mut errors: Vec<String> = Vec::new();
    let ghost g = *guild;
    let has_default = validate_defaults(&mut errors, guild);
    let ghost e1 = strings_view(errors@);
    validate_notifications(&mut errors, guild);
    let ghost e2 = strings_view(errors@);
    if let Some(spam) = &guild.spam {
        validate_spam(&mut errors, spam, has_default);
    }
    let ghost e3 = strings_view(errors@);
    assert(e3 =~= e2 + spam_section(g));
    validate_usernames(&mut errors, guild);
    let ghost e4 = strings_view(errors@);
    if let Some(messages) = &guild.messages {
        validate_message_filters(&mut errors, messages, has_default);
    }
    let ghost e5 = strings_view(errors@);
    assert(e5 =~= e4 + messages_section(g));
    if let Some(reactions) = &guild.reactions {
        validate_reaction_filters(&mut errors, reactions, has_default);
    }
    let ghost e6 = strings_view(errors@);
    assert(e6 =~= e5 + reactions_section(g));
    assert(e6 =~= guild_config_errors(g));
    if errors.len() > 0 {
        Err(errors)
    } else {
        Ok(())
    }
}

impl GuildConfig {
    /// Whether events by this author are evaluated: bots only when the
    /// community includes them.
    pub fn evaluates_author(&self, author_is_bot: bool) -> (r: bool)
        ensures
            r == (!author_is_bot || self.include_bots),
    {
        !author_is_bot || self.include_bots
    }
}

} // verus!
