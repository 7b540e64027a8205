//! Pattern rules and the filters built from them: each rule either passes a
//! message or reaction or fails it with a reason.

use vstd::prelude::*;
use crate::action::MessageFilterAction;
use crate::confusable::{skeleton, skeletonize};
use crate::extract::{
    Extractors, INVITE_DOMAIN, custom_emoji_names, group_string, group_text, has_zalgo,
    invite_codes, link_domains,
};
use crate::model::{Attachment, MessageInfo, ReactionType, ReactionView, Sticker};
use crate::pattern::{Pattern, PatternSet, groups_view, regex_set_first_match, strings_view};
use crate::scoping::Scoping;
use crate::text::{chars_of, decimal, decimal_string, extend_chars, string_of};

verus! {

/// Whether a list names what is allowed or what is denied.
#[derive(Debug, Clone, Copy)]
pub enum FilterMode {
    AllowList,
    DenyList,
}

/// A check's outcome with the reason as text.
pub open spec fn outcome(r: Result<(), String>) -> Result<(), Seq<char>> {
    match r {
        Ok(()) => Ok(()),
        Err(s) => Err(s@),
    }
}

/// The first element of `s`, from index `i` on, that satisfies `p`.
pub open spec fn first_from<A>(s: Seq<A>, p: spec_fn(A) -> bool, i: int) -> Option<A>
    decreases s.len() - i,
{
    if i < 0 || i >= s.len() {
        None
    } else if p(s[i]) {
        Some(s[i])
    } else {
        first_from(s, p, i + 1)
    }
}

/// Whether a value offends a list: it is missing from an allow list, or
/// present in a deny list.
pub open spec fn offends(mode: FilterMode, listed: bool) -> bool {
    match mode {
        FilterMode::AllowList => !listed,
        FilterMode::DenyList => listed,
    }
}

/// The reason given for an offending value.
pub open spec fn list_reason(mode: FilterMode, context: Seq<char>, v: Seq<char>) -> Seq<char> {
    match mode {
        FilterMode::AllowList => "contains unallowed "@ + context + " `"@ + v + seq!['`'],
        FilterMode::DenyList => "contains denied "@ + context + " `"@ + v + seq!['`'],
    }
}

/// The outcome of checking `values`, in order, against `list`.
pub open spec fn values_outcome(
    mode: FilterMode,
    context: Seq<char>,
    values: Seq<Seq<char>>,
    list: Seq<Seq<char>>,
) -> Result<(), Seq<char>> {
    match first_from(values, |v: Seq<char>| offends(mode, list.contains(v)), 0) {
        Some(v) => Err(list_reason(mode, context, v)),
        None => Ok(()),
    }
}

/// `prefix`, then `v`, then a closing backtick.
fn quoted(prefix: &str, v: &str) -> (r: String)
    ensures
        r@ == prefix@ + v@ + seq!['`'],
{
    let mut out = chars_of(prefix);
    extend_chars(&mut out, &chars_of(v));
    out.push('`');
    string_of(&out)
}

/// The reason for an offending value, built.
fn list_reason_exec(mode: FilterMode, context: &str, v: &str) -> (r: String)
    ensures
        r@ == list_reason(mode, context@, v@),
{
    let mut out = match mode {
        FilterMode::AllowList => chars_of("contains unallowed "),
        FilterMode::DenyList => chars_of("contains denied "),
    };
    extend_chars(&mut out, &chars_of(context));
    extend_chars(&mut out, &chars_of(" `"));
    extend_chars(&mut out, &chars_of(v));
    out.push('`');
    string_of(&out)
}

/// Whether `list` holds a string equal to `v`.
pub fn contains_string(list: &Vec<String>, v: &String) -> (r: bool)
    ensures
        r == strings_view(list@).contains(v@),
{
    let mut i: usize = 0;
    while i < list.len()
        invariant
            i <= list@.len(),
            forall|j: int| 0 <= j < i ==> strings_view(list@)[j] != v@,
        decreases list.len() - i,
    {
        if list[i] == *v {
            assert(strings_view(list@)[i as int] == v@);
            return true;
        }
        i = i + 1;
    }
    false
}

/// Checks `values`, in order, against `list`: fails on the first value absent
/// from an allow list or present in a deny list.
pub fn filter_values(mode: FilterMode, context: &str, values: &Vec<String>, list: &Vec<String>)
    -> (r: Result<(), String>)
    ensures
        outcome(r) == values_outcome(mode, context@, strings_view(values@), strings_view(list@)),
{
    let ghost vs = strings_view(values@);
    let ghost p = |v: Seq<char>| offends(mode, strings_view(list@).contains(v));
    let mut i: usize = 0;
    while i < values.len()
        invariant
            i <= values@.len(),
            vs == strings_view(values@),
            p == (|v: Seq<char>| offends(mode, strings_view(list@).contains(v))),
            first_from(vs, p, 0) == first_from(vs, p, i as int),
        decreases values.len() - i,
    {
        let listed = contains_string(list, &values[i]);
        let hit = match mode {
            FilterMode::AllowList => !listed,
            FilterMode::DenyList => listed,
        };
        if hit {
            return Err(list_reason_exec(mode, context, values[i].as_str()));
        }
        i = i + 1;
    }
    Ok(())
}

/// Whether list entry `f` names domain `d`, either as is or with a `www.`
/// prefix.
pub open spec fn names_domain(f: Seq<char>, d: Seq<char>) -> bool {
    f == d || d == "www."@ + f
}

/// The first entry of `list` that names domain `d`.
pub open spec fn domain_entry(list: Seq<Seq<char>>, d: Seq<char>) -> Option<Seq<char>> {
    first_from(list, |f: Seq<char>| names_domain(f, d), 0)
}

/// Finds the first entry of `list` that names domain `d`.
fn domain_entry_exec(list: &Vec<String>, d: &String) -> (r: Option<usize>)
    ensures
        r is None <==> domain_entry(strings_view(list@), d@) is None,
        r matches Some(i) ==> i < list@.len()
            && domain_entry(strings_view(list@), d@) == Some(list@[i as int]@),
{
    let ghost p = |f: Seq<char>| names_domain(f, d@);
    let ghost ls = strings_view(list@);
    let mut i: usize = 0;
    while i < list.len()
        invariant
            i <= list@.len(),
            ls == strings_view(list@),
            p == (|f: Seq<char>| names_domain(f, d@)),
            first_from(ls, p, 0) == first_from(ls, p, i as int),
        decreases list.len() - i,
    {
        let mut www = chars_of("www.");
        extend_chars(&mut www, &chars_of(list[i].as_str()));
        let www = string_of(&www);
        assert(ls[i as int] == list@[i as int]@);
        if list[i] == *d || www == *d {
            return Some(i);
        }
        i = i + 1;
    }
    None
}

/// The word that a match of a word pattern names: group 1, or the whole match
/// when the pattern has no such group.
pub open spec fn word_of(g: Seq<Option<Seq<char>>>) -> Seq<char> {
    if g.len() > 1 && g[1] is Some {
        g[1]->0
    } else {
        group_text(g, 0)
    }
}

fn word_of_exec(g: &Vec<Option<String>>) -> (r: String)
    ensures
        r@ == word_of(groups_view(g@)),
{
    if g.len() > 1 && g[1].is_some() {
        group_string(g, 1)
    } else {
        group_string(g, 0)
    }
}

/// A rule of a message filter.
pub enum MessageFilterRule {
    /// Whole words, matched on the skeleton first, then on the raw text.
    Words { words: Pattern },
    /// Substrings, matched on the skeleton first, then on the raw text.
    Substring { substrings: Pattern },
    /// Arbitrary patterns, matched on the raw text first, then on the skeleton.
    Regex { regexes: PatternSet },
    /// Combining marks stacked to corrupt text.
    Zalgo,
    /// Attachment content types.
    MimeType { mode: FilterMode, types: Vec<String>, allow_unknown: bool },
    /// Invite codes.
    Invite { mode: FilterMode, invites: Vec<String> },
    /// Linked domains.
    Link { mode: FilterMode, domains: Vec<String> },
    /// Sticker identifiers.
    StickerId { mode: FilterMode, stickers: Vec<u64> },
    /// Substrings of sticker names.
    StickerName { stickers: Pattern },
    /// Substrings of custom emoji names.
    EmojiName { names: Pattern },
}

impl MessageFilterRule {
    /// What the rule decides about a text.
    pub open spec fn text_outcome(&self, text: Seq<char>) -> Result<(), Seq<char>> {
        match self {
            MessageFilterRule::Words { words } => match words.captures_spec(skeleton(text)) {
                Some(g) => Err("contains word `"@ + word_of(g) + seq!['`']),
                None => match words.captures_spec(text) {
                    Some(g) => Err("contains word `"@ + word_of(g) + seq!['`']),
                    None => Ok(()),
                },
            },
            MessageFilterRule::Substring { substrings } => match substrings.captures_spec(skeleton(text)) {
                Some(g) => Err("contains substring `"@ + group_text(g, 0) + seq!['`']),
                None => match substrings.captures_spec(text) {
                    Some(g) => Err("contains substring `"@ + group_text(g, 0) + seq!['`']),
                    None => Ok(()),
                },
            },
            MessageFilterRule::Regex { regexes } => match regex_set_first_match(regexes.sources(), text) {
                Some(i) => Err("matches regex `"@ + regexes.sources()[i as int] + seq!['`']),
                None => match regex_set_first_match(regexes.sources(), skeleton(text)) {
                    Some(i) => Err("matches regex `"@ + regexes.sources()[i as int] + seq!['`']),
                    None => Ok(()),
                },
            },
            MessageFilterRule::Zalgo => if has_zalgo(text) {
                Err("contains zalgo"@)
            } else {
                Ok(())
            },
            MessageFilterRule::Invite { mode, invites } =>
                values_outcome(*mode, "invite"@, invite_codes(text), strings_view(invites@)),
            MessageFilterRule::Link { mode, domains } => match first_from(
                link_domains(text),
                |d: Seq<char>| d != INVITE_DOMAIN@
                    && offends(*mode, domain_entry(strings_view(domains@), d) is Some),
                0,
            ) {
                Some(d) => match mode {
                    FilterMode::AllowList => Err(list_reason(*mode, "domain"@, d)),
                    FilterMode::DenyList =>
                        Err(list_reason(*mode, "domain"@, domain_entry(strings_view(domains@), d)->0)),
                },
                None => Ok(()),
            },
            MessageFilterRule::EmojiName { names } => match first_from(
                custom_emoji_names(text),
                |n: Seq<char>| names.captures_spec(n) is Some,
                0,
            ) {
                Some(n) => Err("contains emoji with denied name substring `"@
                    + group_text(names.captures_spec(n)->0, 0) + seq!['`']),
                None => Ok(()),
            },
            _ => Ok(()),
        }
    }

    /// What the rule decides about a message.
    pub open spec fn message_outcome(&self, m: &MessageInfo) -> Result<(), Seq<char>> {
        match self {
            MessageFilterRule::MimeType { mode, types, allow_unknown } => {
                if !*allow_unknown && exists|i: int| 0 <= i < m.attachments@.len()
                    && (#[trigger] m.attachments@[i]).content_type is None {
                    Err("unknown content type for attachment"@)
                } else {
                    match first_from(
                        m.attachments@,
                        |a: Attachment| a.content_type is Some
                            && offends(*mode, strings_view(types@).contains(a.content_type->0@)),
                        0,
                    ) {
                        Some(a) => Err(list_reason(*mode, "content type"@, a.content_type->0@)),
                        None => Ok(()),
                    }
                }
            },
            MessageFilterRule::StickerId { mode, stickers } => match first_from(
                m.stickers@,
                |s: Sticker| offends(*mode, stickers@.contains(s.id)),
                0,
            ) {
                Some(s) => Err(list_reason(*mode, "sticker"@, decimal(s.id as nat))),
                None => Ok(()),
            },
            MessageFilterRule::StickerName { stickers } => match first_from(
                m.stickers@,
                |s: Sticker| stickers.captures_spec(s.name@) is Some,
                0,
            ) {
                Some(s) => Err("contains sticker with denied name substring `"@
                    + group_text(stickers.captures_spec(s.name@)->0, 0) + seq!['`']),
                None => Ok(()),
            },
            _ => self.text_outcome(m.content@),
        }
    }

    /// Evaluates the rule against a text.
    pub fn filter_text(&self, ex: &Extractors, text: &str) -> (r: Result<(), String>)
        requires
            ex.wf(),
        ensures
            outcome(r) == self.text_outcome(text@),
    {
        match self {
            MessageFilterRule::Words { words } => {
                let sk = skeletonize(text);
                match words.captures(sk.as_str()) {
                    Some(g) => Err(quoted("contains word `", word_of_exec(&g).as_str())),
                    None => match words.captures(text) {
                        Some(g) => Err(quoted("contains word `", word_of_exec(&g).as_str())),
                        None => Ok(()),
                    },
                }
            },
            MessageFilterRule::Substring { substrings } => {
                let sk = skeletonize(text);
                match substrings.captures(sk.as_str()) {
                    Some(g) => Err(quoted("contains substring `", group_string(&g, 0).as_str())),
                    None => match substrings.captures(text) {
                        Some(g) => Err(quoted("contains substring `", group_string(&g, 0).as_str())),
                        None => Ok(()),
                    },
                }
            },
            MessageFilterRule::Regex { regexes } => {
                match regexes.first_match(text) {
                    Some((_, p)) => Err(quoted("matches regex `", p.as_str())),
                    None => {
                        let sk = skeletonize(text);
                        match regexes.first_match(sk.as_str()) {
                            Some((_, p)) => Err(quoted("matches regex `", p.as_str())),
                            None => Ok(()),
                        }
                    },
                }
            },
            MessageFilterRule::Zalgo => {
                if ex.has_zalgo(text) {
                    Err("contains zalgo".to_owned())
                } else {
                    Ok(())
                }
            },
            MessageFilterRule::Invite { mode, invites } => {
                let codes = ex.invite_codes(text);
                filter_values(*mode, "invite", &codes, invites)
            },
            MessageFilterRule::Link { mode, domains } => {
                let found = ex.link_domains(text);
                let invite_domain = INVITE_DOMAIN.to_owned();
                let ghost vs = strings_view(found@);
                let ghost p = |d: Seq<char>| d != INVITE_DOMAIN@
                    && offends(*mode, domain_entry(strings_view(domains@), d) is Some);
                let mut i: usize = 0;
                while i < found.len()
                    invariant
                        i <= found@.len(),
                        vs == strings_view(found@),
                        invite_domain@ == INVITE_DOMAIN@,
                        p == (|d: Seq<char>| d != INVITE_DOMAIN@
                            && offends(*mode, domain_entry(strings_view(domains@), d) is Some)),
                        first_from(vs, p, 0) == first_from(vs, p, i as int),
                        self.text_outcome(text@) == (match first_from(vs, p, 0) {
                            Some(d) => match mode {
                                FilterMode::AllowList => Err(list_reason(*mode, "domain"@, d)),
                                FilterMode::DenyList => Err(list_reason(*mode, "domain"@,
                                    domain_entry(strings_view(domains@), d)->0)),
                            },
                            None => Ok::<(), Seq<char>>(()),
                        }),
                    decreases found.len() - i,
                {
                    assert(vs[i as int] == found@[i as int]@);
                    if found[i] != invite_domain {
                        let entry = domain_entry_exec(domains, &found[i]);
                        match mode {
                            FilterMode::AllowList => if entry.is_none() {
                                return Err(list_reason_exec(*mode, "domain", found[i].as_str()));
                            },
                            FilterMode::DenyList => if let Some(k) = entry {
                                return Err(list_reason_exec(*mode, "domain", domains[k].as_str()));
                            },
                        }
                    }
                    i = i + 1;
                }
                Ok(())
            },
            MessageFilterRule::EmojiName { names } => {
                let found = ex.custom_emoji_names(text);
                let ghost vs = strings_view(found@);
                let ghost p = |n: Seq<char>| names.captures_spec(n) is Some;
                let mut i: usize = 0;
                while i < found.len()
                    invariant
                        i <= found@.len(),
                        vs == strings_view(found@),
                        p == (|n: Seq<char>| names.captures_spec(n) is Some),
                        first_from(vs, p, 0) == first_from(vs, p, i as int),
                        self.text_outcome(text@) == (match first_from(vs, p, 0) {
                            Some(n) => Err("contains emoji with denied name substring `"@
                                + group_text(names.captures_spec(n)->0, 0) + seq!['`']),
                            None => Ok::<(), Seq<char>>(()),
                        }),
                    decreases found.len() - i,
                {
                    if let Some(g) = names.captures(found[i].as_str()) {
                        return Err(quoted(
                            "contains emoji with denied name substring `",
                            group_string(&g, 0).as_str(),
                        ));
                    }
                    i = i + 1;
                }
                Ok(())
            },
            _ => Ok(()),
        }
    }

    /// Evaluates the rule against a message: attachment and sticker rules read
    /// the message, the others its content.
    pub fn filter_message(&self, ex: &Extractors, message: &MessageInfo) -> (r: Result<(), String>)
        requires
            ex.wf(),
        ensures
            outcome(r) == self.message_outcome(message),
    {
        match self {
            MessageFilterRule::MimeType { mode, types, allow_unknown } => {
                let atts = &message.attachments;
                let mut unknown = false;
                let mut i: usize = 0;
                while i < atts.len()
                    invariant
                        i <= atts@.len(),
                        unknown <==> exists|j: int| 0 <= j < i
                            && (#[trigger] atts@[j]).content_type is None,
                    decreases atts.len() - i,
                {
                    if atts[i].content_type.is_none() {
                        unknown = true;
                    }
                    i = i + 1;
                }
                if unknown && !*allow_unknown {
                    return Err("unknown content type for attachment".to_owned());
                }
                let ghost p = |a: Attachment| a.content_type is Some
                    && offends(*mode, strings_view(types@).contains(a.content_type->0@));
                let mut i: usize = 0;
                while i < atts.len()
                    invariant
                        i <= atts@.len(),
                        p == (|a: Attachment| a.content_type is Some
                            && offends(*mode, strings_view(types@).contains(a.content_type->0@))),
                        first_from(atts@, p, 0) == first_from(atts@, p, i as int),
                        self.message_outcome(message) == (match first_from(atts@, p, 0) {
                            Some(a) => Err(list_reason(*mode, "content type"@, a.content_type->0@)),
                            None => Ok::<(), Seq<char>>(()),
                        }),
                    decreases atts.len() - i,
                {
                    if let Some(t) = &atts[i].content_type {
                        let listed = contains_string(types, t);
                        let hit = match mode {
                            FilterMode::AllowList => !listed,
                            FilterMode::DenyList => listed,
                        };
                        if hit {
                            return Err(list_reason_exec(*mode, "content type", t.as_str()));
                        }
                    }
                    i = i + 1;
                }
                Ok(())
            },
            MessageFilterRule::StickerId { mode, stickers } => {
                let sts = &message.stickers;
                let ghost p = |s: Sticker| offends(*mode, stickers@.contains(s.id));
                let mut i: usize = 0;
                while i < sts.len()
                    invariant
                        i <= sts@.len(),
                        p == (|s: Sticker| offends(*mode, stickers@.contains(s.id))),
                        first_from(sts@, p, 0) == first_from(sts@, p, i as int),
                        self.message_outcome(message) == (match first_from(sts@, p, 0) {
                            Some(s) => Err(list_reason(*mode, "sticker"@, decimal(s.id as nat))),
                            None => Ok::<(), Seq<char>>(()),
                        }),
                    decreases sts.len() - i,
                {
                    let listed = crate::scoping::contains_id(stickers.as_slice(), sts[i].id);
                    let hit = match mode {
                        FilterMode::AllowList => !listed,
                        FilterMode::DenyList => listed,
                    };
                    if hit {
                        let id = string_of(&decimal_string(sts[i].id));
                        return Err(list_reason_exec(*mode, "sticker", id.as_str()));
                    }
                    i = i + 1;
                }
                Ok(())
            },
            MessageFilterRule::StickerName { stickers: names } => {
                let sts = &message.stickers;
                let ghost p = |s: Sticker| names.captures_spec(s.name@) is Some;
                let mut i: usize = 0;
                while i < sts.len()
                    invariant
                        i <= sts@.len(),
                        p == (|s: Sticker| names.captures_spec(s.name@) is Some),
                        first_from(sts@, p, 0) == first_from(sts@, p, i as int),
                        self.message_outcome(message) == (match first_from(sts@, p, 0) {
                            Some(s) => Err("contains sticker with denied name substring `"@
                                + group_text(names.captures_spec(s.name@)->0, 0) + seq!['`']),
                            None => Ok::<(), Seq<char>>(()),
                        }),
                    decreases sts.len() - i,
                {
                    if let Some(g) = names.captures(sts[i].name.as_str()) {
                        return Err(quoted(
                            "contains sticker with denied name substring `",
                            group_string(&g, 0).as_str(),
                        ));
                    }
                    i = i + 1;
                }
                Ok(())
            },
            _ => self.filter_text(ex, message.content.as_str()),
        }
    }
}

/// The outcome of `rules`, from index `i` on: the first failing rule decides.
pub open spec fn rules_outcome(rules: Seq<MessageFilterRule>, m: &MessageInfo, i: int) -> Result<(), Seq<char>>
    decreases rules.len() - i,
{
    if i < 0 || i >= rules.len() {
        Ok(())
    } else if rules[i].message_outcome(m) is Err {
        rules[i].message_outcome(m)
    } else {
        rules_outcome(rules, m, i + 1)
    }
}

/// The outcome of `rules` on a text, from index `i` on.
pub open spec fn rules_text_outcome(rules: Seq<MessageFilterRule>, text: Seq<char>, i: int) -> Result<(), Seq<char>>
    decreases rules.len() - i,
{
    if i < 0 || i >= rules.len() {
        Ok(())
    } else if rules[i].text_outcome(text) is Err {
        rules[i].text_outcome(text)
    } else {
        rules_text_outcome(rules, text, i + 1)
    }
}

/// A named filter over messages.
pub struct MessageFilter {
    pub name: String,
    /// Which rules to match messages against, in order.
    pub rules: Vec<MessageFilterRule>,
    /// What scoping to use for this filter, in place of the default.
    pub scoping: Option<Scoping>,
    /// What actions to take when a message fails the filter, in place of the
    /// default.
    pub actions: Option<Vec<MessageFilterAction>>,
}

impl MessageFilter {
    /// Evaluates the rules in order against a message; the first failure
    /// decides.
    pub fn filter_message(&self, ex: &Extractors, message: &MessageInfo) -> (r: Result<(), String>)
        requires
            ex.wf(),
        ensures
            outcome(r) == rules_outcome(self.rules@, message, 0),
    {
        let mut i: usize = 0;
        while i < self.rules.len()
            invariant
                i <= self.rules@.len(),
                ex.wf(),
                rules_outcome(self.rules@, message, 0) == rules_outcome(self.rules@, message, i as int),
            decreases self.rules.len() - i,
        {
            let r = self.rules[i].filter_message(ex, message);
            if r.is_err() {
                return r;
            }
            i = i + 1;
        }
        Ok(())
    }

    /// Evaluates the rules in order against a text; the first failure decides.
    pub fn filter_text(&self, ex: &Extractors, text: &str) -> (r: Result<(), String>)
        requires
            ex.wf(),
        ensures
            outcome(r) == rules_text_outcome(self.rules@, text@, 0),
    {
        let mut i: usize = 0;
        while i < self.rules.len()
            invariant
                i <= self.rules@.len(),
                ex.wf(),
                rules_text_outcome(self.rules@, text@, 0) == rules_text_outcome(self.rules@, text@, i as int),
            decreases self.rules.len() - i,
        {
            let r = self.rules[i].filter_text(ex, text);
            if r.is_err() {
                return r;
            }
            i = i + 1;
        }
        Ok(())
    }
}

/// A rule of a reaction filter.
pub enum ReactionFilterRule {
    /// Standard emoji.
    Default { mode: FilterMode, emoji: Vec<String> },
    /// Custom emoji by id.
    CustomId { mode: FilterMode, emoji: Vec<u64> },
    /// Substrings of custom emoji names.
    CustomName { names: Pattern },
}

/// The reason given for a reaction emoji.
pub open spec fn reaction_reason(mode: FilterMode, v: Seq<char>) -> Seq<char> {
    match mode {
        FilterMode::AllowList => "reacted with unallowed emoji `"@ + v + seq!['`'],
        FilterMode::DenyList => "reacted with denied emoji `"@ + v + seq!['`'],
    }
}

fn reaction_reason_exec(mode: FilterMode, v: &str) -> (r: String)
    ensures
        r@ == reaction_reason(mode, v@),
{
    match mode {
        FilterMode::AllowList => quoted("reacted with unallowed emoji `", v),
        FilterMode::DenyList => quoted("reacted with denied emoji `", v),
    }
}

impl ReactionFilterRule {
    /// What the rule decides about a reaction.
    pub open spec fn reaction_outcome(&self, rx: ReactionView) -> Result<(), Seq<char>> {
        match self {
            ReactionFilterRule::Default { mode, emoji } => match rx {
                ReactionView::Unicode { name } => if offends(*mode, strings_view(emoji@).contains(name)) {
                    Err(reaction_reason(*mode, name))
                } else {
                    Ok(())
                },
                _ => Ok(()),
            },
            ReactionFilterRule::CustomId { mode, emoji } => match rx {
                ReactionView::Custom { id, .. } => if offends(*mode, emoji@.contains(id)) {
                    Err(reaction_reason(*mode, decimal(id as nat)))
                } else {
                    Ok(())
                },
                _ => Ok(()),
            },
            ReactionFilterRule::CustomName { names } => match rx {
                ReactionView::Custom { name: Some(n), .. } => if names.captures_spec(n) is Some {
                    Err("reacted with denied emoji name `"@ + n + seq!['`'])
                } else {
                    Ok(())
                },
                _ => Ok(()),
            },
        }
    }

    /// Evaluates the rule against a reaction.
    pub fn filter_reaction(&self, reaction: &ReactionType) -> (r: Result<(), String>)
        ensures
            outcome(r) == self.reaction_outcome(reaction@),
    {
        match self {
            ReactionFilterRule::Default { mode, emoji } => match reaction {
                ReactionType::Unicode { name } => {
                    let listed = contains_string(emoji, name);
                    let hit = match mode {
                        FilterMode::AllowList => !listed,
                        FilterMode::DenyList => listed,
                    };
                    if hit {
                        Err(reaction_reason_exec(*mode, name.as_str()))
                    } else {
                        Ok(())
                    }
                },
                _ => Ok(()),
            },
            ReactionFilterRule::CustomId { mode, emoji } => match reaction {
                ReactionType::Custom { id, .. } => {
                    let listed = crate::scoping::contains_id(emoji.as_slice(), *id);
                    let hit = match mode {
                        FilterMode::AllowList => !listed,
                        FilterMode::DenyList => listed,
                    };
                    if hit {
                        let digits = string_of(&decimal_string(*id));
                        Err(reaction_reason_exec(*mode, digits.as_str()))
                    } else {
                        Ok(())
                    }
                },
                _ => Ok(()),
            },
            ReactionFilterRule::CustomName { names } => match reaction {
                ReactionType::Custom { name: Some(n), .. } => {
                    if names.captures(n.as_str()).is_some() {
                        Err(quoted("reacted with denied emoji name `", n.as_str()))
                    } else {
                        Ok(())
                    }
                },
                _ => Ok(()),
            },
        }
    }
}

/// The outcome of reaction `rules`, from index `i` on.
pub open spec fn reaction_rules_outcome(rules: Seq<ReactionFilterRule>, rx: ReactionView, i: int) -> Result<(), Seq<char>>
    decreases rules.len() - i,
{
    if i < 0 || i >= rules.len() {
        Ok(())
    } else if rules[i].reaction_outcome(rx) is Err {
        rules[i].reaction_outcome(rx)
    } else {
        reaction_rules_outcome(rules, rx, i + 1)
    }
}

/// A named filter over reactions.
pub struct ReactionFilter {
    pub name: String,
    pub rules: Vec<ReactionFilterRule>,
    pub scoping: Option<Scoping>,
    pub actions: Option<Vec<MessageFilterAction>>,
}

impl ReactionFilter {
    /// Evaluates the rules in order against a reaction; the first failure
    /// decides.
    pub fn filter_reaction(&self, reaction: &ReactionType) -> (r: Result<(), String>)
        ensures
            outcome(r) == reaction_rules_outcome(self.rules@, reaction@, 0),
    {
        let mut i: usize = 0;
        while i < self.rules.len()
            invariant
                i <= self.rules@.len(),
                reaction_rules_outcome(self.rules@, reaction@, 0)
                    == reaction_rules_outcome(self.rules@, reaction@, i as int),
            decreases self.rules.len() - i,
        {
            let r = self.rules[i].filter_reaction(reaction);
            if r.is_err() {
                return r;
            }
            i = i + 1;
        }
        Ok(())
    }
}

} // verus!
