//! The fixed extraction patterns: invites, links, spoilers, emoji, mentions and
//! combining marks, compiled once and handed to the components that use them.

use vstd::prelude::*;
use crate::pattern::{Pattern, PatternError, regex_captures, regex_captures_all, regex_compiles};

verus! {

/// Combining marks used to corrupt text.
pub const ZALGO_PATTERN: &'static str =
    r"\u0303|\u035F|\u034F|\u0327|\u031F|\u0353|\u032F|\u0318|\u0353|\u0359|\u0354";

/// An invite link; group 1 is the invite code. Matched ignoring case.
pub const INVITE_PATTERN: &'static str = r"discord.gg/(\w+)";

/// A web link; group 1 is the domain. Matched ignoring case.
pub const LINK_PATTERN: &'static str = r"https?://([^/\s]+)";

/// A `||spoiler||` span.
pub const SPOILER_PATTERN: &'static str = r"\|\|[^\|]*\|\|";

/// An emoji glyph.
pub const EMOJI_PATTERN: &'static str =
    r"\p{Emoji_Presentation}|\p{Emoji}\uFE0F|\p{Emoji_Modifier_Base}";

/// A custom emoji; group 1 is its name, group 2 its id.
pub const CUSTOM_EMOJI_PATTERN: &'static str = r"<a?:([^:]+):(\d+)>";

/// A user, nickname or role mention.
pub const MENTION_PATTERN: &'static str = r"<@[!&]?\d+>";

/// The host name that invite links use.
pub const INVITE_DOMAIN: &'static str = "discord.gg";

/// The text of capture group `i`, empty when the group did not participate.
pub open spec fn group_text(g: Seq<Option<Seq<char>>>, i: int) -> Seq<char> {
    if 0 <= i < g.len() && g[i] is Some {
        g[i]->0
    } else {
        Seq::empty()
    }
}

/// Group `i` of every match.
pub open spec fn groups_of(matches: Seq<Seq<Option<Seq<char>>>>, i: int) -> Seq<Seq<char>> {
    matches.map_values(|g: Seq<Option<Seq<char>>>| group_text(g, i))
}

/// Whether `text` holds a combining mark of the zalgo pattern.
pub open spec fn has_zalgo(text: Seq<char>) -> bool {
    regex_captures(ZALGO_PATTERN@, false, text) is Some
}

/// The invite codes in `text`, in order.
pub open spec fn invite_codes(text: Seq<char>) -> Seq<Seq<char>> {
    groups_of(regex_captures_all(INVITE_PATTERN@, true, text), 1)
}

/// The linked domains in `text`, in order.
pub open spec fn link_domains(text: Seq<char>) -> Seq<Seq<char>> {
    groups_of(regex_captures_all(LINK_PATTERN@, true, text), 1)
}

/// The names of the custom emoji in `text`, in order.
pub open spec fn custom_emoji_names(text: Seq<char>) -> Seq<Seq<char>> {
    groups_of(regex_captures_all(CUSTOM_EMOJI_PATTERN@, false, text), 1)
}

/// How many times `pattern` matches in `text`.
pub open spec fn match_count(pattern: Seq<char>, case_insensitive: bool, text: Seq<char>) -> nat {
    regex_captures_all(pattern, case_insensitive, text).len()
}

/// The extraction patterns, compiled.
pub struct Extractors {
    zalgo: Pattern,
    invite: Pattern,
    link: Pattern,
    spoiler: Pattern,
    emoji: Pattern,
    custom_emoji: Pattern,
    mention: Pattern,
}

impl Extractors {
    /// Each pattern is the fixed one, with its case rule.
    pub closed spec fn wf(&self) -> bool {
        &&& self.zalgo.source() == ZALGO_PATTERN@ && !self.zalgo.insensitive()
        &&& self.invite.source() == INVITE_PATTERN@ && self.invite.insensitive()
        &&& self.link.source() == LINK_PATTERN@ && self.link.insensitive()
        &&& self.spoiler.source() == SPOILER_PATTERN@ && !self.spoiler.insensitive()
        &&& self.emoji.source() == EMOJI_PATTERN@ && !self.emoji.insensitive()
        &&& self.custom_emoji.source() == CUSTOM_EMOJI_PATTERN@ && !self.custom_emoji.insensitive()
        &&& self.mention.source() == MENTION_PATTERN@ && !self.mention.insensitive()
    }

    /// Compiles the extraction patterns.
    pub fn new() -> (r: Result<Extractors, PatternError>)
        ensures
            r is Ok <==> {
                &&& regex_compiles(ZALGO_PATTERN@, false)
                &&& regex_compiles(INVITE_PATTERN@, true)
                &&& regex_compiles(LINK_PATTERN@, true)
                &&& regex_compiles(SPOILER_PATTERN@, false)
                &&& regex_compiles(EMOJI_PATTERN@, false)
                &&& regex_compiles(CUSTOM_EMOJI_PATTERN@, false)
                &&& regex_compiles(MENTION_PATTERN@, false)
            },
            r matches Ok(e) ==> e.wf(),
    {
        let zalgo = Pattern::new(ZALGO_PATTERN, false)?;
        let invite = Pattern::new(INVITE_PATTERN, true)?;
        let link = Pattern::new(LINK_PATTERN, true)?;
        let spoiler = Pattern::new(SPOILER_PATTERN, false)?;
        let emoji = Pattern::new(EMOJI_PATTERN, false)?;
        let custom_emoji = Pattern::new(CUSTOM_EMOJI_PATTERN, false)?;
        let mention = Pattern::new(MENTION_PATTERN, false)?;
        Ok(Extractors { zalgo, invite, link, spoiler, emoji, custom_emoji, mention })
    }

    /// Whether `text` holds zalgo marks.
    pub fn has_zalgo(&self, text: &str) -> (r: bool)
        requires
            self.wf(),
        ensures
            r == has_zalgo(text@),
    {
        self.zalgo.captures(text).is_some()
    }

    /// The invite codes in `text`.
    pub fn invite_codes(&self, text: &str) -> (r: Vec<String>)
        requires
            self.wf(),
        ensures
            crate::pattern::strings_view(r@) == invite_codes(text@),
    {
        group_strings(&self.invite.captures_all(text), 1)
    }

    /// The linked domains in `text`.
    pub fn link_domains(&self, text: &str) -> (r: Vec<String>)
        requires
            self.wf(),
        ensures
            crate::pattern::strings_view(r@) == link_domains(text@),
    {
        group_strings(&self.link.captures_all(text), 1)
    }

    /// The custom emoji names in `text`.
    pub fn custom_emoji_names(&self, text: &str) -> (r: Vec<String>)
        requires
            self.wf(),
        ensures
            crate::pattern::strings_view(r@) == custom_emoji_names(text@),
    {
        group_strings(&self.custom_emoji.captures_all(text), 1)
    }

    /// How many spoiler spans `text` holds.
    pub fn spoiler_count(&self, text: &str) -> (r: usize)
        requires
            self.wf(),
        ensures
            r == match_count(SPOILER_PATTERN@, false, text@),
    {
        self.spoiler.captures_all(text).len()
    }

    /// How many emoji `text` holds.
    pub fn emoji_count(&self, text: &str) -> (r: usize)
        requires
            self.wf(),
        ensures
            r == match_count(EMOJI_PATTERN@, false, text@),
    {
        self.emoji.captures_all(text).len()
    }

    /// How many links `text` holds.
    pub fn link_count(&self, text: &str) -> (r: usize)
        requires
            self.wf(),
        ensures
            r == match_count(LINK_PATTERN@, true, text@),
    {
        self.link.captures_all(text).len()
    }

    /// How many mentions `text` holds.
    pub fn mention_count(&self, text: &str) -> (r: usize)
        requires
            self.wf(),
        ensures
            r == match_count(MENTION_PATTERN@, false, text@),
    {
        self.mention.captures_all(text).len()
    }
}

/// The text of group `i` of a capture list.
pub fn group_string(g: &Vec<Option<String>>, i: usize) -> (r: String)
    ensures
        r@ == group_text(crate::pattern::groups_view(g@), i as int),
{
    if i < g.len() {
        match &g[i] {
            Some(s) => s.clone(),
            None => String::new(),
        }
    } else {
        String::new()
    }
}

/// Group `i` of every capture list.
fn group_strings(all: &Vec<Vec<Option<String>>>, i: usize) -> (r: Vec<String>)
    ensures
        crate::pattern::strings_view(r@) == groups_of(
            all@.map_values(|g: Vec<Option<String>>| crate::pattern::groups_view(g@)),
            i as int,
        ),
{
    let mut out: Vec<String> = Vec::new();
    let mut k: usize = 0;
    while k < all.len()
        invariant
            k <= all.len(),
            out@.len() == k,
            forall|j: int| 0 <= j < k ==> (#[trigger] out@[j])@ == group_text(
                crate::pattern::groups_view(all@[j]@), i as int),
        decreases all.len() - k,
    {
        out.push(group_string(&all[k], i));
        k = k + 1;
    }
    assert(crate::pattern::strings_view(out@) =~= groups_of(
        all@.map_values(|g: Vec<Option<String>>| crate::pattern::groups_view(g@)),
        i as int,
    ));
    out
}

} // verus!
