//! Compiled regular expressions, kept together with the pattern text they were
//! compiled from, and the fixed extraction patterns of the engine.

use vstd::prelude::*;
use crate::text::{chars_of, string_of};

verus! {

/// `regex::Regex`, carried opaquely inside a `Pattern`.
#[verifier::external_type_specification]
#[verifier::external_body]
pub struct ExRegex(regex::Regex);

/// `regex::RegexSet`, carried opaquely inside a `PatternSet`.
#[verifier::external_type_specification]
#[verifier::external_body]
pub struct ExRegexSet(regex::RegexSet);

/// `regex::Error`, the failure of compiling a pattern.
#[verifier::external_type_specification]
#[verifier::external_body]
pub struct ExRegexError(regex::Error);

/// The capture groups of the leftmost-first match of `pattern` in `text`,
/// group 0 first; `None` when nothing matches.
pub uninterp spec fn regex_captures(pattern: Seq<char>, case_insensitive: bool, text: Seq<char>)
    -> Option<Seq<Option<Seq<char>>>>;

/// The capture groups of every successive non-overlapping match of `pattern`
/// in `text`.
pub uninterp spec fn regex_captures_all(
    pattern: Seq<char>,
    case_insensitive: bool,
    text: Seq<char>,
) -> Seq<Seq<Option<Seq<char>>>>;

/// The indices of the patterns of the set that match `text`, ascending.
pub uninterp spec fn regex_set_matches(patterns: Seq<Seq<char>>, text: Seq<char>) -> Seq<usize>;

/// The lowest index of a pattern of the set that matches `text`.
pub open spec fn regex_set_first_match(patterns: Seq<Seq<char>>, text: Seq<char>) -> Option<nat> {
    if regex_set_matches(patterns, text).len() > 0 {
        Some(regex_set_matches(patterns, text)[0] as nat)
    } else {
        None
    }
}

/// Whether `c` has a meaning of its own in a pattern.
pub open spec fn is_meta_character(c: char) -> bool {
    c == '\\' || c == '.' || c == '+' || c == '*' || c == '?' || c == '(' || c == ')' || c == '|'
        || c == '[' || c == ']' || c == '{' || c == '}' || c == '^' || c == '$' || c == '#'
        || c == '&' || c == '-' || c == '~'
}

/// `s` with a backslash before every meta character.
pub open spec fn regex_escaped(s: Seq<char>) -> Seq<char>
    decreases s.len(),
{
    if s.len() == 0 {
        Seq::empty()
    } else if is_meta_character(s.last()) {
        regex_escaped(s.drop_last()) + seq!['\\', s.last()]
    } else {
        regex_escaped(s.drop_last()).push(s.last())
    }
}

/// Whether `source` is a pattern that compiles, with the given case rule.
pub uninterp spec fn regex_compiles(source: Seq<char>, case_insensitive: bool) -> bool;

/// Whether every pattern of `sources` compiles into one set.
pub uninterp spec fn regex_set_compiles(sources: Seq<Seq<char>>) -> bool;

/// The text of each capture group.
pub open spec fn groups_view(g: Seq<Option<String>>) -> Seq<Option<Seq<char>>> {
    g.map_values(|o: Option<String>| match o {
        Some(s) => Some(s@),
        None => None,
    })
}

/// Whether a capture list is well formed: group 0 always participates.
pub open spec fn has_whole_match(g: Seq<Option<Seq<char>>>) -> bool {
    g.len() >= 1 && g[0] is Some
}

/// Relies on `RegexBuilder::build`: compiles `source`, ignoring case when asked;
/// whether it succeeds depends on the pattern and the case rule alone.
#[verifier::external_body]
fn compile_regex(source: &str, case_insensitive: bool) -> (r: Result<regex::Regex, regex::Error>)
    ensures
        r is Ok <==> regex_compiles(source@, case_insensitive),
{
    regex::RegexBuilder::new(source).case_insensitive(case_insensitive).build()
}

/// Relies on `RegexSet::new`: compiles all of `sources` into one set; whether
/// it succeeds depends on the patterns alone.
#[verifier::external_body]
fn compile_regex_set(sources: &Vec<String>) -> (r: Result<regex::RegexSet, regex::Error>)
    ensures
        r is Ok <==> regex_set_compiles(strings_view(sources@)),
{
    regex::RegexSet::new(sources)
}

/// Relies on `regex::escape`: a backslash before each meta character of `s`.
#[verifier::external_body]
fn escape(s: &str) -> (r: String)
    ensures
        r@ == regex_escaped(s@),
{
    regex::escape(s)
}

/// A pattern that could not be compiled.
#[derive(Debug, PartialEq, Eq)]
pub struct PatternError {
    pub pattern: String,
}

/// A compiled regular expression and the pattern it was compiled from.
pub struct Pattern {
    source: String,
    case_insensitive: bool,
    regex: regex::Regex,
}

impl Pattern {
    /// The pattern text.
    pub closed spec fn source(&self) -> Seq<char> {
        self.source@
    }

    /// Whether matching ignores case.
    pub closed spec fn insensitive(&self) -> bool {
        self.case_insensitive
    }

    /// The captures of the first match in `text`.
    pub open spec fn captures_spec(&self, text: Seq<char>) -> Option<Seq<Option<Seq<char>>>> {
        regex_captures(self.source(), self.insensitive(), text)
    }

    /// The captures of every match in `text`.
    pub open spec fn captures_all_spec(&self, text: Seq<char>) -> Seq<Seq<Option<Seq<char>>>> {
        regex_captures_all(self.source(), self.insensitive(), text)
    }

    /// Compiles `source`; fails when it is not a valid pattern.
    pub fn new(source: &str, case_insensitive: bool) -> (r: Result<Pattern, PatternError>)
        ensures
            r is Ok <==> regex_compiles(source@, case_insensitive),
            r matches Ok(p) ==> p.source() == source@ && p.insensitive() == case_insensitive,
            r matches Err(e) ==> e.pattern@ == source@,
    {
        match compile_regex(source, case_insensitive) {
            Ok(regex) => Ok(Pattern { source: source.to_owned(), case_insensitive, regex }),
            Err(_) => Err(PatternError { pattern: source.to_owned() }),
        }
    }

    /// The pattern text.
    pub fn as_str(&self) -> (r: &str)
        ensures
            r@ == self.source(),
    {
        self.source.as_str()
    }

    /// The capture groups of the leftmost-first match in `text`.
    pub fn captures(&self, text: &str) -> (r: Option<Vec<Option<String>>>)
        ensures
            r is None <==> self.captures_spec(text@) is None,
            r matches Some(g) ==> self.captures_spec(text@) == Some(groups_view(g@)),
            r matches Some(g) ==> has_whole_match(groups_view(g@)),
    {
        self.captures_exec(text)
    }

    /// The capture groups of every successive non-overlapping match in `text`.
    pub fn captures_all(&self, text: &str) -> (r: Vec<Vec<Option<String>>>)
        ensures
            r@.len() == self.captures_all_spec(text@).len(),
            forall|i: int| 0 <= i < r@.len() ==> groups_view(#[trigger] r@[i]@)
                == self.captures_all_spec(text@)[i],
            forall|i: int| 0 <= i < r@.len() ==> has_whole_match(groups_view(#[trigger] r@[i]@)),
    {
        self.captures_all_exec(text)
    }

    /// Relies on `Regex::captures`: the groups of the leftmost-first match,
    /// group 0 always present.
    #[verifier::external_body]
    fn captures_exec(&self, text: &str) -> (r: Option<Vec<Option<String>>>)
        ensures
            r is None <==> regex_captures(self.source(), self.insensitive(), text@) is None,
            r matches Some(g) ==> regex_captures(self.source(), self.insensitive(), text@) == Some(groups_view(g@)),
            r matches Some(g) ==> has_whole_match(groups_view(g@)),
    {
        self.regex.captures(text).map(|c| c.iter().map(|m| m.map(|m| m.as_str().to_string())).collect())
    }

    /// Relies on `Regex::captures_iter`: the groups of each successive
    /// non-overlapping match, group 0 always present.
    #[verifier::external_body]
    fn captures_all_exec(&self, text: &str) -> (r: Vec<Vec<Option<String>>>)
        ensures
            r@.len() == regex_captures_all(self.source(), self.insensitive(), text@).len(),
            forall|i: int| 0 <= i < r@.len() ==> groups_view(#[trigger] r@[i]@)
                == regex_captures_all(self.source(), self.insensitive(), text@)[i],
            forall|i: int| 0 <= i < r@.len() ==> has_whole_match(groups_view(#[trigger] r@[i]@)),
    {
        self.regex
            .captures_iter(text)
            .map(|c| c.iter().map(|m| m.map(|m| m.as_str().to_string())).collect())
            .collect()
    }
}

/// The view of each string of a list.
pub open spec fn strings_view(v: Seq<String>) -> Seq<Seq<char>> {
    v.map_values(|s: String| s@)
}

/// A set of compiled regular expressions matched together.
pub struct PatternSet {
    sources: Vec<String>,
    set: regex::RegexSet,
}

impl PatternSet {
    /// The pattern texts, in order.
    pub closed spec fn sources(&self) -> Seq<Seq<char>> {
        strings_view(self.sources@)
    }

    /// Compiles every pattern of `sources` into one set.
    pub fn new(sources: Vec<String>) -> (r: Result<PatternSet, PatternError>)
        ensures
            r is Ok <==> regex_set_compiles(strings_view(sources@)),
            r matches Ok(p) ==> p.sources() == strings_view(sources@),
    {
        match compile_regex_set(&sources) {
            Ok(set) => Ok(PatternSet { sources, set }),
            Err(_) => Err(PatternError { pattern: String::new() }),
        }
    }

    /// The lowest index of a pattern that matches `text`, with its text.
    pub fn first_match(&self, text: &str) -> (r: Option<(usize, &String)>)
        ensures
            r is None <==> regex_set_first_match(self.sources(), text@) is None,
            r matches Some(m) ==> regex_set_first_match(self.sources(), text@) == Some(m.0 as nat)
                && m.0 < self.sources().len() && m.1@ == self.sources()[m.0 as int],
    {
        let all = self.matches_exec(text);
        if all.len() > 0 {
            let i = all[0];
            Some((i, &self.sources[i]))
        } else {
            None
        }
    }

    /// The indices of all patterns that match `text`, ascending.
    pub fn matches(&self, text: &str) -> (r: Vec<usize>)
        ensures
            r@ == regex_set_matches(self.sources(), text@),
            forall|k: int| 0 <= k < r@.len() ==> (#[trigger] r@[k]) < self.sources().len(),
            forall|k: int, l: int| 0 <= k < l < r@.len() ==> r@[k] < r@[l],
    {
        self.matches_exec(text)
    }

    /// Relies on `RegexSet::matches`: the indices of the matching patterns,
    /// ascending, each below the number of patterns.
    #[verifier::external_body]
    fn matches_exec(&self, text: &str) -> (r: Vec<usize>)
        ensures
            r@ == regex_set_matches(self.sources(), text@),
            forall|k: int| 0 <= k < r@.len() ==> (#[trigger] r@[k]) < self.sources().len(),
            forall|k: int, l: int| 0 <= k < l < r@.len() ==> r@[k] < r@[l],
    {
        self.set.matches(text).into_iter().collect()
    }
}

/// The escaped words joined by `|`.
pub open spec fn alternation(words: Seq<Seq<char>>) -> Seq<char>
    decreases words.len(),
{
    if words.len() == 0 {
        Seq::empty()
    } else if words.len() == 1 {
        regex_escaped(words[0])
    } else {
        alternation(words.drop_last()) + seq!['|'] + regex_escaped(words.last())
    }
}

/// Builds the alternation of the escaped `words`.
fn alternation_exec(words: &Vec<String>) -> (r: Vec<char>)
    ensures
        r@ == alternation(strings_view(words@)),
{
    let mut out: Vec<char> = Vec::new();
    let mut i: usize = 0;
    while i < words.len()
        invariant
            i <= words.len(),
            out@ == alternation(strings_view(words@).subrange(0, i as int)),
        decreases words.len() - i,
    {
        let ghost ws = strings_view(words@);
        assert(ws.subrange(0, i + 1).drop_last() =~= ws.subrange(0, i as int));
        let e = chars_of(escape(words[i].as_str()).as_str());
        if i > 0 {
            out.push('|');
        } else {
            assert(out@ =~= Seq::<char>::empty());
        }
        crate::text::extend_chars(&mut out, &e);
        i = i + 1;
    }
    assert(strings_view(words@).subrange(0, i as int) =~= strings_view(words@));
    out
}

/// The pattern that matches any of `words` as a whole word.
pub open spec fn word_pattern_source(words: Seq<Seq<char>>) -> Seq<char> {
    seq!['\\', 'b', '('] + alternation(words) + seq![')', '\\', 'b']
}

/// Compiles a case-insensitive pattern that matches any of `words` as a whole
/// word, capturing the word in group 1.
pub fn word_pattern(words: &Vec<String>) -> (r: Result<Pattern, PatternError>)
    ensures
        r is Ok <==> regex_compiles(word_pattern_source(strings_view(words@)), true),
        r matches Ok(p) ==> p.source() == word_pattern_source(strings_view(words@))
            && p.insensitive(),
{
    let mut src: Vec<char> = vec!['\\', 'b', '('];
    let alt = alternation_exec(words);
    crate::text::extend_chars(&mut src, &alt);
    crate::text::extend_chars(&mut src, &vec![')', '\\', 'b']);
    let src = string_of(&src);
    Pattern::new(src.as_str(), true)
}

/// Compiles a case-insensitive pattern that matches any of `words` anywhere.
pub fn substring_pattern(words: &Vec<String>) -> (r: Result<Pattern, PatternError>)
    ensures
        r is Ok <==> regex_compiles(alternation(strings_view(words@)), true),
        r matches Ok(p) ==> p.source() == alternation(strings_view(words@)) && p.insensitive(),
{
    let src = string_of(&alternation_exec(words));
    Pattern::new(src.as_str(), true)
}

} // verus!
