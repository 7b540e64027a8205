//! Message previews: the message content, cut so that a templated message
//! stays under the platform's length ceiling.

use vstd::prelude::*;
use crate::text::{chars_of, occurs_at, replace_first, replace_first_exec, string_of};

verus! {

/// The longest message the platform accepts, in bytes.
pub const MAX_MESSAGE_BYTES: u64 = 2000;

/// How many bytes `c` takes in UTF-8.
pub open spec fn utf8_len(c: char) -> nat {
    if (c as u32) < 0x80 {
        1
    } else if (c as u32) < 0x800 {
        2
    } else if (c as u32) < 0x10000 {
        3
    } else {
        4
    }
}

/// How many bytes `s` takes in UTF-8.
pub open spec fn utf8_bytes(s: Seq<char>) -> nat
    decreases s.len(),
{
    if s.len() == 0 {
        0
    } else {
        utf8_bytes(s.drop_last()) + utf8_len(s.last())
    }
}

fn utf8_len_exec(c: char) -> (r: u64)
    ensures
        r == utf8_len(c),
{
    let v = c as u32;
    if v < 0x80 {
        1
    } else if v < 0x800 {
        2
    } else if v < 0x10000 {
        3
    } else {
        4
    }
}

/// The UTF-8 length of `s`, or `cap` when it is at least that.
fn utf8_bytes_capped(s: &Vec<char>, cap: u64) -> (r: u64)
    requires
        cap <= MAX_MESSAGE_BYTES,
    ensures
        r == if utf8_bytes(s@) < cap { utf8_bytes(s@) } else { cap as nat },
{
    if cap == 0 {
        return 0;
    }
    let mut total: u64 = 0;
    let mut i: usize = 0;
    while i < s.len()
        invariant
            i <= s.len(),
            cap <= MAX_MESSAGE_BYTES,
            total == utf8_bytes(s@.subrange(0, i as int)),
            total < cap,
        decreases s.len() - i,
    {
        assert(s@.subrange(0, i + 1).drop_last() =~= s@.subrange(0, i as int));
        total = total + utf8_len_exec(s[i]);
        i = i + 1;
        if total >= cap {
            proof {
                lemma_bytes_prefix_monotone(s@, i as int, s@.len() as int);
                assert(s@.subrange(0, s@.len() as int) =~= s@);
            }
            return cap;
        }
    }
    assert(s@.subrange(0, i as int) =~= s@);
    total
}

proof fn lemma_bytes_prefix_monotone(s: Seq<char>, i: int, j: int)
    requires
        0 <= i <= j <= s.len(),
    ensures
        utf8_bytes(s.subrange(0, i)) <= utf8_bytes(s.subrange(0, j)),
    decreases j - i,
{
    if i < j {
        lemma_bytes_prefix_monotone(s, i, j - 1);
        assert(s.subrange(0, j).drop_last() =~= s.subrange(0, j - 1));
    }
    if j == s.len() {
        assert(s.subrange(0, j) =~= s);
    }
}

/// Where a cut at `budget` bytes falls, scanning from index `i`: the end of the
/// longest prefix that fits.
pub open spec fn cut_from(s: Seq<char>, budget: nat, i: int) -> int
    decreases s.len() - i,
{
    if 0 <= i < s.len() && utf8_bytes(s.subrange(0, i + 1)) <= budget {
        cut_from(s, budget, i + 1)
    } else {
        i
    }
}

/// How many bytes the preview may take in `format`: the ceiling less the
/// template and the placeholder, and none when they leave no room.
pub open spec fn preview_room(format: Seq<char>) -> nat {
    if utf8_bytes(format) + 16 >= 2000 {
        0
    } else {
        (2000 - 16 - utf8_bytes(format)) as nat
    }
}

/// The ellipsis that marks a shortened preview.
pub open spec fn ellipsis() -> Seq<char> {
    seq!['\u{2026}']
}

/// `content` as shown in a preview with `room` bytes: whole when it fits, else
/// its longest prefix that leaves room for the ellipsis, then the ellipsis.
pub open spec fn truncated(content: Seq<char>, room: nat) -> Seq<char> {
    if utf8_bytes(content) > room {
        let budget: nat = if room >= 3 { (room - 3) as nat } else { 0 };
        content.subrange(0, cut_from(content, budget, 0)) + ellipsis()
    } else {
        content
    }
}

/// `format` with its first `$MESSAGE_PREVIEW` replaced by the preview of
/// `content`.
pub open spec fn message_preview(format: Seq<char>, content: Seq<char>) -> Seq<char> {
    replace_first(format, "$MESSAGE_PREVIEW"@, truncated(content, preview_room(format)))
}

/// Replaces the first `$MESSAGE_PREVIEW` in `format_string` by `content`, cut
/// at a character boundary and marked with an ellipsis where it would not fit.
pub fn format_message_preview(format_string: String, content: &str) -> (r: String)
    ensures
        r@ == message_preview(format_string@, content@),
{
    string_of(&preview_chars(&chars_of(format_string.as_str()), &chars_of(content)))
}

/// The preview, on character vectors.
pub fn preview_chars(format_string: &Vec<char>, content: &Vec<char>) -> (r: Vec<char>)
    ensures
        r@ == message_preview(format_string@, content@),
{
    let placeholder = chars_of("$MESSAGE_PREVIEW");
    proof {
        reveal_strlit("$MESSAGE_PREVIEW");
    }
    let used = utf8_bytes_capped(format_string, 2000);
    let room: u64 = if used + 16 >= 2000 { 0 } else { 2000 - 16 - used };
    assert(room == preview_room(format_string@));
    let content_size = utf8_bytes_capped(content, 2000);
    let shown: Vec<char> = if content_size > room {
        let budget: u64 = if room >= 3 { room - 3 } else { 0 };
        let mut out: Vec<char> = Vec::new();
        let mut total: u64 = 0;
        let mut i: usize = 0;
        while i < content.len() && total + utf8_len_exec(content[i]) <= budget
            invariant
                i <= content.len(),
                budget < 2000,
                total <= budget,
                total == utf8_bytes(content@.subrange(0, i as int)),
                out@ == content@.subrange(0, i as int),
                cut_from(content@, budget as nat, 0) == cut_from(content@, budget as nat, i as int),
            decreases content.len() - i,
        {
            assert(content@.subrange(0, i + 1).drop_last() =~= content@.subrange(0, i as int));
            total = total + utf8_len_exec(content[i]);
            out.push(content[i]);
            i = i + 1;
        }
        if i < content.len() {
            assert(content@.subrange(0, i + 1).drop_last() =~= content@.subrange(0, i as int));
        }
        assert(i == cut_from(content@, budget as nat, i as int));
        out.push('\u{2026}');
        assert(out@ =~= truncated(content@, room as nat));
        out
    } else {
        let c = content.clone();
        assert(c@ =~= content@);
        c
    };
    assert(shown@ == truncated(content@, preview_room(format_string@)));
    replace_first_exec(format_string, &placeholder, &shown)
}

proof fn lemma_bytes_concat(a: Seq<char>, b: Seq<char>)
    ensures
        utf8_bytes(a + b) == utf8_bytes(a) + utf8_bytes(b),
    decreases b.len(),
{
    if b.len() == 0 {
        assert(a + b =~= a);
    } else {
        lemma_bytes_concat(a, b.drop_last());
        assert((a + b).drop_last() =~= a + b.drop_last());
        assert((a + b).last() == b.last());
    }
}

proof fn lemma_replace_first_bytes(s: Seq<char>, pat: Seq<char>, rep: Seq<char>)
    requires
        pat.len() > 0,
    ensures
        utf8_bytes(replace_first(s, pat, rep)) <= utf8_bytes(s) + utf8_bytes(rep),
    decreases s.len(),
{
    if s.len() > 0 {
        if occurs_at(s, 0, pat) {
            let rest = s.subrange(pat.len() as int, s.len() as int);
            lemma_bytes_concat(rep, rest);
            lemma_bytes_concat(s.subrange(0, pat.len() as int), rest);
            assert(s.subrange(0, pat.len() as int) + rest =~= s);
        } else {
            lemma_replace_first_bytes(s.drop_first(), pat, rep);
            lemma_bytes_concat(seq![s[0]], replace_first(s.drop_first(), pat, rep));
            lemma_bytes_concat(seq![s[0]], s.drop_first());
            assert(seq![s[0]] + s.drop_first() =~= s);
        }
    }
}

proof fn lemma_cut_fits(s: Seq<char>, budget: nat, i: int)
    requires
        0 <= i <= s.len(),
        utf8_bytes(s.subrange(0, i)) <= budget,
    ensures
        i <= cut_from(s, budget, i) <= s.len(),
        utf8_bytes(s.subrange(0, cut_from(s, budget, i))) <= budget,
    decreases s.len() - i,
{
    if i < s.len() && utf8_bytes(s.subrange(0, i + 1)) <= budget {
        lemma_cut_fits(s, budget, i + 1);
    }
}

/// A preview whose template leaves room for the ellipsis never takes the
/// message past the platform's length ceiling.
pub proof fn lemma_preview_within_ceiling(format: Seq<char>, content: Seq<char>)
    requires
        utf8_bytes(format) + 19 <= 2000,
    ensures
        utf8_bytes(message_preview(format, content)) <= 2000,
{
    let room = preview_room(format);
    let shown = truncated(content, room);
    if utf8_bytes(content) > room {
        let budget: nat = (room - 3) as nat;
        assert(content.subrange(0, 0) =~= Seq::<char>::empty());
        lemma_cut_fits(content, budget, 0);
        let cut = content.subrange(0, cut_from(content, budget, 0));
        lemma_bytes_concat(cut, ellipsis());
        assert(ellipsis().drop_last() =~= Seq::<char>::empty());
        assert(ellipsis().last() == '\u{2026}');
        assert(('\u{2026}' as u32) == 0x2026u32);
        assert(utf8_len('\u{2026}') == 3);
        assert(utf8_bytes(ellipsis().drop_last()) == 0);
        assert(utf8_bytes(ellipsis()) == 3);
    }
    reveal_strlit("$MESSAGE_PREVIEW");
    lemma_replace_first_bytes(format, "$MESSAGE_PREVIEW"@, shown);
}

} // verus!
