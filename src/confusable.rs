//! Homoglyph normalization: maps visually confusable characters to a
//! canonical "skeleton" form used only for matching.

use vstd::prelude::*;
use crate::text::string_of;

verus! {

/// The canonical replacement of a confusable character, or `None` when the
/// character stands for itself.
pub open spec fn confusable(c: char) -> Option<Seq<char>> {
    if c == '\u{0251}' || c == '\u{03b1}' || c == '\u{0430}' || c == '\u{237a}' {
        Some(seq!['a'])
    } else if c == '\u{0435}' {
        Some(seq!['e'])
    } else if c == '\u{0261}' {
        Some(seq!['g'])
    } else if c == '\u{04bb}' {
        Some(seq!['h'])
    } else if c == '\u{0131}' || c == '\u{0269}' || c == '\u{03b9}' || c == '\u{0456}' {
        Some(seq!['i'])
    } else if c == '\u{0458}' {
        Some(seq!['j'])
    } else if c == '\u{03bf}' || c == '\u{043e}' {
        Some(seq!['o'])
    } else if c == '\u{03c1}' || c == '\u{0440}' {
        Some(seq!['p'])
    } else if c == '\u{0441}' {
        Some(seq!['c'])
    } else if c == '\u{0501}' {
        Some(seq!['d'])
    } else if c == '\u{051b}' {
        Some(seq!['q'])
    } else if c == '\u{0455}' {
        Some(seq!['s'])
    } else if c == '\u{03c5}' {
        Some(seq!['u'])
    } else if c == '\u{03bd}' {
        Some(seq!['v'])
    } else if c == '\u{051d}' {
        Some(seq!['w'])
    } else if c == '\u{0445}' {
        Some(seq!['x'])
    } else if c == '\u{0263}' || c == '\u{0443}' {
        Some(seq!['y'])
    } else if c == 'm' {
        Some(seq!['r', 'n'])
    } else if c == '1' || c == 'I' || c == '|' || c == '\u{0399}' || c == '\u{0406}' {
        Some(seq!['l'])
    } else if c == '0' || c == '\u{039f}' || c == '\u{041e}' {
        Some(seq!['O'])
    } else if c == '\u{0391}' || c == '\u{0410}' {
        Some(seq!['A'])
    } else if c == '\u{0392}' || c == '\u{0412}' {
        Some(seq!['B'])
    } else if c == '\u{0421}' {
        Some(seq!['C'])
    } else if c == '\u{0395}' || c == '\u{0415}' {
        Some(seq!['E'])
    } else if c == '\u{0397}' || c == '\u{041d}' {
        Some(seq!['H'])
    } else if c == '\u{0408}' {
        Some(seq!['J'])
    } else if c == '\u{039a}' || c == '\u{041a}' {
        Some(seq!['K'])
    } else if c == '\u{039c}' || c == '\u{041c}' {
        Some(seq!['M'])
    } else if c == '\u{039d}' {
        Some(seq!['N'])
    } else if c == '\u{03a1}' || c == '\u{0420}' {
        Some(seq!['P'])
    } else if c == '\u{0405}' {
        Some(seq!['S'])
    } else if c == '\u{03a4}' || c == '\u{0422}' {
        Some(seq!['T'])
    } else if c == '\u{03a7}' || c == '\u{0425}' {
        Some(seq!['X'])
    } else if c == '\u{03a5}' {
        Some(seq!['Y'])
    } else if c == '\u{0396}' {
        Some(seq!['Z'])
    } else {
        None
    }
}

/// What `c` becomes in a skeleton.
pub open spec fn image(c: char) -> Seq<char> {
    match confusable(c) {
        Some(t) => t,
        None => seq![c],
    }
}

/// The skeleton of `s`: each character replaced by its image.
pub open spec fn skeleton(s: Seq<char>) -> Seq<char>
    decreases s.len(),
{
    if s.len() == 0 {
        Seq::empty()
    } else {
        skeleton(s.drop_last()) + image(s.last())
    }
}

/// Whether no character of `s` is confusable.
pub open spec fn unconfusable(s: Seq<char>) -> bool {
    forall|i: int| 0 <= i < s.len() ==> (#[trigger] confusable(s[i])) is None
}

/// Looks up the replacement of `c` in the confusable table.
pub fn confusable_of(c: char) -> (r: Option<Vec<char>>)
    ensures
        r is None <==> confusable(c) is None,
        r matches Some(v) ==> confusable(c) == Some(v@),
{
    let r = if c == '\u{0251}' || c == '\u{03b1}' || c == '\u{0430}' || c == '\u{237a}' {
        Some(vec!['a'])
    } else if c == '\u{0435}' {
        Some(vec!['e'])
    } else if c == '\u{0261}' {
        Some(vec!['g'])
    } else if c == '\u{04bb}' {
        Some(vec!['h'])
    } else if c == '\u{0131}' || c == '\u{0269}' || c == '\u{03b9}' || c == '\u{0456}' {
        Some(vec!['i'])
    } else if c == '\u{0458}' {
        Some(vec!['j'])
    } else if c == '\u{03bf}' || c == '\u{043e}' {
        Some(vec!['o'])
    } else if c == '\u{03c1}' || c == '\u{0440}' {
        Some(vec!['p'])
    } else if c == '\u{0441}' {
        Some(vec!['c'])
    } else if c == '\u{0501}' {
        Some(vec!['d'])
    } else if c == '\u{051b}' {
        Some(vec!['q'])
    } else if c == '\u{0455}' {
        Some(vec!['s'])
    } else if c == '\u{03c5}' {
        Some(vec!['u'])
    } else if c == '\u{03bd}' {
        Some(vec!['v'])
    } else if c == '\u{051d}' {
        Some(vec!['w'])
    } else if c == '\u{0445}' {
        Some(vec!['x'])
    } else if c == '\u{0263}' || c == '\u{0443}' {
        Some(vec!['y'])
    } else if c == 'm' {
        Some(vec!['r', 'n'])
    } else if c == '1' || c == 'I' || c == '|' || c == '\u{0399}' || c == '\u{0406}' {
        Some(vec!['l'])
    } else if c == '0' || c == '\u{039f}' || c == '\u{041e}' {
        Some(vec!['O'])
    } else if c == '\u{0391}' || c == '\u{0410}' {
        Some(vec!['A'])
    } else if c == '\u{0392}' || c == '\u{0412}' {
        Some(vec!['B'])
    } else if c == '\u{0421}' {
        Some(vec!['C'])
    } else if c == '\u{0395}' || c == '\u{0415}' {
        Some(vec!['E'])
    } else if c == '\u{0397}' || c == '\u{041d}' {
        Some(vec!['H'])
    } else if c == '\u{0408}' {
        Some(vec!['J'])
    } else if c == '\u{039a}' || c == '\u{041a}' {
        Some(vec!['K'])
    } else if c == '\u{039c}' || c == '\u{041c}' {
        Some(vec!['M'])
    } else if c == '\u{039d}' {
        Some(vec!['N'])
    } else if c == '\u{03a1}' || c == '\u{0420}' {
        Some(vec!['P'])
    } else if c == '\u{0405}' {
        Some(vec!['S'])
    } else if c == '\u{03a4}' || c == '\u{0422}' {
        Some(vec!['T'])
    } else if c == '\u{03a7}' || c == '\u{0425}' {
        Some(vec!['X'])
    } else if c == '\u{03a5}' {
        Some(vec!['Y'])
    } else if c == '\u{0396}' {
        Some(vec!['Z'])
    } else {
        None
    };
    proof {
        if r is Some {
            assert(confusable(c)->0 =~= r->0@);
        }
    }
    r
}


/// The result of normalizing a string: the input itself when nothing in it is
/// confusable, else a freshly built skeleton.
pub enum Skeleton<'a> {
    Borrowed(&'a str),
    Owned(String),
}

impl<'a> View for Skeleton<'a> {
    type V = Seq<char>;

    open spec fn view(&self) -> Seq<char> {
        match self {
            Skeleton::Borrowed(s) => s@,
            Skeleton::Owned(s) => s@,
        }
    }
}

impl<'a> Skeleton<'a> {
    /// The normalized text.
    pub fn as_str(&self) -> (r: &str)
        ensures
            r@ == self@,
    {
        match self {
            Skeleton::Borrowed(s) => s,
            Skeleton::Owned(s) => s.as_str(),
        }
    }
}

proof fn lemma_skeleton_of_unconfusable(s: Seq<char>)
    requires
        unconfusable(s),
    ensures
        skeleton(s) == s,
    decreases s.len(),
{
    if s.len() > 0 {
        assert(confusable(s[s.len() - 1]) is None);
        assert(unconfusable(s.drop_last())) by {
            assert forall|i: int| 0 <= i < s.drop_last().len() implies
                (#[trigger] confusable(s.drop_last()[i])) is None by {
                assert(s.drop_last()[i] == s[i]);
            }
        }
        lemma_skeleton_of_unconfusable(s.drop_last());
        assert(s.drop_last() + seq![s.last()] =~= s);
    }
}

proof fn lemma_skeleton_push(s: Seq<char>, c: char)
    ensures
        skeleton(s.push(c)) == skeleton(s) + image(c),
{
    assert(s.push(c).drop_last() =~= s);
}

/// Normalizes `s` to its skeleton. Returns `s` itself, with nothing copied,
/// when no character of `s` is confusable.
pub fn skeletonize(s: &str) -> (r: Skeleton<'_>)
    ensures
        r@ == skeleton(s@),
        r is Borrowed <==> unconfusable(s@),
        r matches Skeleton::Borrowed(b) ==> b == s,
{
    let mut clean = true;
    for c in it: s.chars()
        invariant
            it.seq() == s@,
            clean <==> unconfusable(s@.subrange(0, it.index() as int)),
    {
        let ghost n = it.index() as int;
        let ghost prefix = s@.subrange(0, n);
        assert(n < s@.len());
        assert(s@.subrange(0, n + 1)[n] == c);
        if confusable_of(c).is_some() {
            clean = false;
        } else if clean {
            assert forall|i: int| 0 <= i < n + 1 implies
                (#[trigger] confusable(s@.subrange(0, n + 1)[i])) is None by {
                if i < n {
                    assert(s@.subrange(0, n + 1)[i] == prefix[i]);
                }
            }
        }
    }
    assert(s@.subrange(0, s@.len() as int) =~= s@);
    if clean {
        proof {
            lemma_skeleton_of_unconfusable(s@);
        }
        return Skeleton::Borrowed(s);
    }
    let cs = crate::text::chars_of(s);
    let mut out: Vec<char> = Vec::new();
    let mut n: usize = 0;
    while n < cs.len()
        invariant
            n <= cs.len(),
            cs@ == s@,
            out@ == skeleton(s@.subrange(0, n as int)),
        decreases cs.len() - n,
    {
        let c = cs[n];
        proof {
            assert(s@.subrange(0, n + 1) =~= s@.subrange(0, n as int).push(c));
            lemma_skeleton_push(s@.subrange(0, n as int), c);
        }
        match confusable_of(c) {
            Some(rep) => {
                let mut k: usize = 0;
                let ghost before = out@;
                while k < rep.len()
                    invariant
                        k <= rep.len(),
                        out@ == before + rep@.subrange(0, k as int),
                    decreases rep.len() - k,
                {
                    out.push(rep[k]);
                    k = k + 1;
                }
                assert(rep@.subrange(0, rep@.len() as int) =~= rep@);
            },
            None => {
                out.push(c);
                assert(image(c) =~= seq![c]);
            },
        }
        n = n + 1;
    }
    Skeleton::Owned(string_of(&out))
}

proof fn lemma_image_unconfusable(c: char)
    ensures
        unconfusable(image(c)),
{
    if confusable(c) is None {
        assert(image(c) =~= seq![c]);
    }
}

proof fn lemma_skeleton_append(a: Seq<char>, b: Seq<char>)
    ensures
        skeleton(a + b) == skeleton(a) + skeleton(b),
    decreases b.len(),
{
    if b.len() == 0 {
        assert(a + b =~= a);
        assert(skeleton(a) + skeleton(b) =~= skeleton(a));
    } else {
        lemma_skeleton_append(a, b.drop_last());
        assert((a + b).drop_last() =~= a + b.drop_last());
        assert((a + b).last() == b.last());
        assert(skeleton(a) + skeleton(b.drop_last()) + image(b.last())
            =~= skeleton(a) + (skeleton(b.drop_last()) + image(b.last())));
    }
}

/// Normalizing twice gives the same text as normalizing once: no character
/// that a skeleton holds is itself confusable.
pub proof fn lemma_skeletonize_idempotent(s: Seq<char>)
    ensures
        skeleton(skeleton(s)) == skeleton(s),
    decreases s.len(),
{
    if s.len() > 0 {
        lemma_skeletonize_idempotent(s.drop_last());
        lemma_skeleton_append(skeleton(s.drop_last()), image(s.last()));
        lemma_image_unconfusable(s.last());
        lemma_skeleton_of_unconfusable(image(s.last()));
    }
}

} // verus!
