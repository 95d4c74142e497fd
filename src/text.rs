//! Token text: pieces of generated code joined by separators.

use vstd::prelude::*;
use vstd::string::StringExecFns;

verus! {

/// `parts` with `sep` between each two of them.
pub open spec fn join(parts: Seq<Seq<char>>, sep: Seq<char>) -> Seq<char>
    decreases parts.len(),
{
    if parts.len() == 0 {
        Seq::empty()
    } else if parts.len() == 1 {
        parts[0]
    } else {
        join(parts.take(parts.len() - 1), sep) + sep + parts.last()
    }
}

/// `a` and `b` separated by one space, an empty side adding nothing.
pub open spec fn spaced(a: Seq<char>, b: Seq<char>) -> Seq<char> {
    if a.len() == 0 {
        b
    } else if b.len() == 0 {
        a
    } else {
        a + " "@ + b
    }
}

/// The non-empty words of `ws`, in order, separated by single spaces.
pub open spec fn words(ws: Seq<Seq<char>>) -> Seq<char>
    decreases ws.len(),
{
    if ws.len() == 0 {
        Seq::empty()
    } else {
        spaced(words(ws.take(ws.len() - 1)), ws.last())
    }
}

pub open spec fn texts_of(s: Seq<String>) -> Seq<Seq<char>> {
    s.map_values(|x: String| x@)
}

proof fn lemma_texts_step(s: Seq<String>, i: int)
    requires
        0 <= i < s.len(),
    ensures
        texts_of(s.take(i + 1)) == texts_of(s.take(i)).push(s[i]@),
        texts_of(s.take(i)).len() == i,
{
    assert(texts_of(s.take(i + 1)) =~= texts_of(s.take(i)).push(s[i]@));
}

/// Appends `w` to `out` as one more word.
pub fn push_word(out: &mut String, w: &str)
    ensures
        final(out)@ == spaced(old(out)@, w@),
{
    if w.is_empty() {
    } else if out.as_str().is_empty() {
        out.append(w);
        assert(final(out)@ =~= w@);
    } else {
        out.append(" ");
        out.append(w);
    }
}

/// The words of `ws` as one line.
pub fn join_words(ws: &Vec<String>) -> (r: String)
    ensures
        r@ == words(texts_of(ws@)),
{
    let mut out = String::new();
    let mut i: usize = 0;
    while i < ws.len()
        invariant
            i <= ws.len(),
            out@ == words(texts_of(ws@.take(i as int))),
        decreases ws.len() - i,
    {
        proof {
            lemma_texts_step(ws@, i as int);
            assert(texts_of(ws@.take(i as int)).push(ws@[i as int]@).take(i as int)
                =~= texts_of(ws@.take(i as int)));
        }
        push_word(&mut out, ws[i].as_str());
        i += 1;
    }
    assert(ws@.take(ws.len() as int) =~= ws@);
    out
}

/// The texts of `ws` with `sep` between each two of them.
pub fn join_with(ws: &Vec<String>, sep: &str) -> (r: String)
    ensures
        r@ == join(texts_of(ws@), sep@),
{
    let mut out = String::new();
    let mut i: usize = 0;
    while i < ws.len()
        invariant
            i <= ws.len(),
            out@ == join(texts_of(ws@.take(i as int)), sep@),
        decreases ws.len() - i,
    {
        proof {
            lemma_texts_step(ws@, i as int);
            assert(texts_of(ws@.take(i as int)).push(ws@[i as int]@).take(i as int)
                =~= texts_of(ws@.take(i as int)));
        }
        if i == 0 {
            out.append(ws[i].as_str());
            assert(out@ =~= ws@[0]@);
        } else {
            out.append(sep);
            out.append(ws[i].as_str());
        }
        i += 1;
    }
    assert(ws@.take(ws.len() as int) =~= ws@);
    out
}

} // verus!
