//! Literal text substitution: every non-overlapping occurrence of a pattern,
//! found left to right, is replaced by the replacement text. No pattern
//! syntax is involved; both strings are taken verbatim.
use vstd::prelude::*;

use crate::chars::chars_of;
use crate::chars::occurs_at;
use crate::chars::occurs_here;
use crate::chars::push_all;
use crate::chars::string_from_chars;

verus! {

/// The result of replacing, left to right and without overlap, each
/// occurrence of `pat` in `text` by `rep`. An empty pattern matches at
/// every position, so `rep` appears before, between and after all
/// characters of `text`.
pub open spec fn replace_model(text: Seq<char>, pat: Seq<char>, rep: Seq<char>) -> Seq<char>
    decreases text.len(),
{
    if pat.len() == 0 {
        if text.len() == 0 {
            rep
        } else {
            rep + seq![text[0]] + replace_model(text.skip(1), pat, rep)
        }
    } else if text.len() < pat.len() {
        text
    } else if text.subrange(0, pat.len() as int) == pat {
        rep + replace_model(text.skip(pat.len() as int), pat, rep)
    } else {
        seq![text[0]] + replace_model(text.skip(1), pat, rep)
    }
}

/// Replaces every occurrence of `pattern` in `text` by `replacement`,
/// exactly as [`replace_model`] says.
pub fn replace_literal(text: &str, pattern: &str, replacement: &str) -> (r: String)
    ensures
        r@ == replace_model(text@, pattern@, replacement@),
{
    let t = chars_of(text);
    let p = chars_of(pattern);
    let rep = chars_of(replacement);
    let n = t.len();
    let mut out: Vec<char> = Vec::new();
    let mut i: usize = 0;
    if p.len() == 0 {
        push_all(&mut out, &rep);
        proof {
            assert(p@ =~= Seq::<char>::empty());
            assert(t@.take(0) =~= Seq::<char>::empty());
            assert(out@ =~= replace_model(t@.take(0), p@, rep@));
        }
        while i < n
            invariant
                i <= n,
                n == t@.len(),
                p@ == Seq::<char>::empty(),
                p@ == pattern@,
                rep@ == replacement@,
                t@ == text@,
                out@ == replace_model(t@.take(i as int), p@, rep@),
            decreases n - i,
        {
            out.push(t[i]);
            push_all(&mut out, &rep);
            proof {
                lemma_replace_empty_snoc(t@.take(i as int), t@[i as int], rep@);
                assert(t@.take(i as int + 1) =~= t@.take(i as int).push(t@[i as int]));
                assert(out@ =~= replace_model(t@.take(i as int), p@, rep@) + seq![t@[i as int]]
                    + rep@);
            }
            i = i + 1;
        }
        proof {
            assert(t@.take(n as int) =~= t@);
        }
    } else {
        proof {
            assert(t@.skip(0) =~= t@);
            assert(out@ + replace_model(t@.skip(0), p@, rep@) =~= replace_model(t@, p@, rep@));
        }
        while i < n
            invariant
                i <= n,
                n == t@.len(),
                p@.len() > 0,
                p@ == pattern@,
                rep@ == replacement@,
                t@ == text@,
                replace_model(t@, p@, rep@) == out@ + replace_model(
                    t@.skip(i as int),
                    p@,
                    rep@,
                ),
            decreases n - i,
        {
            let ghost tail = t@.skip(i as int);
            if occurs_here(&t, i, &p) {
                push_all(&mut out, &rep);
                proof {
                    assert(tail.len() >= p@.len());
                    assert(tail.subrange(0, p@.len() as int) =~= t@.subrange(
                        i as int,
                        i + p@.len(),
                    ));
                    assert(tail.subrange(0, p@.len() as int) == p@);
                    assert(tail.skip(p@.len() as int) =~= t@.skip(i + p@.len()));
                    assert(replace_model(tail, p@, rep@) == rep@ + replace_model(
                        t@.skip(i + p@.len()),
                        p@,
                        rep@,
                    ));
                }
                i = i + p.len();
            } else {
                out.push(t[i]);
                proof {
                    assert(tail.len() > 0);
                    assert(tail[0] == t@[i as int]);
                    assert(tail.skip(1) =~= t@.skip(i as int + 1));
                    if tail.len() < p@.len() {
                        assert(replace_model(tail, p@, rep@) == tail);
                        assert(t@.skip(i as int + 1).len() < p@.len());
                        assert(replace_model(t@.skip(i as int + 1), p@, rep@) == t@.skip(
                            i as int + 1,
                        ));
                        assert(tail =~= seq![tail[0]] + tail.skip(1));
                    } else {
                        assert(tail.subrange(0, p@.len() as int) =~= t@.subrange(
                            i as int,
                            i + p@.len(),
                        ));
                        assert(tail.subrange(0, p@.len() as int) != p@);
                        assert(replace_model(tail, p@, rep@) == seq![tail[0]] + replace_model(
                            tail.skip(1),
                            p@,
                            rep@,
                        ));
                    }
                }
                i = i + 1;
            }
        }
        proof {
            assert(t@.skip(n as int) =~= Seq::<char>::empty());
            assert(replace_model(t@.skip(n as int), p@, rep@) =~= Seq::<char>::empty());
            assert(out@ =~= out@ + Seq::<char>::empty());
        }
    }
    string_from_chars(&out)
}

/// Appending one character to the text of an empty-pattern replacement
/// appends that character and one more copy of the replacement.
proof fn lemma_replace_empty_snoc(s: Seq<char>, c: char, rep: Seq<char>)
    ensures
        replace_model(s.push(c), Seq::empty(), rep) == replace_model(s, Seq::empty(), rep) + seq![c]
            + rep,
    decreases s.len(),
{
    let pat = Seq::<char>::empty();
    if s.len() == 0 {
        assert(s.push(c)[0] == c);
        assert(s.push(c).skip(1) =~= Seq::<char>::empty());
        assert(replace_model(Seq::<char>::empty(), pat, rep) == rep);
        assert(replace_model(s.push(c), pat, rep) =~= rep + seq![c] + rep);
        assert(replace_model(s, pat, rep) + seq![c] + rep =~= rep + seq![c] + rep);
    } else {
        lemma_replace_empty_snoc(s.skip(1), c, rep);
        assert(s.push(c).skip(1) =~= s.skip(1).push(c));
        assert(s.push(c)[0] == s[0]);
        assert(replace_model(s.push(c), pat, rep) == rep + seq![s[0]] + replace_model(
            s.skip(1).push(c),
            pat,
            rep,
        ));
        assert(replace_model(s.push(c), pat, rep) =~= replace_model(s, pat, rep) + seq![c] + rep);
    }
}

} // verus!
