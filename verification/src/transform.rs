//! Simple text transforms over the whole clipboard text: upper case, lower
//! case, and title case (each whitespace-separated word gets an upper-case
//! first character and a lower-case remainder, and words are re-joined with
//! single spaces).
use vstd::prelude::*;

use crate::chars::chars_of;
use crate::chars::is_space_char;
use crate::chars::space_char;
use crate::chars::string_from_chars;
use crate::chars::subvec;
use crate::chars::text_matches;
use crate::errors::ErrorModel;
use crate::errors::ExecError;

verus! {

/// What `str::to_uppercase` returns, named: the upper-case mapping of a
/// character sequence. A function of the characters alone.
pub uninterp spec fn upper_model(s: Seq<char>) -> Seq<char>;

/// What `str::to_lowercase` returns, named: the lower-case mapping of a
/// character sequence. A function of the characters alone.
pub uninterp spec fn lower_model(s: Seq<char>) -> Seq<char>;

/// What `char::to_uppercase` yields, named: the upper-case mapping of one
/// character, as one or more characters.
pub uninterp spec fn char_upper_model(c: char) -> Seq<char>;

/// Relies on `str::to_uppercase`: the result is a function of the input's
/// characters alone, and an empty input stays empty.
#[verifier::external_body]
fn uppercase_str(s: &str) -> (r: String)
    ensures
        r@ == upper_model(s@),
        s@.len() == 0 ==> r@.len() == 0,
{
    s.to_uppercase()
}

/// Relies on `str::to_lowercase`: the result is a function of the input's
/// characters alone, and an empty input stays empty.
#[verifier::external_body]
fn lowercase_str(s: &str) -> (r: String)
    ensures
        r@ == lower_model(s@),
        s@.len() == 0 ==> r@.len() == 0,
{
    s.to_lowercase()
}

/// Relies on `char::to_uppercase`: the mapping is a function of the
/// character alone and yields at least one character.
#[verifier::external_body]
fn uppercase_char(c: char) -> (r: String)
    ensures
        r@ == char_upper_model(c),
        r@.len() >= 1,
{
    c.to_uppercase().collect()
}

/// The whitespace-separated words of `s`, in order: maximal non-empty runs
/// of non-whitespace characters.
pub open spec fn words_of(s: Seq<char>) -> Seq<Seq<char>>
    decreases s.len(),
{
    if s.len() == 0 {
        Seq::empty()
    } else {
        let rest = words_of(s.drop_last());
        let c = s.last();
        if is_space_char(c) {
            rest
        } else if s.len() >= 2 && !is_space_char(s[s.len() - 2]) {
            rest.update(rest.len() - 1, rest.last().push(c))
        } else {
            rest.push(seq![c])
        }
    }
}

/// Every word of [`words_of`] is non-empty, and text ending in a
/// non-whitespace character has at least one word.
pub proof fn lemma_words_nonempty(s: Seq<char>)
    ensures
        forall|j: int| 0 <= j < words_of(s).len() ==> #[trigger] words_of(s)[j].len() > 0,
        s.len() > 0 && !is_space_char(s.last()) ==> words_of(s).len() > 0,
    decreases s.len(),
{
    if s.len() > 0 {
        lemma_words_nonempty(s.drop_last());
        let rest = words_of(s.drop_last());
        let c = s.last();
        if !is_space_char(c) && s.len() >= 2 && !is_space_char(s[s.len() - 2]) {
            assert(s.drop_last().last() == s[s.len() - 2]);
            assert(rest.len() > 0);
            let ws = words_of(s);
            assert(ws.len() == rest.len());
            assert forall|j: int| 0 <= j < ws.len() implies #[trigger] ws[j].len() > 0 by {
                if j < rest.len() - 1 {
                    assert(ws[j] == rest[j]);
                } else {
                    assert(ws[j] == rest.last().push(c));
                }
            }
        }
    }
}

/// The words joined back together with a single space between neighbours.
pub open spec fn join_with_spaces(ws: Seq<Seq<char>>) -> Seq<char>
    decreases ws.len(),
{
    if ws.len() == 0 {
        Seq::empty()
    } else if ws.len() == 1 {
        ws[0]
    } else {
        ws[0] + seq![' '] + join_with_spaces(ws.skip(1))
    }
}

/// Joining one more word appends a space (unless it is the first word) and
/// the word.
proof fn lemma_join_snoc(ws: Seq<Seq<char>>, w: Seq<char>)
    ensures
        ws.len() == 0 ==> join_with_spaces(ws.push(w)) == w,
        ws.len() > 0 ==> join_with_spaces(ws.push(w)) == join_with_spaces(ws) + seq![' '] + w,
    decreases ws.len(),
{
    if ws.len() == 0 {
        assert(ws.push(w)[0] == w);
    } else {
        lemma_join_snoc(ws.skip(1), w);
        assert(ws.push(w).skip(1) =~= ws.skip(1).push(w));
        assert(ws.push(w)[0] == ws[0]);
        if ws.len() == 1 {
            assert(ws.skip(1).len() == 0);
            assert(join_with_spaces(ws.push(w)) == ws[0] + seq![' '] + w);
            assert(join_with_spaces(ws) == ws[0]);
        } else {
            assert(join_with_spaces(ws.push(w)) =~= join_with_spaces(ws) + seq![' '] + w);
        }
    }
}

/// One word in title case: the upper-case mapping of its first character,
/// then the lower-case mapping of the rest.
pub open spec fn title_word_model(w: Seq<char>) -> Seq<char> {
    if w.len() == 0 {
        w
    } else {
        char_upper_model(w[0]) + lower_model(w.skip(1))
    }
}

/// The whole text in title case: every word transformed, single spaces
/// between words, surrounding whitespace dropped.
pub open spec fn title_model(s: Seq<char>) -> Seq<char> {
    join_with_spaces(words_of(s).map_values(|w: Seq<char>| title_word_model(w)))
}

/// Splits `t` into its whitespace-separated words.
fn split_words(t: &Vec<char>) -> (ws: Vec<Vec<char>>)
    ensures
        ws.deep_view() == words_of(t@),
{
    let n = t.len();
    let mut done: Vec<Vec<char>> = Vec::new();
    let mut cur: Vec<char> = Vec::new();
    let mut i: usize = 0;
    proof {
        assert(t@.take(0) =~= Seq::<char>::empty());
    }
    while i < n
        invariant
            i <= n,
            n == t@.len(),
            cur@.len() == 0 <==> (i == 0 || is_space_char(t@[i as int - 1])),
            cur@.len() > 0 ==> words_of(t@.take(i as int)) =~~= done.deep_view().push(cur@),
            cur@.len() == 0 ==> words_of(t@.take(i as int)) =~~= done.deep_view(),
        decreases n - i,
    {
        let ghost prefix = t@.take(i as int);
        let ghost longer = t@.take(i as int + 1);
        proof {
            assert(longer.drop_last() =~= prefix);
            assert(longer.last() == t@[i as int]);
        }
        let c = t[i];
        if space_char(c) {
            if cur.len() > 0 {
                done.push(cur);
                cur = Vec::new();
                proof {
                    assert(words_of(longer) =~~= done.deep_view());
                }
            } else {
                proof {
                    assert(words_of(longer) =~~= done.deep_view());
                }
            }
        } else {
            if cur.len() == 0 {
                cur.push(c);
                proof {
                    assert(longer.len() >= 2 ==> longer[longer.len() - 2] == t@[i as int - 1]);
                    assert(words_of(longer) =~~= words_of(prefix).push(seq![c]));
                    assert(words_of(longer) =~~= done.deep_view().push(cur@));
                }
            } else {
                let ghost old_cur = cur@;
                cur.push(c);
                proof {
                    assert(longer.len() >= 2 && !is_space_char(longer[longer.len() - 2]));
                    let rest = words_of(prefix);
                    assert(rest =~~= done.deep_view().push(old_cur));
                    assert(rest.len() > 0);
                    assert(rest.last() == old_cur);
                    assert(words_of(longer) =~~= rest.update(rest.len() - 1, old_cur.push(c)));
                    assert(words_of(longer) =~~= done.deep_view().push(old_cur.push(c)));
                    assert(cur@ == old_cur.push(c));
                }
            }
        }
        i = i + 1;
    }
    proof {
        assert(t@.take(n as int) =~= t@);
    }
    if cur.len() > 0 {
        done.push(cur);
        proof {
            assert(done.deep_view() =~~= words_of(t@));
        }
    }
    done
}

/// One word in title case, per [`title_word_model`].
fn title_word(w: &Vec<char>) -> (r: String)
    requires
        w@.len() > 0,
    ensures
        r@ == title_word_model(w@),
{
    let mut r = uppercase_char(w[0]);
    let rest = subvec(w, 1, w.len());
    let rest_text = string_from_chars(&rest);
    let lowered = lowercase_str(rest_text.as_str());
    r.append(lowered.as_str());
    proof {
        assert(rest@ =~= w@.skip(1));
    }
    r
}

/// The whole text in title case, per [`title_model`].
pub fn title_case(text: &str) -> (r: String)
    ensures
        r@ == title_model(text@),
{
    let t = chars_of(text);
    let words = split_words(&t);
    let ghost mapped = words_of(t@).map_values(|w: Seq<char>| title_word_model(w));
    proof {
        lemma_words_nonempty(t@);
    }
    let mut out = String::new();
    let mut k: usize = 0;
    proof {
        assert(mapped.take(0) =~= Seq::<Seq<char>>::empty());
        assert(out@ =~= join_with_spaces(mapped.take(0)));
    }
    while k < words.len()
        invariant
            k <= words@.len(),
            words.deep_view() == words_of(t@),
            t@ == text@,
            mapped == words_of(t@).map_values(|w: Seq<char>| title_word_model(w)),
            mapped.len() == words@.len(),
            forall|j: int| 0 <= j < words_of(t@).len() ==> #[trigger] words_of(t@)[j].len() > 0,
            out@ == join_with_spaces(mapped.take(k as int)),
        decreases words@.len() - k,
    {
        if k > 0 {
            out.append(" ");
        }
        proof {
            assert(words.deep_view()[k as int] == words@[k as int]@);
            assert(words@[k as int]@.len() > 0);
        }
        let piece = title_word(&words[k]);
        out.append(piece.as_str());
        proof {
            lemma_join_snoc(mapped.take(k as int), mapped[k as int]);
            assert(mapped.take(k as int + 1) =~= mapped.take(k as int).push(mapped[k as int]));
            assert(mapped[k as int] == title_word_model(words@[k as int]@));
            reveal_strlit(" ");
            assert(" "@ =~= seq![' ']);
            assert(out@ =~= join_with_spaces(mapped.take(k as int + 1)));
        }
        k = k + 1;
    }
    proof {
        assert(mapped.take(words@.len() as int) =~= mapped);
    }
    out
}

/// The transformations the transform command supports.
#[derive(Clone, Copy, Debug, PartialEq, Eq, Structural)]
pub enum TransformKind {
    Upper,
    Lower,
    Title,
}

/// The fixed table of transformation names.
pub open spec fn transform_kind_model(id: Seq<char>) -> Option<TransformKind> {
    if id == "upper"@ {
        Some(TransformKind::Upper)
    } else if id == "lower"@ {
        Some(TransformKind::Lower)
    } else if id == "title"@ {
        Some(TransformKind::Title)
    } else {
        None
    }
}

/// Exact-match lookup of a transformation name. Unknown names fail with
/// `UnknownTransform`; no other error is possible here.
pub fn parse_transform(id: &String) -> (r: Result<TransformKind, ExecError>)
    ensures
        r is Ok <==> transform_kind_model(id@) is Some,
        r matches Ok(k) ==> transform_kind_model(id@) == Some(k),
        r matches Err(e) ==> e@ == ErrorModel::UnknownTransform,
{
    if text_matches(id, "upper") {
        Ok(TransformKind::Upper)
    } else if text_matches(id, "lower") {
        Ok(TransformKind::Lower)
    } else if text_matches(id, "title") {
        Ok(TransformKind::Title)
    } else {
        Err(ExecError::UnknownTransform)
    }
}

/// What each transformation returns.
pub open spec fn transform_model(k: TransformKind, s: Seq<char>) -> Seq<char> {
    match k {
        TransformKind::Upper => upper_model(s),
        TransformKind::Lower => lower_model(s),
        TransformKind::Title => title_model(s),
    }
}

/// Applies one transformation to the whole text, per [`transform_model`].
pub fn apply_transform(kind: TransformKind, text: &str) -> (r: String)
    ensures
        r@ == transform_model(kind, text@),
{
    match kind {
        TransformKind::Upper => uppercase_str(text),
        TransformKind::Lower => lowercase_str(text),
        TransformKind::Title => title_case(text),
    }
}

} // verus!
