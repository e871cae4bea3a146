//! Entry-point name derivation for named-entry languages.
//!
//! A named-entry language (Java) requires the staged file to carry the name
//! of the public type the source declares. The name is taken from the first
//! occurrence of the declaration pattern: the literal `public`, one or more
//! whitespace characters, the literal `class`, one or more whitespace
//! characters, then the name itself — a maximal run of word characters.
//! The scan is deliberately naive: it does not skip comments or string
//! literals, exactly as the pattern match it models.
use vstd::prelude::*;

use crate::chars::chars_of;
use crate::chars::is_space_char;
use crate::chars::is_word_char;
use crate::chars::occurs_at;
use crate::chars::occurs_here;
use crate::chars::space_char;
use crate::chars::string_from_chars;
use crate::chars::subvec;
use crate::chars::word_char;

verus! {

/// The keyword that opens the declaration pattern.
pub open spec fn lit_public() -> Seq<char> {
    seq!['p', 'u', 'b', 'l', 'i', 'c']
}

/// The keyword that follows the whitespace after `public`.
pub open spec fn lit_class() -> Seq<char> {
    seq!['c', 'l', 'a', 's', 's']
}

/// The first position at or after `i` that is not whitespace (or the end).
pub open spec fn space_run_end(s: Seq<char>, i: int) -> int
    decreases s.len() - i,
{
    if 0 <= i < s.len() && is_space_char(s[i]) {
        space_run_end(s, i + 1)
    } else {
        i
    }
}

/// The first position at or after `i` that is not a word character (or the
/// end).
pub open spec fn word_run_end(s: Seq<char>, i: int) -> int
    decreases s.len() - i,
{
    if 0 <= i < s.len() && is_word_char(s[i]) {
        word_run_end(s, i + 1)
    } else {
        i
    }
}

/// Whether the declaration pattern matches at position `i`, and if so, the
/// start and end of the captured name: `public`, at least one whitespace
/// character, `class`, at least one whitespace character, then a maximal
/// non-empty run of word characters.
pub open spec fn decl_at(s: Seq<char>, i: int) -> Option<(int, int)> {
    if occurs_at(s, i, lit_public()) {
        let j = space_run_end(s, i + 6);
        if j > i + 6 && occurs_at(s, j, lit_class()) {
            let m = space_run_end(s, j + 5);
            if m > j + 5 && m < s.len() && is_word_char(s[m]) {
                Some((m, word_run_end(s, m)))
            } else {
                None
            }
        } else {
            None
        }
    } else {
        None
    }
}

/// The leftmost declaration match at or after position `i`.
pub open spec fn first_decl_from(s: Seq<char>, i: int) -> Option<(int, int)>
    decreases s.len() - i,
{
    if i < 0 || i >= s.len() {
        None
    } else if decl_at(s, i) is Some {
        decl_at(s, i)
    } else {
        first_decl_from(s, i + 1)
    }
}

/// The name captured by the leftmost declaration match, if any.
pub open spec fn entry_name_model(s: Seq<char>) -> Option<Seq<char>> {
    match first_decl_from(s, 0) {
        Some(pair) => Some(s.subrange(pair.0, pair.1)),
        None => None,
    }
}

/// Skipping positions where the pattern does not match does not change the
/// leftmost match.
proof fn lemma_first_decl_skip(s: Seq<char>, i: int)
    requires
        0 <= i <= s.len(),
        forall|k: int| 0 <= k < i ==> #[trigger] decl_at(s, k) is None,
    ensures
        first_decl_from(s, 0) == first_decl_from(s, i),
    decreases i,
{
    if i > 0 {
        lemma_first_decl_skip(s, i - 1);
        assert(first_decl_from(s, i - 1) == first_decl_from(s, i));
    }
}

/// A run of word characters from `i` to `j`, delimited at `j`, is exactly
/// what [`word_run_end`] finds.
proof fn lemma_word_run(s: Seq<char>, i: int, j: int)
    requires
        0 <= i <= j <= s.len(),
        forall|k: int| i <= k < j ==> is_word_char(#[trigger] s[k]),
        j == s.len() || !is_word_char(s[j]),
    ensures
        word_run_end(s, i) == j,
    decreases j - i,
{
    if i < j {
        assert(word_run_end(s, i) == word_run_end(s, i + 1));
        lemma_word_run(s, i + 1, j);
    }
}

/// Law: text with no occurrence of the `public` keyword has no derivable
/// entry name.
pub proof fn lemma_entry_name_absent(s: Seq<char>)
    requires
        forall|i: int| !(#[trigger] occurs_at(s, i, lit_public())),
    ensures
        entry_name_model(s) is None,
{
    assert forall|k: int| 0 <= k < s.len() implies #[trigger] decl_at(s, k) is None by {
        assert(!occurs_at(s, k, lit_public()));
    }
    lemma_first_decl_skip(s, s.len() as int);
}

/// Law: on text of the shape `pre + "public class " + name + tail` — where
/// `pre` contains no `p` (so no earlier match can start), `name` is a
/// non-empty run of word characters, and `tail` does not begin with a word
/// character — derivation yields exactly `name`.
pub proof fn lemma_entry_name_of_declaration(pre: Seq<char>, name: Seq<char>, tail: Seq<char>)
    requires
        forall|k: int| 0 <= k < pre.len() ==> #[trigger] pre[k] != 'p',
        name.len() > 0,
        forall|k: int| 0 <= k < name.len() ==> is_word_char(#[trigger] name[k]),
        tail.len() == 0 || !is_word_char(tail[0]),
    ensures
        entry_name_model(pre + "public class "@ + name + tail) == Some(name),
{
    reveal_strlit("public class ");
    let decl = "public class "@;
    let s = pre + decl + name + tail;
    let p0 = pre.len() as int;
    assert(decl.len() == 13);
    assert(s.len() == p0 + 13 + name.len() + tail.len());
    assert forall|k: int| 0 <= k < 13 implies s[p0 + k] == decl[k] by {}
    assert forall|k: int| 0 <= k < name.len() implies s[p0 + 13 + k] == name[k] by {}
    // No match can start inside `pre`: every match starts with `p`.
    assert forall|k: int| 0 <= k < p0 implies #[trigger] decl_at(s, k) is None by {
        if occurs_at(s, k, lit_public()) {
            assert(s.subrange(k, k + 6)[0] == lit_public()[0]);
            assert(s[k] == 'p');
            assert(pre[k] == 'p');
        }
    }
    lemma_first_decl_skip(s, p0);
    // The pattern matches at the start of the declaration.
    assert(s.subrange(p0, p0 + 6) =~= lit_public());
    assert(occurs_at(s, p0, lit_public()));
    assert(is_space_char(s[p0 + 6]));
    assert(!is_space_char(s[p0 + 7]));
    assert(space_run_end(s, p0 + 6) == space_run_end(s, p0 + 7));
    assert(space_run_end(s, p0 + 7) == p0 + 7);
    assert(s.subrange(p0 + 7, p0 + 12) =~= lit_class());
    assert(occurs_at(s, p0 + 7, lit_class()));
    assert(is_space_char(s[p0 + 12]));
    assert(is_word_char(s[p0 + 13]));
    assert(!is_space_char(s[p0 + 13]));
    assert(space_run_end(s, p0 + 12) == space_run_end(s, p0 + 13));
    assert(space_run_end(s, p0 + 13) == p0 + 13);
    // The captured name is the maximal word run that follows.
    let e = p0 + 13 + name.len();
    assert forall|k: int| p0 + 13 <= k < e implies is_word_char(#[trigger] s[k]) by {
        assert(s[k] == name[k - p0 - 13]);
    }
    if tail.len() > 0 {
        assert(s[e] == tail[0]);
    }
    lemma_word_run(s, p0 + 13, e);
    assert(decl_at(s, p0) == Some((p0 + 13, e)));
    assert(first_decl_from(s, p0) == decl_at(s, p0));
    assert(s.subrange(p0 + 13, e) =~= name);
}

/// Executable computation of [`space_run_end`].
fn space_run_from(v: &Vec<char>, start: usize) -> (r: usize)
    requires
        start <= v@.len(),
    ensures
        r as int == space_run_end(v@, start as int),
        start <= r <= v@.len(),
{
    let mut j: usize = start;
    while j < v.len() && space_char(v[j])
        invariant
            start <= j <= v@.len(),
            space_run_end(v@, start as int) == space_run_end(v@, j as int),
        decreases v@.len() - j,
    {
        proof {
            assert(space_run_end(v@, j as int) == space_run_end(v@, j as int + 1));
        }
        j = j + 1;
    }
    proof {
        assert(space_run_end(v@, j as int) == j as int);
    }
    j
}

/// Executable computation of [`word_run_end`].
fn word_run_from(v: &Vec<char>, start: usize) -> (r: usize)
    requires
        start <= v@.len(),
    ensures
        r as int == word_run_end(v@, start as int),
        start <= r <= v@.len(),
{
    let mut j: usize = start;
    while j < v.len() && word_char(v[j])
        invariant
            start <= j <= v@.len(),
            word_run_end(v@, start as int) == word_run_end(v@, j as int),
        decreases v@.len() - j,
    {
        proof {
            assert(word_run_end(v@, j as int) == word_run_end(v@, j as int + 1));
        }
        j = j + 1;
    }
    proof {
        assert(word_run_end(v@, j as int) == j as int);
    }
    j
}

/// Executable test of [`decl_at`], returning the captured name's bounds.
fn decl_at_check(v: &Vec<char>, i: usize, pub_lit: &Vec<char>, class_lit: &Vec<char>) -> (r: Option<
    (usize, usize),
>)
    requires
        i <= v@.len(),
        pub_lit@ == lit_public(),
        class_lit@ == lit_class(),
    ensures
        r is Some <==> decl_at(v@, i as int) is Some,
        r matches Some(p) ==> decl_at(v@, i as int) == Some((p.0 as int, p.1 as int)),
        r matches Some(p) ==> i <= p.0 <= p.1 <= v@.len(),
{
    proof {
        assert(lit_public().len() == 6);
        assert(lit_class().len() == 5);
    }
    let n = v.len();
    if !occurs_here(v, i, pub_lit) {
        return None;
    }
    let j = space_run_from(v, i + 6);
    if j == i + 6 {
        return None;
    }
    if !occurs_here(v, j, class_lit) {
        return None;
    }
    let m = space_run_from(v, j + 5);
    if m == j + 5 {
        return None;
    }
    if m == n {
        return None;
    }
    if !word_char(v[m]) {
        return None;
    }
    let e = word_run_from(v, m);
    Some((m, e))
}

/// Derives the required entry-point name from the source text: the name
/// captured by the leftmost occurrence of the declaration pattern
/// `public` + whitespace + `class` + whitespace + name. Returns `None`
/// exactly when no such occurrence exists.
pub fn derive_entry_name(source: &str) -> (r: Option<String>)
    ensures
        r is Some <==> entry_name_model(source@) is Some,
        r matches Some(name) ==> Some(name@) == entry_name_model(source@),
{
    let v = chars_of(source);
    let mut pub_lit: Vec<char> = Vec::new();
    pub_lit.push('p');
    pub_lit.push('u');
    pub_lit.push('b');
    pub_lit.push('l');
    pub_lit.push('i');
    pub_lit.push('c');
    let mut class_lit: Vec<char> = Vec::new();
    class_lit.push('c');
    class_lit.push('l');
    class_lit.push('a');
    class_lit.push('s');
    class_lit.push('s');
    proof {
        assert(pub_lit@ =~= lit_public());
        assert(class_lit@ =~= lit_class());
    }
    let mut i: usize = 0;
    while i < v.len()
        invariant
            i <= v@.len(),
            v@ == source@,
            pub_lit@ == lit_public(),
            class_lit@ == lit_class(),
            first_decl_from(v@, 0) == first_decl_from(v@, i as int),
        decreases v@.len() - i,
    {
        match decl_at_check(&v, i, &pub_lit, &class_lit) {
            Some(bounds) => {
                proof {
                    assert(first_decl_from(v@, i as int) == decl_at(v@, i as int));
                }
                let name_chars = subvec(&v, bounds.0, bounds.1);
                let name = string_from_chars(&name_chars);
                return Some(name);
            },
            None => {
                proof {
                    assert(first_decl_from(v@, i as int) == first_decl_from(v@, i as int + 1));
                }
                i = i + 1;
            },
        }
    }
    proof {
        assert(first_decl_from(v@, i as int) is None);
    }
    None
}

} // verus!
