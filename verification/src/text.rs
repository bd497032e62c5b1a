//! Character-level helpers on string slices.

use vstd::prelude::*;
use vstd::std_specs::iter::IteratorSpec;
use vstd::string::StrSliceExecFns;

verus! {

/// The characters of `s`, in order.
pub fn chars_of(s: &str) -> (chars: Vec<char>)
    ensures
        chars@ == s@,
{
    broadcast use vstd::string::group_string_axioms;

    let n = s.unicode_len();
    let mut chars: Vec<char> = Vec::new();
    let mut it = s.chars();
    while chars.len() < n
        invariant
            n == s@.len(),
            chars@ + it.remaining() == s@,
        decreases n - chars.len(),
    {
        let ghost before = it.remaining();
        let next = it.next();
        if let Some(c) = next {
            chars.push(c);
            assert(chars@ + it.remaining() =~= s@) by {
                assert(before == seq![c] + before.drop_first());
            }
        }
    }
    assert(chars@ =~= s@);
    chars
}

/// Position of the first occurrence of `c` in `s`, or the length of `s` when
/// `c` does not occur.
pub open spec fn first_index(s: Seq<char>, c: char) -> int
    decreases s.len(),
{
    if s.len() == 0 {
        0
    } else if s[0] == c {
        0
    } else {
        1 + first_index(s.drop_first(), c)
    }
}

/// `first_index` is in range, points at `c` whenever `c` occurs, and nothing
/// before it is `c`.
pub proof fn lemma_first_index(s: Seq<char>, c: char)
    ensures
        0 <= first_index(s, c) <= s.len(),
        first_index(s, c) < s.len() <==> s.contains(c),
        first_index(s, c) < s.len() ==> s[first_index(s, c)] == c,
        forall|j: int| 0 <= j < first_index(s, c) ==> s[j] != c,
    decreases s.len(),
{
    if s.len() == 0 {
    } else if s[0] == c {
    } else {
        let rest = s.drop_first();
        lemma_first_index(rest, c);
        if rest.contains(c) {
            let k = choose|k: int| 0 <= k < rest.len() && rest[k] == c;
            assert(s[k + 1] == c);
        }
        if s.contains(c) {
            let k = choose|k: int| 0 <= k < s.len() && s[k] == c;
            assert(rest[k - 1] == c);
        }
        assert forall|j: int| 0 <= j < first_index(s, c) implies s[j] != c by {
            if j > 0 {
                assert(s[j] == rest[j - 1]);
            }
        }
    }
}

/// A position that satisfies what `lemma_first_index` states is the first
/// index.
pub proof fn lemma_first_index_is(s: Seq<char>, c: char, i: int)
    requires
        0 <= i <= s.len(),
        i < s.len() ==> s[i] == c,
        forall|j: int| 0 <= j < i ==> s[j] != c,
    ensures
        first_index(s, c) == i,
{
    lemma_first_index(s, c);
}

/// The pieces of `s` between occurrences of `d`. There is always at least
/// one piece: a text without `d` is its own single piece.
pub open spec fn split(s: Seq<char>, d: char) -> Seq<Seq<char>>
    decreases s.len(),
{
    let i = first_index(s, d);
    if 0 <= i < s.len() {
        seq![s.subrange(0, i)] + split(s.subrange(i + 1, s.len() as int), d)
    } else {
        seq![s]
    }
}

/// The views of a sequence of string slices.
pub open spec fn views(parts: Seq<&str>) -> Seq<Seq<char>> {
    Seq::new(parts.len(), |i: int| parts[i]@)
}

/// Whether two string slices hold the same characters.
pub fn same_text(a: &str, b: &str) -> (same: bool)
    ensures
        same == (a@ == b@),
{
    let left = chars_of(a);
    let right = chars_of(b);
    if left.len() != right.len() {
        return false;
    }
    let mut i: usize = 0;
    while i < left.len()
        invariant
            left@ == a@,
            right@ == b@,
            left.len() == right.len(),
            i <= left.len(),
            forall|j: int| 0 <= j < i ==> left@[j] == right@[j],
        decreases left.len() - i,
    {
        if left[i] != right[i] {
            return false;
        }
        i += 1;
    }
    assert(left@ =~= right@);
    true
}

/// Splits `s` at the first occurrence of `delimiter`, which is dropped.
/// Without an occurrence there is nothing to split.
pub fn split_once(s: &str, delimiter: char) -> (parts: Option<(&str, &str)>)
    ensures
        parts is Some <==> s@.contains(delimiter),
        parts matches Some((head, tail)) ==> {
            &&& head@ == s@.subrange(0, first_index(s@, delimiter))
            &&& tail@ == s@.subrange(first_index(s@, delimiter) + 1, s@.len() as int)
        },
{
    let chars = chars_of(s);
    let n = chars.len();
    let mut i: usize = 0;
    while i < n && chars[i] != delimiter
        invariant
            n == chars@.len(),
            i <= n,
            forall|j: int| 0 <= j < i ==> chars@[j] != delimiter,
        decreases n - i,
    {
        i += 1;
    }
    proof {
        lemma_first_index_is(s@, delimiter, i as int);
        lemma_first_index(s@, delimiter);
    }
    if i < n {
        Some((s.substring_char(0, i), s.substring_char(i + 1, n)))
    } else {
        None
    }
}

/// Splits `s` on every occurrence of `delimiter`.
pub fn split_all(s: &str, delimiter: char) -> (parts: Vec<&str>)
    ensures
        views(parts@) == split(s@, delimiter),
        parts@.len() >= 1,
{
    let mut parts: Vec<&str> = Vec::new();
    let mut rest = s;
    loop
        invariant_except_break
            split(s@, delimiter) == views(parts@) + split(rest@, delimiter),
        ensures
            views(parts@) == split(s@, delimiter),
            parts@.len() >= 1,
        decreases rest@.len(),
    {
        let ghost before = parts@;
        proof {
            lemma_first_index(rest@, delimiter);
        }
        match split_once(rest, delimiter) {
            Some((head, tail)) => {
                parts.push(head);
                assert(views(parts@) =~= views(before) + seq![head@]);
                assert(views(parts@) + split(tail@, delimiter) =~= views(before) + split(
                    rest@,
                    delimiter,
                ));
                rest = tail;
            },
            None => {
                parts.push(rest);
                assert(views(parts@) =~= views(before) + seq![rest@]);
                assert(split(rest@, delimiter) =~= seq![rest@]);
                break ;
            },
        }
    }
    parts
}

} // verus!
