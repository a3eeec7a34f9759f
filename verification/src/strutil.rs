//! Verified primitives over strings: character search, splitting on a
//! separator, and equality, each proved against a spec-level definition
//! over the string's view (a `Seq<char>`).

use vstd::prelude::*;

verus! {

/// First index `i` with `from <= i` and `s[i] == c`, or `s.len()` when no
/// such index exists.
pub open spec fn find_from(s: Seq<char>, c: char, from: int) -> int
    decreases s.len() - from,
{
    if from < 0 || from >= s.len() {
        s.len() as int
    } else if s[from] == c {
        from
    } else {
        find_from(s, c, from + 1)
    }
}

/// `find_from` returns the first occurrence of `c` at or after `from`,
/// or the length of `s` when there is none.
pub proof fn lemma_find_from(s: Seq<char>, c: char, from: int)
    requires
        0 <= from <= s.len(),
    ensures
        from <= find_from(s, c, from) <= s.len(),
        find_from(s, c, from) < s.len() ==> s[find_from(s, c, from)] == c,
        forall|j: int| from <= j < find_from(s, c, from) ==> s[j] != c,
        find_from(s, c, from) == s.len() ==> forall|j: int| from <= j < s.len() ==> s[j] != c,
    decreases s.len() - from,
{
    if from < s.len() && s[from] != c {
        lemma_find_from(s, c, from + 1);
    }
}

/// The pieces of `s` from `from` onward, cut at every occurrence of `c`
/// (the separator itself is dropped; `n` separators give `n + 1` pieces).
pub open spec fn split_on_from(s: Seq<char>, c: char, from: int) -> Seq<Seq<char>>
    decreases s.len() - from,
        when 0 <= from <= s.len() via split_on_from_decreases
{
    let i = find_from(s, c, from);
    if i == s.len() {
        seq![s.subrange(from, s.len() as int)]
    } else {
        seq![s.subrange(from, i)] + split_on_from(s, c, i + 1)
    }
}

#[via_fn]
proof fn split_on_from_decreases(s: Seq<char>, c: char, from: int) {
    lemma_find_from(s, c, from);
}

/// The pieces of `s`, cut at every occurrence of `c`.
pub open spec fn split_on(s: Seq<char>, c: char) -> Seq<Seq<char>> {
    split_on_from(s, c, 0)
}

/// Splitting yields at least one piece, and none of the pieces holds the
/// separator.
pub proof fn lemma_split_on_from(s: Seq<char>, c: char, from: int)
    requires
        0 <= from <= s.len(),
    ensures
        split_on_from(s, c, from).len() >= 1,
        forall|k: int, j: int|
            0 <= k < split_on_from(s, c, from).len() && 0 <= j < split_on_from(s, c, from)[k].len()
                ==> split_on_from(s, c, from)[k][j] != c,
    decreases s.len() - from,
{
    lemma_find_from(s, c, from);
    let i = find_from(s, c, from);
    if i < s.len() {
        lemma_split_on_from(s, c, i + 1);
    }
}

/// The characters of `s` before the first occurrence of `c`; all of `s`
/// when `c` does not occur.
pub open spec fn before(s: Seq<char>, c: char) -> Seq<char> {
    s.take(find_from(s, c, 0))
}

/// The characters of `s` after the first occurrence of `c`, or `None` when
/// `c` does not occur.
pub open spec fn after_opt(s: Seq<char>, c: char) -> Option<Seq<char>> {
    if find_from(s, c, 0) == s.len() {
        None
    } else {
        Some(s.skip(find_from(s, c, 0) + 1))
    }
}

/// First index at or after `from` holding `c`, or the length of `s`.
pub fn find_char(s: &str, c: char, from: usize) -> (r: usize)
    requires
        from <= s@.len(),
    ensures
        r == find_from(s@, c, from as int),
        from <= r <= s@.len(),
{
    let len = s.unicode_len();
    let mut i = from;
    while i < len
        invariant
            from <= i <= len,
            len == s@.len(),
            find_from(s@, c, from as int) == find_from(s@, c, i as int),
        decreases len - i,
    {
        if s.get_char(i) == c {
            return i;
        }
        i += 1;
    }
    len
}

/// The characters of `s` from `from` (inclusive) to `to` (exclusive), as an
/// owned string.
pub fn substring(s: &str, from: usize, to: usize) -> (r: String)
    requires
        from <= to <= s@.len(),
    ensures
        r@ == s@.subrange(from as int, to as int),
{
    s.substring_char(from, to).to_owned()
}

/// The pieces of `s` cut at every occurrence of `c`.
pub fn split_string(s: &str, c: char) -> (parts: Vec<String>)
    ensures
        parts.deep_view() == split_on(s@, c),
        parts.len() >= 1,
{
    let len = s.unicode_len();
    let mut parts: Vec<String> = Vec::new();
    let mut from: usize = 0;
    loop
        invariant_except_break
            split_on(s@, c) == parts.deep_view() + split_on_from(s@, c, from as int),
        invariant
            from <= len,
            len == s@.len(),
        ensures
            parts.deep_view() == split_on(s@, c),
            parts.len() >= 1,
        decreases len - from,
    {
        let i = find_char(s, c, from);
        proof {
            lemma_find_from(s@, c, from as int);
        }
        let ghost old_dv = parts.deep_view();
        let piece = substring(s, from, i);
        parts.push(piece);
        proof {
            assert(parts.deep_view() =~= old_dv.push(piece@));
        }
        if i == len {
            proof {
                assert(old_dv.push(piece@) =~= old_dv + split_on_from(s@, c, from as int));
            }
            break;
        } else {
            proof {
                assert(old_dv.push(piece@) + split_on_from(s@, c, i + 1) =~= old_dv
                    + split_on_from(s@, c, from as int));
            }
            from = i + 1;
        }
    }
    proof {
        lemma_split_on_from(s@, c, 0);
    }
    parts
}

/// A copy of a vector of strings, with the same view.
pub fn clone_strings(v: &Vec<String>) -> (r: Vec<String>)
    ensures
        r.deep_view() == v.deep_view(),
{
    let mut r: Vec<String> = Vec::new();
    let mut i: usize = 0;
    while i < v.len()
        invariant
            i <= v.len(),
            r.deep_view() =~= v.deep_view().subrange(0, i as int),
        decreases v.len() - i,
    {
        let ghost old_dv = r.deep_view();
        r.push(v[i].clone());
        proof {
            assert(r.deep_view() =~= old_dv.push(v.deep_view()[i as int]));
            assert(v.deep_view().subrange(0, i as int + 1) =~= v.deep_view().subrange(
                0,
                i as int,
            ).push(v.deep_view()[i as int]));
        }
        i += 1;
    }
    proof {
        assert(r.deep_view() =~= v.deep_view());
    }
    r
}

/// True exactly when the two strings hold the same characters.
pub fn str_eq(a: &str, b: &str) -> (r: bool)
    ensures
        r == (a@ == b@),
{
    let la = a.unicode_len();
    let lb = b.unicode_len();
    if la != lb {
        return false;
    }
    let mut i: usize = 0;
    while i < la
        invariant
            i <= la,
            la == a@.len(),
            la == b@.len(),
            forall|j: int| 0 <= j < i ==> a@[j] == b@[j],
        decreases la - i,
    {
        if a.get_char(i) != b.get_char(i) {
            return false;
        }
        i += 1;
    }
    proof {
        assert(a@ =~= b@);
    }
    true
}

/// True exactly when the two vectors hold the same strings.
pub fn strings_eq(a: &Vec<String>, b: &Vec<String>) -> (r: bool)
    ensures
        r == (a.deep_view() == b.deep_view()),
{
    if a.len() != b.len() {
        proof {
            assert(a.deep_view().len() != b.deep_view().len());
        }
        return false;
    }
    let mut i: usize = 0;
    while i < a.len()
        invariant
            i <= a.len(),
            a.len() == b.len(),
            forall|j: int| 0 <= j < i ==> a.deep_view()[j] == b.deep_view()[j],
        decreases a.len() - i,
    {
        if !str_eq(a[i].as_str(), b[i].as_str()) {
            proof {
                assert(a.deep_view()[i as int] != b.deep_view()[i as int]);
            }
            return false;
        }
        i += 1;
    }
    proof {
        assert(a.deep_view() =~= b.deep_view());
    }
    true
}

/// True exactly when `p` is a prefix of `s`.
pub fn has_prefix(s: &str, p: &str) -> (r: bool)
    ensures
        r == (p@.len() <= s@.len() && s@.subrange(0, p@.len() as int) == p@),
{
    let ls = s.unicode_len();
    let lp = p.unicode_len();
    if lp > ls {
        return false;
    }
    let mut i: usize = 0;
    while i < lp
        invariant
            i <= lp,
            lp <= ls,
            ls == s@.len(),
            lp == p@.len(),
            forall|j: int| 0 <= j < i ==> s@[j] == p@[j],
        decreases lp - i,
    {
        if s.get_char(i) != p.get_char(i) {
            proof {
                assert(s@.subrange(0, p@.len() as int)[i as int] != p@[i as int]);
            }
            return false;
        }
        i += 1;
    }
    proof {
        assert(s@.subrange(0, p@.len() as int) =~= p@);
    }
    true
}

} // verus!


