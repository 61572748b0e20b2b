//! Searching and rewriting path strings.
//!
//! Paths are compared and rewritten character by character. The functions
//! here state their results over the sequences of characters that the
//! strings hold.

use vstd::prelude::*;
use vstd::string::StrSliceExecFns;
use vstd::string::StringExecFns;

verus! {

/// True when `needle` stands in `hay` at position `i`.
pub open spec fn occurs_at(hay: Seq<char>, needle: Seq<char>, i: int) -> bool {
    0 <= i && i + needle.len() <= hay.len() && hay.subrange(i, i + needle.len()) == needle
}

/// True when `needle` stands somewhere in `hay`.
pub open spec fn contains_seq(hay: Seq<char>, needle: Seq<char>) -> bool {
    exists|i: int| occurs_at(hay, needle, i)
}

/// True when `hay` begins with `prefix`.
pub open spec fn starts_with_seq(hay: Seq<char>, prefix: Seq<char>) -> bool {
    occurs_at(hay, prefix, 0)
}

/// True when `hay` ends with `suffix`.
pub open spec fn ends_with_seq(hay: Seq<char>, suffix: Seq<char>) -> bool {
    occurs_at(hay, suffix, hay.len() - suffix.len())
}

/// `hay` with every occurrence of `from` replaced by `to`, found from left
/// to right without overlap. An empty `from` replaces nothing.
pub open spec fn replaced(hay: Seq<char>, from: Seq<char>, to: Seq<char>) -> Seq<char>
    decreases hay.len(),
{
    if from.len() == 0 || hay.len() < from.len() {
        hay
    } else if hay.subrange(0, from.len() as int) == from {
        to + replaced(hay.subrange(from.len() as int, hay.len() as int), from, to)
    } else {
        seq![hay[0]] + replaced(hay.subrange(1, hay.len() as int), from, to)
    }
}

/// The characters of a string.
pub fn chars_of(s: &str) -> (r: Vec<char>)
    ensures
        r@ == s@,
{
    let n: usize = s.unicode_len();
    let mut out: Vec<char> = Vec::new();
    let mut i: usize = 0;
    while i < n
        invariant
            n == s@.len(),
            i <= n,
            out@ == s@.subrange(0, i as int),
        decreases n - i,
    {
        out.push(s.get_char(i));
        i += 1;
        assert(out@ =~= s@.subrange(0, i as int));
    }
    assert(s@.subrange(0, n as int) =~= s@);
    out
}

/// Decides whether `needle` stands in `hay` at position `i`.
pub fn matches_at(hay: &Vec<char>, needle: &Vec<char>, i: usize) -> (r: bool)
    ensures
        r == occurs_at(hay@, needle@, i as int),
{
    if needle.len() > hay.len() || i > hay.len() - needle.len() {
        return false;
    }
    let mut k: usize = 0;
    while k < needle.len()
        invariant
            k <= needle.len(),
            i + needle.len() <= hay.len(),
            forall|j: int| 0 <= j < k ==> hay@[i + j] == needle@[j],
        decreases needle.len() - k,
    {
        if hay[i + k] != needle[k] {
            assert(hay@.subrange(i as int, i + needle@.len())[k as int] == hay@[i + k]);
            return false;
        }
        k += 1;
    }
    assert(hay@.subrange(i as int, i + needle@.len()) =~= needle@);
    true
}

/// The first position at which `needle` stands in `hay`.
pub fn find(hay: &Vec<char>, needle: &Vec<char>) -> (r: Option<usize>)
    ensures
        r.is_some() == contains_seq(hay@, needle@),
        r.is_some() ==> occurs_at(hay@, needle@, r.unwrap() as int),
        r.is_some() ==> forall|j: int| 0 <= j < r.unwrap() ==> !occurs_at(hay@, needle@, j),
{
    let mut i: usize = 0;
    while i < hay.len()
        invariant
            i <= hay.len(),
            forall|j: int| 0 <= j < i ==> !occurs_at(hay@, needle@, j),
        decreases hay.len() - i,
    {
        if matches_at(hay, needle, i) {
            return Some(i);
        }
        i += 1;
    }
    if matches_at(hay, needle, i) {
        return Some(i);
    }
    assert forall|j: int| !occurs_at(hay@, needle@, j) by {
        if occurs_at(hay@, needle@, j) {
            assert(j <= hay@.len());
        }
    }
    None
}

/// Decides whether `needle` stands somewhere in `hay`.
pub fn contains(hay: &str, needle: &str) -> (r: bool)
    ensures
        r == contains_seq(hay@, needle@),
{
    let h = chars_of(hay);
    let n = chars_of(needle);
    find(&h, &n).is_some()
}

/// Decides whether `hay` begins with `prefix`.
pub fn starts_with(hay: &str, prefix: &str) -> (r: bool)
    ensures
        r == starts_with_seq(hay@, prefix@),
{
    let h = chars_of(hay);
    let p = chars_of(prefix);
    matches_at(&h, &p, 0)
}

/// Decides whether `hay` ends with `suffix`.
pub fn ends_with(hay: &str, suffix: &str) -> (r: bool)
    ensures
        r == ends_with_seq(hay@, suffix@),
{
    let h = chars_of(hay);
    let s = chars_of(suffix);
    if s.len() > h.len() {
        return false;
    }
    matches_at(&h, &s, h.len() - s.len())
}

/// Decides whether two strings hold the same characters.
pub fn str_eq(a: &str, b: &str) -> (r: bool)
    ensures
        r == (a@ == b@),
{
    let x = chars_of(a);
    let y = chars_of(b);
    if x.len() != y.len() {
        return false;
    }
    let r = matches_at(&x, &y, 0);
    proof {
        assert(x@.subrange(0, y@.len() as int) =~= x@);
    }
    r
}

/// `a` followed by `b`.
pub fn concat(a: &str, b: &str) -> (r: String)
    ensures
        r@ == a@ + b@,
{
    let mut out = String::from_str(a);
    out.append(b);
    out
}

/// `a`, `b` and `c` in a row.
pub fn concat3(a: &str, b: &str, c: &str) -> (r: String)
    ensures
        r@ == a@ + b@ + c@,
{
    let mut out = String::from_str(a);
    out.append(b);
    out.append(c);
    out
}

/// What is left of the replacement once the first `i` characters of `hay`
/// have been dealt with.
proof fn lemma_replaced_step(hay: Seq<char>, from: Seq<char>, to: Seq<char>, i: int)
    requires
        0 <= i <= hay.len(),
        from.len() > 0,
    ensures
        i + from.len() > hay.len() ==> replaced(hay.subrange(i, hay.len() as int), from, to)
            == hay.subrange(i, hay.len() as int),
        occurs_at(hay, from, i) ==> replaced(hay.subrange(i, hay.len() as int), from, to) == to
            + replaced(hay.subrange(i + from.len(), hay.len() as int), from, to),
        i + from.len() <= hay.len() && !occurs_at(hay, from, i) ==> replaced(
            hay.subrange(i, hay.len() as int),
            from,
            to,
        ) == seq![hay[i]] + replaced(hay.subrange(i + 1, hay.len() as int), from, to),
{
    let rest = hay.subrange(i, hay.len() as int);
    if i + from.len() <= hay.len() {
        assert(rest.subrange(0, from.len() as int) =~= hay.subrange(i, i + from.len()));
        assert(rest.subrange(from.len() as int, rest.len() as int) =~= hay.subrange(
            i + from.len(),
            hay.len() as int,
        ));
        assert(rest.subrange(1, rest.len() as int) =~= hay.subrange(i + 1, hay.len() as int));
        assert(rest[0] == hay[i]);
    }
}

/// `hay` with every occurrence of `from` replaced by `to`.
pub fn replace(hay: &str, from: &str, to: &str) -> (r: String)
    ensures
        r@ == replaced(hay@, from@, to@),
{
    let h = chars_of(hay);
    let f = chars_of(from);
    if f.len() == 0 {
        return String::from_str(hay);
    }
    let n: usize = h.len();
    let mut out = String::new();
    let mut i: usize = 0;
    assert(hay@.subrange(0, n as int) =~= hay@);
    assert(out@ + replaced(hay@, from@, to@) =~= replaced(hay@, from@, to@));
    while i < n
        invariant
            n == h.len(),
            h@ == hay@,
            f@ == from@,
            f.len() > 0,
            i <= n,
            out@ + replaced(hay@.subrange(i as int, n as int), from@, to@) == replaced(
                hay@,
                from@,
                to@,
            ),
        decreases n - i,
    {
        proof {
            lemma_replaced_step(hay@, from@, to@, i as int);
        }
        let ghost before = out@;
        let ghost rest = replaced(hay@.subrange(i as int, n as int), from@, to@);
        if matches_at(&h, &f, i) {
            out.append(to);
            i += f.len();
            assert(out@ + replaced(hay@.subrange(i as int, n as int), from@, to@) =~= before
                + rest);
        } else {
            if f.len() > n - i {
                out.append(hay.substring_char(i, n));
                i = n;
                assert(hay@.subrange(n as int, n as int) =~= Seq::<char>::empty());
                assert(out@ + replaced(hay@.subrange(i as int, n as int), from@, to@) =~= before
                    + rest);
            } else {
                out.append(hay.substring_char(i, i + 1));
                assert(hay@.subrange(i as int, i + 1) =~= seq![hay@[i as int]]);
                i += 1;
                assert(out@ + replaced(hay@.subrange(i as int, n as int), from@, to@) =~= before
                    + rest);
            }
        }
    }
    assert(hay@.subrange(0, n as int) =~= hay@);
    assert(hay@.subrange(n as int, n as int) =~= Seq::<char>::empty());
    assert(out@ + Seq::<char>::empty() =~= out@);
    out
}

/// What `str::to_lowercase` makes of a string: its lowercase equivalent as
/// Unicode defines it.
pub uninterp spec fn lowercase_of(s: Seq<char>) -> Seq<char>;

/// `str::to_lowercase`: the lowercase equivalent of the string.
#[verifier::external_body]
pub(crate) fn to_lowercase(s: &str) -> (r: String)
    ensures
        r@ == lowercase_of(s@),
{
    s.to_lowercase()
}

} // verus!
