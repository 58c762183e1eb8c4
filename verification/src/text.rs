//! Text helpers with the semantics of Rust's `str`: byte-wise ordering,
//! prefix tests, equality and concatenation.

use vstd::prelude::*;
use vstd::string::*;
use vstd::utf8::*;

verus! {

/// The UTF-8 bytes of a text: what `str`'s ordering and prefix tests compare.
pub open spec fn utf8(s: Seq<char>) -> Seq<u8> {
    encode_utf8(s)
}

/// Lexicographic "less than" on bytes, the order of `str` (`a < b`).
pub open spec fn bytes_lt(a: Seq<u8>, b: Seq<u8>) -> bool
    decreases a.len(),
{
    if b.len() == 0 {
        false
    } else if a.len() == 0 {
        true
    } else if a[0] != b[0] {
        a[0] < b[0]
    } else {
        bytes_lt(a.drop_first(), b.drop_first())
    }
}

/// `a < b` on texts.
pub open spec fn text_lt(a: Seq<char>, b: Seq<char>) -> bool {
    bytes_lt(utf8(a), utf8(b))
}

/// `a <= b` on texts.
pub open spec fn text_le(a: Seq<char>, b: Seq<char>) -> bool {
    !text_lt(b, a)
}

/// `s.starts_with(p)` on texts.
pub open spec fn text_starts_with(s: Seq<char>, p: Seq<char>) -> bool {
    utf8(p).is_prefix_of(utf8(s))
}

/// Whether `s[..10]` is defined: at least ten bytes, ending on a character boundary.
pub open spec fn has_date_prefix(s: Seq<char>) -> bool {
    is_char_boundary(utf8(s), 10)
}

/// The bytes of `s[..10]`, the date part of an ISO date-time.
pub open spec fn date_prefix(s: Seq<char>) -> Seq<u8> {
    utf8(s).subrange(0, 10)
}

/// The bytes of the day of a date-time: `s[..10]` when that is defined,
/// else all of `s`.
pub open spec fn day_of(s: Seq<char>) -> Seq<u8> {
    if has_date_prefix(s) {
        date_prefix(s)
    } else {
        utf8(s)
    }
}

/// The day of a date-time: `s[..10]` when that is defined, else `s`.
pub fn day_part(s: &str) -> (r: &str)
    ensures
        utf8(r@) == day_of(s@),
{
    if s.is_char_boundary(10) {
        date_part(s)
    } else {
        s
    }
}

/// `a < b` on byte strings.
pub fn less_bytes(a: &[u8], b: &[u8]) -> (r: bool)
    ensures
        r == bytes_lt(a@, b@),
{
    let mut i: usize = 0;
    assert(a@.skip(0) =~= a@);
    assert(b@.skip(0) =~= b@);
    while i < a.len() && i < b.len() && a[i] == b[i]
        invariant
            i <= a@.len(),
            i <= b@.len(),
            bytes_lt(a@, b@) == bytes_lt(a@.skip(i as int), b@.skip(i as int)),
        decreases a@.len() - i,
    {
        assert(a@.skip(i as int).drop_first() =~= a@.skip(i + 1));
        assert(b@.skip(i as int).drop_first() =~= b@.skip(i + 1));
        i = i + 1;
    }
    if i == b.len() {
        false
    } else if i == a.len() {
        true
    } else {
        a[i] < b[i]
    }
}

/// `a < b` on texts.
pub fn text_less(a: &str, b: &str) -> (r: bool)
    ensures
        r == text_lt(a@, b@),
{
    less_bytes(a.as_bytes(), b.as_bytes())
}

/// `s.starts_with(p)` on texts.
pub fn text_has_prefix(s: &str, p: &str) -> (r: bool)
    ensures
        r == text_starts_with(s@, p@),
{
    let sb = s.as_bytes();
    let pb = p.as_bytes();
    if pb.len() > sb.len() {
        return false;
    }
    let mut i: usize = 0;
    while i < pb.len()
        invariant
            pb.len() <= sb.len(),
            pb@ == utf8(p@),
            sb@ == utf8(s@),
            i <= pb.len(),
            forall|k: int| 0 <= k < i ==> pb@[k] == sb@[k],
        decreases pb.len() - i,
    {
        if pb[i] != sb[i] {
            assert(sb@.subrange(0, pb@.len() as int)[i as int] == sb@[i as int]);
            assert(pb@ != sb@.subrange(0, pb@.len() as int));
            assert(!pb@.is_prefix_of(sb@));
            return false;
        }
        i = i + 1;
    }
    true
}

/// `a == b` on texts.
pub fn same_text(a: &str, b: &str) -> (r: bool)
    ensures
        r == (a@ == b@),
{
    let x = a.to_owned();
    let y = b.to_owned();
    x == y
}

/// `s[..10]`: the date part of an ISO date-time.
pub fn date_part(s: &str) -> (r: &str)
    requires
        has_date_prefix(s@),
    ensures
        utf8(r@) == date_prefix(s@),
{
    let (head, _tail) = s.split_at(10);
    head
}

/// A fresh `String` holding `a` followed by `b`.
pub fn join_text(a: &str, b: &str) -> (r: String)
    ensures
        r@ == a@ + b@,
{
    let mut s = a.to_owned();
    s.append(b);
    s
}

/// A copy of an optional text.
pub fn copy_opt_text(o: &Option<String>) -> (r: Option<String>)
    ensures
        opt_text(*o) == opt_text(r),
{
    match o {
        Some(s) => Some(s.clone()),
        None => None,
    }
}

/// The characters of an optional text.
pub open spec fn opt_text(o: Option<String>) -> Option<Seq<char>> {
    match o {
        Some(s) => Some(s@),
        None => None,
    }
}

/// The characters of each text in a list.
pub open spec fn texts(v: Seq<String>) -> Seq<Seq<char>> {
    v.map_values(|s: String| s@)
}

/// A copy of a list of texts.
pub fn copy_texts(v: &Vec<String>) -> (r: Vec<String>)
    ensures
        texts(r@) == texts(v@),
{
    let mut r: Vec<String> = Vec::new();
    let mut i: usize = 0;
    while i < v.len()
        invariant
            i <= v@.len(),
            r@.len() == i,
            forall|k: int| 0 <= k < i ==> #[trigger] r@[k]@ == v@[k]@,
        decreases v@.len() - i,
    {
        r.push(v[i].clone());
        i = i + 1;
    }
    assert(texts(r@) =~= texts(v@));
    r
}

/// No byte string is below itself.
pub proof fn lemma_bytes_lt_irreflexive(a: Seq<u8>)
    ensures
        !bytes_lt(a, a),
    decreases a.len(),
{
    if a.len() > 0 {
        lemma_bytes_lt_irreflexive(a.drop_first());
    }
}

/// `a < b` and `b < a` never both hold.
pub proof fn lemma_bytes_lt_asymmetric(a: Seq<u8>, b: Seq<u8>)
    ensures
        !(bytes_lt(a, b) && bytes_lt(b, a)),
    decreases a.len(),
{
    if a.len() > 0 && b.len() > 0 && a[0] == b[0] {
        lemma_bytes_lt_asymmetric(a.drop_first(), b.drop_first());
    }
}

/// `a < b < c` implies `a < c`.
pub proof fn lemma_bytes_lt_transitive(a: Seq<u8>, b: Seq<u8>, c: Seq<u8>)
    requires
        bytes_lt(a, b),
        bytes_lt(b, c),
    ensures
        bytes_lt(a, c),
    decreases a.len(),
{
    if a.len() > 0 && a[0] == b[0] && b[0] == c[0] {
        lemma_bytes_lt_transitive(a.drop_first(), b.drop_first(), c.drop_first());
    }
}

/// Distinct byte strings are ordered one way or the other.
pub proof fn lemma_bytes_lt_total(a: Seq<u8>, b: Seq<u8>)
    requires
        a != b,
    ensures
        bytes_lt(a, b) || bytes_lt(b, a),
    decreases a.len(),
{
    if a.len() == 0 {
        assert(b.len() > 0) by {
            if b.len() == 0 {
                assert(a =~= b);
            }
        }
    } else if b.len() == 0 {
    } else if a[0] == b[0] {
        assert(a.drop_first() != b.drop_first()) by {
            if a.drop_first() == b.drop_first() {
                assert(a =~= seq![a[0]] + a.drop_first());
                assert(b =~= seq![b[0]] + b.drop_first());
            }
        }
        lemma_bytes_lt_total(a.drop_first(), b.drop_first());
    }
}

/// `<=` on texts is reflexive.
pub proof fn lemma_text_le_reflexive(a: Seq<char>)
    ensures
        text_le(a, a),
{
    lemma_bytes_lt_irreflexive(utf8(a));
}

/// `a < b` implies `a <= b`.
pub proof fn lemma_text_lt_implies_le(a: Seq<char>, b: Seq<char>)
    requires
        text_lt(a, b),
    ensures
        text_le(a, b),
{
    lemma_bytes_lt_asymmetric(utf8(a), utf8(b));
}

/// `a <= b <= c` implies `a <= c`.
pub proof fn lemma_text_le_transitive(a: Seq<char>, b: Seq<char>, c: Seq<char>)
    requires
        text_le(a, b),
        text_le(b, c),
    ensures
        text_le(a, c),
{
    let (x, y, z) = (utf8(a), utf8(b), utf8(c));
    if bytes_lt(z, x) {
        if x == y {
            assert(bytes_lt(z, y));
        } else {
            lemma_bytes_lt_total(x, y);
            lemma_bytes_lt_transitive(z, x, y);
        }
    }
}

} // verus!
