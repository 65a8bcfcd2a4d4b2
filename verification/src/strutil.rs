//! Character-level string helpers.
//!
//! Tokens, header directives and diagnostic messages are all examined
//! character by character; these helpers give each scan an exact
//! specification over the string's view.

use vstd::prelude::*;

verus! {

/// Position of the first occurrence of `c` in `s` at or after `from`.
pub open spec fn find_from(s: Seq<char>, c: char, from: int) -> Option<int>
    decreases s.len() - from,
{
    if from < 0 || from >= s.len() {
        None
    } else if s[from] == c {
        Some(from)
    } else {
        find_from(s, c, from + 1)
    }
}

/// What `find_from` returns: the first hit, or nothing where no hit exists.
pub proof fn lemma_find_from(s: Seq<char>, c: char, from: int)
    requires
        0 <= from <= s.len(),
    ensures
        match find_from(s, c, from) {
            Some(i) => from <= i < s.len() && s[i] == c && (forall|k: int|
                from <= k < i ==> s[k] != c),
            None => forall|k: int| from <= k < s.len() ==> s[k] != c,
        },
    decreases s.len() - from,
{
    if from < s.len() && s[from] != c {
        lemma_find_from(s, c, from + 1);
    }
}

/// Skipping a stretch that does not hold `c` leaves the result unchanged.
pub proof fn lemma_find_from_skip(s: Seq<char>, c: char, from: int, i: int)
    requires
        0 <= from <= i <= s.len(),
        forall|k: int| from <= k < i ==> s[k] != c,
    ensures
        find_from(s, c, from) == find_from(s, c, i),
    decreases i - from,
{
    if from < i {
        lemma_find_from_skip(s, c, from + 1, i);
    }
}

/// First occurrence of `c` in `s` at or after `from`.
pub fn find_char_from(s: &str, c: char, from: usize) -> (r: Option<usize>)
    requires
        from <= s@.len(),
    ensures
        match r {
            Some(i) => Some(i as int) == find_from(s@, c, from as int),
            None => find_from(s@, c, from as int) is None,
        },
{
    let len: usize = s.unicode_len();
    let mut i: usize = from;
    while i < len
        invariant
            from <= i <= len,
            len == s@.len(),
            forall|k: int| from <= k < i ==> s@[k] != c,
        decreases len - i,
    {
        if s.get_char(i) == c {
            proof {
                lemma_find_from_skip(s@, c, from as int, i as int);
            }
            return Some(i);
        }
        i += 1;
    }
    proof {
        lemma_find_from_skip(s@, c, from as int, len as int);
    }
    None
}

/// Character-wise equality of two strings.
pub fn str_eq(a: &str, b: &str) -> (r: bool)
    ensures
        r == (a@ == b@),
{
    let alen: usize = a.unicode_len();
    let blen: usize = b.unicode_len();
    if alen != blen {
        return false;
    }
    let mut i: usize = 0;
    while i < alen
        invariant
            0 <= i <= alen,
            alen == a@.len(),
            alen == b@.len(),
            forall|k: int| 0 <= k < i ==> a@[k] == b@[k],
        decreases alen - i,
    {
        if a.get_char(i) != b.get_char(i) {
            return false;
        }
        i += 1;
    }
    proof {
        assert(a@ =~= b@);
    }
    true
}

/// Whether `x` reads as `p` immediately followed by `q`.
pub fn str_eq_concat(x: &str, p: &str, q: &str) -> (r: bool)
    ensures
        r == (x@ == p@ + q@),
{
    let xlen: usize = x.unicode_len();
    let plen: usize = p.unicode_len();
    let qlen: usize = q.unicode_len();
    if xlen < plen || xlen - plen != qlen {
        proof {
            assert(x@.len() != (p@ + q@).len());
        }
        return false;
    }
    let mut i: usize = 0;
    while i < plen
        invariant
            0 <= i <= plen,
            xlen == x@.len(),
            plen == p@.len(),
            qlen == q@.len(),
            xlen == plen + qlen,
            forall|k: int| 0 <= k < i ==> x@[k] == p@[k],
        decreases plen - i,
    {
        if x.get_char(i) != p.get_char(i) {
            proof {
                assert(x@[i as int] != (p@ + q@)[i as int]);
            }
            return false;
        }
        i += 1;
    }
    let mut j: usize = 0;
    while j < qlen
        invariant
            0 <= j <= qlen,
            xlen == x@.len(),
            plen == p@.len(),
            qlen == q@.len(),
            xlen == plen + qlen,
            forall|k: int| 0 <= k < plen ==> x@[k] == p@[k],
            forall|k: int| 0 <= k < j ==> x@[plen + k] == q@[k],
        decreases qlen - j,
    {
        if x.get_char(plen + j) != q.get_char(j) {
            proof {
                assert(x@[plen + j] != (p@ + q@)[plen + j]);
            }
            return false;
        }
        j += 1;
    }
    proof {
        assert(x@ =~= p@ + q@);
    }
    true
}

/// Whether `s` begins with `p`.
pub open spec fn starts_with(s: Seq<char>, p: Seq<char>) -> bool {
    s.len() >= p.len() && s.subrange(0, p.len() as int) == p
}

/// The name quoted between the first two backticks of a decode error
/// message, or a fixed placeholder where no quoted name is present.
pub open spec fn spec_extract_field_name(m: Seq<char>) -> Seq<char> {
    match find_from(m, '`', 0) {
        None => "desconocido"@,
        Some(a) => match find_from(m, '`', a + 1) {
            None => "desconocido"@,
            Some(b) => m.subrange(a + 1, b),
        },
    }
}

/// Extracts the field name quoted in a decode error message.
pub fn extract_field_name(message: &str) -> (r: &str)
    ensures
        r@ == spec_extract_field_name(message@),
{
    let len: usize = message.unicode_len();
    if let Some(a) = find_char_from(message, '`', 0) {
        proof {
            lemma_find_from(message@, '`', 0);
        }
        assert(a < len);
        if let Some(b) = find_char_from(message, '`', a + 1) {
            proof {
                lemma_find_from(message@, '`', a as int + 1);
            }
            return message.substring_char(a + 1, b);
        }
    }
    "desconocido"
}

} // verus!
