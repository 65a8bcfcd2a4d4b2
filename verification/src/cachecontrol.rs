//! Refresh timing derived from the provider's Cache-Control header.
//!
//! The key-set response advertises how long it may be cached through a
//! `max-age` directive. The snapshot's refresh deadline is that age,
//! shortened by a fixed safety buffer so that a refresh happens before
//! the provider's own cache would call the data stale. A missing header,
//! a missing directive or an unparsable age all fall back to one hour.

use vstd::prelude::*;
use crate::strutil::{find_char_from, find_from, lemma_find_from, starts_with};

verus! {

/// Safety margin subtracted from the advertised age, in seconds.
pub const KEYS_REFRESH_BUFFER_SECS: u64 = 300;

/// Advertised age assumed when none can be read, in seconds.
pub const DEFAULT_MAX_AGE_SECS: u64 = 3600;

/// Whitespace stripped around a directive.
pub open spec fn is_space(c: char) -> bool {
    c == ' ' || c == '\t'
}

/// First position at or after `i` holding a non-space, or the end.
pub open spec fn skip_spaces(s: Seq<char>, i: int) -> int
    decreases s.len() - i,
{
    if i < 0 || i >= s.len() {
        i
    } else if is_space(s[i]) {
        skip_spaces(s, i + 1)
    } else {
        i
    }
}

/// Position after the last non-space strictly before `j`, or zero.
pub open spec fn rskip_spaces(s: Seq<char>, j: int) -> int
    decreases j,
{
    if j <= 0 || j > s.len() {
        j
    } else if is_space(s[j - 1]) {
        rskip_spaces(s, j - 1)
    } else {
        j
    }
}

/// `s` without its leading and trailing spaces.
pub open spec fn spec_trim(s: Seq<char>) -> Seq<char> {
    let a = skip_spaces(s, 0);
    let b = rskip_spaces(s, s.len() as int);
    if a <= b {
        s.subrange(a, b)
    } else {
        Seq::empty()
    }
}

proof fn lemma_skip_spaces_pin(s: Seq<char>, from: int, i: int)
    requires
        0 <= from <= i <= s.len(),
        forall|k: int| from <= k < i ==> is_space(s[k]),
    ensures
        skip_spaces(s, from) == skip_spaces(s, i),
    decreases i - from,
{
    if from < i {
        lemma_skip_spaces_pin(s, from + 1, i);
    }
}

proof fn lemma_skip_spaces_range(s: Seq<char>, from: int)
    requires
        0 <= from <= s.len(),
    ensures
        from <= skip_spaces(s, from) <= s.len(),
        skip_spaces(s, from) < s.len() ==> !is_space(s[skip_spaces(s, from)]),
    decreases s.len() - from,
{
    if from < s.len() && is_space(s[from]) {
        lemma_skip_spaces_range(s, from + 1);
    }
}

proof fn lemma_rskip_spaces_pin(s: Seq<char>, j: int, to: int)
    requires
        0 <= to <= j <= s.len(),
        forall|k: int| to <= k < j ==> is_space(s[k]),
    ensures
        rskip_spaces(s, j) == rskip_spaces(s, to),
    decreases j - to,
{
    if to < j {
        lemma_rskip_spaces_pin(s, j - 1, to);
    }
}

/// `s` without its surrounding spaces.
fn trim_str<'a>(s: &'a str) -> (r: &'a str)
    ensures
        r@ == spec_trim(s@),
{
    let len: usize = s.unicode_len();
    let mut a: usize = 0;
    loop
        invariant
            0 <= a <= len,
            len == s@.len(),
            forall|k: int| 0 <= k < a ==> is_space(s@[k]),
        ensures
            0 <= a <= len,
            forall|k: int| 0 <= k < a ==> is_space(s@[k]),
            a == len || !is_space(s@[a as int]),
        decreases len - a,
    {
        if a >= len {
            break;
        }
        let c = s.get_char(a);
        if c == ' ' || c == '\t' {
            a += 1;
        } else {
            break;
        }
    }
    proof {
        lemma_skip_spaces_pin(s@, 0, a as int);
    }
    let mut b: usize = len;
    loop
        invariant
            a <= b <= len,
            len == s@.len(),
            forall|k: int| b <= k < len ==> is_space(s@[k]),
        ensures
            a <= b <= len,
            forall|k: int| b <= k < len ==> is_space(s@[k]),
            b == a || !is_space(s@[b - 1]),
        decreases b,
    {
        if b <= a {
            break;
        }
        let c = s.get_char(b - 1);
        if c == ' ' || c == '\t' {
            b -= 1;
        } else {
            break;
        }
    }
    proof {
        if a == len {
            // everything is space: both sides give the empty sequence
            lemma_rskip_spaces_pin(s@, len as int, 0);
            assert(s@.subrange(a as int, b as int) =~= Seq::<char>::empty());
            if skip_spaces(s@, 0) <= rskip_spaces(s@, len as int) {
                assert(s@.subrange(skip_spaces(s@, 0), rskip_spaces(s@, len as int)) =~= Seq::<
                    char,
                >::empty());
            }
        } else {
            lemma_rskip_spaces_pin(s@, len as int, b as int);
            lemma_skip_spaces_range(s@, 0);
        }
    }
    s.substring_char(a, b)
}

/// Digits of `s` from `i` on, accumulated onto `acc`; nothing where a
/// non-digit appears.
pub open spec fn digits_val(s: Seq<char>, i: int, acc: int) -> Option<int>
    decreases s.len() - i,
{
    if i < 0 || i >= s.len() {
        Some(acc)
    } else if '0' <= s[i] <= '9' {
        digits_val(s, i + 1, acc * 10 + (s[i] as int - 48))
    } else {
        None
    }
}

proof fn lemma_digits_val_lower(s: Seq<char>, i: int, acc: int)
    requires
        0 <= acc,
        digits_val(s, i, acc) is Some,
    ensures
        digits_val(s, i, acc).unwrap() >= acc,
    decreases s.len() - i,
{
    if 0 <= i < s.len() && '0' <= s[i] <= '9' {
        let d = s[i] as int - 48;
        assert(acc * 10 >= acc) by (nonlinear_arith)
            requires
                acc >= 0,
        ;
        lemma_digits_val_lower(s, i + 1, acc * 10 + d);
    }
}

/// The number a run of digits spells, where `body` is all digits and the
/// value fits an unsigned 64-bit word.
pub open spec fn spec_parse_digits(body: Seq<char>) -> Option<u64> {
    if body.len() == 0 {
        None
    } else {
        match digits_val(body, 0, 0) {
            None => None,
            Some(n) => if n <= u64::MAX {
                Some(n as u64)
            } else {
                None
            },
        }
    }
}

/// The unsigned 64-bit number `s` spells: an optional plus sign, then at
/// least one digit, with a value in range.
pub open spec fn spec_parse_u64(s: Seq<char>) -> Option<u64> {
    if s.len() > 0 && s[0] == '+' {
        spec_parse_digits(s.drop_first())
    } else {
        spec_parse_digits(s)
    }
}

/// Reads an unsigned decimal number, rejecting out-of-range values.
fn parse_u64_str(s: &str) -> (r: Option<u64>)
    ensures
        r == spec_parse_u64(s@),
{
    let len: usize = s.unicode_len();
    let start: usize = if len > 0 && s.get_char(0) == '+' {
        1
    } else {
        0
    };
    let ghost body = if s@.len() > 0 && s@[0] == '+' {
        s@.drop_first()
    } else {
        s@
    };
    proof {
        assert(body =~= s@.subrange(start as int, len as int));
    }
    if start >= len {
        return None;
    }
    let mut acc: u64 = 0;
    let mut i: usize = start;
    while i < len
        invariant
            start <= i <= len,
            len == s@.len(),
            body == s@.subrange(start as int, len as int),
            spec_parse_u64(s@) == spec_parse_digits(body),
            digits_val(body, 0, 0) == digits_val(body, i - start, acc as int),
        decreases len - i,
    {
        let c = s.get_char(i);
        if !('0' <= c && c <= '9') {
            proof {
                assert(body[i - start] == c);
            }
            return None;
        }
        let d: u64 = (c as u32 as u64) - 48;
        proof {
            assert(body[i - start] == c);
            assert(d == c as int - 48);
        }
        match acc.checked_mul(10) {
            Some(m) => match m.checked_add(d) {
                Some(next) => {
                    acc = next;
                },
                None => {
                    proof {
                        if digits_val(body, i - start + 1, acc as int * 10 + d as int) is Some {
                            lemma_digits_val_lower(
                                body,
                                i - start + 1,
                                acc as int * 10 + d as int,
                            );
                        }
                    }
                    return None;
                },
            },
            None => {
                proof {
                    assert(acc as int * 10 + d as int >= acc as int * 10);
                    if digits_val(body, i - start + 1, acc as int * 10 + d as int) is Some {
                        lemma_digits_val_lower(body, i - start + 1, acc as int * 10 + d as int);
                    }
                }
                return None;
            },
        }
        i += 1;
    }
    Some(acc)
}

/// The age given by the first `max-age` directive of a Cache-Control
/// value, reading the comma-separated directives left to right; nothing
/// where no directive matches or the first matching one does not parse.
pub open spec fn spec_parse_max_age_from(s: Seq<char>, i: int) -> Option<u64>
    decreases s.len() - i,
{
    let j = match find_from(s, ',', i) {
        Some(j) => j,
        None => s.len() as int,
    };
    if 0 <= i <= j <= s.len() {
        let seg = spec_trim(s.subrange(i, j));
        if starts_with(seg, "max-age="@) {
            spec_parse_u64(seg.skip(8))
        } else if j < s.len() {
            spec_parse_max_age_from(s, j + 1)
        } else {
            None
        }
    } else {
        None
    }
}

/// The age given by the first `max-age` directive, if any.
pub open spec fn spec_parse_max_age(s: Seq<char>) -> Option<u64> {
    spec_parse_max_age_from(s, 0)
}

/// Whether `s` begins with the characters of `max-age=`.
fn starts_with_max_age(s: &str) -> (r: bool)
    ensures
        r == starts_with(s@, "max-age="@),
{
    let p = "max-age=";
    proof {
        reveal_strlit("max-age=");
    }
    let len: usize = s.unicode_len();
    if len < 8 {
        return false;
    }
    let mut k: usize = 0;
    while k < 8
        invariant
            0 <= k <= 8,
            len == s@.len(),
            len >= 8,
            p@ == "max-age="@,
            p@.len() == 8,
            forall|t: int| 0 <= t < k ==> s@[t] == p@[t],
        decreases 8 - k,
    {
        if s.get_char(k) != p.get_char(k) {
            proof {
                assert(s@.subrange(0, 8)[k as int] != p@[k as int]);
            }
            return false;
        }
        k += 1;
    }
    proof {
        assert(s@.subrange(0, 8) =~= p@);
    }
    true
}

/// Finds the first `max-age` directive and reads its value.
pub fn parse_max_age(cache_control: &str) -> (r: Option<u64>)
    ensures
        r == spec_parse_max_age(cache_control@),
{
    let len: usize = cache_control.unicode_len();
    let mut i: usize = 0;
    loop
        invariant
            0 <= i <= len,
            len == cache_control@.len(),
            spec_parse_max_age(cache_control@) == spec_parse_max_age_from(
                cache_control@,
                i as int,
            ),
        decreases len - i,
    {
        let j: usize = match find_char_from(cache_control, ',', i) {
            Some(j) => {
                proof {
                    lemma_find_from(cache_control@, ',', i as int);
                }
                j
            },
            None => len,
        };
        let seg_raw = cache_control.substring_char(i, j);
        let seg = trim_str(seg_raw);
        let seg_len: usize = seg.unicode_len();
        if starts_with_max_age(seg) {
            proof {
                reveal_strlit("max-age=");
            }
            let suffix = seg.substring_char(8, seg_len);
            proof {
                assert(suffix@ =~= seg@.skip(8));
            }
            return parse_u64_str(suffix);
        } else if j < len {
            i = j + 1;
        } else {
            return None;
        }
    }
}

/// The age to use for a fetch response: the parsed directive, or the
/// default where the header or the directive is missing or unreadable.
pub open spec fn spec_effective_max_age(cc: Option<Seq<char>>) -> u64 {
    match cc {
        None => DEFAULT_MAX_AGE_SECS,
        Some(s) => match spec_parse_max_age(s) {
            Some(v) => v,
            None => DEFAULT_MAX_AGE_SECS,
        },
    }
}

/// The refresh deadline for a snapshot fetched at `now`: the effective
/// age shortened by the safety buffer, added without wrapping.
pub open spec fn spec_refresh_deadline(now: u64, cc: Option<Seq<char>>) -> int {
    let ma = spec_effective_max_age(cc) as int;
    let gap = if ma >= KEYS_REFRESH_BUFFER_SECS {
        ma - KEYS_REFRESH_BUFFER_SECS
    } else {
        0
    };
    if now + gap <= u64::MAX {
        now + gap
    } else {
        u64::MAX as int
    }
}

/// Computes the refresh deadline from the response's Cache-Control value.
pub fn refresh_deadline(now: u64, cache_control: Option<&str>) -> (r: u64)
    ensures
        r == spec_refresh_deadline(
            now,
            match cache_control {
                Some(s) => Some(s@),
                None => None,
            },
        ),
{
    let max_age: u64 = match cache_control {
        None => DEFAULT_MAX_AGE_SECS,
        Some(s) => match parse_max_age(s) {
            Some(v) => v,
            None => DEFAULT_MAX_AGE_SECS,
        },
    };
    let gap: u64 = max_age.saturating_sub(KEYS_REFRESH_BUFFER_SECS);
    now.saturating_add(gap)
}

/// Cache freshness law: a response advertising an age of 600 seconds
/// installs a deadline 300 seconds after the fetch, the advertised age
/// shortened by the safety buffer.
pub proof fn lemma_cache_freshness(now: u64, cc: Seq<char>)
    requires
        spec_parse_max_age(cc) == Some(600u64),
        now + 300 <= u64::MAX,
    ensures
        spec_refresh_deadline(now, Some(cc)) == now + 300,
{
}

} // verus!
