//! Reading decimal integers from text, by the rules of Rust's
//! `from_str` for integer types: an optional `+` (or, for signed types,
//! `-`) followed by at least one ASCII digit, and nothing else.

use vstd::prelude::*;

verus! {

pub open spec fn is_digit(c: char) -> bool {
    '0' <= c <= '9'
}

pub open spec fn all_digits(s: Seq<char>) -> bool {
    forall|i: int| 0 <= i < s.len() ==> is_digit(#[trigger] s[i])
}

/// The value of a string of decimal digits.
pub open spec fn digits_value(s: Seq<char>) -> nat
    decreases s.len(),
{
    if s.len() == 0 {
        0
    } else {
        digits_value(s.drop_last()) * 10 + (s.last() as nat - '0' as nat) as nat
    }
}

/// The sign (`true`: negative) and the digit part of a number text, when
/// the text has the shape of one; a lone sign has none.
pub open spec fn sign_and_digits(s: Seq<char>, signed: bool) -> Option<(bool, Seq<char>)> {
    if s.len() == 0 {
        None
    } else if (s[0] == '+' || s[0] == '-') && s.len() == 1 {
        None
    } else if s[0] == '+' {
        Some((false, s.drop_first()))
    } else if s[0] == '-' && signed {
        Some((true, s.drop_first()))
    } else {
        Some((false, s))
    }
}

/// The integer a text denotes, before any range check.
pub open spec fn decimal(s: Seq<char>, signed: bool) -> Option<int> {
    match sign_and_digits(s, signed) {
        None => None,
        Some((negative, d)) => if all_digits(d) {
            Some(
                if negative {
                    -digits_value(d)
                } else {
                    digits_value(d) as int
                },
            )
        } else {
            None
        },
    }
}

/// The integer a text denotes, if it lies within `[lo, hi]`.
pub open spec fn decimal_within(s: Seq<char>, signed: bool, lo: int, hi: int) -> Option<int> {
    match decimal(s, signed) {
        Some(v) => if lo <= v <= hi {
            Some(v)
        } else {
            None
        },
        None => None,
    }
}

/// The value of the digits from position `start` on, if they are all
/// digits and the value fits in a `u64`.
fn digits_from(s: &str, start: usize) -> (r: Option<u64>)
    requires
        start <= s@.len(),
    ensures
        r is Some <==> all_digits(s@.skip(start as int)) && digits_value(s@.skip(start as int))
            <= u64::MAX,
        r matches Some(m) ==> m == digits_value(s@.skip(start as int)),
{
    let n = s.unicode_len();
    let mut i = start;
    let mut acc: u64 = 0;
    assert(s@.subrange(start as int, start as int) =~= Seq::<char>::empty());
    while i < n
        invariant
            n == s@.len(),
            start <= i <= n,
            all_digits(s@.subrange(start as int, i as int)),
            acc == digits_value(s@.subrange(start as int, i as int)),
        decreases n - i,
    {
        let c = s.get_char(i);
        let ghost before = s@.subrange(start as int, i as int);
        let ghost after = s@.subrange(start as int, i + 1);
        assert(after.drop_last() =~= before);
        assert(after.last() == c);
        if !('0' <= c && c <= '9') {
            assert(s@.skip(start as int)[i - start] == c);
            return None;
        }
        let d = (c as u32 - '0' as u32) as u64;
        let next = match acc.checked_mul(10) {
            Some(t) => t.checked_add(d),
            None => None,
        };
        match next {
            Some(v) => {
                acc = v;
            },
            None => {
                assert(digits_value(after) > u64::MAX);
                proof {
                    if all_digits(s@.skip(start as int)) {
                        lemma_digits_value_grows(s@.skip(start as int), (i + 1 - start) as int);
                        assert(s@.skip(start as int).take((i + 1 - start) as int) =~= after);
                    }
                }
                return None;
            },
        }
        assert(all_digits(after)) by {
            assert forall|j: int| 0 <= j < after.len() implies is_digit(#[trigger] after[j]) by {
                if j < after.len() - 1 {
                    assert(after[j] == before[j]);
                }
            }
        }
        i = i + 1;
    }
    assert(s@.subrange(start as int, n as int) =~= s@.skip(start as int));
    Some(acc)
}

/// An all-digit text is worth at least as much as any of its prefixes.
proof fn lemma_digits_value_grows(s: Seq<char>, k: int)
    requires
        0 <= k <= s.len(),
        all_digits(s),
    ensures
        digits_value(s.take(k)) <= digits_value(s),
    decreases s.len() - k,
{
    if k < s.len() {
        lemma_digits_value_grows(s, k + 1);
        let t = s.take(k + 1);
        assert(t.drop_last() =~= s.take(k));
        assert(is_digit(s[k]));
        assert(t.last() == s[k]);
    } else {
        assert(s.take(k) =~= s);
    }
}

/// Where the digits start, and whether the number is negative.
fn split_sign(s: &str, signed: bool) -> (r: Option<(bool, usize)>)
    ensures
        r is Some <==> sign_and_digits(s@, signed) is Some,
        r matches Some((neg, start)) ==> ({
            let (n2, d) = sign_and_digits(s@, signed)->Some_0;
            &&& neg == n2
            &&& start <= s@.len()
            &&& d == s@.skip(start as int)
        }),
{
    let n = s.unicode_len();
    if n == 0 {
        return None;
    }
    let c = s.get_char(0);
    if (c == '+' || c == '-') && n == 1 {
        return None;
    }
    if c == '+' {
        assert(s@.drop_first() =~= s@.skip(1));
        Some((false, 1))
    } else if c == '-' && signed {
        assert(s@.drop_first() =~= s@.skip(1));
        Some((true, 1))
    } else {
        assert(s@ =~= s@.skip(0));
        Some((false, 0))
    }
}

/// Reads an `i64` as `str::parse::<i64>` does.
pub fn parse_i64(s: &str) -> (r: Option<i64>)
    ensures
        r is Some <==> decimal_within(s@, true, i64::MIN as int, i64::MAX as int) is Some,
        r matches Some(v) ==> decimal_within(s@, true, i64::MIN as int, i64::MAX as int) == Some(
            v as int,
        ),
{
    let (negative, start) = match split_sign(s, true) {
        Some(p) => p,
        None => {
            return None;
        },
    };
    let m = match digits_from(s, start) {
        Some(m) => m,
        None => {
            return None;
        },
    };
    if negative {
        if m <= 0x8000_0000_0000_0000 {
            if m == 0x8000_0000_0000_0000 {
                Some(i64::MIN)
            } else {
                Some(-(m as i64))
            }
        } else {
            None
        }
    } else if m <= 0x7fff_ffff_ffff_ffff {
        Some(m as i64)
    } else {
        None
    }
}

/// Reads a `u16` as `str::parse::<u16>` does.
pub fn parse_u16(s: &str) -> (r: Option<u16>)
    ensures
        r is Some <==> decimal_within(s@, false, 0, u16::MAX as int) is Some,
        r matches Some(v) ==> decimal_within(s@, false, 0, u16::MAX as int) == Some(v as int),
{
    let (negative, start) = match split_sign(s, false) {
        Some(p) => p,
        None => {
            return None;
        },
    };
    let m = match digits_from(s, start) {
        Some(m) => m,
        None => {
            return None;
        },
    };
    if m <= 0xffff {
        Some(m as u16)
    } else {
        None
    }
}

} // verus!
