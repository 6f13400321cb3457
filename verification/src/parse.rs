//! Parsing of user-supplied clock-offset text.
//!
//! An offset is a signed integer in decimal notation: an optional leading
//! `+` or `-`, then at least one digit, and the value must fit in an `i32`.
//! Anything else is rejected.

use vstd::prelude::*;

verus! {

/// Whether `c` is a decimal digit.
pub open spec fn is_digit(c: char) -> bool {
    '0' as int <= c as int <= '9' as int
}

/// The value of a decimal digit character.
pub open spec fn digit_value(c: char) -> int {
    c as int - '0' as int
}

/// Whether every character of `s` is a decimal digit.
pub open spec fn all_digits(s: Seq<char>) -> bool {
    forall|i: int| 0 <= i < s.len() ==> is_digit(#[trigger] s[i])
}

/// The value of a sequence of decimal digits, most significant first.
pub open spec fn digits_value(s: Seq<char>) -> int
    decreases s.len(),
{
    if s.len() == 0 {
        0
    } else {
        digits_value(s.drop_last()) * 10 + digit_value(s.last())
    }
}

/// Whether `s` starts with an explicit sign character.
pub open spec fn has_sign(s: Seq<char>) -> bool {
    s.len() > 0 && (s[0] == '-' || s[0] == '+')
}

/// The digit portion of `s`: everything after an optional sign.
pub open spec fn digit_part(s: Seq<char>) -> Seq<char> {
    if has_sign(s) {
        s.subrange(1, s.len() as int)
    } else {
        s
    }
}

/// The signed value that `s` denotes, assuming it is well formed.
pub open spec fn offset_value(s: Seq<char>) -> int {
    if s.len() > 0 && s[0] == '-' {
        -digits_value(digit_part(s))
    } else {
        digits_value(digit_part(s))
    }
}

/// Whether `s` is a well-formed offset: optional sign, at least one digit,
/// nothing but digits after the sign, and a value that fits in an `i32`.
pub open spec fn is_offset_text(s: Seq<char>) -> bool {
    &&& digit_part(s).len() > 0
    &&& all_digits(digit_part(s))
    &&& i32::MIN <= offset_value(s) <= i32::MAX
}

/// A digit sequence has a non-negative value.
proof fn lemma_digits_value_nonneg(s: Seq<char>)
    requires
        all_digits(s),
    ensures
        digits_value(s) >= 0,
    decreases s.len(),
{
    if s.len() > 0 {
        assert(all_digits(s.drop_last()));
        lemma_digits_value_nonneg(s.drop_last());
    }
}

/// Extending a digit sequence on the right never decreases its value.
proof fn lemma_digits_value_prefix(s: Seq<char>, i: int)
    requires
        all_digits(s),
        0 <= i <= s.len(),
    ensures
        digits_value(s) >= digits_value(s.subrange(0, i)),
    decreases s.len() - i,
{
    if i < s.len() {
        lemma_digits_value_prefix(s, i + 1);
        let p = s.subrange(0, i);
        let q = s.subrange(0, i + 1);
        assert(q.drop_last() =~= p);
        assert(all_digits(p));
        lemma_digits_value_nonneg(p);
        assert(digits_value(q) == digits_value(p) * 10 + digit_value(q.last()));
        assert(digits_value(q) >= digits_value(p));
    } else {
        assert(s.subrange(0, i) =~= s);
    }
}

/// Parse `s` as a signed clock offset.
///
/// Returns `Some` exactly on well-formed offset text, with the denoted
/// value; returns `None` on anything else, including values outside the
/// `i32` range.
pub fn parse_offset(s: &str) -> (r: Option<i32>)
    ensures
        r is Some <==> is_offset_text(s@),
        r is Some ==> r.unwrap() as int == offset_value(s@),
{
    let n = s.unicode_len();
    let mut start: usize = 0;
    let mut negative = false;
    if n > 0 {
        let c0 = s.get_char(0);
        if c0 == '-' {
            negative = true;
            start = 1;
        } else if c0 == '+' {
            start = 1;
        }
    }
    if start >= n {
        // no digits at all
        return None;
    }
    let ghost dp = digit_part(s@);
    proof {
        assert(dp =~= s@.subrange(start as int, n as int));
    }
    let mut acc: i64 = 0;
    let mut i: usize = start;
    while i < n
        invariant
            start <= i <= n,
            n == s@.len(),
            start < n,
            dp == digit_part(s@),
            dp =~= s@.subrange(start as int, n as int),
            all_digits(s@.subrange(start as int, i as int)),
            acc == digits_value(s@.subrange(start as int, i as int)),
            0 <= acc <= 0x8000_0000,
        decreases n - i,
    {
        let c = s.get_char(i);
        let code = c as u32;
        if code < 48 || code > 57 {
            proof {
                assert(dp[i - start] == s@[i as int]);
                assert(!is_digit(dp[i - start]));
            }
            return None;
        }
        let d = (code - 48) as i64;
        proof {
            let p = s@.subrange(start as int, i as int);
            let q = s@.subrange(start as int, i + 1);
            assert(q.drop_last() =~= p);
            assert(q.last() == s@[i as int]);
            assert(digit_value(s@[i as int]) == d);
        }
        acc = acc * 10 + d;
        i = i + 1;
        if acc > 0x8000_0000 {
            proof {
                if all_digits(dp) {
                    lemma_digits_value_prefix(dp, i - start);
                    assert(dp.subrange(0, i - start) =~= s@.subrange(
                        start as int,
                        i as int,
                    ));
                    assert(digits_value(dp) >= acc);
                    if s@[0] == '-' {
                        assert(offset_value(s@) <= -acc);
                        assert(offset_value(s@) < i32::MIN);
                    } else {
                        assert(offset_value(s@) >= acc);
                        assert(offset_value(s@) > i32::MAX);
                    }
                }
            }
            return None;
        }
    }
    proof {
        assert(s@.subrange(start as int, i as int) =~= dp);
        assert(acc == digits_value(dp));
        lemma_digits_value_nonneg(dp);
        if negative {
            assert(s@[0] == '-');
        } else {
            assert(!(s@.len() > 0 && s@[0] == '-'));
        }
    }
    if negative {
        let v = -acc;
        proof {
            assert(offset_value(s@) == -digits_value(dp));
            assert(i32::MIN <= v <= 0);
        }
        Some(v as i32)
    } else {
        if acc > 0x7fff_ffff {
            proof {
                assert(offset_value(s@) == acc);
                assert(offset_value(s@) > i32::MAX);
            }
            return None;
        }
        Some(acc as i32)
    }
}

} // verus!
