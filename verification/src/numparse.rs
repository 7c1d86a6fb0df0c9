//! A verified decimal parser for `u16` observation counts, specified
//! against the value of the digit string.

use vstd::prelude::*;
use vstd::string::StrSliceExecFns;

verus! {

/// `c` is a decimal digit.
pub open spec fn is_digit(c: char) -> bool {
    48 <= c as int <= 57
}

/// The numeric value of a digit character.
pub open spec fn digit_of(c: char) -> int {
    c as int - 48
}

/// Every character is a decimal digit.
pub open spec fn all_digits(s: Seq<char>) -> bool {
    forall|i: int| 0 <= i < s.len() ==> is_digit(#[trigger] s[i])
}

/// The value of a digit string, most significant digit first.
pub open spec fn dec_value(s: Seq<char>) -> int
    decreases s.len(),
{
    if s.len() == 0 {
        0
    } else {
        dec_value(s.drop_last()) * 10 + digit_of(s.last())
    }
}

/// The digit part of an integer literal: everything after one
/// optional leading `+`.
pub open spec fn digit_part(s: Seq<char>) -> Seq<char> {
    if s.len() > 0 && s[0] == '+' {
        s.drop_first()
    } else {
        s
    }
}

/// `s` is a decimal string accepted for a `u16`: an optional `+`,
/// then at least one digit, with a value of at most 65535.
pub open spec fn valid_u16_str(s: Seq<char>) -> bool {
    let d = digit_part(s);
    d.len() > 0 && all_digits(d) && dec_value(d) <= 65535
}

/// The value of an accepted decimal string.
pub open spec fn u16_str_value(s: Seq<char>) -> int {
    dec_value(digit_part(s))
}

proof fn lemma_dec_value_nonneg(s: Seq<char>)
    requires
        all_digits(s),
    ensures
        dec_value(s) >= 0,
    decreases s.len(),
{
    if s.len() > 0 {
        assert forall|i: int| 0 <= i < s.drop_last().len() implies is_digit(
            #[trigger] s.drop_last()[i],
        ) by {
            assert(s.drop_last()[i] == s[i]);
        }
        lemma_dec_value_nonneg(s.drop_last());
    }
}

proof fn lemma_dec_value_prefix(s: Seq<char>, i: int)
    requires
        all_digits(s),
        0 <= i <= s.len(),
    ensures
        dec_value(s.take(i)) <= dec_value(s),
    decreases s.len() - i,
{
    if i < s.len() {
        assert(s.take(i + 1).drop_last() =~= s.take(i));
        assert(s.take(i + 1).last() == s[i]);
        assert forall|j: int| 0 <= j < s.take(i).len() implies is_digit(
            #[trigger] s.take(i)[j],
        ) by {
            assert(s.take(i)[j] == s[j]);
        }
        lemma_dec_value_nonneg(s.take(i));
        assert(dec_value(s.take(i + 1)) == dec_value(s.take(i)) * 10 + digit_of(s[i]));
        lemma_dec_value_prefix(s, i + 1);
    } else {
        assert(s.take(i) =~= s);
    }
}

/// Parses a decimal `u16`: an optional `+`, then at least one digit,
/// rejecting values above 65535 and any other character.
pub fn parse_u16(s: &str) -> (r: Option<u16>)
    ensures
        (r is Some) == valid_u16_str(s@),
        r is Some ==> r->0 == u16_str_value(s@),
{
    let n = s.unicode_len();
    let mut start: usize = 0;
    if n > 0 {
        let c0 = s.get_char(0);
        if c0 as u32 == 43 {
            start = 1;
        }
    }
    proof {
        if start == 1 {
            assert(s@.drop_first() =~= s@.subrange(1, n as int));
        } else {
            assert(s@ =~= s@.subrange(0, n as int));
        }
        assert(digit_part(s@) == s@.subrange(start as int, n as int));
    }
    if start >= n {
        return None;
    }
    let mut acc: u32 = 0;
    let mut i: usize = start;
    while i < n
        invariant
            n == s@.len(),
            start < n,
            start <= i <= n,
            digit_part(s@) == s@.subrange(start as int, n as int),
            forall|j: int| start <= j < i ==> is_digit(#[trigger] s@[j]),
            acc == dec_value(s@.subrange(start as int, i as int)),
            acc <= 65535,
        decreases n - i,
    {
        let c = s.get_char(i);
        let cu = c as u32;
        if cu < 48 || cu > 57 {
            proof {
                assert(digit_part(s@)[i - start] == s@[i as int]);
            }
            return None;
        }
        let d = cu - 48;
        let acc2 = acc * 10 + d;
        proof {
            assert(s@.subrange(start as int, i + 1).drop_last() =~= s@.subrange(
                start as int,
                i as int,
            ));
            assert(s@.subrange(start as int, i + 1).last() == s@[i as int]);
            assert(dec_value(s@.subrange(start as int, i + 1)) == acc * 10 + d);
        }
        if acc2 > 65535 {
            proof {
                let dp = digit_part(s@);
                if all_digits(dp) {
                    assert(dp.take(i + 1 - start) =~= s@.subrange(start as int, i + 1));
                    lemma_dec_value_prefix(dp, i + 1 - start);
                }
            }
            return None;
        }
        acc = acc2;
        i += 1;
    }
    proof {
        let dp = digit_part(s@);
        assert forall|k: int| 0 <= k < dp.len() implies is_digit(#[trigger] dp[k]) by {
            assert(dp[k] == s@[start + k]);
        }
        assert(s@.subrange(start as int, n as int) == dp);
    }
    Some(acc as u16)
}

} // verus!
