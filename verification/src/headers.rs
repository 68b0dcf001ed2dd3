//! Reading the declared content length: a non-negative decimal integer,
//! used only as an early-rejection hint.

use vstd::prelude::*;
use vstd::arithmetic::div_mod::lemma_fundamental_div_mod;
use vstd::string::StrSliceExecFns;

verus! {

/// A decimal digit, by code point.
pub open spec fn is_ascii_digit(c: char) -> bool {
    48 <= c as int && c as int <= 57
}

/// The value of one decimal digit.
pub open spec fn digit_value(c: char) -> nat {
    (c as int - 48) as nat
}

/// Every character is a decimal digit.
pub open spec fn all_digits(s: Seq<char>) -> bool {
    forall|i: int| 0 <= i < s.len() ==> is_ascii_digit(s[i])
}

/// The declared length's digits: what is left after an optional leading plus
/// sign.
pub open spec fn digits_part(s: Seq<char>) -> Seq<char> {
    if s.len() > 0 && s[0] == '+' {
        s.skip(1)
    } else {
        s
    }
}

/// The number a digit string denotes, most significant digit first.
pub open spec fn digits_value(s: Seq<char>) -> nat
    decreases s.len(),
{
    if s.len() == 0 {
        0
    } else {
        digits_value(s.drop_last()) * 10 + digit_value(s.last())
    }
}

/// A digit string denotes at least what any prefix of it denotes.
proof fn lemma_digits_value_prefix_le(s: Seq<char>, k: int)
    requires
        0 <= k <= s.len(),
    ensures
        digits_value(s.take(k)) <= digits_value(s),
    decreases s.len() - k,
{
    if k == s.len() {
        assert(s.take(k) =~= s);
    } else {
        assert(s.take(k + 1).drop_last() =~= s.take(k));
        assert(s.take(k + 1).last() == s[k]);
        assert(digits_value(s.take(k)) <= digits_value(s.take(k)) * 10 + digit_value(s[k]));
        lemma_digits_value_prefix_le(s, k + 1);
    }
}

/// Parse a declared content length: an optional leading plus sign, then one
/// or more decimal digits denoting a number that fits the machine's size
/// type; anything else reads as no declared length.
pub fn parse_content_length(s: &str) -> (r: Option<usize>)
    ensures
        match r {
            Some(n) => digits_part(s@).len() > 0 && all_digits(digits_part(s@)) && n
                == digits_value(digits_part(s@)),
            None => digits_part(s@).len() == 0 || !all_digits(digits_part(s@)) || digits_value(
                digits_part(s@),
            ) > usize::MAX,
        },
{
    let len = s.unicode_len();
    if len == 0 {
        return None;
    }
    let first = s.get_char(0);
    let mut i: usize = if first == '+' {
        1
    } else {
        0
    };
    let ghost start = i as int;
    let ghost dp = digits_part(s@);
    proof {
        assert(dp =~= s@.skip(start));
    }
    if i == len {
        return None;
    }
    let mut n: usize = 0;
    while i < len
        invariant
            s@.len() == len,
            dp == digits_part(s@),
            dp.len() == len - start,
            forall|j: int| 0 <= j < dp.len() ==> dp[j] == s@[j + start],
            0 <= start <= i as int <= len,
            forall|j: int| 0 <= j < i as int - start ==> is_ascii_digit(dp[j]),
            n == digits_value(dp.take(i as int - start)),
        decreases len - i,
    {
        let c = s.get_char(i);
        proof {
            assert(dp[i as int - start] == s@[i as int]);
        }
        let u = c as u32;
        if u < 48 || u > 57 {
            proof {
                assert(!is_ascii_digit(dp[i as int - start]));
            }
            return None;
        }
        let d = (u - 48) as usize;
        proof {
            assert(dp.take(i as int - start + 1).drop_last() =~= dp.take(i as int - start));
            assert(dp.take(i as int - start + 1).last() == dp[i as int - start]);
        }
        if n > (usize::MAX - d) / 10 {
            proof {
                lemma_fundamental_div_mod((usize::MAX - d) as int, 10);
                assert(n * 10 + d > usize::MAX);
                assert(digits_value(dp.take(i as int - start + 1)) > usize::MAX);
                lemma_digits_value_prefix_le(dp, i as int - start + 1);
            }
            return None;
        }
        n = n * 10 + d;
        i = i + 1;
    }
    proof {
        assert(dp.take(len - start) =~= dp);
    }
    Some(n)
}

} // verus!
