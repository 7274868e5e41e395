use vstd::prelude::*;

verus! {

/// `c` is a decimal digit character.
pub open spec fn is_digit(c: char) -> bool {
    48 <= c as u32 && c as u32 <= 57
}

/// The numeric value of a decimal digit character.
pub open spec fn digit_value(c: char) -> int {
    c as u32 - 48
}

/// Every character of `s` is a decimal digit.
pub open spec fn all_digits(s: Seq<char>) -> bool {
    forall|i: int| 0 <= i < s.len() ==> is_digit(#[trigger] s[i])
}

/// The number denoted by a sequence of digit characters, most
/// significant digit first.
pub open spec fn digits_value(s: Seq<char>) -> int
    decreases s.len(),
{
    if s.len() == 0 {
        0
    } else {
        digits_value(s.drop_last()) * 10 + digit_value(s.last())
    }
}

/// The characters of `s` after an optional leading sign.
pub open spec fn magnitude_part(s: Seq<char>) -> Seq<char> {
    if s.len() > 0 && (s[0] == '-' || s[0] == '+') {
        s.drop_first()
    } else {
        s
    }
}

/// `-1` for a leading minus sign, `1` otherwise.
pub open spec fn sign_of(s: Seq<char>) -> int {
    if s.len() > 0 && s[0] == '-' {
        -1
    } else {
        1
    }
}

/// `s` is a well-formed signed decimal literal: an optional `+` or `-`
/// sign followed by one or more digits.
pub open spec fn is_integer_literal(s: Seq<char>) -> bool {
    magnitude_part(s).len() > 0 && all_digits(magnitude_part(s))
}

/// The integer denoted by a well-formed signed decimal literal.
pub open spec fn integer_value(s: Seq<char>) -> int {
    sign_of(s) * digits_value(magnitude_part(s))
}

/// `s` parses as an `i32`: a well-formed literal whose value is in range.
pub open spec fn parses_to_i32(s: Seq<char>) -> bool {
    is_integer_literal(s) && i32::MIN <= integer_value(s) <= i32::MAX
}

/// A sequence of digit characters denotes a non-negative number.
pub proof fn lemma_digits_value_nonneg(s: Seq<char>)
    requires
        all_digits(s),
    ensures
        digits_value(s) >= 0,
    decreases s.len(),
{
    if s.len() > 0 {
        assert forall|i: int| 0 <= i < s.drop_last().len() implies is_digit(
            #[trigger] s.drop_last()[i],
        ) by {
            assert(s.drop_last()[i] == s[i]);
        }
        lemma_digits_value_nonneg(s.drop_last());
    }
}

/// Dropping trailing digits never increases the denoted number.
pub proof fn lemma_digits_value_prefix(s: Seq<char>, k: int)
    requires
        all_digits(s),
        0 <= k <= s.len(),
    ensures
        digits_value(s.subrange(0, k)) <= digits_value(s),
    decreases s.len(),
{
    if k == s.len() {
        assert(s.subrange(0, k) =~= s);
    } else {
        assert forall|i: int| 0 <= i < s.drop_last().len() implies is_digit(
            #[trigger] s.drop_last()[i],
        ) by {
            assert(s.drop_last()[i] == s[i]);
        }
        lemma_digits_value_prefix(s.drop_last(), k);
        assert(s.drop_last().subrange(0, k) =~= s.subrange(0, k));
        lemma_digits_value_nonneg(s.drop_last());
        assert(is_digit(s.last()));
    }
}

/// Parse a signed decimal `i32`.
///
/// Accepts exactly the strings admitted by `parses_to_i32`: an
/// optional `+` or `-` sign followed by one or more decimal digits,
/// denoting a value within the `i32` range. Everything else, the empty
/// string and out-of-range literals included, is rejected.
pub fn parse_i32(s: &str) -> (r: Option<i32>)
    ensures
        r is Some <==> parses_to_i32(s@),
        r matches Some(v) ==> v == integer_value(s@),
{
    let n = s.unicode_len();
    if n == 0 {
        return None;
    }
    let first = s.get_char(0);
    let negative = first == '-';
    let has_sign = negative || first == '+';
    let start: usize = if has_sign {
        1
    } else {
        0
    };
    let ghost mag = magnitude_part(s@);
    proof {
        assert(mag =~= s@.subrange(start as int, n as int));
    }
    if start == n {
        // a bare sign, or nothing after it: no digits at all
        return None;
    }
    let mut acc: u64 = 0;
    let mut i: usize = start;
    while i < n
        invariant
            start <= i <= n,
            n == s@.len(),
            start <= 1,
            mag == magnitude_part(s@),
            mag =~= s@.subrange(start as int, n as int),
            all_digits(s@.subrange(start as int, i as int)),
            acc == digits_value(s@.subrange(start as int, i as int)),
            acc <= 0x8000_0000,
        decreases n - i,
    {
        let c = s.get_char(i);
        let u = c as u32;
        if u < 48 || u > 57 {
            proof {
                assert(mag[i - start] == s@[i as int]);
                assert(!is_digit(mag[i - start]));
            }
            return None;
        }
        let d = (u - 48) as u64;
        acc = acc * 10 + d;
        proof {
            let prefix = s@.subrange(start as int, i as int);
            let extended = s@.subrange(start as int, i + 1);
            assert(extended.drop_last() =~= prefix);
            assert(extended.last() == s@[i as int]);
            assert forall|j: int| 0 <= j < extended.len() implies is_digit(
                #[trigger] extended[j],
            ) by {
                if j < extended.len() - 1 {
                    assert(extended[j] == prefix[j]);
                }
            }
        }
        i = i + 1;
        if acc > 0x8000_0000 {
            proof {
                let prefix = s@.subrange(start as int, i as int);
                if all_digits(mag) {
                    assert(prefix =~= mag.subrange(0, i - start));
                    lemma_digits_value_prefix(mag, i - start);
                    // the magnitude alone already exceeds the i32 range,
                    // whichever sign the literal carries
                    assert(digits_value(mag) > 0x8000_0000);
                    assert(!parses_to_i32(s@));
                }
            }
            return None;
        }
    }
    proof {
        assert(s@.subrange(start as int, i as int) =~= mag);
        assert(mag.len() > 0);
    }
    if negative {
        proof {
            assert(s@[0] == '-');
            assert(sign_of(s@) == -1);
        }
        Some((0 - acc as i64) as i32)
    } else {
        if acc > 0x7fff_ffff {
            proof {
                assert(sign_of(s@) == 1);
                assert(integer_value(s@) > i32::MAX);
            }
            return None;
        }
        proof {
            assert(sign_of(s@) == 1);
        }
        Some(acc as i32)
    }
}

} // verus!
