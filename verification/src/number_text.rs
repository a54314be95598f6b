use vstd::prelude::*;

verus! {

/// A decimal digit.
pub open spec fn is_decimal_digit(c: char) -> bool {
    '0' <= c && c <= '9'
}

/// Every character of `text` is a decimal digit.
pub open spec fn all_digits(text: Seq<char>) -> bool {
    forall|i: int| 0 <= i < text.len() ==> is_decimal_digit(#[trigger] text[i])
}

/// The number the decimal digits `digits` spell.
pub open spec fn digits_value(digits: Seq<char>) -> int
    decreases digits.len(),
{
    if digits.len() == 0 {
        0
    } else {
        digits_value(digits.drop_last()) * 10 + (digits.last() as int - '0' as int)
    }
}

/// What Rust's `FromStr` for an integer type whose values run from `min` to
/// `max` makes of `text`: an optional sign (`-` only when `min` is negative)
/// followed by at least one decimal digit and nothing else, spelling a number in
/// range; anything else (empty text, a lone sign, a `-` for an unsigned type,
/// another character, a number out of range) is no number.
pub open spec fn integer_from_text(text: Seq<char>, min: int, max: int) -> Option<int> {
    if text.len() == 0 {
        None
    } else {
        let negative = text[0] == '-' && min < 0;
        let digits = if text[0] == '+' || negative {
            text.drop_first()
        } else {
            text
        };
        let value = if negative {
            -digits_value(digits)
        } else {
            digits_value(digits)
        };
        if digits.len() > 0 && all_digits(digits) && min <= value <= max {
            Some(value)
        } else {
            None
        }
    }
}

/// The value of digits is never negative, and never below that of a prefix.
proof fn lemma_digits_grow(digits: Seq<char>, k: int)
    requires
        all_digits(digits),
        0 <= k <= digits.len(),
    ensures
        0 <= digits_value(digits.take(k)) <= digits_value(digits),
    decreases digits.len(),
{
    if digits.len() > 0 {
        let rest = digits.drop_last();
        assert(all_digits(rest)) by {
            assert forall|i: int| 0 <= i < rest.len() implies is_decimal_digit(#[trigger] rest[i]) by {
                assert(rest[i] == digits[i]);
            }
        }
        assert(is_decimal_digit(digits[digits.len() - 1]));
        if k == digits.len() {
            assert(digits.take(k) =~= digits);
            lemma_digits_grow(rest, rest.len() as int);
            assert(rest.take(rest.len() as int) =~= rest);
        } else {
            lemma_digits_grow(rest, k);
            assert(rest.take(k) =~= digits.take(k));
            lemma_digits_grow(rest, rest.len() as int);
            assert(rest.take(rest.len() as int) =~= rest);
        }
    } else {
        assert(digits.take(k) =~= digits);
    }
}

/// Parses `text` as an integer from `min` to `max` (see [`integer_from_text`]).
pub fn parse_integer(text: &str, min: i128, max: i128) -> (number: Option<i128>)
    requires
        -0x1_0000_0000_0000_0000 <= min <= 0 <= max <= 0x1_0000_0000_0000_0000,
    ensures
        number == match integer_from_text(text@, min as int, max as int) {
            Some(v) => Some(v as i128),
            None => None::<i128>,
        },
{
    let n = text.unicode_len();
    if n == 0 {
        return None;
    }
    let first = text.get_char(0);
    let negative = first == '-' && min < 0;
    let start: usize = if first == '+' || negative {
        1
    } else {
        0
    };
    let ghost digits = if start == 1 {
        text@.drop_first()
    } else {
        text@
    };
    assert(digits =~= text@.subrange(start as int, n as int));
    if start >= n {
        return None;
    }
    let bound: i128 = if negative {
        -min
    } else {
        max
    };
    proof {
        if all_digits(digits) {
            lemma_digits_grow(digits, 0);
        }
    }
    assert(integer_from_text(text@, min as int, max as int) == if all_digits(digits) && digits_value(
        digits,
    ) <= bound {
        Some(
            if negative {
                -digits_value(digits)
            } else {
                digits_value(digits)
            },
        )
    } else {
        None
    });
    let mut value: i128 = 0;
    let mut i: usize = start;
    while i < n
        invariant
            integer_from_text(text@, min as int, max as int) == if all_digits(digits) && digits_value(
                digits,
            ) <= bound {
                Some(
                    if negative {
                        -digits_value(digits)
                    } else {
                        digits_value(digits)
                    },
                )
            } else {
                None
            },
            n == text@.len(),
            start <= i <= n,
            digits == text@.subrange(start as int, n as int),
            all_digits(digits.take(i - start)),
            value == digits_value(digits.take(i - start)),
            0 <= value <= bound,
            bound <= 0x1_0000_0000_0000_0000,
        decreases n - i,
    {
        let c = text.get_char(i);
        let ghost k = (i - start) as int;
        assert(digits[k] == c);
        assert(digits.take(k + 1).drop_last() =~= digits.take(k));
        assert(digits.take(k + 1).last() == c);
        if !('0' <= c && c <= '9') {
            assert(!is_decimal_digit(digits[k]));
            return None;
        }
        let d = (c as u32 - '0' as u32) as i128;
        let next = value * 10 + d;
        assert(next == digits_value(digits.take(k + 1)));
        assert(all_digits(digits.take(k + 1))) by {
            assert forall|j: int| 0 <= j < k + 1 implies is_decimal_digit(#[trigger] digits.take(k + 1)[j]) by {
                if j < k {
                    assert(digits.take(k + 1)[j] == digits.take(k)[j]);
                }
            }
        }
        if next > bound {
            proof {
                if all_digits(digits) {
                    lemma_digits_grow(digits, k + 1);
                }
            }
            return None;
        }
        value = next;
        i = i + 1;
    }
    assert(digits.take(n - start) =~= digits);
    if negative {
        Some(-value)
    } else {
        Some(value)
    }
}

} // verus!
