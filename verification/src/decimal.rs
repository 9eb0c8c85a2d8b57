//! Exact decimal numbers parsed from the provider's numeric strings.
//!
//! The provider quotes prices, volumes and market caps as decimal strings
//! such as `"361.99000000"`. A [`Decimal`] keeps the parsed number exactly:
//! its value is `mantissa / 10^scale`, negated when `neg` is set.

use vstd::prelude::*;

verus! {

/// A decimal number `mantissa / 10^scale`, negated when `neg` is set.
#[derive(Clone, Copy, PartialEq, Eq, Structural, Debug)]
pub struct Decimal {
    /// All digits of the number, with the decimal point removed.
    pub mantissa: u128,
    /// How many of the mantissa's trailing digits lie behind the decimal
    /// point.
    pub scale: usize,
    /// Whether the number is negative.
    pub neg: bool,
}

impl Decimal {
    /// The zero value: no digits behind the point, not negative.
    pub fn zero() -> (r: Decimal)
        ensures
            r == Decimal::spec_zero(),
    {
        Decimal { mantissa: 0, scale: 0, neg: false }
    }

    /// The zero value, for specifications.
    pub open spec fn spec_zero() -> Decimal {
        Decimal { mantissa: 0, scale: 0, neg: false }
    }
}

impl Default for Decimal {
    fn default() -> (r: Decimal)
        ensures
            r == Decimal::spec_zero(),
    {
        Decimal::zero()
    }
}

/// Whether `c` is a decimal digit.
pub open spec fn is_digit(c: char) -> bool {
    48 <= c as u32 <= 57
}

/// Whether every character of `s` is a decimal digit.
pub open spec fn all_digits(s: Seq<char>) -> bool {
    forall|i: int| 0 <= i < s.len() ==> is_digit(#[trigger] s[i])
}

/// The numeric value of a digit string, read in base ten.
pub open spec fn digits_val(s: Seq<char>) -> int
    decreases s.len(),
{
    if s.len() == 0 {
        0
    } else {
        digits_val(s.drop_last()) * 10 + (s.last() as u32 - 48)
    }
}

/// The index of the first `'.'` in `s`, or `s.len()` if there is none.
pub open spec fn dot_index(s: Seq<char>) -> int
    decreases s.len(),
{
    if s.len() == 0 {
        0
    } else if s[0] == '.' {
        0
    } else {
        1 + dot_index(s.skip(1))
    }
}

/// The characteristic properties of `dot_index`.
pub proof fn lemma_dot_index(s: Seq<char>)
    ensures
        0 <= dot_index(s) <= s.len(),
        dot_index(s) < s.len() ==> s[dot_index(s)] == '.',
        forall|j: int| 0 <= j < dot_index(s) ==> s[j] != '.',
    decreases s.len(),
{
    if s.len() > 0 && s[0] != '.' {
        lemma_dot_index(s.skip(1));
        assert forall|j: int| 0 <= j < dot_index(s) implies s[j] != '.' by {
            if j > 0 {
                assert(s.skip(1)[j - 1] != '.');
            }
        }
    }
}

/// Whether `s` (without a sign) is a well-formed decimal numeral: one or
/// more digits, optionally followed by a point and one or more digits.
pub open spec fn valid_unsigned(s: Seq<char>) -> bool {
    let d = dot_index(s);
    if d == s.len() {
        s.len() > 0 && all_digits(s)
    } else {
        &&& d >= 1
        &&& d + 1 < s.len()
        &&& all_digits(s.take(d))
        &&& all_digits(s.skip(d + 1))
    }
}

/// Whether `s` starts with a minus sign.
pub open spec fn has_sign(s: Seq<char>) -> bool {
    s.len() > 0 && s[0] == '-'
}

/// `s` with a leading minus sign removed.
pub open spec fn sign_body(s: Seq<char>) -> Seq<char> {
    if has_sign(s) {
        s.skip(1)
    } else {
        s
    }
}

/// Whether `s` is a well-formed decimal numeral, optionally signed.
pub open spec fn valid_decimal(s: Seq<char>) -> bool {
    valid_unsigned(sign_body(s))
}

/// The digits of the numeral `s` (without sign), the decimal point removed.
pub open spec fn digits_of(s: Seq<char>) -> Seq<char> {
    let d = dot_index(s);
    if d == s.len() {
        s
    } else {
        s.take(d) + s.skip(d + 1)
    }
}

/// The number of digits of `s` (without sign) behind the decimal point.
pub open spec fn scale_of(s: Seq<char>) -> int {
    let d = dot_index(s);
    if d == s.len() {
        0
    } else {
        s.len() - d - 1
    }
}

/// The mantissa value that parsing `s` must produce.
pub open spec fn mantissa_of(s: Seq<char>) -> int {
    digits_val(digits_of(sign_body(s)))
}

/// The parsed form of a valid decimal string `s`.
pub open spec fn spec_decimal(s: Seq<char>) -> Decimal {
    Decimal {
        mantissa: mantissa_of(s) as u128,
        scale: scale_of(sign_body(s)) as usize,
        neg: has_sign(s),
    }
}

/// The value of a digit string is never negative.
proof fn lemma_digits_val_nonneg(s: Seq<char>)
    requires
        all_digits(s),
    ensures
        digits_val(s) >= 0,
    decreases s.len(),
{
    if s.len() > 0 {
        assert(all_digits(s.drop_last()));
        lemma_digits_val_nonneg(s.drop_last());
    }
}

/// Reading one more digit can only increase the value of a digit string.
proof fn lemma_digits_val_prefix_le(s: Seq<char>, j: int)
    requires
        all_digits(s),
        0 <= j <= s.len(),
    ensures
        digits_val(s.take(j)) <= digits_val(s),
    decreases s.len() - j,
{
    assert(all_digits(s.take(j)));
    if j == s.len() {
        assert(s.take(j) =~= s);
    } else {
        lemma_digits_val_prefix_le(s, j + 1);
        assert(s.take(j + 1).drop_last() =~= s.take(j));
        assert(s.take(j + 1).last() == s[j]);
        lemma_digits_val_nonneg(s.take(j));
    }
}

/// Parse a decimal string: an optional minus sign, one or more digits, and
/// optionally a point followed by one or more digits. Returns `None` when
/// the string has any other shape, or when its digits exceed what a
/// [`Decimal`] mantissa can hold.
pub fn parse_decimal(s: &str) -> (r: Option<Decimal>)
    ensures
        r is Some <==> valid_decimal(s@) && mantissa_of(s@) <= u128::MAX,
        r matches Some(d) ==> d == spec_decimal(s@),
{
    let len = s.unicode_len();
    let neg = len > 0 && s.get_char(0) == '-';
    let off: usize = if neg {
        1
    } else {
        0
    };
    let ghost body = sign_body(s@);
    proof {
        assert(body =~= s@.skip(off as int));
    }
    // First pass: check the shape and find the decimal point.
    let mut i: usize = off;
    let mut dot: usize = len;
    let mut shape_ok = true;
    while i < len
        invariant
            off <= i <= len,
            off <= 1,
            len == s@.len(),
            body == s@.skip(off as int),
            dot == len || off <= dot < i,
            !shape_ok ==> i == len,
            shape_ok && dot < len ==> dot_index(body) == dot - off,
            shape_ok && dot == len ==> forall|j: int|
                0 <= j < i - off ==> is_digit(#[trigger] body[j]),
            shape_ok && dot < len ==> forall|j: int|
                0 <= j < i - off && j != dot - off ==> is_digit(#[trigger] body[j]),
            !shape_ok ==> !valid_unsigned(body),
        decreases len - i,
    {
        let c = s.get_char(i);
        proof {
            assert(body[i - off] == s@[i as int]);
            lemma_dot_index(body);
        }
        if c == '.' {
            if dot != len {
                // a second decimal point: the tail is not all digits
                proof {
                    let d = dot_index(body);
                    let p = i - off;
                    assert(('.' as u32) == 46);
                    assert(p > d);
                    assert(body.skip(d + 1)[p - d - 1] == body[p]);
                    assert(!is_digit(body.skip(d + 1)[p - d - 1]));
                    assert(!all_digits(body.skip(d + 1)));
                }
                shape_ok = false;
                i = len;
            } else {
                // the first point found is the first point there is
                proof {
                    let d = dot_index(body);
                    assert(('.' as u32) == 46);
                    assert forall|j: int| 0 <= j < i - off implies body[j] != '.' by {
                        assert(is_digit(body[j]));
                    }
                    if d < i - off {
                        assert(body[d] == '.');
                        assert(false);
                    }
                    if d > i - off {
                        assert(body[i - off] != '.');
                        assert(false);
                    }
                }
                dot = i;
                i += 1;
            }
        } else if c < '0' || c > '9' {
            // neither a digit nor a point: no reading makes the string valid
            proof {
                let d = dot_index(body);
                let p = i - off;
                assert(!is_digit(body[p]) && body[p] != '.');
                if valid_unsigned(body) {
                    if d == body.len() {
                        assert(is_digit(body[p]));
                    } else if p < d {
                        assert(is_digit(body.take(d)[p]));
                    } else if p == d {
                        assert(body[d] == '.');
                    } else {
                        assert(is_digit(body.skip(d + 1)[p - d - 1]));
                    }
                    assert(false);
                }
            }
            shape_ok = false;
            i = len;
        } else {
            i += 1;
        }
    }
    if !shape_ok {
        return None;
    }
    proof {
        lemma_dot_index(body);
        if dot == len {
            // no point was seen, so the whole body is digits
            if dot_index(body) < body.len() {
                assert(body[dot_index(body)] == '.');
                assert(is_digit(body[dot_index(body)]));
                assert(false);
            }
        }
    }
    let int_digits = if dot == len {
        len - off
    } else {
        dot - off
    };
    if int_digits == 0 {
        // no digits before the point (or an empty numeral)
        return None;
    }
    if dot != len && len - dot - 1 == 0 {
        // a point with no digits behind it
        return None;
    }
    let frac_digits = if dot == len {
        0
    } else {
        len - dot - 1
    };
    proof {
        // shape checks passed: the string is a valid decimal numeral
        let d = dot_index(body);
        if dot == len {
            assert(valid_unsigned(body));
        } else {
            assert(all_digits(body.take(d)));
            assert(all_digits(body.skip(d + 1))) by {
                assert(forall|j: int|
                    0 <= j < body.len() - d - 1 ==> is_digit(#[trigger] body.skip(d + 1)[j]));
            }
            assert(valid_unsigned(body));
        }
    }
    let ghost ds = digits_of(body);
    proof {
        if dot == len {
            assert(ds =~= body);
        }
        assert(all_digits(ds)) by {
            let d = dot_index(body);
            if dot < len {
                assert(forall|j: int| 0 <= j < ds.len() ==> is_digit(#[trigger] ds[j])) by {
                    assert(forall|j: int|
                        0 <= j < d ==> #[trigger] ds[j] == body.take(d)[j]);
                    assert(forall|j: int|
                        d <= j < ds.len() ==> #[trigger] ds[j] == body.skip(d + 1)[j - d]);
                }
            }
        }
    }
    // Second pass: accumulate the mantissa over the digits.
    let mut mantissa: u128 = 0;
    let mut i: usize = off;
    proof {
        assert(ds.take(0) =~= Seq::<char>::empty());
        if dot < len {
            assert(dot_index(body) >= 1);
        }
    }
    while i < len
        invariant
            off <= i <= len,
            off <= 1,
            len == s@.len(),
            body == s@.skip(off as int),
            body == sign_body(s@),
            valid_unsigned(body),
            ds == digits_of(body),
            all_digits(ds),
            dot == len || (off < dot < len && dot_index(body) == dot - off),
            dot == len ==> ds == body,
            dot < len ==> i != dot,
            dot < len && i > dot ==> mantissa == digits_val(ds.take(i - off - 1)),
            (dot == len || i < dot) ==> mantissa == digits_val(ds.take(i - off)),
        decreases len - i,
    {
        let c = s.get_char(i);
        let ghost d = dot_index(body);
        let ghost k: int = if dot < len && i > dot {
            i - off - 1
        } else {
            i - off
        };
        proof {
            assert(body[i - off] == s@[i as int]);
            if dot == len {
                assert(ds[k] == body[k]);
            } else if i < dot {
                assert(ds[k] == body.take(d)[k]);
                assert(ds[k] == body[k]);
            } else {
                assert(ds[k] == body.skip(d + 1)[k - d]);
                assert(ds[k] == body[k + 1]);
            }
            assert(ds[k] == c);
            assert(is_digit(c));
        }
        let digit = (c as u32) - 48;
        let step = match mantissa.checked_mul(10) {
            Some(m) => m.checked_add(digit as u128),
            None => None,
        };
        proof {
            assert(ds.take(k + 1).drop_last() =~= ds.take(k));
            assert(ds.take(k + 1).last() == ds[k]);
        }
        match step {
            Some(m) => {
                mantissa = m;
            },
            None => {
                // the digits overflow the mantissa: the full value cannot fit
                proof {
                    lemma_digits_val_nonneg(ds.take(k));
                    assert(digits_val(ds.take(k + 1)) > u128::MAX);
                    lemma_digits_val_prefix_le(ds, k + 1);
                }
                return None;
            },
        }
        i += 1;
        if dot < len && i == dot {
            i += 1;
        }
    }
    proof {
        if dot == len {
            assert(ds.take(len - off) =~= ds);
        } else {
            assert(ds.take(len - off - 1) =~= ds);
        }
        assert(mantissa == mantissa_of(s@));
    }
    Some(Decimal { mantissa, scale: frac_digits, neg })
}

} // verus!
