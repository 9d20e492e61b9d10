//! Numeric token coercion: decimal digit strings to integers, and decimal
//! fractions to the exact fixed-point [`Decimal`] representation used for the
//! format's fractional fields.

use vstd::prelude::*;
use vstd::slice::{slice_subrange, slice_to_vec};
use crate::text::{find_from, spec_find};

verus! {

pub open spec fn spec_is_digit(c: char) -> bool {
    '0' <= c && c <= '9'
}

pub open spec fn spec_digit_val(c: char) -> int {
    c as u32 - 48
}

pub open spec fn spec_all_digits(s: Seq<char>) -> bool {
    forall|k: int| 0 <= k < s.len() ==> spec_is_digit(s[k])
}

/// The value of a digit string read in base ten.
pub open spec fn spec_digits_val(s: Seq<char>) -> int
    decreases s.len(),
{
    if s.len() == 0 {
        0
    } else {
        spec_digits_val(s.drop_last()) * 10 + spec_digit_val(s.last())
    }
}

pub proof fn lemma_digits_val_nonneg(s: Seq<char>)
    requires
        spec_all_digits(s),
    ensures
        spec_digits_val(s) >= 0,
    decreases s.len(),
{
    if s.len() > 0 {
        assert(spec_all_digits(s.drop_last()));
        lemma_digits_val_nonneg(s.drop_last());
    }
}

proof fn lemma_digits_val_take_succ(s: Seq<char>, k: int)
    requires
        0 <= k < s.len(),
    ensures
        spec_digits_val(s.take(k + 1)) == spec_digits_val(s.take(k)) * 10 + spec_digit_val(s[k]),
{
    assert(s.take(k + 1).drop_last() =~= s.take(k));
    assert(s.take(k + 1).last() == s[k]);
}

/// Reading more digits never shrinks the value.
proof fn lemma_digits_val_monotone(s: Seq<char>, m: int)
    requires
        spec_all_digits(s),
        0 <= m <= s.len(),
    ensures
        spec_digits_val(s) >= spec_digits_val(s.take(m)),
    decreases s.len() - m,
{
    if m == s.len() {
        assert(s.take(m) =~= s);
    } else {
        lemma_digits_val_take_succ(s, m);
        assert(spec_all_digits(s.take(m)));
        lemma_digits_val_nonneg(s.take(m));
        lemma_digits_val_monotone(s, m + 1);
    }
}

/// The value of a nonempty all-digit token, when it fits in a `u64`.
pub open spec fn spec_parse_u64(s: Seq<char>) -> Option<u64> {
    if s.len() > 0 && spec_all_digits(s) && spec_digits_val(s) <= u64::MAX {
        Some(spec_digits_val(s) as u64)
    } else {
        None
    }
}

pub fn parse_u64(s: &[char]) -> (r: Option<u64>)
    ensures
        r == spec_parse_u64(s@),
{
    if s.len() == 0 {
        return None;
    }
    let mut acc: u64 = 0;
    let mut k: usize = 0;
    while k < s.len()
        invariant
            0 < s@.len(),
            k <= s@.len(),
            forall|m: int| 0 <= m < k ==> spec_is_digit(s@[m]),
            acc == spec_digits_val(s@.take(k as int)),
        decreases s@.len() - k,
    {
        let c = s[k];
        if c < '0' || c > '9' {
            return None;
        }
        let d: u64 = (c as u32 - 48) as u64;
        proof {
            lemma_digits_val_take_succ(s@, k as int);
        }
        let step = match acc.checked_mul(10) {
            Some(a) => a.checked_add(d),
            None => None,
        };
        match step {
            Some(b) => {
                acc = b;
            },
            None => {
                proof {
                    if spec_all_digits(s@) {
                        lemma_digits_val_monotone(s@, k + 1);
                    }
                }
                return None;
            },
        }
        k = k + 1;
    }
    proof {
        assert(s@.take(s@.len() as int) =~= s@);
    }
    Some(acc)
}

/// The mathematical integer named by a token: an optional leading minus sign
/// followed by at least one digit.
pub open spec fn spec_parse_int(s: Seq<char>) -> Option<int> {
    if s.len() >= 2 && s[0] == '-' {
        let m = s.subrange(1, s.len() as int);
        if spec_all_digits(m) {
            Some(-spec_digits_val(m))
        } else {
            None
        }
    } else if s.len() >= 1 && spec_all_digits(s) {
        Some(spec_digits_val(s))
    } else {
        None
    }
}

/// `spec_parse_int`, restricted to values that fit in an `i32`.
pub open spec fn spec_parse_i32(s: Seq<char>) -> Option<i32> {
    match spec_parse_int(s) {
        Some(v) => if i32::MIN <= v <= i32::MAX {
            Some(v as i32)
        } else {
            None
        },
        None => None,
    }
}

pub fn parse_i32(s: &[char]) -> (r: Option<i32>)
    ensures
        r == spec_parse_i32(s@),
{
    let neg = s.len() >= 1 && s[0] == '-';
    let mag = if neg {
        slice_subrange(s, 1, s.len())
    } else {
        slice_subrange(s, 0, s.len())
    };
    proof {
        if !neg {
            assert(s@.subrange(0, s@.len() as int) =~= s@);
        }
    }
    match parse_u64(mag) {
        None => {
            proof {
                if mag@.len() > 0 && spec_all_digits(mag@) {
                    lemma_digits_val_nonneg(mag@);
                    assert(spec_digits_val(mag@) > u64::MAX);
                }
                if neg && mag@.len() == 0 {
                    assert(s@.len() == 1);
                    assert(!spec_is_digit(s@[0]));
                    assert(!spec_all_digits(s@));
                }
                if !neg && s@.len() > 0 && !spec_all_digits(s@) {
                    assert(spec_parse_int(s@) is None);
                }
                assert(spec_parse_i32(s@) is None);
            }
            None
        },
        Some(v) => {
            proof {
                assert(spec_parse_u64(mag@) == Some(v));
                lemma_digits_val_nonneg(mag@);
                assert(mag@.len() > 0 && spec_all_digits(mag@) && v == spec_digits_val(mag@));
                if neg {
                    assert(s@.len() >= 2 && s@[0] == '-');
                    assert(spec_parse_int(s@) == Some(-spec_digits_val(mag@)));
                } else {
                    assert(spec_parse_int(s@) == Some(spec_digits_val(s@)));
                }
            }
            if neg {
                if v <= 2147483648 {
                    if v == 2147483648 {
                        Some(i32::MIN)
                    } else {
                        Some(-(v as i32))
                    }
                } else {
                    None
                }
            } else {
                if v <= 2147483647 {
                    Some(v as i32)
                } else {
                    None
                }
            }
        },
    }
}

/// An exact decimal number: the value is `mantissa / 10^scale`, negated when
/// `neg` is set. Fields the format documents as fractional are held this way,
/// with no rounding.
#[derive(Clone, Copy, Debug, PartialEq, Eq, Structural)]
pub struct Decimal {
    pub neg: bool,
    pub mantissa: u64,
    pub scale: u8,
}

impl Decimal {
    /// The numerator of the value over the denominator `10^scale`.
    pub open spec fn numer(self) -> int {
        if self.neg {
            -(self.mantissa as int)
        } else {
            self.mantissa as int
        }
    }

    /// Whether the value is strictly greater than zero.
    pub open spec fn spec_is_positive(self) -> bool {
        !self.neg && self.mantissa > 0
    }

    pub fn is_positive(&self) -> (r: bool)
        ensures
            r == self.spec_is_positive(),
            r == (self.numer() > 0),
    {
        !self.neg && self.mantissa > 0
    }

    /// Whether the value is strictly less than zero.
    pub fn is_negative(&self) -> (r: bool)
        ensures
            r == (self.numer() < 0),
    {
        self.neg && self.mantissa > 0
    }
}

/// The decimal named by a token: an optional minus sign, then digits, then
/// optionally a point followed by more digits. The mantissa must fit in a
/// `u64` and the fractional part in 255 digits.
pub open spec fn spec_parse_decimal(s: Seq<char>) -> Option<Decimal> {
    let neg = s.len() >= 1 && s[0] == '-';
    let body = if neg {
        s.subrange(1, s.len() as int)
    } else {
        s
    };
    match spec_find(body, '.') {
        None => {
            if body.len() > 0 && spec_all_digits(body) && spec_digits_val(body) <= u64::MAX {
                Some(Decimal { neg, mantissa: spec_digits_val(body) as u64, scale: 0 })
            } else {
                None
            }
        },
        Some(i) => {
            let ip = body.subrange(0, i);
            let fp = body.subrange(i + 1, body.len() as int);
            if ip.len() > 0 && fp.len() > 0 && fp.len() <= 255 && spec_all_digits(ip)
                && spec_all_digits(fp) && spec_digits_val(ip + fp) <= u64::MAX {
                Some(
                    Decimal {
                        neg,
                        mantissa: spec_digits_val(ip + fp) as u64,
                        scale: fp.len() as u8,
                    },
                )
            } else {
                None
            }
        },
    }
}

pub fn parse_decimal(s: &[char]) -> (r: Option<Decimal>)
    ensures
        r == spec_parse_decimal(s@),
{
    let neg = s.len() >= 1 && s[0] == '-';
    let body = if neg {
        slice_subrange(s, 1, s.len())
    } else {
        slice_subrange(s, 0, s.len())
    };
    proof {
        if !neg {
            assert(s@.subrange(0, s@.len() as int) =~= s@);
        }
    }
    match find_from(body, 0, '.') {
        None => {
            proof {
                assert(body@.subrange(0, body@.len() as int) =~= body@);
            }
            match parse_u64(body) {
                Some(m) => Some(Decimal { neg, mantissa: m, scale: 0 }),
                None => None,
            }
        },
        Some(i) => {
            proof {
                assert(body@.subrange(0, body@.len() as int) =~= body@);
            }
            let ip = slice_subrange(body, 0, i);
            let fp = slice_subrange(body, i + 1, body.len());
            if ip.len() == 0 || fp.len() == 0 || fp.len() > 255 {
                return None;
            }
            let mut comb = slice_to_vec(ip);
            let mut tail = slice_to_vec(fp);
            comb.append(&mut tail);
            proof {
                assert(comb@ =~= ip@ + fp@);
                if spec_all_digits(comb@) {
                    assert forall|k: int| 0 <= k < ip@.len() implies spec_is_digit(ip@[k]) by {
                        assert(comb@[k] == ip@[k]);
                    }
                    assert forall|k: int| 0 <= k < fp@.len() implies spec_is_digit(fp@[k]) by {
                        assert(comb@[ip@.len() + k] == fp@[k]);
                    }
                } else {
                    assert(!(spec_all_digits(ip@) && spec_all_digits(fp@))) by {
                        if spec_all_digits(ip@) && spec_all_digits(fp@) {
                            assert forall|k: int| 0 <= k < comb@.len() implies spec_is_digit(
                                comb@[k],
                            ) by {
                                if k < ip@.len() {
                                    assert(comb@[k] == ip@[k]);
                                } else {
                                    assert(comb@[k] == fp@[k - ip@.len()]);
                                }
                            }
                        }
                    }
                }
            }
            match parse_u64(comb.as_slice()) {
                Some(m) => Some(Decimal { neg, mantissa: m, scale: fp.len() as u8 }),
                None => None,
            }
        },
    }
}

} // verus!
