//! The generic hierarchical document value: an object / array / string /
//! number / boolean / null tree, with a decimal number representation and
//! its fixed-point integer accessors.

use vstd::prelude::*;
use crate::text::str_eq;

verus! {

/// Decimal power, giving meaning to a number's exponent.
pub open spec fn pow10(e: nat) -> nat
    decreases e,
{
    if e == 0 {
        1
    } else {
        10 * pow10((e - 1) as nat)
    }
}

pub proof fn lemma_pow10_pos(e: nat)
    ensures
        pow10(e) >= 1,
    decreases e,
{
    if e > 0 {
        lemma_pow10_pos((e - 1) as nat);
    }
}

pub proof fn lemma_pow10_increases(e1: nat, e2: nat)
    requires
        e1 <= e2,
    ensures
        pow10(e1) <= pow10(e2),
    decreases e2,
{
    if e1 < e2 {
        lemma_pow10_increases(e1, (e2 - 1) as nat);
    }
}

/// A decimal number: `mantissa * 10^exponent`, negated when `positive` is
/// false. The value is exact; no rounding is involved.
#[derive(Clone, Copy, Debug, PartialEq, Eq, Structural)]
pub struct Number {
    /// Sign of the number; zero may carry either sign.
    pub positive: bool,
    /// Integer base before sign and exponent are applied.
    pub mantissa: u64,
    /// Decimal exponent, analogous to `e` notation.
    pub exponent: i16,
}

impl Number {
    /// Whether the number denotes an integer.
    pub open spec fn is_integral(self) -> bool {
        self.exponent >= 0 || self.mantissa as int % (pow10((0 - self.exponent as int) as nat) as int) == 0
    }

    /// The absolute integer value, meaningful when the number is integral.
    pub open spec fn magnitude(self) -> int {
        if self.exponent >= 0 {
            self.mantissa * pow10(self.exponent as nat)
        } else {
            self.mantissa as int / pow10((0 - self.exponent as int) as nat) as int
        }
    }

    /// The magnitude of a number is never negative.
    pub proof fn lemma_magnitude_nonneg(self)
        ensures
            self.magnitude() >= 0,
    {
        if self.exponent >= 0 {
            lemma_pow10_pos(self.exponent as nat);
            assert(self.mantissa as int * pow10(self.exponent as nat) as int >= 0)
                by (nonlinear_arith)
                requires
                    self.mantissa >= 0,
                    pow10(self.exponent as nat) >= 1,
            {
            }
        } else {
            lemma_pow10_pos((0 - self.exponent as int) as nat);
            vstd::arithmetic::div_mod::lemma_div_pos_is_pos(
                self.mantissa as int,
                pow10((0 - self.exponent as int) as nat) as int,
            );
        }
    }

    /// The absolute value as a `u64`: defined when the number is integral
    /// and within range.
    pub open spec fn mag_u64_spec(self) -> Option<u64> {
        if self.is_integral() && self.magnitude() <= u64::MAX {
            Some(self.magnitude() as u64)
        } else {
            None
        }
    }

    /// The number read as an unsigned 64-bit integer with no decimal places:
    /// defined when the sign is positive, the value is integral, and it is
    /// within range.
    pub open spec fn as_u64_spec(self) -> Option<u64> {
        if self.positive {
            self.mag_u64_spec()
        } else {
            None
        }
    }

    /// The number read as a signed 64-bit integer with no decimal places:
    /// defined when the value is integral and within range.
    pub open spec fn as_i64_spec(self) -> Option<i64> {
        if !self.is_integral() {
            None
        } else if self.positive && self.magnitude() <= i64::MAX {
            Some(self.magnitude() as i64)
        } else if !self.positive && self.magnitude() <= 0x8000000000000000 {
            Some((0 - self.magnitude()) as i64)
        } else {
            None
        }
    }

    /// A number holding an unsigned integer exactly.
    pub fn from_u64(v: u64) -> (r: Number)
        ensures
            r == (Number { positive: true, mantissa: v, exponent: 0 }),
    {
        Number { positive: true, mantissa: v, exponent: 0 }
    }

    /// A number holding a signed integer exactly.
    pub fn from_i64(v: i64) -> (r: Number)
        ensures
            r.positive == (v >= 0),
            r.exponent == 0,
            r.mantissa == (if v >= 0 { v as int } else { 0 - v as int }),
    {
        if v >= 0 {
            Number { positive: true, mantissa: v as u64, exponent: 0 }
        } else {
            let mag: u64 = if v == i64::MIN {
                9223372036854775808
            } else {
                (0 - v) as u64
            };
            Number { positive: false, mantissa: mag, exponent: 0 }
        }
    }

    /// The absolute integer value when the number is integral and fits a
    /// `u64`; `None` otherwise.
    fn magnitude_u64(&self) -> (r: Option<u64>)
        ensures
            r == self.mag_u64_spec(),
    {
        if self.exponent >= 0 {
            let e: u16 = self.exponent as u16;
            let mut acc: u64 = self.mantissa;
            let mut i: u16 = 0;
            while i < e
                invariant
                    i <= e,
                    e as int == self.exponent as int,
                    acc as int * pow10((e - i) as nat) == self.mantissa as int * pow10(e as nat),
                decreases e - i,
            {
                if acc > u64::MAX / 10 {
                    proof {
                        lemma_pow10_pos((e - i - 1) as nat);
                        assert(pow10((e - i) as nat) == 10 * pow10((e - i - 1) as nat));
                        assert(acc as int * pow10((e - i) as nat) > u64::MAX) by (nonlinear_arith)
                            requires
                                acc > u64::MAX / 10,
                                pow10((e - i) as nat) == 10 * pow10((e - i - 1) as nat),
                                pow10((e - i - 1) as nat) >= 1,
                        {
                        }
                    }
                    return None;
                }
                proof {
                    assert(pow10((e - i) as nat) == 10 * pow10((e - i - 1) as nat));
                    assert((acc as int * 10) * pow10((e - i - 1) as nat) == acc as int * (10 * pow10(
                        (e - i - 1) as nat,
                    ))) by (nonlinear_arith) {
                    }
                }
                acc = acc * 10;
                i = i + 1;
            }
            proof {
                assert(pow10((e - i) as nat) == 1);
                assert(acc as int * pow10((e - i) as nat) == acc as int) by (nonlinear_arith)
                    requires
                        pow10((e - i) as nat) == 1,
                {
                }
                assert(acc as int == self.mantissa as int * pow10(self.exponent as nat));
            }
            Some(acc)
        } else {
            let e_neg: u32 = (0 - (self.exponent as i32)) as u32;
            let mut d: u64 = 1;
            let mut i: u32 = 0;
            while i < e_neg
                invariant
                    i <= e_neg,
                    e_neg == 0 - self.exponent as int,
                    d == pow10(i as nat),
                decreases e_neg - i,
            {
                if d > u64::MAX / 10 {
                    proof {
                        assert(pow10((i + 1) as nat) == 10 * pow10(i as nat));
                        lemma_pow10_increases((i + 1) as nat, e_neg as nat);
                        if self.mantissa > 0 {
                            vstd::arithmetic::div_mod::lemma_small_mod(
                                self.mantissa as nat,
                                pow10(e_neg as nat),
                            );
                        } else {
                            vstd::arithmetic::div_mod::lemma_small_mod(0, pow10(e_neg as nat));
                            lemma_pow10_pos(e_neg as nat);
                            vstd::arithmetic::div_mod::lemma_div_of0(pow10(e_neg as nat) as int);
                        }
                    }
                    if self.mantissa == 0 {
                        return Some(0);
                    } else {
                        return None;
                    }
                }
                proof {
                    assert(pow10((i + 1) as nat) == 10 * pow10(i as nat));
                }
                d = d * 10;
                i = i + 1;
            }
            proof {
                lemma_pow10_pos(e_neg as nat);
            }
            if self.mantissa % d == 0 {
                proof {
                    assert(self.mantissa as int / d as int <= self.mantissa) by (nonlinear_arith)
                        requires
                            d >= 1,
                            self.mantissa >= 0,
                    {
                    }
                }
                Some(self.mantissa / d)
            } else {
                None
            }
        }
    }

    /// The number as an unsigned 64-bit integer with no decimal places.
    pub fn as_fixed_point_u64(&self) -> (r: Option<u64>)
        ensures
            r == self.as_u64_spec(),
    {
        if self.positive {
            self.magnitude_u64()
        } else {
            None
        }
    }

    /// The number as a signed 64-bit integer with no decimal places.
    pub fn as_fixed_point_i64(&self) -> (r: Option<i64>)
        ensures
            r == self.as_i64_spec(),
    {
        proof {
            self.lemma_magnitude_nonneg();
        }
        match self.magnitude_u64() {
            Option::None => None,
            Option::Some(m) => {
                if self.positive {
                    if m <= 0x7fffffffffffffff {
                        Some(m as i64)
                    } else {
                        None
                    }
                } else {
                    if m == 0x8000000000000000 {
                        Some(i64::MIN)
                    } else if m < 0x8000000000000000 {
                        Some(0 - (m as i64))
                    } else {
                        None
                    }
                }
            },
        }
    }
}

/// A value of the hierarchical document: the tree a configuration is read
/// from. Object members are held in insertion order; their keys are unique
/// in a well-formed document, and lookup takes the first match.
#[derive(Debug, PartialEq)]
pub enum ValueNode {
    /// A mapping from member names to values.
    Object(Vec<(String, ValueNode)>),
    /// An ordered sequence of values.
    Array(Vec<ValueNode>),
    /// A text value.
    Str(String),
    /// A numeric value.
    Number(Number),
    /// A boolean value.
    Boolean(bool),
    /// The null value.
    Null,
}

/// First entry of `entries` whose name matches, scanning in order.
pub open spec fn lookup_entry(entries: Seq<(String, ValueNode)>, name: Seq<char>) -> Option<
    ValueNode,
>
    decreases entries.len(),
{
    if entries.len() == 0 {
        None
    } else if entries[0].0@ == name {
        Some(entries[0].1)
    } else {
        lookup_entry(entries.drop_first(), name)
    }
}

impl ValueNode {
    /// Whether this value is an object.
    pub fn is_object(&self) -> (r: bool)
        ensures
            r == (self matches ValueNode::Object(_)),
    {
        matches!(self, ValueNode::Object(_))
    }

    /// The member of an object value with the given name, if present.
    pub fn get_child<'a>(&'a self, name: &str) -> (r: Option<&'a ValueNode>)
        requires
            self matches ValueNode::Object(_),
        ensures
            match lookup_entry(self->Object_0@, name@) {
                Some(v) => r matches Some(p) && *p == v,
                None => r is None,
            },
    {
        match self {
            ValueNode::Object(entries) => {
                let n: usize = entries.len();
                let mut i: usize = 0;
                proof {
                    assert(self->Object_0 == *entries);
                    assert(entries@.skip(0) =~= entries@);
                }
                while i < n
                    invariant
                        i <= n,
                        n == entries@.len(),
                        self->Object_0 == *entries,
                        lookup_entry(entries@, name@) == lookup_entry(entries@.skip(i as int), name@),
                    decreases n - i,
                {
                    proof {
                        assert(entries@.skip(i as int).drop_first() =~= entries@.skip(i + 1));
                        assert(entries@.skip(i as int)[0] == entries@[i as int]);
                    }
                    if str_eq(entries[i].0.as_str(), name) {
                        proof {
                            assert(entries@.skip(i as int)[0].0@ == name@);
                            assert(lookup_entry(entries@.skip(i as int), name@) == Some(
                                entries@[i as int].1,
                            ));
                            assert(lookup_entry(self->Object_0@, name@) == Some(
                                entries@[i as int].1,
                            ));
                        }
                        return Some(&entries[i].1);
                    }
                    i = i + 1;
                }
                proof {
                    assert(entries@.skip(n as int) =~= Seq::<(String, ValueNode)>::empty());
                }
                None
            },
            _ => {
                proof {
                    assert(false);
                }
                None
            },
        }
    }
}

} // verus!
