//! Double-precision numbers, held by their IEEE 754 bit pattern.
//!
//! The bounds of a number schema are doubles. This module says, over the 64
//! bits of a double, when it is not a number and how two doubles compare.

use vstd::prelude::*;

verus! {

/// The bit that holds the sign of a double.
pub const SIGN_BIT: u64 = 0x8000_0000_0000_0000;

/// The bits of positive infinity: every magnitude above it is not a number.
pub const INFINITY_BITS: u64 = 0x7ff0_0000_0000_0000;

/// How one value stands to another.
#[derive(Clone, Copy, Debug, PartialEq, Eq, Structural)]
pub enum Comparison {
    /// The first is smaller.
    Less,
    /// Both are the same number.
    Equal,
    /// The first is larger.
    Greater,
}

/// A double-precision number, as its 64 bits.
#[derive(Clone, Copy, Debug, PartialEq, Eq, Hash, Structural)]
pub struct Double {
    /// Sign (1 bit), exponent (11 bits) and fraction (52 bits), most significant first.
    pub bits: u64,
}

impl Double {
    /// The bits without the sign: exponent and fraction read as one number.
    pub open spec fn magnitude(self) -> int {
        if self.bits >= SIGN_BIT {
            self.bits - SIGN_BIT
        } else {
            self.bits as int
        }
    }

    /// Whether the sign bit is set.
    pub open spec fn sign(self) -> bool {
        self.bits >= SIGN_BIT
    }

    /// Whether the bits stand for no number: the exponent is all ones and the
    /// fraction is not zero.
    pub open spec fn nan(self) -> bool {
        self.magnitude() > INFINITY_BITS
    }

    /// An integer that orders the doubles that are numbers as their values are
    /// ordered: both zeros have rank 0, and the infinities have the extreme ranks.
    pub open spec fn rank(self) -> int {
        if self.sign() {
            -self.magnitude()
        } else {
            self.magnitude()
        }
    }

    /// How `self` compares to `other`: nothing if either is not a number, else
    /// the comparison of their ranks.
    pub open spec fn compare_spec(self, other: Double) -> Option<Comparison> {
        if self.nan() || other.nan() {
            None
        } else if self.rank() < other.rank() {
            Some(Comparison::Less)
        } else if self.rank() == other.rank() {
            Some(Comparison::Equal)
        } else {
            Some(Comparison::Greater)
        }
    }

    /// Whether `self` is a number that is zero or below zero.
    pub open spec fn at_most_zero(self) -> bool {
        !self.nan() && self.rank() <= 0
    }

    /// The double with the given bits.
    pub fn from_bits(bits: u64) -> (r: Double)
        ensures
            r.bits == bits,
    {
        Double { bits }
    }

    /// The bits of the double.
    pub fn to_bits(&self) -> (r: u64)
        ensures
            r == self.bits,
    {
        self.bits
    }

    fn magnitude_bits(&self) -> (r: u64)
        ensures
            r == self.magnitude(),
    {
        if self.bits >= SIGN_BIT {
            self.bits - SIGN_BIT
        } else {
            self.bits
        }
    }

    /// Whether the double is not a number.
    pub fn is_nan(&self) -> (r: bool)
        ensures
            r == self.nan(),
    {
        self.magnitude_bits() > INFINITY_BITS
    }

    fn rank_value(&self) -> (r: i128)
        ensures
            r == self.rank(),
    {
        let m: i128 = self.magnitude_bits() as i128;
        if self.bits >= SIGN_BIT {
            -m
        } else {
            m
        }
    }

    /// Compares two doubles as numbers.
    pub fn compare(&self, other: &Double) -> (r: Option<Comparison>)
        ensures
            r == self.compare_spec(*other),
    {
        if self.is_nan() || other.is_nan() {
            None
        } else {
            let a: i128 = self.rank_value();
            let b: i128 = other.rank_value();
            if a < b {
                Some(Comparison::Less)
            } else if a == b {
                Some(Comparison::Equal)
            } else {
                Some(Comparison::Greater)
            }
        }
    }

    /// Whether the double is a number that is zero or below zero.
    pub fn is_at_most_zero(&self) -> (r: bool)
        ensures
            r == self.at_most_zero(),
    {
        !self.is_nan() && self.rank_value() <= 0
    }
}

} // verus!
