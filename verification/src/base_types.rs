//! The closed sets of scalar tags from which concrete value types are built:
//! booleans, integers and floating point numbers usable as vector lanes, and
//! the special flag carriers that cannot be vectorized.
//!
//! The numeric encoding of every concrete type is derived from these tags and
//! from a fixed global enumeration order (booleans, then integers, then
//! floats, ascending bit width within each family) starting at the lane base
//! offset `0x70`. Special types are numbered from 1 in their own namespace.

use vstd::prelude::*;

verus! {

/// A boolean scalar tag, one per supported bit width.
#[derive(Clone, Copy, Debug, PartialEq, Eq, Structural)]
pub enum Bool {
    B1,
    B8,
    B16,
    B32,
    B64,
}

/// An integer scalar tag, one per supported bit width.
#[derive(Clone, Copy, Debug, PartialEq, Eq, Structural)]
pub enum Int {
    I8,
    I16,
    I32,
    I64,
}

/// A floating point scalar tag, one per supported bit width.
#[derive(Clone, Copy, Debug, PartialEq, Eq, Structural)]
pub enum Float {
    F32,
    F64,
}

/// A CPU flag carrier tag: the result of an integer or of a floating point
/// comparison.
#[derive(Clone, Copy, Debug, PartialEq, Eq, Structural)]
pub enum Flag {
    IFlags,
    FFlags,
}

impl Bool {
    /// The number of bits in a value of this tag.
    pub open spec fn spec_lane_bits(self) -> u64 {
        match self {
            Bool::B1 => 1,
            Bool::B8 => 8,
            Bool::B16 => 16,
            Bool::B32 => 32,
            Bool::B64 => 64,
        }
    }

    /// The number of bits in a value of this tag.
    pub fn lane_bits(self) -> (r: u64)
        ensures
            r == self.spec_lane_bits(),
    {
        match self {
            Bool::B1 => 1,
            Bool::B8 => 8,
            Bool::B16 => 16,
            Bool::B32 => 32,
            Bool::B64 => 64,
        }
    }

    /// The unique number of this tag: its position among the booleans, offset
    /// by the lane base `0x70`. Booleans open the lane enumeration.
    pub open spec fn spec_number(self) -> u8 {
        match self {
            Bool::B1 => 0x70,
            Bool::B8 => 0x71,
            Bool::B16 => 0x72,
            Bool::B32 => 0x73,
            Bool::B64 => 0x74,
        }
    }

    /// The unique number of this tag.
    pub fn number(self) -> (r: u8)
        ensures
            r == self.spec_number(),
    {
        match self {
            Bool::B1 => 0x70,
            Bool::B8 => 0x71,
            Bool::B16 => 0x72,
            Bool::B32 => 0x73,
            Bool::B64 => 0x74,
        }
    }

    /// The lowercase identifier of this tag.
    pub open spec fn spec_name(self) -> Seq<char> {
        match self {
            Bool::B1 => "b1"@,
            Bool::B8 => "b8"@,
            Bool::B16 => "b16"@,
            Bool::B32 => "b32"@,
            Bool::B64 => "b64"@,
        }
    }

    /// The lowercase identifier of this tag.
    pub fn name(self) -> (r: &'static str)
        ensures
            r@ == self.spec_name(),
    {
        match self {
            Bool::B1 => "b1",
            Bool::B8 => "b8",
            Bool::B16 => "b16",
            Bool::B32 => "b32",
            Bool::B64 => "b64",
        }
    }
}

impl Int {
    /// The number of bits in a value of this tag.
    pub open spec fn spec_lane_bits(self) -> u64 {
        match self {
            Int::I8 => 8,
            Int::I16 => 16,
            Int::I32 => 32,
            Int::I64 => 64,
        }
    }

    /// The number of bits in a value of this tag.
    pub fn lane_bits(self) -> (r: u64)
        ensures
            r == self.spec_lane_bits(),
    {
        match self {
            Int::I8 => 8,
            Int::I16 => 16,
            Int::I32 => 32,
            Int::I64 => 64,
        }
    }

    /// The unique number of this tag: its position among the integers, after
    /// the five booleans, offset by the lane base `0x70`.
    pub open spec fn spec_number(self) -> u8 {
        match self {
            Int::I8 => 0x75,
            Int::I16 => 0x76,
            Int::I32 => 0x77,
            Int::I64 => 0x78,
        }
    }

    /// The unique number of this tag.
    pub fn number(self) -> (r: u8)
        ensures
            r == self.spec_number(),
    {
        match self {
            Int::I8 => 0x75,
            Int::I16 => 0x76,
            Int::I32 => 0x77,
            Int::I64 => 0x78,
        }
    }

    /// The lowercase identifier of this tag.
    pub open spec fn spec_name(self) -> Seq<char> {
        match self {
            Int::I8 => "i8"@,
            Int::I16 => "i16"@,
            Int::I32 => "i32"@,
            Int::I64 => "i64"@,
        }
    }

    /// The lowercase identifier of this tag.
    pub fn name(self) -> (r: &'static str)
        ensures
            r@ == self.spec_name(),
    {
        match self {
            Int::I8 => "i8",
            Int::I16 => "i16",
            Int::I32 => "i32",
            Int::I64 => "i64",
        }
    }
}

impl Float {
    /// The number of bits in a value of this tag.
    pub open spec fn spec_lane_bits(self) -> u64 {
        match self {
            Float::F32 => 32,
            Float::F64 => 64,
        }
    }

    /// The number of bits in a value of this tag.
    pub fn lane_bits(self) -> (r: u64)
        ensures
            r == self.spec_lane_bits(),
    {
        match self {
            Float::F32 => 32,
            Float::F64 => 64,
        }
    }

    /// The unique number of this tag: its position among the floats, after
    /// the booleans and the integers, offset by the lane base `0x70`.
    pub open spec fn spec_number(self) -> u8 {
        match self {
            Float::F32 => 0x79,
            Float::F64 => 0x7A,
        }
    }

    /// The unique number of this tag.
    pub fn number(self) -> (r: u8)
        ensures
            r == self.spec_number(),
    {
        match self {
            Float::F32 => 0x79,
            Float::F64 => 0x7A,
        }
    }

    /// The lowercase identifier of this tag.
    pub open spec fn spec_name(self) -> Seq<char> {
        match self {
            Float::F32 => "f32"@,
            Float::F64 => "f64"@,
        }
    }

    /// The lowercase identifier of this tag.
    pub fn name(self) -> (r: &'static str)
        ensures
            r@ == self.spec_name(),
    {
        match self {
            Float::F32 => "f32",
            Float::F64 => "f64",
        }
    }
}

impl Flag {
    /// The unique number of this tag: one plus its position within the
    /// special-type namespace, which is disjoint from lanes and vectors.
    pub open spec fn spec_number(self) -> u8 {
        match self {
            Flag::IFlags => 1,
            Flag::FFlags => 2,
        }
    }

    /// The unique number of this tag.
    pub fn number(self) -> (r: u8)
        ensures
            r == self.spec_number(),
    {
        match self {
            Flag::IFlags => 1,
            Flag::FFlags => 2,
        }
    }

    /// The lowercase identifier of this tag.
    pub open spec fn spec_name(self) -> Seq<char> {
        match self {
            Flag::IFlags => "iflags"@,
            Flag::FFlags => "fflags"@,
        }
    }

    /// The lowercase identifier of this tag.
    pub fn name(self) -> (r: &'static str)
        ensures
            r@ == self.spec_name(),
    {
        match self {
            Flag::IFlags => "iflags",
            Flag::FFlags => "fflags",
        }
    }
}

} // verus!
