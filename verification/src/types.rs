//! The closed lattice of concrete SSA value types and its numeric encoding.
//!
//! A concrete type is a special type (a flag carrier that cannot be
//! vectorized), a lane type (a scalar usable as a vector lane), or a vector
//! type (a power-of-two number of lanes of one lane type). Every concrete
//! type has a unique number in `[0, 255]`: 0 is reserved, `0x01..=0x6F` is
//! the special range, `0x70..=0x7F` the lane range and `0x80..=0xFF` the
//! vector range. Numbers are derived from a fixed enumeration order, never
//! hand-assigned; downstream consumers read them as a stable binary
//! contract.

use vstd::prelude::*;

use crate::base_types::{Bool, Flag, Float, Int};
use crate::errors::GenError;

verus! {

/// The kinds of elements in a lane.
#[derive(Clone, Copy, Debug, PartialEq, Eq, Structural)]
pub enum LaneTypeTag {
    BoolType(Bool),
    IntType(Int),
    FloatType(Float),
}

impl LaneTypeTag {
    /// The number of bits in one lane of this tag.
    pub open spec fn spec_lane_bits(self) -> u64 {
        match self {
            LaneTypeTag::BoolType(b) => b.spec_lane_bits(),
            LaneTypeTag::IntType(i) => i.spec_lane_bits(),
            LaneTypeTag::FloatType(f) => f.spec_lane_bits(),
        }
    }

    /// The unique number of the lane type with this tag.
    pub open spec fn spec_number(self) -> u8 {
        match self {
            LaneTypeTag::BoolType(b) => b.spec_number(),
            LaneTypeTag::IntType(i) => i.spec_number(),
            LaneTypeTag::FloatType(f) => f.spec_number(),
        }
    }

    /// The lowercase identifier of the lane type with this tag.
    pub open spec fn spec_name(self) -> Seq<char> {
        match self {
            LaneTypeTag::BoolType(b) => b.spec_name(),
            LaneTypeTag::IntType(i) => i.spec_name(),
            LaneTypeTag::FloatType(f) => f.spec_name(),
        }
    }

    /// Get the name of a lane type.
    pub fn name(self) -> (r: &'static str)
        ensures
            r@ == self.spec_name(),
    {
        match self {
            LaneTypeTag::BoolType(b) => b.name(),
            LaneTypeTag::IntType(i) => i.name(),
            LaneTypeTag::FloatType(f) => f.name(),
        }
    }

    /// Find the unique number of the lane type with this tag.
    pub fn number(self) -> (r: u8)
        ensures
            r == self.spec_number(),
    {
        match self {
            LaneTypeTag::BoolType(b) => b.number(),
            LaneTypeTag::IntType(i) => i.number(),
            LaneTypeTag::FloatType(f) => f.number(),
        }
    }
}

/// A concrete scalar type that can appear as a vector lane too.
#[derive(Clone, Copy, Debug, PartialEq, Eq, Structural)]
pub struct LaneType {
    pub tag: LaneTypeTag,
}

impl LaneType {
    /// The number of bits in a lane.
    pub open spec fn spec_lane_bits(self) -> u64 {
        self.tag.spec_lane_bits()
    }

    /// The unique number of this type.
    pub open spec fn spec_number(self) -> u8 {
        self.tag.spec_number()
    }

    /// The lowercase identifier of this type.
    pub open spec fn spec_name(self) -> Seq<char> {
        self.tag.spec_name()
    }

    /// The documentation string of this type, derived purely from the tag
    /// and the bit width.
    pub open spec fn spec_doc(self) -> Seq<char> {
        match self.tag {
            LaneTypeTag::BoolType(Bool::B1) => "A boolean type with 1 bits."@,
            LaneTypeTag::BoolType(Bool::B8) => "A boolean type with 8 bits."@,
            LaneTypeTag::BoolType(Bool::B16) => "A boolean type with 16 bits."@,
            LaneTypeTag::BoolType(Bool::B32) => "A boolean type with 32 bits."@,
            LaneTypeTag::BoolType(Bool::B64) => "A boolean type with 64 bits."@,
            LaneTypeTag::IntType(Int::I8) => "An integer type with 8 bits. WARNING: arithmetic on 8bit integers is incomplete."@,
            LaneTypeTag::IntType(Int::I16) => "An integer type with 16 bits. WARNING: arithmetic on 16bit integers is incomplete."@,
            LaneTypeTag::IntType(Int::I32) => "An integer type with 32 bits."@,
            LaneTypeTag::IntType(Int::I64) => "An integer type with 64 bits."@,
            LaneTypeTag::FloatType(Float::F32) => "A 32-bit floating point type represented in the IEEE 754-2008 *binary32* interchange format. This corresponds to the :c:type:`float` type in most C implementations."@,
            LaneTypeTag::FloatType(Float::F64) => "A 64-bit floating point type represented in the IEEE 754-2008 *binary64* interchange format. This corresponds to the :c:type:`double` type in most C implementations."@,
        }
    }

    /// The uppercase identifier of this type, used for emitted constants.
    pub open spec fn spec_const_name(self) -> Seq<char> {
        match self.tag {
            LaneTypeTag::BoolType(Bool::B1) => "B1"@,
            LaneTypeTag::BoolType(Bool::B8) => "B8"@,
            LaneTypeTag::BoolType(Bool::B16) => "B16"@,
            LaneTypeTag::BoolType(Bool::B32) => "B32"@,
            LaneTypeTag::BoolType(Bool::B64) => "B64"@,
            LaneTypeTag::IntType(Int::I8) => "I8"@,
            LaneTypeTag::IntType(Int::I16) => "I16"@,
            LaneTypeTag::IntType(Int::I32) => "I32"@,
            LaneTypeTag::IntType(Int::I64) => "I64"@,
            LaneTypeTag::FloatType(Float::F32) => "F32"@,
            LaneTypeTag::FloatType(Float::F64) => "F64"@,
        }
    }

    /// Get the name of this type.
    pub fn name(&self) -> (r: &'static str)
        ensures
            r@ == self.spec_name(),
    {
        self.tag.name()
    }

    /// Return a string containing the documentation comment for this type.
    pub fn doc(&self) -> (r: &'static str)
        ensures
            r@ == self.spec_doc(),
    {
        match self.tag {
            LaneTypeTag::BoolType(Bool::B1) => "A boolean type with 1 bits.",
            LaneTypeTag::BoolType(Bool::B8) => "A boolean type with 8 bits.",
            LaneTypeTag::BoolType(Bool::B16) => "A boolean type with 16 bits.",
            LaneTypeTag::BoolType(Bool::B32) => "A boolean type with 32 bits.",
            LaneTypeTag::BoolType(Bool::B64) => "A boolean type with 64 bits.",
            LaneTypeTag::IntType(Int::I8) => "An integer type with 8 bits. WARNING: arithmetic on 8bit integers is incomplete.",
            LaneTypeTag::IntType(Int::I16) => "An integer type with 16 bits. WARNING: arithmetic on 16bit integers is incomplete.",
            LaneTypeTag::IntType(Int::I32) => "An integer type with 32 bits.",
            LaneTypeTag::IntType(Int::I64) => "An integer type with 64 bits.",
            LaneTypeTag::FloatType(Float::F32) => "A 32-bit floating point type represented in the IEEE 754-2008 *binary32* interchange format. This corresponds to the :c:type:`float` type in most C implementations.",
            LaneTypeTag::FloatType(Float::F64) => "A 64-bit floating point type represented in the IEEE 754-2008 *binary64* interchange format. This corresponds to the :c:type:`double` type in most C implementations.",
        }
    }

    /// The uppercase identifier of this type, used for emitted constants.
    pub fn const_name(&self) -> (r: &'static str)
        ensures
            r@ == self.spec_const_name(),
    {
        match self.tag {
            LaneTypeTag::BoolType(Bool::B1) => "B1",
            LaneTypeTag::BoolType(Bool::B8) => "B8",
            LaneTypeTag::BoolType(Bool::B16) => "B16",
            LaneTypeTag::BoolType(Bool::B32) => "B32",
            LaneTypeTag::BoolType(Bool::B64) => "B64",
            LaneTypeTag::IntType(Int::I8) => "I8",
            LaneTypeTag::IntType(Int::I16) => "I16",
            LaneTypeTag::IntType(Int::I32) => "I32",
            LaneTypeTag::IntType(Int::I64) => "I64",
            LaneTypeTag::FloatType(Float::F32) => "F32",
            LaneTypeTag::FloatType(Float::F64) => "F64",
        }
    }

    /// Find the unique number associated with this type.
    pub fn number(&self) -> (r: u8)
        ensures
            r == self.spec_number(),
    {
        self.tag.number()
    }

    /// Find the number of bytes that this type occupies in memory.
    pub fn membytes(&self) -> (r: u64)
        ensures
            r == self.spec_lane_bits() / 8,
    {
        self.lane_bits() / 8
    }

    /// Return the number of lanes: a scalar has exactly one.
    pub fn lane_count(&self) -> (r: u64)
        ensures
            r == 1,
    {
        1
    }

    /// Return the number of bits in a lane.
    pub fn lane_bits(&self) -> (r: u64)
        ensures
            r == self.spec_lane_bits(),
    {
        match self.tag {
            LaneTypeTag::BoolType(b) => b.lane_bits(),
            LaneTypeTag::IntType(i) => i.lane_bits(),
            LaneTypeTag::FloatType(f) => f.lane_bits(),
        }
    }

    /// Return the total number of bits of an instance of this type.
    pub fn width(&self) -> (r: u64)
        ensures
            r == self.spec_lane_bits(),
    {
        self.lane_count() * self.lane_bits()
    }

    /// Return true iff self and other have an equal number of lanes and each
    /// lane in self has at least as many bits as a lane in other.
    pub fn wider_or_equal(&self, rhs: &LaneType) -> (r: bool)
        ensures
            r == (self.spec_lane_bits() >= rhs.spec_lane_bits()),
    {
        self.lane_bits() >= rhs.lane_bits()
    }
}

/// How many lane types the canonical enumeration holds.
pub open spec fn n_lane_types() -> int {
    11
}

/// The canonical enumeration of the lane types: booleans, then integers,
/// then floats, ascending bit width within each family. This order fixes
/// the numbering and must not change between generator runs.
pub open spec fn lane_type_at(i: int) -> LaneType {
    if i == 0 {
        LaneType { tag: LaneTypeTag::BoolType(Bool::B1) }
    } else if i == 1 {
        LaneType { tag: LaneTypeTag::BoolType(Bool::B8) }
    } else if i == 2 {
        LaneType { tag: LaneTypeTag::BoolType(Bool::B16) }
    } else if i == 3 {
        LaneType { tag: LaneTypeTag::BoolType(Bool::B32) }
    } else if i == 4 {
        LaneType { tag: LaneTypeTag::BoolType(Bool::B64) }
    } else if i == 5 {
        LaneType { tag: LaneTypeTag::IntType(Int::I8) }
    } else if i == 6 {
        LaneType { tag: LaneTypeTag::IntType(Int::I16) }
    } else if i == 7 {
        LaneType { tag: LaneTypeTag::IntType(Int::I32) }
    } else if i == 8 {
        LaneType { tag: LaneTypeTag::IntType(Int::I64) }
    } else if i == 9 {
        LaneType { tag: LaneTypeTag::FloatType(Float::F32) }
    } else {
        LaneType { tag: LaneTypeTag::FloatType(Float::F64) }
    }
}

/// A restartable enumerator over the lane types, in canonical order.
pub struct LaneTypeIterator {
    index: usize,
}

impl LaneTypeIterator {
    /// How many lane types have been handed out already.
    pub closed spec fn spec_pos(&self) -> int {
        self.index as int
    }

    fn new() -> (r: Self)
        ensures
            r.spec_pos() == 0,
    {
        LaneTypeIterator { index: 0 }
    }

    /// The next lane type in canonical order, or `None` after the last.
    pub fn next(&mut self) -> (r: Option<LaneType>)
        ensures
            old(self).spec_pos() < n_lane_types() ==> {
                &&& r == Some(lane_type_at(old(self).spec_pos()))
                &&& final(self).spec_pos() == old(self).spec_pos() + 1
            },
            old(self).spec_pos() >= n_lane_types() ==> {
                &&& r == None::<LaneType>
                &&& final(self).spec_pos() == old(self).spec_pos()
            },
    {
        if self.index < 11 {
            let i = self.index;
            self.index = i + 1;
            let t = match i {
                0 => LaneType { tag: LaneTypeTag::BoolType(Bool::B1) },
                1 => LaneType { tag: LaneTypeTag::BoolType(Bool::B8) },
                2 => LaneType { tag: LaneTypeTag::BoolType(Bool::B16) },
                3 => LaneType { tag: LaneTypeTag::BoolType(Bool::B32) },
                4 => LaneType { tag: LaneTypeTag::BoolType(Bool::B64) },
                5 => LaneType { tag: LaneTypeTag::IntType(Int::I8) },
                6 => LaneType { tag: LaneTypeTag::IntType(Int::I16) },
                7 => LaneType { tag: LaneTypeTag::IntType(Int::I32) },
                8 => LaneType { tag: LaneTypeTag::IntType(Int::I64) },
                9 => LaneType { tag: LaneTypeTag::FloatType(Float::F32) },
                _ => LaneType { tag: LaneTypeTag::FloatType(Float::F64) },
            };
            Some(t)
        } else {
            None
        }
    }
}

/// Whether `lanes` is a valid vector lane count: a power of two in
/// `[2, 256]`.
pub open spec fn valid_lane_count(lanes: u64) -> bool {
    ||| lanes == 2
    ||| lanes == 4
    ||| lanes == 8
    ||| lanes == 16
    ||| lanes == 32
    ||| lanes == 64
    ||| lanes == 128
    ||| lanes == 256
}

/// The base-two logarithm of a valid lane count.
pub open spec fn spec_log2(lanes: u64) -> u64 {
    if lanes == 2 {
        1
    } else if lanes == 4 {
        2
    } else if lanes == 8 {
        3
    } else if lanes == 16 {
        4
    } else if lanes == 32 {
        5
    } else if lanes == 64 {
        6
    } else if lanes == 128 {
        7
    } else if lanes == 256 {
        8
    } else {
        0
    }
}

/// The decimal rendering of a valid lane count.
pub open spec fn spec_lanes_dec(lanes: u64) -> Seq<char> {
    if lanes == 2 {
        "2"@
    } else if lanes == 4 {
        "4"@
    } else if lanes == 8 {
        "8"@
    } else if lanes == 16 {
        "16"@
    } else if lanes == 32 {
        "32"@
    } else if lanes == 64 {
        "64"@
    } else if lanes == 128 {
        "128"@
    } else {
        "256"@
    }
}

/// A concrete SIMD vector type: a lane type and a positive number of lanes.
#[derive(Clone, Copy, Debug, PartialEq, Eq, Structural)]
pub struct VectorType {
    pub base: LaneType,
    pub lanes: u64,
}

impl VectorType {
    /// Whether the lane count is a power of two in `[2, 256]`.
    pub open spec fn wf(self) -> bool {
        valid_lane_count(self.lanes)
    }

    /// The unique number of this type: `16 * log2(lanes)` plus the number of
    /// the lane type.
    pub open spec fn spec_number(self) -> u8 {
        (16 * spec_log2(self.lanes) + self.base.spec_number()) as u8
    }

    /// The lowercase identifier of this type.
    pub open spec fn spec_name(self) -> Seq<char> {
        self.base.spec_name() + "X"@ + spec_lanes_dec(self.lanes)
    }

    /// The uppercase identifier of this type, used for emitted constants.
    pub open spec fn spec_const_name(self) -> Seq<char> {
        self.base.spec_const_name() + "X"@ + spec_lanes_dec(self.lanes)
    }

    /// The documentation string of this type.
    pub open spec fn spec_doc(self) -> Seq<char> {
        "A SIMD vector with "@ + spec_lanes_dec(self.lanes) + " lanes containing a '"@
            + self.base.spec_name() + "' each."@
    }

    /// Initialize a new vector type over `base` with `lanes` lanes. The lane
    /// count must be a power of two in `[2, 256]`.
    pub fn new(base: LaneType, lanes: u64) -> (r: Result<VectorType, GenError>)
        ensures
            valid_lane_count(lanes) ==> (r == Ok::<VectorType, GenError>(
                VectorType { base, lanes },
            )),
            !valid_lane_count(lanes) ==> (r == Err::<VectorType, GenError>(
                GenError::InvalidLaneCount { lanes },
            )),
    {
        match lanes {
            2 | 4 | 8 | 16 | 32 | 64 | 128 | 256 => Ok(VectorType { base, lanes }),
            _ => Err(GenError::InvalidLaneCount { lanes }),
        }
    }

    /// The decimal rendering of the lane count.
    fn lanes_dec(&self) -> (r: &'static str)
        requires
            self.wf(),
        ensures
            r@ == spec_lanes_dec(self.lanes),
    {
        match self.lanes {
            2 => "2",
            4 => "4",
            8 => "8",
            16 => "16",
            32 => "32",
            64 => "64",
            128 => "128",
            _ => "256",
        }
    }

    /// Get the name of this type.
    pub fn name(&self) -> (r: String)
        requires
            self.wf(),
        ensures
            r@ == self.spec_name(),
    {
        String::from_str(self.base.name()).concat("X").concat(self.lanes_dec())
    }

    /// The uppercase identifier of this type, used for emitted constants.
    pub fn const_name(&self) -> (r: String)
        requires
            self.wf(),
        ensures
            r@ == self.spec_const_name(),
    {
        String::from_str(self.base.const_name()).concat("X").concat(self.lanes_dec())
    }

    /// Return a string containing the documentation comment for this type.
    pub fn doc(&self) -> (r: String)
        requires
            self.wf(),
        ensures
            r@ == self.spec_doc(),
    {
        String::from_str("A SIMD vector with ").concat(self.lanes_dec()).concat(
            " lanes containing a '",
        ).concat(self.base.name()).concat("' each.")
    }

    /// Find the unique number associated with this type.
    pub fn number(&self) -> (r: u8)
        requires
            self.wf(),
        ensures
            r == self.spec_number(),
    {
        let k: u8 = match self.lanes {
            2 => 1,
            4 => 2,
            8 => 3,
            16 => 4,
            32 => 5,
            64 => 6,
            128 => 7,
            _ => 8,
        };
        16 * k + self.base.number()
    }

    /// Return the number of lanes.
    pub fn lane_count(&self) -> (r: u64)
        ensures
            r == self.lanes,
    {
        self.lanes
    }

    /// Return the number of bits in a lane.
    pub fn lane_bits(&self) -> (r: u64)
        ensures
            r == self.base.spec_lane_bits(),
    {
        self.base.lane_bits()
    }
}

/// A flat bitvector type. Used for formal semantics description only; it is
/// never memory-resident and carries no number.
#[derive(Clone, Copy, Debug, PartialEq, Eq, Structural)]
pub struct BVType {
    pub width: u64,
}

impl BVType {
    /// Initialize a new bitvector type with `width` bits.
    pub fn new(width: u64) -> (r: Self)
        ensures
            r.width == width,
    {
        BVType { width }
    }
}

/// The tag of a special type.
#[derive(Clone, Copy, Debug, PartialEq, Eq, Structural)]
pub enum SpecialTypeTag {
    Flag(Flag),
}

impl SpecialTypeTag {
    /// The unique number of the special type with this tag.
    pub open spec fn spec_number(self) -> u8 {
        match self {
            SpecialTypeTag::Flag(f) => f.spec_number(),
        }
    }

    /// The lowercase identifier of the special type with this tag.
    pub open spec fn spec_name(self) -> Seq<char> {
        match self {
            SpecialTypeTag::Flag(f) => f.spec_name(),
        }
    }

    /// Get the name of this tag.
    pub fn name(&self) -> (r: &'static str)
        ensures
            r@ == self.spec_name(),
    {
        match self {
            SpecialTypeTag::Flag(f) => f.name(),
        }
    }

    /// Find the unique number of this tag.
    pub fn number(&self) -> (r: u8)
        ensures
            r == self.spec_number(),
    {
        match self {
            SpecialTypeTag::Flag(f) => f.number(),
        }
    }
}

/// A concrete scalar type that is neither a vector nor a lane type.
///
/// Special types cannot be used to form vectors.
#[derive(Clone, Copy, Debug, PartialEq, Eq, Structural)]
pub struct SpecialType {
    pub tag: SpecialTypeTag,
}

impl SpecialType {
    /// The unique number of this type.
    pub open spec fn spec_number(self) -> u8 {
        self.tag.spec_number()
    }

    /// The lowercase identifier of this type.
    pub open spec fn spec_name(self) -> Seq<char> {
        self.tag.spec_name()
    }

    /// The documentation string of this type.
    pub open spec fn spec_doc(self) -> Seq<char> {
        match self.tag {
            SpecialTypeTag::Flag(Flag::IFlags) => "CPU flags representing the result of an integer comparison. These flags can be tested with an :type:`intcc` condition code."@,
            SpecialTypeTag::Flag(Flag::FFlags) => "CPU flags representing the result of a floating point comparison. These flags can be tested with a :type:`floatcc` condition code."@,
        }
    }

    /// The uppercase identifier of this type, used for emitted constants.
    pub open spec fn spec_const_name(self) -> Seq<char> {
        match self.tag {
            SpecialTypeTag::Flag(Flag::IFlags) => "IFLAGS"@,
            SpecialTypeTag::Flag(Flag::FFlags) => "FFLAGS"@,
        }
    }

    /// Get the name of this type.
    pub fn name(&self) -> (r: &'static str)
        ensures
            r@ == self.spec_name(),
    {
        self.tag.name()
    }

    /// Return a string containing the documentation comment for this type.
    pub fn doc(&self) -> (r: &'static str)
        ensures
            r@ == self.spec_doc(),
    {
        match self.tag {
            SpecialTypeTag::Flag(Flag::IFlags) => "CPU flags representing the result of an integer comparison. These flags can be tested with an :type:`intcc` condition code.",
            SpecialTypeTag::Flag(Flag::FFlags) => "CPU flags representing the result of a floating point comparison. These flags can be tested with a :type:`floatcc` condition code.",
        }
    }

    /// The uppercase identifier of this type, used for emitted constants.
    pub fn const_name(&self) -> (r: &'static str)
        ensures
            r@ == self.spec_const_name(),
    {
        match self.tag {
            SpecialTypeTag::Flag(Flag::IFlags) => "IFLAGS",
            SpecialTypeTag::Flag(Flag::FFlags) => "FFLAGS",
        }
    }

    /// Find the unique number associated with this type.
    pub fn number(&self) -> (r: u8)
        ensures
            r == self.spec_number(),
    {
        self.tag.number()
    }
}

/// How many special types the canonical enumeration holds.
pub open spec fn n_special_types() -> int {
    2
}

/// The canonical enumeration of the special types, in declaration order of
/// the special-type source set.
pub open spec fn special_type_at(i: int) -> ValueType {
    if i == 0 {
        ValueType::Special(SpecialType { tag: SpecialTypeTag::Flag(Flag::IFlags) })
    } else {
        ValueType::Special(SpecialType { tag: SpecialTypeTag::Flag(Flag::FFlags) })
    }
}

/// A restartable enumerator over the special types, in canonical order.
pub struct SpecialTypeIterator {
    index: usize,
}

impl SpecialTypeIterator {
    /// How many special types have been handed out already.
    pub closed spec fn spec_pos(&self) -> int {
        self.index as int
    }

    fn new() -> (r: Self)
        ensures
            r.spec_pos() == 0,
    {
        SpecialTypeIterator { index: 0 }
    }

    /// The next special type in canonical order, or `None` after the last.
    pub fn next(&mut self) -> (r: Option<ValueType>)
        ensures
            old(self).spec_pos() < n_special_types() ==> {
                &&& r == Some(special_type_at(old(self).spec_pos()))
                &&& final(self).spec_pos() == old(self).spec_pos() + 1
            },
            old(self).spec_pos() >= n_special_types() ==> {
                &&& r == None::<ValueType>
                &&& final(self).spec_pos() == old(self).spec_pos()
            },
    {
        if self.index < 2 {
            let i = self.index;
            self.index = i + 1;
            if i == 0 {
                Some(ValueType::Special(SpecialType { tag: SpecialTypeTag::Flag(Flag::IFlags) }))
            } else {
                Some(ValueType::Special(SpecialType { tag: SpecialTypeTag::Flag(Flag::FFlags) }))
            }
        } else {
            None
        }
    }
}

/// A concrete SSA value type.
///
/// All SSA values have a type that is described by an instance of
/// `ValueType`.
#[derive(Clone, Copy, Debug, PartialEq, Eq, Structural)]
pub enum ValueType {
    BV(BVType),
    Lane(LaneType),
    Special(SpecialType),
    Vector(VectorType),
}

impl ValueType {
    /// Whether this type is well formed: vectors must carry a valid lane
    /// count.
    pub open spec fn wf(self) -> bool {
        match self {
            ValueType::Vector(v) => v.wf(),
            _ => true,
        }
    }

    /// The unique number of this type. Bitvector types carry no number.
    pub open spec fn spec_number(self) -> u8 {
        match self {
            ValueType::BV(_) => 0,
            ValueType::Lane(l) => l.spec_number(),
            ValueType::Special(s) => s.spec_number(),
            ValueType::Vector(v) => v.spec_number(),
        }
    }

    /// The lowercase identifier of this type.
    pub open spec fn spec_name(self) -> Seq<char> {
        match self {
            ValueType::BV(_) => Seq::<char>::empty(),
            ValueType::Lane(l) => l.spec_name(),
            ValueType::Special(s) => s.spec_name(),
            ValueType::Vector(v) => v.spec_name(),
        }
    }

    /// The documentation string of this type.
    pub open spec fn spec_doc(self) -> Seq<char> {
        match self {
            ValueType::BV(_) => Seq::<char>::empty(),
            ValueType::Lane(l) => l.spec_doc(),
            ValueType::Special(s) => s.spec_doc(),
            ValueType::Vector(v) => v.spec_doc(),
        }
    }

    /// The uppercase identifier of this type, used for emitted constants.
    pub open spec fn spec_const_name(self) -> Seq<char> {
        match self {
            ValueType::BV(_) => Seq::<char>::empty(),
            ValueType::Lane(l) => l.spec_const_name(),
            ValueType::Special(s) => s.spec_const_name(),
            ValueType::Vector(v) => v.spec_const_name(),
        }
    }

    /// Iterate through all of the special types (neither lanes nor vectors).
    pub fn all_special_types() -> (r: SpecialTypeIterator)
        ensures
            r.spec_pos() == 0,
    {
        SpecialTypeIterator::new()
    }

    /// Iterate through all of the lane types.
    pub fn all_lane_types() -> (r: LaneTypeIterator)
        ensures
            r.spec_pos() == 0,
    {
        LaneTypeIterator::new()
    }

    /// Get the name of this type. Bitvector types are never named in
    /// emitted artifacts.
    pub fn name(&self) -> (r: String)
        requires
            !(self is BV),
            self.wf(),
        ensures
            r@ == self.spec_name(),
    {
        match self {
            ValueType::BV(_) => String::new(),
            ValueType::Lane(l) => String::from_str(l.name()),
            ValueType::Special(s) => String::from_str(s.name()),
            ValueType::Vector(v) => v.name(),
        }
    }

    /// Return a string containing the documentation comment for this type.
    pub fn doc(&self) -> (r: String)
        requires
            !(self is BV),
            self.wf(),
        ensures
            r@ == self.spec_doc(),
    {
        match self {
            ValueType::BV(_) => String::new(),
            ValueType::Lane(l) => String::from_str(l.doc()),
            ValueType::Special(s) => String::from_str(s.doc()),
            ValueType::Vector(v) => v.doc(),
        }
    }

    /// The uppercase identifier of this type, used for emitted constants.
    pub fn const_name(&self) -> (r: String)
        requires
            !(self is BV),
            self.wf(),
        ensures
            r@ == self.spec_const_name(),
    {
        match self {
            ValueType::BV(_) => String::new(),
            ValueType::Lane(l) => String::from_str(l.const_name()),
            ValueType::Special(s) => String::from_str(s.const_name()),
            ValueType::Vector(v) => v.const_name(),
        }
    }

    /// Return the name of this type for other generated source files.
    pub fn rust_name(&self) -> (r: String)
        requires
            !(self is BV),
            self.wf(),
        ensures
            r@ == "ir::types::"@ + self.spec_const_name(),
    {
        String::from_str("ir::types::").concat(self.const_name().as_str())
    }

    /// Find the unique number associated with this type. Bitvector types
    /// carry no number.
    pub fn number(&self) -> (r: u8)
        requires
            !(self is BV),
            self.wf(),
        ensures
            r == self.spec_number(),
    {
        match self {
            ValueType::BV(_) => 0,
            ValueType::Lane(l) => l.number(),
            ValueType::Special(s) => s.number(),
            ValueType::Vector(v) => v.number(),
        }
    }
}

impl From<BVType> for ValueType {
    fn from(bv: BVType) -> (r: Self) {
        ValueType::BV(bv)
    }
}

impl vstd::std_specs::convert::FromSpecImpl<BVType> for ValueType {
    open spec fn obeys_from_spec() -> bool {
        true
    }

    open spec fn from_spec(bv: BVType) -> Self {
        ValueType::BV(bv)
    }
}

impl From<LaneType> for ValueType {
    fn from(lane: LaneType) -> (r: Self) {
        ValueType::Lane(lane)
    }
}

impl vstd::std_specs::convert::FromSpecImpl<LaneType> for ValueType {
    open spec fn obeys_from_spec() -> bool {
        true
    }

    open spec fn from_spec(lane: LaneType) -> Self {
        ValueType::Lane(lane)
    }
}

impl From<SpecialType> for ValueType {
    fn from(spec: SpecialType) -> (r: Self) {
        ValueType::Special(spec)
    }
}

impl vstd::std_specs::convert::FromSpecImpl<SpecialType> for ValueType {
    open spec fn obeys_from_spec() -> bool {
        true
    }

    open spec fn from_spec(spec: SpecialType) -> Self {
        ValueType::Special(spec)
    }
}

impl From<VectorType> for ValueType {
    fn from(vector: VectorType) -> (r: Self) {
        ValueType::Vector(vector)
    }
}

impl vstd::std_specs::convert::FromSpecImpl<VectorType> for ValueType {
    open spec fn obeys_from_spec() -> bool {
        true
    }

    open spec fn from_spec(vector: VectorType) -> Self {
        ValueType::Vector(vector)
    }
}

/// Whether an encoded type number denotes a vector type: the vector range
/// begins at `0x80`.
pub fn is_vector(t: u8) -> (r: bool)
    ensures
        r == (t >= 0x80),
{
    t >= 0x80
}

/// The lane bit width encoded in the low four bits of a lane or vector type
/// number: the position within the lane enumeration fixes the width.
pub open spec fn spec_lane_bit_width(t: u8) -> u32 {
    let r = t as int % 16;
    if r == 0 {
        1
    } else if r == 1 {
        8
    } else if r == 2 {
        16
    } else if r == 3 {
        32
    } else if r == 4 {
        64
    } else if r == 5 {
        8
    } else if r == 6 {
        16
    } else if r == 7 {
        32
    } else if r == 8 {
        64
    } else if r == 9 {
        32
    } else if r == 10 {
        64
    } else {
        0
    }
}

/// The number of bits in one lane of the lane or vector type encoded as `t`.
pub fn lane_bit_width(t: u8) -> (r: u32)
    ensures
        r == spec_lane_bit_width(t),
{
    match t % 16 {
        0 => 1,
        1 => 8,
        2 => 16,
        3 => 32,
        4 => 64,
        5 => 8,
        6 => 16,
        7 => 32,
        8 => 64,
        9 => 32,
        10 => 64,
        _ => 0,
    }
}

/// A lane type's number is derived from the canonical enumeration: its
/// position, offset by the lane base `0x70`.
pub proof fn lemma_lane_number_is_position(i: int)
    requires
        0 <= i < n_lane_types(),
    ensures
        lane_type_at(i).spec_number() == 0x70 + i,
{
}

/// A special type's number is derived from its own namespace: one plus its
/// position in the canonical enumeration.
pub proof fn lemma_special_number_is_position(i: int)
    requires
        0 <= i < n_special_types(),
    ensures
        special_type_at(i).spec_number() == 1 + i,
{
}

/// Every lane type is numbered within the lane range `[0x70, 0x7F]`.
pub proof fn lemma_lane_number_range(t: LaneType)
    ensures
        0x70 <= t.spec_number() <= 0x7F,
{
}

/// Every special type is numbered within the special range `[0x01, 0x6F]`.
pub proof fn lemma_special_number_range(s: SpecialType)
    ensures
        0x01 <= s.spec_number() <= 0x6F,
{
}

/// Every well-formed vector type is numbered within the vector range
/// `[0x80, 0xFF]`.
pub proof fn lemma_vector_number_range(v: VectorType)
    requires
        v.wf(),
    ensures
        0x80 <= v.spec_number() <= 0xFF,
{
}

/// The vector numbering formula: a vector over a lane type numbered `b`
/// with `pow2(k)` lanes is numbered `16 * k + b`.
pub proof fn lemma_vector_number_formula(v: VectorType, k: nat)
    requires
        v.wf(),
        v.lanes == vstd::arithmetic::power2::pow2(k),
    ensures
        v.spec_number() == 16 * k + v.base.spec_number(),
{
    vstd::arithmetic::power2::lemma2_to64();
    if k > 8 {
        vstd::arithmetic::power2::lemma_pow2_strictly_increases(8, k);
        assert(false);
    }
}

/// No two distinct well-formed concrete types share an encoded number: the
/// special, lane and vector ranges are disjoint, and the numbering is
/// injective within each family.
pub proof fn lemma_numbering_unique(a: ValueType, b: ValueType)
    requires
        a.wf(),
        b.wf(),
        !(a is BV),
        !(b is BV),
        a != b,
    ensures
        a.spec_number() != b.spec_number(),
{
    match (a, b) {
        (ValueType::Vector(v1), ValueType::Vector(v2)) => {
            if a.spec_number() == b.spec_number() {
                let k1 = spec_log2(v1.lanes);
                let k2 = spec_log2(v2.lanes);
                assert(1 <= k1 <= 8);
                assert(1 <= k2 <= 8);
                assert(0x70 <= v1.base.spec_number() <= 0x7F) by {
                    lemma_lane_number_range(v1.base);
                }
                assert(0x70 <= v2.base.spec_number() <= 0x7F) by {
                    lemma_lane_number_range(v2.base);
                }
                assert(16 * k1 + v1.base.spec_number() == 16 * k2 + v2.base.spec_number());
                assert(k1 == k2);
                assert(v1.lanes == v2.lanes);
                assert(v1.base.spec_number() == v2.base.spec_number());
                assert(v1.base == v2.base);
                assert(false);
            }
        },
        _ => {
            if a is Lane {
                lemma_lane_number_range(lane_of(a));
            }
        },
    }
}

/// The lane type behind a `Lane` value.
pub open spec fn lane_of(a: ValueType) -> LaneType
    recommends
        a is Lane,
{
    match a {
        ValueType::Lane(l) => l,
        _ => LaneType { tag: LaneTypeTag::BoolType(Bool::B1) },
    }
}

/// Decoding a lane type's number yields its lane bit width, and the number
/// lies below the vector range.
pub proof fn lemma_lane_bit_width_lane(t: LaneType)
    ensures
        spec_lane_bit_width(t.spec_number()) as u64 == t.spec_lane_bits(),
        t.spec_number() < 0x80,
{
}

/// Decoding a well-formed vector type's number yields the bit width of its
/// lane type, and the number lies in the vector range.
pub proof fn lemma_lane_bit_width_vector(v: VectorType)
    requires
        v.wf(),
    ensures
        spec_lane_bit_width(v.spec_number()) as u64 == v.base.spec_lane_bits(),
        v.spec_number() >= 0x80,
{
}

/// Whether a character is ASCII alphanumeric.
pub open spec fn is_alnum(c: char) -> bool {
    ||| 'a' <= c <= 'z'
    ||| 'A' <= c <= 'Z'
    ||| '0' <= c <= '9'
}

/// Whether a string is a valid source identifier for emitted code:
/// nonempty, alphanumeric, with no leading digit.
pub open spec fn valid_identifier(s: Seq<char>) -> bool {
    &&& s.len() > 0
    &&& !('0' <= s[0] <= '9')
    &&& forall|i: int| 0 <= i < s.len() ==> is_alnum(#[trigger] s[i])
}

/// Every lane type's name is a valid source identifier.
pub proof fn lemma_lane_name_identifier(t: LaneType)
    ensures
        valid_identifier(t.spec_name()),
{
    reveal_strlit("b1");
    reveal_strlit("b8");
    reveal_strlit("b16");
    reveal_strlit("b32");
    reveal_strlit("b64");
    reveal_strlit("i8");
    reveal_strlit("i16");
    reveal_strlit("i32");
    reveal_strlit("i64");
    reveal_strlit("f32");
    reveal_strlit("f64");
    let s = t.spec_name();
    assert forall|i: int| 0 <= i < s.len() implies is_alnum(s[i]) by {}
}

/// Every special type's name is a valid source identifier.
pub proof fn lemma_special_name_identifier(t: SpecialType)
    ensures
        valid_identifier(t.spec_name()),
{
    reveal_strlit("iflags");
    reveal_strlit("fflags");
    let s = t.spec_name();
    assert forall|i: int| 0 <= i < s.len() implies is_alnum(s[i]) by {}
}

/// Every well-formed vector type's name is a valid source identifier: the
/// lane name, an `X`, and the decimal lane count.
pub proof fn lemma_vector_name_identifier(v: VectorType)
    requires
        v.wf(),
    ensures
        valid_identifier(v.spec_name()),
{
    lemma_lane_name_identifier(v.base);
    reveal_strlit("X");
    reveal_strlit("2");
    reveal_strlit("4");
    reveal_strlit("8");
    reveal_strlit("16");
    reveal_strlit("32");
    reveal_strlit("64");
    reveal_strlit("128");
    reveal_strlit("256");
    let b = v.base.spec_name();
    let d = spec_lanes_dec(v.lanes);
    let s = v.spec_name();
    assert(forall|i: int| 0 <= i < d.len() ==> '0' <= #[trigger] d[i] <= '9');
    assert(s[0] == b[0]);
    assert forall|i: int| 0 <= i < s.len() implies is_alnum(s[i]) by {
        if i < b.len() {
            assert(s[i] == b[i]);
        } else if i == b.len() {
            assert(s[i] == 'X');
        } else {
            assert(s[i] == d[i - b.len() - 1]);
        }
    }
}

/// Every named concrete type's name is a valid source identifier, so the
/// emitter can use it verbatim.
pub proof fn lemma_name_identifier(t: ValueType)
    requires
        !(t is BV),
        t.wf(),
    ensures
        valid_identifier(t.spec_name()),
{
    match t {
        ValueType::Lane(l) => lemma_lane_name_identifier(l),
        ValueType::Special(s) => lemma_special_name_identifier(s),
        ValueType::Vector(v) => lemma_vector_name_identifier(v),
        ValueType::BV(_) => {},
    }
}

/// Whether a table of encoded numbers is collision-free.
pub open spec fn all_numbers_distinct(s: Seq<u8>) -> bool {
    forall|i: int, j: int| 0 <= i < j < s.len() ==> s[i] != s[j]
}

/// Scan a table of encoded type numbers for a collision. A collision is a
/// fatal, build-aborting error: it would silently corrupt the binary
/// contract the emitted tables promise downstream consumers.
#[verifier::loop_isolation(false)]
pub fn check_numbering(numbers: &Vec<u8>) -> (r: Result<(), GenError>)
    ensures
        r is Ok <==> all_numbers_distinct(numbers@),
        r matches Err(e) ==> exists|i: int, j: int|
            0 <= i < j < numbers@.len() && numbers@[i] == numbers@[j] && e == (GenError::NumberingCollision {
                number: numbers@[i],
            }),
{
    let n = numbers.len();
    let mut i: usize = 0;
    while i < n
        invariant
            i <= n,
            forall|p: int, q: int| 0 <= p < q < n && p < i ==> numbers@[p] != numbers@[q],
        decreases n - i,
    {
        let mut j: usize = i + 1;
        while j < n
            invariant
                i < j <= n,
                forall|q: int| i < q < j ==> numbers@[i as int] != numbers@[q],
            decreases n - j,
        {
            if numbers[i] == numbers[j] {
                return Err(GenError::NumberingCollision { number: numbers[i] });
            }
            j += 1;
        }
        i += 1;
    }
    Ok(())
}

} // verus!
