//! The decision core of a NaN-canonicalizing rewrite.
//!
//! Downstream of the generator, an optimization pass replaces every
//! potentially nondeterministic NaN result of floating-point arithmetic
//! with one canonical bit pattern: after each such instruction it compares
//! the result with itself, inserts the canonical NaN constant for the
//! result's type, and selects between the two. This module holds the
//! pass's decisions over a value-level model of the instruction stream —
//! which instructions count as floating-point arithmetic, which canonical
//! constant belongs to an encoded result type, and the rewritten stream —
//! keyed to the numeric type encodings this crate emits.

use vstd::prelude::*;

use crate::base_types::{Bool, Float};

verus! {

/// The canonical 32-bit NaN bit pattern.
pub const CANON_32BIT_NAN: u32 = 0b01111111100000000000000000000001;

/// The canonical 64-bit NaN bit pattern.
pub const CANON_64BIT_NAN: u64 =
    0b0111111111110000000000000000000000000000000000000000000000000001;

/// The instruction operations the model distinguishes.
#[derive(Clone, Copy, Debug, PartialEq, Eq, Structural)]
pub enum Opcode {
    Ceil,
    Floor,
    Nearest,
    Sqrt,
    Trunc,
    Fadd,
    Fsub,
    Fmul,
    Fdiv,
    Fmin,
    Fmax,
    Fma,
    Fcmp,
    Select,
    F32const,
    F64const,
    Iadd,
    Imul,
    Jump,
}

/// A floating-point condition code.
#[derive(Clone, Copy, Debug, PartialEq, Eq, Structural)]
pub enum FloatCC {
    Equal,
    NotEqual,
    LessThan,
    GreaterThan,
}

/// The shape of one instruction: its format and operation. Value operands
/// are not modeled; the rewrite decisions depend only on this shape.
#[derive(Clone, Copy, Debug, PartialEq, Eq, Structural)]
pub enum InstructionData {
    Nullary { opcode: Opcode },
    Unary { opcode: Opcode },
    UnaryImm32 { opcode: Opcode, imm: u32 },
    UnaryImm64 { opcode: Opcode, imm: u64 },
    Binary { opcode: Opcode },
    FloatCompare { opcode: Opcode, cond: FloatCC },
    Ternary { opcode: Opcode },
}

/// One instruction of the modeled stream: its shape and the encoded number
/// of its result type.
#[derive(Clone, Copy, Debug, PartialEq, Eq, Structural)]
pub struct Instruction {
    pub data: InstructionData,
    pub result_type: u8,
}

/// Whether an instruction is a floating-point arithmetic operation whose
/// result may be a NaN. Operations that only touch the sign bit, such as
/// `fneg`, `fabs` or `fcopysign`, are not counted.
pub open spec fn spec_is_fp_arith(data: InstructionData) -> bool {
    match data {
        InstructionData::Unary { opcode } => {
            ||| opcode == Opcode::Ceil
            ||| opcode == Opcode::Floor
            ||| opcode == Opcode::Nearest
            ||| opcode == Opcode::Sqrt
            ||| opcode == Opcode::Trunc
        },
        InstructionData::Binary { opcode } => {
            ||| opcode == Opcode::Fadd
            ||| opcode == Opcode::Fdiv
            ||| opcode == Opcode::Fmax
            ||| opcode == Opcode::Fmin
            ||| opcode == Opcode::Fmul
            ||| opcode == Opcode::Fsub
        },
        InstructionData::Ternary { opcode } => opcode == Opcode::Fma,
        _ => false,
    }
}

/// Returns true/false based on whether the instruction is a floating-point
/// arithmetic operation. This ignores operations like `fneg`, `fabs`, or
/// `fcopysign` that only operate on the sign bit of a floating point
/// value.
pub fn is_fp_arith(data: &InstructionData) -> (r: bool)
    ensures
        r == spec_is_fp_arith(*data),
{
    match data {
        InstructionData::Unary { opcode } => {
            *opcode == Opcode::Ceil || *opcode == Opcode::Floor || *opcode == Opcode::Nearest
                || *opcode == Opcode::Sqrt || *opcode == Opcode::Trunc
        },
        InstructionData::Binary { opcode } => {
            *opcode == Opcode::Fadd || *opcode == Opcode::Fdiv || *opcode == Opcode::Fmax
                || *opcode == Opcode::Fmin || *opcode == Opcode::Fmul || *opcode == Opcode::Fsub
        },
        InstructionData::Ternary { opcode } => *opcode == Opcode::Fma,
        _ => false,
    }
}

/// The canonical NaN bit pattern for an encoded result type.
#[derive(Clone, Copy, Debug, PartialEq, Eq, Structural)]
pub enum CanonicalNan {
    Bits32(u32),
    Bits64(u64),
}

/// The canonical NaN constant for an encoded type number: defined exactly
/// for the two floating-point lane types.
pub open spec fn spec_canonical_nan(ty: u8) -> Option<CanonicalNan> {
    if ty == Float::F32.spec_number() {
        Some(CanonicalNan::Bits32(CANON_32BIT_NAN))
    } else if ty == Float::F64.spec_number() {
        Some(CanonicalNan::Bits64(CANON_64BIT_NAN))
    } else {
        None
    }
}

/// The canonical NaN constant for an encoded type number, or `None` when
/// the type is not a floating-point lane type.
pub fn canonical_nan(ty: u8) -> (r: Option<CanonicalNan>)
    ensures
        r == spec_canonical_nan(ty),
{
    if ty == 0x79 {
        Some(CanonicalNan::Bits32(CANON_32BIT_NAN))
    } else if ty == 0x7A {
        Some(CanonicalNan::Bits64(CANON_64BIT_NAN))
    } else {
        None
    }
}

/// The constant-definition instruction inserted for one encoded result
/// type: the canonical 32-bit or 64-bit NaN, or nothing for a type without
/// a canonical NaN.
pub open spec fn spec_nan_const_inst(ty: u8) -> Seq<Instruction> {
    if ty == Float::F32.spec_number() {
        seq![
            Instruction {
                data: InstructionData::UnaryImm32 {
                    opcode: Opcode::F32const,
                    imm: CANON_32BIT_NAN,
                },
                result_type: ty,
            },
        ]
    } else if ty == Float::F64.spec_number() {
        seq![
            Instruction {
                data: InstructionData::UnaryImm64 {
                    opcode: Opcode::F64const,
                    imm: CANON_64BIT_NAN,
                },
                result_type: ty,
            },
        ]
    } else {
        Seq::<Instruction>::empty()
    }
}

/// Append the canonical 32-bit or 64-bit NaN constant definition for the
/// given result type, or nothing when the type has no canonical NaN.
pub fn insert_nan_const(out: &mut Vec<Instruction>, ty: u8)
    ensures
        final(out)@ == old(out)@ + spec_nan_const_inst(ty),
{
    if ty == 0x79 {
        out.push(
            Instruction {
                data: InstructionData::UnaryImm32 {
                    opcode: Opcode::F32const,
                    imm: CANON_32BIT_NAN,
                },
                result_type: ty,
            },
        );
        proof {
            assert(final(out)@ =~= old(out)@ + spec_nan_const_inst(ty));
        }
    } else if ty == 0x7A {
        out.push(
            Instruction {
                data: InstructionData::UnaryImm64 {
                    opcode: Opcode::F64const,
                    imm: CANON_64BIT_NAN,
                },
                result_type: ty,
            },
        );
        proof {
            assert(final(out)@ =~= old(out)@ + spec_nan_const_inst(ty));
        }
    } else {
        proof {
            assert(final(out)@ =~= old(out)@ + spec_nan_const_inst(ty));
        }
    }
}

/// The instructions inserted after one floating-point arithmetic
/// instruction with the given encoded result type: a self-inequality
/// comparison (true exactly for a NaN result), the canonical constant for
/// the type, and a select that replaces a NaN result with the constant.
pub open spec fn spec_nan_canon_patch(ty: u8) -> Seq<Instruction> {
    seq![
        Instruction {
            data: InstructionData::FloatCompare { opcode: Opcode::Fcmp, cond: FloatCC::NotEqual },
            result_type: Bool::B1.spec_number(),
        },
    ] + spec_nan_const_inst(ty) + seq![
        Instruction { data: InstructionData::Ternary { opcode: Opcode::Select }, result_type: ty },
    ]
}

/// Patch instructions that may produce a NaN result: append the
/// comparison, the canonical constant and the select for one instruction
/// with the given encoded result type.
pub fn add_nan_canon_instrs(out: &mut Vec<Instruction>, ty: u8)
    ensures
        final(out)@ == old(out)@ + spec_nan_canon_patch(ty),
{
    out.push(
        Instruction {
            data: InstructionData::FloatCompare { opcode: Opcode::Fcmp, cond: FloatCC::NotEqual },
            result_type: 0x70,
        },
    );
    insert_nan_const(out, ty);
    out.push(
        Instruction { data: InstructionData::Ternary { opcode: Opcode::Select }, result_type: ty },
    );
    proof {
        assert(final(out)@ =~= old(out)@ + spec_nan_canon_patch(ty));
    }
}

/// One instruction of the rewritten stream: the instruction itself,
/// followed by its patch when it is floating-point arithmetic.
pub open spec fn spec_patched(i: Instruction) -> Seq<Instruction> {
    seq![i] + if spec_is_fp_arith(i.data) {
        spec_nan_canon_patch(i.result_type)
    } else {
        Seq::<Instruction>::empty()
    }
}

/// The whole rewritten stream.
pub open spec fn spec_nan_canon(s: Seq<Instruction>) -> Seq<Instruction>
    decreases s.len(),
{
    if s.len() == 0 {
        Seq::<Instruction>::empty()
    } else {
        spec_nan_canon(s.drop_last()) + spec_patched(s.last())
    }
}

/// Perform the NaN-canonicalization rewrite over a modeled instruction
/// stream: after every floating-point arithmetic instruction, insert the
/// instructions that replace a NaN result with the canonical NaN value of
/// its type.
#[verifier::loop_isolation(false)]
pub fn do_nan_canonicalization(func: &mut Vec<Instruction>)
    ensures
        final(func)@ == spec_nan_canon(old(func)@),
{
    let ghost orig = old(func)@;
    let mut out: Vec<Instruction> = Vec::new();
    let n = func.len();
    let mut i: usize = 0;
    proof {
        assert(orig.take(0) =~= Seq::<Instruction>::empty());
    }
    while i < n
        invariant
            i <= n,
            out@ == spec_nan_canon(orig.take(i as int)),
        decreases n - i,
    {
        let inst = func[i];
        out.push(inst);
        if is_fp_arith(&inst.data) {
            add_nan_canon_instrs(&mut out, inst.result_type);
        }
        proof {
            assert(orig.take(i + 1 as int).drop_last() =~= orig.take(i as int));
            assert(orig.take(i + 1 as int).last() == orig[i as int]);
            assert(out@ =~= spec_nan_canon(orig.take(i + 1 as int)));
        }
        i += 1;
    }
    proof {
        assert(orig.take(n as int) =~= orig);
    }
    *func = out;
}

} // verus!
