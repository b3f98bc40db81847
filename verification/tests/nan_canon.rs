use codegen_meta::nan_canonicalization::{
    add_nan_canon_instrs, canonical_nan, do_nan_canonicalization, insert_nan_const, is_fp_arith,
    CanonicalNan, FloatCC, Instruction, InstructionData, Opcode, CANON_32BIT_NAN, CANON_64BIT_NAN,
};

#[test]
fn is_fp_arith_works() {
    assert!(is_fp_arith(&InstructionData::Unary { opcode: Opcode::Sqrt }));
    assert!(is_fp_arith(&InstructionData::Unary { opcode: Opcode::Ceil }));
    assert!(is_fp_arith(&InstructionData::Unary { opcode: Opcode::Floor }));
    assert!(is_fp_arith(&InstructionData::Unary { opcode: Opcode::Nearest }));
    assert!(is_fp_arith(&InstructionData::Unary { opcode: Opcode::Trunc }));
    assert!(is_fp_arith(&InstructionData::Binary { opcode: Opcode::Fadd }));
    assert!(is_fp_arith(&InstructionData::Binary { opcode: Opcode::Fsub }));
    assert!(is_fp_arith(&InstructionData::Binary { opcode: Opcode::Fmul }));
    assert!(is_fp_arith(&InstructionData::Binary { opcode: Opcode::Fdiv }));
    assert!(is_fp_arith(&InstructionData::Binary { opcode: Opcode::Fmin }));
    assert!(is_fp_arith(&InstructionData::Binary { opcode: Opcode::Fmax }));
    assert!(is_fp_arith(&InstructionData::Ternary { opcode: Opcode::Fma }));
    // Integer arithmetic, control flow and the inserted instructions
    // themselves are not floating-point arithmetic.
    assert!(!is_fp_arith(&InstructionData::Binary { opcode: Opcode::Iadd }));
    assert!(!is_fp_arith(&InstructionData::Binary { opcode: Opcode::Imul }));
    assert!(!is_fp_arith(&InstructionData::Nullary { opcode: Opcode::Jump }));
    assert!(!is_fp_arith(&InstructionData::Ternary { opcode: Opcode::Select }));
    assert!(!is_fp_arith(&InstructionData::FloatCompare {
        opcode: Opcode::Fcmp,
        cond: FloatCC::NotEqual,
    }));
    assert!(!is_fp_arith(&InstructionData::UnaryImm32 {
        opcode: Opcode::F32const,
        imm: CANON_32BIT_NAN,
    }));
}

#[test]
fn canonical_nan_constants() {
    assert_eq!(canonical_nan(0x79), Some(CanonicalNan::Bits32(CANON_32BIT_NAN)));
    assert_eq!(canonical_nan(0x7A), Some(CanonicalNan::Bits64(CANON_64BIT_NAN)));
    assert_eq!(canonical_nan(0x77), None);
    assert_eq!(CANON_32BIT_NAN, 0x7F800001);
    assert_eq!(CANON_64BIT_NAN, 0x7FF0000000000001);
}

#[test]
fn nan_const_is_inserted_per_type() {
    let mut out: Vec<Instruction> = Vec::new();
    insert_nan_const(&mut out, 0x79);
    assert_eq!(out.len(), 1);
    assert_eq!(
        out[0].data,
        InstructionData::UnaryImm32 { opcode: Opcode::F32const, imm: CANON_32BIT_NAN }
    );
    insert_nan_const(&mut out, 0x7A);
    assert_eq!(out.len(), 2);
    assert_eq!(
        out[1].data,
        InstructionData::UnaryImm64 { opcode: Opcode::F64const, imm: CANON_64BIT_NAN }
    );
    // A non-float type inserts nothing.
    insert_nan_const(&mut out, 0x77);
    assert_eq!(out.len(), 2);
}

#[test]
fn patch_compares_selects_and_inserts_the_constant() {
    let mut out: Vec<Instruction> = Vec::new();
    add_nan_canon_instrs(&mut out, 0x79);
    assert_eq!(out.len(), 3);
    assert_eq!(
        out[0].data,
        InstructionData::FloatCompare { opcode: Opcode::Fcmp, cond: FloatCC::NotEqual }
    );
    assert_eq!(out[0].result_type, 0x70);
    assert_eq!(
        out[1].data,
        InstructionData::UnaryImm32 { opcode: Opcode::F32const, imm: CANON_32BIT_NAN }
    );
    assert_eq!(out[2].data, InstructionData::Ternary { opcode: Opcode::Select });
    assert_eq!(out[2].result_type, 0x79);
}

#[test]
fn pass_rewrites_only_fp_arith() {
    let fadd = Instruction { data: InstructionData::Binary { opcode: Opcode::Fadd }, result_type: 0x79 };
    let iadd = Instruction { data: InstructionData::Binary { opcode: Opcode::Iadd }, result_type: 0x77 };
    let fma = Instruction { data: InstructionData::Ternary { opcode: Opcode::Fma }, result_type: 0x7A };
    let mut func = vec![fadd, iadd, fma];
    do_nan_canonicalization(&mut func);
    // fadd gains 3 instructions, iadd none, fma gains 3.
    assert_eq!(func.len(), 3 + 3 + 3);
    assert_eq!(func[0], fadd);
    assert_eq!(
        func[1].data,
        InstructionData::FloatCompare { opcode: Opcode::Fcmp, cond: FloatCC::NotEqual }
    );
    assert_eq!(
        func[2].data,
        InstructionData::UnaryImm32 { opcode: Opcode::F32const, imm: CANON_32BIT_NAN }
    );
    assert_eq!(func[3].data, InstructionData::Ternary { opcode: Opcode::Select });
    assert_eq!(func[4], iadd);
    assert_eq!(func[5], fma);
    assert_eq!(
        func[7].data,
        InstructionData::UnaryImm64 { opcode: Opcode::F64const, imm: CANON_64BIT_NAN }
    );
    // None of the inserted instructions is itself floating-point
    // arithmetic, so a later pass would only re-patch the same three.
    let mut empty: Vec<Instruction> = Vec::new();
    do_nan_canonicalization(&mut empty);
    assert!(empty.is_empty());
}
