use codegen_meta::base_types::{Bool, Float, Int};
use codegen_meta::errors::GenError;
use codegen_meta::types::{
    check_numbering, is_vector, lane_bit_width, LaneType, LaneTypeTag, ValueType, VectorType,
};

fn lane(tag: LaneTypeTag) -> LaneType {
    LaneType { tag }
}

#[test]
fn lane_numbers_are_in_range_and_distinct() {
    let mut numbers: Vec<u8> = Vec::new();
    let mut it = ValueType::all_special_types();
    while let Some(t) = it.next() {
        let n = t.number();
        assert!((0x01..=0x6F).contains(&n));
        numbers.push(n);
    }
    let mut lanes = ValueType::all_lane_types();
    while let Some(t) = lanes.next() {
        let n = t.number();
        assert!((0x70..=0x7F).contains(&n));
        numbers.push(n);
        for lanes_count in [2u64, 4, 8, 16, 32, 64, 128, 256] {
            let v = VectorType::new(t, lanes_count).unwrap();
            let vn = v.number();
            assert!((0x80..=0xFF).contains(&vn));
            numbers.push(vn);
        }
    }
    assert_eq!(numbers.len(), 2 + 11 + 88);
    assert!(check_numbering(&numbers).is_ok());
}

#[test]
fn enumeration_order_fixes_the_numbering() {
    let mut it = ValueType::all_lane_types();
    let expected = [
        ("b1", 0x70u8),
        ("b8", 0x71),
        ("b16", 0x72),
        ("b32", 0x73),
        ("b64", 0x74),
        ("i8", 0x75),
        ("i16", 0x76),
        ("i32", 0x77),
        ("i64", 0x78),
        ("f32", 0x79),
        ("f64", 0x7A),
    ];
    for (name, number) in expected {
        let t = it.next().unwrap();
        assert_eq!(t.name(), name);
        assert_eq!(t.number(), number);
    }
    assert!(it.next().is_none());
    // A fresh iterator restarts from the beginning.
    let mut again = ValueType::all_lane_types();
    assert_eq!(again.next().unwrap().name(), "b1");
}

#[test]
fn vector_numbering_formula_example() {
    // I32X4: l = 4, k = 2, b = 0x77 = 119, so 16 * 2 + 119 = 151.
    let i32_lane = lane(LaneTypeTag::IntType(Int::I32));
    let v = VectorType::new(i32_lane, 4).unwrap();
    assert_eq!(v.number(), 151);
    assert_eq!(v.name(), "i32X4");
    assert_eq!(v.const_name(), "I32X4");
    let b1 = lane(LaneTypeTag::BoolType(Bool::B1));
    assert_eq!(VectorType::new(b1, 2).unwrap().number(), 0x80);
    let f64_lane = lane(LaneTypeTag::FloatType(Float::F64));
    assert_eq!(VectorType::new(f64_lane, 256).unwrap().number(), 16 * 8 + 0x7A);
}

#[test]
fn invalid_lane_counts_are_rejected() {
    let b8 = lane(LaneTypeTag::BoolType(Bool::B8));
    assert_eq!(
        VectorType::new(b8, 3),
        Err(GenError::InvalidLaneCount { lanes: 3 })
    );
    assert_eq!(
        VectorType::new(b8, 1),
        Err(GenError::InvalidLaneCount { lanes: 1 })
    );
    assert_eq!(
        VectorType::new(b8, 512),
        Err(GenError::InvalidLaneCount { lanes: 512 })
    );
    assert!(VectorType::new(b8, 256).is_ok());
}

#[test]
fn numbering_collision_is_reported() {
    let numbers = vec![0x70u8, 0x71, 0x70];
    assert_eq!(
        check_numbering(&numbers),
        Err(GenError::NumberingCollision { number: 0x70 })
    );
    assert!(check_numbering(&vec![1u8, 2, 3]).is_ok());
    assert!(check_numbering(&Vec::new()).is_ok());
}

#[test]
fn special_types_have_their_own_namespace() {
    let mut it = ValueType::all_special_types();
    let iflags = it.next().unwrap();
    assert_eq!(iflags.name(), "iflags");
    assert_eq!(iflags.number(), 1);
    let fflags = it.next().unwrap();
    assert_eq!(fflags.name(), "fflags");
    assert_eq!(fflags.number(), 2);
    assert!(it.next().is_none());
}

#[test]
fn names_docs_and_widths() {
    let b1 = lane(LaneTypeTag::BoolType(Bool::B1));
    assert_eq!(b1.membytes(), 0);
    assert_eq!(b1.lane_bits(), 1);
    let i32_lane = lane(LaneTypeTag::IntType(Int::I32));
    assert_eq!(i32_lane.membytes(), 4);
    assert_eq!(i32_lane.doc(), "An integer type with 32 bits.");
    let i8_lane = lane(LaneTypeTag::IntType(Int::I8));
    assert!(i8_lane.doc().contains("WARNING"));
    let f64_lane = lane(LaneTypeTag::FloatType(Float::F64));
    assert!(f64_lane.doc().contains("binary64"));
    let v = VectorType::new(f64_lane, 2).unwrap();
    assert_eq!(v.doc(), "A SIMD vector with 2 lanes containing a 'f64' each.");
    let vt = ValueType::Vector(v);
    assert_eq!(vt.rust_name(), "ir::types::F64X2");
    assert!(i32_lane.wider_or_equal(&i8_lane));
    assert!(!i8_lane.wider_or_equal(&i32_lane));
}

#[test]
fn consumer_interface_decodes_numbers() {
    assert!(!is_vector(0x7F));
    assert!(is_vector(0x80));
    assert_eq!(lane_bit_width(0x77), 32); // i32
    assert_eq!(lane_bit_width(0x70), 1); // b1
    let f64_lane = lane(LaneTypeTag::FloatType(Float::F64));
    let v = VectorType::new(f64_lane, 4).unwrap();
    assert!(is_vector(v.number()));
    assert_eq!(lane_bit_width(v.number()), 64);
}
