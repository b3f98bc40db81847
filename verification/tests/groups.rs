use codegen_meta::errors::GenError;
use codegen_meta::predicates::PredicatePool;
use codegen_meta::settings::{SettingDescriptor, _SettingGroup};

#[test]
fn error_labels_name_each_failure() {
    assert_eq!(GenError::NumberingCollision { number: 7 }.describe(), "numbering collision");
    assert_eq!(GenError::InvalidLaneCount { lanes: 3 }.describe(), "invalid lane count");
    assert_eq!(GenError::GroupAlreadyClosed.describe(), "setting group already closed");
    assert_eq!(GenError::UnknownSettingReference.describe(), "unknown setting reference");
    assert_eq!(GenError::DuplicateSettingName.describe(), "duplicate setting name");
    assert_eq!(GenError::IoFailure.describe(), "i/o failure");
}

#[test]
fn byte_size_matches_the_packing_formula() {
    // 5 boolean settings and 3 precomputed predicate bits pack into
    // ceil(8 / 8) = 1 byte, plus 2 numeric settings: 3 bytes in all.
    let mut g = _SettingGroup::new("test", None);
    assert_eq!(g.name(), "test");
    for name in ["a", "b", "c", "d", "e"] {
        g.add_bool(name).unwrap();
    }
    let mut pool = PredicatePool::new();
    let pa = g.bool_setting_leaf(&mut pool, "a").unwrap();
    let pb = g.bool_setting_leaf(&mut pool, "b").unwrap();
    let pc = g.bool_setting_leaf(&mut pool, "c").unwrap();
    g.add_predicate("p_a", pa).unwrap();
    g.add_predicate("p_b", pb).unwrap();
    g.add_predicate("p_c", pc).unwrap();
    g.add_num("n1").unwrap();
    g.add_num("n2").unwrap();
    assert_eq!(g.byte_size(), 3);
    assert_eq!(g.close(), 3);
    // Closing twice is a no-op returning the same size.
    assert_eq!(g.close(), 3);
    // Adding after close is refused.
    assert_eq!(g.add_bool("late"), Err(GenError::GroupAlreadyClosed));
    assert_eq!(g.add_num("late"), Err(GenError::GroupAlreadyClosed));
}

#[test]
fn byte_size_is_monotonic_as_settings_are_added() {
    let mut g = _SettingGroup::new("mono", None);
    let mut last = g.byte_size();
    for i in 0..20u32 {
        let name = format!("b{}", i);
        g.add_bool(&name).unwrap();
        let now = g.byte_size();
        assert!(now >= last);
        last = now;
    }
    for i in 0..5u32 {
        let name = format!("n{}", i);
        g.add_num(&name).unwrap();
        let now = g.byte_size();
        assert!(now >= last);
        last = now;
    }
    // 20 bools -> 3 bytes of bits, plus 5 numeric bytes.
    assert_eq!(g.byte_size(), 3 + 5);
}

#[test]
fn duplicate_setting_names_are_refused() {
    let mut g = _SettingGroup::new("dups", None);
    g.add_bool("x").unwrap();
    assert_eq!(g.add_bool("x"), Err(GenError::DuplicateSettingName));
    assert_eq!(g.add_num("x"), Err(GenError::DuplicateSettingName));
    let members = vec![String::from("one"), String::from("two")];
    assert_eq!(g.add_enum("x", members), Err(GenError::DuplicateSettingName));
    // The refused additions changed nothing.
    assert_eq!(g.byte_size(), 1);
}

#[test]
fn unknown_setting_references_are_refused() {
    let mut g = _SettingGroup::new("refs", None);
    g.add_bool("known").unwrap();
    assert_eq!(
        g.setting_descriptor("unknown"),
        Err(GenError::UnknownSettingReference)
    );
    let mut pool = PredicatePool::new();
    assert_eq!(
        g.bool_setting_leaf(&mut pool, "unknown"),
        Err(GenError::UnknownSettingReference)
    );
    // A numeric setting cannot stand behind a boolean predicate leaf.
    g.add_num("level").unwrap();
    assert_eq!(
        g.bool_setting_leaf(&mut pool, "level"),
        Err(GenError::UnknownSettingReference)
    );
}

#[test]
fn descriptors_follow_the_frozen_layout() {
    let mut g = _SettingGroup::new("layout", Some("settings"));
    g.add_bool("a").unwrap();
    g.add_bool("b").unwrap();
    g.add_num("n").unwrap();
    let members = vec![String::from("first"), String::from("second")];
    g.add_enum("e", members).unwrap();
    g.close();
    assert_eq!(
        g.setting_descriptor("a"),
        Ok(SettingDescriptor::Bool { byte_offset: 0, bit: 0, mask: 0x01 })
    );
    assert_eq!(
        g.setting_descriptor("b"),
        Ok(SettingDescriptor::Bool { byte_offset: 0, bit: 1, mask: 0x02 })
    );
    // Two packed bits round up to one byte; byte settings follow it.
    assert_eq!(g.setting_descriptor("n"), Ok(SettingDescriptor::Num { byte_offset: 1 }));
    assert_eq!(g.setting_descriptor("e"), Ok(SettingDescriptor::Enum { byte_offset: 2 }));
    assert_eq!(g.byte_size(), 3);
}

#[test]
fn ninth_boolean_bit_opens_a_second_byte() {
    let mut g = _SettingGroup::new("bits", None);
    for i in 0..9u32 {
        let name = format!("b{}", i);
        g.add_bool(&name).unwrap();
    }
    assert_eq!(
        g.setting_descriptor("b7"),
        Ok(SettingDescriptor::Bool { byte_offset: 0, bit: 7, mask: 0x80 })
    );
    assert_eq!(
        g.setting_descriptor("b8"),
        Ok(SettingDescriptor::Bool { byte_offset: 1, bit: 8, mask: 0x01 })
    );
    assert_eq!(g.byte_size(), 2);
}

#[test]
fn predicate_bits_follow_the_boolean_settings() {
    let mut g = _SettingGroup::new("preds", None);
    g.add_bool("x").unwrap();
    g.add_bool("y").unwrap();
    let mut pool = PredicatePool::new();
    let px = g.bool_setting_leaf(&mut pool, "x").unwrap();
    let py = g.bool_setting_leaf(&mut pool, "y").unwrap();
    let both = pool.and(vec![px, py]);
    g.add_predicate("both", both).unwrap();
    assert_eq!(g.predicate_bit(both), Some(2));
    // Registering the same predicate again keeps its first bit.
    g.add_predicate("both_again", both).unwrap();
    assert_eq!(g.predicate_bit(both), Some(2));
    assert_eq!(g.byte_size(), 1);
    let unregistered = pool.not(px);
    assert_eq!(g.predicate_bit(unregistered), None);
}

#[test]
fn structural_interning_ignores_operand_order() {
    let mut pool = PredicatePool::new();
    let a = pool.leaf(1);
    let b = pool.leaf(2);
    assert_ne!(a, b);
    // Interning the same leaf again returns the same handle.
    assert_eq!(pool.leaf(1), a);
    let p1 = pool.and(vec![a, b]);
    let p2 = pool.and(vec![b, a]);
    assert_eq!(p1, p2);
    let q1 = pool.or(vec![b, a]);
    let q2 = pool.or(vec![a, b]);
    assert_eq!(q1, q2);
    assert_ne!(p1, q1);
    let n1 = pool.not(p1);
    assert_eq!(pool.not(p2), n1);
    // The deduplicated node receives one bit in one group.
    let mut g = _SettingGroup::new("intern", None);
    g.add_predicate("both_ways", p1).unwrap();
    let bit1 = g.predicate_bit(p1);
    let bit2 = g.predicate_bit(p2);
    assert_eq!(bit1, bit2);
    assert_eq!(bit1, Some(0));
}
