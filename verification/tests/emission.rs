use codegen_meta::gen_settings::render_setting_group;
use codegen_meta::gen_types::render_type_lattice_text;
use codegen_meta::settings::_SettingGroup;
use codegen_meta::srcgen::{camel_case, u32_dec, u8_hex, update_decision, Formatter, WriteOutcome};

#[test]
fn formatter_collects_indented_lines() {
    let mut fmt = Formatter::new();
    fmt.line("pub struct Flags {");
    fmt.indent_push();
    fmt.line("bytes: [u8; 1],");
    fmt.indent_pop();
    fmt.line("}");
    assert_eq!(fmt.contents(), "pub struct Flags {\n    bytes: [u8; 1],\n}\n");
    let mut doc = Formatter::new();
    doc.indent_push();
    doc.doc_comment("A line.");
    assert_eq!(doc.contents(), "    /// A line.\n");
}

#[test]
fn number_rendering_is_exact() {
    assert_eq!(u32_dec(0), "0");
    assert_eq!(u32_dec(7), "7");
    assert_eq!(u32_dec(10), "10");
    assert_eq!(u32_dec(151), "151");
    assert_eq!(u32_dec(4294967295), "4294967295");
    assert_eq!(u8_hex(0), "0x00");
    assert_eq!(u8_hex(1), "0x01");
    assert_eq!(u8_hex(0x77), "0x77");
    assert_eq!(u8_hex(255), "0xff");
}

#[test]
fn camel_case_is_exact() {
    assert_eq!(camel_case("regalloc"), "Regalloc");
    assert_eq!(camel_case("opt_level_fast"), "OptLevelFast");
    assert_eq!(camel_case("backtracking"), "Backtracking");
    assert_eq!(camel_case("a_b_c"), "ABC");
    assert_eq!(camel_case(""), "");
}

#[test]
fn write_if_changed_is_idempotent() {
    // A missing file is written.
    assert_eq!(update_decision(None, "text"), WriteOutcome::Written);
    // A second request with the same content touches nothing.
    let on_disk = String::from("text");
    assert_eq!(update_decision(Some(&on_disk), "text"), WriteOutcome::Unchanged);
    assert_eq!(update_decision(Some(&on_disk), "text"), WriteOutcome::Unchanged);
    // Different content is written again.
    assert_eq!(update_decision(Some(&on_disk), "other"), WriteOutcome::Written);
}

fn example_group() -> _SettingGroup {
    let mut g = _SettingGroup::new("shared", Some("settings"));
    g.add_bool("opt_level_fast").unwrap();
    let members = vec![String::from("backtracking"), String::from("simple")];
    g.add_enum("regalloc", members).unwrap();
    g
}

#[test]
fn end_to_end_group_scenario() {
    let mut g = example_group();
    // One packed boolean bit rounds up to 1 byte; the enum takes 1 more.
    assert_eq!(g.close(), 2);
    let text = render_setting_group(&g);
    assert!(text.contains("pub struct Flags {"));
    assert!(text.contains("bytes: [u8; 2],"));
    // The boolean accessor reads bit 0 of byte 0.
    assert!(text.contains("pub fn opt_level_fast(&self) -> bool {"));
    assert!(text.contains("self.bytes[0] & 0x01 != 0"));
    // The enum accessor reads byte 1, with ordinal 0 as the default.
    assert!(text.contains("pub fn regalloc(&self) -> Regalloc {"));
    assert!(text.contains("match self.bytes[1] {"));
    assert!(text.contains("1 => Regalloc::Simple,"));
    assert!(text.contains("_ => Regalloc::Backtracking,"));
    assert!(text.contains("pub enum Regalloc {"));
    assert!(text.contains("Backtracking,"));
    assert!(text.contains("Simple,"));
    assert!(text.contains("pub fn new(builder: Builder) -> Self {"));
}

#[test]
fn generation_is_deterministic() {
    let mut g1 = example_group();
    g1.close();
    let mut g2 = example_group();
    g2.close();
    let t1 = render_setting_group(&g1);
    let t2 = render_setting_group(&g2);
    assert_eq!(t1, t2);
    assert_eq!(t1.as_bytes(), t2.as_bytes());
    let l1 = render_type_lattice_text();
    let l2 = render_type_lattice_text();
    assert_eq!(l1.as_bytes(), l2.as_bytes());
}

#[test]
fn predicate_accessors_are_emitted() {
    let mut g = _SettingGroup::new("p", None);
    g.add_bool("fast").unwrap();
    let mut pool = codegen_meta::predicates::PredicatePool::new();
    let leaf = g.bool_setting_leaf(&mut pool, "fast").unwrap();
    let not_fast = pool.not(leaf);
    g.add_predicate("not_fast", not_fast).unwrap();
    g.close();
    let text = render_setting_group(&g);
    assert!(text.contains("/// Computed predicate `not_fast`"));
    assert!(text.contains("pub fn not_fast(&self) -> bool {"));
    // Bit 1 follows the single boolean setting's bit 0.
    assert!(text.contains("self.bytes[0] & 0x02 != 0"));
}

#[test]
fn type_lattice_text_matches_the_numbering() {
    let text = render_type_lattice_text();
    assert!(text.contains("/// A boolean type with 1 bits."));
    assert!(text.contains("pub const B1: Type = Type(0x70);"));
    assert!(text.contains("pub const IFLAGS: Type = Type(0x01);"));
    assert!(text.contains("pub const FFLAGS: Type = Type(0x02);"));
    assert!(text.contains("pub const I32: Type = Type(0x77);"));
    // I32X4 numbers to 151 = 0x97.
    assert!(text.contains("pub const I32X4: Type = Type(0x97);"));
    assert!(text.contains("pub const F64X256: Type = Type(0xfa);"));
    // The lane table stands in canonical order: B1 before I8 before F32.
    let b1 = text.find("pub const B1:").unwrap();
    let i8_pos = text.find("pub const I8:").unwrap();
    let f32_pos = text.find("pub const F32:").unwrap();
    assert!(b1 < i8_pos && i8_pos < f32_pos);
}
