//! Rendering of setting groups into generated source text.
//!
//! A closed group is rendered as a fixed-size byte-array-backed record
//! type, a constructor consuming an opaque builder, an enum type per
//! enumerated setting, one accessor per setting and one per packed
//! predicate bit. The emitted text is a pure function of the group's value:
//! two runs over the same declarative input produce byte-identical output.

use vstd::prelude::*;

use crate::settings::{
    bit_mask, count_bools, lemma_count_bounds, lemma_count_take_all, lemma_count_take_step,
    spec_bit_mask, spec_bool_bit, spec_byte_offset, spec_byte_size, spec_pred_bit, GroupV,
    SettingKind, SettingKindV, SettingV, _SettingGroup,
};
use crate::srcgen::{
    camel_case, doc_at, join_lines, line_at, spec_camel_case, spec_dec, spec_hex2, u32_dec,
    u8_hex, Formatter,
};

verus! {

/// Whether a group's value is within the renderer's reach: the counts that
/// shape the layout fit the machine arithmetic, and every enumerated
/// setting has between 1 and 256 members, so that each ordinal fits its
/// byte.
pub open spec fn group_renderable(g: GroupV) -> bool {
    &&& g.settings.len() <= 0xFFFF
    &&& g.predicates.len() <= 0xFFFF
    &&& forall|i: int|
        0 <= i < g.settings.len() ==> (#[trigger] g.settings[i].kind matches SettingKindV::Enum(
            ms,
        ) ==> 1 <= ms.len() <= 0x100)
}

/// The record type for a group: a derive line, a documentation line, and a
/// byte-array-backed struct of the packed byte size.
pub open spec fn struct_lines(g: GroupV) -> Seq<Seq<char>> {
    seq![
        line_at(0, "#[derive(Clone)]"@),
        doc_at(0, "Flags group `"@ + g.name + "`"@),
        line_at(0, "pub struct Flags {"@),
        line_at(1, "bytes: [u8; "@ + spec_dec(spec_byte_size(g)) + "],"@),
        line_at(0, "}"@),
    ]
}

/// The constructor for a group's record type, consuming an opaque builder
/// description.
pub open spec fn constructor_lines(g: GroupV) -> Seq<Seq<char>> {
    seq![
        line_at(0, "impl Flags {"@),
        doc_at(1, "Create flags "@ + g.name + " settings group."@),
        line_at(1, "pub fn new(builder: Builder) -> Self {"@),
        line_at(2, "let _ = builder;"@),
        line_at(2, "Self { bytes: [0; "@ + spec_dec(spec_byte_size(g)) + "] }"@),
        line_at(1, "}"@),
        line_at(0, "}"@),
    ]
}

/// The head of one emitted enum type.
pub open spec fn enum_type_header(name: Seq<char>) -> Seq<Seq<char>> {
    seq![
        doc_at(0, "Values for `"@ + name + "`"@),
        line_at(0, "#[derive(Debug, Copy, Clone, PartialEq, Eq, Hash)]"@),
        line_at(0, "pub enum "@ + spec_camel_case(name) + " {"@),
    ]
}

/// The variant lines for the first `j` members of an enum setting.
pub open spec fn member_lines_upto(ms: Seq<Seq<char>>, j: int) -> Seq<Seq<char>>
    decreases j,
{
    if j <= 0 {
        Seq::<Seq<char>>::empty()
    } else {
        member_lines_upto(ms, j - 1).push(line_at(1, spec_camel_case(ms[j - 1]) + ","@))
    }
}

/// One whole emitted enum type.
pub open spec fn enum_type_lines(name: Seq<char>, ms: Seq<Seq<char>>) -> Seq<Seq<char>> {
    enum_type_header(name) + member_lines_upto(ms, ms.len() as int) + seq![line_at(0, "}"@)]
}

/// The emitted enum types for the first `i` settings: one per enumerated
/// setting, in declaration order.
pub open spec fn enum_types_lines_upto(s: Seq<SettingV>, i: int) -> Seq<Seq<char>>
    decreases i,
{
    if i <= 0 {
        Seq::<Seq<char>>::empty()
    } else {
        enum_types_lines_upto(s, i - 1) + (match s[i - 1].kind {
            SettingKindV::Enum(ms) => enum_type_lines(s[i - 1].name, ms),
            _ => Seq::<Seq<char>>::empty(),
        })
    }
}

/// The accessor for one boolean setting or predicate bit: a bit test of
/// the packed region.
pub open spec fn bit_getter_tail(name: Seq<char>, bit: int) -> Seq<Seq<char>> {
    seq![
        line_at(1, "pub fn "@ + name + "(&self) -> bool {"@),
        line_at(2, "self.bytes["@ + spec_dec(bit / 8) + "] & "@ + spec_hex2(spec_bit_mask(bit) as int)
            + " != 0"@),
        line_at(1, "}"@),
    ]
}

/// The accessor for one boolean setting.
pub open spec fn bool_getter_lines(name: Seq<char>, bit: int) -> Seq<Seq<char>> {
    seq![doc_at(1, "Getter for `"@ + name + "`"@)] + bit_getter_tail(name, bit)
}

/// The accessor for one packed predicate bit.
pub open spec fn pred_getter_lines(name: Seq<char>, bit: int) -> Seq<Seq<char>> {
    seq![doc_at(1, "Computed predicate `"@ + name + "`"@)] + bit_getter_tail(name, bit)
}

/// The accessor for one numeric setting: a whole-byte read.
pub open spec fn num_getter_lines(name: Seq<char>, off: int) -> Seq<Seq<char>> {
    seq![
        doc_at(1, "Getter for `"@ + name + "`"@),
        line_at(1, "pub fn "@ + name + "(&self) -> u8 {"@),
        line_at(2, "self.bytes["@ + spec_dec(off) + "]"@),
        line_at(1, "}"@),
    ]
}

/// The match arms for the member ordinals `1 .. j` of an enum accessor.
pub open spec fn enum_arm_lines_upto(name: Seq<char>, ms: Seq<Seq<char>>, j: int) -> Seq<
    Seq<char>,
>
    decreases j,
{
    if j <= 1 {
        Seq::<Seq<char>>::empty()
    } else {
        enum_arm_lines_upto(name, ms, j - 1).push(
            line_at(3, spec_dec(j - 1) + " => "@ + spec_camel_case(name) + "::"@ + spec_camel_case(
                ms[j - 1],
            ) + ","@),
        )
    }
}

/// The accessor for one enumerated setting: a whole-byte read matched back
/// to the member, with the first member as the default arm.
pub open spec fn enum_getter_lines(name: Seq<char>, ms: Seq<Seq<char>>, off: int) -> Seq<
    Seq<char>,
> {
    seq![
        doc_at(1, "Getter for `"@ + name + "`"@),
        line_at(1, "pub fn "@ + name + "(&self) -> "@ + spec_camel_case(name) + " {"@),
        line_at(2, "match self.bytes["@ + spec_dec(off) + "] {"@),
    ] + enum_arm_lines_upto(name, ms, ms.len() as int) + seq![
        line_at(3, "_ => "@ + spec_camel_case(name) + "::"@ + spec_camel_case(ms[0]) + ","@),
        line_at(2, "}"@),
        line_at(1, "}"@),
    ]
}

/// The accessor emitted for setting `i`, under the group's frozen layout.
pub open spec fn setting_getter_lines(g: GroupV, i: int) -> Seq<Seq<char>> {
    match g.settings[i].kind {
        SettingKindV::Bool => bool_getter_lines(g.settings[i].name, spec_bool_bit(g, i)),
        SettingKindV::Num => num_getter_lines(g.settings[i].name, spec_byte_offset(g, i)),
        SettingKindV::Enum(ms) => enum_getter_lines(g.settings[i].name, ms, spec_byte_offset(g, i)),
    }
}

/// The accessors for the first `i` settings, in declaration order.
pub open spec fn settings_getters_upto(g: GroupV, i: int) -> Seq<Seq<char>>
    decreases i,
{
    if i <= 0 {
        Seq::<Seq<char>>::empty()
    } else {
        settings_getters_upto(g, i - 1) + setting_getter_lines(g, i - 1)
    }
}

/// The accessors for the first `j` registered predicates, in
/// first-registration order.
pub open spec fn pred_getters_upto(g: GroupV, j: int) -> Seq<Seq<char>>
    decreases j,
{
    if j <= 0 {
        Seq::<Seq<char>>::empty()
    } else {
        pred_getters_upto(g, j - 1) + pred_getter_lines(
            g.predicates[j - 1].name,
            spec_pred_bit(g, j - 1),
        )
    }
}

/// The whole accessor block of a group.
pub open spec fn getters_lines(g: GroupV) -> Seq<Seq<char>> {
    seq![line_at(0, "impl Flags {"@)] + settings_getters_upto(g, g.settings.len() as int)
        + pred_getters_upto(g, g.predicates.len() as int) + seq![line_at(0, "}"@)]
}

/// Everything emitted for one group, in order: the record type, its
/// constructor, the enum types, and the accessors.
pub open spec fn group_lines(g: GroupV) -> Seq<Seq<char>> {
    struct_lines(g) + constructor_lines(g) + enum_types_lines_upto(
        g.settings,
        g.settings.len() as int,
    ) + getters_lines(g)
}

/// Emit the byte-array-backed record type for `sgrp`.
#[verifier::loop_isolation(false)]
pub fn gen_struct(sgrp: &_SettingGroup, fmt: &mut Formatter)
    requires
        group_renderable(sgrp@),
        old(fmt).indent_level() == 0,
    ensures
        final(fmt).lines_view() == old(fmt).lines_view() + struct_lines(sgrp@),
        final(fmt).indent_level() == 0,
{
    let size = sgrp.byte_size();
    fmt.line("#[derive(Clone)]");
    let d = String::from_str("Flags group `").concat(sgrp.name()).concat("`");
    fmt.doc_comment(d.as_str());
    fmt.line("pub struct Flags {");
    fmt.indent_push();
    let sz = u32_dec(size);
    let b = String::from_str("bytes: [u8; ").concat(sz.as_str()).concat("],");
    fmt.line(b.as_str());
    fmt.indent_pop();
    fmt.line("}");
    proof {
        assert(final(fmt).lines_view() =~= old(fmt).lines_view() + struct_lines(sgrp@));
    }
}

/// Emit the record constructor, consuming an opaque builder description.
#[verifier::loop_isolation(false)]
pub fn gen_constructor(sgrp: &_SettingGroup, fmt: &mut Formatter)
    requires
        group_renderable(sgrp@),
        old(fmt).indent_level() == 0,
    ensures
        final(fmt).lines_view() == old(fmt).lines_view() + constructor_lines(sgrp@),
        final(fmt).indent_level() == 0,
{
    let size = sgrp.byte_size();
    fmt.line("impl Flags {");
    fmt.indent_push();
    let d = String::from_str("Create flags ").concat(sgrp.name()).concat(" settings group.");
    fmt.doc_comment(d.as_str());
    fmt.line("pub fn new(builder: Builder) -> Self {");
    fmt.indent_push();
    fmt.line("let _ = builder;");
    let sz = u32_dec(size);
    let b = String::from_str("Self { bytes: [0; ").concat(sz.as_str()).concat("] }");
    fmt.line(b.as_str());
    fmt.indent_pop();
    fmt.line("}");
    fmt.indent_pop();
    fmt.line("}");
    proof {
        assert(final(fmt).lines_view() =~= old(fmt).lines_view() + constructor_lines(sgrp@));
    }
}

/// Emit one enum type per enumerated setting of `sgrp`.
#[verifier::loop_isolation(false)]
pub fn gen_enum_types(sgrp: &_SettingGroup, fmt: &mut Formatter)
    requires
        group_renderable(sgrp@),
        old(fmt).indent_level() == 0,
    ensures
        final(fmt).lines_view() == old(fmt).lines_view() + enum_types_lines_upto(
            sgrp@.settings,
            sgrp@.settings.len() as int,
        ),
        final(fmt).indent_level() == 0,
{
    let ghost g = sgrp@;
    let ghost base = old(fmt).lines_view();
    let ss = sgrp.settings();
    let n = ss.len();
    let mut i: usize = 0;
    proof {
        assert(base + enum_types_lines_upto(g.settings, 0) =~= base);
    }
    while i < n
        invariant
            i <= n,
            fmt.lines_view() == base + enum_types_lines_upto(g.settings, i as int),
            fmt.indent_level() == 0,
        decreases n - i,
    {
        proof {
            assert(g.settings[i as int] == crate::settings::setting_view(ss@[i as int]));
        }
        match &ss[i].kind {
            SettingKind::Enum { members } => {
                let name = ss[i].name.as_str();
                let ghost ms = crate::settings::member_views(members@);
                let ghost mid = base + enum_types_lines_upto(g.settings, i as int)
                    + enum_type_header(name@);
                let d = String::from_str("Values for `").concat(name).concat("`");
                fmt.doc_comment(d.as_str());
                fmt.line("#[derive(Debug, Copy, Clone, PartialEq, Eq, Hash)]");
                let cn = camel_case(name);
                let h = String::from_str("pub enum ").concat(cn.as_str()).concat(" {");
                fmt.line(h.as_str());
                proof {
                    assert(fmt.lines_view() =~= mid + member_lines_upto(ms, 0));
                }
                fmt.indent_push();
                let m = members.len();
                let mut j: usize = 0;
                while j < m
                    invariant
                        j <= m,
                        fmt.lines_view() == mid + member_lines_upto(ms, j as int),
                        fmt.indent_level() == 1,
                    decreases m - j,
                {
                    proof {
                        assert(ms[j as int] == members@[j as int]@);
                    }
                    let ml = camel_case(members[j].as_str()).concat(",");
                    fmt.line(ml.as_str());
                    j += 1;
                }
                fmt.indent_pop();
                fmt.line("}");
                proof {
                    assert(fmt.lines_view() =~= base + enum_types_lines_upto(
                        g.settings,
                        i + 1 as int,
                    ));
                }
            },
            _ => {
                proof {
                    assert(enum_types_lines_upto(g.settings, i + 1 as int) =~= enum_types_lines_upto(
                        g.settings,
                        i as int,
                    ));
                }
            },
        }
        i += 1;
    }
}

/// Emit the accessor for one boolean setting.
#[verifier::loop_isolation(false)]
fn emit_bool_getter(fmt: &mut Formatter, name: &str, bit: u32)
    requires
        old(fmt).indent_level() == 1,
    ensures
        final(fmt).lines_view() == old(fmt).lines_view() + bool_getter_lines(name@, bit as int),
        final(fmt).indent_level() == 1,
{
    let d = String::from_str("Getter for `").concat(name).concat("`");
    fmt.doc_comment(d.as_str());
    let h = String::from_str("pub fn ").concat(name).concat("(&self) -> bool {");
    fmt.line(h.as_str());
    fmt.indent_push();
    let by = u32_dec(bit / 8);
    let mk = u8_hex(bit_mask(bit));
    let b = String::from_str("self.bytes[").concat(by.as_str()).concat("] & ").concat(mk.as_str())
        .concat(" != 0");
    fmt.line(b.as_str());
    fmt.indent_pop();
    fmt.line("}");
    proof {
        assert(final(fmt).lines_view() =~= old(fmt).lines_view() + bool_getter_lines(
            name@,
            bit as int,
        ));
    }
}

/// Emit the accessor for one packed predicate bit.
#[verifier::loop_isolation(false)]
fn emit_pred_getter(fmt: &mut Formatter, name: &str, bit: u32)
    requires
        old(fmt).indent_level() == 1,
    ensures
        final(fmt).lines_view() == old(fmt).lines_view() + pred_getter_lines(name@, bit as int),
        final(fmt).indent_level() == 1,
{
    let d = String::from_str("Computed predicate `").concat(name).concat("`");
    fmt.doc_comment(d.as_str());
    let h = String::from_str("pub fn ").concat(name).concat("(&self) -> bool {");
    fmt.line(h.as_str());
    fmt.indent_push();
    let by = u32_dec(bit / 8);
    let mk = u8_hex(bit_mask(bit));
    let b = String::from_str("self.bytes[").concat(by.as_str()).concat("] & ").concat(mk.as_str())
        .concat(" != 0");
    fmt.line(b.as_str());
    fmt.indent_pop();
    fmt.line("}");
    proof {
        assert(final(fmt).lines_view() =~= old(fmt).lines_view() + pred_getter_lines(
            name@,
            bit as int,
        ));
    }
}

/// Emit the accessor for one numeric setting.
#[verifier::loop_isolation(false)]
fn emit_num_getter(fmt: &mut Formatter, name: &str, off: u32)
    requires
        old(fmt).indent_level() == 1,
    ensures
        final(fmt).lines_view() == old(fmt).lines_view() + num_getter_lines(name@, off as int),
        final(fmt).indent_level() == 1,
{
    let d = String::from_str("Getter for `").concat(name).concat("`");
    fmt.doc_comment(d.as_str());
    let h = String::from_str("pub fn ").concat(name).concat("(&self) -> u8 {");
    fmt.line(h.as_str());
    fmt.indent_push();
    let o = u32_dec(off);
    let b = String::from_str("self.bytes[").concat(o.as_str()).concat("]");
    fmt.line(b.as_str());
    fmt.indent_pop();
    fmt.line("}");
    proof {
        assert(final(fmt).lines_view() =~= old(fmt).lines_view() + num_getter_lines(
            name@,
            off as int,
        ));
    }
}

/// Emit the accessor for one enumerated setting.
#[verifier::loop_isolation(false)]
fn emit_enum_getter(fmt: &mut Formatter, name: &str, members: &Vec<String>, off: u32)
    requires
        old(fmt).indent_level() == 1,
        1 <= members@.len() <= 0x100,
    ensures
        final(fmt).lines_view() == old(fmt).lines_view() + enum_getter_lines(
            name@,
            crate::settings::member_views(members@),
            off as int,
        ),
        final(fmt).indent_level() == 1,
{
    let ghost ms = crate::settings::member_views(members@);
    let cn = camel_case(name);
    let d = String::from_str("Getter for `").concat(name).concat("`");
    fmt.doc_comment(d.as_str());
    let h = String::from_str("pub fn ").concat(name).concat("(&self) -> ").concat(cn.as_str())
        .concat(" {");
    fmt.line(h.as_str());
    fmt.indent_push();
    let o = u32_dec(off);
    let b = String::from_str("match self.bytes[").concat(o.as_str()).concat("] {");
    fmt.line(b.as_str());
    fmt.indent_push();
    let ghost mid = fmt.lines_view();
    let m = members.len();
    let mut j: usize = 1;
    proof {
        assert(mid + enum_arm_lines_upto(name@, ms, 1) =~= mid);
    }
    while j < m
        invariant
            1 <= j <= m,
            fmt.lines_view() == mid + enum_arm_lines_upto(name@, ms, j as int),
            fmt.indent_level() == 3,
        decreases m - j,
    {
        proof {
            assert(ms[j as int] == members@[j as int]@);
        }
        let ord = u32_dec(j as u32);
        let mc = camel_case(members[j].as_str());
        let a = ord.concat(" => ").concat(cn.as_str()).concat("::").concat(mc.as_str()).concat(",");
        fmt.line(a.as_str());
        proof {
            assert(fmt.lines_view() =~= mid + enum_arm_lines_upto(name@, ms, j + 1 as int));
        }
        j += 1;
    }
    proof {
        assert(ms[0] == members@[0]@);
    }
    let m0 = camel_case(members[0].as_str());
    let da = String::from_str("_ => ").concat(cn.as_str()).concat("::").concat(m0.as_str()).concat(
        ",",
    );
    fmt.line(da.as_str());
    fmt.indent_pop();
    fmt.line("}");
    fmt.indent_pop();
    fmt.line("}");
    proof {
        assert(final(fmt).lines_view() =~= old(fmt).lines_view() + enum_getter_lines(
            name@,
            ms,
            off as int,
        ));
    }
}

/// Emit the accessor block of `sgrp`: one getter per setting and one per
/// packed predicate bit.
#[verifier::loop_isolation(false)]
pub fn gen_getters(sgrp: &_SettingGroup, fmt: &mut Formatter)
    requires
        group_renderable(sgrp@),
        old(fmt).indent_level() == 0,
    ensures
        final(fmt).lines_view() == old(fmt).lines_view() + getters_lines(sgrp@),
        final(fmt).indent_level() == 0,
{
    let ghost g = sgrp@;
    let ghost base = old(fmt).lines_view();
    fmt.line("impl Flags {");
    let ghost base1 = fmt.lines_view();
    fmt.indent_push();
    let bb = sgrp.bits_region_bytes();
    proof {
        lemma_count_bounds(g.settings);
    }
    let ss = sgrp.settings();
    let n = ss.len();
    let mut nbool: u32 = 0;
    let mut nbyte: u32 = 0;
    let mut i: usize = 0;
    proof {
        assert(g.settings.take(0) =~= Seq::<SettingV>::empty());
        assert(base1 + settings_getters_upto(g, 0) =~= base1);
    }
    while i < n
        invariant
            i <= n,
            nbool == count_bools(g.settings.take(i as int)),
            nbyte == crate::settings::count_bytes(g.settings.take(i as int)),
            nbool <= i,
            nbyte <= i,
            fmt.lines_view() == base1 + settings_getters_upto(g, i as int),
            fmt.indent_level() == 1,
        decreases n - i,
    {
        proof {
            lemma_count_take_step(g.settings, i as int);
            assert(g.settings[i as int] == crate::settings::setting_view(ss@[i as int]));
        }
        let name = ss[i].name.as_str();
        match &ss[i].kind {
            SettingKind::Bool => {
                emit_bool_getter(fmt, name, nbool);
                proof {
                    assert(fmt.lines_view() =~= base1 + settings_getters_upto(g, i + 1 as int));
                }
                nbool = nbool + 1;
            },
            SettingKind::Num => {
                emit_num_getter(fmt, name, bb + nbyte);
                proof {
                    assert(fmt.lines_view() =~= base1 + settings_getters_upto(g, i + 1 as int));
                }
                nbyte = nbyte + 1;
            },
            SettingKind::Enum { members } => {
                emit_enum_getter(fmt, name, members, bb + nbyte);
                proof {
                    assert(fmt.lines_view() =~= base1 + settings_getters_upto(g, i + 1 as int));
                }
                nbyte = nbyte + 1;
            },
        }
        i += 1;
    }
    proof {
        lemma_count_take_all(g.settings);
    }
    let ghost base2 = fmt.lines_view();
    let ps = sgrp.predicates();
    let np = ps.len();
    let mut j: usize = 0;
    proof {
        assert(base2 + pred_getters_upto(g, 0) =~= base2);
    }
    while j < np
        invariant
            j <= np,
            nbool == count_bools(g.settings),
            fmt.lines_view() == base2 + pred_getters_upto(g, j as int),
            fmt.indent_level() == 1,
        decreases np - j,
    {
        proof {
            assert(g.predicates[j as int] == crate::settings::pred_views(ps@)[j as int]);
        }
        let pname = ps[j].name.as_str();
        emit_pred_getter(fmt, pname, nbool + j as u32);
        proof {
            assert(fmt.lines_view() =~= base2 + pred_getters_upto(g, j + 1 as int));
        }
        j += 1;
    }
    fmt.indent_pop();
    fmt.line("}");
    proof {
        assert(fmt.lines_view() =~= base + getters_lines(g));
    }
}

/// Emit everything for one closed group: the record type, its constructor,
/// the enum types, and the accessors.
pub fn gen_group(sgrp: &_SettingGroup, fmt: &mut Formatter)
    requires
        sgrp@.closed,
        group_renderable(sgrp@),
        old(fmt).indent_level() == 0,
    ensures
        final(fmt).lines_view() == old(fmt).lines_view() + group_lines(sgrp@),
        final(fmt).indent_level() == 0,
{
    gen_struct(sgrp, fmt);
    gen_constructor(sgrp, fmt);
    gen_enum_types(sgrp, fmt);
    gen_getters(sgrp, fmt);
    proof {
        assert(final(fmt).lines_view() =~= old(fmt).lines_view() + group_lines(sgrp@));
    }
}

/// Render one closed group into its full generated text.
pub fn render_setting_group(sgrp: &_SettingGroup) -> (r: String)
    requires
        sgrp@.closed,
        group_renderable(sgrp@),
    ensures
        r@ == join_lines(group_lines(sgrp@)),
{
    let mut fmt = Formatter::new();
    gen_group(sgrp, &mut fmt);
    proof {
        assert(Seq::<Seq<char>>::empty() + group_lines(sgrp@) =~= group_lines(sgrp@));
    }
    fmt.contents()
}

/// Generation is deterministic: `render_setting_group` promises that its
/// output is `join_lines(group_lines(..))` of the group's value alone, so
/// the texts of two independent runs over the same declarative input are
/// byte-identical.
pub proof fn lemma_render_deterministic(g: GroupV, t1: Seq<char>, t2: Seq<char>)
    requires
        t1 == join_lines(group_lines(g)),
        t2 == join_lines(group_lines(g)),
    ensures
        t1 == t2,
{
}

} // verus!
