//! Rendering of the type lattice into generated source text.
//!
//! Every concrete type is emitted as a documented numeric constant, in the
//! same canonical order that fixes the numbering: the special types, then
//! the lane types, then every vector over each lane type with ascending
//! lane counts. The emitted table's positional order therefore matches the
//! numbering scheme, which downstream consumers rely on.

use vstd::prelude::*;

use crate::types::{
    lane_type_at, n_lane_types, n_special_types, special_type_at, valid_lane_count, LaneType,
    ValueType, VectorType,
};
use crate::srcgen::{doc_at, join_lines, line_at, spec_hex2, u8_hex, Formatter};

verus! {

/// The two lines emitted for one concrete type: its documentation and its
/// numeric constant.
pub open spec fn type_entry_lines(doc: Seq<char>, cname: Seq<char>, number: u8) -> Seq<Seq<char>> {
    seq![
        doc_at(0, doc),
        line_at(0, "pub const "@ + cname + ": Type = Type("@ + spec_hex2(number as int) + ");"@),
    ]
}

/// The entries for the first `i` special types.
pub open spec fn specials_upto(i: int) -> Seq<Seq<char>>
    decreases i,
{
    if i <= 0 {
        Seq::<Seq<char>>::empty()
    } else {
        specials_upto(i - 1) + type_entry_lines(
            special_type_at(i - 1).spec_doc(),
            special_type_at(i - 1).spec_const_name(),
            special_type_at(i - 1).spec_number(),
        )
    }
}

/// The entries for the first `i` lane types.
pub open spec fn lanes_upto(i: int) -> Seq<Seq<char>>
    decreases i,
{
    if i <= 0 {
        Seq::<Seq<char>>::empty()
    } else {
        lanes_upto(i - 1) + type_entry_lines(
            lane_type_at(i - 1).spec_doc(),
            lane_type_at(i - 1).spec_const_name(),
            lane_type_at(i - 1).spec_number(),
        )
    }
}

/// How many lane counts the vector enumeration covers.
pub open spec fn n_lane_counts() -> int {
    8
}

/// The ascending enumeration of the valid vector lane counts.
pub open spec fn lane_count_at(k: int) -> u64 {
    if k == 0 {
        2
    } else if k == 1 {
        4
    } else if k == 2 {
        8
    } else if k == 3 {
        16
    } else if k == 4 {
        32
    } else if k == 5 {
        64
    } else if k == 6 {
        128
    } else {
        256
    }
}

/// The vector over lane type `li` with the `ki`-th lane count.
pub open spec fn vector_at(li: int, ki: int) -> VectorType {
    VectorType { base: lane_type_at(li), lanes: lane_count_at(ki) }
}

/// The entries for the first `k` vectors over lane type `li`.
pub open spec fn vectors_inner_upto(li: int, k: int) -> Seq<Seq<char>>
    decreases k,
{
    if k <= 0 {
        Seq::<Seq<char>>::empty()
    } else {
        vectors_inner_upto(li, k - 1) + type_entry_lines(
            vector_at(li, k - 1).spec_doc(),
            vector_at(li, k - 1).spec_const_name(),
            vector_at(li, k - 1).spec_number(),
        )
    }
}

/// The vector entries for the first `li` lane types, each with every lane
/// count.
pub open spec fn vectors_upto(li: int) -> Seq<Seq<char>>
    decreases li,
{
    if li <= 0 {
        Seq::<Seq<char>>::empty()
    } else {
        vectors_upto(li - 1) + vectors_inner_upto(li - 1, n_lane_counts())
    }
}

/// Everything emitted for the type lattice, in canonical numbering order.
pub open spec fn lattice_lines() -> Seq<Seq<char>> {
    specials_upto(n_special_types()) + lanes_upto(n_lane_types()) + vectors_upto(n_lane_types())
}

/// Emit the documented numeric constant of one concrete type.
#[verifier::loop_isolation(false)]
fn emit_type_entry(fmt: &mut Formatter, doc: &str, cname: &str, number: u8)
    requires
        old(fmt).indent_level() == 0,
    ensures
        final(fmt).lines_view() == old(fmt).lines_view() + type_entry_lines(doc@, cname@, number),
        final(fmt).indent_level() == 0,
{
    fmt.doc_comment(doc);
    let hx = u8_hex(number);
    let h = String::from_str("pub const ").concat(cname).concat(": Type = Type(").concat(
        hx.as_str(),
    ).concat(");");
    fmt.line(h.as_str());
    proof {
        assert(final(fmt).lines_view() =~= old(fmt).lines_view() + type_entry_lines(
            doc@,
            cname@,
            number,
        ));
    }
}

/// Emit the whole type lattice: the special types, the lane types, and
/// every vector type, each as a documented numeric constant, in canonical
/// numbering order.
#[verifier::loop_isolation(false)]
pub fn render_type_lattice(fmt: &mut Formatter)
    requires
        old(fmt).indent_level() == 0,
    ensures
        final(fmt).lines_view() == old(fmt).lines_view() + lattice_lines(),
        final(fmt).indent_level() == 0,
{
    let ghost base = old(fmt).lines_view();
    let mut sit = ValueType::all_special_types();
    let mut i: usize = 0;
    proof {
        assert(base + specials_upto(0) =~= base);
    }
    while i < 2
        invariant
            i <= 2,
            sit.spec_pos() == i,
            fmt.lines_view() == base + specials_upto(i as int),
            fmt.indent_level() == 0,
        decreases 2 - i,
    {
        let t = match sit.next() {
            Some(t) => t,
            None => unreached(),
        };
        let d = t.doc();
        let c = t.const_name();
        emit_type_entry(fmt, d.as_str(), c.as_str(), t.number());
        i += 1;
    }
    let ghost base1 = fmt.lines_view();
    let mut lit = ValueType::all_lane_types();
    let mut j: usize = 0;
    proof {
        assert(base1 + lanes_upto(0) =~= base1);
    }
    while j < 11
        invariant
            j <= 11,
            lit.spec_pos() == j,
            fmt.lines_view() == base1 + lanes_upto(j as int),
            fmt.indent_level() == 0,
        decreases 11 - j,
    {
        let t = match lit.next() {
            Some(t) => t,
            None => unreached(),
        };
        let d = t.doc();
        let c = t.const_name();
        emit_type_entry(fmt, d, c, t.number());
        j += 1;
    }
    let ghost base2 = fmt.lines_view();
    let mut vit = ValueType::all_lane_types();
    let mut li: usize = 0;
    proof {
        assert(base2 + vectors_upto(0) =~= base2);
    }
    while li < 11
        invariant
            li <= 11,
            vit.spec_pos() == li,
            fmt.lines_view() == base2 + vectors_upto(li as int),
            fmt.indent_level() == 0,
        decreases 11 - li,
    {
        let t = match vit.next() {
            Some(t) => t,
            None => unreached(),
        };
        let mut k: usize = 0;
        proof {
            assert(fmt.lines_view() + vectors_inner_upto(li as int, 0) =~= fmt.lines_view());
        }
        let ghost inner_base = fmt.lines_view();
        while k < 8
            invariant
                k <= 8,
                fmt.lines_view() == inner_base + vectors_inner_upto(li as int, k as int),
                fmt.indent_level() == 0,
            decreases 8 - k,
        {
            let lanes: u64 = match k {
                0 => 2,
                1 => 4,
                2 => 8,
                3 => 16,
                4 => 32,
                5 => 64,
                6 => 128,
                _ => 256,
            };
            let v = VectorType { base: t, lanes };
            proof {
                assert(v == vector_at(li as int, k as int));
            }
            let d = v.doc();
            let c = v.const_name();
            emit_type_entry(fmt, d.as_str(), c.as_str(), v.number());
            k += 1;
        }
        proof {
            assert(fmt.lines_view() =~= base2 + vectors_upto(li + 1 as int));
        }
        li += 1;
    }
    proof {
        assert(fmt.lines_view() =~= base + lattice_lines());
    }
}

/// Render the whole type lattice into its full generated text.
pub fn render_type_lattice_text() -> (r: String)
    ensures
        r@ == join_lines(lattice_lines()),
{
    let mut fmt = Formatter::new();
    render_type_lattice(&mut fmt);
    proof {
        assert(Seq::<Seq<char>>::empty() + lattice_lines() =~= lattice_lines());
    }
    fmt.contents()
}

} // verus!
