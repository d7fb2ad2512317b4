//! The library-wide laws: what holds of every session and of every parse
//! step, stated over the same models the contracts use and proved once for
//! all inputs.

use vstd::prelude::*;

use crate::ast::LineModel;
use crate::error::ErrorModel;
use crate::parser::check_imms;
use crate::parser::check_refs;
use crate::parser::declared;
use crate::parser::first_nonblank;
use crate::parser::lemma_find_idx_declared;
use crate::parser::lemma_s_max_bounds;
use crate::parser::line_wf;
use crate::parser::operand_width;
use crate::parser::ref_ok;
use crate::parser::sort_field_err;
use crate::parser::sort_of;
use crate::parser::step_model;
use crate::parser::table_after;
use crate::parser::Btor2Parser;
use crate::parser::StepModel;
use crate::tags::shape_of;
use crate::tags::spec_tag_of;
use crate::tags::Btor2Tag;
use crate::tags::TagShape;
use crate::token::comment_start;
use crate::token::dec_val;
use crate::token::fields_of;
use crate::token::is_blank;
use crate::token::numeric;
use crate::token::split_fields;

verus! {

/// After any number of steps, the session's maximum id is an upper bound on
/// every id in the table, is itself an id of the table while any line
/// exists, and is 0 while the table is empty.
pub proof fn lemma_max_id_is_table_max(p: &Btor2Parser)
    requires
        p.wf(),
    ensures
        forall|i: int| 0 <= i < p.table().len() ==> #[trigger] p.table()[i].id <= p.max_model(),
        p.table().len() > 0 ==> exists|i: int|
            0 <= i < p.table().len() && #[trigger] p.table()[i].id == p.max_model(),
        p.table().len() == 0 ==> p.max_model() == 0,
{
    assert(forall|i: int| 0 <= i < p.table().len() ==> #[trigger] p.table()[i].id >= 0) by {
        assert(forall|i: int| 0 <= i < p.table().len() ==> line_wf(#[trigger] p.table()[i]));
    }
    lemma_s_max_bounds(p.table());
}

/// Every line of a well-formed session carries exactly as many arguments
/// as its tag's shape declares.
pub proof fn lemma_args_match_arity(p: &Btor2Parser)
    requires
        p.wf(),
    ensures
        forall|i: int| 0 <= i < p.table().len() ==> match shape_of(#[trigger] p.table()[i].tag) {
            TagShape::Op { refs, imms } => p.table()[i].args.len() == refs + imms,
            TagShape::SliceOp => p.table()[i].args.len() == 3,
            TagShape::Prop => p.table()[i].args.len() == 1,
            TagShape::InitNext => p.table()[i].args.len() == 2,
            TagShape::SortDecl => p.table()[i].args.len() == 0,
            TagShape::Leaf => p.table()[i].args.len() == 0,
            TagShape::ConstText => p.table()[i].args.len() == 0,
            TagShape::JusticeDecl => true,
        },
{
    assert(forall|i: int| 0 <= i < p.table().len() ==> line_wf(#[trigger] p.table()[i]));
}

/// A `justice` line carries exactly as many arguments as its declared
/// count field.
pub proof fn lemma_justice_count_matches(t: Seq<LineModel>, fs: Seq<Seq<u8>>, ln: int, l: LineModel)
    requires
        step_model(t, fs, ln) == (StepModel::Accept { line: l }),
        l.tag == Btor2Tag::Justice,
    ensures
        fs.len() >= 3,
        l.args.len() == dec_val(fs[2]),
{
    crate::parser::lemma_field_vals_props(fs, 3, fs.len() as int);
}

/// An accepted line resolves every one of its id references against the
/// table: arguments reference declared ids, and a carried sort resolves.
/// No reference to an id that is not yet declared survives a step.
pub proof fn lemma_accept_resolves_references(
    t: Seq<LineModel>,
    fs: Seq<Seq<u8>>,
    ln: int,
    l: LineModel,
)
    requires
        step_model(t, fs, ln) == (StepModel::Accept { line: l }),
    ensures
        !declared(t, l.id),
        match shape_of(l.tag) {
            TagShape::Op { refs, imms } => forall|k: int|
                0 <= k < refs ==> declared(t, #[trigger] l.args[k]),
            TagShape::SliceOp => declared(t, l.args[0]),
            TagShape::Prop => declared(t, l.args[0]),
            TagShape::JusticeDecl => forall|k: int|
                0 <= k < l.args.len() ==> declared(t, #[trigger] l.args[k]),
            TagShape::InitNext => declared(t, l.args[0]) && declared(t, l.args[1]),
            TagShape::SortDecl => true,
            TagShape::Leaf => true,
            TagShape::ConstText => true,
        },
        shape_of(l.tag) matches TagShape::Op { .. } || shape_of(l.tag) == TagShape::SliceOp
            || shape_of(l.tag) == TagShape::Leaf || shape_of(l.tag) == TagShape::ConstText
            || shape_of(l.tag) == TagShape::InitNext ==> sort_of(t, dec_val(fs[2])) == l.sort,
{
    let tag = spec_tag_of(fs[1])->0;
    match shape_of(tag) {
        TagShape::SortDecl => {
        },
        TagShape::Leaf => {
        },
        TagShape::ConstText => {
        },
        TagShape::Op { refs, imms } => {
            crate::parser::lemma_check_refs_all(t, fs, ln, 3, 3 + refs as int);
            crate::parser::lemma_field_vals_props(fs, 3, 3 + refs as int + imms as int);
            assert forall|k: int| 0 <= k < refs implies declared(t, #[trigger] l.args[k]) by {
                assert(l.args[k] == dec_val(fs[3 + k]));
            }
        },
        TagShape::SliceOp => {
            crate::parser::lemma_check_refs_all(t, fs, ln, 3, 4);
            crate::parser::lemma_field_vals_props(fs, 3, 6);
            assert(l.args[0] == dec_val(fs[3]));
        },
        TagShape::Prop => {
            crate::parser::lemma_check_refs_all(t, fs, ln, 2, 3);
            crate::parser::lemma_field_vals_props(fs, 2, 3);
            assert(l.args[0] == dec_val(fs[2]));
        },
        TagShape::JusticeDecl => {
            crate::parser::lemma_check_refs_all(t, fs, ln, 3, fs.len() as int);
            crate::parser::lemma_field_vals_props(fs, 3, fs.len() as int);
            assert forall|k: int| 0 <= k < l.args.len() implies declared(
                t,
                #[trigger] l.args[k],
            ) by {
                assert(l.args[k] == dec_val(fs[3 + k]));
            }
        },
        TagShape::InitNext => {
            crate::parser::lemma_check_refs_all(t, fs, ln, 3, 5);
            crate::parser::lemma_field_vals_props(fs, 3, 5);
            assert(l.args[0] == dec_val(fs[3]));
            assert(l.args[1] == dec_val(fs[4]));
        },
    }
}

/// A step that fails with `UnknownId` names the line it failed on, and an
/// id that is indeed not usable there: not declared at all, or not
/// declared as a sort where a sort was required.
pub proof fn lemma_unknown_id_is_honest(t: Seq<LineModel>, fs: Seq<Seq<u8>>, ln: int, rid: int, l2: int)
    requires
        step_model(t, fs, ln) == (StepModel::Reject {
            err: ErrorModel::UnknownId { line_number: l2, referenced_id: rid },
        }),
    ensures
        l2 == ln,
        !declared(t, rid) || sort_of(t, rid) is None,
{
    let tag = spec_tag_of(fs[1])->0;
    match shape_of(tag) {
        TagShape::SortDecl => {
        },
        TagShape::Leaf => {
        },
        TagShape::ConstText => {
        },
        TagShape::Op { refs, imms } => {
            lemma_check_imms_kind(fs, ln, 3 + refs as int, 3 + refs as int + imms as int);
            if check_refs(t, fs, ln, 3, 3 + refs as int) == Some(
                ErrorModel::UnknownId { line_number: l2, referenced_id: rid },
            ) {
                lemma_check_refs_unknown(t, fs, ln, 3, 3 + refs as int, rid, l2);
            }
        },
        TagShape::SliceOp => {
            lemma_check_imms_kind(fs, ln, 4, 6);
            if check_refs(t, fs, ln, 3, 4) == Some(
                ErrorModel::UnknownId { line_number: l2, referenced_id: rid },
            ) {
                lemma_check_refs_unknown(t, fs, ln, 3, 4, rid, l2);
            }
        },
        TagShape::Prop => {
            if check_refs(t, fs, ln, 2, 3) == Some(
                ErrorModel::UnknownId { line_number: l2, referenced_id: rid },
            ) {
                lemma_check_refs_unknown(t, fs, ln, 2, 3, rid, l2);
            }
        },
        TagShape::JusticeDecl => {
            if check_refs(t, fs, ln, 3, fs.len() as int) == Some(
                ErrorModel::UnknownId { line_number: l2, referenced_id: rid },
            ) {
                lemma_check_refs_unknown(t, fs, ln, 3, fs.len() as int, rid, l2);
            }
        },
        TagShape::InitNext => {
            if check_refs(t, fs, ln, 3, 5) == Some(
                ErrorModel::UnknownId { line_number: l2, referenced_id: rid },
            ) {
                lemma_check_refs_unknown(t, fs, ln, 3, 5, rid, l2);
            }
        },
    }
}

/// An immediate check can only report an invalid numeric field, on its
/// own line.
proof fn lemma_check_imms_kind(fs: Seq<Seq<u8>>, ln: int, i: int, end: int)
    ensures
        match check_imms(fs, ln, i, end) {
            Some(e) => e matches ErrorModel::InvalidNumericField { line_number, .. }
                && line_number == ln,
            None => true,
        },
    decreases end - i,
{
    if i < end && crate::parser::imm_ok(fs[i]) {
        lemma_check_imms_kind(fs, ln, i + 1, end);
    }
}

/// A reference check that reports `UnknownId` reports the right line and
/// an undeclared id.
proof fn lemma_check_refs_unknown(
    t: Seq<LineModel>,
    fs: Seq<Seq<u8>>,
    ln: int,
    i: int,
    end: int,
    rid: int,
    l2: int,
)
    requires
        check_refs(t, fs, ln, i, end) == Some(
            ErrorModel::UnknownId { line_number: l2, referenced_id: rid },
        ),
    ensures
        l2 == ln,
        !declared(t, rid),
    decreases end - i,
{
    if i < end && ref_ok(fs[i]) && declared(t, dec_val(fs[i])) {
        lemma_check_refs_unknown(t, fs, ln, i + 1, end, rid, l2);
    }
}

/// Declaring an id that the table already holds is always rejected as a
/// duplicate, whatever the rest of the line says.
pub proof fn lemma_duplicate_id_rejected(t: Seq<LineModel>, fs: Seq<Seq<u8>>, ln: int)
    requires
        fs.len() >= 2,
        numeric(fs[0]),
        1 <= dec_val(fs[0]) <= i64::MAX as int,
        declared(t, dec_val(fs[0])),
    ensures
        step_model(t, fs, ln) == (StepModel::Reject {
            err: ErrorModel::DuplicateId { line_number: ln, id: dec_val(fs[0]) },
        }),
{
}

/// An accepted `slice` line always has bounds inside its operand's
/// bit-vector width: `lower <= upper < width`. A slice whose bounds
/// violate that is never turned into a line.
pub proof fn lemma_slice_accept_bounds(t: Seq<LineModel>, fs: Seq<Seq<u8>>, ln: int, l: LineModel)
    requires
        step_model(t, fs, ln) == (StepModel::Accept { line: l }),
        l.tag == Btor2Tag::Slice,
    ensures
        l.args.len() == 3,
        operand_width(t, l.args[0]) matches Some(w) && l.args[2] <= l.args[1] < w,
{
    crate::parser::lemma_field_vals_props(fs, 3, 6);
    assert(l.args[0] == dec_val(fs[3]));
    assert(l.args[1] == dec_val(fs[4]));
    assert(l.args[2] == dec_val(fs[5]));
}

/// A `slice` line whose bounds fall outside its operand's width — the
/// upper bound at or past the width, or above-crossed bounds — is always
/// rejected as an invalid numeric field on its own line, provided every
/// check before the bounds passes.
pub proof fn lemma_slice_bad_bounds_rejected(t: Seq<LineModel>, fs: Seq<Seq<u8>>, ln: int)
    requires
        fs.len() == 6,
        numeric(fs[0]),
        1 <= dec_val(fs[0]) <= i64::MAX as int,
        !declared(t, dec_val(fs[0])),
        spec_tag_of(fs[1]) == Some(Btor2Tag::Slice),
        sort_field_err(t, fs, ln) is None,
        ref_ok(fs[3]),
        declared(t, dec_val(fs[3])),
        crate::parser::imm_ok(fs[4]),
        crate::parser::imm_ok(fs[5]),
        match operand_width(t, dec_val(fs[3])) {
            Some(w) => dec_val(fs[4]) >= w || dec_val(fs[4]) < dec_val(fs[5]),
            None => true,
        },
    ensures
        step_model(t, fs, ln) matches StepModel::Reject { err } && (err
            matches ErrorModel::InvalidNumericField { line_number, .. } && line_number == ln),
{
    assert(check_refs(t, fs, ln, 4, 4) is None);
    assert(check_refs(t, fs, ln, 3, 4) is None);
    assert(check_imms(fs, ln, 6, 6) is None);
    assert(check_imms(fs, ln, 5, 6) is None);
    assert(check_imms(fs, ln, 4, 6) is None);
}

/// A line with no fields steps to a skip: it never touches the table, the
/// maximum id, or the error state.
pub proof fn lemma_blank_line_skipped(t: Seq<LineModel>, raw: Seq<u8>, ln: int)
    requires
        is_blank(raw),
    ensures
        step_model(t, fields_of(raw), ln) == StepModel::Skip,
{
}

/// A line that opens with the comment marker has no fields at all.
pub proof fn lemma_comment_line_blank(raw: Seq<u8>)
    requires
        raw.len() > 0,
        raw[0] == 59,
    ensures
        is_blank(raw),
{
    assert(comment_start(raw) == 0);
    assert(raw.take(0) =~= Seq::<u8>::empty());
    assert(split_fields(Seq::<u8>::empty()) =~= Seq::<Seq<u8>>::empty());
}

/// Accepting a line never disturbs what was already in the table: every
/// earlier line keeps its id, tag, sort, arguments and payloads (only a
/// state line's `init`/`next` attachment can be filled in), the new line
/// stands at the end, and exactly the new id becomes declared.
pub proof fn lemma_table_after_preserves(t: Seq<LineModel>, l: LineModel)
    ensures
        table_after(t, l).len() == t.len() + 1,
        forall|i: int| 0 <= i < t.len() ==> {
            let a = #[trigger] table_after(t, l)[i];
            a.id == t[i].id && a.tag == t[i].tag && a.args == t[i].args && a.sort == t[i].sort
                && a.constant == t[i].constant && a.symbol == t[i].symbol && a.lineno
                == t[i].lineno && a.name == t[i].name
        },
        table_after(t, l)[t.len() as int] == l,
        forall|x: int| declared(table_after(t, l), x) <==> (declared(t, x) || x == l.id),
{
    let ta = table_after(t, l);
    if (l.tag == Btor2Tag::Init || l.tag == Btor2Tag::Next) && l.args.len() == 2 && declared(
        t,
        l.args[0],
    ) {
        lemma_find_idx_declared(t, l.args[0]);
    }
    assert forall|x: int| declared(ta, x) implies (declared(t, x) || x == l.id) by {
        let w = choose|i: int| 0 <= i < ta.len() && ta[i].id == x;
        if w < t.len() {
            assert(t[w].id == x);
        }
    }
    assert forall|x: int| (declared(t, x) || x == l.id) implies declared(ta, x) by {
        if declared(t, x) {
            let w = choose|i: int| 0 <= i < t.len() && t[i].id == x;
            assert(ta[w].id == x);
        } else {
            assert(ta[t.len() as int].id == x);
        }
    }
}

/// Stopping after any number of `next_line` calls leaves a consistent
/// session: the invariant holds, and every id that was declared stays
/// resolvable; consuming a prefix of the input never manufactures an
/// error on its own.
pub proof fn lemma_early_stop_consistent(pre: Btor2Parser, post: Btor2Parser, r: Option<
    crate::ast::Btor2Line,
>)
    requires
        pre.wf(),
        post.wf(),
        crate::parser::next_line_post(pre, post, r),
        pre.streaming(),
    ensures
        forall|x: int| declared(pre.table(), x) ==> declared(post.table(), x),
        r is Some ==> post.streaming() && post.error_model() is None,
{
    let raws = pre.raw_lines();
    let p = first_nonblank(raws, pre.cursor());
    if p != raws.len() {
        match step_model(pre.table(), fields_of(raws[p]), p + 1) {
            StepModel::Accept { line } => {
                lemma_table_after_preserves(pre.table(), line);
            },
            StepModel::Reject { err } => {
            },
            StepModel::Skip => {
            },
        }
    }
}

} // verus!

