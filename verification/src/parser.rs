//! The parse session: drives tokenizing, tag dispatch, shape validation and
//! id resolution over a byte source, yielding one immutable line record per
//! statement and stopping at the first malformed line.

use vstd::prelude::*;

use crate::ast::clone_bytes;
use crate::ast::ids_model;
use crate::ast::Btor2Line;
use crate::ast::Btor2Sort;
use crate::ast::Btor2SortContent;
use crate::ast::LineModel;
use crate::ast::SortContentModel;
use crate::ast::SortModel;
use crate::error::Btor2ParserError;
use crate::error::ErrorModel;
use crate::tags::bytes_eq;
use crate::tags::kw_array;
use crate::tags::kw_array_token;
use crate::tags::kw_bitvec;
use crate::tags::kw_bitvec_token;
use crate::tags::mnemonic_of;
use crate::tags::shape_of;
use crate::tags::spec_mnemonic;
use crate::tags::spec_tag_of;
use crate::tags::tag_of_token;
use crate::tags::tag_shape;
use crate::tags::Btor2SortTag;
use crate::tags::Btor2Tag;
use crate::tags::TagShape;
use crate::token::dec_val;
use crate::token::fields_of;
use crate::token::is_blank;
use crate::token::is_numeric;
use crate::token::lines_of_source;
use crate::token::numeric;
use crate::token::parse_decimal;
use crate::token::split_lines;
use crate::token::tokenize;

verus! {

// ------------------------------------------------------------------
// The id table model: which ids are declared, and by which line.
// ------------------------------------------------------------------

/// Whether some line in the table carries the id.
pub open spec fn declared(t: Seq<LineModel>, id: int) -> bool {
    exists|i: int| 0 <= i < t.len() && t[i].id == id
}

/// The first index of a line with the id.
pub open spec fn find_idx(t: Seq<LineModel>, id: int) -> int
    decreases t.len(),
{
    if t.len() == 0 {
        0
    } else if t[0].id == id {
        0
    } else {
        1 + find_idx(t.drop_first(), id)
    }
}

/// `find_idx` is the first index with the id; with no such index, the id is
/// undeclared.
pub proof fn lemma_find_idx(t: Seq<LineModel>, id: int, j: int)
    requires
        0 <= j <= t.len(),
        forall|m: int| 0 <= m < j ==> t[m].id != id,
        j < t.len() ==> t[j].id == id,
    ensures
        j < t.len() ==> declared(t, id) && find_idx(t, id) == j,
        j == t.len() ==> !declared(t, id),
    decreases t.len(),
{
    if j == t.len() {
        assert(forall|i: int| 0 <= i < t.len() ==> t[i].id != id);
    } else if t.len() != 0 && t[0].id != id {
        lemma_find_idx(t.drop_first(), id, j - 1);
        assert(t.drop_first()[j - 1].id == id);
    }
}

/// What `find_idx` returns when the id is declared at all.
pub proof fn lemma_find_idx_declared(t: Seq<LineModel>, id: int)
    requires
        declared(t, id),
    ensures
        0 <= find_idx(t, id) < t.len(),
        t[find_idx(t, id)].id == id,
        forall|m: int| 0 <= m < find_idx(t, id) ==> t[m].id != id,
    decreases t.len(),
{
    if t.len() != 0 && t[0].id != id {
        assert(declared(t.drop_first(), id)) by {
            let w = choose|i: int| 0 <= i < t.len() && t[i].id == id;
            assert(t.drop_first()[w - 1].id == id);
        }
        lemma_find_idx_declared(t.drop_first(), id);
        let f = find_idx(t, id);
        assert(f == 1 + find_idx(t.drop_first(), id));
        assert(t[f].id == t.drop_first()[f - 1].id);
        assert(forall|m: int| 1 <= m < f ==> t[m].id == t.drop_first()[m - 1].id);
    }
}

/// The sort declared under `id`, if any: the line with that id must be a
/// `sort` declaration.
pub open spec fn sort_of(t: Seq<LineModel>, id: int) -> Option<SortModel> {
    if declared(t, id) && t[find_idx(t, id)].tag == Btor2Tag::Sort {
        t[find_idx(t, id)].sort
    } else {
        None
    }
}

/// The width of the bit-vector sort of the line declared under `id`, if
/// that line exists and its sort is a bit-vector.
pub open spec fn operand_width(t: Seq<LineModel>, id: int) -> Option<int> {
    if declared(t, id) {
        match t[find_idx(t, id)].sort {
            Some(sm) => match sm.content {
                SortContentModel::Bitvec { width } => Some(width),
                SortContentModel::Array { .. } => None,
            },
            None => None,
        }
    } else {
        None
    }
}

/// The maximum id in the table, 0 while it is empty.
pub open spec fn s_max(t: Seq<LineModel>) -> int
    decreases t.len(),
{
    if t.len() == 0 {
        0
    } else {
        let m = s_max(t.drop_last());
        if t.last().id > m {
            t.last().id
        } else {
            m
        }
    }
}

/// The maximum tracks every id in the table, and is one of them while any
/// exist.
pub proof fn lemma_s_max_bounds(t: Seq<LineModel>)
    requires
        forall|i: int| 0 <= i < t.len() ==> #[trigger] t[i].id >= 0,
    ensures
        forall|i: int| 0 <= i < t.len() ==> t[i].id <= s_max(t),
        t.len() > 0 ==> exists|i: int| 0 <= i < t.len() && t[i].id == s_max(t),
        t.len() == 0 ==> s_max(t) == 0,
    decreases t.len(),
{
    if t.len() > 0 {
        lemma_s_max_bounds(t.drop_last());
        assert(forall|i: int| 0 <= i < t.len() - 1 ==> t[i] == t.drop_last()[i]);
        if s_max(t) == t.last().id {
            assert(t[t.len() - 1].id == s_max(t));
        } else {
            assert(s_max(t) == s_max(t.drop_last()));
            assert(t.drop_last().len() > 0) by {
                if t.drop_last().len() == 0 {
                    assert(s_max(t.drop_last()) == 0);
                    assert(s_max(t) == t.last().id);
                }
            }
            let w = choose|i: int|
                0 <= i < t.drop_last().len() && t.drop_last()[i].id == s_max(t.drop_last());
            assert(t[w].id == s_max(t));
        }
    }
}

/// Appending a line moves the maximum to the larger of the old maximum and
/// the new id.
pub proof fn lemma_s_max_push(t: Seq<LineModel>, l: LineModel)
    ensures
        s_max(t.push(l)) == if l.id > s_max(t) {
            l.id
        } else {
            s_max(t)
        },
{
    assert(t.push(l).drop_last() =~= t);
}

/// Replacing a line by one with the same id leaves the maximum unchanged.
pub proof fn lemma_s_max_update(t: Seq<LineModel>, j: int, l: LineModel)
    requires
        0 <= j < t.len(),
        l.id == t[j].id,
    ensures
        s_max(t.update(j, l)) == s_max(t),
    decreases t.len(),
{
    let u = t.update(j, l);
    if j == t.len() - 1 {
        assert(u.drop_last() =~= t.drop_last());
        assert(u.last() == l);
    } else {
        assert(u.drop_last() =~= t.drop_last().update(j, l));
        lemma_s_max_update(t.drop_last(), j, l);
        assert(u.last() == t.last());
    }
}

// ------------------------------------------------------------------
// Well-formed lines and tables.
// ------------------------------------------------------------------

/// What holds of every line a parse can produce: a positive id that fits,
/// the mnemonic of its tag as name, arguments counted by the tag's shape,
/// and a sort exactly where the shape carries one.
pub open spec fn line_wf(l: LineModel) -> bool {
    &&& 1 <= l.id <= i64::MAX as int
    &&& 1 <= l.lineno
    &&& l.name == spec_mnemonic(l.tag)
    &&& match shape_of(l.tag) {
        TagShape::Op { refs, imms } => l.args.len() == refs + imms,
        TagShape::SliceOp => l.args.len() == 3,
        TagShape::Prop => l.args.len() == 1,
        TagShape::InitNext => l.args.len() == 2,
        TagShape::SortDecl => l.args.len() == 0,
        TagShape::Leaf => l.args.len() == 0,
        TagShape::ConstText => l.args.len() == 0,
        TagShape::JusticeDecl => true,
    }
    &&& forall|k: int| 0 <= k < l.args.len() ==> 0 <= #[trigger] l.args[k] <= i64::MAX as int
    &&& match shape_of(l.tag) {
        TagShape::Prop => l.sort is None,
        TagShape::JusticeDecl => l.sort is None,
        _ => l.sort is Some,
    }
    &&& (l.tag == Btor2Tag::Sort ==> (l.sort matches Some(sm) && sm.id == l.id))
    &&& 0 <= l.init <= i64::MAX as int
    &&& 0 <= l.next <= i64::MAX as int
}

/// A well-formed id table: unique ids, every line well-formed.
pub open spec fn table_wf(t: Seq<LineModel>) -> bool {
    &&& forall|i: int, j: int| 0 <= i < j < t.len() ==> t[i].id != t[j].id
    &&& forall|i: int| 0 <= i < t.len() ==> line_wf(#[trigger] t[i])
}

// ------------------------------------------------------------------
// The model of one parse step on the fields of one raw line.
// ------------------------------------------------------------------

/// What one raw line does to a session: nothing (blank), a terminal error,
/// or one accepted line.
#[verifier::ext_equal]
pub enum StepModel {
    Skip,
    Reject { err: ErrorModel },
    Accept { line: LineModel },
}

/// A field that can serve as an id reference: a number from 1 up that fits
/// a signed 64-bit id.
pub open spec fn ref_ok(s: Seq<u8>) -> bool {
    numeric(s) && 1 <= dec_val(s) <= i64::MAX as int
}

/// A field that can serve as a numeric immediate.
pub open spec fn imm_ok(s: Seq<u8>) -> bool {
    numeric(s) && 0 <= dec_val(s) <= i64::MAX as int
}

/// Checks fields `i..end` as id references, left to right: the first field
/// that is not a number is reported as invalid, the first one whose id is
/// not declared as unknown.
pub open spec fn check_refs(
    t: Seq<LineModel>,
    fs: Seq<Seq<u8>>,
    ln: int,
    i: int,
    end: int,
) -> Option<ErrorModel>
    decreases end - i,
{
    if i >= end {
        None
    } else if !ref_ok(fs[i]) {
        Some(ErrorModel::InvalidNumericField { line_number: ln, field_index: i })
    } else if !declared(t, dec_val(fs[i])) {
        Some(ErrorModel::UnknownId { line_number: ln, referenced_id: dec_val(fs[i]) })
    } else {
        check_refs(t, fs, ln, i + 1, end)
    }
}

/// Checks fields `i..end` as plain numeric immediates, left to right.
pub open spec fn check_imms(fs: Seq<Seq<u8>>, ln: int, i: int, end: int) -> Option<ErrorModel>
    decreases end - i,
{
    if i >= end {
        None
    } else if !imm_ok(fs[i]) {
        Some(ErrorModel::InvalidNumericField { line_number: ln, field_index: i })
    } else {
        check_imms(fs, ln, i + 1, end)
    }
}

/// The decimal values of fields `i..end`.
pub open spec fn field_vals(fs: Seq<Seq<u8>>, i: int, end: int) -> Seq<int>
    decreases end - i,
{
    if i >= end {
        seq![]
    } else {
        seq![dec_val(fs[i])] + field_vals(fs, i + 1, end)
    }
}

/// Checks the sort field (always field 2) of a line that carries one.
pub open spec fn sort_field_err(t: Seq<LineModel>, fs: Seq<Seq<u8>>, ln: int) -> Option<
    ErrorModel,
> {
    if !ref_ok(fs[2]) {
        Some(ErrorModel::InvalidNumericField { line_number: ln, field_index: 2 })
    } else if sort_of(t, dec_val(fs[2])) is None {
        Some(ErrorModel::UnknownId { line_number: ln, referenced_id: dec_val(fs[2]) })
    } else {
        None
    }
}

/// A line record as a step accepts it: fresh, with the tag's mnemonic as
/// name and nothing attached yet.
pub open spec fn make_line(
    id: int,
    ln: int,
    tag: Btor2Tag,
    sort: Option<SortModel>,
    constant: Option<Seq<u8>>,
    symbol: Option<Seq<u8>>,
    args: Seq<int>,
) -> LineModel {
    LineModel {
        id,
        lineno: ln,
        name: spec_mnemonic(tag),
        tag,
        sort,
        init: 0,
        next: 0,
        constant,
        symbol,
        args,
    }
}

/// One `sort` declaration: `bitvec` with a positive width that fits 32
/// bits, or `array` over two already-declared sorts, with an optional
/// trailing name.
pub open spec fn step_sort(t: Seq<LineModel>, fs: Seq<Seq<u8>>, ln: int, id: int) -> StepModel {
    if fs.len() < 3 {
        StepModel::Reject {
            err: ErrorModel::ArityMismatch {
                line_number: ln,
                tag: Btor2Tag::Sort,
                expected: 4,
                actual: fs.len() as int,
            },
        }
    } else if fs[2] == kw_bitvec() {
        if fs.len() != 4 && fs.len() != 5 {
            StepModel::Reject {
                err: ErrorModel::ArityMismatch {
                    line_number: ln,
                    tag: Btor2Tag::Sort,
                    expected: 4,
                    actual: fs.len() as int,
                },
            }
        } else if !(numeric(fs[3]) && 1 <= dec_val(fs[3]) <= u32::MAX as int) {
            StepModel::Reject {
                err: ErrorModel::InvalidNumericField { line_number: ln, field_index: 3 },
            }
        } else {
            let name = if fs.len() == 5 {
                Some(fs[4])
            } else {
                None
            };
            StepModel::Accept {
                line: make_line(
                    id,
                    ln,
                    Btor2Tag::Sort,
                    Some(
                        SortModel {
                            id,
                            tag: Btor2SortTag::Bitvec,
                            name,
                            content: SortContentModel::Bitvec { width: dec_val(fs[3]) },
                        },
                    ),
                    None,
                    name,
                    seq![],
                ),
            }
        }
    } else if fs[2] == kw_array() {
        if fs.len() != 5 && fs.len() != 6 {
            StepModel::Reject {
                err: ErrorModel::ArityMismatch {
                    line_number: ln,
                    tag: Btor2Tag::Sort,
                    expected: 5,
                    actual: fs.len() as int,
                },
            }
        } else if !ref_ok(fs[3]) {
            StepModel::Reject {
                err: ErrorModel::InvalidNumericField { line_number: ln, field_index: 3 },
            }
        } else if sort_of(t, dec_val(fs[3])) is None {
            StepModel::Reject {
                err: ErrorModel::UnknownId { line_number: ln, referenced_id: dec_val(fs[3]) },
            }
        } else if !ref_ok(fs[4]) {
            StepModel::Reject {
                err: ErrorModel::InvalidNumericField { line_number: ln, field_index: 4 },
            }
        } else if sort_of(t, dec_val(fs[4])) is None {
            StepModel::Reject {
                err: ErrorModel::UnknownId { line_number: ln, referenced_id: dec_val(fs[4]) },
            }
        } else {
            let name = if fs.len() == 6 {
                Some(fs[5])
            } else {
                None
            };
            StepModel::Accept {
                line: make_line(
                    id,
                    ln,
                    Btor2Tag::Sort,
                    Some(
                        SortModel {
                            id,
                            tag: Btor2SortTag::Array,
                            name,
                            content: SortContentModel::Array {
                                index: dec_val(fs[3]),
                                element: dec_val(fs[4]),
                            },
                        },
                    ),
                    None,
                    name,
                    seq![],
                ),
            }
        }
    } else {
        StepModel::Reject { err: ErrorModel::UnknownTag { line_number: ln, token: fs[2] } }
    }
}

/// A leaf statement: a sort and an optional symbol, no arguments.
pub open spec fn step_leaf(
    t: Seq<LineModel>,
    fs: Seq<Seq<u8>>,
    ln: int,
    id: int,
    tag: Btor2Tag,
) -> StepModel {
    if fs.len() != 3 && fs.len() != 4 {
        StepModel::Reject {
            err: ErrorModel::ArityMismatch {
                line_number: ln,
                tag,
                expected: 3,
                actual: fs.len() as int,
            },
        }
    } else {
        match sort_field_err(t, fs, ln) {
            Some(e) => StepModel::Reject { err: e },
            None => {
                let symbol = if fs.len() == 4 {
                    Some(fs[3])
                } else {
                    None
                };
                StepModel::Accept {
                    line: make_line(
                        id,
                        ln,
                        tag,
                        sort_of(t, dec_val(fs[2])),
                        None,
                        symbol,
                        seq![],
                    ),
                }
            },
        }
    }
}

/// A constant with literal text: a sort and exactly one payload field.
pub open spec fn step_const(
    t: Seq<LineModel>,
    fs: Seq<Seq<u8>>,
    ln: int,
    id: int,
    tag: Btor2Tag,
) -> StepModel {
    if fs.len() != 4 {
        StepModel::Reject {
            err: ErrorModel::ArityMismatch {
                line_number: ln,
                tag,
                expected: 4,
                actual: fs.len() as int,
            },
        }
    } else {
        match sort_field_err(t, fs, ln) {
            Some(e) => StepModel::Reject { err: e },
            None => StepModel::Accept {
                line: make_line(
                    id,
                    ln,
                    tag,
                    sort_of(t, dec_val(fs[2])),
                    Some(fs[3]),
                    None,
                    seq![],
                ),
            },
        }
    }
}

/// A fixed-arity operator: a sort, `refs` resolved argument ids, then
/// `imms` numeric immediates, all stored as the line's arguments.
pub open spec fn step_op(
    t: Seq<LineModel>,
    fs: Seq<Seq<u8>>,
    ln: int,
    id: int,
    tag: Btor2Tag,
    refs: int,
    imms: int,
) -> StepModel {
    let total = 3 + refs + imms;
    if fs.len() != total {
        StepModel::Reject {
            err: ErrorModel::ArityMismatch {
                line_number: ln,
                tag,
                expected: total,
                actual: fs.len() as int,
            },
        }
    } else {
        match sort_field_err(t, fs, ln) {
            Some(e) => StepModel::Reject { err: e },
            None => match check_refs(t, fs, ln, 3, 3 + refs) {
                Some(e) => StepModel::Reject { err: e },
                None => match check_imms(fs, ln, 3 + refs, total) {
                    Some(e) => StepModel::Reject { err: e },
                    None => StepModel::Accept {
                        line: make_line(
                            id,
                            ln,
                            tag,
                            sort_of(t, dec_val(fs[2])),
                            None,
                            None,
                            field_vals(fs, 3, total),
                        ),
                    },
                },
            },
        }
    }
}

/// A `slice`: one operand and two bounds, which must satisfy
/// `lower <= upper < width` of the operand's bit-vector sort.
pub open spec fn step_slice(t: Seq<LineModel>, fs: Seq<Seq<u8>>, ln: int, id: int) -> StepModel {
    if fs.len() != 6 {
        StepModel::Reject {
            err: ErrorModel::ArityMismatch {
                line_number: ln,
                tag: Btor2Tag::Slice,
                expected: 6,
                actual: fs.len() as int,
            },
        }
    } else {
        match sort_field_err(t, fs, ln) {
            Some(e) => StepModel::Reject { err: e },
            None => match check_refs(t, fs, ln, 3, 4) {
                Some(e) => StepModel::Reject { err: e },
                None => match check_imms(fs, ln, 4, 6) {
                    Some(e) => StepModel::Reject { err: e },
                    None => {
                        let upper = dec_val(fs[4]);
                        let lower = dec_val(fs[5]);
                        match operand_width(t, dec_val(fs[3])) {
                            None => StepModel::Reject {
                                err: ErrorModel::InvalidNumericField {
                                    line_number: ln,
                                    field_index: 4,
                                },
                            },
                            Some(w) => if upper >= w {
                                StepModel::Reject {
                                    err: ErrorModel::InvalidNumericField {
                                        line_number: ln,
                                        field_index: 4,
                                    },
                                }
                            } else if upper < lower {
                                StepModel::Reject {
                                    err: ErrorModel::InvalidNumericField {
                                        line_number: ln,
                                        field_index: 5,
                                    },
                                }
                            } else {
                                StepModel::Accept {
                                    line: make_line(
                                        id,
                                        ln,
                                        Btor2Tag::Slice,
                                        sort_of(t, dec_val(fs[2])),
                                        None,
                                        None,
                                        field_vals(fs, 3, 6),
                                    ),
                                }
                            },
                        }
                    },
                },
            },
        }
    }
}

/// A property statement: no sort, exactly one resolved argument.
pub open spec fn step_prop(
    t: Seq<LineModel>,
    fs: Seq<Seq<u8>>,
    ln: int,
    id: int,
    tag: Btor2Tag,
) -> StepModel {
    if fs.len() != 3 {
        StepModel::Reject {
            err: ErrorModel::ArityMismatch {
                line_number: ln,
                tag,
                expected: 3,
                actual: fs.len() as int,
            },
        }
    } else {
        match check_refs(t, fs, ln, 2, 3) {
            Some(e) => StepModel::Reject { err: e },
            None => StepModel::Accept {
                line: make_line(id, ln, tag, None, None, None, field_vals(fs, 2, 3)),
            },
        }
    }
}

/// A `justice` statement: a declared count, then exactly that many
/// resolved arguments, no sort.
pub open spec fn step_justice(t: Seq<LineModel>, fs: Seq<Seq<u8>>, ln: int, id: int) -> StepModel {
    if fs.len() < 3 {
        StepModel::Reject {
            err: ErrorModel::ArityMismatch {
                line_number: ln,
                tag: Btor2Tag::Justice,
                expected: 3,
                actual: fs.len() as int,
            },
        }
    } else if !(numeric(fs[2]) && dec_val(fs[2]) <= u64::MAX as int - 3) {
        StepModel::Reject {
            err: ErrorModel::InvalidNumericField { line_number: ln, field_index: 2 },
        }
    } else if fs.len() != 3 + dec_val(fs[2]) {
        StepModel::Reject {
            err: ErrorModel::ArityMismatch {
                line_number: ln,
                tag: Btor2Tag::Justice,
                expected: 3 + dec_val(fs[2]),
                actual: fs.len() as int,
            },
        }
    } else {
        match check_refs(t, fs, ln, 3, fs.len() as int) {
            Some(e) => StepModel::Reject { err: e },
            None => StepModel::Accept {
                line: make_line(
                    id,
                    ln,
                    Btor2Tag::Justice,
                    None,
                    None,
                    None,
                    field_vals(fs, 3, fs.len() as int),
                ),
            },
        }
    }
}

/// An `init` or `next` statement: a sort, a state id and a value id, both
/// resolved; the accepted line later attaches its value to the state line.
pub open spec fn step_init_next(
    t: Seq<LineModel>,
    fs: Seq<Seq<u8>>,
    ln: int,
    id: int,
    tag: Btor2Tag,
) -> StepModel {
    if fs.len() != 5 {
        StepModel::Reject {
            err: ErrorModel::ArityMismatch {
                line_number: ln,
                tag,
                expected: 5,
                actual: fs.len() as int,
            },
        }
    } else {
        match sort_field_err(t, fs, ln) {
            Some(e) => StepModel::Reject { err: e },
            None => match check_refs(t, fs, ln, 3, 5) {
                Some(e) => StepModel::Reject { err: e },
                None => StepModel::Accept {
                    line: make_line(
                        id,
                        ln,
                        tag,
                        sort_of(t, dec_val(fs[2])),
                        None,
                        None,
                        field_vals(fs, 3, 5),
                    ),
                },
            },
        }
    }
}

/// What the fields of one raw line do to a session with table `t`: blank
/// lines are skipped; otherwise the leading id is read, checked for
/// freshness, the mnemonic dispatched, and the tag's shape validated, the
/// first failed check deciding the error.
pub open spec fn step_model(t: Seq<LineModel>, fs: Seq<Seq<u8>>, ln: int) -> StepModel {
    if fs.len() == 0 {
        StepModel::Skip
    } else if fs.len() < 2 || !numeric(fs[0]) {
        StepModel::Reject { err: ErrorModel::MalformedLine { line_number: ln } }
    } else if !(1 <= dec_val(fs[0]) <= i64::MAX as int) {
        StepModel::Reject {
            err: ErrorModel::InvalidNumericField { line_number: ln, field_index: 0 },
        }
    } else if declared(t, dec_val(fs[0])) {
        StepModel::Reject {
            err: ErrorModel::DuplicateId { line_number: ln, id: dec_val(fs[0]) },
        }
    } else {
        let id = dec_val(fs[0]);
        match spec_tag_of(fs[1]) {
            None => StepModel::Reject {
                err: ErrorModel::UnknownTag { line_number: ln, token: fs[1] },
            },
            Some(tag) => match shape_of(tag) {
                TagShape::SortDecl => step_sort(t, fs, ln, id),
                TagShape::Leaf => step_leaf(t, fs, ln, id, tag),
                TagShape::ConstText => step_const(t, fs, ln, id, tag),
                TagShape::Op { refs, imms } => step_op(
                    t,
                    fs,
                    ln,
                    id,
                    tag,
                    refs as int,
                    imms as int,
                ),
                TagShape::SliceOp => step_slice(t, fs, ln, id),
                TagShape::Prop => step_prop(t, fs, ln, id, tag),
                TagShape::JusticeDecl => step_justice(t, fs, ln, id),
                TagShape::InitNext => step_init_next(t, fs, ln, id, tag),
            },
        }
    }
}

/// The table after an accepted line: the line is appended, and an `init`
/// or `next` line additionally attaches its value id to the state line it
/// names.
pub open spec fn table_after(t: Seq<LineModel>, l: LineModel) -> Seq<LineModel> {
    if (l.tag == Btor2Tag::Init || l.tag == Btor2Tag::Next) && l.args.len() == 2 && declared(
        t,
        l.args[0],
    ) {
        let j = find_idx(t, l.args[0]);
        let upd = if l.tag == Btor2Tag::Init {
            LineModel { init: l.args[1], ..t[j] }
        } else {
            LineModel { next: l.args[1], ..t[j] }
        };
        t.update(j, upd).push(l)
    } else {
        t.push(l)
    }
}

/// The first raw line at or after `pos` that has any fields.
pub open spec fn first_nonblank(raws: Seq<Seq<u8>>, pos: int) -> int
    decreases raws.len() - pos,
{
    if pos < 0 || pos >= raws.len() {
        raws.len() as int
    } else if is_blank(raws[pos]) {
        first_nonblank(raws, pos + 1)
    } else {
        pos
    }
}

// ------------------------------------------------------------------
// Composition of the left-to-right field checks.
// ------------------------------------------------------------------

/// A passed check over a prefix lets the whole check start at its end.
pub proof fn lemma_check_refs_split(t: Seq<LineModel>, fs: Seq<Seq<u8>>, ln: int, i: int, j: int, end: int)
    requires
        i <= j <= end,
        check_refs(t, fs, ln, i, j) is None,
    ensures
        check_refs(t, fs, ln, i, end) == check_refs(t, fs, ln, j, end),
    decreases j - i,
{
    if i < j {
        lemma_check_refs_split(t, fs, ln, i + 1, j, end);
    }
}

/// A passed check extends over one more passing field.
proof fn lemma_check_refs_extend(t: Seq<LineModel>, fs: Seq<Seq<u8>>, ln: int, i: int, j: int)
    requires
        i <= j,
        check_refs(t, fs, ln, i, j) is None,
        ref_ok(fs[j]),
        declared(t, dec_val(fs[j])),
    ensures
        check_refs(t, fs, ln, i, j + 1) is None,
    decreases j - i,
{
    if i < j {
        lemma_check_refs_extend(t, fs, ln, i + 1, j);
    } else {
        assert(check_refs(t, fs, ln, j + 1, j + 1) is None);
    }
}

/// Every field of a passed reference check is a declared reference.
pub proof fn lemma_check_refs_all(t: Seq<LineModel>, fs: Seq<Seq<u8>>, ln: int, i: int, end: int)
    requires
        check_refs(t, fs, ln, i, end) is None,
    ensures
        forall|k: int| i <= k < end ==> ref_ok(#[trigger] fs[k]) && declared(t, dec_val(fs[k])),
    decreases end - i,
{
    if i < end {
        lemma_check_refs_all(t, fs, ln, i + 1, end);
    }
}

/// A passed immediate check over a prefix lets the whole check start at its
/// end.
pub proof fn lemma_check_imms_split(fs: Seq<Seq<u8>>, ln: int, i: int, j: int, end: int)
    requires
        i <= j <= end,
        check_imms(fs, ln, i, j) is None,
    ensures
        check_imms(fs, ln, i, end) == check_imms(fs, ln, j, end),
    decreases j - i,
{
    if i < j {
        lemma_check_imms_split(fs, ln, i + 1, j, end);
    }
}

/// A passed immediate check extends over one more passing field.
proof fn lemma_check_imms_extend(fs: Seq<Seq<u8>>, ln: int, i: int, j: int)
    requires
        i <= j,
        check_imms(fs, ln, i, j) is None,
        imm_ok(fs[j]),
    ensures
        check_imms(fs, ln, i, j + 1) is None,
    decreases j - i,
{
    if i < j {
        lemma_check_imms_extend(fs, ln, i + 1, j);
    } else {
        assert(check_imms(fs, ln, j + 1, j + 1) is None);
    }
}

/// Every field of a passed immediate check is in range.
pub proof fn lemma_check_imms_all(fs: Seq<Seq<u8>>, ln: int, i: int, end: int)
    requires
        check_imms(fs, ln, i, end) is None,
    ensures
        forall|k: int| i <= k < end ==> imm_ok(#[trigger] fs[k]),
    decreases end - i,
{
    if i < end {
        lemma_check_imms_all(fs, ln, i + 1, end);
    }
}

/// Length and contents of a field value window.
pub proof fn lemma_field_vals_props(fs: Seq<Seq<u8>>, i: int, end: int)
    requires
        i <= end,
    ensures
        field_vals(fs, i, end).len() == end - i,
        forall|k: int| 0 <= k < end - i ==> field_vals(fs, i, end)[k] == dec_val(fs[i + k]),
    decreases end - i,
{
    if i < end {
        lemma_field_vals_props(fs, i + 1, end);
    }
}

/// Extending a value window appends the next field value.
proof fn lemma_field_vals_extend(fs: Seq<Seq<u8>>, i: int, j: int)
    requires
        i <= j,
    ensures
        field_vals(fs, i, j + 1) == field_vals(fs, i, j).push(dec_val(fs[j])),
    decreases j - i,
{
    if i < j {
        lemma_field_vals_extend(fs, i + 1, j);
        assert(field_vals(fs, i, j + 1) =~= field_vals(fs, i, j).push(dec_val(fs[j])));
    } else {
        assert(field_vals(fs, j, j) =~= Seq::<int>::empty());
        assert(field_vals(fs, j + 1, j + 1) =~= Seq::<int>::empty());
        assert(field_vals(fs, j, j + 1) =~= field_vals(fs, j, j).push(dec_val(fs[j])));
    }
}

/// Two adjacent value windows concatenate.
proof fn lemma_field_vals_concat(fs: Seq<Seq<u8>>, i: int, j: int, end: int)
    requires
        i <= j <= end,
    ensures
        field_vals(fs, i, end) == field_vals(fs, i, j) + field_vals(fs, j, end),
    decreases j - i,
{
    if i < j {
        lemma_field_vals_concat(fs, i + 1, j, end);
        assert(field_vals(fs, i, end) =~= field_vals(fs, i, j) + field_vals(fs, j, end));
    } else {
        assert(field_vals(fs, i, end) =~= field_vals(fs, i, j) + field_vals(fs, j, end));
    }
}

/// The deep view of a field vector indexes to the view of each field.
proof fn lemma_fields_deep_view(fields: &Vec<Vec<u8>>)
    ensures
        fields.deep_view().len() == fields@.len(),
        forall|q: int| 0 <= q < fields@.len() ==> fields.deep_view()[q] == #[trigger] fields@[q]@,
{
    assert forall|q: int| 0 <= q < fields@.len() implies fields.deep_view()[q] == #[trigger] fields@[q]@ by {
        assert(fields@[q].deep_view() =~= fields@[q]@);
    }
}

/// The shape table hands out only small argument counts.
proof fn lemma_shape_bounds(t: Btor2Tag)
    ensures
        match shape_of(t) {
            TagShape::Op { refs, imms } => refs <= 3 && imms <= 1,
            _ => true,
        },
{
}

// ------------------------------------------------------------------
// The parse session.
// ------------------------------------------------------------------

/// A parse session: owns the raw lines of one source, the id table built
/// so far, the running maximum id, and the terminal error state.
pub struct Btor2Parser {
    raws: Vec<Vec<u8>>,
    pos: usize,
    lines: Vec<Btor2Line>,
    max: i64,
    err: Option<Btor2ParserError>,
    active: bool,
}

impl Btor2Parser {
    /// The id table: the models of all lines accepted so far, in file order.
    pub closed spec fn table(&self) -> Seq<LineModel> {
        self.lines@.map_values(|l: Btor2Line| l@)
    }

    /// The raw lines of the source handed to `read_lines`.
    pub closed spec fn raw_lines(&self) -> Seq<Seq<u8>> {
        self.raws.deep_view()
    }

    /// The index of the next raw line to consume.
    pub closed spec fn cursor(&self) -> int {
        self.pos as int
    }

    /// Whether a session is open and has neither finished nor failed.
    pub closed spec fn streaming(&self) -> bool {
        self.active
    }

    /// The terminal error, if the session has failed.
    pub closed spec fn error_model(&self) -> Option<ErrorModel> {
        match self.err {
            Some(e) => Some(e@),
            None => None,
        }
    }

    /// The maximum id accepted so far, 0 with none.
    pub closed spec fn max_model(&self) -> int {
        self.max as int
    }

    /// The session invariant: a well-formed table whose maximum the session
    /// tracks, a cursor within the source, and no error while streaming.
    pub open spec fn wf(&self) -> bool {
        &&& table_wf(self.table())
        &&& self.max_model() == s_max(self.table())
        &&& 0 <= self.cursor() <= self.raw_lines().len()
        &&& (self.streaming() ==> self.error_model() is None)
    }

    /// A fresh parser with no open session.
    pub fn new() -> (r: Btor2Parser)
        ensures
            r.wf(),
            !r.streaming(),
            r.table() == Seq::<LineModel>::empty(),
            r.raw_lines() == Seq::<Seq<u8>>::empty(),
            r.cursor() == 0,
            r.max_model() == 0,
            r.error_model() is None,
    {
        let r = Btor2Parser {
            raws: Vec::new(),
            pos: 0,
            lines: Vec::new(),
            max: 0,
            err: None,
            active: false,
        };
        proof {
            assert(r.table() =~= Seq::<LineModel>::empty());
            assert(r.raw_lines() =~~= Seq::<Seq<u8>>::empty());
        }
        r
    }

    /// Opens a session over an in-memory byte source, resetting all state.
    /// The source is split into raw lines at once; parsing itself is lazy,
    /// one statement per `next_line` call. Starting a session while another
    /// one is streaming is ruled out by the precondition.
    pub fn read_lines(&mut self, source: &[u8]) -> (r: Result<(), Btor2ParserError>)
        requires
            !old(self).streaming(),
        ensures
            r is Ok,
            final(self).wf(),
            final(self).streaming(),
            final(self).raw_lines() == split_lines(source@),
            final(self).cursor() == 0,
            final(self).table() == Seq::<LineModel>::empty(),
            final(self).max_model() == 0,
            final(self).error_model() is None,
    {
        self.raws = lines_of_source(source);
        self.pos = 0;
        self.lines = Vec::new();
        self.max = 0;
        self.err = None;
        self.active = true;
        proof {
            assert(self.table() =~= Seq::<LineModel>::empty());
        }
        Ok(())
    }

    /// The maximum id inserted so far, 0 while the table is empty.
    pub fn max_id(&self) -> (r: i64)
        ensures
            r as int == self.max_model(),
    {
        self.max
    }

    /// Why the session stopped, absent while it streams or after the input
    /// was simply exhausted.
    pub fn last_error(&self) -> (r: Option<&Btor2ParserError>)
        ensures
            match r {
                Some(e) => self.error_model() == Some(e@),
                None => self.error_model() is None,
            },
    {
        match &self.err {
            Some(e) => Some(e),
            None => None,
        }
    }

    /// Whether a session is open and still producing lines.
    pub fn is_streaming(&self) -> (r: bool)
        ensures
            r == self.streaming(),
    {
        self.active
    }

    /// Looks an id up in the table built so far.
    pub fn lookup(&self, id: i64) -> (r: Option<&Btor2Line>)
        ensures
            match r {
                Some(l) => declared(self.table(), id as int) && l@ == self.table()[find_idx(
                    self.table(),
                    id as int,
                )],
                None => !declared(self.table(), id as int),
            },
    {
        match self.find_index(id) {
            Some(j) => Some(&self.lines[j]),
            None => None,
        }
    }

    /// The position of the line declared under `id` in the table.
    fn find_index(&self, id: i64) -> (r: Option<usize>)
        ensures
            match r {
                Some(j) => declared(self.table(), id as int) && j < self.table().len() && j as int
                    == find_idx(self.table(), id as int),
                None => !declared(self.table(), id as int),
            },
    {
        let ghost t = self.table();
        let n = self.lines.len();
        let mut i: usize = 0;
        while i < n
            invariant
                n == self.lines.len(),
                t == self.table(),
                t.len() == n,
                i <= n,
                forall|m: int| 0 <= m < i ==> t[m].id != id as int,
            decreases n - i,
        {
            let l = &self.lines[i];
            proof {
                assert(t[i as int] == self.lines@[i as int]@);
            }
            if l.id() == id {
                proof {
                    lemma_find_idx(t, id as int, i as int);
                }
                return Some(i);
            }
            i += 1;
        }
        proof {
            lemma_find_idx(t, id as int, n as int);
        }
        None
    }

    /// Resolves `id` through the sort table: the line declared under it, if
    /// that line is a `sort` declaration.
    fn resolve_sort(&self, id: i64) -> (r: Option<Btor2Sort>)
        requires
            self.wf(),
        ensures
            match r {
                Some(s) => sort_of(self.table(), id as int) == Some(s@),
                None => sort_of(self.table(), id as int) is None,
            },
    {
        match self.find_index(id) {
            None => None,
            Some(j) => {
                let l = &self.lines[j];
                proof {
                    assert(self.table()[j as int] == self.lines@[j as int]@);
                }
                if l.tag() == Btor2Tag::Sort {
                    match l.sort() {
                        Some(s) => Some(s.duplicate()),
                        None => {
                            proof {
                                assert(line_wf(self.table()[j as int]));
                                assert(false);
                            }
                            None
                        },
                    }
                } else {
                    None
                }
            },
        }
    }
}

/// Reads a field as an id reference: a number from 1 up that fits i64.
fn parse_ref(f: &Vec<u8>) -> (r: Option<i64>)
    ensures
        match r {
            Some(v) => ref_ok(f@) && v as int == dec_val(f@) && 1 <= v,
            None => !ref_ok(f@),
        },
{
    match parse_decimal(f) {
        None => None,
        Some(v) => if 1 <= v && v <= i64::MAX as u64 {
            Some(v as i64)
        } else {
            None
        },
    }
}

/// Reads a field as a numeric immediate that fits i64.
fn parse_imm(f: &Vec<u8>) -> (r: Option<i64>)
    ensures
        match r {
            Some(v) => imm_ok(f@) && v as int == dec_val(f@) && 0 <= v,
            None => !imm_ok(f@),
        },
{
    match parse_decimal(f) {
        None => None,
        Some(v) => if v <= i64::MAX as u64 {
            Some(v as i64)
        } else {
            None
        },
    }
}

impl Btor2Parser {
    /// Reads and resolves fields `start..end` as argument ids, appending
    /// them to `args`; reports the first field that fails.
    fn collect_refs(
        &self,
        fields: &Vec<Vec<u8>>,
        lineno: u64,
        start: usize,
        end: usize,
        args: &mut Vec<i64>,
    ) -> (r: Option<Btor2ParserError>)
        requires
            start <= end <= fields@.len(),
        ensures
            match r {
                None => check_refs(
                    self.table(),
                    fields.deep_view(),
                    lineno as int,
                    start as int,
                    end as int,
                ) is None && ids_model(final(args)@) == ids_model(old(args)@) + field_vals(
                    fields.deep_view(),
                    start as int,
                    end as int,
                ),
                Some(e) => check_refs(
                    self.table(),
                    fields.deep_view(),
                    lineno as int,
                    start as int,
                    end as int,
                ) == Some(e@),
            },
    {
        let ghost t = self.table();
        let ghost fs = fields.deep_view();
        let ghost ln = lineno as int;
        proof {
            lemma_fields_deep_view(fields);
            assert(check_refs(t, fs, ln, start as int, start as int) is None);
            assert(field_vals(fs, start as int, start as int) =~= Seq::<int>::empty());
            assert(ids_model(args@) =~= ids_model(args@) + field_vals(
                fs,
                start as int,
                start as int,
            ));
        }
        let mut k = start;
        while k < end
            invariant
                start <= k <= end <= fields@.len(),
                fs == fields.deep_view(),
                t == self.table(),
                ln == lineno as int,
                fs.len() == fields@.len(),
                forall|q: int| 0 <= q < fields@.len() ==> fs[q] == #[trigger] fields@[q]@,
                check_refs(t, fs, ln, start as int, k as int) is None,
                ids_model(args@) == ids_model(old(args)@) + field_vals(fs, start as int, k as int),
            decreases end - k,
        {
            let ghost prev = args@;
            match parse_ref(&fields[k]) {
                None => {
                    proof {
                        lemma_check_refs_split(t, fs, ln, start as int, k as int, end as int);
                    }
                    return Some(
                        Btor2ParserError::InvalidNumericField {
                            line_number: lineno,
                            field_index: k as u64,
                        },
                    );
                },
                Some(v) => {
                    match self.find_index(v) {
                        None => {
                            proof {
                                lemma_check_refs_split(
                                    t,
                                    fs,
                                    ln,
                                    start as int,
                                    k as int,
                                    end as int,
                                );
                            }
                            return Some(
                                Btor2ParserError::UnknownId {
                                    line_number: lineno,
                                    referenced_id: v,
                                },
                            );
                        },
                        Some(_) => {
                            args.push(v);
                            proof {
                                lemma_check_refs_extend(t, fs, ln, start as int, k as int);
                                lemma_field_vals_extend(fs, start as int, k as int);
                                assert(ids_model(args@) =~= ids_model(prev).push(v as int));
                                assert(ids_model(args@) =~= ids_model(old(args)@) + field_vals(
                                    fs,
                                    start as int,
                                    k as int + 1,
                                ));
                            }
                        },
                    }
                },
            }
            k += 1;
        }
        None
    }

    /// Reads the sort field (field 2) and resolves it through the sort
    /// table, yielding a copy of the resolved sort.
    fn check_sort_field(&self, fields: &Vec<Vec<u8>>, lineno: u64) -> (r: Result<
        Btor2Sort,
        Btor2ParserError,
    >)
        requires
            self.wf(),
            fields@.len() >= 3,
        ensures
            match r {
                Ok(s) => sort_field_err(self.table(), fields.deep_view(), lineno as int) is None
                    && sort_of(self.table(), dec_val(fields.deep_view()[2])) == Some(s@),
                Err(e) => sort_field_err(self.table(), fields.deep_view(), lineno as int) == Some(
                    e@,
                ),
            },
    {
        proof {
            lemma_fields_deep_view(fields);
        }
        match parse_ref(&fields[2]) {
            None => Err(
                Btor2ParserError::InvalidNumericField { line_number: lineno, field_index: 2 },
            ),
            Some(sid) => match self.resolve_sort(sid) {
                None => Err(
                    Btor2ParserError::UnknownId { line_number: lineno, referenced_id: sid },
                ),
                Some(s) => Ok(s),
            },
        }
    }
}

/// Reads fields `start..end` as numeric immediates, appending them to
/// `args`; reports the first field that fails.
fn collect_imms(
    fields: &Vec<Vec<u8>>,
    lineno: u64,
    start: usize,
    end: usize,
    args: &mut Vec<i64>,
) -> (r: Option<Btor2ParserError>)
    requires
        start <= end <= fields@.len(),
    ensures
        match r {
            None => check_imms(fields.deep_view(), lineno as int, start as int, end as int)
                is None && ids_model(final(args)@) == ids_model(old(args)@) + field_vals(
                fields.deep_view(),
                start as int,
                end as int,
            ),
            Some(e) => check_imms(fields.deep_view(), lineno as int, start as int, end as int)
                == Some(e@),
        },
{
    let ghost fs = fields.deep_view();
    let ghost ln = lineno as int;
    proof {
        lemma_fields_deep_view(fields);
        assert(check_imms(fs, ln, start as int, start as int) is None);
        assert(field_vals(fs, start as int, start as int) =~= Seq::<int>::empty());
        assert(ids_model(args@) =~= ids_model(args@) + field_vals(fs, start as int, start as int));
    }
    let mut k = start;
    while k < end
        invariant
            start <= k <= end <= fields@.len(),
            fs == fields.deep_view(),
            ln == lineno as int,
            fs.len() == fields@.len(),
            forall|q: int| 0 <= q < fields@.len() ==> fs[q] == #[trigger] fields@[q]@,
            check_imms(fs, ln, start as int, k as int) is None,
            ids_model(args@) == ids_model(old(args)@) + field_vals(fs, start as int, k as int),
        decreases end - k,
    {
        let ghost prev = args@;
        match parse_imm(&fields[k]) {
            None => {
                proof {
                    lemma_check_imms_split(fs, ln, start as int, k as int, end as int);
                }
                return Some(
                    Btor2ParserError::InvalidNumericField {
                        line_number: lineno,
                        field_index: k as u64,
                    },
                );
            },
            Some(v) => {
                args.push(v);
                proof {
                    lemma_check_imms_extend(fs, ln, start as int, k as int);
                    lemma_field_vals_extend(fs, start as int, k as int);
                    assert(ids_model(args@) =~= ids_model(prev).push(v as int));
                    assert(ids_model(args@) =~= ids_model(old(args)@) + field_vals(
                        fs,
                        start as int,
                        k as int + 1,
                    ));
                }
            },
        }
        k += 1;
    }
    None
}

impl Btor2Parser {
    /// One `sort` declaration line.
    fn build_sort(&self, fields: &Vec<Vec<u8>>, lineno: u64, id: i64) -> (r: Result<
        Btor2Line,
        Btor2ParserError,
    >)
        requires
            self.wf(),
            fields@.len() >= 2,
        ensures
            match r {
                Ok(l) => step_sort(self.table(), fields.deep_view(), lineno as int, id as int)
                    == (StepModel::Accept { line: l@ }),
                Err(e) => step_sort(self.table(), fields.deep_view(), lineno as int, id as int)
                    == (StepModel::Reject { err: e@ }),
            },
    {
        let ghost t = self.table();
        let ghost fs = fields.deep_view();
        let ghost ln = lineno as int;
        proof {
            lemma_fields_deep_view(fields);
        }
        let nf = fields.len();
        if nf < 3 {
            return Err(
                Btor2ParserError::ArityMismatch {
                    line_number: lineno,
                    tag: Btor2Tag::Sort,
                    expected: 4,
                    actual: nf as u64,
                },
            );
        }
        let bv = kw_bitvec_token();
        if bytes_eq(&fields[2], &bv) {
            if !(nf == 4 || nf == 5) {
                return Err(
                    Btor2ParserError::ArityMismatch {
                        line_number: lineno,
                        tag: Btor2Tag::Sort,
                        expected: 4,
                        actual: nf as u64,
                    },
                );
            }
            let w = match parse_decimal(&fields[3]) {
                None => {
                    return Err(
                        Btor2ParserError::InvalidNumericField {
                            line_number: lineno,
                            field_index: 3,
                        },
                    );
                },
                Some(v) => v,
            };
            if w < 1 || w > u32::MAX as u64 {
                return Err(
                    Btor2ParserError::InvalidNumericField { line_number: lineno, field_index: 3 },
                );
            }
            let width = w as u32;
            let sname = if nf == 5 {
                Some(clone_bytes(&fields[4]))
            } else {
                None
            };
            let lsym = if nf == 5 {
                Some(clone_bytes(&fields[4]))
            } else {
                None
            };
            let srt = Btor2Sort::assemble(
                id,
                Btor2SortTag::Bitvec,
                sname,
                Btor2SortContent::Bitvec { width },
            );
            let line = Btor2Line::assemble(
                id,
                lineno,
                mnemonic_of(Btor2Tag::Sort),
                Btor2Tag::Sort,
                Some(srt),
                None,
                lsym,
                Vec::new(),
            );
            proof {
                assert(ids_model(Seq::<i64>::empty()) =~= Seq::<int>::empty());
                let ghost gname = if fs.len() == 5 {
                    Some(fs[4])
                } else {
                    None
                };
                assert(line@ =~= make_line(
                    id as int,
                    ln,
                    Btor2Tag::Sort,
                    Some(
                        SortModel {
                            id: id as int,
                            tag: Btor2SortTag::Bitvec,
                            name: gname,
                            content: SortContentModel::Bitvec { width: dec_val(fs[3]) },
                        },
                    ),
                    None,
                    gname,
                    seq![],
                ));
            }
            return Ok(line);
        }
        let ar = kw_array_token();
        if bytes_eq(&fields[2], &ar) {
            if !(nf == 5 || nf == 6) {
                return Err(
                    Btor2ParserError::ArityMismatch {
                        line_number: lineno,
                        tag: Btor2Tag::Sort,
                        expected: 5,
                        actual: nf as u64,
                    },
                );
            }
            let isid = match parse_ref(&fields[3]) {
                None => {
                    return Err(
                        Btor2ParserError::InvalidNumericField {
                            line_number: lineno,
                            field_index: 3,
                        },
                    );
                },
                Some(v) => v,
            };
            match self.resolve_sort(isid) {
                None => {
                    return Err(
                        Btor2ParserError::UnknownId { line_number: lineno, referenced_id: isid },
                    );
                },
                Some(_) => {},
            }
            let esid = match parse_ref(&fields[4]) {
                None => {
                    return Err(
                        Btor2ParserError::InvalidNumericField {
                            line_number: lineno,
                            field_index: 4,
                        },
                    );
                },
                Some(v) => v,
            };
            match self.resolve_sort(esid) {
                None => {
                    return Err(
                        Btor2ParserError::UnknownId { line_number: lineno, referenced_id: esid },
                    );
                },
                Some(_) => {},
            }
            let sname = if nf == 6 {
                Some(clone_bytes(&fields[5]))
            } else {
                None
            };
            let lsym = if nf == 6 {
                Some(clone_bytes(&fields[5]))
            } else {
                None
            };
            let srt = Btor2Sort::assemble(
                id,
                Btor2SortTag::Array,
                sname,
                Btor2SortContent::Array { index: isid, element: esid },
            );
            let line = Btor2Line::assemble(
                id,
                lineno,
                mnemonic_of(Btor2Tag::Sort),
                Btor2Tag::Sort,
                Some(srt),
                None,
                lsym,
                Vec::new(),
            );
            proof {
                assert(ids_model(Seq::<i64>::empty()) =~= Seq::<int>::empty());
                let ghost gname = if fs.len() == 6 {
                    Some(fs[5])
                } else {
                    None
                };
                assert(line@ =~= make_line(
                    id as int,
                    ln,
                    Btor2Tag::Sort,
                    Some(
                        SortModel {
                            id: id as int,
                            tag: Btor2SortTag::Array,
                            name: gname,
                            content: SortContentModel::Array {
                                index: dec_val(fs[3]),
                                element: dec_val(fs[4]),
                            },
                        },
                    ),
                    None,
                    gname,
                    seq![],
                ));
            }
            return Ok(line);
        }
        Err(
            Btor2ParserError::UnknownTag {
                line_number: lineno,
                token: clone_bytes(&fields[2]),
            },
        )
    }

    /// One leaf line: a sort and an optional symbol.
    fn build_leaf(&self, fields: &Vec<Vec<u8>>, lineno: u64, id: i64, tag: Btor2Tag) -> (r: Result<
        Btor2Line,
        Btor2ParserError,
    >)
        requires
            self.wf(),
            fields@.len() >= 2,
        ensures
            match r {
                Ok(l) => step_leaf(self.table(), fields.deep_view(), lineno as int, id as int, tag)
                    == (StepModel::Accept { line: l@ }),
                Err(e) => step_leaf(
                    self.table(),
                    fields.deep_view(),
                    lineno as int,
                    id as int,
                    tag,
                ) == (StepModel::Reject { err: e@ }),
            },
    {
        let ghost t = self.table();
        let ghost fs = fields.deep_view();
        let ghost ln = lineno as int;
        proof {
            lemma_fields_deep_view(fields);
        }
        let nf = fields.len();
        if !(nf == 3 || nf == 4) {
            return Err(
                Btor2ParserError::ArityMismatch {
                    line_number: lineno,
                    tag,
                    expected: 3,
                    actual: nf as u64,
                },
            );
        }
        let srt = match self.check_sort_field(fields, lineno) {
            Err(e) => {
                return Err(e);
            },
            Ok(s) => s,
        };
        let lsym = if nf == 4 {
            Some(clone_bytes(&fields[3]))
        } else {
            None
        };
        let line = Btor2Line::assemble(
            id,
            lineno,
            mnemonic_of(tag),
            tag,
            Some(srt),
            None,
            lsym,
            Vec::new(),
        );
        proof {
            assert(ids_model(Seq::<i64>::empty()) =~= Seq::<int>::empty());
            let ghost gsym = if fs.len() == 4 {
                Some(fs[3])
            } else {
                None
            };
            assert(line@ =~= make_line(
                id as int,
                ln,
                tag,
                sort_of(t, dec_val(fs[2])),
                None,
                gsym,
                seq![],
            ));
        }
        Ok(line)
    }

    /// One constant line with literal text.
    fn build_const(&self, fields: &Vec<Vec<u8>>, lineno: u64, id: i64, tag: Btor2Tag) -> (r:
        Result<Btor2Line, Btor2ParserError>)
        requires
            self.wf(),
            fields@.len() >= 2,
        ensures
            match r {
                Ok(l) => step_const(
                    self.table(),
                    fields.deep_view(),
                    lineno as int,
                    id as int,
                    tag,
                ) == (StepModel::Accept { line: l@ }),
                Err(e) => step_const(
                    self.table(),
                    fields.deep_view(),
                    lineno as int,
                    id as int,
                    tag,
                ) == (StepModel::Reject { err: e@ }),
            },
    {
        let ghost t = self.table();
        let ghost fs = fields.deep_view();
        let ghost ln = lineno as int;
        proof {
            lemma_fields_deep_view(fields);
        }
        let nf = fields.len();
        if nf != 4 {
            return Err(
                Btor2ParserError::ArityMismatch {
                    line_number: lineno,
                    tag,
                    expected: 4,
                    actual: nf as u64,
                },
            );
        }
        let srt = match self.check_sort_field(fields, lineno) {
            Err(e) => {
                return Err(e);
            },
            Ok(s) => s,
        };
        let text = clone_bytes(&fields[3]);
        let line = Btor2Line::assemble(
            id,
            lineno,
            mnemonic_of(tag),
            tag,
            Some(srt),
            Some(text),
            None,
            Vec::new(),
        );
        proof {
            assert(ids_model(Seq::<i64>::empty()) =~= Seq::<int>::empty());
            assert(line@ =~= make_line(
                id as int,
                ln,
                tag,
                sort_of(t, dec_val(fs[2])),
                Some(fs[3]),
                None,
                seq![],
            ));
        }
        Ok(line)
    }
}

impl Btor2Parser {
    /// One fixed-arity operator line.
    fn build_op(
        &self,
        fields: &Vec<Vec<u8>>,
        lineno: u64,
        id: i64,
        tag: Btor2Tag,
        refs: u64,
        imms: u64,
    ) -> (r: Result<Btor2Line, Btor2ParserError>)
        requires
            self.wf(),
            fields@.len() >= 2,
            shape_of(tag) == (TagShape::Op { refs, imms }),
        ensures
            match r {
                Ok(l) => step_op(
                    self.table(),
                    fields.deep_view(),
                    lineno as int,
                    id as int,
                    tag,
                    refs as int,
                    imms as int,
                ) == (StepModel::Accept { line: l@ }),
                Err(e) => step_op(
                    self.table(),
                    fields.deep_view(),
                    lineno as int,
                    id as int,
                    tag,
                    refs as int,
                    imms as int,
                ) == (StepModel::Reject { err: e@ }),
            },
    {
        let ghost t = self.table();
        let ghost fs = fields.deep_view();
        let ghost ln = lineno as int;
        proof {
            lemma_fields_deep_view(fields);
            lemma_shape_bounds(tag);
        }
        let nf = fields.len();
        let nrefs = refs as usize;
        let nimms = imms as usize;
        let total: usize = 3 + nrefs + nimms;
        if nf != total {
            return Err(
                Btor2ParserError::ArityMismatch {
                    line_number: lineno,
                    tag,
                    expected: total as u64,
                    actual: nf as u64,
                },
            );
        }
        let srt = match self.check_sort_field(fields, lineno) {
            Err(e) => {
                return Err(e);
            },
            Ok(s) => s,
        };
        let mut args: Vec<i64> = Vec::new();
        match self.collect_refs(fields, lineno, 3, 3 + nrefs, &mut args) {
            Some(e) => {
                return Err(e);
            },
            None => {},
        }
        match collect_imms(fields, lineno, 3 + nrefs, total, &mut args) {
            Some(e) => {
                return Err(e);
            },
            None => {},
        }
        let ghost ga = args@;
        let line = Btor2Line::assemble(
            id,
            lineno,
            mnemonic_of(tag),
            tag,
            Some(srt),
            None,
            None,
            args,
        );
        proof {
            lemma_field_vals_concat(fs, 3, 3 + refs as int, total as int);
            assert(ids_model(Seq::<i64>::empty()) =~= Seq::<int>::empty());
            assert(ids_model(ga) =~= field_vals(fs, 3, total as int));
            assert(line@ =~= make_line(
                id as int,
                ln,
                tag,
                sort_of(t, dec_val(fs[2])),
                None,
                None,
                field_vals(fs, 3, 3 + refs as int + imms as int),
            ));
        }
        Ok(line)
    }

    /// One `slice` line, with its bound checks against the operand width.
    fn build_slice(&self, fields: &Vec<Vec<u8>>, lineno: u64, id: i64) -> (r: Result<
        Btor2Line,
        Btor2ParserError,
    >)
        requires
            self.wf(),
            fields@.len() >= 2,
        ensures
            match r {
                Ok(l) => step_slice(self.table(), fields.deep_view(), lineno as int, id as int)
                    == (StepModel::Accept { line: l@ }),
                Err(e) => step_slice(self.table(), fields.deep_view(), lineno as int, id as int)
                    == (StepModel::Reject { err: e@ }),
            },
    {
        let ghost t = self.table();
        let ghost fs = fields.deep_view();
        let ghost ln = lineno as int;
        proof {
            lemma_fields_deep_view(fields);
        }
        let nf = fields.len();
        if nf != 6 {
            return Err(
                Btor2ParserError::ArityMismatch {
                    line_number: lineno,
                    tag: Btor2Tag::Slice,
                    expected: 6,
                    actual: nf as u64,
                },
            );
        }
        let srt = match self.check_sort_field(fields, lineno) {
            Err(e) => {
                return Err(e);
            },
            Ok(s) => s,
        };
        let mut args: Vec<i64> = Vec::new();
        match self.collect_refs(fields, lineno, 3, 4, &mut args) {
            Some(e) => {
                return Err(e);
            },
            None => {},
        }
        match collect_imms(fields, lineno, 4, 6, &mut args) {
            Some(e) => {
                return Err(e);
            },
            None => {},
        }
        proof {
            lemma_field_vals_concat(fs, 3, 4, 6);
            lemma_field_vals_props(fs, 3, 6);
            assert(ids_model(Seq::<i64>::empty()) =~= Seq::<int>::empty());
            assert(ids_model(args@) =~= field_vals(fs, 3, 6));
            assert(args@.len() == 3);
            assert(ids_model(args@)[0] == args@[0] as int);
            assert(ids_model(args@)[1] == args@[1] as int);
            assert(ids_model(args@)[2] == args@[2] as int);
            assert(field_vals(fs, 3, 6)[0] == dec_val(fs[3]));
            assert(field_vals(fs, 3, 6)[1] == dec_val(fs[4]));
            assert(field_vals(fs, 3, 6)[2] == dec_val(fs[5]));
            assert(args@[0] as int == dec_val(fs[3]));
            assert(args@[1] as int == dec_val(fs[4]));
            assert(args@[2] as int == dec_val(fs[5]));
            lemma_check_refs_all(t, fs, ln, 3, 4);
        }
        let operand = args[0];
        let upper = args[1];
        let lower = args[2];
        let width_opt: Option<u32> = match self.find_index(operand) {
            None => {
                proof {
                    assert(false);
                }
                None
            },
            Some(j) => {
                let opline = &self.lines[j];
                proof {
                    assert(self.table()[j as int] == self.lines@[j as int]@);
                }
                match opline.sort() {
                    None => None,
                    Some(s) => match s.content() {
                        Btor2SortContent::Bitvec { width } => Some(width),
                        Btor2SortContent::Array { .. } => None,
                    },
                }
            },
        };
        match width_opt {
            None => {
                proof {
                    assert(operand_width(t, dec_val(fs[3])) is None);
                }
                Err(
                    Btor2ParserError::InvalidNumericField { line_number: lineno, field_index: 4 },
                )
            },
            Some(w) => {
                proof {
                    assert(operand_width(t, dec_val(fs[3])) == Some(w as int));
                }
                if upper >= w as i64 {
                    Err(
                        Btor2ParserError::InvalidNumericField {
                            line_number: lineno,
                            field_index: 4,
                        },
                    )
                } else if upper < lower {
                    Err(
                        Btor2ParserError::InvalidNumericField {
                            line_number: lineno,
                            field_index: 5,
                        },
                    )
                } else {
                    let ghost ga = args@;
                    let line = Btor2Line::assemble(
                        id,
                        lineno,
                        mnemonic_of(Btor2Tag::Slice),
                        Btor2Tag::Slice,
                        Some(srt),
                        None,
                        None,
                        args,
                    );
                    proof {
                        assert(line@ =~= make_line(
                            id as int,
                            ln,
                            Btor2Tag::Slice,
                            sort_of(t, dec_val(fs[2])),
                            None,
                            None,
                            field_vals(fs, 3, 6),
                        ));
                    }
                    Ok(line)
                }
            },
        }
    }

    /// One property line: `bad`, `constraint`, `fair` or `output`.
    fn build_prop(&self, fields: &Vec<Vec<u8>>, lineno: u64, id: i64, tag: Btor2Tag) -> (r: Result<
        Btor2Line,
        Btor2ParserError,
    >)
        requires
            self.wf(),
            fields@.len() >= 2,
        ensures
            match r {
                Ok(l) => step_prop(self.table(), fields.deep_view(), lineno as int, id as int, tag)
                    == (StepModel::Accept { line: l@ }),
                Err(e) => step_prop(
                    self.table(),
                    fields.deep_view(),
                    lineno as int,
                    id as int,
                    tag,
                ) == (StepModel::Reject { err: e@ }),
            },
    {
        let ghost t = self.table();
        let ghost fs = fields.deep_view();
        let ghost ln = lineno as int;
        proof {
            lemma_fields_deep_view(fields);
        }
        let nf = fields.len();
        if nf != 3 {
            return Err(
                Btor2ParserError::ArityMismatch {
                    line_number: lineno,
                    tag,
                    expected: 3,
                    actual: nf as u64,
                },
            );
        }
        let mut args: Vec<i64> = Vec::new();
        match self.collect_refs(fields, lineno, 2, 3, &mut args) {
            Some(e) => {
                return Err(e);
            },
            None => {},
        }
        let ghost ga = args@;
        let line = Btor2Line::assemble(id, lineno, mnemonic_of(tag), tag, None, None, None, args);
        proof {
            assert(ids_model(Seq::<i64>::empty()) =~= Seq::<int>::empty());
            assert(ids_model(ga) =~= field_vals(fs, 2, 3));
            assert(line@ =~= make_line(id as int, ln, tag, None, None, None, field_vals(fs, 2, 3)));
        }
        Ok(line)
    }

    /// One `justice` line with its declared argument count.
    fn build_justice(&self, fields: &Vec<Vec<u8>>, lineno: u64, id: i64) -> (r: Result<
        Btor2Line,
        Btor2ParserError,
    >)
        requires
            self.wf(),
            fields@.len() >= 2,
        ensures
            match r {
                Ok(l) => step_justice(self.table(), fields.deep_view(), lineno as int, id as int)
                    == (StepModel::Accept { line: l@ }),
                Err(e) => step_justice(self.table(), fields.deep_view(), lineno as int, id as int)
                    == (StepModel::Reject { err: e@ }),
            },
    {
        let ghost t = self.table();
        let ghost fs = fields.deep_view();
        let ghost ln = lineno as int;
        proof {
            lemma_fields_deep_view(fields);
        }
        let nf = fields.len();
        if nf < 3 {
            return Err(
                Btor2ParserError::ArityMismatch {
                    line_number: lineno,
                    tag: Btor2Tag::Justice,
                    expected: 3,
                    actual: nf as u64,
                },
            );
        }
        let n = match parse_decimal(&fields[2]) {
            None => {
                return Err(
                    Btor2ParserError::InvalidNumericField { line_number: lineno, field_index: 2 },
                );
            },
            Some(v) => v,
        };
        if n > u64::MAX - 3 {
            return Err(
                Btor2ParserError::InvalidNumericField { line_number: lineno, field_index: 2 },
            );
        }
        if nf as u64 != 3 + n {
            return Err(
                Btor2ParserError::ArityMismatch {
                    line_number: lineno,
                    tag: Btor2Tag::Justice,
                    expected: 3 + n,
                    actual: nf as u64,
                },
            );
        }
        let mut args: Vec<i64> = Vec::new();
        match self.collect_refs(fields, lineno, 3, nf, &mut args) {
            Some(e) => {
                return Err(e);
            },
            None => {},
        }
        let ghost ga = args@;
        let line = Btor2Line::assemble(
            id,
            lineno,
            mnemonic_of(Btor2Tag::Justice),
            Btor2Tag::Justice,
            None,
            None,
            None,
            args,
        );
        proof {
            assert(ids_model(Seq::<i64>::empty()) =~= Seq::<int>::empty());
            assert(ids_model(ga) =~= field_vals(fs, 3, fs.len() as int));
            assert(line@ =~= make_line(
                id as int,
                ln,
                Btor2Tag::Justice,
                None,
                None,
                None,
                field_vals(fs, 3, fs.len() as int),
            ));
        }
        Ok(line)
    }

    /// One `init` or `next` line.
    fn build_init_next(&self, fields: &Vec<Vec<u8>>, lineno: u64, id: i64, tag: Btor2Tag) -> (r:
        Result<Btor2Line, Btor2ParserError>)
        requires
            self.wf(),
            fields@.len() >= 2,
        ensures
            match r {
                Ok(l) => step_init_next(
                    self.table(),
                    fields.deep_view(),
                    lineno as int,
                    id as int,
                    tag,
                ) == (StepModel::Accept { line: l@ }),
                Err(e) => step_init_next(
                    self.table(),
                    fields.deep_view(),
                    lineno as int,
                    id as int,
                    tag,
                ) == (StepModel::Reject { err: e@ }),
            },
    {
        let ghost t = self.table();
        let ghost fs = fields.deep_view();
        let ghost ln = lineno as int;
        proof {
            lemma_fields_deep_view(fields);
        }
        let nf = fields.len();
        if nf != 5 {
            return Err(
                Btor2ParserError::ArityMismatch {
                    line_number: lineno,
                    tag,
                    expected: 5,
                    actual: nf as u64,
                },
            );
        }
        let srt = match self.check_sort_field(fields, lineno) {
            Err(e) => {
                return Err(e);
            },
            Ok(s) => s,
        };
        let mut args: Vec<i64> = Vec::new();
        match self.collect_refs(fields, lineno, 3, 5, &mut args) {
            Some(e) => {
                return Err(e);
            },
            None => {},
        }
        let ghost ga = args@;
        let line = Btor2Line::assemble(
            id,
            lineno,
            mnemonic_of(tag),
            tag,
            Some(srt),
            None,
            None,
            args,
        );
        proof {
            assert(ids_model(Seq::<i64>::empty()) =~= Seq::<int>::empty());
            assert(ids_model(ga) =~= field_vals(fs, 3, 5));
            assert(line@ =~= make_line(
                id as int,
                ln,
                tag,
                sort_of(t, dec_val(fs[2])),
                None,
                None,
                field_vals(fs, 3, 5),
            ));
        }
        Ok(line)
    }
}

/// Every line a step accepts is well-formed, fresh, and carries the line
/// number of its source line; `init`/`next` lines reference a declared
/// state id.
pub proof fn lemma_step_accept_wf(t: Seq<LineModel>, fs: Seq<Seq<u8>>, ln: int, l: LineModel)
    requires
        table_wf(t),
        1 <= ln,
        step_model(t, fs, ln) == (StepModel::Accept { line: l }),
    ensures
        line_wf(l),
        !declared(t, l.id),
        l.lineno == ln,
        shape_of(l.tag) == TagShape::InitNext ==> l.args.len() == 2 && declared(t, l.args[0])
            && 0 <= l.args[1] <= i64::MAX as int,
{
    let id = dec_val(fs[0]);
    let tag = spec_tag_of(fs[1])->0;
    match shape_of(tag) {
        TagShape::SortDecl => {
            assert(l.args.len() == 0);
        },
        TagShape::Leaf => {
        },
        TagShape::ConstText => {
        },
        TagShape::Op { refs, imms } => {
            let total = 3 + refs;
            let endx = total + imms;
            lemma_check_refs_all(t, fs, ln, 3, 3 + refs as int);
            lemma_check_imms_all(fs, ln, 3 + refs as int, 3 + refs as int + imms as int);
            lemma_field_vals_props(fs, 3, 3 + refs as int + imms as int);
            assert forall|k: int| 0 <= k < l.args.len() implies 0 <= #[trigger] l.args[k]
                <= i64::MAX as int by {
                assert(l.args[k] == dec_val(fs[3 + k]));
                if k < refs {
                    assert(ref_ok(fs[3 + k]));
                } else {
                    assert(imm_ok(fs[3 + k]));
                }
            }
        },
        TagShape::SliceOp => {
            lemma_check_refs_all(t, fs, ln, 3, 4);
            lemma_check_imms_all(fs, ln, 4, 6);
            lemma_field_vals_props(fs, 3, 6);
            assert forall|k: int| 0 <= k < l.args.len() implies 0 <= #[trigger] l.args[k]
                <= i64::MAX as int by {
                assert(l.args[k] == dec_val(fs[3 + k]));
                if k < 1 {
                    assert(ref_ok(fs[3 + k]));
                } else {
                    assert(imm_ok(fs[3 + k]));
                }
            }
        },
        TagShape::Prop => {
            lemma_check_refs_all(t, fs, ln, 2, 3);
            lemma_field_vals_props(fs, 2, 3);
            assert forall|k: int| 0 <= k < l.args.len() implies 0 <= #[trigger] l.args[k]
                <= i64::MAX as int by {
                assert(l.args[k] == dec_val(fs[2 + k]));
                assert(ref_ok(fs[2 + k]));
            }
        },
        TagShape::JusticeDecl => {
            lemma_check_refs_all(t, fs, ln, 3, fs.len() as int);
            lemma_field_vals_props(fs, 3, fs.len() as int);
            assert forall|k: int| 0 <= k < l.args.len() implies 0 <= #[trigger] l.args[k]
                <= i64::MAX as int by {
                assert(l.args[k] == dec_val(fs[3 + k]));
                assert(ref_ok(fs[3 + k]));
            }
        },
        TagShape::InitNext => {
            lemma_check_refs_all(t, fs, ln, 3, 5);
            lemma_field_vals_props(fs, 3, 5);
            assert forall|k: int| 0 <= k < l.args.len() implies 0 <= #[trigger] l.args[k]
                <= i64::MAX as int by {
                assert(l.args[k] == dec_val(fs[3 + k]));
                assert(ref_ok(fs[3 + k]));
            }
            assert(l.args[0] == dec_val(fs[3]));
        },
    }
}

/// The contract of one `next_line` call, relating the session before and
/// after to the step on the first non-blank raw line at the cursor.
pub open spec fn next_line_post(pre: Btor2Parser, post: Btor2Parser, r: Option<Btor2Line>) -> bool {
    &&& post.raw_lines() == pre.raw_lines()
    &&& if !pre.streaming() {
        &&& r is None
        &&& post == pre
    } else {
        let raws = pre.raw_lines();
        let p = first_nonblank(raws, pre.cursor());
        if p == raws.len() {
            &&& r is None
            &&& !post.streaming()
            &&& post.error_model() is None
            &&& post.table() == pre.table()
            &&& post.max_model() == pre.max_model()
            &&& post.cursor() == raws.len()
        } else {
            match step_model(pre.table(), fields_of(raws[p]), p + 1) {
                StepModel::Accept { line } => {
                    &&& (r matches Some(yielded) && yielded@ == line)
                    &&& post.table() == table_after(pre.table(), line)
                    &&& post.max_model() == (if line.id > pre.max_model() {
                        line.id
                    } else {
                        pre.max_model()
                    })
                    &&& post.cursor() == p + 1
                    &&& post.streaming()
                    &&& post.error_model() is None
                },
                StepModel::Reject { err } => {
                    &&& r is None
                    &&& post.error_model() == Some(err)
                    &&& !post.streaming()
                    &&& post.table() == pre.table()
                    &&& post.max_model() == pre.max_model()
                    &&& post.cursor() == p + 1
                },
                StepModel::Skip => false,
            }
        }
    }
}

impl Btor2Parser {
    /// Builds the line one non-blank raw line describes, against the table
    /// built so far, or the error that stops the session.
    fn build_line(&self, fields: &Vec<Vec<u8>>, lineno: u64) -> (r: Result<
        Btor2Line,
        Btor2ParserError,
    >)
        requires
            self.wf(),
            fields@.len() > 0,
            1 <= lineno,
        ensures
            match r {
                Ok(l) => step_model(self.table(), fields.deep_view(), lineno as int)
                    == (StepModel::Accept { line: l@ }),
                Err(e) => step_model(self.table(), fields.deep_view(), lineno as int)
                    == (StepModel::Reject { err: e@ }),
            },
    {
        let ghost t = self.table();
        let ghost fs = fields.deep_view();
        let ghost ln = lineno as int;
        proof {
            lemma_fields_deep_view(fields);
        }
        let nf = fields.len();
        if nf < 2 {
            return Err(Btor2ParserError::MalformedLine { line_number: lineno });
        }
        if !is_numeric(&fields[0]) {
            return Err(Btor2ParserError::MalformedLine { line_number: lineno });
        }
        let id = match parse_ref(&fields[0]) {
            None => {
                return Err(
                    Btor2ParserError::InvalidNumericField { line_number: lineno, field_index: 0 },
                );
            },
            Some(v) => v,
        };
        match self.find_index(id) {
            Some(_) => {
                return Err(Btor2ParserError::DuplicateId { line_number: lineno, id });
            },
            None => {},
        }
        let tag = match tag_of_token(&fields[1]) {
            None => {
                return Err(
                    Btor2ParserError::UnknownTag {
                        line_number: lineno,
                        token: clone_bytes(&fields[1]),
                    },
                );
            },
            Some(tg) => tg,
        };
        match tag_shape(tag) {
            TagShape::SortDecl => self.build_sort(fields, lineno, id),
            TagShape::Leaf => self.build_leaf(fields, lineno, id, tag),
            TagShape::ConstText => self.build_const(fields, lineno, id, tag),
            TagShape::Op { refs, imms } => self.build_op(fields, lineno, id, tag, refs, imms),
            TagShape::SliceOp => self.build_slice(fields, lineno, id),
            TagShape::Prop => self.build_prop(fields, lineno, id, tag),
            TagShape::JusticeDecl => self.build_justice(fields, lineno, id),
            TagShape::InitNext => self.build_init_next(fields, lineno, id, tag),
        }
    }

    /// Inserts an accepted line into the table, tracking the maximum id and
    /// attaching `init`/`next` values to the state line they name.
    fn insert_line(&mut self, line: Btor2Line)
        requires
            old(self).wf(),
            line_wf(line@),
            !declared(old(self).table(), line@.id),
        ensures
            final(self).wf(),
            final(self).table() == table_after(old(self).table(), line@),
            final(self).max_model() == (if line@.id > old(self).max_model() {
                line@.id
            } else {
                old(self).max_model()
            }),
            final(self).raw_lines() == old(self).raw_lines(),
            final(self).cursor() == old(self).cursor(),
            final(self).streaming() == old(self).streaming(),
            final(self).error_model() == old(self).error_model(),
    {
        let ghost t0 = self.table();
        let ghost lm = line@;
        let tg = line.tag();
        if tg == Btor2Tag::Init || tg == Btor2Tag::Next {
            proof {
                assert(shape_of(lm.tag) == TagShape::InitNext);
                assert(lm.args.len() == 2);
            }
            let ar = line.args();
            proof {
                assert(ids_model(ar@).len() == ar@.len());
                assert(ar@.len() == 2);
                assert(ids_model(ar@)[0] == ar@[0] as int);
                assert(ids_model(ar@)[1] == ar@[1] as int);
            }
            let st = ar[0];
            let v = ar[1];
            match self.find_index(st) {
                Some(j) => {
                    let mut upd = self.lines[j].duplicate();
                    proof {
                        assert(upd@ == t0[j as int]);
                    }
                    if tg == Btor2Tag::Init {
                        upd.set_init(v);
                    } else {
                        upd.set_next(v);
                    }
                    let ghost gu = upd@;
                    self.lines[j] = upd;
                    proof {
                        assert(self.table() =~= t0.update(j as int, gu));
                        lemma_s_max_update(t0, j as int, gu);
                    }
                },
                None => {},
            }
        }
        let ghost t1 = self.table();
        proof {
            assert(table_wf(t1)) by {
                assert(forall|i: int| 0 <= i < t1.len() ==> t1[i].id == t0[i].id);
                assert(forall|i: int| 0 <= i < t1.len() ==> line_wf(#[trigger] t1[i]));
            }
            assert(s_max(t1) == s_max(t0));
            assert(forall|i: int| 0 <= i < t1.len() ==> t1[i].id != lm.id);
        }
        let lid = line.id();
        if lid > self.max {
            self.max = lid;
        }
        self.lines.push(line);
        proof {
            assert(self.table() =~= t1.push(lm));
            lemma_s_max_push(t1, lm);
            assert(self.table() =~= table_after(t0, lm));
        }
    }

    /// Advances the session to the next statement: skips blank and
    /// comment-only lines, yields the next accepted line, and returns
    /// `None` at the end of input or on the first error, which
    /// `last_error` then reports.
    pub fn next_line(&mut self) -> (r: Option<Btor2Line>)
        requires
            old(self).wf(),
        ensures
            final(self).wf(),
            next_line_post(*old(self), *final(self), r),
    {
        if !self.active {
            return None;
        }
        let ghost raws = self.raw_lines();
        let ghost p0 = self.cursor();
        loop
            invariant
                self.wf(),
                self.active,
                old(self).wf(),
                old(self).streaming(),
                raws == old(self).raw_lines(),
                p0 == old(self).cursor(),
                raws == self.raw_lines(),
                self.table() == old(self).table(),
                self.max_model() == old(self).max_model(),
                self.error_model() == old(self).error_model(),
                self.err == old(self).err,
                self.raws == old(self).raws,
                p0 <= self.cursor() <= raws.len(),
                first_nonblank(raws, p0) == first_nonblank(raws, self.cursor()),
            decreases raws.len() - self.cursor(),
        {
            if self.pos == self.raws.len() {
                proof {
                    assert(first_nonblank(raws, self.cursor()) == raws.len() as int);
                }
                self.active = false;
                return None;
            }
            let ghost cur = self.cursor();
            let lineno_idx = self.pos;
            let fields = tokenize(&self.raws[lineno_idx]);
            self.pos = lineno_idx + 1;
            proof {
                assert(raws[cur] == self.raws@[cur]@) by {
                    assert(self.raws@[cur].deep_view() =~= self.raws@[cur]@);
                }
                assert(fields.deep_view() == fields_of(raws[cur]));
            }
            if fields.len() == 0 {
                proof {
                    lemma_fields_deep_view(&fields);
                    assert(is_blank(raws[cur]));
                    assert(first_nonblank(raws, cur) == first_nonblank(raws, cur + 1));
                }
            } else {
                let lineno: u64 = (lineno_idx + 1) as u64;
                proof {
                    lemma_fields_deep_view(&fields);
                    assert(!is_blank(raws[cur]));
                    assert(first_nonblank(raws, p0) == cur);
                }
                match self.build_line(&fields, lineno) {
                    Ok(line) => {
                        let out = line.duplicate();
                        proof {
                            lemma_step_accept_wf(
                                self.table(),
                                fields.deep_view(),
                                lineno as int,
                                line@,
                            );
                        }
                        self.insert_line(line);
                        return Some(out);
                    },
                    Err(e) => {
                        self.err = Some(e);
                        self.active = false;
                        return None;
                    },
                }
            }
        }
    }
}

/// A forward-only pass over a session's lines. It owns the session for the
/// duration of the pass; `into_parser` hands it back for id lookups.
pub struct Btor2LineIterator {
    parser: Btor2Parser,
}

impl Btor2LineIterator {
    /// The session the pass drives.
    pub closed spec fn session(&self) -> Btor2Parser {
        self.parser
    }

    /// The pass is as well-formed as its session.
    pub open spec fn wf(&self) -> bool {
        self.session().wf()
    }

    /// Takes over an opened session.
    pub fn new(parser: Btor2Parser) -> (r: Btor2LineIterator)
        requires
            parser.wf(),
        ensures
            r.wf(),
            r.session() == parser,
    {
        Btor2LineIterator { parser }
    }

    /// The next accepted line, as `Btor2Parser::next_line`.
    pub fn next(&mut self) -> (r: Option<Btor2Line>)
        requires
            old(self).wf(),
        ensures
            final(self).wf(),
            next_line_post(old(self).session(), final(self).session(), r),
    {
        self.parser.next_line()
    }

    /// The maximum id the session has inserted so far.
    pub fn max_id(&self) -> (r: i64)
        ensures
            r as int == self.session().max_model(),
    {
        self.parser.max_id()
    }

    /// Why the session stopped, if it failed.
    pub fn last_error(&self) -> (r: Option<&Btor2ParserError>)
        ensures
            match r {
                Some(e) => self.session().error_model() == Some(e@),
                None => self.session().error_model() is None,
            },
    {
        self.parser.last_error()
    }

    /// Hands the session back, with everything it accepted.
    pub fn into_parser(self) -> (r: Btor2Parser)
        ensures
            r == self.session(),
    {
        self.parser
    }
}

} // verus!
