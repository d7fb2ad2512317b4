use vstd::prelude::*;

verus! {

/// The statement kind of one BTOR2 line, one variant per mnemonic.
#[derive(Clone, Copy, Debug, PartialEq, Eq, Structural)]
pub enum Btor2Tag {
    Add,
    And,
    Bad,
    Concat,
    Const,
    Constraint,
    Constd,
    Consth,
    Dec,
    Eq,
    Fair,
    Iff,
    Implies,
    Inc,
    Init,
    Input,
    Ite,
    Justice,
    Mul,
    Nand,
    Neq,
    Neg,
    Next,
    Nor,
    Not,
    One,
    Ones,
    Or,
    Output,
    Read,
    Redand,
    Redor,
    Redxor,
    Rol,
    Ror,
    Saddo,
    Sdiv,
    Sdivo,
    Sext,
    Sgt,
    Sgte,
    Slice,
    Sll,
    Slt,
    Slte,
    Sort,
    Smod,
    Smulo,
    Sra,
    Srem,
    Srl,
    Ssubo,
    State,
    Sub,
    Uaddo,
    Udiv,
    Uext,
    Ugt,
    Ugte,
    Ult,
    Ulte,
    Umulo,
    Urem,
    Usubo,
    Write,
    Xnor,
    Xor,
    Zero,
}

/// The kind of a declared sort.
#[derive(Clone, Copy, Debug, PartialEq, Eq, Structural)]
pub enum Btor2SortTag {
    Array,
    Bitvec,
}

/// The field shape a tag demands after its `id tag` prefix.
///
/// `Op { refs, imms }` covers the fixed-arity operators: `refs` argument ids
/// resolved through the id table, then `imms` plain numeric immediates.
#[derive(Clone, Copy, Debug, PartialEq, Eq, Structural)]
pub enum TagShape {
    /// `sort bitvec <width>` or `sort array <index> <element>`, optional name.
    SortDecl,
    /// `<sort>` and an optional symbol: inputs, states and implicit constants.
    Leaf,
    /// `<sort>` and a literal text payload: `const`, `constd`, `consth`.
    ConstText,
    /// `<sort>` plus `refs` argument ids and `imms` numeric immediates.
    Op { refs: u64, imms: u64 },
    /// `<sort> <arg> <upper> <lower>` with `lower <= upper < width(arg)`.
    SliceOp,
    /// No sort, one argument id: `bad`, `constraint`, `fair`, `output`.
    Prop,
    /// No sort, a count `n` and then exactly `n` argument ids.
    JusticeDecl,
    /// `<sort> <state-id> <value-id>`, attaching to a declared state.
    InitNext,
}

/// The shape class of each tag.
pub open spec fn shape_of(t: Btor2Tag) -> TagShape {
    match t {
        Btor2Tag::Add => TagShape::Op { refs: 2, imms: 0 },
        Btor2Tag::And => TagShape::Op { refs: 2, imms: 0 },
        Btor2Tag::Bad => TagShape::Prop,
        Btor2Tag::Concat => TagShape::Op { refs: 2, imms: 0 },
        Btor2Tag::Const => TagShape::ConstText,
        Btor2Tag::Constraint => TagShape::Prop,
        Btor2Tag::Constd => TagShape::ConstText,
        Btor2Tag::Consth => TagShape::ConstText,
        Btor2Tag::Dec => TagShape::Op { refs: 1, imms: 0 },
        Btor2Tag::Eq => TagShape::Op { refs: 2, imms: 0 },
        Btor2Tag::Fair => TagShape::Prop,
        Btor2Tag::Iff => TagShape::Op { refs: 2, imms: 0 },
        Btor2Tag::Implies => TagShape::Op { refs: 2, imms: 0 },
        Btor2Tag::Inc => TagShape::Op { refs: 1, imms: 0 },
        Btor2Tag::Init => TagShape::InitNext,
        Btor2Tag::Input => TagShape::Leaf,
        Btor2Tag::Ite => TagShape::Op { refs: 3, imms: 0 },
        Btor2Tag::Justice => TagShape::JusticeDecl,
        Btor2Tag::Mul => TagShape::Op { refs: 2, imms: 0 },
        Btor2Tag::Nand => TagShape::Op { refs: 2, imms: 0 },
        Btor2Tag::Neq => TagShape::Op { refs: 2, imms: 0 },
        Btor2Tag::Neg => TagShape::Op { refs: 1, imms: 0 },
        Btor2Tag::Next => TagShape::InitNext,
        Btor2Tag::Nor => TagShape::Op { refs: 2, imms: 0 },
        Btor2Tag::Not => TagShape::Op { refs: 1, imms: 0 },
        Btor2Tag::One => TagShape::Leaf,
        Btor2Tag::Ones => TagShape::Leaf,
        Btor2Tag::Or => TagShape::Op { refs: 2, imms: 0 },
        Btor2Tag::Output => TagShape::Prop,
        Btor2Tag::Read => TagShape::Op { refs: 2, imms: 0 },
        Btor2Tag::Redand => TagShape::Op { refs: 1, imms: 0 },
        Btor2Tag::Redor => TagShape::Op { refs: 1, imms: 0 },
        Btor2Tag::Redxor => TagShape::Op { refs: 1, imms: 0 },
        Btor2Tag::Rol => TagShape::Op { refs: 1, imms: 1 },
        Btor2Tag::Ror => TagShape::Op { refs: 1, imms: 1 },
        Btor2Tag::Saddo => TagShape::Op { refs: 2, imms: 0 },
        Btor2Tag::Sdiv => TagShape::Op { refs: 2, imms: 0 },
        Btor2Tag::Sdivo => TagShape::Op { refs: 2, imms: 0 },
        Btor2Tag::Sext => TagShape::Op { refs: 1, imms: 1 },
        Btor2Tag::Sgt => TagShape::Op { refs: 2, imms: 0 },
        Btor2Tag::Sgte => TagShape::Op { refs: 2, imms: 0 },
        Btor2Tag::Slice => TagShape::SliceOp,
        Btor2Tag::Sll => TagShape::Op { refs: 2, imms: 0 },
        Btor2Tag::Slt => TagShape::Op { refs: 2, imms: 0 },
        Btor2Tag::Slte => TagShape::Op { refs: 2, imms: 0 },
        Btor2Tag::Sort => TagShape::SortDecl,
        Btor2Tag::Smod => TagShape::Op { refs: 2, imms: 0 },
        Btor2Tag::Smulo => TagShape::Op { refs: 2, imms: 0 },
        Btor2Tag::Sra => TagShape::Op { refs: 2, imms: 0 },
        Btor2Tag::Srem => TagShape::Op { refs: 2, imms: 0 },
        Btor2Tag::Srl => TagShape::Op { refs: 2, imms: 0 },
        Btor2Tag::Ssubo => TagShape::Op { refs: 2, imms: 0 },
        Btor2Tag::State => TagShape::Leaf,
        Btor2Tag::Sub => TagShape::Op { refs: 2, imms: 0 },
        Btor2Tag::Uaddo => TagShape::Op { refs: 2, imms: 0 },
        Btor2Tag::Udiv => TagShape::Op { refs: 2, imms: 0 },
        Btor2Tag::Uext => TagShape::Op { refs: 1, imms: 1 },
        Btor2Tag::Ugt => TagShape::Op { refs: 2, imms: 0 },
        Btor2Tag::Ugte => TagShape::Op { refs: 2, imms: 0 },
        Btor2Tag::Ult => TagShape::Op { refs: 2, imms: 0 },
        Btor2Tag::Ulte => TagShape::Op { refs: 2, imms: 0 },
        Btor2Tag::Umulo => TagShape::Op { refs: 2, imms: 0 },
        Btor2Tag::Urem => TagShape::Op { refs: 2, imms: 0 },
        Btor2Tag::Usubo => TagShape::Op { refs: 2, imms: 0 },
        Btor2Tag::Write => TagShape::Op { refs: 3, imms: 0 },
        Btor2Tag::Xnor => TagShape::Op { refs: 2, imms: 0 },
        Btor2Tag::Xor => TagShape::Op { refs: 2, imms: 0 },
        Btor2Tag::Zero => TagShape::Leaf,
    }
}

/// The mnemonic that names each tag in the textual format.
pub open spec fn spec_mnemonic(t: Btor2Tag) -> Seq<u8> {
    match t {
        Btor2Tag::Add => seq![97u8, 100u8, 100u8],
        Btor2Tag::And => seq![97u8, 110u8, 100u8],
        Btor2Tag::Bad => seq![98u8, 97u8, 100u8],
        Btor2Tag::Concat => seq![99u8, 111u8, 110u8, 99u8, 97u8, 116u8],
        Btor2Tag::Const => seq![99u8, 111u8, 110u8, 115u8, 116u8],
        Btor2Tag::Constraint => seq![99u8, 111u8, 110u8, 115u8, 116u8, 114u8, 97u8, 105u8, 110u8, 116u8],
        Btor2Tag::Constd => seq![99u8, 111u8, 110u8, 115u8, 116u8, 100u8],
        Btor2Tag::Consth => seq![99u8, 111u8, 110u8, 115u8, 116u8, 104u8],
        Btor2Tag::Dec => seq![100u8, 101u8, 99u8],
        Btor2Tag::Eq => seq![101u8, 113u8],
        Btor2Tag::Fair => seq![102u8, 97u8, 105u8, 114u8],
        Btor2Tag::Iff => seq![105u8, 102u8, 102u8],
        Btor2Tag::Implies => seq![105u8, 109u8, 112u8, 108u8, 105u8, 101u8, 115u8],
        Btor2Tag::Inc => seq![105u8, 110u8, 99u8],
        Btor2Tag::Init => seq![105u8, 110u8, 105u8, 116u8],
        Btor2Tag::Input => seq![105u8, 110u8, 112u8, 117u8, 116u8],
        Btor2Tag::Ite => seq![105u8, 116u8, 101u8],
        Btor2Tag::Justice => seq![106u8, 117u8, 115u8, 116u8, 105u8, 99u8, 101u8],
        Btor2Tag::Mul => seq![109u8, 117u8, 108u8],
        Btor2Tag::Nand => seq![110u8, 97u8, 110u8, 100u8],
        Btor2Tag::Neq => seq![110u8, 101u8, 113u8],
        Btor2Tag::Neg => seq![110u8, 101u8, 103u8],
        Btor2Tag::Next => seq![110u8, 101u8, 120u8, 116u8],
        Btor2Tag::Nor => seq![110u8, 111u8, 114u8],
        Btor2Tag::Not => seq![110u8, 111u8, 116u8],
        Btor2Tag::One => seq![111u8, 110u8, 101u8],
        Btor2Tag::Ones => seq![111u8, 110u8, 101u8, 115u8],
        Btor2Tag::Or => seq![111u8, 114u8],
        Btor2Tag::Output => seq![111u8, 117u8, 116u8, 112u8, 117u8, 116u8],
        Btor2Tag::Read => seq![114u8, 101u8, 97u8, 100u8],
        Btor2Tag::Redand => seq![114u8, 101u8, 100u8, 97u8, 110u8, 100u8],
        Btor2Tag::Redor => seq![114u8, 101u8, 100u8, 111u8, 114u8],
        Btor2Tag::Redxor => seq![114u8, 101u8, 100u8, 120u8, 111u8, 114u8],
        Btor2Tag::Rol => seq![114u8, 111u8, 108u8],
        Btor2Tag::Ror => seq![114u8, 111u8, 114u8],
        Btor2Tag::Saddo => seq![115u8, 97u8, 100u8, 100u8, 111u8],
        Btor2Tag::Sdiv => seq![115u8, 100u8, 105u8, 118u8],
        Btor2Tag::Sdivo => seq![115u8, 100u8, 105u8, 118u8, 111u8],
        Btor2Tag::Sext => seq![115u8, 101u8, 120u8, 116u8],
        Btor2Tag::Sgt => seq![115u8, 103u8, 116u8],
        Btor2Tag::Sgte => seq![115u8, 103u8, 116u8, 101u8],
        Btor2Tag::Slice => seq![115u8, 108u8, 105u8, 99u8, 101u8],
        Btor2Tag::Sll => seq![115u8, 108u8, 108u8],
        Btor2Tag::Slt => seq![115u8, 108u8, 116u8],
        Btor2Tag::Slte => seq![115u8, 108u8, 116u8, 101u8],
        Btor2Tag::Sort => seq![115u8, 111u8, 114u8, 116u8],
        Btor2Tag::Smod => seq![115u8, 109u8, 111u8, 100u8],
        Btor2Tag::Smulo => seq![115u8, 109u8, 117u8, 108u8, 111u8],
        Btor2Tag::Sra => seq![115u8, 114u8, 97u8],
        Btor2Tag::Srem => seq![115u8, 114u8, 101u8, 109u8],
        Btor2Tag::Srl => seq![115u8, 114u8, 108u8],
        Btor2Tag::Ssubo => seq![115u8, 115u8, 117u8, 98u8, 111u8],
        Btor2Tag::State => seq![115u8, 116u8, 97u8, 116u8, 101u8],
        Btor2Tag::Sub => seq![115u8, 117u8, 98u8],
        Btor2Tag::Uaddo => seq![117u8, 97u8, 100u8, 100u8, 111u8],
        Btor2Tag::Udiv => seq![117u8, 100u8, 105u8, 118u8],
        Btor2Tag::Uext => seq![117u8, 101u8, 120u8, 116u8],
        Btor2Tag::Ugt => seq![117u8, 103u8, 116u8],
        Btor2Tag::Ugte => seq![117u8, 103u8, 116u8, 101u8],
        Btor2Tag::Ult => seq![117u8, 108u8, 116u8],
        Btor2Tag::Ulte => seq![117u8, 108u8, 116u8, 101u8],
        Btor2Tag::Umulo => seq![117u8, 109u8, 117u8, 108u8, 111u8],
        Btor2Tag::Urem => seq![117u8, 114u8, 101u8, 109u8],
        Btor2Tag::Usubo => seq![117u8, 115u8, 117u8, 98u8, 111u8],
        Btor2Tag::Write => seq![119u8, 114u8, 105u8, 116u8, 101u8],
        Btor2Tag::Xnor => seq![120u8, 110u8, 111u8, 114u8],
        Btor2Tag::Xor => seq![120u8, 111u8, 114u8],
        Btor2Tag::Zero => seq![122u8, 101u8, 114u8, 111u8],
    }
}

/// Every tag, in the order the mnemonic table is searched.
pub open spec fn spec_tag_list() -> Seq<Btor2Tag> {
    seq![
        Btor2Tag::Add,
        Btor2Tag::And,
        Btor2Tag::Bad,
        Btor2Tag::Concat,
        Btor2Tag::Const,
        Btor2Tag::Constraint,
        Btor2Tag::Constd,
        Btor2Tag::Consth,
        Btor2Tag::Dec,
        Btor2Tag::Eq,
        Btor2Tag::Fair,
        Btor2Tag::Iff,
        Btor2Tag::Implies,
        Btor2Tag::Inc,
        Btor2Tag::Init,
        Btor2Tag::Input,
        Btor2Tag::Ite,
        Btor2Tag::Justice,
        Btor2Tag::Mul,
        Btor2Tag::Nand,
        Btor2Tag::Neq,
        Btor2Tag::Neg,
        Btor2Tag::Next,
        Btor2Tag::Nor,
        Btor2Tag::Not,
        Btor2Tag::One,
        Btor2Tag::Ones,
        Btor2Tag::Or,
        Btor2Tag::Output,
        Btor2Tag::Read,
        Btor2Tag::Redand,
        Btor2Tag::Redor,
        Btor2Tag::Redxor,
        Btor2Tag::Rol,
        Btor2Tag::Ror,
        Btor2Tag::Saddo,
        Btor2Tag::Sdiv,
        Btor2Tag::Sdivo,
        Btor2Tag::Sext,
        Btor2Tag::Sgt,
        Btor2Tag::Sgte,
        Btor2Tag::Slice,
        Btor2Tag::Sll,
        Btor2Tag::Slt,
        Btor2Tag::Slte,
        Btor2Tag::Sort,
        Btor2Tag::Smod,
        Btor2Tag::Smulo,
        Btor2Tag::Sra,
        Btor2Tag::Srem,
        Btor2Tag::Srl,
        Btor2Tag::Ssubo,
        Btor2Tag::State,
        Btor2Tag::Sub,
        Btor2Tag::Uaddo,
        Btor2Tag::Udiv,
        Btor2Tag::Uext,
        Btor2Tag::Ugt,
        Btor2Tag::Ugte,
        Btor2Tag::Ult,
        Btor2Tag::Ulte,
        Btor2Tag::Umulo,
        Btor2Tag::Urem,
        Btor2Tag::Usubo,
        Btor2Tag::Write,
        Btor2Tag::Xnor,
        Btor2Tag::Xor,
        Btor2Tag::Zero,
    ]
}

/// The mnemonic of `t` as bytes.
pub fn mnemonic_of(t: Btor2Tag) -> (r: Vec<u8>)
    ensures
        r@ == spec_mnemonic(t),
{
    let mut v: Vec<u8> = Vec::new();
    match t {
        Btor2Tag::Add => { v.push(97); v.push(100); v.push(100); },
        Btor2Tag::And => { v.push(97); v.push(110); v.push(100); },
        Btor2Tag::Bad => { v.push(98); v.push(97); v.push(100); },
        Btor2Tag::Concat => { v.push(99); v.push(111); v.push(110); v.push(99); v.push(97); v.push(116); },
        Btor2Tag::Const => { v.push(99); v.push(111); v.push(110); v.push(115); v.push(116); },
        Btor2Tag::Constraint => { v.push(99); v.push(111); v.push(110); v.push(115); v.push(116); v.push(114); v.push(97); v.push(105); v.push(110); v.push(116); },
        Btor2Tag::Constd => { v.push(99); v.push(111); v.push(110); v.push(115); v.push(116); v.push(100); },
        Btor2Tag::Consth => { v.push(99); v.push(111); v.push(110); v.push(115); v.push(116); v.push(104); },
        Btor2Tag::Dec => { v.push(100); v.push(101); v.push(99); },
        Btor2Tag::Eq => { v.push(101); v.push(113); },
        Btor2Tag::Fair => { v.push(102); v.push(97); v.push(105); v.push(114); },
        Btor2Tag::Iff => { v.push(105); v.push(102); v.push(102); },
        Btor2Tag::Implies => { v.push(105); v.push(109); v.push(112); v.push(108); v.push(105); v.push(101); v.push(115); },
        Btor2Tag::Inc => { v.push(105); v.push(110); v.push(99); },
        Btor2Tag::Init => { v.push(105); v.push(110); v.push(105); v.push(116); },
        Btor2Tag::Input => { v.push(105); v.push(110); v.push(112); v.push(117); v.push(116); },
        Btor2Tag::Ite => { v.push(105); v.push(116); v.push(101); },
        Btor2Tag::Justice => { v.push(106); v.push(117); v.push(115); v.push(116); v.push(105); v.push(99); v.push(101); },
        Btor2Tag::Mul => { v.push(109); v.push(117); v.push(108); },
        Btor2Tag::Nand => { v.push(110); v.push(97); v.push(110); v.push(100); },
        Btor2Tag::Neq => { v.push(110); v.push(101); v.push(113); },
        Btor2Tag::Neg => { v.push(110); v.push(101); v.push(103); },
        Btor2Tag::Next => { v.push(110); v.push(101); v.push(120); v.push(116); },
        Btor2Tag::Nor => { v.push(110); v.push(111); v.push(114); },
        Btor2Tag::Not => { v.push(110); v.push(111); v.push(116); },
        Btor2Tag::One => { v.push(111); v.push(110); v.push(101); },
        Btor2Tag::Ones => { v.push(111); v.push(110); v.push(101); v.push(115); },
        Btor2Tag::Or => { v.push(111); v.push(114); },
        Btor2Tag::Output => { v.push(111); v.push(117); v.push(116); v.push(112); v.push(117); v.push(116); },
        Btor2Tag::Read => { v.push(114); v.push(101); v.push(97); v.push(100); },
        Btor2Tag::Redand => { v.push(114); v.push(101); v.push(100); v.push(97); v.push(110); v.push(100); },
        Btor2Tag::Redor => { v.push(114); v.push(101); v.push(100); v.push(111); v.push(114); },
        Btor2Tag::Redxor => { v.push(114); v.push(101); v.push(100); v.push(120); v.push(111); v.push(114); },
        Btor2Tag::Rol => { v.push(114); v.push(111); v.push(108); },
        Btor2Tag::Ror => { v.push(114); v.push(111); v.push(114); },
        Btor2Tag::Saddo => { v.push(115); v.push(97); v.push(100); v.push(100); v.push(111); },
        Btor2Tag::Sdiv => { v.push(115); v.push(100); v.push(105); v.push(118); },
        Btor2Tag::Sdivo => { v.push(115); v.push(100); v.push(105); v.push(118); v.push(111); },
        Btor2Tag::Sext => { v.push(115); v.push(101); v.push(120); v.push(116); },
        Btor2Tag::Sgt => { v.push(115); v.push(103); v.push(116); },
        Btor2Tag::Sgte => { v.push(115); v.push(103); v.push(116); v.push(101); },
        Btor2Tag::Slice => { v.push(115); v.push(108); v.push(105); v.push(99); v.push(101); },
        Btor2Tag::Sll => { v.push(115); v.push(108); v.push(108); },
        Btor2Tag::Slt => { v.push(115); v.push(108); v.push(116); },
        Btor2Tag::Slte => { v.push(115); v.push(108); v.push(116); v.push(101); },
        Btor2Tag::Sort => { v.push(115); v.push(111); v.push(114); v.push(116); },
        Btor2Tag::Smod => { v.push(115); v.push(109); v.push(111); v.push(100); },
        Btor2Tag::Smulo => { v.push(115); v.push(109); v.push(117); v.push(108); v.push(111); },
        Btor2Tag::Sra => { v.push(115); v.push(114); v.push(97); },
        Btor2Tag::Srem => { v.push(115); v.push(114); v.push(101); v.push(109); },
        Btor2Tag::Srl => { v.push(115); v.push(114); v.push(108); },
        Btor2Tag::Ssubo => { v.push(115); v.push(115); v.push(117); v.push(98); v.push(111); },
        Btor2Tag::State => { v.push(115); v.push(116); v.push(97); v.push(116); v.push(101); },
        Btor2Tag::Sub => { v.push(115); v.push(117); v.push(98); },
        Btor2Tag::Uaddo => { v.push(117); v.push(97); v.push(100); v.push(100); v.push(111); },
        Btor2Tag::Udiv => { v.push(117); v.push(100); v.push(105); v.push(118); },
        Btor2Tag::Uext => { v.push(117); v.push(101); v.push(120); v.push(116); },
        Btor2Tag::Ugt => { v.push(117); v.push(103); v.push(116); },
        Btor2Tag::Ugte => { v.push(117); v.push(103); v.push(116); v.push(101); },
        Btor2Tag::Ult => { v.push(117); v.push(108); v.push(116); },
        Btor2Tag::Ulte => { v.push(117); v.push(108); v.push(116); v.push(101); },
        Btor2Tag::Umulo => { v.push(117); v.push(109); v.push(117); v.push(108); v.push(111); },
        Btor2Tag::Urem => { v.push(117); v.push(114); v.push(101); v.push(109); },
        Btor2Tag::Usubo => { v.push(117); v.push(115); v.push(117); v.push(98); v.push(111); },
        Btor2Tag::Write => { v.push(119); v.push(114); v.push(105); v.push(116); v.push(101); },
        Btor2Tag::Xnor => { v.push(120); v.push(110); v.push(111); v.push(114); },
        Btor2Tag::Xor => { v.push(120); v.push(111); v.push(114); },
        Btor2Tag::Zero => { v.push(122); v.push(101); v.push(114); v.push(111); },
    }
    proof {
        assert(v@ =~= spec_mnemonic(t));
    }
    v
}

/// Every tag, in table order.
#[verifier::rlimit(50)]
pub fn all_tags() -> (r: Vec<Btor2Tag>)
    ensures
        r@ == spec_tag_list(),
{
    let mut v: Vec<Btor2Tag> = Vec::new();
    v.push(Btor2Tag::Add);
    v.push(Btor2Tag::And);
    v.push(Btor2Tag::Bad);
    v.push(Btor2Tag::Concat);
    v.push(Btor2Tag::Const);
    v.push(Btor2Tag::Constraint);
    v.push(Btor2Tag::Constd);
    v.push(Btor2Tag::Consth);
    v.push(Btor2Tag::Dec);
    v.push(Btor2Tag::Eq);
    v.push(Btor2Tag::Fair);
    v.push(Btor2Tag::Iff);
    v.push(Btor2Tag::Implies);
    v.push(Btor2Tag::Inc);
    v.push(Btor2Tag::Init);
    v.push(Btor2Tag::Input);
    v.push(Btor2Tag::Ite);
    v.push(Btor2Tag::Justice);
    v.push(Btor2Tag::Mul);
    v.push(Btor2Tag::Nand);
    v.push(Btor2Tag::Neq);
    v.push(Btor2Tag::Neg);
    v.push(Btor2Tag::Next);
    v.push(Btor2Tag::Nor);
    v.push(Btor2Tag::Not);
    v.push(Btor2Tag::One);
    v.push(Btor2Tag::Ones);
    v.push(Btor2Tag::Or);
    v.push(Btor2Tag::Output);
    v.push(Btor2Tag::Read);
    v.push(Btor2Tag::Redand);
    v.push(Btor2Tag::Redor);
    v.push(Btor2Tag::Redxor);
    v.push(Btor2Tag::Rol);
    v.push(Btor2Tag::Ror);
    v.push(Btor2Tag::Saddo);
    v.push(Btor2Tag::Sdiv);
    v.push(Btor2Tag::Sdivo);
    v.push(Btor2Tag::Sext);
    v.push(Btor2Tag::Sgt);
    v.push(Btor2Tag::Sgte);
    v.push(Btor2Tag::Slice);
    v.push(Btor2Tag::Sll);
    v.push(Btor2Tag::Slt);
    v.push(Btor2Tag::Slte);
    v.push(Btor2Tag::Sort);
    v.push(Btor2Tag::Smod);
    v.push(Btor2Tag::Smulo);
    v.push(Btor2Tag::Sra);
    v.push(Btor2Tag::Srem);
    v.push(Btor2Tag::Srl);
    v.push(Btor2Tag::Ssubo);
    v.push(Btor2Tag::State);
    v.push(Btor2Tag::Sub);
    v.push(Btor2Tag::Uaddo);
    v.push(Btor2Tag::Udiv);
    v.push(Btor2Tag::Uext);
    v.push(Btor2Tag::Ugt);
    v.push(Btor2Tag::Ugte);
    v.push(Btor2Tag::Ult);
    v.push(Btor2Tag::Ulte);
    v.push(Btor2Tag::Umulo);
    v.push(Btor2Tag::Urem);
    v.push(Btor2Tag::Usubo);
    v.push(Btor2Tag::Write);
    v.push(Btor2Tag::Xnor);
    v.push(Btor2Tag::Xor);
    v.push(Btor2Tag::Zero);
    proof {
        assert(v@ =~= spec_tag_list());
    }
    v
}

/// Searches a tag list front to back for one whose mnemonic is `s`.
pub open spec fn tag_lookup(s: Seq<u8>, tags: Seq<Btor2Tag>) -> Option<Btor2Tag>
    decreases tags.len(),
{
    if tags.len() == 0 {
        None
    } else if spec_mnemonic(tags[0]) == s {
        Some(tags[0])
    } else {
        tag_lookup(s, tags.drop_first())
    }
}

/// The tag whose mnemonic is `s`, if any.
pub open spec fn spec_tag_of(s: Seq<u8>) -> Option<Btor2Tag> {
    tag_lookup(s, spec_tag_list())
}

/// Byte-wise equality of two byte vectors.
pub fn bytes_eq(a: &Vec<u8>, b: &Vec<u8>) -> (r: bool)
    ensures
        r <==> a@ == b@,
{
    if a.len() != b.len() {
        return false;
    }
    let n = a.len();
    let mut i: usize = 0;
    while i < n
        invariant
            n == a.len() == b.len(),
            i <= n,
            forall|j: int| 0 <= j < i ==> a@[j] == b@[j],
        decreases n - i,
    {
        if a[i] != b[i] {
            return false;
        }
        i += 1;
    }
    proof {
        assert(a@ =~= b@);
    }
    true
}

/// Dispatches a mnemonic token to its tag, `None` for an unknown mnemonic.
pub fn tag_of_token(s: &Vec<u8>) -> (r: Option<Btor2Tag>)
    ensures
        r == spec_tag_of(s@),
{
    let tags = all_tags();
    let n = tags.len();
    let mut i: usize = 0;
    proof {
        assert(spec_tag_list().skip(0) =~= spec_tag_list());
    }
    while i < n
        invariant
            n == tags.len(),
            tags@ == spec_tag_list(),
            i <= n,
            spec_tag_of(s@) == tag_lookup(s@, spec_tag_list().skip(i as int)),
        decreases n - i,
    {
        let m = mnemonic_of(tags[i]);
        if bytes_eq(s, &m) {
            proof {
                assert(spec_tag_list().skip(i as int)[0] == tags@[i as int]);
            }
            return Some(tags[i]);
        }
        proof {
            assert(spec_tag_list().skip(i as int).drop_first() =~= spec_tag_list().skip(
                i as int + 1,
            ));
            assert(spec_tag_list().skip(i as int)[0] == tags@[i as int]);
        }
        i += 1;
    }
    proof {
        assert(spec_tag_list().skip(n as int) =~= Seq::<Btor2Tag>::empty());
    }
    None
}


/// The shape class of `t`, as executable data.
pub fn tag_shape(t: Btor2Tag) -> (r: TagShape)
    ensures
        r == shape_of(t),
{
    match t {
        Btor2Tag::Add => TagShape::Op { refs: 2, imms: 0 },
        Btor2Tag::And => TagShape::Op { refs: 2, imms: 0 },
        Btor2Tag::Bad => TagShape::Prop,
        Btor2Tag::Concat => TagShape::Op { refs: 2, imms: 0 },
        Btor2Tag::Const => TagShape::ConstText,
        Btor2Tag::Constraint => TagShape::Prop,
        Btor2Tag::Constd => TagShape::ConstText,
        Btor2Tag::Consth => TagShape::ConstText,
        Btor2Tag::Dec => TagShape::Op { refs: 1, imms: 0 },
        Btor2Tag::Eq => TagShape::Op { refs: 2, imms: 0 },
        Btor2Tag::Fair => TagShape::Prop,
        Btor2Tag::Iff => TagShape::Op { refs: 2, imms: 0 },
        Btor2Tag::Implies => TagShape::Op { refs: 2, imms: 0 },
        Btor2Tag::Inc => TagShape::Op { refs: 1, imms: 0 },
        Btor2Tag::Init => TagShape::InitNext,
        Btor2Tag::Input => TagShape::Leaf,
        Btor2Tag::Ite => TagShape::Op { refs: 3, imms: 0 },
        Btor2Tag::Justice => TagShape::JusticeDecl,
        Btor2Tag::Mul => TagShape::Op { refs: 2, imms: 0 },
        Btor2Tag::Nand => TagShape::Op { refs: 2, imms: 0 },
        Btor2Tag::Neq => TagShape::Op { refs: 2, imms: 0 },
        Btor2Tag::Neg => TagShape::Op { refs: 1, imms: 0 },
        Btor2Tag::Next => TagShape::InitNext,
        Btor2Tag::Nor => TagShape::Op { refs: 2, imms: 0 },
        Btor2Tag::Not => TagShape::Op { refs: 1, imms: 0 },
        Btor2Tag::One => TagShape::Leaf,
        Btor2Tag::Ones => TagShape::Leaf,
        Btor2Tag::Or => TagShape::Op { refs: 2, imms: 0 },
        Btor2Tag::Output => TagShape::Prop,
        Btor2Tag::Read => TagShape::Op { refs: 2, imms: 0 },
        Btor2Tag::Redand => TagShape::Op { refs: 1, imms: 0 },
        Btor2Tag::Redor => TagShape::Op { refs: 1, imms: 0 },
        Btor2Tag::Redxor => TagShape::Op { refs: 1, imms: 0 },
        Btor2Tag::Rol => TagShape::Op { refs: 1, imms: 1 },
        Btor2Tag::Ror => TagShape::Op { refs: 1, imms: 1 },
        Btor2Tag::Saddo => TagShape::Op { refs: 2, imms: 0 },
        Btor2Tag::Sdiv => TagShape::Op { refs: 2, imms: 0 },
        Btor2Tag::Sdivo => TagShape::Op { refs: 2, imms: 0 },
        Btor2Tag::Sext => TagShape::Op { refs: 1, imms: 1 },
        Btor2Tag::Sgt => TagShape::Op { refs: 2, imms: 0 },
        Btor2Tag::Sgte => TagShape::Op { refs: 2, imms: 0 },
        Btor2Tag::Slice => TagShape::SliceOp,
        Btor2Tag::Sll => TagShape::Op { refs: 2, imms: 0 },
        Btor2Tag::Slt => TagShape::Op { refs: 2, imms: 0 },
        Btor2Tag::Slte => TagShape::Op { refs: 2, imms: 0 },
        Btor2Tag::Sort => TagShape::SortDecl,
        Btor2Tag::Smod => TagShape::Op { refs: 2, imms: 0 },
        Btor2Tag::Smulo => TagShape::Op { refs: 2, imms: 0 },
        Btor2Tag::Sra => TagShape::Op { refs: 2, imms: 0 },
        Btor2Tag::Srem => TagShape::Op { refs: 2, imms: 0 },
        Btor2Tag::Srl => TagShape::Op { refs: 2, imms: 0 },
        Btor2Tag::Ssubo => TagShape::Op { refs: 2, imms: 0 },
        Btor2Tag::State => TagShape::Leaf,
        Btor2Tag::Sub => TagShape::Op { refs: 2, imms: 0 },
        Btor2Tag::Uaddo => TagShape::Op { refs: 2, imms: 0 },
        Btor2Tag::Udiv => TagShape::Op { refs: 2, imms: 0 },
        Btor2Tag::Uext => TagShape::Op { refs: 1, imms: 1 },
        Btor2Tag::Ugt => TagShape::Op { refs: 2, imms: 0 },
        Btor2Tag::Ugte => TagShape::Op { refs: 2, imms: 0 },
        Btor2Tag::Ult => TagShape::Op { refs: 2, imms: 0 },
        Btor2Tag::Ulte => TagShape::Op { refs: 2, imms: 0 },
        Btor2Tag::Umulo => TagShape::Op { refs: 2, imms: 0 },
        Btor2Tag::Urem => TagShape::Op { refs: 2, imms: 0 },
        Btor2Tag::Usubo => TagShape::Op { refs: 2, imms: 0 },
        Btor2Tag::Write => TagShape::Op { refs: 3, imms: 0 },
        Btor2Tag::Xnor => TagShape::Op { refs: 2, imms: 0 },
        Btor2Tag::Xor => TagShape::Op { refs: 2, imms: 0 },
        Btor2Tag::Zero => TagShape::Leaf,
    }
}

/// The bytes of the sort kind token `bitvec`.
pub open spec fn kw_bitvec() -> Seq<u8> {
    seq![98u8, 105u8, 116u8, 118u8, 101u8, 99u8]
}

/// The bytes of the sort kind token `array`.
pub open spec fn kw_array() -> Seq<u8> {
    seq![97u8, 114u8, 114u8, 97u8, 121u8]
}

/// The token `bitvec` as bytes.
pub fn kw_bitvec_token() -> (r: Vec<u8>)
    ensures
        r@ == kw_bitvec(),
{
    let mut v: Vec<u8> = Vec::new();
    v.push(98);
    v.push(105);
    v.push(116);
    v.push(118);
    v.push(101);
    v.push(99);
    proof {
        assert(v@ =~= kw_bitvec());
    }
    v
}

/// The token `array` as bytes.
pub fn kw_array_token() -> (r: Vec<u8>)
    ensures
        r@ == kw_array(),
{
    let mut v: Vec<u8> = Vec::new();
    v.push(97);
    v.push(114);
    v.push(114);
    v.push(97);
    v.push(121);
    proof {
        assert(v@ =~= kw_array());
    }
    v
}

} // verus!

