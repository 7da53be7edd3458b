//! The in-memory program representation.
//!
//! A [`Program`] is a set of append-only arenas.  Every IR entity is a
//! record in one of them, and records refer to each other by index.  A
//! record's references always point at records created earlier, so the
//! value graph is acyclic by construction; [`values_acyclic`] captures
//! that invariant and the reference evaluator's termination rests on it.
//!
//! All records are plain copyable data.  Strings and index lists live in
//! two dedicated arenas (`strings` and `arglists`) so that every record
//! enum stays `Copy`.

use vstd::prelude::*;

use crate::block::{BinaryOp, UnaryOp, ComparisonOp, Term, Stmt};
use crate::function::FunctionType;
use crate::context::GlobalKind;

verus! {

/// A named primitive type of the target language.
#[derive(Clone, Copy, PartialEq, Eq, Structural, Debug)]
pub enum PrimKind {
    Void,
    Bool,
    Char,
    UChar,
    SChar,
    Short,
    UShort,
    Int,
    UInt,
    Long,
    ULong,
    LongLong,
    ULongLong,
    SizeT,
    VoidPtr,
}

/// The shape of one type record.  Derived types refer to their base type
/// by index; composite types refer to the arena holding their parts.
#[derive(Clone, Copy, PartialEq, Eq, Structural, Debug)]
pub enum TypeDesc {
    /// A named primitive type.
    Prim(PrimKind),
    /// An integer type of an exact byte width.
    IntWidth { bytes: i32, signed: bool },
    /// A pointer to the type at `pointee`.
    Pointer { pointee: usize },
    /// A `const`-qualified view of the type at `base`.
    ConstOf { base: usize },
    /// A `volatile`-qualified view of the type at `base`.
    VolatileOf { base: usize },
    /// The type at `base` with its alignment overridden to `align` bytes.
    AlignedOf { base: usize, align: u64 },
    /// An array of `len` elements of the type at `elem`.
    ArrayOf { elem: usize, len: i32 },
    /// A vector of `units` lanes of the type at `elem`.
    VectorOf { elem: usize, units: u64 },
    /// The type of the struct record at `s`.
    StructRef { s: usize },
    /// The type of the union record at `u`.
    UnionRef { u: usize },
    /// A pointer to a function with the signature record at `sig`.
    FnPtr { sig: usize },
}

/// A function-pointer signature: a return type, a list of parameter types
/// (an `arglists` index), and a variadic flag.
#[derive(Clone, Copy, PartialEq, Eq, Structural, Debug)]
pub struct SigData {
    pub ret: usize,
    pub param_tys: usize,
    pub variadic: bool,
}

/// A named, typed slot usable in exactly one struct or union definition.
/// `used` is set once the field has been placed in a definition.
#[derive(Clone, Copy, PartialEq, Eq, Structural, Debug)]
pub struct FieldData {
    pub ty: usize,
    pub name: usize,
    pub loc: Option<usize>,
    pub used: bool,
}

/// A struct type: a name and, once fixed, an ordered field list (an
/// `arglists` index holding field indices).  `fields` is `None` while the
/// struct is opaque.
#[derive(Clone, Copy, PartialEq, Eq, Structural, Debug)]
pub struct StructData {
    pub name: usize,
    pub fields: Option<usize>,
    pub loc: Option<usize>,
}

/// A union type: a name and an ordered field list fixed at creation.
#[derive(Clone, Copy, PartialEq, Eq, Structural, Debug)]
pub struct UnionData {
    pub name: usize,
    pub fields: usize,
    pub loc: Option<usize>,
}

/// A function: linkage kind, return type, parameter list (an `arglists`
/// index holding parameter indices), name, and variadic flag.  Its blocks
/// are the block records whose `func` field names it.
#[derive(Clone, Copy, PartialEq, Eq, Structural, Debug)]
pub struct FunctionData {
    pub kind: FunctionType,
    pub ret: usize,
    pub params: usize,
    pub name: usize,
    pub variadic: bool,
    pub loc: Option<usize>,
}

/// A formal parameter.  `rv` and `lv` are the indices of the two value
/// records created with the parameter: its value read and its storage
/// slot.
#[derive(Clone, Copy, PartialEq, Eq, Structural, Debug)]
pub struct ParamData {
    pub ty: usize,
    pub name: usize,
    pub rv: usize,
    pub lv: usize,
    pub loc: Option<usize>,
}

/// A source position: a file name (a `strings` index), line, and column.
#[derive(Clone, Copy, PartialEq, Eq, Structural, Debug)]
pub struct LocData {
    pub file: usize,
    pub line: i32,
    pub col: i32,
}

/// One range of a switch terminator: the two bound expressions and the
/// destination block.
#[derive(Clone, Copy, PartialEq, Eq, Structural, Debug)]
pub struct CaseData {
    pub min_rv: usize,
    pub max_rv: usize,
    pub dest: usize,
}

/// A basic block: its owning function, its name, and its terminator once
/// one has been set.  Its statements are the `stmts` records naming it.
#[derive(Clone, Copy, PartialEq, Eq, Structural, Debug)]
pub struct BlockData {
    pub func: usize,
    pub name: usize,
    pub term: Option<Term>,
    pub term_loc: Option<usize>,
}

/// One non-terminating statement, tagged with the block it belongs to.
/// A block's statement sequence is the subsequence of the `stmts` arena
/// with its index, in arena order.
#[derive(Clone, Copy, PartialEq, Eq, Structural, Debug)]
pub struct StmtRec {
    pub block: usize,
    pub stmt: Stmt,
    pub loc: Option<usize>,
}

/// An extended inline-assembly statement's template and flags.
#[derive(Clone, Copy, PartialEq, Eq, Structural, Debug)]
pub struct AsmData {
    pub template: usize,
    pub volatile_flag: bool,
    pub inline_flag: bool,
}

/// The role of one inline-assembly operand record.
#[derive(Clone, Copy, PartialEq, Eq, Structural, Debug)]
pub enum AsmOpKind {
    Output,
    Input,
    Clobber,
}

/// One operand or clobber of an inline-assembly statement, tagged with
/// the assembly record it belongs to.
#[derive(Clone, Copy, PartialEq, Eq, Structural, Debug)]
pub struct AsmOpRec {
    pub owner: usize,
    pub kind: AsmOpKind,
    pub sym: Option<usize>,
    pub constraint: usize,
    pub val: Option<usize>,
}

/// One value-expression record.  R-shaped records are values without a
/// storage location; L-shaped records (`GlobalVar`, `LocalVar`,
/// `ParamSlot`, the field accesses, `Deref`, `ArrayAt`) have an address.
/// Every record stores its result type.
#[derive(Clone, Copy, PartialEq, Eq, Structural, Debug)]
pub enum ValueData {
    /// An integer literal of the given type.
    IntConst { ty: usize, val: i64 },
    /// A string literal (a `strings` index).
    StrLit { ty: usize, s: usize },
    /// A vector literal; `elems` is an `arglists` index of value indices.
    VecConst { ty: usize, elems: usize },
    /// The value read of the parameter at `p`.
    ParamVal { p: usize, ty: usize },
    /// The load of the l-shaped record at `l`.
    Load { l: usize, ty: usize },
    /// A binary operation with an explicit result type.
    Binary { op: BinaryOp, ty: usize, lhs: usize, rhs: usize },
    /// A unary operation with an explicit result type.
    Unary { op: UnaryOp, ty: usize, v: usize },
    /// A comparison; its result type is the boolean type.
    Compare { op: ComparisonOp, ty: usize, lhs: usize, rhs: usize },
    /// A direct call of the function at `f` with arguments `args` (an
    /// `arglists` index).
    CallFn { f: usize, ty: usize, args: usize },
    /// An indirect call through the function-pointer value at `fp`.
    CallPtr { fp: usize, ty: usize, args: usize },
    /// A conversion of the value at `v` to the type at `ty`.
    Cast { v: usize, ty: usize },
    /// The address of the l-shaped record at `l`.
    AddrOf { l: usize, ty: usize },
    /// A global variable.
    GlobalVar { kind: GlobalKind, ty: usize, name: usize },
    /// A local variable of the function at `f`.
    LocalVar { f: usize, ty: usize, name: usize },
    /// The storage slot of the parameter at `p`.
    ParamSlot { p: usize, ty: usize },
    /// Field access on an l-shaped base: `base.field` as a place.
    FieldOfL { base: usize, field: usize, ty: usize },
    /// Field access on an r-shaped base: `base.field` as a place.
    FieldOfR { base: usize, field: usize, ty: usize },
    /// Field access through a pointer: `ptr->field`.
    DerefField { ptr: usize, field: usize, ty: usize },
    /// The place a pointer value points at: `*ptr`.
    Deref { ptr: usize, ty: usize },
    /// An array element place: `arr[index]`.
    ArrayAt { arr: usize, index: usize, ty: usize },
}

impl ValueData {
    /// The result type stored in this record.
    pub open spec fn stored_ty(self) -> usize {
        match self {
            ValueData::IntConst { ty, .. } => ty,
            ValueData::StrLit { ty, .. } => ty,
            ValueData::VecConst { ty, .. } => ty,
            ValueData::ParamVal { ty, .. } => ty,
            ValueData::Load { ty, .. } => ty,
            ValueData::Binary { ty, .. } => ty,
            ValueData::Unary { ty, .. } => ty,
            ValueData::Compare { ty, .. } => ty,
            ValueData::CallFn { ty, .. } => ty,
            ValueData::CallPtr { ty, .. } => ty,
            ValueData::Cast { ty, .. } => ty,
            ValueData::AddrOf { ty, .. } => ty,
            ValueData::GlobalVar { ty, .. } => ty,
            ValueData::LocalVar { ty, .. } => ty,
            ValueData::ParamSlot { ty, .. } => ty,
            ValueData::FieldOfL { ty, .. } => ty,
            ValueData::FieldOfR { ty, .. } => ty,
            ValueData::DerefField { ty, .. } => ty,
            ValueData::Deref { ty, .. } => ty,
            ValueData::ArrayAt { ty, .. } => ty,
        }
    }

    /// Reads the result type stored in this record.
    pub fn get_stored_ty(&self) -> (t: usize)
        ensures
            t == self.stored_ty(),
    {
        match self {
            ValueData::IntConst { ty, .. } => *ty,
            ValueData::StrLit { ty, .. } => *ty,
            ValueData::VecConst { ty, .. } => *ty,
            ValueData::ParamVal { ty, .. } => *ty,
            ValueData::Load { ty, .. } => *ty,
            ValueData::Binary { ty, .. } => *ty,
            ValueData::Unary { ty, .. } => *ty,
            ValueData::Compare { ty, .. } => *ty,
            ValueData::CallFn { ty, .. } => *ty,
            ValueData::CallPtr { ty, .. } => *ty,
            ValueData::Cast { ty, .. } => *ty,
            ValueData::AddrOf { ty, .. } => *ty,
            ValueData::GlobalVar { ty, .. } => *ty,
            ValueData::LocalVar { ty, .. } => *ty,
            ValueData::ParamSlot { ty, .. } => *ty,
            ValueData::FieldOfL { ty, .. } => *ty,
            ValueData::FieldOfR { ty, .. } => *ty,
            ValueData::DerefField { ty, .. } => *ty,
            ValueData::Deref { ty, .. } => *ty,
            ValueData::ArrayAt { ty, .. } => *ty,
        }
    }
}

/// The arenas of one IR program.
pub struct Program {
    pub types: Vec<TypeDesc>,
    pub sigs: Vec<SigData>,
    pub fields: Vec<FieldData>,
    pub structs: Vec<StructData>,
    pub unions: Vec<UnionData>,
    pub funcs: Vec<FunctionData>,
    pub params: Vec<ParamData>,
    pub values: Vec<ValueData>,
    pub value_locs: Vec<Option<usize>>,
    pub blocks: Vec<BlockData>,
    pub stmts: Vec<StmtRec>,
    pub cases: Vec<CaseData>,
    pub locs: Vec<LocData>,
    pub asms: Vec<AsmData>,
    pub asm_ops: Vec<AsmOpRec>,
    pub strings: Vec<String>,
    pub arglists: Vec<Vec<usize>>,
    pub toplevel_asm: Vec<usize>,
}

/// The mathematical model of a [`Program`]: the same arenas as sequences.
#[verifier::ext_equal]
pub struct ProgV {
    pub types: Seq<TypeDesc>,
    pub sigs: Seq<SigData>,
    pub fields: Seq<FieldData>,
    pub structs: Seq<StructData>,
    pub unions: Seq<UnionData>,
    pub funcs: Seq<FunctionData>,
    pub params: Seq<ParamData>,
    pub values: Seq<ValueData>,
    pub value_locs: Seq<Option<usize>>,
    pub blocks: Seq<BlockData>,
    pub stmts: Seq<StmtRec>,
    pub cases: Seq<CaseData>,
    pub locs: Seq<LocData>,
    pub asms: Seq<AsmData>,
    pub asm_ops: Seq<AsmOpRec>,
    pub strings: Seq<Seq<char>>,
    pub arglists: Seq<Seq<usize>>,
    pub toplevel_asm: Seq<usize>,
}

impl View for Program {
    type V = ProgV;

    open spec fn view(&self) -> ProgV {
        ProgV {
            types: self.types@,
            sigs: self.sigs@,
            fields: self.fields@,
            structs: self.structs@,
            unions: self.unions@,
            funcs: self.funcs@,
            params: self.params@,
            values: self.values@,
            value_locs: self.value_locs@,
            blocks: self.blocks@,
            stmts: self.stmts@,
            cases: self.cases@,
            locs: self.locs@,
            asms: self.asms@,
            asm_ops: self.asm_ops@,
            strings: self.strings.deep_view(),
            arglists: self.arglists.deep_view(),
            toplevel_asm: self.toplevel_asm@,
        }
    }
}

/// The value indices the record `d` refers to directly are all smaller
/// than `bound`, and any argument list it refers to exists in `pv` and
/// holds only indices smaller than `bound`.
pub open spec fn value_children_lt(pv: ProgV, d: ValueData, bound: int) -> bool {
    match d {
        ValueData::IntConst { .. } => true,
        ValueData::StrLit { .. } => true,
        ValueData::VecConst { elems, .. } => arglist_lt(pv, elems, bound),
        ValueData::ParamVal { p, .. } => p < pv.params.len() && pv.params[p as int].lv < bound,
        ValueData::Load { l, .. } => l < bound,
        ValueData::Binary { lhs, rhs, .. } => lhs < bound && rhs < bound,
        ValueData::Unary { v, .. } => v < bound,
        ValueData::Compare { lhs, rhs, .. } => lhs < bound && rhs < bound,
        ValueData::CallFn { f, args, .. } => f < pv.funcs.len() && arglist_lt(pv, args, bound),
        ValueData::CallPtr { fp, args, .. } => fp < bound && arglist_lt(pv, args, bound),
        ValueData::Cast { v, .. } => v < bound,
        ValueData::AddrOf { l, .. } => l < bound,
        ValueData::GlobalVar { .. } => true,
        ValueData::LocalVar { .. } => true,
        ValueData::ParamSlot { .. } => true,
        ValueData::FieldOfL { base, .. } => base < bound,
        ValueData::FieldOfR { base, .. } => base < bound,
        ValueData::DerefField { ptr, .. } => ptr < bound,
        ValueData::Deref { ptr, .. } => ptr < bound,
        ValueData::ArrayAt { arr, index, .. } => arr < bound && index < bound,
    }
}

/// The value record at `i` refers only to records created before it.
pub open spec fn value_wf(pv: ProgV, i: int) -> bool {
    value_children_lt(pv, pv.values[i], i)
}

/// The argument list at `al` exists and holds only indices below `bound`.
pub open spec fn arglist_lt(pv: ProgV, al: usize, bound: int) -> bool {
    &&& al < pv.arglists.len()
    &&& forall|j: int| 0 <= j < pv.arglists[al as int].len() ==> pv.arglists[al as int][j] < bound
}

/// Every value record's references point strictly backwards.
pub open spec fn values_acyclic(pv: ProgV) -> bool {
    forall|i: int| 0 <= i < pv.values.len() ==> #[trigger] value_wf(pv, i)
}

/// The references the type shape `d` makes are sound in `pv`: every type
/// it is derived from lies below `bound`, and the record of any struct,
/// union or signature it names exists.
pub open spec fn type_desc_ok(pv: ProgV, d: TypeDesc, bound: int) -> bool {
    match d {
        TypeDesc::Pointer { pointee } => pointee < bound,
        TypeDesc::ConstOf { base } => base < bound,
        TypeDesc::VolatileOf { base } => base < bound,
        TypeDesc::AlignedOf { base, .. } => base < bound,
        TypeDesc::ArrayOf { elem, .. } => elem < bound,
        TypeDesc::VectorOf { elem, .. } => elem < bound,
        TypeDesc::StructRef { s } => s < pv.structs.len(),
        TypeDesc::UnionRef { u } => u < pv.unions.len(),
        TypeDesc::FnPtr { sig } => sig < pv.sigs.len()
            && pv.sigs[sig as int].param_tys < pv.arglists.len(),
        _ => true,
    }
}

/// The type record at `i` refers only to types created before it and to
/// records that exist.
pub open spec fn type_wf(pv: ProgV, i: int) -> bool {
    type_desc_ok(pv, pv.types[i], i)
}

/// Every derived type record's base type points strictly backwards.
pub open spec fn types_acyclic(pv: ProgV) -> bool {
    forall|i: int| 0 <= i < pv.types.len() ==> #[trigger] type_wf(pv, i)
}

/// The function record at `f` has an existing parameter list whose
/// entries all name existing parameter records.
pub open spec fn func_wf(pv: ProgV, f: int) -> bool {
    &&& pv.funcs[f].params < pv.arglists.len()
    &&& forall|j: int| 0 <= j < pv.arglists[pv.funcs[f].params as int].len()
        ==> #[trigger] pv.arglists[pv.funcs[f].params as int][j] < pv.params.len()
}

/// The structural well-formedness every context maintains: both arenas
/// of back-references are acyclic, each parameter's storage slot exists,
/// every function's parameter list is sound, every block names an
/// existing function, and the per-value side tables have matching
/// lengths.
pub open spec fn prog_wf(pv: ProgV) -> bool {
    &&& values_acyclic(pv)
    &&& types_acyclic(pv)
    &&& pv.value_locs.len() == pv.values.len()
    &&& forall|p: int| 0 <= p < pv.params.len() ==> #[trigger] pv.params[p].lv < pv.values.len()
    &&& forall|f: int| 0 <= f < pv.funcs.len() ==> #[trigger] func_wf(pv, f)
    &&& forall|b: int| 0 <= b < pv.blocks.len() ==> #[trigger] pv.blocks[b].func < pv.funcs.len()
}

/// `pv` extended with one value record (and its source tag).
pub open spec fn push_value(pv: ProgV, d: ValueData, loc: Option<usize>) -> ProgV {
    ProgV { values: pv.values.push(d), value_locs: pv.value_locs.push(loc), ..pv }
}

/// `pv` extended with one string.
pub open spec fn push_string(pv: ProgV, s: Seq<char>) -> ProgV {
    ProgV { strings: pv.strings.push(s), ..pv }
}

/// `pv` extended with one argument list.
pub open spec fn push_arglist(pv: ProgV, al: Seq<usize>) -> ProgV {
    ProgV { arglists: pv.arglists.push(al), ..pv }
}

/// `pv` extended with one place record and its load record: the way
/// every l-shaped value enters the arena.
pub open spec fn push_place(pv: ProgV, d: ValueData, loc: Option<usize>) -> ProgV {
    let l = pv.values.len() as usize;
    push_value(push_value(pv, d, loc), ValueData::Load { l, ty: d.stored_ty() }, loc)
}

/// `pv` extended with one type record.
pub open spec fn push_type(pv: ProgV, d: TypeDesc) -> ProgV {
    ProgV { types: pv.types.push(d), ..pv }
}

/// Every index in `fs` names an existing field record that is not yet
/// part of any definition, and no index repeats.
pub open spec fn fields_fresh(pv: ProgV, fs: Seq<usize>) -> bool {
    &&& forall|j: int| 0 <= j < fs.len() ==> (#[trigger] fs[j]) < pv.fields.len()
        && !pv.fields[fs[j] as int].used
    &&& forall|j: int, k: int| 0 <= j < k < fs.len() ==> fs[j] != fs[k]
}

/// `pv` extended with one location record.
pub open spec fn push_loc(pv: ProgV, d: LocData) -> ProgV {
    ProgV { locs: pv.locs.push(d), ..pv }
}

/// `pv` extended with one field record.
pub open spec fn push_field_rec(pv: ProgV, d: FieldData) -> ProgV {
    ProgV { fields: pv.fields.push(d), ..pv }
}

/// `pv` extended with one struct record.
pub open spec fn push_struct_rec(pv: ProgV, d: StructData) -> ProgV {
    ProgV { structs: pv.structs.push(d), ..pv }
}

/// `pv` extended with one union record.
pub open spec fn push_union_rec(pv: ProgV, d: UnionData) -> ProgV {
    ProgV { unions: pv.unions.push(d), ..pv }
}

/// `pv` extended with one signature record.
pub open spec fn push_sig_rec(pv: ProgV, d: SigData) -> ProgV {
    ProgV { sigs: pv.sigs.push(d), ..pv }
}

/// `pv` extended with one function record.
pub open spec fn push_func_rec(pv: ProgV, d: FunctionData) -> ProgV {
    ProgV { funcs: pv.funcs.push(d), ..pv }
}

/// `pv` extended with one parameter record.
pub open spec fn push_param_rec(pv: ProgV, d: ParamData) -> ProgV {
    ProgV { params: pv.params.push(d), ..pv }
}

/// `pv` extended with one block record.
pub open spec fn push_block_rec(pv: ProgV, d: BlockData) -> ProgV {
    ProgV { blocks: pv.blocks.push(d), ..pv }
}

/// `pv` extended with one statement record.
pub open spec fn push_stmt_rec(pv: ProgV, d: StmtRec) -> ProgV {
    ProgV { stmts: pv.stmts.push(d), ..pv }
}

/// `pv` extended with one case record.
pub open spec fn push_case_rec(pv: ProgV, d: CaseData) -> ProgV {
    ProgV { cases: pv.cases.push(d), ..pv }
}

/// `pv` extended with one inline-assembly record.
pub open spec fn push_asm_rec(pv: ProgV, d: AsmData) -> ProgV {
    ProgV { asms: pv.asms.push(d), ..pv }
}

/// `pv` extended with one inline-assembly operand record.
pub open spec fn push_asm_op_rec(pv: ProgV, d: AsmOpRec) -> ProgV {
    ProgV { asm_ops: pv.asm_ops.push(d), ..pv }
}

/// `pv` with the block at `b` given the terminator `t`.
pub open spec fn with_block_term(pv: ProgV, b: int, t: Term, loc: Option<usize>) -> ProgV {
    ProgV {
        blocks: pv.blocks.update(b, BlockData {
            term: Option::Some(t),
            term_loc: loc,
            ..pv.blocks[b]
        }),
        ..pv
    }
}

/// `pv` with the struct at `s` given the field list `al`, recording
/// where the fill happened.
pub open spec fn with_struct_fields(pv: ProgV, s: int, al: usize, loc: Option<usize>) -> ProgV {
    ProgV {
        structs: pv.structs.update(s, StructData {
            fields: Option::Some(al),
            loc,
            ..pv.structs[s]
        }),
        ..pv
    }
}

/// `pv` with the field at `f` marked as used in a definition.
pub open spec fn with_field_used(pv: ProgV, f: int) -> ProgV {
    ProgV { fields: pv.fields.update(f, FieldData { used: true, ..pv.fields[f] }), ..pv }
}

/// `pv` with the fields listed in `fs` (from position `k` on) marked as
/// used, one after the other.
pub open spec fn with_fields_used(pv: ProgV, fs: Seq<usize>, k: int) -> ProgV
    decreases fs.len() - k when 0 <= k <= fs.len()
{
    if k >= fs.len() {
        pv
    } else {
        with_fields_used(with_field_used(pv, fs[k] as int), fs, k + 1)
    }
}

/// Marking fields as used changes only the field records, and keeps
/// even their number.
pub proof fn lemma_with_fields_used_shape(pv: ProgV, fs: Seq<usize>, k: int)
    requires
        0 <= k <= fs.len(),
        forall|j: int| k <= j < fs.len() ==> (#[trigger] fs[j]) < pv.fields.len(),
    ensures
        ({
            let r = with_fields_used(pv, fs, k);
            &&& r.types == pv.types
            &&& r.sigs == pv.sigs
            &&& r.fields.len() == pv.fields.len()
            &&& r.structs == pv.structs
            &&& r.unions == pv.unions
            &&& r.funcs == pv.funcs
            &&& r.params == pv.params
            &&& r.values == pv.values
            &&& r.value_locs == pv.value_locs
            &&& r.blocks == pv.blocks
            &&& r.stmts == pv.stmts
            &&& r.cases == pv.cases
            &&& r.locs == pv.locs
            &&& r.asms == pv.asms
            &&& r.asm_ops == pv.asm_ops
            &&& r.strings == pv.strings
            &&& r.arglists == pv.arglists
            &&& r.toplevel_asm == pv.toplevel_asm
        }),
    decreases fs.len() - k,
{
    if k < fs.len() {
        lemma_with_fields_used_shape(with_field_used(pv, fs[k] as int), fs, k + 1);
    }
}

/// Copies a vector of plain copyable records.
fn copy_scalar_vec<T: Copy>(v: &Vec<T>) -> (r: Vec<T>)
    ensures
        r@ == v@,
{
    let mut out: Vec<T> = Vec::new();
    let mut i: usize = 0;
    while i < v.len()
        invariant
            i <= v@.len(),
            out@ =~= v@.take(i as int),
        decreases v@.len() - i,
    {
        out.push(v[i]);
        proof {
            assert(out@ =~= v@.take(i + 1));
        }
        i = i + 1;
    }
    proof {
        assert(v@.take(v@.len() as int) =~= v@);
    }
    out
}

/// Copies the string arena.
fn copy_strings(v: &Vec<String>) -> (r: Vec<String>)
    ensures
        r.deep_view() == v.deep_view(),
{
    let mut out: Vec<String> = Vec::new();
    let mut i: usize = 0;
    while i < v.len()
        invariant
            i <= v@.len(),
            out@.len() == i,
            forall|j: int| 0 <= j < i ==> out@[j]@ == v@[j]@,
        decreases v@.len() - i,
    {
        out.push(v[i].clone());
        i = i + 1;
    }
    proof {
        assert(out.deep_view() =~= v.deep_view());
    }
    out
}

/// Copies the argument-list arena.
fn copy_arglists(v: &Vec<Vec<usize>>) -> (r: Vec<Vec<usize>>)
    ensures
        r.deep_view() == v.deep_view(),
{
    let mut out: Vec<Vec<usize>> = Vec::new();
    let mut i: usize = 0;
    while i < v.len()
        invariant
            i <= v@.len(),
            out@.len() == i,
            forall|j: int| 0 <= j < i ==> out@[j]@ == v@[j]@,
        decreases v@.len() - i,
    {
        let inner = copy_scalar_vec(&v[i]);
        out.push(inner);
        i = i + 1;
    }
    proof {
        assert(out.deep_view() =~~= v.deep_view());
    }
    out
}

/// Copies a vector of strings, keeping its model.
pub(crate) fn copy_string_vec(v: &Vec<String>) -> (r: Vec<String>)
    ensures
        r.deep_view() == v.deep_view(),
{
    copy_strings(v)
}

/// Copies a vector of error records.
pub(crate) fn copy_error_vec(v: &Vec<crate::error::BuildError>) -> (r: Vec<
    crate::error::BuildError,
>)
    ensures
        r@ == v@,
{
    copy_scalar_vec(v)
}

impl Program {
    /// An independently owned copy of this program with the same model.
    pub fn snapshot(&self) -> (r: Program)
        ensures
            r@ == self@,
    {
        let r = Program {
            types: copy_scalar_vec(&self.types),
            sigs: copy_scalar_vec(&self.sigs),
            fields: copy_scalar_vec(&self.fields),
            structs: copy_scalar_vec(&self.structs),
            unions: copy_scalar_vec(&self.unions),
            funcs: copy_scalar_vec(&self.funcs),
            params: copy_scalar_vec(&self.params),
            values: copy_scalar_vec(&self.values),
            value_locs: copy_scalar_vec(&self.value_locs),
            blocks: copy_scalar_vec(&self.blocks),
            stmts: copy_scalar_vec(&self.stmts),
            cases: copy_scalar_vec(&self.cases),
            locs: copy_scalar_vec(&self.locs),
            asms: copy_scalar_vec(&self.asms),
            asm_ops: copy_scalar_vec(&self.asm_ops),
            strings: copy_strings(&self.strings),
            arglists: copy_arglists(&self.arglists),
            toplevel_asm: copy_scalar_vec(&self.toplevel_asm),
        };
        proof {
            assert(r@ =~~= self@);
        }
        r
    }
}

} // verus!
