//! The context: sole factory and owner of all IR memory, and the driver
//! of compilation.

use vstd::prelude::*;

use crate::error::BuildError;
use crate::ir::{ProgV, Program, TypeDesc, PrimKind, ValueData, FieldData, LocData, prog_wf,
    type_wf, value_wf, arglist_lt, types_acyclic, values_acyclic};
use crate::types::{Type, Typeable};
use crate::field::Field;
use crate::location::Location;
use crate::parameter::Parameter;
use crate::function::{Function, FunctionType};
use crate::ir::ParamData;
use crate::ir::FunctionData;
use crate::ir::{CaseData, StructData, UnionData, SigData};
use crate::structs::Struct;
use crate::block::{Block, BinaryOp, UnaryOp, ComparisonOp};
use crate::lvalue::LValue;
use crate::rvalue::{RValue, ToRValue};
use crate::object::{Object, ObjectKind, ToObject};

verus! {

/// The linkage kind of a global variable.
#[derive(Clone, Copy, PartialEq, Eq, Structural, Debug)]
pub enum GlobalKind {
    /// Defined here and retrievable by name after compilation.
    Exported,
    /// Defined here but visible only to compiled code.
    Internal,
    /// A reference to a variable defined elsewhere.
    Imported,
}

/// How hard the backend is asked to optimize.  The levels are ordered:
/// each adds compile-time cost and potential code quality over the one
/// before it.
#[derive(Clone, Copy, PartialEq, Eq, Structural, Debug)]
pub enum OptimizationLevel {
    /// No optimizations are applied.
    Off,
    /// Optimizes for speed and size without long-running transformations.
    Limited,
    /// All optimizations that do not trade code size for speed.
    Standard,
    /// Everything in `Standard`, plus inlining, loop vectorization, and
    /// some unrolling.
    Aggressive,
}

/// The format `compile_to_file` writes.
#[derive(Clone, Copy, PartialEq, Eq, Structural, Debug)]
pub enum OutputKind {
    /// An assembler file.
    Assembler,
    /// An object file.
    ObjectFile,
    /// A dynamic library.
    DynamicLibrary,
    /// An executable.
    Executable,
}

/// A C-ABI-named primitive type, for types not covered by the generic
/// host-type mapping.
#[derive(Clone, Copy, PartialEq, Eq, Structural, Debug)]
pub enum CType {
    Bool,
    Char,
    UChar,
    SChar,
    Short,
    UShort,
    Int,
    UInt,
    Long,
    ULong,
    LongLong,
    ULongLong,
    SizeT,
}

impl CType {
    /// The primitive kind this C type names.
    pub open spec fn prim_kind_spec(self) -> PrimKind {
        match self {
            CType::Bool => PrimKind::Bool,
            CType::Char => PrimKind::Char,
            CType::UChar => PrimKind::UChar,
            CType::SChar => PrimKind::SChar,
            CType::Short => PrimKind::Short,
            CType::UShort => PrimKind::UShort,
            CType::Int => PrimKind::Int,
            CType::UInt => PrimKind::UInt,
            CType::Long => PrimKind::Long,
            CType::ULong => PrimKind::ULong,
            CType::LongLong => PrimKind::LongLong,
            CType::ULongLong => PrimKind::ULongLong,
            CType::SizeT => PrimKind::SizeT,
        }
    }

    /// Maps this C type to the primitive kind it names.
    pub fn prim_kind(self) -> (k: PrimKind)
        ensures
            k == self.prim_kind_spec(),
    {
        match self {
            CType::Bool => PrimKind::Bool,
            CType::Char => PrimKind::Char,
            CType::UChar => PrimKind::UChar,
            CType::SChar => PrimKind::SChar,
            CType::Short => PrimKind::Short,
            CType::UShort => PrimKind::UShort,
            CType::Int => PrimKind::Int,
            CType::UInt => PrimKind::UInt,
            CType::Long => PrimKind::Long,
            CType::ULong => PrimKind::ULong,
            CType::LongLong => PrimKind::LongLong,
            CType::ULongLong => PrimKind::ULongLong,
            CType::SizeT => PrimKind::SizeT,
        }
    }
}

/// One range of a switch terminator: a handle into the owning context's
/// case arena.
#[derive(Clone, Copy, PartialEq, Eq, Structural, Debug)]
pub struct Case {
    pub idx: usize,
}

impl ToObject for Case {
    fn to_object(&self) -> Object {
        Object { kind: ObjectKind::Cs, idx: self.idx }
    }
}

impl Case {
    /// This handle points into `pv`'s case arena.
    pub open spec fn valid(self, pv: ProgV) -> bool {
        self.idx < pv.cases.len()
    }
}

/// The mathematical model of a [`Context`]: the program model plus the
/// option set and the error log.
#[verifier::ext_equal]
pub struct CtxV {
    pub prog: ProgV,
    pub opt_level: OptimizationLevel,
    pub debug_info: bool,
    pub keep_intermediates: bool,
    pub dump_everything: bool,
    pub dump_initial_gimple: bool,
    pub dump_code_on_compile: bool,
    pub program_name: Option<Seq<char>>,
    pub command_line_options: Seq<Seq<char>>,
    pub driver_options: Seq<Seq<char>>,
    pub errors: Seq<BuildError>,
}

/// The top-level owner of all IR memory; the factory for every other
/// entity; the holder of the compiler option set; the producer of
/// compile results.
pub struct Context {
    pub program: Program,
    pub opt_level: OptimizationLevel,
    pub debug_info: bool,
    pub keep_intermediates: bool,
    pub dump_everything: bool,
    pub dump_initial_gimple: bool,
    pub dump_code_on_compile: bool,
    pub program_name: Option<String>,
    pub command_line_options: Vec<String>,
    pub driver_options: Vec<String>,
    pub errors: Vec<BuildError>,
}

impl View for Context {
    type V = CtxV;

    open spec fn view(&self) -> CtxV {
        CtxV {
            prog: self.program@,
            opt_level: self.opt_level,
            debug_info: self.debug_info,
            keep_intermediates: self.keep_intermediates,
            dump_everything: self.dump_everything,
            dump_initial_gimple: self.dump_initial_gimple,
            dump_code_on_compile: self.dump_code_on_compile,
            program_name: match self.program_name {
                Option::Some(ref s) => Option::Some(s@),
                Option::None => Option::None,
            },
            command_line_options: self.command_line_options.deep_view(),
            driver_options: self.driver_options.deep_view(),
            errors: self.errors@,
        }
    }
}

/// The first index in `types`, at or after `i`, whose record equals `d`.
pub open spec fn find_type_from(types: Seq<TypeDesc>, d: TypeDesc, i: int) -> Option<int>
    decreases types.len() - i when 0 <= i <= types.len()
{
    if i >= types.len() {
        Option::None
    } else if types[i] == d {
        Option::Some(i)
    } else {
        find_type_from(types, d, i + 1)
    }
}

/// Scanning from the start finds the same record as scanning from `k`,
/// as long as nothing before `k` matches.
pub proof fn lemma_find_type_from(types: Seq<TypeDesc>, d: TypeDesc, k: int)
    requires
        0 <= k <= types.len(),
        forall|j: int| 0 <= j < k ==> types[j] != d,
    ensures
        find_type_from(types, d, 0) == find_type_from(types, d, k),
    decreases k,
{
    if k > 0 {
        lemma_find_type_from(types, d, k - 1);
        assert(find_type_from(types, d, k - 1) == find_type_from(types, d, k));
    }
}

/// Finding or creating the type record `d` in `pv`: the program after
/// the operation and the index of the record.  If an equal record exists
/// the program is unchanged and the first such index is returned; else
/// the record is appended.
pub open spec fn intern_type_spec(pv: ProgV, d: TypeDesc) -> (ProgV, usize) {
    match find_type_from(pv.types, d, 0) {
        Option::Some(i) => (pv, i as usize),
        Option::None => (ProgV { types: pv.types.push(d), ..pv }, pv.types.len() as usize),
    }
}

/// Interning is idempotent: interning `d` a second time, in the program
/// the first interning produced, returns the same type index and leaves
/// the program unchanged.  This is the derivation-identity law: deriving
/// the same type twice yields the same derived type.
pub proof fn lemma_intern_idempotent(pv: ProgV, d: TypeDesc)
    ensures
        intern_type_spec(intern_type_spec(pv, d).0, d) == intern_type_spec(pv, d),
{
    let r1 = intern_type_spec(pv, d);
    match find_type_from(pv.types, d, 0) {
        Option::Some(i) => {
            assert(intern_type_spec(r1.0, d) == r1);
        },
        Option::None => {
            let n = pv.types.len() as int;
            let types2 = pv.types.push(d);
            assert(forall|j: int| 0 <= j < n ==> types2[j] == pv.types[j]);
            assert forall|j: int| 0 <= j < n implies types2[j] != d by {
                lemma_find_none(pv.types, d, j);
            }
            lemma_find_type_from(types2, d, n);
            assert(types2[n] == d);
            assert(find_type_from(types2, d, n) == Option::Some(n));
        },
    }
}

/// If scanning from the start finds nothing, no index matches.
pub proof fn lemma_find_none(types: Seq<TypeDesc>, d: TypeDesc, j: int)
    requires
        find_type_from(types, d, 0) is None,
        0 <= j < types.len(),
    ensures
        types[j] != d,
{
    lemma_find_none_from(types, d, 0, j);
}

proof fn lemma_find_none_from(types: Seq<TypeDesc>, d: TypeDesc, i: int, j: int)
    requires
        0 <= i <= j < types.len(),
        find_type_from(types, d, i) is None,
    ensures
        types[j] != d,
    decreases j - i,
{
    if i < j {
        lemma_find_none_from(types, d, i + 1, j);
    }
}

/// Well-formedness survives extending the arenas, as long as existing
/// records are untouched and each new record respects the back-reference
/// discipline.
pub proof fn lemma_wf_extend(a: ProgV, b: ProgV)
    requires
        prog_wf(a),
        a.values.len() <= b.values.len(),
        forall|i: int| 0 <= i < a.values.len() ==> b.values[i] == a.values[i],
        a.types.len() <= b.types.len(),
        forall|i: int| 0 <= i < a.types.len() ==> b.types[i] == a.types[i],
        a.params.len() <= b.params.len(),
        forall|i: int| 0 <= i < a.params.len() ==> b.params[i] == a.params[i],
        a.arglists.len() <= b.arglists.len(),
        forall|i: int| 0 <= i < a.arglists.len() ==> b.arglists[i] == a.arglists[i],
        a.funcs.len() <= b.funcs.len(),
        forall|i: int| 0 <= i < a.funcs.len() ==> b.funcs[i] == a.funcs[i],
        a.structs.len() <= b.structs.len(),
        a.unions.len() <= b.unions.len(),
        a.sigs.len() <= b.sigs.len(),
        forall|i: int| 0 <= i < a.sigs.len() ==> b.sigs[i] == a.sigs[i],
        a.blocks.len() <= b.blocks.len(),
        forall|i: int| 0 <= i < a.blocks.len() ==> b.blocks[i].func == a.blocks[i].func,
        b.value_locs.len() == b.values.len(),
        forall|i: int| a.values.len() <= i < b.values.len() ==> #[trigger] value_wf(b, i),
        forall|i: int| a.types.len() <= i < b.types.len() ==> #[trigger] type_wf(b, i),
        forall|p: int| a.params.len() <= p < b.params.len()
            ==> #[trigger] b.params[p].lv < b.values.len(),
        forall|f: int| a.funcs.len() <= f < b.funcs.len() ==> #[trigger] crate::ir::func_wf(b, f),
        forall|i: int| a.blocks.len() <= i < b.blocks.len()
            ==> #[trigger] b.blocks[i].func < b.funcs.len(),
    ensures
        prog_wf(b),
{
    assert forall|i: int| 0 <= i < b.values.len() implies #[trigger] value_wf(b, i) by {
        if i < a.values.len() {
            assert(value_wf(a, i));
            assert(b.values[i] == a.values[i]);
            match a.values[i] {
                crate::ir::ValueData::VecConst { elems, .. } => {
                    assert(b.arglists[elems as int] == a.arglists[elems as int]);
                },
                crate::ir::ValueData::ParamVal { p, .. } => {
                    assert(b.params[p as int] == a.params[p as int]);
                },
                crate::ir::ValueData::CallFn { args, .. } => {
                    assert(b.arglists[args as int] == a.arglists[args as int]);
                },
                crate::ir::ValueData::CallPtr { args, .. } => {
                    assert(b.arglists[args as int] == a.arglists[args as int]);
                },
                _ => {},
            }
        }
    }
    assert forall|i: int| 0 <= i < b.types.len() implies #[trigger] type_wf(b, i) by {
        if i < a.types.len() {
            assert(type_wf(a, i));
            assert(b.types[i] == a.types[i]);
            match a.types[i] {
                TypeDesc::FnPtr { sig } => {
                    assert(b.sigs[sig as int] == a.sigs[sig as int]);
                },
                _ => {},
            }
        }
    }
    assert forall|p: int| 0 <= p < b.params.len() implies #[trigger] b.params[p].lv
        < b.values.len() by {
        if p < a.params.len() {
            assert(b.params[p] == a.params[p]);
            assert(a.params[p].lv < a.values.len());
        }
    }
    assert forall|f: int| 0 <= f < b.funcs.len() implies #[trigger] crate::ir::func_wf(b, f) by {
        if f < a.funcs.len() {
            assert(crate::ir::func_wf(a, f));
            assert(b.funcs[f] == a.funcs[f]);
            assert(b.arglists[a.funcs[f].params as int] == a.arglists[a.funcs[f].params as int]);
        }
    }
    assert forall|i: int| 0 <= i < b.blocks.len() implies #[trigger] b.blocks[i].func
        < b.funcs.len() by {
        if i < a.blocks.len() {
            assert(b.blocks[i].func == a.blocks[i].func);
        }
    }
}

impl Context {
    /// The structural invariant every context maintains.
    pub open spec fn wf(&self) -> bool {
        prog_wf(self@.prog)
    }

    /// A fresh, empty context with default options.
    pub fn new() -> (ctx: Context)
        ensures
            ctx.wf(),
            ctx@.prog.types.len() == 0,
            ctx@.prog.values.len() == 0,
            ctx@.prog.funcs.len() == 0,
            ctx@.prog.blocks.len() == 0,
            ctx@.prog.stmts.len() == 0,
            ctx@.prog.structs.len() == 0,
            ctx@.prog.fields.len() == 0,
            ctx@.prog.params.len() == 0,
            ctx@.errors.len() == 0,
            ctx@.opt_level == OptimizationLevel::Off,
            ctx@.debug_info == false,
            ctx@.program_name is None,
    {
        Context {
            program: Program {
                types: Vec::new(),
                sigs: Vec::new(),
                fields: Vec::new(),
                structs: Vec::new(),
                unions: Vec::new(),
                funcs: Vec::new(),
                params: Vec::new(),
                values: Vec::new(),
                value_locs: Vec::new(),
                blocks: Vec::new(),
                stmts: Vec::new(),
                cases: Vec::new(),
                locs: Vec::new(),
                asms: Vec::new(),
                asm_ops: Vec::new(),
                strings: Vec::new(),
                arglists: Vec::new(),
                toplevel_asm: Vec::new(),
            },
            opt_level: OptimizationLevel::Off,
            debug_info: false,
            keep_intermediates: false,
            dump_everything: false,
            dump_initial_gimple: false,
            dump_code_on_compile: false,
            program_name: Option::None,
            command_line_options: Vec::new(),
            driver_options: Vec::new(),
            errors: Vec::new(),
        }
    }

    /// Stores a string in the string arena and returns its index.
    pub(crate) fn add_string(&mut self, s: &str) -> (i: usize)
        requires
            old(self).wf(),
        ensures
            final(self).wf(),
            final(self)@ == (CtxV { prog: crate::ir::push_string(old(self)@.prog, s@), ..old(self)@ }),
            i == old(self)@.prog.strings.len(),
    {
        let i = self.program.strings.len();
        self.program.strings.push(s.to_owned());
        proof {
            assert(self@.prog.strings =~= old(self)@.prog.strings.push(s@));
            assert(self@.prog =~= crate::ir::push_string(old(self)@.prog, s@));
            lemma_wf_extend(old(self)@.prog, self@.prog);
        }
        i
    }

    /// Finds or creates the type record `d` and returns its handle.
    /// Interning keeps derivation identity: asking twice for the same
    /// record yields the same handle.
    #[verifier::loop_isolation(false)]
    pub fn intern_type(&mut self, d: TypeDesc) -> (t: Type)
        requires
            old(self).wf(),
            crate::ir::type_desc_ok(old(self)@.prog, d, old(self)@.prog.types.len() as int),
        ensures
            final(self).wf(),
            final(self)@ == (CtxV { prog: intern_type_spec(old(self)@.prog, d).0, ..old(self)@ }),
            t.idx == intern_type_spec(old(self)@.prog, d).1,
            t.valid(final(self)@.prog),
            t.data(final(self)@.prog) == d,
    {
        let ghost pv0 = self@.prog;
        let n = self.program.types.len();
        let mut i: usize = 0;
        while i < n
            invariant
                *self == *old(self),
                pv0 == self@.prog,
                n == self.program.types.len(),
                i <= n,
                forall|j: int| 0 <= j < i ==> self.program.types@[j] != d,
            decreases n - i,
        {
            if self.program.types[i] == d {
                proof {
                    lemma_find_type_from(pv0.types, d, i as int);
                    assert(find_type_from(pv0.types, d, i as int) == Option::Some(i as int));
                }
                return Type { idx: i };
            }
            i = i + 1;
        }
        proof {
            lemma_find_type_from(pv0.types, d, n as int);
            assert(find_type_from(pv0.types, d, n as int) is None);
        }
        self.program.types.push(d);
        proof {
            assert(self@.prog.types =~= pv0.types.push(d));
            assert(self@.prog =~= intern_type_spec(pv0, d).0);
            assert forall|k: int| pv0.types.len() <= k < self@.prog.types.len()
                implies #[trigger] type_wf(self@.prog, k) by {
                assert(self@.prog.types[k] == d);
            }
            lemma_wf_extend(pv0, self@.prog);
        }
        Type { idx: n }
    }

    /// Builds (or finds) the IR type for the host type `T`.
    pub fn new_type<T: Typeable>(&mut self) -> (t: Type)
        requires
            old(self).wf(),
        ensures
            final(self).wf(),
            final(self)@.prog == intern_type_spec(old(self)@.prog, T::type_desc()).0,
            final(self)@ == (CtxV { prog: final(self)@.prog, ..old(self)@ }),
            t.idx == intern_type_spec(old(self)@.prog, T::type_desc()).1,
            t.valid(final(self)@.prog),
            t.data(final(self)@.prog) == T::type_desc(),
    {
        T::get_type(self)
    }

    /// Builds (or finds) the IR type for a C-ABI-named primitive type.
    pub fn new_c_type(&mut self, c_type: CType) -> (t: Type)
        requires
            old(self).wf(),
        ensures
            final(self).wf(),
            final(self)@ == (CtxV {
                prog: intern_type_spec(old(self)@.prog, TypeDesc::Prim(c_type.prim_kind_spec())).0,
                ..old(self)@
            }),
            t.idx == intern_type_spec(old(self)@.prog, TypeDesc::Prim(c_type.prim_kind_spec())).1,
            t.valid(final(self)@.prog),
            t.data(final(self)@.prog) == TypeDesc::Prim(c_type.prim_kind_spec()),
    {
        let k = c_type.prim_kind();
        self.intern_type(TypeDesc::Prim(k))
    }

    /// Builds (or finds) an integer type of an exact byte width.
    pub fn new_int_type(&mut self, num_bytes: i32, signed: bool) -> (t: Type)
        requires
            old(self).wf(),
        ensures
            final(self).wf(),
            final(self)@ == (CtxV {
                prog: intern_type_spec(
                    old(self)@.prog,
                    TypeDesc::IntWidth { bytes: num_bytes, signed },
                ).0,
                ..old(self)@
            }),
            t.idx == intern_type_spec(
                old(self)@.prog,
                TypeDesc::IntWidth { bytes: num_bytes, signed },
            ).1,
            t.valid(final(self)@.prog),
            t.data(final(self)@.prog) == (TypeDesc::IntWidth { bytes: num_bytes, signed }),
    {
        self.intern_type(TypeDesc::IntWidth { bytes: num_bytes, signed })
    }
}

impl Context {
    /// Appends one value record (with its source tag) and returns its
    /// index.
    pub(crate) fn push_value_rec(&mut self, d: ValueData, loc: Option<usize>) -> (i: usize)
        requires
            old(self).wf(),
            crate::ir::value_children_lt(
                old(self)@.prog,
                d,
                old(self)@.prog.values.len() as int,
            ),
        ensures
            final(self).wf(),
            final(self)@ == (CtxV {
                prog: crate::ir::push_value(old(self)@.prog, d, loc),
                ..old(self)@
            }),
            i == old(self)@.prog.values.len(),
    {
        let i = self.program.values.len();
        self.program.values.push(d);
        self.program.value_locs.push(loc);
        proof {
            assert(self@.prog =~= crate::ir::push_value(old(self)@.prog, d, loc));
            assert forall|k: int| old(self)@.prog.values.len() <= k < self@.prog.values.len()
                implies #[trigger] value_wf(self@.prog, k) by {
                assert(self@.prog.values[k] == d);
            }
            lemma_wf_extend(old(self)@.prog, self@.prog);
        }
        i
    }

    /// Appends one argument list and returns its index.
    pub(crate) fn push_arglist_rec(&mut self, al: Vec<usize>) -> (i: usize)
        requires
            old(self).wf(),
        ensures
            final(self).wf(),
            final(self)@ == (CtxV {
                prog: crate::ir::push_arglist(old(self)@.prog, al@),
                ..old(self)@
            }),
            i == old(self)@.prog.arglists.len(),
    {
        let i = self.program.arglists.len();
        self.program.arglists.push(al);
        proof {
            assert(self@.prog.arglists =~~= old(self)@.prog.arglists.push(al@));
            assert(self@.prog =~~= crate::ir::push_arglist(old(self)@.prog, al@));
            lemma_wf_extend(old(self)@.prog, self@.prog);
        }
        i
    }

    /// Appends one error to the context's error log.
    pub(crate) fn log_error(&mut self, e: BuildError)
        ensures
            final(self)@ == (CtxV { errors: old(self)@.errors.push(e), ..old(self)@ }),
    {
        self.errors.push(e);
    }

    /// Sets the program name the backend reports.
    pub fn set_program_name(&mut self, name: &str)
        ensures
            final(self)@ == (CtxV {
                program_name: Option::Some(name@),
                ..old(self)@
            }),
    {
        self.program_name = Option::Some(name.to_owned());
    }

    /// Passes one command-line option through to the backend.
    pub fn add_command_line_option(&mut self, name: &str)
        ensures
            final(self)@ == (CtxV {
                command_line_options: old(self)@.command_line_options.push(name@),
                ..old(self)@
            }),
    {
        self.command_line_options.push(name.to_owned());
        proof {
            assert(self@.command_line_options =~~= old(
                self,
            )@.command_line_options.push(name@));
        }
    }

    /// Passes one driver option through to the backend.
    pub fn add_driver_option(&mut self, name: &str)
        ensures
            final(self)@ == (CtxV {
                driver_options: old(self)@.driver_options.push(name@),
                ..old(self)@
            }),
    {
        self.driver_options.push(name.to_owned());
        proof {
            assert(self@.driver_options =~~= old(self)@.driver_options.push(name@));
        }
    }

    /// Sets how hard the backend optimizes; higher levels take longer.
    pub fn set_optimization_level(&mut self, level: OptimizationLevel)
        ensures
            final(self)@ == (CtxV { opt_level: level, ..old(self)@ }),
    {
        self.opt_level = level;
    }

    /// Switches debug-information generation on or off.
    pub fn set_debug_info(&mut self, value: bool)
        ensures
            final(self)@ == (CtxV { debug_info: value, ..old(self)@ }),
    {
        self.debug_info = value;
    }

    /// Keeps the backend's intermediate files around when set.
    pub fn set_keep_intermediates(&mut self, value: bool)
        ensures
            final(self)@ == (CtxV { keep_intermediates: value, ..old(self)@ }),
    {
        self.keep_intermediates = value;
    }

    /// Switches every backend dump on when set.
    pub fn set_dump_everything(&mut self, value: bool)
        ensures
            final(self)@ == (CtxV { dump_everything: value, ..old(self)@ }),
    {
        self.dump_everything = value;
    }

    /// Dumps the backend's initial internal form when set.
    pub fn set_dump_initial_gimple(&mut self, value: bool)
        ensures
            final(self)@ == (CtxV { dump_initial_gimple: value, ..old(self)@ }),
    {
        self.dump_initial_gimple = value;
    }

    /// Dumps the generated code during compilation when set.
    pub fn set_dump_code_on_compile(&mut self, value: bool)
        ensures
            final(self)@ == (CtxV { dump_code_on_compile: value, ..old(self)@ }),
    {
        self.dump_code_on_compile = value;
    }

    /// The oldest diagnostic recorded for this context, or nothing if no
    /// construction call has failed.
    pub fn get_first_error(&self) -> (r: Option<String>)
        ensures
            match r {
                Option::Some(s) => self@.errors.len() > 0 && s@ == self@.errors[0].message_spec(),
                Option::None => self@.errors.len() == 0,
            },
    {
        if self.errors.len() == 0 {
            Option::None
        } else {
            Option::Some(self.errors[0].message())
        }
    }

    /// The newest diagnostic recorded for this context, or nothing if no
    /// construction call has failed.
    pub fn get_last_error(&self) -> (r: Option<String>)
        ensures
            match r {
                Option::Some(s) => self@.errors.len() > 0 && s@ == self@.errors[
                    self@.errors.len() - 1
                ].message_spec(),
                Option::None => self@.errors.len() == 0,
            },
    {
        if self.errors.len() == 0 {
            Option::None
        } else {
            Option::Some(self.errors[self.errors.len() - 1].message())
        }
    }

    /// Creates a source position for debugger correspondence.
    pub fn new_location(&mut self, filename: &str, line: i32, col: i32) -> (l: Location)
        requires
            old(self).wf(),
        ensures
            final(self).wf(),
            final(self)@ == (CtxV {
                prog: crate::ir::push_loc(
                    crate::ir::push_string(old(self)@.prog, filename@),
                    LocData {
                        file: old(self)@.prog.strings.len() as usize,
                        line,
                        col,
                    },
                ),
                ..old(self)@
            }),
            l.idx == old(self)@.prog.locs.len(),
            l.valid(final(self)@.prog),
            l.data(final(self)@.prog) == (LocData {
                file: old(self)@.prog.strings.len() as usize,
                line,
                col,
            }),
    {
        let file = self.add_string(filename);
        let i = self.program.locs.len();
        self.program.locs.push(LocData { file, line, col });
        proof {
            assert(self@.prog =~= crate::ir::push_loc(
                crate::ir::push_string(old(self)@.prog, filename@),
                LocData { file: old(self)@.prog.strings.len() as usize, line, col },
            ));
            lemma_wf_extend(old(self)@.prog, self@.prog);
        }
        Location { idx: i }
    }

    /// Creates a field with an optional source location, a type, and a
    /// name, for composing struct and union types.
    pub fn new_field(&mut self, loc: Option<Location>, ty: Type, name: &str) -> (f: Field)
        requires
            old(self).wf(),
            ty.valid(old(self)@.prog),
        ensures
            final(self).wf(),
            final(self)@ == (CtxV {
                prog: crate::ir::push_field_rec(
                    crate::ir::push_string(old(self)@.prog, name@),
                    FieldData {
                        ty: ty.idx,
                        name: old(self)@.prog.strings.len() as usize,
                        loc: crate::location::loc_idx(loc),
                        used: false,
                    },
                ),
                ..old(self)@
            }),
            f.idx == old(self)@.prog.fields.len(),
            f.valid(final(self)@.prog),
            f.data(final(self)@.prog) == (FieldData {
                ty: ty.idx,
                name: old(self)@.prog.strings.len() as usize,
                loc: crate::location::loc_idx(loc),
                used: false,
            }),
    {
        let name_idx = self.add_string(name);
        let loc_i = crate::location::opt_loc_idx(loc);
        let i = self.program.fields.len();
        self.program.fields.push(FieldData { ty: ty.idx, name: name_idx, loc: loc_i, used: false });
        proof {
            assert(self@.prog =~= crate::ir::push_field_rec(
                crate::ir::push_string(old(self)@.prog, name@),
                FieldData {
                    ty: ty.idx,
                    name: old(self)@.prog.strings.len() as usize,
                    loc: crate::location::loc_idx(loc),
                    used: false,
                },
            ));
            lemma_wf_extend(old(self)@.prog, self@.prog);
        }
        Field { idx: i }
    }
}

impl Context {
    /// The program after `new_parameter`: the name string, the storage
    /// slot, the value read, and the parameter record are appended.
    pub open spec fn new_parameter_spec(
        pv: ProgV,
        ty: usize,
        name: Seq<char>,
        loc: Option<usize>,
    ) -> ProgV {
        let p = pv.params.len() as usize;
        let lv = pv.values.len() as usize;
        let rv = (pv.values.len() + 1) as usize;
        let pv1 = crate::ir::push_string(pv, name);
        let pv2 = crate::ir::push_value(pv1, ValueData::ParamSlot { p, ty }, loc);
        let pv3 = crate::ir::push_value(pv2, ValueData::ParamVal { p, ty }, loc);
        crate::ir::push_param_rec(pv3, ParamData {
            ty,
            name: pv.strings.len() as usize,
            rv,
            lv,
            loc,
        })
    }

    /// Creates a parameter with a type, a name, and an optional source
    /// location.  The parameter can be read as a value and used as a
    /// place once the function holding it is built.
    pub fn new_parameter(&mut self, loc: Option<Location>, ty: Type, name: &str) -> (prm:
        Parameter)
        requires
            old(self).wf(),
            ty.valid(old(self)@.prog),
            crate::location::loc_valid(loc, old(self)@.prog),
        ensures
            final(self).wf(),
            final(self)@ == (CtxV {
                prog: Context::new_parameter_spec(
                    old(self)@.prog,
                    ty.idx,
                    name@,
                    crate::location::loc_idx(loc),
                ),
                ..old(self)@
            }),
            prm.idx == old(self)@.prog.params.len(),
            prm.lv == old(self)@.prog.values.len(),
            prm.rv == old(self)@.prog.values.len() + 1,
            prm.valid(final(self)@.prog),
            prm.data(final(self)@.prog).ty == ty.idx,
    {
        let name_idx = self.add_string(name);
        let loc_i = crate::location::opt_loc_idx(loc);
        let p = self.program.params.len();
        let lv = self.program.values.len();
        self.program.values.push(ValueData::ParamSlot { p, ty: ty.idx });
        self.program.value_locs.push(loc_i);
        let rv = self.program.values.len();
        self.program.values.push(ValueData::ParamVal { p, ty: ty.idx });
        self.program.value_locs.push(loc_i);
        self.program.params.push(ParamData { ty: ty.idx, name: name_idx, rv, lv, loc: loc_i });
        proof {
            assert(self@.prog =~= Context::new_parameter_spec(
                old(self)@.prog,
                ty.idx,
                name@,
                crate::location::loc_idx(loc),
            ));
            let a = old(self)@.prog;
            let b = self@.prog;
            assert forall|k: int| a.values.len() <= k < b.values.len()
                implies #[trigger] value_wf(b, k) by {
                if k == a.values.len() {
                    assert(b.values[k] == (ValueData::ParamSlot { p, ty: ty.idx }));
                } else {
                    assert(b.values[k] == (ValueData::ParamVal { p, ty: ty.idx }));
                    assert(b.params[p as int].lv == lv);
                }
            }
            lemma_wf_extend(a, b);
        }
        Parameter { idx: p, rv, lv }
    }

    /// The program after `new_function`: the name string, the parameter
    /// list, and the function record are appended.
    pub open spec fn new_function_spec(
        pv: ProgV,
        kind: FunctionType,
        ret: usize,
        param_idxs: Seq<usize>,
        name: Seq<char>,
        variadic: bool,
        loc: Option<usize>,
    ) -> ProgV {
        let pv1 = crate::ir::push_string(pv, name);
        let pv2 = crate::ir::push_arglist(pv1, param_idxs);
        crate::ir::push_func_rec(pv2, FunctionData {
            kind,
            ret,
            params: pv.arglists.len() as usize,
            name: pv.strings.len() as usize,
            variadic,
            loc,
        })
    }

    /// Registers a function with a kind, a return type, parameters, a
    /// name, and a variadic flag.
    pub fn new_function(
        &mut self,
        loc: Option<Location>,
        kind: FunctionType,
        return_ty: Type,
        params: &[Parameter],
        name: &str,
        is_variadic: bool,
    ) -> (f: Function)
        requires
            old(self).wf(),
            return_ty.valid(old(self)@.prog),
            forall|j: int| 0 <= j < params@.len() ==> (#[trigger] params@[j]).valid(
                old(self)@.prog,
            ),
            crate::location::loc_valid(loc, old(self)@.prog),
        ensures
            final(self).wf(),
            final(self)@ == (CtxV {
                prog: Context::new_function_spec(
                    old(self)@.prog,
                    kind,
                    return_ty.idx,
                    params@.map_values(|prm: Parameter| prm.idx),
                    name@,
                    is_variadic,
                    crate::location::loc_idx(loc),
                ),
                ..old(self)@
            }),
            f.idx == old(self)@.prog.funcs.len(),
            f.valid(final(self)@.prog),
            f.data(final(self)@.prog).kind == kind,
            f.data(final(self)@.prog).ret == return_ty.idx,
            f.data(final(self)@.prog).variadic == is_variadic,
            f.param_list(final(self)@.prog) == params@.map_values(|prm: Parameter| prm.idx),
            forall|j: int| 0 <= j < params@.len() ==> crate::function::param_ok(
                final(self)@.prog,
                (#[trigger] params@[j]).idx as int,
            ),
    {
        let name_idx = self.add_string(name);
        let loc_i = crate::location::opt_loc_idx(loc);
        let mut pidxs: Vec<usize> = Vec::new();
        let mut j: usize = 0;
        while j < params.len()
            invariant
                j <= params.len(),
                pidxs@ == params@.take(j as int).map_values(|prm: Parameter| prm.idx),
            decreases params.len() - j,
        {
            pidxs.push(params[j].idx);
            proof {
                assert(params@.take(j + 1) =~= params@.take(j as int).push(params@[j as int]));
                assert(pidxs@ =~= params@.take(j + 1).map_values(|prm: Parameter| prm.idx));
            }
            j = j + 1;
        }
        proof {
            assert(params@.take(params@.len() as int) =~= params@);
        }
        let al = self.push_arglist_rec(pidxs);
        let i = self.program.funcs.len();
        self.program.funcs.push(FunctionData {
            kind,
            ret: return_ty.idx,
            params: al,
            name: name_idx,
            variadic: is_variadic,
            loc: loc_i,
        });
        proof {
            assert(self@.prog =~= Context::new_function_spec(
                old(self)@.prog,
                kind,
                return_ty.idx,
                params@.map_values(|prm: Parameter| prm.idx),
                name@,
                is_variadic,
                crate::location::loc_idx(loc),
            ));
            lemma_wf_extend(old(self)@.prog, self@.prog);
            assert forall|k: int| 0 <= k < params@.len() implies crate::function::param_ok(
                self@.prog,
                (#[trigger] params@[k]).idx as int,
            ) by {
                assert(params@[k].valid(old(self)@.prog));
            }
        }
        Function { idx: i }
    }
}

/// The result type of a call through a function-pointer value whose
/// type record is at `fp_ty`: the signature's return type where the
/// shape is known, else `fp_ty` itself.
pub open spec fn call_ptr_ret_ty(pv: ProgV, fp_ty: usize) -> usize {
    if fp_ty < pv.types.len() {
        match pv.types[fp_ty as int] {
            TypeDesc::FnPtr { sig } => if sig < pv.sigs.len() {
                pv.sigs[sig as int].ret
            } else {
                fp_ty
            },
            _ => fp_ty,
        }
    } else {
        fp_ty
    }
}

/// The element type of an array, pointer, or vector type record at `t`,
/// or `t` itself where the shape gives none.
pub open spec fn element_ty_of(pv: ProgV, t: usize) -> usize {
    if t < pv.types.len() {
        match pv.types[t as int] {
            TypeDesc::ArrayOf { elem, .. } => elem,
            TypeDesc::Pointer { pointee } => pointee,
            TypeDesc::VectorOf { elem, .. } => elem,
            _ => t,
        }
    } else {
        t
    }
}

impl Context {
    /// Appends one place record and its load record, returning the two
    /// indices.
    pub(crate) fn push_place_rec(&mut self, d: ValueData, loc: Option<usize>) -> (r: (
        usize,
        usize,
    ))
        requires
            old(self).wf(),
            crate::ir::value_children_lt(
                old(self)@.prog,
                d,
                old(self)@.prog.values.len() as int,
            ),
            !(d is Load),
        ensures
            final(self).wf(),
            final(self)@ == (CtxV {
                prog: crate::ir::push_place(old(self)@.prog, d, loc),
                ..old(self)@
            }),
            r.0 == old(self)@.prog.values.len(),
            r.1 == old(self)@.prog.values.len() + 1,
            (LValue { idx: r.0, load: r.1 }).valid(final(self)@.prog),
            (LValue { idx: r.0, load: r.1 }).data(final(self)@.prog) == d,
    {
        let lv = self.program.values.len();
        let tyv = d.get_stored_ty();
        self.program.values.push(d);
        self.program.value_locs.push(loc);
        let ld = self.program.values.len();
        self.program.values.push(ValueData::Load { l: lv, ty: tyv });
        self.program.value_locs.push(loc);
        proof {
            assert(self@.prog =~= crate::ir::push_place(old(self)@.prog, d, loc));
            let a = old(self)@.prog;
            let b = self@.prog;
            assert forall|k: int| a.values.len() <= k < b.values.len()
                implies #[trigger] value_wf(b, k) by {
                if k == a.values.len() {
                    assert(b.values[k] == d);
                } else {
                    assert(b.values[k] == (ValueData::Load { l: lv, ty: tyv }));
                }
            }
            lemma_wf_extend(a, b);
        }
        (lv, ld)
    }

    /// Creates a binary operation between two values, with an explicit
    /// result type.
    pub fn new_binary_op<L: ToRValue, R: ToRValue>(
        &mut self,
        loc: Option<Location>,
        op: BinaryOp,
        ty: Type,
        left: L,
        right: R,
    ) -> (r: RValue)
        requires
            old(self).wf(),
            ty.valid(old(self)@.prog),
            left.rv_idx() < old(self)@.prog.values.len(),
            right.rv_idx() < old(self)@.prog.values.len(),
            crate::location::loc_valid(loc, old(self)@.prog),
        ensures
            final(self).wf(),
            final(self)@ == (CtxV {
                prog: crate::ir::push_value(
                    old(self)@.prog,
                    ValueData::Binary {
                        op,
                        ty: ty.idx,
                        lhs: left.rv_idx(),
                        rhs: right.rv_idx(),
                    },
                    crate::location::loc_idx(loc),
                ),
                ..old(self)@
            }),
            r.idx == old(self)@.prog.values.len(),
            r.valid(final(self)@.prog),
            r.data(final(self)@.prog) == (ValueData::Binary {
                op,
                ty: ty.idx,
                lhs: left.rv_idx(),
                rhs: right.rv_idx(),
            }),
    {
        let l = left.to_rvalue();
        let rr = right.to_rvalue();
        let loc_i = crate::location::opt_loc_idx(loc);
        let i = self.push_value_rec(ValueData::Binary {
            op,
            ty: ty.idx,
            lhs: l.idx,
            rhs: rr.idx,
        }, loc_i);
        RValue { idx: i }
    }

    /// Creates a unary operation on one value, with an explicit result
    /// type.
    pub fn new_unary_op<T: ToRValue>(
        &mut self,
        loc: Option<Location>,
        op: UnaryOp,
        ty: Type,
        target: T,
    ) -> (r: RValue)
        requires
            old(self).wf(),
            ty.valid(old(self)@.prog),
            target.rv_idx() < old(self)@.prog.values.len(),
            crate::location::loc_valid(loc, old(self)@.prog),
        ensures
            final(self).wf(),
            final(self)@ == (CtxV {
                prog: crate::ir::push_value(
                    old(self)@.prog,
                    ValueData::Unary { op, ty: ty.idx, v: target.rv_idx() },
                    crate::location::loc_idx(loc),
                ),
                ..old(self)@
            }),
            r.idx == old(self)@.prog.values.len(),
            r.valid(final(self)@.prog),
            r.data(final(self)@.prog) == (ValueData::Unary {
                op,
                ty: ty.idx,
                v: target.rv_idx(),
            }),
    {
        let t = target.to_rvalue();
        let loc_i = crate::location::opt_loc_idx(loc);
        let i = self.push_value_rec(ValueData::Unary { op, ty: ty.idx, v: t.idx }, loc_i);
        RValue { idx: i }
    }

    /// Creates a comparison of two values.  Its result type is the
    /// boolean type, interned on demand.
    pub fn new_comparison<L: ToRValue, R: ToRValue>(
        &mut self,
        loc: Option<Location>,
        op: ComparisonOp,
        left: L,
        right: R,
    ) -> (r: RValue)
        requires
            old(self).wf(),
            left.rv_idx() < old(self)@.prog.values.len(),
            right.rv_idx() < old(self)@.prog.values.len(),
            crate::location::loc_valid(loc, old(self)@.prog),
        ensures
            final(self).wf(),
            final(self)@ == (CtxV {
                prog: crate::ir::push_value(
                    intern_type_spec(old(self)@.prog, TypeDesc::Prim(PrimKind::Bool)).0,
                    ValueData::Compare {
                        op,
                        ty: intern_type_spec(old(self)@.prog, TypeDesc::Prim(PrimKind::Bool)).1,
                        lhs: left.rv_idx(),
                        rhs: right.rv_idx(),
                    },
                    crate::location::loc_idx(loc),
                ),
                ..old(self)@
            }),
            r.idx == old(self)@.prog.values.len(),
            r.valid(final(self)@.prog),
            r.data(final(self)@.prog) == (ValueData::Compare {
                op,
                ty: intern_type_spec(old(self)@.prog, TypeDesc::Prim(PrimKind::Bool)).1,
                lhs: left.rv_idx(),
                rhs: right.rv_idx(),
            }),
    {
        let l = left.to_rvalue();
        let rr = right.to_rvalue();
        let loc_i = crate::location::opt_loc_idx(loc);
        let bool_ty = self.intern_type(TypeDesc::Prim(PrimKind::Bool));
        let i = self.push_value_rec(ValueData::Compare {
            op,
            ty: bool_ty.idx,
            lhs: l.idx,
            rhs: rr.idx,
        }, loc_i);
        RValue { idx: i }
    }

    /// Creates a direct call of `func`.  The call is rejected, and
    /// logged, if the argument count differs from the function's
    /// parameter count.
    pub fn new_call(&mut self, loc: Option<Location>, func: Function, args: &[RValue]) -> (r:
        Result<RValue, BuildError>)
        requires
            old(self).wf(),
            func.valid(old(self)@.prog),
            forall|j: int| 0 <= j < args@.len() ==> (#[trigger] args@[j]).valid(old(self)@.prog),
            crate::location::loc_valid(loc, old(self)@.prog),
        ensures
            final(self).wf(),
            match r {
                Result::Ok(rv) => {
                    &&& args@.len() == func.param_list(old(self)@.prog).len()
                    &&& final(self)@ == (CtxV {
                        prog: crate::ir::push_value(
                            crate::ir::push_arglist(
                                old(self)@.prog,
                                args@.map_values(|a: RValue| a.idx),
                            ),
                            ValueData::CallFn {
                                f: func.idx,
                                ty: func.data(old(self)@.prog).ret,
                                args: old(self)@.prog.arglists.len() as usize,
                            },
                            crate::location::loc_idx(loc),
                        ),
                        ..old(self)@
                    })
                    &&& rv.idx == old(self)@.prog.values.len()
                    &&& rv.valid(final(self)@.prog)
                    &&& rv.data(final(self)@.prog) == (ValueData::CallFn {
                        f: func.idx,
                        ty: func.data(old(self)@.prog).ret,
                        args: old(self)@.prog.arglists.len() as usize,
                    })
                },
                Result::Err(e) => {
                    &&& args@.len() != func.param_list(old(self)@.prog).len()
                    &&& e == BuildError::ArityMismatch
                    &&& final(self)@ == (CtxV {
                        errors: old(self)@.errors.push(BuildError::ArityMismatch),
                        ..old(self)@
                    })
                },
            },
    {
        let al = self.program.funcs[func.idx].params;
        let expect = self.program.arglists[al].len();
        if args.len() != expect {
            self.log_error(BuildError::ArityMismatch);
            return Result::Err(BuildError::ArityMismatch);
        }
        let ret_ty = self.program.funcs[func.idx].ret;
        let mut aidxs: Vec<usize> = Vec::new();
        let mut j: usize = 0;
        while j < args.len()
            invariant
                j <= args.len(),
                aidxs@ == args@.take(j as int).map_values(|a: RValue| a.idx),
            decreases args.len() - j,
        {
            aidxs.push(args[j].idx);
            proof {
                assert(args@.take(j + 1) =~= args@.take(j as int).push(args@[j as int]));
                assert(aidxs@ =~= args@.take(j + 1).map_values(|a: RValue| a.idx));
            }
            j = j + 1;
        }
        proof {
            assert(args@.take(args@.len() as int) =~= args@);
        }
        let alx = self.push_arglist_rec(aidxs);
        let ghost mid = self@.prog;
        let i = self.push_value_rec(ValueData::CallFn { f: func.idx, ty: ret_ty, args: alx },
            crate::location::opt_loc_idx(loc));
        proof {
            assert(crate::ir::arglist_lt(mid, alx, mid.values.len() as int));
        }
        Result::Ok(RValue { idx: i })
    }

    /// Creates an indirect call through a function-pointer value.  The
    /// result type is taken from the pointer's signature where its shape
    /// is known.
    pub fn new_call_through_ptr<F: ToRValue>(
        &mut self,
        loc: Option<Location>,
        fun_ptr: F,
        args: &[RValue],
    ) -> (r: RValue)
        requires
            old(self).wf(),
            fun_ptr.rv_idx() < old(self)@.prog.values.len(),
            forall|j: int| 0 <= j < args@.len() ==> (#[trigger] args@[j]).valid(old(self)@.prog),
            crate::location::loc_valid(loc, old(self)@.prog),
        ensures
            final(self).wf(),
            final(self)@ == (CtxV {
                prog: crate::ir::push_value(
                    crate::ir::push_arglist(
                        old(self)@.prog,
                        args@.map_values(|a: RValue| a.idx),
                    ),
                    ValueData::CallPtr {
                        fp: fun_ptr.rv_idx(),
                        ty: call_ptr_ret_ty(
                            old(self)@.prog,
                            old(self)@.prog.values[fun_ptr.rv_idx() as int].stored_ty(),
                        ),
                        args: old(self)@.prog.arglists.len() as usize,
                    },
                    crate::location::loc_idx(loc),
                ),
                ..old(self)@
            }),
            r.idx == old(self)@.prog.values.len(),
            r.valid(final(self)@.prog),
    {
        let fp = fun_ptr.to_rvalue();
        let fp_ty = self.program.values[fp.idx].get_stored_ty();
        let ret_ty = if fp_ty < self.program.types.len() {
            match self.program.types[fp_ty] {
                TypeDesc::FnPtr { sig } => {
                    if sig < self.program.sigs.len() {
                        self.program.sigs[sig].ret
                    } else {
                        fp_ty
                    }
                },
                _ => fp_ty,
            }
        } else {
            fp_ty
        };
        let mut aidxs: Vec<usize> = Vec::new();
        let mut j: usize = 0;
        while j < args.len()
            invariant
                j <= args.len(),
                aidxs@ == args@.take(j as int).map_values(|a: RValue| a.idx),
            decreases args.len() - j,
        {
            aidxs.push(args[j].idx);
            proof {
                assert(args@.take(j + 1) =~= args@.take(j as int).push(args@[j as int]));
                assert(aidxs@ =~= args@.take(j + 1).map_values(|a: RValue| a.idx));
            }
            j = j + 1;
        }
        proof {
            assert(args@.take(args@.len() as int) =~= args@);
        }
        let alx = self.push_arglist_rec(aidxs);
        let ghost mid = self@.prog;
        let i = self.push_value_rec(ValueData::CallPtr { fp: fp.idx, ty: ret_ty, args: alx },
            crate::location::opt_loc_idx(loc));
        proof {
            assert(crate::ir::arglist_lt(mid, alx, mid.values.len() as int));
        }
        RValue { idx: i }
    }

    /// Converts a value to another type.
    pub fn new_cast<T: ToRValue>(
        &mut self,
        loc: Option<Location>,
        value: T,
        dest_type: Type,
    ) -> (r: RValue)
        requires
            old(self).wf(),
            value.rv_idx() < old(self)@.prog.values.len(),
            dest_type.valid(old(self)@.prog),
            crate::location::loc_valid(loc, old(self)@.prog),
        ensures
            final(self).wf(),
            final(self)@ == (CtxV {
                prog: crate::ir::push_value(
                    old(self)@.prog,
                    ValueData::Cast { v: value.rv_idx(), ty: dest_type.idx },
                    crate::location::loc_idx(loc),
                ),
                ..old(self)@
            }),
            r.idx == old(self)@.prog.values.len(),
            r.valid(final(self)@.prog),
            r.data(final(self)@.prog) == (ValueData::Cast {
                v: value.rv_idx(),
                ty: dest_type.idx,
            }),
    {
        let v = value.to_rvalue();
        let loc_i = crate::location::opt_loc_idx(loc);
        let i = self.push_value_rec(ValueData::Cast { v: v.idx, ty: dest_type.idx }, loc_i);
        RValue { idx: i }
    }

    /// Creates the place `array_ptr[index]`, which can be assigned to or
    /// loaded.
    pub fn new_array_access<A: ToRValue, I: ToRValue>(
        &mut self,
        loc: Option<Location>,
        array_ptr: A,
        index: I,
    ) -> (l: LValue)
        requires
            old(self).wf(),
            array_ptr.rv_idx() < old(self)@.prog.values.len(),
            index.rv_idx() < old(self)@.prog.values.len(),
            crate::location::loc_valid(loc, old(self)@.prog),
        ensures
            final(self).wf(),
            final(self)@ == (CtxV {
                prog: crate::ir::push_place(
                    old(self)@.prog,
                    ValueData::ArrayAt {
                        arr: array_ptr.rv_idx(),
                        index: index.rv_idx(),
                        ty: element_ty_of(
                            old(self)@.prog,
                            old(self)@.prog.values[array_ptr.rv_idx() as int].stored_ty(),
                        ),
                    },
                    crate::location::loc_idx(loc),
                ),
                ..old(self)@
            }),
            l.idx == old(self)@.prog.values.len(),
            l.load == old(self)@.prog.values.len() + 1,
            l.valid(final(self)@.prog),
    {
        let arr = array_ptr.to_rvalue();
        let ix = index.to_rvalue();
        let arr_ty = self.program.values[arr.idx].get_stored_ty();
        let elem_ty = if arr_ty < self.program.types.len() {
            match self.program.types[arr_ty] {
                TypeDesc::ArrayOf { elem, .. } => elem,
                TypeDesc::Pointer { pointee } => pointee,
                TypeDesc::VectorOf { elem, .. } => elem,
                _ => arr_ty,
            }
        } else {
            arr_ty
        };
        let loc_i = crate::location::opt_loc_idx(loc);
        let (lv, ld) = self.push_place_rec(ValueData::ArrayAt {
            arr: arr.idx,
            index: ix.idx,
            ty: elem_ty,
        }, loc_i);
        LValue { idx: lv, load: ld }
    }

    /// Creates an integer literal of the given type from a 64-bit value.
    pub fn new_rvalue_from_long(&mut self, ty: Type, value: i64) -> (r: RValue)
        requires
            old(self).wf(),
            ty.valid(old(self)@.prog),
        ensures
            final(self).wf(),
            final(self)@ == (CtxV {
                prog: crate::ir::push_value(
                    old(self)@.prog,
                    ValueData::IntConst { ty: ty.idx, val: value },
                    Option::None,
                ),
                ..old(self)@
            }),
            r.idx == old(self)@.prog.values.len(),
            r.valid(final(self)@.prog),
            r.data(final(self)@.prog) == (ValueData::IntConst { ty: ty.idx, val: value }),
    {
        let i = self.push_value_rec(ValueData::IntConst { ty: ty.idx, val: value }, Option::None);
        RValue { idx: i }
    }

    /// Creates an integer literal of the given type from a 32-bit value.
    pub fn new_rvalue_from_int(&mut self, ty: Type, value: i32) -> (r: RValue)
        requires
            old(self).wf(),
            ty.valid(old(self)@.prog),
        ensures
            final(self).wf(),
            final(self)@ == (CtxV {
                prog: crate::ir::push_value(
                    old(self)@.prog,
                    ValueData::IntConst { ty: ty.idx, val: value as i64 },
                    Option::None,
                ),
                ..old(self)@
            }),
            r.idx == old(self)@.prog.values.len(),
            r.valid(final(self)@.prog),
            r.data(final(self)@.prog) == (ValueData::IntConst {
                ty: ty.idx,
                val: value as i64,
            }),
    {
        let i = self.push_value_rec(ValueData::IntConst { ty: ty.idx, val: value as i64 },
            Option::None);
        RValue { idx: i }
    }

    /// The zero of the given type.
    pub fn new_rvalue_zero(&mut self, ty: Type) -> (r: RValue)
        requires
            old(self).wf(),
            ty.valid(old(self)@.prog),
        ensures
            final(self).wf(),
            final(self)@ == (CtxV {
                prog: crate::ir::push_value(
                    old(self)@.prog,
                    ValueData::IntConst { ty: ty.idx, val: 0 },
                    Option::None,
                ),
                ..old(self)@
            }),
            r.idx == old(self)@.prog.values.len(),
            r.valid(final(self)@.prog),
            r.data(final(self)@.prog) == (ValueData::IntConst { ty: ty.idx, val: 0 }),
    {
        let i = self.push_value_rec(ValueData::IntConst { ty: ty.idx, val: 0 }, Option::None);
        RValue { idx: i }
    }

    /// The one of the given type.
    pub fn new_rvalue_one(&mut self, ty: Type) -> (r: RValue)
        requires
            old(self).wf(),
            ty.valid(old(self)@.prog),
        ensures
            final(self).wf(),
            final(self)@ == (CtxV {
                prog: crate::ir::push_value(
                    old(self)@.prog,
                    ValueData::IntConst { ty: ty.idx, val: 1 },
                    Option::None,
                ),
                ..old(self)@
            }),
            r.idx == old(self)@.prog.values.len(),
            r.valid(final(self)@.prog),
            r.data(final(self)@.prog) == (ValueData::IntConst { ty: ty.idx, val: 1 }),
    {
        let i = self.push_value_rec(ValueData::IntConst { ty: ty.idx, val: 1 }, Option::None);
        RValue { idx: i }
    }

    /// The null value of the given pointer type, modelled as the integer
    /// literal zero.
    pub fn new_null(&mut self, ty: Type) -> (r: RValue)
        requires
            old(self).wf(),
            ty.valid(old(self)@.prog),
        ensures
            final(self).wf(),
            final(self)@ == (CtxV {
                prog: crate::ir::push_value(
                    old(self)@.prog,
                    ValueData::IntConst { ty: ty.idx, val: 0 },
                    Option::None,
                ),
                ..old(self)@
            }),
            r.idx == old(self)@.prog.values.len(),
            r.valid(final(self)@.prog),
            r.data(final(self)@.prog) == (ValueData::IntConst { ty: ty.idx, val: 0 }),
    {
        let i = self.push_value_rec(ValueData::IntConst { ty: ty.idx, val: 0 }, Option::None);
        RValue { idx: i }
    }

    /// The program after `new_string_literal`: the character type and
    /// the pointer type to it are interned, then the text and the
    /// literal record are appended.
    pub open spec fn new_string_literal_spec(pv: ProgV, value: Seq<char>) -> ProgV {
        let r1 = intern_type_spec(pv, TypeDesc::Prim(PrimKind::Char));
        let r2 = intern_type_spec(r1.0, TypeDesc::Pointer { pointee: r1.1 });
        let pv3 = crate::ir::push_string(r2.0, value);
        crate::ir::push_value(pv3, ValueData::StrLit {
            ty: r2.1,
            s: r2.0.strings.len() as usize,
        }, Option::None)
    }

    /// Creates a string literal, typed as a pointer to character.
    pub fn new_string_literal(&mut self, value: &str) -> (r: RValue)
        requires
            old(self).wf(),
        ensures
            final(self).wf(),
            final(self)@ == (CtxV {
                prog: Context::new_string_literal_spec(old(self)@.prog, value@),
                ..old(self)@
            }),
            r.valid(final(self)@.prog),
            r.data(final(self)@.prog) is StrLit,
    {
        let char_ty = self.intern_type(TypeDesc::Prim(PrimKind::Char));
        let ptr_ty = self.intern_type(TypeDesc::Pointer { pointee: char_ty.idx });
        let s_idx = self.add_string(value);
        let i = self.push_value_rec(ValueData::StrLit { ty: ptr_ty.idx, s: s_idx },
            Option::None);
        RValue { idx: i }
    }

    /// Creates a vector literal of the given vector type.
    pub fn new_rvalue_from_vector(
        &mut self,
        loc: Option<Location>,
        vec_type: Type,
        elements: &[RValue],
    ) -> (r: RValue)
        requires
            old(self).wf(),
            vec_type.valid(old(self)@.prog),
            forall|j: int| 0 <= j < elements@.len() ==> (#[trigger] elements@[j]).valid(
                old(self)@.prog,
            ),
            crate::location::loc_valid(loc, old(self)@.prog),
        ensures
            final(self).wf(),
            final(self)@ == (CtxV {
                prog: crate::ir::push_value(
                    crate::ir::push_arglist(
                        old(self)@.prog,
                        elements@.map_values(|a: RValue| a.idx),
                    ),
                    ValueData::VecConst {
                        ty: vec_type.idx,
                        elems: old(self)@.prog.arglists.len() as usize,
                    },
                    crate::location::loc_idx(loc),
                ),
                ..old(self)@
            }),
            r.idx == old(self)@.prog.values.len(),
            r.valid(final(self)@.prog),
    {
        let mut aidxs: Vec<usize> = Vec::new();
        let mut j: usize = 0;
        while j < elements.len()
            invariant
                j <= elements.len(),
                aidxs@ == elements@.take(j as int).map_values(|a: RValue| a.idx),
            decreases elements.len() - j,
        {
            aidxs.push(elements[j].idx);
            proof {
                assert(elements@.take(j + 1) =~= elements@.take(j as int).push(
                    elements@[j as int],
                ));
                assert(aidxs@ =~= elements@.take(j + 1).map_values(|a: RValue| a.idx));
            }
            j = j + 1;
        }
        proof {
            assert(elements@.take(elements@.len() as int) =~= elements@);
        }
        let alx = self.push_arglist_rec(aidxs);
        let ghost mid = self@.prog;
        let i = self.push_value_rec(ValueData::VecConst { ty: vec_type.idx, elems: alx },
            crate::location::opt_loc_idx(loc));
        proof {
            assert(crate::ir::arglist_lt(mid, alx, mid.values.len() as int));
        }
        RValue { idx: i }
    }

    /// The program after `new_global`: the name string, the variable
    /// record, and its load record are appended.
    pub open spec fn new_global_spec(
        pv: ProgV,
        kind: GlobalKind,
        ty: usize,
        name: Seq<char>,
        loc: Option<usize>,
    ) -> ProgV {
        crate::ir::push_place(crate::ir::push_string(pv, name), ValueData::GlobalVar {
            kind,
            ty,
            name: pv.strings.len() as usize,
        }, loc)
    }

    /// Declares a global variable.
    pub fn new_global(
        &mut self,
        loc: Option<Location>,
        kind: GlobalKind,
        ty: Type,
        name: &str,
    ) -> (l: LValue)
        requires
            old(self).wf(),
            ty.valid(old(self)@.prog),
            crate::location::loc_valid(loc, old(self)@.prog),
        ensures
            final(self).wf(),
            final(self)@ == (CtxV {
                prog: Context::new_global_spec(
                    old(self)@.prog,
                    kind,
                    ty.idx,
                    name@,
                    crate::location::loc_idx(loc),
                ),
                ..old(self)@
            }),
            l.idx == old(self)@.prog.values.len(),
            l.load == old(self)@.prog.values.len() + 1,
            l.valid(final(self)@.prog),
            l.data(final(self)@.prog) == (ValueData::GlobalVar {
                kind,
                ty: ty.idx,
                name: old(self)@.prog.strings.len() as usize,
            }),
    {
        let name_idx = self.add_string(name);
        let loc_i = crate::location::opt_loc_idx(loc);
        let (lv, ld) = self.push_place_rec(ValueData::GlobalVar {
            kind,
            ty: ty.idx,
            name: name_idx,
        }, loc_i);
        LValue { idx: lv, load: ld }
    }

    /// Creates one range of a switch terminator: both bounds and the
    /// destination block.
    pub fn new_case<S: ToRValue, T: ToRValue>(
        &mut self,
        min_value: S,
        max_value: T,
        dest_block: Block,
    ) -> (c: Case)
        requires
            old(self).wf(),
            min_value.rv_idx() < old(self)@.prog.values.len(),
            max_value.rv_idx() < old(self)@.prog.values.len(),
            dest_block.valid(old(self)@.prog),
        ensures
            final(self).wf(),
            final(self)@ == (CtxV {
                prog: crate::ir::push_case_rec(old(self)@.prog, CaseData {
                    min_rv: min_value.rv_idx(),
                    max_rv: max_value.rv_idx(),
                    dest: dest_block.idx,
                }),
                ..old(self)@
            }),
            c.idx == old(self)@.prog.cases.len(),
            c.valid(final(self)@.prog),
    {
        let mn = min_value.to_rvalue();
        let mx = max_value.to_rvalue();
        let i = self.program.cases.len();
        self.program.cases.push(CaseData { min_rv: mn.idx, max_rv: mx.idx, dest: dest_block.idx });
        proof {
            assert(self@.prog =~= crate::ir::push_case_rec(old(self)@.prog, CaseData {
                min_rv: min_value.rv_idx(),
                max_rv: max_value.rv_idx(),
                dest: dest_block.idx,
            }));
            lemma_wf_extend(old(self)@.prog, self@.prog);
        }
        Case { idx: i }
    }

    /// Stores a top-level assembly fragment for the backend to emit
    /// verbatim.
    pub fn add_top_level_asm(&mut self, _loc: Option<Location>, asm_stmts: &str)
        requires
            old(self).wf(),
        ensures
            final(self).wf(),
            final(self)@ == (CtxV {
                prog: (ProgV {
                    toplevel_asm: old(self)@.prog.toplevel_asm.push(
                        old(self)@.prog.strings.len() as usize,
                    ),
                    ..crate::ir::push_string(old(self)@.prog, asm_stmts@)
                }),
                ..old(self)@
            }),
    {
        let s_idx = self.add_string(asm_stmts);
        self.program.toplevel_asm.push(s_idx);
        proof {
            assert(self@.prog =~= (ProgV {
                toplevel_asm: old(self)@.prog.toplevel_asm.push(
                    old(self)@.prog.strings.len() as usize,
                ),
                ..crate::ir::push_string(old(self)@.prog, asm_stmts@)
            }));
            lemma_wf_extend(old(self)@.prog, self@.prog);
        }
    }
}

impl Context {
    /// Appends one type record and returns its handle; for shapes known
    /// to be fresh, where scanning for an equal record is pointless.
    pub(crate) fn push_type_rec(&mut self, d: TypeDesc) -> (t: Type)
        requires
            old(self).wf(),
            crate::ir::type_desc_ok(old(self)@.prog, d, old(self)@.prog.types.len() as int),
        ensures
            final(self).wf(),
            final(self)@ == (CtxV { prog: crate::ir::push_type(old(self)@.prog, d), ..old(self)@ }),
            t.idx == old(self)@.prog.types.len(),
            t.valid(final(self)@.prog),
            t.data(final(self)@.prog) == d,
    {
        let i = self.program.types.len();
        self.program.types.push(d);
        proof {
            assert(self@.prog =~= crate::ir::push_type(old(self)@.prog, d));
            assert forall|k: int| old(self)@.prog.types.len() <= k < self@.prog.types.len()
                implies #[trigger] type_wf(self@.prog, k) by {
                assert(self@.prog.types[k] == d);
            }
            lemma_wf_extend(old(self)@.prog, self@.prog);
        }
        Type { idx: i }
    }

    /// Whether every field in `fields` is still free to be placed in a
    /// struct or union definition, with no repeats.
    #[verifier::loop_isolation(false)]
    pub(crate) fn fields_are_fresh(&self, fields: &[Field]) -> (r: bool)
        requires
            self.wf(),
            forall|j: int| 0 <= j < fields@.len() ==> (#[trigger] fields@[j]).valid(self@.prog),
        ensures
            r == crate::ir::fields_fresh(self@.prog, fields@.map_values(|f: Field| f.idx)),
    {
        let ghost fs = fields@.map_values(|f: Field| f.idx);
        let mut j: usize = 0;
        while j < fields.len()
            invariant
                j <= fields.len(),
                forall|a: int| 0 <= a < j ==> (#[trigger] fs[a]) < self@.prog.fields.len()
                    && !self@.prog.fields[fs[a] as int].used,
                forall|a: int, b: int| 0 <= a < b < j ==> fs[a] != fs[b],
            decreases fields.len() - j,
        {
            if self.program.fields[fields[j].idx].used {
                proof {
                    assert(fs[j as int] == fields@[j as int].idx);
                    assert(self@.prog.fields[fs[j as int] as int].used);
                }
                return false;
            }
            let mut k: usize = 0;
            while k < j
                invariant
                    k <= j,
                    j < fields.len(),
                    forall|a: int| 0 <= a < k ==> fs[a] != fs[j as int],
                decreases j - k,
            {
                if fields[k].idx == fields[j].idx {
                    proof {
                        assert(fs[k as int] == fs[j as int]);
                    }
                    return false;
                }
                k = k + 1;
            }
            j = j + 1;
        }
        true
    }

    /// Marks every field in `fields` as placed in a definition.
    #[verifier::loop_isolation(false)]
    pub(crate) fn mark_fields_used(&mut self, fields: &[Field])
        requires
            old(self).wf(),
            forall|j: int| 0 <= j < fields@.len() ==> (#[trigger] fields@[j]).valid(
                old(self)@.prog,
            ),
        ensures
            final(self).wf(),
            final(self)@ == (CtxV {
                prog: crate::ir::with_fields_used(
                    old(self)@.prog,
                    fields@.map_values(|f: Field| f.idx),
                    0,
                ),
                ..old(self)@
            }),
    {
        let ghost fs = fields@.map_values(|f: Field| f.idx);
        let mut j: usize = 0;
        while j < fields.len()
            invariant
                j <= fields.len(),
                self.wf(),
                self@.prog.fields.len() == old(self)@.prog.fields.len(),
                self@ == (CtxV { prog: self@.prog, ..old(self)@ }),
                crate::ir::with_fields_used(self@.prog, fs, j as int)
                    == crate::ir::with_fields_used(old(self)@.prog, fs, 0),
            decreases fields.len() - j,
        {
            let fidx = fields[j].idx;
            let fd = self.program.fields[fidx];
            let ghost before = self@.prog;
            self.program.fields.set(fidx, FieldData {
                ty: fd.ty,
                name: fd.name,
                loc: fd.loc,
                used: true,
            });
            proof {
                assert(self@.prog =~= crate::ir::with_field_used(before, fs[j as int] as int));
                lemma_wf_extend(before, self@.prog);
            }
            j = j + 1;
        }
    }

    /// The program after a successful `new_struct_type`: the name, the
    /// used-marks, the field list, the struct record, and its type
    /// record.
    pub open spec fn new_struct_type_spec(
        pv: ProgV,
        name: Seq<char>,
        fidxs: Seq<usize>,
        loc: Option<usize>,
    ) -> ProgV {
        let pv1 = crate::ir::push_string(pv, name);
        let pv2 = crate::ir::with_fields_used(pv1, fidxs, 0);
        let pv3 = crate::ir::push_arglist(pv2, fidxs);
        let pv4 = crate::ir::push_struct_rec(pv3, StructData {
            name: pv.strings.len() as usize,
            fields: Option::Some(pv.arglists.len() as usize),
            loc,
        });
        crate::ir::push_type(pv4, TypeDesc::StructRef { s: pv.structs.len() as usize })
    }

    /// Creates a struct type whose field list is fixed immediately.
    /// Each field must still be free: placing a field in two
    /// definitions, or twice in one, is rejected and logged.
    pub fn new_struct_type(
        &mut self,
        loc: Option<Location>,
        name: &str,
        fields: &[Field],
    ) -> (r: Result<Struct, BuildError>)
        requires
            old(self).wf(),
            forall|j: int| 0 <= j < fields@.len() ==> (#[trigger] fields@[j]).valid(
                old(self)@.prog,
            ),
            crate::location::loc_valid(loc, old(self)@.prog),
        ensures
            final(self).wf(),
            match r {
                Result::Ok(st) => {
                    &&& crate::ir::fields_fresh(
                        old(self)@.prog,
                        fields@.map_values(|f: Field| f.idx),
                    )
                    &&& final(self)@ == (CtxV {
                        prog: Context::new_struct_type_spec(
                            old(self)@.prog,
                            name@,
                            fields@.map_values(|f: Field| f.idx),
                            crate::location::loc_idx(loc),
                        ),
                        ..old(self)@
                    })
                    &&& st.idx == old(self)@.prog.structs.len()
                    &&& st.type_idx == old(self)@.prog.types.len()
                    &&& st.valid(final(self)@.prog)
                    &&& st.data(final(self)@.prog).fields == Option::Some(
                        old(self)@.prog.arglists.len() as usize,
                    )
                    &&& st.field_list(final(self)@.prog) == fields@.map_values(|f: Field| f.idx)
                },
                Result::Err(e) => {
                    &&& !crate::ir::fields_fresh(
                        old(self)@.prog,
                        fields@.map_values(|f: Field| f.idx),
                    )
                    &&& e == BuildError::FieldInUse
                    &&& final(self)@ == (CtxV {
                        errors: old(self)@.errors.push(BuildError::FieldInUse),
                        ..old(self)@
                    })
                },
            },
    {
        if !self.fields_are_fresh(fields) {
            self.log_error(BuildError::FieldInUse);
            return Result::Err(BuildError::FieldInUse);
        }
        let name_idx = self.add_string(name);
        proof {
            let fsg = fields@.map_values(|f: Field| f.idx);
            crate::ir::lemma_with_fields_used_shape(self@.prog, fsg, 0);
        }
        self.mark_fields_used(fields);
        let mut fidxs: Vec<usize> = Vec::new();
        let mut j: usize = 0;
        while j < fields.len()
            invariant
                j <= fields.len(),
                fidxs@ == fields@.take(j as int).map_values(|f: Field| f.idx),
            decreases fields.len() - j,
        {
            fidxs.push(fields[j].idx);
            proof {
                assert(fields@.take(j + 1) =~= fields@.take(j as int).push(fields@[j as int]));
                assert(fidxs@ =~= fields@.take(j + 1).map_values(|f: Field| f.idx));
            }
            j = j + 1;
        }
        proof {
            assert(fields@.take(fields@.len() as int) =~= fields@);
        }
        let al = self.push_arglist_rec(fidxs);
        let s_idx = self.program.structs.len();
        self.program.structs.push(StructData {
            name: name_idx,
            fields: Option::Some(al),
            loc: crate::location::opt_loc_idx(loc),
        });
        proof {
            lemma_wf_extend(old(self)@.prog, self@.prog);
        }
        let t = self.push_type_rec(TypeDesc::StructRef { s: s_idx });
        proof {
            assert(self@.prog =~= Context::new_struct_type_spec(
                old(self)@.prog,
                name@,
                fields@.map_values(|f: Field| f.idx),
                crate::location::loc_idx(loc),
            ));
        }
        Result::Ok(Struct { idx: s_idx, type_idx: t.idx })
    }

    /// The program after `new_opaque_struct_type`: the name, the struct
    /// record with no fields, and its type record.
    pub open spec fn new_opaque_struct_type_spec(
        pv: ProgV,
        name: Seq<char>,
        loc: Option<usize>,
    ) -> ProgV {
        let pv1 = crate::ir::push_string(pv, name);
        let pv2 = crate::ir::push_struct_rec(pv1, StructData {
            name: pv.strings.len() as usize,
            fields: Option::None,
            loc,
        });
        crate::ir::push_type(pv2, TypeDesc::StructRef { s: pv.structs.len() as usize })
    }

    /// Creates a struct type whose fields are not yet known.  They can
    /// be supplied later, exactly once, through `Struct::set_fields`.
    pub fn new_opaque_struct_type(&mut self, loc: Option<Location>, name: &str) -> (st: Struct)
        requires
            old(self).wf(),
            crate::location::loc_valid(loc, old(self)@.prog),
        ensures
            final(self).wf(),
            final(self)@ == (CtxV {
                prog: Context::new_opaque_struct_type_spec(
                    old(self)@.prog,
                    name@,
                    crate::location::loc_idx(loc),
                ),
                ..old(self)@
            }),
            st.idx == old(self)@.prog.structs.len(),
            st.type_idx == old(self)@.prog.types.len(),
            st.valid(final(self)@.prog),
            st.data(final(self)@.prog).fields is None,
    {
        let name_idx = self.add_string(name);
        let s_idx = self.program.structs.len();
        self.program.structs.push(StructData {
            name: name_idx,
            fields: Option::None,
            loc: crate::location::opt_loc_idx(loc),
        });
        proof {
            lemma_wf_extend(old(self)@.prog, self@.prog);
        }
        let t = self.push_type_rec(TypeDesc::StructRef { s: s_idx });
        proof {
            assert(self@.prog =~= Context::new_opaque_struct_type_spec(
                old(self)@.prog,
                name@,
                crate::location::loc_idx(loc),
            ));
        }
        Struct { idx: s_idx, type_idx: t.idx }
    }

    /// The program after a successful `new_union_type`.
    pub open spec fn new_union_type_spec(
        pv: ProgV,
        name: Seq<char>,
        fidxs: Seq<usize>,
        loc: Option<usize>,
    ) -> ProgV {
        let pv1 = crate::ir::push_string(pv, name);
        let pv2 = crate::ir::with_fields_used(pv1, fidxs, 0);
        let pv3 = crate::ir::push_arglist(pv2, fidxs);
        let pv4 = crate::ir::push_union_rec(pv3, UnionData {
            name: pv.strings.len() as usize,
            fields: pv.arglists.len() as usize,
            loc,
        });
        crate::ir::push_type(pv4, TypeDesc::UnionRef { u: pv.unions.len() as usize })
    }

    /// Creates a union type from a set of fields, fixed at creation.
    /// Each field must still be free, as for `new_struct_type`.
    pub fn new_union_type(
        &mut self,
        loc: Option<Location>,
        name: &str,
        fields: &[Field],
    ) -> (r: Result<Type, BuildError>)
        requires
            old(self).wf(),
            forall|j: int| 0 <= j < fields@.len() ==> (#[trigger] fields@[j]).valid(
                old(self)@.prog,
            ),
            crate::location::loc_valid(loc, old(self)@.prog),
        ensures
            final(self).wf(),
            match r {
                Result::Ok(t) => {
                    &&& crate::ir::fields_fresh(
                        old(self)@.prog,
                        fields@.map_values(|f: Field| f.idx),
                    )
                    &&& final(self)@ == (CtxV {
                        prog: Context::new_union_type_spec(
                            old(self)@.prog,
                            name@,
                            fields@.map_values(|f: Field| f.idx),
                            crate::location::loc_idx(loc),
                        ),
                        ..old(self)@
                    })
                    &&& t.idx == old(self)@.prog.types.len()
                    &&& t.valid(final(self)@.prog)
                    &&& t.data(final(self)@.prog) == (TypeDesc::UnionRef {
                        u: old(self)@.prog.unions.len() as usize,
                    })
                },
                Result::Err(e) => {
                    &&& !crate::ir::fields_fresh(
                        old(self)@.prog,
                        fields@.map_values(|f: Field| f.idx),
                    )
                    &&& e == BuildError::FieldInUse
                    &&& final(self)@ == (CtxV {
                        errors: old(self)@.errors.push(BuildError::FieldInUse),
                        ..old(self)@
                    })
                },
            },
    {
        if !self.fields_are_fresh(fields) {
            self.log_error(BuildError::FieldInUse);
            return Result::Err(BuildError::FieldInUse);
        }
        let name_idx = self.add_string(name);
        proof {
            let fsg = fields@.map_values(|f: Field| f.idx);
            crate::ir::lemma_with_fields_used_shape(self@.prog, fsg, 0);
        }
        self.mark_fields_used(fields);
        let mut fidxs: Vec<usize> = Vec::new();
        let mut j: usize = 0;
        while j < fields.len()
            invariant
                j <= fields.len(),
                fidxs@ == fields@.take(j as int).map_values(|f: Field| f.idx),
            decreases fields.len() - j,
        {
            fidxs.push(fields[j].idx);
            proof {
                assert(fields@.take(j + 1) =~= fields@.take(j as int).push(fields@[j as int]));
                assert(fidxs@ =~= fields@.take(j + 1).map_values(|f: Field| f.idx));
            }
            j = j + 1;
        }
        proof {
            assert(fields@.take(fields@.len() as int) =~= fields@);
        }
        let al = self.push_arglist_rec(fidxs);
        let u_idx = self.program.unions.len();
        self.program.unions.push(UnionData {
            name: name_idx,
            fields: al,
            loc: crate::location::opt_loc_idx(loc),
        });
        proof {
            lemma_wf_extend(old(self)@.prog, self@.prog);
        }
        let t = self.push_type_rec(TypeDesc::UnionRef { u: u_idx });
        proof {
            assert(self@.prog =~= Context::new_union_type_spec(
                old(self)@.prog,
                name@,
                fields@.map_values(|f: Field| f.idx),
                crate::location::loc_idx(loc),
            ));
        }
        Result::Ok(t)
    }

    /// The program after `new_function_pointer_type`: the parameter-type
    /// list, the signature record, and the type record are appended.
    pub open spec fn new_function_pointer_type_spec(
        pv: ProgV,
        ret: usize,
        param_tys: Seq<usize>,
        variadic: bool,
    ) -> ProgV {
        let pv1 = crate::ir::push_arglist(pv, param_tys);
        let pv2 = crate::ir::push_sig_rec(pv1, SigData {
            ret,
            param_tys: pv.arglists.len() as usize,
            variadic,
        });
        crate::ir::push_type(pv2, TypeDesc::FnPtr { sig: pv.sigs.len() as usize })
    }

    /// Creates a pointer type to a function kind with the given return
    /// type, parameter types, and variadic flag.
    pub fn new_function_pointer_type(
        &mut self,
        _loc: Option<Location>,
        return_type: Type,
        param_types: &[Type],
        is_variadic: bool,
    ) -> (t: Type)
        requires
            old(self).wf(),
            return_type.valid(old(self)@.prog),
            forall|j: int| 0 <= j < param_types@.len() ==> (#[trigger] param_types@[j]).valid(
                old(self)@.prog,
            ),
        ensures
            final(self).wf(),
            final(self)@ == (CtxV {
                prog: Context::new_function_pointer_type_spec(
                    old(self)@.prog,
                    return_type.idx,
                    param_types@.map_values(|pt: Type| pt.idx),
                    is_variadic,
                ),
                ..old(self)@
            }),
            t.idx == old(self)@.prog.types.len(),
            t.valid(final(self)@.prog),
            t.data(final(self)@.prog) == (TypeDesc::FnPtr {
                sig: old(self)@.prog.sigs.len() as usize,
            }),
    {
        let mut tidxs: Vec<usize> = Vec::new();
        let mut j: usize = 0;
        while j < param_types.len()
            invariant
                j <= param_types.len(),
                tidxs@ == param_types@.take(j as int).map_values(|pt: Type| pt.idx),
            decreases param_types.len() - j,
        {
            tidxs.push(param_types[j].idx);
            proof {
                assert(param_types@.take(j + 1) =~= param_types@.take(j as int).push(
                    param_types@[j as int],
                ));
                assert(tidxs@ =~= param_types@.take(j + 1).map_values(|pt: Type| pt.idx));
            }
            j = j + 1;
        }
        proof {
            assert(param_types@.take(param_types@.len() as int) =~= param_types@);
        }
        let al = self.push_arglist_rec(tidxs);
        let sig_idx = self.program.sigs.len();
        self.program.sigs.push(SigData { ret: return_type.idx, param_tys: al, variadic: is_variadic });
        proof {
            lemma_wf_extend(old(self)@.prog, self@.prog);
        }
        let t = self.push_type_rec(TypeDesc::FnPtr { sig: sig_idx });
        proof {
            assert(self@.prog =~= Context::new_function_pointer_type_spec(
                old(self)@.prog,
                return_type.idx,
                param_types@.map_values(|pt: Type| pt.idx),
                is_variadic,
            ));
        }
        t
    }

    /// Builds (or finds) an array type with the given element type and
    /// element count.
    pub fn new_array_type(&mut self, _loc: Option<Location>, ty: Type, num_elements: i32) -> (t:
        Type)
        requires
            old(self).wf(),
            ty.valid(old(self)@.prog),
        ensures
            final(self).wf(),
            final(self)@ == (CtxV {
                prog: intern_type_spec(
                    old(self)@.prog,
                    TypeDesc::ArrayOf { elem: ty.idx, len: num_elements },
                ).0,
                ..old(self)@
            }),
            t.idx == intern_type_spec(
                old(self)@.prog,
                TypeDesc::ArrayOf { elem: ty.idx, len: num_elements },
            ).1,
            t.valid(final(self)@.prog),
            t.data(final(self)@.prog) == (TypeDesc::ArrayOf { elem: ty.idx, len: num_elements }),
    {
        self.intern_type(TypeDesc::ArrayOf { elem: ty.idx, len: num_elements })
    }

    /// Builds (or finds) a vector type with the given lane type and
    /// lane count.
    pub fn new_vector_type(&mut self, ty: Type, num_units: u64) -> (t: Type)
        requires
            old(self).wf(),
            ty.valid(old(self)@.prog),
        ensures
            final(self).wf(),
            final(self)@ == (CtxV {
                prog: intern_type_spec(
                    old(self)@.prog,
                    TypeDesc::VectorOf { elem: ty.idx, units: num_units },
                ).0,
                ..old(self)@
            }),
            t.idx == intern_type_spec(
                old(self)@.prog,
                TypeDesc::VectorOf { elem: ty.idx, units: num_units },
            ).1,
            t.valid(final(self)@.prog),
            t.data(final(self)@.prog) == (TypeDesc::VectorOf {
                elem: ty.idx,
                units: num_units,
            }),
    {
        self.intern_type(TypeDesc::VectorOf { elem: ty.idx, units: num_units })
    }
}

/// A handle to a compiled function inside a [`CompileResult`].
#[derive(Clone, Copy, PartialEq, Eq, Structural, Debug)]
pub struct CompiledFunction {
    pub idx: usize,
}

/// A handle to a compiled global variable inside a [`CompileResult`].
#[derive(Clone, Copy, PartialEq, Eq, Structural, Debug)]
pub struct CompiledGlobal {
    pub idx: usize,
}

/// The artifact of a successful compilation: an independently owned,
/// validated program.  Exported functions and globals can be looked up
/// by name, and functions can be run through the crate's reference
/// evaluator.
pub struct CompileResult {
    pub program: Program,
}

/// Every block ends in a terminator, and every defined (non-external)
/// function has at least one block.
pub open spec fn program_valid(pv: ProgV) -> bool {
    &&& forall|b: int| 0 <= b < pv.blocks.len()
        ==> !((#[trigger] pv.blocks[b]).term is None)
    &&& forall|f: int| 0 <= f < pv.funcs.len()
        ==> ((#[trigger] pv.funcs[f]).kind != FunctionType::Extern
            ==> !(crate::eval::find_block_from(pv, f as usize, 0) is None))
}

/// The first function at or after `f` that is exported under `name`.
pub open spec fn find_exported_from(pv: ProgV, name: Seq<char>, f: int) -> Option<int>
    decreases pv.funcs.len() - f when 0 <= f <= pv.funcs.len()
{
    if f >= pv.funcs.len() {
        Option::None
    } else if pv.funcs[f].kind == FunctionType::Exported && pv.funcs[f].name < pv.strings.len()
        && pv.strings[pv.funcs[f].name as int] == name {
        Option::Some(f)
    } else {
        find_exported_from(pv, name, f + 1)
    }
}

/// Scanning for an exported function from the start finds the same
/// record as scanning from `k`, as long as nothing before `k` matches.
pub proof fn lemma_find_exported_from(pv: ProgV, name: Seq<char>, k: int)
    requires
        0 <= k <= pv.funcs.len(),
        forall|j: int| 0 <= j < k ==> !(pv.funcs[j].kind == FunctionType::Exported
            && pv.funcs[j].name < pv.strings.len()
            && pv.strings[pv.funcs[j].name as int] == name),
    ensures
        find_exported_from(pv, name, 0) == find_exported_from(pv, name, k),
    decreases k,
{
    if k > 0 {
        lemma_find_exported_from(pv, name, k - 1);
    }
}

/// If no function is exported under `name`, no scan position finds one.
pub proof fn lemma_find_exported_none(pv: ProgV, name: Seq<char>, j: int)
    requires
        find_exported_from(pv, name, 0) is None,
        0 <= j < pv.funcs.len(),
    ensures
        !(pv.funcs[j].kind == FunctionType::Exported && pv.funcs[j].name < pv.strings.len()
            && pv.strings[pv.funcs[j].name as int] == name),
    decreases j,
{
    lemma_find_exported_none_from(pv, name, 0, j);
}

proof fn lemma_find_exported_none_from(pv: ProgV, name: Seq<char>, i: int, j: int)
    requires
        0 <= i <= j < pv.funcs.len(),
        find_exported_from(pv, name, i) is None,
    ensures
        !(pv.funcs[j].kind == FunctionType::Exported && pv.funcs[j].name < pv.strings.len()
            && pv.strings[pv.funcs[j].name as int] == name),
    decreases j - i,
{
    if i < j {
        lemma_find_exported_none_from(pv, name, i + 1, j);
    }
}

/// The first value record at or after `i` that is a global variable
/// exported under `name`.
pub open spec fn find_exported_global_from(pv: ProgV, name: Seq<char>, i: int) -> Option<int>
    decreases pv.values.len() - i when 0 <= i <= pv.values.len()
{
    if i >= pv.values.len() {
        Option::None
    } else {
        match pv.values[i] {
            ValueData::GlobalVar { kind, name: nm, .. } => if kind == GlobalKind::Exported
                && nm < pv.strings.len() && pv.strings[nm as int] == name {
                Option::Some(i)
            } else {
                find_exported_global_from(pv, name, i + 1)
            },
            _ => find_exported_global_from(pv, name, i + 1),
        }
    }
}

/// Scanning for an exported global from the start finds the same record
/// as scanning from `k`, as long as nothing before `k` matches.
pub proof fn lemma_find_exported_global_from(pv: ProgV, name: Seq<char>, k: int)
    requires
        0 <= k <= pv.values.len(),
        forall|j: int| 0 <= j < k ==> !(match #[trigger] pv.values[j] {
            ValueData::GlobalVar { kind, name: nm, .. } => kind == GlobalKind::Exported
                && nm < pv.strings.len() && pv.strings[nm as int] == name,
            _ => false,
        }),
    ensures
        find_exported_global_from(pv, name, 0) == find_exported_global_from(pv, name, k),
    decreases k,
{
    if k > 0 {
        lemma_find_exported_global_from(pv, name, k - 1);
    }
}

impl Context {
    /// A child context: a fully featured context that starts from this
    /// context's whole state and then evolves independently of it.
    pub fn new_child_context(&self) -> (c: Context)
        requires
            self.wf(),
        ensures
            c.wf(),
            c@ == self@,
    {
        let c = Context {
            program: self.program.snapshot(),
            opt_level: self.opt_level,
            debug_info: self.debug_info,
            keep_intermediates: self.keep_intermediates,
            dump_everything: self.dump_everything,
            dump_initial_gimple: self.dump_initial_gimple,
            dump_code_on_compile: self.dump_code_on_compile,
            program_name: match &self.program_name {
                Option::Some(n) => Option::Some(n.clone()),
                Option::None => Option::None,
            },
            command_line_options: crate::ir::copy_string_vec(&self.command_line_options),
            driver_options: crate::ir::copy_string_vec(&self.driver_options),
            errors: crate::ir::copy_error_vec(&self.errors),
        };
        proof {
            assert(c@ =~~= self@);
        }
        c
    }

    /// Validates the program and hands back an independently owned
    /// compile result.  A block without a terminator, or a defined
    /// function without a body, is rejected and logged.
    #[verifier::loop_isolation(false)]
    pub fn compile(&mut self) -> (r: Result<CompileResult, BuildError>)
        requires
            old(self).wf(),
        ensures
            final(self).wf(),
            match r {
                Result::Ok(cr) => {
                    &&& program_valid(old(self)@.prog)
                    &&& cr.program@ == old(self)@.prog
                    &&& final(self)@ == old(self)@
                },
                Result::Err(e) => {
                    &&& !program_valid(old(self)@.prog)
                    &&& final(self)@ == (CtxV {
                        errors: old(self)@.errors.push(e),
                        ..old(self)@
                    })
                    &&& (e == BuildError::MissingTerminator || e == BuildError::BodyMissing)
                    &&& (e == BuildError::MissingTerminator ==> exists|b: int|
                        0 <= b < old(self)@.prog.blocks.len()
                            && (#[trigger] old(self)@.prog.blocks[b]).term is None)
                    &&& (e == BuildError::BodyMissing ==> exists|f: int|
                        0 <= f < old(self)@.prog.funcs.len()
                            && (#[trigger] old(self)@.prog.funcs[f]).kind != FunctionType::Extern
                            && crate::eval::find_block_from(
                            old(self)@.prog,
                            f as usize,
                            0,
                        ) is None)
                },
            },
    {
        let mut b: usize = 0;
        let nb = self.program.blocks.len();
        while b < nb
            invariant
                *self == *old(self),
                b <= nb,
                nb == self.program.blocks@.len(),
                forall|j: int| 0 <= j < b ==> !((#[trigger] self.program.blocks@[j]).term
                    is None),
            decreases nb - b,
        {
            let terminated = match self.program.blocks[b].term {
                Option::Some(_) => true,
                Option::None => false,
            };
            if !terminated {
                self.log_error(BuildError::MissingTerminator);
                return Result::Err(BuildError::MissingTerminator);
            }
            b = b + 1;
        }
        let mut f: usize = 0;
        let nf = self.program.funcs.len();
        while f < nf
            invariant
                *self == *old(self),
                f <= nf,
                nf == self.program.funcs@.len(),
                forall|j: int| 0 <= j < f ==> ((#[trigger] self.program.funcs@[j]).kind
                    != FunctionType::Extern ==> !(crate::eval::find_block_from(
                    self@.prog,
                    j as usize,
                    0,
                ) is None)),
            decreases nf - f,
        {
            if self.program.funcs[f].kind != FunctionType::Extern {
                match crate::eval::find_block_x(&self.program, f, 0) {
                    Option::Some(_) => {},
                    Option::None => {
                        self.log_error(BuildError::BodyMissing);
                        return Result::Err(BuildError::BodyMissing);
                    },
                }
            }
            f = f + 1;
        }
        Result::Ok(CompileResult { program: self.program.snapshot() })
    }
}

impl CompileResult {
    /// Looks up an exported function by name.  The result is present
    /// exactly when some function was registered under that name with
    /// the exported kind; anything else is an explicit absence, never a
    /// handle that fails later.
    #[verifier::loop_isolation(false)]
    pub fn get_function(&self, name: &str) -> (r: Option<CompiledFunction>)
        ensures
            match r {
                Option::Some(cf) => find_exported_from(self.program@, name@, 0)
                    == Option::Some(cf.idx as int),
                Option::None => find_exported_from(self.program@, name@, 0) is None,
            },
    {
        let nm = name.to_owned();
        let n = self.program.funcs.len();
        let mut f: usize = 0;
        while f < n
            invariant
                f <= n,
                forall|j: int| 0 <= j < f ==> !(self.program.funcs@[j].kind
                    == FunctionType::Exported && self.program.funcs@[j].name
                    < self.program@.strings.len() && self.program@.strings[
                    self.program.funcs@[j].name as int
                ] == nm@),
            decreases n - f,
        {
            let fd = self.program.funcs[f];
            if fd.kind == FunctionType::Exported && fd.name < self.program.strings.len() {
                if self.program.strings[fd.name] == nm {
                    proof {
                        lemma_find_exported_from(self.program@, name@, f as int);
                    }
                    return Option::Some(CompiledFunction { idx: f });
                }
            }
            f = f + 1;
        }
        proof {
            lemma_find_exported_from(self.program@, name@, n as int);
        }
        Option::None
    }

    /// Looks up an exported global variable by name; an explicit
    /// absence when none was declared exported under that name.
    #[verifier::loop_isolation(false)]
    pub fn get_global(&self, name: &str) -> (r: Option<CompiledGlobal>)
        ensures
            match r {
                Option::Some(cg) => find_exported_global_from(self.program@, name@, 0)
                    == Option::Some(cg.idx as int),
                Option::None => find_exported_global_from(self.program@, name@, 0) is None,
            },
    {
        let nm = name.to_owned();
        let n = self.program.values.len();
        let mut i: usize = 0;
        while i < n
            invariant
                i <= n,
                forall|j: int| 0 <= j < i ==> !(match #[trigger] self.program.values@[j] {
                    ValueData::GlobalVar { kind, name: gn, .. } => kind == GlobalKind::Exported
                        && gn < self.program@.strings.len() && self.program@.strings[gn as int]
                        == nm@,
                    _ => false,
                }),
            decreases n - i,
        {
            let hit = match self.program.values[i] {
                ValueData::GlobalVar { kind, name: gn, .. } => {
                    if kind == GlobalKind::Exported && gn < self.program.strings.len() {
                        self.program.strings[gn] == nm
                    } else {
                        false
                    }
                },
                _ => false,
            };
            if hit {
                proof {
                    lemma_find_exported_global_from(self.program@, name@, i as int);
                }
                return Option::Some(CompiledGlobal { idx: i });
            }
            i = i + 1;
        }
        proof {
            lemma_find_exported_global_from(self.program@, name@, n as int);
        }
        Option::None
    }
}

impl Default for Context {
    /// A fresh, empty context; the same as [`Context::new`].
    fn default() -> (ctx: Context)
        ensures
            ctx.wf(),
            ctx@.prog.types.len() == 0,
            ctx@.prog.values.len() == 0,
            ctx@.prog.funcs.len() == 0,
            ctx@.errors.len() == 0,
    {
        Context::new()
    }
}

} // verus!
