//! Functions: named containers of parameters, basic blocks, and locals.

use vstd::prelude::*;

use crate::object::{Object, ObjectKind, ToObject};
use crate::context::{Context, CtxV};
use crate::error::BuildError;
use crate::location::Location;
use crate::lvalue::LValue;
use crate::parameter::Parameter;
use crate::types::Type;
use crate::block::Block;
use crate::ir::{ProgV, FunctionData, ValueData, BlockData, value_wf};

verus! {

/// The parameter handle denoted by the parameter record at `p`.
pub open spec fn param_at(pv: ProgV, p: int) -> Parameter {
    Parameter { idx: p as usize, rv: pv.params[p].rv, lv: pv.params[p].lv }
}

/// The parameter record at `p` exists and its two value records are the
/// ones created with it.
pub open spec fn param_ok(pv: ProgV, p: int) -> bool {
    &&& 0 <= p < pv.params.len()
    &&& param_at(pv, p).valid(pv)
}

/// The linkage and inlining kind of a function.
#[derive(Clone, Copy, PartialEq, Eq, Structural, Debug)]
pub enum FunctionType {
    /// Defined here and retrievable by name after compilation.
    Exported,
    /// Defined here but callable only from compiled code.
    Internal,
    /// A reference to an externally linked symbol; it has no body.
    Extern,
    /// Defined here and inlined wherever optimization permits; otherwise
    /// treated as internal.
    AlwaysInline,
}

/// A function handle: an index into the owning context's function arena.
#[derive(Clone, Copy, PartialEq, Eq, Structural, Debug)]
pub struct Function {
    pub idx: usize,
}

impl ToObject for Function {
    fn to_object(&self) -> Object {
        Object { kind: ObjectKind::Func, idx: self.idx }
    }
}

impl Function {
    /// This handle points into `pv`'s function arena.
    pub open spec fn valid(self, pv: ProgV) -> bool {
        &&& self.idx < pv.funcs.len()
        &&& self.data(pv).params < pv.arglists.len()
    }

    /// The function's record in `pv`.
    pub open spec fn data(self, pv: ProgV) -> FunctionData {
        pv.funcs[self.idx as int]
    }

    /// The function's parameter indices in `pv`.
    pub open spec fn param_list(self, pv: ProgV) -> Seq<usize> {
        pv.arglists[self.data(pv).params as int]
    }
}

impl Function {
    /// The parameter at position `idx` of this function's signature.
    pub fn get_param(&self, ctx: &Context, idx: i32) -> (prm: Parameter)
        requires
            self.valid(ctx@.prog),
            0 <= idx < self.param_list(ctx@.prog).len(),
            param_ok(ctx@.prog, self.param_list(ctx@.prog)[idx as int] as int),
        ensures
            prm == param_at(ctx@.prog, self.param_list(ctx@.prog)[idx as int] as int),
            prm.valid(ctx@.prog),
    {
        let al = ctx.program.funcs[self.idx].params;
        let p = ctx.program.arglists[al][idx as usize];
        let rec = ctx.program.params[p];
        Parameter { idx: p, rv: rec.rv, lv: rec.lv }
    }

    /// Creates a block in this function.  A function declared with
    /// external linkage must not have a body, so asking it for a block
    /// is rejected.
    pub fn new_block(&self, ctx: &mut Context, name: &str) -> (r: Result<Block, BuildError>)
        requires
            old(ctx).wf(),
            self.valid(old(ctx)@.prog),
        ensures
            final(ctx).wf(),
            match r {
                Result::Ok(b) => {
                    &&& self.data(old(ctx)@.prog).kind != FunctionType::Extern
                    &&& final(ctx)@ == (CtxV {
                        prog: crate::ir::push_block_rec(
                            crate::ir::push_string(old(ctx)@.prog, name@),
                            BlockData {
                                func: self.idx,
                                name: old(ctx)@.prog.strings.len() as usize,
                                term: Option::None,
                                term_loc: Option::None,
                            },
                        ),
                        ..old(ctx)@
                    })
                    &&& b.idx == old(ctx)@.prog.blocks.len()
                    &&& b.valid(final(ctx)@.prog)
                    &&& b.data(final(ctx)@.prog) == (BlockData {
                        func: self.idx,
                        name: old(ctx)@.prog.strings.len() as usize,
                        term: Option::None,
                        term_loc: Option::None,
                    })
                },
                Result::Err(e) => {
                    &&& self.data(old(ctx)@.prog).kind == FunctionType::Extern
                    &&& e == BuildError::ExternWithBody
                    &&& final(ctx)@ == (CtxV {
                        errors: old(ctx)@.errors.push(BuildError::ExternWithBody),
                        ..old(ctx)@
                    })
                },
            },
    {
        let kind = ctx.program.funcs[self.idx].kind;
        if kind == FunctionType::Extern {
            ctx.log_error(BuildError::ExternWithBody);
            Result::Err(BuildError::ExternWithBody)
        } else {
            let name_idx = ctx.add_string(name);
            let i = ctx.program.blocks.len();
            ctx.program.blocks.push(BlockData {
                func: self.idx,
                name: name_idx,
                term: Option::None,
                term_loc: Option::None,
            });
            proof {
                assert(ctx@.prog =~= crate::ir::push_block_rec(
                    crate::ir::push_string(old(ctx)@.prog, name@),
                    BlockData {
                        func: self.idx,
                        name: old(ctx)@.prog.strings.len() as usize,
                        term: Option::None,
                        term_loc: Option::None,
                    },
                ));
                crate::context::lemma_wf_extend(old(ctx)@.prog, ctx@.prog);
            }
            Result::Ok(Block { idx: i })
        }
    }

    /// The program after `new_local`: the name string, the variable
    /// record, and its load record are appended.
    pub open spec fn new_local_spec(
        pv: ProgV,
        f: usize,
        ty: usize,
        name: Seq<char>,
        loc: Option<usize>,
    ) -> ProgV {
        let lv = pv.values.len() as usize;
        let pv1 = crate::ir::push_string(pv, name);
        let pv2 = crate::ir::push_value(pv1, ValueData::LocalVar {
            f,
            ty,
            name: pv.strings.len() as usize,
        }, loc);
        crate::ir::push_value(pv2, ValueData::Load { l: lv, ty }, loc)
    }

    /// Declares a local variable of this function.
    pub fn new_local(&self, ctx: &mut Context, loc: Option<Location>, ty: Type, name: &str) -> (l:
        LValue)
        requires
            old(ctx).wf(),
            self.valid(old(ctx)@.prog),
            ty.valid(old(ctx)@.prog),
            crate::location::loc_valid(loc, old(ctx)@.prog),
        ensures
            final(ctx).wf(),
            final(ctx)@ == (CtxV {
                prog: Function::new_local_spec(
                    old(ctx)@.prog,
                    self.idx,
                    ty.idx,
                    name@,
                    crate::location::loc_idx(loc),
                ),
                ..old(ctx)@
            }),
            l.idx == old(ctx)@.prog.values.len(),
            l.load == old(ctx)@.prog.values.len() + 1,
            l.valid(final(ctx)@.prog),
            l.data(final(ctx)@.prog) == (ValueData::LocalVar {
                f: self.idx,
                ty: ty.idx,
                name: old(ctx)@.prog.strings.len() as usize,
            }),
    {
        let name_idx = ctx.add_string(name);
        let loc_i = crate::location::opt_loc_idx(loc);
        let lv = ctx.program.values.len();
        ctx.program.values.push(ValueData::LocalVar { f: self.idx, ty: ty.idx, name: name_idx });
        ctx.program.value_locs.push(loc_i);
        let ld = ctx.program.values.len();
        ctx.program.values.push(ValueData::Load { l: lv, ty: ty.idx });
        ctx.program.value_locs.push(loc_i);
        proof {
            assert(ctx@.prog =~= Function::new_local_spec(
                old(ctx)@.prog,
                self.idx,
                ty.idx,
                name@,
                crate::location::loc_idx(loc),
            ));
            let a = old(ctx)@.prog;
            let b = ctx@.prog;
            assert forall|k: int| a.values.len() <= k < b.values.len()
                implies #[trigger] value_wf(b, k) by {
                if k == a.values.len() + 1 {
                    assert(b.values[k] == (ValueData::Load { l: lv, ty: ty.idx }));
                }
            }
            crate::context::lemma_wf_extend(a, b);
        }
        LValue { idx: lv, load: ld }
    }
}

} // verus!
