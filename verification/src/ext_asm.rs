//! Extended inline-assembly statements.

use vstd::prelude::*;

use crate::context::{Context, CtxV};
use crate::lvalue::LValue;
use crate::rvalue::RValue;
use crate::object::{Object, ObjectKind, ToObject};
use crate::ir::{ProgV, AsmData, AsmOpKind, AsmOpRec};

verus! {

/// A handle to one extended inline-assembly statement: an index into the
/// owning context's assembly arena.
#[derive(Clone, Copy, PartialEq, Eq, Structural, Debug)]
pub struct ExtendedAsm {
    pub idx: usize,
}

impl ToObject for ExtendedAsm {
    fn to_object(&self) -> Object {
        Object { kind: ObjectKind::Asm, idx: self.idx }
    }
}

impl ExtendedAsm {
    /// This handle points into `pv`'s assembly arena.
    pub open spec fn valid(self, pv: ProgV) -> bool {
        self.idx < pv.asms.len()
    }

    /// The statement's record in `pv`.
    pub open spec fn data(self, pv: ProgV) -> AsmData {
        pv.asms[self.idx as int]
    }
}

/// `pv` with the flags of the assembly record at `a` replaced.
pub open spec fn with_asm_flags(pv: ProgV, a: int, vol: bool, inl: bool) -> ProgV {
    ProgV {
        asms: pv.asms.update(a, AsmData {
            template: pv.asms[a].template,
            volatile_flag: vol,
            inline_flag: inl,
        }),
        ..pv
    }
}

impl ExtendedAsm {
    /// Marks this assembly statement volatile (or not).
    pub fn set_volatile_flag(&self, ctx: &mut Context, flag: bool)
        requires
            old(ctx).wf(),
            self.valid(old(ctx)@.prog),
        ensures
            final(ctx).wf(),
            final(ctx)@ == (CtxV {
                prog: with_asm_flags(
                    old(ctx)@.prog,
                    self.idx as int,
                    flag,
                    old(ctx)@.prog.asms[self.idx as int].inline_flag,
                ),
                ..old(ctx)@
            }),
    {
        let ad = ctx.program.asms[self.idx];
        ctx.program.asms.set(self.idx, AsmData {
            template: ad.template,
            volatile_flag: flag,
            inline_flag: ad.inline_flag,
        });
        proof {
            assert(ctx@.prog =~= with_asm_flags(
                old(ctx)@.prog,
                self.idx as int,
                flag,
                old(ctx)@.prog.asms[self.idx as int].inline_flag,
            ));
            crate::context::lemma_wf_extend(old(ctx)@.prog, ctx@.prog);
        }
    }

    /// Marks this assembly statement inline (or not).
    pub fn set_inline_flag(&self, ctx: &mut Context, flag: bool)
        requires
            old(ctx).wf(),
            self.valid(old(ctx)@.prog),
        ensures
            final(ctx).wf(),
            final(ctx)@ == (CtxV {
                prog: with_asm_flags(
                    old(ctx)@.prog,
                    self.idx as int,
                    old(ctx)@.prog.asms[self.idx as int].volatile_flag,
                    flag,
                ),
                ..old(ctx)@
            }),
    {
        let ad = ctx.program.asms[self.idx];
        ctx.program.asms.set(self.idx, AsmData {
            template: ad.template,
            volatile_flag: ad.volatile_flag,
            inline_flag: flag,
        });
        proof {
            assert(ctx@.prog =~= with_asm_flags(
                old(ctx)@.prog,
                self.idx as int,
                old(ctx)@.prog.asms[self.idx as int].volatile_flag,
                flag,
            ));
            crate::context::lemma_wf_extend(old(ctx)@.prog, ctx@.prog);
        }
    }

    /// Appends one operand or clobber record for this assembly
    /// statement.
    fn add_op(
        &self,
        ctx: &mut Context,
        kind: AsmOpKind,
        sym: Option<usize>,
        constraint: usize,
        val: Option<usize>,
    )
        requires
            old(ctx).wf(),
            self.valid(old(ctx)@.prog),
        ensures
            final(ctx).wf(),
            final(ctx)@ == (CtxV {
                prog: crate::ir::push_asm_op_rec(old(ctx)@.prog, AsmOpRec {
                    owner: self.idx,
                    kind,
                    sym,
                    constraint,
                    val,
                }),
                ..old(ctx)@
            }),
    {
        ctx.program.asm_ops.push(AsmOpRec { owner: self.idx, kind, sym, constraint, val });
        proof {
            assert(ctx@.prog =~= crate::ir::push_asm_op_rec(old(ctx)@.prog, AsmOpRec {
                owner: self.idx,
                kind,
                sym,
                constraint,
                val,
            }));
            crate::context::lemma_wf_extend(old(ctx)@.prog, ctx@.prog);
        }
    }

    /// Adds an output operand: a constraint and the place written.
    pub fn add_output_operand(
        &self,
        ctx: &mut Context,
        asm_symbolic_name: Option<&str>,
        constraint: &str,
        dest: LValue,
    )
        requires
            old(ctx).wf(),
            self.valid(old(ctx)@.prog),
            dest.idx < old(ctx)@.prog.values.len(),
        ensures
            final(ctx).wf(),
            final(ctx)@.prog.asm_ops.len() == old(ctx)@.prog.asm_ops.len() + 1,
            ({
                let rec = final(ctx)@.prog.asm_ops.last();
                &&& rec.owner == self.idx
                &&& rec.kind == AsmOpKind::Output
                &&& rec.val == Option::Some(dest.idx)
                &&& rec.constraint < final(ctx)@.prog.strings.len()
                &&& final(ctx)@.prog.strings[rec.constraint as int] == constraint@
            }),
            final(ctx)@ == (CtxV { prog: final(ctx)@.prog, ..old(ctx)@ }),
    {
        let sym = match asm_symbolic_name {
            Option::Some(n) => Option::Some(ctx.add_string(n)),
            Option::None => Option::None,
        };
        let c = ctx.add_string(constraint);
        self.add_op(ctx, AsmOpKind::Output, sym, c, Option::Some(dest.idx));
    }

    /// Adds an input operand: a constraint and the value read.
    pub fn add_input_operand(
        &self,
        ctx: &mut Context,
        asm_symbolic_name: Option<&str>,
        constraint: &str,
        src: RValue,
    )
        requires
            old(ctx).wf(),
            self.valid(old(ctx)@.prog),
            src.idx < old(ctx)@.prog.values.len(),
        ensures
            final(ctx).wf(),
            final(ctx)@.prog.asm_ops.len() == old(ctx)@.prog.asm_ops.len() + 1,
            ({
                let rec = final(ctx)@.prog.asm_ops.last();
                &&& rec.owner == self.idx
                &&& rec.kind == AsmOpKind::Input
                &&& rec.val == Option::Some(src.idx)
                &&& rec.constraint < final(ctx)@.prog.strings.len()
                &&& final(ctx)@.prog.strings[rec.constraint as int] == constraint@
            }),
            final(ctx)@ == (CtxV { prog: final(ctx)@.prog, ..old(ctx)@ }),
    {
        let sym = match asm_symbolic_name {
            Option::Some(n) => Option::Some(ctx.add_string(n)),
            Option::None => Option::None,
        };
        let c = ctx.add_string(constraint);
        self.add_op(ctx, AsmOpKind::Input, sym, c, Option::Some(src.idx));
    }

    /// Adds a clobbered register or flag name.
    pub fn add_clobber(&self, ctx: &mut Context, victim: &str)
        requires
            old(ctx).wf(),
            self.valid(old(ctx)@.prog),
        ensures
            final(ctx).wf(),
            final(ctx)@.prog.asm_ops.len() == old(ctx)@.prog.asm_ops.len() + 1,
            ({
                let rec = final(ctx)@.prog.asm_ops.last();
                &&& rec.owner == self.idx
                &&& rec.kind == AsmOpKind::Clobber
                &&& rec.constraint < final(ctx)@.prog.strings.len()
                &&& final(ctx)@.prog.strings[rec.constraint as int] == victim@
            }),
            final(ctx)@ == (CtxV { prog: final(ctx)@.prog, ..old(ctx)@ }),
    {
        let c = ctx.add_string(victim);
        self.add_op(ctx, AsmOpKind::Clobber, Option::None, c, Option::None);
    }
}

} // verus!
