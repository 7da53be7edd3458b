//! Basic blocks: straight-line statement sequences ended by exactly one
//! terminator, and the operator vocabulary of the expression language.

use vstd::prelude::*;

use crate::context::{Context, CtxV, Case};
use crate::error::BuildError;
use crate::function::Function;
use crate::location::Location;
use crate::lvalue::ToLValue;
use crate::rvalue::ToRValue;
use crate::object::{Object, ObjectKind, ToObject};
use crate::ir::{ProgV, StmtRec, BlockData, AsmData};
use crate::ext_asm::ExtendedAsm;

verus! {

/// The binary operations the expression language knows.
#[derive(Clone, Copy, PartialEq, Eq, Structural, Debug)]
pub enum BinaryOp {
    Plus,
    Minus,
    Mult,
    Divide,
    Modulo,
    BitwiseAnd,
    BitwiseXor,
    BitwiseOr,
    LogicalAnd,
    LogicalOr,
    LShift,
    RShift,
}

/// The unary operations the expression language knows.
#[derive(Clone, Copy, PartialEq, Eq, Structural, Debug)]
pub enum UnaryOp {
    Minus,
    BitwiseNegate,
    LogicalNegate,
    Abs,
}

/// The comparisons the expression language knows.
#[derive(Clone, Copy, PartialEq, Eq, Structural, Debug)]
pub enum ComparisonOp {
    Equals,
    NotEquals,
    LessThan,
    LessThanEquals,
    GreaterThan,
    GreaterThanEquals,
}

/// One non-terminating statement of a block.
#[derive(Clone, Copy, PartialEq, Eq, Structural, Debug)]
pub enum Stmt {
    /// Evaluate a value and discard the result.
    EvalV { rv: usize },
    /// Store a value into a place.
    Assign { lv: usize, rv: usize },
    /// Read a place, combine it with a value, and store the result back.
    AssignOp { lv: usize, op: BinaryOp, rv: usize },
    /// A no-op annotation kept for diagnostics (a `strings` index).
    Comment { s: usize },
    /// An extended inline-assembly statement (an `asms` index).
    AsmStmt { a: usize },
}

/// The single control-transfer that ends a block.
#[derive(Clone, Copy, PartialEq, Eq, Structural, Debug)]
pub enum Term {
    /// An unconditional edge to `target`.
    Jump { target: usize },
    /// An edge to `on_true` if `cond` is non-zero, else to `on_false`.
    Cond { cond: usize, on_true: usize, on_false: usize },
    /// Leave the function with the value at `rv`.
    Ret { rv: usize },
    /// Leave the function with no value.
    RetVoid,
    /// A multi-way edge: the first case whose range holds `expr`, else
    /// `default`.  `cases` is an `arglists` index of case indices.
    Switch { expr: usize, default: usize, cases: usize },
    /// Inline assembly with labelled target blocks (`targets` is an
    /// `arglists` index of block indices) and an optional fallthrough.
    AsmGoto { a: usize, targets: usize, fallthrough: Option<usize> },
}

/// A basic block handle: an index into the owning context's block arena.
#[derive(Clone, Copy, PartialEq, Eq, Structural, Debug)]
pub struct Block {
    pub idx: usize,
}

impl ToObject for Block {
    fn to_object(&self) -> Object {
        Object { kind: ObjectKind::Blk, idx: self.idx }
    }
}

impl Block {
    /// This handle points into `pv`'s block arena.
    pub open spec fn valid(self, pv: ProgV) -> bool {
        self.idx < pv.blocks.len()
    }

    /// The block's record in `pv`.
    pub open spec fn data(self, pv: ProgV) -> BlockData {
        pv.blocks[self.idx as int]
    }

    /// The block does not have a terminator yet in `pv`.
    pub open spec fn open_in(self, pv: ProgV) -> bool {
        self.data(pv).term is None
    }
}

impl Block {
    /// Appends one non-terminating statement to this block, rejecting
    /// and logging the attempt if the block already has a terminator.
    pub(crate) fn add_stmt(
        self,
        ctx: &mut Context,
        st: Stmt,
        loc: Option<usize>,
    ) -> (r: Result<(), BuildError>)
        requires
            old(ctx).wf(),
            self.valid(old(ctx)@.prog),
        ensures
            final(ctx).wf(),
            match r {
                Result::Ok(u) => {
                    &&& self.open_in(old(ctx)@.prog)
                    &&& final(ctx)@ == (CtxV {
                        prog: crate::ir::push_stmt_rec(old(ctx)@.prog, StmtRec {
                            block: self.idx,
                            stmt: st,
                            loc,
                        }),
                        ..old(ctx)@
                    })
                },
                Result::Err(e) => {
                    &&& !self.open_in(old(ctx)@.prog)
                    &&& e == BuildError::BlockTerminated
                    &&& final(ctx)@ == (CtxV {
                        errors: old(ctx)@.errors.push(BuildError::BlockTerminated),
                        ..old(ctx)@
                    })
                },
            },
    {
        let terminated = match ctx.program.blocks[self.idx].term {
            Option::Some(_) => true,
            Option::None => false,
        };
        if terminated {
            ctx.log_error(BuildError::BlockTerminated);
            Result::Err(BuildError::BlockTerminated)
        } else {
            ctx.program.stmts.push(StmtRec { block: self.idx, stmt: st, loc });
            proof {
                assert(ctx@.prog =~= crate::ir::push_stmt_rec(old(ctx)@.prog, StmtRec {
                    block: self.idx,
                    stmt: st,
                    loc,
                }));
                crate::context::lemma_wf_extend(old(ctx)@.prog, ctx@.prog);
            }
            Result::Ok(())
        }
    }

    /// Gives this block its terminator, rejecting and logging the
    /// attempt if it already has one.
    pub(crate) fn set_term(
        self,
        ctx: &mut Context,
        t: Term,
        loc: Option<usize>,
    ) -> (r: Result<(), BuildError>)
        requires
            old(ctx).wf(),
            self.valid(old(ctx)@.prog),
        ensures
            final(ctx).wf(),
            match r {
                Result::Ok(u) => {
                    &&& self.open_in(old(ctx)@.prog)
                    &&& final(ctx)@ == (CtxV {
                        prog: crate::ir::with_block_term(
                            old(ctx)@.prog,
                            self.idx as int,
                            t,
                            loc,
                        ),
                        ..old(ctx)@
                    })
                },
                Result::Err(e) => {
                    &&& !self.open_in(old(ctx)@.prog)
                    &&& e == BuildError::BlockTerminated
                    &&& final(ctx)@ == (CtxV {
                        errors: old(ctx)@.errors.push(BuildError::BlockTerminated),
                        ..old(ctx)@
                    })
                },
            },
    {
        let bd = ctx.program.blocks[self.idx];
        let terminated = match bd.term {
            Option::Some(_) => true,
            Option::None => false,
        };
        if terminated {
            ctx.log_error(BuildError::BlockTerminated);
            Result::Err(BuildError::BlockTerminated)
        } else {
            ctx.program.blocks.set(self.idx, BlockData {
                func: bd.func,
                name: bd.name,
                term: Option::Some(t),
                term_loc: loc,
            });
            proof {
                assert(ctx@.prog =~= crate::ir::with_block_term(
                    old(ctx)@.prog,
                    self.idx as int,
                    t,
                    loc,
                ));
                crate::context::lemma_wf_extend(old(ctx)@.prog, ctx@.prog);
            }
            Result::Ok(())
        }
    }

    /// The function this block belongs to.
    pub fn get_function(&self, ctx: &Context) -> (f: Function)
        requires
            ctx.wf(),
            self.valid(ctx@.prog),
        ensures
            f.idx == self.data(ctx@.prog).func,
            f.idx < ctx@.prog.funcs.len(),
    {
        Function { idx: ctx.program.blocks[self.idx].func }
    }

    /// Evaluates a value and discards its result; the value is kept for
    /// its effects only.
    pub fn add_eval<T: ToRValue>(
        &self,
        ctx: &mut Context,
        loc: Option<Location>,
        value: T,
    ) -> (r: Result<(), BuildError>)
        requires
            old(ctx).wf(),
            self.valid(old(ctx)@.prog),
            value.rv_idx() < old(ctx)@.prog.values.len(),
            crate::location::loc_valid(loc, old(ctx)@.prog),
        ensures
            final(ctx).wf(),
            match r {
                Result::Ok(u) => {
                    &&& self.open_in(old(ctx)@.prog)
                    &&& final(ctx)@ == (CtxV {
                        prog: crate::ir::push_stmt_rec(old(ctx)@.prog, StmtRec {
                            block: self.idx,
                            stmt: Stmt::EvalV { rv: value.rv_idx() },
                            loc: crate::location::loc_idx(loc),
                        }),
                        ..old(ctx)@
                    })
                },
                Result::Err(e) => {
                    &&& !self.open_in(old(ctx)@.prog)
                    &&& e == BuildError::BlockTerminated
                    &&& final(ctx)@ == (CtxV {
                        errors: old(ctx)@.errors.push(BuildError::BlockTerminated),
                        ..old(ctx)@
                    })
                },
            },
    {
        let v = value.to_rvalue();
        self.add_stmt(ctx, Stmt::EvalV { rv: v.idx }, crate::location::opt_loc_idx(loc))
    }

    /// Stores a value into a place: the C assignment `target = value`.
    pub fn add_assignment<L: ToLValue, R: ToRValue>(
        &self,
        ctx: &mut Context,
        loc: Option<Location>,
        assign_target: L,
        value: R,
    ) -> (r: Result<(), BuildError>)
        requires
            old(ctx).wf(),
            self.valid(old(ctx)@.prog),
            assign_target.lv_idx() < old(ctx)@.prog.values.len(),
            value.rv_idx() < old(ctx)@.prog.values.len(),
            crate::location::loc_valid(loc, old(ctx)@.prog),
        ensures
            final(ctx).wf(),
            match r {
                Result::Ok(u) => {
                    &&& self.open_in(old(ctx)@.prog)
                    &&& final(ctx)@ == (CtxV {
                        prog: crate::ir::push_stmt_rec(old(ctx)@.prog, StmtRec {
                            block: self.idx,
                            stmt: Stmt::Assign {
                                lv: assign_target.lv_idx(),
                                rv: value.rv_idx(),
                            },
                            loc: crate::location::loc_idx(loc),
                        }),
                        ..old(ctx)@
                    })
                },
                Result::Err(e) => {
                    &&& !self.open_in(old(ctx)@.prog)
                    &&& e == BuildError::BlockTerminated
                    &&& final(ctx)@ == (CtxV {
                        errors: old(ctx)@.errors.push(BuildError::BlockTerminated),
                        ..old(ctx)@
                    })
                },
            },
    {
        let t = assign_target.to_lvalue();
        let v = value.to_rvalue();
        self.add_stmt(ctx, Stmt::Assign { lv: t.idx, rv: v.idx },
            crate::location::opt_loc_idx(loc))
    }

    /// Reads a place, combines it with a value through a binary
    /// operation, and stores the result back: the C `target op= value`.
    pub fn add_assignment_op<L: ToLValue, R: ToRValue>(
        &self,
        ctx: &mut Context,
        loc: Option<Location>,
        assign_target: L,
        op: BinaryOp,
        value: R,
    ) -> (r: Result<(), BuildError>)
        requires
            old(ctx).wf(),
            self.valid(old(ctx)@.prog),
            assign_target.lv_idx() < old(ctx)@.prog.values.len(),
            value.rv_idx() < old(ctx)@.prog.values.len(),
            crate::location::loc_valid(loc, old(ctx)@.prog),
        ensures
            final(ctx).wf(),
            match r {
                Result::Ok(u) => {
                    &&& self.open_in(old(ctx)@.prog)
                    &&& final(ctx)@ == (CtxV {
                        prog: crate::ir::push_stmt_rec(old(ctx)@.prog, StmtRec {
                            block: self.idx,
                            stmt: Stmt::AssignOp {
                                lv: assign_target.lv_idx(),
                                op,
                                rv: value.rv_idx(),
                            },
                            loc: crate::location::loc_idx(loc),
                        }),
                        ..old(ctx)@
                    })
                },
                Result::Err(e) => {
                    &&& !self.open_in(old(ctx)@.prog)
                    &&& e == BuildError::BlockTerminated
                    &&& final(ctx)@ == (CtxV {
                        errors: old(ctx)@.errors.push(BuildError::BlockTerminated),
                        ..old(ctx)@
                    })
                },
            },
    {
        let t = assign_target.to_lvalue();
        let v = value.to_rvalue();
        self.add_stmt(ctx, Stmt::AssignOp { lv: t.idx, op, rv: v.idx },
            crate::location::opt_loc_idx(loc))
    }

    /// Adds a no-op annotation kept for diagnostics.
    pub fn add_comment(
        &self,
        ctx: &mut Context,
        loc: Option<Location>,
        message: &str,
    ) -> (r: Result<(), BuildError>)
        requires
            old(ctx).wf(),
            self.valid(old(ctx)@.prog),
            crate::location::loc_valid(loc, old(ctx)@.prog),
        ensures
            final(ctx).wf(),
            match r {
                Result::Ok(u) => {
                    &&& self.open_in(old(ctx)@.prog)
                    &&& final(ctx)@ == (CtxV {
                        prog: crate::ir::push_stmt_rec(
                            crate::ir::push_string(old(ctx)@.prog, message@),
                            StmtRec {
                                block: self.idx,
                                stmt: Stmt::Comment {
                                    s: old(ctx)@.prog.strings.len() as usize,
                                },
                                loc: crate::location::loc_idx(loc),
                            },
                        ),
                        ..old(ctx)@
                    })
                },
                Result::Err(e) => {
                    &&& !self.open_in(old(ctx)@.prog)
                    &&& e == BuildError::BlockTerminated
                    &&& final(ctx)@ == (CtxV {
                        errors: old(ctx)@.errors.push(BuildError::BlockTerminated),
                        ..old(ctx)@
                    })
                },
            },
    {
        let terminated = match ctx.program.blocks[self.idx].term {
            Option::Some(_) => true,
            Option::None => false,
        };
        if terminated {
            ctx.log_error(BuildError::BlockTerminated);
            Result::Err(BuildError::BlockTerminated)
        } else {
            let s_idx = ctx.add_string(message);
            let r = self.add_stmt(ctx, Stmt::Comment { s: s_idx },
                crate::location::opt_loc_idx(loc));
            r
        }
    }

    /// Ends this block with a conditional branch: control moves to
    /// `on_true` if `cond` is non-zero, else to `on_false`.
    pub fn end_with_conditional<T: ToRValue>(
        &self,
        ctx: &mut Context,
        loc: Option<Location>,
        cond: T,
        on_true: Block,
        on_false: Block,
    ) -> (r: Result<(), BuildError>)
        requires
            old(ctx).wf(),
            self.valid(old(ctx)@.prog),
            cond.rv_idx() < old(ctx)@.prog.values.len(),
            on_true.valid(old(ctx)@.prog),
            on_false.valid(old(ctx)@.prog),
            crate::location::loc_valid(loc, old(ctx)@.prog),
        ensures
            final(ctx).wf(),
            match r {
                Result::Ok(u) => {
                    &&& self.open_in(old(ctx)@.prog)
                    &&& final(ctx)@ == (CtxV {
                        prog: crate::ir::with_block_term(
                            old(ctx)@.prog,
                            self.idx as int,
                            Term::Cond {
                                cond: cond.rv_idx(),
                                on_true: on_true.idx,
                                on_false: on_false.idx,
                            },
                            crate::location::loc_idx(loc),
                        ),
                        ..old(ctx)@
                    })
                },
                Result::Err(e) => {
                    &&& !self.open_in(old(ctx)@.prog)
                    &&& e == BuildError::BlockTerminated
                    &&& final(ctx)@ == (CtxV {
                        errors: old(ctx)@.errors.push(BuildError::BlockTerminated),
                        ..old(ctx)@
                    })
                },
            },
    {
        let c = cond.to_rvalue();
        self.set_term(ctx, Term::Cond {
            cond: c.idx,
            on_true: on_true.idx,
            on_false: on_false.idx,
        }, crate::location::opt_loc_idx(loc))
    }

    /// Ends this block with an unconditional jump to `target`.
    pub fn end_with_jump(
        &self,
        ctx: &mut Context,
        loc: Option<Location>,
        target: Block,
    ) -> (r: Result<(), BuildError>)
        requires
            old(ctx).wf(),
            self.valid(old(ctx)@.prog),
            target.valid(old(ctx)@.prog),
            crate::location::loc_valid(loc, old(ctx)@.prog),
        ensures
            final(ctx).wf(),
            match r {
                Result::Ok(u) => {
                    &&& self.open_in(old(ctx)@.prog)
                    &&& final(ctx)@ == (CtxV {
                        prog: crate::ir::with_block_term(
                            old(ctx)@.prog,
                            self.idx as int,
                            Term::Jump { target: target.idx },
                            crate::location::loc_idx(loc),
                        ),
                        ..old(ctx)@
                    })
                },
                Result::Err(e) => {
                    &&& !self.open_in(old(ctx)@.prog)
                    &&& e == BuildError::BlockTerminated
                    &&& final(ctx)@ == (CtxV {
                        errors: old(ctx)@.errors.push(BuildError::BlockTerminated),
                        ..old(ctx)@
                    })
                },
            },
    {
        self.set_term(ctx, Term::Jump { target: target.idx },
            crate::location::opt_loc_idx(loc))
    }

    /// Ends this block by returning `ret` from the containing function;
    /// for functions whose return type is not void.
    pub fn end_with_return<T: ToRValue>(
        &self,
        ctx: &mut Context,
        loc: Option<Location>,
        ret: T,
    ) -> (r: Result<(), BuildError>)
        requires
            old(ctx).wf(),
            self.valid(old(ctx)@.prog),
            ret.rv_idx() < old(ctx)@.prog.values.len(),
            crate::location::loc_valid(loc, old(ctx)@.prog),
        ensures
            final(ctx).wf(),
            match r {
                Result::Ok(u) => {
                    &&& self.open_in(old(ctx)@.prog)
                    &&& final(ctx)@ == (CtxV {
                        prog: crate::ir::with_block_term(
                            old(ctx)@.prog,
                            self.idx as int,
                            Term::Ret { rv: ret.rv_idx() },
                            crate::location::loc_idx(loc),
                        ),
                        ..old(ctx)@
                    })
                },
                Result::Err(e) => {
                    &&& !self.open_in(old(ctx)@.prog)
                    &&& e == BuildError::BlockTerminated
                    &&& final(ctx)@ == (CtxV {
                        errors: old(ctx)@.errors.push(BuildError::BlockTerminated),
                        ..old(ctx)@
                    })
                },
            },
    {
        let v = ret.to_rvalue();
        self.set_term(ctx, Term::Ret { rv: v.idx }, crate::location::opt_loc_idx(loc))
    }

    /// Ends this block by returning with no value; for functions whose
    /// return type is void.
    pub fn end_with_void_return(
        &self,
        ctx: &mut Context,
        loc: Option<Location>,
    ) -> (r: Result<(), BuildError>)
        requires
            old(ctx).wf(),
            self.valid(old(ctx)@.prog),
            crate::location::loc_valid(loc, old(ctx)@.prog),
        ensures
            final(ctx).wf(),
            match r {
                Result::Ok(u) => {
                    &&& self.open_in(old(ctx)@.prog)
                    &&& final(ctx)@ == (CtxV {
                        prog: crate::ir::with_block_term(
                            old(ctx)@.prog,
                            self.idx as int,
                            Term::RetVoid,
                            crate::location::loc_idx(loc),
                        ),
                        ..old(ctx)@
                    })
                },
                Result::Err(e) => {
                    &&& !self.open_in(old(ctx)@.prog)
                    &&& e == BuildError::BlockTerminated
                    &&& final(ctx)@ == (CtxV {
                        errors: old(ctx)@.errors.push(BuildError::BlockTerminated),
                        ..old(ctx)@
                    })
                },
            },
    {
        self.set_term(ctx, Term::RetVoid, crate::location::opt_loc_idx(loc))
    }

    /// Ends this block with a multi-way branch: control moves to the
    /// first case whose range holds `expr`, else to `default_block`.
    pub fn end_with_switch<T: ToRValue>(
        &self,
        ctx: &mut Context,
        loc: Option<Location>,
        expr: T,
        default_block: Block,
        cases: &[Case],
    ) -> (r: Result<(), BuildError>)
        requires
            old(ctx).wf(),
            self.valid(old(ctx)@.prog),
            expr.rv_idx() < old(ctx)@.prog.values.len(),
            default_block.valid(old(ctx)@.prog),
            forall|j: int| 0 <= j < cases@.len() ==> (#[trigger] cases@[j]).valid(
                old(ctx)@.prog,
            ),
            crate::location::loc_valid(loc, old(ctx)@.prog),
        ensures
            final(ctx).wf(),
            match r {
                Result::Ok(u) => {
                    &&& self.open_in(old(ctx)@.prog)
                    &&& final(ctx)@ == (CtxV {
                        prog: crate::ir::with_block_term(
                            crate::ir::push_arglist(
                                old(ctx)@.prog,
                                cases@.map_values(|c: Case| c.idx),
                            ),
                            self.idx as int,
                            Term::Switch {
                                expr: expr.rv_idx(),
                                default: default_block.idx,
                                cases: old(ctx)@.prog.arglists.len() as usize,
                            },
                            crate::location::loc_idx(loc),
                        ),
                        ..old(ctx)@
                    })
                },
                Result::Err(e) => {
                    &&& !self.open_in(old(ctx)@.prog)
                    &&& e == BuildError::BlockTerminated
                    &&& final(ctx)@ == (CtxV {
                        errors: old(ctx)@.errors.push(BuildError::BlockTerminated),
                        ..old(ctx)@
                    })
                },
            },
    {
        let e = expr.to_rvalue();
        let terminated = match ctx.program.blocks[self.idx].term {
            Option::Some(_) => true,
            Option::None => false,
        };
        if terminated {
            ctx.log_error(BuildError::BlockTerminated);
            Result::Err(BuildError::BlockTerminated)
        } else {
            let mut cidxs: Vec<usize> = Vec::new();
            let mut j: usize = 0;
            while j < cases.len()
                invariant
                    j <= cases.len(),
                    cidxs@ == cases@.take(j as int).map_values(|c: Case| c.idx),
                decreases cases.len() - j,
            {
                cidxs.push(cases[j].idx);
                proof {
                    assert(cases@.take(j + 1) =~= cases@.take(j as int).push(cases@[j as int]));
                    assert(cidxs@ =~= cases@.take(j + 1).map_values(|c: Case| c.idx));
                }
                j = j + 1;
            }
            proof {
                assert(cases@.take(cases@.len() as int) =~= cases@);
            }
            let alx = ctx.push_arglist_rec(cidxs);
            let r = self.set_term(ctx, Term::Switch {
                expr: e.idx,
                default: default_block.idx,
                cases: alx,
            }, crate::location::opt_loc_idx(loc));
            r
        }
    }

    /// Adds an extended inline-assembly statement with the given
    /// template and returns its handle for attaching operands.
    pub fn add_extended_asm(
        &self,
        ctx: &mut Context,
        loc: Option<Location>,
        asm_template: &str,
    ) -> (r: Result<ExtendedAsm, BuildError>)
        requires
            old(ctx).wf(),
            self.valid(old(ctx)@.prog),
            crate::location::loc_valid(loc, old(ctx)@.prog),
        ensures
            final(ctx).wf(),
            match r {
                Result::Ok(ea) => {
                    &&& self.open_in(old(ctx)@.prog)
                    &&& ea.idx == old(ctx)@.prog.asms.len()
                    &&& ea.valid(final(ctx)@.prog)
                    &&& final(ctx)@ == (CtxV {
                        prog: crate::ir::push_stmt_rec(
                            crate::ir::push_asm_rec(
                                crate::ir::push_string(old(ctx)@.prog, asm_template@),
                                AsmData {
                                    template: old(ctx)@.prog.strings.len() as usize,
                                    volatile_flag: false,
                                    inline_flag: false,
                                },
                            ),
                            StmtRec {
                                block: self.idx,
                                stmt: Stmt::AsmStmt { a: old(ctx)@.prog.asms.len() as usize },
                                loc: crate::location::loc_idx(loc),
                            },
                        ),
                        ..old(ctx)@
                    })
                },
                Result::Err(e) => {
                    &&& !self.open_in(old(ctx)@.prog)
                    &&& e == BuildError::BlockTerminated
                    &&& final(ctx)@ == (CtxV {
                        errors: old(ctx)@.errors.push(BuildError::BlockTerminated),
                        ..old(ctx)@
                    })
                },
            },
    {
        let terminated = match ctx.program.blocks[self.idx].term {
            Option::Some(_) => true,
            Option::None => false,
        };
        if terminated {
            ctx.log_error(BuildError::BlockTerminated);
            Result::Err(BuildError::BlockTerminated)
        } else {
            let t_idx = ctx.add_string(asm_template);
            let a_idx = ctx.program.asms.len();
            ctx.program.asms.push(AsmData {
                template: t_idx,
                volatile_flag: false,
                inline_flag: false,
            });
            proof {
                crate::context::lemma_wf_extend(old(ctx)@.prog, ctx@.prog);
            }
            let r = self.add_stmt(ctx, Stmt::AsmStmt { a: a_idx },
                crate::location::opt_loc_idx(loc));
            proof {
                assert(ctx@.prog =~= crate::ir::push_stmt_rec(
                    crate::ir::push_asm_rec(
                        crate::ir::push_string(old(ctx)@.prog, asm_template@),
                        AsmData {
                            template: old(ctx)@.prog.strings.len() as usize,
                            volatile_flag: false,
                            inline_flag: false,
                        },
                    ),
                    StmtRec {
                        block: self.idx,
                        stmt: Stmt::AsmStmt { a: old(ctx)@.prog.asms.len() as usize },
                        loc: crate::location::loc_idx(loc),
                    },
                ));
            }
            Result::Ok(ExtendedAsm { idx: a_idx })
        }
    }

    /// Ends this block with inline assembly that may jump to any of the
    /// labelled target blocks, with an optional fallthrough.
    pub fn end_with_extended_asm_goto(
        &self,
        ctx: &mut Context,
        loc: Option<Location>,
        asm_template: &str,
        goto_blocks: &[Block],
        fallthrough_block: Option<Block>,
    ) -> (r: Result<ExtendedAsm, BuildError>)
        requires
            old(ctx).wf(),
            self.valid(old(ctx)@.prog),
            forall|j: int| 0 <= j < goto_blocks@.len() ==> (#[trigger] goto_blocks@[j]).valid(
                old(ctx)@.prog,
            ),
            crate::location::loc_valid(loc, old(ctx)@.prog),
        ensures
            final(ctx).wf(),
            match r {
                Result::Ok(ea) => {
                    &&& self.open_in(old(ctx)@.prog)
                    &&& ea.idx == old(ctx)@.prog.asms.len()
                    &&& ea.valid(final(ctx)@.prog)
                    &&& final(ctx)@ == (CtxV {
                        prog: crate::ir::with_block_term(
                            crate::ir::push_arglist(
                                crate::ir::push_asm_rec(
                                    crate::ir::push_string(old(ctx)@.prog, asm_template@),
                                    AsmData {
                                        template: old(ctx)@.prog.strings.len() as usize,
                                        volatile_flag: false,
                                        inline_flag: false,
                                    },
                                ),
                                goto_blocks@.map_values(|b: Block| b.idx),
                            ),
                            self.idx as int,
                            Term::AsmGoto {
                                a: old(ctx)@.prog.asms.len() as usize,
                                targets: old(ctx)@.prog.arglists.len() as usize,
                                fallthrough: match fallthrough_block {
                                    Option::Some(b) => Option::Some(b.idx),
                                    Option::None => Option::None,
                                },
                            },
                            crate::location::loc_idx(loc),
                        ),
                        ..old(ctx)@
                    })
                },
                Result::Err(e) => {
                    &&& !self.open_in(old(ctx)@.prog)
                    &&& e == BuildError::BlockTerminated
                    &&& final(ctx)@ == (CtxV {
                        errors: old(ctx)@.errors.push(BuildError::BlockTerminated),
                        ..old(ctx)@
                    })
                },
            },
    {
        let terminated = match ctx.program.blocks[self.idx].term {
            Option::Some(_) => true,
            Option::None => false,
        };
        if terminated {
            ctx.log_error(BuildError::BlockTerminated);
            Result::Err(BuildError::BlockTerminated)
        } else {
            let t_idx = ctx.add_string(asm_template);
            let a_idx = ctx.program.asms.len();
            ctx.program.asms.push(AsmData {
                template: t_idx,
                volatile_flag: false,
                inline_flag: false,
            });
            proof {
                crate::context::lemma_wf_extend(old(ctx)@.prog, ctx@.prog);
            }
            let mut bidxs: Vec<usize> = Vec::new();
            let mut j: usize = 0;
            while j < goto_blocks.len()
                invariant
                    j <= goto_blocks.len(),
                    bidxs@ == goto_blocks@.take(j as int).map_values(|b: Block| b.idx),
                decreases goto_blocks.len() - j,
            {
                bidxs.push(goto_blocks[j].idx);
                proof {
                    assert(goto_blocks@.take(j + 1) =~= goto_blocks@.take(j as int).push(
                        goto_blocks@[j as int],
                    ));
                    assert(bidxs@ =~= goto_blocks@.take(j + 1).map_values(|b: Block| b.idx));
                }
                j = j + 1;
            }
            proof {
                assert(goto_blocks@.take(goto_blocks@.len() as int) =~= goto_blocks@);
            }
            let alx = ctx.push_arglist_rec(bidxs);
            let ft = match fallthrough_block {
                Option::Some(b) => Option::Some(b.idx),
                Option::None => Option::None,
            };
            let r = self.set_term(ctx, Term::AsmGoto { a: a_idx, targets: alx, fallthrough: ft },
                crate::location::opt_loc_idx(loc));
            proof {
                assert(ctx@.prog =~= crate::ir::with_block_term(
                    crate::ir::push_arglist(
                        crate::ir::push_asm_rec(
                            crate::ir::push_string(old(ctx)@.prog, asm_template@),
                            AsmData {
                                template: old(ctx)@.prog.strings.len() as usize,
                                volatile_flag: false,
                                inline_flag: false,
                            },
                        ),
                        goto_blocks@.map_values(|b: Block| b.idx),
                    ),
                    self.idx as int,
                    Term::AsmGoto {
                        a: old(ctx)@.prog.asms.len() as usize,
                        targets: old(ctx)@.prog.arglists.len() as usize,
                        fallthrough: match fallthrough_block {
                            Option::Some(b) => Option::Some(b.idx),
                            Option::None => Option::None,
                        },
                    },
                    crate::location::loc_idx(loc),
                ));
            }
            Result::Ok(ExtendedAsm { idx: a_idx })
        }
    }
}

} // verus!
