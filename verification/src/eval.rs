//! The reference evaluator: a verified interpreter that gives compiled
//! programs their meaning.
//!
//! Values are 64-bit two's-complement integers.  Every operation
//! computes at 64 bits and then truncates to its result type's width;
//! narrow unsigned results are zero-extended, narrow signed results are
//! sign-extended, and the boolean type holds zero or one.  Comparisons
//! and divisions are unsigned exactly when the governing type is an
//! unsigned 64-bit type; narrower unsigned operands are already
//! zero-extended, so the signed forms agree on them.  The logical
//! connectives short-circuit, as they do in C.
//!
//! The evaluator models the integer core of the language: literals,
//! parameters, locals, arithmetic, comparisons, casts, direct calls,
//! assignments, and every control-flow terminator except assembly.
//! Memory (pointers, arrays, globals, fields), vectors, string values,
//! indirect calls, and calls into externally linked functions are
//! outside its scope and fail with `EvalError::Unsupported`.
//!
//! Every recursive step consumes one unit of fuel, so evaluation always
//! terminates; a program that runs too long fails with
//! `EvalError::OutOfFuel`.

use vstd::prelude::*;

use crate::error::EvalError;
use crate::ir::{ProgV, Program, TypeDesc, PrimKind, ValueData, prog_wf};
use crate::block::{BinaryOp, UnaryOp, ComparisonOp, Stmt, Term};
use crate::function::FunctionType;

verus! {

/// The numeric shape of a type: the boolean flag type, or an integer
/// width with a signedness.  Pointer-shaped types count as unsigned
/// 64-bit integers.
#[derive(Clone, Copy, PartialEq, Eq, Structural, Debug)]
pub enum NumKind {
    Flag,
    I8,
    U8,
    I16,
    U16,
    I32,
    U32,
    I64,
    U64,
}

/// The numeric shape of the type record at `ty`, looking through
/// qualifiers; `None` for void, aggregates, vectors, and unknown
/// widths.
pub open spec fn num_kind_of(pv: ProgV, ty: usize) -> Option<NumKind>
    decreases ty when crate::ir::types_acyclic(pv) via num_kind_of_decreases
{
    if ty >= pv.types.len() {
        Option::None
    } else {
        match pv.types[ty as int] {
            TypeDesc::Prim(k) => match k {
                PrimKind::Void => Option::None,
                PrimKind::Bool => Option::Some(NumKind::Flag),
                PrimKind::Char => Option::Some(NumKind::I8),
                PrimKind::UChar => Option::Some(NumKind::U8),
                PrimKind::SChar => Option::Some(NumKind::I8),
                PrimKind::Short => Option::Some(NumKind::I16),
                PrimKind::UShort => Option::Some(NumKind::U16),
                PrimKind::Int => Option::Some(NumKind::I32),
                PrimKind::UInt => Option::Some(NumKind::U32),
                PrimKind::Long => Option::Some(NumKind::I64),
                PrimKind::ULong => Option::Some(NumKind::U64),
                PrimKind::LongLong => Option::Some(NumKind::I64),
                PrimKind::ULongLong => Option::Some(NumKind::U64),
                PrimKind::SizeT => Option::Some(NumKind::U64),
                PrimKind::VoidPtr => Option::Some(NumKind::U64),
            },
            TypeDesc::IntWidth { bytes, signed } => if bytes == 1 {
                Option::Some(if signed { NumKind::I8 } else { NumKind::U8 })
            } else if bytes == 2 {
                Option::Some(if signed { NumKind::I16 } else { NumKind::U16 })
            } else if bytes == 4 {
                Option::Some(if signed { NumKind::I32 } else { NumKind::U32 })
            } else if bytes == 8 {
                Option::Some(if signed { NumKind::I64 } else { NumKind::U64 })
            } else {
                Option::None
            },
            TypeDesc::Pointer { .. } => Option::Some(NumKind::U64),
            TypeDesc::FnPtr { .. } => Option::Some(NumKind::U64),
            TypeDesc::ConstOf { base } => num_kind_of(pv, base),
            TypeDesc::VolatileOf { base } => num_kind_of(pv, base),
            TypeDesc::AlignedOf { base, .. } => num_kind_of(pv, base),
            _ => Option::None,
        }
    }
}

#[via_fn]
proof fn num_kind_of_decreases(pv: ProgV, ty: usize) {
    if ty < pv.types.len() {
        assert(crate::ir::type_wf(pv, ty as int));
    }
}

/// Truncates the 64-bit value `v` to the kind `k`: narrow signed kinds
/// sign-extend, narrow unsigned kinds zero-extend, the flag kind maps
/// non-zero to one.
pub open spec fn trunc_k(k: NumKind, v: i64) -> i64 {
    match k {
        NumKind::Flag => if v != 0 {
            1
        } else {
            0
        },
        NumKind::I8 => v as i8 as i64,
        NumKind::U8 => v as u8 as i64,
        NumKind::I16 => v as i16 as i64,
        NumKind::U16 => v as u16 as i64,
        NumKind::I32 => v as i32 as i64,
        NumKind::U32 => v as u32 as i64,
        NumKind::I64 => v,
        NumKind::U64 => v,
    }
}

/// Whether the kind divides and compares as an unsigned 64-bit value.
/// Narrower unsigned kinds are zero-extended, so signed arithmetic
/// already treats them correctly.
pub open spec fn is_u64_kind(k: NumKind) -> bool {
    k == NumKind::U64
}

/// The 64-bit result of a binary operation, before truncation to the
/// result kind.  Addition, subtraction and multiplication wrap;
/// division and remainder by zero fail; shifts by amounts outside the
/// word fail; the logical connectives test both operands against zero.
pub open spec fn binop_sem(op: BinaryOp, k: NumKind, a: i64, b: i64) -> Result<i64, EvalError> {
    match op {
        BinaryOp::Plus => Result::Ok(vstd::wrapping::i64_specs::wrapping_add(a, b)),
        BinaryOp::Minus => Result::Ok(vstd::wrapping::i64_specs::wrapping_sub(a, b)),
        BinaryOp::Mult => Result::Ok(vstd::wrapping::i64_specs::wrapping_mul(a, b)),
        BinaryOp::Divide => if b == 0 {
            Result::Err(EvalError::DivisionByZero)
        } else if is_u64_kind(k) {
            Result::Ok((((a as u64) / (b as u64)) as i64))
        } else if a == i64::MIN && b == -1 {
            Result::Ok(i64::MIN)
        } else {
            match a.checked_div(b) {
                Option::Some(q) => Result::Ok(q),
                Option::None => Result::Err(EvalError::DivisionByZero),
            }
        },
        BinaryOp::Modulo => if b == 0 {
            Result::Err(EvalError::DivisionByZero)
        } else if is_u64_kind(k) {
            Result::Ok((((a as u64) % (b as u64)) as i64))
        } else if a == i64::MIN && b == -1 {
            Result::Ok(0)
        } else {
            match a.checked_rem(b) {
                Option::Some(q) => Result::Ok(q),
                Option::None => Result::Err(EvalError::DivisionByZero),
            }
        },
        BinaryOp::BitwiseAnd => Result::Ok((((a as u64) & (b as u64)) as i64)),
        BinaryOp::BitwiseXor => Result::Ok((((a as u64) ^ (b as u64)) as i64)),
        BinaryOp::BitwiseOr => Result::Ok((((a as u64) | (b as u64)) as i64)),
        BinaryOp::LogicalAnd => Result::Ok(if a != 0 && b != 0 { 1 } else { 0 }),
        BinaryOp::LogicalOr => Result::Ok(if a != 0 || b != 0 { 1 } else { 0 }),
        BinaryOp::LShift => if 0 <= b < 64 {
            Result::Ok((((a as u64) << (b as u64)) as i64))
        } else {
            Result::Err(EvalError::ShiftOutOfRange)
        },
        BinaryOp::RShift => if 0 <= b < 64 {
            if is_u64_kind(k) || a >= 0 || b == 0 {
                Result::Ok((((a as u64) >> (b as u64)) as i64))
            } else {
                Result::Ok(
                    ((((a as u64) >> (b as u64)) | (u64::MAX << ((64 - b) as u64))) as i64),
                )
            }
        } else {
            Result::Err(EvalError::ShiftOutOfRange)
        },
    }
}

/// The 64-bit result of a unary operation, before truncation.
pub open spec fn unop_sem(op: UnaryOp, a: i64) -> i64 {
    match op {
        UnaryOp::Minus => vstd::wrapping::i64_specs::wrapping_sub(0, a),
        UnaryOp::BitwiseNegate => ((!(a as u64)) as i64),
        UnaryOp::LogicalNegate => if a == 0 {
            1
        } else {
            0
        },
        UnaryOp::Abs => if a < 0 {
            vstd::wrapping::i64_specs::wrapping_sub(0, a)
        } else {
            a
        },
    }
}

/// The boolean result of a comparison, as zero or one.  `unsigned`
/// selects the unsigned 64-bit ordering.
pub open spec fn cmp_sem(op: ComparisonOp, unsigned: bool, a: i64, b: i64) -> i64 {
    let lt = if unsigned {
        (a as u64) < (b as u64)
    } else {
        a < b
    };
    let gt = if unsigned {
        (a as u64) > (b as u64)
    } else {
        a > b
    };
    match op {
        ComparisonOp::Equals => if a == b {
            1
        } else {
            0
        },
        ComparisonOp::NotEquals => if a != b {
            1
        } else {
            0
        },
        ComparisonOp::LessThan => if lt {
            1
        } else {
            0
        },
        ComparisonOp::LessThanEquals => if !gt {
            1
        } else {
            0
        },
        ComparisonOp::GreaterThan => if gt {
            1
        } else {
            0
        },
        ComparisonOp::GreaterThanEquals => if !lt {
            1
        } else {
            0
        },
    }
}

/// Whether the value record at `l` is a storage slot the evaluator
/// models: a local variable or a parameter slot.
pub open spec fn is_slot(pv: ProgV, l: usize) -> bool {
    &&& l < pv.values.len()
    &&& match pv.values[l as int] {
        ValueData::LocalVar { .. } => true,
        ValueData::ParamSlot { .. } => true,
        _ => false,
    }
}

/// The first block of the function at `f`, scanning from `i`: the
/// function's entry block by construction order.
pub open spec fn find_block_from(pv: ProgV, f: usize, i: int) -> Option<int>
    decreases pv.blocks.len() - i when 0 <= i <= pv.blocks.len()
{
    if i >= pv.blocks.len() {
        Option::None
    } else if pv.blocks[i].func == f {
        Option::Some(i)
    } else {
        find_block_from(pv, f, i + 1)
    }
}

/// The value of the value record at `v` in the given frame.  The frame
/// maps each slot record's index to its current contents.
pub open spec fn eval_rv(pv: ProgV, frame: Seq<i64>, fuel: nat, v: usize) -> Result<
    i64,
    EvalError,
>
    decreases fuel, 1nat, 0nat,
{
    if fuel == 0 {
        Result::Err(EvalError::OutOfFuel)
    } else if v >= pv.values.len() {
        Result::Err(EvalError::Malformed)
    } else {
        let fl = (fuel - 1) as nat;
        match pv.values[v as int] {
            ValueData::IntConst { ty, val } => match num_kind_of(pv, ty) {
                Option::Some(k) => Result::Ok(trunc_k(k, val)),
                Option::None => Result::Err(EvalError::Unsupported),
            },
            ValueData::ParamVal { p, .. } => if p < pv.params.len()
                && pv.params[p as int].lv < frame.len() {
                Result::Ok(frame[pv.params[p as int].lv as int])
            } else {
                Result::Err(EvalError::Malformed)
            },
            ValueData::Load { l, .. } => if is_slot(pv, l) && l < frame.len() {
                Result::Ok(frame[l as int])
            } else {
                Result::Err(EvalError::Unsupported)
            },
            ValueData::Binary { op, ty, lhs, rhs } => match eval_rv(pv, frame, fl, lhs) {
                Result::Ok(a) => if op == BinaryOp::LogicalAnd && a == 0 {
                    Result::Ok(0)
                } else if op == BinaryOp::LogicalOr && a != 0 {
                    Result::Ok(1)
                } else {
                    match eval_rv(pv, frame, fl, rhs) {
                        Result::Ok(b) => match num_kind_of(pv, ty) {
                            Option::Some(k) => match binop_sem(op, k, a, b) {
                                Result::Ok(r) => Result::Ok(trunc_k(k, r)),
                                Result::Err(e) => Result::Err(e),
                            },
                            Option::None => Result::Err(EvalError::Unsupported),
                        },
                        Result::Err(e) => Result::Err(e),
                    }
                },
                Result::Err(e) => Result::Err(e),
            },
            ValueData::Unary { op, ty, v: inner } => match eval_rv(pv, frame, fl, inner) {
                Result::Ok(a) => match num_kind_of(pv, ty) {
                    Option::Some(k) => Result::Ok(trunc_k(k, unop_sem(op, a))),
                    Option::None => Result::Err(EvalError::Unsupported),
                },
                Result::Err(e) => Result::Err(e),
            },
            ValueData::Compare { op, lhs, rhs, .. } => match eval_rv(pv, frame, fl, lhs) {
                Result::Ok(a) => match eval_rv(pv, frame, fl, rhs) {
                    Result::Ok(b) => if lhs < pv.values.len() {
                        match num_kind_of(pv, pv.values[lhs as int].stored_ty()) {
                            Option::Some(k) => Result::Ok(cmp_sem(op, is_u64_kind(k), a, b)),
                            Option::None => Result::Err(EvalError::Unsupported),
                        }
                    } else {
                        Result::Err(EvalError::Malformed)
                    },
                    Result::Err(e) => Result::Err(e),
                },
                Result::Err(e) => Result::Err(e),
            },
            ValueData::CallFn { f, args, .. } => if args < pv.arglists.len() {
                match eval_args(pv, frame, fl, pv.arglists[args as int], 0) {
                    Result::Ok(argvals) => match invoke_fn(pv, fl, f, argvals) {
                        Result::Ok(Option::Some(r)) => Result::Ok(r),
                        Result::Ok(Option::None) => Result::Ok(0),
                        Result::Err(e) => Result::Err(e),
                    },
                    Result::Err(e) => Result::Err(e),
                }
            } else {
                Result::Err(EvalError::Malformed)
            },
            ValueData::Cast { v: inner, ty } => match eval_rv(pv, frame, fl, inner) {
                Result::Ok(a) => match num_kind_of(pv, ty) {
                    Option::Some(k) => Result::Ok(trunc_k(k, a)),
                    Option::None => Result::Err(EvalError::Unsupported),
                },
                Result::Err(e) => Result::Err(e),
            },
            _ => Result::Err(EvalError::Unsupported),
        }
    }
}

/// The values of the argument records `args`, from position `i` on.
pub open spec fn eval_args(pv: ProgV, frame: Seq<i64>, fuel: nat, args: Seq<usize>, i: int) -> Result<
    Seq<i64>,
    EvalError,
>
    decreases fuel, 0nat, 0nat,
{
    if fuel == 0 {
        Result::Err(EvalError::OutOfFuel)
    } else if i < 0 || i >= args.len() {
        Result::Ok(Seq::empty())
    } else {
        match eval_rv(pv, frame, (fuel - 1) as nat, args[i]) {
            Result::Ok(a) => match eval_args(pv, frame, (fuel - 1) as nat, args, i + 1) {
                Result::Ok(rest) => Result::Ok(seq![a] + rest),
                Result::Err(e) => Result::Err(e),
            },
            Result::Err(e) => Result::Err(e),
        }
    }
}

/// The frame with the argument values stored into the parameter slots
/// named by `plist`, from position `j` on, each truncated to its
/// parameter's type.
pub open spec fn bind_args(
    pv: ProgV,
    frame: Seq<i64>,
    plist: Seq<usize>,
    argvals: Seq<i64>,
    j: int,
) -> Result<Seq<i64>, EvalError>
    decreases plist.len() - j when 0 <= j <= plist.len()
{
    if j >= plist.len() || j >= argvals.len() {
        Result::Ok(frame)
    } else {
        let p = plist[j];
        if p < pv.params.len() && pv.params[p as int].lv < frame.len() {
            match num_kind_of(pv, pv.params[p as int].ty) {
                Option::Some(k) => bind_args(
                    pv,
                    frame.update(pv.params[p as int].lv as int, trunc_k(k, argvals[j])),
                    plist,
                    argvals,
                    j + 1,
                ),
                Option::None => Result::Err(EvalError::Unsupported),
            }
        } else {
            Result::Err(EvalError::Malformed)
        }
    }
}

/// Runs the block at `b` from statement-arena position `i` on: applies
/// the block's remaining statements to the frame, then its terminator.
/// `Ok(Some(v))` is a valued return, `Ok(None)` a void return.
pub open spec fn run_block(pv: ProgV, frame: Seq<i64>, fuel: nat, b: usize, i: int) -> Result<
    Option<i64>,
    EvalError,
>
    decreases fuel, 2nat, 1nat,
{
    if fuel == 0 {
        Result::Err(EvalError::OutOfFuel)
    } else if b >= pv.blocks.len() || i < 0 {
        Result::Err(EvalError::Malformed)
    } else {
        let fl = (fuel - 1) as nat;
        if i < pv.stmts.len() {
            if pv.stmts[i].block != b {
                run_block(pv, frame, fl, b, i + 1)
            } else {
                match pv.stmts[i].stmt {
                    Stmt::EvalV { rv } => match eval_rv(pv, frame, fl, rv) {
                        Result::Ok(a) => run_block(pv, frame, fl, b, i + 1),
                        Result::Err(e) => Result::Err(e),
                    },
                    Stmt::Assign { lv, rv } => match eval_rv(pv, frame, fl, rv) {
                        Result::Ok(a) => if is_slot(pv, lv) && lv < frame.len() {
                            match num_kind_of(pv, pv.values[lv as int].stored_ty()) {
                                Option::Some(k) => run_block(
                                    pv,
                                    frame.update(lv as int, trunc_k(k, a)),
                                    fl,
                                    b,
                                    i + 1,
                                ),
                                Option::None => Result::Err(EvalError::Unsupported),
                            }
                        } else {
                            Result::Err(EvalError::Unsupported)
                        },
                        Result::Err(e) => Result::Err(e),
                    },
                    Stmt::AssignOp { lv, op, rv } => match eval_rv(pv, frame, fl, rv) {
                        Result::Ok(a) => if is_slot(pv, lv) && lv < frame.len() {
                            match num_kind_of(pv, pv.values[lv as int].stored_ty()) {
                                Option::Some(k) => match binop_sem(
                                    op,
                                    k,
                                    frame[lv as int],
                                    a,
                                ) {
                                    Result::Ok(r) => run_block(
                                        pv,
                                        frame.update(lv as int, trunc_k(k, r)),
                                        fl,
                                        b,
                                        i + 1,
                                    ),
                                    Result::Err(e) => Result::Err(e),
                                },
                                Option::None => Result::Err(EvalError::Unsupported),
                            }
                        } else {
                            Result::Err(EvalError::Unsupported)
                        },
                        Result::Err(e) => Result::Err(e),
                    },
                    Stmt::Comment { .. } => run_block(pv, frame, fl, b, i + 1),
                    Stmt::AsmStmt { .. } => Result::Err(EvalError::Unsupported),
                }
            }
        } else {
            match pv.blocks[b as int].term {
                Option::None => Result::Err(EvalError::Malformed),
                Option::Some(t) => match t {
                    Term::Jump { target } => run_block(pv, frame, fl, target, 0),
                    Term::Cond { cond, on_true, on_false } => match eval_rv(
                        pv,
                        frame,
                        fl,
                        cond,
                    ) {
                        Result::Ok(c) => if c != 0 {
                            run_block(pv, frame, fl, on_true, 0)
                        } else {
                            run_block(pv, frame, fl, on_false, 0)
                        },
                        Result::Err(e) => Result::Err(e),
                    },
                    Term::Ret { rv } => match eval_rv(pv, frame, fl, rv) {
                        Result::Ok(a) => Result::Ok(Option::Some(a)),
                        Result::Err(e) => Result::Err(e),
                    },
                    Term::RetVoid => Result::Ok(Option::None),
                    Term::Switch { expr, default, cases } => match eval_rv(
                        pv,
                        frame,
                        fl,
                        expr,
                    ) {
                        Result::Ok(sv) => if cases < pv.arglists.len() {
                            match find_case(
                                pv,
                                frame,
                                fl,
                                pv.arglists[cases as int],
                                0,
                                sv,
                                default,
                            ) {
                                Result::Ok(target) => run_block(pv, frame, fl, target, 0),
                                Result::Err(e) => Result::Err(e),
                            }
                        } else {
                            Result::Err(EvalError::Malformed)
                        },
                        Result::Err(e) => Result::Err(e),
                    },
                    Term::AsmGoto { .. } => Result::Err(EvalError::Unsupported),
                },
            }
        }
    }
}

/// The destination of a switch on `val`: the first case (from position
/// `k` on) whose bounds hold `val`, else `default`.  Bounds compare as
/// signed values.
pub open spec fn find_case(
    pv: ProgV,
    frame: Seq<i64>,
    fuel: nat,
    cs: Seq<usize>,
    k: int,
    val: i64,
    default: usize,
) -> Result<usize, EvalError>
    decreases fuel, 2nat, 0nat,
{
    if fuel == 0 {
        Result::Err(EvalError::OutOfFuel)
    } else if k < 0 || k >= cs.len() {
        Result::Ok(default)
    } else if cs[k] >= pv.cases.len() {
        Result::Err(EvalError::Malformed)
    } else {
        let fl = (fuel - 1) as nat;
        let c = pv.cases[cs[k] as int];
        match eval_rv(pv, frame, fl, c.min_rv) {
            Result::Ok(mn) => match eval_rv(pv, frame, fl, c.max_rv) {
                Result::Ok(mx) => if mn <= val && val <= mx {
                    Result::Ok(c.dest)
                } else {
                    find_case(pv, frame, fl, cs, k + 1, val, default)
                },
                Result::Err(e) => Result::Err(e),
            },
            Result::Err(e) => Result::Err(e),
        }
    }
}

/// Calls the function at `f` with the given argument values: a fresh
/// zero frame is built, the arguments are bound to the parameter slots,
/// and the entry block runs.  A call into an externally linked function
/// cannot be evaluated.
pub open spec fn invoke_fn(pv: ProgV, fuel: nat, f: usize, argvals: Seq<i64>) -> Result<
    Option<i64>,
    EvalError,
>
    decreases fuel, 3nat, 0nat,
{
    if fuel == 0 {
        Result::Err(EvalError::OutOfFuel)
    } else if f >= pv.funcs.len() {
        Result::Err(EvalError::Malformed)
    } else if pv.funcs[f as int].kind == FunctionType::Extern {
        Result::Err(EvalError::Unsupported)
    } else if pv.funcs[f as int].params >= pv.arglists.len() {
        Result::Err(EvalError::Malformed)
    } else {
        let plist = pv.arglists[pv.funcs[f as int].params as int];
        if argvals.len() != plist.len() {
            Result::Err(EvalError::BadArgumentCount)
        } else {
            let zero_frame = Seq::new(pv.values.len(), |i: int| 0i64);
            match bind_args(pv, zero_frame, plist, argvals, 0) {
                Result::Ok(frame) => match find_block_from(pv, f, 0) {
                    Option::Some(entry) => run_block(
                        pv,
                        frame,
                        (fuel - 1) as nat,
                        entry as usize,
                        0,
                    ),
                    Option::None => Result::Err(EvalError::Malformed),
                },
                Result::Err(e) => Result::Err(e),
            }
        }
    }
}

/// Computes the numeric shape of the type record at `ty`.
pub fn num_kind_x(p: &Program, ty: usize) -> (r: Option<NumKind>)
    requires
        prog_wf(p@),
    ensures
        r == num_kind_of(p@, ty),
    decreases ty,
{
    if ty >= p.types.len() {
        Option::None
    } else {
        proof {
            assert(crate::ir::type_wf(p@, ty as int));
        }
        match p.types[ty] {
            TypeDesc::Prim(k) => match k {
                PrimKind::Void => Option::None,
                PrimKind::Bool => Option::Some(NumKind::Flag),
                PrimKind::Char => Option::Some(NumKind::I8),
                PrimKind::UChar => Option::Some(NumKind::U8),
                PrimKind::SChar => Option::Some(NumKind::I8),
                PrimKind::Short => Option::Some(NumKind::I16),
                PrimKind::UShort => Option::Some(NumKind::U16),
                PrimKind::Int => Option::Some(NumKind::I32),
                PrimKind::UInt => Option::Some(NumKind::U32),
                PrimKind::Long => Option::Some(NumKind::I64),
                PrimKind::ULong => Option::Some(NumKind::U64),
                PrimKind::LongLong => Option::Some(NumKind::I64),
                PrimKind::ULongLong => Option::Some(NumKind::U64),
                PrimKind::SizeT => Option::Some(NumKind::U64),
                PrimKind::VoidPtr => Option::Some(NumKind::U64),
            },
            TypeDesc::IntWidth { bytes, signed } => {
                if bytes == 1 {
                    Option::Some(if signed { NumKind::I8 } else { NumKind::U8 })
                } else if bytes == 2 {
                    Option::Some(if signed { NumKind::I16 } else { NumKind::U16 })
                } else if bytes == 4 {
                    Option::Some(if signed { NumKind::I32 } else { NumKind::U32 })
                } else if bytes == 8 {
                    Option::Some(if signed { NumKind::I64 } else { NumKind::U64 })
                } else {
                    Option::None
                }
            },
            TypeDesc::Pointer { .. } => Option::Some(NumKind::U64),
            TypeDesc::FnPtr { .. } => Option::Some(NumKind::U64),
            TypeDesc::ConstOf { base } => num_kind_x(p, base),
            TypeDesc::VolatileOf { base } => num_kind_x(p, base),
            TypeDesc::AlignedOf { base, .. } => num_kind_x(p, base),
            _ => Option::None,
        }
    }
}

/// Truncates a 64-bit value to a numeric kind.
pub fn trunc_k_x(k: NumKind, v: i64) -> (r: i64)
    ensures
        r == trunc_k(k, v),
{
    match k {
        NumKind::Flag => if v != 0 {
            1
        } else {
            0
        },
        NumKind::I8 => (#[verifier::truncate] (v as i8)) as i64,
        NumKind::U8 => (#[verifier::truncate] (v as u8)) as i64,
        NumKind::I16 => (#[verifier::truncate] (v as i16)) as i64,
        NumKind::U16 => (#[verifier::truncate] (v as u16)) as i64,
        NumKind::I32 => (#[verifier::truncate] (v as i32)) as i64,
        NumKind::U32 => (#[verifier::truncate] (v as u32)) as i64,
        NumKind::I64 => v,
        NumKind::U64 => v,
    }
}

/// Computes one binary operation at 64 bits.
pub fn binop_x(op: BinaryOp, k: NumKind, a: i64, b: i64) -> (r: Result<i64, EvalError>)
    ensures
        r == binop_sem(op, k, a, b),
{
    let au = #[verifier::truncate] (a as u64);
    let bu = #[verifier::truncate] (b as u64);
    match op {
        BinaryOp::Plus => Result::Ok(a.wrapping_add(b)),
        BinaryOp::Minus => Result::Ok(a.wrapping_sub(b)),
        BinaryOp::Mult => Result::Ok(a.wrapping_mul(b)),
        BinaryOp::Divide => {
            if b == 0 {
                Result::Err(EvalError::DivisionByZero)
            } else if k == NumKind::U64 {
                proof {
                    assert((b as u64) != 0) by (bit_vector)
                        requires b != 0;
                }
                Result::Ok(#[verifier::truncate] ((au / bu) as i64))
            } else if a == i64::MIN && b == -1 {
                Result::Ok(i64::MIN)
            } else {
                match a.checked_div(b) {
                    Option::Some(q) => Result::Ok(q),
                    Option::None => Result::Err(EvalError::DivisionByZero),
                }
            }
        },
        BinaryOp::Modulo => {
            if b == 0 {
                Result::Err(EvalError::DivisionByZero)
            } else if k == NumKind::U64 {
                proof {
                    assert((b as u64) != 0) by (bit_vector)
                        requires b != 0;
                }
                Result::Ok(#[verifier::truncate] ((au % bu) as i64))
            } else if a == i64::MIN && b == -1 {
                Result::Ok(0)
            } else {
                match a.checked_rem(b) {
                    Option::Some(q) => Result::Ok(q),
                    Option::None => Result::Err(EvalError::DivisionByZero),
                }
            }
        },
        BinaryOp::BitwiseAnd => Result::Ok(#[verifier::truncate] ((au & bu) as i64)),
        BinaryOp::BitwiseXor => Result::Ok(#[verifier::truncate] ((au ^ bu) as i64)),
        BinaryOp::BitwiseOr => Result::Ok(#[verifier::truncate] ((au | bu) as i64)),
        BinaryOp::LogicalAnd => Result::Ok(if a != 0 && b != 0 { 1 } else { 0 }),
        BinaryOp::LogicalOr => Result::Ok(if a != 0 || b != 0 { 1 } else { 0 }),
        BinaryOp::LShift => {
            if 0 <= b && b < 64 {
                Result::Ok(#[verifier::truncate] ((au << bu) as i64))
            } else {
                Result::Err(EvalError::ShiftOutOfRange)
            }
        },
        BinaryOp::RShift => {
            if 0 <= b && b < 64 {
                if k == NumKind::U64 || a >= 0 || b == 0 {
                    Result::Ok(#[verifier::truncate] ((au >> bu) as i64))
                } else {
                    let fill = u64::MAX << ((64 - b) as u64);
                    Result::Ok(#[verifier::truncate] (((au >> bu) | fill) as i64))
                }
            } else {
                Result::Err(EvalError::ShiftOutOfRange)
            }
        },
    }
}

/// Computes one unary operation at 64 bits.
pub fn unop_x(op: UnaryOp, a: i64) -> (r: i64)
    ensures
        r == unop_sem(op, a),
{
    match op {
        UnaryOp::Minus => 0i64.wrapping_sub(a),
        UnaryOp::BitwiseNegate => #[verifier::truncate] ((!(#[verifier::truncate] (a as u64)))
            as i64),
        UnaryOp::LogicalNegate => if a == 0 {
            1
        } else {
            0
        },
        UnaryOp::Abs => if a < 0 {
            0i64.wrapping_sub(a)
        } else {
            a
        },
    }
}

/// Computes one comparison, as zero or one.
pub fn cmp_x(op: ComparisonOp, unsigned: bool, a: i64, b: i64) -> (r: i64)
    ensures
        r == cmp_sem(op, unsigned, a, b),
{
    let au = #[verifier::truncate] (a as u64);
    let bu = #[verifier::truncate] (b as u64);
    let lt = if unsigned {
        au < bu
    } else {
        a < b
    };
    let gt = if unsigned {
        au > bu
    } else {
        a > b
    };
    match op {
        ComparisonOp::Equals => if a == b {
            1
        } else {
            0
        },
        ComparisonOp::NotEquals => if a != b {
            1
        } else {
            0
        },
        ComparisonOp::LessThan => if lt {
            1
        } else {
            0
        },
        ComparisonOp::LessThanEquals => if !gt {
            1
        } else {
            0
        },
        ComparisonOp::GreaterThan => if gt {
            1
        } else {
            0
        },
        ComparisonOp::GreaterThanEquals => if !lt {
            1
        } else {
            0
        },
    }
}

/// Evaluates a binary-operation record.
#[verifier::rlimit(100)]
fn eval_binary_x(
    p: &Program,
    frame: &Vec<i64>,
    fuel: u64,
    v: usize,
    op: BinaryOp,
    ty: usize,
    lhs: usize,
    rhs: usize,
) -> (r: Result<i64, EvalError>)
    requires
        prog_wf(p@),
        fuel >= 1,
        v < p@.values.len(),
        p@.values[v as int] == (ValueData::Binary { op, ty, lhs, rhs }),
    ensures
        r == eval_rv(p@, frame@, fuel as nat, v),
    decreases fuel, 1int, 0int,
{
    let fl = fuel - 1;
    match eval_rv_x(p, frame, fl, lhs) {
        Result::Ok(a) => {
            if op == BinaryOp::LogicalAnd && a == 0 {
                Result::Ok(0)
            } else if op == BinaryOp::LogicalOr && a != 0 {
                Result::Ok(1)
            } else {
                match eval_rv_x(p, frame, fl, rhs) {
                    Result::Ok(b) => match num_kind_x(p, ty) {
                        Option::Some(k) => match binop_x(op, k, a, b) {
                            Result::Ok(r0) => Result::Ok(trunc_k_x(k, r0)),
                            Result::Err(e) => Result::Err(e),
                        },
                        Option::None => Result::Err(EvalError::Unsupported),
                    },
                    Result::Err(e) => Result::Err(e),
                }
            }
        },
        Result::Err(e) => Result::Err(e),
    }
}

/// Evaluates a comparison record.
#[verifier::rlimit(100)]
fn eval_compare_x(
    p: &Program,
    frame: &Vec<i64>,
    fuel: u64,
    v: usize,
    op: ComparisonOp,
    cty: usize,
    lhs: usize,
    rhs: usize,
) -> (r: Result<i64, EvalError>)
    requires
        prog_wf(p@),
        fuel >= 1,
        v < p@.values.len(),
        p@.values[v as int] == (ValueData::Compare { op, ty: cty, lhs, rhs }),
    ensures
        r == eval_rv(p@, frame@, fuel as nat, v),
    decreases fuel, 1int, 0int,
{
    let fl = fuel - 1;
    match eval_rv_x(p, frame, fl, lhs) {
        Result::Ok(a) => match eval_rv_x(p, frame, fl, rhs) {
            Result::Ok(b) => {
                if lhs < p.values.len() {
                    let lt = p.values[lhs].get_stored_ty();
                    match num_kind_x(p, lt) {
                        Option::Some(k) => Result::Ok(cmp_x(op, k == NumKind::U64, a, b)),
                        Option::None => Result::Err(EvalError::Unsupported),
                    }
                } else {
                    Result::Err(EvalError::Malformed)
                }
            },
            Result::Err(e) => Result::Err(e),
        },
        Result::Err(e) => Result::Err(e),
    }
}

/// Evaluates a direct-call record.
#[verifier::rlimit(100)]
fn eval_call_x(
    p: &Program,
    frame: &Vec<i64>,
    fuel: u64,
    v: usize,
    f: usize,
    cty: usize,
    args: usize,
) -> (r: Result<i64, EvalError>)
    requires
        prog_wf(p@),
        fuel >= 1,
        v < p@.values.len(),
        p@.values[v as int] == (ValueData::CallFn { f, ty: cty, args }),
    ensures
        r == eval_rv(p@, frame@, fuel as nat, v),
    decreases fuel, 1int, 0int,
{
    let fl = fuel - 1;
    if args < p.arglists.len() {
        let argl = &p.arglists[args];
        proof {
            assert(p@.arglists[args as int] =~= argl@);
        }
        match eval_args_x(p, frame, fl, argl, 0) {
            Result::Ok(argvals) => match invoke_fn_x(p, fl, f, &argvals) {
                Result::Ok(Option::Some(r0)) => Result::Ok(r0),
                Result::Ok(Option::None) => Result::Ok(0),
                Result::Err(e) => Result::Err(e),
            },
            Result::Err(e) => Result::Err(e),
        }
    } else {
        Result::Err(EvalError::Malformed)
    }
}

/// Evaluates the value record at `v`.
#[verifier::rlimit(100)]
pub fn eval_rv_x(p: &Program, frame: &Vec<i64>, fuel: u64, v: usize) -> (r: Result<
    i64,
    EvalError,
>)
    requires
        prog_wf(p@),
    ensures
        r == eval_rv(p@, frame@, fuel as nat, v),
    decreases fuel, 1int, 1int,
{
    if fuel == 0 {
        Result::Err(EvalError::OutOfFuel)
    } else if v >= p.values.len() {
        Result::Err(EvalError::Malformed)
    } else {
        let fl = fuel - 1;
        match p.values[v] {
            ValueData::IntConst { ty, val } => match num_kind_x(p, ty) {
                Option::Some(k) => Result::Ok(trunc_k_x(k, val)),
                Option::None => Result::Err(EvalError::Unsupported),
            },
            ValueData::ParamVal { p: pi, .. } => {
                if pi < p.params.len() && p.params[pi].lv < frame.len() {
                    Result::Ok(frame[p.params[pi].lv])
                } else {
                    Result::Err(EvalError::Malformed)
                }
            },
            ValueData::Load { l, .. } => {
                let slot = l < p.values.len() && match p.values[l] {
                    ValueData::LocalVar { .. } => true,
                    ValueData::ParamSlot { .. } => true,
                    _ => false,
                };
                if slot && l < frame.len() {
                    Result::Ok(frame[l])
                } else {
                    Result::Err(EvalError::Unsupported)
                }
            },
            ValueData::Binary { op, ty, lhs, rhs } => eval_binary_x(
                p,
                frame,
                fuel,
                v,
                op,
                ty,
                lhs,
                rhs,
            ),
            ValueData::Unary { op, ty, v: inner } => match eval_rv_x(p, frame, fl, inner) {
                Result::Ok(a) => match num_kind_x(p, ty) {
                    Option::Some(k) => Result::Ok(trunc_k_x(k, unop_x(op, a))),
                    Option::None => Result::Err(EvalError::Unsupported),
                },
                Result::Err(e) => Result::Err(e),
            },
            ValueData::Compare { op, ty, lhs, rhs } => eval_compare_x(
                p,
                frame,
                fuel,
                v,
                op,
                ty,
                lhs,
                rhs,
            ),
            ValueData::CallFn { f, ty, args } => eval_call_x(p, frame, fuel, v, f, ty, args),
            ValueData::Cast { v: inner, ty } => match eval_rv_x(p, frame, fl, inner) {
                Result::Ok(a) => match num_kind_x(p, ty) {
                    Option::Some(k) => Result::Ok(trunc_k_x(k, a)),
                    Option::None => Result::Err(EvalError::Unsupported),
                },
                Result::Err(e) => Result::Err(e),
            },
            _ => Result::Err(EvalError::Unsupported),
        }
    }
}

/// Evaluates the argument records `args` from position `i` on.
#[verifier::rlimit(100)]
pub fn eval_args_x(p: &Program, frame: &Vec<i64>, fuel: u64, args: &Vec<usize>, i: usize) -> (r:
    Result<Vec<i64>, EvalError>)
    requires
        prog_wf(p@),
    ensures
        match r {
            Result::Ok(vs) => eval_args(p@, frame@, fuel as nat, args@, i as int)
                == Result::<Seq<i64>, EvalError>::Ok(vs@),
            Result::Err(e) => eval_args(p@, frame@, fuel as nat, args@, i as int)
                == Result::<Seq<i64>, EvalError>::Err(e),
        },
    decreases fuel, 0int, 0int,
{
    if fuel == 0 {
        Result::Err(EvalError::OutOfFuel)
    } else if i >= args.len() {
        let out: Vec<i64> = Vec::new();
        proof {
            assert(out@ =~= Seq::<i64>::empty());
        }
        Result::Ok(out)
    } else {
        match eval_rv_x(p, frame, fuel - 1, args[i]) {
            Result::Ok(a) => match eval_args_x(p, frame, fuel - 1, args, i + 1) {
                Result::Ok(rest) => {
                    let ghost restv = rest@;
                    let mut out = rest;
                    out.insert(0, a);
                    proof {
                        assert(out@ =~= seq![a] + restv);
                    }
                    Result::Ok(out)
                },
                Result::Err(e) => Result::Err(e),
            },
            Result::Err(e) => Result::Err(e),
        }
    }
}

/// Binds argument values into their parameter slots, from position `j`
/// on.
pub fn bind_args_x(
    p: &Program,
    frame: Vec<i64>,
    plist: &Vec<usize>,
    argvals: &Vec<i64>,
    j: usize,
) -> (r: Result<Vec<i64>, EvalError>)
    requires
        prog_wf(p@),
        j <= plist@.len(),
    ensures
        match r {
            Result::Ok(fr) => bind_args(p@, frame@, plist@, argvals@, j as int)
                == Result::<Seq<i64>, EvalError>::Ok(fr@),
            Result::Err(e) => bind_args(p@, frame@, plist@, argvals@, j as int)
                == Result::<Seq<i64>, EvalError>::Err(e),
        },
    decreases plist@.len() - j,
{
    if j >= plist.len() || j >= argvals.len() {
        Result::Ok(frame)
    } else {
        let pi = plist[j];
        if pi < p.params.len() && p.params[pi].lv < frame.len() {
            match num_kind_x(p, p.params[pi].ty) {
                Option::Some(k) => {
                    let mut fr = frame;
                    let tv = trunc_k_x(k, argvals[j]);
                    fr.set(p.params[pi].lv, tv);
                    bind_args_x(p, fr, plist, argvals, j + 1)
                },
                Option::None => Result::Err(EvalError::Unsupported),
            }
        } else {
            Result::Err(EvalError::Malformed)
        }
    }
}

/// Runs the block at `b` from statement-arena position `i` on.
#[verifier::rlimit(100)]
pub fn run_block_x(p: &Program, frame: &mut Vec<i64>, fuel: u64, b: usize, i: usize) -> (r:
    Result<Option<i64>, EvalError>)
    requires
        prog_wf(p@),
    ensures
        r == run_block(p@, old(frame)@, fuel as nat, b, i as int),
    decreases fuel, 2int, 1int,
{
    if fuel == 0 {
        Result::Err(EvalError::OutOfFuel)
    } else if b >= p.blocks.len() {
        Result::Err(EvalError::Malformed)
    } else {
        let fl = fuel - 1;
        if i < p.stmts.len() {
            if p.stmts[i].block != b {
                run_block_x(p, frame, fl, b, i + 1)
            } else {
                match p.stmts[i].stmt {
                    Stmt::EvalV { rv } => match eval_rv_x(p, frame, fl, rv) {
                        Result::Ok(a) => run_block_x(p, frame, fl, b, i + 1),
                        Result::Err(e) => Result::Err(e),
                    },
                    Stmt::Assign { lv, rv } => match eval_rv_x(p, frame, fl, rv) {
                        Result::Ok(a) => {
                            let slot = lv < p.values.len() && match p.values[lv] {
                                ValueData::LocalVar { .. } => true,
                                ValueData::ParamSlot { .. } => true,
                                _ => false,
                            };
                            if slot && lv < frame.len() {
                                let lt = p.values[lv].get_stored_ty();
                                match num_kind_x(p, lt) {
                                    Option::Some(k) => {
                                        let tv = trunc_k_x(k, a);
                                        frame.set(lv, tv);
                                        run_block_x(p, frame, fl, b, i + 1)
                                    },
                                    Option::None => Result::Err(EvalError::Unsupported),
                                }
                            } else {
                                Result::Err(EvalError::Unsupported)
                            }
                        },
                        Result::Err(e) => Result::Err(e),
                    },
                    Stmt::AssignOp { lv, op, rv } => match eval_rv_x(p, frame, fl, rv) {
                        Result::Ok(a) => {
                            let slot = lv < p.values.len() && match p.values[lv] {
                                ValueData::LocalVar { .. } => true,
                                ValueData::ParamSlot { .. } => true,
                                _ => false,
                            };
                            if slot && lv < frame.len() {
                                let lt = p.values[lv].get_stored_ty();
                                match num_kind_x(p, lt) {
                                    Option::Some(k) => match binop_x(op, k, frame[lv], a) {
                                        Result::Ok(r0) => {
                                            let tv = trunc_k_x(k, r0);
                                            frame.set(lv, tv);
                                            run_block_x(p, frame, fl, b, i + 1)
                                        },
                                        Result::Err(e) => Result::Err(e),
                                    },
                                    Option::None => Result::Err(EvalError::Unsupported),
                                }
                            } else {
                                Result::Err(EvalError::Unsupported)
                            }
                        },
                        Result::Err(e) => Result::Err(e),
                    },
                    Stmt::Comment { .. } => run_block_x(p, frame, fl, b, i + 1),
                    Stmt::AsmStmt { .. } => Result::Err(EvalError::Unsupported),
                }
            }
        } else {
            match p.blocks[b].term {
                Option::None => Result::Err(EvalError::Malformed),
                Option::Some(t) => match t {
                    Term::Jump { target } => run_block_x(p, frame, fl, target, 0),
                    Term::Cond { cond, on_true, on_false } => match eval_rv_x(
                        p,
                        frame,
                        fl,
                        cond,
                    ) {
                        Result::Ok(c) => {
                            if c != 0 {
                                run_block_x(p, frame, fl, on_true, 0)
                            } else {
                                run_block_x(p, frame, fl, on_false, 0)
                            }
                        },
                        Result::Err(e) => Result::Err(e),
                    },
                    Term::Ret { rv } => match eval_rv_x(p, frame, fl, rv) {
                        Result::Ok(a) => Result::Ok(Option::Some(a)),
                        Result::Err(e) => Result::Err(e),
                    },
                    Term::RetVoid => Result::Ok(Option::None),
                    Term::Switch { expr, default, cases } => match eval_rv_x(
                        p,
                        frame,
                        fl,
                        expr,
                    ) {
                        Result::Ok(sv) => {
                            if cases < p.arglists.len() {
                                let r0 = {
                                    let csv = &p.arglists[cases];
                                    proof {
                                        assert(p@.arglists[cases as int] =~= csv@);
                                    }
                                    find_case_x(p, frame, fl, csv, 0, sv, default)
                                };
                                match r0 {
                                    Result::Ok(target) => run_block_x(p, frame, fl, target, 0),
                                    Result::Err(e) => Result::Err(e),
                                }
                            } else {
                                Result::Err(EvalError::Malformed)
                            }
                        },
                        Result::Err(e) => Result::Err(e),
                    },
                    Term::AsmGoto { .. } => Result::Err(EvalError::Unsupported),
                },
            }
        }
    }
}

/// Finds the destination of a switch on `val`, from case position `k`
/// on.
pub fn find_case_x(
    p: &Program,
    frame: &Vec<i64>,
    fuel: u64,
    cs: &Vec<usize>,
    k: usize,
    val: i64,
    default: usize,
) -> (r: Result<usize, EvalError>)
    requires
        prog_wf(p@),
    ensures
        r == find_case(p@, frame@, fuel as nat, cs@, k as int, val, default),
    decreases fuel, 2int, 0int,
{
    if fuel == 0 {
        Result::Err(EvalError::OutOfFuel)
    } else if k >= cs.len() {
        Result::Ok(default)
    } else if cs[k] >= p.cases.len() {
        Result::Err(EvalError::Malformed)
    } else {
        let fl = fuel - 1;
        let c = p.cases[cs[k]];
        match eval_rv_x(p, frame, fl, c.min_rv) {
            Result::Ok(mn) => match eval_rv_x(p, frame, fl, c.max_rv) {
                Result::Ok(mx) => {
                    if mn <= val && val <= mx {
                        Result::Ok(c.dest)
                    } else {
                        find_case_x(p, frame, fl, cs, k + 1, val, default)
                    }
                },
                Result::Err(e) => Result::Err(e),
            },
            Result::Err(e) => Result::Err(e),
        }
    }
}

/// Finds the entry block of the function at `f`, scanning from `i`.
pub fn find_block_x(p: &Program, f: usize, i: usize) -> (r: Option<usize>)
    requires
        i <= p@.blocks.len(),
    ensures
        match r {
            Option::Some(b) => find_block_from(p@, f, i as int) == Option::Some(b as int),
            Option::None => find_block_from(p@, f, i as int) is None,
        },
    decreases p@.blocks.len() - i,
{
    if i >= p.blocks.len() {
        Option::None
    } else if p.blocks[i].func == f {
        Option::Some(i)
    } else {
        find_block_x(p, f, i + 1)
    }
}

/// Calls the function at `f` with the given argument values.
#[verifier::rlimit(100)]
pub fn invoke_fn_x(p: &Program, fuel: u64, f: usize, argvals: &Vec<i64>) -> (r: Result<
    Option<i64>,
    EvalError,
>)
    requires
        prog_wf(p@),
    ensures
        r == invoke_fn(p@, fuel as nat, f, argvals@),
    decreases fuel, 3int, 0int,
{
    if fuel == 0 {
        Result::Err(EvalError::OutOfFuel)
    } else if f >= p.funcs.len() {
        Result::Err(EvalError::Malformed)
    } else if p.funcs[f].kind == FunctionType::Extern {
        Result::Err(EvalError::Unsupported)
    } else if p.funcs[f].params >= p.arglists.len() {
        Result::Err(EvalError::Malformed)
    } else {
        let plen = {
            let pl = &p.arglists[p.funcs[f].params];
            proof {
                assert(p@.arglists[p@.funcs[f as int].params as int] =~= pl@);
            }
            pl.len()
        };
        if argvals.len() != plen {
            Result::Err(EvalError::BadArgumentCount)
        } else {
            let n = p.values.len();
            let mut zero_frame: Vec<i64> = Vec::new();
            let mut z: usize = 0;
            while z < n
                invariant
                    z <= n,
                    zero_frame@.len() == z,
                    forall|q: int| 0 <= q < z ==> zero_frame@[q] == 0i64,
                decreases n - z,
            {
                zero_frame.push(0);
                z = z + 1;
            }
            proof {
                assert(zero_frame@ =~= Seq::new(p@.values.len(), |q: int| 0i64));
            }
            let bres = {
                let plist = &p.arglists[p.funcs[f].params];
                proof {
                    assert(p@.arglists[p@.funcs[f as int].params as int] =~= plist@);
                }
                bind_args_x(p, zero_frame, plist, argvals, 0)
            };
            match bres {
                Result::Ok(mut fr) => match find_block_x(p, f, 0) {
                    Option::Some(entry) => run_block_x(p, &mut fr, fuel - 1, entry, 0),
                    Option::None => Result::Err(EvalError::Malformed),
                },
                Result::Err(e) => Result::Err(e),
            }
        }
    }
}

impl crate::context::CompileResult {
    /// Runs a compiled function on the given arguments with the
    /// reference evaluator, under a step budget.  `Ok(Some(v))` is a
    /// valued return, `Ok(None)` a void return.
    pub fn invoke(&self, f: crate::context::CompiledFunction, args: &Vec<i64>, fuel: u64) -> (r:
        Result<Option<i64>, EvalError>)
        requires
            prog_wf(self.program@),
        ensures
            r == invoke_fn(self.program@, fuel as nat, f.idx, args@),
    {
        invoke_fn_x(&self.program, fuel, f.idx, args)
    }
}

} // verus!
