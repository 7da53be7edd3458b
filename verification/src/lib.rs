//! A safe, verified builder for a just-in-time compilation library's
//! intermediate representation (IR).
//!
//! A [`Context`] owns every IR entity it creates: types, fields, struct and
//! union types, functions, parameters, basic blocks, and value expressions.
//! Entities are referred to through small copyable handles that index into
//! the context's arenas, so a handle can never dangle and entities from one
//! context cannot be confused with another context's memory.
//!
//! Once a program has been assembled, `Context::compile` validates it
//! (every block of every defined function must end in exactly one
//! terminator) and produces a `CompileResult`: an independently owned
//! snapshot from which exported functions can be looked up by name and run
//! by the crate's reference evaluator.

mod ir;
mod error;
mod object;
mod location;
mod types;
mod field;
mod structs;
mod lvalue;
mod rvalue;
mod parameter;
mod function;
mod block;
mod ext_asm;
mod context;
mod eval;
mod loops;

pub use ir::{PrimKind, TypeDesc, ValueData, StmtRec, BlockData, FunctionData,
    FieldData, StructData, UnionData, SigData, ParamData, CaseData, LocData, AsmData,
    AsmOpRec, AsmOpKind, Program, ProgV, prog_wf, values_acyclic, types_acyclic};
pub use error::{BuildError, EvalError};
pub use object::{Object, ObjectKind, ToObject, type_text_spec, object_text_spec,
    lemma_type_text_nonempty, lemma_object_text_nonempty};
pub use location::Location;
pub use types::{Type, VectorType, FunctionPtrType, Typeable};
pub use field::Field;
pub use structs::Struct;
pub use lvalue::{LValue, ToLValue};
pub use rvalue::{RValue, ToRValue};
pub use parameter::Parameter;
pub use function::{Function, FunctionType};
pub use block::{Block, BinaryOp, UnaryOp, ComparisonOp, Stmt, Term};
pub use ext_asm::ExtendedAsm;
pub use context::{Context, CompileResult, CompiledFunction, CompiledGlobal, Case, CType,
    CtxV, GlobalKind, OptimizationLevel, OutputKind, intern_type_spec, lemma_intern_idempotent,
    program_valid, find_exported_from, find_exported_global_from, lemma_find_exported_none};
pub use eval::{NumKind, invoke_fn, eval_rv, run_block, num_kind_of, trunc_k, binop_sem,
    unop_sem, cmp_sem};
pub use loops::{BracketToken, LoopStack, build_bracket_cfg, balanced, bal, open_count,
    has_unmatched_close};
