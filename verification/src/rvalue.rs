//! Values without a guaranteed storage location.

use vstd::prelude::*;

use crate::object::{Object, ObjectKind, ToObject};
use crate::context::{Context, CtxV};
use crate::field::Field;
use crate::location::Location;
use crate::lvalue::LValue;
use crate::types::Type;
use crate::ir::{ProgV, ValueData};

verus! {

/// A value-expression handle: an index into the owning context's value
/// arena.
#[derive(Clone, Copy, PartialEq, Eq, Structural, Debug)]
pub struct RValue {
    pub idx: usize,
}

/// Coercion to [`RValue`], implemented by everything that can be read as
/// a value.  The coercion is total and allocates nothing: handles carry
/// the index of their value record.
pub trait ToRValue {
    /// The index of the value record this handle reads as.
    spec fn rv_idx(&self) -> usize;

    /// Coerces to an [`RValue`] handle.
    fn to_rvalue(&self) -> (r: RValue)
        ensures
            r.idx == self.rv_idx(),
    ;
}

impl ToRValue for RValue {
    open spec fn rv_idx(&self) -> usize {
        self.idx
    }

    fn to_rvalue(&self) -> (r: RValue) {
        RValue { idx: self.idx }
    }
}

impl ToObject for RValue {
    fn to_object(&self) -> Object {
        Object { kind: ObjectKind::Val, idx: self.idx }
    }
}

impl RValue {
    /// This handle points into `pv`'s value arena.
    pub open spec fn valid(self, pv: ProgV) -> bool {
        self.idx < pv.values.len()
    }

    /// The value record in `pv`.
    pub open spec fn data(self, pv: ProgV) -> ValueData {
        pv.values[self.idx as int]
    }
}

impl RValue {
    /// The type of this value, as stored in its record.
    pub fn get_type(&self, ctx: &Context) -> (t: Type)
        requires
            self.valid(ctx@.prog),
        ensures
            t.idx == self.data(ctx@.prog).stored_ty(),
    {
        Type { idx: ctx.program.values[self.idx].get_stored_ty() }
    }

    /// The place `self.field`, for a value of a struct or union type.
    pub fn access_field(&self, ctx: &mut Context, loc: Option<Location>, field: Field) -> (l:
        LValue)
        requires
            old(ctx).wf(),
            self.valid(old(ctx)@.prog),
            field.valid(old(ctx)@.prog),
            crate::location::loc_valid(loc, old(ctx)@.prog),
        ensures
            final(ctx).wf(),
            final(ctx)@ == (CtxV {
                prog: crate::ir::push_place(
                    old(ctx)@.prog,
                    ValueData::FieldOfR {
                        base: self.idx,
                        field: field.idx,
                        ty: old(ctx)@.prog.fields[field.idx as int].ty,
                    },
                    crate::location::loc_idx(loc),
                ),
                ..old(ctx)@
            }),
            l.idx == old(ctx)@.prog.values.len(),
            l.load == old(ctx)@.prog.values.len() + 1,
            l.valid(final(ctx)@.prog),
    {
        let fty = ctx.program.fields[field.idx].ty;
        let (lv, ld) = ctx.push_place_rec(ValueData::FieldOfR {
            base: self.idx,
            field: field.idx,
            ty: fty,
        }, crate::location::opt_loc_idx(loc));
        LValue { idx: lv, load: ld }
    }

    /// The place `self->field`, for a pointer to a struct or union.
    pub fn dereference_field(&self, ctx: &mut Context, loc: Option<Location>, field: Field) -> (l:
        LValue)
        requires
            old(ctx).wf(),
            self.valid(old(ctx)@.prog),
            field.valid(old(ctx)@.prog),
            crate::location::loc_valid(loc, old(ctx)@.prog),
        ensures
            final(ctx).wf(),
            final(ctx)@ == (CtxV {
                prog: crate::ir::push_place(
                    old(ctx)@.prog,
                    ValueData::DerefField {
                        ptr: self.idx,
                        field: field.idx,
                        ty: old(ctx)@.prog.fields[field.idx as int].ty,
                    },
                    crate::location::loc_idx(loc),
                ),
                ..old(ctx)@
            }),
            l.idx == old(ctx)@.prog.values.len(),
            l.load == old(ctx)@.prog.values.len() + 1,
            l.valid(final(ctx)@.prog),
    {
        let fty = ctx.program.fields[field.idx].ty;
        let (lv, ld) = ctx.push_place_rec(ValueData::DerefField {
            ptr: self.idx,
            field: field.idx,
            ty: fty,
        }, crate::location::opt_loc_idx(loc));
        LValue { idx: lv, load: ld }
    }

    /// The place `*self`, for a pointer value.
    pub fn dereference(&self, ctx: &mut Context, loc: Option<Location>) -> (l: LValue)
        requires
            old(ctx).wf(),
            self.valid(old(ctx)@.prog),
            crate::location::loc_valid(loc, old(ctx)@.prog),
        ensures
            final(ctx).wf(),
            final(ctx)@ == (CtxV {
                prog: crate::ir::push_place(
                    old(ctx)@.prog,
                    ValueData::Deref {
                        ptr: self.idx,
                        ty: crate::context::element_ty_of(
                            old(ctx)@.prog,
                            old(ctx)@.prog.values[self.idx as int].stored_ty(),
                        ),
                    },
                    crate::location::loc_idx(loc),
                ),
                ..old(ctx)@
            }),
            l.idx == old(ctx)@.prog.values.len(),
            l.load == old(ctx)@.prog.values.len() + 1,
            l.valid(final(ctx)@.prog),
    {
        let pty = ctx.program.values[self.idx].get_stored_ty();
        let ety = if pty < ctx.program.types.len() {
            match ctx.program.types[pty] {
                crate::ir::TypeDesc::ArrayOf { elem, .. } => elem,
                crate::ir::TypeDesc::Pointer { pointee } => pointee,
                crate::ir::TypeDesc::VectorOf { elem, .. } => elem,
                _ => pty,
            }
        } else {
            pty
        };
        let (lv, ld) = ctx.push_place_rec(ValueData::Deref { ptr: self.idx, ty: ety },
            crate::location::opt_loc_idx(loc));
        LValue { idx: lv, load: ld }
    }
}

} // verus!
