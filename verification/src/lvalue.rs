//! Values with a storage location.

use vstd::prelude::*;

use crate::object::{Object, ObjectKind, ToObject};
use crate::context::{Context, CtxV};
use crate::field::Field;
use crate::location::Location;
use crate::rvalue::{RValue, ToRValue};
use crate::ir::{ProgV, ValueData, TypeDesc};

verus! {

/// A place handle.  `idx` indexes the owning context's value arena and
/// names an l-shaped record; `load` names the load record created with
/// the place, so the coercion to [`RValue`] needs no context.
#[derive(Clone, Copy, PartialEq, Eq, Structural, Debug)]
pub struct LValue {
    pub idx: usize,
    pub load: usize,
}

/// Coercion to [`LValue`], implemented by everything with an address.
pub trait ToLValue {
    /// The index of the place record this handle stands for.
    spec fn lv_idx(&self) -> usize;

    /// Coerces to an [`LValue`] handle.
    fn to_lvalue(&self) -> (r: LValue)
        ensures
            r.idx == self.lv_idx(),
    ;
}

impl ToLValue for LValue {
    open spec fn lv_idx(&self) -> usize {
        self.idx
    }

    fn to_lvalue(&self) -> (r: LValue) {
        LValue { idx: self.idx, load: self.load }
    }
}

impl ToRValue for LValue {
    open spec fn rv_idx(&self) -> usize {
        self.load
    }

    fn to_rvalue(&self) -> (r: RValue) {
        RValue { idx: self.load }
    }
}

impl ToObject for LValue {
    fn to_object(&self) -> Object {
        Object { kind: ObjectKind::Val, idx: self.idx }
    }
}

impl LValue {
    /// This handle points into `pv`'s value arena, and its paired load
    /// record is the load of this place.
    pub open spec fn valid(self, pv: ProgV) -> bool {
        &&& self.idx < pv.values.len()
        &&& self.load < pv.values.len()
        &&& pv.values[self.load as int] == (ValueData::Load {
            l: self.idx,
            ty: self.data(pv).stored_ty(),
        })
    }

    /// The place's record in `pv`.
    pub open spec fn data(self, pv: ProgV) -> ValueData {
        pv.values[self.idx as int]
    }
}

impl LValue {
    /// The place `self.field`, for a place of a struct or union type.
    pub fn access_field(&self, ctx: &mut Context, loc: Option<Location>, field: Field) -> (l:
        LValue)
        requires
            old(ctx).wf(),
            self.idx < old(ctx)@.prog.values.len(),
            field.valid(old(ctx)@.prog),
            crate::location::loc_valid(loc, old(ctx)@.prog),
        ensures
            final(ctx).wf(),
            final(ctx)@ == (CtxV {
                prog: crate::ir::push_place(
                    old(ctx)@.prog,
                    ValueData::FieldOfL {
                        base: self.idx,
                        field: field.idx,
                        ty: old(ctx)@.prog.fields[field.idx as int].ty,
                    },
                    crate::location::loc_idx(loc),
                ),
                ..old(ctx)@
            }),
            l.idx == old(ctx)@.prog.values.len(),
            l.load == old(ctx)@.prog.values.len() + 1,
            l.valid(final(ctx)@.prog),
    {
        let fty = ctx.program.fields[field.idx].ty;
        let (lv, ld) = ctx.push_place_rec(ValueData::FieldOfL {
            base: self.idx,
            field: field.idx,
            ty: fty,
        }, crate::location::opt_loc_idx(loc));
        LValue { idx: lv, load: ld }
    }

    /// The address of this place, as a value of pointer type: C's
    /// `&self`.  The pointer type to the place's type is interned on
    /// demand; a place whose stored type lies outside the arena keeps
    /// that index unchanged.
    pub fn get_address(&self, ctx: &mut Context, loc: Option<Location>) -> (r: RValue)
        requires
            old(ctx).wf(),
            self.idx < old(ctx)@.prog.values.len(),
            crate::location::loc_valid(loc, old(ctx)@.prog),
        ensures
            final(ctx).wf(),
            ({
                let pty = old(ctx)@.prog.values[self.idx as int].stored_ty();
                if pty < old(ctx)@.prog.types.len() {
                    final(ctx)@ == (CtxV {
                        prog: crate::ir::push_value(
                            crate::context::intern_type_spec(old(ctx)@.prog, TypeDesc::Pointer {
                                pointee: pty,
                            }).0,
                            ValueData::AddrOf {
                                l: self.idx,
                                ty: crate::context::intern_type_spec(
                                    old(ctx)@.prog,
                                    TypeDesc::Pointer { pointee: pty },
                                ).1,
                            },
                            crate::location::loc_idx(loc),
                        ),
                        ..old(ctx)@
                    })
                } else {
                    final(ctx)@ == (CtxV {
                        prog: crate::ir::push_value(
                            old(ctx)@.prog,
                            ValueData::AddrOf { l: self.idx, ty: pty },
                            crate::location::loc_idx(loc),
                        ),
                        ..old(ctx)@
                    })
                }
            }),
            r.valid(final(ctx)@.prog),
            r.data(final(ctx)@.prog) is AddrOf,
    {
        let pty = ctx.program.values[self.idx].get_stored_ty();
        if pty < ctx.program.types.len() {
            let ptr_ty = ctx.intern_type(TypeDesc::Pointer { pointee: pty });
            let i = ctx.push_value_rec(ValueData::AddrOf { l: self.idx, ty: ptr_ty.idx },
                crate::location::opt_loc_idx(loc));
            RValue { idx: i }
        } else {
            let i = ctx.push_value_rec(ValueData::AddrOf { l: self.idx, ty: pty },
                crate::location::opt_loc_idx(loc));
            RValue { idx: i }
        }
    }
}

} // verus!
