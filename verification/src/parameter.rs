//! Formal parameters, usable both as values and as places.

use vstd::prelude::*;

use crate::object::{Object, ObjectKind, ToObject};
use crate::lvalue::{LValue, ToLValue};
use crate::rvalue::{RValue, ToRValue};
use crate::ir::{ProgV, ParamData, ValueData};

verus! {

/// A parameter handle.  `idx` indexes the owning context's parameter
/// arena; `rv` and `lv` are the indices of the two value records created
/// with the parameter (its value read and its storage slot), so both
/// coercions need no context.
#[derive(Clone, Copy, PartialEq, Eq, Structural, Debug)]
pub struct Parameter {
    pub idx: usize,
    pub rv: usize,
    pub lv: usize,
}

impl ToObject for Parameter {
    fn to_object(&self) -> Object {
        Object { kind: ObjectKind::Par, idx: self.idx }
    }
}

impl ToRValue for Parameter {
    open spec fn rv_idx(&self) -> usize {
        self.rv
    }

    fn to_rvalue(&self) -> (r: RValue) {
        RValue { idx: self.rv }
    }
}

impl ToLValue for Parameter {
    open spec fn lv_idx(&self) -> usize {
        self.lv
    }

    fn to_lvalue(&self) -> (r: LValue) {
        LValue { idx: self.lv, load: self.rv }
    }
}

impl Parameter {
    /// This handle points into `pv`'s parameter arena and its two value
    /// indices name the records created with it.
    pub open spec fn valid(self, pv: ProgV) -> bool {
        &&& self.idx < pv.params.len()
        &&& self.rv < pv.values.len()
        &&& self.lv < pv.values.len()
        &&& self.rv == self.data(pv).rv
        &&& self.lv == self.data(pv).lv
        &&& pv.values[self.lv as int] == (ValueData::ParamSlot {
            p: self.idx,
            ty: self.data(pv).ty,
        })
        &&& pv.values[self.rv as int] == (ValueData::ParamVal {
            p: self.idx,
            ty: self.data(pv).ty,
        })
    }

    /// The parameter's record in `pv`.
    pub open spec fn data(self, pv: ProgV) -> ParamData {
        pv.params[self.idx as int]
    }
}

} // verus!
