//! Fields: named, typed slots that compose struct and union types.

use vstd::prelude::*;

use crate::object::{Object, ObjectKind, ToObject};
use crate::ir::{ProgV, FieldData};

verus! {

/// A field handle: an index into the owning context's field arena.
#[derive(Clone, Copy, PartialEq, Eq, Structural, Debug)]
pub struct Field {
    pub idx: usize,
}

impl ToObject for Field {
    fn to_object(&self) -> Object {
        Object { kind: ObjectKind::Fld, idx: self.idx }
    }
}

impl Field {
    /// This handle points into `pv`'s field arena.
    pub open spec fn valid(self, pv: ProgV) -> bool {
        self.idx < pv.fields.len()
    }

    /// The field's record in `pv`.
    pub open spec fn data(self, pv: ProgV) -> FieldData {
        pv.fields[self.idx as int]
    }
}

} // verus!
