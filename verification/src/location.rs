//! Source positions attachable to most construction calls, used only for
//! debugger correspondence.

use vstd::prelude::*;

use crate::object::{Object, ObjectKind, ToObject};
use crate::ir::{ProgV, LocData};

verus! {

/// A source-position handle: an index into the owning context's location
/// arena.
#[derive(Clone, Copy, PartialEq, Eq, Structural, Debug)]
pub struct Location {
    pub idx: usize,
}

impl ToObject for Location {
    fn to_object(&self) -> Object {
        Object { kind: ObjectKind::Loc, idx: self.idx }
    }
}

impl Location {
    /// This handle points into `pv`'s location arena.
    pub open spec fn valid(self, pv: ProgV) -> bool {
        self.idx < pv.locs.len()
    }

    /// The location's record in `pv`.
    pub open spec fn data(self, pv: ProgV) -> LocData {
        pv.locs[self.idx as int]
    }
}

/// The location-arena index denoted by an optional location argument.
pub open spec fn loc_idx(loc: Option<Location>) -> Option<usize> {
    match loc {
        Option::Some(l) => Option::Some(l.idx),
        Option::None => Option::None,
    }
}

/// Every location in an optional location argument points into `pv`'s
/// location arena.
pub open spec fn loc_valid(loc: Option<Location>, pv: ProgV) -> bool {
    match loc {
        Option::Some(l) => l.valid(pv),
        Option::None => true,
    }
}

/// Extracts the arena index of an optional location argument.
pub fn opt_loc_idx(loc: Option<Location>) -> (r: Option<usize>)
    ensures
        r == loc_idx(loc),
{
    match loc {
        Option::Some(l) => Option::Some(l.idx),
        Option::None => Option::None,
    }
}

} // verus!
