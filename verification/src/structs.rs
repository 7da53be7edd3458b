//! Struct types: fully specified at creation, or opaque with exactly one
//! later field assignment.

use vstd::prelude::*;

use crate::object::{Object, ObjectKind, ToObject};
use crate::context::{Context, CtxV};
use crate::error::BuildError;
use crate::field::Field;
use crate::location::Location;
use crate::types::Type;
use crate::ir::{ProgV, StructData};

verus! {

/// A struct-type handle.  `idx` indexes the owning context's struct
/// arena; `type_idx` is the index of the struct's entry in the type
/// arena, so the upcast to [`Type`] needs no context.
#[derive(Clone, Copy, PartialEq, Eq, Structural, Debug)]
pub struct Struct {
    pub idx: usize,
    pub type_idx: usize,
}

impl ToObject for Struct {
    fn to_object(&self) -> Object {
        Object { kind: ObjectKind::Strct, idx: self.idx }
    }
}

impl Struct {
    /// This handle points into `pv`'s struct arena and carries the index
    /// of its own type record.
    pub open spec fn valid(self, pv: ProgV) -> bool {
        &&& self.idx < pv.structs.len()
        &&& self.type_idx < pv.types.len()
        &&& pv.types[self.type_idx as int] == (crate::ir::TypeDesc::StructRef { s: self.idx })
    }

    /// The struct's record in `pv`.
    pub open spec fn data(self, pv: ProgV) -> StructData {
        pv.structs[self.idx as int]
    }

    /// The struct type as a plain type handle.
    pub fn as_type(&self) -> (t: Type)
        ensures
            t.idx == self.type_idx,
    {
        Type { idx: self.type_idx }
    }
}

impl Struct {
    /// The struct's field indices in `pv`, or the empty sequence while
    /// it is still opaque.
    pub open spec fn field_list(self, pv: ProgV) -> Seq<usize> {
        match self.data(pv).fields {
            Option::Some(al) => pv.arglists[al as int],
            Option::None => Seq::empty(),
        }
    }

    /// The program after a successful `set_fields`: the used-marks, the
    /// field list, and the updated struct record.
    pub open spec fn set_fields_spec(
        pv: ProgV,
        s: int,
        fidxs: Seq<usize>,
        loc: Option<usize>,
    ) -> ProgV {
        let pv1 = crate::ir::with_fields_used(pv, fidxs, 0);
        let pv2 = crate::ir::push_arglist(pv1, fidxs);
        crate::ir::with_struct_fields(pv2, s, pv.arglists.len() as usize, loc)
    }

    /// Supplies the field list of an opaque struct, exactly once.  A
    /// second call, or a call on a struct created with fields, is
    /// rejected and logged; so is a field already placed in another
    /// definition.
    pub fn set_fields(
        &self,
        ctx: &mut Context,
        location: Option<Location>,
        fields: &[Field],
    ) -> (r: Result<(), BuildError>)
        requires
            old(ctx).wf(),
            self.valid(old(ctx)@.prog),
            forall|j: int| 0 <= j < fields@.len() ==> (#[trigger] fields@[j]).valid(
                old(ctx)@.prog,
            ),
            crate::location::loc_valid(location, old(ctx)@.prog),
        ensures
            final(ctx).wf(),
            self.valid(final(ctx)@.prog),
            match r {
                Result::Ok(u) => {
                    &&& self.data(old(ctx)@.prog).fields is None
                    &&& crate::ir::fields_fresh(
                        old(ctx)@.prog,
                        fields@.map_values(|f: Field| f.idx),
                    )
                    &&& final(ctx)@ == (CtxV {
                        prog: Struct::set_fields_spec(
                            old(ctx)@.prog,
                            self.idx as int,
                            fields@.map_values(|f: Field| f.idx),
                            crate::location::loc_idx(location),
                        ),
                        ..old(ctx)@
                    })
                    &&& self.data(final(ctx)@.prog).fields == Option::Some(
                        old(ctx)@.prog.arglists.len() as usize,
                    )
                    &&& self.field_list(final(ctx)@.prog) == fields@.map_values(
                        |f: Field| f.idx,
                    )
                },
                Result::Err(e) => {
                    &&& final(ctx)@ == (CtxV {
                        errors: old(ctx)@.errors.push(e),
                        ..old(ctx)@
                    })
                    &&& (e == BuildError::StructFilled || e == BuildError::FieldInUse)
                    &&& (e == BuildError::StructFilled <==> !(self.data(
                        old(ctx)@.prog,
                    ).fields is None))
                    &&& (e == BuildError::FieldInUse ==> !crate::ir::fields_fresh(
                        old(ctx)@.prog,
                        fields@.map_values(|f: Field| f.idx),
                    ))
                },
            },
    {
        let already = match ctx.program.structs[self.idx].fields {
            Option::Some(_) => true,
            Option::None => false,
        };
        if already {
            ctx.log_error(BuildError::StructFilled);
            return Result::Err(BuildError::StructFilled);
        }
        if !ctx.fields_are_fresh(fields) {
            ctx.log_error(BuildError::FieldInUse);
            return Result::Err(BuildError::FieldInUse);
        }
        proof {
            let fsg = fields@.map_values(|f: Field| f.idx);
            crate::ir::lemma_with_fields_used_shape(ctx@.prog, fsg, 0);
        }
        ctx.mark_fields_used(fields);
        let mut fidxs: Vec<usize> = Vec::new();
        let mut j: usize = 0;
        while j < fields.len()
            invariant
                j <= fields.len(),
                fidxs@ == fields@.take(j as int).map_values(|f: Field| f.idx),
            decreases fields.len() - j,
        {
            fidxs.push(fields[j].idx);
            proof {
                assert(fields@.take(j + 1) =~= fields@.take(j as int).push(fields@[j as int]));
                assert(fidxs@ =~= fields@.take(j + 1).map_values(|f: Field| f.idx));
            }
            j = j + 1;
        }
        proof {
            assert(fields@.take(fields@.len() as int) =~= fields@);
        }
        let al = ctx.push_arglist_rec(fidxs);
        let loc_i = crate::location::opt_loc_idx(location);
        let sd = ctx.program.structs[self.idx];
        ctx.program.structs.set(self.idx, StructData {
            name: sd.name,
            fields: Option::Some(al),
            loc: loc_i,
        });
        proof {
            assert(ctx@.prog =~= Struct::set_fields_spec(
                old(ctx)@.prog,
                self.idx as int,
                fields@.map_values(|f: Field| f.idx),
                crate::location::loc_idx(location),
            ));
            crate::context::lemma_wf_extend(old(ctx)@.prog, ctx@.prog);
        }
        Result::Ok(())
    }

    /// The field at position `index` of this struct's definition.
    pub fn get_field(&self, ctx: &Context, index: i32) -> (f: Field)
        requires
            self.valid(ctx@.prog),
            !(self.data(ctx@.prog).fields is None),
            0 <= index < self.field_list(ctx@.prog).len(),
            match self.data(ctx@.prog).fields {
                Option::Some(al) => al < ctx@.prog.arglists.len(),
                Option::None => false,
            },
        ensures
            f.idx == self.field_list(ctx@.prog)[index as int],
    {
        let al = match ctx.program.structs[self.idx].fields {
            Option::Some(a) => a,
            Option::None => 0,
        };
        Field { idx: ctx.program.arglists[al][index as usize] }
    }

    /// How many fields this struct has; zero while it is opaque.
    pub fn get_field_count(&self, ctx: &Context) -> (n: usize)
        requires
            self.valid(ctx@.prog),
            match self.data(ctx@.prog).fields {
                Option::Some(al) => al < ctx@.prog.arglists.len(),
                Option::None => true,
            },
        ensures
            n == self.field_list(ctx@.prog).len(),
    {
        match ctx.program.structs[self.idx].fields {
            Option::Some(al) => ctx.program.arglists[al].len(),
            Option::None => 0,
        }
    }
}

} // verus!
