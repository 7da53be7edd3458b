//! Type handles, type introspection, and the mapping from host primitive
//! types to IR types.

use vstd::prelude::*;

use crate::object::{Object, ObjectKind, ToObject};
use crate::context::Context;
use crate::ir::{ProgV, TypeDesc, PrimKind};

verus! {

/// A type handle: an index into the owning context's type arena.  Types
/// are immutable once constructed; derivation always yields a new (or
/// previously interned) handle.
#[derive(Clone, Copy, PartialEq, Eq, Hash, Structural, Debug)]
pub struct Type {
    pub idx: usize,
}

impl ToObject for Type {
    fn to_object(&self) -> Object {
        Object { kind: ObjectKind::Ty, idx: self.idx }
    }
}

impl Type {
    /// This handle points into `pv`'s type arena.
    pub open spec fn valid(self, pv: ProgV) -> bool {
        self.idx < pv.types.len()
    }

    /// The type's record in `pv`.
    pub open spec fn data(self, pv: ProgV) -> TypeDesc {
        pv.types[self.idx as int]
    }
}

/// The richer view of a vector type, carrying its element type and lane
/// count so its accessors need no context.
#[derive(Clone, Copy, PartialEq, Eq, Hash, Structural, Debug)]
pub struct VectorType {
    pub type_idx: usize,
    pub elem: usize,
    pub units: u64,
}

impl VectorType {
    /// This view is consistent with `pv`'s type arena.
    pub open spec fn valid(self, pv: ProgV) -> bool {
        &&& self.type_idx < pv.types.len()
        &&& pv.types[self.type_idx as int] == (TypeDesc::VectorOf {
            elem: self.elem,
            units: self.units,
        })
    }

    /// The element type of the vector.
    pub fn get_element_type(&self) -> (t: Type)
        ensures
            t.idx == self.elem,
    {
        Type { idx: self.elem }
    }

    /// The number of lanes of the vector.
    pub fn get_num_units(&self) -> (n: usize)
        requires
            self.units <= usize::MAX,
        ensures
            n == self.units,
    {
        self.units as usize
    }
}

/// The richer view of a function-pointer type, carrying its signature
/// index.
#[derive(Clone, Copy, PartialEq, Eq, Hash, Structural, Debug)]
pub struct FunctionPtrType {
    pub type_idx: usize,
    pub sig: usize,
}

impl FunctionPtrType {
    /// This view is consistent with `pv`'s type arena, and its signature
    /// record and parameter-type list exist.
    pub open spec fn valid(self, pv: ProgV) -> bool {
        &&& self.type_idx < pv.types.len()
        &&& pv.types[self.type_idx as int] == (TypeDesc::FnPtr { sig: self.sig })
        &&& self.sig < pv.sigs.len()
        &&& pv.sigs[self.sig as int].param_tys < pv.arglists.len()
    }

    /// The signature's parameter-type list in `pv`.
    pub open spec fn param_tys(self, pv: ProgV) -> Seq<usize> {
        pv.arglists[pv.sigs[self.sig as int].param_tys as int]
    }

    /// The return type of the pointed-at function kind.
    pub fn get_return_type(&self, ctx: &Context) -> (t: Type)
        requires
            self.valid(ctx@.prog),
        ensures
            t.idx == ctx@.prog.sigs[self.sig as int].ret,
    {
        Type { idx: ctx.program.sigs[self.sig].ret }
    }

    /// The number of parameters of the pointed-at function kind.
    pub fn get_param_count(&self, ctx: &Context) -> (n: usize)
        requires
            self.valid(ctx@.prog),
        ensures
            n == self.param_tys(ctx@.prog).len(),
    {
        let al = ctx.program.sigs[self.sig].param_tys;
        ctx.program.arglists[al].len()
    }

    /// The type of the parameter at `index`.
    pub fn get_param_type(&self, ctx: &Context, index: usize) -> (t: Type)
        requires
            self.valid(ctx@.prog),
            index < self.param_tys(ctx@.prog).len(),
        ensures
            t.idx == self.param_tys(ctx@.prog)[index as int],
    {
        let al = ctx.program.sigs[self.sig].param_tys;
        Type { idx: ctx.program.arglists[al][index] }
    }
}

/// Maps a host primitive type to the shape of its IR type.  The library
/// implements it for the host's integer types, `bool`, `char`, `()` and
/// `usize`; users can implement it for their own types.
pub trait Typeable {
    /// The shape of the IR type this host type maps to.
    spec fn type_desc() -> TypeDesc;

    /// Builds (or finds) the IR type for this host type in `ctx`.
    fn get_type(ctx: &mut Context) -> (t: Type)
        requires
            old(ctx).wf(),
        ensures
            final(ctx).wf(),
            final(ctx)@.prog == crate::context::intern_type_spec(old(ctx)@.prog, Self::type_desc()).0,
            final(ctx)@ == (crate::context::CtxV { prog: final(ctx)@.prog, ..old(ctx)@ }),
            t.idx == crate::context::intern_type_spec(old(ctx)@.prog, Self::type_desc()).1,
            t.valid(final(ctx)@.prog),
            t.data(final(ctx)@.prog) == Self::type_desc(),
    ;
}

/// The qualifier-free core of the type at `i`: `const`, `volatile` and
/// alignment overrides stripped.
pub open spec fn unqualified_spec(pv: ProgV, i: int) -> int
    decreases i when crate::ir::types_acyclic(pv) via unqualified_spec_decreases
{
    if 0 <= i < pv.types.len() {
        match pv.types[i] {
            TypeDesc::ConstOf { base } => unqualified_spec(pv, base as int),
            TypeDesc::VolatileOf { base } => unqualified_spec(pv, base as int),
            TypeDesc::AlignedOf { base, .. } => unqualified_spec(pv, base as int),
            _ => i,
        }
    } else {
        i
    }
}

#[via_fn]
proof fn unqualified_spec_decreases(pv: ProgV, i: int) {
    if 0 <= i && i < pv.types.len() {
        assert(crate::ir::type_wf(pv, i));
    }
}

/// The type shape `d` is an integer shape: a named integral primitive or
/// an exact-width integer.
pub open spec fn is_integral_desc(d: TypeDesc) -> bool {
    match d {
        TypeDesc::IntWidth { .. } => true,
        TypeDesc::Prim(k) => match k {
            PrimKind::Char => true,
            PrimKind::UChar => true,
            PrimKind::SChar => true,
            PrimKind::Short => true,
            PrimKind::UShort => true,
            PrimKind::Int => true,
            PrimKind::UInt => true,
            PrimKind::Long => true,
            PrimKind::ULong => true,
            PrimKind::LongLong => true,
            PrimKind::ULongLong => true,
            PrimKind::SizeT => true,
            _ => false,
        },
        _ => false,
    }
}

impl Type {
    /// Given a type T, builds (or finds) the pointer type to T.
    pub fn make_pointer(self, ctx: &mut Context) -> (t: Type)
        requires
            old(ctx).wf(),
            self.valid(old(ctx)@.prog),
        ensures
            final(ctx).wf(),
            final(ctx)@ == (crate::context::CtxV {
                prog: crate::context::intern_type_spec(
                    old(ctx)@.prog,
                    TypeDesc::Pointer { pointee: self.idx },
                ).0,
                ..old(ctx)@
            }),
            t.idx == crate::context::intern_type_spec(
                old(ctx)@.prog,
                TypeDesc::Pointer { pointee: self.idx },
            ).1,
            t.valid(final(ctx)@.prog),
            t.data(final(ctx)@.prog) == (TypeDesc::Pointer { pointee: self.idx }),
            self.valid(final(ctx)@.prog),
    {
        ctx.intern_type(TypeDesc::Pointer { pointee: self.idx })
    }

    /// Given a type T, builds (or finds) the type const T.
    pub fn make_const(self, ctx: &mut Context) -> (t: Type)
        requires
            old(ctx).wf(),
            self.valid(old(ctx)@.prog),
        ensures
            final(ctx).wf(),
            final(ctx)@ == (crate::context::CtxV {
                prog: crate::context::intern_type_spec(
                    old(ctx)@.prog,
                    TypeDesc::ConstOf { base: self.idx },
                ).0,
                ..old(ctx)@
            }),
            t.idx == crate::context::intern_type_spec(
                old(ctx)@.prog,
                TypeDesc::ConstOf { base: self.idx },
            ).1,
            t.valid(final(ctx)@.prog),
            t.data(final(ctx)@.prog) == (TypeDesc::ConstOf { base: self.idx }),
            self.valid(final(ctx)@.prog),
    {
        ctx.intern_type(TypeDesc::ConstOf { base: self.idx })
    }

    /// Given a type T, builds (or finds) the type volatile T.
    pub fn make_volatile(self, ctx: &mut Context) -> (t: Type)
        requires
            old(ctx).wf(),
            self.valid(old(ctx)@.prog),
        ensures
            final(ctx).wf(),
            final(ctx)@ == (crate::context::CtxV {
                prog: crate::context::intern_type_spec(
                    old(ctx)@.prog,
                    TypeDesc::VolatileOf { base: self.idx },
                ).0,
                ..old(ctx)@
            }),
            t.idx == crate::context::intern_type_spec(
                old(ctx)@.prog,
                TypeDesc::VolatileOf { base: self.idx },
            ).1,
            t.valid(final(ctx)@.prog),
            t.data(final(ctx)@.prog) == (TypeDesc::VolatileOf { base: self.idx }),
            self.valid(final(ctx)@.prog),
    {
        ctx.intern_type(TypeDesc::VolatileOf { base: self.idx })
    }

    /// Given a type T, builds (or finds) T with its alignment overridden.
    pub fn get_aligned(self, ctx: &mut Context, alignment_in_bytes: u64) -> (t: Type)
        requires
            old(ctx).wf(),
            self.valid(old(ctx)@.prog),
        ensures
            final(ctx).wf(),
            final(ctx)@ == (crate::context::CtxV {
                prog: crate::context::intern_type_spec(
                    old(ctx)@.prog,
                    TypeDesc::AlignedOf { base: self.idx, align: alignment_in_bytes },
                ).0,
                ..old(ctx)@
            }),
            t.idx == crate::context::intern_type_spec(
                old(ctx)@.prog,
                TypeDesc::AlignedOf { base: self.idx, align: alignment_in_bytes },
            ).1,
            t.valid(final(ctx)@.prog),
            t.data(final(ctx)@.prog) == (TypeDesc::AlignedOf {
                base: self.idx,
                align: alignment_in_bytes,
            }),
            self.valid(final(ctx)@.prog),
    {
        ctx.intern_type(TypeDesc::AlignedOf { base: self.idx, align: alignment_in_bytes })
    }

    /// The element type, if this is an array type.
    pub fn is_array(self, ctx: &Context) -> (r: Option<Type>)
        requires
            self.valid(ctx@.prog),
        ensures
            match r {
                Option::Some(t) => self.data(ctx@.prog) matches TypeDesc::ArrayOf { elem, .. }
                    && t.idx == elem,
                Option::None => !(self.data(ctx@.prog) is ArrayOf),
            },
    {
        match ctx.program.types[self.idx] {
            TypeDesc::ArrayOf { elem, .. } => Option::Some(Type { idx: elem }),
            _ => Option::None,
        }
    }

    /// Whether this is the boolean type.
    pub fn is_bool(self, ctx: &Context) -> (r: bool)
        requires
            self.valid(ctx@.prog),
        ensures
            r == (self.data(ctx@.prog) == TypeDesc::Prim(PrimKind::Bool)),
    {
        match ctx.program.types[self.idx] {
            TypeDesc::Prim(PrimKind::Bool) => true,
            _ => false,
        }
    }

    /// Whether this is an integer type.
    pub fn is_integral(self, ctx: &Context) -> (r: bool)
        requires
            self.valid(ctx@.prog),
        ensures
            r == is_integral_desc(self.data(ctx@.prog)),
    {
        match ctx.program.types[self.idx] {
            TypeDesc::IntWidth { .. } => true,
            TypeDesc::Prim(k) => match k {
                PrimKind::Char => true,
                PrimKind::UChar => true,
                PrimKind::SChar => true,
                PrimKind::Short => true,
                PrimKind::UShort => true,
                PrimKind::Int => true,
                PrimKind::UInt => true,
                PrimKind::Long => true,
                PrimKind::ULong => true,
                PrimKind::LongLong => true,
                PrimKind::ULongLong => true,
                PrimKind::SizeT => true,
                _ => false,
            },
            _ => false,
        }
    }

    /// The richer vector view, if this is a vector type.
    pub fn is_vector(self, ctx: &Context) -> (r: Option<VectorType>)
        requires
            self.valid(ctx@.prog),
        ensures
            match r {
                Option::Some(v) => self.data(ctx@.prog) matches TypeDesc::VectorOf { elem, units }
                    && v == (VectorType { type_idx: self.idx, elem, units })
                    && v.valid(ctx@.prog),
                Option::None => !(self.data(ctx@.prog) is VectorOf),
            },
    {
        match ctx.program.types[self.idx] {
            TypeDesc::VectorOf { elem, units } => Option::Some(VectorType {
                type_idx: self.idx,
                elem,
                units,
            }),
            _ => Option::None,
        }
    }

    /// The struct handle, if this is a struct type.
    pub fn is_struct(self, ctx: &Context) -> (r: Option<crate::structs::Struct>)
        requires
            ctx.wf(),
            self.valid(ctx@.prog),
        ensures
            match r {
                Option::Some(st) => self.data(ctx@.prog) matches TypeDesc::StructRef { s }
                    && st == (crate::structs::Struct { idx: s, type_idx: self.idx })
                    && st.valid(ctx@.prog),
                Option::None => !(self.data(ctx@.prog) is StructRef),
            },
    {
        match ctx.program.types[self.idx] {
            TypeDesc::StructRef { s } => {
                proof {
                    assert(crate::ir::type_wf(ctx@.prog, self.idx as int));
                }
                Option::Some(crate::structs::Struct { idx: s, type_idx: self.idx })
            },
            _ => Option::None,
        }
    }

    /// The richer function-pointer view, if this is a function-pointer
    /// type.
    pub fn is_function_ptr_type(self, ctx: &Context) -> (r: Option<FunctionPtrType>)
        requires
            ctx.wf(),
            self.valid(ctx@.prog),
        ensures
            match r {
                Option::Some(f) => self.data(ctx@.prog) matches TypeDesc::FnPtr { sig }
                    && f == (FunctionPtrType { type_idx: self.idx, sig })
                    && f.valid(ctx@.prog),
                Option::None => !(self.data(ctx@.prog) is FnPtr),
            },
    {
        match ctx.program.types[self.idx] {
            TypeDesc::FnPtr { sig } => {
                proof {
                    assert(crate::ir::type_wf(ctx@.prog, self.idx as int));
                }
                Option::Some(FunctionPtrType { type_idx: self.idx, sig })
            },
            _ => Option::None,
        }
    }

    /// This type with `const`, `volatile` and alignment overrides
    /// stripped.
    pub fn unqualified(&self, ctx: &Context) -> (t: Type)
        requires
            ctx.wf(),
            self.valid(ctx@.prog),
        ensures
            t.idx == unqualified_spec(ctx@.prog, self.idx as int),
            t.valid(ctx@.prog),
        decreases self.idx,
    {
        proof {
            assert(crate::ir::type_wf(ctx@.prog, self.idx as int));
        }
        match ctx.program.types[self.idx] {
            TypeDesc::ConstOf { base } => (Type { idx: base }).unqualified(ctx),
            TypeDesc::VolatileOf { base } => (Type { idx: base }).unqualified(ctx),
            TypeDesc::AlignedOf { base, .. } => (Type { idx: base }).unqualified(ctx),
            _ => Type { idx: self.idx },
        }
    }

    /// The pointed-at type, if this is a pointer type.
    pub fn get_pointee(&self, ctx: &Context) -> (r: Option<Type>)
        requires
            self.valid(ctx@.prog),
        ensures
            match r {
                Option::Some(t) => self.data(ctx@.prog) matches TypeDesc::Pointer { pointee }
                    && t.idx == pointee,
                Option::None => !(self.data(ctx@.prog) is Pointer),
            },
    {
        match ctx.program.types[self.idx] {
            TypeDesc::Pointer { pointee } => Option::Some(Type { idx: pointee }),
            _ => Option::None,
        }
    }
}

impl Type {
    /// Renders this type's debug text: a stable, non-empty structural
    /// description.
    pub fn get_debug_string(&self, ctx: &Context) -> (r: String)
        requires
            ctx.wf(),
        ensures
            r@ == crate::object::type_text_spec(ctx@.prog, self.idx as int),
            r@.len() > 0,
    {
        proof {
            crate::object::lemma_type_text_nonempty(ctx@.prog, self.idx as int);
        }
        crate::object::type_text_x(&ctx.program, self.idx)
    }
}

impl Typeable for () {
    open spec fn type_desc() -> TypeDesc {
        TypeDesc::Prim(PrimKind::Void)
    }

    fn get_type(ctx: &mut Context) -> (t: Type) {
        ctx.intern_type(TypeDesc::Prim(PrimKind::Void))
    }
}

impl Typeable for bool {
    open spec fn type_desc() -> TypeDesc {
        TypeDesc::Prim(PrimKind::Bool)
    }

    fn get_type(ctx: &mut Context) -> (t: Type) {
        ctx.intern_type(TypeDesc::Prim(PrimKind::Bool))
    }
}

impl Typeable for char {
    open spec fn type_desc() -> TypeDesc {
        TypeDesc::Prim(PrimKind::Char)
    }

    fn get_type(ctx: &mut Context) -> (t: Type) {
        ctx.intern_type(TypeDesc::Prim(PrimKind::Char))
    }
}

impl Typeable for usize {
    open spec fn type_desc() -> TypeDesc {
        TypeDesc::Prim(PrimKind::SizeT)
    }

    fn get_type(ctx: &mut Context) -> (t: Type) {
        ctx.intern_type(TypeDesc::Prim(PrimKind::SizeT))
    }
}

impl Typeable for i8 {
    open spec fn type_desc() -> TypeDesc {
        TypeDesc::IntWidth { bytes: 1, signed: true }
    }

    fn get_type(ctx: &mut Context) -> (t: Type) {
        ctx.intern_type(TypeDesc::IntWidth { bytes: 1, signed: true })
    }
}

impl Typeable for u8 {
    open spec fn type_desc() -> TypeDesc {
        TypeDesc::IntWidth { bytes: 1, signed: false }
    }

    fn get_type(ctx: &mut Context) -> (t: Type) {
        ctx.intern_type(TypeDesc::IntWidth { bytes: 1, signed: false })
    }
}

impl Typeable for i16 {
    open spec fn type_desc() -> TypeDesc {
        TypeDesc::IntWidth { bytes: 2, signed: true }
    }

    fn get_type(ctx: &mut Context) -> (t: Type) {
        ctx.intern_type(TypeDesc::IntWidth { bytes: 2, signed: true })
    }
}

impl Typeable for u16 {
    open spec fn type_desc() -> TypeDesc {
        TypeDesc::IntWidth { bytes: 2, signed: false }
    }

    fn get_type(ctx: &mut Context) -> (t: Type) {
        ctx.intern_type(TypeDesc::IntWidth { bytes: 2, signed: false })
    }
}

impl Typeable for i32 {
    open spec fn type_desc() -> TypeDesc {
        TypeDesc::IntWidth { bytes: 4, signed: true }
    }

    fn get_type(ctx: &mut Context) -> (t: Type) {
        ctx.intern_type(TypeDesc::IntWidth { bytes: 4, signed: true })
    }
}

impl Typeable for u32 {
    open spec fn type_desc() -> TypeDesc {
        TypeDesc::IntWidth { bytes: 4, signed: false }
    }

    fn get_type(ctx: &mut Context) -> (t: Type) {
        ctx.intern_type(TypeDesc::IntWidth { bytes: 4, signed: false })
    }
}

impl Typeable for i64 {
    open spec fn type_desc() -> TypeDesc {
        TypeDesc::IntWidth { bytes: 8, signed: true }
    }

    fn get_type(ctx: &mut Context) -> (t: Type) {
        ctx.intern_type(TypeDesc::IntWidth { bytes: 8, signed: true })
    }
}

impl Typeable for u64 {
    open spec fn type_desc() -> TypeDesc {
        TypeDesc::IntWidth { bytes: 8, signed: false }
    }

    fn get_type(ctx: &mut Context) -> (t: Type) {
        ctx.intern_type(TypeDesc::IntWidth { bytes: 8, signed: false })
    }
}

} // verus!
