//! The root capability shared by every IR entity: identity comparison and
//! debug-string rendering.

use vstd::prelude::*;

use crate::context::Context;
use crate::ir::{ProgV, Program, TypeDesc, PrimKind};

verus! {

/// Which arena of the owning context an [`Object`] refers to.
#[derive(Clone, Copy, PartialEq, Eq, Structural, Debug)]
pub enum ObjectKind {
    Ty,
    Fld,
    Strct,
    Un,
    Func,
    Par,
    Val,
    Blk,
    Loc,
    Cs,
    Asm,
}

/// The root of every IR entity: a kind tag and the entity's index in the
/// arena of that kind.  Two handles denote the same entity exactly when
/// their objects are equal.
#[derive(Clone, Copy, PartialEq, Eq, Structural, Debug)]
pub struct Object {
    pub kind: ObjectKind,
    pub idx: usize,
}

/// Upcast to [`Object`], implemented by every IR handle.
pub trait ToObject {
    /// The object identity of this handle.
    fn to_object(&self) -> Object;
}

impl ToObject for Object {
    fn to_object(&self) -> Object {
        Object { kind: self.kind, idx: self.idx }
    }
}

/// The debug text of the primitive kind `k`.
pub open spec fn prim_name_spec(k: PrimKind) -> Seq<char> {
    match k {
        PrimKind::Void => "void"@,
        PrimKind::Bool => "bool"@,
        PrimKind::Char => "char"@,
        PrimKind::UChar => "unsigned char"@,
        PrimKind::SChar => "signed char"@,
        PrimKind::Short => "short"@,
        PrimKind::UShort => "unsigned short"@,
        PrimKind::Int => "int"@,
        PrimKind::UInt => "unsigned int"@,
        PrimKind::Long => "long"@,
        PrimKind::ULong => "unsigned long"@,
        PrimKind::LongLong => "long long"@,
        PrimKind::ULongLong => "unsigned long long"@,
        PrimKind::SizeT => "size_t"@,
        PrimKind::VoidPtr => "void *"@,
    }
}

#[via_fn]
proof fn type_text_decreases(pv: ProgV, i: int) {
    if 0 <= i && i < pv.types.len() {
        assert(crate::ir::type_wf(pv, i));
    }
}

/// Renders the debug text of the primitive kind `k`.
pub fn prim_name(k: PrimKind) -> (r: String)
    ensures
        r@ == prim_name_spec(k),
{
    match k {
        PrimKind::Void => String::from_str("void"),
        PrimKind::Bool => String::from_str("bool"),
        PrimKind::Char => String::from_str("char"),
        PrimKind::UChar => String::from_str("unsigned char"),
        PrimKind::SChar => String::from_str("signed char"),
        PrimKind::Short => String::from_str("short"),
        PrimKind::UShort => String::from_str("unsigned short"),
        PrimKind::Int => String::from_str("int"),
        PrimKind::UInt => String::from_str("unsigned int"),
        PrimKind::Long => String::from_str("long"),
        PrimKind::ULong => String::from_str("unsigned long"),
        PrimKind::LongLong => String::from_str("long long"),
        PrimKind::ULongLong => String::from_str("unsigned long long"),
        PrimKind::SizeT => String::from_str("size_t"),
        PrimKind::VoidPtr => String::from_str("void *"),
    }
}

/// Every primitive kind renders to non-empty text.
pub proof fn lemma_prim_name_nonempty(k: PrimKind)
    ensures
        prim_name_spec(k).len() > 0,
{
    match k {
        PrimKind::Void => reveal_strlit("void"),
        PrimKind::Bool => reveal_strlit("bool"),
        PrimKind::Char => reveal_strlit("char"),
        PrimKind::UChar => reveal_strlit("unsigned char"),
        PrimKind::SChar => reveal_strlit("signed char"),
        PrimKind::Short => reveal_strlit("short"),
        PrimKind::UShort => reveal_strlit("unsigned short"),
        PrimKind::Int => reveal_strlit("int"),
        PrimKind::UInt => reveal_strlit("unsigned int"),
        PrimKind::Long => reveal_strlit("long"),
        PrimKind::ULong => reveal_strlit("unsigned long"),
        PrimKind::LongLong => reveal_strlit("long long"),
        PrimKind::ULongLong => reveal_strlit("unsigned long long"),
        PrimKind::SizeT => reveal_strlit("size_t"),
        PrimKind::VoidPtr => reveal_strlit("void *"),
    }
}

/// The debug text of the type at index `i`, rendered structurally: derived
/// types append a qualifier word or symbol to their base type's text, and
/// named types render their stored name after a keyword.  Indices outside
/// the arena render as a question mark.
pub open spec fn type_text_spec(pv: ProgV, i: int) -> Seq<char>
    decreases i when crate::ir::types_acyclic(pv) via type_text_decreases
{
    if i < 0 || i >= pv.types.len() {
        "?"@
    } else {
        match pv.types[i] {
            TypeDesc::Prim(k) => prim_name_spec(k),
            TypeDesc::IntWidth { bytes, signed } => if signed {
                "signed integer"@
            } else {
                "unsigned integer"@
            },
            TypeDesc::Pointer { pointee } => type_text_spec(pv, pointee as int) + " *"@,
            TypeDesc::ConstOf { base } => "const "@ + type_text_spec(pv, base as int),
            TypeDesc::VolatileOf { base } => "volatile "@ + type_text_spec(pv, base as int),
            TypeDesc::AlignedOf { base, align } => "aligned "@ + type_text_spec(pv, base as int),
            TypeDesc::ArrayOf { elem, len } => type_text_spec(pv, elem as int) + "[]"@,
            TypeDesc::VectorOf { elem, units } => "vector of "@ + type_text_spec(pv, elem as int),
            TypeDesc::StructRef { s } => if s < pv.structs.len()
                && pv.structs[s as int].name < pv.strings.len() {
                "struct "@ + pv.strings[pv.structs[s as int].name as int]
            } else {
                "struct ?"@
            },
            TypeDesc::UnionRef { u } => if u < pv.unions.len()
                && pv.unions[u as int].name < pv.strings.len() {
                "union "@ + pv.strings[pv.unions[u as int].name as int]
            } else {
                "union ?"@
            },
            TypeDesc::FnPtr { sig } => "function pointer"@,
        }
    }
}

/// Every type renders to non-empty text.
pub proof fn lemma_type_text_nonempty(pv: ProgV, i: int)
    requires
        crate::ir::types_acyclic(pv),
    ensures
        type_text_spec(pv, i).len() > 0,
    decreases i,
{
    reveal_strlit("?");
    reveal_strlit("signed integer");
    reveal_strlit("unsigned integer");
    reveal_strlit(" *");
    reveal_strlit("const ");
    reveal_strlit("volatile ");
    reveal_strlit("aligned ");
    reveal_strlit("[]");
    reveal_strlit("vector of ");
    reveal_strlit("struct ");
    reveal_strlit("struct ?");
    reveal_strlit("union ");
    reveal_strlit("union ?");
    reveal_strlit("function pointer");
    if 0 <= i < pv.types.len() {
        assert(crate::ir::type_wf(pv, i));
        match pv.types[i] {
            TypeDesc::Prim(k) => lemma_prim_name_nonempty(k),
            TypeDesc::Pointer { pointee } => lemma_type_text_nonempty(pv, pointee as int),
            TypeDesc::ArrayOf { elem, .. } => lemma_type_text_nonempty(pv, elem as int),
            _ => {},
        }
    }
}

/// Renders the debug text of the type at `i`.
pub fn type_text_x(p: &Program, i: usize) -> (r: String)
    requires
        crate::ir::prog_wf(p@),
    ensures
        r@ == type_text_spec(p@, i as int),
    decreases i,
{
    if i >= p.types.len() {
        String::from_str("?")
    } else {
        proof {
            assert(crate::ir::type_wf(p@, i as int));
        }
        match p.types[i] {
            TypeDesc::Prim(k) => prim_name(k),
            TypeDesc::IntWidth { bytes, signed } => {
                if signed {
                    String::from_str("signed integer")
                } else {
                    String::from_str("unsigned integer")
                }
            },
            TypeDesc::Pointer { pointee } => {
                let base = type_text_x(p, pointee);
                base.concat(" *")
            },
            TypeDesc::ConstOf { base } => {
                let b = type_text_x(p, base);
                String::from_str("const ").concat(b.as_str())
            },
            TypeDesc::VolatileOf { base } => {
                let b = type_text_x(p, base);
                String::from_str("volatile ").concat(b.as_str())
            },
            TypeDesc::AlignedOf { base, .. } => {
                let b = type_text_x(p, base);
                String::from_str("aligned ").concat(b.as_str())
            },
            TypeDesc::ArrayOf { elem, .. } => {
                let b = type_text_x(p, elem);
                b.concat("[]")
            },
            TypeDesc::VectorOf { elem, .. } => {
                let b = type_text_x(p, elem);
                String::from_str("vector of ").concat(b.as_str())
            },
            TypeDesc::StructRef { s } => {
                if s < p.structs.len() && p.structs[s].name < p.strings.len() {
                    String::from_str("struct ").concat(p.strings[p.structs[s].name].as_str())
                } else {
                    String::from_str("struct ?")
                }
            },
            TypeDesc::UnionRef { u } => {
                if u < p.unions.len() && p.unions[u].name < p.strings.len() {
                    String::from_str("union ").concat(p.strings[p.unions[u].name].as_str())
                } else {
                    String::from_str("union ?")
                }
            },
            TypeDesc::FnPtr { .. } => String::from_str("function pointer"),
        }
    }
}

/// The debug text of the object `o`: types render structurally, named
/// entities render a kind word and their stored name, and the rest
/// render their kind word.
pub open spec fn object_text_spec(pv: ProgV, o: Object) -> Seq<char> {
    match o.kind {
        ObjectKind::Ty => type_text_spec(pv, o.idx as int),
        ObjectKind::Fld => "field "@ + name_or_blank(
            pv,
            if o.idx < pv.fields.len() {
                Option::Some(pv.fields[o.idx as int].name)
            } else {
                Option::None
            },
        ),
        ObjectKind::Strct => "struct "@ + name_or_blank(
            pv,
            if o.idx < pv.structs.len() {
                Option::Some(pv.structs[o.idx as int].name)
            } else {
                Option::None
            },
        ),
        ObjectKind::Un => "union "@ + name_or_blank(
            pv,
            if o.idx < pv.unions.len() {
                Option::Some(pv.unions[o.idx as int].name)
            } else {
                Option::None
            },
        ),
        ObjectKind::Func => "function "@ + name_or_blank(
            pv,
            if o.idx < pv.funcs.len() {
                Option::Some(pv.funcs[o.idx as int].name)
            } else {
                Option::None
            },
        ),
        ObjectKind::Par => "param "@ + name_or_blank(
            pv,
            if o.idx < pv.params.len() {
                Option::Some(pv.params[o.idx as int].name)
            } else {
                Option::None
            },
        ),
        ObjectKind::Blk => "block "@ + name_or_blank(
            pv,
            if o.idx < pv.blocks.len() {
                Option::Some(pv.blocks[o.idx as int].name)
            } else {
                Option::None
            },
        ),
        ObjectKind::Loc => "location "@ + name_or_blank(
            pv,
            if o.idx < pv.locs.len() {
                Option::Some(pv.locs[o.idx as int].file)
            } else {
                Option::None
            },
        ),
        ObjectKind::Val => "value"@,
        ObjectKind::Cs => "case"@,
        ObjectKind::Asm => "assembly"@,
    }
}

/// The string at `name` in the string arena, or nothing.
pub open spec fn name_or_blank(pv: ProgV, name: Option<usize>) -> Seq<char> {
    match name {
        Option::Some(n) => if n < pv.strings.len() {
            pv.strings[n as int]
        } else {
            Seq::empty()
        },
        Option::None => Seq::empty(),
    }
}

/// Every object renders to non-empty, stable text.
pub proof fn lemma_object_text_nonempty(pv: ProgV, o: Object)
    requires
        crate::ir::types_acyclic(pv),
    ensures
        object_text_spec(pv, o).len() > 0,
{
    reveal_strlit("field ");
    reveal_strlit("struct ");
    reveal_strlit("union ");
    reveal_strlit("function ");
    reveal_strlit("param ");
    reveal_strlit("block ");
    reveal_strlit("location ");
    reveal_strlit("value");
    reveal_strlit("case");
    reveal_strlit("assembly");
    if o.kind == ObjectKind::Ty {
        lemma_type_text_nonempty(pv, o.idx as int);
    }
}

/// Renders a stored name, or nothing where the index is out of range.
fn name_or_blank_x(p: &Program, name: Option<usize>) -> (r: String)
    ensures
        r@ == name_or_blank(p@, name),
{
    match name {
        Option::Some(n) => {
            if n < p.strings.len() {
                p.strings[n].clone()
            } else {
                String::new()
            }
        },
        Option::None => String::new(),
    }
}

impl Object {
    /// Renders this object's debug text: a stable, non-empty
    /// description of the entity.
    pub fn get_debug_string(&self, ctx: &Context) -> (r: String)
        requires
            ctx.wf(),
        ensures
            r@ == object_text_spec(ctx@.prog, *self),
            r@.len() > 0,
    {
        proof {
            lemma_object_text_nonempty(ctx@.prog, *self);
        }
        let p = &ctx.program;
        match self.kind {
            ObjectKind::Ty => type_text_x(p, self.idx),
            ObjectKind::Fld => {
                let nm = if self.idx < p.fields.len() {
                    Option::Some(p.fields[self.idx].name)
                } else {
                    Option::None
                };
                String::from_str("field ").concat(name_or_blank_x(p, nm).as_str())
            },
            ObjectKind::Strct => {
                let nm = if self.idx < p.structs.len() {
                    Option::Some(p.structs[self.idx].name)
                } else {
                    Option::None
                };
                String::from_str("struct ").concat(name_or_blank_x(p, nm).as_str())
            },
            ObjectKind::Un => {
                let nm = if self.idx < p.unions.len() {
                    Option::Some(p.unions[self.idx].name)
                } else {
                    Option::None
                };
                String::from_str("union ").concat(name_or_blank_x(p, nm).as_str())
            },
            ObjectKind::Func => {
                let nm = if self.idx < p.funcs.len() {
                    Option::Some(p.funcs[self.idx].name)
                } else {
                    Option::None
                };
                String::from_str("function ").concat(name_or_blank_x(p, nm).as_str())
            },
            ObjectKind::Par => {
                let nm = if self.idx < p.params.len() {
                    Option::Some(p.params[self.idx].name)
                } else {
                    Option::None
                };
                String::from_str("param ").concat(name_or_blank_x(p, nm).as_str())
            },
            ObjectKind::Blk => {
                let nm = if self.idx < p.blocks.len() {
                    Option::Some(p.blocks[self.idx].name)
                } else {
                    Option::None
                };
                String::from_str("block ").concat(name_or_blank_x(p, nm).as_str())
            },
            ObjectKind::Loc => {
                let nm = if self.idx < p.locs.len() {
                    Option::Some(p.locs[self.idx].file)
                } else {
                    Option::None
                };
                String::from_str("location ").concat(name_or_blank_x(p, nm).as_str())
            },
            ObjectKind::Val => String::from_str("value"),
            ObjectKind::Cs => String::from_str("case"),
            ObjectKind::Asm => String::from_str("assembly"),
        }
    }
}

} // verus!
