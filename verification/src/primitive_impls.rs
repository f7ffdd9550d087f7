//! [`TypeInfo`] implementations for the primitive types and for the
//! structural combinators over a reflected type: references and fixed-size
//! arrays. Primitive shapes never touch the catalog.

use vstd::prelude::*;

use crate::describe::{TypeDesc, TypeDescV, TypeDescription, TypeDescriptionV};
use crate::engine::spec_type_layout;
use crate::layout::TypeLayoutV;
use crate::{layout_of_description, leaf_description, TypeInfo, TypeLayout};

verus! {

impl TypeInfo for u8 {
    open spec fn spec_describe() -> TypeDescriptionV {
        TypeDescriptionV { nominals: Seq::empty(), root: TypeDescV::U8 }
    }

    fn describe() -> (r: TypeDescription) {
        leaf_description(TypeDesc::U8)
    }

    fn layout() -> (r: TypeLayout) {
        layout_of_description(&Self::describe())
    }
}

impl TypeInfo for u16 {
    open spec fn spec_describe() -> TypeDescriptionV {
        TypeDescriptionV { nominals: Seq::empty(), root: TypeDescV::U16 }
    }

    fn describe() -> (r: TypeDescription) {
        leaf_description(TypeDesc::U16)
    }

    fn layout() -> (r: TypeLayout) {
        layout_of_description(&Self::describe())
    }
}

impl TypeInfo for u32 {
    open spec fn spec_describe() -> TypeDescriptionV {
        TypeDescriptionV { nominals: Seq::empty(), root: TypeDescV::U32 }
    }

    fn describe() -> (r: TypeDescription) {
        leaf_description(TypeDesc::U32)
    }

    fn layout() -> (r: TypeLayout) {
        layout_of_description(&Self::describe())
    }
}

impl TypeInfo for u64 {
    open spec fn spec_describe() -> TypeDescriptionV {
        TypeDescriptionV { nominals: Seq::empty(), root: TypeDescV::U64 }
    }

    fn describe() -> (r: TypeDescription) {
        leaf_description(TypeDesc::U64)
    }

    fn layout() -> (r: TypeLayout) {
        layout_of_description(&Self::describe())
    }
}

impl TypeInfo for usize {
    open spec fn spec_describe() -> TypeDescriptionV {
        TypeDescriptionV { nominals: Seq::empty(), root: TypeDescV::USize }
    }

    fn describe() -> (r: TypeDescription) {
        leaf_description(TypeDesc::USize)
    }

    fn layout() -> (r: TypeLayout) {
        layout_of_description(&Self::describe())
    }
}

impl TypeInfo for i8 {
    open spec fn spec_describe() -> TypeDescriptionV {
        TypeDescriptionV { nominals: Seq::empty(), root: TypeDescV::I8 }
    }

    fn describe() -> (r: TypeDescription) {
        leaf_description(TypeDesc::I8)
    }

    fn layout() -> (r: TypeLayout) {
        layout_of_description(&Self::describe())
    }
}

impl TypeInfo for i16 {
    open spec fn spec_describe() -> TypeDescriptionV {
        TypeDescriptionV { nominals: Seq::empty(), root: TypeDescV::I16 }
    }

    fn describe() -> (r: TypeDescription) {
        leaf_description(TypeDesc::I16)
    }

    fn layout() -> (r: TypeLayout) {
        layout_of_description(&Self::describe())
    }
}

impl TypeInfo for i32 {
    open spec fn spec_describe() -> TypeDescriptionV {
        TypeDescriptionV { nominals: Seq::empty(), root: TypeDescV::I32 }
    }

    fn describe() -> (r: TypeDescription) {
        leaf_description(TypeDesc::I32)
    }

    fn layout() -> (r: TypeLayout) {
        layout_of_description(&Self::describe())
    }
}

impl TypeInfo for i64 {
    open spec fn spec_describe() -> TypeDescriptionV {
        TypeDescriptionV { nominals: Seq::empty(), root: TypeDescV::I64 }
    }

    fn describe() -> (r: TypeDescription) {
        leaf_description(TypeDesc::I64)
    }

    fn layout() -> (r: TypeLayout) {
        layout_of_description(&Self::describe())
    }
}

impl TypeInfo for isize {
    open spec fn spec_describe() -> TypeDescriptionV {
        TypeDescriptionV { nominals: Seq::empty(), root: TypeDescV::ISize }
    }

    fn describe() -> (r: TypeDescription) {
        leaf_description(TypeDesc::ISize)
    }

    fn layout() -> (r: TypeLayout) {
        layout_of_description(&Self::describe())
    }
}

impl TypeInfo for bool {
    open spec fn spec_describe() -> TypeDescriptionV {
        TypeDescriptionV { nominals: Seq::empty(), root: TypeDescV::Bool }
    }

    fn describe() -> (r: TypeDescription) {
        leaf_description(TypeDesc::Bool)
    }

    fn layout() -> (r: TypeLayout) {
        layout_of_description(&Self::describe())
    }
}

impl TypeInfo for char {
    open spec fn spec_describe() -> TypeDescriptionV {
        TypeDescriptionV { nominals: Seq::empty(), root: TypeDescV::Char }
    }

    fn describe() -> (r: TypeDescription) {
        leaf_description(TypeDesc::Char)
    }

    fn layout() -> (r: TypeLayout) {
        layout_of_description(&Self::describe())
    }
}

impl TypeInfo for () {
    open spec fn spec_describe() -> TypeDescriptionV {
        TypeDescriptionV { nominals: Seq::empty(), root: TypeDescV::Void }
    }

    fn describe() -> (r: TypeDescription) {
        leaf_description(TypeDesc::Void)
    }

    fn layout() -> (r: TypeLayout) {
        layout_of_description(&Self::describe())
    }
}

impl<'a, T: TypeInfo> TypeInfo for &'a T {
    open spec fn spec_describe() -> TypeDescriptionV {
        let td = T::spec_describe();
        TypeDescriptionV { nominals: td.nominals, root: TypeDescV::Ref(Box::new(td.root)) }
    }

    fn describe() -> (r: TypeDescription) {
        let td = T::describe();
        let r = TypeDescription { nominals: td.nominals, root: TypeDesc::Ref(Box::new(td.root)) };
        proof {
            assert(r@ =~= Self::spec_describe());
        }
        r
    }

    fn layout() -> (r: TypeLayout) {
        layout_of_description(&Self::describe())
    }
}

impl<'a, T: TypeInfo> TypeInfo for &'a mut T {
    open spec fn spec_describe() -> TypeDescriptionV {
        let td = T::spec_describe();
        TypeDescriptionV { nominals: td.nominals, root: TypeDescV::MutRef(Box::new(td.root)) }
    }

    fn describe() -> (r: TypeDescription) {
        let td = T::describe();
        let r = TypeDescription {
            nominals: td.nominals,
            root: TypeDesc::MutRef(Box::new(td.root)),
        };
        proof {
            assert(r@ =~= Self::spec_describe());
        }
        r
    }

    fn layout() -> (r: TypeLayout) {
        layout_of_description(&Self::describe())
    }
}

impl<T: TypeInfo, const N: usize> TypeInfo for [T; N] {
    open spec fn spec_describe() -> TypeDescriptionV {
        let td = T::spec_describe();
        TypeDescriptionV {
            nominals: td.nominals,
            root: TypeDescV::Array { len: N, elem: Box::new(td.root) },
        }
    }

    fn describe() -> (r: TypeDescription) {
        let td = T::describe();
        let r = TypeDescription {
            nominals: td.nominals,
            root: TypeDesc::Array { len: N, elem: Box::new(td.root) },
        };
        proof {
            assert(r@ =~= Self::spec_describe());
        }
        r
    }

    fn layout() -> (r: TypeLayout) {
        layout_of_description(&Self::describe())
    }
}

} // verus!
