//! Compile-time type reflection for checking layout agreement across a
//! compilation-unit boundary.
//!
//! A type that implements [`TypeInfo`] can produce a [`TypeLayout`]: a
//! comparable, self-contained value describing the type's structural layout.
//! Two independently compiled modules can each compute the `TypeLayout` of a
//! type crossing their boundary and compare the two values for exact
//! equality before trusting any call that uses the type, so that a layout
//! mismatch is caught at the boundary instead of causing undefined
//! behaviour.

use vstd::prelude::*;

pub mod cdefinitions;
pub mod describe;
pub mod engine;
pub mod layout;
pub mod other_impls;
pub mod primitive_impls;
pub mod types;

use crate::describe::{TypeDesc, TypeDescV, TypeDescription, TypeDescriptionV};
use crate::engine::{layout_impl, spec_type_layout, stripped_catalog};
use crate::layout::{
    catalog_view, clone_defined_type, clone_layout, defined_type_eq, defined_types_deep,
    layout_eq, DefinedType, DefinedTypes, Layout, TypeLayoutV, TypeUid,
};
use crate::types::SVec;

verus! {

/// An FFI-safe structure containing layout data of a type.
///
/// Can be compared to make sure correct types are used in contexts where
/// compile time checks are not available (dynamic loading, for example).
/// Obtain it with [`TypeInfo::layout`]. Two values are equal exactly when
/// every layout node and every catalog entry match, including catalog entry
/// order.
#[derive(Debug)]
pub struct TypeLayout {
    defined_types: SVec<DefinedType>,
    layout: Layout,
}

impl View for TypeLayout {
    type V = TypeLayoutV;

    closed spec fn view(&self) -> TypeLayoutV {
        TypeLayoutV {
            defined_types: defined_types_deep(self.defined_types@),
            layout: self.layout@,
        }
    }
}

impl TypeLayout {
    /// The catalog of nominal type definitions, in first-discovery order.
    pub fn defined_types(&self) -> (r: &SVec<DefinedType>)
        ensures
            defined_types_deep(r@) == self@.defined_types,
    {
        &self.defined_types
    }

    /// The root layout; nominal references in it are indices into the
    /// catalog.
    pub fn root_layout(&self) -> (r: &Layout)
        ensures
            r@ == self@.layout,
    {
        &self.layout
    }
}

/// Decides structural equality of two reflection results, at the level of
/// their views: the primary observable operation of the library.
pub fn type_layout_eq(a: &TypeLayout, b: &TypeLayout) -> (r: bool)
    ensures
        r == (a@ == b@),
{
    let n = a.defined_types.len();
    if n != b.defined_types.len() {
        proof {
            assert(defined_types_deep(a.defined_types@).len() == a.defined_types@.len());
            assert(defined_types_deep(b.defined_types@).len() == b.defined_types@.len());
        }
        return false;
    }
    let mut i: usize = 0;
    while i < n
        invariant
            0 <= i <= n,
            n == a.defined_types@.len(),
            n == b.defined_types@.len(),
            forall|j: int|
                0 <= j < i ==> a.defined_types@[j].deep() == b.defined_types@[j].deep(),
        decreases n - i,
    {
        if !defined_type_eq(a.defined_types.get(i), b.defined_types.get(i)) {
            proof {
                assert(defined_types_deep(a.defined_types@)[i as int] == a.defined_types@[
                    i as int].deep());
                assert(defined_types_deep(b.defined_types@)[i as int] == b.defined_types@[
                    i as int].deep());
            }
            return false;
        }
        i += 1;
    }
    let r = layout_eq(&a.layout, &b.layout);
    proof {
        if r {
            assert(defined_types_deep(a.defined_types@) =~= defined_types_deep(
                b.defined_types@,
            ));
            assert(a@ =~= b@);
        }
    }
    r
}

impl PartialEq for TypeLayout {
    fn eq(&self, other: &TypeLayout) -> (r: bool) {
        type_layout_eq(self, other)
    }
}

impl Clone for TypeLayout {
    /// A clone has the same view as its source, so the two compare equal.
    fn clone(&self) -> (r: Self)
        ensures
            r@ == self@,
    {
        let n = self.defined_types.len();
        let mut entries: Vec<DefinedType> = Vec::new();
        let mut i: usize = 0;
        while i < n
            invariant
                0 <= i <= n,
                n == self.defined_types@.len(),
                entries@.len() == i,
                forall|j: int|
                    0 <= j < i ==> entries@[j].deep() == self.defined_types@[j].deep(),
            decreases n - i,
        {
            entries.push(clone_defined_type(self.defined_types.get(i)));
            i += 1;
        }
        let r = TypeLayout {
            defined_types: SVec::from_vec(entries),
            layout: clone_layout(&self.layout),
        };
        proof {
            assert(defined_types_deep(r.defined_types@) =~= defined_types_deep(
                self.defined_types@,
            ));
            assert(r@ =~= self@);
        }
        r
    }
}

impl vstd::std_specs::cmp::PartialEqSpecImpl for TypeLayout {
    open spec fn obeys_eq_spec() -> bool {
        true
    }

    open spec fn eq_spec(&self, other: &TypeLayout) -> bool {
        self@ == other@
    }
}

/// Allows construction of a [`TypeLayout`] for the type.
///
/// An implementation supplies the type's structural declaration; deriving
/// the layout value from it is the engine's job. The declaration is a static
/// property of the type, so `layout` is deterministic: every call, in every
/// module, returns a value with the same mathematical view.
pub trait TypeInfo {
    /// The mathematical value of this type's structural declaration.
    spec fn spec_describe() -> TypeDescriptionV;

    /// This type's structural declaration: every nominal type it reaches,
    /// plus the root shape.
    fn describe() -> (r: TypeDescription)
        ensures
            r@ == Self::spec_describe(),
            r@.wf(),
    ;

    /// The comparable reflection value of this type.
    fn layout() -> (r: TypeLayout)
        ensures
            r@ == spec_type_layout(Self::spec_describe()),
    ;
}

/// Strips the identity keys off a catalog: position is then the only
/// reference mechanism.
fn strip_uids(v: DefinedTypes) -> (r: Vec<DefinedType>)
    ensures
        defined_types_deep(r@) == stripped_catalog(catalog_view(v@)),
{
    let ghost ov = v@;
    let mut v = v;
    let mut out: Vec<DefinedType> = Vec::new();
    while v.len() > 0
        invariant
            out@.len() + v@.len() == ov.len(),
            v@ =~= ov.subrange(out@.len() as int, ov.len() as int),
            forall|j: int| 0 <= j < out@.len() ==> out@[j].deep() == ov[j].1.deep(),
        decreases v@.len(),
    {
        let entry = v.remove(0);
        out.push(entry.1);
        proof {
            assert(v@ =~= ov.subrange(out@.len() as int, ov.len() as int));
        }
    }
    proof {
        assert(defined_types_deep(out@) =~= stripped_catalog(catalog_view(ov)));
    }
    out
}

/// Assembles the final reflection value for a declaration: derivation from
/// an empty catalog, identity keys stripped.
pub fn layout_of_description(d: &TypeDescription) -> (r: TypeLayout)
    requires
        d@.wf(),
    ensures
        r@ == spec_type_layout(d@),
{
    proof {
        assert(catalog_view(Seq::<(TypeUid, DefinedType)>::empty()) =~= Seq::<(
            crate::layout::TypeUidV,
            crate::layout::DefinedTypeV,
        )>::empty());
    }
    let full = layout_impl(d, Vec::new());
    let stripped = strip_uids(full.defined_types);
    let r = TypeLayout { defined_types: SVec::from_vec(stripped), layout: full.layout };
    proof {
        assert(r@ =~= spec_type_layout(d@));
    }
    r
}

/// A declaration with no nominal definitions: a primitive or structural
/// leaf.
fn leaf_description(root: TypeDesc) -> (r: TypeDescription)
    requires
        root@.wf(0),
    ensures
        r@ == (TypeDescriptionV { nominals: Seq::empty(), root: root@ }),
        r@.wf(),
{
    let r = TypeDescription { nominals: Vec::new(), root };
    proof {
        assert(r@.nominals =~= Seq::<crate::describe::NominalDescV>::empty());
        assert(r@ =~= (TypeDescriptionV { nominals: Seq::empty(), root: r.root@ }));
        assert(r@.root.wf(r@.nominals.len() as nat));
    }
    r
}

/// Determinism of reflection: the layout value is a function of the
/// declaration alone, so computing it twice — in one module or in two
/// independently compiled ones, each starting from its own empty catalog —
/// yields equal values.
pub proof fn lemma_layout_deterministic(d: TypeDescriptionV, a: TypeLayoutV, b: TypeLayoutV)
    requires
        a == spec_type_layout(d),
        b == spec_type_layout(d),
    ensures
        a == b,
{
}

} // verus!
