//! The layout derivation engine: the recursive, memoized walk that turns a
//! type's structural declaration into a root [`Layout`] plus a deduplicated
//! catalog of every nominal type transitively reached.
//!
//! A nominal type is looked up in the catalog by its [`TypeUid`]; if present,
//! the walk returns the existing entry's index. If absent, a placeholder
//! entry is reserved at the next index *before* the body is walked, so that a
//! self-referential field resolves to that index instead of recursing
//! forever; the placeholder's body is backfilled afterwards.
//!
//! The mathematical model is the `spec_derive` family below. It carries a
//! fuel bound for termination; fuel greater than the number of universe
//! definitions not yet in the catalog is always enough, since every descent
//! into a nominal body first reserves that nominal's uid.

use vstd::prelude::*;

use crate::describe::{
    descs_deep, discs_ok, field_descs_deep, nominals_deep, size_body, size_desc, size_descs,
    size_field_descs, size_variant_body, size_variant_descs, spec_assign_discs, spec_disc, variant_descs_deep,
    FieldDesc, FieldDescV, NominalDesc, NominalDescV, TypeBodyDesc, TypeBodyDescV, TypeDesc,
    TypeDescV, TypeDescription, TypeDescriptionV, VariantBodyDesc, VariantBodyDescV, VariantDesc,
    VariantDescV,
};
use crate::layout::{
    catalog_ids_ok, catalog_view, fields_deep, fields_ids_ok, layout_ids_ok, layouts_deep,
    layouts_ids_ok, lemma_fields_ids_ok_mono, lemma_layout_ids_ok_mono, lemma_layouts_ids_ok_mono,
    lemma_type_type_ids_ok_mono, lemma_variant_type_ids_ok_mono, lemma_variants_ids_ok_mono,
    type_type_ids_ok, uid_eq, variant_type_ids_ok, variants_deep, variants_ids_ok, CatalogV,
    DefinedType, DefinedTypeV, DefinedTypes, EnumVariant, EnumVariantType, EnumVariantTypeV,
    EnumVariantV, FullLayout, Layout, LayoutV, NamedField, NamedFieldV, TypeLayoutV, TypeType,
    TypeTypeV, TypeUid, TypeUidV,
};

verus! {

/// Position of the first catalog entry carrying uid `u`, if any.
pub open spec fn spec_find_uid(c: CatalogV, u: TypeUidV) -> Option<int>
    decreases c.len(),
{
    if c.len() == 0 {
        None
    } else if c[0].0 == u {
        Some(0)
    } else {
        match spec_find_uid(c.subrange(1, c.len() as int), u) {
            Some(i) => Some(i + 1),
            None => None,
        }
    }
}

/// Whether uid `u` already has a catalog entry.
pub open spec fn uid_seen(c: CatalogV, u: TypeUidV) -> bool {
    spec_find_uid(c, u) is Some
}

/// How many universe definitions have no catalog entry yet.
pub open spec fn spec_unseen(noms: Seq<NominalDescV>, c: CatalogV) -> nat
    decreases noms.len(),
{
    if noms.len() == 0 {
        0
    } else {
        spec_unseen(noms.drop_last(), c) + if uid_seen(c, noms.last().uid) {
            0nat
        } else {
            1nat
        }
    }
}

/// `c2` preserves every entry of `c1` at its position.
pub open spec fn catalog_extends(c1: CatalogV, c2: CatalogV) -> bool {
    &&& c1.len() <= c2.len()
    &&& forall|i: int| 0 <= i < c1.len() ==> c2[i] == c1[i]
}

/// The placeholder body reserved for a nominal before its real body is
/// derived.
pub open spec fn spec_placeholder(nom: NominalDescV) -> DefinedTypeV {
    DefinedTypeV { name: nom.name, ty: TypeTypeV::StructUnit }
}

/// Derivation of one shape: the returned layout plus the grown catalog.
pub open spec fn spec_derive(
    u: Seq<NominalDescV>,
    d: TypeDescV,
    c: CatalogV,
    fuel: nat,
) -> (LayoutV, CatalogV)
    decreases fuel, size_desc(d),
{
    match d {
        TypeDescV::Void => (LayoutV::Void, c),
        TypeDescV::U8 => (LayoutV::U8, c),
        TypeDescV::U16 => (LayoutV::U16, c),
        TypeDescV::U32 => (LayoutV::U32, c),
        TypeDescV::U64 => (LayoutV::U64, c),
        TypeDescV::I8 => (LayoutV::I8, c),
        TypeDescV::I16 => (LayoutV::I16, c),
        TypeDescV::I32 => (LayoutV::I32, c),
        TypeDescV::I64 => (LayoutV::I64, c),
        TypeDescV::USize => (LayoutV::USize, c),
        TypeDescV::ISize => (LayoutV::ISize, c),
        TypeDescV::Bool => (LayoutV::Bool, c),
        TypeDescV::F32 => (LayoutV::F32, c),
        TypeDescV::F64 => (LayoutV::F64, c),
        TypeDescV::Char => (LayoutV::Char, c),
        TypeDescV::ConstPtr(x) => {
            let (l, c1) = spec_derive(u, *x, c, fuel);
            (LayoutV::ConstPtr(Box::new(l)), c1)
        },
        TypeDescV::MutPtr(x) => {
            let (l, c1) = spec_derive(u, *x, c, fuel);
            (LayoutV::MutPtr(Box::new(l)), c1)
        },
        TypeDescV::NonNull(x) => {
            let (l, c1) = spec_derive(u, *x, c, fuel);
            (LayoutV::NonNull(Box::new(l)), c1)
        },
        TypeDescV::Ref(x) => {
            let (l, c1) = spec_derive(u, *x, c, fuel);
            (LayoutV::Ref { referent: Box::new(l) }, c1)
        },
        TypeDescV::MutRef(x) => {
            let (l, c1) = spec_derive(u, *x, c, fuel);
            (LayoutV::MutRef { referent: Box::new(l) }, c1)
        },
        TypeDescV::Array { len, elem } => {
            let (l, c1) = spec_derive(u, *elem, c, fuel);
            (LayoutV::Array { len, layout: Box::new(l) }, c1)
        },
        TypeDescV::FunctionPointer { is_unsafe, abi, args, return_ty } => {
            let (rl, c1) = spec_derive(u, *return_ty, c, fuel);
            let (als, c2) = spec_derive_list(u, args, c1, fuel);
            (
                LayoutV::FunctionPointer {
                    is_unsafe,
                    abi,
                    args: als,
                    return_ty: Box::new(rl),
                },
                c2,
            )
        },
        TypeDescV::Nominal { id } => {
            if id < u.len() {
                let nom = u[id as int];
                match spec_find_uid(c, nom.uid) {
                    Some(i) => (LayoutV::DefinedType { id: i as usize }, c),
                    None => {
                        if fuel == 0 {
                            (LayoutV::Void, c)
                        } else {
                            let idx = c.len();
                            let c1 = c.push((nom.uid, spec_placeholder(nom)));
                            let (tt, c2) = spec_derive_body(u, nom.body, c1, (fuel - 1) as nat);
                            let entry = DefinedTypeV { name: nom.name, ty: tt };
                            let c3 = c2.update(idx as int, (nom.uid, entry));
                            (LayoutV::DefinedType { id: idx as usize }, c3)
                        }
                    },
                }
            } else {
                (LayoutV::Void, c)
            }
        },
    }
}

/// Derivation of a list of shapes, left to right, threading the catalog.
pub open spec fn spec_derive_list(
    u: Seq<NominalDescV>,
    ds: Seq<TypeDescV>,
    c: CatalogV,
    fuel: nat,
) -> (Seq<LayoutV>, CatalogV)
    decreases fuel, size_descs(ds),
{
    if ds.len() == 0 {
        (Seq::empty(), c)
    } else {
        let (l, c1) = spec_derive(u, ds[0], c, fuel);
        let (ls, c2) = spec_derive_list(u, ds.subrange(1, ds.len() as int), c1, fuel);
        (seq![l] + ls, c2)
    }
}

/// Derivation of named fields, in declaration order.
pub open spec fn spec_derive_fields(
    u: Seq<NominalDescV>,
    fs: Seq<FieldDescV>,
    c: CatalogV,
    fuel: nat,
) -> (Seq<NamedFieldV>, CatalogV)
    decreases fuel, size_field_descs(fs),
{
    if fs.len() == 0 {
        (Seq::empty(), c)
    } else {
        let (l, c1) = spec_derive(u, fs[0].ty, c, fuel);
        let (rest, c2) = spec_derive_fields(u, fs.subrange(1, fs.len() as int), c1, fuel);
        (seq![NamedFieldV { name: fs[0].name, layout: l }] + rest, c2)
    }
}

/// Derivation of one enum variant's payload.
pub open spec fn spec_derive_variant_body(
    u: Seq<NominalDescV>,
    vb: VariantBodyDescV,
    c: CatalogV,
    fuel: nat,
) -> (EnumVariantTypeV, CatalogV)
    decreases fuel, size_variant_body(vb),
{
    match vb {
        VariantBodyDescV::Unit => (EnumVariantTypeV::Unit, c),
        VariantBodyDescV::Tuple(ds) => {
            let (ls, c1) = spec_derive_list(u, ds, c, fuel);
            (EnumVariantTypeV::Tuple(ls), c1)
        },
        VariantBodyDescV::Struct(fs) => {
            let (nfs, c1) = spec_derive_fields(u, fs, c, fuel);
            (EnumVariantTypeV::Struct(nfs), c1)
        },
    }
}

/// Derivation of enum variants in declaration order; `prev` is the previous
/// variant's discriminant, if any.
pub open spec fn spec_derive_variants(
    u: Seq<NominalDescV>,
    vs: Seq<VariantDescV>,
    prev: Option<i64>,
    c: CatalogV,
    fuel: nat,
) -> (Seq<EnumVariantV>, CatalogV)
    decreases fuel, size_variant_descs(vs),
{
    if vs.len() == 0 {
        (Seq::empty(), c)
    } else {
        let d = spec_disc(vs[0].discriminant, prev);
        let (ty, c1) = spec_derive_variant_body(u, vs[0].body, c, fuel);
        let variant = EnumVariantV { name: vs[0].name, ty, discriminant: d as i64 };
        let (rest, c2) = spec_derive_variants(
            u,
            vs.subrange(1, vs.len() as int),
            Some(d as i64),
            c1,
            fuel,
        );
        (seq![variant] + rest, c2)
    }
}

/// Derivation of a nominal type's body.
pub open spec fn spec_derive_body(
    u: Seq<NominalDescV>,
    b: TypeBodyDescV,
    c: CatalogV,
    fuel: nat,
) -> (TypeTypeV, CatalogV)
    decreases fuel, size_body(b),
{
    match b {
        TypeBodyDescV::StructNamed(fs) => {
            let (nfs, c1) = spec_derive_fields(u, fs, c, fuel);
            (TypeTypeV::StructNamed { fields: nfs }, c1)
        },
        TypeBodyDescV::StructUnnamed(ds) => {
            let (ls, c1) = spec_derive_list(u, ds, c, fuel);
            (TypeTypeV::StructUnnamed { fields: ls }, c1)
        },
        TypeBodyDescV::StructUnit => (TypeTypeV::StructUnit, c),
        TypeBodyDescV::Enum { variants, repr } => {
            let (evs, c1) = spec_derive_variants(u, variants, None, c, fuel);
            (TypeTypeV::Enum { variants: evs, repr }, c1)
        },
        TypeBodyDescV::Union(fs) => {
            let (nfs, c1) = spec_derive_fields(u, fs, c, fuel);
            (TypeTypeV::Union { fields: nfs }, c1)
        },
    }
}

/// Fuel that is always enough for one derivation over universe `u`.
pub open spec fn spec_fuel(u: Seq<NominalDescV>) -> nat {
    u.len() + 1
}

/// The derivation hook: what deriving `dv` on top of catalog `c` returns.
pub open spec fn spec_layout_impl(dv: TypeDescriptionV, c: CatalogV) -> (LayoutV, CatalogV) {
    spec_derive(dv.nominals, dv.root, c, spec_fuel(dv.nominals))
}

/// The catalog with its identity keys stripped: position is then the only
/// reference mechanism.
pub open spec fn stripped_catalog(c: CatalogV) -> Seq<DefinedTypeV> {
    Seq::new(
        c.len(),
        |i: int|
            if 0 <= i < c.len() {
                c[i].1
            } else {
                DefinedTypeV { name: Seq::empty(), ty: TypeTypeV::StructUnit }
            },
    )
}

/// The final reflection result for a declaration: derivation from an empty
/// catalog, identity keys stripped. A function of the declaration alone.
pub open spec fn spec_type_layout(dv: TypeDescriptionV) -> TypeLayoutV {
    let (l, c) = spec_layout_impl(dv, Seq::empty());
    TypeLayoutV { defined_types: stripped_catalog(c), layout: l }
}

} // verus!

verus! {

/// What `spec_find_uid` returns: the first position holding `u`, or `None`
/// when no entry holds it.
pub proof fn lemma_find_uid(c: CatalogV, u: TypeUidV)
    ensures
        match spec_find_uid(c, u) {
            Some(i) => 0 <= i < c.len() && c[i].0 == u && forall|j: int|
                0 <= j < i ==> (#[trigger] c[j]).0 != u,
            None => forall|j: int| 0 <= j < c.len() ==> (#[trigger] c[j]).0 != u,
        },
    decreases c.len(),
{
    if c.len() == 0 {
    } else if c[0].0 == u {
    } else {
        let sub = c.subrange(1, c.len() as int);
        lemma_find_uid(sub, u);
        assert(forall|j: int| 0 <= j < sub.len() ==> sub[j] == c[j + 1]);
        match spec_find_uid(sub, u) {
            Some(i) => {
                assert(c[i + 1].0 == u);
                assert forall|j: int| 0 <= j < i + 1 implies (#[trigger] c[j]).0 != u by {
                    if j > 0 {
                        assert(sub[j - 1] == c[j]);
                    }
                }
            },
            None => {
                assert forall|j: int| 0 <= j < c.len() implies (#[trigger] c[j]).0 != u by {
                    if j > 0 {
                        assert(sub[j - 1] == c[j]);
                    }
                }
            },
        }
    }
}

/// A uid is seen exactly when some entry holds it.
pub proof fn lemma_seen_iff_exists(c: CatalogV, u: TypeUidV)
    ensures
        uid_seen(c, u) <==> exists|j: int| 0 <= j < c.len() && (#[trigger] c[j]).0 == u,
{
    lemma_find_uid(c, u);
    match spec_find_uid(c, u) {
        Some(i) => {
            assert(0 <= i < c.len() && c[i].0 == u);
        },
        None => {},
    }
}

/// At most every universe definition can be unseen.
pub proof fn lemma_unseen_le(noms: Seq<NominalDescV>, c: CatalogV)
    ensures
        spec_unseen(noms, c) <= noms.len(),
    decreases noms.len(),
{
    if noms.len() > 0 {
        lemma_unseen_le(noms.drop_last(), c);
    }
}

pub proof fn lemma_extends_push(c: CatalogV, x: (TypeUidV, DefinedTypeV))
    ensures
        catalog_extends(c, c.push(x)),
{
}

pub proof fn lemma_extends_trans(c1: CatalogV, c2: CatalogV, c3: CatalogV)
    requires
        catalog_extends(c1, c2),
        catalog_extends(c2, c3),
    ensures
        catalog_extends(c1, c3),
{
}

/// Growing the catalog never unsees a uid.
pub proof fn lemma_seen_extends(c1: CatalogV, c2: CatalogV, u: TypeUidV)
    requires
        catalog_extends(c1, c2),
        uid_seen(c1, u),
    ensures
        uid_seen(c2, u),
{
    lemma_seen_iff_exists(c1, u);
    lemma_seen_iff_exists(c2, u);
    let j = choose|j: int| 0 <= j < c1.len() && (#[trigger] c1[j]).0 == u;
    assert(c2[j].0 == u);
}

/// Growing the catalog never increases the number of unseen definitions.
pub proof fn lemma_unseen_extends(noms: Seq<NominalDescV>, c1: CatalogV, c2: CatalogV)
    requires
        catalog_extends(c1, c2),
    ensures
        spec_unseen(noms, c2) <= spec_unseen(noms, c1),
    decreases noms.len(),
{
    if noms.len() > 0 {
        lemma_unseen_extends(noms.drop_last(), c1, c2);
        if uid_seen(c1, noms.last().uid) {
            lemma_seen_extends(c1, c2, noms.last().uid);
        }
    }
}

/// Reserving an entry for a definition that was unseen makes strictly fewer
/// definitions unseen.
pub proof fn lemma_unseen_push(
    noms: Seq<NominalDescV>,
    c: CatalogV,
    id: int,
    e: DefinedTypeV,
)
    requires
        0 <= id < noms.len(),
        !uid_seen(c, noms[id].uid),
    ensures
        spec_unseen(noms, c.push((noms[id].uid, e))) < spec_unseen(noms, c),
    decreases noms.len(),
{
    let u = noms[id].uid;
    let c2 = c.push((u, e));
    lemma_extends_push(c, (u, e));
    if id == noms.len() - 1 {
        lemma_unseen_extends(noms.drop_last(), c, c2);
        assert(c2[c.len() as int].0 == u);
        lemma_seen_iff_exists(c2, u);
        assert(uid_seen(c2, noms.last().uid));
    } else {
        lemma_unseen_push(noms.drop_last(), c, id, e);
        if uid_seen(c, noms.last().uid) {
            lemma_seen_extends(c, c2, noms.last().uid);
        }
    }
}

} // verus!

verus! {

/// One derivation step only grows the catalog: every existing entry keeps
/// its position and content.
pub proof fn lemma_derive_extends(u: Seq<NominalDescV>, d: TypeDescV, c: CatalogV, fuel: nat)
    ensures
        catalog_extends(c, spec_derive(u, d, c, fuel).1),
    decreases fuel, size_desc(d),
{
    match d {
        TypeDescV::ConstPtr(x) => lemma_derive_extends(u, *x, c, fuel),
        TypeDescV::MutPtr(x) => lemma_derive_extends(u, *x, c, fuel),
        TypeDescV::NonNull(x) => lemma_derive_extends(u, *x, c, fuel),
        TypeDescV::Ref(x) => lemma_derive_extends(u, *x, c, fuel),
        TypeDescV::MutRef(x) => lemma_derive_extends(u, *x, c, fuel),
        TypeDescV::Array { elem, .. } => lemma_derive_extends(u, *elem, c, fuel),
        TypeDescV::FunctionPointer { args, return_ty, .. } => {
            let (_, c1) = spec_derive(u, *return_ty, c, fuel);
            lemma_derive_extends(u, *return_ty, c, fuel);
            lemma_derive_list_extends(u, args, c1, fuel);
            lemma_extends_trans(c, c1, spec_derive_list(u, args, c1, fuel).1);
        },
        TypeDescV::Nominal { id } => {
            if id < u.len() {
                let nom = u[id as int];
                match spec_find_uid(c, nom.uid) {
                    Some(_) => {},
                    None => {
                        if fuel > 0 {
                            let idx = c.len();
                            let c1 = c.push((nom.uid, spec_placeholder(nom)));
                            let (tt, c2) = spec_derive_body(u, nom.body, c1, (fuel - 1) as nat);
                            lemma_derive_body_extends(u, nom.body, c1, (fuel - 1) as nat);
                            let entry = DefinedTypeV { name: nom.name, ty: tt };
                            let c3 = c2.update(idx as int, (nom.uid, entry));
                            assert forall|i: int| 0 <= i < c.len() implies c3[i] == c[i] by {
                                assert(c2[i] == c1[i]);
                                assert(c1[i] == c[i]);
                            }
                        }
                    },
                }
            }
        },
        _ => {},
    }
}

pub proof fn lemma_derive_list_extends(
    u: Seq<NominalDescV>,
    ds: Seq<TypeDescV>,
    c: CatalogV,
    fuel: nat,
)
    ensures
        catalog_extends(c, spec_derive_list(u, ds, c, fuel).1),
    decreases fuel, size_descs(ds),
{
    if ds.len() > 0 {
        let (_, c1) = spec_derive(u, ds[0], c, fuel);
        lemma_derive_extends(u, ds[0], c, fuel);
        lemma_derive_list_extends(u, ds.subrange(1, ds.len() as int), c1, fuel);
        lemma_extends_trans(
            c,
            c1,
            spec_derive_list(u, ds.subrange(1, ds.len() as int), c1, fuel).1,
        );
    }
}

pub proof fn lemma_derive_fields_extends(
    u: Seq<NominalDescV>,
    fs: Seq<FieldDescV>,
    c: CatalogV,
    fuel: nat,
)
    ensures
        catalog_extends(c, spec_derive_fields(u, fs, c, fuel).1),
    decreases fuel, size_field_descs(fs),
{
    if fs.len() > 0 {
        let (_, c1) = spec_derive(u, fs[0].ty, c, fuel);
        lemma_derive_extends(u, fs[0].ty, c, fuel);
        lemma_derive_fields_extends(u, fs.subrange(1, fs.len() as int), c1, fuel);
        lemma_extends_trans(
            c,
            c1,
            spec_derive_fields(u, fs.subrange(1, fs.len() as int), c1, fuel).1,
        );
    }
}

pub proof fn lemma_derive_variant_body_extends(
    u: Seq<NominalDescV>,
    vb: VariantBodyDescV,
    c: CatalogV,
    fuel: nat,
)
    ensures
        catalog_extends(c, spec_derive_variant_body(u, vb, c, fuel).1),
    decreases fuel, size_variant_body(vb),
{
    match vb {
        VariantBodyDescV::Unit => {},
        VariantBodyDescV::Tuple(ds) => lemma_derive_list_extends(u, ds, c, fuel),
        VariantBodyDescV::Struct(fs) => lemma_derive_fields_extends(u, fs, c, fuel),
    }
}

pub proof fn lemma_derive_variants_extends(
    u: Seq<NominalDescV>,
    vs: Seq<VariantDescV>,
    prev: Option<i64>,
    c: CatalogV,
    fuel: nat,
)
    ensures
        catalog_extends(c, spec_derive_variants(u, vs, prev, c, fuel).1),
    decreases fuel, size_variant_descs(vs),
{
    if vs.len() > 0 {
        let d = spec_disc(vs[0].discriminant, prev);
        let (_, c1) = spec_derive_variant_body(u, vs[0].body, c, fuel);
        lemma_derive_variant_body_extends(u, vs[0].body, c, fuel);
        lemma_derive_variants_extends(
            u,
            vs.subrange(1, vs.len() as int),
            Some(d as i64),
            c1,
            fuel,
        );
        lemma_extends_trans(
            c,
            c1,
            spec_derive_variants(u, vs.subrange(1, vs.len() as int), Some(d as i64), c1, fuel).1,
        );
    }
}

pub proof fn lemma_derive_body_extends(
    u: Seq<NominalDescV>,
    b: TypeBodyDescV,
    c: CatalogV,
    fuel: nat,
)
    ensures
        catalog_extends(c, spec_derive_body(u, b, c, fuel).1),
    decreases fuel, size_body(b),
{
    match b {
        TypeBodyDescV::StructNamed(fs) => lemma_derive_fields_extends(u, fs, c, fuel),
        TypeBodyDescV::StructUnnamed(ds) => lemma_derive_list_extends(u, ds, c, fuel),
        TypeBodyDescV::StructUnit => {},
        TypeBodyDescV::Enum { variants, .. } => lemma_derive_variants_extends(
            u,
            variants,
            None,
            c,
            fuel,
        ),
        TypeBodyDescV::Union(fs) => lemma_derive_fields_extends(u, fs, c, fuel),
    }
}

} // verus!

verus! {

/// Every enum definition in the universe assigns only representable
/// discriminants.
pub open spec fn universe_discs_ok(u: Seq<NominalDescV>) -> bool {
    forall|i: int| 0 <= i < u.len() ==> spec_body_discs_ok((#[trigger] u[i]).body)
}

/// Finds the position of the first catalog entry carrying uid `u`.
pub fn find_uid(c: &DefinedTypes, u: &TypeUid) -> (r: Option<usize>)
    ensures
        match r {
            Some(i) => spec_find_uid(catalog_view(c@), u@) == Some(i as int),
            None => spec_find_uid(catalog_view(c@), u@) is None,
        },
{
    let cv = Ghost(catalog_view(c@));
    proof {
        lemma_find_uid(cv@, u@);
    }
    let n = c.len();
    let mut i: usize = 0;
    while i < n
        invariant
            0 <= i <= n,
            n == c@.len(),
            cv@ == catalog_view(c@),
            forall|j: int| 0 <= j < i ==> (#[trigger] cv@[j]).0 != u@,
        decreases n - i,
    {
        if uid_eq(&c[i].0, u) {
            proof {
                assert(cv@[i as int].0 == c@[i as int].0@);
                lemma_find_uid(cv@, u@);
            }
            return Some(i);
        }
        proof {
            assert(cv@[i as int].0 == c@[i as int].0@);
        }
        i += 1;
    }
    proof {
        lemma_find_uid(cv@, u@);
    }
    None
}

/// Derives the layout of one declared shape on top of the given catalog.
fn derive_desc(
    noms: &Vec<NominalDesc>,
    d: &TypeDesc,
    c: DefinedTypes,
    Ghost(fuel): Ghost<nat>,
) -> (r: FullLayout)
    requires
        universe_discs_ok(nominals_deep(noms@)),
        fuel > spec_unseen(nominals_deep(noms@), catalog_view(c@)),
    ensures
        r.layout@ == spec_derive(nominals_deep(noms@), d@, catalog_view(c@), fuel).0,
        catalog_view(r.defined_types@) == spec_derive(
            nominals_deep(noms@),
            d@,
            catalog_view(c@),
            fuel,
        ).1,
    decreases fuel, size_desc(d@),
{
    let ghost uv = nominals_deep(noms@);
    let ghost cv = catalog_view(c@);
    match d {
        TypeDesc::Void => FullLayout { layout: Layout::Void, defined_types: c },
        TypeDesc::U8 => FullLayout { layout: Layout::U8, defined_types: c },
        TypeDesc::U16 => FullLayout { layout: Layout::U16, defined_types: c },
        TypeDesc::U32 => FullLayout { layout: Layout::U32, defined_types: c },
        TypeDesc::U64 => FullLayout { layout: Layout::U64, defined_types: c },
        TypeDesc::I8 => FullLayout { layout: Layout::I8, defined_types: c },
        TypeDesc::I16 => FullLayout { layout: Layout::I16, defined_types: c },
        TypeDesc::I32 => FullLayout { layout: Layout::I32, defined_types: c },
        TypeDesc::I64 => FullLayout { layout: Layout::I64, defined_types: c },
        TypeDesc::USize => FullLayout { layout: Layout::USize, defined_types: c },
        TypeDesc::ISize => FullLayout { layout: Layout::ISize, defined_types: c },
        TypeDesc::Bool => FullLayout { layout: Layout::Bool, defined_types: c },
        TypeDesc::F32 => FullLayout { layout: Layout::F32, defined_types: c },
        TypeDesc::F64 => FullLayout { layout: Layout::F64, defined_types: c },
        TypeDesc::Char => FullLayout { layout: Layout::Char, defined_types: c },
        TypeDesc::ConstPtr(x) => {
            let rr = derive_desc(noms, x, c, Ghost(fuel));
            FullLayout {
                layout: Layout::ConstPtr(Box::new(rr.layout)),
                defined_types: rr.defined_types,
            }
        },
        TypeDesc::MutPtr(x) => {
            let rr = derive_desc(noms, x, c, Ghost(fuel));
            FullLayout {
                layout: Layout::MutPtr(Box::new(rr.layout)),
                defined_types: rr.defined_types,
            }
        },
        TypeDesc::NonNull(x) => {
            let rr = derive_desc(noms, x, c, Ghost(fuel));
            FullLayout {
                layout: Layout::NonNull(Box::new(rr.layout)),
                defined_types: rr.defined_types,
            }
        },
        TypeDesc::Ref(x) => {
            let rr = derive_desc(noms, x, c, Ghost(fuel));
            FullLayout {
                layout: Layout::Ref { referent: Box::new(rr.layout) },
                defined_types: rr.defined_types,
            }
        },
        TypeDesc::MutRef(x) => {
            let rr = derive_desc(noms, x, c, Ghost(fuel));
            FullLayout {
                layout: Layout::MutRef { referent: Box::new(rr.layout) },
                defined_types: rr.defined_types,
            }
        },
        TypeDesc::Array { len, elem } => {
            let rr = derive_desc(noms, elem, c, Ghost(fuel));
            FullLayout {
                layout: Layout::Array { len: *len, layout: Box::new(rr.layout) },
                defined_types: rr.defined_types,
            }
        },
        TypeDesc::FunctionPointer { is_unsafe, abi, args, return_ty } => {
            let rr = derive_desc(noms, return_ty, c, Ghost(fuel));
            proof {
                lemma_derive_extends(uv, (*return_ty)@, cv, fuel);
                lemma_unseen_extends(uv, cv, catalog_view(rr.defined_types@));
                assert(descs_deep(args@).subrange(0, args@.len() as int) =~= descs_deep(args@));
            }
            let (ls, c2) = derive_list(noms, args, 0, rr.defined_types, Ghost(fuel));
            FullLayout {
                layout: Layout::FunctionPointer {
                    is_unsafe: *is_unsafe,
                    abi: *abi,
                    args: ls,
                    return_ty: Box::new(rr.layout),
                },
                defined_types: c2,
            }
        },
        TypeDesc::Nominal { id } => {
            if *id < noms.len() {
                let nom_uid = noms[*id].uid;
                let nom_name = noms[*id].name;
                proof {
                    assert(uv[*id as int] == noms@[*id as int].deep());
                }
                match find_uid(&c, &nom_uid) {
                    Some(i) => FullLayout {
                        layout: Layout::DefinedType { id: i },
                        defined_types: c,
                    },
                    None => {
                        let idx = c.len();
                        let mut c = c;
                        c.push(
                            (nom_uid, DefinedType { name: nom_name, ty: TypeType::StructUnit }),
                        );
                        let ghost cv1 = cv.push((nom_uid@, spec_placeholder(uv[*id as int])));
                        proof {
                            assert(catalog_view(c@) =~= cv1);
                            lemma_unseen_push(uv, cv, *id as int, spec_placeholder(uv[*id as int]));
                        }
                        let ghost fuel1 = (fuel - 1) as nat;
                        let (tt, mut c2) = derive_body(noms, &noms[*id].body, c, Ghost(fuel1));
                        proof {
                            lemma_derive_body_extends(uv, uv[*id as int].body, cv1, fuel1);
                            assert(catalog_view(c2@).len() == c2@.len());
                        }
                        let entry = DefinedType { name: nom_name, ty: tt };
                        c2[idx] = (nom_uid, entry);
                        proof {
                            let (tts, c2s) = spec_derive_body(uv, uv[*id as int].body, cv1, fuel1);
                            assert(catalog_view(c2@) =~= c2s.update(
                                idx as int,
                                (nom_uid@, DefinedTypeV { name: uv[*id as int].name, ty: tts }),
                            ));
                        }
                        FullLayout { layout: Layout::DefinedType { id: idx }, defined_types: c2 }
                    },
                }
            } else {
                FullLayout { layout: Layout::Void, defined_types: c }
            }
        },
    }
}

/// Derives the layouts of the shapes `ds[i..]`, threading the catalog.
fn derive_list(
    noms: &Vec<NominalDesc>,
    ds: &Vec<TypeDesc>,
    i: usize,
    c: DefinedTypes,
    Ghost(fuel): Ghost<nat>,
) -> (r: (Vec<Layout>, DefinedTypes))
    requires
        i <= ds@.len(),
        universe_discs_ok(nominals_deep(noms@)),
        fuel > spec_unseen(nominals_deep(noms@), catalog_view(c@)),
    ensures
        layouts_deep(r.0@) == spec_derive_list(
            nominals_deep(noms@),
            descs_deep(ds@).subrange(i as int, ds@.len() as int),
            catalog_view(c@),
            fuel,
        ).0,
        catalog_view(r.1@) == spec_derive_list(
            nominals_deep(noms@),
            descs_deep(ds@).subrange(i as int, ds@.len() as int),
            catalog_view(c@),
            fuel,
        ).1,
    decreases fuel, size_descs(descs_deep(ds@).subrange(i as int, ds@.len() as int)),
{
    let ghost uv = nominals_deep(noms@);
    let ghost cv = catalog_view(c@);
    let ghost sub = descs_deep(ds@).subrange(i as int, ds@.len() as int);
    if i == ds.len() {
        proof {
            assert(sub.len() == 0);
            assert(layouts_deep(Seq::<Layout>::empty()) =~= Seq::<LayoutV>::empty());
        }
        (Vec::new(), c)
    } else {
        proof {
            assert(sub[0] == ds@[i as int].deep());
            assert(size_desc(sub[0]) < size_descs(sub));
        }
        let r0 = derive_desc(noms, &ds[i], c, Ghost(fuel));
        proof {
            lemma_derive_extends(uv, ds@[i as int].deep(), cv, fuel);
            lemma_unseen_extends(uv, cv, catalog_view(r0.defined_types@));
            assert(sub.subrange(1, sub.len() as int) =~= descs_deep(ds@).subrange(
                i + 1,
                ds@.len() as int,
            ));
        }
        let (mut rest, c2) = derive_list(noms, ds, i + 1, r0.defined_types, Ghost(fuel));
        rest.insert(0, r0.layout);
        proof {
            let (ls, _) = spec_derive_list(uv, sub, cv, fuel);
            assert(layouts_deep(rest@) =~= ls);
        }
        (rest, c2)
    }
}

/// Derives named fields `fs[i..]` in declaration order.
fn derive_fields(
    noms: &Vec<NominalDesc>,
    fs: &Vec<FieldDesc>,
    i: usize,
    c: DefinedTypes,
    Ghost(fuel): Ghost<nat>,
) -> (r: (Vec<NamedField>, DefinedTypes))
    requires
        i <= fs@.len(),
        universe_discs_ok(nominals_deep(noms@)),
        fuel > spec_unseen(nominals_deep(noms@), catalog_view(c@)),
    ensures
        fields_deep(r.0@) == spec_derive_fields(
            nominals_deep(noms@),
            field_descs_deep(fs@).subrange(i as int, fs@.len() as int),
            catalog_view(c@),
            fuel,
        ).0,
        catalog_view(r.1@) == spec_derive_fields(
            nominals_deep(noms@),
            field_descs_deep(fs@).subrange(i as int, fs@.len() as int),
            catalog_view(c@),
            fuel,
        ).1,
    decreases fuel, size_field_descs(field_descs_deep(fs@).subrange(i as int, fs@.len() as int)),
{
    let ghost uv = nominals_deep(noms@);
    let ghost cv = catalog_view(c@);
    let ghost sub = field_descs_deep(fs@).subrange(i as int, fs@.len() as int);
    if i == fs.len() {
        proof {
            assert(sub.len() == 0);
            assert(fields_deep(Seq::<NamedField>::empty()) =~= Seq::<NamedFieldV>::empty());
        }
        (Vec::new(), c)
    } else {
        proof {
            assert(sub[0] == fs@[i as int].deep());
            assert(size_desc(sub[0].ty) < size_field_descs(sub));
        }
        let r0 = derive_desc(noms, &fs[i].ty, c, Ghost(fuel));
        proof {
            lemma_derive_extends(uv, fs@[i as int].ty.deep(), cv, fuel);
            lemma_unseen_extends(uv, cv, catalog_view(r0.defined_types@));
            assert(sub.subrange(1, sub.len() as int) =~= field_descs_deep(fs@).subrange(
                i + 1,
                fs@.len() as int,
            ));
        }
        let (mut rest, c2) = derive_fields(noms, fs, i + 1, r0.defined_types, Ghost(fuel));
        rest.insert(0, NamedField { name: fs[i].name, layout: r0.layout });
        proof {
            let (nfs, _) = spec_derive_fields(uv, sub, cv, fuel);
            assert(fields_deep(rest@) =~= nfs);
        }
        (rest, c2)
    }
}

/// Derives one enum variant's payload.
fn derive_variant_body(
    noms: &Vec<NominalDesc>,
    vb: &VariantBodyDesc,
    c: DefinedTypes,
    Ghost(fuel): Ghost<nat>,
) -> (r: (EnumVariantType, DefinedTypes))
    requires
        universe_discs_ok(nominals_deep(noms@)),
        fuel > spec_unseen(nominals_deep(noms@), catalog_view(c@)),
    ensures
        r.0@ == spec_derive_variant_body(
            nominals_deep(noms@),
            vb@,
            catalog_view(c@),
            fuel,
        ).0,
        catalog_view(r.1@) == spec_derive_variant_body(
            nominals_deep(noms@),
            vb@,
            catalog_view(c@),
            fuel,
        ).1,
    decreases fuel, size_variant_body(vb@),
{
    let ghost uv = nominals_deep(noms@);
    let ghost cv = catalog_view(c@);
    match vb {
        VariantBodyDesc::Unit => (EnumVariantType::Unit, c),
        VariantBodyDesc::Tuple(ds) => {
            proof {
                assert(descs_deep(ds@).subrange(0, ds@.len() as int) =~= descs_deep(ds@));
            }
            let (ls, c1) = derive_list(noms, ds, 0, c, Ghost(fuel));
            (EnumVariantType::Tuple(ls), c1)
        },
        VariantBodyDesc::Struct(fs) => {
            proof {
                assert(field_descs_deep(fs@).subrange(0, fs@.len() as int) =~= field_descs_deep(
                    fs@,
                ));
            }
            let (nfs, c1) = derive_fields(noms, fs, 0, c, Ghost(fuel));
            (EnumVariantType::Struct(nfs), c1)
        },
    }
}

/// Derives the variants `vs[i..]`; `prev` is the discriminant of the variant
/// before `vs[i]`, if any.
fn derive_variants(
    noms: &Vec<NominalDesc>,
    vs: &Vec<VariantDesc>,
    i: usize,
    prev: Option<i64>,
    c: DefinedTypes,
    Ghost(fuel): Ghost<nat>,
) -> (r: (Vec<EnumVariant>, DefinedTypes))
    requires
        i <= vs@.len(),
        universe_discs_ok(nominals_deep(noms@)),
        discs_ok(variant_descs_deep(vs@).subrange(i as int, vs@.len() as int), prev),
        fuel > spec_unseen(nominals_deep(noms@), catalog_view(c@)),
    ensures
        variants_deep(r.0@) == spec_derive_variants(
            nominals_deep(noms@),
            variant_descs_deep(vs@).subrange(i as int, vs@.len() as int),
            prev,
            catalog_view(c@),
            fuel,
        ).0,
        catalog_view(r.1@) == spec_derive_variants(
            nominals_deep(noms@),
            variant_descs_deep(vs@).subrange(i as int, vs@.len() as int),
            prev,
            catalog_view(c@),
            fuel,
        ).1,
    decreases fuel, size_variant_descs(
        variant_descs_deep(vs@).subrange(i as int, vs@.len() as int),
    ),
{
    let ghost uv = nominals_deep(noms@);
    let ghost cv = catalog_view(c@);
    let ghost sub = variant_descs_deep(vs@).subrange(i as int, vs@.len() as int);
    if i == vs.len() {
        proof {
            assert(sub.len() == 0);
            assert(variants_deep(Seq::<EnumVariant>::empty()) =~= Seq::<EnumVariantV>::empty());
        }
        (Vec::new(), c)
    } else {
        proof {
            assert(sub[0] == vs@[i as int].deep());
            assert(size_variant_body(sub[0].body) < size_variant_descs(sub));
        }
        let d: i64 = match vs[i].discriminant {
            Some(e) => e,
            None => match prev {
                None => 0,
                Some(p) => p + 1,
            },
        };
        proof {
            assert(d as int == spec_disc(sub[0].discriminant, prev));
        }
        let (ty, c1) = derive_variant_body(noms, &vs[i].body, c, Ghost(fuel));
        proof {
            lemma_derive_variant_body_extends(uv, vs@[i as int].body.deep(), cv, fuel);
            lemma_unseen_extends(uv, cv, catalog_view(c1@));
            assert(sub.subrange(1, sub.len() as int) =~= variant_descs_deep(vs@).subrange(
                i + 1,
                vs@.len() as int,
            ));
        }
        let (mut rest, c2) = derive_variants(noms, vs, i + 1, Some(d), c1, Ghost(fuel));
        rest.insert(0, EnumVariant { name: vs[i].name, ty, discriminant: d });
        proof {
            let (evs, _) = spec_derive_variants(uv, sub, prev, cv, fuel);
            assert(variants_deep(rest@) =~= evs);
        }
        (rest, c2)
    }
}

/// Derives a nominal type's body.
fn derive_body(
    noms: &Vec<NominalDesc>,
    b: &TypeBodyDesc,
    c: DefinedTypes,
    Ghost(fuel): Ghost<nat>,
) -> (r: (TypeType, DefinedTypes))
    requires
        universe_discs_ok(nominals_deep(noms@)),
        spec_body_discs_ok(b@),
        fuel > spec_unseen(nominals_deep(noms@), catalog_view(c@)),
    ensures
        r.0@ == spec_derive_body(nominals_deep(noms@), b@, catalog_view(c@), fuel).0,
        catalog_view(r.1@) == spec_derive_body(nominals_deep(noms@), b@, catalog_view(c@), fuel).1,
    decreases fuel, size_body(b@),
{
    let ghost uv = nominals_deep(noms@);
    match b {
        TypeBodyDesc::StructNamed(fs) => {
            proof {
                assert(field_descs_deep(fs@).subrange(0, fs@.len() as int) =~= field_descs_deep(
                    fs@,
                ));
            }
            let (nfs, c1) = derive_fields(noms, fs, 0, c, Ghost(fuel));
            (TypeType::StructNamed { fields: nfs }, c1)
        },
        TypeBodyDesc::StructUnnamed(ds) => {
            proof {
                assert(descs_deep(ds@).subrange(0, ds@.len() as int) =~= descs_deep(ds@));
            }
            let (ls, c1) = derive_list(noms, ds, 0, c, Ghost(fuel));
            (TypeType::StructUnnamed { fields: ls }, c1)
        },
        TypeBodyDesc::StructUnit => (TypeType::StructUnit, c),
        TypeBodyDesc::Enum { variants, repr } => {
            proof {
                assert(variant_descs_deep(variants@).subrange(0, variants@.len() as int)
                    =~= variant_descs_deep(variants@));
            }
            let (evs, c1) = derive_variants(noms, variants, 0, None, c, Ghost(fuel));
            (TypeType::Enum { variants: evs, repr: *repr }, c1)
        },
        TypeBodyDesc::Union(fs) => {
            proof {
                assert(field_descs_deep(fs@).subrange(0, fs@.len() as int) =~= field_descs_deep(
                    fs@,
                ));
            }
            let (nfs, c1) = derive_fields(noms, fs, 0, c, Ghost(fuel));
            (TypeType::Union { fields: nfs }, c1)
        },
    }
}

/// The discriminant bound that the derivation of a body needs: every enum
/// discriminant it assigns stays representable.
pub open spec fn spec_body_discs_ok(b: TypeBodyDescV) -> bool {
    match b {
        TypeBodyDescV::Enum { variants, .. } => discs_ok(variants, None),
        _ => true,
    }
}

} // verus!

verus! {

/// The derivation hook: derives the layout of the declared type `d` on top
/// of the accumulated catalog `defined_types`, returning the root layout and
/// the grown catalog. Within one result, every nominal type reached appears
/// exactly once, keyed by its uid.
pub fn layout_impl(d: &TypeDescription, defined_types: DefinedTypes) -> (r: FullLayout)
    requires
        d@.wf(),
    ensures
        r.layout@ == spec_layout_impl(d@, catalog_view(defined_types@)).0,
        catalog_view(r.defined_types@) == spec_layout_impl(d@, catalog_view(defined_types@)).1,
{
    let ghost uv = nominals_deep(d.nominals@);
    proof {
        assert forall|i: int| 0 <= i < uv.len() implies spec_body_discs_ok(
            (#[trigger] uv[i]).body,
        ) by {
            assert(d@.nominals[i].body.wf(d@.nominals.len() as nat));
        }
        lemma_unseen_le(uv, catalog_view(defined_types@));
    }
    derive_desc(&d.nominals, &d.root, defined_types, Ghost(spec_fuel(uv)))
}

} // verus!

verus! {

/// No two catalog entries share a uid.
pub open spec fn distinct_uids(c: CatalogV) -> bool {
    forall|i: int, j: int| 0 <= i < j < c.len() ==> c[i].0 != c[j].0
}

/// Deduplication: derivation never creates two catalog entries with the
/// same uid. A nominal type reached any number of times, through any number
/// of paths, keeps a single entry.
pub proof fn lemma_derive_distinct(u: Seq<NominalDescV>, d: TypeDescV, c: CatalogV, fuel: nat)
    requires
        distinct_uids(c),
    ensures
        distinct_uids(spec_derive(u, d, c, fuel).1),
    decreases fuel, size_desc(d),
{
    match d {
        TypeDescV::ConstPtr(x) => lemma_derive_distinct(u, *x, c, fuel),
        TypeDescV::MutPtr(x) => lemma_derive_distinct(u, *x, c, fuel),
        TypeDescV::NonNull(x) => lemma_derive_distinct(u, *x, c, fuel),
        TypeDescV::Ref(x) => lemma_derive_distinct(u, *x, c, fuel),
        TypeDescV::MutRef(x) => lemma_derive_distinct(u, *x, c, fuel),
        TypeDescV::Array { elem, .. } => lemma_derive_distinct(u, *elem, c, fuel),
        TypeDescV::FunctionPointer { args, return_ty, .. } => {
            let (_, c1) = spec_derive(u, *return_ty, c, fuel);
            lemma_derive_distinct(u, *return_ty, c, fuel);
            lemma_derive_list_distinct(u, args, c1, fuel);
        },
        TypeDescV::Nominal { id } => {
            if id < u.len() {
                let nom = u[id as int];
                match spec_find_uid(c, nom.uid) {
                    Some(_) => {},
                    None => {
                        if fuel > 0 {
                            let idx = c.len();
                            let c1 = c.push((nom.uid, spec_placeholder(nom)));
                            lemma_find_uid(c, nom.uid);
                            assert(distinct_uids(c1));
                            let (tt, c2) = spec_derive_body(u, nom.body, c1, (fuel - 1) as nat);
                            lemma_derive_body_distinct(u, nom.body, c1, (fuel - 1) as nat);
                            lemma_derive_body_extends(u, nom.body, c1, (fuel - 1) as nat);
                            let entry = DefinedTypeV { name: nom.name, ty: tt };
                            let c3 = c2.update(idx as int, (nom.uid, entry));
                            assert(c2[idx as int] == c1[idx as int]);
                            assert forall|i: int, j: int| 0 <= i < j < c3.len() implies c3[i].0
                                != c3[j].0 by {
                                assert(c3[i].0 == c2[i].0);
                                assert(c3[j].0 == c2[j].0);
                            }
                        }
                    },
                }
            }
        },
        _ => {},
    }
}

pub proof fn lemma_derive_list_distinct(
    u: Seq<NominalDescV>,
    ds: Seq<TypeDescV>,
    c: CatalogV,
    fuel: nat,
)
    requires
        distinct_uids(c),
    ensures
        distinct_uids(spec_derive_list(u, ds, c, fuel).1),
    decreases fuel, size_descs(ds),
{
    if ds.len() > 0 {
        let (_, c1) = spec_derive(u, ds[0], c, fuel);
        lemma_derive_distinct(u, ds[0], c, fuel);
        lemma_derive_list_distinct(u, ds.subrange(1, ds.len() as int), c1, fuel);
    }
}

pub proof fn lemma_derive_fields_distinct(
    u: Seq<NominalDescV>,
    fs: Seq<FieldDescV>,
    c: CatalogV,
    fuel: nat,
)
    requires
        distinct_uids(c),
    ensures
        distinct_uids(spec_derive_fields(u, fs, c, fuel).1),
    decreases fuel, size_field_descs(fs),
{
    if fs.len() > 0 {
        let (_, c1) = spec_derive(u, fs[0].ty, c, fuel);
        lemma_derive_distinct(u, fs[0].ty, c, fuel);
        lemma_derive_fields_distinct(u, fs.subrange(1, fs.len() as int), c1, fuel);
    }
}

pub proof fn lemma_derive_variant_body_distinct(
    u: Seq<NominalDescV>,
    vb: VariantBodyDescV,
    c: CatalogV,
    fuel: nat,
)
    requires
        distinct_uids(c),
    ensures
        distinct_uids(spec_derive_variant_body(u, vb, c, fuel).1),
    decreases fuel, size_variant_body(vb),
{
    match vb {
        VariantBodyDescV::Unit => {},
        VariantBodyDescV::Tuple(ds) => lemma_derive_list_distinct(u, ds, c, fuel),
        VariantBodyDescV::Struct(fs) => lemma_derive_fields_distinct(u, fs, c, fuel),
    }
}

pub proof fn lemma_derive_variants_distinct(
    u: Seq<NominalDescV>,
    vs: Seq<VariantDescV>,
    prev: Option<i64>,
    c: CatalogV,
    fuel: nat,
)
    requires
        distinct_uids(c),
    ensures
        distinct_uids(spec_derive_variants(u, vs, prev, c, fuel).1),
    decreases fuel, size_variant_descs(vs),
{
    if vs.len() > 0 {
        let d = spec_disc(vs[0].discriminant, prev);
        let (_, c1) = spec_derive_variant_body(u, vs[0].body, c, fuel);
        lemma_derive_variant_body_distinct(u, vs[0].body, c, fuel);
        lemma_derive_variants_distinct(
            u,
            vs.subrange(1, vs.len() as int),
            Some(d as i64),
            c1,
            fuel,
        );
    }
}

pub proof fn lemma_derive_body_distinct(
    u: Seq<NominalDescV>,
    b: TypeBodyDescV,
    c: CatalogV,
    fuel: nat,
)
    requires
        distinct_uids(c),
    ensures
        distinct_uids(spec_derive_body(u, b, c, fuel).1),
    decreases fuel, size_body(b),
{
    match b {
        TypeBodyDescV::StructNamed(fs) => lemma_derive_fields_distinct(u, fs, c, fuel),
        TypeBodyDescV::StructUnnamed(ds) => lemma_derive_list_distinct(u, ds, c, fuel),
        TypeBodyDescV::StructUnit => {},
        TypeBodyDescV::Enum { variants, .. } => lemma_derive_variants_distinct(
            u,
            variants,
            None,
            c,
            fuel,
        ),
        TypeBodyDescV::Union(fs) => lemma_derive_fields_distinct(u, fs, c, fuel),
    }
}

/// Deduplication at the library's entry point: one derivation, started on a
/// duplicate-free catalog, returns a duplicate-free catalog — every nominal
/// type has at most one entry, whatever shape the declaration has.
pub proof fn lemma_layout_impl_distinct(dv: TypeDescriptionV, c: CatalogV)
    requires
        distinct_uids(c),
    ensures
        distinct_uids(spec_layout_impl(dv, c).1),
{
    lemma_derive_distinct(dv.nominals, dv.root, c, spec_fuel(dv.nominals));
}

} // verus!

verus! {

/// Casting an index below a catalog length to `usize` keeps it below that
/// length.
proof fn lemma_index_cast(i: int, l: int)
    requires
        0 <= i < l,
    ensures
        (i as usize) < l,
{
    if i <= usize::MAX as int {
        assert(i as usize == i);
    } else {
        assert((i as usize) <= usize::MAX as int);
    }
}

/// Referential integrity: derivation on a catalog whose entries only point
/// into the catalog returns a catalog with the same property, and a layout
/// whose nominal references all point into that returned catalog — no
/// dangling indices.
pub proof fn lemma_derive_ids(u: Seq<NominalDescV>, d: TypeDescV, c: CatalogV, fuel: nat)
    requires
        catalog_ids_ok(c),
    ensures
        catalog_ids_ok(spec_derive(u, d, c, fuel).1),
        layout_ids_ok(spec_derive(u, d, c, fuel).0, spec_derive(u, d, c, fuel).1.len() as nat),
    decreases fuel, size_desc(d),
{
    match d {
        TypeDescV::ConstPtr(x) => lemma_derive_ids(u, *x, c, fuel),
        TypeDescV::MutPtr(x) => lemma_derive_ids(u, *x, c, fuel),
        TypeDescV::NonNull(x) => lemma_derive_ids(u, *x, c, fuel),
        TypeDescV::Ref(x) => lemma_derive_ids(u, *x, c, fuel),
        TypeDescV::MutRef(x) => lemma_derive_ids(u, *x, c, fuel),
        TypeDescV::Array { elem, .. } => lemma_derive_ids(u, *elem, c, fuel),
        TypeDescV::FunctionPointer { args, return_ty, .. } => {
            let (rl, c1) = spec_derive(u, *return_ty, c, fuel);
            let (_, c2) = spec_derive_list(u, args, c1, fuel);
            lemma_derive_ids(u, *return_ty, c, fuel);
            lemma_derive_list_ids(u, args, c1, fuel);
            lemma_derive_list_extends(u, args, c1, fuel);
            lemma_layout_ids_ok_mono(rl, c1.len() as nat, c2.len() as nat);
        },
        TypeDescV::Nominal { id } => {
            if id < u.len() {
                let nom = u[id as int];
                match spec_find_uid(c, nom.uid) {
                    Some(i) => {
                        lemma_find_uid(c, nom.uid);
                        lemma_index_cast(i, c.len() as int);
                    },
                    None => {
                        if fuel > 0 {
                            let idx = c.len();
                            let c1 = c.push((nom.uid, spec_placeholder(nom)));
                            assert forall|i: int| 0 <= i < c1.len() implies type_type_ids_ok(
                                (#[trigger] c1[i]).1.ty,
                                c1.len() as nat,
                            ) by {
                                if i < c.len() {
                                    lemma_type_type_ids_ok_mono(
                                        c[i].1.ty,
                                        c.len() as nat,
                                        c1.len() as nat,
                                    );
                                }
                            }
                            let (tt, c2) = spec_derive_body(u, nom.body, c1, (fuel - 1) as nat);
                            lemma_derive_body_ids(u, nom.body, c1, (fuel - 1) as nat);
                            lemma_derive_body_extends(u, nom.body, c1, (fuel - 1) as nat);
                            let entry = DefinedTypeV { name: nom.name, ty: tt };
                            let c3 = c2.update(idx as int, (nom.uid, entry));
                            assert forall|i: int| 0 <= i < c3.len() implies type_type_ids_ok(
                                (#[trigger] c3[i]).1.ty,
                                c3.len() as nat,
                            ) by {
                                if i != idx as int {
                                    assert(c3[i] == c2[i]);
                                }
                            }
                            lemma_index_cast(idx as int, c3.len() as int);
                        }
                    },
                }
            }
        },
        _ => {},
    }
}

pub proof fn lemma_derive_list_ids(
    u: Seq<NominalDescV>,
    ds: Seq<TypeDescV>,
    c: CatalogV,
    fuel: nat,
)
    requires
        catalog_ids_ok(c),
    ensures
        catalog_ids_ok(spec_derive_list(u, ds, c, fuel).1),
        layouts_ids_ok(
            spec_derive_list(u, ds, c, fuel).0,
            spec_derive_list(u, ds, c, fuel).1.len() as nat,
        ),
    decreases fuel, size_descs(ds),
{
    if ds.len() > 0 {
        let (l, c1) = spec_derive(u, ds[0], c, fuel);
        let rest = ds.subrange(1, ds.len() as int);
        let (ls, c2) = spec_derive_list(u, rest, c1, fuel);
        lemma_derive_ids(u, ds[0], c, fuel);
        lemma_derive_list_ids(u, rest, c1, fuel);
        lemma_derive_list_extends(u, rest, c1, fuel);
        lemma_layout_ids_ok_mono(l, c1.len() as nat, c2.len() as nat);
        let whole = seq![l] + ls;
        assert forall|i: int| 0 <= i < whole.len() implies layout_ids_ok(
            #[trigger] whole[i],
            c2.len() as nat,
        ) by {
            if i > 0 {
                assert(whole[i] == ls[i - 1]);
            }
        }
    }
}

pub proof fn lemma_derive_fields_ids(
    u: Seq<NominalDescV>,
    fs: Seq<FieldDescV>,
    c: CatalogV,
    fuel: nat,
)
    requires
        catalog_ids_ok(c),
    ensures
        catalog_ids_ok(spec_derive_fields(u, fs, c, fuel).1),
        fields_ids_ok(
            spec_derive_fields(u, fs, c, fuel).0,
            spec_derive_fields(u, fs, c, fuel).1.len() as nat,
        ),
    decreases fuel, size_field_descs(fs),
{
    if fs.len() > 0 {
        let (l, c1) = spec_derive(u, fs[0].ty, c, fuel);
        let rest = fs.subrange(1, fs.len() as int);
        let (nfs, c2) = spec_derive_fields(u, rest, c1, fuel);
        lemma_derive_ids(u, fs[0].ty, c, fuel);
        lemma_derive_fields_ids(u, rest, c1, fuel);
        lemma_derive_fields_extends(u, rest, c1, fuel);
        lemma_layout_ids_ok_mono(l, c1.len() as nat, c2.len() as nat);
        let whole = seq![NamedFieldV { name: fs[0].name, layout: l }] + nfs;
        assert forall|i: int| 0 <= i < whole.len() implies layout_ids_ok(
            (#[trigger] whole[i]).layout,
            c2.len() as nat,
        ) by {
            if i > 0 {
                assert(whole[i] == nfs[i - 1]);
            }
        }
    }
}

pub proof fn lemma_derive_variant_body_ids(
    u: Seq<NominalDescV>,
    vb: VariantBodyDescV,
    c: CatalogV,
    fuel: nat,
)
    requires
        catalog_ids_ok(c),
    ensures
        catalog_ids_ok(spec_derive_variant_body(u, vb, c, fuel).1),
        variant_type_ids_ok(
            spec_derive_variant_body(u, vb, c, fuel).0,
            spec_derive_variant_body(u, vb, c, fuel).1.len() as nat,
        ),
    decreases fuel, size_variant_body(vb),
{
    match vb {
        VariantBodyDescV::Unit => {},
        VariantBodyDescV::Tuple(ds) => lemma_derive_list_ids(u, ds, c, fuel),
        VariantBodyDescV::Struct(fs) => lemma_derive_fields_ids(u, fs, c, fuel),
    }
}

pub proof fn lemma_derive_variants_ids(
    u: Seq<NominalDescV>,
    vs: Seq<VariantDescV>,
    prev: Option<i64>,
    c: CatalogV,
    fuel: nat,
)
    requires
        catalog_ids_ok(c),
    ensures
        catalog_ids_ok(spec_derive_variants(u, vs, prev, c, fuel).1),
        variants_ids_ok(
            spec_derive_variants(u, vs, prev, c, fuel).0,
            spec_derive_variants(u, vs, prev, c, fuel).1.len() as nat,
        ),
    decreases fuel, size_variant_descs(vs),
{
    if vs.len() > 0 {
        let d = spec_disc(vs[0].discriminant, prev);
        let (ty, c1) = spec_derive_variant_body(u, vs[0].body, c, fuel);
        let rest = vs.subrange(1, vs.len() as int);
        let (evs, c2) = spec_derive_variants(u, rest, Some(d as i64), c1, fuel);
        lemma_derive_variant_body_ids(u, vs[0].body, c, fuel);
        lemma_derive_variants_ids(u, rest, Some(d as i64), c1, fuel);
        lemma_derive_variants_extends(u, rest, Some(d as i64), c1, fuel);
        lemma_variant_type_ids_ok_mono(ty, c1.len() as nat, c2.len() as nat);
        let head = EnumVariantV { name: vs[0].name, ty, discriminant: d as i64 };
        let whole = seq![head] + evs;
        assert forall|i: int| 0 <= i < whole.len() implies variant_type_ids_ok(
            (#[trigger] whole[i]).ty,
            c2.len() as nat,
        ) by {
            if i > 0 {
                assert(whole[i] == evs[i - 1]);
            }
        }
    }
}

pub proof fn lemma_derive_body_ids(
    u: Seq<NominalDescV>,
    b: TypeBodyDescV,
    c: CatalogV,
    fuel: nat,
)
    requires
        catalog_ids_ok(c),
    ensures
        catalog_ids_ok(spec_derive_body(u, b, c, fuel).1),
        type_type_ids_ok(
            spec_derive_body(u, b, c, fuel).0,
            spec_derive_body(u, b, c, fuel).1.len() as nat,
        ),
    decreases fuel, size_body(b),
{
    match b {
        TypeBodyDescV::StructNamed(fs) => lemma_derive_fields_ids(u, fs, c, fuel),
        TypeBodyDescV::StructUnnamed(ds) => lemma_derive_list_ids(u, ds, c, fuel),
        TypeBodyDescV::StructUnit => {},
        TypeBodyDescV::Enum { variants, .. } => lemma_derive_variants_ids(
            u,
            variants,
            None,
            c,
            fuel,
        ),
        TypeBodyDescV::Union(fs) => lemma_derive_fields_ids(u, fs, c, fuel),
    }
}

/// Referential integrity and finiteness at the library's entry point: for a
/// recursive or mutually-referential declaration the derivation still
/// returns a finite catalog whose entries all reference catalog positions,
/// and a root layout that references only catalog positions — self-reference
/// is representable without unbounded growth.
pub proof fn lemma_layout_impl_ids(dv: TypeDescriptionV, c: CatalogV)
    requires
        catalog_ids_ok(c),
    ensures
        catalog_ids_ok(spec_layout_impl(dv, c).1),
        layout_ids_ok(spec_layout_impl(dv, c).0, spec_layout_impl(dv, c).1.len() as nat),
{
    lemma_derive_ids(dv.nominals, dv.root, c, spec_fuel(dv.nominals));
}

} // verus!

verus! {

/// The length of the assigned-discriminant sequence.
pub proof fn lemma_assign_discs_len(vs: Seq<VariantDescV>, prev: Option<i64>)
    ensures
        spec_assign_discs(vs, prev).len() == vs.len(),
    decreases vs.len(),
{
    if vs.len() > 0 {
        let d = spec_disc(vs[0].discriminant, prev);
        lemma_assign_discs_len(vs.drop_first(), Some(d as i64));
    }
}

/// Discriminant assignment: the variants that the derivation emits carry,
/// in declaration order, the declared names and exactly the discriminants of
/// the declaration rule — an explicit literal where one is declared,
/// otherwise one greater than the previous variant's discriminant, zero for
/// the first.
pub proof fn lemma_variant_discriminants(
    u: Seq<NominalDescV>,
    vs: Seq<VariantDescV>,
    prev: Option<i64>,
    c: CatalogV,
    fuel: nat,
)
    requires
        discs_ok(vs, prev),
    ensures
        spec_derive_variants(u, vs, prev, c, fuel).0.len() == vs.len(),
        forall|i: int|
            0 <= i < vs.len() ==> (#[trigger] spec_derive_variants(u, vs, prev, c, fuel).0[i]).name
                == vs[i].name,
        forall|i: int|
            0 <= i < vs.len() ==> (#[trigger] spec_derive_variants(
                u,
                vs,
                prev,
                c,
                fuel,
            ).0[i]).discriminant as int == spec_assign_discs(vs, prev)[i],
    decreases vs.len(),
{
    lemma_assign_discs_len(vs, prev);
    if vs.len() > 0 {
        let d = spec_disc(vs[0].discriminant, prev);
        let (ty, c1) = spec_derive_variant_body(u, vs[0].body, c, fuel);
        let rest = vs.subrange(1, vs.len() as int);
        assert(rest =~= vs.drop_first());
        lemma_variant_discriminants(u, rest, Some(d as i64), c1, fuel);
        lemma_assign_discs_len(rest, Some(d as i64));
        let whole = spec_derive_variants(u, vs, prev, c, fuel).0;
        let rest_evs = spec_derive_variants(u, rest, Some(d as i64), c1, fuel).0;
        let discs = spec_assign_discs(vs, prev);
        let rest_discs = spec_assign_discs(vs.drop_first(), Some(d as i64));
        assert forall|i: int| 0 <= i < vs.len() implies (#[trigger] whole[i]).name == vs[i].name
            && whole[i].discriminant as int == discs[i] by {
            if i > 0 {
                assert(whole[i] == rest_evs[i - 1]);
                assert(discs[i] == rest_discs[i - 1]);
                assert(vs[i] == rest[i - 1]);
            }
        }
    }
}

/// Field-order preservation: a named-field body's derived entry lists one
/// field per declared field, in declaration order, each carrying the
/// declared name.
pub proof fn lemma_field_order(u: Seq<NominalDescV>, fs: Seq<FieldDescV>, c: CatalogV, fuel: nat)
    ensures
        spec_derive_fields(u, fs, c, fuel).0.len() == fs.len(),
        forall|i: int|
            0 <= i < fs.len() ==> (#[trigger] spec_derive_fields(u, fs, c, fuel).0[i]).name
                == fs[i].name,
    decreases fuel, size_field_descs(fs),
{
    if fs.len() > 0 {
        let (l, c1) = spec_derive(u, fs[0].ty, c, fuel);
        let rest = fs.subrange(1, fs.len() as int);
        lemma_field_order(u, rest, c1, fuel);
        let whole = spec_derive_fields(u, fs, c, fuel).0;
        let rest_nfs = spec_derive_fields(u, rest, c1, fuel).0;
        assert forall|i: int| 0 <= i < fs.len() implies (#[trigger] whole[i]).name
            == fs[i].name by {
            if i > 0 {
                assert(whole[i] == rest_nfs[i - 1]);
                assert(fs[i] == rest[i - 1]);
            }
        }
    }
}

} // verus!

verus! {

/// Discriminants stay representable when every variant from some point on
/// leaves its discriminant implicit and the running values stay below the
/// bound.
pub proof fn lemma_discs_ok_from(vs: Seq<VariantDescV>, p: i64)
    requires
        forall|i: int| 0 <= i < vs.len() ==> (#[trigger] vs[i]).discriminant is None,
        p >= 0,
        p + vs.len() <= i64::MAX,
    ensures
        discs_ok(vs, Some(p)),
    decreases vs.len(),
{
    if vs.len() > 0 {
        let rest = vs.drop_first();
        assert(forall|i: int| 0 <= i < rest.len() ==> #[trigger] rest[i] == vs[i + 1]);
        lemma_discs_ok_from(rest, (p + 1) as i64);
    }
}

/// An enum whose variants all leave their discriminants implicit assigns
/// only representable discriminants, as long as it has no more variants than
/// the largest one.
pub proof fn lemma_discs_ok_implicit(vs: Seq<VariantDescV>)
    requires
        forall|i: int| 0 <= i < vs.len() ==> (#[trigger] vs[i]).discriminant is None,
        vs.len() <= i64::MAX,
    ensures
        discs_ok(vs, None),
{
    if vs.len() > 0 {
        let rest = vs.drop_first();
        assert(forall|i: int| 0 <= i < rest.len() ==> #[trigger] rest[i] == vs[i + 1]);
        lemma_discs_ok_from(rest, 0);
    }
}

} // verus!

verus! {

/// Where an entry is found depends only on the uids in the catalog, not on
/// the entry bodies.
pub proof fn lemma_find_same_uids(c1: CatalogV, c2: CatalogV, u: TypeUidV)
    requires
        c1.len() == c2.len(),
        forall|i: int| 0 <= i < c1.len() ==> (#[trigger] c1[i]).0 == c2[i].0,
    ensures
        spec_find_uid(c1, u) == spec_find_uid(c2, u),
    decreases c1.len(),
{
    if c1.len() > 0 {
        let s1 = c1.subrange(1, c1.len() as int);
        let s2 = c2.subrange(1, c2.len() as int);
        assert(forall|i: int| 0 <= i < s1.len() ==> (#[trigger] s1[i]).0 == s2[i].0);
        lemma_find_same_uids(s1, s2, u);
    }
}

/// How many definitions are unseen depends only on the uids in the catalog.
pub proof fn lemma_unseen_same_uids(noms: Seq<NominalDescV>, c1: CatalogV, c2: CatalogV)
    requires
        c1.len() == c2.len(),
        forall|i: int| 0 <= i < c1.len() ==> (#[trigger] c1[i]).0 == c2[i].0,
    ensures
        spec_unseen(noms, c1) == spec_unseen(noms, c2),
    decreases noms.len(),
{
    if noms.len() > 0 {
        lemma_unseen_same_uids(noms.drop_last(), c1, c2);
        lemma_find_same_uids(c1, c2, noms.last().uid);
    }
}

/// Bounded growth: a derivation step adds at most one catalog entry per
/// universe definition that was still unseen. The sum of catalog length and
/// unseen count never grows, so even a self-referential declaration cannot
/// blow the catalog up.
pub proof fn lemma_derive_growth(u: Seq<NominalDescV>, d: TypeDescV, c: CatalogV, fuel: nat)
    ensures
        spec_derive(u, d, c, fuel).1.len() + spec_unseen(u, spec_derive(u, d, c, fuel).1)
            <= c.len() + spec_unseen(u, c),
    decreases fuel, size_desc(d),
{
    match d {
        TypeDescV::ConstPtr(x) => lemma_derive_growth(u, *x, c, fuel),
        TypeDescV::MutPtr(x) => lemma_derive_growth(u, *x, c, fuel),
        TypeDescV::NonNull(x) => lemma_derive_growth(u, *x, c, fuel),
        TypeDescV::Ref(x) => lemma_derive_growth(u, *x, c, fuel),
        TypeDescV::MutRef(x) => lemma_derive_growth(u, *x, c, fuel),
        TypeDescV::Array { elem, .. } => lemma_derive_growth(u, *elem, c, fuel),
        TypeDescV::FunctionPointer { args, return_ty, .. } => {
            let (_, c1) = spec_derive(u, *return_ty, c, fuel);
            lemma_derive_growth(u, *return_ty, c, fuel);
            lemma_derive_list_growth(u, args, c1, fuel);
        },
        TypeDescV::Nominal { id } => {
            if id < u.len() {
                let nom = u[id as int];
                match spec_find_uid(c, nom.uid) {
                    Some(_) => {},
                    None => {
                        if fuel > 0 {
                            let idx = c.len();
                            let c1 = c.push((nom.uid, spec_placeholder(nom)));
                            lemma_unseen_push(u, c, id as int, spec_placeholder(nom));
                            let (tt, c2) = spec_derive_body(u, nom.body, c1, (fuel - 1) as nat);
                            lemma_derive_body_growth(u, nom.body, c1, (fuel - 1) as nat);
                            lemma_derive_body_extends(u, nom.body, c1, (fuel - 1) as nat);
                            let entry = DefinedTypeV { name: nom.name, ty: tt };
                            let c3 = c2.update(idx as int, (nom.uid, entry));
                            assert(c2[idx as int] == c1[idx as int]);
                            assert(forall|i: int|
                                0 <= i < c2.len() ==> (#[trigger] c2[i]).0 == c3[i].0);
                            lemma_unseen_same_uids(u, c2, c3);
                        }
                    },
                }
            }
        },
        _ => {},
    }
}

pub proof fn lemma_derive_list_growth(
    u: Seq<NominalDescV>,
    ds: Seq<TypeDescV>,
    c: CatalogV,
    fuel: nat,
)
    ensures
        spec_derive_list(u, ds, c, fuel).1.len() + spec_unseen(
            u,
            spec_derive_list(u, ds, c, fuel).1,
        ) <= c.len() + spec_unseen(u, c),
    decreases fuel, size_descs(ds),
{
    if ds.len() > 0 {
        let (_, c1) = spec_derive(u, ds[0], c, fuel);
        lemma_derive_growth(u, ds[0], c, fuel);
        lemma_derive_list_growth(u, ds.subrange(1, ds.len() as int), c1, fuel);
    }
}

pub proof fn lemma_derive_fields_growth(
    u: Seq<NominalDescV>,
    fs: Seq<FieldDescV>,
    c: CatalogV,
    fuel: nat,
)
    ensures
        spec_derive_fields(u, fs, c, fuel).1.len() + spec_unseen(
            u,
            spec_derive_fields(u, fs, c, fuel).1,
        ) <= c.len() + spec_unseen(u, c),
    decreases fuel, size_field_descs(fs),
{
    if fs.len() > 0 {
        let (_, c1) = spec_derive(u, fs[0].ty, c, fuel);
        lemma_derive_growth(u, fs[0].ty, c, fuel);
        lemma_derive_fields_growth(u, fs.subrange(1, fs.len() as int), c1, fuel);
    }
}

pub proof fn lemma_derive_variant_body_growth(
    u: Seq<NominalDescV>,
    vb: VariantBodyDescV,
    c: CatalogV,
    fuel: nat,
)
    ensures
        spec_derive_variant_body(u, vb, c, fuel).1.len() + spec_unseen(
            u,
            spec_derive_variant_body(u, vb, c, fuel).1,
        ) <= c.len() + spec_unseen(u, c),
    decreases fuel, size_variant_body(vb),
{
    match vb {
        VariantBodyDescV::Unit => {},
        VariantBodyDescV::Tuple(ds) => lemma_derive_list_growth(u, ds, c, fuel),
        VariantBodyDescV::Struct(fs) => lemma_derive_fields_growth(u, fs, c, fuel),
    }
}

pub proof fn lemma_derive_variants_growth(
    u: Seq<NominalDescV>,
    vs: Seq<VariantDescV>,
    prev: Option<i64>,
    c: CatalogV,
    fuel: nat,
)
    ensures
        spec_derive_variants(u, vs, prev, c, fuel).1.len() + spec_unseen(
            u,
            spec_derive_variants(u, vs, prev, c, fuel).1,
        ) <= c.len() + spec_unseen(u, c),
    decreases fuel, size_variant_descs(vs),
{
    if vs.len() > 0 {
        let d = spec_disc(vs[0].discriminant, prev);
        let (_, c1) = spec_derive_variant_body(u, vs[0].body, c, fuel);
        lemma_derive_variant_body_growth(u, vs[0].body, c, fuel);
        lemma_derive_variants_growth(
            u,
            vs.subrange(1, vs.len() as int),
            Some(d as i64),
            c1,
            fuel,
        );
    }
}

pub proof fn lemma_derive_body_growth(
    u: Seq<NominalDescV>,
    b: TypeBodyDescV,
    c: CatalogV,
    fuel: nat,
)
    ensures
        spec_derive_body(u, b, c, fuel).1.len() + spec_unseen(
            u,
            spec_derive_body(u, b, c, fuel).1,
        ) <= c.len() + spec_unseen(u, c),
    decreases fuel, size_body(b),
{
    match b {
        TypeBodyDescV::StructNamed(fs) => lemma_derive_fields_growth(u, fs, c, fuel),
        TypeBodyDescV::StructUnnamed(ds) => lemma_derive_list_growth(u, ds, c, fuel),
        TypeBodyDescV::StructUnit => {},
        TypeBodyDescV::Enum { variants, .. } => lemma_derive_variants_growth(
            u,
            variants,
            None,
            c,
            fuel,
        ),
        TypeBodyDescV::Union(fs) => lemma_derive_fields_growth(u, fs, c, fuel),
    }
}

/// Finite catalogs at the library's entry point: one derivation grows the
/// catalog by at most one entry per universe definition, however often the
/// declaration reaches each definition and however the definitions refer to
/// one another.
pub proof fn lemma_layout_impl_growth(dv: TypeDescriptionV, c: CatalogV)
    ensures
        spec_layout_impl(dv, c).1.len() <= c.len() + dv.nominals.len(),
{
    lemma_derive_growth(dv.nominals, dv.root, c, spec_fuel(dv.nominals));
    lemma_unseen_le(dv.nominals, spec_layout_impl(dv, c).1);
    lemma_unseen_le(dv.nominals, c);
}

} // verus!

verus! {

/// What reflecting the declaration of a single named-field struct returns:
/// one catalog entry whose field list mirrors the declared fields, name by
/// name, in declaration order.
pub proof fn lemma_named_struct_layout(d: TypeDescriptionV)
    requires
        d.nominals.len() == 1,
        d.root == (TypeDescV::Nominal { id: 0 }),
        d.nominals[0].body is StructNamed,
    ensures
        spec_type_layout(d).defined_types.len() == 1,
        spec_type_layout(d).defined_types[0].ty is StructNamed,
        spec_type_layout(d).defined_types[0].ty->StructNamed_fields.len()
            == d.nominals[0].body->StructNamed_0.len(),
        forall|i: int|
            0 <= i < d.nominals[0].body->StructNamed_0.len() ==> (
            #[trigger] spec_type_layout(d).defined_types[0].ty->StructNamed_fields[i]).name
                == d.nominals[0].body->StructNamed_0[i].name,
{
    let u = d.nominals;
    let nom = u[0];
    let fs = nom.body->StructNamed_0;
    let fuel = spec_fuel(u);
    let c0 = Seq::<(TypeUidV, DefinedTypeV)>::empty();
    assert(spec_find_uid(c0, nom.uid) is None);
    let c1 = c0.push((nom.uid, spec_placeholder(nom)));
    assert(spec_find_uid(c1, nom.uid) == Some(0int));
    assert(spec_unseen(u, c1) == spec_unseen(u.drop_last(), c1));
    assert(u.drop_last().len() == 0);
    assert(spec_unseen(u, c1) == 0);
    let body_fuel = (fuel - 1) as nat;
    let (tt, c2) = spec_derive_body(u, nom.body, c1, body_fuel);
    let (nfs, cf) = spec_derive_fields(u, fs, c1, body_fuel);
    assert(tt == TypeTypeV::StructNamed { fields: nfs } && c2 == cf);
    lemma_derive_fields_extends(u, fs, c1, body_fuel);
    lemma_derive_fields_growth(u, fs, c1, body_fuel);
    assert(c2.len() == 1);
    lemma_field_order(u, fs, c1, body_fuel);
    let entry = DefinedTypeV { name: nom.name, ty: tt };
    let c3 = c2.update(0int, (nom.uid, entry));
    assert(spec_derive(u, d.root, c0, fuel) == (LayoutV::DefinedType { id: 0usize }, c3));
    assert(stripped_catalog(c3).len() == 1);
    assert(stripped_catalog(c3)[0] == entry);
}

/// Field names and their order distinguish layouts: two declarations of a
/// single named-field struct whose field-name sequences differ — fields
/// renamed or reordered — reflect to unequal values, even when the two field
/// lists carry the same shapes.
pub proof fn lemma_field_order_distinguishes(d1: TypeDescriptionV, d2: TypeDescriptionV)
    requires
        d1.nominals.len() == 1,
        d2.nominals.len() == 1,
        d1.root == (TypeDescV::Nominal { id: 0 }),
        d2.root == (TypeDescV::Nominal { id: 0 }),
        d1.nominals[0].body is StructNamed,
        d2.nominals[0].body is StructNamed,
        d1.nominals[0].body->StructNamed_0.len() != d2.nominals[0].body->StructNamed_0.len()
            || exists|i: int|
            0 <= i < d1.nominals[0].body->StructNamed_0.len() && (#[trigger] d1.nominals[0].body->StructNamed_0[i]).name
                != d2.nominals[0].body->StructNamed_0[i].name,
    ensures
        spec_type_layout(d1) != spec_type_layout(d2),
{
    lemma_named_struct_layout(d1);
    lemma_named_struct_layout(d2);
    let fs1 = d1.nominals[0].body->StructNamed_0;
    let fs2 = d2.nominals[0].body->StructNamed_0;
    if spec_type_layout(d1) == spec_type_layout(d2) {
        assert(spec_type_layout(d1).defined_types[0] == spec_type_layout(d2).defined_types[0]);
        assert(fs1.len() == fs2.len());
        let i = choose|i: int|
            0 <= i < fs1.len() && (#[trigger] fs1[i]).name != fs2[i].name;
        assert(spec_type_layout(d1).defined_types[0].ty->StructNamed_fields[i].name
            == fs1[i].name);
        assert(spec_type_layout(d2).defined_types[0].ty->StructNamed_fields[i].name
            == fs2[i].name);
    }
}

} // verus!
