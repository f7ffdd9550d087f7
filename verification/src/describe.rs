//! The structural declaration of a type, as handed to the derivation engine:
//! a universe of nominal definitions (structs, enums, unions) plus a root
//! shape referring into that universe by index.
//!
//! A declaration is a finite value even for self-referential types, because a
//! nominal type is referenced by its index, never inlined.

use vstd::prelude::*;

use crate::layout::{opt_str_view, TypeUid, TypeUidV};

verus! {

/// The declared shape of a type: a primitive, a structural combinator over
/// child shapes, or a reference to a nominal definition by universe index.
#[derive(Debug)]
pub enum TypeDesc {
    Void,
    U8,
    U16,
    U32,
    U64,
    I8,
    I16,
    I32,
    I64,
    USize,
    ISize,
    Bool,
    F32,
    F64,
    Char,
    ConstPtr(Box<TypeDesc>),
    MutPtr(Box<TypeDesc>),
    NonNull(Box<TypeDesc>),
    Ref(Box<TypeDesc>),
    MutRef(Box<TypeDesc>),
    Array { len: usize, elem: Box<TypeDesc> },
    FunctionPointer {
        is_unsafe: bool,
        abi: &'static str,
        args: Vec<TypeDesc>,
        return_ty: Box<TypeDesc>,
    },
    /// A nominal type, by index into the universe of the enclosing
    /// [`TypeDescription`].
    Nominal { id: usize },
}

#[verifier::ext_equal]
pub enum TypeDescV {
    Void,
    U8,
    U16,
    U32,
    U64,
    I8,
    I16,
    I32,
    I64,
    USize,
    ISize,
    Bool,
    F32,
    F64,
    Char,
    ConstPtr(Box<TypeDescV>),
    MutPtr(Box<TypeDescV>),
    NonNull(Box<TypeDescV>),
    Ref(Box<TypeDescV>),
    MutRef(Box<TypeDescV>),
    Array { len: usize, elem: Box<TypeDescV> },
    FunctionPointer {
        is_unsafe: bool,
        abi: Seq<char>,
        args: Seq<TypeDescV>,
        return_ty: Box<TypeDescV>,
    },
    Nominal { id: usize },
}

/// A declared field: name plus shape.
#[derive(Debug)]
pub struct FieldDesc {
    pub name: &'static str,
    pub ty: TypeDesc,
}

#[verifier::ext_equal]
pub struct FieldDescV {
    pub name: Seq<char>,
    pub ty: TypeDescV,
}

/// The declared shape of one enum variant's payload.
#[derive(Debug)]
pub enum VariantBodyDesc {
    Unit,
    Tuple(Vec<TypeDesc>),
    Struct(Vec<FieldDesc>),
}

#[verifier::ext_equal]
pub enum VariantBodyDescV {
    Unit,
    Tuple(Seq<TypeDescV>),
    Struct(Seq<FieldDescV>),
}

/// A declared enum variant: name, payload, and the optional explicit
/// discriminant literal from the declaration.
#[derive(Debug)]
pub struct VariantDesc {
    pub name: &'static str,
    pub body: VariantBodyDesc,
    pub discriminant: Option<i64>,
}

#[verifier::ext_equal]
pub struct VariantDescV {
    pub name: Seq<char>,
    pub body: VariantBodyDescV,
    pub discriminant: Option<i64>,
}

/// The declared body of a nominal type.
#[derive(Debug)]
pub enum TypeBodyDesc {
    StructNamed(Vec<FieldDesc>),
    StructUnnamed(Vec<TypeDesc>),
    StructUnit,
    Enum { variants: Vec<VariantDesc>, repr: Option<&'static str> },
    Union(Vec<FieldDesc>),
}

#[verifier::ext_equal]
pub enum TypeBodyDescV {
    StructNamed(Seq<FieldDescV>),
    StructUnnamed(Seq<TypeDescV>),
    StructUnit,
    Enum { variants: Seq<VariantDescV>, repr: Option<Seq<char>> },
    Union(Seq<FieldDescV>),
}

/// One nominal definition: its identity, declared name, and body.
#[derive(Debug)]
pub struct NominalDesc {
    pub uid: TypeUid,
    pub name: &'static str,
    pub body: TypeBodyDesc,
}

#[verifier::ext_equal]
pub struct NominalDescV {
    pub uid: TypeUidV,
    pub name: Seq<char>,
    pub body: TypeBodyDescV,
}

/// A complete, self-contained declaration of one type: every nominal type it
/// reaches, plus the root shape.
#[derive(Debug)]
pub struct TypeDescription {
    pub nominals: Vec<NominalDesc>,
    pub root: TypeDesc,
}

#[verifier::ext_equal]
pub struct TypeDescriptionV {
    pub nominals: Seq<NominalDescV>,
    pub root: TypeDescV,
}

impl TypeDesc {
    pub open spec fn deep(self) -> TypeDescV
        decreases self,
    {
        match self {
            TypeDesc::Void => TypeDescV::Void,
            TypeDesc::U8 => TypeDescV::U8,
            TypeDesc::U16 => TypeDescV::U16,
            TypeDesc::U32 => TypeDescV::U32,
            TypeDesc::U64 => TypeDescV::U64,
            TypeDesc::I8 => TypeDescV::I8,
            TypeDesc::I16 => TypeDescV::I16,
            TypeDesc::I32 => TypeDescV::I32,
            TypeDesc::I64 => TypeDescV::I64,
            TypeDesc::USize => TypeDescV::USize,
            TypeDesc::ISize => TypeDescV::ISize,
            TypeDesc::Bool => TypeDescV::Bool,
            TypeDesc::F32 => TypeDescV::F32,
            TypeDesc::F64 => TypeDescV::F64,
            TypeDesc::Char => TypeDescV::Char,
            TypeDesc::ConstPtr(d) => TypeDescV::ConstPtr(Box::new((*d).deep())),
            TypeDesc::MutPtr(d) => TypeDescV::MutPtr(Box::new((*d).deep())),
            TypeDesc::NonNull(d) => TypeDescV::NonNull(Box::new((*d).deep())),
            TypeDesc::Ref(d) => TypeDescV::Ref(Box::new((*d).deep())),
            TypeDesc::MutRef(d) => TypeDescV::MutRef(Box::new((*d).deep())),
            TypeDesc::Array { len, elem } => TypeDescV::Array {
                len,
                elem: Box::new((*elem).deep()),
            },
            TypeDesc::FunctionPointer { is_unsafe, abi, args, return_ty } => {
                TypeDescV::FunctionPointer {
                    is_unsafe,
                    abi: abi@,
                    args: descs_deep(args@),
                    return_ty: Box::new((*return_ty).deep()),
                }
            },
            TypeDesc::Nominal { id } => TypeDescV::Nominal { id },
        }
    }
}

pub open spec fn descs_deep(s: Seq<TypeDesc>) -> Seq<TypeDescV>
    decreases s,
{
    Seq::new(
        s.len(),
        |i: int|
            if 0 <= i < s.len() {
                s[i].deep()
            } else {
                TypeDescV::Void
            },
    )
}

impl View for TypeDesc {
    type V = TypeDescV;

    open spec fn view(&self) -> TypeDescV {
        self.deep()
    }
}

impl FieldDesc {
    pub open spec fn deep(self) -> FieldDescV {
        FieldDescV { name: self.name@, ty: self.ty.deep() }
    }
}

impl View for FieldDesc {
    type V = FieldDescV;

    open spec fn view(&self) -> FieldDescV {
        self.deep()
    }
}

pub open spec fn field_descs_deep(s: Seq<FieldDesc>) -> Seq<FieldDescV> {
    Seq::new(
        s.len(),
        |i: int|
            if 0 <= i < s.len() {
                s[i].deep()
            } else {
                FieldDescV { name: Seq::empty(), ty: TypeDescV::Void }
            },
    )
}

impl VariantBodyDesc {
    pub open spec fn deep(self) -> VariantBodyDescV {
        match self {
            VariantBodyDesc::Unit => VariantBodyDescV::Unit,
            VariantBodyDesc::Tuple(ds) => VariantBodyDescV::Tuple(descs_deep(ds@)),
            VariantBodyDesc::Struct(fs) => VariantBodyDescV::Struct(field_descs_deep(fs@)),
        }
    }
}

impl View for VariantBodyDesc {
    type V = VariantBodyDescV;

    open spec fn view(&self) -> VariantBodyDescV {
        self.deep()
    }
}

impl VariantDesc {
    pub open spec fn deep(self) -> VariantDescV {
        VariantDescV { name: self.name@, body: self.body.deep(), discriminant: self.discriminant }
    }
}

impl View for VariantDesc {
    type V = VariantDescV;

    open spec fn view(&self) -> VariantDescV {
        self.deep()
    }
}

pub open spec fn variant_descs_deep(s: Seq<VariantDesc>) -> Seq<VariantDescV> {
    Seq::new(
        s.len(),
        |i: int|
            if 0 <= i < s.len() {
                s[i].deep()
            } else {
                VariantDescV { name: Seq::empty(), body: VariantBodyDescV::Unit, discriminant: None }
            },
    )
}

impl TypeBodyDesc {
    pub open spec fn deep(self) -> TypeBodyDescV {
        match self {
            TypeBodyDesc::StructNamed(fs) => TypeBodyDescV::StructNamed(field_descs_deep(fs@)),
            TypeBodyDesc::StructUnnamed(ds) => TypeBodyDescV::StructUnnamed(descs_deep(ds@)),
            TypeBodyDesc::StructUnit => TypeBodyDescV::StructUnit,
            TypeBodyDesc::Enum { variants, repr } => TypeBodyDescV::Enum {
                variants: variant_descs_deep(variants@),
                repr: opt_str_view(repr),
            },
            TypeBodyDesc::Union(fs) => TypeBodyDescV::Union(field_descs_deep(fs@)),
        }
    }
}

impl View for TypeBodyDesc {
    type V = TypeBodyDescV;

    open spec fn view(&self) -> TypeBodyDescV {
        self.deep()
    }
}

impl NominalDesc {
    pub open spec fn deep(self) -> NominalDescV {
        NominalDescV { uid: self.uid@, name: self.name@, body: self.body.deep() }
    }
}

impl View for NominalDesc {
    type V = NominalDescV;

    open spec fn view(&self) -> NominalDescV {
        self.deep()
    }
}

pub open spec fn nominals_deep(s: Seq<NominalDesc>) -> Seq<NominalDescV> {
    Seq::new(
        s.len(),
        |i: int|
            if 0 <= i < s.len() {
                s[i].deep()
            } else {
                NominalDescV {
                    uid: TypeUidV { rustpath: Seq::empty(), file: Seq::empty(), line: 0, column: 0 },
                    name: Seq::empty(),
                    body: TypeBodyDescV::StructUnit,
                }
            },
    )
}

impl TypeDescription {
    pub open spec fn deep(self) -> TypeDescriptionV {
        TypeDescriptionV { nominals: nominals_deep(self.nominals@), root: self.root.deep() }
    }
}

impl View for TypeDescription {
    type V = TypeDescriptionV;

    open spec fn view(&self) -> TypeDescriptionV {
        self.deep()
    }
}

impl TypeDescV {
    /// Every nominal reference points into a universe of `n` definitions.
    pub open spec fn wf(self, n: nat) -> bool
        decreases self,
    {
        match self {
            TypeDescV::ConstPtr(d) => d.wf(n),
            TypeDescV::MutPtr(d) => d.wf(n),
            TypeDescV::NonNull(d) => d.wf(n),
            TypeDescV::Ref(d) => d.wf(n),
            TypeDescV::MutRef(d) => d.wf(n),
            TypeDescV::Array { elem, .. } => elem.wf(n),
            TypeDescV::FunctionPointer { args, return_ty, .. } => descs_wf(args, n)
                && return_ty.wf(n),
            TypeDescV::Nominal { id } => id < n,
            _ => true,
        }
    }
}

pub open spec fn descs_wf(s: Seq<TypeDescV>, n: nat) -> bool
    decreases s,
{
    forall|i: int| 0 <= i < s.len() ==> (#[trigger] s[i]).wf(n)
}

pub open spec fn field_descs_wf(s: Seq<FieldDescV>, n: nat) -> bool {
    forall|i: int| 0 <= i < s.len() ==> (#[trigger] s[i]).ty.wf(n)
}

impl VariantBodyDescV {
    pub open spec fn wf(self, n: nat) -> bool {
        match self {
            VariantBodyDescV::Unit => true,
            VariantBodyDescV::Tuple(ds) => descs_wf(ds, n),
            VariantBodyDescV::Struct(fs) => field_descs_wf(fs, n),
        }
    }
}

pub open spec fn variant_descs_wf(s: Seq<VariantDescV>, n: nat) -> bool {
    forall|i: int| 0 <= i < s.len() ==> (#[trigger] s[i]).body.wf(n)
}

/// The discriminant derived for one variant: the explicit literal where one
/// is declared; otherwise one greater than the previous variant's
/// discriminant, or zero for the first variant.
pub open spec fn spec_disc(explicit: Option<i64>, prev: Option<i64>) -> int {
    match explicit {
        Some(e) => e as int,
        None => match prev {
            None => 0,
            Some(p) => p + 1,
        },
    }
}

/// The derived discriminants of an enum's variants, where `prev` is the
/// discriminant of the variant before `vs[0]`, if any.
pub open spec fn spec_assign_discs(vs: Seq<VariantDescV>, prev: Option<i64>) -> Seq<int>
    decreases vs.len(),
{
    if vs.len() == 0 {
        Seq::empty()
    } else {
        let d = spec_disc(vs[0].discriminant, prev);
        seq![d] + spec_assign_discs(vs.drop_first(), Some(d as i64))
    }
}

/// All derived discriminants stay representable: an implicit discriminant
/// one past `i64::MAX` is malformed.
pub open spec fn discs_ok(vs: Seq<VariantDescV>, prev: Option<i64>) -> bool
    decreases vs.len(),
{
    vs.len() == 0 || {
        let d = spec_disc(vs[0].discriminant, prev);
        &&& i64::MIN <= d <= i64::MAX
        &&& discs_ok(vs.drop_first(), Some(d as i64))
    }
}

impl TypeBodyDescV {
    pub open spec fn wf(self, n: nat) -> bool {
        match self {
            TypeBodyDescV::StructNamed(fs) => field_descs_wf(fs, n),
            TypeBodyDescV::StructUnnamed(ds) => descs_wf(ds, n),
            TypeBodyDescV::StructUnit => true,
            TypeBodyDescV::Enum { variants, .. } => variant_descs_wf(variants, n) && discs_ok(
                variants,
                None,
            ),
            TypeBodyDescV::Union(fs) => field_descs_wf(fs, n),
        }
    }
}

impl TypeDescriptionV {
    /// Every nominal reference in the root and in every definition's body
    /// stays within the universe, and every enum's discriminants fit.
    pub open spec fn wf(self) -> bool {
        &&& self.root.wf(self.nominals.len())
        &&& forall|i: int|
            0 <= i < self.nominals.len() ==> (#[trigger] self.nominals[i].body).wf(
                self.nominals.len(),
            )
    }
}

} // verus!

verus! {

/// Structural size of a shape; the termination measure of the derivation.
pub open spec fn size_desc(d: TypeDescV) -> nat
    decreases d,
{
    match d {
        TypeDescV::ConstPtr(x) => 1 + size_desc(*x),
        TypeDescV::MutPtr(x) => 1 + size_desc(*x),
        TypeDescV::NonNull(x) => 1 + size_desc(*x),
        TypeDescV::Ref(x) => 1 + size_desc(*x),
        TypeDescV::MutRef(x) => 1 + size_desc(*x),
        TypeDescV::Array { elem, .. } => 1 + size_desc(*elem),
        TypeDescV::FunctionPointer { args, return_ty, .. } => 1 + size_desc(*return_ty)
            + size_descs(args),
        _ => 1,
    }
}

pub open spec fn size_descs(s: Seq<TypeDescV>) -> nat
    decreases s,
{
    if s.len() == 0 {
        0
    } else {
        1 + size_desc(s[0]) + size_descs(s.subrange(1, s.len() as int))
    }
}

pub open spec fn size_field_descs(s: Seq<FieldDescV>) -> nat
    decreases s,
{
    if s.len() == 0 {
        0
    } else {
        1 + size_desc(s[0].ty) + size_field_descs(s.subrange(1, s.len() as int))
    }
}

pub open spec fn size_variant_body(vb: VariantBodyDescV) -> nat {
    match vb {
        VariantBodyDescV::Unit => 1,
        VariantBodyDescV::Tuple(ds) => 1 + size_descs(ds),
        VariantBodyDescV::Struct(fs) => 1 + size_field_descs(fs),
    }
}

pub open spec fn size_variant_descs(s: Seq<VariantDescV>) -> nat
    decreases s,
{
    if s.len() == 0 {
        0
    } else {
        1 + size_variant_body(s[0].body) + size_variant_descs(s.subrange(1, s.len() as int))
    }
}

pub open spec fn size_body(b: TypeBodyDescV) -> nat {
    match b {
        TypeBodyDescV::StructNamed(fs) => 1 + size_field_descs(fs),
        TypeBodyDescV::StructUnnamed(ds) => 1 + size_descs(ds),
        TypeBodyDescV::StructUnit => 1,
        TypeBodyDescV::Enum { variants, .. } => 1 + size_variant_descs(variants),
        TypeBodyDescV::Union(fs) => 1 + size_field_descs(fs),
    }
}

} // verus!

verus! {

/// A shape well formed for a universe stays well formed for a larger one.
pub proof fn lemma_desc_wf_mono(d: TypeDescV, n: nat, m: nat)
    requires
        d.wf(n),
        n <= m,
    ensures
        d.wf(m),
    decreases d,
{
    match d {
        TypeDescV::ConstPtr(x) => lemma_desc_wf_mono(*x, n, m),
        TypeDescV::MutPtr(x) => lemma_desc_wf_mono(*x, n, m),
        TypeDescV::NonNull(x) => lemma_desc_wf_mono(*x, n, m),
        TypeDescV::Ref(x) => lemma_desc_wf_mono(*x, n, m),
        TypeDescV::MutRef(x) => lemma_desc_wf_mono(*x, n, m),
        TypeDescV::Array { elem, .. } => lemma_desc_wf_mono(*elem, n, m),
        TypeDescV::FunctionPointer { args, return_ty, .. } => {
            lemma_descs_wf_mono(args, n, m);
            lemma_desc_wf_mono(*return_ty, n, m);
        },
        _ => {},
    }
}

pub proof fn lemma_descs_wf_mono(s: Seq<TypeDescV>, n: nat, m: nat)
    requires
        descs_wf(s, n),
        n <= m,
    ensures
        descs_wf(s, m),
    decreases s,
{
    reveal_with_fuel(descs_wf, 2);
    assert forall|i: int| 0 <= i < s.len() implies (#[trigger] s[i]).wf(m) by {
        assert(s[i].wf(n));
        lemma_desc_wf_mono(s[i], n, m);
    }
    assert(descs_wf(s, m));
}

pub proof fn lemma_field_descs_wf_mono(s: Seq<FieldDescV>, n: nat, m: nat)
    requires
        field_descs_wf(s, n),
        n <= m,
    ensures
        field_descs_wf(s, m),
{
    assert forall|i: int| 0 <= i < s.len() implies (#[trigger] s[i]).ty.wf(m) by {
        assert(s[i].ty.wf(n));
        lemma_desc_wf_mono(s[i].ty, n, m);
    }
}

pub proof fn lemma_variant_descs_wf_mono(s: Seq<VariantDescV>, n: nat, m: nat)
    requires
        variant_descs_wf(s, n),
        n <= m,
    ensures
        variant_descs_wf(s, m),
{
    assert forall|i: int| 0 <= i < s.len() implies (#[trigger] s[i]).body.wf(m) by {
        assert(s[i].body.wf(n));
        match s[i].body {
            VariantBodyDescV::Unit => {},
            VariantBodyDescV::Tuple(ds) => lemma_descs_wf_mono(ds, n, m),
            VariantBodyDescV::Struct(fs) => lemma_field_descs_wf_mono(fs, n, m),
        }
    }
}

/// A body well formed for a universe stays well formed for a larger one.
pub proof fn lemma_body_wf_mono(b: TypeBodyDescV, n: nat, m: nat)
    requires
        b.wf(n),
        n <= m,
    ensures
        b.wf(m),
{
    match b {
        TypeBodyDescV::StructNamed(fs) => lemma_field_descs_wf_mono(fs, n, m),
        TypeBodyDescV::StructUnnamed(ds) => lemma_descs_wf_mono(ds, n, m),
        TypeBodyDescV::StructUnit => {},
        TypeBodyDescV::Enum { variants, .. } => lemma_variant_descs_wf_mono(variants, n, m),
        TypeBodyDescV::Union(fs) => lemma_field_descs_wf_mono(fs, n, m),
    }
}

} // verus!
