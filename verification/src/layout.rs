//! Structures for describing the layout of a type: the shape descriptor
//! (`Layout`), the nominal-type catalog entry (`DefinedType`), and the
//! deduplication key (`TypeUid`).
//!
//! Each executable structure has a mathematical view (the `...V` types) built
//! from `Seq` and plain values; all contracts in this crate are stated over
//! those views.

use vstd::prelude::*;

verus! {

/// A list of all defined types with their [`TypeUid`]s, threaded through a
/// derivation; append-only except for backfilling a reserved entry's body.
pub type DefinedTypes = Vec<(TypeUid, DefinedType)>;

/// Mathematical view of a catalog: the sequence of (uid view, entry view).
pub type CatalogV = Seq<(TypeUidV, DefinedTypeV)>;

/// Unique type id: the declared path of a type plus the source location of
/// its declaration. Identity is deliberately location-sensitive: two
/// textually identical types declared at different places are distinct.
#[derive(Debug, Clone, Copy)]
pub struct TypeUid {
    /// The source path to the type (`my_crate::path::to::MyType`)
    pub rustpath: &'static str,
    /// The path of the file where the type is defined.
    pub file: &'static str,
    /// The line in the source file where the type is defined
    pub line: u32,
    /// The column in the source file where the type is defined
    pub column: u32,
}

#[verifier::ext_equal]
pub struct TypeUidV {
    pub rustpath: Seq<char>,
    pub file: Seq<char>,
    pub line: u32,
    pub column: u32,
}

impl View for TypeUid {
    type V = TypeUidV;

    open spec fn view(&self) -> TypeUidV {
        TypeUidV {
            rustpath: self.rustpath@,
            file: self.file@,
            line: self.line,
            column: self.column,
        }
    }
}

/// Layout and all defined types including their [`TypeUid`]s; the result of
/// one derivation step, before the uids are stripped.
#[derive(Debug)]
pub struct FullLayout {
    pub layout: Layout,
    pub defined_types: DefinedTypes,
}

/// Type definition (name and layout)
#[derive(Debug)]
pub struct DefinedType {
    pub name: &'static str,
    pub ty: TypeType,
}

#[verifier::ext_equal]
pub struct DefinedTypeV {
    pub name: Seq<char>,
    pub ty: TypeTypeV,
}

/// The type of a type (`struct`, `enum`, etc)
#[derive(Debug)]
pub enum TypeType {
    StructNamed { fields: Vec<NamedField> },
    StructUnnamed { fields: Vec<Layout> },
    StructUnit,
    Enum { variants: Vec<EnumVariant>, repr: Option<&'static str> },
    Union { fields: Vec<NamedField> },
}

#[verifier::ext_equal]
pub enum TypeTypeV {
    StructNamed { fields: Seq<NamedFieldV> },
    StructUnnamed { fields: Seq<LayoutV> },
    StructUnit,
    Enum { variants: Seq<EnumVariantV>, repr: Option<Seq<char>> },
    Union { fields: Seq<NamedFieldV> },
}

/// The layout of a single segment
#[derive(Debug)]
pub enum Layout {
    Void,
    U8,
    U16,
    U32,
    U64,
    I8,
    I16,
    I32,
    I64,
    USize,
    ISize,
    Bool,
    F32,
    F64,
    Char,
    ConstPtr(Box<Layout>),
    MutPtr(Box<Layout>),
    NonNull(Box<Layout>),
    Ref { referent: Box<Layout> },
    MutRef { referent: Box<Layout> },
    Array { len: usize, layout: Box<Layout> },
    /// Reference to a nominal type: a positional index into the catalog.
    DefinedType { id: usize },
    FunctionPointer {
        is_unsafe: bool,
        abi: &'static str,
        args: Vec<Layout>,
        return_ty: Box<Layout>,
    },
}

#[verifier::ext_equal]
pub enum LayoutV {
    Void,
    U8,
    U16,
    U32,
    U64,
    I8,
    I16,
    I32,
    I64,
    USize,
    ISize,
    Bool,
    F32,
    F64,
    Char,
    ConstPtr(Box<LayoutV>),
    MutPtr(Box<LayoutV>),
    NonNull(Box<LayoutV>),
    Ref { referent: Box<LayoutV> },
    MutRef { referent: Box<LayoutV> },
    Array { len: usize, layout: Box<LayoutV> },
    DefinedType { id: usize },
    FunctionPointer {
        is_unsafe: bool,
        abi: Seq<char>,
        args: Seq<LayoutV>,
        return_ty: Box<LayoutV>,
    },
}

/// A field's name and layout
#[derive(Debug)]
pub struct NamedField {
    pub name: &'static str,
    pub layout: Layout,
}

#[verifier::ext_equal]
pub struct NamedFieldV {
    pub name: Seq<char>,
    pub layout: LayoutV,
}

#[derive(Debug)]
pub struct EnumVariant {
    pub name: &'static str,
    pub ty: EnumVariantType,
    pub discriminant: i64,
}

#[verifier::ext_equal]
pub struct EnumVariantV {
    pub name: Seq<char>,
    pub ty: EnumVariantTypeV,
    pub discriminant: i64,
}

#[derive(Debug)]
pub enum EnumVariantType {
    Unit,
    Tuple(Vec<Layout>),
    Struct(Vec<NamedField>),
}

#[verifier::ext_equal]
pub enum EnumVariantTypeV {
    Unit,
    Tuple(Seq<LayoutV>),
    Struct(Seq<NamedFieldV>),
}

pub open spec fn opt_str_view(s: Option<&'static str>) -> Option<Seq<char>> {
    match s {
        Some(v) => Some(v@),
        None => None,
    }
}

impl Layout {
    pub open spec fn deep(self) -> LayoutV
        decreases self,
    {
        match self {
            Layout::Void => LayoutV::Void,
            Layout::U8 => LayoutV::U8,
            Layout::U16 => LayoutV::U16,
            Layout::U32 => LayoutV::U32,
            Layout::U64 => LayoutV::U64,
            Layout::I8 => LayoutV::I8,
            Layout::I16 => LayoutV::I16,
            Layout::I32 => LayoutV::I32,
            Layout::I64 => LayoutV::I64,
            Layout::USize => LayoutV::USize,
            Layout::ISize => LayoutV::ISize,
            Layout::Bool => LayoutV::Bool,
            Layout::F32 => LayoutV::F32,
            Layout::F64 => LayoutV::F64,
            Layout::Char => LayoutV::Char,
            Layout::ConstPtr(l) => LayoutV::ConstPtr(Box::new((*l).deep())),
            Layout::MutPtr(l) => LayoutV::MutPtr(Box::new((*l).deep())),
            Layout::NonNull(l) => LayoutV::NonNull(Box::new((*l).deep())),
            Layout::Ref { referent } => LayoutV::Ref { referent: Box::new((*referent).deep()) },
            Layout::MutRef { referent } => LayoutV::MutRef {
                referent: Box::new((*referent).deep()),
            },
            Layout::Array { len, layout } => LayoutV::Array {
                len,
                layout: Box::new((*layout).deep()),
            },
            Layout::DefinedType { id } => LayoutV::DefinedType { id },
            Layout::FunctionPointer { is_unsafe, abi, args, return_ty } => {
                LayoutV::FunctionPointer {
                    is_unsafe,
                    abi: abi@,
                    args: layouts_deep(args@),
                    return_ty: Box::new((*return_ty).deep()),
                }
            },
        }
    }
}

pub open spec fn layouts_deep(s: Seq<Layout>) -> Seq<LayoutV>
    decreases s,
{
    Seq::new(
        s.len(),
        |i: int|
            if 0 <= i < s.len() {
                s[i].deep()
            } else {
                LayoutV::Void
            },
    )
}

impl View for Layout {
    type V = LayoutV;

    open spec fn view(&self) -> LayoutV {
        self.deep()
    }
}

impl NamedField {
    pub open spec fn deep(self) -> NamedFieldV {
        NamedFieldV { name: self.name@, layout: self.layout.deep() }
    }
}

impl View for NamedField {
    type V = NamedFieldV;

    open spec fn view(&self) -> NamedFieldV {
        self.deep()
    }
}

pub open spec fn fields_deep(s: Seq<NamedField>) -> Seq<NamedFieldV> {
    Seq::new(
        s.len(),
        |i: int|
            if 0 <= i < s.len() {
                s[i].deep()
            } else {
                NamedFieldV { name: Seq::empty(), layout: LayoutV::Void }
            },
    )
}

impl EnumVariantType {
    pub open spec fn deep(self) -> EnumVariantTypeV {
        match self {
            EnumVariantType::Unit => EnumVariantTypeV::Unit,
            EnumVariantType::Tuple(ls) => EnumVariantTypeV::Tuple(layouts_deep(ls@)),
            EnumVariantType::Struct(fs) => EnumVariantTypeV::Struct(fields_deep(fs@)),
        }
    }
}

impl View for EnumVariantType {
    type V = EnumVariantTypeV;

    open spec fn view(&self) -> EnumVariantTypeV {
        self.deep()
    }
}

impl EnumVariant {
    pub open spec fn deep(self) -> EnumVariantV {
        EnumVariantV { name: self.name@, ty: self.ty.deep(), discriminant: self.discriminant }
    }
}

impl View for EnumVariant {
    type V = EnumVariantV;

    open spec fn view(&self) -> EnumVariantV {
        self.deep()
    }
}

pub open spec fn variants_deep(s: Seq<EnumVariant>) -> Seq<EnumVariantV> {
    Seq::new(
        s.len(),
        |i: int|
            if 0 <= i < s.len() {
                s[i].deep()
            } else {
                EnumVariantV { name: Seq::empty(), ty: EnumVariantTypeV::Unit, discriminant: 0 }
            },
    )
}

impl TypeType {
    pub open spec fn deep(self) -> TypeTypeV {
        match self {
            TypeType::StructNamed { fields } => TypeTypeV::StructNamed {
                fields: fields_deep(fields@),
            },
            TypeType::StructUnnamed { fields } => TypeTypeV::StructUnnamed {
                fields: layouts_deep(fields@),
            },
            TypeType::StructUnit => TypeTypeV::StructUnit,
            TypeType::Enum { variants, repr } => TypeTypeV::Enum {
                variants: variants_deep(variants@),
                repr: opt_str_view(repr),
            },
            TypeType::Union { fields } => TypeTypeV::Union { fields: fields_deep(fields@) },
        }
    }
}

impl View for TypeType {
    type V = TypeTypeV;

    open spec fn view(&self) -> TypeTypeV {
        self.deep()
    }
}

impl DefinedType {
    pub open spec fn deep(self) -> DefinedTypeV {
        DefinedTypeV { name: self.name@, ty: self.ty.deep() }
    }
}

impl View for DefinedType {
    type V = DefinedTypeV;

    open spec fn view(&self) -> DefinedTypeV {
        self.deep()
    }
}

/// View of a catalog: each entry as (uid view, entry view).
pub open spec fn catalog_view(s: Seq<(TypeUid, DefinedType)>) -> CatalogV {
    Seq::new(
        s.len(),
        |i: int|
            if 0 <= i < s.len() {
                (s[i].0@, s[i].1.deep())
            } else {
                (
                    TypeUidV { rustpath: Seq::empty(), file: Seq::empty(), line: 0, column: 0 },
                    DefinedTypeV { name: Seq::empty(), ty: TypeTypeV::StructUnit },
                )
            },
    )
}

impl View for FullLayout {
    type V = (LayoutV, CatalogV);

    open spec fn view(&self) -> (LayoutV, CatalogV) {
        (self.layout.deep(), catalog_view(self.defined_types@))
    }
}

} // verus!

verus! {

/// Decides equality of two strings at the level of their character sequences.
pub fn str_eq(a: &str, b: &str) -> (r: bool)
    ensures
        r == (a@ == b@),
{
    let x: String = a.to_owned();
    let y: String = b.to_owned();
    x == y
}

pub fn opt_str_eq(a: &Option<&'static str>, b: &Option<&'static str>) -> (r: bool)
    ensures
        r == (opt_str_view(*a) == opt_str_view(*b)),
{
    match (a, b) {
        (Some(x), Some(y)) => str_eq(x, y),
        (None, None) => true,
        _ => false,
    }
}

/// Decides equality of two type ids: all four components must match.
pub fn uid_eq(a: &TypeUid, b: &TypeUid) -> (r: bool)
    ensures
        r == (a@ == b@),
{
    let r = str_eq(a.rustpath, b.rustpath) && str_eq(a.file, b.file) && a.line == b.line
        && a.column == b.column;
    proof {
        if r {
            assert(a@ =~= b@);
        }
    }
    r
}

/// Decides structural equality of two layouts, at the level of their views.
pub fn layout_eq(a: &Layout, b: &Layout) -> (r: bool)
    ensures
        r == (a@ == b@),
    decreases *a,
{
    match (a, b) {
        (Layout::Void, Layout::Void) => true,
        (Layout::U8, Layout::U8) => true,
        (Layout::U16, Layout::U16) => true,
        (Layout::U32, Layout::U32) => true,
        (Layout::U64, Layout::U64) => true,
        (Layout::I8, Layout::I8) => true,
        (Layout::I16, Layout::I16) => true,
        (Layout::I32, Layout::I32) => true,
        (Layout::I64, Layout::I64) => true,
        (Layout::USize, Layout::USize) => true,
        (Layout::ISize, Layout::ISize) => true,
        (Layout::Bool, Layout::Bool) => true,
        (Layout::F32, Layout::F32) => true,
        (Layout::F64, Layout::F64) => true,
        (Layout::Char, Layout::Char) => true,
        (Layout::ConstPtr(x), Layout::ConstPtr(y)) => layout_eq(x, y),
        (Layout::MutPtr(x), Layout::MutPtr(y)) => layout_eq(x, y),
        (Layout::NonNull(x), Layout::NonNull(y)) => layout_eq(x, y),
        (Layout::Ref { referent: x }, Layout::Ref { referent: y }) => layout_eq(x, y),
        (Layout::MutRef { referent: x }, Layout::MutRef { referent: y }) => layout_eq(x, y),
        (
            Layout::Array { len: xl, layout: x },
            Layout::Array { len: yl, layout: y },
        ) => xl == yl && layout_eq(x, y),
        (Layout::DefinedType { id: x }, Layout::DefinedType { id: y }) => x == y,
        (
            Layout::FunctionPointer { is_unsafe: xu, abi: xa, args: xs, return_ty: xr },
            Layout::FunctionPointer { is_unsafe: yu, abi: ya, args: ys, return_ty: yr },
        ) => {
            proof {
                assert(decreases_to!(*a => *xs));
                assert(decreases_to!(*a => *xr));
            }
            xu == yu && str_eq(xa, ya) && layouts_eq(xs, ys) && layout_eq(xr, yr)
        },
        _ => {
            proof {
                assert(a@ != b@);
            }
            false
        },
    }
}

fn layouts_eq(a: &Vec<Layout>, b: &Vec<Layout>) -> (r: bool)
    ensures
        r == (layouts_deep(a@) == layouts_deep(b@)),
    decreases a@,
{
    let n = a.len();
    if n != b.len() {
        proof {
            assert(layouts_deep(a@).len() == a@.len());
            assert(layouts_deep(b@).len() == b@.len());
        }
        return false;
    }
    let mut i: usize = 0;
    while i < n
        invariant
            0 <= i <= n,
            n == a@.len(),
            n == b@.len(),
            forall|j: int| 0 <= j < i ==> a@[j].deep() == b@[j].deep(),
        decreases n - i,
    {
        proof {
            assert(decreases_to!(a@ => a@[i as int]));
        }
        if !layout_eq(&a[i], &b[i]) {
            proof {
                assert(layouts_deep(a@)[i as int] == a@[i as int].deep());
                assert(layouts_deep(b@)[i as int] == b@[i as int].deep());
            }
            return false;
        }
        i += 1;
    }
    proof {
        assert(layouts_deep(a@) =~= layouts_deep(b@));
    }
    true
}

fn named_field_eq(a: &NamedField, b: &NamedField) -> (r: bool)
    ensures
        r == (a@ == b@),
{
    let r = str_eq(a.name, b.name) && layout_eq(&a.layout, &b.layout);
    proof {
        if r {
            assert(a@ =~= b@);
        }
    }
    r
}

fn fields_eq(a: &Vec<NamedField>, b: &Vec<NamedField>) -> (r: bool)
    ensures
        r == (fields_deep(a@) == fields_deep(b@)),
{
    let n = a.len();
    if n != b.len() {
        proof {
            assert(fields_deep(a@).len() == a@.len());
            assert(fields_deep(b@).len() == b@.len());
        }
        return false;
    }
    let mut i: usize = 0;
    while i < n
        invariant
            0 <= i <= n,
            n == a@.len(),
            n == b@.len(),
            forall|j: int| 0 <= j < i ==> a@[j].deep() == b@[j].deep(),
        decreases n - i,
    {
        if !named_field_eq(&a[i], &b[i]) {
            proof {
                assert(fields_deep(a@)[i as int] == a@[i as int].deep());
                assert(fields_deep(b@)[i as int] == b@[i as int].deep());
            }
            return false;
        }
        i += 1;
    }
    proof {
        assert(fields_deep(a@) =~= fields_deep(b@));
    }
    true
}

fn enum_variant_type_eq(a: &EnumVariantType, b: &EnumVariantType) -> (r: bool)
    ensures
        r == (a@ == b@),
{
    match (a, b) {
        (EnumVariantType::Unit, EnumVariantType::Unit) => true,
        (EnumVariantType::Tuple(x), EnumVariantType::Tuple(y)) => layouts_eq(x, y),
        (EnumVariantType::Struct(x), EnumVariantType::Struct(y)) => fields_eq(x, y),
        _ => {
            proof {
                assert(a@ != b@);
            }
            false
        },
    }
}

fn enum_variant_eq(a: &EnumVariant, b: &EnumVariant) -> (r: bool)
    ensures
        r == (a@ == b@),
{
    let r = str_eq(a.name, b.name) && enum_variant_type_eq(&a.ty, &b.ty) && a.discriminant
        == b.discriminant;
    proof {
        if r {
            assert(a@ =~= b@);
        }
    }
    r
}

fn variants_eq(a: &Vec<EnumVariant>, b: &Vec<EnumVariant>) -> (r: bool)
    ensures
        r == (variants_deep(a@) == variants_deep(b@)),
{
    let n = a.len();
    if n != b.len() {
        proof {
            assert(variants_deep(a@).len() == a@.len());
            assert(variants_deep(b@).len() == b@.len());
        }
        return false;
    }
    let mut i: usize = 0;
    while i < n
        invariant
            0 <= i <= n,
            n == a@.len(),
            n == b@.len(),
            forall|j: int| 0 <= j < i ==> a@[j].deep() == b@[j].deep(),
        decreases n - i,
    {
        if !enum_variant_eq(&a[i], &b[i]) {
            proof {
                assert(variants_deep(a@)[i as int] == a@[i as int].deep());
                assert(variants_deep(b@)[i as int] == b@[i as int].deep());
            }
            return false;
        }
        i += 1;
    }
    proof {
        assert(variants_deep(a@) =~= variants_deep(b@));
    }
    true
}

/// Decides structural equality of two type bodies, at the level of views.
pub fn type_type_eq(a: &TypeType, b: &TypeType) -> (r: bool)
    ensures
        r == (a@ == b@),
{
    match (a, b) {
        (TypeType::StructNamed { fields: x }, TypeType::StructNamed { fields: y }) => {
            let r = fields_eq(x, y);
            proof {
                if r {
                    assert(a@ =~= b@);
                }
            }
            r
        },
        (TypeType::StructUnnamed { fields: x }, TypeType::StructUnnamed { fields: y }) => {
            let r = layouts_eq(x, y);
            proof {
                if r {
                    assert(a@ =~= b@);
                }
            }
            r
        },
        (TypeType::StructUnit, TypeType::StructUnit) => true,
        (
            TypeType::Enum { variants: xv, repr: xr },
            TypeType::Enum { variants: yv, repr: yr },
        ) => {
            let r = variants_eq(xv, yv) && opt_str_eq(xr, yr);
            proof {
                if r {
                    assert(a@ =~= b@);
                }
            }
            r
        },
        (TypeType::Union { fields: x }, TypeType::Union { fields: y }) => {
            let r = fields_eq(x, y);
            proof {
                if r {
                    assert(a@ =~= b@);
                }
            }
            r
        },
        _ => {
            proof {
                assert(a@ != b@);
            }
            false
        },
    }
}

/// Decides structural equality of two catalog entries: name and body.
pub fn defined_type_eq(a: &DefinedType, b: &DefinedType) -> (r: bool)
    ensures
        r == (a@ == b@),
{
    let r = str_eq(a.name, b.name) && type_type_eq(&a.ty, &b.ty);
    proof {
        if r {
            assert(a@ =~= b@);
        }
    }
    r
}

impl PartialEq for Layout {
    fn eq(&self, other: &Layout) -> (r: bool) {
        layout_eq(self, other)
    }
}

impl vstd::std_specs::cmp::PartialEqSpecImpl for Layout {
    open spec fn obeys_eq_spec() -> bool {
        true
    }

    open spec fn eq_spec(&self, other: &Layout) -> bool {
        self@ == other@
    }
}

impl PartialEq for TypeType {
    fn eq(&self, other: &TypeType) -> (r: bool) {
        type_type_eq(self, other)
    }
}

impl vstd::std_specs::cmp::PartialEqSpecImpl for TypeType {
    open spec fn obeys_eq_spec() -> bool {
        true
    }

    open spec fn eq_spec(&self, other: &TypeType) -> bool {
        self@ == other@
    }
}

impl PartialEq for DefinedType {
    fn eq(&self, other: &DefinedType) -> (r: bool) {
        defined_type_eq(self, other)
    }
}

impl vstd::std_specs::cmp::PartialEqSpecImpl for DefinedType {
    open spec fn obeys_eq_spec() -> bool {
        true
    }

    open spec fn eq_spec(&self, other: &DefinedType) -> bool {
        self@ == other@
    }
}

impl PartialEq for NamedField {
    fn eq(&self, other: &NamedField) -> (r: bool) {
        named_field_eq(self, other)
    }
}

impl vstd::std_specs::cmp::PartialEqSpecImpl for NamedField {
    open spec fn obeys_eq_spec() -> bool {
        true
    }

    open spec fn eq_spec(&self, other: &NamedField) -> bool {
        self@ == other@
    }
}

impl PartialEq for EnumVariant {
    fn eq(&self, other: &EnumVariant) -> (r: bool) {
        enum_variant_eq(self, other)
    }
}

impl vstd::std_specs::cmp::PartialEqSpecImpl for EnumVariant {
    open spec fn obeys_eq_spec() -> bool {
        true
    }

    open spec fn eq_spec(&self, other: &EnumVariant) -> bool {
        self@ == other@
    }
}

impl PartialEq for EnumVariantType {
    fn eq(&self, other: &EnumVariantType) -> (r: bool) {
        enum_variant_type_eq(self, other)
    }
}

impl vstd::std_specs::cmp::PartialEqSpecImpl for EnumVariantType {
    open spec fn obeys_eq_spec() -> bool {
        true
    }

    open spec fn eq_spec(&self, other: &EnumVariantType) -> bool {
        self@ == other@
    }
}

impl PartialEq for TypeUid {
    fn eq(&self, other: &TypeUid) -> (r: bool) {
        uid_eq(self, other)
    }
}

impl vstd::std_specs::cmp::PartialEqSpecImpl for TypeUid {
    open spec fn obeys_eq_spec() -> bool {
        true
    }

    open spec fn eq_spec(&self, other: &TypeUid) -> bool {
        self@ == other@
    }
}

} // verus!

verus! {

/// Mathematical view of the final reflection result: the stripped catalog
/// plus the root layout.
#[verifier::ext_equal]
pub struct TypeLayoutV {
    pub defined_types: Seq<DefinedTypeV>,
    pub layout: LayoutV,
}

} // verus!

verus! {

/// Deep view of a sequence of catalog entries without their uids.
pub open spec fn defined_types_deep(s: Seq<DefinedType>) -> Seq<DefinedTypeV> {
    Seq::new(
        s.len(),
        |i: int|
            if 0 <= i < s.len() {
                s[i].deep()
            } else {
                DefinedTypeV { name: Seq::empty(), ty: TypeTypeV::StructUnit }
            },
    )
}

} // verus!

verus! {

/// Every nominal reference in the layout is an index below `n`.
pub open spec fn layout_ids_ok(l: LayoutV, n: nat) -> bool
    decreases l,
{
    match l {
        LayoutV::ConstPtr(x) => layout_ids_ok(*x, n),
        LayoutV::MutPtr(x) => layout_ids_ok(*x, n),
        LayoutV::NonNull(x) => layout_ids_ok(*x, n),
        LayoutV::Ref { referent } => layout_ids_ok(*referent, n),
        LayoutV::MutRef { referent } => layout_ids_ok(*referent, n),
        LayoutV::Array { layout, .. } => layout_ids_ok(*layout, n),
        LayoutV::DefinedType { id } => id < n,
        LayoutV::FunctionPointer { args, return_ty, .. } => layouts_ids_ok(args, n)
            && layout_ids_ok(*return_ty, n),
        _ => true,
    }
}

pub open spec fn layouts_ids_ok(s: Seq<LayoutV>, n: nat) -> bool
    decreases s,
{
    forall|i: int| 0 <= i < s.len() ==> layout_ids_ok(#[trigger] s[i], n)
}

pub open spec fn fields_ids_ok(s: Seq<NamedFieldV>, n: nat) -> bool {
    forall|i: int| 0 <= i < s.len() ==> layout_ids_ok((#[trigger] s[i]).layout, n)
}

pub open spec fn variant_type_ids_ok(t: EnumVariantTypeV, n: nat) -> bool {
    match t {
        EnumVariantTypeV::Unit => true,
        EnumVariantTypeV::Tuple(ls) => layouts_ids_ok(ls, n),
        EnumVariantTypeV::Struct(fs) => fields_ids_ok(fs, n),
    }
}

pub open spec fn variants_ids_ok(s: Seq<EnumVariantV>, n: nat) -> bool {
    forall|i: int| 0 <= i < s.len() ==> variant_type_ids_ok((#[trigger] s[i]).ty, n)
}

pub open spec fn type_type_ids_ok(t: TypeTypeV, n: nat) -> bool {
    match t {
        TypeTypeV::StructNamed { fields } => fields_ids_ok(fields, n),
        TypeTypeV::StructUnnamed { fields } => layouts_ids_ok(fields, n),
        TypeTypeV::StructUnit => true,
        TypeTypeV::Enum { variants, .. } => variants_ids_ok(variants, n),
        TypeTypeV::Union { fields } => fields_ids_ok(fields, n),
    }
}

/// Referential integrity of a catalog: every nominal reference in every
/// entry's body points at some entry of the catalog itself.
pub open spec fn catalog_ids_ok(c: CatalogV) -> bool {
    forall|i: int| 0 <= i < c.len() ==> type_type_ids_ok((#[trigger] c[i]).1.ty, c.len() as nat)
}

/// An index bound only loosens as the catalog grows.
pub proof fn lemma_layout_ids_ok_mono(l: LayoutV, n: nat, m: nat)
    requires
        layout_ids_ok(l, n),
        n <= m,
    ensures
        layout_ids_ok(l, m),
    decreases l,
{
    match l {
        LayoutV::ConstPtr(x) => lemma_layout_ids_ok_mono(*x, n, m),
        LayoutV::MutPtr(x) => lemma_layout_ids_ok_mono(*x, n, m),
        LayoutV::NonNull(x) => lemma_layout_ids_ok_mono(*x, n, m),
        LayoutV::Ref { referent } => lemma_layout_ids_ok_mono(*referent, n, m),
        LayoutV::MutRef { referent } => lemma_layout_ids_ok_mono(*referent, n, m),
        LayoutV::Array { layout, .. } => lemma_layout_ids_ok_mono(*layout, n, m),
        LayoutV::FunctionPointer { args, return_ty, .. } => {
            lemma_layouts_ids_ok_mono(args, n, m);
            lemma_layout_ids_ok_mono(*return_ty, n, m);
        },
        _ => {},
    }
}

pub proof fn lemma_layouts_ids_ok_mono(s: Seq<LayoutV>, n: nat, m: nat)
    requires
        layouts_ids_ok(s, n),
        n <= m,
    ensures
        layouts_ids_ok(s, m),
    decreases s,
{
    assert forall|i: int| 0 <= i < s.len() implies layout_ids_ok(#[trigger] s[i], m) by {
        lemma_layout_ids_ok_mono(s[i], n, m);
    }
}

pub proof fn lemma_fields_ids_ok_mono(s: Seq<NamedFieldV>, n: nat, m: nat)
    requires
        fields_ids_ok(s, n),
        n <= m,
    ensures
        fields_ids_ok(s, m),
{
    assert forall|i: int| 0 <= i < s.len() implies layout_ids_ok((#[trigger] s[i]).layout, m) by {
        lemma_layout_ids_ok_mono(s[i].layout, n, m);
    }
}

pub proof fn lemma_variant_type_ids_ok_mono(t: EnumVariantTypeV, n: nat, m: nat)
    requires
        variant_type_ids_ok(t, n),
        n <= m,
    ensures
        variant_type_ids_ok(t, m),
{
    match t {
        EnumVariantTypeV::Unit => {},
        EnumVariantTypeV::Tuple(ls) => lemma_layouts_ids_ok_mono(ls, n, m),
        EnumVariantTypeV::Struct(fs) => lemma_fields_ids_ok_mono(fs, n, m),
    }
}

pub proof fn lemma_variants_ids_ok_mono(s: Seq<EnumVariantV>, n: nat, m: nat)
    requires
        variants_ids_ok(s, n),
        n <= m,
    ensures
        variants_ids_ok(s, m),
{
    assert forall|i: int| 0 <= i < s.len() implies variant_type_ids_ok(
        (#[trigger] s[i]).ty,
        m,
    ) by {
        lemma_variant_type_ids_ok_mono(s[i].ty, n, m);
    }
}

pub proof fn lemma_type_type_ids_ok_mono(t: TypeTypeV, n: nat, m: nat)
    requires
        type_type_ids_ok(t, n),
        n <= m,
    ensures
        type_type_ids_ok(t, m),
{
    match t {
        TypeTypeV::StructNamed { fields } => lemma_fields_ids_ok_mono(fields, n, m),
        TypeTypeV::StructUnnamed { fields } => lemma_layouts_ids_ok_mono(fields, n, m),
        TypeTypeV::StructUnit => {},
        TypeTypeV::Enum { variants, .. } => lemma_variants_ids_ok_mono(variants, n, m),
        TypeTypeV::Union { fields } => lemma_fields_ids_ok_mono(fields, n, m),
    }
}

} // verus!

verus! {

/// Deep copy of a layout, with the same view.
pub fn clone_layout(a: &Layout) -> (r: Layout)
    ensures
        r@ == a@,
    decreases *a,
{
    match a {
        Layout::Void => Layout::Void,
        Layout::U8 => Layout::U8,
        Layout::U16 => Layout::U16,
        Layout::U32 => Layout::U32,
        Layout::U64 => Layout::U64,
        Layout::I8 => Layout::I8,
        Layout::I16 => Layout::I16,
        Layout::I32 => Layout::I32,
        Layout::I64 => Layout::I64,
        Layout::USize => Layout::USize,
        Layout::ISize => Layout::ISize,
        Layout::Bool => Layout::Bool,
        Layout::F32 => Layout::F32,
        Layout::F64 => Layout::F64,
        Layout::Char => Layout::Char,
        Layout::ConstPtr(x) => Layout::ConstPtr(Box::new(clone_layout(x))),
        Layout::MutPtr(x) => Layout::MutPtr(Box::new(clone_layout(x))),
        Layout::NonNull(x) => Layout::NonNull(Box::new(clone_layout(x))),
        Layout::Ref { referent } => Layout::Ref { referent: Box::new(clone_layout(referent)) },
        Layout::MutRef { referent } => Layout::MutRef {
            referent: Box::new(clone_layout(referent)),
        },
        Layout::Array { len, layout } => Layout::Array {
            len: *len,
            layout: Box::new(clone_layout(layout)),
        },
        Layout::DefinedType { id } => Layout::DefinedType { id: *id },
        Layout::FunctionPointer { is_unsafe, abi, args, return_ty } => {
            proof {
                assert(decreases_to!(*a => *args));
            }
            let r = Layout::FunctionPointer {
                is_unsafe: *is_unsafe,
                abi: *abi,
                args: clone_layout_vec(args),
                return_ty: Box::new(clone_layout(return_ty)),
            };
            proof {
                assert(r@ =~= a@);
            }
            r
        },
    }
}

fn clone_layout_vec(a: &Vec<Layout>) -> (r: Vec<Layout>)
    ensures
        layouts_deep(r@) == layouts_deep(a@),
    decreases a@,
{
    let n = a.len();
    let mut out: Vec<Layout> = Vec::new();
    let mut i: usize = 0;
    while i < n
        invariant
            0 <= i <= n,
            n == a@.len(),
            out@.len() == i,
            forall|j: int| 0 <= j < i ==> out@[j].deep() == a@[j].deep(),
        decreases n - i,
    {
        proof {
            assert(decreases_to!(a@ => a@[i as int]));
        }
        out.push(clone_layout(&a[i]));
        i += 1;
    }
    proof {
        assert(layouts_deep(out@) =~= layouts_deep(a@));
    }
    out
}

/// Deep copy of a field, with the same view.
pub fn clone_named_field(a: &NamedField) -> (r: NamedField)
    ensures
        r@ == a@,
{
    let r = NamedField { name: a.name, layout: clone_layout(&a.layout) };
    proof {
        assert(r@ =~= a@);
    }
    r
}

fn clone_field_vec(a: &Vec<NamedField>) -> (r: Vec<NamedField>)
    ensures
        fields_deep(r@) == fields_deep(a@),
{
    let n = a.len();
    let mut out: Vec<NamedField> = Vec::new();
    let mut i: usize = 0;
    while i < n
        invariant
            0 <= i <= n,
            n == a@.len(),
            out@.len() == i,
            forall|j: int| 0 <= j < i ==> out@[j].deep() == a@[j].deep(),
        decreases n - i,
    {
        out.push(clone_named_field(&a[i]));
        i += 1;
    }
    proof {
        assert(fields_deep(out@) =~= fields_deep(a@));
    }
    out
}

/// Deep copy of a variant payload, with the same view.
pub fn clone_enum_variant_type(a: &EnumVariantType) -> (r: EnumVariantType)
    ensures
        r@ == a@,
{
    match a {
        EnumVariantType::Unit => EnumVariantType::Unit,
        EnumVariantType::Tuple(ls) => EnumVariantType::Tuple(clone_layout_vec(ls)),
        EnumVariantType::Struct(fs) => EnumVariantType::Struct(clone_field_vec(fs)),
    }
}

/// Deep copy of a variant, with the same view.
pub fn clone_enum_variant(a: &EnumVariant) -> (r: EnumVariant)
    ensures
        r@ == a@,
{
    let r = EnumVariant {
        name: a.name,
        ty: clone_enum_variant_type(&a.ty),
        discriminant: a.discriminant,
    };
    proof {
        assert(r@ =~= a@);
    }
    r
}

fn clone_variant_vec(a: &Vec<EnumVariant>) -> (r: Vec<EnumVariant>)
    ensures
        variants_deep(r@) == variants_deep(a@),
{
    let n = a.len();
    let mut out: Vec<EnumVariant> = Vec::new();
    let mut i: usize = 0;
    while i < n
        invariant
            0 <= i <= n,
            n == a@.len(),
            out@.len() == i,
            forall|j: int| 0 <= j < i ==> out@[j].deep() == a@[j].deep(),
        decreases n - i,
    {
        out.push(clone_enum_variant(&a[i]));
        i += 1;
    }
    proof {
        assert(variants_deep(out@) =~= variants_deep(a@));
    }
    out
}

/// Deep copy of a type body, with the same view.
pub fn clone_type_type(a: &TypeType) -> (r: TypeType)
    ensures
        r@ == a@,
{
    let r = match a {
        TypeType::StructNamed { fields } => TypeType::StructNamed {
            fields: clone_field_vec(fields),
        },
        TypeType::StructUnnamed { fields } => TypeType::StructUnnamed {
            fields: clone_layout_vec(fields),
        },
        TypeType::StructUnit => TypeType::StructUnit,
        TypeType::Enum { variants, repr } => TypeType::Enum {
            variants: clone_variant_vec(variants),
            repr: *repr,
        },
        TypeType::Union { fields } => TypeType::Union { fields: clone_field_vec(fields) },
    };
    proof {
        assert(r@ =~= a@);
    }
    r
}

/// Deep copy of a catalog entry, with the same view.
pub fn clone_defined_type(a: &DefinedType) -> (r: DefinedType)
    ensures
        r@ == a@,
{
    let r = DefinedType { name: a.name, ty: clone_type_type(&a.ty) };
    proof {
        assert(r@ =~= a@);
    }
    r
}

impl Clone for Layout {
    /// A clone has the same view as its source.
    fn clone(&self) -> (r: Self)
        ensures
            r@ == self@,
    {
        clone_layout(self)
    }
}

impl Clone for NamedField {
    fn clone(&self) -> (r: Self)
        ensures
            r@ == self@,
    {
        clone_named_field(self)
    }
}

impl Clone for EnumVariantType {
    fn clone(&self) -> (r: Self)
        ensures
            r@ == self@,
    {
        clone_enum_variant_type(self)
    }
}

impl Clone for EnumVariant {
    fn clone(&self) -> (r: Self)
        ensures
            r@ == self@,
    {
        clone_enum_variant(self)
    }
}

impl Clone for TypeType {
    fn clone(&self) -> (r: Self)
        ensures
            r@ == self@,
    {
        clone_type_type(self)
    }
}

impl Clone for DefinedType {
    fn clone(&self) -> (r: Self)
        ensures
            r@ == self@,
    {
        clone_defined_type(self)
    }
}

} // verus!
