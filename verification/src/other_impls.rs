//! The library's own participation in reflection: the structural declaration
//! of [`TypeLayout`], so that the reflection result type itself can cross a
//! boundary and be checked like any other type.
//!
//! The declared shapes are the fixed boundary representations of the types
//! involved: a vector as pointer, length, capacity and allocator handle; a
//! string as a byte slice; a box as pointer and allocator handle. Generic
//! containers carry one definition each, keyed by the container's own
//! declaration site, with the first reached instantiation's element shape.
//!
//! A catalog entry's name is recorded verbatim from the declaration: the
//! library's own types carry the bare declared identifier, while the hooks
//! written here for types of std carry the fully qualified declared path
//! (`::std::marker::PhantomData`, and so on), since those strings are the
//! ones an independently compiled module would compare against.

use vstd::prelude::*;

use crate::describe::{
    descs_wf, field_descs_wf, nominals_deep, FieldDesc, FieldDescV, NominalDesc, NominalDescV,
    TypeBodyDesc, TypeBodyDescV, TypeDesc, TypeDescV, TypeDescription, TypeDescriptionV,
    VariantBodyDesc, VariantBodyDescV, VariantDesc, VariantDescV,
};
use crate::engine::lemma_discs_ok_implicit;
use crate::layout::{TypeUid, TypeUidV};
use crate::{layout_of_description, TypeInfo, TypeLayout};

verus! {

pub open spec fn spec_nominal_type_layout() -> NominalDescV {
    NominalDescV {
        uid: TypeUidV { rustpath: "ironties::TypeLayout"@, file: "src/lib.rs"@, line: 38, column: 12 },
        name: "TypeLayout"@,
        body: TypeBodyDescV::StructNamed(
            seq![
                FieldDescV { name: "defined_types"@, ty: TypeDescV::Nominal { id: 1 } },
                FieldDescV { name: "layout"@, ty: TypeDescV::Nominal { id: 6 } },
            ],
        ),
    }
}

fn nominal_type_layout() -> (r: NominalDesc)
    ensures
        r@ == spec_nominal_type_layout(),
{
    let r = NominalDesc {
        uid: TypeUid { rustpath: "ironties::TypeLayout", file: "src/lib.rs", line: 38, column: 12 },
        name: "TypeLayout",
        body: TypeBodyDesc::StructNamed(
            vec![
                FieldDesc { name: "defined_types", ty: TypeDesc::Nominal { id: 1 } },
                FieldDesc { name: "layout", ty: TypeDesc::Nominal { id: 6 } },
            ],
        ),
    };
    proof {
        assert(r@ =~~= spec_nominal_type_layout());
    }
    r
}

pub open spec fn spec_nominal_svec() -> NominalDescV {
    NominalDescV {
        uid: TypeUidV {
            rustpath: "ironties::types::svec::SVec"@,
            file: "src/types/svec.rs"@,
            line: 12,
            column: 12,
        },
        name: "SVec"@,
        body: TypeBodyDescV::StructNamed(
            seq![
                FieldDescV {
                    name: "ptr"@,
                    ty: TypeDescV::ConstPtr(Box::new(TypeDescV::Nominal { id: 2 })),
                },
                FieldDescV { name: "len"@, ty: TypeDescV::USize },
                FieldDescV { name: "capacity"@, ty: TypeDescV::USize },
                FieldDescV { name: "allocator"@, ty: TypeDescV::Nominal { id: 9 } },
            ],
        ),
    }
}

fn nominal_svec() -> (r: NominalDesc)
    ensures
        r@ == spec_nominal_svec(),
{
    let r = NominalDesc {
        uid: TypeUid {
            rustpath: "ironties::types::svec::SVec",
            file: "src/types/svec.rs",
            line: 12,
            column: 12,
        },
        name: "SVec",
        body: TypeBodyDesc::StructNamed(
            vec![
                FieldDesc {
                    name: "ptr",
                    ty: TypeDesc::ConstPtr(Box::new(TypeDesc::Nominal { id: 2 })),
                },
                FieldDesc { name: "len", ty: TypeDesc::USize },
                FieldDesc { name: "capacity", ty: TypeDesc::USize },
                FieldDesc { name: "allocator", ty: TypeDesc::Nominal { id: 9 } },
            ],
        ),
    };
    proof {
        reveal_with_fuel(TypeDesc::deep, 3);
        assert(r@ =~~= spec_nominal_svec());
    }
    r
}

pub open spec fn spec_nominal_defined_type() -> NominalDescV {
    NominalDescV {
        uid: TypeUidV {
            rustpath: "ironties::layout::DefinedType"@,
            file: "src/layout.rs"@,
            line: 66,
            column: 12,
        },
        name: "DefinedType"@,
        body: TypeBodyDescV::StructNamed(
            seq![
                FieldDescV { name: "name"@, ty: TypeDescV::Nominal { id: 3 } },
                FieldDescV { name: "ty"@, ty: TypeDescV::Nominal { id: 5 } },
            ],
        ),
    }
}

fn nominal_defined_type() -> (r: NominalDesc)
    ensures
        r@ == spec_nominal_defined_type(),
{
    let r = NominalDesc {
        uid: TypeUid {
            rustpath: "ironties::layout::DefinedType",
            file: "src/layout.rs",
            line: 66,
            column: 12,
        },
        name: "DefinedType",
        body: TypeBodyDesc::StructNamed(
            vec![
                FieldDesc { name: "name", ty: TypeDesc::Nominal { id: 3 } },
                FieldDesc { name: "ty", ty: TypeDesc::Nominal { id: 5 } },
            ],
        ),
    };
    proof {
        assert(r@ =~~= spec_nominal_defined_type());
    }
    r
}

pub open spec fn spec_nominal_sstr() -> NominalDescV {
    NominalDescV {
        uid: TypeUidV {
            rustpath: "ironties::types::sstr::SStr"@,
            file: "src/types/sstr.rs"@,
            line: 15,
            column: 12,
        },
        name: "SStr"@,
        body: TypeBodyDescV::StructNamed(
            seq![FieldDescV { name: "inner"@, ty: TypeDescV::Nominal { id: 4 } }],
        ),
    }
}

fn nominal_sstr() -> (r: NominalDesc)
    ensures
        r@ == spec_nominal_sstr(),
{
    let r = NominalDesc {
        uid: TypeUid {
            rustpath: "ironties::types::sstr::SStr",
            file: "src/types/sstr.rs",
            line: 15,
            column: 12,
        },
        name: "SStr",
        body: TypeBodyDesc::StructNamed(
            vec![FieldDesc { name: "inner", ty: TypeDesc::Nominal { id: 4 } }],
        ),
    };
    proof {
        assert(r@ =~~= spec_nominal_sstr());
    }
    r
}

pub open spec fn spec_nominal_sslice() -> NominalDescV {
    NominalDescV {
        uid: TypeUidV {
            rustpath: "ironties::types::slice::SSlice"@,
            file: "src/types/slice.rs"@,
            line: 13,
            column: 12,
        },
        name: "SSlice"@,
        body: TypeBodyDescV::StructNamed(
            seq![
                FieldDescV { name: "ptr"@, ty: TypeDescV::ConstPtr(Box::new(TypeDescV::U8)) },
                FieldDescV { name: "len"@, ty: TypeDescV::USize },
            ],
        ),
    }
}

fn nominal_sslice() -> (r: NominalDesc)
    ensures
        r@ == spec_nominal_sslice(),
{
    let r = NominalDesc {
        uid: TypeUid {
            rustpath: "ironties::types::slice::SSlice",
            file: "src/types/slice.rs",
            line: 13,
            column: 12,
        },
        name: "SSlice",
        body: TypeBodyDesc::StructNamed(
            vec![
                FieldDesc { name: "ptr", ty: TypeDesc::ConstPtr(Box::new(TypeDesc::U8)) },
                FieldDesc { name: "len", ty: TypeDesc::USize },
            ],
        ),
    };
    proof {
        reveal_with_fuel(TypeDesc::deep, 3);
        assert(r@ =~~= spec_nominal_sslice());
    }
    r
}

pub open spec fn spec_nominal_type_type() -> NominalDescV {
    NominalDescV {
        uid: TypeUidV {
            rustpath: "ironties::layout::TypeType"@,
            file: "src/layout.rs"@,
            line: 79,
            column: 10,
        },
        name: "TypeType"@,
        body: TypeBodyDescV::Enum {
            variants: seq![
                VariantDescV {
                    name: "StructNamed"@,
                    body: VariantBodyDescV::Struct(
                        seq![FieldDescV { name: "fields"@, ty: TypeDescV::Nominal { id: 1 } }],
                    ),
                    discriminant: None,
                },
                VariantDescV {
                    name: "StructUnnamed"@,
                    body: VariantBodyDescV::Struct(
                        seq![FieldDescV { name: "fields"@, ty: TypeDescV::Nominal { id: 1 } }],
                    ),
                    discriminant: None,
                },
                VariantDescV { name: "StructUnit"@, body: VariantBodyDescV::Unit, discriminant: None },
                VariantDescV {
                    name: "Enum"@,
                    body: VariantBodyDescV::Struct(
                        seq![
                            FieldDescV { name: "variants"@, ty: TypeDescV::Nominal { id: 1 } },
                            FieldDescV { name: "repr"@, ty: TypeDescV::Nominal { id: 8 } },
                        ],
                    ),
                    discriminant: None,
                },
                VariantDescV {
                    name: "Union"@,
                    body: VariantBodyDescV::Struct(
                        seq![FieldDescV { name: "fields"@, ty: TypeDescV::Nominal { id: 1 } }],
                    ),
                    discriminant: None,
                },
            ],
            repr: Some("u8"@),
        },
    }
}

fn nominal_type_type() -> (r: NominalDesc)
    ensures
        r@ == spec_nominal_type_type(),
{
    let r = NominalDesc {
        uid: TypeUid {
            rustpath: "ironties::layout::TypeType",
            file: "src/layout.rs",
            line: 79,
            column: 10,
        },
        name: "TypeType",
        body: TypeBodyDesc::Enum {
            variants: vec![
                VariantDesc {
                    name: "StructNamed",
                    body: VariantBodyDesc::Struct(
                        vec![FieldDesc { name: "fields", ty: TypeDesc::Nominal { id: 1 } }],
                    ),
                    discriminant: None,
                },
                VariantDesc {
                    name: "StructUnnamed",
                    body: VariantBodyDesc::Struct(
                        vec![FieldDesc { name: "fields", ty: TypeDesc::Nominal { id: 1 } }],
                    ),
                    discriminant: None,
                },
                VariantDesc { name: "StructUnit", body: VariantBodyDesc::Unit, discriminant: None },
                VariantDesc {
                    name: "Enum",
                    body: VariantBodyDesc::Struct(
                        vec![
                            FieldDesc { name: "variants", ty: TypeDesc::Nominal { id: 1 } },
                            FieldDesc { name: "repr", ty: TypeDesc::Nominal { id: 8 } },
                        ],
                    ),
                    discriminant: None,
                },
                VariantDesc {
                    name: "Union",
                    body: VariantBodyDesc::Struct(
                        vec![FieldDesc { name: "fields", ty: TypeDesc::Nominal { id: 1 } }],
                    ),
                    discriminant: None,
                },
            ],
            repr: Some("u8"),
        },
    };
    proof {
        assert(r@ =~~= spec_nominal_type_type());
    }
    r
}

pub open spec fn spec_nominal_layout() -> NominalDescV {
    NominalDescV {
        uid: TypeUidV {
            rustpath: "ironties::layout::Layout"@,
            file: "src/layout.rs"@,
            line: 98,
            column: 10,
        },
        name: "Layout"@,
        body: TypeBodyDescV::Enum {
            variants: seq![
                VariantDescV { name: "Void"@, body: VariantBodyDescV::Unit, discriminant: None },
                VariantDescV { name: "U8"@, body: VariantBodyDescV::Unit, discriminant: None },
                VariantDescV { name: "U16"@, body: VariantBodyDescV::Unit, discriminant: None },
                VariantDescV { name: "U32"@, body: VariantBodyDescV::Unit, discriminant: None },
                VariantDescV { name: "U64"@, body: VariantBodyDescV::Unit, discriminant: None },
                VariantDescV { name: "I8"@, body: VariantBodyDescV::Unit, discriminant: None },
                VariantDescV { name: "I16"@, body: VariantBodyDescV::Unit, discriminant: None },
                VariantDescV { name: "I32"@, body: VariantBodyDescV::Unit, discriminant: None },
                VariantDescV { name: "I64"@, body: VariantBodyDescV::Unit, discriminant: None },
                VariantDescV { name: "USize"@, body: VariantBodyDescV::Unit, discriminant: None },
                VariantDescV { name: "ISize"@, body: VariantBodyDescV::Unit, discriminant: None },
                VariantDescV { name: "Bool"@, body: VariantBodyDescV::Unit, discriminant: None },
                VariantDescV { name: "F32"@, body: VariantBodyDescV::Unit, discriminant: None },
                VariantDescV { name: "F64"@, body: VariantBodyDescV::Unit, discriminant: None },
                VariantDescV { name: "Char"@, body: VariantBodyDescV::Unit, discriminant: None },
                VariantDescV {
                    name: "ConstPtr"@,
                    body: VariantBodyDescV::Tuple(seq![TypeDescV::Nominal { id: 7 }]),
                    discriminant: None,
                },
                VariantDescV {
                    name: "MutPtr"@,
                    body: VariantBodyDescV::Tuple(seq![TypeDescV::Nominal { id: 7 }]),
                    discriminant: None,
                },
                VariantDescV {
                    name: "NonNull"@,
                    body: VariantBodyDescV::Tuple(seq![TypeDescV::Nominal { id: 7 }]),
                    discriminant: None,
                },
                VariantDescV {
                    name: "Ref"@,
                    body: VariantBodyDescV::Struct(
                        seq![FieldDescV { name: "referent"@, ty: TypeDescV::Nominal { id: 7 } }],
                    ),
                    discriminant: None,
                },
                VariantDescV {
                    name: "MutRef"@,
                    body: VariantBodyDescV::Struct(
                        seq![FieldDescV { name: "referent"@, ty: TypeDescV::Nominal { id: 7 } }],
                    ),
                    discriminant: None,
                },
                VariantDescV {
                    name: "Array"@,
                    body: VariantBodyDescV::Struct(
                        seq![
                            FieldDescV { name: "len"@, ty: TypeDescV::USize },
                            FieldDescV { name: "layout"@, ty: TypeDescV::Nominal { id: 7 } },
                        ],
                    ),
                    discriminant: None,
                },
                VariantDescV {
                    name: "DefinedType"@,
                    body: VariantBodyDescV::Struct(
                        seq![FieldDescV { name: "id"@, ty: TypeDescV::USize }],
                    ),
                    discriminant: None,
                },
                VariantDescV {
                    name: "FunctionPointer"@,
                    body: VariantBodyDescV::Struct(
                        seq![
                            FieldDescV { name: "is_unsafe"@, ty: TypeDescV::Bool },
                            FieldDescV { name: "abi"@, ty: TypeDescV::Nominal { id: 3 } },
                            FieldDescV { name: "args"@, ty: TypeDescV::Nominal { id: 1 } },
                            FieldDescV { name: "return_ty"@, ty: TypeDescV::Nominal { id: 7 } },
                        ],
                    ),
                    discriminant: None,
                },
            ],
            repr: Some("u8"@),
        },
    }
}

fn nominal_layout() -> (r: NominalDesc)
    ensures
        r@ == spec_nominal_layout(),
{
    let r = NominalDesc {
        uid: TypeUid {
            rustpath: "ironties::layout::Layout",
            file: "src/layout.rs",
            line: 98,
            column: 10,
        },
        name: "Layout",
        body: TypeBodyDesc::Enum {
            variants: vec![
                VariantDesc { name: "Void", body: VariantBodyDesc::Unit, discriminant: None },
                VariantDesc { name: "U8", body: VariantBodyDesc::Unit, discriminant: None },
                VariantDesc { name: "U16", body: VariantBodyDesc::Unit, discriminant: None },
                VariantDesc { name: "U32", body: VariantBodyDesc::Unit, discriminant: None },
                VariantDesc { name: "U64", body: VariantBodyDesc::Unit, discriminant: None },
                VariantDesc { name: "I8", body: VariantBodyDesc::Unit, discriminant: None },
                VariantDesc { name: "I16", body: VariantBodyDesc::Unit, discriminant: None },
                VariantDesc { name: "I32", body: VariantBodyDesc::Unit, discriminant: None },
                VariantDesc { name: "I64", body: VariantBodyDesc::Unit, discriminant: None },
                VariantDesc { name: "USize", body: VariantBodyDesc::Unit, discriminant: None },
                VariantDesc { name: "ISize", body: VariantBodyDesc::Unit, discriminant: None },
                VariantDesc { name: "Bool", body: VariantBodyDesc::Unit, discriminant: None },
                VariantDesc { name: "F32", body: VariantBodyDesc::Unit, discriminant: None },
                VariantDesc { name: "F64", body: VariantBodyDesc::Unit, discriminant: None },
                VariantDesc { name: "Char", body: VariantBodyDesc::Unit, discriminant: None },
                VariantDesc {
                    name: "ConstPtr",
                    body: VariantBodyDesc::Tuple(vec![TypeDesc::Nominal { id: 7 }]),
                    discriminant: None,
                },
                VariantDesc {
                    name: "MutPtr",
                    body: VariantBodyDesc::Tuple(vec![TypeDesc::Nominal { id: 7 }]),
                    discriminant: None,
                },
                VariantDesc {
                    name: "NonNull",
                    body: VariantBodyDesc::Tuple(vec![TypeDesc::Nominal { id: 7 }]),
                    discriminant: None,
                },
                VariantDesc {
                    name: "Ref",
                    body: VariantBodyDesc::Struct(
                        vec![FieldDesc { name: "referent", ty: TypeDesc::Nominal { id: 7 } }],
                    ),
                    discriminant: None,
                },
                VariantDesc {
                    name: "MutRef",
                    body: VariantBodyDesc::Struct(
                        vec![FieldDesc { name: "referent", ty: TypeDesc::Nominal { id: 7 } }],
                    ),
                    discriminant: None,
                },
                VariantDesc {
                    name: "Array",
                    body: VariantBodyDesc::Struct(
                        vec![
                            FieldDesc { name: "len", ty: TypeDesc::USize },
                            FieldDesc { name: "layout", ty: TypeDesc::Nominal { id: 7 } },
                        ],
                    ),
                    discriminant: None,
                },
                VariantDesc {
                    name: "DefinedType",
                    body: VariantBodyDesc::Struct(
                        vec![FieldDesc { name: "id", ty: TypeDesc::USize }],
                    ),
                    discriminant: None,
                },
                VariantDesc {
                    name: "FunctionPointer",
                    body: VariantBodyDesc::Struct(
                        vec![
                            FieldDesc { name: "is_unsafe", ty: TypeDesc::Bool },
                            FieldDesc { name: "abi", ty: TypeDesc::Nominal { id: 3 } },
                            FieldDesc { name: "args", ty: TypeDesc::Nominal { id: 1 } },
                            FieldDesc { name: "return_ty", ty: TypeDesc::Nominal { id: 7 } },
                        ],
                    ),
                    discriminant: None,
                },
            ],
            repr: Some("u8"),
        },
    };
    proof {
        assert(r@ =~~= spec_nominal_layout());
    }
    r
}

pub open spec fn spec_nominal_sbox() -> NominalDescV {
    NominalDescV {
        uid: TypeUidV {
            rustpath: "ironties::types::sbox::SBox"@,
            file: "src/types/sbox.rs"@,
            line: 13,
            column: 12,
        },
        name: "SBox"@,
        body: TypeBodyDescV::StructNamed(
            seq![
                FieldDescV {
                    name: "ptr"@,
                    ty: TypeDescV::ConstPtr(Box::new(TypeDescV::Nominal { id: 6 })),
                },
                FieldDescV { name: "allocator"@, ty: TypeDescV::Nominal { id: 9 } },
            ],
        ),
    }
}

fn nominal_sbox() -> (r: NominalDesc)
    ensures
        r@ == spec_nominal_sbox(),
{
    let r = NominalDesc {
        uid: TypeUid {
            rustpath: "ironties::types::sbox::SBox",
            file: "src/types/sbox.rs",
            line: 13,
            column: 12,
        },
        name: "SBox",
        body: TypeBodyDesc::StructNamed(
            vec![
                FieldDesc {
                    name: "ptr",
                    ty: TypeDesc::ConstPtr(Box::new(TypeDesc::Nominal { id: 6 })),
                },
                FieldDesc { name: "allocator", ty: TypeDesc::Nominal { id: 9 } },
            ],
        ),
    };
    proof {
        reveal_with_fuel(TypeDesc::deep, 3);
        assert(r@ =~~= spec_nominal_sbox());
    }
    r
}

pub open spec fn spec_nominal_soption() -> NominalDescV {
    NominalDescV {
        uid: TypeUidV {
            rustpath: "ironties::types::soption::SOption"@,
            file: "src/types/soption.rs"@,
            line: 12,
            column: 10,
        },
        name: "SOption"@,
        body: TypeBodyDescV::Enum {
            variants: seq![
                VariantDescV {
                    name: "SSome"@,
                    body: VariantBodyDescV::Tuple(seq![TypeDescV::Nominal { id: 3 }]),
                    discriminant: None,
                },
                VariantDescV { name: "SNone"@, body: VariantBodyDescV::Unit, discriminant: None },
            ],
            repr: Some("u8"@),
        },
    }
}

fn nominal_soption() -> (r: NominalDesc)
    ensures
        r@ == spec_nominal_soption(),
{
    let r = NominalDesc {
        uid: TypeUid {
            rustpath: "ironties::types::soption::SOption",
            file: "src/types/soption.rs",
            line: 12,
            column: 10,
        },
        name: "SOption",
        body: TypeBodyDesc::Enum {
            variants: vec![
                VariantDesc {
                    name: "SSome",
                    body: VariantBodyDesc::Tuple(vec![TypeDesc::Nominal { id: 3 }]),
                    discriminant: None,
                },
                VariantDesc { name: "SNone", body: VariantBodyDesc::Unit, discriminant: None },
            ],
            repr: Some("u8"),
        },
    };
    proof {
        assert(r@ =~~= spec_nominal_soption());
    }
    r
}

pub open spec fn spec_nominal_sglobal() -> NominalDescV {
    NominalDescV {
        uid: TypeUidV {
            rustpath: "ironties::types::allocator::SGlobal"@,
            file: "src/types/allocator.rs"@,
            line: 15,
            column: 12,
        },
        name: "SGlobal"@,
        body: TypeBodyDescV::StructNamed(Seq::empty()),
    }
}

fn nominal_sglobal() -> (r: NominalDesc)
    ensures
        r@ == spec_nominal_sglobal(),
{
    let r = NominalDesc {
        uid: TypeUid {
            rustpath: "ironties::types::allocator::SGlobal",
            file: "src/types/allocator.rs",
            line: 15,
            column: 12,
        },
        name: "SGlobal",
        body: TypeBodyDesc::StructNamed(Vec::new()),
    };
    proof {
        assert(r@ =~~= spec_nominal_sglobal());
    }
    r
}

/// The universe of nominal definitions that the declaration of
/// [`TypeLayout`] reaches.
pub open spec fn spec_self_nominals() -> Seq<NominalDescV> {
    seq![
        spec_nominal_type_layout(),
        spec_nominal_svec(),
        spec_nominal_defined_type(),
        spec_nominal_sstr(),
        spec_nominal_sslice(),
        spec_nominal_type_type(),
        spec_nominal_layout(),
        spec_nominal_sbox(),
        spec_nominal_soption(),
        spec_nominal_sglobal(),
    ]
}

/// Builds the library's own universe of nominal definitions.
fn self_nominals_vec() -> (r: Vec<NominalDesc>)
    ensures
        nominals_deep(r@) == spec_self_nominals(),
{
    let r: Vec<NominalDesc> = vec![
        nominal_type_layout(),
        nominal_svec(),
        nominal_defined_type(),
        nominal_sstr(),
        nominal_sslice(),
        nominal_type_type(),
        nominal_layout(),
        nominal_sbox(),
        nominal_soption(),
        nominal_sglobal(),
    ];
    proof {
        assert(nominals_deep(r@) =~~= spec_self_nominals());
    }
    r
}

/// Every definition of the library's own universe is well formed: nominal
/// references stay inside its ten definitions and every discriminant is
/// representable.
proof fn lemma_self_nominals_wf()
    ensures
        forall|i: int|
            0 <= i < spec_self_nominals().len() ==> (#[trigger] spec_self_nominals()[i]).body.wf(
                10,
            ),
{
    assert forall|i: int| 0 <= i < spec_self_nominals().len() implies (
    #[trigger] spec_self_nominals()[i]).body.wf(10) by {
        reveal_with_fuel(TypeDescV::wf, 3);
        reveal_with_fuel(descs_wf, 3);
        if i == 5 {
            let vs = spec_nominal_type_type().body->Enum_variants;
            assert(forall|k: int|
                0 <= k < vs.len() ==> (#[trigger] vs[k]).discriminant is None);
            lemma_discs_ok_implicit(vs);
        } else if i == 6 {
            let vs = spec_nominal_layout().body->Enum_variants;
            assert(forall|k: int|
                0 <= k < vs.len() ==> (#[trigger] vs[k]).discriminant is None);
            lemma_discs_ok_implicit(vs);
        } else if i == 8 {
            let vs = spec_nominal_soption().body->Enum_variants;
            assert(forall|k: int|
                0 <= k < vs.len() ==> (#[trigger] vs[k]).discriminant is None);
            lemma_discs_ok_implicit(vs);
        }
    }
}

/// Builds a description rooted at one definition of the library's own
/// universe.
fn self_description(id: usize) -> (r: TypeDescription)
    requires
        id < 10,
    ensures
        r@ == (TypeDescriptionV {
            nominals: spec_self_nominals(),
            root: TypeDescV::Nominal { id },
        }),
        r@.wf(),
{
    let r = TypeDescription { nominals: self_nominals_vec(), root: TypeDesc::Nominal { id } };
    proof {
        assert(r@ =~~= (TypeDescriptionV {
            nominals: spec_self_nominals(),
            root: TypeDescV::Nominal { id },
        }));
        lemma_self_nominals_wf();
        reveal_with_fuel(TypeDescV::wf, 2);
    }
    r
}

impl TypeInfo for TypeLayout {
    open spec fn spec_describe() -> TypeDescriptionV {
        TypeDescriptionV { nominals: spec_self_nominals(), root: TypeDescV::Nominal { id: 0 } }
    }

    fn describe() -> (r: TypeDescription) {
        self_description(0)
    }

    fn layout() -> (r: TypeLayout) {
        layout_of_description(&Self::describe())
    }
}

impl TypeInfo for crate::layout::DefinedType {
    open spec fn spec_describe() -> TypeDescriptionV {
        TypeDescriptionV { nominals: spec_self_nominals(), root: TypeDescV::Nominal { id: 2 } }
    }

    fn describe() -> (r: TypeDescription) {
        self_description(2)
    }

    fn layout() -> (r: TypeLayout) {
        layout_of_description(&Self::describe())
    }
}

impl TypeInfo for crate::layout::TypeType {
    open spec fn spec_describe() -> TypeDescriptionV {
        TypeDescriptionV { nominals: spec_self_nominals(), root: TypeDescV::Nominal { id: 5 } }
    }

    fn describe() -> (r: TypeDescription) {
        self_description(5)
    }

    fn layout() -> (r: TypeLayout) {
        layout_of_description(&Self::describe())
    }
}

impl TypeInfo for crate::layout::Layout {
    open spec fn spec_describe() -> TypeDescriptionV {
        TypeDescriptionV { nominals: spec_self_nominals(), root: TypeDescV::Nominal { id: 6 } }
    }

    fn describe() -> (r: TypeDescription) {
        self_description(6)
    }

    fn layout() -> (r: TypeLayout) {
        layout_of_description(&Self::describe())
    }
}

} // verus!

verus! {

/// The declaration of a nominal wrapper around another declared type: one
/// definition appended for the wrapper itself, holding the wrapped type's
/// root shape as its single unnamed field.
pub open spec fn spec_wrap_unnamed(
    td: TypeDescriptionV,
    uid: TypeUidV,
    name: Seq<char>,
) -> TypeDescriptionV {
    TypeDescriptionV {
        nominals: td.nominals.push(
            NominalDescV { uid, name, body: TypeBodyDescV::StructUnnamed(seq![td.root]) },
        ),
        root: TypeDescV::Nominal { id: td.nominals.len() as usize },
    }
}

/// Appends a wrapper definition around a declaration's root; the wrapper
/// becomes the new root.
fn wrap_unnamed(td: TypeDescription, uid: TypeUid, name: &'static str) -> (r: TypeDescription)
    requires
        td@.wf(),
    ensures
        r@ == spec_wrap_unnamed(td@, uid@, name@),
        r@.wf(),
{
    let ghost tdv = td@;
    let id = td.nominals.len();
    let root = td.root;
    let mut nominals = td.nominals;
    nominals.push(NominalDesc { uid, name, body: TypeBodyDesc::StructUnnamed(vec![root]) });
    let r = TypeDescription { nominals, root: TypeDesc::Nominal { id } };
    proof {
        assert(r@ =~~= spec_wrap_unnamed(tdv, uid@, name@));
        let n = tdv.nominals.len() as nat;
        reveal_with_fuel(TypeDescV::wf, 2);
        reveal_with_fuel(descs_wf, 2);
        assert(r@.root.wf((n + 1) as nat));
        assert forall|i: int| 0 <= i < r@.nominals.len() implies (#[trigger] r@.nominals[i].body).wf(
            (n + 1) as nat,
        ) by {
            reveal_with_fuel(TypeDescV::wf, 2);
            reveal_with_fuel(descs_wf, 2);
            if i < n {
                assert(r@.nominals[i] == tdv.nominals[i]);
                assert(tdv.nominals[i].body.wf(n));
                crate::describe::lemma_body_wf_mono(tdv.nominals[i].body, n, (n + 1) as nat);
            } else {
                let ds = r@.nominals[i].body->StructUnnamed_0;
                assert(ds.len() == 1);
                assert(ds[0] == tdv.root);
                crate::describe::lemma_desc_wf_mono(tdv.root, n, (n + 1) as nat);
                assert forall|j: int| 0 <= j < ds.len() implies (#[trigger] ds[j]).wf(
                    (n + 1) as nat,
                ) by {
                    assert(ds[j] == tdv.root);
                }
            }
        }
    }
    r
}

/// The declaration of the marker type: a single unit-bodied definition.
pub open spec fn spec_phantom_description() -> TypeDescriptionV {
    TypeDescriptionV {
        nominals: seq![
            NominalDescV {
                uid: TypeUidV {
                    rustpath: "::std::marker::PhantomData"@,
                    file: "src/other_impls.rs"@,
                    line: 130,
                    column: 1,
                },
                name: "::std::marker::PhantomData"@,
                body: TypeBodyDescV::StructUnit,
            },
        ],
        root: TypeDescV::Nominal { id: 0 },
    }
}

impl<T: ?Sized> TypeInfo for core::marker::PhantomData<T> {
    open spec fn spec_describe() -> TypeDescriptionV {
        spec_phantom_description()
    }

    fn describe() -> (r: TypeDescription) {
        let r = TypeDescription {
            nominals: vec![
                NominalDesc {
                    uid: TypeUid {
                        rustpath: "::std::marker::PhantomData",
                        file: "src/other_impls.rs",
                        line: 130,
                        column: 1,
                    },
                    name: "::std::marker::PhantomData",
                    body: TypeBodyDesc::StructUnit,
                },
            ],
            root: TypeDesc::Nominal { id: 0 },
        };
        proof {
            assert(r@ =~~= spec_phantom_description());
            reveal_with_fuel(TypeDescV::wf, 2);
            assert forall|i: int| 0 <= i < r@.nominals.len() implies (
            #[trigger] r@.nominals[i].body).wf(1) by {
                assert(r@.nominals[i].body == TypeBodyDescV::StructUnit);
            }
        }
        r
    }

    fn layout() -> (r: TypeLayout) {
        layout_of_description(&Self::describe())
    }
}

impl<T: TypeInfo> TypeInfo for core::mem::ManuallyDrop<T> {
    open spec fn spec_describe() -> TypeDescriptionV {
        spec_wrap_unnamed(
            T::spec_describe(),
            TypeUidV {
                rustpath: "::std::mem::ManuallyDrop"@,
                file: "src/other_impls.rs"@,
                line: 160,
                column: 1,
            },
            "::std::mem::ManuallyDrop"@,
        )
    }

    fn describe() -> (r: TypeDescription) {
        wrap_unnamed(
            T::describe(),
            TypeUid {
                rustpath: "::std::mem::ManuallyDrop",
                file: "src/other_impls.rs",
                line: 160,
                column: 1,
            },
            "::std::mem::ManuallyDrop",
        )
    }

    fn layout() -> (r: TypeLayout) {
        layout_of_description(&Self::describe())
    }
}

} // verus!

verus! {

/// The declaration of a nominal wrapper holding the wrapped type's root
/// shape as its single named field.
pub open spec fn spec_wrap_named_single(
    td: TypeDescriptionV,
    uid: TypeUidV,
    name: Seq<char>,
    field: Seq<char>,
) -> TypeDescriptionV {
    TypeDescriptionV {
        nominals: td.nominals.push(
            NominalDescV {
                uid,
                name,
                body: TypeBodyDescV::StructNamed(seq![FieldDescV { name: field, ty: td.root }]),
            },
        ),
        root: TypeDescV::Nominal { id: td.nominals.len() as usize },
    }
}

fn wrap_named_single(
    td: TypeDescription,
    uid: TypeUid,
    name: &'static str,
    field: &'static str,
) -> (r: TypeDescription)
    requires
        td@.wf(),
    ensures
        r@ == spec_wrap_named_single(td@, uid@, name@, field@),
        r@.wf(),
{
    let ghost tdv = td@;
    let id = td.nominals.len();
    let root = td.root;
    let mut nominals = td.nominals;
    nominals.push(
        NominalDesc {
            uid,
            name,
            body: TypeBodyDesc::StructNamed(vec![FieldDesc { name: field, ty: root }]),
        },
    );
    let r = TypeDescription { nominals, root: TypeDesc::Nominal { id } };
    proof {
        assert(r@ =~~= spec_wrap_named_single(tdv, uid@, name@, field@));
        let n = tdv.nominals.len() as nat;
        reveal_with_fuel(TypeDescV::wf, 2);
        assert forall|i: int| 0 <= i < r@.nominals.len() implies (#[trigger] r@.nominals[i].body).wf(
            (n + 1) as nat,
        ) by {
            reveal_with_fuel(TypeDescV::wf, 2);
            if i < n {
                assert(r@.nominals[i] == tdv.nominals[i]);
                assert(tdv.nominals[i].body.wf(n));
                crate::describe::lemma_body_wf_mono(tdv.nominals[i].body, n, (n + 1) as nat);
            } else {
                let fs = r@.nominals[i].body->StructNamed_0;
                assert(fs.len() == 1);
                assert(fs[0].ty == tdv.root);
                crate::describe::lemma_desc_wf_mono(tdv.root, n, (n + 1) as nat);
                assert forall|j: int| 0 <= j < fs.len() implies (#[trigger] fs[j]).ty.wf(
                    (n + 1) as nat,
                ) by {
                    assert(fs[j].ty == tdv.root);
                }
            }
        }
    }
    r
}

/// The declaration of a borrowed-view container over the wrapped type: a
/// pointer to the element shape plus a length.
pub open spec fn spec_wrap_ptr_len(
    td: TypeDescriptionV,
    uid: TypeUidV,
    name: Seq<char>,
    is_mut: bool,
) -> TypeDescriptionV {
    TypeDescriptionV {
        nominals: td.nominals.push(
            NominalDescV {
                uid,
                name,
                body: TypeBodyDescV::StructNamed(
                    seq![
                        FieldDescV {
                            name: "ptr"@,
                            ty: if is_mut {
                                TypeDescV::MutPtr(Box::new(td.root))
                            } else {
                                TypeDescV::ConstPtr(Box::new(td.root))
                            },
                        },
                        FieldDescV { name: "len"@, ty: TypeDescV::USize },
                    ],
                ),
            },
        ),
        root: TypeDescV::Nominal { id: td.nominals.len() as usize },
    }
}

fn wrap_ptr_len(td: TypeDescription, uid: TypeUid, name: &'static str, is_mut: bool) -> (r:
    TypeDescription)
    requires
        td@.wf(),
    ensures
        r@ == spec_wrap_ptr_len(td@, uid@, name@, is_mut),
        r@.wf(),
{
    let ghost tdv = td@;
    let id = td.nominals.len();
    let root = td.root;
    let ptr_ty = if is_mut {
        TypeDesc::MutPtr(Box::new(root))
    } else {
        TypeDesc::ConstPtr(Box::new(root))
    };
    let mut nominals = td.nominals;
    nominals.push(
        NominalDesc {
            uid,
            name,
            body: TypeBodyDesc::StructNamed(
                vec![
                    FieldDesc { name: "ptr", ty: ptr_ty },
                    FieldDesc { name: "len", ty: TypeDesc::USize },
                ],
            ),
        },
    );
    let r = TypeDescription { nominals, root: TypeDesc::Nominal { id } };
    proof {
        reveal_with_fuel(TypeDesc::deep, 3);
        assert(r@ =~~= spec_wrap_ptr_len(tdv, uid@, name@, is_mut));
        let n = tdv.nominals.len() as nat;
        reveal_with_fuel(TypeDescV::wf, 3);
        assert forall|i: int| 0 <= i < r@.nominals.len() implies (#[trigger] r@.nominals[i].body).wf(
            (n + 1) as nat,
        ) by {
            reveal_with_fuel(TypeDescV::wf, 3);
            if i < n {
                assert(r@.nominals[i] == tdv.nominals[i]);
                assert(tdv.nominals[i].body.wf(n));
                crate::describe::lemma_body_wf_mono(tdv.nominals[i].body, n, (n + 1) as nat);
            } else {
                let fs = r@.nominals[i].body->StructNamed_0;
                assert(fs.len() == 2);
                crate::describe::lemma_desc_wf_mono(tdv.root, n, (n + 1) as nat);
                assert(fs[0].ty.wf((n + 1) as nat));
                assert(fs[1].ty.wf((n + 1) as nat));
                assert forall|j: int| 0 <= j < fs.len() implies (#[trigger] fs[j]).ty.wf(
                    (n + 1) as nat,
                ) by {
                    assert(j == 0 || j == 1);
                }
            }
        }
    }
    r
}

/// The declaration of a two-variant tagged container over the wrapped type:
/// a carrying variant holding the root shape, then an empty variant.
pub open spec fn spec_wrap_tagged(
    td: TypeDescriptionV,
    uid: TypeUidV,
    name: Seq<char>,
    carrying: Seq<char>,
    empty: Seq<char>,
) -> TypeDescriptionV {
    TypeDescriptionV {
        nominals: td.nominals.push(
            NominalDescV {
                uid,
                name,
                body: TypeBodyDescV::Enum {
                    variants: seq![
                        VariantDescV {
                            name: carrying,
                            body: VariantBodyDescV::Tuple(seq![td.root]),
                            discriminant: None,
                        },
                        VariantDescV { name: empty, body: VariantBodyDescV::Unit, discriminant: None },
                    ],
                    repr: Some("u8"@),
                },
            },
        ),
        root: TypeDescV::Nominal { id: td.nominals.len() as usize },
    }
}

fn wrap_tagged(
    td: TypeDescription,
    uid: TypeUid,
    name: &'static str,
    carrying: &'static str,
    empty: &'static str,
) -> (r: TypeDescription)
    requires
        td@.wf(),
    ensures
        r@ == spec_wrap_tagged(td@, uid@, name@, carrying@, empty@),
        r@.wf(),
{
    let ghost tdv = td@;
    let id = td.nominals.len();
    let root = td.root;
    let mut nominals = td.nominals;
    nominals.push(
        NominalDesc {
            uid,
            name,
            body: TypeBodyDesc::Enum {
                variants: vec![
                    VariantDesc {
                        name: carrying,
                        body: VariantBodyDesc::Tuple(vec![root]),
                        discriminant: None,
                    },
                    VariantDesc { name: empty, body: VariantBodyDesc::Unit, discriminant: None },
                ],
                repr: Some("u8"),
            },
        },
    );
    let r = TypeDescription { nominals, root: TypeDesc::Nominal { id } };
    proof {
        assert(r@ =~~= spec_wrap_tagged(tdv, uid@, name@, carrying@, empty@));
        let n = tdv.nominals.len() as nat;
        reveal_with_fuel(TypeDescV::wf, 2);
        reveal_with_fuel(descs_wf, 2);
        assert forall|i: int| 0 <= i < r@.nominals.len() implies (#[trigger] r@.nominals[i].body).wf(
            (n + 1) as nat,
        ) by {
            reveal_with_fuel(TypeDescV::wf, 2);
            reveal_with_fuel(descs_wf, 2);
            if i < n {
                assert(r@.nominals[i] == tdv.nominals[i]);
                assert(tdv.nominals[i].body.wf(n));
                crate::describe::lemma_body_wf_mono(tdv.nominals[i].body, n, (n + 1) as nat);
            } else {
                let vs = r@.nominals[i].body->Enum_variants;
                assert(vs.len() == 2);
                assert(forall|k: int|
                    0 <= k < vs.len() ==> (#[trigger] vs[k]).discriminant is None);
                lemma_discs_ok_implicit(vs);
                crate::describe::lemma_desc_wf_mono(tdv.root, n, (n + 1) as nat);
                let ds = vs[0].body->Tuple_0;
                assert(ds.len() == 1 && ds[0] == tdv.root);
                assert forall|j: int| 0 <= j < ds.len() implies (#[trigger] ds[j]).wf(
                    (n + 1) as nat,
                ) by {
                    assert(ds[j] == tdv.root);
                }
                assert forall|k: int| 0 <= k < vs.len() implies (#[trigger] vs[k]).body.wf(
                    (n + 1) as nat,
                ) by {
                    assert(k == 0 || k == 1);
                }
            }
        }
    }
    r
}

/// The declaration of an owning container over the wrapped type: a pointer
/// to the element shape, the bookkeeping lengths, and the allocator handle's
/// own definition.
pub open spec fn spec_wrap_owner(
    td: TypeDescriptionV,
    uid: TypeUidV,
    name: Seq<char>,
    with_lengths: bool,
) -> TypeDescriptionV {
    let alloc_id = td.nominals.len() as usize;
    let fields = if with_lengths {
        seq![
            FieldDescV { name: "ptr"@, ty: TypeDescV::ConstPtr(Box::new(td.root)) },
            FieldDescV { name: "len"@, ty: TypeDescV::USize },
            FieldDescV { name: "capacity"@, ty: TypeDescV::USize },
            FieldDescV { name: "allocator"@, ty: TypeDescV::Nominal { id: alloc_id } },
        ]
    } else {
        seq![
            FieldDescV { name: "ptr"@, ty: TypeDescV::ConstPtr(Box::new(td.root)) },
            FieldDescV { name: "allocator"@, ty: TypeDescV::Nominal { id: alloc_id } },
        ]
    };
    TypeDescriptionV {
        nominals: td.nominals.push(spec_nominal_sglobal()).push(
            NominalDescV { uid, name, body: TypeBodyDescV::StructNamed(fields) },
        ),
        root: TypeDescV::Nominal { id: (td.nominals.len() + 1) as usize },
    }
}

fn wrap_owner(td: TypeDescription, uid: TypeUid, name: &'static str, with_lengths: bool) -> (r:
    TypeDescription)
    requires
        td@.wf(),
    ensures
        r@ == spec_wrap_owner(td@, uid@, name@, with_lengths),
        r@.wf(),
{
    let ghost tdv = td@;
    let alloc_id = td.nominals.len();
    let root = td.root;
    let mut nominals = td.nominals;
    nominals.push(nominal_sglobal());
    let fields = if with_lengths {
        vec![
            FieldDesc { name: "ptr", ty: TypeDesc::ConstPtr(Box::new(root)) },
            FieldDesc { name: "len", ty: TypeDesc::USize },
            FieldDesc { name: "capacity", ty: TypeDesc::USize },
            FieldDesc { name: "allocator", ty: TypeDesc::Nominal { id: alloc_id } },
        ]
    } else {
        vec![
            FieldDesc { name: "ptr", ty: TypeDesc::ConstPtr(Box::new(root)) },
            FieldDesc { name: "allocator", ty: TypeDesc::Nominal { id: alloc_id } },
        ]
    };
    nominals.push(NominalDesc { uid, name, body: TypeBodyDesc::StructNamed(fields) });
    let id = nominals.len() - 1;
    let r = TypeDescription { nominals, root: TypeDesc::Nominal { id } };
    proof {
        reveal_with_fuel(TypeDesc::deep, 3);
        assert(r@ =~~= spec_wrap_owner(tdv, uid@, name@, with_lengths));
        let n = tdv.nominals.len() as nat;
        reveal_with_fuel(TypeDescV::wf, 3);
        assert forall|i: int| 0 <= i < r@.nominals.len() implies (#[trigger] r@.nominals[i].body).wf(
            (n + 2) as nat,
        ) by {
            reveal_with_fuel(TypeDescV::wf, 3);
            if i < n {
                assert(r@.nominals[i] == tdv.nominals[i]);
                assert(tdv.nominals[i].body.wf(n));
                crate::describe::lemma_body_wf_mono(tdv.nominals[i].body, n, (n + 2) as nat);
            } else if i == n {
                let fs = r@.nominals[i].body->StructNamed_0;
                assert(fs.len() == 0);
                assert forall|j: int| 0 <= j < fs.len() implies (#[trigger] fs[j]).ty.wf(
                    (n + 2) as nat,
                ) by {
                }
            } else {
                let fs = r@.nominals[i].body->StructNamed_0;
                crate::describe::lemma_desc_wf_mono(tdv.root, n, (n + 2) as nat);
                assert forall|j: int| 0 <= j < fs.len() implies (#[trigger] fs[j]).ty.wf(
                    (n + 2) as nat,
                ) by {
                    if with_lengths {
                        assert(j == 0 || j == 1 || j == 2 || j == 3);
                    } else {
                        assert(j == 0 || j == 1);
                    }
                }
            }
        }
    }
    r
}

} // verus!

verus! {

impl<'a, T: TypeInfo> TypeInfo for crate::types::SSlice<'a, T> {
    open spec fn spec_describe() -> TypeDescriptionV {
        spec_wrap_ptr_len(
            T::spec_describe(),
            TypeUidV {
                rustpath: "ironties::types::slice::SSlice"@,
                file: "src/types/slice.rs"@,
                line: 13,
                column: 12,
            },
            "SSlice"@,
            false,
        )
    }

    fn describe() -> (r: TypeDescription) {
        wrap_ptr_len(
            T::describe(),
            TypeUid {
                rustpath: "ironties::types::slice::SSlice",
                file: "src/types/slice.rs",
                line: 13,
                column: 12,
            },
            "SSlice",
            false,
        )
    }

    fn layout() -> (r: TypeLayout) {
        layout_of_description(&Self::describe())
    }
}

impl<'a, T: TypeInfo> TypeInfo for crate::types::SMutSlice<'a, T> {
    open spec fn spec_describe() -> TypeDescriptionV {
        spec_wrap_ptr_len(
            T::spec_describe(),
            TypeUidV {
                rustpath: "ironties::types::slice::SMutSlice"@,
                file: "src/types/slice.rs"@,
                line: 95,
                column: 12,
            },
            "SMutSlice"@,
            true,
        )
    }

    fn describe() -> (r: TypeDescription) {
        wrap_ptr_len(
            T::describe(),
            TypeUid {
                rustpath: "ironties::types::slice::SMutSlice",
                file: "src/types/slice.rs",
                line: 95,
                column: 12,
            },
            "SMutSlice",
            true,
        )
    }

    fn layout() -> (r: TypeLayout) {
        layout_of_description(&Self::describe())
    }
}

impl<T: TypeInfo> TypeInfo for crate::types::SOption<T> {
    open spec fn spec_describe() -> TypeDescriptionV {
        spec_wrap_tagged(
            T::spec_describe(),
            TypeUidV {
                rustpath: "ironties::types::soption::SOption"@,
                file: "src/types/soption.rs"@,
                line: 12,
                column: 10,
            },
            "SOption"@,
            "SSome"@,
            "SNone"@,
        )
    }

    fn describe() -> (r: TypeDescription) {
        wrap_tagged(
            T::describe(),
            TypeUid {
                rustpath: "ironties::types::soption::SOption",
                file: "src/types/soption.rs",
                line: 12,
                column: 10,
            },
            "SOption",
            "SSome",
            "SNone",
        )
    }

    fn layout() -> (r: TypeLayout) {
        layout_of_description(&Self::describe())
    }
}

impl<T: TypeInfo> TypeInfo for crate::types::MaybePanicked<T> {
    open spec fn spec_describe() -> TypeDescriptionV {
        spec_wrap_tagged(
            T::spec_describe(),
            TypeUidV {
                rustpath: "ironties::types::maybe_panicked::MaybePanicked"@,
                file: "src/types/maybe_panicked.rs"@,
                line: 17,
                column: 10,
            },
            "MaybePanicked"@,
            "SOk"@,
            "Panicked"@,
        )
    }

    fn describe() -> (r: TypeDescription) {
        wrap_tagged(
            T::describe(),
            TypeUid {
                rustpath: "ironties::types::maybe_panicked::MaybePanicked",
                file: "src/types/maybe_panicked.rs",
                line: 17,
                column: 10,
            },
            "MaybePanicked",
            "SOk",
            "Panicked",
        )
    }

    fn layout() -> (r: TypeLayout) {
        layout_of_description(&Self::describe())
    }
}

impl<T: TypeInfo> TypeInfo for crate::types::SBox<T> {
    open spec fn spec_describe() -> TypeDescriptionV {
        spec_wrap_owner(
            T::spec_describe(),
            TypeUidV {
                rustpath: "ironties::types::sbox::SBox"@,
                file: "src/types/sbox.rs"@,
                line: 13,
                column: 12,
            },
            "SBox"@,
            false,
        )
    }

    fn describe() -> (r: TypeDescription) {
        wrap_owner(
            T::describe(),
            TypeUid {
                rustpath: "ironties::types::sbox::SBox",
                file: "src/types/sbox.rs",
                line: 13,
                column: 12,
            },
            "SBox",
            false,
        )
    }

    fn layout() -> (r: TypeLayout) {
        layout_of_description(&Self::describe())
    }
}

impl<T: TypeInfo> TypeInfo for crate::types::SVec<T> {
    open spec fn spec_describe() -> TypeDescriptionV {
        spec_wrap_owner(
            T::spec_describe(),
            TypeUidV {
                rustpath: "ironties::types::svec::SVec"@,
                file: "src/types/svec.rs"@,
                line: 12,
                column: 12,
            },
            "SVec"@,
            true,
        )
    }

    fn describe() -> (r: TypeDescription) {
        wrap_owner(
            T::describe(),
            TypeUid {
                rustpath: "ironties::types::svec::SVec",
                file: "src/types/svec.rs",
                line: 12,
                column: 12,
            },
            "SVec",
            true,
        )
    }

    fn layout() -> (r: TypeLayout) {
        layout_of_description(&Self::describe())
    }
}

impl<'a> TypeInfo for crate::types::SStr<'a> {
    open spec fn spec_describe() -> TypeDescriptionV {
        spec_wrap_named_single(
            <crate::types::SSlice<'static, u8> as TypeInfo>::spec_describe(),
            TypeUidV {
                rustpath: "ironties::types::sstr::SStr"@,
                file: "src/types/sstr.rs"@,
                line: 15,
                column: 12,
            },
            "SStr"@,
            "inner"@,
        )
    }

    fn describe() -> (r: TypeDescription) {
        wrap_named_single(
            <crate::types::SSlice<'static, u8> as TypeInfo>::describe(),
            TypeUid {
                rustpath: "ironties::types::sstr::SStr",
                file: "src/types/sstr.rs",
                line: 15,
                column: 12,
            },
            "SStr",
            "inner",
        )
    }

    fn layout() -> (r: TypeLayout) {
        layout_of_description(&Self::describe())
    }
}

impl<'a> TypeInfo for crate::types::SMutStr<'a> {
    open spec fn spec_describe() -> TypeDescriptionV {
        spec_wrap_named_single(
            <crate::types::SMutSlice<'static, u8> as TypeInfo>::spec_describe(),
            TypeUidV {
                rustpath: "ironties::types::sstr::SMutStr"@,
                file: "src/types/sstr.rs"@,
                line: 96,
                column: 12,
            },
            "SMutStr"@,
            "inner"@,
        )
    }

    fn describe() -> (r: TypeDescription) {
        wrap_named_single(
            <crate::types::SMutSlice<'static, u8> as TypeInfo>::describe(),
            TypeUid {
                rustpath: "ironties::types::sstr::SMutStr",
                file: "src/types/sstr.rs",
                line: 96,
                column: 12,
            },
            "SMutStr",
            "inner",
        )
    }

    fn layout() -> (r: TypeLayout) {
        layout_of_description(&Self::describe())
    }
}

/// The declaration of the empty unit container: one definition with no
/// fields.
pub open spec fn spec_sunit_description() -> TypeDescriptionV {
    TypeDescriptionV {
        nominals: seq![
            NominalDescV {
                uid: TypeUidV {
                    rustpath: "ironties::types::tuple::SUnit"@,
                    file: "src/types/tuple.rs"@,
                    line: 12,
                    column: 12,
                },
                name: "SUnit"@,
                body: TypeBodyDescV::StructNamed(Seq::empty()),
            },
        ],
        root: TypeDescV::Nominal { id: 0 },
    }
}

impl TypeInfo for crate::types::SUnit {
    open spec fn spec_describe() -> TypeDescriptionV {
        spec_sunit_description()
    }

    fn describe() -> (r: TypeDescription) {
        let r = TypeDescription {
            nominals: vec![
                NominalDesc {
                    uid: TypeUid {
                        rustpath: "ironties::types::tuple::SUnit",
                        file: "src/types/tuple.rs",
                        line: 12,
                        column: 12,
                    },
                    name: "SUnit",
                    body: TypeBodyDesc::StructNamed(Vec::new()),
                },
            ],
            root: TypeDesc::Nominal { id: 0 },
        };
        proof {
            assert(r@ =~~= spec_sunit_description());
            reveal_with_fuel(TypeDescV::wf, 2);
            assert forall|i: int| 0 <= i < r@.nominals.len() implies (
            #[trigger] r@.nominals[i].body).wf(1) by {
                let fs = r@.nominals[i].body->StructNamed_0;
                assert(fs.len() == 0);
                assert(field_descs_wf(fs, 1));
            }
        }
        r
    }

    fn layout() -> (r: TypeLayout) {
        layout_of_description(&Self::describe())
    }
}

/// The declaration of the allocator handle: its single definition.
pub open spec fn spec_sglobal_description() -> TypeDescriptionV {
    TypeDescriptionV {
        nominals: seq![spec_nominal_sglobal()],
        root: TypeDescV::Nominal { id: 0 },
    }
}

impl TypeInfo for crate::types::SGlobal {
    open spec fn spec_describe() -> TypeDescriptionV {
        spec_sglobal_description()
    }

    fn describe() -> (r: TypeDescription) {
        let r = TypeDescription {
            nominals: vec![nominal_sglobal()],
            root: TypeDesc::Nominal { id: 0 },
        };
        proof {
            assert(r@ =~~= spec_sglobal_description());
            reveal_with_fuel(TypeDescV::wf, 2);
            assert forall|i: int| 0 <= i < r@.nominals.len() implies (
            #[trigger] r@.nominals[i].body).wf(1) by {
                let fs = r@.nominals[i].body->StructNamed_0;
                assert(fs.len() == 0);
                assert(field_descs_wf(fs, 1));
            }
        }
        r
    }

    fn layout() -> (r: TypeLayout) {
        layout_of_description(&Self::describe())
    }
}

} // verus!
