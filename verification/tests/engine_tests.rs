use ironties::describe::{
    FieldDesc, NominalDesc, TypeBodyDesc, TypeDesc, TypeDescription, VariantBodyDesc, VariantDesc,
};
use ironties::engine::layout_impl;
use ironties::layout::{EnumVariantType, Layout, TypeType, TypeUid};
use ironties::{layout_of_description, type_layout_eq, TypeInfo};
use ironties::types::{SOption, SVec};
use std::marker::PhantomData;
use std::mem::ManuallyDrop;

fn uid(rustpath: &'static str, line: u32) -> TypeUid {
    TypeUid { rustpath, file: "tests/fixtures.rs", line, column: 1 }
}

/// A struct containing a pointer to itself: `Node { next: *const Node }`.
fn node_description() -> TypeDescription {
    TypeDescription {
        nominals: vec![NominalDesc {
            uid: uid("fixtures::Node", 1),
            name: "Node",
            body: TypeBodyDesc::StructNamed(vec![FieldDesc {
                name: "next",
                ty: TypeDesc::ConstPtr(Box::new(TypeDesc::Nominal { id: 0 })),
            }]),
        }],
        root: TypeDesc::Nominal { id: 0 },
    }
}

#[test]
fn self_referential_type_terminates_with_one_entry() {
    let full = layout_impl(&node_description(), Vec::new());
    // Exactly one catalog entry, named "Node", whose sole field resolves to
    // the entry itself by index.
    assert_eq!(full.defined_types.len(), 1);
    let (entry_uid, entry) = &full.defined_types[0];
    assert_eq!(entry_uid.rustpath, "fixtures::Node");
    assert_eq!(entry.name, "Node");
    match &entry.ty {
        TypeType::StructNamed { fields } => {
            assert_eq!(fields.len(), 1);
            assert_eq!(fields[0].name, "next");
            assert_eq!(
                fields[0].layout,
                Layout::ConstPtr(Box::new(Layout::DefinedType { id: 0 }))
            );
        }
        other => panic!("unexpected body: {:?}", other),
    }
    assert_eq!(full.layout, Layout::DefinedType { id: 0 });
}

#[test]
fn mutually_referential_types_terminate() {
    // Two structs each holding a pointer to the other.
    let d = TypeDescription {
        nominals: vec![
            NominalDesc {
                uid: uid("fixtures::Even", 10),
                name: "Even",
                body: TypeBodyDesc::StructNamed(vec![FieldDesc {
                    name: "odd",
                    ty: TypeDesc::ConstPtr(Box::new(TypeDesc::Nominal { id: 1 })),
                }]),
            },
            NominalDesc {
                uid: uid("fixtures::Odd", 20),
                name: "Odd",
                body: TypeBodyDesc::StructNamed(vec![FieldDesc {
                    name: "even",
                    ty: TypeDesc::ConstPtr(Box::new(TypeDesc::Nominal { id: 0 })),
                }]),
            },
        ],
        root: TypeDesc::Nominal { id: 0 },
    };
    let full = layout_impl(&d, Vec::new());
    assert_eq!(full.defined_types.len(), 2);
    assert_eq!(full.defined_types[0].1.name, "Even");
    assert_eq!(full.defined_types[1].1.name, "Odd");
    // Even's field points at entry 1, Odd's field back at entry 0.
    match &full.defined_types[0].1.ty {
        TypeType::StructNamed { fields } => assert_eq!(
            fields[0].layout,
            Layout::ConstPtr(Box::new(Layout::DefinedType { id: 1 }))
        ),
        other => panic!("unexpected body: {:?}", other),
    }
    match &full.defined_types[1].1.ty {
        TypeType::StructNamed { fields } => assert_eq!(
            fields[0].layout,
            Layout::ConstPtr(Box::new(Layout::DefinedType { id: 0 }))
        ),
        other => panic!("unexpected body: {:?}", other),
    }
}

#[test]
fn discriminants_follow_declaration_rule() {
    // enum { A, B = 5, C } derives discriminants [0, 5, 6].
    let d = TypeDescription {
        nominals: vec![NominalDesc {
            uid: uid("fixtures::Tag", 30),
            name: "Tag",
            body: TypeBodyDesc::Enum {
                variants: vec![
                    VariantDesc { name: "A", body: VariantBodyDesc::Unit, discriminant: None },
                    VariantDesc { name: "B", body: VariantBodyDesc::Unit, discriminant: Some(5) },
                    VariantDesc { name: "C", body: VariantBodyDesc::Unit, discriminant: None },
                ],
                repr: Some("u8"),
            },
        }],
        root: TypeDesc::Nominal { id: 0 },
    };
    let full = layout_impl(&d, Vec::new());
    match &full.defined_types[0].1.ty {
        TypeType::Enum { variants, repr } => {
            assert_eq!(*repr, Some("u8"));
            let discs: Vec<i64> = variants.iter().map(|v| v.discriminant).collect();
            assert_eq!(discs, vec![0, 5, 6]);
            let names: Vec<&str> = variants.iter().map(|v| v.name).collect();
            assert_eq!(names, vec!["A", "B", "C"]);
            assert_eq!(variants[0].ty, EnumVariantType::Unit);
        }
        other => panic!("unexpected body: {:?}", other),
    }
}

#[test]
fn type_used_twice_appears_once() {
    // A parent with two fields of the same nominal type: one catalog entry,
    // both fields resolving to the same index.
    let d = TypeDescription {
        nominals: vec![
            NominalDesc {
                uid: uid("fixtures::Pair", 40),
                name: "Pair",
                body: TypeBodyDesc::StructUnnamed(vec![
                    TypeDesc::Nominal { id: 1 },
                    TypeDesc::Nominal { id: 1 },
                ]),
            },
            NominalDesc {
                uid: uid("fixtures::Item", 50),
                name: "Item",
                body: TypeBodyDesc::StructUnnamed(vec![TypeDesc::U32]),
            },
        ],
        root: TypeDesc::Nominal { id: 0 },
    };
    let full = layout_impl(&d, Vec::new());
    assert_eq!(full.defined_types.len(), 2);
    match &full.defined_types[0].1.ty {
        TypeType::StructUnnamed { fields } => {
            assert_eq!(fields[0], Layout::DefinedType { id: 1 });
            assert_eq!(fields[1], Layout::DefinedType { id: 1 });
        }
        other => panic!("unexpected body: {:?}", other),
    }
}

#[test]
fn identity_is_location_sensitive() {
    // Two structurally identical types declared at different source
    // locations stay distinct: identity includes the declaration site.
    let d = TypeDescription {
        nominals: vec![
            NominalDesc {
                uid: uid("fixtures::Twin", 60),
                name: "Twin",
                body: TypeBodyDesc::StructUnnamed(vec![TypeDesc::U32]),
            },
            NominalDesc {
                uid: uid("fixtures::Twin", 70),
                name: "Twin",
                body: TypeBodyDesc::StructUnnamed(vec![TypeDesc::U32]),
            },
            NominalDesc {
                uid: uid("fixtures::Holder", 80),
                name: "Holder",
                body: TypeBodyDesc::StructUnnamed(vec![
                    TypeDesc::Nominal { id: 0 },
                    TypeDesc::Nominal { id: 1 },
                ]),
            },
        ],
        root: TypeDesc::Nominal { id: 2 },
    };
    let full = layout_impl(&d, Vec::new());
    // Holder plus both twins: same shape, different declared locations, two
    // separate entries.
    assert_eq!(full.defined_types.len(), 3);
    match &full.defined_types[0].1.ty {
        TypeType::StructUnnamed { fields } => {
            assert_eq!(fields[0], Layout::DefinedType { id: 1 });
            assert_eq!(fields[1], Layout::DefinedType { id: 2 });
        }
        other => panic!("unexpected body: {:?}", other),
    }
}

#[test]
fn field_order_is_part_of_the_layout() {
    let mk = |first: &'static str, second: &'static str| TypeDescription {
        nominals: vec![NominalDesc {
            uid: uid("fixtures::Record", 90),
            name: "Record",
            body: TypeBodyDesc::StructNamed(vec![
                FieldDesc { name: first, ty: TypeDesc::U8 },
                FieldDesc { name: second, ty: TypeDesc::U16 },
            ]),
        }],
        root: TypeDesc::Nominal { id: 0 },
    };
    let a = layout_of_description(&mk("lo", "hi"));
    let b = layout_of_description(&mk("hi", "lo"));
    // Renaming-and-reordering the fields changes the layout value.
    assert!(!type_layout_eq(&a, &b));
    assert_ne!(a, b);
    // The catalog lists fields in declaration order.
    match &a.defined_types().get(0).ty {
        TypeType::StructNamed { fields } => {
            assert_eq!(fields[0].name, "lo");
            assert_eq!(fields[1].name, "hi");
        }
        other => panic!("unexpected body: {:?}", other),
    }
}

#[test]
fn layouts_are_deterministic() {
    // Same declaration, two independent derivations with their own empty
    // catalogs: equal results. This simulates two separately compiled
    // modules each computing the layout on its side of a boundary.
    let a = layout_of_description(&node_description());
    let b = layout_of_description(&node_description());
    assert!(type_layout_eq(&a, &b));
    assert_eq!(a, b);
}

#[test]
fn primitive_layouts() {
    assert_eq!(*u8::layout().root_layout(), Layout::U8);
    assert_eq!(*i64::layout().root_layout(), Layout::I64);
    assert_eq!(*bool::layout().root_layout(), Layout::Bool);
    assert_eq!(*char::layout().root_layout(), Layout::Char);
    assert_eq!(*<()>::layout().root_layout(), Layout::Void);
    assert_eq!(u8::layout().defined_types().len(), 0);
    assert_eq!(
        *<&u32>::layout().root_layout(),
        Layout::Ref { referent: Box::new(Layout::U32) }
    );
    assert_eq!(
        *<&mut i8>::layout().root_layout(),
        Layout::MutRef { referent: Box::new(Layout::I8) }
    );
    assert_eq!(
        *<[u16; 7]>::layout().root_layout(),
        Layout::Array { len: 7, layout: Box::new(Layout::U16) }
    );
    assert_eq!(u32::layout(), u32::layout());
    assert_ne!(u32::layout(), u64::layout());
}

#[test]
fn function_pointer_derives_return_type_first() {
    // The return type is walked before the arguments, so its nominal gets
    // the lower catalog index.
    let d = TypeDescription {
        nominals: vec![
            NominalDesc {
                uid: uid("fixtures::Arg", 100),
                name: "Arg",
                body: TypeBodyDesc::StructUnit,
            },
            NominalDesc {
                uid: uid("fixtures::Ret", 110),
                name: "Ret",
                body: TypeBodyDesc::StructUnit,
            },
        ],
        root: TypeDesc::FunctionPointer {
            is_unsafe: false,
            abi: "Rust",
            args: vec![TypeDesc::Nominal { id: 0 }],
            return_ty: Box::new(TypeDesc::Nominal { id: 1 }),
        },
    };
    let full = layout_impl(&d, Vec::new());
    assert_eq!(full.defined_types[0].1.name, "Ret");
    assert_eq!(full.defined_types[1].1.name, "Arg");
    assert_eq!(
        full.layout,
        Layout::FunctionPointer {
            is_unsafe: false,
            abi: "Rust",
            args: vec![Layout::DefinedType { id: 1 }],
            return_ty: Box::new(Layout::DefinedType { id: 0 }),
        }
    );
}

#[test]
fn hook_composes_over_an_existing_catalog() {
    // Deriving on top of an accumulated catalog reuses the entry that is
    // already there instead of adding a second one.
    let first = layout_impl(&node_description(), Vec::new());
    let again = layout_impl(&node_description(), first.defined_types);
    assert_eq!(again.defined_types.len(), 1);
    assert_eq!(again.layout, Layout::DefinedType { id: 0 });
}

#[test]
fn std_wrapper_layouts() {
    let tl = <PhantomData<String>>::layout();
    assert_eq!(tl.defined_types().len(), 1);
    // The std wrappers record their fully qualified declared path.
    assert_eq!(tl.defined_types().get(0).name, "::std::marker::PhantomData");
    assert_eq!(tl.defined_types().get(0).ty, TypeType::StructUnit);
    assert_eq!(*tl.root_layout(), Layout::DefinedType { id: 0 });
    // The marker's layout does not depend on its type parameter.
    assert_eq!(tl, <PhantomData<u8>>::layout());

    let md = <ManuallyDrop<u32>>::layout();
    assert_eq!(md.defined_types().len(), 1);
    assert_eq!(md.defined_types().get(0).name, "::std::mem::ManuallyDrop");
    match &md.defined_types().get(0).ty {
        TypeType::StructUnnamed { fields } => assert_eq!(fields[0], Layout::U32),
        other => panic!("unexpected body: {:?}", other),
    }
}

#[test]
fn container_layouts_compose() {
    // SVec<u8>: the allocator handle is discovered while walking the
    // vector's fields, so it sits at the lower catalog index the vector's
    // allocator field refers to.
    let tl = SVec::<u8>::layout();
    assert_eq!(tl.defined_types().len(), 2);
    assert_eq!(tl.defined_types().get(0).name, "SVec");
    assert_eq!(tl.defined_types().get(1).name, "SGlobal");
    match &tl.defined_types().get(0).ty {
        TypeType::StructNamed { fields } => {
            assert_eq!(fields[0].name, "ptr");
            assert_eq!(fields[0].layout, Layout::ConstPtr(Box::new(Layout::U8)));
            assert_eq!(fields[3].name, "allocator");
            assert_eq!(fields[3].layout, Layout::DefinedType { id: 1 });
        }
        other => panic!("unexpected body: {:?}", other),
    }

    // SOption<bool>: a tagged container with the carrying variant first.
    let tl = SOption::<bool>::layout();
    assert_eq!(tl.defined_types().len(), 1);
    match &tl.defined_types().get(0).ty {
        TypeType::Enum { variants, repr } => {
            assert_eq!(*repr, Some("u8"));
            assert_eq!(variants[0].name, "SSome");
            assert_eq!(variants[0].ty, EnumVariantType::Tuple(vec![Layout::Bool]));
            assert_eq!(variants[0].discriminant, 0);
            assert_eq!(variants[1].name, "SNone");
            assert_eq!(variants[1].discriminant, 1);
        }
        other => panic!("unexpected body: {:?}", other),
    }

    // The generic container's definition is keyed by its own declaration
    // site, so two instantiations produce equal-shaped catalogs only when
    // the element shapes agree.
    assert_eq!(SVec::<u8>::layout(), SVec::<u8>::layout());
    assert_ne!(SVec::<u8>::layout(), SVec::<u16>::layout());
}

#[test]
fn type_layout_clone_compares_equal() {
    let tl = ironties::TypeLayout::layout();
    let copy = tl.clone();
    assert_eq!(copy, tl);
    assert!(type_layout_eq(&copy, &tl));
}
