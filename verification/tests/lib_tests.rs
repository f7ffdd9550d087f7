use ironties::{TypeInfo, TypeLayout};

#[test]
fn ffi_safe() {
    // TypeLayout is a plain value type that can be handed across a call
    // boundary by value.
    let _f: fn(TypeLayout) -> TypeLayout = std::convert::identity;
}

#[test]
fn self_test() {
    assert_eq!(TypeLayout::layout(), TypeLayout::layout());
}

#[test]
fn lib_ffi_safe() {
    let _f: fn(TypeLayout) -> TypeLayout = std::convert::identity;
}

#[test]
fn lib_self_test() {
    assert_eq!(TypeLayout::layout(), TypeLayout::layout());
}

#[test]
fn self_layout_catalog_is_deduplicated() {
    let tl = TypeLayout::layout();
    // The declaration reaches ten nominal types; each appears exactly once.
    assert_eq!(tl.defined_types().len(), 10);
}
