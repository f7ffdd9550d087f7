use ironties::cdefinitions::CDefinitions;

#[test]
fn render_empty() {
    assert_eq!(CDefinitions::new().render(), "");
}

#[test]
fn header_added_once() {
    let mut defs = CDefinitions::new();
    defs.add_include("stdint.h".to_owned());
    defs.add_include("stdint.h".to_owned());
    defs.add_include("stddef.h".to_owned());
    assert_eq!(defs.render(), "#include <stdint.h>\n#include <stddef.h>\n");
}

#[test]
fn definition_keeps_first_insertion() {
    let mut defs = CDefinitions::new();
    defs.insert_type("K".to_owned(), "typedef int K;".to_owned());
    defs.insert_type("K".to_owned(), "typedef long K;".to_owned());
    assert_eq!(defs.render(), "typedef int K;\n");
}

#[test]
fn contains_type_reports_presence() {
    let mut defs = CDefinitions::new();
    assert!(!defs.contains_type("K"));
    defs.insert_type("K".to_owned(), "typedef int K;".to_owned());
    assert!(defs.contains_type("K"));
    assert!(!defs.contains_type("L"));
}

#[test]
fn extend_once_registers_once() {
    let mut defs = CDefinitions::new();
    defs.extend_once::<u8>();
    defs.extend_once::<u8>();
    defs.extend_once::<u32>();
    assert_eq!(
        defs.render(),
        "#include <stdint.h>\ntypedef uint8_t u8;\ntypedef uint32_t u32;\n"
    );
}
