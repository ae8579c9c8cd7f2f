use ast_bridge::scan::{scan_decls, DeclKind};
use ast_bridge::scan_lines;

#[test]
fn qualifier_order_does_not_matter() {
    let m = scan_lines("pub async fn a() {}\nasync pub fn b() {}\nunsafe pub const fn c() {}\n");
    assert_eq!(m.functions.len(), 3);
    for f in &m.functions {
        assert!(f.is_pub);
    }
    assert!(m.functions[0].is_async && m.functions[1].is_async);
    assert!(m.functions[2].is_unsafe && m.functions[2].is_const && !m.functions[2].is_async);
    assert_eq!(m.functions[1].name, "b");
}

#[test]
fn identifiers_end_at_punctuation() {
    let m = scan_lines("pub struct Wrapper<T>(T);\nenum E{A}\nfn main() {\ntrait Tr: Sized {}\n");
    assert_eq!(m.structs[0].name, "Wrapper");
    assert!(m.structs[0].is_pub);
    assert_eq!(m.enums[0].name, "E");
    assert_eq!(m.functions[0].name, "main");
    assert!(!m.functions[0].is_pub);
    assert_eq!(m.traits[0].name, "Tr");
}

#[test]
fn all_kinds_and_order() {
    let src = "mod b;\npub mod a;\nconst X: u8 = 1;\npub type Id = u32;\nconst fn k() {}\n\
               // struct NotThis\npub(crate) struct Hidden;\nimpl Foo {}\nuse std::io;\n";
    let m = scan_lines(src);
    let mods: Vec<&str> = m.modules.iter().map(|x| x.name.as_str()).collect();
    assert_eq!(mods, vec!["b", "a"]);
    assert!(m.modules[1].is_pub);
    assert_eq!(m.constants.len(), 1);
    assert_eq!(m.constants[0].name, "X");
    assert!(m.constants[0].ty.is_none());
    assert_eq!(m.types[0].name, "Id");
    assert_eq!(m.functions[0].name, "k");
    assert!(m.functions[0].is_const);
    assert!(m.structs.is_empty());
    assert!(m.impls.is_empty() && m.uses.is_empty());
}

#[test]
fn crlf_and_empty_input() {
    let ds = scan_decls("struct A;\r\n\r\nstruct B");
    assert_eq!(ds.len(), 2);
    assert_eq!(ds[0].kind, DeclKind::Struct);
    assert_eq!(ds[1].name, "B");
    let m = scan_lines("");
    assert!(m.structs.is_empty() && m.functions.is_empty());
}


#[test]
fn indented_lines_are_skipped() {
    let m = scan_lines("trait T {\n    fn inner();\n}\n\tstruct Nested;\nfn outer() {}\n");
    assert_eq!(m.functions.len(), 1);
    assert_eq!(m.functions[0].name, "outer");
    assert!(m.structs.is_empty());
    assert_eq!(m.traits[0].name, "T");
}
