use ast_bridge::parse_with_regex;

#[test]
fn declarations_found_by_pattern() {
    let src = "use std::io;\npub struct Point { x: i32 }\nenum Color { Red }\npub trait Shape {}\n\
               pub async fn fetch(url: String) -> Response {}\nunsafe fn raw() {}\n\
               mod inner;\npub const N: usize = 3;\ntype Id = u32;\nimpl Point {}\n";
    let m = parse_with_regex(src);
    assert_eq!(m.uses, vec!["std::io"]);
    assert_eq!(m.structs.len(), 1);
    assert_eq!(m.structs[0].name, "Point");
    assert!(m.structs[0].is_pub);
    assert!(m.structs[0].fields.is_empty());
    assert_eq!(m.enums[0].name, "Color");
    assert!(!m.enums[0].is_pub);
    assert_eq!(m.traits[0].name, "Shape");
    assert_eq!(m.functions.len(), 2);
    assert_eq!(m.functions[0].name, "fetch");
    assert!(m.functions[0].is_pub && m.functions[0].is_async);
    assert!(m.functions[0].return_type.is_none());
    assert!(!m.functions[1].is_const && m.functions[1].is_unsafe && !m.functions[1].is_pub);
    assert_eq!(m.modules[0].name, "inner");
    assert_eq!(m.constants[0].name, "N");
    assert!(m.constants[0].ty.is_none());
    assert_eq!(m.types[0].name, "Id");
    assert!(m.impls.is_empty());
}

#[test]
fn heuristic_keeps_order() {
    let m = parse_with_regex("struct C;\nstruct A;\nstruct B;\n");
    let names: Vec<&str> = m.structs.iter().map(|s| s.name.as_str()).collect();
    assert_eq!(names, vec!["C", "A", "B"]);
}

#[test]
fn heuristic_empty_input() {
    let m = parse_with_regex("");
    assert!(m.structs.is_empty() && m.functions.is_empty() && m.uses.is_empty());
}

#[test]
fn heuristic_tolerates_garbage() {
    let m = parse_with_regex("struct\n}}}{{ fn (\npub struct Ok");
    assert_eq!(m.structs.len(), 1);
    assert_eq!(m.structs[0].name, "Ok");
}

#[test]
fn const_fn_is_not_a_constant() {
    let m = parse_with_regex("pub const unsafe fn f() {}");
    assert_eq!(m.functions.len(), 1);
    let f = &m.functions[0];
    assert_eq!(f.name, "f");
    assert!(f.is_pub && f.is_const && f.is_unsafe && !f.is_async);
    assert!(m.constants.is_empty());
}

#[test]
fn qualifiers_in_any_order() {
    let m = parse_with_regex("pub const async unsafe fn f() {}\nasync pub fn g() {}\n");
    assert_eq!(m.functions.len(), 2);
    let f = &m.functions[0];
    assert_eq!(f.name, "f");
    assert!(f.is_pub && f.is_async && f.is_const && f.is_unsafe);
    assert!(m.functions[1].is_pub && m.functions[1].is_async && !m.functions[1].is_const);
    assert!(m.constants.is_empty());
}

#[test]
fn indented_items_are_not_top_level() {
    let m = parse_with_regex("impl S {\n    pub fn method(&self) {}\n    const K: u8 = 1;\n}\nfn top() {}\n");
    assert_eq!(m.functions.len(), 1);
    assert_eq!(m.functions[0].name, "top");
    assert!(m.constants.is_empty());
}
