use ast_bridge::{
    error_json, ConstantInfo, ExtractorTier, FieldInfo, FunctionInfo, ImplInfo, ParamInfo,
    RustMetadata, StructInfo,
};

fn point() -> StructInfo {
    StructInfo {
        name: "Point".to_string(),
        is_pub: true,
        generics: vec![],
        fields: vec![
            FieldInfo { name: "x".to_string(), ty: "i32".to_string(), is_pub: false },
            FieldInfo { name: "y".to_string(), ty: "i32".to_string(), is_pub: false },
        ],
        derives: vec!["Debug".to_string()],
    }
}

#[test]
fn empty_record_renders_empty_arrays() {
    let m = RustMetadata::new();
    let doc = m.to_json(ExtractorTier::Exact);
    assert_eq!(
        doc,
        "{\"structs\":[],\"enums\":[],\"traits\":[],\"functions\":[],\"impls\":[],\
         \"modules\":[],\"uses\":[],\"constants\":[],\"types\":[],\"parser\":\"rustc/syn\",\
         \"version\":\"1.0.0\",\"success\":true}"
    );
    let v: serde_json::Value = serde_json::from_str(&doc).unwrap();
    assert_eq!(v["success"], serde_json::Value::Bool(true));
}

#[test]
fn heuristic_tier_is_named() {
    let doc = RustMetadata::new().to_json(ExtractorTier::Heuristic);
    let v: serde_json::Value = serde_json::from_str(&doc).unwrap();
    assert_eq!(v["parser"].as_str(), Some("regex"));
}

#[test]
fn struct_entry_members_in_order() {
    let mut m = RustMetadata::new();
    m.structs.push(point());
    let doc = m.to_json(ExtractorTier::Exact);
    assert!(doc.starts_with(
        "{\"structs\":[{\"name\":\"Point\",\"isPublic\":true,\"generics\":[],\"fields\":[\
         {\"name\":\"x\",\"type\":\"i32\",\"isPublic\":false},\
         {\"name\":\"y\",\"type\":\"i32\",\"isPublic\":false}],\"derives\":[\"Debug\"]}],"
    ));
}

#[test]
fn serializing_twice_is_identical() {
    let mut m = RustMetadata::new();
    m.structs.push(point());
    m.uses.push("std::io".to_string());
    assert_eq!(m.to_json(ExtractorTier::Exact), m.to_json(ExtractorTier::Exact));
}

#[test]
fn missing_return_type_key_is_omitted() {
    let mut m = RustMetadata::new();
    m.functions.push(FunctionInfo {
        name: "run".to_string(),
        is_pub: false,
        is_async: false,
        is_const: false,
        is_unsafe: false,
        generics: vec![],
        params: vec![],
        return_type: None,
    });
    let doc = m.to_json(ExtractorTier::Exact);
    assert!(!doc.contains("returnType"));
    let v: serde_json::Value = serde_json::from_str(&doc).unwrap();
    assert!(v["functions"][0].get("returnType").is_none());
}

#[test]
fn present_return_type_is_rendered() {
    let mut m = RustMetadata::new();
    m.functions.push(FunctionInfo {
        name: "fetch".to_string(),
        is_pub: false,
        is_async: true,
        is_const: false,
        is_unsafe: false,
        generics: vec![],
        params: vec![ParamInfo { name: "url".to_string(), ty: "String".to_string(), is_mut: false }],
        return_type: Some("Response".to_string()),
    });
    let v: serde_json::Value = serde_json::from_str(&m.to_json(ExtractorTier::Exact)).unwrap();
    assert_eq!(v["functions"][0]["returnType"].as_str(), Some("Response"));
    assert_eq!(v["functions"][0]["parameters"][0]["isMut"], serde_json::Value::Bool(false));
}

#[test]
fn quotes_and_backslashes_round_trip() {
    let mut m = RustMetadata::new();
    let tricky = "a\"b\\c\nd\u{1}";
    m.uses.push(tricky.to_string());
    let doc = m.to_json(ExtractorTier::Heuristic);
    assert!(doc.contains("a\\\"b\\\\c\\u000ad\\u0001"));
    let v: serde_json::Value = serde_json::from_str(&doc).unwrap();
    assert_eq!(v["uses"][0].as_str(), Some(tricky));
}

#[test]
fn impl_and_constant_optional_members() {
    let mut m = RustMetadata::new();
    m.impls.push(ImplInfo { trait_name: None, target_type: "Foo".to_string(), methods: vec![] });
    m.impls.push(ImplInfo {
        trait_name: Some("Display".to_string()),
        target_type: "Foo".to_string(),
        methods: vec!["fmt".to_string()],
    });
    m.constants.push(ConstantInfo { name: "N".to_string(), is_pub: true, ty: None });
    m.constants.push(ConstantInfo { name: "M".to_string(), is_pub: false, ty: Some("u8".to_string()) });
    let doc = m.to_json(ExtractorTier::Exact);
    assert!(doc.contains("\"impls\":[{\"targetType\":\"Foo\",\"methods\":[]},{\"traitName\":\"Display\",\"targetType\":\"Foo\",\"methods\":[\"fmt\"]}]"));
    assert!(doc.contains("\"constants\":[{\"name\":\"N\",\"isPublic\":true},{\"name\":\"M\",\"isPublic\":false,\"type\":\"u8\"}]"));
}

#[test]
fn error_document_is_escaped() {
    assert_eq!(
        error_json("File not found: a\"b"),
        "{\"error\":\"File not found: a\\\"b\",\"success\":false}"
    );
}
