use ast_bridge::exact::{decimal_text, extract_derives, extract_fields, extract_use_path};
use ast_bridge::parse_with_syn;
use ast_bridge::syntax::{
    AttrNode, FieldNode, FieldsNode, FnArgNode, GenericParamNode, MemberNode, NestedNode, PathNode,
    PatNode, SegmentNode, SourceItem, UseNode, VisNode,
};

fn path(names: &[&str]) -> PathNode {
    PathNode {
        leading_colon: false,
        segments: names
            .iter()
            .map(|n| SegmentNode { ident: n.to_string(), has_arguments: false })
            .collect(),
    }
}

fn derive(names: &[&str]) -> AttrNode {
    AttrNode {
        path: path(&["derive"]),
        list: Some(names.iter().map(|n| NestedNode::Path(path(&[n]))).collect()),
    }
}

fn field(name: Option<&str>, ty: &str, vis: VisNode) -> FieldNode {
    FieldNode { ident: name.map(|n| n.to_string()), ty: ty.to_string(), vis }
}

#[test]
fn point_struct_scenario() {
    let items = vec![SourceItem::Struct {
        name: "Point".to_string(),
        vis: VisNode::Public,
        generics: vec![],
        fields: FieldsNode::Named(vec![
            field(Some("x"), "i32", VisNode::Inherited),
            field(Some("y"), "i32", VisNode::Inherited),
        ]),
        attrs: vec![],
    }];
    let m = parse_with_syn(&items);
    assert_eq!(m.structs.len(), 1);
    let s = &m.structs[0];
    assert_eq!(s.name, "Point");
    assert!(s.is_pub);
    assert_eq!(s.fields.len(), 2);
    assert_eq!(s.fields[0].name, "x");
    assert_eq!(s.fields[0].ty, "i32");
    assert_eq!(s.fields[1].name, "y");
    assert_eq!(s.fields[1].ty, "i32");
}

#[test]
fn async_fetch_scenario() {
    let items = vec![SourceItem::Fn {
        name: "fetch".to_string(),
        vis: VisNode::Inherited,
        is_async: true,
        is_const: false,
        is_unsafe: false,
        generics: vec![],
        inputs: vec![FnArgNode::Typed {
            pat: PatNode::Ident { name: "url".to_string(), is_mut: false },
            ty: "String".to_string(),
        }],
        output: Some("Response".to_string()),
    }];
    let m = parse_with_syn(&items);
    assert_eq!(m.functions.len(), 1);
    let f = &m.functions[0];
    assert_eq!(f.name, "fetch");
    assert!(!f.is_pub);
    assert!(f.is_async);
    assert_eq!(f.params.len(), 1);
    assert_eq!(f.params[0].name, "url");
    assert_eq!(f.params[0].ty, "String");
    assert_eq!(f.return_type.as_deref(), Some("Response"));
}

#[test]
fn empty_file_gives_empty_record() {
    let m = parse_with_syn(&vec![]);
    assert!(m.structs.is_empty() && m.enums.is_empty() && m.traits.is_empty());
    assert!(m.functions.is_empty() && m.impls.is_empty() && m.modules.is_empty());
    assert!(m.uses.is_empty() && m.constants.is_empty() && m.types.is_empty());
}

#[test]
fn order_is_kept_and_other_items_skipped() {
    let items = vec![
        SourceItem::Mod { name: "c".to_string(), vis: VisNode::Public },
        SourceItem::Other,
        SourceItem::Mod { name: "a".to_string(), vis: VisNode::Restricted },
        SourceItem::Type { name: "T".to_string(), vis: VisNode::Inherited },
        SourceItem::Mod { name: "b".to_string(), vis: VisNode::Inherited },
    ];
    let m = parse_with_syn(&items);
    let names: Vec<&str> = m.modules.iter().map(|x| x.name.as_str()).collect();
    assert_eq!(names, vec!["c", "a", "b"]);
    assert!(m.modules[0].is_pub);
    assert!(!m.modules[1].is_pub);
    assert_eq!(m.types.len(), 1);
}

#[test]
fn positional_fields_are_numbered() {
    let fields = FieldsNode::Unnamed(
        (0..12).map(|_| field(None, "u8", VisNode::Public)).collect(),
    );
    let r = extract_fields(&fields);
    assert_eq!(r.len(), 12);
    assert_eq!(r[0].name, "0");
    assert_eq!(r[11].name, "11");
    assert!(r[3].is_pub);
    assert!(extract_fields(&FieldsNode::Unit).is_empty());
    assert_eq!(decimal_text(907), "907");
}

#[test]
fn derives_are_flattened() {
    let attrs = vec![
        derive(&["Debug", "Clone"]),
        AttrNode { path: path(&["allow"]), list: Some(vec![NestedNode::Path(path(&["dead_code"]))]) },
        AttrNode {
            path: path(&["derive"]),
            list: Some(vec![NestedNode::Path(path(&["serde", "Serialize"])), NestedNode::Other]),
        },
        derive(&["PartialEq"]),
    ];
    assert_eq!(extract_derives(&attrs), vec!["Debug", "Clone", "PartialEq"]);
}

#[test]
fn use_trees_render() {
    let tree = UseNode::Path {
        ident: "std".to_string(),
        tree: Box::new(UseNode::Group(vec![
            UseNode::Name("io".to_string()),
            UseNode::Rename { ident: "fmt".to_string(), rename: "f".to_string() },
            UseNode::Path { ident: "sync".to_string(), tree: Box::new(UseNode::Glob) },
        ])),
    };
    assert_eq!(extract_use_path(&tree), "std::{io, fmt as f, sync::*}");
    assert_eq!(extract_use_path(&UseNode::Group(vec![])), "{}");
}

#[test]
fn generics_params_impls_and_traits() {
    let items = vec![
        SourceItem::Enum {
            name: "E".to_string(),
            vis: VisNode::Public,
            generics: vec![
                GenericParamNode::Lifetime("a".to_string()),
                GenericParamNode::Type("T".to_string()),
                GenericParamNode::Const("N".to_string()),
            ],
            variants: vec!["A".to_string(), "B".to_string()],
            attrs: vec![derive(&["Copy"])],
        },
        SourceItem::Trait {
            name: "Tr".to_string(),
            vis: VisNode::Inherited,
            generics: vec![],
            members: vec![MemberNode::Method("go".to_string()), MemberNode::Other],
        },
        SourceItem::Impl {
            trait_path: Some(path(&["std", "fmt", "Display"])),
            self_ty: "E < T >".to_string(),
            members: vec![MemberNode::Other, MemberNode::Method("fmt".to_string())],
        },
        SourceItem::Fn {
            name: "f".to_string(),
            vis: VisNode::Public,
            is_async: false,
            is_const: true,
            is_unsafe: true,
            generics: vec![GenericParamNode::Type("U".to_string())],
            inputs: vec![
                FnArgNode::Receiver,
                FnArgNode::Typed {
                    pat: PatNode::Ident { name: "n".to_string(), is_mut: true },
                    ty: "u32".to_string(),
                },
                FnArgNode::Typed { pat: PatNode::Other, ty: "(u8, u8)".to_string() },
            ],
            output: None,
        },
        SourceItem::Const { name: "K".to_string(), vis: VisNode::Public, ty: "usize".to_string() },
    ];
    let m = parse_with_syn(&items);
    assert_eq!(m.enums[0].generics, vec!["T"]);
    assert_eq!(m.enums[0].variants, vec!["A", "B"]);
    assert_eq!(m.enums[0].derives, vec!["Copy"]);
    assert_eq!(m.traits[0].methods, vec!["go"]);
    assert_eq!(m.impls[0].trait_name.as_deref(), Some("Display"));
    assert_eq!(m.impls[0].target_type, "E < T >");
    assert_eq!(m.impls[0].methods, vec!["fmt"]);
    let f = &m.functions[0];
    assert!(f.is_const && f.is_unsafe && !f.is_async);
    assert_eq!(f.generics, vec!["U"]);
    assert_eq!(f.params.len(), 1);
    assert!(f.params[0].is_mut);
    assert!(f.return_type.is_none());
    assert_eq!(m.constants[0].ty.as_deref(), Some("usize"));
}
