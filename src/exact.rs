//! The exact tier: metadata read off the syntax model of a parsed file.
use vstd::prelude::*;
use vstd::string::StringExecFns;

use crate::json::{hex_char, hex_digits};
use crate::schema::{
    ConstantInfo, EnumInfo, FieldInfo, FunctionInfo, ImplInfo, ModuleInfo, ParamInfo, RustMetadata,
    StructInfo, TraitInfo, TypeInfo,
};
use crate::syntax::{
    AttrNode, FieldNode, FieldsNode, FnArgNode, GenericParamNode, MemberNode, NestedNode, PathNode,
    PatNode, SourceItem, UseNode, VisNode,
};
use crate::text::push_char;

verus! {

/// The views of a list of strings.
pub open spec fn texts(v: Seq<String>) -> Seq<Seq<char>> {
    v.map_values(|s: String| s@)
}

/// Only an explicit `pub` counts as public.
pub open spec fn is_public(v: VisNode) -> bool {
    v is Public
}

fn vis_is_public(v: &VisNode) -> (r: bool)
    ensures
        r == is_public(*v),
{
    match v {
        VisNode::Public => true,
        _ => false,
    }
}

/// The names of the type parameters, in order; lifetimes and const parameters are skipped.
pub open spec fn type_param_names(g: Seq<GenericParamNode>) -> Seq<Seq<char>>
    decreases g.len(),
{
    if g.len() == 0 {
        seq![]
    } else {
        let prev = type_param_names(g.drop_last());
        match g.last() {
            GenericParamNode::Type(n) => prev.push(n@),
            _ => prev,
        }
    }
}

proof fn lemma_texts_push(v: Seq<String>, s: String)
    ensures
        texts(v.push(s)) == texts(v).push(s@),
{
    assert(texts(v.push(s)) =~= texts(v).push(s@));
}

/// The names of the type parameters of a generic parameter list.
pub fn extract_generics(g: &Vec<GenericParamNode>) -> (r: Vec<String>)
    ensures
        texts(r@) == type_param_names(g@),
{
    let mut r: Vec<String> = Vec::new();
    let mut i: usize = 0;
    while i < g.len()
        invariant
            i <= g@.len(),
            texts(r@) == type_param_names(g@.subrange(0, i as int)),
        decreases g.len() - i,
    {
        proof {
            assert(g@.subrange(0, i + 1).drop_last() =~= g@.subrange(0, i as int));
        }
        match &g[i] {
            GenericParamNode::Type(n) => {
                let t = n.clone();
                proof {
                    lemma_texts_push(r@, t);
                }
                r.push(t);
            },
            _ => {},
        }
        i += 1;
    }
    proof {
        assert(g@.subrange(0, i as int) =~= g@);
    }
    r
}

/// The decimal digits of `n`.
pub open spec fn decimal(n: nat) -> Seq<char>
    decreases n,
{
    if n < 10 {
        seq![hex_digits()[n as int]]
    } else {
        decimal(n / 10).push(hex_digits()[(n % 10) as int])
    }
}

/// `n` written in decimal.
pub fn decimal_text(n: usize) -> (r: String)
    ensures
        r@ == decimal(n as nat),
    decreases n,
{
    if n < 10 {
        let mut r = String::new();
        push_char(&mut r, hex_char(n as u32));
        r
    } else {
        let mut r = decimal_text(n / 10);
        push_char(&mut r, hex_char((n % 10) as u32));
        r
    }
}

/// A field entry read off a field node, under the given name.
pub open spec fn field_entry(e: FieldInfo, f: FieldNode, name: Seq<char>) -> bool {
    &&& e.name@ == name
    &&& e.ty@ == f.ty@
    &&& e.is_pub == is_public(f.vis)
}

/// The name of a named field; empty where the node has none.
pub open spec fn ident_text(i: Option<String>) -> Seq<char> {
    match i {
        Some(s) => s@,
        None => seq![],
    }
}

/// The entries describe the fields in order: named fields under their name,
/// positional fields under their index; a unit struct has none.
pub open spec fn fields_match(v: Seq<FieldInfo>, f: FieldsNode) -> bool {
    match f {
        FieldsNode::Named(fs) => v.len() == fs@.len() && forall|i: int|
            0 <= i < v.len() ==> #[trigger] field_entry(v[i], fs@[i], ident_text(fs@[i].ident)),
        FieldsNode::Unnamed(fs) => v.len() == fs@.len() && forall|i: int|
            0 <= i < v.len() ==> #[trigger] field_entry(v[i], fs@[i], decimal(i as nat)),
        FieldsNode::Unit => v.len() == 0,
    }
}

/// The field entries of a struct.
pub fn extract_fields(f: &FieldsNode) -> (r: Vec<FieldInfo>)
    ensures
        fields_match(r@, *f),
{
    let mut r: Vec<FieldInfo> = Vec::new();
    match f {
        FieldsNode::Named(fs) => {
            let mut i: usize = 0;
            while i < fs.len()
                invariant
                    i <= fs@.len(),
                    r@.len() == i,
                    forall|j: int|
                        0 <= j < i ==> #[trigger] field_entry(r@[j], fs@[j], ident_text(fs@[j].ident)),
                decreases fs.len() - i,
            {
                let name = match &fs[i].ident {
                    Some(s) => s.clone(),
                    None => String::new(),
                };
                r.push(
                    FieldInfo { name, ty: fs[i].ty.clone(), is_pub: vis_is_public(&fs[i].vis) },
                );
                i += 1;
            }
        },
        FieldsNode::Unnamed(fs) => {
            let mut i: usize = 0;
            while i < fs.len()
                invariant
                    i <= fs@.len(),
                    r@.len() == i,
                    forall|j: int|
                        0 <= j < i ==> #[trigger] field_entry(r@[j], fs@[j], decimal(j as nat)),
                decreases fs.len() - i,
            {
                r.push(
                    FieldInfo {
                        name: decimal_text(i),
                        ty: fs[i].ty.clone(),
                        is_pub: vis_is_public(&fs[i].vis),
                    },
                );
                i += 1;
            }
        },
        FieldsNode::Unit => {},
    }
    r
}

} // verus!

verus! {

/// The single identifier a path consists of, if it is one: no leading `::`,
/// one segment, no generic arguments.
pub open spec fn path_ident(p: PathNode) -> Option<Seq<char>> {
    if !p.leading_colon && p.segments@.len() == 1 && !p.segments@[0].has_arguments {
        Some(p.segments@[0].ident@)
    } else {
        None
    }
}

fn path_get_ident(p: &PathNode) -> (r: Option<String>)
    ensures
        match r {
            Some(s) => path_ident(*p) == Some(s@),
            None => path_ident(*p) is None,
        },
{
    if !p.leading_colon && p.segments.len() == 1 && !p.segments[0].has_arguments {
        Some(p.segments[0].ident.clone())
    } else {
        None
    }
}

/// Whether an attribute is a derive annotation.
pub open spec fn is_derive(a: AttrNode) -> bool {
    path_ident(a.path) == Some("derive"@)
}

/// The plain single-identifier paths of an attribute's list, in order.
pub open spec fn nested_names(s: Seq<NestedNode>) -> Seq<Seq<char>>
    decreases s.len(),
{
    if s.len() == 0 {
        seq![]
    } else {
        let prev = nested_names(s.drop_last());
        match s.last() {
            NestedNode::Path(p) => match path_ident(p) {
                Some(n) => prev.push(n),
                None => prev,
            },
            NestedNode::Other => prev,
        }
    }
}

/// The names that one attribute derives: none unless it is a derive with a list.
pub open spec fn attr_derives(a: AttrNode) -> Seq<Seq<char>> {
    if is_derive(a) {
        match a.list {
            Some(l) => nested_names(l@),
            None => seq![],
        }
    } else {
        seq![]
    }
}

/// The derived names of all attributes, flattened in order.
pub open spec fn derive_names(attrs: Seq<AttrNode>) -> Seq<Seq<char>>
    decreases attrs.len(),
{
    if attrs.len() == 0 {
        seq![]
    } else {
        derive_names(attrs.drop_last()) + attr_derives(attrs.last())
    }
}

fn attr_is_derive(a: &AttrNode) -> (r: bool)
    ensures
        r == is_derive(*a),
{
    match path_get_ident(&a.path) {
        Some(n) => {
            let d = String::from_str("derive");
            proof {
                reveal_strlit("derive");
            }
            let r = n.eq(&d);
            proof {
                if r {
                    assert(n@ =~= "derive"@);
                } else {
                    assert(n@ != "derive"@);
                }
            }
            r
        },
        None => false,
    }
}

/// Appends the derived names of one attribute.
fn push_attr_derives(r: &mut Vec<String>, a: &AttrNode)
    ensures
        texts(final(r)@) == texts(old(r)@) + attr_derives(*a),
{
    let ghost start = texts(r@);
    if attr_is_derive(a) {
        match &a.list {
            Some(l) => {
                let mut i: usize = 0;
                while i < l.len()
                    invariant
                        i <= l@.len(),
                        texts(r@) == start + nested_names(l@.subrange(0, i as int)),
                    decreases l.len() - i,
                {
                    proof {
                        assert(l@.subrange(0, i + 1).drop_last() =~= l@.subrange(0, i as int));
                    }
                    match &l[i] {
                        NestedNode::Path(p) => match path_get_ident(p) {
                            Some(n) => {
                                proof {
                                    lemma_texts_push(r@, n);
                                    assert(start + nested_names(l@.subrange(0, i as int)).push(n@)
                                        =~= (start + nested_names(l@.subrange(0, i as int))).push(
                                        n@,
                                    ));
                                }
                                r.push(n);
                            },
                            None => {},
                        },
                        NestedNode::Other => {},
                    }
                    i += 1;
                }
                proof {
                    assert(l@.subrange(0, i as int) =~= l@);
                }
            },
            None => {
                assert(texts(r@) =~= start + attr_derives(*a));
            },
        }
    } else {
        assert(texts(r@) =~= start + attr_derives(*a));
    }
}

/// The derived names of a declaration's attributes.
pub fn extract_derives(attrs: &Vec<AttrNode>) -> (r: Vec<String>)
    ensures
        texts(r@) == derive_names(attrs@),
{
    let mut r: Vec<String> = Vec::new();
    let mut i: usize = 0;
    proof {
        assert(texts(r@) =~= derive_names(attrs@.subrange(0, 0)));
    }
    while i < attrs.len()
        invariant
            i <= attrs@.len(),
            texts(r@) == derive_names(attrs@.subrange(0, i as int)),
        decreases attrs.len() - i,
    {
        proof {
            assert(attrs@.subrange(0, i + 1).drop_last() =~= attrs@.subrange(0, i as int));
        }
        push_attr_derives(&mut r, &attrs[i]);
        i += 1;
    }
    proof {
        assert(attrs@.subrange(0, i as int) =~= attrs@);
    }
    r
}

} // verus!

verus! {

/// The parameter entry made of a function argument: only a typed argument
/// whose pattern is a plain identifier gives one.
pub open spec fn arg_param(a: FnArgNode) -> Option<(Seq<char>, Seq<char>, bool)> {
    match a {
        FnArgNode::Typed { pat: PatNode::Ident { name, is_mut }, ty } => Some((name@, ty@, is_mut)),
        _ => None,
    }
}

/// The view of a parameter entry.
pub open spec fn param_view(p: ParamInfo) -> (Seq<char>, Seq<char>, bool) {
    (p.name@, p.ty@, p.is_mut)
}

/// The parameter entries of an argument list, in order.
pub open spec fn param_views(inputs: Seq<FnArgNode>) -> Seq<(Seq<char>, Seq<char>, bool)>
    decreases inputs.len(),
{
    if inputs.len() == 0 {
        seq![]
    } else {
        let prev = param_views(inputs.drop_last());
        match arg_param(inputs.last()) {
            Some(p) => prev.push(p),
            None => prev,
        }
    }
}

/// The parameters of a function; receivers and destructuring patterns are skipped.
pub fn extract_params(inputs: &Vec<FnArgNode>) -> (r: Vec<ParamInfo>)
    ensures
        r@.map_values(|p: ParamInfo| param_view(p)) == param_views(inputs@),
{
    let mut r: Vec<ParamInfo> = Vec::new();
    let mut i: usize = 0;
    while i < inputs.len()
        invariant
            i <= inputs@.len(),
            r@.map_values(|p: ParamInfo| param_view(p)) == param_views(inputs@.subrange(0, i as int)),
        decreases inputs.len() - i,
    {
        proof {
            assert(inputs@.subrange(0, i + 1).drop_last() =~= inputs@.subrange(0, i as int));
        }
        match &inputs[i] {
            FnArgNode::Typed { pat: PatNode::Ident { name, is_mut }, ty } => {
                let p = ParamInfo { name: name.clone(), ty: ty.clone(), is_mut: *is_mut };
                let ghost before = r@;
                r.push(p);
                proof {
                    assert(r@.map_values(|p: ParamInfo| param_view(p)) =~= before.map_values(
                        |p: ParamInfo| param_view(p),
                    ).push(param_view(p)));
                }
            },
            _ => {},
        }
        i += 1;
    }
    proof {
        assert(inputs@.subrange(0, i as int) =~= inputs@);
    }
    r
}

/// The return type's text; absent when none is written.
pub fn extract_return_type(output: &Option<String>) -> (r: Option<String>)
    ensures
        r == *output,
{
    match output {
        Some(t) => Some(t.clone()),
        None => None,
    }
}

/// The names of the methods among trait or impl members, in order.
pub open spec fn method_names(m: Seq<MemberNode>) -> Seq<Seq<char>>
    decreases m.len(),
{
    if m.len() == 0 {
        seq![]
    } else {
        let prev = method_names(m.drop_last());
        match m.last() {
            MemberNode::Method(n) => prev.push(n@),
            MemberNode::Other => prev,
        }
    }
}

/// The method names of a trait or impl block.
pub fn extract_methods(m: &Vec<MemberNode>) -> (r: Vec<String>)
    ensures
        texts(r@) == method_names(m@),
{
    let mut r: Vec<String> = Vec::new();
    let mut i: usize = 0;
    while i < m.len()
        invariant
            i <= m@.len(),
            texts(r@) == method_names(m@.subrange(0, i as int)),
        decreases m.len() - i,
    {
        proof {
            assert(m@.subrange(0, i + 1).drop_last() =~= m@.subrange(0, i as int));
        }
        match &m[i] {
            MemberNode::Method(n) => {
                let t = n.clone();
                proof {
                    lemma_texts_push(r@, t);
                }
                r.push(t);
            },
            MemberNode::Other => {},
        }
        i += 1;
    }
    proof {
        assert(m@.subrange(0, i as int) =~= m@);
    }
    r
}

/// Copies a list of names.
pub fn copy_texts(v: &Vec<String>) -> (r: Vec<String>)
    ensures
        texts(r@) == texts(v@),
{
    let mut r: Vec<String> = Vec::new();
    let mut i: usize = 0;
    while i < v.len()
        invariant
            i <= v@.len(),
            texts(r@) == texts(v@.subrange(0, i as int)),
        decreases v.len() - i,
    {
        let t = v[i].clone();
        proof {
            lemma_texts_push(r@, t);
            assert(texts(v@.subrange(0, i + 1)) =~= texts(v@.subrange(0, i as int)).push(t@));
        }
        r.push(t);
        i += 1;
    }
    proof {
        assert(v@.subrange(0, i as int) =~= v@);
    }
    r
}

/// The name of an implemented trait: the last segment of its path, empty for an empty path.
pub open spec fn trait_name_of(p: PathNode) -> Seq<char> {
    if p.segments@.len() == 0 {
        seq![]
    } else {
        p.segments@.last().ident@
    }
}

fn last_segment_name(p: &PathNode) -> (r: String)
    ensures
        r@ == trait_name_of(*p),
{
    if p.segments.len() == 0 {
        String::new()
    } else {
        p.segments[p.segments.len() - 1].ident.clone()
    }
}

/// The text of a `use` tree: paths joined by `::`, renames as `a as b`, a glob as `*`,
/// a group as its members' texts, comma-separated inside braces.
pub open spec fn use_text(t: UseNode) -> Seq<char>
    decreases t,
{
    match t {
        UseNode::Path { ident, tree } => ident@ + "::"@ + use_text(*tree),
        UseNode::Name(n) => n@,
        UseNode::Rename { ident, rename } => ident@ + " as "@ + rename@,
        UseNode::Glob => "*"@,
        UseNode::Group(items) => "{"@ + use_list(items@) + "}"@,
    }
}

/// The texts of the members of a group, joined by `, `.
pub open spec fn use_list(items: Seq<UseNode>) -> Seq<char>
    decreases items,
{
    if items.len() == 0 {
        seq![]
    } else if items.len() == 1 {
        use_text(items[0])
    } else {
        use_list(items.drop_last()) + ", "@ + use_text(items.last())
    }
}

/// Renders a `use` tree.
pub fn extract_use_path(t: &UseNode) -> (r: String)
    ensures
        r@ == use_text(*t),
    decreases t,
{
    match t {
        UseNode::Path { ident, tree } => {
            let mut r = ident.clone();
            r.append("::");
            let sub = extract_use_path(tree);
            r.append(sub.as_str());
            r
        },
        UseNode::Name(n) => n.clone(),
        UseNode::Rename { ident, rename } => {
            let mut r = ident.clone();
            r.append(" as ");
            r.append(rename.as_str());
            r
        },
        UseNode::Glob => String::from_str("*"),
        UseNode::Group(items) => {
            let mut r = String::from_str("{");
            let inner = extract_use_group(items);
            r.append(inner.as_str());
            r.append("}");
            r
        },
    }
}

/// Renders the members of a group, joined by `, `.
fn extract_use_group(items: &Vec<UseNode>) -> (r: String)
    ensures
        r@ == use_list(items@),
    decreases items,
{
    let mut r = String::new();
    let mut i: usize = 0;
    while i < items.len()
        invariant
            i <= items@.len(),
            r@ == use_list(items@.subrange(0, i as int)),
        decreases items.len() - i,
    {
        let ghost prefix = items@.subrange(0, i + 1);
        proof {
            assert(prefix.drop_last() =~= items@.subrange(0, i as int));
            broadcast use vstd::std_specs::vec::axiom_vec_index_decreases;
            assert(decreases_to!(*items => items[i as int]));
        }
        if i > 0 {
            r.append(", ");
        }
        let sub = extract_use_path(&items[i]);
        r.append(sub.as_str());
        proof {
            assert(r@ =~= use_list(prefix));
        }
        i += 1;
    }
    proof {
        assert(items@.subrange(0, i as int) =~= items@);
    }
    r
}

} // verus!

verus! {

/// A number for each kind of item; `use` declarations are kind 6.
pub open spec fn kind_of(it: SourceItem) -> int {
    match it {
        SourceItem::Struct { .. } => 0,
        SourceItem::Enum { .. } => 1,
        SourceItem::Trait { .. } => 2,
        SourceItem::Fn { .. } => 3,
        SourceItem::Impl { .. } => 4,
        SourceItem::Mod { .. } => 5,
        SourceItem::Use { .. } => 6,
        SourceItem::Const { .. } => 7,
        SourceItem::Type { .. } => 8,
        SourceItem::Other => 9,
    }
}

/// The items of one kind, in order.
pub open spec fn items_of_kind(items: Seq<SourceItem>, k: int) -> Seq<SourceItem>
    decreases items.len(),
{
    if items.len() == 0 {
        seq![]
    } else if kind_of(items.last()) == k {
        items_of_kind(items.drop_last(), k).push(items.last())
    } else {
        items_of_kind(items.drop_last(), k)
    }
}

/// The rendered paths of the `use` items, in order.
pub open spec fn use_paths(items: Seq<SourceItem>) -> Seq<Seq<char>>
    decreases items.len(),
{
    if items.len() == 0 {
        seq![]
    } else {
        let prev = use_paths(items.drop_last());
        match items.last() {
            SourceItem::Use { tree } => prev.push(use_text(tree)),
            _ => prev,
        }
    }
}

/// The entry that the exact tier makes of a struct item.
pub open spec fn structs_entry(e: StructInfo, it: SourceItem) -> bool {
    match it {
            SourceItem::Struct { name, vis, generics, fields, attrs } => {
                &&& e.name@ == name@
                &&& e.is_pub == is_public(vis)
                &&& texts(e.generics@) == type_param_names(generics@)
                &&& fields_match(e.fields@, fields)
                &&& texts(e.derives@) == derive_names(attrs@)
            },
        _ => false,
    }
}

/// The entries describe, in order, the struct items among `items`.
pub open spec fn structs_match(v: Seq<StructInfo>, items: Seq<SourceItem>) -> bool {
    let s = items_of_kind(items, 0);
    &&& v.len() == s.len()
    &&& forall|j: int| 0 <= j < v.len() ==> #[trigger] structs_entry(v[j], s[j])
}

fn make_structs_entry(it: &SourceItem) -> (r: StructInfo)
    requires
        *it is Struct,
    ensures
        structs_entry(r, *it),
{
    match it {
        SourceItem::Struct { name, vis, generics, fields, attrs } => StructInfo {
            name: name.clone(),
            is_pub: vis_is_public(vis),
            generics: extract_generics(generics),
            fields: extract_fields(fields),
            derives: extract_derives(attrs),
        },
        _ => {
            unreached()
        },
    }
}

/// The entry that the exact tier makes of a enum item.
pub open spec fn enums_entry(e: EnumInfo, it: SourceItem) -> bool {
    match it {
            SourceItem::Enum { name, vis, generics, variants, attrs } => {
                &&& e.name@ == name@
                &&& e.is_pub == is_public(vis)
                &&& texts(e.generics@) == type_param_names(generics@)
                &&& texts(e.variants@) == texts(variants@)
                &&& texts(e.derives@) == derive_names(attrs@)
            },
        _ => false,
    }
}

/// The entries describe, in order, the enum items among `items`.
pub open spec fn enums_match(v: Seq<EnumInfo>, items: Seq<SourceItem>) -> bool {
    let s = items_of_kind(items, 1);
    &&& v.len() == s.len()
    &&& forall|j: int| 0 <= j < v.len() ==> #[trigger] enums_entry(v[j], s[j])
}

fn make_enums_entry(it: &SourceItem) -> (r: EnumInfo)
    requires
        *it is Enum,
    ensures
        enums_entry(r, *it),
{
    match it {
        SourceItem::Enum { name, vis, generics, variants, attrs } => EnumInfo {
            name: name.clone(),
            is_pub: vis_is_public(vis),
            generics: extract_generics(generics),
            variants: copy_texts(variants),
            derives: extract_derives(attrs),
        },
        _ => {
            unreached()
        },
    }
}

/// The entry that the exact tier makes of a trait item.
pub open spec fn traits_entry(e: TraitInfo, it: SourceItem) -> bool {
    match it {
            SourceItem::Trait { name, vis, generics, members } => {
                &&& e.name@ == name@
                &&& e.is_pub == is_public(vis)
                &&& texts(e.generics@) == type_param_names(generics@)
                &&& texts(e.methods@) == method_names(members@)
            },
        _ => false,
    }
}

/// The entries describe, in order, the trait items among `items`.
pub open spec fn traits_match(v: Seq<TraitInfo>, items: Seq<SourceItem>) -> bool {
    let s = items_of_kind(items, 2);
    &&& v.len() == s.len()
    &&& forall|j: int| 0 <= j < v.len() ==> #[trigger] traits_entry(v[j], s[j])
}

fn make_traits_entry(it: &SourceItem) -> (r: TraitInfo)
    requires
        *it is Trait,
    ensures
        traits_entry(r, *it),
{
    match it {
        SourceItem::Trait { name, vis, generics, members } => TraitInfo {
            name: name.clone(),
            is_pub: vis_is_public(vis),
            generics: extract_generics(generics),
            methods: extract_methods(members),
        },
        _ => {
            unreached()
        },
    }
}

/// The entry that the exact tier makes of a function item.
pub open spec fn functions_entry(e: FunctionInfo, it: SourceItem) -> bool {
    match it {
            SourceItem::Fn { name, vis, is_async, is_const, is_unsafe, generics, inputs, output } => {
                &&& e.name@ == name@
                &&& e.is_pub == is_public(vis)
                &&& e.is_async == is_async
                &&& e.is_const == is_const
                &&& e.is_unsafe == is_unsafe
                &&& texts(e.generics@) == type_param_names(generics@)
                &&& e.params@.map_values(|p: ParamInfo| param_view(p)) == param_views(inputs@)
                &&& e.return_type == output
            },
        _ => false,
    }
}

/// The entries describe, in order, the function items among `items`.
pub open spec fn functions_match(v: Seq<FunctionInfo>, items: Seq<SourceItem>) -> bool {
    let s = items_of_kind(items, 3);
    &&& v.len() == s.len()
    &&& forall|j: int| 0 <= j < v.len() ==> #[trigger] functions_entry(v[j], s[j])
}

fn make_functions_entry(it: &SourceItem) -> (r: FunctionInfo)
    requires
        *it is Fn,
    ensures
        functions_entry(r, *it),
{
    match it {
        SourceItem::Fn { name, vis, is_async, is_const, is_unsafe, generics, inputs, output } => FunctionInfo {
            name: name.clone(),
            is_pub: vis_is_public(vis),
            is_async: *is_async,
            is_const: *is_const,
            is_unsafe: *is_unsafe,
            generics: extract_generics(generics),
            params: extract_params(inputs),
            return_type: extract_return_type(output),
        },
        _ => {
            unreached()
        },
    }
}

/// The entry that the exact tier makes of a impl item.
pub open spec fn impls_entry(e: ImplInfo, it: SourceItem) -> bool {
    match it {
            SourceItem::Impl { trait_path, self_ty, members } => {
                &&& match trait_path {
                    Some(p) => e.trait_name is Some && e.trait_name->0@ == trait_name_of(p),
                    None => e.trait_name is None,
                }
                &&& e.target_type@ == self_ty@
                &&& texts(e.methods@) == method_names(members@)
            },
        _ => false,
    }
}

/// The entries describe, in order, the impl items among `items`.
pub open spec fn impls_match(v: Seq<ImplInfo>, items: Seq<SourceItem>) -> bool {
    let s = items_of_kind(items, 4);
    &&& v.len() == s.len()
    &&& forall|j: int| 0 <= j < v.len() ==> #[trigger] impls_entry(v[j], s[j])
}

fn make_impls_entry(it: &SourceItem) -> (r: ImplInfo)
    requires
        *it is Impl,
    ensures
        impls_entry(r, *it),
{
    match it {
        SourceItem::Impl { trait_path, self_ty, members } => ImplInfo {
            trait_name: match trait_path {
                Some(p) => Some(last_segment_name(p)),
                None => None,
            },
            target_type: self_ty.clone(),
            methods: extract_methods(members),
        },
        _ => {
            unreached()
        },
    }
}

/// The entry that the exact tier makes of a module item.
pub open spec fn modules_entry(e: ModuleInfo, it: SourceItem) -> bool {
    match it {
            SourceItem::Mod { name, vis } => e.name@ == name@ && e.is_pub == is_public(vis),
        _ => false,
    }
}

/// The entries describe, in order, the module items among `items`.
pub open spec fn modules_match(v: Seq<ModuleInfo>, items: Seq<SourceItem>) -> bool {
    let s = items_of_kind(items, 5);
    &&& v.len() == s.len()
    &&& forall|j: int| 0 <= j < v.len() ==> #[trigger] modules_entry(v[j], s[j])
}

fn make_modules_entry(it: &SourceItem) -> (r: ModuleInfo)
    requires
        *it is Mod,
    ensures
        modules_entry(r, *it),
{
    match it {
        SourceItem::Mod { name, vis } => ModuleInfo { name: name.clone(), is_pub: vis_is_public(vis) },
        _ => {
            unreached()
        },
    }
}

/// The entry that the exact tier makes of a constant item.
pub open spec fn constants_entry(e: ConstantInfo, it: SourceItem) -> bool {
    match it {
            SourceItem::Const { name, vis, ty } => {
                &&& e.name@ == name@
                &&& e.is_pub == is_public(vis)
                &&& e.ty is Some
                &&& e.ty->0@ == ty@
            },
        _ => false,
    }
}

/// The entries describe, in order, the constant items among `items`.
pub open spec fn constants_match(v: Seq<ConstantInfo>, items: Seq<SourceItem>) -> bool {
    let s = items_of_kind(items, 7);
    &&& v.len() == s.len()
    &&& forall|j: int| 0 <= j < v.len() ==> #[trigger] constants_entry(v[j], s[j])
}

fn make_constants_entry(it: &SourceItem) -> (r: ConstantInfo)
    requires
        *it is Const,
    ensures
        constants_entry(r, *it),
{
    match it {
        SourceItem::Const { name, vis, ty } => ConstantInfo {
            name: name.clone(),
            is_pub: vis_is_public(vis),
            ty: Some(ty.clone()),
        },
        _ => {
            unreached()
        },
    }
}

/// The entry that the exact tier makes of a type alias item.
pub open spec fn types_entry(e: TypeInfo, it: SourceItem) -> bool {
    match it {
            SourceItem::Type { name, vis } => e.name@ == name@ && e.is_pub == is_public(vis),
        _ => false,
    }
}

/// The entries describe, in order, the type alias items among `items`.
pub open spec fn types_match(v: Seq<TypeInfo>, items: Seq<SourceItem>) -> bool {
    let s = items_of_kind(items, 8);
    &&& v.len() == s.len()
    &&& forall|j: int| 0 <= j < v.len() ==> #[trigger] types_entry(v[j], s[j])
}

fn make_types_entry(it: &SourceItem) -> (r: TypeInfo)
    requires
        *it is Type,
    ensures
        types_entry(r, *it),
{
    match it {
        SourceItem::Type { name, vis } => TypeInfo { name: name.clone(), is_pub: vis_is_public(vis) },
        _ => {
            unreached()
        },
    }
}

} // verus!

verus! {

/// What the exact tier makes of a file's items: each collection describes,
/// in source order, the items of its kind; other items are skipped.
pub open spec fn exact_record(m: RustMetadata, items: Seq<SourceItem>) -> bool {
    &&& structs_match(m.structs@, items)
    &&& enums_match(m.enums@, items)
    &&& traits_match(m.traits@, items)
    &&& functions_match(m.functions@, items)
    &&& impls_match(m.impls@, items)
    &&& modules_match(m.modules@, items)
    &&& texts(m.uses@) == use_paths(items)
    &&& constants_match(m.constants@, items)
    &&& types_match(m.types@, items)
}

/// Extracts the metadata of every top-level item, in order.
pub fn parse_with_syn(items: &Vec<SourceItem>) -> (r: RustMetadata)
    ensures
        exact_record(r, items@),
{
    let mut m = RustMetadata::new();
    let mut i: usize = 0;
    proof {
        assert(texts(m.uses@) =~= use_paths(items@.subrange(0, 0)));
    }
    while i < items.len()
        invariant
            i <= items@.len(),
            exact_record(m, items@.subrange(0, i as int)),
        decreases items.len() - i,
    {
        let ghost prefix = items@.subrange(0, i + 1);
        proof {
            assert(prefix.drop_last() =~= items@.subrange(0, i as int));
            assert(prefix.last() == items@[i as int]);
        }
        let it = &items[i];
        match it {
            SourceItem::Struct { .. } => m.structs.push(make_structs_entry(it)),
            SourceItem::Enum { .. } => m.enums.push(make_enums_entry(it)),
            SourceItem::Trait { .. } => m.traits.push(make_traits_entry(it)),
            SourceItem::Fn { .. } => m.functions.push(make_functions_entry(it)),
            SourceItem::Impl { .. } => m.impls.push(make_impls_entry(it)),
            SourceItem::Mod { .. } => m.modules.push(make_modules_entry(it)),
            SourceItem::Use { tree } => {
                let path = extract_use_path(tree);
                proof {
                    lemma_texts_push(m.uses@, path);
                }
                m.uses.push(path);
            },
            SourceItem::Const { .. } => m.constants.push(make_constants_entry(it)),
            SourceItem::Type { .. } => m.types.push(make_types_entry(it)),
            SourceItem::Other => {},
        }
        assert(exact_record(m, prefix));
        i += 1;
    }
    proof {
        assert(items@.subrange(0, i as int) =~= items@);
    }
    m
}

} // verus!

verus! {

proof fn lemma_all_of_kind(items: Seq<SourceItem>, k: int)
    requires
        forall|j: int| 0 <= j < items.len() ==> kind_of(#[trigger] items[j]) == k,
    ensures
        items_of_kind(items, k) == items,
    decreases items.len(),
{
    if items.len() > 0 {
        let init = items.drop_last();
        assert forall|j: int| 0 <= j < init.len() implies kind_of(#[trigger] init[j]) == k by {
            assert(init[j] == items[j]);
        }
        lemma_all_of_kind(init, k);
        assert(init.push(items.last()) =~= items);
    }
}

/// Declarations keep their source order: when a file's items are all structs,
/// the struct entries describe them one for one, in the same order.
pub proof fn lemma_struct_order_kept(m: RustMetadata, items: Seq<SourceItem>)
    requires
        exact_record(m, items),
        forall|j: int| 0 <= j < items.len() ==> #[trigger] items[j] is Struct,
    ensures
        m.structs@.len() == items.len(),
        forall|j: int| 0 <= j < items.len() ==> #[trigger] structs_entry(m.structs@[j], items[j]),
{
    assert forall|j: int| 0 <= j < items.len() implies kind_of(#[trigger] items[j]) == 0 by {
        assert(items[j] is Struct);
    }
    lemma_all_of_kind(items, 0);
}

} // verus!
