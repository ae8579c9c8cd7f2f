//! The parts of a parsed source file that the exact tier reads, as plain
//! values: one node type per kind of syntax it inspects.
use vstd::prelude::*;

verus! {

/// The visibility written in front of a declaration.
#[derive(Debug, Clone, Copy, PartialEq, Eq)]
pub enum VisNode {
    /// `pub`
    Public,
    /// `crate`
    Crate,
    /// `pub(crate)`, `pub(super)`, `pub(in path)`
    Restricted,
    /// nothing written
    Inherited,
}

/// A generic parameter.
#[derive(Debug, Clone)]
pub enum GenericParamNode {
    Type(String),
    Lifetime(String),
    Const(String),
}

/// One segment of a path, and whether it carries generic arguments.
#[derive(Debug, Clone)]
pub struct SegmentNode {
    pub ident: String,
    pub has_arguments: bool,
}

/// A path such as `std::fmt::Debug`.
#[derive(Debug, Clone)]
pub struct PathNode {
    pub leading_colon: bool,
    pub segments: Vec<SegmentNode>,
}

/// An element inside an attribute's parenthesised list.
#[derive(Debug, Clone)]
pub enum NestedNode {
    /// A plain path.
    Path(PathNode),
    /// A literal, a `name = value` pair or a nested list.
    Other,
}

/// An outer attribute: its path and, where its arguments form a list, the elements.
#[derive(Debug, Clone)]
pub struct AttrNode {
    pub path: PathNode,
    pub list: Option<Vec<NestedNode>>,
}

/// A field of a struct.
#[derive(Debug, Clone)]
pub struct FieldNode {
    pub ident: Option<String>,
    pub ty: String,
    pub vis: VisNode,
}

/// The fields of a struct.
#[derive(Debug, Clone)]
pub enum FieldsNode {
    Named(Vec<FieldNode>),
    Unnamed(Vec<FieldNode>),
    Unit,
}

/// A member of a trait or impl block.
#[derive(Debug, Clone)]
pub enum MemberNode {
    Method(String),
    Other,
}

/// The pattern of a function parameter.
#[derive(Debug, Clone)]
pub enum PatNode {
    Ident { name: String, is_mut: bool },
    Other,
}

/// A function parameter.
#[derive(Debug, Clone)]
pub enum FnArgNode {
    /// `self`, `&self`, `&mut self`
    Receiver,
    Typed { pat: PatNode, ty: String },
}

/// The tree of a `use` declaration.
#[derive(Debug)]
pub enum UseNode {
    Path { ident: String, tree: Box<UseNode> },
    Name(String),
    Rename { ident: String, rename: String },
    Glob,
    Group(Vec<UseNode>),
}

/// A top-level item of a source file. Types are held as their source text.
#[derive(Debug)]
pub enum SourceItem {
    Struct {
        name: String,
        vis: VisNode,
        generics: Vec<GenericParamNode>,
        fields: FieldsNode,
        attrs: Vec<AttrNode>,
    },
    Enum {
        name: String,
        vis: VisNode,
        generics: Vec<GenericParamNode>,
        variants: Vec<String>,
        attrs: Vec<AttrNode>,
    },
    Trait { name: String, vis: VisNode, generics: Vec<GenericParamNode>, members: Vec<MemberNode> },
    Fn {
        name: String,
        vis: VisNode,
        is_async: bool,
        is_const: bool,
        is_unsafe: bool,
        generics: Vec<GenericParamNode>,
        inputs: Vec<FnArgNode>,
        output: Option<String>,
    },
    Impl { trait_path: Option<PathNode>, self_ty: String, members: Vec<MemberNode> },
    Mod { name: String, vis: VisNode },
    Use { tree: UseNode },
    Const { name: String, vis: VisNode, ty: String },
    Type { name: String, vis: VisNode },
    /// Any other kind of item (macros, statics, extern blocks, ...).
    Other,
}

} // verus!
