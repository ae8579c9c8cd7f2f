//! The metadata model: one record of nine ordered collections, one per kind
//! of top-level declaration.
use vstd::prelude::*;

verus! {

/// A struct declaration.
#[derive(Debug, Clone)]
pub struct StructInfo {
    pub name: String,
    pub is_pub: bool,
    pub generics: Vec<String>,
    pub fields: Vec<FieldInfo>,
    pub derives: Vec<String>,
}

/// A field of a struct; a positional field is named by its index.
#[derive(Debug, Clone)]
pub struct FieldInfo {
    pub name: String,
    pub ty: String,
    pub is_pub: bool,
}

/// An enum declaration; only the variant names are kept.
#[derive(Debug, Clone)]
pub struct EnumInfo {
    pub name: String,
    pub is_pub: bool,
    pub generics: Vec<String>,
    pub variants: Vec<String>,
    pub derives: Vec<String>,
}

/// A trait declaration; only the method names are kept.
#[derive(Debug, Clone)]
pub struct TraitInfo {
    pub name: String,
    pub is_pub: bool,
    pub generics: Vec<String>,
    pub methods: Vec<String>,
}

/// A free function declaration.
#[derive(Debug, Clone)]
pub struct FunctionInfo {
    pub name: String,
    pub is_pub: bool,
    pub is_async: bool,
    pub is_const: bool,
    pub is_unsafe: bool,
    pub generics: Vec<String>,
    pub params: Vec<ParamInfo>,
    pub return_type: Option<String>,
}

/// A typed parameter of a function.
#[derive(Debug, Clone)]
pub struct ParamInfo {
    pub name: String,
    pub ty: String,
    pub is_mut: bool,
}

/// An impl block; `trait_name` is absent for an inherent impl.
#[derive(Debug, Clone)]
pub struct ImplInfo {
    pub trait_name: Option<String>,
    pub target_type: String,
    pub methods: Vec<String>,
}

/// A module declaration.
#[derive(Debug, Clone)]
pub struct ModuleInfo {
    pub name: String,
    pub is_pub: bool,
}

/// A constant declaration; the type is absent when it was not determined.
#[derive(Debug, Clone)]
pub struct ConstantInfo {
    pub name: String,
    pub is_pub: bool,
    pub ty: Option<String>,
}

/// A type alias declaration.
#[derive(Debug, Clone)]
pub struct TypeInfo {
    pub name: String,
    pub is_pub: bool,
}

/// Everything extracted from one source unit, each collection in source order.
#[derive(Debug, Clone)]
pub struct RustMetadata {
    pub structs: Vec<StructInfo>,
    pub enums: Vec<EnumInfo>,
    pub traits: Vec<TraitInfo>,
    pub functions: Vec<FunctionInfo>,
    pub impls: Vec<ImplInfo>,
    pub modules: Vec<ModuleInfo>,
    pub uses: Vec<String>,
    pub constants: Vec<ConstantInfo>,
    pub types: Vec<TypeInfo>,
}

impl RustMetadata {
    /// True when every collection is empty.
    pub open spec fn is_empty(&self) -> bool {
        &&& self.structs@.len() == 0
        &&& self.enums@.len() == 0
        &&& self.traits@.len() == 0
        &&& self.functions@.len() == 0
        &&& self.impls@.len() == 0
        &&& self.modules@.len() == 0
        &&& self.uses@.len() == 0
        &&& self.constants@.len() == 0
        &&& self.types@.len() == 0
    }

    /// A record with all nine collections empty.
    pub fn new() -> (r: Self)
        ensures
            r.is_empty(),
    {
        RustMetadata {
            structs: Vec::new(),
            enums: Vec::new(),
            traits: Vec::new(),
            functions: Vec::new(),
            impls: Vec::new(),
            modules: Vec::new(),
            uses: Vec::new(),
            constants: Vec::new(),
            types: Vec::new(),
        }
    }
}

} // verus!
