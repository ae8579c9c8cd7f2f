//! Structural metadata extraction for Rust source files.
//!
//! The library holds the metadata model, the extractors that fill it (an
//! exact one over a parsed syntax model; heuristic ones over raw text, by
//! regular expressions or line by line) and a serializer that renders the
//! model as a JSON document.
pub mod exact;
pub mod heuristic;
pub mod json;
pub mod scan;
pub mod schema;
pub mod syntax;
mod text;

pub use exact::parse_with_syn;
pub use heuristic::parse_with_regex;
pub use json::{error_json, ExtractorTier};
pub use scan::scan_lines;
pub use schema::{
    ConstantInfo, EnumInfo, FieldInfo, FunctionInfo, ImplInfo, ModuleInfo, ParamInfo, RustMetadata,
    StructInfo, TraitInfo, TypeInfo,
};
