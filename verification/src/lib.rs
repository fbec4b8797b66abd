pub mod strings;
pub mod element_kind;
pub mod kind_names;
pub mod ordered_map;
pub mod model;
pub mod format;
pub mod jsonld;
pub mod xmi;
pub mod syntax_kind;
pub mod syntax;
pub mod ast_names;
pub mod ast_elements;
pub mod ast_namespace;
pub mod source_map;
pub mod parser;
pub mod steps;
pub mod expr;
pub mod sysml_keywords;
pub mod sysml_members;
pub mod json;
pub mod xmi_attrs;
pub mod xmi_writer;
pub mod xmi_reader;
pub mod roundtrip;
pub mod model_laws;
pub mod symbols;
