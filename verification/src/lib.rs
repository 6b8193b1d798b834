//! Language-server logic for HLSL, Unity ShaderLab and Unreal shader sources.
pub mod text;
pub mod strops;
pub mod splits;
pub mod context;
pub mod cursor;
pub mod lexer;
pub mod decls;
pub mod structs;
pub mod props;
pub mod lists;
pub mod functions;
pub mod variables;
pub mod infer;
pub mod diagnostics;
pub mod render_states;
pub mod tags;
pub mod numbers;
pub mod property_checks;
pub mod uris;
pub mod dxc_output;
pub mod validation;
pub mod docs;
pub mod builtin_table;
pub mod engine_table;
pub mod pragmas;
pub mod includes;
pub mod format;
pub mod symbols;
pub mod laws;
pub mod help;
pub mod semantics;
pub mod hover;
pub mod definition;
pub mod completion;
pub mod word_tables;
pub mod completion_words;
pub mod completion_members;
pub mod shaderlab_tables;
pub mod completion_shaderlab;
pub mod completion_request;
pub mod install;
pub mod include_paths;
pub mod format_laws;
pub mod feature_laws;
