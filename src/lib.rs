//! Editor backend for Tekton pipeline definitions.
//!
//! The core is the store of open documents with its line-based edits
//! (`document`), the error-tolerant parser into a range-annotated tree
//! (`parser`, `ast`), and the workspace index of resource definitions and
//! references (`workspace`). The feature providers (`completion`, `hover`,
//! `definition`, `symbols`, `formatting`, `validator`, `actions`) are
//! functions over those.

pub mod actions;
pub mod ast;
pub mod definition;
pub mod docs;
pub mod completion;
pub mod document;
pub mod formatting;
pub mod hover;
pub mod lines;
pub mod parser;
pub mod position;
pub mod symbols;
pub mod syntax;
pub mod text;
pub mod validator;
pub mod workspace;

pub use ast::{Node, NodeValue, SyntaxDiagnostic, YamlDocument};
pub use position::{Position, Range};
