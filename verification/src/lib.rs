//! A compile-time visibility rewrite for structure declarations: given a
//! struct definition, produce the same definition with the struct's own
//! visibility and the visibility of every named field forced to `pub`.
//!
//! The rewrite itself is a pure function over a plain syntax model
//! ([`ast::StructDecl`]); parsing the model out of a token stream and
//! emitting tokens again lean on `syn` and `proc-macro2`.

pub mod ast;
pub mod bridge;
pub mod entry;
pub mod render;
pub mod rewrite;

pub use ast::FieldList;
pub use ast::NamedField;
pub use ast::RewriteError;
pub use ast::StructDecl;
pub use ast::TupleField;
pub use bridge::parse_struct_decl;
pub use entry::public_fields;
pub use entry::rewrite_source;
pub use render::render_struct;
pub use rewrite::make_public;
