//! Build-time documentation metadata for record types.
//!
//! Given the raw attribute tokens attached to a type and to each of its
//! fields, this crate classifies the tokens that encode documentation
//! lines, assembles immutable descriptors of the type's shape, and renders
//! a canonical textual reconstruction of the documented declaration.

pub mod classify;
pub mod descriptor;
pub mod render;

pub use classify::classify_tokens;
pub use classify::filter_docs;
pub use descriptor::FieldDescriptor;
pub use descriptor::TypeDescriptor;
pub use render::DocumentedStruct;
pub use render::FormatError;
pub use render::commented_fields_from;
