//! Generator of builder types for records with named fields.

pub mod annotation;
pub mod classify;
pub mod derive;
pub mod ident;
pub mod laws;
pub mod machine;
pub mod plan;
pub mod scheme;
pub mod syntax;
pub mod text;
