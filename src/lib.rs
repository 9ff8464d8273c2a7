//! Validation and code-generation planning for deriving a tag accessor on
//! enums with a primitive `#[repr(..)]` and explicit discriminants.
//!
//! The syntax tree of a declaration is reduced to the plain model in
//! [`model`]; [`derive::derive_discriminant_inner`] decides, for such a
//! model, which implementation to emit or which diagnostics to report.

pub mod derive;
pub mod diagnostic;
pub mod discriminant;
pub mod error;
pub mod laws;
pub mod layout;
pub mod model;
pub mod prim;
pub mod variants;

pub use derive::derive_discriminant_inner;
pub use diagnostic::{Anchor, Diagnostic};
pub use discriminant::Discriminant;
pub use error::DeriveError;
pub use layout::ReprHint;
pub use model::{Attr, EnumDecl, VariantDecl};
pub use prim::PrimInt;
