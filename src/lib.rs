//! Expansion of a `FromStr` derive: classifies a type declaration by its shape
//! and plans either a forwarding implementation (a single-field struct) or a
//! flat, case-insensitive keyword matcher (a fieldless struct or an enum of
//! fieldless variants).

pub mod constructor;
pub mod decl;
pub mod error;
pub mod expand;
pub mod flat;
pub mod forward;
pub mod laws;
pub mod text;

pub use constructor::{Constructor, CtorPath, Either, FieldsExt, Init};
pub use decl::{Data, DataStruct, Field, Fields, NamedField, TypeDecl, Variant};
pub use error::ExpandError;
pub use expand::{expand, Expansion};
pub use flat::{collision_counts, FlatExpansion, FlatImpl, MatchArm, NotRecognized};
pub use forward::{ForwardExpansion, ForwardImpl, Wrapped};
