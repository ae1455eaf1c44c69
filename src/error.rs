//! What goes wrong at expansion time, and at the time the generated code runs.

use vstd::prelude::*;

verus! {

/// A declaration whose shape this expansion does not support. Each variant
/// names the syntax that the diagnostic is anchored at.
#[derive(Debug, PartialEq, Eq, Structural)]
pub enum ExpandError {
    /// A struct with two or more fields; anchored at its field list.
    StructFields,
    /// An enum variant with fields; anchored at the field list of the variant
    /// at this index.
    VariantFields(usize),
    /// A union; anchored at the `union` keyword.
    Union,
    /// A declaration other than a struct where a struct is required;
    /// anchored at the whole declaration.
    ExpectedStruct,
}

impl ExpandError {
    /// The message of the diagnostic.
    pub fn message(&self) -> (r: &'static str)
        ensures
            r@ == match self {
                ExpandError::StructFields => "struct must have zero or exactly one field"@,
                ExpandError::VariantFields(_) => "enum variants must have no fields"@,
                ExpandError::Union => "unions are not supported"@,
                ExpandError::ExpectedStruct => "expected a struct for forward `FromStr` derive"@,
            },
    {
        match self {
            ExpandError::StructFields => "struct must have zero or exactly one field",
            ExpandError::VariantFields(_) => "enum variants must have no fields",
            ExpandError::Union => "unions are not supported",
            ExpandError::ExpectedStruct => "expected a struct for forward `FromStr` derive",
        }
    }
}

} // verus!
