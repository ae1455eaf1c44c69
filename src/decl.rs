//! The shape of a type declaration, as the expansion reads it.

use vstd::prelude::*;

verus! {

/// A single field: its identifier (absent for a positional field) and the
/// text of its type.
pub struct Field {
    pub ident: Option<String>,
    pub ty: String,
}

/// A field of a `{ .. }` field list.
pub struct NamedField {
    pub ident: String,
    pub ty: String,
}

/// The fields of a struct or of an enum variant.
pub enum Fields {
    /// `{ a: A, b: B }`
    Named(Vec<NamedField>),
    /// `(A, B)`, by the text of each type.
    Unnamed(Vec<String>),
    /// No fields at all.
    Unit,
}

/// An enum variant: its identifier and its fields.
pub struct Variant {
    pub ident: String,
    pub fields: Fields,
}

/// The body of a struct.
pub struct DataStruct {
    pub fields: Fields,
}

/// The body of a declaration.
pub enum Data {
    Struct(DataStruct),
    Enum(Vec<Variant>),
    Union,
}

/// A type declaration: its name, the number of its generic parameters, and
/// its body.
pub struct TypeDecl {
    pub ident: String,
    pub generic_params: usize,
    pub data: Data,
}

impl Fields {
    /// The number of fields.
    pub open spec fn spec_len(&self) -> nat {
        match self {
            Fields::Named(v) => v@.len(),
            Fields::Unnamed(v) => v@.len(),
            Fields::Unit => 0,
        }
    }

    pub fn len(&self) -> (r: usize)
        ensures
            r == self.spec_len(),
    {
        match self {
            Fields::Named(v) => v.len(),
            Fields::Unnamed(v) => v.len(),
            Fields::Unit => 0,
        }
    }

    pub fn is_empty(&self) -> (r: bool)
        ensures
            r == (self.spec_len() == 0),
    {
        self.len() == 0
    }

    /// The field at `i`, as a standalone field.
    pub open spec fn spec_field(&self, i: int) -> Field {
        match self {
            Fields::Named(v) => Field { ident: Some(v@[i].ident), ty: v@[i].ty },
            Fields::Unnamed(v) => Field { ident: None, ty: v@[i] },
            Fields::Unit => Field { ident: None, ty: arbitrary() },
        }
    }

    /// The first field, if there is one.
    pub fn first(&self) -> (r: Option<Field>)
        ensures
            self.spec_len() == 0 <==> r is None,
            r matches Some(f) ==> f == self.spec_field(0),
    {
        match self {
            Fields::Named(v) => {
                if v.len() == 0 {
                    None
                } else {
                    Some(Field { ident: Some(v[0].ident.clone()), ty: v[0].ty.clone() })
                }
            },
            Fields::Unnamed(v) => {
                if v.len() == 0 {
                    None
                } else {
                    Some(Field { ident: None, ty: v[0].clone() })
                }
            },
            Fields::Unit => None,
        }
    }
}

} // verus!
