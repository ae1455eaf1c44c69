//! The forward expansion: a single-field struct parses as its field does.

use crate::constructor::{Constructor, FieldsExt, Init};
use crate::decl::{Data, Field, TypeDecl};
use crate::error::ExpandError;
use vstd::prelude::*;

verus! {

/// The forward expansion of a single-field struct.
pub struct ForwardExpansion<'i> {
    /// The name of the struct and the number of its generic parameters.
    pub self_ty: (&'i String, usize),
    /// The field that parsing is forwarded to.
    pub inner: Field,
}

/// The planned forwarding implementation.
pub struct ForwardImpl {
    /// The name of the struct.
    pub ty_name: String,
    /// The text of the inner field's type, whose parser and error are used.
    pub inner_ty: String,
    /// Whether the implementation requires the inner type to be parseable:
    /// exactly when the struct has generic parameters.
    pub inner_bound: bool,
    /// The identifier that the parsed inner value is bound to.
    pub binding: String,
    /// The constructor that wraps the parsed value, given by its binding.
    pub constructor: Constructor,
}

/// The struct value that the generated parser yields: the parsed inner value,
/// under the field's identifier or in the first position.
pub struct Wrapped<T> {
    pub field: Option<String>,
    pub value: T,
}

/// The field identifier that the single-value constructor `c` writes, if any.
pub open spec fn ctor_field(c: Constructor) -> Option<String> {
    match c.init {
        Init::Named(ps) => if ps@.len() > 0 {
            Some(ps@[0].0)
        } else {
            None
        },
        _ => None,
    }
}

impl<'i> ForwardExpansion<'i> {
    /// This is the forward expansion of `d`.
    pub open spec fn expands(&self, d: &'i TypeDecl) -> bool {
        &&& *self.self_ty.0 == d.ident
        &&& self.self_ty.1 == d.generic_params
        &&& d.data matches Data::Struct(s) && s.fields.spec_len() == 1 && self.inner
            == s.fields.spec_field(0)
    }

    /// Takes the single field of a struct.
    pub fn try_from(input: &'i TypeDecl) -> (r: Result<Self, ExpandError>)
        ensures
            match input.data {
                Data::Struct(s) => if s.fields.spec_len() == 1 {
                    r is Ok
                } else {
                    r == Err::<Self, ExpandError>(ExpandError::StructFields)
                },
                _ => r == Err::<Self, ExpandError>(ExpandError::ExpectedStruct),
            },
            r matches Ok(e) ==> e.expands(input),
    {
        let data = match &input.data {
            Data::Struct(data) => data,
            _ => {
                return Err(ExpandError::ExpectedStruct);
            },
        };
        if data.fields.len() != 1 {
            return Err(ExpandError::StructFields);
        }
        match data.fields.first() {
            Some(inner) => Ok(ForwardExpansion { self_ty: (&input.ident, input.generic_params), inner }),
            None => Err(ExpandError::StructFields),
        }
    }

    /// Plans the forwarding implementation: the bound on the inner type where
    /// the struct is generic, and the constructor around the parsed value.
    pub fn to_impl(&self) -> (r: ForwardImpl)
        ensures
            r.ty_name == *self.self_ty.0,
            r.inner_ty == self.inner.ty,
            r.inner_bound == (self.self_ty.1 != 0),
            r.binding@ == "v"@,
            self.inner.is_ctor(self.inner.self_path(), seq![r.binding], r.constructor),
            r.constructor.path == self.inner.self_path(),
    {
        let binding = "v".to_owned();
        let mut values: Vec<String> = Vec::new();
        values.push(binding.clone());
        proof {
            assert(values@ =~= seq![binding]);
        }
        let constructor = self.inner.self_constructor(values);
        ForwardImpl {
            ty_name: self.self_ty.0.clone(),
            inner_ty: self.inner.ty.clone(),
            inner_bound: self.self_ty.1 != 0,
            binding,
            constructor,
        }
    }
}

impl ForwardImpl {
    /// Runs the generated parser, given what the inner type's own parser
    /// returned on the same text: its value wrapped, or its error as it is.
    pub fn parse_with<T, E>(&self, inner: Result<T, E>) -> (r: Result<Wrapped<T>, E>)
        ensures
            inner is Ok <==> r is Ok,
            inner matches Ok(v) ==> r matches Ok(w) && w.value == v && w.field == ctor_field(
                self.constructor,
            ),
            inner matches Err(e) ==> r matches Err(e2) && e2 == e,
    {
        match inner {
            Ok(v) => {
                let field = match &self.constructor.init {
                    Init::Named(ps) => {
                        if ps.len() == 0 {
                            None
                        } else {
                            Some(ps[0].0.clone())
                        }
                    },
                    _ => None,
                };
                Ok(Wrapped { field, value: v })
            },
            Err(e) => Err(e),
        }
    }
}

} // verus!
