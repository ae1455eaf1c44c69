//! The shape classifier: picks the expansion that a declaration's shape calls
//! for, or rejects the shape.

use crate::constructor::{fields_ctor, Constructor, CtorPath, FieldsExt};
use crate::decl::{Data, TypeDecl};
use crate::error::ExpandError;
use crate::flat::{all_fieldless, first_with_fields, guard_of, keywords, FlatExpansion, FlatImpl};
use crate::forward::{ForwardExpansion, ForwardImpl};
use crate::text::lower_of;
use vstd::prelude::*;

verus! {

/// What a declaration expands to.
pub enum Expansion {
    /// A parser that forwards to the single field's own parser.
    Forward(ForwardImpl),
    /// A case-insensitive keyword matcher.
    Flat(FlatImpl),
}

/// `c` is the fieldless constructor of keyword `i` of `d`: `Self` for a
/// struct, `Self::Variant` for the variant at `i`.
pub open spec fn entry_ctor(d: TypeDecl, i: int, c: Constructor) -> bool {
    match d.data {
        Data::Struct(s) => fields_ctor(s.fields, CtorPath::SelfTy, Seq::empty(), c),
        Data::Enum(vs) => fields_ctor(
            vs@[i].fields,
            CtorPath::SelfVariant(vs@[i].ident),
            Seq::empty(),
            c,
        ),
        Data::Union => false,
    }
}

/// `f` is the flat matcher of `d`: one arm per keyword, in declaration order,
/// each testing the keyword's lowercase form, guarded by its exact spelling
/// where that form is shared, and producing the keyword's value.
pub open spec fn flat_plan(d: TypeDecl, f: FlatImpl) -> bool {
    let kw = keywords(d);
    &&& f.ty_name == d.ident
    &&& f.arms@.len() == kw.len()
    &&& forall|i: int|
        0 <= i < kw.len() ==> {
            &&& (#[trigger] f.arms@[i]).lowercased@ == lower_of(kw[i]@)
            &&& f.arms@[i].exact_guard == guard_of(kw, i)
            &&& entry_ctor(d, i, f.arms@[i].constructor)
        }
}

/// `g` is the forwarding parser of the single-field struct `d`: it parses
/// as the field's type, requires that type to be parseable where `d` is
/// generic, and wraps the value bound as `v` in the field.
pub open spec fn forward_plan(d: TypeDecl, g: ForwardImpl) -> bool {
    &&& d.data matches Data::Struct(s)
    &&& s.fields.spec_len() == 1
    &&& g.ty_name == d.ident
    &&& g.inner_ty == s.fields.spec_field(0).ty
    &&& g.inner_bound == (d.generic_params != 0)
    &&& g.binding@ == "v"@
    &&& s.fields.spec_field(0).is_ctor(CtorPath::SelfTy, seq![g.binding], g.constructor)
}

/// `r` is what `d` expands to: a fieldless struct or an enum of fieldless
/// variants gives a flat matcher, a single-field struct a forwarding parser;
/// a struct of more fields, an enum with a variant that has fields (the first
/// such is named) and a union are rejected.
pub open spec fn expansion_of(d: TypeDecl, r: Result<Expansion, ExpandError>) -> bool {
    match d.data {
        Data::Struct(s) => if s.fields.spec_len() == 0 {
            r matches Ok(Expansion::Flat(f)) && flat_plan(d, f)
        } else if s.fields.spec_len() == 1 {
            r matches Ok(Expansion::Forward(g)) && forward_plan(d, g)
        } else {
            r == Err::<Expansion, ExpandError>(ExpandError::StructFields)
        },
        Data::Enum(vs) => if all_fieldless(vs@) {
            r matches Ok(Expansion::Flat(f)) && flat_plan(d, f)
        } else {
            exists|i: int|
                first_with_fields(vs@, i) && r == Err::<Expansion, ExpandError>(
                    ExpandError::VariantFields(i as usize),
                )
        },
        Data::Union => r == Err::<Expansion, ExpandError>(ExpandError::Union),
    }
}

/// Expands a `FromStr` derive on `input`.
pub fn expand(input: &TypeDecl) -> (r: Result<Expansion, ExpandError>)
    ensures
        expansion_of(*input, r),
{
    match &input.data {
        Data::Struct(data) => {
            if data.fields.is_empty() {
                match FlatExpansion::try_from(input) {
                    Ok(e) => Ok(Expansion::Flat(e.to_impl())),
                    Err(err) => Err(err),
                }
            } else {
                match ForwardExpansion::try_from(input) {
                    Ok(e) => Ok(Expansion::Forward(e.to_impl())),
                    Err(err) => Err(err),
                }
            }
        },
        Data::Enum(_) => match FlatExpansion::try_from(input) {
            Ok(e) => Ok(Expansion::Flat(e.to_impl())),
            Err(err) => Err(err),
        },
        Data::Union => Err(ExpandError::Union),
    }
}

} // verus!
