//! Building the expression that constructs a value of a given shape from the
//! bound temporaries that hold its field values.

use crate::decl::{DataStruct, Field, Fields, Variant};
use vstd::prelude::*;

verus! {

/// The path that a constructor expression names.
pub enum CtorPath {
    /// `Self`
    SelfTy,
    /// `Self::Variant`
    SelfVariant(String),
}

/// How the field values follow the path in a constructor expression.
pub enum Init {
    /// Nothing: `Self`.
    Bare,
    /// `Self(v0, v1, ..)`, by the bound identifiers.
    Positional(Vec<String>),
    /// `Self { a: v0, b: v1, .. }`, by field identifier and bound identifier.
    Named(Vec<(String, String)>),
}

/// A constructor expression: a path and its field initializers.
pub struct Constructor {
    pub path: CtorPath,
    pub init: Init,
}

/// One of two things that can both build a constructor.
pub enum Either<L, R> {
    Left(L),
    Right(R),
}

/// `c` is the constructor at `path` of the field list `fields`, whose values
/// are the identifiers `values`, in order.
pub open spec fn fields_ctor(fields: Fields, path: CtorPath, values: Seq<String>, c: Constructor) -> bool {
    &&& c.path == path
    &&& match fields {
        Fields::Unit => c.init is Bare,
        Fields::Unnamed(_) => c.init matches Init::Positional(vs) && vs@ == values,
        Fields::Named(fs) => c.init matches Init::Named(ps) && ps@.len() == fs@.len() && (
        forall|i: int|
            0 <= i < fs@.len() ==> (#[trigger] ps@[i]).0 == fs@[i].ident && ps@[i].1 == values[i]),
    }
}

/// Something that knows its own field shape and builds constructor
/// expressions for it.
pub trait FieldsExt {
    /// How many values a constructor of this takes.
    spec fn arity(&self) -> nat;

    /// The path of `Self` for this.
    spec fn self_path(&self) -> CtorPath;

    /// `c` is the constructor of this at `path`, with field values `values`.
    spec fn is_ctor(&self, path: CtorPath, values: Seq<String>, c: Constructor) -> bool;

    /// Builds the constructor of this at `name`, with the given values.
    fn constructor(&self, name: CtorPath, values: Vec<String>) -> (r: Constructor)
        requires
            values@.len() == self.arity(),
        ensures
            self.is_ctor(name, values@, r),
    ;

    /// The `Self` path of this: `Self`, or `Self::Variant` for a variant.
    fn self_ty(&self) -> (r: CtorPath)
        ensures
            r == self.self_path(),
    ;

    /// Builds the constructor of this at its `Self` path.
    fn self_constructor(&self, values: Vec<String>) -> (r: Constructor)
        requires
            values@.len() == self.arity(),
        ensures
            self.is_ctor(self.self_path(), values@, r),
    {
        let name = self.self_ty();
        self.constructor(name, values)
    }

    /// Builds the constructor of this at its `Self` path, with no values.
    fn self_constructor_empty(&self) -> (r: Constructor)
        requires
            self.arity() == 0,
        ensures
            self.is_ctor(self.self_path(), Seq::empty(), r),
    {
        let values: Vec<String> = Vec::new();
        proof {
            assert(values@ =~= Seq::<String>::empty());
        }
        self.self_constructor(values)
    }
}

impl FieldsExt for Fields {
    open spec fn arity(&self) -> nat {
        self.spec_len()
    }

    open spec fn self_path(&self) -> CtorPath {
        CtorPath::SelfTy
    }

    open spec fn is_ctor(&self, path: CtorPath, values: Seq<String>, c: Constructor) -> bool {
        fields_ctor(*self, path, values, c)
    }

    fn constructor(&self, name: CtorPath, values: Vec<String>) -> (r: Constructor) {
        match self {
            Fields::Named(fields) => {
                let mut inits: Vec<(String, String)> = Vec::new();
                let mut i: usize = 0;
                while i < fields.len()
                    invariant
                        i <= fields@.len(),
                        values@.len() == fields@.len(),
                        inits@.len() == i,
                        forall|j: int|
                            0 <= j < i ==> (#[trigger] inits@[j]).0 == fields@[j].ident
                                && inits@[j].1 == values@[j],
                    decreases fields@.len() - i,
                {
                    inits.push((fields[i].ident.clone(), values[i].clone()));
                    i = i + 1;
                }
                Constructor { path: name, init: Init::Named(inits) }
            },
            Fields::Unnamed(_) => Constructor { path: name, init: Init::Positional(values) },
            Fields::Unit => Constructor { path: name, init: Init::Bare },
        }
    }

    fn self_ty(&self) -> (r: CtorPath) {
        CtorPath::SelfTy
    }
}

impl FieldsExt for Field {
    open spec fn arity(&self) -> nat {
        1
    }

    open spec fn self_path(&self) -> CtorPath {
        CtorPath::SelfTy
    }

    open spec fn is_ctor(&self, path: CtorPath, values: Seq<String>, c: Constructor) -> bool {
        &&& c.path == path
        &&& match self.ident {
            Some(id) => c.init matches Init::Named(ps) && ps@ == seq![(id, values[0])],
            None => c.init matches Init::Positional(vs) && vs@ == seq![values[0]],
        }
    }

    fn constructor(&self, name: CtorPath, values: Vec<String>) -> (r: Constructor) {
        match &self.ident {
            Some(ident) => {
                let mut inits: Vec<(String, String)> = Vec::new();
                inits.push((ident.clone(), values[0].clone()));
                proof {
                    assert(inits@ =~= seq![(*ident, values@[0])]);
                }
                Constructor { path: name, init: Init::Named(inits) }
            },
            None => {
                proof {
                    assert(values@ =~= seq![values@[0]]);
                }
                Constructor { path: name, init: Init::Positional(values) }
            },
        }
    }

    fn self_ty(&self) -> (r: CtorPath) {
        CtorPath::SelfTy
    }
}

impl FieldsExt for Variant {
    open spec fn arity(&self) -> nat {
        self.fields.spec_len()
    }

    open spec fn self_path(&self) -> CtorPath {
        CtorPath::SelfVariant(self.ident)
    }

    open spec fn is_ctor(&self, path: CtorPath, values: Seq<String>, c: Constructor) -> bool {
        fields_ctor(self.fields, path, values, c)
    }

    fn constructor(&self, name: CtorPath, values: Vec<String>) -> (r: Constructor) {
        self.fields.constructor(name, values)
    }

    fn self_ty(&self) -> (r: CtorPath) {
        CtorPath::SelfVariant(self.ident.clone())
    }
}

impl FieldsExt for DataStruct {
    open spec fn arity(&self) -> nat {
        self.fields.spec_len()
    }

    open spec fn self_path(&self) -> CtorPath {
        CtorPath::SelfTy
    }

    open spec fn is_ctor(&self, path: CtorPath, values: Seq<String>, c: Constructor) -> bool {
        fields_ctor(self.fields, path, values, c)
    }

    fn constructor(&self, name: CtorPath, values: Vec<String>) -> (r: Constructor) {
        self.fields.constructor(name, values)
    }

    fn self_ty(&self) -> (r: CtorPath) {
        CtorPath::SelfTy
    }
}

impl<'a, L: FieldsExt, R: FieldsExt> FieldsExt for Either<&'a L, &'a R> {
    open spec fn arity(&self) -> nat {
        match self {
            Either::Left(l) => l.arity(),
            Either::Right(r) => r.arity(),
        }
    }

    open spec fn self_path(&self) -> CtorPath {
        match self {
            Either::Left(l) => l.self_path(),
            Either::Right(r) => r.self_path(),
        }
    }

    open spec fn is_ctor(&self, path: CtorPath, values: Seq<String>, c: Constructor) -> bool {
        match self {
            Either::Left(l) => l.is_ctor(path, values, c),
            Either::Right(r) => r.is_ctor(path, values, c),
        }
    }

    fn constructor(&self, name: CtorPath, values: Vec<String>) -> (r: Constructor) {
        match self {
            Either::Left(l) => l.constructor(name, values),
            Either::Right(r) => r.constructor(name, values),
        }
    }

    fn self_ty(&self) -> (r: CtorPath) {
        match self {
            Either::Left(l) => l.self_ty(),
            Either::Right(r) => r.self_ty(),
        }
    }
}

} // verus!
