//! The flat expansion: a case-insensitive keyword matcher over the fieldless
//! variants of an enum, or over the name of a fieldless struct.

use crate::constructor::{Constructor, Either, FieldsExt};
use crate::decl::{Data, DataStruct, TypeDecl, Variant};
use crate::error::ExpandError;
use crate::text::{lower_of, lowercase};
use vstd::prelude::*;

verus! {

/// How many entries of `s` equal `l`.
pub open spec fn count_of(s: Seq<Seq<char>>, l: Seq<char>) -> nat
    decreases s.len(),
{
    if s.len() == 0 {
        0
    } else {
        count_of(s.drop_last(), l) + if s.last() == l {
            1nat
        } else {
            0nat
        }
    }
}

/// The text of each string of `v`.
pub open spec fn texts(v: Seq<String>) -> Seq<Seq<char>> {
    v.map_values(|x: String| x@)
}

/// The collision count of each entry of `lowered`: how many entries share
/// its text.
pub fn collision_counts(lowered: &Vec<String>) -> (r: Vec<usize>)
    ensures
        r@.len() == lowered@.len(),
        forall|i: int|
            0 <= i < r@.len() ==> r@[i] == count_of(texts(lowered@), #[trigger] lowered@[i]@),
{
    let ghost ls = texts(lowered@);
    let mut counts: Vec<usize> = Vec::new();
    let mut i: usize = 0;
    while i < lowered.len()
        invariant
            i <= lowered@.len(),
            ls == texts(lowered@),
            counts@.len() == i,
            forall|k: int| 0 <= k < i ==> counts@[k] == count_of(ls, #[trigger] lowered@[k]@),
        decreases lowered@.len() - i,
    {
        let mut c: usize = 0;
        let mut j: usize = 0;
        while j < lowered.len()
            invariant
                i < lowered@.len(),
                j <= lowered@.len(),
                ls == texts(lowered@),
                c <= j,
                c == count_of(ls.take(j as int), lowered@[i as int]@),
            decreases lowered@.len() - j,
        {
            proof {
                assert(ls.take(j + 1).drop_last() =~= ls.take(j as int));
            }
            if lowered[j] == lowered[i] {
                c = c + 1;
            }
            j = j + 1;
        }
        proof {
            assert(ls.take(j as int) =~= ls);
        }
        counts.push(c);
        i = i + 1;
    }
    counts
}


/// One arm of the generated matcher: the lowercase keyword, the exact
/// spelling that is also required when the keyword is shared, and the value
/// that the arm produces.
pub struct MatchArm {
    pub lowercased: String,
    pub exact_guard: Option<String>,
    pub constructor: Constructor,
}

/// The planned matcher: the name of the type, which its error reports, and
/// the arms, tried in order.
pub struct FlatImpl {
    pub ty_name: String,
    pub arms: Vec<MatchArm>,
}

/// The error of the generated matcher: no keyword matched. It names the type.
pub struct NotRecognized {
    pub ty_name: String,
}

/// The arm `a` accepts the input `s`, whose lowercase form is `ls`.
pub open spec fn accepts(a: MatchArm, s: Seq<char>, ls: Seq<char>) -> bool {
    &&& a.lowercased@ == ls
    &&& a.exact_guard matches Some(g) ==> g@ == s
}

/// The index of the first arm, from `i` on, that accepts `s`.
pub open spec fn first_from(arms: Seq<MatchArm>, s: Seq<char>, ls: Seq<char>, i: int) -> Option<int>
    decreases arms.len() - i,
    when 0 <= i
{
    if i >= arms.len() {
        None
    } else if accepts(arms[i], s, ls) {
        Some(i)
    } else {
        first_from(arms, s, ls, i + 1)
    }
}

/// The arm that the generated matcher selects for `s`: the first that
/// accepts it, where the input is lowercased once.
pub open spec fn selected(arms: Seq<MatchArm>, s: Seq<char>) -> Option<int> {
    first_from(arms, s, lower_of(s), 0)
}

impl FlatImpl {
    /// Runs the matcher on `s`, whose lowercase form is given as `lowered`:
    /// the index of the first arm that accepts it, or an error naming the
    /// type.
    pub fn parse_lowered(&self, s: &str, lowered: &str) -> (r: Result<usize, NotRecognized>)
        ensures
            match first_from(self.arms@, s@, lowered@, 0) {
                Some(i) => r == Ok::<usize, NotRecognized>(i as usize),
                None => r matches Err(e) && e.ty_name@ == self.ty_name@,
            },
    {
        let s_text = s.to_owned();
        let l_text = lowered.to_owned();
        let mut i: usize = 0;
        while i < self.arms.len()
            invariant
                i <= self.arms@.len(),
                s_text@ == s@,
                l_text@ == lowered@,
                first_from(self.arms@, s@, lowered@, 0) == first_from(self.arms@, s@, lowered@, i as int),
            decreases self.arms@.len() - i,
        {
            let arm = &self.arms[i];
            let guard_ok = match &arm.exact_guard {
                Some(g) => *g == s_text,
                None => true,
            };
            if arm.lowercased == l_text && guard_ok {
                return Ok(i);
            }
            i = i + 1;
        }
        Err(NotRecognized { ty_name: self.ty_name.clone() })
    }

    /// Runs the matcher on `s`: the index of the arm that it selects, or an
    /// error naming the type.
    pub fn parse(&self, s: &str) -> (r: Result<usize, NotRecognized>)
        ensures
            match selected(self.arms@, s@) {
                Some(i) => r == Ok::<usize, NotRecognized>(i as usize),
                None => r matches Err(e) && e.ty_name@ == self.ty_name@,
            },
    {
        let lowered = lowercase(s);
        self.parse_lowered(s, lowered.as_str())
    }
}

/// The flat expansion of a declaration: the keywords with the value that each
/// one stands for, a variant or the struct itself.
pub struct FlatExpansion<'i> {
    /// The name of the type and the number of its generic parameters.
    pub self_ty: (&'i String, usize),
    /// Each keyword with what it produces, in declaration order.
    pub matches: Vec<(&'i String, Either<&'i DataStruct, &'i Variant>)>,
}

/// `i` is the index of the first variant of `vs` that has fields.
pub open spec fn first_with_fields(vs: Seq<Variant>, i: int) -> bool {
    &&& 0 <= i < vs.len()
    &&& vs[i].fields.spec_len() > 0
    &&& forall|j: int| 0 <= j < i ==> (#[trigger] vs[j]).fields.spec_len() == 0
}

/// Every variant of `vs` is fieldless.
pub open spec fn all_fieldless(vs: Seq<Variant>) -> bool {
    forall|j: int| 0 <= j < vs.len() ==> (#[trigger] vs[j]).fields.spec_len() == 0
}

/// The keywords of a declaration that the flat expansion matches: the name
/// of a struct, or the name of each variant of an enum.
pub open spec fn keywords(d: TypeDecl) -> Seq<String> {
    match d.data {
        Data::Struct(_) => seq![d.ident],
        Data::Enum(vs) => vs@.map_values(|v: Variant| v.ident),
        Data::Union => Seq::empty(),
    }
}

/// The lowercase form of each keyword.
pub open spec fn lowered_keywords(kw: Seq<String>) -> Seq<Seq<char>> {
    kw.map_values(|k: String| lower_of(k@))
}

/// The guard of the arm for keyword `i`: its exact spelling when its
/// lowercase form is shared with another keyword, else none.
pub open spec fn guard_of(kw: Seq<String>, i: int) -> Option<String> {
    if count_of(lowered_keywords(kw), lower_of(kw[i]@)) > 1 {
        Some(kw[i])
    } else {
        None
    }
}

impl<'i> FlatExpansion<'i> {
    /// The keywords, in order.
    pub open spec fn keywords(&self) -> Seq<String> {
        self.matches@.map_values(|m: (&'i String, Either<&'i DataStruct, &'i Variant>)| *m.0)
    }

    /// This is the flat expansion of `d`.
    pub open spec fn expands(&self, d: &'i TypeDecl) -> bool {
        &&& *self.self_ty.0 == d.ident
        &&& self.self_ty.1 == d.generic_params
        &&& self.keywords() == keywords(*d)
        &&& match d.data {
            Data::Struct(s) => self.matches@.len() == 1 && self.matches@[0].1 == Either::<
                &DataStruct,
                &Variant,
            >::Left(&s),
            Data::Enum(vs) => self.matches@.len() == vs@.len() && forall|i: int|
                0 <= i < vs@.len() ==> (#[trigger] self.matches@[i]).1 == Either::<
                    &DataStruct,
                    &Variant,
                >::Right(&vs@[i]),
            Data::Union => false,
        }
    }

    /// Every value that a keyword produces is fieldless.
    pub open spec fn fieldless(&self) -> bool {
        forall|i: int| 0 <= i < self.matches@.len() ==> (#[trigger] self.matches@[i]).1.arity() == 0
    }

    /// `arms` is the matcher of this expansion: one arm per keyword, in
    /// order, testing its lowercase form, guarded by its exact spelling when
    /// that lowercase form is shared, and producing its value.
    pub open spec fn plans(&self, arms: Seq<MatchArm>) -> bool {
        let kw = self.keywords();
        &&& arms.len() == kw.len()
        &&& forall|i: int|
            0 <= i < arms.len() ==> {
                &&& (#[trigger] arms[i]).lowercased@ == lower_of(kw[i]@)
                &&& arms[i].exact_guard == guard_of(kw, i)
                &&& self.matches@[i].1.is_ctor(
                    self.matches@[i].1.self_path(),
                    Seq::empty(),
                    arms[i].constructor,
                )
            }
    }

    /// Plans the generated matcher: lowercases every keyword, counts how
    /// often each lowercase form occurs, and emits one arm per keyword.
    pub fn to_impl(&self) -> (r: FlatImpl)
        requires
            self.fieldless(),
        ensures
            r.ty_name == *self.self_ty.0,
            self.plans(r.arms@),
    {
        let ghost kw = self.keywords();
        let mut lowered: Vec<String> = Vec::new();
        let mut i: usize = 0;
        while i < self.matches.len()
            invariant
                kw == self.keywords(),
                i <= self.matches@.len(),
                lowered@.len() == i,
                forall|j: int| 0 <= j < i ==> (#[trigger] lowered@[j])@ == lower_of(kw[j]@),
            decreases self.matches@.len() - i,
        {
            lowered.push(lowercase(self.matches[i].0.as_str()));
            i = i + 1;
        }
        proof {
            assert(texts(lowered@) =~= lowered_keywords(kw));
        }
        let counts = collision_counts(&lowered);
        let mut arms: Vec<MatchArm> = Vec::new();
        let mut i: usize = 0;
        while i < self.matches.len()
            invariant
                kw == self.keywords(),
                self.fieldless(),
                i <= self.matches@.len(),
                lowered@.len() == self.matches@.len(),
                counts@.len() == self.matches@.len(),
                texts(lowered@) == lowered_keywords(kw),
                forall|j: int|
                    0 <= j < lowered@.len() ==> (#[trigger] lowered@[j])@ == lower_of(kw[j]@),
                forall|j: int|
                    0 <= j < counts@.len() ==> counts@[j] == count_of(
                        texts(lowered@),
                        #[trigger] lowered@[j]@,
                    ),
                arms@.len() == i,
                forall|j: int|
                    0 <= j < i ==> {
                        &&& (#[trigger] arms@[j]).lowercased@ == lower_of(kw[j]@)
                        &&& arms@[j].exact_guard == guard_of(kw, j)
                        &&& self.matches@[j].1.is_ctor(
                            self.matches@[j].1.self_path(),
                            Seq::empty(),
                            arms@[j].constructor,
                        )
                    },
            decreases self.matches@.len() - i,
        {
            let entry = &self.matches[i];
            let exact_guard = if counts[i] > 1 {
                Some(entry.0.clone())
            } else {
                None
            };
            let constructor = entry.1.self_constructor_empty();
            arms.push(MatchArm { lowercased: lowered[i].clone(), exact_guard, constructor });
            i = i + 1;
        }
        FlatImpl { ty_name: self.self_ty.0.clone(), arms }
    }

    /// Collects the keywords of a fieldless struct, or of an enum whose
    /// variants are all fieldless.
    pub fn try_from(input: &'i TypeDecl) -> (r: Result<Self, ExpandError>)
        ensures
            match input.data {
                Data::Struct(s) => if s.fields.spec_len() == 0 {
                    r is Ok
                } else {
                    r == Err::<Self, ExpandError>(ExpandError::StructFields)
                },
                Data::Enum(vs) => if all_fieldless(vs@) {
                    r is Ok
                } else {
                    exists|i: int|
                        first_with_fields(vs@, i) && r == Err::<Self, ExpandError>(
                            ExpandError::VariantFields(i as usize),
                        )
                },
                Data::Union => r == Err::<Self, ExpandError>(ExpandError::Union),
            },
            r matches Ok(e) ==> e.expands(input) && e.fieldless(),
    {
        match &input.data {
            Data::Struct(data) => {
                if !data.fields.is_empty() {
                    return Err(ExpandError::StructFields);
                }
                let mut matches: Vec<(&'i String, Either<&'i DataStruct, &'i Variant>)> =
                    Vec::new();
                matches.push((&input.ident, Either::Left(data)));
                let r = FlatExpansion { self_ty: (&input.ident, input.generic_params), matches };
                proof {
                    assert(r.keywords() =~= keywords(*input));
                }
                Ok(r)
            },
            Data::Enum(variants) => {
                let mut matches: Vec<(&'i String, Either<&'i DataStruct, &'i Variant>)> =
                    Vec::new();
                let mut i: usize = 0;
                while i < variants.len()
                    invariant
                        input.data == Data::Enum(*variants),
                        i <= variants@.len(),
                        matches@.len() == i,
                        all_fieldless(variants@.take(i as int)),
                        forall|j: int|
                            0 <= j < i ==> *(#[trigger] matches@[j]).0 == variants@[j].ident
                                && matches@[j].1 == Either::<&DataStruct, &Variant>::Right(
                                &variants@[j],
                            ),
                    decreases variants@.len() - i,
                {
                    let variant = &variants[i];
                    if !variant.fields.is_empty() {
                        proof {
                            assert(first_with_fields(variants@, i as int)) by {
                                assert forall|j: int| 0 <= j < i implies (
                                #[trigger] variants@[j]).fields.spec_len() == 0 by {
                                    assert(variants@.take(i as int)[j] == variants@[j]);
                                }
                            }
                        }
                        return Err(ExpandError::VariantFields(i));
                    }
                    matches.push((&variant.ident, Either::Right(variant)));
                    proof {
                        assert forall|j: int| 0 <= j < i + 1 implies (
                        #[trigger] variants@.take(i + 1)[j]).fields.spec_len() == 0 by {
                            if j < i {
                                assert(variants@.take(i as int)[j] == variants@[j]);
                            }
                        }
                    }
                    i = i + 1;
                }
                let r = FlatExpansion { self_ty: (&input.ident, input.generic_params), matches };
                proof {
                    assert(variants@.take(i as int) =~= variants@);
                    assert(r.keywords() =~= keywords(*input));
                }
                Ok(r)
            },
            Data::Union => Err(ExpandError::Union),
        }
    }
}

} // verus!
