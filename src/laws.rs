//! What holds of every matcher and parser that the expansion generates.

use crate::decl::{Data, TypeDecl};
use crate::error::ExpandError;
use crate::expand::{expansion_of, Expansion};
use crate::forward::ctor_field;
use crate::flat::{
    accepts, all_fieldless, count_of, first_from, guard_of, keywords, lowered_keywords, selected,
    MatchArm,
};
use crate::text::lower_of;
use vstd::prelude::*;

verus! {

/// No two entries of `s` are equal.
pub open spec fn distinct(s: Seq<Seq<char>>) -> bool {
    forall|i: int, j: int| 0 <= i < s.len() && 0 <= j < s.len() && i != j ==> s[i] != s[j]
}

/// The text of each keyword.
pub open spec fn keyword_texts(d: TypeDecl) -> Seq<Seq<char>> {
    keywords(d).map_values(|k: String| k@)
}

proof fn lemma_count_absent(s: Seq<Seq<char>>, l: Seq<char>)
    requires
        forall|j: int| 0 <= j < s.len() ==> s[j] != l,
    ensures
        count_of(s, l) == 0,
    decreases s.len(),
{
    if s.len() > 0 {
        lemma_count_absent(s.drop_last(), l);
    }
}

proof fn lemma_count_unique(s: Seq<Seq<char>>, i: int)
    requires
        distinct(s),
        0 <= i < s.len(),
    ensures
        count_of(s, s[i]) == 1,
    decreases s.len(),
{
    let t = s.drop_last();
    if i == s.len() - 1 {
        lemma_count_absent(t, s[i]);
    } else {
        assert(distinct(t));
        lemma_count_unique(t, i);
    }
}

proof fn lemma_count_pair(s: Seq<Seq<char>>, l: Seq<char>, i: int, k: int)
    requires
        0 <= i < k < s.len(),
        s[i] == l,
        s[k] == l,
    ensures
        count_of(s, l) >= 2,
    decreases s.len(),
{
    let t = s.drop_last();
    if k == s.len() - 1 {
        lemma_count_present(t, l, i);
    } else {
        lemma_count_pair(t, l, i, k);
    }
}

proof fn lemma_count_present(s: Seq<Seq<char>>, l: Seq<char>, i: int)
    requires
        0 <= i < s.len(),
        s[i] == l,
    ensures
        count_of(s, l) >= 1,
    decreases s.len(),
{
    if i < s.len() - 1 {
        lemma_count_present(s.drop_last(), l, i);
    }
}

proof fn lemma_first_is(arms: Seq<MatchArm>, s: Seq<char>, ls: Seq<char>, k: int, i: int)
    requires
        0 <= k <= i < arms.len(),
        accepts(arms[i], s, ls),
        forall|j: int| k <= j < i ==> !accepts(#[trigger] arms[j], s, ls),
    ensures
        first_from(arms, s, ls, k) == Some(i),
    decreases i - k,
{
    if k < i {
        lemma_first_is(arms, s, ls, k + 1, i);
    }
}

proof fn lemma_first_none(arms: Seq<MatchArm>, s: Seq<char>, ls: Seq<char>, k: int)
    requires
        0 <= k <= arms.len(),
        forall|j: int| k <= j < arms.len() ==> !accepts(#[trigger] arms[j], s, ls),
    ensures
        first_from(arms, s, ls, k) is None,
    decreases arms.len() - k,
{
    if k < arms.len() {
        lemma_first_none(arms, s, ls, k + 1);
    }
}

/// An enum of fieldless variants whose names stay pairwise distinct when
/// lowercased expands to a matcher that takes every casing of each name to
/// that variant: any text whose lowercase form is that of the name.
pub proof fn distinct_names_match_any_casing(
    d: TypeDecl,
    r: Result<Expansion, ExpandError>,
    i: int,
    t: Seq<char>,
)
    requires
        d.data matches Data::Enum(vs) && all_fieldless(vs@),
        distinct(lowered_keywords(keywords(d))),
        expansion_of(d, r),
        0 <= i < keywords(d).len(),
        lower_of(t) == lower_of(keywords(d)[i]@),
    ensures
        r matches Ok(Expansion::Flat(f)) && selected(f.arms@, t) == Some(i),
{
    let kw = keywords(d);
    let lk = lowered_keywords(kw);
    let f = r->Ok_0->Flat_0;
    assert forall|j: int| 0 <= j < kw.len() implies guard_of(kw, j) is None by {
        lemma_count_unique(lk, j);
    }
    assert forall|j: int| 0 <= j < i implies !accepts(#[trigger] f.arms@[j], t, lower_of(t)) by {
        assert(lk[j] != lk[i]);
    }
    lemma_first_is(f.arms@, t, lower_of(t), 0, i);
}

/// Where two fieldless variants have names that differ but lowercase alike,
/// the matcher takes each exact name to its variant, and rejects every other
/// spelling of the shared lowercase word.
pub proof fn colliding_names_need_exact_case(
    d: TypeDecl,
    r: Result<Expansion, ExpandError>,
    i: int,
    k: int,
    t: Seq<char>,
)
    requires
        d.data matches Data::Enum(vs) && all_fieldless(vs@),
        distinct(keyword_texts(d)),
        expansion_of(d, r),
        0 <= i < keywords(d).len(),
        0 <= k < keywords(d).len(),
        i != k,
        lower_of(keywords(d)[i]@) == lower_of(keywords(d)[k]@),
    ensures
        r matches Ok(Expansion::Flat(f)) && selected(f.arms@, keywords(d)[i]@) == Some(i),
        r matches Ok(Expansion::Flat(f)) && (lower_of(t) == lower_of(keywords(d)[i]@) && (forall|
            j: int,
        | 0 <= j < keywords(d).len() ==> t != #[trigger] keywords(d)[j]@) ==> selected(
            f.arms@,
            t,
        ) is None),
{
    let kw = keywords(d);
    let lk = lowered_keywords(kw);
    let f = r->Ok_0->Flat_0;
    let l = lower_of(kw[i]@);
    if i < k {
        lemma_count_pair(lk, l, i, k);
    } else {
        lemma_count_pair(lk, l, k, i);
    }
    let s = kw[i]@;
    assert forall|j: int| 0 <= j < i implies !accepts(#[trigger] f.arms@[j], s, lower_of(s)) by {
        assert(keyword_texts(d)[j] != keyword_texts(d)[i]);
    }
    lemma_first_is(f.arms@, s, lower_of(s), 0, i);
    if lower_of(t) == l && (forall|j: int| 0 <= j < kw.len() ==> t != #[trigger] kw[j]@) {
        assert forall|j: int| 0 <= j < kw.len() implies !accepts(
            #[trigger] f.arms@[j],
            t,
            lower_of(t),
        ) by {
            if f.arms@[j].lowercased@ == lower_of(t) {
                assert(guard_of(kw, j) == Some(kw[j]));
            }
        }
        lemma_first_none(f.arms@, t, lower_of(t), 0);
    }
}

/// A fieldless struct or an enum of fieldless variants expands to a matcher
/// that rejects, with an error naming the type, every text whose lowercase
/// form is that of no keyword.
pub proof fn unknown_keyword_names_type(d: TypeDecl, r: Result<Expansion, ExpandError>, t: Seq<char>)
    requires
        expansion_of(d, r),
        r is Ok,
        forall|j: int| 0 <= j < keywords(d).len() ==> lower_of(t) != lower_of(#[trigger] keywords(d)[j]@),
    ensures
        r matches Ok(Expansion::Flat(f)) ==> selected(f.arms@, t) is None && f.ty_name == d.ident,
{
    if let Ok(Expansion::Flat(f)) = r {
        lemma_first_none(f.arms@, t, lower_of(t), 0);
    }
}

/// A single-field struct expands to a parser that forwards to the field's
/// type and wraps the parsed value in that field, under its identifier if it
/// has one.
pub proof fn single_field_forwards(d: TypeDecl, r: Result<Expansion, ExpandError>)
    requires
        d.data matches Data::Struct(s) && s.fields.spec_len() == 1,
        expansion_of(d, r),
    ensures
        r matches Ok(Expansion::Forward(g)) && d.data matches Data::Struct(s) && g.inner_ty
            == s.fields.spec_field(0).ty && ctor_field(g.constructor) == s.fields.spec_field(
            0,
        ).ident,
{
}

/// An enum without variants expands to a matcher that rejects every text.
pub proof fn empty_enum_rejects_all(d: TypeDecl, r: Result<Expansion, ExpandError>, t: Seq<char>)
    requires
        d.data matches Data::Enum(vs) && vs@.len() == 0,
        expansion_of(d, r),
    ensures
        r matches Ok(Expansion::Flat(f)) && selected(f.arms@, t) is None && f.ty_name == d.ident,
{
}

} // verus!
