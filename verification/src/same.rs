use vstd::prelude::*;
use crate::type_expr::{
    Docs, Ident, ObjectField, TypeDefinition, TypeExpr, TypeInfo, TypeString,
};

verus! {

/// Both have no documentation, or both have the same text.
pub open spec fn docs_same(a: Option<Docs>, b: Option<Docs>) -> bool {
    match (a, b) {
        (None, None) => true,
        (Some(x), Some(y)) => x.0@ == y.0@,
        _ => false,
    }
}

/// The same identifiers in the same order.
pub open spec fn idents_same(a: Seq<Ident>, b: Seq<Ident>) -> bool {
    &&& a.len() == b.len()
    &&& forall|i: int| 0 <= i < a.len() ==> #[trigger] a[i].0@ == b[i].0@
}

pub open spec fn string_same(a: TypeString, b: TypeString) -> bool {
    docs_same(a.docs, b.docs) && a.value@ == b.value@
}

/// Two type expressions agree in every part: the same strings, the same
/// lists, the same referenced types.
pub open spec fn expr_same(a: TypeExpr, b: TypeExpr) -> bool
    decreases a,
{
    match (a, b) {
        (TypeExpr::Ref(x), TypeExpr::Ref(y)) => info_same(*x, *y),
        (TypeExpr::Name(x), TypeExpr::Name(y)) => idents_same(x.path@, y.path@) && x.name.0@
            == y.name.0@ && exprs_same(x.generic_args@, y.generic_args@),
        (TypeExpr::String(x), TypeExpr::String(y)) => string_same(x, y),
        (TypeExpr::Tuple(x), TypeExpr::Tuple(y)) => docs_same(x.docs, y.docs) && exprs_same(
            x.elements@,
            y.elements@,
        ),
        (TypeExpr::Object(x), TypeExpr::Object(y)) => docs_same(x.docs, y.docs) && fields_same(
            x.fields@,
            y.fields@,
        ),
        (TypeExpr::Array(x), TypeExpr::Array(y)) => docs_same(x.docs, y.docs) && expr_same(
            *x.item,
            *y.item,
        ),
        (TypeExpr::Union(x), TypeExpr::Union(y)) => docs_same(x.docs, y.docs) && exprs_same(
            x.members@,
            y.members@,
        ),
        (TypeExpr::Intersection(x), TypeExpr::Intersection(y)) => docs_same(x.docs, y.docs)
            && exprs_same(x.members@, y.members@),
        _ => false,
    }
}

/// Pairwise the same expressions.
pub open spec fn exprs_same(a: Seq<TypeExpr>, b: Seq<TypeExpr>) -> bool
    decreases a,
{
    if a.len() != b.len() {
        false
    } else if a.len() == 0 {
        true
    } else {
        exprs_same(a.subrange(0, a.len() - 1), b.subrange(0, b.len() - 1)) && expr_same(
            a[a.len() - 1],
            b[b.len() - 1],
        )
    }
}

/// Pairwise the same fields.
pub open spec fn fields_same(a: Seq<ObjectField>, b: Seq<ObjectField>) -> bool
    decreases a,
{
    if a.len() != b.len() {
        false
    } else if a.len() == 0 {
        true
    } else {
        fields_same(a.subrange(0, a.len() - 1), b.subrange(0, b.len() - 1)) && field_same(
            a[a.len() - 1],
            b[b.len() - 1],
        )
    }
}

pub open spec fn field_same(a: ObjectField, b: ObjectField) -> bool
    decreases a,
{
    docs_same(a.docs, b.docs) && string_same(a.name, b.name) && a.optional == b.optional
        && expr_same(a.field_type, b.field_type)
}

pub open spec fn info_same(a: TypeInfo, b: TypeInfo) -> bool
    decreases a,
{
    match (a, b) {
        (TypeInfo::Native(x), TypeInfo::Native(y)) => expr_same(x.type_ref, y.type_ref),
        (TypeInfo::Defined(x), TypeInfo::Defined(y)) => def_same(x.def, y.def) && exprs_same(
            x.generic_args@,
            y.generic_args@,
        ),
        _ => false,
    }
}

/// Two type definitions agree in every part; such definitions are written
/// once.
pub open spec fn def_same(a: TypeDefinition, b: TypeDefinition) -> bool
    decreases a,
{
    docs_same(a.docs, b.docs) && idents_same(a.path@, b.path@) && a.name.0@ == b.name.0@
        && idents_same(a.generic_vars@, b.generic_vars@) && expr_same(a.def, b.def)
}

/// Whether two strings hold the same characters.
pub fn str_eq(a: &str, b: &str) -> (r: bool)
    ensures
        r == (a@ == b@),
{
    let x = a.to_owned();
    let y = b.to_owned();
    x == y
}

pub fn docs_eq(a: &Option<Docs>, b: &Option<Docs>) -> (r: bool)
    ensures
        r == docs_same(*a, *b),
{
    match (a, b) {
        (None, None) => true,
        (Some(x), Some(y)) => str_eq(x.0, y.0),
        _ => false,
    }
}

pub fn idents_eq(a: &Vec<Ident>, b: &Vec<Ident>) -> (r: bool)
    ensures
        r == idents_same(a@, b@),
{
    if a.len() != b.len() {
        return false;
    }
    let mut i: usize = 0;
    while i < a.len()
        invariant
            a.len() == b.len(),
            i <= a.len(),
            forall|k: int| 0 <= k < i ==> #[trigger] a@[k].0@ == b@[k].0@,
        decreases a.len() - i,
    {
        if !str_eq(a[i].0, b[i].0) {
            return false;
        }
        i = i + 1;
    }
    true
}

pub fn string_eq(a: &TypeString, b: &TypeString) -> (r: bool)
    ensures
        r == string_same(*a, *b),
{
    docs_eq(&a.docs, &b.docs) && str_eq(a.value, b.value)
}

pub fn expr_eq(a: &TypeExpr, b: &TypeExpr) -> (r: bool)
    ensures
        r == expr_same(*a, *b),
    decreases a, 0int,
{
    match (a, b) {
        (TypeExpr::Ref(x), TypeExpr::Ref(y)) => info_eq(x, y),
        (TypeExpr::Name(x), TypeExpr::Name(y)) => idents_eq(&x.path, &y.path) && str_eq(
            x.name.0,
            y.name.0,
        ) && exprs_eq(&x.generic_args, &y.generic_args),
        (TypeExpr::String(x), TypeExpr::String(y)) => string_eq(x, y),
        (TypeExpr::Tuple(x), TypeExpr::Tuple(y)) => docs_eq(&x.docs, &y.docs) && exprs_eq(
            &x.elements,
            &y.elements,
        ),
        (TypeExpr::Object(x), TypeExpr::Object(y)) => docs_eq(&x.docs, &y.docs) && fields_eq(
            &x.fields,
            &y.fields,
        ),
        (TypeExpr::Array(x), TypeExpr::Array(y)) => docs_eq(&x.docs, &y.docs) && expr_eq(
            &x.item,
            &y.item,
        ),
        (TypeExpr::Union(x), TypeExpr::Union(y)) => docs_eq(&x.docs, &y.docs) && exprs_eq(
            &x.members,
            &y.members,
        ),
        (TypeExpr::Intersection(x), TypeExpr::Intersection(y)) => docs_eq(&x.docs, &y.docs)
            && exprs_eq(&x.members, &y.members),
        _ => false,
    }
}

pub fn exprs_eq(a: &Vec<TypeExpr>, b: &Vec<TypeExpr>) -> (r: bool)
    ensures
        r == exprs_same(a@, b@),
    decreases a, 0int,
{
    proof {
        lemma_exprs_same_iff(a@, b@);
    }
    if a.len() != b.len() {
        return false;
    }
    let mut i: usize = 0;
    while i < a.len()
        invariant
            a.len() == b.len(),
            i <= a.len(),
            forall|k: int| 0 <= k < i ==> expr_same(#[trigger] a@[k], b@[k]),
        decreases a.len() - i,
    {
        if !expr_eq(&a[i], &b[i]) {
            proof {
                lemma_exprs_same_iff(a@, b@);
            }
            return false;
        }
        i = i + 1;
    }
    true
}

pub fn fields_eq(a: &Vec<ObjectField>, b: &Vec<ObjectField>) -> (r: bool)
    ensures
        r == fields_same(a@, b@),
    decreases a, 0int,
{
    proof {
        lemma_fields_same_iff(a@, b@);
    }
    if a.len() != b.len() {
        return false;
    }
    let mut i: usize = 0;
    while i < a.len()
        invariant
            a.len() == b.len(),
            i <= a.len(),
            forall|k: int| 0 <= k < i ==> field_same(#[trigger] a@[k], b@[k]),
        decreases a.len() - i,
    {
        if !field_eq(&a[i], &b[i]) {
            proof {
                lemma_fields_same_iff(a@, b@);
            }
            return false;
        }
        i = i + 1;
    }
    true
}

pub fn field_eq(a: &ObjectField, b: &ObjectField) -> (r: bool)
    ensures
        r == field_same(*a, *b),
    decreases a, 0int,
{
    docs_eq(&a.docs, &b.docs) && string_eq(&a.name, &b.name) && a.optional == b.optional
        && expr_eq(&a.field_type, &b.field_type)
}

pub fn info_eq(a: &TypeInfo, b: &TypeInfo) -> (r: bool)
    ensures
        r == info_same(*a, *b),
    decreases a, 0int,
{
    match (a, b) {
        (TypeInfo::Native(x), TypeInfo::Native(y)) => expr_eq(&x.type_ref, &y.type_ref),
        (TypeInfo::Defined(x), TypeInfo::Defined(y)) => def_eq(&x.def, &y.def) && exprs_eq(
            &x.generic_args,
            &y.generic_args,
        ),
        _ => false,
    }
}

/// Whether two definitions agree in every part (`def_same`).
pub fn def_eq(a: &TypeDefinition, b: &TypeDefinition) -> (r: bool)
    ensures
        r == def_same(*a, *b),
    decreases a, 0int,
{
    docs_eq(&a.docs, &b.docs) && idents_eq(&a.path, &b.path) && str_eq(a.name.0, b.name.0)
        && idents_eq(&a.generic_vars, &b.generic_vars) && expr_eq(&a.def, &b.def)
}

/// Two lists of expressions are the same exactly when they have the same
/// length and agree at each position.
pub proof fn lemma_exprs_same_iff(a: Seq<TypeExpr>, b: Seq<TypeExpr>)
    ensures
        exprs_same(a, b) <==> (a.len() == b.len() && forall|i: int|
            0 <= i < a.len() ==> expr_same(#[trigger] a[i], b[i])),
    decreases a.len(),
{
    if a.len() == b.len() && a.len() > 0 {
        let (s, t) = (a.subrange(0, a.len() - 1), b.subrange(0, b.len() - 1));
        lemma_exprs_same_iff(s, t);
        assert forall|i: int| 0 <= i < s.len() implies s[i] == a[i] && t[i] == b[i] by {}
    }
}

/// Two lists of fields are the same exactly when they have the same length
/// and agree at each position.
pub proof fn lemma_fields_same_iff(a: Seq<ObjectField>, b: Seq<ObjectField>)
    ensures
        fields_same(a, b) <==> (a.len() == b.len() && forall|i: int|
            0 <= i < a.len() ==> field_same(#[trigger] a[i], b[i])),
    decreases a.len(),
{
    if a.len() == b.len() && a.len() > 0 {
        let (s, t) = (a.subrange(0, a.len() - 1), b.subrange(0, b.len() - 1));
        lemma_fields_same_iff(s, t);
        assert forall|i: int| 0 <= i < s.len() implies s[i] == a[i] && t[i] == b[i] by {}
    }
}

} // verus!
