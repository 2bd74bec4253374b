use vstd::prelude::*;
use crate::type_expr::{DefinedTypeInfo, Ident, ObjectField, TypeDefinition, TypeExpr, TypeInfo};
use crate::emit::{
    close_root_text, definition_file_text, header_text, ns_view, open_root_text,
    DefinitionFileOptions,
};
use crate::text::{segments, strip_all, strip_cr, text_lines, lemma_segments_nonempty};
use crate::spec_text::{
    angle_list, defs_text, join, def_text, root_prefix, expr_text, exprs_texts, field_text, fields_text, ident_views, path_prefix, ref_text,
};
use crate::same::{
    def_same, expr_same, exprs_same, field_same, fields_same, idents_same, info_same,
};
use crate::iter_def_deps::{
    add_def, contains_same, def_deps, visit_expr, visit_exprs, visit_fields, visit_info,
};

verus! {

/// `d` is the definition of `info` or of a type that `info` refers to,
/// directly or through other types.
pub open spec fn info_reaches(info: TypeInfo, d: TypeDefinition) -> bool
    decreases info,
{
    match info {
        TypeInfo::Native(n) => expr_reaches(n.type_ref, d),
        TypeInfo::Defined(x) => x.def == d || exprs_reach(x.generic_args@, d) || expr_reaches(
            x.def.def,
            d,
        ),
    }
}

/// `d` is the definition of a type that the expression refers to, directly
/// or through other types.
pub open spec fn expr_reaches(e: TypeExpr, d: TypeDefinition) -> bool
    decreases e,
{
    match e {
        TypeExpr::Ref(info) => info_reaches(*info, d),
        TypeExpr::Name(n) => exprs_reach(n.generic_args@, d),
        TypeExpr::String(_) => false,
        TypeExpr::Tuple(t) => exprs_reach(t.elements@, d),
        TypeExpr::Object(o) => fields_reach(o.fields@, d),
        TypeExpr::Array(a) => expr_reaches(*a.item, d),
        TypeExpr::Union(u) => exprs_reach(u.members@, d),
        TypeExpr::Intersection(i) => exprs_reach(i.members@, d),
    }
}

pub open spec fn exprs_reach(es: Seq<TypeExpr>, d: TypeDefinition) -> bool
    decreases es,
{
    if es.len() == 0 {
        false
    } else {
        exprs_reach(es.subrange(0, es.len() - 1), d) || expr_reaches(es[es.len() - 1], d)
    }
}

pub open spec fn fields_reach(fs: Seq<ObjectField>, d: TypeDefinition) -> bool
    decreases fs,
{
    if fs.len() == 0 {
        false
    } else {
        fields_reach(fs.subrange(0, fs.len() - 1), d) || expr_reaches(fs[fs.len() - 1].field_type, d)
    }
}

/// `r` starts with `acc`.
pub open spec fn extends(acc: Seq<TypeDefinition>, r: Seq<TypeDefinition>) -> bool {
    &&& acc.len() <= r.len()
    &&& forall|i: int| 0 <= i < acc.len() ==> #[trigger] r[i] == acc[i]
}

// ---------------------------------------------------------------------------
// Splitting into lines and joining them again.

proof fn lemma_join_push_last(p: Seq<Seq<char>>, c: char, sep: Seq<char>)
    requires
        p.len() >= 1,
    ensures
        join(p.update(p.len() - 1, p.last().push(c)), sep) == join(p, sep).push(c),
{
    let q = p.update(p.len() - 1, p.last().push(c));
    if p.len() > 1 {
        assert(q.drop_last() =~= p.drop_last());
        assert(join(q, sep) =~= join(p, sep).push(c));
    }
}

proof fn lemma_join_segments(s: Seq<char>)
    ensures
        join(segments(s), "\n"@) == s,
    decreases s.len(),
{
    if s.len() > 0 {
        let prev = segments(s.drop_last());
        lemma_join_segments(s.drop_last());
        lemma_segments_nonempty(s.drop_last());
        if s.last() == '\n' {
            reveal_strlit("\n");
            let segs = prev.push(Seq::<char>::empty());
            assert(segs.drop_last() =~= prev);
            assert(join(segs, "\n"@) =~= s);
        } else {
            lemma_join_push_last(prev, s.last(), "\n"@);
            assert(s.drop_last().push(s.last()) =~= s);
        }
    }
}

proof fn lemma_segments_no_cr(s: Seq<char>)
    requires
        forall|i: int| 0 <= i < s.len() ==> #[trigger] s[i] != '\r',
    ensures
        forall|k: int, j: int|
            0 <= k < segments(s).len() && 0 <= j < segments(s)[k].len() ==> #[trigger] segments(
                s,
            )[k][j] != '\r',
    decreases s.len(),
{
    if s.len() > 0 {
        let t = s.drop_last();
        assert forall|i: int| 0 <= i < t.len() implies #[trigger] t[i] != '\r' by {
            assert(t[i] == s[i]);
        }
        lemma_segments_no_cr(t);
        lemma_segments_nonempty(t);
        assert(s[s.len() - 1] != '\r');
    }
}

/// Splitting a text without carriage returns into lines and joining the
/// lines with newlines gives the text back, less one newline at its end.
pub proof fn law_lines_rejoin(s: Seq<char>)
    requires
        forall|i: int| 0 <= i < s.len() ==> #[trigger] s[i] != '\r',
    ensures
        join(text_lines(s), "\n"@) + (if s.len() > 0 && s.last() == '\n' {
            "\n"@
        } else {
            Seq::<char>::empty()
        }) == s,
{
    let segs = segments(s);
    lemma_segments_nonempty(s);
    lemma_segments_no_cr(s);
    lemma_join_segments(s);
    assert(strip_all(segs.drop_last()) =~= segs.drop_last()) by {
        assert forall|k: int| 0 <= k < segs.len() - 1 implies strip_cr(
            #[trigger] segs.drop_last()[k],
        ) == segs.drop_last()[k] by {
            let l = segs[k];
            if l.len() > 0 {
                assert(l[l.len() - 1] != '\r');
            }
        }
    }
    if s.len() == 0 {
        assert(text_lines(s) =~= Seq::<Seq<char>>::empty());
    } else if s.last() == '\n' {
        assert(segs.last().len() == 0);
        assert(segs =~= segs.drop_last().push(Seq::<char>::empty()));
        assert(segs.len() >= 2);
        assert(join(segs, "\n"@) == join(segs.drop_last(), "\n"@) + "\n"@ + Seq::<char>::empty());
        assert(join(text_lines(s), "\n"@) + "\n"@ =~= s);
    } else {
        let prev = segments(s.drop_last());
        lemma_segments_nonempty(s.drop_last());
        assert(segs == prev.update(prev.len() - 1, prev.last().push(s.last())));
        assert(segs.last().len() > 0);
        assert(text_lines(s) =~= segs);
        assert(join(text_lines(s), "\n"@) + Seq::<char>::empty() =~= s);
    }
}

// ---------------------------------------------------------------------------
// Visiting only appends.

proof fn lemma_add_def_extends(acc: Seq<TypeDefinition>, d: TypeDefinition)
    ensures
        extends(acc, add_def(acc, d)),
{
}

proof fn lemma_extends_trans(a: Seq<TypeDefinition>, b: Seq<TypeDefinition>, c: Seq<TypeDefinition>)
    requires
        extends(a, b),
        extends(b, c),
    ensures
        extends(a, c),
{
    assert forall|i: int| 0 <= i < a.len() implies #[trigger] c[i] == a[i] by {
        assert(c[i] == b[i]);
    }
}

proof fn lemma_visit_info_extends(info: TypeInfo, acc: Seq<TypeDefinition>)
    ensures
        extends(acc, visit_info(info, acc)),
    decreases info,
{
    match info {
        TypeInfo::Native(n) => lemma_visit_expr_extends(n.type_ref, acc),
        TypeInfo::Defined(x) => {
            let a1 = visit_exprs(x.generic_args@, acc);
            let a2 = visit_expr(x.def.def, a1);
            lemma_visit_exprs_extends(x.generic_args@, acc);
            lemma_visit_expr_extends(x.def.def, a1);
            lemma_add_def_extends(a2, x.def);
            lemma_extends_trans(acc, a1, a2);
            lemma_extends_trans(acc, a2, add_def(a2, x.def));
        },
    }
}

proof fn lemma_visit_expr_extends(e: TypeExpr, acc: Seq<TypeDefinition>)
    ensures
        extends(acc, visit_expr(e, acc)),
    decreases e,
{
    match e {
        TypeExpr::Ref(info) => lemma_visit_info_extends(*info, acc),
        TypeExpr::Name(n) => lemma_visit_exprs_extends(n.generic_args@, acc),
        TypeExpr::String(_) => {},
        TypeExpr::Tuple(t) => lemma_visit_exprs_extends(t.elements@, acc),
        TypeExpr::Object(o) => lemma_visit_fields_extends(o.fields@, acc),
        TypeExpr::Array(a) => lemma_visit_expr_extends(*a.item, acc),
        TypeExpr::Union(u) => lemma_visit_exprs_extends(u.members@, acc),
        TypeExpr::Intersection(i) => lemma_visit_exprs_extends(i.members@, acc),
    }
}

proof fn lemma_visit_exprs_extends(es: Seq<TypeExpr>, acc: Seq<TypeDefinition>)
    ensures
        extends(acc, visit_exprs(es, acc)),
    decreases es,
{
    if es.len() > 0 {
        let pre = es.subrange(0, es.len() - 1);
        let a1 = visit_exprs(pre, acc);
        lemma_visit_exprs_extends(pre, acc);
        lemma_visit_expr_extends(es[es.len() - 1], a1);
        lemma_extends_trans(acc, a1, visit_expr(es[es.len() - 1], a1));
    }
}

proof fn lemma_visit_fields_extends(fs: Seq<ObjectField>, acc: Seq<TypeDefinition>)
    ensures
        extends(acc, visit_fields(fs, acc)),
    decreases fs,
{
    if fs.len() > 0 {
        let pre = fs.subrange(0, fs.len() - 1);
        let a1 = visit_fields(pre, acc);
        lemma_visit_fields_extends(pre, acc);
        lemma_visit_expr_extends(fs[fs.len() - 1].field_type, a1);
        lemma_extends_trans(acc, a1, visit_expr(fs[fs.len() - 1].field_type, a1));
    }
}

proof fn lemma_contains_same_extends(
    acc: Seq<TypeDefinition>,
    r: Seq<TypeDefinition>,
    d: TypeDefinition,
)
    requires
        extends(acc, r),
        contains_same(acc, d),
    ensures
        contains_same(r, d),
{
    let i = choose|i: int| 0 <= i < acc.len() && def_same(#[trigger] acc[i], d);
    assert(r[i] == acc[i]);
}

// ---------------------------------------------------------------------------
// Every definition that is reached is visited.

proof fn lemma_add_def_has(acc: Seq<TypeDefinition>, d: TypeDefinition)
    ensures
        contains_same(add_def(acc, d), d),
{
    if !contains_same(acc, d) {
        let r = acc.push(d);
        lemma_def_same_refl(d);
        assert(def_same(r[acc.len() as int], d));
    }
}

proof fn lemma_visit_info_complete(info: TypeInfo, acc: Seq<TypeDefinition>, d: TypeDefinition)
    requires
        info_reaches(info, d),
    ensures
        contains_same(visit_info(info, acc), d),
    decreases info,
{
    match info {
        TypeInfo::Native(n) => lemma_visit_expr_complete(n.type_ref, acc, d),
        TypeInfo::Defined(x) => {
            let a1 = visit_exprs(x.generic_args@, acc);
            let a2 = visit_expr(x.def.def, a1);
            let r = add_def(a2, x.def);
            lemma_visit_expr_extends(x.def.def, a1);
            lemma_add_def_extends(a2, x.def);
            if x.def == d {
                lemma_add_def_has(a2, x.def);
            } else if exprs_reach(x.generic_args@, d) {
                lemma_visit_exprs_complete(x.generic_args@, acc, d);
                lemma_contains_same_extends(a1, a2, d);
                lemma_contains_same_extends(a2, r, d);
            } else {
                lemma_visit_expr_complete(x.def.def, a1, d);
                lemma_contains_same_extends(a2, r, d);
            }
        },
    }
}

pub proof fn lemma_visit_expr_complete(e: TypeExpr, acc: Seq<TypeDefinition>, d: TypeDefinition)
    requires
        expr_reaches(e, d),
    ensures
        contains_same(visit_expr(e, acc), d),
    decreases e,
{
    match e {
        TypeExpr::Ref(info) => lemma_visit_info_complete(*info, acc, d),
        TypeExpr::Name(n) => lemma_visit_exprs_complete(n.generic_args@, acc, d),
        TypeExpr::String(_) => {},
        TypeExpr::Tuple(t) => lemma_visit_exprs_complete(t.elements@, acc, d),
        TypeExpr::Object(o) => lemma_visit_fields_complete(o.fields@, acc, d),
        TypeExpr::Array(a) => lemma_visit_expr_complete(*a.item, acc, d),
        TypeExpr::Union(u) => lemma_visit_exprs_complete(u.members@, acc, d),
        TypeExpr::Intersection(i) => lemma_visit_exprs_complete(i.members@, acc, d),
    }
}

proof fn lemma_visit_exprs_complete(es: Seq<TypeExpr>, acc: Seq<TypeDefinition>, d: TypeDefinition)
    requires
        exprs_reach(es, d),
    ensures
        contains_same(visit_exprs(es, acc), d),
    decreases es,
{
    let pre = es.subrange(0, es.len() - 1);
    let last = es[es.len() - 1];
    let a1 = visit_exprs(pre, acc);
    if exprs_reach(pre, d) {
        lemma_visit_exprs_complete(pre, acc, d);
        lemma_visit_expr_extends(last, a1);
        lemma_contains_same_extends(a1, visit_expr(last, a1), d);
    } else {
        lemma_visit_expr_complete(last, a1, d);
    }
}

proof fn lemma_visit_fields_complete(
    fs: Seq<ObjectField>,
    acc: Seq<TypeDefinition>,
    d: TypeDefinition,
)
    requires
        fields_reach(fs, d),
    ensures
        contains_same(visit_fields(fs, acc), d),
    decreases fs,
{
    let pre = fs.subrange(0, fs.len() - 1);
    let last = fs[fs.len() - 1].field_type;
    let a1 = visit_fields(pre, acc);
    if fields_reach(pre, d) {
        lemma_visit_fields_complete(pre, acc, d);
        lemma_visit_expr_extends(last, a1);
        lemma_contains_same_extends(a1, visit_expr(last, a1), d);
    } else {
        lemma_visit_expr_complete(last, a1, d);
    }
}

/// The definitions written for a type include its own definition and that of
/// every type it depends on, directly or transitively: for each such
/// definition, one that is the same.
pub proof fn law_def_deps_complete(info: TypeInfo, d: TypeDefinition)
    requires
        info_reaches(info, d),
    ensures
        contains_same(def_deps(info), d),
{
    lemma_visit_info_complete(info, Seq::<TypeDefinition>::empty(), d);
}

// ---------------------------------------------------------------------------
// Every definition that is visited is reached.

proof fn lemma_visit_info_sound(info: TypeInfo, acc: Seq<TypeDefinition>, k: int)
    requires
        acc.len() <= k < visit_info(info, acc).len(),
    ensures
        info_reaches(info, visit_info(info, acc)[k]),
    decreases info,
{
    match info {
        TypeInfo::Native(n) => lemma_visit_expr_sound(n.type_ref, acc, k),
        TypeInfo::Defined(x) => {
            let a1 = visit_exprs(x.generic_args@, acc);
            let a2 = visit_expr(x.def.def, a1);
            let r = add_def(a2, x.def);
            lemma_visit_exprs_extends(x.generic_args@, acc);
            lemma_visit_expr_extends(x.def.def, a1);
            if k < a1.len() {
                assert(r[k] == a2[k]);
                assert(a2[k] == a1[k]);
                lemma_visit_exprs_sound(x.generic_args@, acc, k);
            } else if k < a2.len() {
                assert(r[k] == a2[k]);
                lemma_visit_expr_sound(x.def.def, a1, k);
            } else {
                assert(r[k] == x.def);
            }
        },
    }
}

pub proof fn lemma_visit_expr_sound(e: TypeExpr, acc: Seq<TypeDefinition>, k: int)
    requires
        acc.len() <= k < visit_expr(e, acc).len(),
    ensures
        expr_reaches(e, visit_expr(e, acc)[k]),
    decreases e,
{
    match e {
        TypeExpr::Ref(info) => lemma_visit_info_sound(*info, acc, k),
        TypeExpr::Name(n) => lemma_visit_exprs_sound(n.generic_args@, acc, k),
        TypeExpr::String(_) => {},
        TypeExpr::Tuple(t) => lemma_visit_exprs_sound(t.elements@, acc, k),
        TypeExpr::Object(o) => lemma_visit_fields_sound(o.fields@, acc, k),
        TypeExpr::Array(a) => lemma_visit_expr_sound(*a.item, acc, k),
        TypeExpr::Union(u) => lemma_visit_exprs_sound(u.members@, acc, k),
        TypeExpr::Intersection(i) => lemma_visit_exprs_sound(i.members@, acc, k),
    }
}

proof fn lemma_visit_exprs_sound(es: Seq<TypeExpr>, acc: Seq<TypeDefinition>, k: int)
    requires
        acc.len() <= k < visit_exprs(es, acc).len(),
    ensures
        exprs_reach(es, visit_exprs(es, acc)[k]),
    decreases es,
{
    let pre = es.subrange(0, es.len() - 1);
    let last = es[es.len() - 1];
    let a1 = visit_exprs(pre, acc);
    lemma_visit_expr_extends(last, a1);
    if k < a1.len() {
        assert(visit_expr(last, a1)[k] == a1[k]);
        lemma_visit_exprs_sound(pre, acc, k);
    } else {
        lemma_visit_expr_sound(last, a1, k);
    }
}

proof fn lemma_visit_fields_sound(fs: Seq<ObjectField>, acc: Seq<TypeDefinition>, k: int)
    requires
        acc.len() <= k < visit_fields(fs, acc).len(),
    ensures
        fields_reach(fs, visit_fields(fs, acc)[k]),
    decreases fs,
{
    let pre = fs.subrange(0, fs.len() - 1);
    let last = fs[fs.len() - 1].field_type;
    let a1 = visit_fields(pre, acc);
    lemma_visit_expr_extends(last, a1);
    if k < a1.len() {
        assert(visit_expr(last, a1)[k] == a1[k]);
        lemma_visit_fields_sound(pre, acc, k);
    } else {
        lemma_visit_expr_sound(last, a1, k);
    }
}

/// Only the definition of a type and those of the types it depends on are
/// written for it.
pub proof fn law_def_deps_sound(info: TypeInfo, k: int)
    requires
        0 <= k < def_deps(info).len(),
    ensures
        info_reaches(info, def_deps(info)[k]),
{
    lemma_visit_info_sound(info, Seq::<TypeDefinition>::empty(), k);
}

// ---------------------------------------------------------------------------
// Each definition is visited once, after what it refers to.

/// No two of the definitions are the same.
pub open spec fn all_distinct(r: Seq<TypeDefinition>) -> bool {
    forall|i: int, j: int| 0 <= i < j < r.len() ==> !def_same(#[trigger] r[i], #[trigger] r[j])
}

/// Each definition comes after those that its body refers to (or after ones
/// that are the same as them).
pub open spec fn deps_first(r: Seq<TypeDefinition>) -> bool {
    forall|k: int, d: TypeDefinition|
        0 <= k < r.len() && #[trigger] expr_reaches(r[k].def, d) ==> contains_same(r.take(k), d)
}

/// Both invariants of a list of visited definitions.
pub open spec fn well_ordered(r: Seq<TypeDefinition>) -> bool {
    all_distinct(r) && deps_first(r)
}

proof fn lemma_add_def_well_ordered(acc: Seq<TypeDefinition>, x: TypeDefinition)
    requires
        well_ordered(acc),
        forall|d: TypeDefinition| expr_reaches(x.def, d) ==> contains_same(acc, d),
    ensures
        well_ordered(add_def(acc, x)),
{
    if !contains_same(acc, x) {
        let r = acc.push(x);
        assert forall|i: int, j: int| 0 <= i < j < r.len() implies !def_same(
            #[trigger] r[i],
            #[trigger] r[j],
        ) by {
            if j == acc.len() {
                assert(r[i] == acc[i]);
                assert(!def_same(acc[i], x));
            } else {
                assert(r[i] == acc[i] && r[j] == acc[j]);
            }
        }
        assert forall|k: int, d: TypeDefinition|
            0 <= k < r.len() && #[trigger] expr_reaches(r[k].def, d) implies contains_same(
            r.take(k),
            d,
        ) by {
            if k == acc.len() {
                assert(r.take(k) =~= acc);
            } else {
                assert(r[k] == acc[k]);
                assert(r.take(k) =~= acc.take(k));
            }
        }
    }
}

proof fn lemma_visit_info_well_ordered(info: TypeInfo, acc: Seq<TypeDefinition>)
    requires
        well_ordered(acc),
    ensures
        well_ordered(visit_info(info, acc)),
    decreases info,
{
    match info {
        TypeInfo::Native(n) => lemma_visit_expr_well_ordered(n.type_ref, acc),
        TypeInfo::Defined(x) => {
            let a1 = visit_exprs(x.generic_args@, acc);
            let a2 = visit_expr(x.def.def, a1);
            lemma_visit_exprs_well_ordered(x.generic_args@, acc);
            lemma_visit_expr_well_ordered(x.def.def, a1);
            assert forall|d: TypeDefinition| expr_reaches(x.def.def, d) implies contains_same(
                a2,
                d,
            ) by {
                lemma_visit_expr_complete(x.def.def, a1, d);
            }
            lemma_add_def_well_ordered(a2, x.def);
        },
    }
}

proof fn lemma_visit_expr_well_ordered(e: TypeExpr, acc: Seq<TypeDefinition>)
    requires
        well_ordered(acc),
    ensures
        well_ordered(visit_expr(e, acc)),
    decreases e,
{
    match e {
        TypeExpr::Ref(info) => lemma_visit_info_well_ordered(*info, acc),
        TypeExpr::Name(n) => lemma_visit_exprs_well_ordered(n.generic_args@, acc),
        TypeExpr::String(_) => {},
        TypeExpr::Tuple(t) => lemma_visit_exprs_well_ordered(t.elements@, acc),
        TypeExpr::Object(o) => lemma_visit_fields_well_ordered(o.fields@, acc),
        TypeExpr::Array(a) => lemma_visit_expr_well_ordered(*a.item, acc),
        TypeExpr::Union(u) => lemma_visit_exprs_well_ordered(u.members@, acc),
        TypeExpr::Intersection(i) => lemma_visit_exprs_well_ordered(i.members@, acc),
    }
}

proof fn lemma_visit_exprs_well_ordered(es: Seq<TypeExpr>, acc: Seq<TypeDefinition>)
    requires
        well_ordered(acc),
    ensures
        well_ordered(visit_exprs(es, acc)),
    decreases es,
{
    if es.len() > 0 {
        let pre = es.subrange(0, es.len() - 1);
        lemma_visit_exprs_well_ordered(pre, acc);
        lemma_visit_expr_well_ordered(es[es.len() - 1], visit_exprs(pre, acc));
    }
}

proof fn lemma_visit_fields_well_ordered(fs: Seq<ObjectField>, acc: Seq<TypeDefinition>)
    requires
        well_ordered(acc),
    ensures
        well_ordered(visit_fields(fs, acc)),
    decreases fs,
{
    if fs.len() > 0 {
        let pre = fs.subrange(0, fs.len() - 1);
        lemma_visit_fields_well_ordered(pre, acc);
        lemma_visit_expr_well_ordered(fs[fs.len() - 1].field_type, visit_fields(pre, acc));
    }
}

/// No definition is written twice: no two of the definitions written for a
/// type are the same.
pub proof fn law_def_deps_unique(info: TypeInfo, i: int, j: int)
    requires
        0 <= i < j < def_deps(info).len(),
    ensures
        !def_same(def_deps(info)[i], def_deps(info)[j]),
{
    lemma_visit_info_well_ordered(info, Seq::<TypeDefinition>::empty());
}

/// Each definition is written after the definitions of the types that it
/// refers to: for each type its body refers to, a definition that is the
/// same comes earlier.
pub proof fn law_def_deps_dependencies_first(info: TypeInfo, k: int, d: TypeDefinition)
    requires
        0 <= k < def_deps(info).len(),
        expr_reaches(def_deps(info)[k].def, d),
    ensures
        exists|i: int| 0 <= i < k && def_same(#[trigger] def_deps(info)[i], d),
{
    let r = def_deps(info);
    lemma_visit_info_well_ordered(info, Seq::<TypeDefinition>::empty());
    assert(contains_same(r.take(k), d));
    let i = choose|i: int| 0 <= i < r.take(k).len() && def_same(#[trigger] r.take(k)[i], d);
    assert(r.take(k)[i] == r[i]);
}

// ---------------------------------------------------------------------------
// The same parts are written as the same text.

proof fn lemma_idents_same_text(a: Seq<Ident>, b: Seq<Ident>)
    requires
        idents_same(a, b),
    ensures
        ident_views(a) == ident_views(b),
        path_prefix(a) == path_prefix(b),
    decreases a.len(),
{
    assert(ident_views(a) =~= ident_views(b));
    if a.len() > 0 {
        let (s, t) = (a.drop_last(), b.drop_last());
        assert(idents_same(s, t)) by {
            assert forall|i: int| 0 <= i < s.len() implies #[trigger] s[i].0@ == t[i].0@ by {
                assert(s[i] == a[i] && t[i] == b[i]);
            }
        }
        lemma_idents_same_text(s, t);
    }
}

proof fn lemma_expr_same_text(a: TypeExpr, b: TypeExpr, ns: Option<Seq<char>>)
    requires
        expr_same(a, b),
    ensures
        expr_text(a, ns) == expr_text(b, ns),
    decreases a,
{
    match (a, b) {
        (TypeExpr::Ref(x), TypeExpr::Ref(y)) => lemma_info_same_text(*x, *y, ns),
        (TypeExpr::Name(x), TypeExpr::Name(y)) => {
            lemma_idents_same_text(x.path@, y.path@);
            lemma_exprs_same_text(x.generic_args@, y.generic_args@, ns);
        },
        (TypeExpr::String(x), TypeExpr::String(y)) => {},
        (TypeExpr::Tuple(x), TypeExpr::Tuple(y)) => lemma_exprs_same_text(
            x.elements@,
            y.elements@,
            ns,
        ),
        (TypeExpr::Object(x), TypeExpr::Object(y)) => lemma_fields_same_text(
            x.fields@,
            y.fields@,
            ns,
        ),
        (TypeExpr::Array(x), TypeExpr::Array(y)) => lemma_expr_same_text(*x.item, *y.item, ns),
        (TypeExpr::Union(x), TypeExpr::Union(y)) => lemma_exprs_same_text(
            x.members@,
            y.members@,
            ns,
        ),
        (TypeExpr::Intersection(x), TypeExpr::Intersection(y)) => lemma_exprs_same_text(
            x.members@,
            y.members@,
            ns,
        ),
        _ => {},
    }
}

proof fn lemma_exprs_same_text(a: Seq<TypeExpr>, b: Seq<TypeExpr>, ns: Option<Seq<char>>)
    requires
        exprs_same(a, b),
    ensures
        exprs_texts(a, ns) == exprs_texts(b, ns),
    decreases a,
{
    if a.len() > 0 {
        lemma_exprs_same_text(a.subrange(0, a.len() - 1), b.subrange(0, b.len() - 1), ns);
        lemma_expr_same_text(a[a.len() - 1], b[b.len() - 1], ns);
    }
}

proof fn lemma_fields_same_text(a: Seq<ObjectField>, b: Seq<ObjectField>, ns: Option<Seq<char>>)
    requires
        fields_same(a, b),
    ensures
        fields_text(a, ns) == fields_text(b, ns),
    decreases a,
{
    if a.len() > 0 {
        lemma_fields_same_text(a.subrange(0, a.len() - 1), b.subrange(0, b.len() - 1), ns);
        lemma_field_same_text(a[a.len() - 1], b[b.len() - 1], ns);
    }
}

proof fn lemma_field_same_text(a: ObjectField, b: ObjectField, ns: Option<Seq<char>>)
    requires
        field_same(a, b),
    ensures
        field_text(a, ns) == field_text(b, ns),
    decreases a,
{
    lemma_expr_same_text(a.field_type, b.field_type, ns);
}

/// Types whose information agrees in every part are referred to by the same
/// text.
pub proof fn lemma_info_same_text(a: TypeInfo, b: TypeInfo, ns: Option<Seq<char>>)
    requires
        info_same(a, b),
    ensures
        ref_text(a, ns) == ref_text(b, ns),
    decreases a,
{
    match (a, b) {
        (TypeInfo::Native(x), TypeInfo::Native(y)) => lemma_expr_same_text(
            x.type_ref,
            y.type_ref,
            ns,
        ),
        (TypeInfo::Defined(x), TypeInfo::Defined(y)) => {
            lemma_idents_same_text(x.def.path@, y.def.path@);
            lemma_exprs_same_text(x.generic_args@, y.generic_args@, ns);
        },
        _ => {},
    }
}

/// Definitions that are the same are written as the same text, so writing
/// one of them once loses nothing.
pub proof fn law_same_definitions_same_text(a: TypeDefinition, b: TypeDefinition, ns: Option<Seq<char>>)
    requires
        def_same(a, b),
    ensures
        def_text(a, ns) == def_text(b, ns),
{
    lemma_idents_same_text(a.path@, b.path@);
    lemma_idents_same_text(a.generic_vars@, b.generic_vars@);
    lemma_expr_same_text(a.def, b.def, ns);
}

// ---------------------------------------------------------------------------
// References and the definition file.

/// A reference to a defined type is its qualified name, behind the root
/// namespace where there is one, and the definition file for the type
/// writes a definition that is the same as its own, as the same text.
pub proof fn law_reference_names_written_definition(x: DefinedTypeInfo, ns: Option<Seq<char>>)
    ensures
        ref_text(TypeInfo::Defined(x), ns) == root_prefix(ns) + path_prefix(x.def.path@)
            + x.def.name.0@ + angle_list(exprs_texts(x.generic_args@, ns)),
        exists|i: int|
            0 <= i < def_deps(TypeInfo::Defined(x)).len() && def_same(
                #[trigger] def_deps(TypeInfo::Defined(x))[i],
                x.def,
            ) && def_text(def_deps(TypeInfo::Defined(x))[i], ns) == def_text(x.def, ns),
{
    let info = TypeInfo::Defined(x);
    law_def_deps_complete(info, x.def);
    let r = def_deps(info);
    let i = choose|i: int| 0 <= i < r.len() && def_same(#[trigger] r[i], x.def);
    law_same_definitions_same_text(r[i], x.def, ns);
}

/// Without a root namespace the file has no default export and no
/// enclosing namespace: the header, then the definitions.
pub proof fn law_without_root_namespace(options: DefinitionFileOptions, info: TypeInfo)
    requires
        options.root_namespace is None,
    ensures
        definition_file_text(options, info) == header_text(ns_view(options.header)) + defs_text(
            def_deps(info),
            None,
        ),
{
    assert(open_root_text(ns_view(options.root_namespace)) =~= Seq::<char>::empty());
    assert(close_root_text(ns_view(options.root_namespace)) =~= Seq::<char>::empty());
    assert(definition_file_text(options, info) =~= header_text(ns_view(options.header))
        + defs_text(def_deps(info), None));
}

// ---------------------------------------------------------------------------
// Sameness is reflexive.

proof fn lemma_expr_same_refl(e: TypeExpr)
    ensures
        expr_same(e, e),
    decreases e,
{
    match e {
        TypeExpr::Ref(info) => lemma_info_same_refl(*info),
        TypeExpr::Name(n) => lemma_exprs_same_refl(n.generic_args@),
        TypeExpr::String(_) => {},
        TypeExpr::Tuple(t) => lemma_exprs_same_refl(t.elements@),
        TypeExpr::Object(o) => lemma_fields_same_refl(o.fields@),
        TypeExpr::Array(a) => lemma_expr_same_refl(*a.item),
        TypeExpr::Union(u) => lemma_exprs_same_refl(u.members@),
        TypeExpr::Intersection(i) => lemma_exprs_same_refl(i.members@),
    }
}

proof fn lemma_exprs_same_refl(es: Seq<TypeExpr>)
    ensures
        exprs_same(es, es),
    decreases es,
{
    if es.len() > 0 {
        lemma_exprs_same_refl(es.subrange(0, es.len() - 1));
        lemma_expr_same_refl(es[es.len() - 1]);
    }
}

proof fn lemma_fields_same_refl(fs: Seq<ObjectField>)
    ensures
        fields_same(fs, fs),
    decreases fs,
{
    if fs.len() > 0 {
        lemma_fields_same_refl(fs.subrange(0, fs.len() - 1));
        lemma_field_same_refl(fs[fs.len() - 1]);
    }
}

proof fn lemma_field_same_refl(f: ObjectField)
    ensures
        field_same(f, f),
    decreases f,
{
    lemma_expr_same_refl(f.field_type);
}

proof fn lemma_info_same_refl(info: TypeInfo)
    ensures
        info_same(info, info),
    decreases info,
{
    match info {
        TypeInfo::Native(n) => lemma_expr_same_refl(n.type_ref),
        TypeInfo::Defined(x) => {
            lemma_def_same_refl(x.def);
            lemma_exprs_same_refl(x.generic_args@);
        },
    }
}

/// Every definition is the same as itself.
pub proof fn lemma_def_same_refl(d: TypeDefinition)
    ensures
        def_same(d, d),
    decreases d,
{
    lemma_expr_same_refl(d.def);
}

} // verus!
