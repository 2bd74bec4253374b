use vstd::prelude::*;
use crate::type_expr::{ObjectField, TypeDefinition, TypeExpr, TypeInfo};
use crate::laws::{
    exprs_reach, expr_reaches, fields_reach, info_reaches, lemma_visit_expr_complete,
    lemma_visit_expr_sound, law_def_deps_complete,
};
use crate::iter_def_deps::{contains_same, def_deps, visit_expr};
use crate::impls::plain_name;
use crate::text::{segments, strip_cr, text_lines, lemma_segments_nonempty};
use crate::type_expr::{
    Docs, TypeArray, TypeIntersection, TypeName, TypeObject, TypeString, TypeTuple, TypeUnion,
};
use crate::spec_text::{
    close_path_text, def_text, doc_lines_text, docs_text, ident_views, open_path_text,
};
use crate::spec_text::{
    angle_list, expr_text, exprs_texts, field_text, fields_text, join, lemma_exprs_texts_len,
    members_text, opt_docs_text, ref_text, root_prefix, path_prefix,
};

verus! {

/// `a` occurs in `b` as a contiguous piece.
pub open spec fn occurs_in(a: Seq<char>, b: Seq<char>) -> bool {
    exists|i: int| 0 <= i && i + a.len() <= b.len() && #[trigger] b.subrange(i, i + a.len()) == a
}

/// The type expressions directly inside `e`: the generic arguments of a
/// name, the elements of a tuple, the field types of an object, the item of
/// an array, the members of a union or an intersection.
pub open spec fn children(e: TypeExpr) -> Seq<TypeExpr> {
    match e {
        TypeExpr::Ref(_) => Seq::<TypeExpr>::empty(),
        TypeExpr::Name(n) => n.generic_args@,
        TypeExpr::String(_) => Seq::<TypeExpr>::empty(),
        TypeExpr::Tuple(t) => t.elements@,
        TypeExpr::Object(o) => o.fields@.map_values(|f: ObjectField| f.field_type),
        TypeExpr::Array(a) => seq![*a.item],
        TypeExpr::Union(u) => u.members@,
        TypeExpr::Intersection(i) => i.members@,
    }
}

pub proof fn lemma_occurs_self(a: Seq<char>)
    ensures
        occurs_in(a, a),
{
    assert(a.subrange(0int, 0int + a.len()) =~= a);
}

pub proof fn lemma_occurs_extend(a: Seq<char>, b: Seq<char>, p: Seq<char>, q: Seq<char>)
    requires
        occurs_in(a, b),
    ensures
        occurs_in(a, p + b + q),
{
    let i = choose|i: int| 0 <= i && i + a.len() <= b.len() && #[trigger] b.subrange(i, i + a.len()) == a;
    let c = p + b + q;
    let j = i + p.len();
    assert(c.subrange(j, j + a.len()) =~= b.subrange(i, i + a.len()));
}

/// Each part of a joined text occurs in it.
pub proof fn lemma_join_part_occurs(parts: Seq<Seq<char>>, sep: Seq<char>, k: int)
    requires
        0 <= k < parts.len(),
    ensures
        occurs_in(parts[k], join(parts, sep)),
    decreases parts.len(),
{
    let empty = Seq::<char>::empty();
    if parts.len() == 1 {
        lemma_occurs_self(parts[0]);
    } else if k == parts.len() - 1 {
        lemma_occurs_self(parts[k]);
        lemma_occurs_extend(parts[k], parts[k], join(parts.drop_last(), sep) + sep, empty);
        assert(join(parts.drop_last(), sep) + sep + parts[k] + empty =~= join(parts, sep));
    } else {
        lemma_join_part_occurs(parts.drop_last(), sep, k);
        assert(parts.drop_last()[k] == parts[k]);
        lemma_occurs_extend(parts[k], join(parts.drop_last(), sep), empty, sep + parts.last());
        assert(empty + join(parts.drop_last(), sep) + (sep + parts.last()) =~= join(parts, sep));
    }
}

/// The text of each expression of a list is the text of that expression.
pub proof fn lemma_exprs_texts_index(es: Seq<TypeExpr>, ns: Option<Seq<char>>, k: int)
    requires
        0 <= k < es.len(),
    ensures
        exprs_texts(es, ns)[k] == expr_text(es[k], ns),
    decreases es.len(),
{
    let pre = es.subrange(0, es.len() - 1);
    lemma_exprs_texts_len(pre, ns);
    if k < es.len() - 1 {
        lemma_exprs_texts_index(pre, ns, k);
    }
}

/// The text of each field occurs in the text of the fields.
pub proof fn lemma_field_occurs(fs: Seq<ObjectField>, ns: Option<Seq<char>>, k: int)
    requires
        0 <= k < fs.len(),
    ensures
        occurs_in(field_text(fs[k], ns), fields_text(fs, ns)),
    decreases fs.len(),
{
    let empty = Seq::<char>::empty();
    let pre = fs.subrange(0, fs.len() - 1);
    let ft = field_text(fs[k], ns);
    if k == fs.len() - 1 {
        lemma_occurs_self(ft);
        lemma_occurs_extend(ft, ft, fields_text(pre, ns), empty);
        assert(fields_text(pre, ns) + ft + empty =~= fields_text(fs, ns));
    } else {
        lemma_field_occurs(pre, ns, k);
        assert(pre[k] == fs[k]);
        lemma_occurs_extend(ft, fields_text(pre, ns), empty, field_text(fs[fs.len() - 1], ns));
        assert(empty + fields_text(pre, ns) + field_text(fs[fs.len() - 1], ns) =~= fields_text(fs, ns));
    }
}

/// The text of an expression in a list occurs in the list joined with any
/// separator.
proof fn lemma_expr_in_join(es: Seq<TypeExpr>, ns: Option<Seq<char>>, sep: Seq<char>, k: int)
    requires
        0 <= k < es.len(),
    ensures
        occurs_in(expr_text(es[k], ns), join(exprs_texts(es, ns), sep)),
{
    lemma_exprs_texts_len(es, ns);
    lemma_exprs_texts_index(es, ns, k);
    lemma_join_part_occurs(exprs_texts(es, ns), sep, k);
}

/// The text of an expression of a list occurs in the list joined with
/// `sep`, between `pre` and `post`.
proof fn lemma_expr_in_wrapped(
    es: Seq<TypeExpr>,
    ns: Option<Seq<char>>,
    sep: Seq<char>,
    k: int,
    pre: Seq<char>,
    post: Seq<char>,
)
    requires
        0 <= k < es.len(),
    ensures
        occurs_in(expr_text(es[k], ns), pre + join(exprs_texts(es, ns), sep) + post),
{
    lemma_expr_in_join(es, ns, sep, k);
    lemma_occurs_extend(expr_text(es[k], ns), join(exprs_texts(es, ns), sep), pre, post);
}

proof fn lemma_occurs_trans(a: Seq<char>, b: Seq<char>, c: Seq<char>)
    requires
        occurs_in(a, b),
        occurs_in(b, c),
    ensures
        occurs_in(a, c),
{
    let i1 = choose|i: int| 0 <= i && i + a.len() <= b.len() && #[trigger] b.subrange(i, i + a.len()) == a;
    let i2 = choose|i: int| 0 <= i && i + b.len() <= c.len() && #[trigger] c.subrange(i, i + b.len()) == b;
    assert(c.subrange(i2 + i1, i2 + i1 + a.len()) =~= a);
}

proof fn lemma_field_type_written_inside(o: crate::type_expr::TypeObject, ns: Option<Seq<char>>, k: int)
    requires
        0 <= k < o.fields@.len(),
    ensures
        occurs_in(expr_text(o.fields@[k].field_type, ns), expr_text(TypeExpr::Object(o), ns)),
{
    let fs = o.fields@;
    let f = fs[k];
    let ct = expr_text(f.field_type, ns);
    let pre = opt_docs_text(f.docs) + crate::spec_text::string_text(f.name) + (if f.optional {
        "?"@
    } else {
        Seq::<char>::empty()
    }) + ":"@;
    lemma_occurs_self(ct);
    lemma_occurs_extend(ct, ct, pre, ";"@);
    assert(pre + ct + ";"@ =~= field_text(f, ns));
    lemma_field_occurs(fs, ns, k);
    lemma_occurs_trans(ct, field_text(f, ns), fields_text(fs, ns));
    lemma_occurs_extend(ct, fields_text(fs, ns), opt_docs_text(o.docs) + "{"@, "}"@);
    assert(opt_docs_text(o.docs) + "{"@ + fields_text(fs, ns) + "}"@ =~= expr_text(TypeExpr::Object(o), ns));
}

/// Every type expression directly inside another is written inside the
/// other's text.
pub proof fn law_children_written_inside(e: TypeExpr, ns: Option<Seq<char>>, k: int)
    requires
        0 <= k < children(e).len(),
    ensures
        occurs_in(expr_text(children(e)[k], ns), expr_text(e, ns)),
{
    match e {
        TypeExpr::Ref(_) => { assert(children(e).len() == 0); },
        TypeExpr::String(_) => { assert(children(e).len() == 0); },
        TypeExpr::Name(n) => {
            let es = n.generic_args@;
            lemma_exprs_texts_len(es, ns);
            lemma_expr_in_wrapped(es, ns, ","@, k, path_prefix(n.path@) + n.name.0@ + "<"@, ">"@);
            assert(expr_text(e, ns) =~= path_prefix(n.path@) + n.name.0@ + "<"@ + join(exprs_texts(es, ns), ","@) + ">"@);
            assert(occurs_in(expr_text(children(e)[k], ns), expr_text(e, ns)));
        },
        TypeExpr::Tuple(t) => {
            lemma_expr_in_wrapped(t.elements@, ns, ","@, k, opt_docs_text(t.docs) + "["@, "]"@);
            assert(expr_text(e, ns) =~= opt_docs_text(t.docs) + "["@ + join(exprs_texts(t.elements@, ns), ","@) + "]"@);
            assert(occurs_in(expr_text(children(e)[k], ns), expr_text(e, ns)));
        },
        TypeExpr::Object(o) => {
            lemma_field_type_written_inside(o, ns, k);
            assert(children(e)[k] == o.fields@[k].field_type);
            assert(occurs_in(expr_text(children(e)[k], ns), expr_text(e, ns)));
        },
        TypeExpr::Array(a) => {
            let ct = expr_text(*a.item, ns);
            lemma_occurs_self(ct);
            lemma_occurs_extend(ct, ct, opt_docs_text(a.docs) + "("@, ")[]"@);
            assert(children(e)[k] == *a.item);
            assert(expr_text(e, ns) =~= opt_docs_text(a.docs) + "("@ + ct + ")[]"@);
            assert(occurs_in(expr_text(children(e)[k], ns), expr_text(e, ns)));
        },
        TypeExpr::Union(u) => {
            lemma_exprs_texts_len(u.members@, ns);
            lemma_expr_in_wrapped(u.members@, ns, "|"@, k, opt_docs_text(u.docs) + "("@, ")"@);
            assert(expr_text(e, ns) =~= opt_docs_text(u.docs) + "("@ + join(exprs_texts(u.members@, ns), "|"@) + ")"@);
            assert(occurs_in(expr_text(children(e)[k], ns), expr_text(e, ns)));
        },
        TypeExpr::Intersection(x) => {
            lemma_exprs_texts_len(x.members@, ns);
            lemma_expr_in_wrapped(x.members@, ns, "&"@, k, opt_docs_text(x.docs) + "("@, ")"@);
            assert(expr_text(e, ns) =~= opt_docs_text(x.docs) + "("@ + join(exprs_texts(x.members@, ns), "&"@) + ")"@);
            assert(occurs_in(expr_text(children(e)[k], ns), expr_text(e, ns)));
        },
    }
}

proof fn lemma_exprs_reach_iff(es: Seq<TypeExpr>, d: TypeDefinition)
    ensures
        exprs_reach(es, d) <==> exists|k: int| 0 <= k < es.len() && expr_reaches(#[trigger] es[k], d),
    decreases es.len(),
{
    if es.len() > 0 {
        let pre = es.subrange(0, es.len() - 1);
        lemma_exprs_reach_iff(pre, d);
        if exists|k: int| 0 <= k < es.len() && expr_reaches(#[trigger] es[k], d) {
            let k = choose|k: int| 0 <= k < es.len() && expr_reaches(#[trigger] es[k], d);
            if k < es.len() - 1 {
                assert(pre[k] == es[k]);
            }
        }
        if exprs_reach(pre, d) {
            let k = choose|k: int| 0 <= k < pre.len() && expr_reaches(#[trigger] pre[k], d);
            assert(pre[k] == es[k]);
        }
    }
}

proof fn lemma_fields_reach_iff(fs: Seq<ObjectField>, d: TypeDefinition)
    ensures
        fields_reach(fs, d) <==> exists|k: int|
            0 <= k < fs.len() && expr_reaches(#[trigger] fs[k].field_type, d),
    decreases fs.len(),
{
    if fs.len() > 0 {
        let pre = fs.subrange(0, fs.len() - 1);
        lemma_fields_reach_iff(pre, d);
        if exists|k: int| 0 <= k < fs.len() && expr_reaches(#[trigger] fs[k].field_type, d) {
            let k = choose|k: int| 0 <= k < fs.len() && expr_reaches(#[trigger] fs[k].field_type, d);
            if k < fs.len() - 1 {
                assert(pre[k] == fs[k]);
            }
        }
        if fields_reach(pre, d) {
            let k = choose|k: int| 0 <= k < pre.len() && expr_reaches(#[trigger] pre[k].field_type, d);
            assert(pre[k] == fs[k]);
        }
    }
}

/// A definition is reached from a type expression exactly when the
/// expression refers to a type that reaches it, or some expression directly
/// inside it reaches it.
pub proof fn law_reaches_through_children(e: TypeExpr, d: TypeDefinition)
    ensures
        expr_reaches(e, d) <==> ((e matches TypeExpr::Ref(info) && info_reaches(*info, d))
            || exists|k: int| 0 <= k < children(e).len() && expr_reaches(#[trigger] children(e)[k], d)),
{
    match e {
        TypeExpr::Ref(b) => {
            assert(children(e).len() == 0);
            assert(expr_reaches(e, d) == info_reaches(*b, d));
        },
        TypeExpr::String(_) => {},
        TypeExpr::Name(n) => {
            let es = n.generic_args@;
            lemma_exprs_reach_iff(es, d);
            assert(children(e) == es);
            if expr_reaches(e, d) {
                let k = choose|k: int| 0 <= k < es.len() && expr_reaches(#[trigger] es[k], d);
                assert(expr_reaches(children(e)[k], d));
            }
        },
        TypeExpr::Tuple(t) => {
            let es = t.elements@;
            lemma_exprs_reach_iff(es, d);
            assert(children(e) == es);
            if expr_reaches(e, d) {
                let k = choose|k: int| 0 <= k < es.len() && expr_reaches(#[trigger] es[k], d);
                assert(expr_reaches(children(e)[k], d));
            }
        },
        TypeExpr::Object(o) => {
            let fs = o.fields@;
            let cs = children(e);
            lemma_fields_reach_iff(fs, d);
            assert forall|k: int| 0 <= k < cs.len() implies #[trigger] cs[k] == fs[k].field_type by {}
            if exists|k: int| 0 <= k < cs.len() && expr_reaches(#[trigger] cs[k], d) {
                let k = choose|k: int| 0 <= k < cs.len() && expr_reaches(#[trigger] cs[k], d);
                assert(expr_reaches(fs[k].field_type, d));
            }
            if fields_reach(fs, d) {
                let k = choose|k: int| 0 <= k < fs.len() && expr_reaches(#[trigger] fs[k].field_type, d);
                assert(expr_reaches(cs[k], d));
            }
        },
        TypeExpr::Array(a) => {
            let cs = children(e);
            assert(cs[0] == *a.item);
            if expr_reaches(e, d) {
                assert(expr_reaches(cs[0], d));
            }
        },
        TypeExpr::Union(u) => {
            let es = u.members@;
            lemma_exprs_reach_iff(es, d);
            assert(children(e) == es);
            if expr_reaches(e, d) {
                let k = choose|k: int| 0 <= k < es.len() && expr_reaches(#[trigger] es[k], d);
                assert(expr_reaches(children(e)[k], d));
            }
        },
        TypeExpr::Intersection(x) => {
            let es = x.members@;
            lemma_exprs_reach_iff(es, d);
            assert(children(e) == es);
            if expr_reaches(e, d) {
                let k = choose|k: int| 0 <= k < es.len() && expr_reaches(#[trigger] es[k], d);
                assert(expr_reaches(children(e)[k], d));
            }
        },
    }
}

/// The definition of a defined type reached from an expression is among
/// the definitions visited for it.
pub proof fn law_reached_definition_visited(e: TypeExpr, d: TypeDefinition, acc: Seq<TypeDefinition>)
    requires
        expr_reaches(e, d),
    ensures
        contains_same(visit_expr(e, acc), d),
{
    lemma_visit_expr_complete(e, acc, d);
}

/// A defined type referred to by an expression directly inside `e` (a
/// generic argument, a tuple element, a field type, an array item, a union
/// or intersection member) has its definition among those visited for `e`.
pub proof fn law_referenced_child_defined(e: TypeExpr, k: int, acc: Seq<TypeDefinition>)
    requires
        0 <= k < children(e).len(),
        children(e)[k] matches TypeExpr::Ref(b) && *b matches TypeInfo::Defined(_),
    ensures
        contains_same(visit_expr(e, acc), children(e)[k]->Ref_0->Defined_0.def),
{
    let c = children(e)[k];
    let x = c->Ref_0->Defined_0;
    assert(info_reaches(*c->Ref_0, x.def));
    assert(expr_reaches(c, x.def));
    law_reaches_through_children(e, x.def);
    lemma_visit_expr_complete(e, acc, x.def);
}

/// Whatever definition is collected for an expression directly inside `e`
/// is collected, up to sameness, for `e` itself.
proof fn lemma_child_definitions_collected(e: TypeExpr, k: int, acc: Seq<TypeDefinition>, d: TypeDefinition)
    requires
        0 <= k < children(e).len(),
        visit_expr(children(e)[k], Seq::<TypeDefinition>::empty()).contains(d),
    ensures
        contains_same(visit_expr(e, acc), d),
{
    let c = children(e)[k];
    let r = visit_expr(c, Seq::<TypeDefinition>::empty());
    let i = choose|i: int| 0 <= i < r.len() && r[i] == d;
    lemma_visit_expr_sound(c, Seq::<TypeDefinition>::empty(), i);
    law_reaches_through_children(e, d);
    lemma_visit_expr_complete(e, acc, d);
}

/// Every definition collected for a generic argument of a named type (such
/// as the value type of `Record<K,V>`) is collected for the named type.
pub proof fn law_generic_argument_definitions_collected(
    n: TypeName,
    k: int,
    acc: Seq<TypeDefinition>,
    d: TypeDefinition,
)
    requires
        0 <= k < n.generic_args@.len(),
        visit_expr(n.generic_args@[k], Seq::<TypeDefinition>::empty()).contains(d),
    ensures
        contains_same(visit_expr(TypeExpr::Name(n), acc), d),
{
    lemma_child_definitions_collected(TypeExpr::Name(n), k, acc, d);
}

/// Every definition collected for a member of an intersection is collected
/// for the intersection.
pub proof fn law_intersection_member_definitions_collected(
    x: TypeIntersection,
    k: int,
    acc: Seq<TypeDefinition>,
    d: TypeDefinition,
)
    requires
        0 <= k < x.members@.len(),
        visit_expr(x.members@[k], Seq::<TypeDefinition>::empty()).contains(d),
    ensures
        contains_same(visit_expr(TypeExpr::Intersection(x), acc), d),
{
    lemma_child_definitions_collected(TypeExpr::Intersection(x), k, acc, d);
}

/// Every definition collected for a member of a union is collected for the
/// union.
pub proof fn law_union_member_definitions_collected(
    u: TypeUnion,
    k: int,
    acc: Seq<TypeDefinition>,
    d: TypeDefinition,
)
    requires
        0 <= k < u.members@.len(),
        visit_expr(u.members@[k], Seq::<TypeDefinition>::empty()).contains(d),
    ensures
        contains_same(visit_expr(TypeExpr::Union(u), acc), d),
{
    lemma_child_definitions_collected(TypeExpr::Union(u), k, acc, d);
}

/// Every definition collected for an element of a tuple is collected for
/// the tuple.
pub proof fn law_tuple_element_definitions_collected(
    t: TypeTuple,
    k: int,
    acc: Seq<TypeDefinition>,
    d: TypeDefinition,
)
    requires
        0 <= k < t.elements@.len(),
        visit_expr(t.elements@[k], Seq::<TypeDefinition>::empty()).contains(d),
    ensures
        contains_same(visit_expr(TypeExpr::Tuple(t), acc), d),
{
    lemma_child_definitions_collected(TypeExpr::Tuple(t), k, acc, d);
}

/// Every definition collected for the type of a field of an object is
/// collected for the object.
pub proof fn law_field_type_definitions_collected(
    o: TypeObject,
    k: int,
    acc: Seq<TypeDefinition>,
    d: TypeDefinition,
)
    requires
        0 <= k < o.fields@.len(),
        visit_expr(o.fields@[k].field_type, Seq::<TypeDefinition>::empty()).contains(d),
    ensures
        contains_same(visit_expr(TypeExpr::Object(o), acc), d),
{
    assert(children(TypeExpr::Object(o))[k] == o.fields@[k].field_type);
    lemma_child_definitions_collected(TypeExpr::Object(o), k, acc, d);
}

/// Every definition collected for the item type of an array is collected
/// for the array.
pub proof fn law_array_item_definitions_collected(
    a: TypeArray,
    acc: Seq<TypeDefinition>,
    d: TypeDefinition,
)
    requires
        visit_expr(*a.item, Seq::<TypeDefinition>::empty()).contains(d),
    ensures
        contains_same(visit_expr(TypeExpr::Array(a), acc), d),
{
    assert(children(TypeExpr::Array(a))[0] == *a.item);
    lemma_child_definitions_collected(TypeExpr::Array(a), 0, acc, d);
}

/// A reference to a defined type collects that type's own definition.
pub proof fn law_reference_collects_definition(
    x: crate::type_expr::DefinedTypeInfo,
    acc: Seq<TypeDefinition>,
)
    ensures
        contains_same(visit_expr(TypeExpr::Ref(Box::new(TypeInfo::Defined(x))), acc), x.def),
{
    let e = TypeExpr::Ref(Box::new(TypeInfo::Defined(x)));
    assert(info_reaches(TypeInfo::Defined(x), x.def));
    lemma_visit_expr_complete(e, acc, x.def);
}

/// Every definition collected for the body of a defined type is among the
/// definitions written for that type.
pub proof fn law_definition_body_definitions_collected(
    x: crate::type_expr::DefinedTypeInfo,
    d: TypeDefinition,
)
    requires
        visit_expr(x.def.def, Seq::<TypeDefinition>::empty()).contains(d),
    ensures
        contains_same(def_deps(TypeInfo::Defined(x)), d),
{
    let r = visit_expr(x.def.def, Seq::<TypeDefinition>::empty());
    let i = choose|i: int| 0 <= i < r.len() && r[i] == d;
    lemma_visit_expr_sound(x.def.def, Seq::<TypeDefinition>::empty(), i);
    assert(info_reaches(TypeInfo::Defined(x), d));
    law_def_deps_complete(TypeInfo::Defined(x), d);
}

// ---------------------------------------------------------------------------
// Definitions are headed by their name applied to their own variables.

/// A definition `export type Name<A,B>=...` is headed by the text of the
/// named type `Name<A,B>`, its variables written as generic arguments are.
pub proof fn law_definition_head_is_name_expression(
    d: TypeDefinition,
    n: TypeName,
    ns: Option<Seq<char>>,
)
    requires
        n.path@.len() == 0,
        n.name.0@ == d.name.0@,
        n.generic_args@.len() == d.generic_vars@.len(),
        forall|i: int|
            0 <= i < n.generic_args@.len() ==> plain_name(
                #[trigger] n.generic_args@[i],
                d.generic_vars@[i].0@,
            ),
    ensures
        def_text(d, ns) == opt_docs_text(d.docs) + open_path_text(d.path@) + "export type "@
            + expr_text(TypeExpr::Name(n), ns) + "="@ + expr_text(d.def, ns) + ";"@
            + close_path_text(d.path@) + "\n"@,
{
    let args = n.generic_args@;
    let texts = exprs_texts(args, ns);
    lemma_exprs_texts_len(args, ns);
    assert forall|i: int| 0 <= i < args.len() implies #[trigger] texts[i] == ident_views(
        d.generic_vars@,
    )[i] by {
        lemma_exprs_texts_index(args, ns, i);
        let a = args[i];
        assert(plain_name(a, d.generic_vars@[i].0@));
        let t = a->Name_0;
        assert(path_prefix(t.path@) =~= Seq::<char>::empty());
        assert(exprs_texts(t.generic_args@, ns) =~= Seq::<Seq<char>>::empty());
        assert(expr_text(a, ns) =~= d.generic_vars@[i].0@);
    }
    assert(texts =~= ident_views(d.generic_vars@));
    assert(path_prefix(n.path@) =~= Seq::<char>::empty());
    assert(expr_text(TypeExpr::Name(n), ns) =~= d.name.0@ + angle_list(ident_views(d.generic_vars@)));
    assert(def_text(d, ns) =~= opt_docs_text(d.docs) + open_path_text(d.path@) + "export type "@
        + expr_text(TypeExpr::Name(n), ns) + "="@ + expr_text(d.def, ns) + ";"@ + close_path_text(
        d.path@,
    ) + "\n"@);
}

// ---------------------------------------------------------------------------
// Documentation.

/// How many times `c` occurs in `s`.
pub open spec fn count_char(s: Seq<char>, c: char) -> nat
    decreases s.len(),
{
    if s.len() == 0 {
        0
    } else {
        count_char(s.drop_last(), c) + (if s.last() == c {
            1nat
        } else {
            0nat
        })
    }
}

pub proof fn lemma_count_concat(a: Seq<char>, b: Seq<char>, c: char)
    ensures
        count_char(a + b, c) == count_char(a, c) + count_char(b, c),
    decreases b.len(),
{
    if b.len() == 0 {
        assert(a + b =~= a);
    } else {
        lemma_count_concat(a, b.drop_last(), c);
        assert((a + b).drop_last() =~= a + b.drop_last());
    }
}

proof fn lemma_count_push(s: Seq<char>, x: char, c: char)
    ensures
        count_char(s.push(x), c) == count_char(s, c) + (if x == c {
            1nat
        } else {
            0nat
        }),
{
    assert(s.push(x).drop_last() =~= s);
}

proof fn lemma_count_newline()
    ensures
        count_char("\n"@, '\n') == 1,
{
    reveal_strlit("\n");
    assert("\n"@ =~= seq!['\n']);
    lemma_count_push(Seq::<char>::empty(), '\n', '\n');
}

proof fn lemma_count_absent(s: Seq<char>, c: char)
    requires
        forall|i: int| 0 <= i < s.len() ==> #[trigger] s[i] != c,
    ensures
        count_char(s, c) == 0,
    decreases s.len(),
{
    if s.len() > 0 {
        let t = s.drop_last();
        assert forall|i: int| 0 <= i < t.len() implies #[trigger] t[i] != c by {
            assert(t[i] == s[i]);
        }
        lemma_count_absent(t, c);
        assert(s[s.len() - 1] != c);
    }
}

proof fn lemma_segments_no_newline(s: Seq<char>)
    ensures
        forall|k: int, j: int|
            0 <= k < segments(s).len() && 0 <= j < segments(s)[k].len() ==> #[trigger] segments(
                s,
            )[k][j] != '\n',
    decreases s.len(),
{
    if s.len() > 0 {
        lemma_segments_no_newline(s.drop_last());
        lemma_segments_nonempty(s.drop_last());
    }
}

/// No line of a text holds a newline.
pub proof fn lemma_text_lines_no_newline(s: Seq<char>, k: int, j: int)
    requires
        0 <= k < text_lines(s).len(),
        0 <= j < text_lines(s)[k].len(),
    ensures
        text_lines(s)[k][j] != '\n',
{
    let segs = segments(s);
    lemma_segments_nonempty(s);
    lemma_segments_no_newline(s);
    if k < segs.len() - 1 {
        let l = segs[k];
        assert(text_lines(s)[k] == strip_cr(l));
        assert(strip_cr(l)[j] == l[j]);
    } else {
        assert(text_lines(s)[k] == segs.last());
    }
}

proof fn lemma_doc_lines_count(ls: Seq<Seq<char>>)
    requires
        forall|k: int, j: int| 0 <= k < ls.len() && 0 <= j < ls[k].len() ==> #[trigger] ls[k][j] != '\n',
    ensures
        count_char(doc_lines_text(ls), '\n') == ls.len(),
    decreases ls.len(),
{
    reveal_strlit(" * ");
    reveal_strlit("\n");
    if ls.len() > 0 {
        let pre = ls.drop_last();
        let l = ls.last();
        assert forall|k: int, j: int| 0 <= k < pre.len() && 0 <= j < pre[k].len() implies #[trigger] pre[k][j] != '\n' by {
            assert(pre[k] == ls[k]);
        }
        lemma_doc_lines_count(pre);
        assert forall|j: int| 0 <= j < l.len() implies #[trigger] l[j] != '\n' by {
            assert(ls[ls.len() - 1][j] != '\n');
        }
        lemma_count_absent(l, '\n');
        lemma_count_absent(" * "@, '\n');
        let p = doc_lines_text(pre);
        lemma_count_concat(p, " * "@, '\n');
        lemma_count_concat(p + " * "@, l, '\n');
        lemma_count_concat(p + " * "@ + l, "\n"@, '\n');
        lemma_count_newline();
    }
}

/// Each line of the documentation, blank lines included, becomes one line
/// of its comment; the comment adds three more: the empty line before it,
/// its opening `/**` and its closing `*/`.
pub proof fn law_each_doc_line_written(d: Docs)
    ensures
        count_char(docs_text(d), '\n') == text_lines(d.0@).len() + 3,
{
    let ls = text_lines(d.0@);
    assert forall|k: int, j: int| 0 <= k < ls.len() && 0 <= j < ls[k].len() implies #[trigger] ls[k][j] != '\n' by {
        lemma_text_lines_no_newline(d.0@, k, j);
    }
    lemma_doc_lines_count(ls);
    reveal_strlit("\n");
    reveal_strlit("/**\n");
    reveal_strlit(" */\n");
    let a = "\n"@;
    let b = "/**\n"@;
    let c = doc_lines_text(ls);
    let e = " */\n"@;
    lemma_count_newline();
    let b0 = Seq::<char>::empty();
    let b1 = b0.push('/');
    let b2 = b1.push('*');
    let b3 = b2.push('*');
    let b4 = b3.push('\n');
    assert(b =~= b4);
    lemma_count_push(b0, '/', '\n');
    lemma_count_push(b1, '*', '\n');
    lemma_count_push(b2, '*', '\n');
    lemma_count_push(b3, '\n', '\n');
    let e1 = b0.push(' ');
    let e2 = e1.push('*');
    let e3 = e2.push('/');
    let e4 = e3.push('\n');
    assert(e =~= e4);
    lemma_count_push(b0, ' ', '\n');
    lemma_count_push(e1, '*', '\n');
    lemma_count_push(e2, '/', '\n');
    lemma_count_push(e3, '\n', '\n');
    lemma_count_concat(a, b, '\n');
    lemma_count_concat(a + b, c, '\n');
    lemma_count_concat(a + b + c, e, '\n');
}

/// A string literal type with documentation is written as the
/// documentation's comment followed by the literal written without it.
pub proof fn law_string_literal_docs_first(s: TypeString, ns: Option<Seq<char>>)
    ensures
        expr_text(TypeExpr::String(s), ns) == opt_docs_text(s.docs) + expr_text(
            TypeExpr::String(TypeString { docs: None, value: s.value }),
            ns,
        ),
{
    assert(opt_docs_text(None) =~= Seq::<char>::empty());
    assert(Seq::<char>::empty() + crate::text::debug_quoted(s.value@) =~= crate::text::debug_quoted(s.value@));
}

/// The comment of any documentation is not empty: it holds at least its
/// opening and closing lines.
pub proof fn law_doc_comment_not_empty(d: Docs)
    ensures
        opt_docs_text(Some(d)).len() >= 3,
{
    law_each_doc_line_written(d);
    let t = docs_text(d);
    if t.len() < 3 {
        lemma_count_at_most_len(t, '\n');
    }
}

proof fn lemma_count_at_most_len(s: Seq<char>, c: char)
    ensures
        count_char(s, c) <= s.len(),
    decreases s.len(),
{
    if s.len() > 0 {
        lemma_count_at_most_len(s.drop_last(), c);
    }
}

} // verus!
