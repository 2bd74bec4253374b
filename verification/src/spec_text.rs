use vstd::prelude::*;
use crate::type_expr::{Docs, Ident, ObjectField, TypeDefinition, TypeExpr, TypeInfo, TypeString};
use crate::text::{debug_quoted, text_lines};

verus! {

/// The parts separated by `sep`.
pub open spec fn join(parts: Seq<Seq<char>>, sep: Seq<char>) -> Seq<char>
    decreases parts.len(),
{
    if parts.len() == 0 {
        Seq::<char>::empty()
    } else if parts.len() == 1 {
        parts[0]
    } else {
        join(parts.drop_last(), sep) + sep + parts.last()
    }
}

/// The names of identifiers.
pub open spec fn ident_views(idents: Seq<Ident>) -> Seq<Seq<char>> {
    idents.map_values(|i: Ident| i.0@)
}

/// Each identifier of a namespace path followed by a dot.
pub open spec fn path_prefix(path: Seq<Ident>) -> Seq<char>
    decreases path.len(),
{
    if path.len() == 0 {
        Seq::<char>::empty()
    } else {
        path_prefix(path.drop_last()) + path.last().0@ + "."@
    }
}

/// `<a,b,c>` for the texts `a`, `b`, `c`; nothing for none.
pub open spec fn angle_list(parts: Seq<Seq<char>>) -> Seq<char> {
    if parts.len() == 0 {
        Seq::<char>::empty()
    } else {
        "<"@ + join(parts, ","@) + ">"@
    }
}

/// The comment block for documentation: each line of it behind ` * `.
pub open spec fn doc_lines_text(lines: Seq<Seq<char>>) -> Seq<char>
    decreases lines.len(),
{
    if lines.len() == 0 {
        Seq::<char>::empty()
    } else {
        doc_lines_text(lines.drop_last()) + " * "@ + lines.last() + "\n"@
    }
}

pub open spec fn docs_text(d: Docs) -> Seq<char> {
    "\n"@ + "/**\n"@ + doc_lines_text(text_lines(d.0@)) + " */\n"@
}

pub open spec fn opt_docs_text(d: Option<Docs>) -> Seq<char> {
    match d {
        Some(d) => docs_text(d),
        None => Seq::<char>::empty(),
    }
}

pub open spec fn string_text(s: TypeString) -> Seq<char> {
    opt_docs_text(s.docs) + debug_quoted(s.value@)
}

/// What a reference to a defined type starts with: the root namespace
/// and a dot, where there is one.
pub open spec fn root_prefix(ns: Option<Seq<char>>) -> Seq<char> {
    match ns {
        Some(r) => r + "."@,
        None => Seq::<char>::empty(),
    }
}

/// A union or an intersection: `empty` for no members, else the members in
/// brackets, separated by `sep`.
pub open spec fn members_text(parts: Seq<Seq<char>>, sep: Seq<char>, empty: Seq<char>) -> Seq<
    char,
> {
    if parts.len() == 0 {
        empty
    } else {
        "("@ + join(parts, sep) + ")"@
    }
}

/// The text of a type expression, where references to defined types are
/// qualified by the root namespace `ns`.
pub open spec fn expr_text(e: TypeExpr, ns: Option<Seq<char>>) -> Seq<char>
    decreases e,
{
    match e {
        TypeExpr::Ref(info) => ref_text(*info, ns),
        TypeExpr::Name(n) => path_prefix(n.path@) + n.name.0@ + angle_list(
            exprs_texts(n.generic_args@, ns),
        ),
        TypeExpr::String(s) => string_text(s),
        TypeExpr::Tuple(t) => opt_docs_text(t.docs) + "["@ + join(
            exprs_texts(t.elements@, ns),
            ","@,
        ) + "]"@,
        TypeExpr::Object(o) => opt_docs_text(o.docs) + "{"@ + fields_text(o.fields@, ns) + "}"@,
        TypeExpr::Array(a) => opt_docs_text(a.docs) + "("@ + expr_text(*a.item, ns) + ")[]"@,
        TypeExpr::Union(u) => opt_docs_text(u.docs) + members_text(
            exprs_texts(u.members@, ns),
            "|"@,
            "never"@,
        ),
        TypeExpr::Intersection(i) => opt_docs_text(i.docs) + members_text(
            exprs_texts(i.members@, ns),
            "&"@,
            "any"@,
        ),
    }
}

/// The text that refers to a type: the expression of a native type, or the
/// qualified name and generic arguments of a defined one.
pub open spec fn ref_text(info: TypeInfo, ns: Option<Seq<char>>) -> Seq<char>
    decreases info,
{
    match info {
        TypeInfo::Native(n) => expr_text(n.type_ref, ns),
        TypeInfo::Defined(d) => root_prefix(ns) + path_prefix(d.def.path@) + d.def.name.0@
            + angle_list(exprs_texts(d.generic_args@, ns)),
    }
}

/// The text of each expression.
pub open spec fn exprs_texts(es: Seq<TypeExpr>, ns: Option<Seq<char>>) -> Seq<Seq<char>>
    decreases es,
{
    if es.len() == 0 {
        Seq::<Seq<char>>::empty()
    } else {
        exprs_texts(es.subrange(0, es.len() - 1), ns).push(expr_text(es[es.len() - 1], ns))
    }
}

/// The fields of an object type, one after another.
pub open spec fn fields_text(fs: Seq<ObjectField>, ns: Option<Seq<char>>) -> Seq<char>
    decreases fs,
{
    if fs.len() == 0 {
        Seq::<char>::empty()
    } else {
        fields_text(fs.subrange(0, fs.len() - 1), ns) + field_text(fs[fs.len() - 1], ns)
    }
}

/// One field: `"name"?:Type;`.
pub open spec fn field_text(f: ObjectField, ns: Option<Seq<char>>) -> Seq<char>
    decreases f,
{
    opt_docs_text(f.docs) + string_text(f.name) + (if f.optional {
        "?"@
    } else {
        Seq::<char>::empty()
    }) + ":"@ + expr_text(f.field_type, ns) + ";"@
}

/// Opens the namespace path of a definition, where it has one.
pub open spec fn open_path_text(path: Seq<Ident>) -> Seq<char> {
    if path.len() == 0 {
        Seq::<char>::empty()
    } else {
        "export namespace "@ + join(ident_views(path), "."@) + "{"@
    }
}

/// Closes the namespace path of a definition, where it has one.
pub open spec fn close_path_text(path: Seq<Ident>) -> Seq<char> {
    if path.len() == 0 {
        Seq::<char>::empty()
    } else {
        "}"@
    }
}

/// The line that defines a type: `export type Name<Vars>=Def;`, inside its
/// namespace path, after its documentation.
pub open spec fn def_text(d: TypeDefinition, ns: Option<Seq<char>>) -> Seq<char> {
    opt_docs_text(d.docs) + open_path_text(d.path@) + "export type "@ + d.name.0@ + angle_list(
        ident_views(d.generic_vars@),
    ) + "="@ + expr_text(d.def, ns) + ";"@ + close_path_text(d.path@) + "\n"@
}

/// The definitions, one after another.
pub open spec fn defs_text(ds: Seq<TypeDefinition>, ns: Option<Seq<char>>) -> Seq<char>
    decreases ds.len(),
{
    if ds.len() == 0 {
        Seq::<char>::empty()
    } else {
        defs_text(ds.drop_last(), ns) + def_text(ds.last(), ns)
    }
}

/// There is one text for each expression.
pub proof fn lemma_exprs_texts_len(es: Seq<TypeExpr>, ns: Option<Seq<char>>)
    ensures
        exprs_texts(es, ns).len() == es.len(),
    decreases es.len(),
{
    if es.len() > 0 {
        lemma_exprs_texts_len(es.subrange(0, es.len() - 1), ns);
    }
}

} // verus!
