use vstd::prelude::*;
use crate::type_expr::{ObjectField, TypeDefinition, TypeExpr, TypeInfo};
use crate::same::{def_eq, def_same};

verus! {

/// The definitions that the references point to.
pub open spec fn defs_of(s: Seq<&TypeDefinition>) -> Seq<TypeDefinition> {
    s.map_values(|d: &TypeDefinition| *d)
}

/// Some definition in `acc` is the same as `d`.
pub open spec fn contains_same(acc: Seq<TypeDefinition>, d: TypeDefinition) -> bool {
    exists|i: int| 0 <= i < acc.len() && def_same(#[trigger] acc[i], d)
}

/// `acc` with `d` added at the end, unless a definition that is the same is
/// already there.
pub open spec fn add_def(acc: Seq<TypeDefinition>, d: TypeDefinition) -> Seq<TypeDefinition> {
    if contains_same(acc, d) {
        acc
    } else {
        acc.push(d)
    }
}

/// Visits the definitions that `info` depends on, dependencies first: for a
/// defined type, its generic arguments, then the types its definition refers
/// to, then its own definition.
pub open spec fn visit_info(info: TypeInfo, acc: Seq<TypeDefinition>) -> Seq<TypeDefinition>
    decreases info,
{
    match info {
        TypeInfo::Native(n) => visit_expr(n.type_ref, acc),
        TypeInfo::Defined(d) => add_def(
            visit_expr(d.def.def, visit_exprs(d.generic_args@, acc)),
            d.def,
        ),
    }
}

/// Visits the types that an expression refers to, from left to right.
pub open spec fn visit_expr(e: TypeExpr, acc: Seq<TypeDefinition>) -> Seq<TypeDefinition>
    decreases e,
{
    match e {
        TypeExpr::Ref(info) => visit_info(*info, acc),
        TypeExpr::Name(n) => visit_exprs(n.generic_args@, acc),
        TypeExpr::String(_) => acc,
        TypeExpr::Tuple(t) => visit_exprs(t.elements@, acc),
        TypeExpr::Object(o) => visit_fields(o.fields@, acc),
        TypeExpr::Array(a) => visit_expr(*a.item, acc),
        TypeExpr::Union(u) => visit_exprs(u.members@, acc),
        TypeExpr::Intersection(i) => visit_exprs(i.members@, acc),
    }
}

pub open spec fn visit_exprs(es: Seq<TypeExpr>, acc: Seq<TypeDefinition>) -> Seq<TypeDefinition>
    decreases es,
{
    if es.len() == 0 {
        acc
    } else {
        visit_expr(es[es.len() - 1], visit_exprs(es.subrange(0, es.len() - 1), acc))
    }
}

pub open spec fn visit_fields(fs: Seq<ObjectField>, acc: Seq<TypeDefinition>) -> Seq<
    TypeDefinition,
>
    decreases fs,
{
    if fs.len() == 0 {
        acc
    } else {
        visit_expr(fs[fs.len() - 1].field_type, visit_fields(fs.subrange(0, fs.len() - 1), acc))
    }
}

/// The definitions that a file for `info` holds, in the order they are
/// written.
pub open spec fn def_deps(info: TypeInfo) -> Seq<TypeDefinition> {
    visit_info(info, Seq::<TypeDefinition>::empty())
}

fn add_def_exec<'a>(acc: &mut Vec<&'a TypeDefinition>, d: &'a TypeDefinition)
    ensures
        defs_of(final(acc)@) == add_def(defs_of(old(acc)@), *d),
{
    let mut i: usize = 0;
    while i < acc.len()
        invariant
            i <= acc.len(),
            acc@ == old(acc)@,
            forall|k: int| 0 <= k < i ==> !def_same(#[trigger] defs_of(acc@)[k], *d),
        decreases acc.len() - i,
    {
        if def_eq(acc[i], d) {
            proof {
                assert(def_same(defs_of(acc@)[i as int], *d));
            }
            return;
        }
        i = i + 1;
    }
    let ghost before = acc@;
    acc.push(d);
    proof {
        assert(defs_of(acc@) =~= defs_of(before).push(*d));
    }
}

fn collect_info<'a>(info: &'a TypeInfo, acc: &mut Vec<&'a TypeDefinition>)
    ensures
        defs_of(final(acc)@) == visit_info(*info, defs_of(old(acc)@)),
    decreases info, 0int,
{
    match info {
        TypeInfo::Native(n) => collect_expr(&n.type_ref, acc),
        TypeInfo::Defined(d) => {
            collect_exprs(&d.generic_args, acc);
            collect_expr(&d.def.def, acc);
            add_def_exec(acc, &d.def);
        },
    }
}

fn collect_expr<'a>(e: &'a TypeExpr, acc: &mut Vec<&'a TypeDefinition>)
    ensures
        defs_of(final(acc)@) == visit_expr(*e, defs_of(old(acc)@)),
    decreases e, 0int,
{
    match e {
        TypeExpr::Ref(info) => collect_info(info, acc),
        TypeExpr::Name(n) => collect_exprs(&n.generic_args, acc),
        TypeExpr::String(_) => {},
        TypeExpr::Tuple(t) => collect_exprs(&t.elements, acc),
        TypeExpr::Object(o) => collect_fields(&o.fields, acc),
        TypeExpr::Array(a) => collect_expr(&a.item, acc),
        TypeExpr::Union(u) => collect_exprs(&u.members, acc),
        TypeExpr::Intersection(x) => collect_exprs(&x.members, acc),
    }
}

fn collect_exprs<'a>(es: &'a Vec<TypeExpr>, acc: &mut Vec<&'a TypeDefinition>)
    ensures
        defs_of(final(acc)@) == visit_exprs(es@, defs_of(old(acc)@)),
    decreases es, 0int,
{
    let ghost start = defs_of(acc@);
    let mut i: usize = 0;
    while i < es.len()
        invariant
            i <= es.len(),
            start == defs_of(old(acc)@),
            defs_of(acc@) == visit_exprs(es@.take(i as int), start),
        decreases es.len() - i,
    {
        collect_expr(&es[i], acc);
        proof {
            let t = es@.take(i + 1);
            assert(t.subrange(0, t.len() - 1) =~= es@.take(i as int));
            assert(t[t.len() - 1] == es@[i as int]);
        }
        i = i + 1;
    }
    proof {
        assert(es@.take(es.len() as int) =~= es@);
    }
}

fn collect_fields<'a>(fs: &'a Vec<ObjectField>, acc: &mut Vec<&'a TypeDefinition>)
    ensures
        defs_of(final(acc)@) == visit_fields(fs@, defs_of(old(acc)@)),
    decreases fs, 0int,
{
    let ghost start = defs_of(acc@);
    let mut i: usize = 0;
    while i < fs.len()
        invariant
            i <= fs.len(),
            start == defs_of(old(acc)@),
            defs_of(acc@) == visit_fields(fs@.take(i as int), start),
        decreases fs.len() - i,
    {
        collect_expr(&fs[i].field_type, acc);
        proof {
            let t = fs@.take(i + 1);
            assert(t.subrange(0, t.len() - 1) =~= fs@.take(i as int));
            assert(t[t.len() - 1] == fs@[i as int]);
        }
        i = i + 1;
    }
    proof {
        assert(fs@.take(fs.len() as int) =~= fs@);
    }
}

/// The definitions of `info` and of all the types it depends on, each
/// once, dependencies before the types that depend on them.
pub fn iter_def_deps<'a>(info: &'a TypeInfo) -> (r: Vec<&'a TypeDefinition>)
    ensures
        defs_of(r@) == def_deps(*info),
{
    let mut acc: Vec<&'a TypeDefinition> = Vec::new();
    proof {
        assert(defs_of(acc@) =~= Seq::<TypeDefinition>::empty());
    }
    collect_info(info, &mut acc);
    acc
}

} // verus!
