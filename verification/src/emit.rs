use vstd::prelude::*;
use crate::type_expr::{
    Docs, Ident, ObjectField, TypeArray, TypeDefinition, TypeExpr, TypeInfo, TypeIntersection,
    TypeName, TypeObject, TypeString, TypeTuple, TypeUnion,
};
use crate::iter_def_deps::{def_deps, defs_of, iter_def_deps};
use crate::text::{debug_str, lines, str_views, text_lines};
use crate::spec_text::{
    angle_list, def_text, defs_text, doc_lines_text, docs_text, expr_text, exprs_texts, field_text, fields_text,
    ident_views, join, lemma_exprs_texts_len, opt_docs_text, path_prefix, ref_text,
    string_text,
};

verus! {

/// Statistics about the type definitions that were written.
#[derive(Debug, Clone, Copy)]
pub struct Stats {
    /// The number of unique type definitions produced.
    pub type_definitions: usize,
}

/// The root namespace as text.
pub open spec fn ns_view(ns: Option<&str>) -> Option<Seq<char>> {
    match ns {
        Some(r) => Some(r@),
        None => None,
    }
}

/// The output being written, the root namespace that references to defined
/// types are qualified by, and the statistics so far.
pub struct EmitCtx<'ctx> {
    pub out: String,
    pub root_namespace: Option<&'ctx str>,
    pub stats: Stats,
}

/// `after` is `before` with `text` written to its output.
pub open spec fn wrote(before: EmitCtx, after: EmitCtx, text: Seq<char>) -> bool {
    &&& after.out@ == before.out@ + text
    &&& after.root_namespace == before.root_namespace
    &&& after.stats == before.stats
}

impl<'ctx> EmitCtx<'ctx> {
    pub open spec fn ns(&self) -> Option<Seq<char>> {
        ns_view(self.root_namespace)
    }

    /// A context with empty output and no definitions counted yet.
    pub fn new(root_namespace: Option<&'ctx str>) -> (r: Self)
        ensures
            r.out@ == Seq::<char>::empty(),
            r.root_namespace == root_namespace,
            r.stats.type_definitions == 0,
    {
        let stats = Stats { type_definitions: 0 };
        EmitCtx { out: String::new(), root_namespace, stats }
    }

    /// Appends `s` to the output.
    pub fn write_str(&mut self, s: &str)
        ensures
            wrote(*old(self), *final(self), s@),
    {
        self.out.append(s);
    }

    /// Writes the expression that refers to the type `info`.
    pub fn emit_type_ref(&mut self, info: &TypeInfo)
        ensures
            wrote(*old(self), *final(self), ref_text(*info, old(self).ns())),
        decreases info, 0int,
    {
        match info {
            TypeInfo::Native(n) => n.type_ref.emit(self),
            TypeInfo::Defined(d) => {
                let ghost start = self.out@;
                if let Some(root_namespace) = self.root_namespace {
                    self.write_str(root_namespace);
                    self.write_str(".");
                }
                emit_path_prefix(&d.def.path, self);
                d.def.name.emit(self);
                Generics(&d.generic_args).emit(self);
                proof {
                    assert(self.out@ =~= start + ref_text(*info, old(self).ns()));
                }
            },
        }
    }
}

impl<'ctx> EmitCtx<'ctx> {
    /// Writes one type definition and counts it.
    pub fn emit_definition(&mut self, def: &TypeDefinition)
        requires
            old(self).stats.type_definitions < usize::MAX,
        ensures
            final(self).out@ == old(self).out@ + def_text(*def, old(self).ns()),
            final(self).root_namespace == old(self).root_namespace,
            final(self).stats.type_definitions == old(self).stats.type_definitions + 1,
    {
        let ghost start = self.out@;
        self.stats.type_definitions += 1;
        emit_opt_docs(&def.docs, self);
        if def.path.len() != 0 {
            self.write_str("export namespace ");
            emit_ident_list(&def.path, ".", self);
            self.write_str("{");
        }
        self.write_str("export type ");
        def.name.emit(self);
        emit_generic_vars(&def.generic_vars, self);
        self.write_str("=");
        def.def.emit(self);
        self.write_str(";");
        if def.path.len() != 0 {
            self.write_str("}");
        }
        self.write_str("\n");
        proof {
            assert(self.out@ =~= start + def_text(*def, old(self).ns()));
        }
    }

    /// Writes the definitions in order, counting each.
    pub fn emit_definitions(&mut self, defs: &Vec<&TypeDefinition>)
        requires
            old(self).stats.type_definitions + defs@.len() <= usize::MAX,
        ensures
            final(self).out@ == old(self).out@ + defs_text(defs_of(defs@), old(self).ns()),
            final(self).root_namespace == old(self).root_namespace,
            final(self).stats.type_definitions == old(self).stats.type_definitions + defs@.len(),
    {
        let ghost start = self.out@;
        let ghost all = defs_of(defs@);
        let mut i: usize = 0;
        while i < defs.len()
            invariant
                i <= defs.len(),
                all == defs_of(defs@),
                self.out@ == start + defs_text(all.take(i as int), old(self).ns()),
                self.root_namespace == old(self).root_namespace,
                self.stats.type_definitions == old(self).stats.type_definitions + i,
                old(self).stats.type_definitions + defs@.len() <= usize::MAX,
            decreases defs.len() - i,
        {
            self.emit_definition(defs[i]);
            proof {
                let t = all.take(i + 1);
                assert(t.drop_last() =~= all.take(i as int));
                assert(t.last() == *defs@[i as int]);
            }
            i = i + 1;
        }
        proof {
            assert(all.take(defs.len() as int) =~= all);
        }
    }

    /// Writes the definition of `info` and of every type it depends on, each
    /// once, dependencies first.
    pub fn emit_type_def(&mut self, info: &TypeInfo)
        requires
            old(self).stats.type_definitions + def_deps(*info).len() <= usize::MAX,
        ensures
            final(self).out@ == old(self).out@ + defs_text(def_deps(*info), old(self).ns()),
            final(self).root_namespace == old(self).root_namespace,
            final(self).stats.type_definitions == old(self).stats.type_definitions + def_deps(
                *info,
            ).len(),
    {
        let deps = iter_def_deps(info);
        self.emit_definitions(&deps);
    }
}

/// Writes the identifiers with `sep` between them.
pub fn emit_ident_list(idents: &Vec<Ident>, sep: &str, ctx: &mut EmitCtx)
    ensures
        wrote(*old(ctx), *final(ctx), join(ident_views(idents@), sep@)),
{
    let ghost start = ctx.out@;
    let ghost all = ident_views(idents@);
    let mut i: usize = 0;
    while i < idents.len()
        invariant
            i <= idents.len(),
            all == ident_views(idents@),
            ctx.out@ == start + join(all.take(i as int), sep@),
            ctx.root_namespace == old(ctx).root_namespace,
            ctx.stats == old(ctx).stats,
            start == old(ctx).out@,
        decreases idents.len() - i,
    {
        if i != 0 {
            ctx.write_str(sep);
        }
        idents[i].emit(ctx);
        proof {
            let t = all.take(i + 1);
            assert(t.drop_last() =~= all.take(i as int));
            assert(t.last() == idents@[i as int].0@);
            if i == 0 {
                assert(t.len() == 1);
            }
        }
        i = i + 1;
    }
    proof {
        assert(all.take(idents.len() as int) =~= all);
    }
}

/// Generic variables: `<A,B>`, or nothing for none.
pub fn emit_generic_vars(vars: &Vec<Ident>, ctx: &mut EmitCtx)
    ensures
        wrote(*old(ctx), *final(ctx), angle_list(ident_views(vars@))),
{
    let ghost start = ctx.out@;
    if vars.len() != 0 {
        ctx.write_str("<");
        emit_ident_list(vars, ",", ctx);
        ctx.write_str(">");
        proof {
            assert(ctx.out@ =~= start + angle_list(ident_views(vars@)));
        }
    } else {
        proof {
            assert(ident_views(vars@).len() == 0);
            assert(ctx.out@ =~= start + angle_list(ident_views(vars@)));
        }
    }
}

/// Writes each identifier of `path` followed by a dot.
pub fn emit_path_prefix(path: &Vec<Ident>, ctx: &mut EmitCtx)
    ensures
        wrote(*old(ctx), *final(ctx), path_prefix(path@)),
{
    let ghost start = ctx.out@;
    let mut i: usize = 0;
    while i < path.len()
        invariant
            i <= path.len(),
            ctx.out@ == start + path_prefix(path@.take(i as int)),
            ctx.root_namespace == old(ctx).root_namespace,
            ctx.stats == old(ctx).stats,
            start == old(ctx).out@,
        decreases path.len() - i,
    {
        path[i].emit(ctx);
        ctx.write_str(".");
        proof {
            assert(path@.take(i + 1).drop_last() =~= path@.take(i as int));
        }
        i = i + 1;
    }
    proof {
        assert(path@.take(path.len() as int) =~= path@);
    }
}

/// A list of type expressions written with a separator between them.
pub struct SepList<'a>(pub &'a Vec<TypeExpr>, pub &'static str);

impl<'a> SepList<'a> {
    pub fn emit(&self, ctx: &mut EmitCtx)
        ensures
            wrote(*old(ctx), *final(ctx), join(exprs_texts(self.0@, old(ctx).ns()), self.1@)),
        decreases self.0, 0int,
    {
        let elements = self.0;
        let separator = self.1;
        let ghost ns = ctx.ns();
        let ghost start = ctx.out@;
        let mut first = true;
        let mut i: usize = 0;
        while i < elements.len()
            invariant
                i <= elements.len(),
                first == (i == 0),
                ctx.out@ == start + join(exprs_texts(elements@.take(i as int), ns), separator@),
                ctx.root_namespace == old(ctx).root_namespace,
                ctx.stats == old(ctx).stats,
                start == old(ctx).out@,
                ns == old(ctx).ns(),
                elements == self.0,
            decreases elements.len() - i,
        {
            if !first {
                ctx.write_str(separator);
            }
            elements[i].emit(ctx);
            first = false;
            proof {
                let t = elements@.take(i + 1);
                assert(t.subrange(0, t.len() - 1) =~= elements@.take(i as int));
                let parts = exprs_texts(t, ns);
                assert(parts.drop_last() =~= exprs_texts(elements@.take(i as int), ns));
                assert(parts.last() == expr_text(elements@[i as int], ns));
                if i == 0 {
                    assert(parts.len() == 1);
                }
            }
            i = i + 1;
        }
        proof {
            assert(elements@.take(elements.len() as int) =~= elements@);
        }
    }
}

/// Generic arguments: `<A,B>`, or nothing for none.
pub struct Generics<'a>(pub &'a Vec<TypeExpr>);

impl<'a> Generics<'a> {
    pub fn emit(&self, ctx: &mut EmitCtx)
        ensures
            wrote(*old(ctx), *final(ctx), angle_list(exprs_texts(self.0@, old(ctx).ns()))),
        decreases self.0, 1int,
    {
        let args = self.0;
        let ghost start = ctx.out@;
        if args.len() != 0 {
            ctx.write_str("<");
            SepList(args, ",").emit(ctx);
            ctx.write_str(">");
            proof {
                assert(ctx.out@ =~= start + angle_list(exprs_texts(self.0@, old(ctx).ns())));
            }
        } else {
            proof {
                assert(ctx.out@ =~= start + angle_list(exprs_texts(self.0@, old(ctx).ns())));
            }
        }
    }
}

impl TypeExpr {
    pub fn emit(&self, ctx: &mut EmitCtx)
        ensures
            wrote(*old(ctx), *final(ctx), expr_text(*self, old(ctx).ns())),
        decreases self, 0int,
    {
        match self {
            TypeExpr::Ref(type_info) => ctx.emit_type_ref(type_info),
            TypeExpr::Name(name_expr) => name_expr.emit(ctx),
            TypeExpr::String(type_string) => type_string.emit(ctx),
            TypeExpr::Tuple(type_tuple) => type_tuple.emit(ctx),
            TypeExpr::Object(type_object) => type_object.emit(ctx),
            TypeExpr::Array(type_array) => type_array.emit(ctx),
            TypeExpr::Union(type_union) => type_union.emit(ctx),
            TypeExpr::Intersection(type_intersection) => type_intersection.emit(ctx),
        }
    }
}

impl TypeName {
    pub fn emit(&self, ctx: &mut EmitCtx)
        ensures
            wrote(*old(ctx), *final(ctx), expr_text(TypeExpr::Name(*self), old(ctx).ns())),
        decreases self, 0int,
    {
        let ghost start = ctx.out@;
        emit_path_prefix(&self.path, ctx);
        self.name.emit(ctx);
        Generics(&self.generic_args).emit(ctx);
        proof {
            assert(ctx.out@ =~= start + expr_text(TypeExpr::Name(*self), old(ctx).ns()));
        }
    }
}

impl TypeString {
    pub fn emit(&self, ctx: &mut EmitCtx)
        ensures
            wrote(*old(ctx), *final(ctx), string_text(*self)),
    {
        let ghost start = ctx.out@;
        emit_opt_docs(&self.docs, ctx);
        let quoted = debug_str(self.value);
        ctx.write_str(quoted.as_str());
        proof {
            assert(ctx.out@ =~= start + string_text(*self));
        }
    }
}

impl TypeTuple {
    pub fn emit(&self, ctx: &mut EmitCtx)
        ensures
            wrote(*old(ctx), *final(ctx), expr_text(TypeExpr::Tuple(*self), old(ctx).ns())),
        decreases self, 0int,
    {
        let ghost start = ctx.out@;
        emit_opt_docs(&self.docs, ctx);
        ctx.write_str("[");
        SepList(&self.elements, ",").emit(ctx);
        ctx.write_str("]");
        proof {
            assert(ctx.out@ =~= start + expr_text(TypeExpr::Tuple(*self), old(ctx).ns()));
        }
    }
}

impl TypeObject {
    pub fn emit(&self, ctx: &mut EmitCtx)
        ensures
            wrote(*old(ctx), *final(ctx), expr_text(TypeExpr::Object(*self), old(ctx).ns())),
        decreases self, 0int,
    {
        let ghost start0 = ctx.out@;
        emit_opt_docs(&self.docs, ctx);
        ctx.write_str("{");
        let ghost ns = ctx.ns();
        let ghost start = ctx.out@;
        let fields = &self.fields;
        let mut i: usize = 0;
        while i < fields.len()
            invariant
                i <= fields.len(),
                ctx.out@ == start + fields_text(fields@.take(i as int), ns),
                ctx.root_namespace == old(ctx).root_namespace,
                ctx.stats == old(ctx).stats,
                ns == old(ctx).ns(),
                fields == &self.fields,
            decreases fields.len() - i,
        {
            emit_field(&fields[i], ctx);
            proof {
                let t = fields@.take(i + 1);
                assert(t.subrange(0, t.len() - 1) =~= fields@.take(i as int));
                assert(t[t.len() - 1] == fields@[i as int]);
            }
            i = i + 1;
        }
        proof {
            assert(fields@.take(fields.len() as int) =~= fields@);
        }
        ctx.write_str("}");
        proof {
            assert(ctx.out@ =~= start0 + expr_text(TypeExpr::Object(*self), old(ctx).ns()));
        }
    }
}

/// Writes one field of an object type.
pub fn emit_field(field: &ObjectField, ctx: &mut EmitCtx)
    ensures
        wrote(*old(ctx), *final(ctx), field_text(*field, old(ctx).ns())),
    decreases field, 0int,
{
    let ghost start = ctx.out@;
    emit_opt_docs(&field.docs, ctx);
    field.name.emit(ctx);
    if field.optional {
        ctx.write_str("?");
    }
    ctx.write_str(":");
    field.field_type.emit(ctx);
    ctx.write_str(";");
    proof {
        assert(ctx.out@ =~= start + field_text(*field, old(ctx).ns()));
    }
}

impl TypeArray {
    pub fn emit(&self, ctx: &mut EmitCtx)
        ensures
            wrote(*old(ctx), *final(ctx), expr_text(TypeExpr::Array(*self), old(ctx).ns())),
        decreases self, 0int,
    {
        let ghost start = ctx.out@;
        emit_opt_docs(&self.docs, ctx);
        ctx.write_str("(");
        self.item.emit(ctx);
        ctx.write_str(")[]");
        proof {
            assert(ctx.out@ =~= start + expr_text(TypeExpr::Array(*self), old(ctx).ns()));
        }
    }
}

impl TypeUnion {
    pub fn emit(&self, ctx: &mut EmitCtx)
        ensures
            wrote(*old(ctx), *final(ctx), expr_text(TypeExpr::Union(*self), old(ctx).ns())),
        decreases self, 0int,
    {
        let ghost start = ctx.out@;
        emit_opt_docs(&self.docs, ctx);
        if self.members.len() == 0 {
            ctx.write_str("never");
        } else {
            ctx.write_str("(");
            SepList(&self.members, "|").emit(ctx);
            ctx.write_str(")");
        }
        proof {
            lemma_exprs_texts_len(self.members@, old(ctx).ns());
            assert(ctx.out@ =~= start + expr_text(TypeExpr::Union(*self), old(ctx).ns()));
        }
    }
}

impl TypeIntersection {
    pub fn emit(&self, ctx: &mut EmitCtx)
        ensures
            wrote(*old(ctx), *final(ctx), expr_text(TypeExpr::Intersection(*self), old(ctx).ns())),
        decreases self, 0int,
    {
        let ghost start = ctx.out@;
        emit_opt_docs(&self.docs, ctx);
        if self.members.len() == 0 {
            ctx.write_str("any");
        } else {
            ctx.write_str("(");
            SepList(&self.members, "&").emit(ctx);
            ctx.write_str(")");
        }
        proof {
            lemma_exprs_texts_len(self.members@, old(ctx).ns());
            assert(ctx.out@ =~= start + expr_text(TypeExpr::Intersection(*self), old(ctx).ns()));
        }
    }
}

impl Ident {
    pub fn emit(&self, ctx: &mut EmitCtx)
        ensures
            wrote(*old(ctx), *final(ctx), self.0@),
    {
        ctx.write_str(self.0);
    }
}

impl Docs {
    pub fn emit(&self, ctx: &mut EmitCtx)
        ensures
            wrote(*old(ctx), *final(ctx), docs_text(*self)),
    {
        let ghost start0 = ctx.out@;
        ctx.write_str("\n");
        ctx.write_str("/**\n");
        let ls = lines(self.0);
        let ghost start = ctx.out@;
        let ghost all = str_views(ls@);
        let mut i: usize = 0;
        while i < ls.len()
            invariant
                i <= ls.len(),
                all == str_views(ls@),
                ctx.out@ == start + doc_lines_text(all.take(i as int)),
                ctx.root_namespace == old(ctx).root_namespace,
                ctx.stats == old(ctx).stats,
            decreases ls.len() - i,
        {
            ctx.write_str(" * ");
            ctx.write_str(ls[i]);
            ctx.write_str("\n");
            proof {
                let t = all.take(i + 1);
                assert(t.drop_last() =~= all.take(i as int));
                assert(t.last() == ls@[i as int]@);
            }
            i = i + 1;
        }
        proof {
            assert(all.take(ls.len() as int) =~= all);
            assert(all == text_lines(self.0@));
        }
        ctx.write_str(" */\n");
        proof {
            assert(ctx.out@ =~= start0 + docs_text(*self));
        }
    }
}

/// Writes the documentation, where there is any.
pub fn emit_opt_docs(docs: &Option<Docs>, ctx: &mut EmitCtx)
    ensures
        wrote(*old(ctx), *final(ctx), opt_docs_text(*docs)),
{
    if let Some(inner) = docs {
        inner.emit(ctx);
    }
}

/// A Rust type that has a corresponding TypeScript type definition: the
/// information that describes the JSON encoding of its values.
pub trait TypeDef {
    /// The structure of this type, from which its TypeScript definition is
    /// written.
    fn info() -> TypeInfo;
}

/// Options for customizing the output of [`write_definition_file`].
#[derive(Debug, Clone, Copy, PartialEq, Eq)]
pub struct DefinitionFileOptions<'a> {
    /// Text to be emitted at the start of the file, or no header.
    pub header: Option<&'a str>,
    /// The name of the root namespace that the definitions are placed under,
    /// or none.
    pub root_namespace: Option<&'a str>,
}

impl<'a> Default for DefinitionFileOptions<'a> {
    fn default() -> (r: Self)
        ensures
            r.header matches Some(h) && h@ == "// AUTO-GENERATED by typescript-type-def\n"@,
            r.root_namespace matches Some(n) && n@ == "types"@,
    {
        DefinitionFileOptions {
            header: Some("// AUTO-GENERATED by typescript-type-def\n"),
            root_namespace: Some("types"),
        }
    }
}

/// The header line, where there is one.
pub open spec fn header_text(header: Option<Seq<char>>) -> Seq<char> {
    match header {
        Some(h) => h + "\n"@,
        None => Seq::<char>::empty(),
    }
}

/// The default export of the root namespace and its opening.
pub open spec fn open_root_text(ns: Option<Seq<char>>) -> Seq<char> {
    match ns {
        Some(r) => "export default "@ + r + ";\n"@ + "export namespace "@ + r + "{\n"@,
        None => Seq::<char>::empty(),
    }
}

/// The closing of the root namespace.
pub open spec fn close_root_text(ns: Option<Seq<char>>) -> Seq<char> {
    match ns {
        Some(r) => "}\n"@,
        None => Seq::<char>::empty(),
    }
}

/// The definition file for `info`: the header, the root namespace opened,
/// the definitions of `info` and of everything it depends on, the root
/// namespace closed.
pub open spec fn definition_file_text(options: DefinitionFileOptions, info: TypeInfo) -> Seq<
    char,
> {
    let ns = ns_view(options.root_namespace);
    header_text(ns_view(options.header)) + open_root_text(ns) + defs_text(def_deps(info), ns)
        + close_root_text(ns)
}

/// Writes a TypeScript definition file that defines and exports the type
/// `info` and all of its transitive dependencies, and returns how many
/// definitions it wrote.
pub fn write_definition_file(
    writer: &mut String,
    info: &TypeInfo,
    options: DefinitionFileOptions<'_>,
) -> (r: Stats)
    ensures
        final(writer)@ == old(writer)@ + definition_file_text(options, *info),
        r.type_definitions == def_deps(*info).len(),
{
    let ghost start = writer@;
    if let Some(header) = options.header {
        writer.append(header);
        writer.append("\n");
    }
    if let Some(root_namespace) = options.root_namespace {
        writer.append("export default ");
        writer.append(root_namespace);
        writer.append(";\n");
        writer.append("export namespace ");
        writer.append(root_namespace);
        writer.append("{\n");
    }
    let deps = iter_def_deps(info);
    proof {
        broadcast use vstd::std_specs::vec::axiom_spec_len;
        assert(deps@.len() == deps.len());
    }
    let mut ctx = EmitCtx::new(options.root_namespace);
    ctx.emit_definitions(&deps);
    writer.append(ctx.out.as_str());
    let stats = ctx.stats;
    if options.root_namespace.is_some() {
        writer.append("}\n");
    }
    proof {
        assert(writer@ =~= start + definition_file_text(options, *info));
    }
    stats
}

impl TypeInfo {
    /// Writes a TypeScript type expression that refers to this type, with
    /// defined types qualified by `root_namespace`.
    pub fn write_ref_expr(&self, writer: &mut String, root_namespace: Option<&str>)
        ensures
            final(writer)@ == old(writer)@ + ref_text(*self, ns_view(root_namespace)),
    {
        let mut ctx = EmitCtx::new(root_namespace);
        ctx.emit_type_ref(self);
        writer.append(ctx.out.as_str());
    }
}

} // verus!
