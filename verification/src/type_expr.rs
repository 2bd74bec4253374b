use vstd::prelude::*;

verus! {

/// A TypeScript identifier.
#[derive(Debug, Clone, Copy)]
pub struct Ident(pub &'static str);

/// A documentation comment attached to a type or a field.
#[derive(Debug, Clone, Copy)]
pub struct Docs(pub &'static str);

/// A TypeScript type expression.
pub enum TypeExpr {
    /// A reference to another type, by its type information.
    Ref(Box<TypeInfo>),
    /// A named type, possibly qualified by a namespace path.
    Name(TypeName),
    /// A string literal type.
    String(TypeString),
    /// A tuple type.
    Tuple(TypeTuple),
    /// An object type.
    Object(TypeObject),
    /// An array type.
    Array(TypeArray),
    /// A union type.
    Union(TypeUnion),
    /// An intersection type.
    Intersection(TypeIntersection),
}

/// A named type such as `Record<K, V>` or `a.b.C`.
pub struct TypeName {
    pub path: Vec<Ident>,
    pub name: Ident,
    pub generic_args: Vec<TypeExpr>,
}

/// A string literal type.
pub struct TypeString {
    pub docs: Option<Docs>,
    pub value: &'static str,
}

/// A tuple type `[A, B, ...]`.
pub struct TypeTuple {
    pub docs: Option<Docs>,
    pub elements: Vec<TypeExpr>,
}

/// An object type `{ "a": A; "b"?: B; }`.
pub struct TypeObject {
    pub docs: Option<Docs>,
    pub fields: Vec<ObjectField>,
}

/// One field of an object type.
pub struct ObjectField {
    pub docs: Option<Docs>,
    pub name: TypeString,
    pub optional: bool,
    pub field_type: TypeExpr,
}

/// An array type `(T)[]`.
pub struct TypeArray {
    pub docs: Option<Docs>,
    pub item: Box<TypeExpr>,
}

/// A union type `(A|B|...)`.
pub struct TypeUnion {
    pub docs: Option<Docs>,
    pub members: Vec<TypeExpr>,
}

/// An intersection type `(A&B&...)`.
pub struct TypeIntersection {
    pub docs: Option<Docs>,
    pub members: Vec<TypeExpr>,
}

/// A type definition: `export type Name<Vars>=Def;`, possibly inside
/// nested namespaces.
pub struct TypeDefinition {
    pub docs: Option<Docs>,
    pub path: Vec<Ident>,
    pub name: Ident,
    pub generic_vars: Vec<Ident>,
    pub def: TypeExpr,
}

/// Information about a type that is written out as an expression at each use.
pub struct NativeTypeInfo {
    pub type_ref: TypeExpr,
}

/// Information about a type that has a definition of its own.
pub struct DefinedTypeInfo {
    pub def: TypeDefinition,
    pub generic_args: Vec<TypeExpr>,
}

/// Describes how a type is referenced and, where it has one, its definition.
pub enum TypeInfo {
    Native(NativeTypeInfo),
    Defined(DefinedTypeInfo),
}

} // verus!
