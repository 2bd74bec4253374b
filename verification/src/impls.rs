use vstd::prelude::*;
use crate::emit::TypeDef;
use crate::type_expr::{
    DefinedTypeInfo, Ident, NativeTypeInfo, TypeArray, TypeDefinition, TypeExpr, TypeInfo,
    TypeName, TypeTuple, TypeUnion,
};
use std::collections::{BTreeMap, BTreeSet, HashMap, HashSet};

verus! {

/// `e` is the plain name `name`: no namespace path, no generic arguments.
pub open spec fn plain_name(e: TypeExpr, name: Seq<char>) -> bool {
    &&& e matches TypeExpr::Name(t)
    &&& t.path@.len() == 0
    &&& t.name.0@ == name
    &&& t.generic_args@.len() == 0
}

/// `info` is a native type written as the plain name `name`.
pub open spec fn native_named(info: TypeInfo, name: Seq<char>) -> bool {
    info matches TypeInfo::Native(n) && plain_name(n.type_ref, name)
}

/// `info` is a defined type `name` without documentation, namespace path,
/// generic variables or generic arguments, whose definition is `number`.
pub open spec fn number_alias_named(info: TypeInfo, name: Seq<char>) -> bool {
    &&& info matches TypeInfo::Defined(d)
    &&& d.generic_args@.len() == 0
    &&& d.def.docs is None
    &&& d.def.path@.len() == 0
    &&& d.def.name.0@ == name
    &&& d.def.generic_vars@.len() == 0
    &&& plain_name(d.def.def, "number"@)
}

/// `e` refers to exactly `info`.
pub open spec fn refers_to(e: TypeExpr, info: TypeInfo) -> bool {
    e matches TypeExpr::Ref(b) && *b == info
}

/// `e` refers to type information that a call of `T::info` can return.
pub open spec fn refers_to_info_of<T: TypeDef + ?Sized>(e: TypeExpr) -> bool {
    e matches TypeExpr::Ref(b) && call_ensures(T::info, (), *b)
}

/// `info` is a native array type, without documentation, whose item
/// satisfies `item`.
pub open spec fn native_array(info: TypeInfo, item: spec_fn(TypeExpr) -> bool) -> bool {
    &&& info matches TypeInfo::Native(n)
    &&& n.type_ref matches TypeExpr::Array(a)
    &&& a.docs is None
    &&& item(*a.item)
}

/// `info` is the native type `Record<K,V>` whose two generic arguments
/// satisfy `key` and `value`.
pub open spec fn native_record(
    info: TypeInfo,
    key: spec_fn(TypeExpr) -> bool,
    value: spec_fn(TypeExpr) -> bool,
) -> bool {
    &&& info matches TypeInfo::Native(n)
    &&& n.type_ref matches TypeExpr::Name(t)
    &&& t.path@.len() == 0
    &&& t.name.0@ == "Record"@
    &&& t.generic_args@.len() == 2
    &&& key(t.generic_args@[0])
    &&& value(t.generic_args@[1])
}

/// `info` is a native tuple type, without documentation, whose elements
/// are `len` many and satisfy `element` at each position.
pub open spec fn native_tuple(info: TypeInfo, len: nat, element: spec_fn(int, TypeExpr) -> bool) -> bool {
    &&& info matches TypeInfo::Native(n)
    &&& n.type_ref matches TypeExpr::Tuple(t)
    &&& t.docs is None
    &&& t.elements@.len() == len
    &&& forall|i: int| 0 <= i < len ==> element(i, #[trigger] t.elements@[i])
}

/// A type written as the named TypeScript type `name`.
fn native_name(name: &'static str) -> (r: TypeInfo)
    ensures
        native_named(r, name@),
{
    TypeInfo::Native(
        NativeTypeInfo {
            type_ref: TypeExpr::Name(TypeName { path: Vec::new(), name: Ident(name), generic_args: Vec::new() }),
        },
    )
}

/// A numeric type: a definition `name` that is an alias of `number`.
fn number_alias(name: &'static str) -> (r: TypeInfo)
    ensures
        number_alias_named(r, name@),
{
    TypeInfo::Defined(
        DefinedTypeInfo {
            def: TypeDefinition {
                docs: None,
                path: Vec::new(),
                name: Ident(name),
                generic_vars: Vec::new(),
                def: TypeExpr::Name(TypeName { path: Vec::new(), name: Ident("number"), generic_args: Vec::new() }),
            },
            generic_args: Vec::new(),
        },
    )
}

fn reference(info: TypeInfo) -> (r: TypeExpr)
    ensures
        refers_to(r, info),
{
    TypeExpr::Ref(Box::new(info))
}

impl TypeDef for bool {
    fn info() -> (r: TypeInfo)
        ensures
            native_named(r, "boolean"@),
    {
        native_name("boolean")
    }
}

impl TypeDef for String {
    fn info() -> (r: TypeInfo)
        ensures
            native_named(r, "string"@),
    {
        native_name("string")
    }
}

impl TypeDef for str {
    fn info() -> (r: TypeInfo)
        ensures
            native_named(r, "string"@),
    {
        native_name("string")
    }
}

impl TypeDef for () {
    fn info() -> (r: TypeInfo)
        ensures
            native_named(r, "null"@),
    {
        native_name("null")
    }
}

impl TypeDef for u8 {
    fn info() -> (r: TypeInfo)
        ensures
            number_alias_named(r, "U8"@),
    {
        number_alias("U8")
    }
}

impl TypeDef for u16 {
    fn info() -> (r: TypeInfo)
        ensures
            number_alias_named(r, "U16"@),
    {
        number_alias("U16")
    }
}

impl TypeDef for u32 {
    fn info() -> (r: TypeInfo)
        ensures
            number_alias_named(r, "U32"@),
    {
        number_alias("U32")
    }
}

impl TypeDef for u64 {
    fn info() -> (r: TypeInfo)
        ensures
            number_alias_named(r, "U64"@),
    {
        number_alias("U64")
    }
}

impl TypeDef for u128 {
    fn info() -> (r: TypeInfo)
        ensures
            number_alias_named(r, "U128"@),
    {
        number_alias("U128")
    }
}

impl TypeDef for usize {
    fn info() -> (r: TypeInfo)
        ensures
            number_alias_named(r, "Usize"@),
    {
        number_alias("Usize")
    }
}

impl TypeDef for i8 {
    fn info() -> (r: TypeInfo)
        ensures
            number_alias_named(r, "I8"@),
    {
        number_alias("I8")
    }
}

impl TypeDef for i16 {
    fn info() -> (r: TypeInfo)
        ensures
            number_alias_named(r, "I16"@),
    {
        number_alias("I16")
    }
}

impl TypeDef for i32 {
    fn info() -> (r: TypeInfo)
        ensures
            number_alias_named(r, "I32"@),
    {
        number_alias("I32")
    }
}

impl TypeDef for i64 {
    fn info() -> (r: TypeInfo)
        ensures
            number_alias_named(r, "I64"@),
    {
        number_alias("I64")
    }
}

impl TypeDef for i128 {
    fn info() -> (r: TypeInfo)
        ensures
            number_alias_named(r, "I128"@),
    {
        number_alias("I128")
    }
}

impl TypeDef for isize {
    fn info() -> (r: TypeInfo)
        ensures
            number_alias_named(r, "Isize"@),
    {
        number_alias("Isize")
    }
}

impl<T: TypeDef> TypeDef for Option<T> {
    fn info() -> (r: TypeInfo)
        ensures
            r matches TypeInfo::Native(n) && n.type_ref matches TypeExpr::Union(u) && u.docs is None
                && u.members@.len() == 2 && refers_to_info_of::<T>(u.members@[0]) && plain_name(
                u.members@[1],
                "null"@,
            ),
    {
        let mut members = Vec::new();
        members.push(reference(T::info()));
        members.push(TypeExpr::Name(TypeName { path: Vec::new(), name: Ident("null"), generic_args: Vec::new() }));
        TypeInfo::Native(NativeTypeInfo { type_ref: TypeExpr::Union(TypeUnion { docs: None, members }) })
    }
}

impl<T: TypeDef> TypeDef for Vec<T> {
    fn info() -> (r: TypeInfo)
        ensures
            native_array(r, |e: TypeExpr| refers_to_info_of::<T>(e)),
    {
        array_of(T::info())
    }
}

impl<T: TypeDef + ?Sized> TypeDef for Box<T> {
    fn info() -> (r: TypeInfo)
        ensures
            call_ensures(T::info, (), r),
    {
        T::info()
    }
}

/// An array of `T`.
fn array_of(item: TypeInfo) -> (r: TypeInfo)
    ensures
        native_array(r, |e: TypeExpr| refers_to(e, item)),
{
    TypeInfo::Native(
        NativeTypeInfo { type_ref: TypeExpr::Array(TypeArray { docs: None, item: Box::new(reference(item)) }) },
    )
}

/// An object whose keys are `K` and whose values are `V`.
fn record_of(key: TypeInfo, value: TypeInfo) -> (r: TypeInfo)
    ensures
        native_record(r, |e: TypeExpr| refers_to(e, key), |e: TypeExpr| refers_to(e, value)),
{
    let mut generic_args = Vec::new();
    generic_args.push(reference(key));
    generic_args.push(reference(value));
    TypeInfo::Native(
        NativeTypeInfo {
            type_ref: TypeExpr::Name(TypeName { path: Vec::new(), name: Ident("Record"), generic_args }),
        },
    )
}

impl<T: TypeDef> TypeDef for [T] {
    fn info() -> (r: TypeInfo)
        ensures
            native_array(r, |e: TypeExpr| refers_to_info_of::<T>(e)),
    {
        array_of(T::info())
    }
}

impl<T: TypeDef> TypeDef for HashSet<T> {
    fn info() -> (r: TypeInfo)
        ensures
            native_array(r, |e: TypeExpr| refers_to_info_of::<T>(e)),
    {
        array_of(T::info())
    }
}

impl<T: TypeDef> TypeDef for BTreeSet<T> {
    fn info() -> (r: TypeInfo)
        ensures
            native_array(r, |e: TypeExpr| refers_to_info_of::<T>(e)),
    {
        array_of(T::info())
    }
}

impl<K: TypeDef, V: TypeDef> TypeDef for HashMap<K, V> {
    fn info() -> (r: TypeInfo)
        ensures
            native_record(
                r,
                |e: TypeExpr| refers_to_info_of::<K>(e),
                |e: TypeExpr| refers_to_info_of::<V>(e),
            ),
    {
        record_of(K::info(), V::info())
    }
}

impl<K: TypeDef, V: TypeDef> TypeDef for BTreeMap<K, V> {
    fn info() -> (r: TypeInfo)
        ensures
            native_record(
                r,
                |e: TypeExpr| refers_to_info_of::<K>(e),
                |e: TypeExpr| refers_to_info_of::<V>(e),
            ),
    {
        record_of(K::info(), V::info())
    }
}

impl<A: TypeDef, B: TypeDef> TypeDef for (A, B) {
    fn info() -> (r: TypeInfo)
        ensures
            native_tuple(
                r,
                2,
                |i: int, e: TypeExpr|
                    if i == 0 {
                        refers_to_info_of::<A>(e)
                    } else {
                        refers_to_info_of::<B>(e)
                    },
            ),
    {
        let mut elements = Vec::new();
        elements.push(reference(A::info()));
        elements.push(reference(B::info()));
        TypeInfo::Native(NativeTypeInfo { type_ref: TypeExpr::Tuple(TypeTuple { docs: None, elements }) })
    }
}

impl<A: TypeDef, B: TypeDef, C: TypeDef> TypeDef for (A, B, C) {
    fn info() -> (r: TypeInfo)
        ensures
            native_tuple(
                r,
                3,
                |i: int, e: TypeExpr|
                    if i == 0 {
                        refers_to_info_of::<A>(e)
                    } else if i == 1 {
                        refers_to_info_of::<B>(e)
                    } else {
                        refers_to_info_of::<C>(e)
                    },
            ),
    {
        let mut elements = Vec::new();
        elements.push(reference(A::info()));
        elements.push(reference(B::info()));
        elements.push(reference(C::info()));
        TypeInfo::Native(NativeTypeInfo { type_ref: TypeExpr::Tuple(TypeTuple { docs: None, elements }) })
    }
}

impl<T: TypeDef, const N: usize> TypeDef for [T; N] {
    fn info() -> (r: TypeInfo)
        ensures
            native_tuple(r, N as nat, |i: int, e: TypeExpr| refers_to_info_of::<T>(e)),
    {
        let mut elements = Vec::new();
        let mut i: usize = 0;
        while i < N
            invariant
                i <= N,
                elements@.len() == i,
                forall|k: int| 0 <= k < i ==> refers_to_info_of::<T>(#[trigger] elements@[k]),
            decreases N - i,
        {
            elements.push(reference(T::info()));
            i = i + 1;
        }
        TypeInfo::Native(NativeTypeInfo { type_ref: TypeExpr::Tuple(TypeTuple { docs: None, elements }) })
    }
}

impl<T: TypeDef + ?Sized> TypeDef for std::marker::PhantomData<T> {
    fn info() -> (r: TypeInfo)
        ensures
            call_ensures(T::info, (), r),
    {
        T::info()
    }
}

impl<T: TypeDef + ?Sized> TypeDef for &'static T {
    fn info() -> (r: TypeInfo)
        ensures
            call_ensures(T::info, (), r),
    {
        T::info()
    }
}

} // verus!
