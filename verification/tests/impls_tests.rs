use std::collections::{BTreeMap, BTreeSet, HashMap, HashSet};
use std::marker::PhantomData;

use lib::emit::{write_definition_file, DefinitionFileOptions, TypeDef};
use lib::type_expr::{
    DefinedTypeInfo, Ident, ObjectField, TypeDefinition, TypeExpr, TypeInfo, TypeName, TypeObject,
    TypeString,
};

fn ref_of<T: TypeDef + ?Sized>() -> String {
    let mut out = String::new();
    T::info().write_ref_expr(&mut out, Some("types"));
    out
}

struct Foo<T>(PhantomData<T>);

impl<T: TypeDef> TypeDef for Foo<T> {
    fn info() -> TypeInfo {
        TypeInfo::Defined(DefinedTypeInfo {
            def: TypeDefinition {
                docs: None,
                path: vec![],
                name: Ident("Foo"),
                generic_vars: vec![Ident("T")],
                def: TypeExpr::Object(TypeObject {
                    docs: None,
                    fields: vec![ObjectField {
                        docs: None,
                        name: TypeString { docs: None, value: "a" },
                        optional: false,
                        field_type: TypeExpr::Name(TypeName {
                            path: vec![],
                            name: Ident("T"),
                            generic_args: vec![],
                        }),
                    }],
                }),
            },
            generic_args: vec![TypeExpr::Ref(Box::new(T::info()))],
        })
    }
}

#[test]
fn generic_reference_with_standard_types() {
    assert_eq!(ref_of::<Foo<Vec<u8>>>(), "types.Foo<(types.U8)[]>");
}

#[test]
fn standard_type_references() {
    assert_eq!(ref_of::<bool>(), "boolean");
    assert_eq!(ref_of::<String>(), "string");
    assert_eq!(ref_of::<str>(), "string");
    assert_eq!(ref_of::<()>(), "null");
    assert_eq!(ref_of::<i64>(), "types.I64");
    assert_eq!(ref_of::<usize>(), "types.Usize");
    assert_eq!(ref_of::<Option<String>>(), "(string|null)");
    assert_eq!(ref_of::<Vec<bool>>(), "(boolean)[]");
    assert_eq!(ref_of::<[u16]>(), "(types.U16)[]");
    assert_eq!(ref_of::<HashSet<u32>>(), "(types.U32)[]");
    assert_eq!(ref_of::<BTreeSet<u32>>(), "(types.U32)[]");
    assert_eq!(ref_of::<HashMap<String, u32>>(), "Record<string,types.U32>");
    assert_eq!(ref_of::<BTreeMap<String, i8>>(), "Record<string,types.I8>");
    assert_eq!(ref_of::<(bool, String)>(), "[boolean,string]");
    assert_eq!(ref_of::<(u8, u8, ())>(), "[types.U8,types.U8,null]");
    assert_eq!(ref_of::<[u8; 3]>(), "[types.U8,types.U8,types.U8]");
    assert_eq!(ref_of::<Box<u128>>(), "types.U128");
    assert_eq!(ref_of::<&'static str>(), "string");
    assert_eq!(ref_of::<PhantomData<i32>>(), "types.I32");
}

#[test]
fn numeric_aliases_are_defined_once() {
    let mut out = String::new();
    let options = DefinitionFileOptions { header: None, root_namespace: Some("types") };
    let stats = write_definition_file(&mut out, &<(u8, Vec<u8>, Option<i16>)>::info(), options);
    assert_eq!(
        out,
        "export default types;\nexport namespace types{\nexport type U8=number;\nexport type I16=number;\n}\n"
    );
    assert_eq!(stats.type_definitions, 2);
}
