use lib::emit::{write_definition_file, DefinitionFileOptions, EmitCtx, TypeDef};
use lib::type_expr::{
    DefinedTypeInfo, Docs, Ident, NativeTypeInfo, ObjectField, TypeArray, TypeDefinition,
    TypeExpr, TypeInfo, TypeIntersection, TypeName, TypeObject, TypeString, TypeTuple, TypeUnion,
};

fn name(n: &'static str) -> TypeExpr {
    TypeExpr::Name(TypeName { path: vec![], name: Ident(n), generic_args: vec![] })
}

fn native(n: &'static str) -> TypeInfo {
    TypeInfo::Native(NativeTypeInfo { type_ref: name(n) })
}

fn reference(info: TypeInfo) -> TypeExpr {
    TypeExpr::Ref(Box::new(info))
}

fn defined(n: &'static str, def: TypeExpr) -> TypeInfo {
    TypeInfo::Defined(DefinedTypeInfo {
        def: TypeDefinition {
            docs: None,
            path: vec![],
            name: Ident(n),
            generic_vars: vec![],
            def,
        },
        generic_args: vec![],
    })
}

fn field(n: &'static str, optional: bool, ty: TypeExpr) -> ObjectField {
    ObjectField {
        docs: None,
        name: TypeString { docs: None, value: n },
        optional,
        field_type: ty,
    }
}

fn object(fields: Vec<ObjectField>) -> TypeExpr {
    TypeExpr::Object(TypeObject { docs: None, fields })
}

fn uuid() -> TypeInfo {
    defined("Uuid", name("string"))
}

fn user() -> TypeInfo {
    defined(
        "User",
        object(vec![
            field("id", false, reference(uuid())),
            field("name", false, reference(native("string"))),
        ]),
    )
}

fn u8_info() -> TypeInfo {
    defined("U8", name("number"))
}

fn vec_of(item: TypeInfo) -> TypeInfo {
    TypeInfo::Native(NativeTypeInfo {
        type_ref: TypeExpr::Array(TypeArray { docs: None, item: Box::new(reference(item)) }),
    })
}

fn foo_of(arg: TypeInfo) -> TypeInfo {
    TypeInfo::Defined(DefinedTypeInfo {
        def: TypeDefinition {
            docs: None,
            path: vec![],
            name: Ident("Foo"),
            generic_vars: vec![Ident("T")],
            def: object(vec![field("a", false, name("T"))]),
        },
        generic_args: vec![reference(arg)],
    })
}

fn file(info: &TypeInfo, options: DefinitionFileOptions) -> (String, usize) {
    let mut out = String::new();
    let stats = write_definition_file(&mut out, info, options);
    (out, stats.type_definitions)
}

fn ref_expr(info: &TypeInfo, root: Option<&str>) -> String {
    let mut out = String::new();
    info.write_ref_expr(&mut out, root);
    out
}

#[test]
fn newtype_definition_file() {
    let (text, count) = file(&user(), DefinitionFileOptions::default());
    assert_eq!(
        text,
        "// AUTO-GENERATED by typescript-type-def\n\nexport default types;\nexport namespace types{\nexport type Uuid=string;\nexport type User={\"id\":types.Uuid;\"name\":string;};\n}\n"
    );
    assert_eq!(count, 2);
}

#[test]
fn inline_type_definition_file() {
    let info = defined(
        "User",
        object(vec![
            field("id", false, reference(native("string"))),
            field("name", false, reference(native("string"))),
        ]),
    );
    let (text, count) = file(&info, DefinitionFileOptions::default());
    assert_eq!(
        text,
        "// AUTO-GENERATED by typescript-type-def\n\nexport default types;\nexport namespace types{\nexport type User={\"id\":string;\"name\":string;};\n}\n"
    );
    assert_eq!(count, 1);
}

#[test]
fn reference_expression_with_root_namespace() {
    let info = foo_of(vec_of(u8_info()));
    let mut out = String::from("export function myAPI(foo: ");
    info.write_ref_expr(&mut out, Some("types"));
    out.push_str(") {}");
    assert_eq!(out, "export function myAPI(foo: types.Foo<(types.U8)[]>) {}");
}

#[test]
fn reference_expression_without_root_namespace() {
    assert_eq!(ref_expr(&foo_of(vec_of(u8_info())), None), "Foo<(U8)[]>");
    assert_eq!(ref_expr(&native("string"), Some("types")), "string");
}

#[test]
fn default_options() {
    let options = DefinitionFileOptions::default();
    assert_eq!(
        options,
        DefinitionFileOptions {
            header: Some("// AUTO-GENERATED by typescript-type-def\n"),
            root_namespace: Some("types"),
        }
    );
}

#[test]
fn no_header_and_no_root_namespace() {
    let options = DefinitionFileOptions { header: None, root_namespace: None };
    let (text, count) = file(&user(), options);
    assert_eq!(text, "export type Uuid=string;\nexport type User={\"id\":Uuid;\"name\":string;};\n");
    assert_eq!(count, 2);
}

#[test]
fn native_type_writes_no_definition() {
    let options = DefinitionFileOptions { header: None, root_namespace: Some("ns") };
    let (text, count) = file(&native("boolean"), options);
    assert_eq!(text, "export default ns;\nexport namespace ns{\n}\n");
    assert_eq!(count, 0);
}

#[test]
fn generic_definition_written_once() {
    // A tuple of Foo<U8> and Foo<String> needs Foo, U8 once each.
    let info = defined(
        "Pair",
        TypeExpr::Tuple(TypeTuple {
            docs: None,
            elements: vec![
                reference(foo_of(u8_info())),
                reference(foo_of(native("string"))),
                reference(u8_info()),
            ],
        }),
    );
    let options = DefinitionFileOptions { header: None, root_namespace: None };
    let (text, count) = file(&info, options);
    assert_eq!(
        text,
        "export type U8=number;\nexport type Foo<T>={\"a\":T;};\nexport type Pair=[Foo<U8>,Foo<string>,U8];\n"
    );
    assert_eq!(count, 3);
}

#[test]
fn empty_union_is_never_and_empty_intersection_is_any() {
    let info = defined(
        "Empty",
        TypeExpr::Tuple(TypeTuple {
            docs: None,
            elements: vec![
                TypeExpr::Union(TypeUnion { docs: None, members: vec![] }),
                TypeExpr::Intersection(TypeIntersection { docs: None, members: vec![] }),
            ],
        }),
    );
    let options = DefinitionFileOptions { header: None, root_namespace: None };
    assert_eq!(file(&info, options).0, "export type Empty=[never,any];\n");
}

#[test]
fn union_and_intersection_members() {
    let info = defined(
        "Mixed",
        TypeExpr::Union(TypeUnion {
            docs: None,
            members: vec![
                name("string"),
                TypeExpr::Intersection(TypeIntersection {
                    docs: None,
                    members: vec![name("A"), name("B")],
                }),
                name("null"),
            ],
        }),
    );
    let options = DefinitionFileOptions { header: None, root_namespace: None };
    assert_eq!(file(&info, options).0, "export type Mixed=(string|(A&B)|null);\n");
}

#[test]
fn optional_fields_and_string_literals() {
    let info = defined(
        "Tagged",
        object(vec![
            field("kind", false, TypeExpr::String(TypeString { docs: None, value: "a\"b" })),
            field("extra", true, name("number")),
        ]),
    );
    let options = DefinitionFileOptions { header: None, root_namespace: None };
    assert_eq!(
        file(&info, options).0,
        "export type Tagged={\"kind\":\"a\\\"b\";\"extra\"?:number;};\n"
    );
}

#[test]
fn namespaced_definition_and_reference() {
    let inner = TypeInfo::Defined(DefinedTypeInfo {
        def: TypeDefinition {
            docs: None,
            path: vec![Ident("x"), Ident("y")],
            name: Ident("Inner"),
            generic_vars: vec![],
            def: name("number"),
        },
        generic_args: vec![],
    });
    let outer = defined("Outer", TypeExpr::Array(TypeArray {
        docs: None,
        item: Box::new(reference(inner)),
    }));
    let (text, count) = file(&outer, DefinitionFileOptions { header: None, root_namespace: Some("types") });
    assert_eq!(
        text,
        "export default types;\nexport namespace types{\nexport namespace x.y{export type Inner=number;}\nexport type Outer=(types.x.y.Inner)[];\n}\n"
    );
    assert_eq!(count, 2);
}

#[test]
fn documentation_comments() {
    let info = TypeInfo::Defined(DefinedTypeInfo {
        def: TypeDefinition {
            docs: Some(Docs("First line.\r\nSecond line.\n")),
            path: vec![],
            name: Ident("Doc"),
            generic_vars: vec![],
            def: TypeExpr::Object(TypeObject {
                docs: None,
                fields: vec![ObjectField {
                    docs: Some(Docs("The field.")),
                    name: TypeString { docs: None, value: "f" },
                    optional: false,
                    field_type: name("string"),
                }],
            }),
        },
        generic_args: vec![],
    });
    let options = DefinitionFileOptions { header: None, root_namespace: None };
    assert_eq!(
        file(&info, options).0,
        "\n/**\n * First line.\n * Second line.\n */\nexport type Doc={\n/**\n * The field.\n */\n\"f\":string;};\n"
    );
}

#[test]
fn empty_documentation_has_no_lines() {
    let info = TypeInfo::Defined(DefinedTypeInfo {
        def: TypeDefinition {
            docs: Some(Docs("")),
            path: vec![],
            name: Ident("E"),
            generic_vars: vec![],
            def: name("null"),
        },
        generic_args: vec![],
    });
    let options = DefinitionFileOptions { header: None, root_namespace: None };
    assert_eq!(file(&info, options).0, "\n/**\n */\nexport type E=null;\n");
}

#[test]
fn emit_context_counts_definitions() {
    let mut ctx = EmitCtx::new(Some("t"));
    ctx.emit_type_def(&user());
    assert_eq!(ctx.stats.type_definitions, 2);
    assert_eq!(ctx.out, "export type Uuid=string;\nexport type User={\"id\":t.Uuid;\"name\":string;};\n");
    let mut refs = EmitCtx::new(Some("t"));
    refs.emit_type_ref(&user());
    assert_eq!(refs.out, "t.User");
    assert_eq!(refs.stats.type_definitions, 0);
}

struct Point;

impl TypeDef for Point {
    fn info() -> TypeInfo {
        defined("Point", TypeExpr::Tuple(TypeTuple { docs: None, elements: vec![name("number"), name("number")] }))
    }
}

#[test]
fn type_def_trait_supplies_information() {
    let (text, count) = file(&Point::info(), DefinitionFileOptions { header: Some("// h"), root_namespace: None });
    assert_eq!(text, "// h\nexport type Point=[number,number];\n");
    assert_eq!(count, 1);
}
