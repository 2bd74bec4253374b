use lib::iter_def_deps::iter_def_deps;
use lib::same::{def_eq, expr_eq, str_eq};
use lib::text::lines;
use lib::type_expr::{
    DefinedTypeInfo, Ident, NativeTypeInfo, ObjectField, TypeArray, TypeDefinition, TypeExpr,
    TypeInfo, TypeName, TypeObject, TypeString, TypeTuple,
};

fn name(n: &'static str) -> TypeExpr {
    TypeExpr::Name(TypeName { path: vec![], name: Ident(n), generic_args: vec![] })
}

fn defined(n: &'static str, def: TypeExpr) -> TypeInfo {
    TypeInfo::Defined(DefinedTypeInfo {
        def: TypeDefinition { docs: None, path: vec![], name: Ident(n), generic_vars: vec![], def },
        generic_args: vec![],
    })
}

fn reference(info: TypeInfo) -> TypeExpr {
    TypeExpr::Ref(Box::new(info))
}

fn foo_of(arg: TypeInfo) -> TypeInfo {
    TypeInfo::Defined(DefinedTypeInfo {
        def: TypeDefinition {
            docs: None,
            path: vec![],
            name: Ident("Foo"),
            generic_vars: vec![Ident("T")],
            def: TypeExpr::Object(TypeObject {
                docs: None,
                fields: vec![ObjectField {
                    docs: None,
                    name: TypeString { docs: None, value: "a" },
                    optional: false,
                    field_type: name("T"),
                }],
            }),
        },
        generic_args: vec![reference(arg)],
    })
}

fn def_of(info: &TypeInfo) -> &TypeDefinition {
    match info {
        TypeInfo::Defined(d) => &d.def,
        TypeInfo::Native(_) => panic!("not a defined type"),
    }
}

#[test]
fn lines_split_at_newlines() {
    assert_eq!(lines("a\nb"), vec!["a", "b"]);
    assert_eq!(lines("a\r\nb\n"), vec!["a", "b"]);
    assert_eq!(lines("a\n\n"), vec!["a", ""]);
    assert_eq!(lines("\n"), vec![""]);
    assert_eq!(lines(""), Vec::<&str>::new());
    assert_eq!(lines("a\r"), vec!["a\r"]);
    assert_eq!(lines("a\rb\r\n\r\n"), vec!["a\rb", ""]);
}

#[test]
fn lines_agree_with_std() {
    for text in ["", "x", "x\n", "x\r\ny", "\r\n", "a\n\nb\r", "one\ntwo\r\nthree\n\n"] {
        assert_eq!(lines(text), text.lines().collect::<Vec<_>>());
    }
}

#[test]
fn lines_rejoin_gives_text_back() {
    for text in ["", "a", "a\n", "a\nb", "a\n\nb\n", "\n"] {
        let mut joined = lines(text).join("\n");
        if text.ends_with('\n') {
            joined.push('\n');
        }
        assert_eq!(joined, text);
    }
}

#[test]
fn string_equality() {
    assert!(str_eq("abc", "abc"));
    assert!(!str_eq("abc", "abd"));
    assert!(!str_eq("ab", "abc"));
}

#[test]
fn same_generic_definitions_compare_equal() {
    let a = foo_of(defined("U8", name("number")));
    let b = foo_of(TypeInfo::Native(NativeTypeInfo { type_ref: name("string") }));
    assert!(def_eq(def_of(&a), def_of(&b)));
    let c = defined("Foo", name("T"));
    assert!(!def_eq(def_of(&a), def_of(&c)));
}

#[test]
fn expressions_compare_by_every_part() {
    let arr = |n| TypeExpr::Array(TypeArray { docs: None, item: Box::new(name(n)) });
    assert!(expr_eq(&arr("x"), &arr("x")));
    assert!(!expr_eq(&arr("x"), &arr("y")));
    assert!(!expr_eq(&arr("x"), &name("x")));
}

#[test]
fn dependencies_come_first_and_once() {
    let u8_info = || defined("U8", name("number"));
    let pair = defined(
        "Pair",
        TypeExpr::Tuple(TypeTuple {
            docs: None,
            elements: vec![reference(foo_of(u8_info())), reference(foo_of(u8_info())), reference(u8_info())],
        }),
    );
    let deps = iter_def_deps(&pair);
    let names: Vec<&str> = deps.iter().map(|d| d.name.0).collect();
    assert_eq!(names, vec!["U8", "Foo", "Pair"]);
}

#[test]
fn native_types_have_no_definitions() {
    let info = TypeInfo::Native(NativeTypeInfo {
        type_ref: TypeExpr::Array(TypeArray { docs: None, item: Box::new(reference(defined("U8", name("number")))) }),
    });
    let deps = iter_def_deps(&info);
    assert_eq!(deps.len(), 1);
    assert_eq!(deps[0].name.0, "U8");
    let plain = TypeInfo::Native(NativeTypeInfo { type_ref: name("boolean") });
    assert!(iter_def_deps(&plain).is_empty());
}
