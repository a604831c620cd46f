use gen_struct::emit::emit;
use gen_struct::model::{AttrList, Field, FieldList, TypeDef};

fn attr(name: &str, args: &[&str]) -> AttrList {
    AttrList {
        name: String::from(name),
        args: args.iter().map(|a| String::from(*a)).collect(),
    }
}

#[test]
fn named_struct_serializes_with_braces() {
    let def = TypeDef {
        attrs: vec![],
        vis: String::from("pub"),
        name: String::from("Point"),
        generics: String::new(),
        fields: FieldList::Named(vec![
            Field { name: Some(String::from("x")), ty: String::from("i64"), attrs: vec![] },
            Field { name: Some(String::from("y")), ty: String::from("i64"), attrs: vec![] },
        ]),
        semi: false,
    };
    assert_eq!(emit(&def), "pub struct Point { x: i64, y: i64 }");
}

#[test]
fn attribute_without_arguments_has_no_parentheses() {
    let def = TypeDef {
        attrs: vec![attr("non_exhaustive", &[])],
        vis: String::new(),
        name: String::from("Empty"),
        generics: String::new(),
        fields: FieldList::Named(vec![]),
        semi: false,
    };
    assert_eq!(emit(&def), "#[non_exhaustive] struct Empty {}");
}

#[test]
fn unit_struct_keeps_its_terminator() {
    let def = TypeDef {
        attrs: vec![],
        vis: String::new(),
        name: String::from("Marker"),
        generics: String::new(),
        fields: FieldList::Unit,
        semi: true,
    };
    assert_eq!(emit(&def), "struct Marker;");
}

#[test]
fn tuple_struct_serializes_with_parentheses() {
    let def = TypeDef {
        attrs: vec![],
        vis: String::new(),
        name: String::from("Pair"),
        generics: String::from("<A, B>"),
        fields: FieldList::Unnamed(vec![
            Field { name: None, ty: String::from("A"), attrs: vec![] },
            Field { name: None, ty: String::from("B"), attrs: vec![] },
        ]),
        semi: true,
    };
    assert_eq!(emit(&def), "struct Pair<A, B>(A, B);");
}

#[test]
fn field_attributes_come_before_the_field() {
    let def = TypeDef {
        attrs: vec![attr("derive", &["Parser"])],
        vis: String::new(),
        name: String::from("Cfg"),
        generics: String::new(),
        fields: FieldList::Named(vec![Field {
            name: Some(String::from("level")),
            ty: String::from("u8"),
            attrs: vec![attr("arg", &["long", "default_value_t = 0"])],
        }]),
        semi: false,
    };
    assert_eq!(
        emit(&def),
        "#[derive(Parser)] struct Cfg { #[arg(long, default_value_t = 0)] level: u8 }"
    );
}
