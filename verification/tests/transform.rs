use gen_struct::errors::TransformError;
use gen_struct::merge::{define_default_vals, find_args_attr, merge_field, transform};
use gen_struct::model::{AttrList, Field, FieldList, TypeDef};
use gen_struct::table::DefaultTable;
use gen_struct::{default_table, gen_struct};

fn attr(name: &str, args: &[&str]) -> AttrList {
    AttrList {
        name: String::from(name),
        args: args.iter().map(|a| String::from(*a)).collect(),
    }
}

fn named_field(name: &str, ty: &str, attrs: Vec<AttrList>) -> Field {
    Field {
        name: Some(String::from(name)),
        ty: String::from(ty),
        attrs,
    }
}

fn two_entry_table() -> DefaultTable {
    let mut t = DefaultTable::new();
    t.insert(String::from("bar"), String::from("String::from(\"bar\")"));
    t.insert(String::from("baz"), String::from("0"));
    t
}

#[test]
fn totality_keeps_field_count() {
    let t = two_entry_table();
    let fields = FieldList::Named(vec![
        named_field("bar", "String", vec![]),
        named_field("baz", "usize", vec![attr("arg", &["long"])]),
    ]);
    match define_default_vals(&t, fields) {
        Ok(FieldList::Named(fs)) => assert_eq!(fs.len(), 2),
        other => panic!("expected a named field list, got {:?}", other),
    }
}

#[test]
fn existing_arguments_are_preserved_in_order() {
    let t = two_entry_table();
    let f = named_field("baz", "usize", vec![attr("arg", &["long", "env = \"BAZ\""])]);
    let g = merge_field(&t, f).expect("baz resolves");
    assert_eq!(g.attrs.len(), 1);
    assert_eq!(g.attrs[0].name, "arg");
    assert_eq!(
        g.attrs[0].args,
        vec![
            String::from("long"),
            String::from("env = \"BAZ\""),
            String::from("default_value_t = 0"),
        ]
    );
}

#[test]
fn existing_attribute_with_argument_gains_exactly_one() {
    let t = two_entry_table();
    let f = named_field("baz", "usize", vec![attr("arg", &["long"])]);
    let g = merge_field(&t, f).expect("baz resolves");
    assert_eq!(g.attrs[0].args, vec![String::from("long"), String::from("default_value_t = 0")]);
}

#[test]
fn empty_attribute_list_gets_exactly_the_directive() {
    let t = two_entry_table();
    let f = named_field("baz", "usize", vec![attr("arg", &[])]);
    let g = merge_field(&t, f).expect("baz resolves");
    assert_eq!(g.attrs.len(), 1);
    assert_eq!(g.attrs[0].args, vec![String::from("default_value_t = 0")]);
}

#[test]
fn missing_attribute_creates_a_fresh_list() {
    let t = two_entry_table();
    let f = named_field("bar", "String", vec![attr("derive", &["Clone"])]);
    let g = merge_field(&t, f).expect("bar resolves");
    assert_eq!(g.attrs.len(), 2);
    assert_eq!(g.attrs[0], attr("derive", &["Clone"]));
    assert_eq!(g.attrs[1].name, "arg");
    assert_eq!(
        g.attrs[1].args,
        vec![String::from("default_value_t = String::from(\"bar\")")]
    );
}

#[test]
fn only_the_first_matching_attribute_is_extended() {
    let t = two_entry_table();
    let f = named_field(
        "baz",
        "usize",
        vec![attr("serde", &["skip"]), attr("arg", &["long"]), attr("arg", &["short"])],
    );
    let g = merge_field(&t, f).expect("baz resolves");
    assert_eq!(g.attrs.len(), 3);
    assert_eq!(g.attrs[0], attr("serde", &["skip"]));
    assert_eq!(g.attrs[1].args, vec![String::from("long"), String::from("default_value_t = 0")]);
    assert_eq!(g.attrs[2], attr("arg", &["short"]));
}

#[test]
fn find_args_attr_picks_the_first_marker_list() {
    let attrs = vec![attr("doc", &[]), attr("arg", &["long"]), attr("arg", &["short"])];
    assert_eq!(find_args_attr(&attrs), Some(1));
    let none = vec![attr("doc", &[]), attr("args", &["long"])];
    assert_eq!(find_args_attr(&none), None);
}

#[test]
fn unknown_field_fails_with_its_name() {
    let t = two_entry_table();
    let fields = FieldList::Named(vec![
        named_field("bar", "String", vec![]),
        named_field("qux", "u8", vec![]),
    ]);
    let r = define_default_vals(&t, fields);
    assert_eq!(r, Err(TransformError::NoDefaultAvailable(String::from("qux"))));
}

#[test]
fn unknown_field_aborts_the_whole_pass() {
    let t = DefaultTable::new();
    let fields = FieldList::Named(vec![named_field("bar", "String", vec![])]);
    let r = define_default_vals(&t, fields);
    assert_eq!(r, Err(TransformError::NoDefaultAvailable(String::from("bar"))));
}

#[test]
fn positional_fields_are_malformed() {
    let t = two_entry_table();
    let fields = FieldList::Unnamed(vec![Field {
        name: None,
        ty: String::from("u32"),
        attrs: vec![],
    }]);
    assert_eq!(define_default_vals(&t, fields), Err(TransformError::MalformedDefinition));
    assert_eq!(define_default_vals(&t, FieldList::Unit), Err(TransformError::MalformedDefinition));
}

#[test]
fn field_without_a_name_is_malformed() {
    let t = two_entry_table();
    let fields = FieldList::Named(vec![
        named_field("bar", "String", vec![]),
        Field { name: None, ty: String::from("u32"), attrs: vec![] },
    ]);
    assert_eq!(define_default_vals(&t, fields), Err(TransformError::MalformedDefinition));
}

#[test]
fn field_order_names_and_types_are_kept() {
    let t = two_entry_table();
    let fields = FieldList::Named(vec![
        named_field("baz", "usize", vec![attr("arg", &["long"])]),
        named_field("bar", "String", vec![]),
    ]);
    match define_default_vals(&t, fields) {
        Ok(FieldList::Named(fs)) => {
            assert_eq!(fs[0].name.as_deref(), Some("baz"));
            assert_eq!(fs[0].ty, "usize");
            assert_eq!(fs[1].name.as_deref(), Some("bar"));
            assert_eq!(fs[1].ty, "String");
        }
        other => panic!("expected a named field list, got {:?}", other),
    }
}

#[test]
fn resolve_hits_and_misses() {
    let t = two_entry_table();
    assert_eq!(
        t.resolve(&String::from("bar")),
        Ok(String::from("String::from(\"bar\")"))
    );
    assert_eq!(t.resolve(&String::from("baz")), Ok(String::from("0")));
    assert_eq!(
        t.resolve(&String::from("quux")),
        Err(TransformError::NoDefaultAvailable(String::from("quux")))
    );
}

#[test]
fn first_table_entry_wins() {
    let mut t = DefaultTable::new();
    t.insert(String::from("bar"), String::from("1"));
    t.insert(String::from("bar"), String::from("2"));
    assert_eq!(t.resolve(&String::from("bar")), Ok(String::from("1")));
}

#[test]
fn built_in_table_holds_bar_and_baz() {
    let t = default_table();
    assert_eq!(
        t.resolve(&String::from("bar")),
        Ok(String::from("String::from(\"bar\")"))
    );
    assert_eq!(t.resolve(&String::from("baz")), Ok(String::from("0")));
}

#[test]
fn transform_keeps_the_envelope() {
    let t = two_entry_table();
    let def = TypeDef {
        attrs: vec![attr("derive", &["Parser"])],
        vis: String::from("pub"),
        name: String::from("Foo"),
        generics: String::from("<T>"),
        fields: FieldList::Named(vec![named_field("bar", "String", vec![])]),
        semi: false,
    };
    let out = transform(&t, def).expect("all fields resolve");
    assert_eq!(out.attrs, vec![attr("derive", &["Parser"])]);
    assert_eq!(out.vis, "pub");
    assert_eq!(out.name, "Foo");
    assert_eq!(out.generics, "<T>");
    assert!(!out.semi);
}

#[test]
fn gen_struct_rewrites_the_example_definition() {
    let def = TypeDef {
        attrs: vec![attr("derive", &["Parser"])],
        vis: String::new(),
        name: String::from("Foo"),
        generics: String::new(),
        fields: FieldList::Named(vec![
            named_field("bar", "String", vec![attr("arg", &["long", "env = \"BAR\""])]),
            named_field("baz", "usize", vec![attr("arg", &["long", "env = \"BAZ\""])]),
        ]),
        semi: false,
    };
    let out = gen_struct(def).expect("bar and baz resolve");
    assert_eq!(
        out,
        "#[derive(Parser)] struct Foo { \
         #[arg(long, env = \"BAR\", default_value_t = String::from(\"bar\"))] bar: String, \
         #[arg(long, env = \"BAZ\", default_value_t = 0)] baz: usize }"
    );
}

#[test]
fn gen_struct_fails_on_a_field_outside_the_built_in_table() {
    let def = TypeDef {
        attrs: vec![],
        vis: String::new(),
        name: String::from("Foo"),
        generics: String::new(),
        fields: FieldList::Named(vec![named_field("quux", "u8", vec![])]),
        semi: false,
    };
    assert_eq!(
        gen_struct(def),
        Err(TransformError::NoDefaultAvailable(String::from("quux")))
    );
}

#[test]
fn error_descriptions_name_the_failure() {
    assert_eq!(
        TransformError::MalformedDefinition.describe(),
        "the definition is not a record type with named fields"
    );
    assert_eq!(
        TransformError::NoDefaultAvailable(String::from("qux")).describe(),
        "no default expression for field qux"
    );
}
