use liana_codegen::generator::rust::{
    all_unnamed, args_to_rust, find_first_string, find_string_hint, generate, generate_alias,
    generate_const, generate_docs, generate_enum, generate_function, generate_function_alias,
    generate_http_comment, generate_named_field, generate_preamble, generate_struct,
    generate_stub, generate_tuple_field, generate_type, generate_union, generate_variant,
    generate_variant_field, generate_variant_rename, generate_variant_shape, generics,
    name_or_underscore, param_types_to_rust, type_to_rust, types_to_rust, value_to_text,
};
use liana_codegen::ir::map::ValueMap;
use liana_codegen::ir::{
    Annotation, AnnotationValue, Field, Function, Item, Metadata, Module, Param, Type, TypeKind,
    TypeParam, Value, Variant,
};

const DERIVE: &str = "#[derive(Debug, Clone, PartialEq, Serialize, Deserialize)]\n";

const PREAMBLE: &str = "use serde::{Deserialize, Serialize};\n\
\n\
/// API error type.\n\
#[derive(Debug, Clone, PartialEq, Serialize, Deserialize)]\n\
pub struct ApiError {\n    pub message: String,\n    pub code: Option<String>,\n}\n\
\n";

fn typ(kind: TypeKind) -> Type {
    Type {
        kind,
        name: None,
        params: Vec::new(),
        args: Vec::new(),
        annotations: Vec::new(),
        metadata: Metadata::default(),
    }
}

fn named(name: &str, kind: TypeKind) -> Type {
    let mut t = typ(kind);
    t.name = Some(name.to_string());
    t
}

fn field(name: Option<&str>, t: Type) -> Field {
    Field { name: name.map(|n| n.to_string()), typ: t, annotations: Vec::new() }
}

fn param(name: Option<&str>, t: Type) -> Param {
    Param { name: name.map(|n| n.to_string()), typ: t, default: None, annotations: Vec::new() }
}

fn type_param(name: &str) -> TypeParam {
    TypeParam { name: name.to_string(), bounds: Vec::new(), default: None }
}

fn variant(name: &str, fields: Vec<Field>, annotations: Vec<Annotation>) -> Variant {
    Variant { name: name.to_string(), fields, annotations }
}

fn function(name: &str) -> Function {
    Function {
        name: name.to_string(),
        params: Vec::new(),
        args: Vec::new(),
        ret: Type::reference("Unit"),
        annotations: Vec::new(),
        metadata: Metadata::default(),
    }
}

fn written(write: impl FnOnce(&mut String)) -> String {
    let mut out = String::from("// before\n");
    write(&mut out);
    out.strip_prefix("// before\n").expect("what was there stays").to_string()
}

#[test]
fn primitives_have_their_own_names() {
    assert_eq!(type_to_rust(&Type::reference("String")), "String");
    assert_eq!(type_to_rust(&Type::reference("i64")), "i64");
    assert_eq!(type_to_rust(&Type::reference("f64")), "f64");
    assert_eq!(type_to_rust(&Type::reference("bool")), "bool");
    assert_eq!(type_to_rust(&Type::reference("Any")), "serde_json::Value");
    assert_eq!(type_to_rust(&Type::reference("Unit")), "()");
    assert_eq!(type_to_rust(&Type::reference("Never")), "!");
}

#[test]
fn other_references_pass_through() {
    assert_eq!(type_to_rust(&Type::reference("Pet")), "Pet");
    assert_eq!(type_to_rust(&Type::reference("any")), "any");
    assert_eq!(type_to_rust(&Type::reference("")), "");
}

#[test]
fn type_arguments_follow_in_order() {
    let t = Type::generic(
        "Result",
        vec![Type::generic("Vec", vec![Type::reference("Pet")]), Type::reference("ApiError")],
    );
    assert_eq!(type_to_rust(&t), "Result<Vec<Pet>, ApiError>");
    assert_eq!(
        type_to_rust(&Type::generic("Option", vec![Type::reference("Any")])),
        "Option<serde_json::Value>"
    );
    assert_eq!(type_to_rust(&Type::generic("Any", vec![Type::reference("Unit")])), "serde_json::Value<()>");
}

#[test]
fn structs_and_enums_are_used_by_name() {
    assert_eq!(type_to_rust(&named("Pet", TypeKind::Struct { fields: Vec::new() })), "Pet");
    assert_eq!(type_to_rust(&typ(TypeKind::Struct { fields: Vec::new() })), "AnonymousStruct");
    assert_eq!(type_to_rust(&named("Status", TypeKind::Enum { variants: Vec::new() })), "Status");
    assert_eq!(type_to_rust(&typ(TypeKind::Enum { variants: Vec::new() })), "String");
}

#[test]
fn function_types_list_their_parameter_types() {
    let t = typ(TypeKind::Function {
        params: vec![param(Some("a"), Type::reference("i64")), param(None, Type::reference("Any"))],
        ret: Box::new(Type::reference("bool")),
    });
    assert_eq!(type_to_rust(&t), "fn(i64, serde_json::Value) -> bool");
    let t = typ(TypeKind::Function { params: Vec::new(), ret: Box::new(Type::reference("Unit")) });
    assert_eq!(type_to_rust(&t), "fn() -> ()");
}

#[test]
fn compositions_are_used_as_their_first_member() {
    let members = || vec![Type::reference("i64"), Type::reference("String")];
    assert_eq!(type_to_rust(&typ(TypeKind::Union { members: members() })), "i64");
    assert_eq!(type_to_rust(&typ(TypeKind::Intersection { members: members() })), "i64");
    assert_eq!(type_to_rust(&typ(TypeKind::Union { members: Vec::new() })), "serde_json::Value");
    assert_eq!(
        type_to_rust(&typ(TypeKind::Intersection { members: Vec::new() })),
        "serde_json::Value"
    );
}

#[test]
fn lists_of_types_keep_their_order() {
    assert_eq!(
        types_to_rust(&vec![Type::reference("Unit"), Type::reference("Pet")]),
        vec!["()", "Pet"]
    );
    assert_eq!(
        param_types_to_rust(&vec![param(Some("x"), Type::reference("Any"))]),
        vec!["serde_json::Value"]
    );
    assert!(types_to_rust(&Vec::new()).is_empty());
}

#[test]
fn generics_list_the_parameter_names() {
    assert_eq!(generics(&Vec::new()), "");
    assert_eq!(generics(&vec![type_param("T")]), "<T>");
    assert_eq!(generics(&vec![type_param("T"), type_param("U")]), "<T, U>");
}

#[test]
fn a_struct_without_fields_is_a_unit_struct() {
    let text = written(|out| generate_struct(out, "Marker", &Vec::new(), &Vec::new()));
    assert_eq!(text, format!("{DERIVE}pub struct Marker;\n\n"));
}

#[test]
fn a_struct_with_only_positional_fields_is_a_tuple_struct() {
    let fields = vec![field(None, Type::reference("i64")), field(None, Type::reference("Any"))];
    let text = written(|out| generate_struct(out, "Pair", &vec![type_param("T")], &fields));
    assert_eq!(
        text,
        format!("{DERIVE}pub struct Pair<T>(\n    pub i64,\n    pub serde_json::Value,\n);\n\n")
    );
}

#[test]
fn a_struct_with_a_named_field_has_named_fields() {
    let fields = vec![
        field(Some("name"), Type::reference("String")),
        field(None, Type::reference("i64")),
    ];
    let text = written(|out| generate_struct(out, "Pet", &Vec::new(), &fields));
    assert_eq!(
        text,
        format!("{DERIVE}pub struct Pet {{\n    pub name: String,\n    pub _: i64,\n}}\n\n")
    );
}

#[test]
fn a_field_whose_name_changes_carries_the_name_it_had() {
    let fields = vec![
        field(Some("petName"), Type::reference("String")),
        field(Some("type"), Type::reference("String")),
        field(Some("first-seen"), Type::reference("i64")),
        field(Some("age"), Type::reference("i64")),
    ];
    let text = written(|out| generate_struct(out, "Pet", &Vec::new(), &fields));
    let expected = format!(
        "{DERIVE}pub struct Pet {{\n\
         \x20   #[serde(rename = \"petName\")]\n\
         \x20   pub pet_name: String,\n\
         \x20   #[serde(rename = \"type\")]\n\
         \x20   pub r#type: String,\n\
         \x20   #[serde(rename = \"first-seen\")]\n\
         \x20   pub first_seen: i64,\n\
         \x20   pub age: i64,\n\
         }}\n\n"
    );
    assert_eq!(text, expected);
}

#[test]
fn fields_are_positional_where_none_has_a_name() {
    assert!(all_unnamed(&Vec::new()));
    assert!(all_unnamed(&vec![field(None, Type::reference("A")), field(None, Type::reference("B"))]));
    assert!(!all_unnamed(&vec![field(None, Type::reference("A")), field(Some("b"), Type::reference("B"))]));
    assert_eq!(name_or_underscore(&None), "_");
    assert_eq!(name_or_underscore(&Some("x".to_string())), "x");
}

#[test]
fn an_enum_declares_its_variants_in_order() {
    let variants = vec![
        variant("available", Vec::new(), vec![Annotation::with_string("serde_rename", "available")]),
        variant("Sold", Vec::new(), Vec::new()),
        variant("pair", vec![field(None, Type::reference("i64")), field(None, Type::reference("Pet"))], Vec::new()),
        variant(
            "named_one",
            vec![field(Some("petName"), Type::reference("String")), field(None, Type::reference("Unit"))],
            Vec::new(),
        ),
    ];
    let text = written(|out| generate_enum(out, "Status", &vec![type_param("T")], &variants));
    let expected = format!(
        "{DERIVE}pub enum Status<T> {{\n\
         \x20   #[serde(rename = \"available\")]\n\
         \x20   Available,\n\
         \x20   Sold,\n\
         \x20   Pair(i64, Pet),\n\
         \x20   NamedOne {{\n\
         \x20       pet_name: String,\n\
         \x20       _: (),\n\
         \x20   }},\n\
         }}\n\n"
    );
    assert_eq!(text, expected);
}

#[test]
fn an_enum_without_variants_is_empty() {
    let text = written(|out| generate_enum(out, "Never", &Vec::new(), &Vec::new()));
    assert_eq!(text, format!("{DERIVE}pub enum Never {{\n}}\n\n"));
}

#[test]
fn a_variant_is_renamed_only_where_the_hint_differs() {
    let same = variant("SOLD", Vec::new(), vec![Annotation::with_string("serde_rename", "SOLD")]);
    assert_eq!(written(|out| generate_variant(out, &same)), "    SOLD,\n");

    let differs = variant("Sold", Vec::new(), vec![Annotation::with_string("serde_rename", "sold")]);
    assert_eq!(
        written(|out| generate_variant(out, &differs)),
        "    #[serde(rename = \"sold\")]\n    Sold,\n"
    );

    let hint_on_tuple = variant(
        "Sold",
        vec![field(None, Type::reference("i64"))],
        vec![Annotation::with_string("serde_rename", "sold")],
    );
    assert_eq!(
        written(|out| generate_variant(out, &hint_on_tuple)),
        "    #[serde(rename = \"sold\")]\n    Sold(i64),\n"
    );

    let hint_on_struct = variant(
        "sold",
        vec![field(Some("at"), Type::reference("i64"))],
        vec![Annotation::with_string("serde_rename", "sold")],
    );
    assert_eq!(
        written(|out| generate_variant(out, &hint_on_struct)),
        "    #[serde(rename = \"sold\")]\n    Sold {\n        at: i64,\n    },\n"
    );

    let same_on_tuple = variant(
        "Sold",
        vec![field(None, Type::reference("i64"))],
        vec![Annotation::with_string("serde_rename", "Sold")],
    );
    assert_eq!(written(|out| generate_variant(out, &same_on_tuple)), "    Sold(i64),\n");
}

#[test]
fn a_tuple_variant_in_an_enum_keeps_its_hint() {
    let variants = vec![variant(
        "A",
        vec![field(None, Type::reference("i64"))],
        vec![Annotation::with_string("serde_rename", "a")],
    )];
    let text = written(|out| generate_enum(out, "E", &Vec::new(), &variants));
    assert_eq!(
        text,
        format!("{DERIVE}pub enum E {{\n    #[serde(rename = \"a\")]\n    A(i64),\n}}\n\n")
    );
}

#[test]
fn a_variant_is_written_in_two_parts() {
    let v = variant(
        "pair",
        vec![field(None, Type::reference("i64")), field(None, Type::reference("Pet"))],
        vec![Annotation::with_string("serde_rename", "pair")],
    );
    assert_eq!(
        written(|out| generate_variant_rename(out, &v)),
        "    #[serde(rename = \"pair\")]\n"
    );
    assert_eq!(written(|out| generate_variant_shape(out, &v)), "    Pair(i64, Pet),\n");
    let plain = variant("Unit", Vec::new(), Vec::new());
    assert_eq!(written(|out| generate_variant_rename(out, &plain)), "");
    assert_eq!(written(|out| generate_variant_shape(out, &plain)), "    Unit,\n");
}

#[test]
fn a_rename_hint_is_the_first_with_a_string() {
    let annotations = vec![
        Annotation::flag("serde_rename"),
        Annotation { kind: "serde_rename".to_string(), value: Some(AnnotationValue::Bool(true)) },
        Annotation::with_string("other", "x"),
        Annotation::with_string("serde_rename", "first"),
        Annotation::with_string("serde_rename", "second"),
    ];
    assert_eq!(find_string_hint(&annotations, "serde_rename"), Some("first"));
    assert_eq!(find_string_hint(&annotations, "other"), Some("x"));
    assert_eq!(find_string_hint(&annotations, "missing"), None);
    assert_eq!(find_string_hint(&Vec::new(), "serde_rename"), None);
}

#[test]
fn the_first_annotation_of_a_kind_decides() {
    let annotations = vec![
        Annotation::with_string("http_path", "/a"),
        Annotation::flag("http_method"),
        Annotation::with_string("http_method", "GET"),
        Annotation::with_string("http_path", "/b"),
    ];
    assert_eq!(find_first_string(&annotations, "http_path"), Some("/a"));
    assert_eq!(find_first_string(&annotations, "http_method"), None);
    assert_eq!(find_first_string(&annotations, "missing"), None);
}

#[test]
fn documentation_becomes_one_comment_line_for_each_line() {
    assert_eq!(written(|out| generate_docs(out, &None)), "");
    assert_eq!(written(|out| generate_docs(out, &Some(String::new()))), "");
    assert_eq!(written(|out| generate_docs(out, &Some("One.".to_string()))), "/// One.\n");
    assert_eq!(
        written(|out| generate_docs(out, &Some("One.\r\n\nTwo.\n".to_string()))),
        "/// One.\n/// \n/// Two.\n"
    );
}

#[test]
fn a_union_has_an_arm_for_each_member() {
    let members = vec![
        Type::reference("String"),
        named("Pet", TypeKind::Struct { fields: Vec::new() }),
        Type::generic("Vec", vec![Type::reference("i64")]),
    ];
    let text = written(|out| generate_union(out, "Either", &members));
    let expected = format!(
        "{DERIVE}#[serde(untagged)]\npub enum Either {{\n\
         \x20   Variant0(String),\n\
         \x20   Pet(Pet),\n\
         \x20   Variant2(Vec<i64>),\n\
         }}\n\n"
    );
    assert_eq!(text, expected);
}

#[test]
fn union_arms_are_numbered_in_decimal() {
    let members: Vec<Type> = (0..12).map(|_| Type::reference("i64")).collect();
    let text = written(|out| generate_union(out, "Many", &members));
    assert!(text.contains("    Variant9(i64),\n    Variant10(i64),\n    Variant11(i64),\n"));
}

#[test]
fn a_reference_with_a_name_is_an_alias() {
    assert_eq!(
        written(|out| generate_alias(out, "Id", "i64", &Vec::new())),
        "pub type Id = i64;\n\n"
    );
    assert_eq!(
        written(|out| generate_alias(out, "Pets", "Vec", &vec![Type::reference("Pet")])),
        "pub type Pets = Vec<Pet>;\n\n"
    );
    assert_eq!(
        written(|out| generate_alias(out, "Blob", "Any", &Vec::new())),
        "pub type Blob = Any;\n\n"
    );
}

#[test]
fn a_function_type_with_a_name_is_an_alias() {
    let params = vec![param(Some("x"), Type::reference("i64")), param(None, Type::reference("String"))];
    assert_eq!(
        written(|out| generate_function_alias(out, "Callback", &params, &Type::reference("Unit"))),
        "pub type Callback = fn(i64, String) -> ();\n\n"
    );
}

#[test]
fn an_anonymous_type_is_not_declared() {
    let mut t = typ(TypeKind::Struct { fields: Vec::new() });
    t.metadata = Metadata::with_docs(Some("Ignored.".to_string()));
    assert_eq!(written(|out| generate_type(out, &t)), "");
}

#[test]
fn a_declared_type_is_written_by_its_kind() {
    let mut s = named("Pet", TypeKind::Struct { fields: vec![field(Some("name"), Type::reference("String"))] });
    s.metadata = Metadata::with_docs(Some("A pet.\nFor sale.".to_string()));
    assert_eq!(
        written(|out| generate_type(out, &s)),
        format!("/// A pet.\n/// For sale.\n{DERIVE}pub struct Pet {{\n    pub name: String,\n}}\n\n")
    );

    let e = named("Status", TypeKind::Enum { variants: vec![variant("on", Vec::new(), Vec::new())] });
    assert_eq!(
        written(|out| generate_type(out, &e)),
        format!("{DERIVE}pub enum Status {{\n    On,\n}}\n\n")
    );

    let u = named("Either", TypeKind::Union { members: vec![Type::reference("i64")] });
    assert_eq!(
        written(|out| generate_type(out, &u)),
        format!("{DERIVE}#[serde(untagged)]\npub enum Either {{\n    Variant0(i64),\n}}\n\n")
    );

    let mut a = named("Pets", TypeKind::Ref { name: "Vec".to_string() });
    a.args = vec![Type::reference("Pet")];
    assert_eq!(written(|out| generate_type(out, &a)), "pub type Pets = Vec<Pet>;\n\n");

    let f = named(
        "Handler",
        TypeKind::Function { params: Vec::new(), ret: Box::new(Type::reference("bool")) },
    );
    assert_eq!(written(|out| generate_type(out, &f)), "pub type Handler = fn() -> bool;\n\n");
}

#[test]
fn an_intersection_is_marked_and_not_declared() {
    let mut t = named("Both", TypeKind::Intersection { members: vec![Type::reference("A"), Type::reference("B")] });
    t.metadata = Metadata::with_docs(Some("Both.".to_string()));
    let marker = format!("// {}: Intersection type Both\n\n", "TODO");
    assert_eq!(written(|out| generate_type(out, &t)), format!("/// Both.\n{marker}"));
}

#[test]
fn a_function_is_a_stub() {
    let mut f = function("listPets");
    f.params = vec![type_param("T")];
    f.args = vec![
        param(Some("petId"), Type::reference("i64")),
        param(None, Type::reference("Any")),
        param(Some("type"), Type::generic("Option", vec![Type::reference("String")])),
    ];
    f.ret = Type::generic("Result", vec![Type::reference("Pet"), Type::reference("ApiError")]);
    f.annotations = vec![
        Annotation::with_string("http_method", "GET"),
        Annotation::with_string("http_path", "/pets/{petId}"),
    ];
    f.metadata = Metadata::with_docs(Some("Lists pets.".to_string()));
    let body = format!("    {}!()\n", "todo");
    let expected = format!(
        "/// Lists pets.\n\
         /// HTTP: GET /pets/{{petId}}\n\
         pub async fn list_pets<T>(pet_id: i64, _: serde_json::Value, r#type: Option<String>) -> Result<Pet, ApiError> {{\n\
         {body}}}\n\n"
    );
    assert_eq!(written(|out| generate_function(out, &f)), expected);
}

#[test]
fn the_comment_on_method_and_path_needs_both() {
    let both = vec![
        Annotation::with_string("http_path", "/x"),
        Annotation::with_string("http_method", "PUT"),
    ];
    assert_eq!(written(|out| generate_http_comment(out, &both)), "/// HTTP: PUT /x\n");
    let only_method = vec![Annotation::with_string("http_method", "PUT")];
    assert_eq!(written(|out| generate_http_comment(out, &only_method)), "");
    let flag_first = vec![
        Annotation::flag("http_path"),
        Annotation::with_string("http_path", "/x"),
        Annotation::with_string("http_method", "PUT"),
    ];
    assert_eq!(written(|out| generate_http_comment(out, &flag_first)), "");
    assert_eq!(written(|out| generate_http_comment(out, &Vec::new())), "");
}

#[test]
fn a_stub_has_a_placeholder_body() {
    let body = format!("    {}!()\n", "todo");
    assert_eq!(
        written(|out| generate_stub(out, &function("ping"))),
        format!("pub async fn ping() -> () {{\n{body}}}\n\n")
    );
    assert_eq!(args_to_rust(&Vec::new()), "");
    assert_eq!(
        args_to_rust(&vec![param(Some("a-b"), Type::reference("i64")), param(Some("C"), Type::reference("Unit"))]),
        "a_b: i64, c: ()"
    );
}

#[test]
fn literals_are_written_as_the_representation_names_them() {
    assert_eq!(value_to_text(&Value::Null), "Null");
    assert_eq!(value_to_text(&Value::Bool(true)), "Bool(true)");
    assert_eq!(value_to_text(&Value::Bool(false)), "Bool(false)");
    assert_eq!(value_to_text(&Value::Number("1.5".to_string())), "Number(1.5)");
    assert_eq!(value_to_text(&Value::String("plain".to_string())), "String(\"plain\")");
    assert_eq!(value_to_text(&Value::List(Vec::new())), "List([])");
    assert_eq!(
        value_to_text(&Value::List(vec![Value::Null, Value::Bool(true), Value::List(vec![Value::Null])])),
        "List([Null, Bool(true), List([Null])])"
    );
    assert_eq!(value_to_text(&Value::Object(ValueMap::new())), "Object({})");
}

#[test]
fn strings_in_literals_are_quoted_and_escaped() {
    assert_eq!(
        value_to_text(&Value::String("a \"b\"\n\\".to_string())),
        "String(\"a \\\"b\\\"\\n\\\\\")"
    );
    assert_eq!(value_to_text(&Value::String(String::new())), "String(\"\")");
}

#[test]
fn objects_are_written_in_the_order_of_their_keys() {
    let mut inner = ValueMap::new();
    inner.insert("deep".to_string(), Value::Null);
    let mut map = ValueMap::new();
    map.insert("z".to_string(), Value::Number("2.0".to_string()));
    map.insert("a \"key\"".to_string(), Value::Object(inner));
    map.insert("l".to_string(), Value::List(vec![Value::String("s".to_string())]));
    assert_eq!(
        value_to_text(&Value::Object(map)),
        "Object({\"z\": Number(2.0), \"a \\\"key\\\"\": Object({\"deep\": Null}), \"l\": List([String(\"s\")])})"
    );
}

#[test]
fn a_constant_is_declared_with_its_type_and_value() {
    let text = written(|out| {
        generate_const(out, "LIMIT", &Type::reference("f64"), &Value::Number("10.0".to_string()))
    });
    assert_eq!(text, "pub const LIMIT: f64 = Number(10.0);\n\n");
}

#[test]
fn the_preamble_declares_the_error_type() {
    assert_eq!(written(generate_preamble), PREAMBLE);
}

#[test]
fn an_empty_module_is_the_preamble() {
    let module = Module {
        name: "empty".to_string(),
        items: Vec::new(),
        submodules: Vec::new(),
        annotations: Vec::new(),
        metadata: Metadata::default(),
    };
    assert_eq!(generate(&module), PREAMBLE);
}

#[test]
fn a_module_declares_its_items_in_order_behind_its_comment() {
    let module = Module {
        name: "api".to_string(),
        items: vec![
            Item::Const {
                name: "VERSION".to_string(),
                typ: Type::reference("String"),
                value: Value::String("1".to_string()),
            },
            Item::Type(named("Id", TypeKind::Ref { name: "i64".to_string() })),
            Item::Function(function("ping")),
            Item::Type(typ(TypeKind::Struct { fields: Vec::new() })),
        ],
        submodules: Vec::new(),
        annotations: Vec::new(),
        metadata: Metadata::with_docs(Some("The API.\nSecond line.".to_string())),
    };
    let body = format!("    {}!()\n", "todo");
    let expected = format!(
        "//! The API.\nSecond line.\n\n{PREAMBLE}\
         pub const VERSION: String = String(\"1\");\n\n\
         pub type Id = i64;\n\n\
         pub async fn ping() -> () {{\n{body}}}\n\n"
    );
    assert_eq!(generate(&module), expected);
}

#[test]
fn fields_are_written_one_by_one() {
    let f = field(Some("petName"), Type::generic("Option", vec![Type::reference("i64")]));
    assert_eq!(written(|out| generate_tuple_field(out, &f)), "    pub Option<i64>,\n");
    assert_eq!(
        written(|out| generate_named_field(out, &f)),
        "    #[serde(rename = \"petName\")]\n    pub pet_name: Option<i64>,\n"
    );
    assert_eq!(written(|out| generate_variant_field(out, &f)), "        pet_name: Option<i64>,\n");
    let plain = field(Some("age"), Type::reference("i64"));
    assert_eq!(written(|out| generate_named_field(out, &plain)), "    pub age: i64,\n");
    let unnamed = field(None, Type::reference("i64"));
    assert_eq!(written(|out| generate_named_field(out, &unnamed)), "    pub _: i64,\n");
}
