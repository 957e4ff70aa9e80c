use liana_codegen::bindings::generate_bindings;
use liana_codegen::command::Target;
use liana_codegen::generator::rust::generate;
use liana_codegen::ir::{Annotation, Field, Function, Item, Metadata, Module, Type, TypeKind};
use liana_codegen::parser::openapi::parse;
use liana_codegen::schema::{
    ArrayType, Document, MediaType, NamedPath, NamedSchema, ObjectType, Operation, PathItem,
    Property, RefOr, Response, Responses, Schema, SchemaKind, SchemaType, StatusCode,
    StatusResponse, StringFormat, StringType,
};

fn typed(t: SchemaType) -> Schema {
    Schema { description: None, kind: SchemaKind::Type(t) }
}

fn pet_store() -> Document {
    let pet = typed(SchemaType::Object(ObjectType {
        properties: vec![
            Property {
                name: "name".to_string(),
                schema: RefOr::Item(Box::new(typed(SchemaType::String(StringType {
                    format: StringFormat::Empty,
                    enumeration: Vec::new(),
                })))),
            },
            Property {
                name: "age".to_string(),
                schema: RefOr::Item(Box::new(typed(SchemaType::Integer))),
            },
        ],
        required: vec!["name".to_string()],
    }));
    let pets = typed(SchemaType::Array(ArrayType {
        items: Some(RefOr::Reference { reference: "#/components/schemas/Pet".to_string() }),
    }));
    let list = Operation {
        operation_id: None,
        summary: None,
        description: None,
        parameters: Vec::new(),
        request_body: None,
        responses: Responses {
            default: None,
            responses: vec![StatusResponse {
                status: StatusCode::Code(200),
                response: RefOr::Item(Response {
                    content: vec![MediaType {
                        media_type: "application/json".to_string(),
                        schema: Some(RefOr::Item(pets)),
                    }],
                }),
            }],
        },
    };
    Document {
        title: "Pet Store".to_string(),
        description: None,
        schemas: vec![NamedSchema { name: "Pet".to_string(), schema: RefOr::Item(pet) }],
        paths: vec![NamedPath {
            path: "/pets".to_string(),
            item: RefOr::Item(PathItem {
                get: Some(list),
                put: None,
                post: None,
                delete: None,
                options: None,
                head: None,
                patch: None,
                trace: None,
            }),
        }],
    }
}

fn expected_module() -> Module {
    let pet = Type {
        kind: TypeKind::Struct {
            fields: vec![
                Field {
                    name: Some("name".to_string()),
                    typ: Type::reference("String"),
                    annotations: Vec::new(),
                },
                Field {
                    name: Some("age".to_string()),
                    typ: Type::generic("Option", vec![Type::reference("i64")]),
                    annotations: Vec::new(),
                },
            ],
        },
        name: Some("Pet".to_string()),
        params: Vec::new(),
        args: Vec::new(),
        annotations: Vec::new(),
        metadata: Metadata::default(),
    };
    let list = Function {
        name: "get__pets".to_string(),
        params: Vec::new(),
        args: Vec::new(),
        ret: Type::generic(
            "Result",
            vec![
                Type::generic("Vec", vec![Type::reference("Pet")]),
                Type::reference("ApiError"),
            ],
        ),
        annotations: vec![
            Annotation::with_string("http_method", "GET"),
            Annotation::with_string("http_path", "/pets"),
        ],
        metadata: Metadata::default(),
    };
    Module {
        name: "pet_store".to_string(),
        items: vec![Item::Type(pet), Item::Function(list)],
        submodules: Vec::new(),
        annotations: Vec::new(),
        metadata: Metadata::default(),
    }
}

#[test]
fn the_pet_store_converts_to_one_type_and_one_function() {
    assert_eq!(parse(&pet_store()), expected_module());
}

#[test]
fn the_pet_store_generates_a_struct_and_a_stub() {
    let body = format!("    {}!()\n", "todo");
    let expected = format!(
        "use serde::{{Deserialize, Serialize}};\n\
         \n\
         /// API error type.\n\
         #[derive(Debug, Clone, PartialEq, Serialize, Deserialize)]\n\
         pub struct ApiError {{\n\
         \x20   pub message: String,\n\
         \x20   pub code: Option<String>,\n\
         }}\n\
         \n\
         #[derive(Debug, Clone, PartialEq, Serialize, Deserialize)]\n\
         pub struct Pet {{\n\
         \x20   pub name: String,\n\
         \x20   pub age: Option<i64>,\n\
         }}\n\
         \n\
         /// HTTP: GET /pets\n\
         pub async fn get__pets() -> Result<Vec<Pet>, ApiError> {{\n\
         {body}}}\n\
         \n"
    );
    assert_eq!(generate(&parse(&pet_store())), expected);
}

#[test]
fn an_identifier_in_mixed_case_is_kept_on_the_wire() {
    let mut doc = pet_store();
    if let RefOr::Item(Schema { kind: SchemaKind::Type(SchemaType::Object(obj)), .. }) =
        &mut doc.schemas[0].schema
    {
        obj.properties[0].name = "petName".to_string();
        obj.required = vec!["petName".to_string()];
    }
    let code = generate(&parse(&doc));
    assert!(code.contains("    #[serde(rename = \"petName\")]\n    pub pet_name: String,\n"));
    assert!(!code.contains("rename = \"age\""));
}

#[test]
fn bindings_are_what_the_generator_writes_for_the_converted_module() {
    let doc = pet_store();
    assert_eq!(generate_bindings(&doc, Target::Rust), generate(&parse(&doc)));
    assert!(generate_bindings(&doc, Target::Rust).contains("pub struct Pet {\n"));
}
