//! From a schema document to the text of its bindings: the converter and the
//! generator, one after the other.

use vstd::prelude::*;

use crate::command::Target;
use crate::generator::rust::{
    doc_text, generate, module_text, named_field_lines, rename_line, struct_text,
    type_declaration, type_text,
};
use crate::naming::snake_case;
use crate::parser::openapi::{
    document_module, parse, property_field, schema_type, typed_kind_and_args,
};
use crate::schema::{Document, ObjectType, Property, Schema, SchemaKind, SchemaType};

verus! {

/// The text of the bindings for `doc` in the target language.
pub open spec fn bindings_text(doc: Document, target: Target) -> Seq<char> {
    match target {
        Target::Rust => module_text(document_module(doc)),
    }
}

/// The bindings for `doc` in the target language: the module that the
/// document converts to, as the generator for the target writes it.
pub fn generate_bindings(doc: &Document, target: Target) -> (code: String)
    ensures
        code@ == bindings_text(*doc, target),
{
    let module = parse(doc);
    match target {
        Target::Rust => generate(&module),
    }
}

/// The name of a property reaches the declaration of its field unchanged
/// wherever the snake-case rule would change it: the field stands behind a
/// rename directive that holds the property's name exactly, and only there.
pub proof fn lemma_property_keeps_its_name_on_the_wire(p: Property, required: Seq<String>)
    ensures
        named_field_lines(property_field(p, required)) == (if snake_case(p.name@) != p.name@ {
            rename_line(p.name@)
        } else {
            Seq::empty()
        }) + "    pub "@ + snake_case(p.name@) + ": "@ + type_text(property_field(p, required).typ)
            + ",\n"@,
{
}

/// A named object schema with properties is declared as a struct with one
/// field for each property, in the order of the schema.
pub proof fn lemma_object_is_declared_as_struct(obj: ObjectType, name: Seq<char>)
    ensures
        ({
            let schema = Schema {
                description: None,
                kind: SchemaKind::Type(SchemaType::Object(obj)),
            };
            let declared = schema_type(schema, Some(name));
            &&& declared.kind == typed_kind_and_args(SchemaType::Object(obj)).0
            &&& declared.kind is Struct
            &&& declared.kind->fields.len() == obj.properties@.len()
            &&& type_declaration(declared) == struct_text(
                name,
                Seq::empty(),
                declared.kind->fields,
            )
        }),
{
    let schema = Schema { description: None, kind: SchemaKind::Type(SchemaType::Object(obj)) };
    let declared = schema_type(schema, Some(name));
    assert(doc_text(declared.metadata.docs) =~= Seq::empty());
    assert(type_declaration(declared) =~= struct_text(
        name,
        Seq::empty(),
        declared.kind->fields,
    ));
}

} // verus!
