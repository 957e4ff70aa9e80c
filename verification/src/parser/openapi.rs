//! The converter for OpenAPI documents.
//!
//! Every construct of the document maps to one construct of the
//! representation. What the representation cannot say precisely degrades to
//! a fixed fallback, and the conversion goes on: a reference that leads out
//! of the document's schema definitions becomes the type `Any`, or is left
//! out where it is a branch of a composition.

use vstd::prelude::*;
use vstd::string::StringExecFns;

use crate::ir::model::{
    annotations_model, docs_metadata, fields_model, generic_type, items_model, optional_type,
    params_model, reference_type, string_annotation, text_of, types_model, variants_model,
    AnnotationModel, FieldModel, FunctionModel, ItemModel, KindModel, ModuleModel, ParamModel,
    TypeModel, VariantModel,
};
use crate::ir::names::{
    ANY, API_ERROR, BOOLEAN, FORMAT, HTTP_METHOD, HTTP_PATH, INTEGER, NUMBER, OPTION, RESULT,
    SERDE_RENAME, STRING, UNIT, VEC,
};
use crate::ir::{
    Annotation, Field, Function, Item, Metadata, Module, Param, Type, TypeKind, Variant,
};
use crate::naming::{module_name, pascal_case, to_module_name, to_pascal_case};
use crate::schema::{
    contains_name, find_media, find_response, media, names_contain, response_for, ArrayType,
    Document, KnownFormat, MediaType, NamedPath, NamedSchema, ObjectType, Operation, Parameter,
    ParameterFormat, PathItem, Property, RefOr, Response, Schema, SchemaKind, SchemaType,
    StringFormat, StringType,
};
use crate::sequences::{
    concat, concat_upto, item_or_nothing, lemma_present_upto_all, lemma_present_upto_len,
    lemma_present_upto_map, present, present_upto,
};
use crate::text::{strip_prefix, without_prefix};

verus! {

/// The path under which a document keeps its schema definitions.
pub const SCHEMA_PREFIX: &'static str = "#/components/schemas/";

/// The media type of the content that the converter reads.
pub const JSON: &'static str = "application/json";

/// The name of the argument that stands for the request body.
pub const BODY: &'static str = "body";

/// The status whose response types the result where there is no default
/// response.
pub const OK: u16 = 200;

/// The path under which a document keeps its schema definitions.
pub open spec fn schema_prefix() -> Seq<char> {
    SCHEMA_PREFIX@
}

/// The name that a reference gives, where it leads to a schema definition of
/// the document: what follows the prefix.
pub open spec fn referenced_name(reference: Seq<char>) -> Option<Seq<char>> {
    without_prefix(reference, schema_prefix())
}

/// The type that stands in where a reference cannot be resolved.
pub open spec fn any_type() -> TypeModel {
    reference_type(ANY@)
}

/// `t`, or the fallback type where there is none.
pub open spec fn or_any(t: Option<TypeModel>) -> TypeModel {
    match t {
        Some(t) => t,
        None => any_type(),
    }
}

/// The name under which a known string format is recorded: its name as a
/// schema writes it.
pub open spec fn format_name(f: KnownFormat) -> Seq<char> {
    match f {
        KnownFormat::Date => "date"@,
        KnownFormat::DateTime => "date-time"@,
        KnownFormat::Password => "password"@,
        KnownFormat::Byte => "byte"@,
        KnownFormat::Binary => "binary"@,
    }
}

/// The annotations of a schema: the format hint of a string schema.
pub open spec fn format_annotations(kind: SchemaKind) -> Seq<AnnotationModel> {
    match kind {
        SchemaKind::Type(SchemaType::String(s)) => match s.format {
            StringFormat::Known(f) => seq![string_annotation(FORMAT@, format_name(f))],
            StringFormat::Unknown(f) => seq![string_annotation(FORMAT@, f@)],
            StringFormat::Empty => Seq::empty(),
        },
        _ => Seq::empty(),
    }
}

/// The variant for one enumerated literal: a unit variant named by the
/// Pascal-case form of the literal, which it keeps as a rename hint.
pub open spec fn literal_variant(literal: Seq<char>) -> VariantModel {
    VariantModel {
        name: pascal_case(literal),
        fields: Seq::empty(),
        annotations: seq![string_annotation(SERDE_RENAME@, literal)],
    }
}

/// The variants of an enumeration: one for each literal, none for a null.
pub open spec fn enum_variants(enumeration: Seq<Option<String>>) -> Seq<VariantModel> {
    present(
        Seq::new(
            enumeration.len(),
            |i: int|
                match enumeration[i] {
                    Some(literal) => Some(literal_variant(literal@)),
                    None => None,
                },
        ),
    )
}

/// The type of a schema, declared under `name`.
pub open spec fn schema_type(schema: Schema, name: Option<Seq<char>>) -> TypeModel
    decreases schema,
{
    let (kind, args) = kind_and_args(schema.kind);
    TypeModel {
        kind,
        name,
        params: Seq::empty(),
        args,
        annotations: format_annotations(schema.kind),
        metadata: docs_metadata(text_of(schema.description)),
    }
}

/// The structural kind that a shape maps to, with the type arguments that go
/// with it.
pub open spec fn kind_and_args(kind: SchemaKind) -> (KindModel, Seq<TypeModel>)
    decreases kind,
{
    match kind {
        SchemaKind::Type(t) => typed_kind_and_args(t),
        SchemaKind::OneOf { one_of } => (
            KindModel::Union { members: present(resolved_all(one_of@)) },
            Seq::empty(),
        ),
        SchemaKind::AllOf { all_of } => (
            KindModel::Intersection { members: present(resolved_all(all_of@)) },
            Seq::empty(),
        ),
        SchemaKind::AnyOf { any_of } => (
            KindModel::Union { members: present(resolved_all(any_of@)) },
            Seq::empty(),
        ),
        SchemaKind::Not { not } => (KindModel::Ref { name: ANY@ }, Seq::empty()),
        SchemaKind::Any(any) => if any.properties@.len() == 0 {
            (KindModel::Ref { name: ANY@ }, Seq::empty())
        } else {
            (
                KindModel::Struct { fields: property_fields(any.properties@, any.required@) },
                Seq::empty(),
            )
        },
    }
}

/// The structural kind that a declared type maps to, with its type
/// arguments.
pub open spec fn typed_kind_and_args(t: SchemaType) -> (KindModel, Seq<TypeModel>)
    decreases t,
{
    match t {
        SchemaType::String(s) => if s.enumeration@.len() == 0 {
            (KindModel::Ref { name: STRING@ }, Seq::empty())
        } else {
            (KindModel::Enum { variants: enum_variants(s.enumeration@) }, Seq::empty())
        },
        SchemaType::Number => (KindModel::Ref { name: NUMBER@ }, Seq::empty()),
        SchemaType::Integer => (KindModel::Ref { name: INTEGER@ }, Seq::empty()),
        SchemaType::Boolean => (KindModel::Ref { name: BOOLEAN@ }, Seq::empty()),
        SchemaType::Object(obj) => (
            KindModel::Struct { fields: property_fields(obj.properties@, obj.required@) },
            Seq::empty(),
        ),
        SchemaType::Array(arr) => (
            KindModel::Ref { name: VEC@ },
            seq![
                match arr.items {
                    Some(r) => or_any(resolved_boxed(r)),
                    None => any_type(),
                },
            ],
        ),
    }
}

/// The type that a schema or a reference to one resolves to; `None` where a
/// reference leads out of the document's schema definitions.
pub open spec fn resolved(r: RefOr<Schema>) -> Option<TypeModel>
    decreases r,
{
    match r {
        RefOr::Reference { reference } => match referenced_name(reference@) {
            Some(name) => Some(reference_type(name)),
            None => None,
        },
        RefOr::Item(schema) => Some(schema_type(schema, None)),
    }
}

/// As [`resolved`], for a boxed schema.
pub open spec fn resolved_boxed(r: RefOr<Box<Schema>>) -> Option<TypeModel>
    decreases r,
{
    match r {
        RefOr::Reference { reference } => match referenced_name(reference@) {
            Some(name) => Some(reference_type(name)),
            None => None,
        },
        RefOr::Item(schema) => Some(schema_type(*schema, None)),
    }
}

/// What each of `refs` resolves to.
pub open spec fn resolved_all(refs: Seq<RefOr<Schema>>) -> Seq<Option<TypeModel>>
    decreases refs,
{
    Seq::new(
        refs.len(),
        |i: int|
            if 0 <= i < refs.len() {
                resolved(refs[i])
            } else {
                None
            },
    )
}

/// The field for a property: typed by what its schema resolves to, wrapped as
/// optional unless its name is among `required`.
pub open spec fn property_field(p: Property, required: Seq<String>) -> FieldModel
    decreases p,
{
    let t = or_any(resolved_boxed(p.schema));
    FieldModel {
        name: Some(p.name@),
        typ: if names_contain(required, p.name@) {
            t
        } else {
            optional_type(t)
        },
        annotations: Seq::empty(),
    }
}

/// The fields for the properties of an object, in order.
pub open spec fn property_fields(props: Seq<Property>, required: Seq<String>) -> Seq<FieldModel>
    decreases props,
{
    Seq::new(
        props.len(),
        |i: int|
            if 0 <= i < props.len() {
                property_field(props[i], required)
            } else {
                arbitrary()
            },
    )
}

/// The methods under which a path offers operations.
#[derive(Debug, Clone, Copy, PartialEq, Eq)]
pub enum Method {
    Get,
    Post,
    Put,
    Delete,
    Patch,
    Head,
    Options,
    Trace,
}

impl Method {
    /// The name of the method as a path item spells it.
    pub open spec fn name_text(self) -> Seq<char> {
        match self {
            Method::Get => "get"@,
            Method::Post => "post"@,
            Method::Put => "put"@,
            Method::Delete => "delete"@,
            Method::Patch => "patch"@,
            Method::Head => "head"@,
            Method::Options => "options"@,
            Method::Trace => "trace"@,
        }
    }

    /// The name of the method in capitals, as a request spells it.
    pub open spec fn upper_name_text(self) -> Seq<char> {
        match self {
            Method::Get => "GET"@,
            Method::Post => "POST"@,
            Method::Put => "PUT"@,
            Method::Delete => "DELETE"@,
            Method::Patch => "PATCH"@,
            Method::Head => "HEAD"@,
            Method::Options => "OPTIONS"@,
            Method::Trace => "TRACE"@,
        }
    }

    /// The name of the method as a path item spells it.
    pub fn name(self) -> (r: &'static str)
        ensures
            r@ == self.name_text(),
    {
        match self {
            Method::Get => "get",
            Method::Post => "post",
            Method::Put => "put",
            Method::Delete => "delete",
            Method::Patch => "patch",
            Method::Head => "head",
            Method::Options => "options",
            Method::Trace => "trace",
        }
    }

    /// The name of the method in capitals, as a request spells it.
    pub fn upper_name(self) -> (r: &'static str)
        ensures
            r@ == self.upper_name_text(),
    {
        match self {
            Method::Get => "GET",
            Method::Post => "POST",
            Method::Put => "PUT",
            Method::Delete => "DELETE",
            Method::Patch => "PATCH",
            Method::Head => "HEAD",
            Method::Options => "OPTIONS",
            Method::Trace => "TRACE",
        }
    }
}

/// What a character of a path contributes to a function name: a slash
/// becomes an underscore, a brace goes, anything else stays.
pub open spec fn slug_piece(c: char) -> Seq<char> {
    if c == '/' {
        seq!['_']
    } else if c == '{' || c == '}' {
        Seq::empty()
    } else {
        seq![c]
    }
}

/// The contributions of all characters of `path`.
pub open spec fn slug_pieces(path: Seq<char>) -> Seq<Seq<char>> {
    Seq::new(path.len(), |i: int| slug_piece(path[i]))
}

/// `path` with underscores for slashes and without braces.
pub open spec fn path_slug(path: Seq<char>) -> Seq<char> {
    concat(slug_pieces(path))
}

/// The name of an operation that declares none: the method, an underscore
/// and the path's slug.
pub open spec fn fallback_name(method: Method, path: Seq<char>) -> Seq<char> {
    method.name_text() + "_"@ + path_slug(path)
}

/// The name of the function for an operation: the identifier it declares,
/// else the fallback.
pub open spec fn operation_name(path: Seq<char>, method: Method, op: Operation) -> Seq<char> {
    match op.operation_id {
        Some(id) => id@,
        None => fallback_name(method, path),
    }
}

/// The type of a parameter before optionality: what its schema resolves to,
/// and a string where it is described by media types.
pub open spec fn parameter_type(format: ParameterFormat) -> TypeModel {
    match format {
        ParameterFormat::Schema(s) => or_any(resolved(s)),
        ParameterFormat::Content => reference_type(STRING@),
    }
}

/// The argument for a parameter, wrapped as optional unless it is required.
pub open spec fn parameter_arg(p: Parameter) -> ParamModel {
    ParamModel {
        name: Some(p.name@),
        typ: if p.required {
            parameter_type(p.format)
        } else {
            optional_type(parameter_type(p.format))
        },
        default: None,
        annotations: Seq::empty(),
    }
}

/// What each parameter contributes: its argument, and nothing where it is a
/// reference.
pub open spec fn parameter_slots(params: Seq<RefOr<Parameter>>) -> Seq<Option<ParamModel>> {
    Seq::new(
        params.len(),
        |i: int|
            match params[i] {
                RefOr::Item(p) => Some(parameter_arg(p)),
                RefOr::Reference { .. } => None,
            },
    )
}

/// The schema of the JSON content among `content`, where there is one.
pub open spec fn json_schema(content: Seq<MediaType>) -> Option<RefOr<Schema>> {
    match media(content, JSON@) {
        Some(m) => m.schema,
        None => None,
    }
}

/// The trailing argument for the request body: present where the body is
/// given in place and has JSON content with a schema.
pub open spec fn body_arg(op: Operation) -> Option<ParamModel> {
    match op.request_body {
        Some(RefOr::Item(body)) => match json_schema(body.content@) {
            Some(s) => Some(
                ParamModel {
                    name: Some(BODY@),
                    typ: or_any(resolved(s)),
                    default: None,
                    annotations: Seq::empty(),
                },
            ),
            None => None,
        },
        _ => None,
    }
}

/// The arguments of the function for an operation: its parameters in order,
/// then the request body.
pub open spec fn operation_args(op: Operation) -> Seq<ParamModel> {
    present(parameter_slots(op.parameters@)) + item_or_nothing(body_arg(op))
}

/// The response that types the result: the default one, else the one for
/// status 200.
pub open spec fn chosen_response(op: Operation) -> Option<RefOr<Response>> {
    match op.responses.default {
        Some(r) => Some(r),
        None => response_for(op.responses.responses@, OK),
    }
}

/// What an operation yields on success: the type of the JSON content of the
/// chosen response, and `Unit` where there is none.
pub open spec fn response_type(op: Operation) -> TypeModel {
    match chosen_response(op) {
        Some(RefOr::Item(response)) => match json_schema(response.content@) {
            Some(s) => or_any(resolved(s)),
            None => reference_type(UNIT@),
        },
        _ => reference_type(UNIT@),
    }
}

/// The return type of the function for an operation: success or the error
/// type of the bindings.
pub open spec fn return_type(op: Operation) -> TypeModel {
    generic_type(RESULT@, seq![response_type(op), reference_type(API_ERROR@)])
}

/// The documentation of an operation: its description, else its summary.
pub open spec fn operation_docs(op: Operation) -> Option<Seq<char>> {
    match op.description {
        Some(d) => Some(d@),
        None => text_of(op.summary),
    }
}

/// The function for the operation that `path` offers under `method`.
pub open spec fn operation_function(path: Seq<char>, method: Method, op: Operation)
    -> FunctionModel {
    FunctionModel {
        name: operation_name(path, method, op),
        params: Seq::empty(),
        args: operation_args(op),
        ret: return_type(op),
        annotations: seq![
            string_annotation(HTTP_METHOD@, method.upper_name_text()),
            string_annotation(HTTP_PATH@, path),
        ],
        metadata: docs_metadata(operation_docs(op)),
    }
}

/// What a path contributes under one method: the function for the operation,
/// where it offers one.
pub open spec fn method_slot(path: Seq<char>, method: Method, op: Option<Operation>) -> Option<
    ItemModel,
> {
    match op {
        Some(op) => Some(ItemModel::Function(operation_function(path, method, op))),
        None => None,
    }
}

/// What a path contributes under each of the methods, in the order in which
/// the converter visits them.
pub open spec fn method_slots(path: Seq<char>, item: PathItem) -> Seq<Option<ItemModel>> {
    seq![
        method_slot(path, Method::Get, item.get),
        method_slot(path, Method::Post, item.post),
        method_slot(path, Method::Put, item.put),
        method_slot(path, Method::Delete, item.delete),
        method_slot(path, Method::Patch, item.patch),
        method_slot(path, Method::Head, item.head),
        method_slot(path, Method::Options, item.options),
        method_slot(path, Method::Trace, item.trace),
    ]
}

/// The functions for the operations of a path.
pub open spec fn path_functions(path: Seq<char>, item: PathItem) -> Seq<ItemModel> {
    present(method_slots(path, item))
}

/// What each schema definition contributes: its declared type, and nothing
/// where it is a reference.
pub open spec fn schema_slots(schemas: Seq<NamedSchema>) -> Seq<Option<ItemModel>> {
    Seq::new(
        schemas.len(),
        |i: int|
            match schemas[i].schema {
                RefOr::Item(s) => Some(ItemModel::Type(schema_type(s, Some(schemas[i].name@)))),
                RefOr::Reference { .. } => None,
            },
    )
}

/// What each path contributes: its functions, and nothing where it is a
/// reference.
pub open spec fn path_parts(paths: Seq<NamedPath>) -> Seq<Seq<ItemModel>> {
    Seq::new(
        paths.len(),
        |i: int|
            match paths[i].item {
                RefOr::Item(item) => path_functions(paths[i].path@, item),
                RefOr::Reference { .. } => Seq::empty(),
            },
    )
}

/// The module that a converter returns for `doc` when it has gathered
/// `gathered` before: those items, then the declared types in the order of
/// the definitions, then the functions in the order of the paths.
pub open spec fn module_with(doc: Document, gathered: Seq<ItemModel>) -> ModuleModel {
    ModuleModel {
        name: module_name(doc.title@),
        items: gathered + present(schema_slots(doc.schemas@)) + concat(path_parts(doc.paths@)),
        submodules: Seq::empty(),
        annotations: Seq::empty(),
        metadata: docs_metadata(text_of(doc.description)),
    }
}

/// The module for a document.
pub open spec fn document_module(doc: Document) -> ModuleModel {
    module_with(doc, Seq::empty())
}

/// The field for a property of an object carries the property's name. It
/// has the type that the property's schema resolves to where the name is
/// among the required names, and the optional form of that type where it is
/// not.
pub proof fn lemma_required_decides_optionality(obj: ObjectType, i: int)
    requires
        0 <= i < obj.properties@.len(),
    ensures
        typed_kind_and_args(SchemaType::Object(obj)).0 is Struct,
        typed_kind_and_args(SchemaType::Object(obj)).0->fields.len() == obj.properties@.len(),
        ({
            let property = obj.properties@[i];
            let field = typed_kind_and_args(SchemaType::Object(obj)).0->fields[i];
            let inner = or_any(resolved_boxed(property.schema));
            &&& field.name == Some(property.name@)
            &&& names_contain(obj.required@, property.name@) ==> field.typ == inner
            &&& !names_contain(obj.required@, property.name@) ==> field.typ == optional_type(inner)
        }),
{
}

/// The literals of an enumeration: its values without the nulls.
pub open spec fn literals(enumeration: Seq<Option<String>>) -> Seq<Seq<char>> {
    present(Seq::new(enumeration.len(), |i: int| text_of(enumeration[i])))
}

/// A string schema that enumerates values becomes an enum with exactly one
/// variant for each literal, in order: a unit variant that keeps the literal
/// as its rename hint.
pub proof fn lemma_one_variant_for_each_literal(s: StringType)
    requires
        s.enumeration@.len() >= 1,
    ensures
        typed_kind_and_args(SchemaType::String(s)).0 is Enum,
        typed_kind_and_args(SchemaType::String(s)).0->variants.len() == literals(
            s.enumeration@,
        ).len(),
        forall|k: int|
            0 <= k < literals(s.enumeration@).len() ==> {
                let variant = #[trigger] typed_kind_and_args(SchemaType::String(s)).0->variants[k];
                &&& variant.fields.len() == 0
                &&& variant.annotations == seq![
                    string_annotation(SERDE_RENAME@, literals(s.enumeration@)[k]),
                ]
                &&& variant.name == pascal_case(literals(s.enumeration@)[k])
            },
{
    let e = s.enumeration@;
    let texts = Seq::new(e.len(), |i: int| text_of(e[i]));
    let variants = Seq::new(
        e.len(),
        |i: int|
            match e[i] {
                Some(literal) => Some(literal_variant(literal@)),
                None => None,
            },
    );
    lemma_present_upto_map(texts, variants, |l: Seq<char>| literal_variant(l), e.len() as int);
}

/// The members of a composition are what its branches resolve to: never
/// more than there are branches, and as many only where every branch
/// resolves. A branch that does not resolve leaves no member.
pub proof fn lemma_members_of_composition(refs: Seq<RefOr<Schema>>)
    ensures
        resolved_all(refs).len() == refs.len(),
        present(resolved_all(refs)).len() <= refs.len(),
        present(resolved_all(refs)).len() == refs.len() <==> (forall|i: int|
            0 <= i < refs.len() ==> resolved(#[trigger] refs[i]) is Some),
        (forall|i: int| 0 <= i < refs.len() ==> resolved(#[trigger] refs[i]) is Some) ==> (forall|
            i: int,
        |
            0 <= i < refs.len() ==> Some(#[trigger] present(resolved_all(refs))[i]) == resolved(
                refs[i],
            )),
{
    let all = resolved_all(refs);
    lemma_present_upto_len(all, all.len() as int);
    if forall|i: int| 0 <= i < refs.len() ==> resolved(#[trigger] refs[i]) is Some {
        assert forall|i: int| 0 <= i < all.len() implies all[i] is Some by {
            assert(resolved(refs[i]) is Some);
        }
        lemma_present_upto_all(all, all.len() as int);
    }
    if present(all).len() == refs.len() {
        assert forall|i: int| 0 <= i < refs.len() implies resolved(#[trigger] refs[i]) is Some by {
            assert(all[i] is Some);
        }
    }
}

/// A schema that offers alternatives becomes a union, and one that combines
/// schemas an intersection, with the members of the composition and no type
/// arguments.
pub proof fn lemma_kind_of_composition(kind: SchemaKind)
    ensures
        kind matches SchemaKind::OneOf { one_of } ==> kind_and_args(kind) == (
            KindModel::Union { members: present(resolved_all(one_of@)) },
            Seq::<TypeModel>::empty(),
        ),
        kind matches SchemaKind::AnyOf { any_of } ==> kind_and_args(kind) == (
            KindModel::Union { members: present(resolved_all(any_of@)) },
            Seq::<TypeModel>::empty(),
        ),
        kind matches SchemaKind::AllOf { all_of } ==> kind_and_args(kind) == (
            KindModel::Intersection { members: present(resolved_all(all_of@)) },
            Seq::<TypeModel>::empty(),
        ),
{
}

/// An array whose items resolve becomes the type `Vec` with exactly one
/// type argument: what the items resolve to.
pub proof fn lemma_array_of_resolved_items(arr: ArrayType, item: TypeModel)
    requires
        arr.items matches Some(r) && resolved_boxed(r) == Some(item),
    ensures
        typed_kind_and_args(SchemaType::Array(arr)) == (
            KindModel::Ref { name: VEC@ },
            seq![item],
        ),
{
}

/// A reference that leads out of the document's schema definitions does not
/// resolve, and the fallback type stands in its place: as the type of a
/// property, of the items of an array, of a parameter, of the request body
/// and of the response. What surrounds it is as it would be for any other
/// type.
pub proof fn lemma_unresolved_reference_becomes_any(reference: String)
    requires
        referenced_name(reference@) is None,
    ensures
        resolved(RefOr::Reference { reference }) is None,
        resolved_boxed(RefOr::Reference { reference }) is None,
        forall|name: String, required: Seq<String>|
            #[trigger] property_field(
                Property { name, schema: RefOr::Reference { reference } },
                required,
            ) == (FieldModel {
                name: Some(name@),
                typ: if names_contain(required, name@) {
                    any_type()
                } else {
                    optional_type(any_type())
                },
                annotations: Seq::empty(),
            }),
        typed_kind_and_args(
            SchemaType::Array(ArrayType { items: Some(RefOr::Reference { reference }) }),
        ) == (KindModel::Ref { name: VEC@ }, seq![any_type()]),
        parameter_type(ParameterFormat::Schema(RefOr::Reference { reference })) == any_type(),
{
}

/// Where the JSON content of the request body or of the chosen response
/// refers out of the document's schema definitions, the fallback type stands
/// for the body and for what the operation yields.
pub proof fn lemma_unresolved_content_becomes_any(op: Operation, reference: String)
    requires
        referenced_name(reference@) is None,
    ensures
        (op.request_body matches Some(RefOr::Item(body)) && json_schema(body.content@) == Some(
            RefOr::<Schema>::Reference { reference },
        )) ==> (body_arg(op) is Some && body_arg(op)->0.typ == any_type()),
        (chosen_response(op) matches Some(RefOr::Item(response)) && json_schema(response.content@)
            == Some(RefOr::<Schema>::Reference { reference })) ==> response_type(op) == any_type(),
{
}

/// The methods under which a path item offers an operation, each with its
/// operation, in the order in which the converter visits them.
pub open spec fn offered(item: PathItem) -> Seq<(Method, Operation)> {
    present(offer_slots(item))
}

/// A method with the operation that a path offers under it, if any.
pub open spec fn offer_slot(method: Method, op: Option<Operation>) -> Option<(Method, Operation)> {
    match op {
        Some(op) => Some((method, op)),
        None => None,
    }
}

/// What a path item offers under each of the methods, in the order in which
/// the converter visits them.
pub open spec fn offer_slots(item: PathItem) -> Seq<Option<(Method, Operation)>> {
    seq![
        offer_slot(Method::Get, item.get),
        offer_slot(Method::Post, item.post),
        offer_slot(Method::Put, item.put),
        offer_slot(Method::Delete, item.delete),
        offer_slot(Method::Patch, item.patch),
        offer_slot(Method::Head, item.head),
        offer_slot(Method::Options, item.options),
        offer_slot(Method::Trace, item.trace),
    ]
}

/// A path item yields exactly one function for each method under which it
/// offers an operation. Each is annotated with the method in capitals and
/// with the path as it is written, in this order and with nothing else.
pub proof fn lemma_one_function_for_each_operation(path: Seq<char>, item: PathItem)
    ensures
        path_functions(path, item).len() == offered(item).len(),
        offered(item).len() <= 8,
        forall|k: int|
            0 <= k < offered(item).len() ==> {
                let (method, op) = offered(item)[k];
                &&& #[trigger] path_functions(path, item)[k] == ItemModel::Function(
                    operation_function(path, method, op),
                )
                &&& operation_function(path, method, op).annotations == seq![
                    string_annotation(HTTP_METHOD@, method.upper_name_text()),
                    string_annotation(HTTP_PATH@, path),
                ]
            },
{
    let f = |pair: (Method, Operation)|
        ItemModel::Function(operation_function(path, pair.0, pair.1));
    lemma_present_upto_map(offer_slots(item), method_slots(path, item), f, 8);
    lemma_present_upto_len(offer_slots(item), 8);
}

/// The name under which a known string format is recorded.
pub fn format_text(f: KnownFormat) -> (r: &'static str)
    ensures
        r@ == format_name(f),
{
    match f {
        KnownFormat::Date => "date",
        KnownFormat::DateTime => "date-time",
        KnownFormat::Password => "password",
        KnownFormat::Byte => "byte",
        KnownFormat::Binary => "binary",
    }
}

/// The type that a reference resolves to; `None` where it leads out of the
/// document's schema definitions.
pub fn resolve_reference(reference: &str) -> (t: Option<Type>)
    ensures
        match t {
            Some(t) => referenced_name(reference@) is Some && t@ == reference_type(
                referenced_name(reference@)->0,
            ),
            None => referenced_name(reference@) is None,
        },
{
    match strip_prefix(reference, SCHEMA_PREFIX) {
        Some(name) => Some(Type::reference(name.as_str())),
        None => None,
    }
}

/// Converts one document. The items gathered so far are its own: nothing
/// else sees them before the module is returned.
pub struct Converter<'a> {
    document: &'a Document,
    items: Vec<Item>,
}

impl<'a> Converter<'a> {
    /// The document that is being converted.
    pub closed spec fn document(&self) -> Document {
        *self.document
    }

    /// The items gathered so far.
    pub closed spec fn gathered(&self) -> Seq<ItemModel> {
        items_model(self.items@)
    }

    /// A converter for `document` that has gathered nothing yet.
    pub fn new(document: &'a Document) -> (c: Self)
        ensures
            c.document() == *document,
            c.gathered() == Seq::<ItemModel>::empty(),
    {
        let c = Converter { document, items: Vec::new() };
        assert(c.gathered() =~= Seq::empty());
        c
    }

    /// The type of `schema`, declared under `name`.
    pub fn convert_schema(&self, schema: &Schema, name: Option<String>) -> (t: Type)
        ensures
            t@ == schema_type(*schema, text_of(name)),
        decreases schema,
    {
        let (kind, args) = match &schema.kind {
            SchemaKind::Type(typ) => self.convert_schema_type(typ),
            SchemaKind::OneOf { one_of } => {
                let members = self.resolve_members(one_of);
                (TypeKind::Union { members }, Vec::new())
            },
            SchemaKind::AllOf { all_of } => {
                let members = self.resolve_members(all_of);
                (TypeKind::Intersection { members }, Vec::new())
            },
            SchemaKind::AnyOf { any_of } => {
                let members = self.resolve_members(any_of);
                (TypeKind::Union { members }, Vec::new())
            },
            SchemaKind::Not { .. } => (TypeKind::Ref { name: ANY.to_owned() }, Vec::new()),
            SchemaKind::Any(any) => {
                if any.properties.len() == 0 {
                    (TypeKind::Ref { name: ANY.to_owned() }, Vec::new())
                } else {
                    let fields = self.convert_properties(&any.properties, &any.required);
                    (TypeKind::Struct { fields }, Vec::new())
                }
            },
        };
        assert(kind@ == kind_and_args(schema.kind).0 && types_model(args@) =~= kind_and_args(
            schema.kind,
        ).1);

        let mut annotations: Vec<Annotation> = Vec::new();
        assert(annotations_model(annotations@) =~= Seq::empty());
        if let SchemaKind::Type(SchemaType::String(st)) = &schema.kind {
            match &st.format {
                StringFormat::Known(f) => {
                    annotations.push(Annotation::with_string(FORMAT, format_text(*f)));
                },
                StringFormat::Unknown(f) => {
                    annotations.push(Annotation::with_string(FORMAT, f.as_str()));
                },
                StringFormat::Empty => {},
            }
        }
        assert(annotations_model(annotations@) =~= format_annotations(schema.kind));

        let metadata = Metadata::with_docs(schema.description.clone());
        let t = Type { kind, name, params: Vec::new(), args, annotations, metadata };
        assert(t@.params =~= Seq::empty());
        t
    }

    /// The structural kind of a declared type, with its type arguments.
    pub fn convert_schema_type(&self, typ: &SchemaType) -> (r: (TypeKind, Vec<Type>))
        ensures
            r.0@ == typed_kind_and_args(*typ).0,
            types_model(r.1@) == typed_kind_and_args(*typ).1,
        decreases typ,
    {
        match typ {
            SchemaType::String(s) => {
                if s.enumeration.len() == 0 {
                    (TypeKind::Ref { name: STRING.to_owned() }, Vec::new())
                } else {
                    let variants = literal_variants(&s.enumeration);
                    (TypeKind::Enum { variants }, Vec::new())
                }
            },
            SchemaType::Number => (TypeKind::Ref { name: NUMBER.to_owned() }, Vec::new()),
            SchemaType::Integer => (TypeKind::Ref { name: INTEGER.to_owned() }, Vec::new()),
            SchemaType::Boolean => (TypeKind::Ref { name: BOOLEAN.to_owned() }, Vec::new()),
            SchemaType::Object(obj) => {
                let fields = self.convert_properties(&obj.properties, &obj.required);
                (TypeKind::Struct { fields }, Vec::new())
            },
            SchemaType::Array(arr) => {
                let resolved_item = match &arr.items {
                    Some(r) => self.resolve_boxed_schema_ref(r),
                    None => None,
                };
                let item_type = match resolved_item {
                    Some(t) => t,
                    None => Type::reference(ANY),
                };
                let mut args: Vec<Type> = Vec::new();
                args.push(item_type);
                assert(types_model(args@) =~= seq![item_type@]);
                (TypeKind::Ref { name: VEC.to_owned() }, args)
            },
        }
    }

    /// The type that a schema or a reference to one resolves to; `None` where
    /// a reference leads out of the document's schema definitions.
    pub fn resolve_schema_ref(&self, schema_ref: &RefOr<Schema>) -> (t: Option<Type>)
        ensures
            match t {
                Some(t) => resolved(*schema_ref) == Some(t@),
                None => resolved(*schema_ref) is None,
            },
        decreases schema_ref,
    {
        match schema_ref {
            RefOr::Reference { reference } => resolve_reference(reference.as_str()),
            RefOr::Item(schema) => Some(self.convert_schema(schema, None)),
        }
    }

    /// As [`Converter::resolve_schema_ref`], for a boxed schema.
    pub fn resolve_boxed_schema_ref(&self, schema_ref: &RefOr<Box<Schema>>) -> (t: Option<Type>)
        ensures
            match t {
                Some(t) => resolved_boxed(*schema_ref) == Some(t@),
                None => resolved_boxed(*schema_ref) is None,
            },
        decreases schema_ref,
    {
        match schema_ref {
            RefOr::Reference { reference } => resolve_reference(reference.as_str()),
            RefOr::Item(schema) => Some(self.convert_schema(schema, None)),
        }
    }

    /// The members of a composition: what its branches resolve to, without
    /// those that do not resolve.
    pub fn resolve_members(&self, refs: &Vec<RefOr<Schema>>) -> (members: Vec<Type>)
        ensures
            types_model(members@) == present(resolved_all(refs@)),
        decreases refs,
    {
        let mut members: Vec<Type> = Vec::new();
        let mut i: usize = 0;
        assert(types_model(members@) =~= Seq::empty());
        while i < refs.len()
            invariant
                i <= refs.len(),
                types_model(members@) == present_upto(resolved_all(refs@), i as int),
            decreases refs.len() - i,
        {
            let ghost before = members@;
            match self.resolve_schema_ref(&refs[i]) {
                Some(t) => {
                    members.push(t);
                    assert(types_model(members@) =~= types_model(before).push(t@));
                },
                None => {},
            }
            i += 1;
        }
        members
    }

    /// The fields for the properties of an object, in order.
    pub fn convert_properties(&self, properties: &Vec<Property>, required: &Vec<String>) -> (fields:
        Vec<Field>)
        ensures
            fields_model(fields@) == property_fields(properties@, required@),
        decreases properties,
    {
        let mut fields: Vec<Field> = Vec::new();
        let mut i: usize = 0;
        while i < properties.len()
            invariant
                i <= properties.len(),
                fields@.len() == i,
                forall|j: int|
                    0 <= j < i ==> (#[trigger] fields@[j])@ == property_field(
                        properties@[j],
                        required@,
                    ),
            decreases properties.len() - i,
        {
            let property = &properties[i];
            let typ = match self.resolve_boxed_schema_ref(&property.schema) {
                Some(t) => t,
                None => Type::reference(ANY),
            };
            let typ = if contains_name(required, property.name.as_str()) {
                typ
            } else {
                optional(typ)
            };
            let field = Field { name: Some(property.name.clone()), typ, annotations: Vec::new() };
            assert(field@.annotations =~= Seq::empty());
            fields.push(field);
            i += 1;
        }
        assert(fields_model(fields@) =~= property_fields(properties@, required@));
        fields
    }

    /// The function for the operation that `path` offers under `method`.
    pub fn convert_operation(&self, path: &str, method: Method, op: &Operation) -> (f: Function)
        ensures
            f@ == operation_function(path@, method, *op),
    {
        let name = match &op.operation_id {
            Some(id) => id.clone(),
            None => {
                let mut name = method.name().to_owned();
                name.append("_");
                name.append(slug(path).as_str());
                name
            },
        };

        let mut args: Vec<Param> = Vec::new();
        assert(params_model(args@) =~= Seq::empty());
        let mut i: usize = 0;
        while i < op.parameters.len()
            invariant
                i <= op.parameters.len(),
                params_model(args@) == present_upto(parameter_slots(op.parameters@), i as int),
            decreases op.parameters.len() - i,
        {
            let ghost before = args@;
            if let RefOr::Item(parameter) = &op.parameters[i] {
                let typ = match &parameter.format {
                    ParameterFormat::Schema(s) => match self.resolve_schema_ref(s) {
                        Some(t) => t,
                        None => Type::reference(ANY),
                    },
                    ParameterFormat::Content => Type::reference(STRING),
                };
                let typ = if parameter.required {
                    typ
                } else {
                    optional(typ)
                };
                let arg = Param {
                    name: Some(parameter.name.clone()),
                    typ,
                    default: None,
                    annotations: Vec::new(),
                };
                assert(arg@.annotations =~= Seq::empty());
                args.push(arg);
                assert(params_model(args@) =~= params_model(before).push(arg@));
            }
            i += 1;
        }

        let ghost before = args@;
        if let Some(RefOr::Item(body)) = &op.request_body {
            if let Some(content) = find_media(&body.content, JSON) {
                if let Some(schema_ref) = &content.schema {
                    let typ = match self.resolve_schema_ref(schema_ref) {
                        Some(t) => t,
                        None => Type::reference(ANY),
                    };
                    let arg = Param {
                        name: Some(BODY.to_owned()),
                        typ,
                        default: None,
                        annotations: Vec::new(),
                    };
                    assert(arg@.annotations =~= Seq::empty());
                    args.push(arg);
                    assert(params_model(args@) =~= params_model(before).push(arg@));
                }
            }
        }
        assert(params_model(args@) =~= operation_args(*op));

        let chosen = match &op.responses.default {
            Some(r) => Some(r),
            None => find_response(&op.responses.responses, OK),
        };
        let schema_ref = match chosen {
            Some(RefOr::Item(response)) => match find_media(&response.content, JSON) {
                Some(content) => content.schema.as_ref(),
                None => None,
            },
            _ => None,
        };
        let success = match schema_ref {
            Some(s) => match self.resolve_schema_ref(s) {
                Some(t) => t,
                None => Type::reference(ANY),
            },
            None => Type::reference(UNIT),
        };
        assert(success@ == response_type(*op));
        let mut result_args: Vec<Type> = Vec::new();
        result_args.push(success);
        result_args.push(Type::reference(API_ERROR));
        assert(types_model(result_args@) =~= seq![response_type(*op), reference_type(API_ERROR@)]);
        let ret = Type::generic(RESULT, result_args);

        let mut annotations: Vec<Annotation> = Vec::new();
        annotations.push(Annotation::with_string(HTTP_METHOD, method.upper_name()));
        annotations.push(Annotation::with_string(HTTP_PATH, path));
        assert(annotations_model(annotations@) =~= seq![
            string_annotation(HTTP_METHOD@, method.upper_name_text()),
            string_annotation(HTTP_PATH@, path@),
        ]);

        let docs = match &op.description {
            Some(d) => Some(d.clone()),
            None => op.summary.clone(),
        };
        let f = Function {
            name,
            params: Vec::new(),
            args,
            ret,
            annotations,
            metadata: Metadata::with_docs(docs),
        };
        assert(f@.params =~= Seq::empty());
        f
    }

    /// Gathers the function for the operation that `path` offers under
    /// `method`, where it offers one.
    pub fn convert_method(&mut self, path: &str, method: Method, op: &Option<Operation>)
        ensures
            final(self).document() == old(self).document(),
            final(self).gathered() == old(self).gathered() + item_or_nothing(
                method_slot(path@, method, *op),
            ),
    {
        match op {
            Some(operation) => {
                let func = self.convert_operation(path, method, operation);
                let ghost before = self.items@;
                let item = Item::Function(func);
                self.items.push(item);
                assert(items_model(self.items@) =~= items_model(before).push(item@));
            },
            None => {},
        }
    }

    /// Gathers the functions for the operations of a path.
    pub fn convert_path_item(&mut self, path: &str, item: &PathItem)
        ensures
            final(self).document() == old(self).document(),
            final(self).gathered() == old(self).gathered() + path_functions(path@, *item),
    {
        let ghost slots = method_slots(path@, *item);
        let ghost start = self.gathered();
        let ghost g0 = self.gathered();
        self.convert_method(path, Method::Get, &item.get);
        let ghost g1 = self.gathered();
        self.convert_method(path, Method::Post, &item.post);
        let ghost g2 = self.gathered();
        self.convert_method(path, Method::Put, &item.put);
        let ghost g3 = self.gathered();
        self.convert_method(path, Method::Delete, &item.delete);
        let ghost g4 = self.gathered();
        self.convert_method(path, Method::Patch, &item.patch);
        let ghost g5 = self.gathered();
        self.convert_method(path, Method::Head, &item.head);
        let ghost g6 = self.gathered();
        self.convert_method(path, Method::Options, &item.options);
        let ghost g7 = self.gathered();
        self.convert_method(path, Method::Trace, &item.trace);
        let ghost g8 = self.gathered();
        proof {
            assert(g0 =~= start + present_upto(slots, 0));
            lemma_present_step(start, slots, 0, g0, g1);
            lemma_present_step(start, slots, 1, g1, g2);
            lemma_present_step(start, slots, 2, g2, g3);
            lemma_present_step(start, slots, 3, g3, g4);
            lemma_present_step(start, slots, 4, g4, g5);
            lemma_present_step(start, slots, 5, g5, g6);
            lemma_present_step(start, slots, 6, g6, g7);
            lemma_present_step(start, slots, 7, g7, g8);
        }
    }

    /// The module for the document: what was gathered before, then the
    /// declared types, then the functions.
    pub fn convert(self) -> (m: Module)
        ensures
            m@ == module_with(self.document(), self.gathered()),
    {
        let mut this = self;
        let ghost gathered = this.gathered();
        let mut i: usize = 0;
        while i < this.document.schemas.len()
            invariant
                i <= this.document.schemas.len(),
                this.document == self.document,
                items_model(this.items@) == gathered + present_upto(
                    schema_slots(this.document.schemas@),
                    i as int,
                ),
            decreases this.document.schemas.len() - i,
        {
            let entry = &this.document.schemas[i];
            if let RefOr::Item(schema) = &entry.schema {
                let typ = this.convert_schema(schema, Some(entry.name.clone()));
                let ghost before = this.items@;
                let item = Item::Type(typ);
                this.items.push(item);
                assert(items_model(this.items@) =~= items_model(before).push(item@));
            }
            i += 1;
        }
        let ghost types = present(schema_slots(this.document.schemas@));

        let mut j: usize = 0;
        while j < this.document.paths.len()
            invariant
                j <= this.document.paths.len(),
                this.document == self.document,
                items_model(this.items@) == gathered + types + concat_upto(
                    path_parts(this.document.paths@),
                    j as int,
                ),
            decreases this.document.paths.len() - j,
        {
            let entry = &this.document.paths[j];
            if let RefOr::Item(path_item) = &entry.item {
                this.convert_path_item(entry.path.as_str(), path_item);
            }
            assert(this.gathered() =~= gathered + types + concat_upto(
                path_parts(this.document.paths@),
                j + 1,
            ));
            j += 1;
        }

        let m = Module {
            name: to_module_name(this.document.title.as_str()),
            items: this.items,
            submodules: Vec::new(),
            annotations: Vec::new(),
            metadata: Metadata::with_docs(this.document.description.clone()),
        };
        assert(m@.submodules =~= Seq::empty());
        assert(m@.annotations =~= Seq::empty());
        m
    }
}

/// The variants of an enumeration: one for each literal, none for a null.
pub fn literal_variants(enumeration: &Vec<Option<String>>) -> (variants: Vec<Variant>)
    ensures
        variants_model(variants@) == enum_variants(enumeration@),
{
    let mut variants: Vec<Variant> = Vec::new();
    let ghost options = Seq::new(
        enumeration@.len(),
        |i: int|
            match enumeration@[i] {
                Some(literal) => Some(literal_variant(literal@)),
                None => None,
            },
    );
    let mut i: usize = 0;
    assert(variants_model(variants@) =~= Seq::empty());
    while i < enumeration.len()
        invariant
            i <= enumeration.len(),
            options.len() == enumeration@.len(),
            forall|j: int|
                0 <= j < options.len() ==> #[trigger] options[j] == match enumeration@[j] {
                    Some(literal) => Some(literal_variant(literal@)),
                    None => None,
                },
            variants_model(variants@) == present_upto(options, i as int),
        decreases enumeration.len() - i,
    {
        let ghost before = variants@;
        match &enumeration[i] {
            Some(literal) => {
                let mut annotations: Vec<Annotation> = Vec::new();
                annotations.push(Annotation::with_string(SERDE_RENAME, literal.as_str()));
                let variant = Variant {
                    name: to_pascal_case(literal.as_str()),
                    fields: Vec::new(),
                    annotations,
                };
                assert(variant@.fields =~= Seq::empty());
                assert(variant@.annotations =~= seq![
                    string_annotation(SERDE_RENAME@, literal@),
                ]);
                variants.push(variant);
                assert(variants_model(variants@) =~= variants_model(before).push(variant@));
            },
            None => {},
        }
        i += 1;
    }
    variants
}

/// Gathering what slot `k` contributes extends what the first `k` slots
/// contributed to what the first `k + 1` do.
proof fn lemma_present_step(
    start: Seq<ItemModel>,
    slots: Seq<Option<ItemModel>>,
    k: int,
    now: Seq<ItemModel>,
    next: Seq<ItemModel>,
)
    requires
        0 <= k < slots.len(),
        now == start + present_upto(slots, k),
        next == now + item_or_nothing(slots[k]),
    ensures
        next == start + present_upto(slots, k + 1),
{
    assert(next =~= start + present_upto(slots, k + 1));
}

/// `path` with underscores for slashes and without braces.
pub fn slug(path: &str) -> (r: String)
    ensures
        r@ == path_slug(path@),
{
    let mut out = String::new();
    for c in it: path.chars()
        invariant
            it.seq() == path@,
            out@ == concat_upto(slug_pieces(path@), it.index() as int),
    {
        if c == '/' {
            out.push('_');
        } else if c == '{' || c == '}' {
        } else {
            out.push(c);
        }
    }
    out
}

/// The optional form of `typ`.
pub fn optional(typ: Type) -> (t: Type)
    ensures
        t@ == optional_type(typ@),
{
    let mut args: Vec<Type> = Vec::new();
    args.push(typ);
    assert(types_model(args@) =~= seq![typ@]);
    Type::generic(OPTION, args)
}

/// Converts a schema document into one module: a declared type for each
/// schema definition, in order, then a function for each operation of each
/// path, in order.
pub fn parse(doc: &Document) -> (m: Module)
    ensures
        m@ == document_module(*doc),
{
    let converter = Converter::new(doc);
    converter.convert()
}

} // verus!
