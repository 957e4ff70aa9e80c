//! The generator of Rust declarations.
//!
//! A module becomes one text: an optional module comment, a fixed preamble
//! with the error type of the bindings, and one declaration for each item in
//! the order of the module. What each part of the representation becomes is
//! stated here as a function on its model.

use vstd::prelude::*;
use vstd::string::StringExecFns;

use crate::ir::model::{
    annotations_model, fields_model, items_model, params_model, type_params_model, types_model,
    values_model, variants_model, AnnotationModel, AnnotationValueModel, EntryModel, FieldModel,
    FunctionModel, ItemModel, KindModel, ModuleModel, ParamModel, TypeModel, TypeParamModel,
    ValueModel, VariantModel,
};
use crate::ir::names::{ANY, HTTP_METHOD, HTTP_PATH, NEVER, SERDE_RENAME, STRING, UNIT};
use crate::ir::{
    Annotation, AnnotationValue, Field, Function, Item, Module, Param, Type, TypeKind, TypeParam,
    Value, Variant,
};
use crate::naming::{
    is_reserved, lemma_snake_case_keeps_normalized_ascii, pascal_case, snake_case,
    to_pascal_case, to_snake_case,
};
use crate::unicode::{is_ascii_digit, is_ascii_small, tables_agree_with_ascii};
use crate::sequences::{concat, concat_upto};
use crate::text::{
    decimal, decimal_text, join, joined, lines, lines_of, quote, quoted, same_text, texts,
};

verus! {

/// The name that the target language has for a primitive of the
/// representation; any other name stays.
pub open spec fn primitive_name(name: Seq<char>) -> Seq<char> {
    if name == ANY@ {
        "serde_json::Value"@
    } else if name == UNIT@ {
        "()"@
    } else if name == NEVER@ {
        "!"@
    } else {
        name
    }
}

/// The text of a type where it is used.
pub open spec fn type_text(t: TypeModel) -> Seq<char>
    decreases t,
{
    match t.kind {
        KindModel::Ref { name } => if t.args.len() == 0 {
            primitive_name(name)
        } else {
            primitive_name(name) + "<"@ + joined(type_texts(t.args), ", "@) + ">"@
        },
        KindModel::Struct { .. } => match t.name {
            Some(name) => name,
            None => "AnonymousStruct"@,
        },
        KindModel::Enum { .. } => match t.name {
            Some(name) => name,
            None => STRING@,
        },
        KindModel::Function { params, ret } => "fn("@ + joined(param_type_texts(params), ", "@)
            + ") -> "@ + type_text(*ret),
        KindModel::Union { members } => if members.len() == 0 {
            "serde_json::Value"@
        } else {
            type_text(members[0])
        },
        KindModel::Intersection { members } => if members.len() == 0 {
            "serde_json::Value"@
        } else {
            type_text(members[0])
        },
    }
}

/// The texts of types, in order.
pub open spec fn type_texts(ts: Seq<TypeModel>) -> Seq<Seq<char>>
    decreases ts,
{
    Seq::new(
        ts.len(),
        |i: int|
            if 0 <= i < ts.len() {
                type_text(ts[i])
            } else {
                Seq::empty()
            },
    )
}

/// The texts of the types of parameters, in order.
pub open spec fn param_type_texts(ps: Seq<ParamModel>) -> Seq<Seq<char>>
    decreases ps,
{
    Seq::new(
        ps.len(),
        |i: int|
            if 0 <= i < ps.len() {
                type_text(ps[i].typ)
            } else {
                Seq::empty()
            },
    )
}

/// The line that gives a declaration its derived traits.
pub open spec fn derive_line() -> Seq<char> {
    "#[derive(Debug, Clone, PartialEq, Serialize, Deserialize)]\n"@
}

/// The names of type parameters, in order.
pub open spec fn param_names(params: Seq<TypeParamModel>) -> Seq<Seq<char>> {
    Seq::new(params.len(), |i: int| params[i].name)
}

/// The generic parameter list of a declaration; nothing where it has none.
pub open spec fn generics_text(params: Seq<TypeParamModel>) -> Seq<char> {
    if params.len() == 0 {
        Seq::empty()
    } else {
        "<"@ + joined(param_names(params), ", "@) + ">"@
    }
}

/// The name of a field or argument as it is written; an underscore where it
/// has none.
pub open spec fn written_name(name: Option<Seq<char>>) -> Seq<char> {
    match name {
        Some(n) => n,
        None => "_"@,
    }
}

/// Whether every field is positional.
pub open spec fn all_positional(fields: Seq<FieldModel>) -> bool {
    forall|i: int| 0 <= i < fields.len() ==> (#[trigger] fields[i]).name is None
}

/// The directive that keeps `given` as the name on the wire, indented by
/// four spaces.
pub open spec fn rename_line(given: Seq<char>) -> Seq<char> {
    "    #[serde(rename = \""@ + given + "\")]\n"@
}

/// The line of a positional field of a struct.
pub open spec fn tuple_field_line(f: FieldModel) -> Seq<char> {
    "    pub "@ + type_text(f.typ) + ",\n"@
}

/// The lines of a named field of a struct: the field under the snake-case
/// form of its name, behind a rename directive with the name as it was where
/// the two differ.
pub open spec fn named_field_lines(f: FieldModel) -> Seq<char> {
    let given = written_name(f.name);
    let name = snake_case(given);
    (if name != given {
        rename_line(given)
    } else {
        Seq::empty()
    }) + "    pub "@ + name + ": "@ + type_text(f.typ) + ",\n"@
}

pub open spec fn tuple_field_parts(fields: Seq<FieldModel>) -> Seq<Seq<char>> {
    Seq::new(fields.len(), |i: int| tuple_field_line(fields[i]))
}

pub open spec fn named_field_parts(fields: Seq<FieldModel>) -> Seq<Seq<char>> {
    Seq::new(fields.len(), |i: int| named_field_lines(fields[i]))
}

/// The declaration of a struct: a unit struct without fields, a tuple struct
/// where every field is positional, else a struct with named fields.
pub open spec fn struct_text(
    name: Seq<char>,
    params: Seq<TypeParamModel>,
    fields: Seq<FieldModel>,
) -> Seq<char> {
    let head = derive_line() + "pub struct "@ + name + generics_text(params);
    if fields.len() == 0 {
        head + ";\n"@ + "\n"@
    } else if all_positional(fields) {
        head + "(\n"@ + concat(tuple_field_parts(fields)) + ");\n"@ + "\n"@
    } else {
        head + " {\n"@ + concat(named_field_parts(fields)) + "}\n"@ + "\n"@
    }
}

/// The string value of the first of the first `n` annotations that is of
/// kind `kind` and has a string value.
pub open spec fn string_hint_upto(annotations: Seq<AnnotationModel>, kind: Seq<char>, n: int)
    -> Option<Seq<char>>
    decreases n,
{
    if n <= 0 {
        None
    } else {
        match string_hint_upto(annotations, kind, n - 1) {
            Some(s) => Some(s),
            None => if annotations[n - 1].kind == kind {
                match annotations[n - 1].value {
                    Some(AnnotationValueModel::String(s)) => Some(s),
                    _ => None,
                }
            } else {
                None
            },
        }
    }
}

/// The string value of the first annotation that is of kind `kind` and has a
/// string value.
pub open spec fn string_hint(annotations: Seq<AnnotationModel>, kind: Seq<char>) -> Option<
    Seq<char>,
> {
    string_hint_upto(annotations, kind, annotations.len() as int)
}

/// The first of the first `n` annotations that is of kind `kind`.
pub open spec fn annotation_upto(annotations: Seq<AnnotationModel>, kind: Seq<char>, n: int)
    -> Option<AnnotationModel>
    decreases n,
{
    if n <= 0 {
        None
    } else {
        match annotation_upto(annotations, kind, n - 1) {
            Some(a) => Some(a),
            None => if annotations[n - 1].kind == kind {
                Some(annotations[n - 1])
            } else {
                None
            },
        }
    }
}

/// The string value of the first annotation of kind `kind`; `None` where
/// there is no such annotation or its value is no string.
pub open spec fn first_string(annotations: Seq<AnnotationModel>, kind: Seq<char>) -> Option<
    Seq<char>,
> {
    match annotation_upto(annotations, kind, annotations.len() as int) {
        Some(a) => match a.value {
            Some(AnnotationValueModel::String(s)) => Some(s),
            _ => None,
        },
        None => None,
    }
}

/// The texts of the types of fields, in order.
pub open spec fn field_type_texts(fields: Seq<FieldModel>) -> Seq<Seq<char>> {
    Seq::new(fields.len(), |i: int| type_text(fields[i].typ))
}

/// The line of a named field of a variant.
pub open spec fn variant_field_line(f: FieldModel) -> Seq<char> {
    "        "@ + snake_case(written_name(f.name)) + ": "@ + type_text(f.typ) + ",\n"@
}

pub open spec fn variant_field_parts(fields: Seq<FieldModel>) -> Seq<Seq<char>> {
    Seq::new(fields.len(), |i: int| variant_field_line(fields[i]))
}

/// The rename directive of a variant: present where the variant keeps a
/// rename hint that differs from the name it is declared under.
pub open spec fn variant_rename(v: VariantModel) -> Seq<char> {
    match string_hint(v.annotations, SERDE_RENAME@) {
        Some(given) => if given != pascal_case(v.name) {
            rename_line(given)
        } else {
            Seq::empty()
        },
        None => Seq::empty(),
    }
}

/// A variant as its fields shape it, under the Pascal-case form of its
/// name: a unit variant without fields, a tuple variant where every field is
/// positional, else a struct variant.
pub open spec fn variant_shape(v: VariantModel) -> Seq<char> {
    let name = pascal_case(v.name);
    if v.fields.len() == 0 {
        "    "@ + name + ",\n"@
    } else if all_positional(v.fields) {
        "    "@ + name + "("@ + joined(field_type_texts(v.fields), ", "@) + "),\n"@
    } else {
        "    "@ + name + " {\n"@ + concat(variant_field_parts(v.fields)) + "    },\n"@
    }
}

/// The lines of a variant: its rename directive, where it has one, and the
/// variant as its fields shape it.
pub open spec fn variant_text(v: VariantModel) -> Seq<char> {
    variant_rename(v) + variant_shape(v)
}

pub open spec fn variant_parts(variants: Seq<VariantModel>) -> Seq<Seq<char>> {
    Seq::new(variants.len(), |i: int| variant_text(variants[i]))
}

/// The declaration of an enum.
pub open spec fn enum_text(
    name: Seq<char>,
    params: Seq<TypeParamModel>,
    variants: Seq<VariantModel>,
) -> Seq<char> {
    derive_line() + "pub enum "@ + name + generics_text(params) + " {\n"@ + concat(
        variant_parts(variants),
    ) + "}\n"@ + "\n"@
}

/// The documentation comment for `docs`: one line for each of its lines.
pub open spec fn doc_line(line: Seq<char>) -> Seq<char> {
    "/// "@ + line + "\n"@
}

pub open spec fn doc_parts(docs: Seq<char>) -> Seq<Seq<char>> {
    Seq::new(lines_of(docs).len(), |i: int| doc_line(lines_of(docs)[i]))
}

pub open spec fn doc_text(docs: Option<Seq<char>>) -> Seq<char> {
    match docs {
        Some(d) => concat(doc_parts(d)),
        None => Seq::empty(),
    }
}

/// The name of the arm for member `i` of a union: the member's own name,
/// else `Variant` and its position.
pub open spec fn arm_name(member: TypeModel, i: int) -> Seq<char> {
    match member.name {
        Some(n) => n,
        None => "Variant"@ + decimal(i as nat),
    }
}

/// The line of the arm for member `i` of a union.
pub open spec fn arm_line(member: TypeModel, i: int) -> Seq<char> {
    "    "@ + arm_name(member, i) + "("@ + type_text(member) + "),\n"@
}

pub open spec fn arm_parts(members: Seq<TypeModel>) -> Seq<Seq<char>> {
    Seq::new(members.len(), |i: int| arm_line(members[i], i))
}

/// The declaration of a union: an untagged enum with one arm for each
/// member.
pub open spec fn union_text(name: Seq<char>, members: Seq<TypeModel>) -> Seq<char> {
    derive_line() + "#[serde(untagged)]\n"@ + "pub enum "@ + name + " {\n"@ + concat(
        arm_parts(members),
    ) + "}\n"@ + "\n"@
}

/// The type arguments of an alias; nothing where it has none.
pub open spec fn alias_args_text(args: Seq<TypeModel>) -> Seq<char> {
    if args.len() == 0 {
        Seq::empty()
    } else {
        "<"@ + joined(type_texts(args), ", "@) + ">"@
    }
}

/// The declaration of an alias for the type called `target`, applied to
/// `args`. The target is written as it is named.
pub open spec fn alias_text(name: Seq<char>, target: Seq<char>, args: Seq<TypeModel>) -> Seq<char> {
    "pub type "@ + name + " = "@ + target + alias_args_text(args) + ";\n"@ + "\n"@
}

/// The declaration of an alias for a function type.
pub open spec fn function_alias_text(name: Seq<char>, params: Seq<ParamModel>, ret: TypeModel)
    -> Seq<char> {
    "pub type "@ + name + " = fn("@ + joined(param_type_texts(params), ", "@) + ") -> "@
        + type_text(ret) + ";\n"@ + "\n"@
}

/// The marker that stands for an intersection, which the target language
/// cannot declare.
pub open spec fn intersection_text(name: Seq<char>) -> Seq<char> {
    "// TODO: Intersection type "@ + name + "\n"@ + "\n"@
}

/// The declaration of a type: nothing for an anonymous type, else its
/// documentation and what its kind calls for.
pub open spec fn type_declaration(t: TypeModel) -> Seq<char> {
    match t.name {
        None => Seq::empty(),
        Some(name) => doc_text(t.metadata.docs) + match t.kind {
            KindModel::Struct { fields } => struct_text(name, t.params, fields),
            KindModel::Enum { variants } => enum_text(name, t.params, variants),
            KindModel::Union { members } => union_text(name, members),
            KindModel::Ref { name: target } => alias_text(name, target, t.args),
            KindModel::Function { params, ret } => function_alias_text(name, params, *ret),
            KindModel::Intersection { .. } => intersection_text(name),
        },
    }
}

/// The comment that tells the method and the path of an operation: present
/// where the first annotation of each of the two kinds has a string value.
pub open spec fn http_line(annotations: Seq<AnnotationModel>) -> Seq<char> {
    match (first_string(annotations, HTTP_METHOD@), first_string(annotations, HTTP_PATH@)) {
        (Some(method), Some(path)) => "/// HTTP: "@ + method + " "@ + path + "\n"@,
        _ => Seq::empty(),
    }
}

/// An argument of a function: its snake-case name and its type.
pub open spec fn arg_text(p: ParamModel) -> Seq<char> {
    snake_case(written_name(p.name)) + ": "@ + type_text(p.typ)
}

pub open spec fn arg_texts(args: Seq<ParamModel>) -> Seq<Seq<char>> {
    Seq::new(args.len(), |i: int| arg_text(args[i]))
}

/// The stub for a function: its documentation, the comment on method and
/// path, the signature under the snake-case form of its name, and a body
/// that says that it is yet to be written.
pub open spec fn function_text(f: FunctionModel) -> Seq<char> {
    doc_text(f.metadata.docs) + http_line(f.annotations) + stub_text(f)
}

/// The signature of a function with its placeholder body.
pub open spec fn stub_text(f: FunctionModel) -> Seq<char> {
    "pub async fn "@ + snake_case(f.name) + generics_text(f.params) + "("@ + joined(
        arg_texts(f.args),
        ", "@,
    ) + ") -> "@ + type_text(f.ret) + " {\n"@ + "    todo!()\n"@ + "}\n"@ + "\n"@
}

/// The text of a literal, as the representation names it.
pub open spec fn value_text(v: ValueModel) -> Seq<char>
    decreases v,
{
    match v {
        ValueModel::Null => "Null"@,
        ValueModel::Bool(b) => if b {
            "Bool(true)"@
        } else {
            "Bool(false)"@
        },
        ValueModel::Number(n) => "Number("@ + n + ")"@,
        ValueModel::String(s) => "String("@ + quoted(s) + ")"@,
        ValueModel::List(items) => "List(["@ + joined(value_texts(items), ", "@) + "])"@,
        ValueModel::Object(entries) => "Object({"@ + joined(entry_texts(entries), ", "@) + "})"@,
    }
}

pub open spec fn value_texts(vs: Seq<ValueModel>) -> Seq<Seq<char>>
    decreases vs,
{
    Seq::new(
        vs.len(),
        |i: int|
            if 0 <= i < vs.len() {
                value_text(vs[i])
            } else {
                Seq::empty()
            },
    )
}

pub open spec fn entry_texts(es: Seq<EntryModel>) -> Seq<Seq<char>>
    decreases es,
{
    Seq::new(
        es.len(),
        |i: int|
            if 0 <= i < es.len() {
                quoted(es[i].key) + ": "@ + value_text(es[i].value)
            } else {
                Seq::empty()
            },
    )
}

/// The declaration of a constant.
pub open spec fn const_text(name: Seq<char>, typ: TypeModel, value: ValueModel) -> Seq<char> {
    "pub const "@ + name + ": "@ + type_text(typ) + " = "@ + value_text(value) + ";\n"@ + "\n"@
}

/// The declaration of an item.
pub open spec fn item_text(item: ItemModel) -> Seq<char> {
    match item {
        ItemModel::Type(t) => type_declaration(t),
        ItemModel::Function(f) => function_text(f),
        ItemModel::Const { name, typ, value } => const_text(name, typ, value),
    }
}

pub open spec fn item_parts(items: Seq<ItemModel>) -> Seq<Seq<char>> {
    Seq::new(items.len(), |i: int| item_text(items[i]))
}

/// The comment at the head of the module; nothing where it has no
/// documentation.
pub open spec fn module_comment(docs: Option<Seq<char>>) -> Seq<char> {
    match docs {
        Some(d) => "//! "@ + d + "\n"@ + "\n"@,
        None => Seq::empty(),
    }
}

/// What every generated module starts with: the imports and the error type
/// of the bindings.
pub open spec fn preamble() -> Seq<char> {
    "use serde::{Deserialize, Serialize};\n"@ + "\n"@ + "/// API error type.\n"@ + derive_line()
        + "pub struct ApiError {\n"@ + "    pub message: String,\n"@
        + "    pub code: Option<String>,\n"@ + "}\n"@ + "\n"@
}

/// The text of a module.
pub open spec fn module_text(m: ModuleModel) -> Seq<char> {
    module_comment(m.metadata.docs) + preamble() + concat(item_parts(m.items))
}

/// A named field whose name the snake-case rule changes is declared behind
/// a rename directive that holds the name exactly as it was; a field whose
/// name stays is declared without one.
pub proof fn lemma_recased_field_keeps_its_name(f: FieldModel)
    requires
        f.name is Some,
    ensures
        snake_case(f.name->0) != f.name->0 ==> named_field_lines(f) == "    #[serde(rename = \""@
            + f.name->0 + "\")]\n"@ + "    pub "@ + snake_case(f.name->0) + ": "@ + type_text(
            f.typ,
        ) + ",\n"@,
        snake_case(f.name->0) == f.name->0 ==> named_field_lines(f) == "    pub "@ + f.name->0
            + ": "@ + type_text(f.typ) + ",\n"@,
{
    let given = f.name->0;
    if snake_case(given) != given {
        assert(named_field_lines(f) =~= "    #[serde(rename = \""@ + given + "\")]\n"@
            + "    pub "@ + snake_case(given) + ": "@ + type_text(f.typ) + ",\n"@);
    } else {
        assert(named_field_lines(f) =~= "    pub "@ + given + ": "@ + type_text(f.typ)
            + ",\n"@);
    }
}

/// A variant whose rename hint differs from the name it is declared under
/// stands behind a rename directive that holds the hint exactly, whatever
/// its fields; any other variant stands without one.
pub proof fn lemma_variant_keeps_its_hint(v: VariantModel)
    ensures
        match string_hint(v.annotations, SERDE_RENAME@) {
            Some(hint) => if hint != pascal_case(v.name) {
                variant_text(v) == "    #[serde(rename = \""@ + hint + "\")]\n"@ + variant_shape(v)
            } else {
                variant_text(v) == variant_shape(v)
            },
            None => variant_text(v) == variant_shape(v),
        },
{
    assert(Seq::<char>::empty() + variant_shape(v) =~= variant_shape(v));
}

/// An identifier that the snake-case rule has nothing to do on: small
/// letters and digits of ASCII and underscores, and no reserved word.
pub open spec fn is_normalized(name: Seq<char>) -> bool {
    &&& forall|i: int|
        0 <= i < name.len() ==> is_ascii_small(#[trigger] name[i]) || is_ascii_digit(name[i])
            || name[i] == '_'
    &&& !is_reserved(name)
}

/// Where the tables say of ASCII what ASCII says, a field whose name is
/// normalized is declared under that name and without a rename directive.
pub proof fn lemma_normalized_field_is_declared_as_named(f: FieldModel)
    requires
        tables_agree_with_ascii(),
        f.name is Some,
        is_normalized(f.name->0),
    ensures
        named_field_lines(f) == "    pub "@ + f.name->0 + ": "@ + type_text(f.typ) + ",\n"@,
{
    lemma_snake_case_keeps_normalized_ascii(f.name->0);
    lemma_recased_field_keeps_its_name(f);
}

/// Where the tables say of ASCII what ASCII says, a function whose name and
/// argument names are normalized is declared under that name, with each
/// argument under its own.
pub proof fn lemma_normalized_function_is_declared_as_named(f: FunctionModel)
    requires
        tables_agree_with_ascii(),
        is_normalized(f.name),
        forall|i: int|
            0 <= i < f.args.len() ==> (#[trigger] f.args[i]).name is Some && is_normalized(
                f.args[i].name->0,
            ),
    ensures
        stub_text(f) == "pub async fn "@ + f.name + generics_text(f.params) + "("@ + joined(
            arg_texts(f.args),
            ", "@,
        ) + ") -> "@ + type_text(f.ret) + " {\n"@ + "    todo!()\n"@ + "}\n"@ + "\n"@,
        arg_texts(f.args).len() == f.args.len(),
        forall|i: int|
            0 <= i < f.args.len() ==> #[trigger] arg_texts(f.args)[i] == f.args[i].name->0 + ": "@
                + type_text(f.args[i].typ),
{
    lemma_snake_case_keeps_normalized_ascii(f.name);
    assert forall|i: int| 0 <= i < f.args.len() implies #[trigger] arg_texts(f.args)[i]
        == f.args[i].name->0 + ": "@ + type_text(f.args[i].typ) by {
        assert(f.args[i].name is Some);
        lemma_snake_case_keeps_normalized_ascii(f.args[i].name->0);
    }
}

/// The lines of the fields of a struct that has a named field stand in its
/// declaration in the order of the fields, each as the rule for a named
/// field writes it.
pub proof fn lemma_struct_declares_each_field(
    name: Seq<char>,
    params: Seq<TypeParamModel>,
    fields: Seq<FieldModel>,
)
    requires
        fields.len() > 0,
        !all_positional(fields),
    ensures
        struct_text(name, params, fields) == derive_line() + "pub struct "@ + name + generics_text(
            params,
        ) + " {\n"@ + concat(named_field_parts(fields)) + "}\n"@ + "\n"@,
        named_field_parts(fields).len() == fields.len(),
        forall|i: int|
            0 <= i < fields.len() ==> #[trigger] named_field_parts(fields)[i] == named_field_lines(
                fields[i],
            ),
{
}

/// The text of a type where it is used.
pub fn type_to_rust(typ: &Type) -> (r: String)
    ensures
        r@ == type_text(typ@),
    decreases typ,
{
    match &typ.kind {
        TypeKind::Ref { name } => {
            let base: &str = if same_text(name.as_str(), ANY) {
                "serde_json::Value"
            } else if same_text(name.as_str(), UNIT) {
                "()"
            } else if same_text(name.as_str(), NEVER) {
                "!"
            } else {
                name.as_str()
            };
            if typ.args.len() == 0 {
                base.to_owned()
            } else {
                let args = types_to_rust(&typ.args);
                let mut r = base.to_owned();
                r.append("<");
                r.append(join(&args, ", ").as_str());
                r.append(">");
                assert(r@ =~= type_text(typ@));
                r
            }
        },
        TypeKind::Struct { .. } => match &typ.name {
            Some(name) => name.clone(),
            None => "AnonymousStruct".to_owned(),
        },
        TypeKind::Enum { .. } => match &typ.name {
            Some(name) => name.clone(),
            None => STRING.to_owned(),
        },
        TypeKind::Function { params, ret } => {
            let params_str = param_types_to_rust(params);
            let ret_str = type_to_rust(ret);
            let mut r = "fn(".to_owned();
            r.append(join(&params_str, ", ").as_str());
            r.append(") -> ");
            r.append(ret_str.as_str());
            assert(r@ =~= type_text(typ@));
            r
        },
        TypeKind::Union { members } => {
            assert(types_model(members@).len() == members@.len());
            if members.len() == 0 {
                "serde_json::Value".to_owned()
            } else {
                type_to_rust(&members[0])
            }
        },
        TypeKind::Intersection { members } => {
            assert(types_model(members@).len() == members@.len());
            if members.len() == 0 {
                "serde_json::Value".to_owned()
            } else {
                type_to_rust(&members[0])
            }
        },
    }
}

/// The texts of types, in order.
pub fn types_to_rust(types: &Vec<Type>) -> (r: Vec<String>)
    ensures
        texts(r@) == type_texts(types_model(types@)),
    decreases types,
{
    let mut out: Vec<String> = Vec::new();
    let mut i: usize = 0;
    while i < types.len()
        invariant
            i <= types.len(),
            out@.len() == i,
            forall|j: int| 0 <= j < i ==> (#[trigger] out@[j])@ == type_text(types@[j]@),
        decreases types.len() - i,
    {
        out.push(type_to_rust(&types[i]));
        i += 1;
    }
    assert(texts(out@) =~= type_texts(types_model(types@)));
    out
}

/// The texts of the types of parameters, in order.
pub fn param_types_to_rust(params: &Vec<Param>) -> (r: Vec<String>)
    ensures
        texts(r@) == param_type_texts(params_model(params@)),
    decreases params,
{
    let mut out: Vec<String> = Vec::new();
    let mut i: usize = 0;
    while i < params.len()
        invariant
            i <= params.len(),
            out@.len() == i,
            forall|j: int| 0 <= j < i ==> (#[trigger] out@[j])@ == type_text(params@[j]@.typ),
        decreases params.len() - i,
    {
        out.push(type_to_rust(&params[i].typ));
        i += 1;
    }
    assert(texts(out@) =~= param_type_texts(params_model(params@)));
    out
}

/// The generic parameter list of a declaration; nothing where it has none.
pub fn generics(params: &Vec<TypeParam>) -> (r: String)
    ensures
        r@ == generics_text(type_params_model(params@)),
{
    if params.len() == 0 {
        String::new()
    } else {
        let mut names: Vec<String> = Vec::new();
        let mut i: usize = 0;
        while i < params.len()
            invariant
                i <= params.len(),
                names@.len() == i,
                forall|j: int| 0 <= j < i ==> (#[trigger] names@[j])@ == params@[j].name@,
            decreases params.len() - i,
        {
            names.push(params[i].name.clone());
            i += 1;
        }
        assert(texts(names@) =~= param_names(type_params_model(params@)));
        let mut r = "<".to_owned();
        r.append(join(&names, ", ").as_str());
        r.append(">");
        r
    }
}

/// Whether every field is positional.
pub fn all_unnamed(fields: &Vec<Field>) -> (r: bool)
    ensures
        r == all_positional(fields_model(fields@)),
{
    let mut i: usize = 0;
    while i < fields.len()
        invariant
            i <= fields.len(),
            forall|j: int| 0 <= j < i ==> (#[trigger] fields_model(fields@)[j]).name is None,
        decreases fields.len() - i,
    {
        if fields[i].name.is_some() {
            assert(fields_model(fields@)[i as int].name is Some);
            return false;
        }
        assert(fields_model(fields@)[i as int].name is None);
        i += 1;
    }
    true
}

/// The name of a field or argument as it is written; an underscore where it
/// has none.
pub fn name_or_underscore(name: &Option<String>) -> (r: &str)
    ensures
        r@ == written_name(crate::ir::model::text_of(*name)),
{
    match name {
        Some(n) => n.as_str(),
        None => "_",
    }
}

/// Writes the line of a positional field of a struct.
pub fn generate_tuple_field(out: &mut String, field: &Field)
    ensures
        final(out)@ == old(out)@ + tuple_field_line(field@),
{
    let typ_str = type_to_rust(&field.typ);
    out.append("    pub ");
    out.append(typ_str.as_str());
    out.append(",\n");
    assert(out@ =~= old(out)@ + tuple_field_line(field@));
}

/// Writes the lines of a named field of a struct.
pub fn generate_named_field(out: &mut String, field: &Field)
    ensures
        final(out)@ == old(out)@ + named_field_lines(field@),
{
    let given = name_or_underscore(&field.name);
    let field_name = to_snake_case(given);
    let typ_str = type_to_rust(&field.typ);
    if !same_text(field_name.as_str(), given) {
        out.append("    #[serde(rename = \"");
        out.append(given);
        out.append("\")]\n");
    }
    out.append("    pub ");
    out.append(field_name.as_str());
    out.append(": ");
    out.append(typ_str.as_str());
    out.append(",\n");
    assert(out@ =~= old(out)@ + named_field_lines(field@));
}

/// Writes the declaration of a struct.
pub fn generate_struct(out: &mut String, name: &str, params: &Vec<TypeParam>, fields: &Vec<Field>)
    ensures
        final(out)@ == old(out)@ + struct_text(
            name@,
            type_params_model(params@),
            fields_model(fields@),
        ),
{
    let ghost fs = fields_model(fields@);
    out.append("#[derive(Debug, Clone, PartialEq, Serialize, Deserialize)]\n");
    let generics = generics(params);
    out.append("pub struct ");
    out.append(name);
    out.append(generics.as_str());
    let ghost head = old(out)@ + derive_line() + "pub struct "@ + name@ + generics@;
    assert(out@ =~= head);
    if fields.len() == 0 {
        out.append(";\n");
    } else if all_unnamed(fields) {
        out.append("(\n");
        let ghost start = out@;
        let mut i: usize = 0;
        assert(out@ =~= start + concat_upto(tuple_field_parts(fs), 0));
        while i < fields.len()
            invariant
                i <= fields.len(),
                fs == fields_model(fields@),
                out@ == start + concat_upto(tuple_field_parts(fs), i as int),
            decreases fields.len() - i,
        {
            generate_tuple_field(out, &fields[i]);
            assert(out@ =~= start + concat_upto(tuple_field_parts(fs), i + 1));
            i += 1;
        }
        out.append(");\n");
    } else {
        out.append(" {\n");
        let ghost start = out@;
        let mut i: usize = 0;
        assert(out@ =~= start + concat_upto(named_field_parts(fs), 0));
        while i < fields.len()
            invariant
                i <= fields.len(),
                fs == fields_model(fields@),
                out@ == start + concat_upto(named_field_parts(fs), i as int),
            decreases fields.len() - i,
        {
            generate_named_field(out, &fields[i]);
            assert(out@ =~= start + concat_upto(named_field_parts(fs), i + 1));
            i += 1;
        }
        out.append("}\n");
    }
    out.append("\n");
    assert(out@ =~= old(out)@ + struct_text(name@, type_params_model(params@), fs));
}

/// Once a hint is found among the first `n` annotations, it is the one
/// found among any more.
proof fn lemma_string_hint_stays(annotations: Seq<AnnotationModel>, kind: Seq<char>, n: int, m: int)
    requires
        0 <= n <= m,
        string_hint_upto(annotations, kind, n) is Some,
    ensures
        string_hint_upto(annotations, kind, m) == string_hint_upto(annotations, kind, n),
    decreases m,
{
    if m > n {
        lemma_string_hint_stays(annotations, kind, n, m - 1);
    }
}

proof fn lemma_annotation_stays(annotations: Seq<AnnotationModel>, kind: Seq<char>, n: int, m: int)
    requires
        0 <= n <= m,
        annotation_upto(annotations, kind, n) is Some,
    ensures
        annotation_upto(annotations, kind, m) == annotation_upto(annotations, kind, n),
    decreases m,
{
    if m > n {
        lemma_annotation_stays(annotations, kind, n, m - 1);
    }
}

/// The string value of the first annotation that is of kind `kind` and has a
/// string value.
pub fn find_string_hint<'a>(annotations: &'a Vec<Annotation>, kind: &str) -> (r: Option<&'a str>)
    ensures
        match r {
            Some(s) => string_hint(annotations_model(annotations@), kind@) == Some(s@),
            None => string_hint(annotations_model(annotations@), kind@) is None,
        },
{
    let ghost model = annotations_model(annotations@);
    let mut i: usize = 0;
    while i < annotations.len()
        invariant
            i <= annotations.len(),
            model == annotations_model(annotations@),
            string_hint_upto(model, kind@, i as int) is None,
        decreases annotations.len() - i,
    {
        assert(model[i as int] == annotations@[i as int]@);
        if same_text(annotations[i].kind.as_str(), kind) {
            if let Some(AnnotationValue::String(s)) = &annotations[i].value {
                proof {
                    lemma_string_hint_stays(model, kind@, i + 1, model.len() as int);
                }
                return Some(s.as_str());
            }
        }
        i += 1;
    }
    None
}

/// The string value of the first annotation of kind `kind`; `None` where
/// there is no such annotation or its value is no string.
pub fn find_first_string<'a>(annotations: &'a Vec<Annotation>, kind: &str) -> (r: Option<&'a str>)
    ensures
        match r {
            Some(s) => first_string(annotations_model(annotations@), kind@) == Some(s@),
            None => first_string(annotations_model(annotations@), kind@) is None,
        },
{
    let ghost model = annotations_model(annotations@);
    let mut i: usize = 0;
    while i < annotations.len()
        invariant
            i <= annotations.len(),
            model == annotations_model(annotations@),
            annotation_upto(model, kind@, i as int) is None,
        decreases annotations.len() - i,
    {
        assert(model[i as int] == annotations@[i as int]@);
        if same_text(annotations[i].kind.as_str(), kind) {
            proof {
                lemma_annotation_stays(model, kind@, i + 1, model.len() as int);
            }
            return match &annotations[i].value {
                Some(AnnotationValue::String(s)) => Some(s.as_str()),
                _ => None,
            };
        }
        i += 1;
    }
    None
}

/// Writes the line of a named field of a variant.
pub fn generate_variant_field(out: &mut String, field: &Field)
    ensures
        final(out)@ == old(out)@ + variant_field_line(field@),
{
    let field_name = to_snake_case(name_or_underscore(&field.name));
    let typ_str = type_to_rust(&field.typ);
    out.append("        ");
    out.append(field_name.as_str());
    out.append(": ");
    out.append(typ_str.as_str());
    out.append(",\n");
    assert(out@ =~= old(out)@ + variant_field_line(field@));
}

/// Writes the rename directive of a variant, where it has one.
pub fn generate_variant_rename(out: &mut String, variant: &Variant)
    ensures
        final(out)@ == old(out)@ + variant_rename(variant@),
{
    let variant_name = to_pascal_case(variant.name.as_str());
    if let Some(given) = find_string_hint(&variant.annotations, SERDE_RENAME) {
        if !same_text(given, variant_name.as_str()) {
            out.append("    #[serde(rename = \"");
            out.append(given);
            out.append("\")]\n");
        }
    }
    assert(out@ =~= old(out)@ + variant_rename(variant@));
}

/// Writes a variant as its fields shape it.
pub fn generate_variant_shape(out: &mut String, variant: &Variant)
    ensures
        final(out)@ == old(out)@ + variant_shape(variant@),
{
    let ghost fs = fields_model(variant.fields@);
    let variant_name = to_pascal_case(variant.name.as_str());
    if variant.fields.len() == 0 {
        out.append("    ");
        out.append(variant_name.as_str());
        out.append(",\n");
        assert(out@ =~= old(out)@ + variant_shape(variant@));
    } else if all_unnamed(&variant.fields) {
        let mut types: Vec<String> = Vec::new();
        let mut i: usize = 0;
        while i < variant.fields.len()
            invariant
                i <= variant.fields.len(),
                types@.len() == i,
                forall|j: int|
                    0 <= j < i ==> (#[trigger] types@[j])@ == type_text(variant.fields@[j]@.typ),
            decreases variant.fields.len() - i,
        {
            types.push(type_to_rust(&variant.fields[i].typ));
            i += 1;
        }
        assert(texts(types@) =~= field_type_texts(fs));
        out.append("    ");
        out.append(variant_name.as_str());
        out.append("(");
        out.append(join(&types, ", ").as_str());
        out.append("),\n");
        assert(out@ =~= old(out)@ + variant_shape(variant@));
    } else {
        out.append("    ");
        out.append(variant_name.as_str());
        out.append(" {\n");
        let ghost start = out@;
        let mut i: usize = 0;
        assert(out@ =~= start + concat_upto(variant_field_parts(fs), 0));
        while i < variant.fields.len()
            invariant
                i <= variant.fields.len(),
                fs == fields_model(variant.fields@),
                out@ == start + concat_upto(variant_field_parts(fs), i as int),
            decreases variant.fields.len() - i,
        {
            generate_variant_field(out, &variant.fields[i]);
            assert(out@ =~= start + concat_upto(variant_field_parts(fs), i + 1));
            i += 1;
        }
        out.append("    },\n");
        assert(out@ =~= old(out)@ + variant_shape(variant@));
    }
}

/// Writes one variant of an enum.
pub fn generate_variant(out: &mut String, variant: &Variant)
    ensures
        final(out)@ == old(out)@ + variant_text(variant@),
{
    generate_variant_rename(out, variant);
    generate_variant_shape(out, variant);
    assert(out@ =~= old(out)@ + variant_text(variant@));
}

/// Writes the declaration of an enum.
pub fn generate_enum(out: &mut String, name: &str, params: &Vec<TypeParam>, variants: &Vec<Variant>)
    ensures
        final(out)@ == old(out)@ + enum_text(
            name@,
            type_params_model(params@),
            variants_model(variants@),
        ),
{
    let ghost vs = variants_model(variants@);
    out.append("#[derive(Debug, Clone, PartialEq, Serialize, Deserialize)]\n");
    let generics = generics(params);
    out.append("pub enum ");
    out.append(name);
    out.append(generics.as_str());
    out.append(" {\n");
    let ghost start = out@;
    let mut i: usize = 0;
    assert(out@ =~= start + concat_upto(variant_parts(vs), 0));
    while i < variants.len()
        invariant
            i <= variants.len(),
            vs == variants_model(variants@),
            out@ == start + concat_upto(variant_parts(vs), i as int),
        decreases variants.len() - i,
    {
        generate_variant(out, &variants[i]);
        assert(out@ =~= start + concat_upto(variant_parts(vs), i + 1));
        i += 1;
    }
    out.append("}\n");
    out.append("\n");
    assert(out@ =~= old(out)@ + enum_text(name@, type_params_model(params@), vs));
}

/// Writes the documentation comment for `docs`.
pub fn generate_docs(out: &mut String, docs: &Option<String>)
    ensures
        final(out)@ == old(out)@ + doc_text(crate::ir::model::text_of(*docs)),
{
    match docs {
        Some(d) => {
            let all = lines(d.as_str());
            let ghost parts = doc_parts(d@);
            let mut i: usize = 0;
            assert(out@ =~= old(out)@ + concat_upto(parts, 0));
            while i < all.len()
                invariant
                    i <= all.len(),
                    texts(all@) == lines_of(d@),
                    parts == doc_parts(d@),
                    out@ == old(out)@ + concat_upto(parts, i as int),
                decreases all.len() - i,
            {
                let ghost before = out@;
                assert(texts(all@)[i as int] == all@[i as int]@);
                out.append("/// ");
                out.append(all[i].as_str());
                out.append("\n");
                assert(out@ =~= before + doc_line(lines_of(d@)[i as int]));
                assert(out@ =~= old(out)@ + concat_upto(parts, i + 1));
                i += 1;
            }
            assert(texts(all@).len() == all@.len());
        },
        None => {
            assert(out@ =~= old(out)@ + Seq::<char>::empty());
        },
    }
}

/// Writes the comment that tells the method and the path of an operation.
pub fn generate_http_comment(out: &mut String, annotations: &Vec<Annotation>)
    ensures
        final(out)@ == old(out)@ + http_line(annotations_model(annotations@)),
{
    let method = find_first_string(annotations, HTTP_METHOD);
    let path = find_first_string(annotations, HTTP_PATH);
    if let (Some(method), Some(path)) = (method, path) {
        out.append("/// HTTP: ");
        out.append(method);
        out.append(" ");
        out.append(path);
        out.append("\n");
    }
    assert(out@ =~= old(out)@ + http_line(annotations_model(annotations@)));
}

/// The arguments of a function, separated by commas.
pub fn args_to_rust(args: &Vec<Param>) -> (r: String)
    ensures
        r@ == joined(arg_texts(params_model(args@)), ", "@),
{
    let mut parts: Vec<String> = Vec::new();
    let mut i: usize = 0;
    while i < args.len()
        invariant
            i <= args.len(),
            parts@.len() == i,
            forall|j: int| 0 <= j < i ==> (#[trigger] parts@[j])@ == arg_text(args@[j]@),
        decreases args.len() - i,
    {
        let arg = &args[i];
        let mut part = to_snake_case(name_or_underscore(&arg.name));
        part.append(": ");
        part.append(type_to_rust(&arg.typ).as_str());
        parts.push(part);
        i += 1;
    }
    assert(texts(parts@) =~= arg_texts(params_model(args@)));
    join(&parts, ", ")
}

/// Writes the signature of a function with its placeholder body.
pub fn generate_stub(out: &mut String, func: &Function)
    ensures
        final(out)@ == old(out)@ + stub_text(func@),
{
    let func_name = to_snake_case(func.name.as_str());
    let generics = generics(&func.params);
    let args = args_to_rust(&func.args);
    let ret = type_to_rust(&func.ret);
    out.append("pub async fn ");
    out.append(func_name.as_str());
    out.append(generics.as_str());
    out.append("(");
    out.append(args.as_str());
    out.append(") -> ");
    out.append(ret.as_str());
    out.append(" {\n");
    out.append("    todo!()\n");
    out.append("}\n");
    out.append("\n");
    assert(out@ =~= old(out)@ + stub_text(func@));
}

/// Writes the stub for a function.
pub fn generate_function(out: &mut String, func: &Function)
    ensures
        final(out)@ == old(out)@ + function_text(func@),
{
    generate_docs(out, &func.metadata.docs);
    generate_http_comment(out, &func.annotations);
    generate_stub(out, func);
    assert(out@ =~= old(out)@ + function_text(func@));
}

/// Writes the declaration of a union.
pub fn generate_union(out: &mut String, name: &str, members: &Vec<Type>)
    ensures
        final(out)@ == old(out)@ + union_text(name@, types_model(members@)),
{
    let ghost ms = types_model(members@);
    out.append("#[derive(Debug, Clone, PartialEq, Serialize, Deserialize)]\n");
    out.append("#[serde(untagged)]\n");
    out.append("pub enum ");
    out.append(name);
    out.append(" {\n");
    let ghost start = out@;
    let mut i: usize = 0;
    assert(out@ =~= start + concat_upto(arm_parts(ms), 0));
    while i < members.len()
        invariant
            i <= members.len(),
            ms == types_model(members@),
            out@ == start + concat_upto(arm_parts(ms), i as int),
        decreases members.len() - i,
    {
        let ghost before = out@;
        let member = &members[i];
        let variant_name = match &member.name {
            Some(n) => n.clone(),
            None => {
                let mut n = "Variant".to_owned();
                n.append(decimal_text(i).as_str());
                n
            },
        };
        let typ_str = type_to_rust(member);
        out.append("    ");
        out.append(variant_name.as_str());
        out.append("(");
        out.append(typ_str.as_str());
        out.append("),\n");
        assert(out@ =~= before + arm_line(ms[i as int], i as int));
        assert(out@ =~= start + concat_upto(arm_parts(ms), i + 1));
        i += 1;
    }
    out.append("}\n");
    out.append("\n");
    assert(out@ =~= old(out)@ + union_text(name@, ms));
}

/// Writes the declaration of an alias for the type called `target`, applied
/// to `args`.
pub fn generate_alias(out: &mut String, name: &str, target: &str, args: &Vec<Type>)
    ensures
        final(out)@ == old(out)@ + alias_text(name@, target@, types_model(args@)),
{
    let args_str = if args.len() == 0 {
        String::new()
    } else {
        let texts = types_to_rust(args);
        let mut r = "<".to_owned();
        r.append(join(&texts, ", ").as_str());
        r.append(">");
        r
    };
    assert(args_str@ =~= alias_args_text(types_model(args@)));
    out.append("pub type ");
    out.append(name);
    out.append(" = ");
    out.append(target);
    out.append(args_str.as_str());
    out.append(";\n");
    out.append("\n");
    assert(out@ =~= old(out)@ + alias_text(name@, target@, types_model(args@)));
}

/// Writes the declaration of an alias for a function type.
pub fn generate_function_alias(out: &mut String, name: &str, params: &Vec<Param>, ret: &Type)
    ensures
        final(out)@ == old(out)@ + function_alias_text(name@, params_model(params@), ret@),
{
    let params_str = param_types_to_rust(params);
    let ret_str = type_to_rust(ret);
    out.append("pub type ");
    out.append(name);
    out.append(" = fn(");
    out.append(join(&params_str, ", ").as_str());
    out.append(") -> ");
    out.append(ret_str.as_str());
    out.append(";\n");
    out.append("\n");
    assert(out@ =~= old(out)@ + function_alias_text(name@, params_model(params@), ret@));
}

/// Writes the declaration of a type; nothing for an anonymous type.
pub fn generate_type(out: &mut String, typ: &Type)
    ensures
        final(out)@ == old(out)@ + type_declaration(typ@),
{
    let name = match &typ.name {
        Some(name) => name.as_str(),
        None => {
            assert(out@ =~= old(out)@ + type_declaration(typ@));
            return ;
        },
    };
    generate_docs(out, &typ.metadata.docs);
    let ghost documented = out@;
    match &typ.kind {
        TypeKind::Struct { fields } => {
            generate_struct(out, name, &typ.params, fields);
        },
        TypeKind::Enum { variants } => {
            generate_enum(out, name, &typ.params, variants);
        },
        TypeKind::Union { members } => {
            generate_union(out, name, members);
        },
        TypeKind::Ref { name: target } => {
            generate_alias(out, name, target.as_str(), &typ.args);
        },
        TypeKind::Function { params, ret } => {
            generate_function_alias(out, name, params, ret);
        },
        TypeKind::Intersection { .. } => {
            out.append("// TODO: Intersection type ");
            out.append(name);
            out.append("\n");
            out.append("\n");
            assert(out@ =~= documented + intersection_text(name@));
        },
    }
    assert(out@ =~= old(out)@ + type_declaration(typ@));
}

/// The text of a literal, as the representation names it.
pub fn value_to_text(value: &Value) -> (r: String)
    ensures
        r@ == value_text(value@),
    decreases value@,
{
    match value {
        Value::Null => "Null".to_owned(),
        Value::Bool(b) => if *b {
            "Bool(true)".to_owned()
        } else {
            "Bool(false)".to_owned()
        },
        Value::Number(n) => {
            let mut r = "Number(".to_owned();
            r.append(n.as_str());
            r.append(")");
            r
        },
        Value::String(s) => {
            let mut r = "String(".to_owned();
            r.append(quote(s.as_str()).as_str());
            r.append(")");
            r
        },
        Value::List(items) => {
            let mut parts: Vec<String> = Vec::new();
            let mut i: usize = 0;
            while i < items.len()
                invariant
                    i <= items.len(),
                    value@ == ValueModel::List(values_model(items@)),
                    parts@.len() == i,
                    forall|j: int| 0 <= j < i ==> (#[trigger] parts@[j])@ == value_text(items@[j]@),
                decreases items.len() - i,
            {
                assert(value@->List_0[i as int] == items@[i as int]@);
                parts.push(value_to_text(&items[i]));
                i += 1;
            }
            assert(texts(parts@) =~= value_texts(values_model(items@)));
            let mut r = "List([".to_owned();
            r.append(join(&parts, ", ").as_str());
            r.append("])");
            r
        },
        Value::Object(map) => {
            let mut parts: Vec<String> = Vec::new();
            let n = map.len();
            let mut i: usize = 0;
            while i < n
                invariant
                    i <= n,
                    n == map@.len(),
                    value@ == ValueModel::Object(map@),
                    parts@.len() == i,
                    forall|j: int|
                        0 <= j < i ==> (#[trigger] parts@[j])@ == quoted(map@[j].key) + ": "@
                            + value_text(map@[j].value),
                decreases n - i,
            {
                match map.get_index(i) {
                    Some((key, item)) => {
                        assert(value@->Object_0[i as int].value == item@);
                        let mut part = quote(key.as_str());
                        part.append(": ");
                        part.append(value_to_text(item).as_str());
                        parts.push(part);
                    },
                    None => {
                        parts.push(String::new());
                    },
                }
                i += 1;
            }
            assert(texts(parts@) =~= entry_texts(map@));
            let mut r = "Object({".to_owned();
            r.append(join(&parts, ", ").as_str());
            r.append("})");
            r
        },
    }
}

/// Writes the declaration of a constant.
pub fn generate_const(out: &mut String, name: &str, typ: &Type, value: &Value)
    ensures
        final(out)@ == old(out)@ + const_text(name@, typ@, value@),
{
    let typ_str = type_to_rust(typ);
    let val_str = value_to_text(value);
    out.append("pub const ");
    out.append(name);
    out.append(": ");
    out.append(typ_str.as_str());
    out.append(" = ");
    out.append(val_str.as_str());
    out.append(";\n");
    out.append("\n");
    assert(out@ =~= old(out)@ + const_text(name@, typ@, value@));
}

/// Writes what every generated module starts with.
pub fn generate_preamble(out: &mut String)
    ensures
        final(out)@ == old(out)@ + preamble(),
{
    out.append("use serde::{Deserialize, Serialize};\n");
    out.append("\n");
    out.append("/// API error type.\n");
    out.append("#[derive(Debug, Clone, PartialEq, Serialize, Deserialize)]\n");
    out.append("pub struct ApiError {\n");
    out.append("    pub message: String,\n");
    out.append("    pub code: Option<String>,\n");
    out.append("}\n");
    out.append("\n");
    assert(out@ =~= old(out)@ + preamble());
}

/// The text of a module: its comment, the preamble, and the declaration of
/// each item in order.
pub fn generate(module: &Module) -> (code: String)
    ensures
        code@ == module_text(module@),
{
    let mut code = String::new();
    if let Some(docs) = &module.metadata.docs {
        code.append("//! ");
        code.append(docs.as_str());
        code.append("\n");
        code.append("\n");
    }
    assert(code@ =~= module_comment(module@.metadata.docs));
    generate_preamble(&mut code);

    let ghost start = code@;
    let ghost parts = item_parts(module@.items);
    let mut i: usize = 0;
    assert(code@ =~= start + concat_upto(parts, 0));
    while i < module.items.len()
        invariant
            i <= module.items.len(),
            parts == item_parts(items_model(module.items@)),
            code@ == start + concat_upto(parts, i as int),
        decreases module.items.len() - i,
    {
        let ghost before = code@;
        match &module.items[i] {
            Item::Type(typ) => generate_type(&mut code, typ),
            Item::Function(func) => generate_function(&mut code, func),
            Item::Const { name, typ, value } => generate_const(
                &mut code,
                name.as_str(),
                typ,
                value,
            ),
        }
        assert(code@ =~= before + item_text(module.items@[i as int]@));
        assert(code@ =~= start + concat_upto(parts, i + 1));
        i += 1;
    }
    code
}

} // verus!
