//! Ghost models of the representation: what each value means in contracts.
//!
//! A model holds a `Seq<char>` where the value holds a `String` and a `Seq`
//! where it holds a `Vec`; boxes disappear.

use vstd::prelude::*;

use super::map::{entries, ValueMap};
use super::names::OPTION;
use super::{
    Annotation, AnnotationValue, Field, Function, Item, Metadata, Module, Param, SourceLocation,
    Type, TypeKind, TypeParam, Value, Variant,
};

verus! {

pub struct TypeModel {
    pub kind: KindModel,
    pub name: Option<Seq<char>>,
    pub params: Seq<TypeParamModel>,
    pub args: Seq<TypeModel>,
    pub annotations: Seq<AnnotationModel>,
    pub metadata: MetadataModel,
}

pub enum KindModel {
    Ref { name: Seq<char> },
    Struct { fields: Seq<FieldModel> },
    Enum { variants: Seq<VariantModel> },
    Function { params: Seq<ParamModel>, ret: Box<TypeModel> },
    Union { members: Seq<TypeModel> },
    Intersection { members: Seq<TypeModel> },
}

pub struct TypeParamModel {
    pub name: Seq<char>,
    pub bounds: Seq<AnnotationModel>,
    pub default: Option<Box<TypeModel>>,
}

pub struct AnnotationModel {
    pub kind: Seq<char>,
    pub value: Option<AnnotationValueModel>,
}

pub enum AnnotationValueModel {
    Type(Box<TypeModel>),
    String(Seq<char>),
    Number(Seq<char>),
    Bool(bool),
    List(Seq<AnnotationValueModel>),
}

pub struct FieldModel {
    pub name: Option<Seq<char>>,
    pub typ: TypeModel,
    pub annotations: Seq<AnnotationModel>,
}

pub struct VariantModel {
    pub name: Seq<char>,
    pub fields: Seq<FieldModel>,
    pub annotations: Seq<AnnotationModel>,
}

pub struct ParamModel {
    pub name: Option<Seq<char>>,
    pub typ: TypeModel,
    pub default: Option<ValueModel>,
    pub annotations: Seq<AnnotationModel>,
}

pub enum ValueModel {
    Null,
    Bool(bool),
    Number(Seq<char>),
    String(Seq<char>),
    List(Seq<ValueModel>),
    Object(Seq<EntryModel>),
}

/// One entry of an object: a key and the value under it.
pub struct EntryModel {
    pub key: Seq<char>,
    pub value: ValueModel,
}

pub struct FunctionModel {
    pub name: Seq<char>,
    pub params: Seq<TypeParamModel>,
    pub args: Seq<ParamModel>,
    pub ret: TypeModel,
    pub annotations: Seq<AnnotationModel>,
    pub metadata: MetadataModel,
}

pub struct ModuleModel {
    pub name: Seq<char>,
    pub items: Seq<ItemModel>,
    pub submodules: Seq<ModuleModel>,
    pub annotations: Seq<AnnotationModel>,
    pub metadata: MetadataModel,
}

pub enum ItemModel {
    Type(TypeModel),
    Function(FunctionModel),
    Const { name: Seq<char>, typ: TypeModel, value: ValueModel },
}

pub struct MetadataModel {
    pub docs: Option<Seq<char>>,
    pub source: Option<SourceLocationModel>,
    pub confidence: Option<u32>,
    pub extra: Seq<EntryModel>,
}

pub struct SourceLocationModel {
    pub file: Seq<char>,
    pub line: Option<u32>,
    pub column: Option<u32>,
}

/// The text of an optional string.
pub open spec fn text_of(s: Option<String>) -> Option<Seq<char>> {
    match s {
        Some(s) => Some(s@),
        None => None,
    }
}

pub open spec fn type_model(t: Type) -> TypeModel
    decreases t,
{
    TypeModel {
        kind: kind_model(t.kind),
        name: text_of(t.name),
        params: type_params_model(t.params@),
        args: types_model(t.args@),
        annotations: annotations_model(t.annotations@),
        metadata: t.metadata@,
    }
}

pub open spec fn types_model(ts: Seq<Type>) -> Seq<TypeModel>
    decreases ts,
{
    Seq::new(
        ts.len(),
        |i: int|
            if 0 <= i < ts.len() {
                type_model(ts[i])
            } else {
                arbitrary()
            },
    )
}

pub open spec fn kind_model(k: TypeKind) -> KindModel
    decreases k,
{
    match k {
        TypeKind::Ref { name } => KindModel::Ref { name: name@ },
        TypeKind::Struct { fields } => KindModel::Struct { fields: fields_model(fields@) },
        TypeKind::Enum { variants } => KindModel::Enum { variants: variants_model(variants@) },
        TypeKind::Function { params, ret } => KindModel::Function {
            params: params_model(params@),
            ret: Box::new(type_model(*ret)),
        },
        TypeKind::Union { members } => KindModel::Union { members: types_model(members@) },
        TypeKind::Intersection { members } => KindModel::Intersection {
            members: types_model(members@),
        },
    }
}

pub open spec fn type_param_model(p: TypeParam) -> TypeParamModel
    decreases p,
{
    TypeParamModel {
        name: p.name@,
        bounds: annotations_model(p.bounds@),
        default: match p.default {
            Some(t) => Some(Box::new(type_model(*t))),
            None => None,
        },
    }
}

pub open spec fn type_params_model(ps: Seq<TypeParam>) -> Seq<TypeParamModel>
    decreases ps,
{
    Seq::new(
        ps.len(),
        |i: int|
            if 0 <= i < ps.len() {
                type_param_model(ps[i])
            } else {
                arbitrary()
            },
    )
}

pub open spec fn annotation_model(a: Annotation) -> AnnotationModel
    decreases a,
{
    AnnotationModel {
        kind: a.kind@,
        value: match a.value {
            Some(v) => Some(annotation_value_model(v)),
            None => None,
        },
    }
}

pub open spec fn annotations_model(xs: Seq<Annotation>) -> Seq<AnnotationModel>
    decreases xs,
{
    Seq::new(
        xs.len(),
        |i: int|
            if 0 <= i < xs.len() {
                annotation_model(xs[i])
            } else {
                arbitrary()
            },
    )
}

pub open spec fn annotation_value_model(v: AnnotationValue) -> AnnotationValueModel
    decreases v,
{
    match v {
        AnnotationValue::Type(t) => AnnotationValueModel::Type(Box::new(type_model(*t))),
        AnnotationValue::String(s) => AnnotationValueModel::String(s@),
        AnnotationValue::Number(n) => AnnotationValueModel::Number(n@),
        AnnotationValue::Bool(b) => AnnotationValueModel::Bool(b),
        AnnotationValue::List(vs) => AnnotationValueModel::List(annotation_values_model(vs@)),
    }
}

pub open spec fn annotation_values_model(vs: Seq<AnnotationValue>) -> Seq<AnnotationValueModel>
    decreases vs,
{
    Seq::new(
        vs.len(),
        |i: int|
            if 0 <= i < vs.len() {
                annotation_value_model(vs[i])
            } else {
                arbitrary()
            },
    )
}

pub open spec fn field_model(f: Field) -> FieldModel
    decreases f,
{
    FieldModel {
        name: text_of(f.name),
        typ: type_model(f.typ),
        annotations: annotations_model(f.annotations@),
    }
}

pub open spec fn fields_model(fs: Seq<Field>) -> Seq<FieldModel>
    decreases fs,
{
    Seq::new(
        fs.len(),
        |i: int|
            if 0 <= i < fs.len() {
                field_model(fs[i])
            } else {
                arbitrary()
            },
    )
}

pub open spec fn variant_model(v: Variant) -> VariantModel
    decreases v,
{
    VariantModel {
        name: v.name@,
        fields: fields_model(v.fields@),
        annotations: annotations_model(v.annotations@),
    }
}

pub open spec fn variants_model(vs: Seq<Variant>) -> Seq<VariantModel>
    decreases vs,
{
    Seq::new(
        vs.len(),
        |i: int|
            if 0 <= i < vs.len() {
                variant_model(vs[i])
            } else {
                arbitrary()
            },
    )
}

pub open spec fn param_model(p: Param) -> ParamModel
    decreases p,
{
    ParamModel {
        name: text_of(p.name),
        typ: type_model(p.typ),
        default: match p.default {
            Some(v) => Some(value_model(v)),
            None => None,
        },
        annotations: annotations_model(p.annotations@),
    }
}

pub open spec fn params_model(ps: Seq<Param>) -> Seq<ParamModel>
    decreases ps,
{
    Seq::new(
        ps.len(),
        |i: int|
            if 0 <= i < ps.len() {
                param_model(ps[i])
            } else {
                arbitrary()
            },
    )
}

pub open spec fn value_model(v: Value) -> ValueModel
    decreases v,
{
    match v {
        Value::Null => ValueModel::Null,
        Value::Bool(b) => ValueModel::Bool(b),
        Value::Number(n) => ValueModel::Number(n@),
        Value::String(s) => ValueModel::String(s@),
        Value::List(vs) => ValueModel::List(values_model(vs@)),
        Value::Object(m) => ValueModel::Object(entries(m)),
    }
}

pub open spec fn values_model(vs: Seq<Value>) -> Seq<ValueModel>
    decreases vs,
{
    Seq::new(
        vs.len(),
        |i: int|
            if 0 <= i < vs.len() {
                value_model(vs[i])
            } else {
                arbitrary()
            },
    )
}

pub open spec fn function_model(f: Function) -> FunctionModel {
    FunctionModel {
        name: f.name@,
        params: type_params_model(f.params@),
        args: params_model(f.args@),
        ret: type_model(f.ret),
        annotations: annotations_model(f.annotations@),
        metadata: f.metadata@,
    }
}

pub open spec fn item_model(i: Item) -> ItemModel {
    match i {
        Item::Type(t) => ItemModel::Type(type_model(t)),
        Item::Function(f) => ItemModel::Function(function_model(f)),
        Item::Const { name, typ, value } => ItemModel::Const {
            name: name@,
            typ: type_model(typ),
            value: value_model(value),
        },
    }
}

pub open spec fn items_model(is: Seq<Item>) -> Seq<ItemModel> {
    Seq::new(is.len(), |i: int| item_model(is[i]))
}

pub open spec fn module_model(m: Module) -> ModuleModel
    decreases m,
{
    ModuleModel {
        name: m.name@,
        items: items_model(m.items@),
        submodules: modules_model(m.submodules@),
        annotations: annotations_model(m.annotations@),
        metadata: m.metadata@,
    }
}

pub open spec fn modules_model(ms: Seq<Module>) -> Seq<ModuleModel>
    decreases ms,
{
    Seq::new(
        ms.len(),
        |i: int|
            if 0 <= i < ms.len() {
                module_model(ms[i])
            } else {
                arbitrary()
            },
    )
}

impl View for SourceLocation {
    type V = SourceLocationModel;

    open spec fn view(&self) -> SourceLocationModel {
        SourceLocationModel { file: self.file@, line: self.line, column: self.column }
    }
}

impl View for Metadata {
    type V = MetadataModel;

    open spec fn view(&self) -> MetadataModel {
        MetadataModel {
            docs: text_of(self.docs),
            source: match self.source {
                Some(s) => Some(s@),
                None => None,
            },
            confidence: self.confidence,
            extra: entries(self.extra),
        }
    }
}

impl View for Type {
    type V = TypeModel;

    open spec fn view(&self) -> TypeModel {
        type_model(*self)
    }
}

impl View for TypeKind {
    type V = KindModel;

    open spec fn view(&self) -> KindModel {
        kind_model(*self)
    }
}

impl View for TypeParam {
    type V = TypeParamModel;

    open spec fn view(&self) -> TypeParamModel {
        type_param_model(*self)
    }
}

impl View for Annotation {
    type V = AnnotationModel;

    open spec fn view(&self) -> AnnotationModel {
        annotation_model(*self)
    }
}

impl View for AnnotationValue {
    type V = AnnotationValueModel;

    open spec fn view(&self) -> AnnotationValueModel {
        annotation_value_model(*self)
    }
}

impl View for Field {
    type V = FieldModel;

    open spec fn view(&self) -> FieldModel {
        field_model(*self)
    }
}

impl View for Variant {
    type V = VariantModel;

    open spec fn view(&self) -> VariantModel {
        variant_model(*self)
    }
}

impl View for Param {
    type V = ParamModel;

    open spec fn view(&self) -> ParamModel {
        param_model(*self)
    }
}

impl View for Value {
    type V = ValueModel;

    open spec fn view(&self) -> ValueModel {
        value_model(*self)
    }
}

impl View for ValueMap {
    type V = Seq<EntryModel>;

    open spec fn view(&self) -> Seq<EntryModel> {
        entries(*self)
    }
}

impl View for Function {
    type V = FunctionModel;

    open spec fn view(&self) -> FunctionModel {
        function_model(*self)
    }
}

impl View for Item {
    type V = ItemModel;

    open spec fn view(&self) -> ItemModel {
        item_model(*self)
    }
}

impl View for Module {
    type V = ModuleModel;

    open spec fn view(&self) -> ModuleModel {
        module_model(*self)
    }
}

/// Metadata that says nothing.
pub open spec fn empty_metadata() -> MetadataModel {
    MetadataModel { docs: None, source: None, confidence: None, extra: Seq::empty() }
}

/// Metadata that holds documentation and nothing else.
pub open spec fn docs_metadata(docs: Option<Seq<char>>) -> MetadataModel {
    MetadataModel { docs, source: None, confidence: None, extra: Seq::empty() }
}

/// The instantiation of the type called `base` with `args`: anonymous, with
/// no parameters, annotations or metadata.
pub open spec fn generic_type(base: Seq<char>, args: Seq<TypeModel>) -> TypeModel {
    TypeModel {
        kind: KindModel::Ref { name: base },
        name: None,
        params: Seq::empty(),
        args,
        annotations: Seq::empty(),
        metadata: empty_metadata(),
    }
}

/// The reference to the type called `name`.
pub open spec fn reference_type(name: Seq<char>) -> TypeModel {
    generic_type(name, Seq::empty())
}

/// The optional form of `t`: the well-known wrapper around it.
pub open spec fn optional_type(t: TypeModel) -> TypeModel {
    generic_type(OPTION@, seq![t])
}

/// An annotation whose value is a string.
pub open spec fn string_annotation(kind: Seq<char>, value: Seq<char>) -> AnnotationModel {
    AnnotationModel { kind, value: Some(AnnotationValueModel::String(value)) }
}

} // verus!
