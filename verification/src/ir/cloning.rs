//! Copies of the representation. A copy has the model of what it was made
//! from.

use vstd::prelude::*;

use super::model::{
    annotation_values_model, annotations_model, fields_model, items_model, modules_model,
    params_model, type_params_model, types_model, values_model, variants_model, ValueModel,
};
use super::{
    Annotation, AnnotationValue, Field, Function, Item, Metadata, Module, Param, SourceLocation,
    Type, TypeKind, TypeParam, Value, Variant,
};

verus! {

/// A copy of an optional string.
fn clone_text(s: &Option<String>) -> (r: Option<String>)
    ensures
        super::model::text_of(r) == super::model::text_of(*s),
{
    match s {
        Some(s) => Some(s.clone()),
        None => None,
    }
}

fn clone_types(items: &Vec<Type>) -> (r: Vec<Type>)
    ensures
        types_model(r@) == types_model(items@),
    decreases items,
{
    let mut out: Vec<Type> = Vec::new();
    let mut i: usize = 0;
    while i < items.len()
        invariant
            i <= items.len(),
            out@.len() == i,
            forall|j: int| 0 <= j < i ==> (#[trigger] out@[j])@ == items@[j]@,
        decreases items.len() - i,
    {
        out.push(items[i].clone());
        i += 1;
    }
    assert(types_model(out@) =~= types_model(items@));
    out
}

fn clone_type_params(items: &Vec<TypeParam>) -> (r: Vec<TypeParam>)
    ensures
        type_params_model(r@) == type_params_model(items@),
    decreases items,
{
    let mut out: Vec<TypeParam> = Vec::new();
    let mut i: usize = 0;
    while i < items.len()
        invariant
            i <= items.len(),
            out@.len() == i,
            forall|j: int| 0 <= j < i ==> (#[trigger] out@[j])@ == items@[j]@,
        decreases items.len() - i,
    {
        out.push(items[i].clone());
        i += 1;
    }
    assert(type_params_model(out@) =~= type_params_model(items@));
    out
}

fn clone_annotations(items: &Vec<Annotation>) -> (r: Vec<Annotation>)
    ensures
        annotations_model(r@) == annotations_model(items@),
    decreases items,
{
    let mut out: Vec<Annotation> = Vec::new();
    let mut i: usize = 0;
    while i < items.len()
        invariant
            i <= items.len(),
            out@.len() == i,
            forall|j: int| 0 <= j < i ==> (#[trigger] out@[j])@ == items@[j]@,
        decreases items.len() - i,
    {
        out.push(items[i].clone());
        i += 1;
    }
    assert(annotations_model(out@) =~= annotations_model(items@));
    out
}

fn clone_annotation_values(items: &Vec<AnnotationValue>) -> (r: Vec<AnnotationValue>)
    ensures
        annotation_values_model(r@) == annotation_values_model(items@),
    decreases items,
{
    let mut out: Vec<AnnotationValue> = Vec::new();
    let mut i: usize = 0;
    while i < items.len()
        invariant
            i <= items.len(),
            out@.len() == i,
            forall|j: int| 0 <= j < i ==> (#[trigger] out@[j])@ == items@[j]@,
        decreases items.len() - i,
    {
        out.push(items[i].clone());
        i += 1;
    }
    assert(annotation_values_model(out@) =~= annotation_values_model(items@));
    out
}

fn clone_fields(items: &Vec<Field>) -> (r: Vec<Field>)
    ensures
        fields_model(r@) == fields_model(items@),
    decreases items,
{
    let mut out: Vec<Field> = Vec::new();
    let mut i: usize = 0;
    while i < items.len()
        invariant
            i <= items.len(),
            out@.len() == i,
            forall|j: int| 0 <= j < i ==> (#[trigger] out@[j])@ == items@[j]@,
        decreases items.len() - i,
    {
        out.push(items[i].clone());
        i += 1;
    }
    assert(fields_model(out@) =~= fields_model(items@));
    out
}

fn clone_variants(items: &Vec<Variant>) -> (r: Vec<Variant>)
    ensures
        variants_model(r@) == variants_model(items@),
    decreases items,
{
    let mut out: Vec<Variant> = Vec::new();
    let mut i: usize = 0;
    while i < items.len()
        invariant
            i <= items.len(),
            out@.len() == i,
            forall|j: int| 0 <= j < i ==> (#[trigger] out@[j])@ == items@[j]@,
        decreases items.len() - i,
    {
        out.push(items[i].clone());
        i += 1;
    }
    assert(variants_model(out@) =~= variants_model(items@));
    out
}

fn clone_params(items: &Vec<Param>) -> (r: Vec<Param>)
    ensures
        params_model(r@) == params_model(items@),
    decreases items,
{
    let mut out: Vec<Param> = Vec::new();
    let mut i: usize = 0;
    while i < items.len()
        invariant
            i <= items.len(),
            out@.len() == i,
            forall|j: int| 0 <= j < i ==> (#[trigger] out@[j])@ == items@[j]@,
        decreases items.len() - i,
    {
        out.push(items[i].clone());
        i += 1;
    }
    assert(params_model(out@) =~= params_model(items@));
    out
}

fn clone_items(items: &Vec<Item>) -> (r: Vec<Item>)
    ensures
        items_model(r@) == items_model(items@),
{
    let mut out: Vec<Item> = Vec::new();
    let mut i: usize = 0;
    while i < items.len()
        invariant
            i <= items.len(),
            out@.len() == i,
            forall|j: int| 0 <= j < i ==> (#[trigger] out@[j])@ == items@[j]@,
        decreases items.len() - i,
    {
        out.push(items[i].clone());
        i += 1;
    }
    assert(items_model(out@) =~= items_model(items@));
    out
}

fn clone_modules(items: &Vec<Module>) -> (r: Vec<Module>)
    ensures
        modules_model(r@) == modules_model(items@),
    decreases items,
{
    let mut out: Vec<Module> = Vec::new();
    let mut i: usize = 0;
    while i < items.len()
        invariant
            i <= items.len(),
            out@.len() == i,
            forall|j: int| 0 <= j < i ==> (#[trigger] out@[j])@ == items@[j]@,
        decreases items.len() - i,
    {
        out.push(items[i].clone());
        i += 1;
    }
    assert(modules_model(out@) =~= modules_model(items@));
    out
}

impl Clone for SourceLocation {
    fn clone(&self) -> (r: Self)
        ensures
            r@ == self@,
    {
        SourceLocation { file: self.file.clone(), line: self.line, column: self.column }
    }
}

impl Clone for Metadata {
    fn clone(&self) -> (r: Self)
        ensures
            r@ == self@,
    {
        Metadata {
            docs: clone_text(&self.docs),
            source: match &self.source {
                Some(s) => Some(s.clone()),
                None => None,
            },
            confidence: self.confidence,
            extra: self.extra.clone(),
        }
    }
}

impl Clone for Value {
    fn clone(&self) -> (r: Self)
        ensures
            r@ == self@,
        decreases self@,
    {
        match self {
            Value::Null => Value::Null,
            Value::Bool(b) => Value::Bool(*b),
            Value::Number(n) => Value::Number(n.clone()),
            Value::String(s) => Value::String(s.clone()),
            Value::List(items) => {
                let mut out: Vec<Value> = Vec::new();
                let mut i: usize = 0;
                while i < items.len()
                    invariant
                        i <= items.len(),
                        self@ == ValueModel::List(values_model(items@)),
                        out@.len() == i,
                        forall|j: int| 0 <= j < i ==> (#[trigger] out@[j])@ == items@[j]@,
                    decreases items.len() - i,
                {
                    assert(self@->List_0[i as int] == items@[i as int]@);
                    out.push(items[i].clone());
                    i += 1;
                }
                assert(values_model(out@) =~= values_model(items@));
                Value::List(out)
            },
            Value::Object(map) => Value::Object(map.clone()),
        }
    }
}

impl Clone for Type {
    fn clone(&self) -> (r: Self)
        ensures
            r@ == self@,
        decreases self,
    {
        Type {
            kind: self.kind.clone(),
            name: clone_text(&self.name),
            params: clone_type_params(&self.params),
            args: clone_types(&self.args),
            annotations: clone_annotations(&self.annotations),
            metadata: self.metadata.clone(),
        }
    }
}

impl Clone for TypeKind {
    fn clone(&self) -> (r: Self)
        ensures
            r@ == self@,
        decreases self,
    {
        match self {
            TypeKind::Ref { name } => TypeKind::Ref { name: name.clone() },
            TypeKind::Struct { fields } => TypeKind::Struct { fields: clone_fields(fields) },
            TypeKind::Enum { variants } => TypeKind::Enum { variants: clone_variants(variants) },
            TypeKind::Function { params, ret } => TypeKind::Function {
                params: clone_params(params),
                ret: Box::new((**ret).clone()),
            },
            TypeKind::Union { members } => TypeKind::Union { members: clone_types(members) },
            TypeKind::Intersection { members } => TypeKind::Intersection {
                members: clone_types(members),
            },
        }
    }
}

impl Clone for TypeParam {
    fn clone(&self) -> (r: Self)
        ensures
            r@ == self@,
        decreases self,
    {
        TypeParam {
            name: self.name.clone(),
            bounds: clone_annotations(&self.bounds),
            default: match &self.default {
                Some(t) => Some(Box::new((**t).clone())),
                None => None,
            },
        }
    }
}

impl Clone for Annotation {
    fn clone(&self) -> (r: Self)
        ensures
            r@ == self@,
        decreases self,
    {
        Annotation {
            kind: self.kind.clone(),
            value: match &self.value {
                Some(v) => Some(v.clone()),
                None => None,
            },
        }
    }
}

impl Clone for AnnotationValue {
    fn clone(&self) -> (r: Self)
        ensures
            r@ == self@,
        decreases self,
    {
        match self {
            AnnotationValue::Type(t) => AnnotationValue::Type(Box::new((**t).clone())),
            AnnotationValue::String(s) => AnnotationValue::String(s.clone()),
            AnnotationValue::Number(n) => AnnotationValue::Number(n.clone()),
            AnnotationValue::Bool(b) => AnnotationValue::Bool(*b),
            AnnotationValue::List(vs) => AnnotationValue::List(clone_annotation_values(vs)),
        }
    }
}

impl Clone for Field {
    fn clone(&self) -> (r: Self)
        ensures
            r@ == self@,
        decreases self,
    {
        Field {
            name: clone_text(&self.name),
            typ: self.typ.clone(),
            annotations: clone_annotations(&self.annotations),
        }
    }
}

impl Clone for Variant {
    fn clone(&self) -> (r: Self)
        ensures
            r@ == self@,
        decreases self,
    {
        Variant {
            name: self.name.clone(),
            fields: clone_fields(&self.fields),
            annotations: clone_annotations(&self.annotations),
        }
    }
}

impl Clone for Param {
    fn clone(&self) -> (r: Self)
        ensures
            r@ == self@,
        decreases self,
    {
        Param {
            name: clone_text(&self.name),
            typ: self.typ.clone(),
            default: match &self.default {
                Some(v) => Some(v.clone()),
                None => None,
            },
            annotations: clone_annotations(&self.annotations),
        }
    }
}

impl Clone for Function {
    fn clone(&self) -> (r: Self)
        ensures
            r@ == self@,
    {
        Function {
            name: self.name.clone(),
            params: clone_type_params(&self.params),
            args: clone_params(&self.args),
            ret: self.ret.clone(),
            annotations: clone_annotations(&self.annotations),
            metadata: self.metadata.clone(),
        }
    }
}

impl Clone for Item {
    fn clone(&self) -> (r: Self)
        ensures
            r@ == self@,
    {
        match self {
            Item::Type(t) => Item::Type(t.clone()),
            Item::Function(f) => Item::Function(f.clone()),
            Item::Const { name, typ, value } => Item::Const {
                name: name.clone(),
                typ: typ.clone(),
                value: value.clone(),
            },
        }
    }
}

impl Clone for Module {
    fn clone(&self) -> (r: Self)
        ensures
            r@ == self@,
        decreases self,
    {
        Module {
            name: self.name.clone(),
            items: clone_items(&self.items),
            submodules: clone_modules(&self.submodules),
            annotations: clone_annotations(&self.annotations),
            metadata: self.metadata.clone(),
        }
    }
}

} // verus!
