//! The schema document as the converter reads it: named schema definitions
//! and paths with their operations.
//!
//! Maps of the document are vectors of entries in document order, so that
//! what is said of a schema can follow its structure down to the schemas
//! inside it. A lookup takes the first entry that matches.

use vstd::prelude::*;

use crate::text::same_text;

verus! {

/// Either a reference to a component by its path, or the thing itself.
#[derive(Debug)]
pub enum RefOr<T> {
    Reference { reference: String },
    Item(T),
}

/// A schema: its description and its shape.
#[derive(Debug)]
pub struct Schema {
    pub description: Option<String>,
    pub kind: SchemaKind,
}

/// The shape of a schema.
#[derive(Debug)]
pub enum SchemaKind {
    /// A declared type.
    Type(SchemaType),
    OneOf { one_of: Vec<RefOr<Schema>> },
    AllOf { all_of: Vec<RefOr<Schema>> },
    AnyOf { any_of: Vec<RefOr<Schema>> },
    Not { not: Box<RefOr<Schema>> },
    /// No declared type.
    Any(AnySchema),
}

/// A declared type.
#[derive(Debug)]
pub enum SchemaType {
    String(StringType),
    Number,
    Integer,
    Boolean,
    Object(ObjectType),
    Array(ArrayType),
}

/// The format names that a string schema can carry and the document model
/// knows.
#[derive(Debug, Clone, Copy, PartialEq, Eq)]
pub enum KnownFormat {
    Date,
    DateTime,
    Password,
    Byte,
    Binary,
}

/// The format hint of a string schema.
#[derive(Debug)]
pub enum StringFormat {
    Empty,
    Known(KnownFormat),
    Unknown(String),
}

#[derive(Debug)]
pub struct StringType {
    pub format: StringFormat,
    /// The enumerated values; `None` stands for a null among them.
    pub enumeration: Vec<Option<String>>,
}

/// A property of an object: its name and its schema.
#[derive(Debug)]
pub struct Property {
    pub name: String,
    pub schema: RefOr<Box<Schema>>,
}

#[derive(Debug)]
pub struct ObjectType {
    pub properties: Vec<Property>,
    /// The names of the properties that must be present.
    pub required: Vec<String>,
}

#[derive(Debug)]
pub struct ArrayType {
    pub items: Option<RefOr<Box<Schema>>>,
}

/// What a schema without a declared type says of properties.
#[derive(Debug)]
pub struct AnySchema {
    pub properties: Vec<Property>,
    pub required: Vec<String>,
}

/// Where a parameter travels.
#[derive(Debug, Clone, Copy, PartialEq, Eq)]
pub enum ParameterLocation {
    Query,
    Header,
    Path,
    Cookie,
}

/// How a parameter describes its value: by a schema, or by media types.
#[derive(Debug)]
pub enum ParameterFormat {
    Schema(RefOr<Schema>),
    Content,
}

#[derive(Debug)]
pub struct Parameter {
    pub location: ParameterLocation,
    pub name: String,
    pub required: bool,
    pub format: ParameterFormat,
}

/// The content under one media type.
#[derive(Debug)]
pub struct MediaType {
    pub media_type: String,
    pub schema: Option<RefOr<Schema>>,
}

#[derive(Debug)]
pub struct RequestBody {
    pub content: Vec<MediaType>,
}

#[derive(Debug)]
pub struct Response {
    pub content: Vec<MediaType>,
}

/// The key of a response: one status code, or a range of them.
#[derive(Debug, Clone, Copy, PartialEq, Eq)]
pub enum StatusCode {
    Code(u16),
    Range(u16),
}

/// The response under one status.
#[derive(Debug)]
pub struct StatusResponse {
    pub status: StatusCode,
    pub response: RefOr<Response>,
}

#[derive(Debug)]
pub struct Responses {
    pub default: Option<RefOr<Response>>,
    pub responses: Vec<StatusResponse>,
}

#[derive(Debug)]
pub struct Operation {
    pub operation_id: Option<String>,
    pub summary: Option<String>,
    pub description: Option<String>,
    pub parameters: Vec<RefOr<Parameter>>,
    pub request_body: Option<RefOr<RequestBody>>,
    pub responses: Responses,
}

/// The operations of one path, by method.
#[derive(Debug)]
pub struct PathItem {
    pub get: Option<Operation>,
    pub put: Option<Operation>,
    pub post: Option<Operation>,
    pub delete: Option<Operation>,
    pub options: Option<Operation>,
    pub head: Option<Operation>,
    pub patch: Option<Operation>,
    pub trace: Option<Operation>,
}

/// A schema definition under its name.
#[derive(Debug)]
pub struct NamedSchema {
    pub name: String,
    pub schema: RefOr<Schema>,
}

/// A path with what it offers.
#[derive(Debug)]
pub struct NamedPath {
    pub path: String,
    pub item: RefOr<PathItem>,
}

/// A schema document.
#[derive(Debug)]
pub struct Document {
    pub title: String,
    pub description: Option<String>,
    pub schemas: Vec<NamedSchema>,
    pub paths: Vec<NamedPath>,
}

/// Whether `name` is among the first `n` of `names`.
pub open spec fn names_contain_upto(names: Seq<String>, name: Seq<char>, n: int) -> bool
    decreases n,
{
    n > 0 && (names_contain_upto(names, name, n - 1) || names[n - 1]@ == name)
}

/// Whether `name` is among `names`.
pub open spec fn names_contain(names: Seq<String>, name: Seq<char>) -> bool {
    names_contain_upto(names, name, names.len() as int)
}

/// The schema under the first of the first `n` entries of `content` whose
/// media type is `media_type`; `None` where there is no such entry.
pub open spec fn media_upto(content: Seq<MediaType>, media_type: Seq<char>, n: int) -> Option<
    MediaType,
>
    decreases n,
{
    if n <= 0 {
        None
    } else {
        match media_upto(content, media_type, n - 1) {
            Some(m) => Some(m),
            None => if content[n - 1].media_type@ == media_type {
                Some(content[n - 1])
            } else {
                None
            },
        }
    }
}

/// The first entry of `content` whose media type is `media_type`.
pub open spec fn media(content: Seq<MediaType>, media_type: Seq<char>) -> Option<MediaType> {
    media_upto(content, media_type, content.len() as int)
}

/// The first of the first `n` responses whose status is the code `code`.
pub open spec fn response_upto(responses: Seq<StatusResponse>, code: u16, n: int) -> Option<
    RefOr<Response>,
>
    decreases n,
{
    if n <= 0 {
        None
    } else {
        match response_upto(responses, code, n - 1) {
            Some(r) => Some(r),
            None => if responses[n - 1].status == StatusCode::Code(code) {
                Some(responses[n - 1].response)
            } else {
                None
            },
        }
    }
}

/// The first response whose status is the code `code`.
pub open spec fn response_for(responses: Seq<StatusResponse>, code: u16) -> Option<
    RefOr<Response>,
> {
    response_upto(responses, code, responses.len() as int)
}

/// Once an entry is found among the first `n`, it is the one found among
/// any more.
proof fn lemma_media_upto_stays(content: Seq<MediaType>, media_type: Seq<char>, n: int, m: int)
    requires
        0 <= n <= m,
        media_upto(content, media_type, n) is Some,
    ensures
        media_upto(content, media_type, m) == media_upto(content, media_type, n),
    decreases m,
{
    if m > n {
        lemma_media_upto_stays(content, media_type, n, m - 1);
    }
}

proof fn lemma_response_upto_stays(responses: Seq<StatusResponse>, code: u16, n: int, m: int)
    requires
        0 <= n <= m,
        response_upto(responses, code, n) is Some,
    ensures
        response_upto(responses, code, m) == response_upto(responses, code, n),
    decreases m,
{
    if m > n {
        lemma_response_upto_stays(responses, code, n, m - 1);
    }
}

proof fn lemma_names_contain_upto_stays(names: Seq<String>, name: Seq<char>, n: int, m: int)
    requires
        0 <= n <= m,
        names_contain_upto(names, name, n),
    ensures
        names_contain_upto(names, name, m),
    decreases m,
{
    if m > n {
        lemma_names_contain_upto_stays(names, name, n, m - 1);
    }
}

/// A name is among `names` where one of them has its text.
pub proof fn lemma_names_contain_is_membership(names: Seq<String>, name: Seq<char>, n: int)
    requires
        0 <= n <= names.len(),
    ensures
        names_contain_upto(names, name, n) <==> exists|i: int| 0 <= i < n && names[i]@ == name,
    decreases n,
{
    if n > 0 {
        lemma_names_contain_is_membership(names, name, n - 1);
        if names_contain_upto(names, name, n) {
            if names[n - 1]@ == name {
                assert(0 <= n - 1 < n && names[n - 1]@ == name);
            } else {
                let i = choose|i: int| 0 <= i < n - 1 && names[i]@ == name;
                assert(0 <= i < n && names[i]@ == name);
            }
        }
    }
}

/// Whether `name` is among `names`.
pub fn contains_name(names: &Vec<String>, name: &str) -> (r: bool)
    ensures
        r == names_contain(names@, name@),
{
    let mut i: usize = 0;
    while i < names.len()
        invariant
            i <= names.len(),
            !names_contain_upto(names@, name@, i as int),
        decreases names.len() - i,
    {
        if same_text(names[i].as_str(), name) {
            proof {
                lemma_names_contain_upto_stays(names@, name@, i + 1, names@.len() as int);
            }
            return true;
        }
        i += 1;
    }
    false
}

/// The first entry of `content` whose media type is `media_type`.
pub fn find_media<'a>(content: &'a Vec<MediaType>, media_type: &str) -> (r: Option<&'a MediaType>)
    ensures
        match r {
            Some(m) => media(content@, media_type@) == Some(*m),
            None => media(content@, media_type@) is None,
        },
{
    let mut i: usize = 0;
    while i < content.len()
        invariant
            i <= content.len(),
            media_upto(content@, media_type@, i as int) is None,
        decreases content.len() - i,
    {
        if same_text(content[i].media_type.as_str(), media_type) {
            proof {
                lemma_media_upto_stays(content@, media_type@, i + 1, content@.len() as int);
            }
            return Some(&content[i]);
        }
        i += 1;
    }
    None
}

/// The first response whose status is the code `code`.
pub fn find_response<'a>(responses: &'a Vec<StatusResponse>, code: u16) -> (r: Option<
    &'a RefOr<Response>,
>)
    ensures
        match r {
            Some(x) => response_for(responses@, code) == Some(*x),
            None => response_for(responses@, code) is None,
        },
{
    let mut i: usize = 0;
    while i < responses.len()
        invariant
            i <= responses.len(),
            response_upto(responses@, code, i as int) is None,
        decreases responses.len() - i,
    {
        let hit = match responses[i].status {
            StatusCode::Code(c) => c == code,
            StatusCode::Range(_) => false,
        };
        if hit {
            proof {
                lemma_response_upto_stays(responses@, code, i + 1, responses@.len() as int);
            }
            return Some(&responses[i].response);
        }
        i += 1;
    }
    None
}

} // verus!
