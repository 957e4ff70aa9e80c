//! The names that the converter and the generator agree on: the kinds of
//! annotation that carry meaning between them, and the well-known types.
//!
//! Nothing enforces these names but their use from here.

use vstd::prelude::*;

verus! {

/// The kind of the annotation that holds the HTTP method of an operation,
/// in capitals.
pub const HTTP_METHOD: &'static str = "http_method";

/// The kind of the annotation that holds the path of an operation as the
/// document writes it.
pub const HTTP_PATH: &'static str = "http_path";

/// The kind of the annotation that holds the name of a variant on the wire.
pub const SERDE_RENAME: &'static str = "serde_rename";

/// The kind of the annotation that holds the format hint of a string.
pub const FORMAT: &'static str = "format";

/// The wrapper that makes a type optional: it has the type as its one
/// argument.
pub const OPTION: &'static str = "Option";

/// The type of sequences: it has the type of the items as its one argument.
pub const VEC: &'static str = "Vec";

/// The type of what an operation returns: success first, the error second.
pub const RESULT: &'static str = "Result";

/// The error type of the bindings.
pub const API_ERROR: &'static str = "ApiError";

/// The type of strings.
pub const STRING: &'static str = "String";

/// The type of integers.
pub const INTEGER: &'static str = "i64";

/// The type of numbers.
pub const NUMBER: &'static str = "f64";

/// The type of truth values.
pub const BOOLEAN: &'static str = "bool";

/// The type of anything: what stands in where nothing more precise is known.
pub const ANY: &'static str = "Any";

/// The type of nothing to return.
pub const UNIT: &'static str = "Unit";

/// The type without values.
pub const NEVER: &'static str = "Never";

} // verus!
