//! Converters from schema documents to the intermediate representation.

pub mod openapi;
