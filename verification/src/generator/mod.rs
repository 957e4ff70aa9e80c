//! Generators of target-language declarations from the intermediate
//! representation.

pub mod rust;
