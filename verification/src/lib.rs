//! Schema-driven binding generation.
//!
//! A schema document ([`schema`]) is converted into a small intermediate
//! representation ([`ir`]) by the converter ([`parser::openapi`]), and that
//! representation is projected into declarations of the target language by
//! the generator ([`generator::rust`]). [`bindings`] runs the two one after
//! the other.
//!
//! Every function states what it returns over the ghost models of the
//! representation ([`ir::model`]), and Verus proves the statement. What holds
//! of the two stages in general is stated as proof functions beside them.
//!
//! What is taken on trust stands behind contracts that say what is assumed:
//! of the standard library, that `String::push` appends a character, its
//! Unicode tables ([`unicode`]) and its quoting of strings
//! ([`text::quoted`]); of the `indexmap` crate, its insertion-ordered map
//! ([`ir::map`]).
//!
//! Nothing is assumed of what the Unicode tables hold. The naming rules
//! ([`naming`]) work on the answers of the tables through step functions
//! that take the answers as arguments, and what holds of ASCII identifiers
//! is stated for tables that say of ASCII what ASCII says, which
//! [`unicode::tables_agree`] finds out.

pub mod bindings;
pub mod command;
pub mod generator;
pub mod ir;
pub mod naming;
pub mod parser;
pub mod schema;
pub mod sequences;
pub mod text;
pub mod unicode;
