//! What a command names: the target language of a generation, the format of
//! a dump, and the syntax of a schema file.

use vstd::prelude::*;
use vstd::string::StringExecFns;

use crate::text::same_text;

verus! {

/// A language that declarations can be generated for.
#[derive(Debug, Clone, Copy, PartialEq, Eq)]
pub enum Target {
    Rust,
}

/// A format in which the representation can be dumped.
#[derive(Debug, Clone, Copy, PartialEq, Eq)]
pub enum DumpFormat {
    Json,
    Yaml,
}

/// The syntax in which a schema file is written.
#[derive(Debug, Clone, Copy, PartialEq, Eq)]
pub enum SchemaSyntax {
    Json,
    Yaml,
}

/// The target that `name` names.
pub open spec fn target_named(name: Seq<char>) -> Option<Target> {
    if name == "rust"@ {
        Some(Target::Rust)
    } else {
        None
    }
}

/// The dump format that `name` names.
pub open spec fn dump_format_named(name: Seq<char>) -> Option<DumpFormat> {
    if name == "json"@ {
        Some(DumpFormat::Json)
    } else if name == "yaml"@ {
        Some(DumpFormat::Yaml)
    } else {
        None
    }
}

/// The syntax of a schema file with this extension: YAML for `yaml` and
/// `yml`, JSON for any other and for none.
pub open spec fn syntax_for(extension: Option<Seq<char>>) -> SchemaSyntax {
    match extension {
        Some(e) => if e == "yaml"@ || e == "yml"@ {
            SchemaSyntax::Yaml
        } else {
            SchemaSyntax::Json
        },
        None => SchemaSyntax::Json,
    }
}

/// The target that `name` names; the error says which name was not
/// recognized.
pub fn select_target(name: &str) -> (r: Result<Target, String>)
    ensures
        match r {
            Ok(t) => target_named(name@) == Some(t),
            Err(message) => target_named(name@) is None && message@ == "Unknown target: "@ + name@,
        },
{
    if same_text(name, "rust") {
        Ok(Target::Rust)
    } else {
        let mut message = "Unknown target: ".to_owned();
        message.append(name);
        Err(message)
    }
}

/// The dump format that `name` names; the error says which name was not
/// recognized.
pub fn select_dump_format(name: &str) -> (r: Result<DumpFormat, String>)
    ensures
        match r {
            Ok(f) => dump_format_named(name@) == Some(f),
            Err(message) => dump_format_named(name@) is None && message@ == "Unknown format: "@
                + name@,
        },
{
    if same_text(name, "json") {
        Ok(DumpFormat::Json)
    } else if same_text(name, "yaml") {
        Ok(DumpFormat::Yaml)
    } else {
        let mut message = "Unknown format: ".to_owned();
        message.append(name);
        Err(message)
    }
}

/// The syntax of a schema file with this extension.
pub fn schema_syntax(extension: Option<&str>) -> (r: SchemaSyntax)
    ensures
        r == syntax_for(
            match extension {
                Some(e) => Some(e@),
                None => None,
            },
        ),
{
    match extension {
        Some(e) => if same_text(e, "yaml") || same_text(e, "yml") {
            SchemaSyntax::Yaml
        } else {
            SchemaSyntax::Json
        },
        None => SchemaSyntax::Json,
    }
}

/// The name of the file that a generated module is written to, inside the
/// output directory.
pub fn output_file_name() -> (r: &'static str)
    ensures
        r@ == "mod.rs"@,
{
    "mod.rs"
}

} // verus!
