use liana_codegen::command::{
    output_file_name, schema_syntax, select_dump_format, select_target, DumpFormat, SchemaSyntax,
    Target,
};

#[test]
fn the_only_target_is_rust() {
    assert_eq!(select_target("rust"), Ok(Target::Rust));
    assert_eq!(select_target("python"), Err("Unknown target: python".to_string()));
    assert_eq!(select_target("Rust"), Err("Unknown target: Rust".to_string()));
    assert_eq!(select_target(""), Err("Unknown target: ".to_string()));
}

#[test]
fn dump_formats_are_json_and_yaml() {
    assert_eq!(select_dump_format("json"), Ok(DumpFormat::Json));
    assert_eq!(select_dump_format("yaml"), Ok(DumpFormat::Yaml));
    assert_eq!(select_dump_format("yml"), Err("Unknown format: yml".to_string()));
    assert_eq!(select_dump_format("toml"), Err("Unknown format: toml".to_string()));
}

#[test]
fn the_extension_selects_the_schema_syntax() {
    assert_eq!(schema_syntax(Some("yaml")), SchemaSyntax::Yaml);
    assert_eq!(schema_syntax(Some("yml")), SchemaSyntax::Yaml);
    assert_eq!(schema_syntax(Some("json")), SchemaSyntax::Json);
    assert_eq!(schema_syntax(Some("YAML")), SchemaSyntax::Json);
    assert_eq!(schema_syntax(Some("txt")), SchemaSyntax::Json);
    assert_eq!(schema_syntax(None), SchemaSyntax::Json);
}

#[test]
fn the_module_is_written_to_mod_rs() {
    assert_eq!(output_file_name(), "mod.rs");
}
