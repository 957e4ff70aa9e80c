use liana_codegen::unicode::{lower_first, same_as_ascii, tables_agree, upper_first};
use liana_codegen::naming::{
    escape_reserved, mask_char, pascal_step, snake_step, to_module_name, to_pascal_case,
    to_snake_case, trim,
};

#[test]
fn snake_case_splits_words_at_uppercase_letters() {
    assert_eq!(to_snake_case("petName"), "pet_name");
    assert_eq!(to_snake_case("PetName"), "pet_name");
    assert_eq!(to_snake_case("userID"), "user_id");
    assert_eq!(to_snake_case("HTTPServer"), "httpserver");
    assert_eq!(to_snake_case("already_snake"), "already_snake");
}

#[test]
fn snake_case_turns_hyphens_and_spaces_into_underscores() {
    assert_eq!(to_snake_case("pet-name"), "pet_name");
    assert_eq!(to_snake_case("pet name"), "pet_name");
    assert_eq!(to_snake_case("X-Request-Id"), "x_request_id");
    assert_eq!(to_snake_case("a-B"), "a_b");
    assert_eq!(to_snake_case("a--b"), "a__b");
}

#[test]
fn snake_case_of_empty_text_is_empty() {
    assert_eq!(to_snake_case(""), "");
}

#[test]
fn snake_case_takes_the_first_character_of_a_lowercase_mapping() {
    // U+0130 has a lowercase mapping of two characters.
    assert_eq!(to_snake_case("\u{130}"), "i");
    assert_eq!(to_snake_case("aÄ"), "a_ä");
}

#[test]
fn snake_case_escapes_reserved_words() {
    let reserved = [
        "type", "self", "super", "crate", "mod", "fn", "let", "if", "else", "match", "loop",
        "while", "for", "in", "ref", "mut", "const", "static", "async", "await", "move", "return",
        "break", "continue",
    ];
    for word in reserved {
        assert_eq!(to_snake_case(word), format!("r#{word}"));
    }
    assert_eq!(to_snake_case("Type"), "r#type");
    assert_eq!(to_snake_case("types"), "types");
    assert_eq!(to_snake_case("r#type"), "r#type");
    assert_eq!(to_snake_case("struct"), "struct");
}

#[test]
fn escape_reserved_leaves_other_words() {
    assert_eq!(escape_reserved("loop".to_string()), "r#loop");
    assert_eq!(escape_reserved("loops".to_string()), "loops");
    assert_eq!(escape_reserved(String::new()), "");
}

#[test]
fn pascal_case_capitalizes_each_word() {
    assert_eq!(to_pascal_case("pet_store"), "PetStore");
    assert_eq!(to_pascal_case("pet-store api"), "PetStoreApi");
    assert_eq!(to_pascal_case("available"), "Available");
    assert_eq!(to_pascal_case("camelCase"), "CamelCase");
    assert_eq!(to_pascal_case("__x__"), "X");
    assert_eq!(to_pascal_case(""), "");
}

#[test]
fn pascal_case_takes_the_first_character_of_an_uppercase_mapping() {
    // The uppercase mapping of U+00DF is "SS".
    assert_eq!(to_pascal_case("ßeta"), "Seta");
}

#[test]
fn module_name_is_lowercase_with_underscores() {
    assert_eq!(to_module_name("Pet Store API"), "pet_store_api");
    assert_eq!(to_module_name("  My-API!  "), "my_api");
    assert_eq!(to_module_name("v1.2"), "v1_2");
    assert_eq!(to_module_name("___"), "");
    assert_eq!(to_module_name(""), "");
    assert_eq!(to_module_name("Öl"), "öl");
}

#[test]
fn snake_case_is_idempotent_on_identifiers() {
    for input in ["petName", "pet-name", "type", "HTTPServer", "a b-c", "x_y", "", "Δelta"] {
        let once = to_snake_case(input);
        assert_eq!(to_snake_case(&once), once, "input {input:?}");
    }
}

#[test]
fn pascal_case_is_idempotent_on_identifiers() {
    for input in ["pet_store", "pet-store api", "camelCase", "", "ßeta", "_a_"] {
        let once = to_pascal_case(input);
        assert_eq!(to_pascal_case(&once), once, "input {input:?}");
    }
}

#[test]
fn snake_case_is_not_idempotent_where_an_uppercase_letter_has_no_lowercase() {
    // U+1D400 is an uppercase letter that is its own lowercase mapping.
    let once = to_snake_case("A\u{1D400}");
    assert_eq!(once, "a\u{1D400}");
    assert_eq!(to_snake_case(&once), "a_\u{1D400}");
}

#[test]
fn a_snake_step_writes_what_the_character_contributes() {
    let mut out = String::from("pet");
    // An uppercase letter behind a lowercase one starts a word.
    assert!(!snake_step(&mut out, true, 'N', true, false, 'n'));
    assert_eq!(out, "pet_n");
    // A lowercase letter stays and is remembered.
    assert!(snake_step(&mut out, false, 'a', false, true, 'a'));
    assert_eq!(out, "pet_na");
    // An uppercase letter behind anything else starts no word.
    let mut out = String::from("A");
    assert!(!snake_step(&mut out, false, 'B', true, false, 'b'));
    assert_eq!(out, "Ab");
    // A hyphen and a space become underscores.
    assert!(!snake_step(&mut out, true, '-', false, false, '-'));
    assert!(!snake_step(&mut out, false, ' ', false, false, ' '));
    assert_eq!(out, "Ab__");
    // Anything else stays; whether it is lowercase is handed on.
    assert!(!snake_step(&mut out, false, '7', false, false, '7'));
    assert!(!snake_step(&mut out, true, '_', false, false, '_'));
    assert_eq!(out, "Ab__7_");
}

#[test]
fn a_snake_step_goes_by_the_answers_it_is_given() {
    // The character is written as the answers say, whatever it is.
    let mut out = String::new();
    assert!(!snake_step(&mut out, true, 'x', true, true, 'Q'));
    assert_eq!(out, "_Q");
    let mut out = String::new();
    assert!(!snake_step(&mut out, false, 'X', false, false, 'x'));
    assert_eq!(out, "X");
}

#[test]
fn a_pascal_step_writes_what_the_character_contributes() {
    let mut out = String::new();
    assert!(!pascal_step(&mut out, true, 'p', 'P'));
    assert!(!pascal_step(&mut out, false, 'e', 'E'));
    assert_eq!(out, "Pe");
    for separator in ['_', '-', ' '] {
        assert!(pascal_step(&mut out, false, separator, separator));
        assert!(pascal_step(&mut out, true, separator, separator));
    }
    assert_eq!(out, "Pe");
    assert!(!pascal_step(&mut out, true, 's', 'S'));
    assert_eq!(out, "PeS");
    // The character is written as the answer says, whatever it is.
    assert!(!pascal_step(&mut out, true, 'x', 'q'));
    assert_eq!(out, "PeSq");
}

#[test]
fn a_character_is_masked_unless_it_is_alphanumeric() {
    assert_eq!(mask_char('a', true), 'a');
    assert_eq!(mask_char('!', false), '_');
    assert_eq!(mask_char('a', false), '_');
    assert_eq!(mask_char('!', true), '!');
}

#[test]
fn trim_removes_the_character_at_both_ends_only() {
    let chars = |s: &str| s.chars().collect::<Vec<char>>();
    assert_eq!(trim(&chars("__a_b__"), '_'), "a_b");
    assert_eq!(trim(&chars("a_b"), '_'), "a_b");
    assert_eq!(trim(&chars("____"), '_'), "");
    assert_eq!(trim(&chars(""), '_'), "");
    assert_eq!(trim(&chars("_a"), '_'), "a");
    assert_eq!(trim(&chars("a_"), '_'), "a");
    assert_eq!(trim(&chars("xxaxx"), 'x'), "a");
    assert_eq!(trim(&chars("__a__"), 'x'), "__a__");
}

#[test]
fn the_tables_say_of_ascii_what_ascii_says() {
    assert!(tables_agree());
}

#[test]
fn answers_are_held_against_ascii() {
    assert!(same_as_ascii('A', true, false, true, 'a', 'A'));
    assert!(same_as_ascii('z', false, true, true, 'z', 'Z'));
    assert!(same_as_ascii('7', false, false, true, '7', '7'));
    assert!(same_as_ascii('_', false, false, false, '_', '_'));
    assert!(!same_as_ascii('A', false, false, true, 'a', 'A'));
    assert!(!same_as_ascii('A', true, false, true, 'A', 'A'));
    assert!(!same_as_ascii('z', false, true, true, 'z', 'z'));
    assert!(!same_as_ascii('z', false, true, false, 'z', 'Z'));
    assert!(!same_as_ascii('-', false, true, false, '-', '-'));
    assert!(same_as_ascii('é', false, false, false, 'é', 'é'));
    assert!(!same_as_ascii('é', false, true, true, 'é', 'É'));
}

#[test]
fn case_mappings_give_their_first_character() {
    assert_eq!(lower_first('A'), 'a');
    assert_eq!(lower_first('a'), 'a');
    assert_eq!(upper_first('a'), 'A');
    assert_eq!(upper_first('ß'), 'S');
    assert_eq!(lower_first('\u{130}'), 'i');
}

#[test]
fn ascii_identifiers_are_normalized_once_and_for_all() {
    let inputs = [
        "petName", "PetName", "pet-name", "pet name", "HTTPServer", "type", "Type", "r#type",
        "in-progress", "InProgress", "a_b_c", "A-B C", "x1Y2", "__", "", "loop", "LOOP",
    ];
    for input in inputs {
        let snake = to_snake_case(input);
        assert_eq!(to_snake_case(&snake), snake, "input {input:?}");
        assert!(!snake.contains(|c: char| c.is_ascii_uppercase() || c == '-' || c == ' '));
        let pascal = to_pascal_case(input);
        assert_eq!(to_pascal_case(&pascal), pascal, "input {input:?}");
        assert!(!pascal.contains(|c: char| c == '_' || c == '-' || c == ' '));
    }
    assert_eq!(to_pascal_case("in-progress"), "InProgress");
    assert_eq!(to_pascal_case("InProgress"), "InProgress");
    assert_eq!(to_snake_case("pet_name_2"), "pet_name_2");
}
