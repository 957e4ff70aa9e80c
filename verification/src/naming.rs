//! Naming rules: how an identifier of the schema becomes an identifier of the
//! target language. Each rule is a function of the text alone.

use vstd::prelude::*;
use vstd::string::StringExecFns;

use crate::sequences::{
    concat, concat_upto, lemma_concat_upto_at_least, lemma_concat_upto_holds,
    lemma_concat_upto_one_each,
};
use crate::text::{chars_of, same_text, string_of};
use crate::unicode::{
    ascii_capital, first_lowercase, first_uppercase, in_ascii, is_alnum, is_ascii_capital,
    is_ascii_digit, is_ascii_small, is_lower, is_upper, lemma_ascii_answers, lower_first,
    lowercase_text, tables_agree_with_ascii, to_lowercase_text, upper_first,
};

verus! {

/// The words that the target language reserves and that an identifier
/// escapes.
pub open spec fn reserved_words() -> Seq<Seq<char>> {
    seq![
        "type"@,
        "self"@,
        "super"@,
        "crate"@,
        "mod"@,
        "fn"@,
        "let"@,
        "if"@,
        "else"@,
        "match"@,
        "loop"@,
        "while"@,
        "for"@,
        "in"@,
        "ref"@,
        "mut"@,
        "const"@,
        "static"@,
        "async"@,
        "await"@,
        "move"@,
        "return"@,
        "break"@,
        "continue"@,
    ]
}

/// Whether `s` is one of the reserved words.
pub open spec fn is_reserved(s: Seq<char>) -> bool {
    reserved_words().contains(s)
}

/// A reserved word gets the raw-identifier prefix; anything else stays.
pub open spec fn escaped(s: Seq<char>) -> Seq<char> {
    if is_reserved(s) {
        "r#"@ + s
    } else {
        s
    }
}

/// A character that stands for a word boundary in snake case.
pub open spec fn is_snake_separator(c: char) -> bool {
    c == '-' || c == ' '
}

/// Whether the character after `c` follows a lowercase letter, as the scan
/// for word boundaries sees it, where `upper` and `lower` tell whether `c` is
/// uppercase and lowercase.
pub open spec fn leaves_lowercase_given(c: char, upper: bool, lower: bool) -> bool {
    !upper && !is_snake_separator(c) && lower
}

/// What the character `c` contributes to a snake-case form, where `upper`
/// tells whether it is uppercase, `lowered` is the first character of its
/// lowercase mapping, and `after_lower` tells whether it follows a lowercase
/// letter: an uppercase letter becomes `lowered`, behind an underscore where
/// it follows a lowercase letter; a hyphen or a space becomes an underscore;
/// anything else stays.
pub open spec fn snake_piece_given(after_lower: bool, c: char, upper: bool, lowered: char) -> Seq<
    char,
> {
    if upper {
        if after_lower {
            seq!['_', lowered]
        } else {
            seq![lowered]
        }
    } else if is_snake_separator(c) {
        seq!['_']
    } else {
        seq![c]
    }
}

/// Whether the character after `c` follows a lowercase letter, as the scan
/// for word boundaries sees it.
pub open spec fn leaves_lowercase(c: char) -> bool {
    leaves_lowercase_given(c, is_upper(c), is_lower(c))
}

/// What the character at `i` contributes to the snake-case form of `s`.
pub open spec fn snake_piece(s: Seq<char>, i: int) -> Seq<char> {
    snake_piece_given(
        i > 0 && leaves_lowercase(s[i - 1]),
        s[i],
        is_upper(s[i]),
        first_lowercase(s[i]),
    )
}

/// The contributions of all characters of `s`.
pub open spec fn snake_pieces(s: Seq<char>) -> Seq<Seq<char>> {
    Seq::new(s.len(), |i: int| snake_piece(s, i))
}

/// `s` with its words set in lowercase and joined by underscores, before the
/// reserved words are escaped.
pub open spec fn snake_words(s: Seq<char>) -> Seq<char> {
    concat(snake_pieces(s))
}

/// The snake-case form of `s`.
pub open spec fn snake_case(s: Seq<char>) -> Seq<char> {
    escaped(snake_words(s))
}

/// A character that separates words in Pascal case.
pub open spec fn is_pascal_separator(c: char) -> bool {
    c == '_' || c == '-' || c == ' '
}

/// What the character `c` contributes to a Pascal-case form, where
/// `uppered` is the first character of its uppercase mapping and
/// `starts_word` tells whether a word starts with it: a separator goes, the
/// first character of a word becomes `uppered`, anything else stays.
pub open spec fn pascal_piece_given(starts_word: bool, c: char, uppered: char) -> Seq<char> {
    if is_pascal_separator(c) {
        Seq::empty()
    } else if starts_word {
        seq![uppered]
    } else {
        seq![c]
    }
}

/// What the character at `i` contributes to the Pascal-case form of `s`.
pub open spec fn pascal_piece(s: Seq<char>, i: int) -> Seq<char> {
    pascal_piece_given(i == 0 || is_pascal_separator(s[i - 1]), s[i], first_uppercase(s[i]))
}

/// The contributions of all characters of `s`.
pub open spec fn pascal_pieces(s: Seq<char>) -> Seq<Seq<char>> {
    Seq::new(s.len(), |i: int| pascal_piece(s, i))
}

/// The Pascal-case form of `s`.
pub open spec fn pascal_case(s: Seq<char>) -> Seq<char> {
    concat(pascal_pieces(s))
}

/// `s` without the `c`s at its start.
pub open spec fn trim_start(s: Seq<char>, c: char) -> Seq<char>
    decreases s.len(),
{
    if s.len() > 0 && s[0] == c {
        trim_start(s.drop_first(), c)
    } else {
        s
    }
}

/// `s` without the `c`s at its end.
pub open spec fn trim_end(s: Seq<char>, c: char) -> Seq<char>
    decreases s.len(),
{
    if s.len() > 0 && s.last() == c {
        trim_end(s.drop_last(), c)
    } else {
        s
    }
}

/// `s` without the `c`s at its start and at its end.
pub open spec fn trimmed(s: Seq<char>, c: char) -> Seq<char> {
    trim_end(trim_start(s, c), c)
}

/// What stands for the character `c` in a module name, where `alnum` tells
/// whether it is alphabetic or numeric: itself if it is, else an underscore.
pub open spec fn mask_given(c: char, alnum: bool) -> char {
    if alnum {
        c
    } else {
        '_'
    }
}

/// `s` with an underscore in place of each character that is neither
/// alphabetic nor numeric.
pub open spec fn masked(s: Seq<char>) -> Seq<char> {
    Seq::new(s.len(), |i: int| mask_given(s[i], is_alnum(s[i])))
}

/// The module name that the lowercase form `lower` of a title gives: with
/// underscores for what is neither alphabetic nor numeric, and no underscore
/// at either end.
pub open spec fn module_name_of(lower: Seq<char>) -> Seq<char> {
    trimmed(masked(lower), '_')
}

/// The module name for a title: in lowercase, with underscores for what is
/// neither alphabetic nor numeric, and no underscore at either end.
pub open spec fn module_name(title: Seq<char>) -> Seq<char> {
    module_name_of(lowercase_text(title))
}

/// Every character of `t` is one that the snake-case rule leaves alone: it
/// is no hyphen and no space, and where it is uppercase it is the first
/// character of its own lowercase mapping and does not follow a lowercase
/// letter.
pub open spec fn snake_stable(t: Seq<char>) -> bool {
    forall|i: int| 0 <= i < t.len() ==> #[trigger] snake_piece(t, i) == seq![t[i]]
}

/// Every character of `t` is one that the Pascal-case rule leaves alone: it
/// is no separator, and the first is the first character of its own uppercase
/// mapping.
pub open spec fn pascal_stable(t: Seq<char>) -> bool {
    forall|i: int| 0 <= i < t.len() ==> #[trigger] pascal_piece(t, i) == seq![t[i]]
}

/// The snake-case rule leaves the character at `i` alone exactly where it
/// is no hyphen and no space and, if it is uppercase, is the first character
/// of its own lowercase mapping and does not follow a lowercase letter.
pub proof fn lemma_snake_piece_stays(t: Seq<char>, i: int)
    requires
        0 <= i < t.len(),
    ensures
        snake_piece(t, i) == seq![t[i]] <==> if is_upper(t[i]) {
            first_lowercase(t[i]) == t[i] && !(i > 0 && leaves_lowercase(t[i - 1]))
        } else {
            !is_snake_separator(t[i])
        },
{
    let c = t[i];
    if is_upper(c) {
        if i > 0 && leaves_lowercase(t[i - 1]) {
            assert(snake_piece(t, i).len() == 2);
        } else {
            assert(snake_piece(t, i)[0] == first_lowercase(c));
        }
    } else if is_snake_separator(c) {
        assert(snake_piece(t, i)[0] == '_');
    }
}

/// The Pascal-case rule leaves the character at `i` alone exactly where it
/// is no separator and, if it starts a word, is the first character of its
/// own uppercase mapping.
pub proof fn lemma_pascal_piece_stays(t: Seq<char>, i: int)
    requires
        0 <= i < t.len(),
    ensures
        pascal_piece(t, i) == seq![t[i]] <==> !is_pascal_separator(t[i]) && ((i == 0
            || is_pascal_separator(t[i - 1])) ==> first_uppercase(t[i]) == t[i]),
{
    let c = t[i];
    if is_pascal_separator(c) {
        assert(pascal_piece(t, i).len() == 0);
    } else if i == 0 || is_pascal_separator(t[i - 1]) {
        assert(pascal_piece(t, i)[0] == first_uppercase(c));
    }
}

/// Pieces that are the characters of `t`, one each, make up `t`.
proof fn lemma_concat_of_singletons(parts: Seq<Seq<char>>, t: Seq<char>, n: int)
    requires
        0 <= n <= t.len(),
        parts.len() == t.len(),
        forall|i: int| 0 <= i < t.len() ==> parts[i] == seq![t[i]],
    ensures
        concat_upto(parts, n) == t.take(n),
    decreases n,
{
    if n > 0 {
        lemma_concat_of_singletons(parts, t, n - 1);
        assert(t.take(n - 1) + seq![t[n - 1]] =~= t.take(n));
    } else {
        assert(t.take(0) =~= Seq::<char>::empty());
    }
}

/// A text with the raw-identifier prefix is no reserved word.
pub proof fn lemma_prefixed_is_not_reserved(x: Seq<char>)
    ensures
        !is_reserved("r#"@ + x),
{
    reveal_strlit("r#");
    reveal_strlit("type");
    reveal_strlit("self");
    reveal_strlit("super");
    reveal_strlit("crate");
    reveal_strlit("mod");
    reveal_strlit("fn");
    reveal_strlit("let");
    reveal_strlit("if");
    reveal_strlit("else");
    reveal_strlit("match");
    reveal_strlit("loop");
    reveal_strlit("while");
    reveal_strlit("for");
    reveal_strlit("in");
    reveal_strlit("ref");
    reveal_strlit("mut");
    reveal_strlit("const");
    reveal_strlit("static");
    reveal_strlit("async");
    reveal_strlit("await");
    reveal_strlit("move");
    reveal_strlit("return");
    reveal_strlit("break");
    reveal_strlit("continue");
    let t = "r#"@ + x;
    assert(t[1] == '#');
    assert forall|i: int| 0 <= i < reserved_words().len() implies reserved_words()[i] != t by {
        assert(reserved_words()[i].len() >= 2);
        assert(reserved_words()[i][1] != '#');
    }
}

/// What escaping yields is never a reserved word.
pub proof fn lemma_escaped_is_not_reserved(x: Seq<char>)
    ensures
        !is_reserved(escaped(x)),
{
    lemma_prefixed_is_not_reserved(x);
}

/// The snake-case rule returns an identifier that is in snake-case form
/// already as it is, but for the escape of a reserved word.
pub proof fn lemma_snake_case_keeps_stable(t: Seq<char>)
    requires
        snake_stable(t),
    ensures
        snake_words(t) == t,
        snake_case(t) == escaped(t),
        !is_reserved(t) ==> snake_case(t) == t,
{
    lemma_concat_of_singletons(snake_pieces(t), t, t.len() as int);
    assert(t.take(t.len() as int) =~= t);
}

/// The snake-case rule is idempotent: applied to its own result, it returns
/// that result unchanged, wherever each character of the result is one that
/// the rule leaves alone.
pub proof fn lemma_snake_case_idempotent(s: Seq<char>)
    requires
        snake_stable(snake_case(s)),
    ensures
        snake_case(snake_case(s)) == snake_case(s),
{
    lemma_snake_case_keeps_stable(snake_case(s));
    lemma_escaped_is_not_reserved(snake_words(s));
}

/// Where the snake-case rule, applied to its own result, returns that
/// result unchanged, each character of the result is one that the rule
/// leaves alone.
pub proof fn lemma_snake_case_fixed_is_stable(s: Seq<char>)
    requires
        snake_case(snake_case(s)) == snake_case(s),
    ensures
        snake_stable(snake_case(s)),
{
    let t = snake_case(s);
    let pieces = snake_pieces(t);
    let words = snake_words(t);
    lemma_escaped_is_not_reserved(snake_words(s));
    lemma_concat_upto_at_least(pieces, t.len() as int);
    if is_reserved(words) {
        reveal_strlit("r#");
        assert(("r#"@ + words).len() == words.len() + 2);
    }
    assert(words == t);
    lemma_concat_upto_one_each(pieces, t.len() as int);
    assert forall|i: int| 0 <= i < t.len() implies #[trigger] snake_piece(t, i) == seq![t[i]] by {
        assert(pieces[i] == snake_piece(t, i));
        assert(pieces[i].len() == 1 && words[i] == pieces[i][0]);
        assert(snake_piece(t, i) =~= seq![t[i]]);
    }
}

/// The snake-case rule is idempotent on exactly those inputs whose result
/// holds only characters that the rule leaves alone.
pub proof fn lemma_snake_case_idempotent_exactly(s: Seq<char>)
    ensures
        snake_case(snake_case(s)) == snake_case(s) <==> snake_stable(snake_case(s)),
{
    if snake_stable(snake_case(s)) {
        lemma_snake_case_idempotent(s);
    }
    if snake_case(snake_case(s)) == snake_case(s) {
        lemma_snake_case_fixed_is_stable(s);
    }
}

/// The Pascal-case rule returns an identifier as it is exactly where each
/// of its characters is one that the rule leaves alone.
pub proof fn lemma_pascal_case_fixed_is_stable(t: Seq<char>)
    requires
        pascal_case(t) == t,
    ensures
        pascal_stable(t),
{
    let pieces = pascal_pieces(t);
    lemma_concat_upto_one_each(pieces, t.len() as int);
    assert forall|i: int| 0 <= i < t.len() implies #[trigger] pascal_piece(t, i) == seq![
        t[i],
    ] by {
        assert(pieces[i] == pascal_piece(t, i));
        assert(pieces[i].len() == 1 && pascal_case(t)[i] == pieces[i][0]);
        assert(pascal_piece(t, i) =~= seq![t[i]]);
    }
}

/// The Pascal-case rule is idempotent on exactly those inputs whose result
/// holds only characters that the rule leaves alone.
pub proof fn lemma_pascal_case_idempotent_exactly(s: Seq<char>)
    ensures
        pascal_case(pascal_case(s)) == pascal_case(s) <==> pascal_stable(pascal_case(s)),
{
    if pascal_stable(pascal_case(s)) {
        lemma_pascal_case_idempotent(s);
    }
    if pascal_case(pascal_case(s)) == pascal_case(s) {
        lemma_pascal_case_fixed_is_stable(pascal_case(s));
    }
}

/// The Pascal-case rule returns an identifier that is in Pascal-case form
/// already as it is.
pub proof fn lemma_pascal_case_keeps_stable(t: Seq<char>)
    requires
        pascal_stable(t),
    ensures
        pascal_case(t) == t,
{
    lemma_concat_of_singletons(pascal_pieces(t), t, t.len() as int);
    assert(t.take(t.len() as int) =~= t);
}

/// The Pascal-case rule is idempotent: applied to its own result, it returns
/// that result unchanged, wherever each character of the result is one that
/// the rule leaves alone.
pub proof fn lemma_pascal_case_idempotent(s: Seq<char>)
    requires
        pascal_stable(pascal_case(s)),
    ensures
        pascal_case(pascal_case(s)) == pascal_case(s),
{
    lemma_pascal_case_keeps_stable(pascal_case(s));
}

/// A text without uppercase letters, hyphens and spaces is in snake-case
/// form.
pub proof fn lemma_plain_text_is_snake_stable(t: Seq<char>)
    requires
        forall|i: int| 0 <= i < t.len() ==> !is_upper(#[trigger] t[i]) && !is_snake_separator(t[i]),
    ensures
        snake_stable(t),
{
}

/// Every character of `s` is an ASCII character.
pub open spec fn all_ascii(s: Seq<char>) -> bool {
    forall|i: int| 0 <= i < s.len() ==> in_ascii(#[trigger] s[i])
}

/// An ASCII character that the snake-case rule writes: no capital, no hyphen
/// and no space.
pub open spec fn is_snake_plain(c: char) -> bool {
    in_ascii(c) && !is_ascii_capital(c) && !is_snake_separator(c)
}

/// An ASCII character that the Pascal-case rule writes: no separator.
pub open spec fn is_pascal_plain(c: char) -> bool {
    in_ascii(c) && !is_pascal_separator(c)
}

/// Where the tables say of ASCII what ASCII says, the snake-case form of an
/// ASCII identifier holds ASCII characters only, and among them no capital,
/// no hyphen and no space.
pub proof fn lemma_snake_case_of_ascii_is_plain(s: Seq<char>)
    requires
        tables_agree_with_ascii(),
        all_ascii(s),
    ensures
        forall|k: int| 0 <= k < snake_case(s).len() ==> is_snake_plain(#[trigger] snake_case(s)[k]),
{
    let pieces = snake_pieces(s);
    let plain = |c: char| is_snake_plain(c);
    assert forall|i: int, j: int| 0 <= i < s.len() && 0 <= j < pieces[i].len() implies plain(
        #[trigger] pieces[i][j],
    ) by {
        lemma_ascii_answers(s[i]);
        assert(pieces[i] == snake_piece(s, i));
    }
    lemma_concat_upto_holds(pieces, s.len() as int, plain);
    let words = snake_words(s);
    assert forall|k: int| 0 <= k < words.len() implies is_snake_plain(#[trigger] words[k]) by {
        assert(plain(words[k]));
    }
    reveal_strlit("r#");
}

/// Where the tables say of ASCII what ASCII says, the snake-case rule is
/// idempotent on every ASCII identifier.
pub proof fn lemma_snake_case_idempotent_on_ascii(s: Seq<char>)
    requires
        tables_agree_with_ascii(),
        all_ascii(s),
    ensures
        snake_case(snake_case(s)) == snake_case(s),
{
    lemma_snake_case_of_ascii_is_plain(s);
    let t = snake_case(s);
    assert forall|i: int| 0 <= i < t.len() implies !is_upper(#[trigger] t[i])
        && !is_snake_separator(t[i]) by {
        assert(is_snake_plain(t[i]));
        lemma_ascii_answers(t[i]);
    }
    lemma_plain_text_is_snake_stable(t);
    lemma_snake_case_idempotent(s);
}

/// Where the tables say of ASCII what ASCII says, the snake-case rule
/// returns as it is an identifier that is made of small letters and digits
/// of ASCII and underscores and is no reserved word.
pub proof fn lemma_snake_case_keeps_normalized_ascii(s: Seq<char>)
    requires
        tables_agree_with_ascii(),
        forall|i: int|
            0 <= i < s.len() ==> is_ascii_small(#[trigger] s[i]) || is_ascii_digit(s[i]) || s[i]
                == '_',
        !is_reserved(s),
    ensures
        snake_case(s) == s,
{
    assert forall|i: int| 0 <= i < s.len() implies !is_upper(#[trigger] s[i])
        && !is_snake_separator(s[i]) by {
        lemma_ascii_answers(s[i]);
    }
    lemma_plain_text_is_snake_stable(s);
    lemma_snake_case_keeps_stable(s);
}

/// Where the tables say of ASCII what ASCII says, the Pascal-case rule
/// returns as it is an ASCII identifier that holds no separator and does not
/// start with a small letter.
pub proof fn lemma_pascal_case_keeps_normalized_ascii(s: Seq<char>)
    requires
        tables_agree_with_ascii(),
        forall|i: int| 0 <= i < s.len() ==> is_pascal_plain(#[trigger] s[i]),
        s.len() > 0 ==> !is_ascii_small(s[0]),
    ensures
        pascal_case(s) == s,
{
    assert forall|i: int| 0 <= i < s.len() implies #[trigger] pascal_piece(s, i) == seq![
        s[i],
    ] by {
        assert(is_pascal_plain(s[i]));
        lemma_ascii_answers(s[i]);
        if i > 0 {
            assert(is_pascal_plain(s[i - 1]));
        }
    }
    lemma_pascal_case_keeps_stable(s);
}

/// Where the tables say of ASCII what ASCII says, what the Pascal-case rule
/// has written after `n` characters of an ASCII identifier does not start
/// with a small letter; and it has written nothing only where all of them
/// are separators.
proof fn lemma_pascal_case_starts_capitalized(s: Seq<char>, n: int)
    requires
        tables_agree_with_ascii(),
        all_ascii(s),
        0 <= n <= s.len(),
    ensures
        concat_upto(pascal_pieces(s), n).len() == 0 ==> forall|j: int|
            0 <= j < n ==> is_pascal_separator(#[trigger] s[j]),
        concat_upto(pascal_pieces(s), n).len() > 0 ==> !is_ascii_small(
            concat_upto(pascal_pieces(s), n)[0],
        ),
    decreases n,
{
    if n > 0 {
        lemma_pascal_case_starts_capitalized(s, n - 1);
        let before = concat_upto(pascal_pieces(s), n - 1);
        let piece = pascal_pieces(s)[n - 1];
        assert(piece == pascal_piece(s, n - 1));
        lemma_ascii_answers(s[n - 1]);
        if before.len() > 0 {
            assert(concat_upto(pascal_pieces(s), n)[0] == before[0]);
        } else if !is_pascal_separator(s[n - 1]) {
            if n - 1 > 0 {
                assert(is_pascal_separator(s[n - 2]));
            }
            assert(piece =~= seq![ascii_capital(s[n - 1])]);
            assert(concat_upto(pascal_pieces(s), n)[0] == piece[0]);
        }
    }
}

/// Where the tables say of ASCII what ASCII says, the Pascal-case form of an
/// ASCII identifier holds ASCII characters only, among them no separator,
/// and does not start with a small letter.
pub proof fn lemma_pascal_case_of_ascii_is_plain(s: Seq<char>)
    requires
        tables_agree_with_ascii(),
        all_ascii(s),
    ensures
        forall|k: int|
            0 <= k < pascal_case(s).len() ==> is_pascal_plain(#[trigger] pascal_case(s)[k]),
        pascal_case(s).len() > 0 ==> !is_ascii_small(pascal_case(s)[0]),
{
    let pieces = pascal_pieces(s);
    let plain = |c: char| is_pascal_plain(c);
    assert forall|i: int, j: int| 0 <= i < s.len() && 0 <= j < pieces[i].len() implies plain(
        #[trigger] pieces[i][j],
    ) by {
        lemma_ascii_answers(s[i]);
        assert(pieces[i] == pascal_piece(s, i));
    }
    lemma_concat_upto_holds(pieces, s.len() as int, plain);
    let t = pascal_case(s);
    assert forall|k: int| 0 <= k < t.len() implies is_pascal_plain(#[trigger] t[k]) by {
        assert(plain(t[k]));
    }
    lemma_pascal_case_starts_capitalized(s, s.len() as int);
}

/// Where the tables say of ASCII what ASCII says, the Pascal-case rule is
/// idempotent on every ASCII identifier.
pub proof fn lemma_pascal_case_idempotent_on_ascii(s: Seq<char>)
    requires
        tables_agree_with_ascii(),
        all_ascii(s),
    ensures
        pascal_case(pascal_case(s)) == pascal_case(s),
{
    lemma_pascal_case_of_ascii_is_plain(s);
    lemma_pascal_case_keeps_normalized_ascii(pascal_case(s));
}

/// The reserved words, for lookup.
fn reserved_list() -> (words: Vec<&'static str>)
    ensures
        words@.len() == reserved_words().len(),
        forall|i: int| 0 <= i < words@.len() ==> (#[trigger] words@[i])@ == reserved_words()[i],
{
    vec![
        "type", "self", "super", "crate", "mod", "fn", "let", "if", "else", "match", "loop",
        "while", "for", "in", "ref", "mut", "const", "static", "async", "await", "move", "return",
        "break", "continue",
    ]
}

/// Escapes `s` where it is a reserved word.
pub fn escape_reserved(s: String) -> (r: String)
    ensures
        r@ == escaped(s@),
{
    let words = reserved_list();
    let mut i: usize = 0;
    while i < words.len()
        invariant
            i <= words.len(),
            words@.len() == reserved_words().len(),
            forall|j: int| 0 <= j < words@.len() ==> (#[trigger] words@[j])@ == reserved_words()[j],
            forall|j: int| 0 <= j < i ==> reserved_words()[j] != s@,
        decreases words.len() - i,
    {
        if same_text(s.as_str(), words[i]) {
            assert(reserved_words()[i as int] == s@);
            let mut r = String::from_str("r#");
            r.append(s.as_str());
            return r;
        }
        i += 1;
    }
    s
}

/// Writes what the character `c` contributes to a snake-case form, and
/// tells whether the next character follows a lowercase letter. `upper` and
/// `lower` tell whether `c` is uppercase and lowercase, `lowered` is the first
/// character of its lowercase mapping, and `after_lower` tells whether `c`
/// follows a lowercase letter.
pub fn snake_step(
    out: &mut String,
    after_lower: bool,
    c: char,
    upper: bool,
    lower: bool,
    lowered: char,
) -> (next: bool)
    ensures
        final(out)@ == old(out)@ + snake_piece_given(after_lower, c, upper, lowered),
        next == leaves_lowercase_given(c, upper, lower),
{
    if upper {
        if after_lower {
            out.push('_');
        }
        out.push(lowered);
        assert(out@ =~= old(out)@ + snake_piece_given(after_lower, c, upper, lowered));
        false
    } else if c == '-' || c == ' ' {
        out.push('_');
        assert(out@ =~= old(out)@ + snake_piece_given(after_lower, c, upper, lowered));
        false
    } else {
        out.push(c);
        assert(out@ =~= old(out)@ + snake_piece_given(after_lower, c, upper, lowered));
        lower
    }
}

/// The snake-case form of an identifier, with reserved words escaped.
///
/// Where the tables say of ASCII what ASCII says, which `tables_agree`
/// tells, the form of an ASCII identifier is one that the rule returns as it
/// is.
pub fn to_snake_case(s: &str) -> (r: String)
    ensures
        r@ == snake_case(s@),
        tables_agree_with_ascii() && all_ascii(s@) ==> snake_case(r@) == r@,
{
    proof {
        if tables_agree_with_ascii() && all_ascii(s@) {
            lemma_snake_case_idempotent_on_ascii(s@);
        }
    }
    let mut result = String::new();
    let mut prev_lower = false;
    for c in it: s.chars()
        invariant
            it.seq() == s@,
            result@ == concat_upto(snake_pieces(s@), it.index() as int),
            prev_lower == (it.index() > 0 && leaves_lowercase(s@[it.index() - 1])),
    {
        let upper = c.is_uppercase();
        let lower = c.is_lowercase();
        prev_lower = snake_step(&mut result, prev_lower, c, upper, lower, lower_first(c));
    }
    escape_reserved(result)
}

/// Writes what the character `c` contributes to a Pascal-case form, and
/// tells whether a word starts with the next character. `uppered` is the
/// first character of the uppercase mapping of `c`, and `starts_word` tells
/// whether a word starts with `c`.
pub fn pascal_step(out: &mut String, starts_word: bool, c: char, uppered: char) -> (next: bool)
    ensures
        final(out)@ == old(out)@ + pascal_piece_given(starts_word, c, uppered),
        next == is_pascal_separator(c),
{
    if c == '_' || c == '-' || c == ' ' {
        assert(out@ =~= old(out)@ + pascal_piece_given(starts_word, c, uppered));
        true
    } else if starts_word {
        out.push(uppered);
        assert(out@ =~= old(out)@ + pascal_piece_given(starts_word, c, uppered));
        false
    } else {
        out.push(c);
        assert(out@ =~= old(out)@ + pascal_piece_given(starts_word, c, uppered));
        false
    }
}

/// The Pascal-case form of an identifier.
///
/// Where the tables say of ASCII what ASCII says, which `tables_agree`
/// tells, the form of an ASCII identifier is one that the rule returns as it
/// is.
pub fn to_pascal_case(s: &str) -> (r: String)
    ensures
        r@ == pascal_case(s@),
        tables_agree_with_ascii() && all_ascii(s@) ==> pascal_case(r@) == r@,
{
    proof {
        if tables_agree_with_ascii() && all_ascii(s@) {
            lemma_pascal_case_idempotent_on_ascii(s@);
        }
    }
    let mut result = String::new();
    let mut capitalize_next = true;
    for c in it: s.chars()
        invariant
            it.seq() == s@,
            result@ == concat_upto(pascal_pieces(s@), it.index() as int),
            capitalize_next == (it.index() == 0 || is_pascal_separator(s@[it.index() - 1])),
    {
        capitalize_next = pascal_step(&mut result, capitalize_next, c, upper_first(c));
    }
    result
}

/// What stands for the character `c` in a module name, where `alnum` tells
/// whether it is alphabetic or numeric.
pub fn mask_char(c: char, alnum: bool) -> (r: char)
    ensures
        r == mask_given(c, alnum),
{
    if alnum {
        c
    } else {
        '_'
    }
}

/// The text of `v` without the `c`s at its start and at its end.
pub fn trim(v: &Vec<char>, c: char) -> (r: String)
    ensures
        r@ == trimmed(v@, c),
{
    let mut start: usize = 0;
    assert(v@.skip(0) =~= v@);
    while start < v.len() && v[start] == c
        invariant
            start <= v.len(),
            trim_start(v@, c) == trim_start(v@.skip(start as int), c),
        decreases v.len() - start,
    {
        assert(v@.skip(start as int).drop_first() =~= v@.skip(start + 1));
        start += 1;
    }
    assert(trim_start(v@, c) == v@.skip(start as int));
    let mut end: usize = v.len();
    while end > start && v[end - 1] == c
        invariant
            start <= end <= v.len(),
            trim_end(v@.skip(start as int), c) == trim_end(
                v@.subrange(start as int, end as int),
                c,
            ),
        decreases end,
    {
        assert(v@.subrange(start as int, end as int).drop_last() =~= v@.subrange(
            start as int,
            end - 1,
        ));
        end -= 1;
    }
    string_of(v, start, end)
}

/// The name of the module that stands for a document with this title.
pub fn to_module_name(title: &str) -> (r: String)
    ensures
        r@ == module_name(title@),
{
    let lower = to_lowercase_text(title);
    let mut v = chars_of(lower.as_str());
    let mut i: usize = 0;
    while i < v.len()
        invariant
            i <= v.len(),
            v@.len() == lower@.len(),
            forall|j: int| 0 <= j < i ==> v@[j] == masked(lower@)[j],
            forall|j: int| i <= j < v@.len() ==> v@[j] == lower@[j],
        decreases v.len() - i,
    {
        let c = v[i];
        v.set(i, mask_char(c, c.is_alphanumeric()));
        i += 1;
    }
    assert(v@ =~= masked(lower@));
    trim(&v, '_')
}

} // verus!
