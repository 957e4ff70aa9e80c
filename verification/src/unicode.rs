//! What the standard library knows of characters: the Unicode properties and
//! case mappings that the naming rules consult. Their tables have no short
//! statement, so each result only has a name here.

use vstd::prelude::*;

verus! {

/// Whether `c` has the Unicode property `Uppercase`, as `char::is_uppercase`
/// tells it.
pub uninterp spec fn is_upper(c: char) -> bool;

/// Whether `c` has the Unicode property `Lowercase`, as `char::is_lowercase`
/// tells it.
pub uninterp spec fn is_lower(c: char) -> bool;

/// Whether `c` is alphabetic or numeric, as `char::is_alphanumeric` tells it.
pub uninterp spec fn is_alnum(c: char) -> bool;

/// The lowercase mapping of `c`, as `char::to_lowercase` yields it.
pub uninterp spec fn lowercase(c: char) -> Seq<char>;

/// The uppercase mapping of `c`, as `char::to_uppercase` yields it.
pub uninterp spec fn uppercase(c: char) -> Seq<char>;

/// The lowercase form of a text, as `str::to_lowercase` returns it.
pub uninterp spec fn lowercase_text(s: Seq<char>) -> Seq<char>;

/// What an iterator over a lowercase mapping has yet to yield.
pub uninterp spec fn lowercase_rest(it: core::char::ToLowercase) -> Seq<char>;

/// What an iterator over an uppercase mapping has yet to yield.
pub uninterp spec fn uppercase_rest(it: core::char::ToUppercase) -> Seq<char>;

#[verifier::external_type_specification]
#[verifier::external_body]
pub struct ExToLowercase(core::char::ToLowercase);

#[verifier::external_type_specification]
#[verifier::external_body]
pub struct ExToUppercase(core::char::ToUppercase);

/// `char::is_uppercase` decides the property `Uppercase`.
pub assume_specification[ char::is_uppercase ](c: char) -> (r: bool)
    ensures
        r == is_upper(c),
;

/// `char::is_lowercase` decides the property `Lowercase`.
pub assume_specification[ char::is_lowercase ](c: char) -> (r: bool)
    ensures
        r == is_lower(c),
;

/// `char::is_alphanumeric` decides whether a character is alphabetic or
/// numeric.
pub assume_specification[ char::is_alphanumeric ](c: char) -> (r: bool)
    ensures
        r == is_alnum(c),
;

/// `char::to_lowercase` yields the lowercase mapping, which is one or more
/// characters long.
pub assume_specification[ char::to_lowercase ](c: char) -> (it: core::char::ToLowercase)
    ensures
        lowercase_rest(it) == lowercase(c),
        lowercase_rest(it).len() >= 1,
;

/// `char::to_uppercase` yields the uppercase mapping, which is one or more
/// characters long.
pub assume_specification[ char::to_uppercase ](c: char) -> (it: core::char::ToUppercase)
    ensures
        uppercase_rest(it) == uppercase(c),
        uppercase_rest(it).len() >= 1,
;

/// `Iterator::next` on a lowercase mapping hands out its next character, or
/// `None` when none is left.
#[verifier::external_body]
pub(crate) fn next_lowercase(it: &mut core::char::ToLowercase) -> (r: Option<char>)
    ensures
        match r {
            Some(c) => lowercase_rest(*old(it)).len() > 0 && c == lowercase_rest(*old(it))[0]
                && lowercase_rest(*final(it)) == lowercase_rest(*old(it)).drop_first(),
            None => lowercase_rest(*old(it)).len() == 0 && lowercase_rest(*final(it)).len() == 0,
        },
{
    it.next()
}

/// `Iterator::next` on an uppercase mapping hands out its next character, or
/// `None` when none is left.
#[verifier::external_body]
pub(crate) fn next_uppercase(it: &mut core::char::ToUppercase) -> (r: Option<char>)
    ensures
        match r {
            Some(c) => uppercase_rest(*old(it)).len() > 0 && c == uppercase_rest(*old(it))[0]
                && uppercase_rest(*final(it)) == uppercase_rest(*old(it)).drop_first(),
            None => uppercase_rest(*old(it)).len() == 0 && uppercase_rest(*final(it)).len() == 0,
        },
{
    it.next()
}

/// `str::to_lowercase` returns the lowercase form of a text.
#[verifier::external_body]
pub(crate) fn to_lowercase_text(s: &str) -> (r: String)
    ensures
        r@ == lowercase_text(s@),
{
    s.to_lowercase()
}

/// The first character of the lowercase mapping of `c`.
pub open spec fn first_lowercase(c: char) -> char {
    lowercase(c)[0]
}

/// The first character of the uppercase mapping of `c`.
pub open spec fn first_uppercase(c: char) -> char {
    uppercase(c)[0]
}

/// The first character of the lowercase mapping of `c`.
pub fn lower_first(c: char) -> (r: char)
    ensures
        r == first_lowercase(c),
{
    let mut it = c.to_lowercase();
    match next_lowercase(&mut it) {
        Some(l) => l,
        None => c,
    }
}

/// The first character of the uppercase mapping of `c`.
pub fn upper_first(c: char) -> (r: char)
    ensures
        r == first_uppercase(c),
{
    let mut it = c.to_uppercase();
    match next_uppercase(&mut it) {
        Some(u) => u,
        None => c,
    }
}

/// Whether `c` is an ASCII character.
pub open spec fn in_ascii(c: char) -> bool {
    (c as u32) < 128
}

/// Whether `c` is one of the letters `A` to `Z`.
pub open spec fn is_ascii_capital(c: char) -> bool {
    'A' <= c <= 'Z'
}

/// Whether `c` is one of the letters `a` to `z`.
pub open spec fn is_ascii_small(c: char) -> bool {
    'a' <= c <= 'z'
}

/// Whether `c` is one of the digits `0` to `9`.
pub open spec fn is_ascii_digit(c: char) -> bool {
    '0' <= c <= '9'
}

/// The small letter for a capital of ASCII; any other character itself.
pub open spec fn ascii_small(c: char) -> char {
    if is_ascii_capital(c) {
        ((c as u32) + 32) as char
    } else {
        c
    }
}

/// The capital for a small letter of ASCII; any other character itself.
pub open spec fn ascii_capital(c: char) -> char {
    if is_ascii_small(c) {
        ((c as u32) - 32) as char
    } else {
        c
    }
}

/// Whether what is said of `c` is what ASCII says of it: `upper`, `lower`
/// and `alnum` tell whether it is a capital, a small letter, and a letter or
/// a digit, and `lowered` and `uppered` are its small letter and its capital.
pub open spec fn answers_as_ascii(
    c: char,
    upper: bool,
    lower: bool,
    alnum: bool,
    lowered: char,
    uppered: char,
) -> bool {
    &&& upper == is_ascii_capital(c)
    &&& lower == is_ascii_small(c)
    &&& alnum == (is_ascii_capital(c) || is_ascii_small(c) || is_ascii_digit(c))
    &&& lowered == ascii_small(c)
    &&& uppered == ascii_capital(c)
}

/// Whether the tables say of `c` what ASCII says of it.
pub open spec fn agrees_with_ascii(c: char) -> bool {
    answers_as_ascii(
        c,
        is_upper(c),
        is_lower(c),
        is_alnum(c),
        first_lowercase(c),
        first_uppercase(c),
    )
}

/// Whether the tables say of every ASCII character what ASCII says of it.
pub open spec fn tables_agree_with_ascii() -> bool {
    forall|c: char| in_ascii(c) ==> #[trigger] agrees_with_ascii(c)
}

/// Where the tables say of ASCII what ASCII says, they say it of `c`.
pub proof fn lemma_ascii_answers(c: char)
    requires
        tables_agree_with_ascii(),
        in_ascii(c),
    ensures
        is_upper(c) == is_ascii_capital(c),
        is_lower(c) == is_ascii_small(c),
        is_alnum(c) == (is_ascii_capital(c) || is_ascii_small(c) || is_ascii_digit(c)),
        first_lowercase(c) == ascii_small(c),
        first_uppercase(c) == ascii_capital(c),
        in_ascii(ascii_small(c)),
        in_ascii(ascii_capital(c)),
        !is_ascii_capital(ascii_small(c)),
        !is_ascii_small(ascii_capital(c)),
{
    assert(agrees_with_ascii(c));
}

/// Whether what is said of `c` is what ASCII says of it.
pub fn same_as_ascii(
    c: char,
    upper: bool,
    lower: bool,
    alnum: bool,
    lowered: char,
    uppered: char,
) -> (r: bool)
    ensures
        r == answers_as_ascii(c, upper, lower, alnum, lowered, uppered),
{
    let capital = 'A' <= c && c <= 'Z';
    let small = 'a' <= c && c <= 'z';
    let digit = '0' <= c && c <= '9';
    let expected_lowered = if capital {
        ((c as u8) + 32) as char
    } else {
        c
    };
    let expected_uppered = if small {
        ((c as u8) - 32) as char
    } else {
        c
    };
    upper == capital && lower == small && alnum == (capital || small || digit) && lowered
        == expected_lowered && uppered == expected_uppered
}

/// Whether the tables of the standard library say of every ASCII character
/// what ASCII says of it.
pub fn tables_agree() -> (ok: bool)
    ensures
        ok == tables_agree_with_ascii(),
{
    let mut code: u8 = 0;
    while code < 128
        invariant
            code <= 128,
            forall|c: char| (c as u32) < code ==> #[trigger] agrees_with_ascii(c),
        decreases 128 - code,
    {
        let c = code as char;
        let same = same_as_ascii(
            c,
            c.is_uppercase(),
            c.is_lowercase(),
            c.is_alphanumeric(),
            lower_first(c),
            upper_first(c),
        );
        if !same {
            assert(in_ascii(c) && !agrees_with_ascii(c));
            return false;
        }
        code += 1;
    }
    true
}

} // verus!
