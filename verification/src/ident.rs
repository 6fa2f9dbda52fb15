//! Identifiers of the generated code: how the names of a schema become the
//! names of Rust items.

use vstd::prelude::*;
use vstd::string::*;
use vstd::utf8::is_ascii_chars;

verus! {

/// The snake-cased form of a text, as `string_morph::to_snake_case` gives it.
pub uninterp spec fn snake_case_of(text: Seq<char>) -> Seq<char>;

/// The Pascal-cased form of a text, as `string_morph::to_pascal_case` gives
/// it.
pub uninterp spec fn pascal_case_of(text: Seq<char>) -> Seq<char>;

/// Whether a text is one Rust identifier, raw or not, that is no keyword, as
/// `syn::parse_str::<proc_macro2::Ident>` decides it.
pub uninterp spec fn parses_as_ident(text: Seq<char>) -> bool;

/// Calls `string_morph::to_snake_case`.
///
/// The result is named by [`snake_case_of`]. Every character that the
/// conversion puts out is an input character with its ASCII case changed, or
/// the separator `_`, so ASCII text stays ASCII. Text that is not ASCII is
/// left out: on it the conversion reads past the end of its character table.
#[verifier::external_body]
fn to_snake_case(text: &str) -> (r: String)
    requires
        is_ascii_chars(text@),
    ensures
        r@ == snake_case_of(text@),
        is_ascii_chars(r@),
{
    string_morph::to_snake_case(text)
}

/// Calls `string_morph::to_pascal_case`.
///
/// The result is named by [`pascal_case_of`]. Every character that the
/// conversion puts out is an input character with its ASCII case changed, so
/// ASCII text stays ASCII. Text that is not ASCII is left out: on it the
/// conversion reads past the end of its character table.
#[verifier::external_body]
fn to_pascal_case(text: &str) -> (r: String)
    requires
        is_ascii_chars(text@),
    ensures
        r@ == pascal_case_of(text@),
        is_ascii_chars(r@),
{
    string_morph::to_pascal_case(text)
}

/// Calls `syn::parse_str` for a `proc_macro2::Ident` and says whether it
/// succeeded. The answer is named by [`parses_as_ident`].
#[verifier::external_body]
fn is_ident(text: &str) -> (r: bool)
    ensures
        r == parses_as_ident(text@),
{
    syn::parse_str::<proc_macro2::Ident>(text).is_ok()
}

/// The characters of a text that may be missing.
pub open spec fn text_of(text: Option<String>) -> Option<Seq<char>> {
    match text {
        Some(t) => Some(t@),
        None => None,
    }
}

/// Whether a character may start a plain identifier: an ASCII letter or the
/// underscore.
pub open spec fn starts_ident(c: char) -> bool {
    c == '_' || ('a' <= c && c <= 'z') || ('A' <= c && c <= 'Z')
}

/// Whether a character may go on a plain identifier: an ASCII letter, an
/// ASCII digit or the underscore.
pub open spec fn continues_ident(c: char) -> bool {
    starts_ident(c) || ('0' <= c && c <= '9')
}

/// Whether a text is a plain ASCII identifier: not empty, a start character
/// first, and nothing but characters that go on an identifier after it.
pub open spec fn plain_ident(text: Seq<char>) -> bool {
    &&& text.len() > 0
    &&& starts_ident(text[0])
    &&& forall|i: int| 1 <= i < text.len() ==> continues_ident(#[trigger] text[i])
}

/// Tests whether a text is a plain ASCII identifier.
pub fn is_plain_ident(text: &str) -> (r: bool)
    ensures
        r == plain_ident(text@),
{
    let n = text.unicode_len();
    if n == 0 {
        return false;
    }
    let first = text.get_char(0);
    if !(first == '_' || ('a' <= first && first <= 'z') || ('A' <= first && first <= 'Z')) {
        return false;
    }
    let mut i: usize = 1;
    while i < n
        invariant
            1 <= i <= n,
            n == text@.len(),
            forall|j: int| 1 <= j < i ==> continues_ident(#[trigger] text@[j]),
        decreases n - i,
    {
        let c = text.get_char(i);
        if !(c == '_' || ('a' <= c && c <= 'z') || ('A' <= c && c <= 'Z') || ('0' <= c && c
            <= '9')) {
            return false;
        }
        i += 1;
    }
    true
}

/// The raw form of an identifier: the identifier behind `r#`.
pub open spec fn raw_form(ident: Seq<char>) -> Seq<char> {
    "r#"@ + ident
}

/// Writes the raw form of an identifier.
pub fn to_raw_form(ident: &str) -> (r: String)
    ensures
        r@ == raw_form(ident@),
{
    let mut out = String::from_str("r#");
    out.append(ident);
    out
}

/// The identifier for a snake-cased name, given what the parser says of the
/// name and of its raw form: the name where it is an identifier, else its
/// raw form where that is one, else none.
pub open spec fn picked(snake: Seq<char>, plain_ok: bool, raw_ok: bool) -> Option<Seq<char>> {
    if plain_ok {
        Some(snake)
    } else if raw_ok {
        Some(raw_form(snake))
    } else {
        None
    }
}

/// Picks the identifier for a snake-cased name, given what the parser says
/// of the name and of its raw form.
pub fn pick_ident(snake: String, raw: String, plain_ok: bool, raw_ok: bool) -> (r: Option<String>)
    requires
        raw@ == raw_form(snake@),
    ensures
        text_of(r) == picked(snake@, plain_ok, raw_ok),
{
    if plain_ok {
        Some(snake)
    } else if raw_ok {
        Some(raw)
    } else {
        None
    }
}

/// The identifier of a field, an argument or a directive: the snake-cased
/// name where the parser takes it as an identifier, else its raw form where
/// the parser takes that. A name that is not ASCII has none.
pub open spec fn item_ident_of(name: Seq<char>) -> Option<Seq<char>> {
    if is_ascii_chars(name) {
        picked(
            snake_case_of(name),
            parses_as_ident(snake_case_of(name)),
            parses_as_ident(raw_form(snake_case_of(name))),
        )
    } else {
        None
    }
}

/// The identifier of a field, an argument or a directive.
pub fn item_ident(name: &str) -> (r: Option<String>)
    ensures
        text_of(r) == item_ident_of(name@),
{
    if !name.is_ascii() {
        return None;
    }
    let snake = to_snake_case(name);
    let raw = to_raw_form(snake.as_str());
    let plain_ok = is_ident(snake.as_str());
    let raw_ok = is_ident(raw.as_str());
    pick_ident(snake, raw, plain_ok, raw_ok)
}

/// A cased name as an identifier: the name where it is a plain identifier,
/// none where it is not.
pub fn as_plain_ident(cased: String) -> (r: Option<String>)
    ensures
        plain_ident(cased@) ==> r == Some(cased),
        !plain_ident(cased@) ==> r is None,
{
    if is_plain_ident(cased.as_str()) {
        Some(cased)
    } else {
        None
    }
}

/// The identifier of a type: the Pascal-cased name where that is a plain
/// identifier. A name that is not ASCII has none.
pub open spec fn type_ident_of(name: Seq<char>) -> Option<Seq<char>> {
    if is_ascii_chars(name) && plain_ident(pascal_case_of(name)) {
        Some(pascal_case_of(name))
    } else {
        None
    }
}

/// The identifier of a type.
pub fn type_ident(name: &str) -> (r: Option<String>)
    ensures
        text_of(r) == type_ident_of(name@),
{
    if !name.is_ascii() {
        return None;
    }
    as_plain_ident(to_pascal_case(name))
}

/// The identifier of a type whose name is brought to one spelling first:
/// the Pascal-cased form of the snake-cased name, where that is a plain
/// identifier. A name that is not ASCII has none.
pub open spec fn normal_ident_of(name: Seq<char>) -> Option<Seq<char>> {
    if is_ascii_chars(name) && plain_ident(pascal_case_of(snake_case_of(name))) {
        Some(pascal_case_of(snake_case_of(name)))
    } else {
        None
    }
}

/// The identifier of a type whose name is brought to one spelling first.
pub fn normal_ident(name: &str) -> (r: Option<String>)
    ensures
        text_of(r) == normal_ident_of(name@),
{
    if !name.is_ascii() {
        return None;
    }
    let snake = to_snake_case(name);
    as_plain_ident(to_pascal_case(snake.as_str()))
}

} // verus!
