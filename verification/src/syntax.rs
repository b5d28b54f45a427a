use vstd::prelude::*;
use vstd::utf8::encode_utf8;

verus! {

/// The most that a text may weigh to be read as source text.
pub const SYNTAX_LIMIT: usize = 24;

/// Whether a byte belongs to a word: a letter or digit of ASCII, or `_`.
pub open spec fn is_word_byte(b: u8) -> bool {
    ||| 0x30 <= b <= 0x39
    ||| 0x41 <= b <= 0x5a
    ||| 0x61 <= b <= 0x7a
    ||| b == 0x5f
}

/// Whether a byte opens nothing: white space and control characters, a
/// closing bracket, a comma, a colon or a semicolon.
pub open spec fn is_quiet_byte(b: u8) -> bool {
    ||| b <= 0x20
    ||| b == 0x7f
    ||| b == 0x29
    ||| b == 0x2c
    ||| b == 0x3a
    ||| b == 0x3b
    ||| b == 0x3e
    ||| b == 0x5d
    ||| b == 0x7d
}

/// Whether the byte at `i` counts: the first byte of a word, or any byte
/// that neither belongs to a word nor is quiet.
pub open spec fn counts(bytes: Seq<u8>, i: int) -> bool {
    if is_word_byte(bytes[i]) {
        i == 0 || !is_word_byte(bytes[i - 1])
    } else {
        !is_quiet_byte(bytes[i])
    }
}

/// How many of the first `upto` bytes count.
pub open spec fn weight(bytes: Seq<u8>, upto: int) -> nat
    decreases upto,
{
    if upto <= 0 || upto > bytes.len() {
        0
    } else {
        weight(bytes, upto - 1) + if counts(bytes, upto - 1) {
            1nat
        } else {
            0nat
        }
    }
}

/// Whether a text is light enough to be read as source text: its words and
/// its signs that can open something, counted over its bytes, are no more
/// than the limit. No reading of the text nests deeper than that.
pub open spec fn within_limit(text: Seq<char>) -> bool {
    weight(encode_utf8(text), encode_utf8(text).len() as int) <= SYNTAX_LIMIT
}

/// Tests whether a text is light enough to be read as source text.
pub fn fits(text: &str) -> (light: bool)
    ensures
        light == within_limit(text@),
{
    let bytes = text.as_bytes();
    let mut count: usize = 0;
    let mut in_word: bool = false;
    let mut i: usize = 0;
    while i < bytes.len()
        invariant
            i <= bytes.len(),
            count <= i,
            count == weight(bytes@, i as int),
            in_word == (i > 0 && is_word_byte(bytes@[i - 1])),
        decreases bytes.len() - i,
    {
        let b: u8 = bytes[i];
        let word = (0x30 <= b && b <= 0x39) || (0x41 <= b && b <= 0x5a) || (0x61 <= b && b <= 0x7a)
            || b == 0x5f;
        let quiet = b <= 0x20 || b == 0x7f || b == 0x29 || b == 0x2c || b == 0x3a || b == 0x3b || b
            == 0x3e || b == 0x5d || b == 0x7d;
        if (word && !in_word) || (!word && !quiet) {
            count = count + 1;
        }
        in_word = word;
        i = i + 1;
    }
    count <= SYNTAX_LIMIT
}

/// Calls `syn::parse_str::<syn::Path>` on the text and says whether it gave a
/// path. Nothing is claimed of the answer. A text that is too heavy is left
/// out, since the parser nests its calls as deep as the text nests.
#[verifier::external_body]
pub(crate) fn parses_as_path(text: &str) -> (ok: bool)
    requires
        within_limit(text@),
{
    syn::parse_str::<syn::Path>(text).is_ok()
}

/// Calls `syn::parse_str::<syn::Ident>` on the text and says whether it gave
/// an identifier. Nothing is claimed of the answer. A text that is too heavy
/// is left out, since the parser nests its calls as deep as the text nests.
#[verifier::external_body]
pub(crate) fn parses_as_ident(text: &str) -> (ok: bool)
    requires
        within_limit(text@),
{
    syn::parse_str::<syn::Ident>(text).is_ok()
}

/// Calls `syn::parse_str::<syn::Type>` on the text and says whether it gave a
/// type. Nothing is claimed of the answer. A text that is too heavy is left
/// out, since the parser nests its calls as deep as the text nests.
#[verifier::external_body]
pub(crate) fn parses_as_type(text: &str) -> (ok: bool)
    requires
        within_limit(text@),
{
    syn::parse_str::<syn::Type>(text).is_ok()
}

/// Whether a text is read as a path; a text that is too heavy is not.
pub fn is_path(text: &str) -> (ok: bool)
    ensures
        !within_limit(text@) ==> !ok,
{
    fits(text) && parses_as_path(text)
}

/// Whether a text is read as an identifier; a text that is too heavy is
/// not.
pub fn is_ident(text: &str) -> (ok: bool)
    ensures
        !within_limit(text@) ==> !ok,
{
    fits(text) && parses_as_ident(text)
}

/// Whether a text is read as a type; a text that is too heavy is not.
pub fn is_type(text: &str) -> (ok: bool)
    ensures
        !within_limit(text@) ==> !ok,
{
    fits(text) && parses_as_type(text)
}

} // verus!
