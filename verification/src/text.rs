//! Text: what the standard library and the colouring library do to it, as far
//! as the rest of the library relies on it.

use vstd::prelude::*;
use owo_colors::colors::xterm::LightGray;
use owo_colors::OwoColorize;

verus! {

/// `==` on string slices: whether both hold the same characters.
#[verifier::external_body]
pub(crate) fn str_eq(a: &str, b: &str) -> (r: bool)
    ensures
        r == (a@ == b@),
{
    a == b
}

/// Whether `prefix` is how `s` starts.
pub open spec fn is_prefix_of(prefix: Seq<char>, s: Seq<char>) -> bool {
    prefix.len() <= s.len() && s.subrange(0, prefix.len() as int) == prefix
}

/// `str::strip_prefix` with a string pattern: what follows the prefix, `None`
/// if and only if the slice does not start with it.
#[verifier::external_body]
pub(crate) fn str_strip_prefix<'a>(s: &'a str, prefix: &str) -> (r: Option<&'a str>)
    ensures
        match r {
            Some(rest) => is_prefix_of(prefix@, s@) && rest@ == s@.subrange(
                prefix@.len() as int,
                s@.len() as int,
            ),
            None => !is_prefix_of(prefix@, s@),
        },
{
    s.strip_prefix(prefix)
}

/// The character of a decimal digit.
pub open spec fn digit_char(d: nat) -> char {
    seq!['0', '1', '2', '3', '4', '5', '6', '7', '8', '9'][d as int]
}

/// A number written in decimal digits, without sign or padding.
pub open spec fn decimal_text(n: nat) -> Seq<char>
    decreases n,
{
    if n < 10 {
        seq![digit_char(n)]
    } else {
        decimal_text(n / 10).push(digit_char(n % 10))
    }
}

/// `to_string` of a `usize`: the number in decimal digits.
#[verifier::external_body]
pub(crate) fn usize_to_string(n: usize) -> (r: String)
    ensures
        r@ == decimal_text(n as nat),
{
    n.to_string()
}

/// How `Debug` writes a string: in double quotes, with escapes.
pub uninterp spec fn debug_text(s: Seq<char>) -> Seq<char>;

/// Formatting a string slice with `{:?}`.
#[verifier::external_body]
pub(crate) fn str_debug(s: &str) -> (r: String)
    ensures
        r@ == debug_text(s@),
{
    format!("{:?}", s)
}

/// `str::split_once` with a character: what stands before and after the first
/// occurrence of the character, `None` if and only if it does not occur.
#[verifier::external_body]
pub(crate) fn str_split_once<'a>(s: &'a str, delimiter: char) -> (r: Option<(&'a str, &'a str)>)
    ensures
        match r {
            Some((before, after)) => s@ == before@ + seq![delimiter] + after@ && !before@.contains(
                delimiter,
            ),
            None => !s@.contains(delimiter),
        },
{
    s.split_once(delimiter)
}

/// What `str::to_lowercase` makes of a text.
pub uninterp spec fn lowercase_text(s: Seq<char>) -> Seq<char>;

/// `str::to_lowercase`: the text in lower case.
#[verifier::external_body]
pub(crate) fn str_to_lowercase(s: &str) -> (r: String)
    ensures
        r@ == lowercase_text(s@),
{
    s.to_lowercase()
}

/// A text between two control sequences.
pub open spec fn enclosed(open: Seq<char>, s: Seq<char>, close: Seq<char>) -> Seq<char> {
    open + s + close
}

/// A text in green.
pub open spec fn green_text(s: Seq<char>) -> Seq<char> {
    enclosed("\x1b[32m"@, s, "\x1b[39m"@)
}

/// A text in yellow.
pub open spec fn yellow_text(s: Seq<char>) -> Seq<char> {
    enclosed("\x1b[33m"@, s, "\x1b[39m"@)
}

/// A text in red.
pub open spec fn red_text(s: Seq<char>) -> Seq<char> {
    enclosed("\x1b[31m"@, s, "\x1b[39m"@)
}

/// A text in blue.
pub open spec fn blue_text(s: Seq<char>) -> Seq<char> {
    enclosed("\x1b[34m"@, s, "\x1b[39m"@)
}

/// A text in light gray.
pub open spec fn light_gray_text(s: Seq<char>) -> Seq<char> {
    enclosed("\x1b[38;5;245m"@, s, "\x1b[39m"@)
}

/// A text in bold.
pub open spec fn bold_text(s: Seq<char>) -> Seq<char> {
    enclosed("\x1b[1m"@, s, "\x1b[0m"@)
}

/// A text in italics.
pub open spec fn italic_text(s: Seq<char>) -> Seq<char> {
    enclosed("\x1b[3m"@, s, "\x1b[0m"@)
}

/// `OwoColorize::green`, displayed: the text between the sequence for a green
/// foreground and the one for the default foreground.
#[verifier::external_body]
pub(crate) fn green(s: &str) -> (r: String)
    ensures
        r@ == green_text(s@),
{
    format!("{}", s.green())
}

/// `OwoColorize::yellow`, displayed: the text between the sequence for a yellow
/// foreground and the one for the default foreground.
#[verifier::external_body]
pub(crate) fn yellow(s: &str) -> (r: String)
    ensures
        r@ == yellow_text(s@),
{
    format!("{}", s.yellow())
}

/// `OwoColorize::red`, displayed: the text between the sequence for a red
/// foreground and the one for the default foreground.
#[verifier::external_body]
pub(crate) fn red(s: &str) -> (r: String)
    ensures
        r@ == red_text(s@),
{
    format!("{}", s.red())
}

/// `OwoColorize::blue`, displayed: the text between the sequence for a blue
/// foreground and the one for the default foreground.
#[verifier::external_body]
pub(crate) fn blue(s: &str) -> (r: String)
    ensures
        r@ == blue_text(s@),
{
    format!("{}", s.blue())
}

/// `OwoColorize::fg` with the colour `LightGray`, displayed: the text between
/// the sequence for foreground colour 245 and the one for the default
/// foreground.
#[verifier::external_body]
pub(crate) fn light_gray(s: &str) -> (r: String)
    ensures
        r@ == light_gray_text(s@),
{
    format!("{}", s.fg::<LightGray>())
}

/// `OwoColorize::bold`, displayed: the text between the sequence for bold and
/// the one that resets all attributes.
#[verifier::external_body]
pub(crate) fn bold(s: &str) -> (r: String)
    ensures
        r@ == bold_text(s@),
{
    format!("{}", s.bold())
}

/// `OwoColorize::italic`, displayed: the text between the sequence for italics
/// and the one that resets all attributes.
#[verifier::external_body]
pub(crate) fn italic(s: &str) -> (r: String)
    ensures
        r@ == italic_text(s@),
{
    format!("{}", s.italic())
}

/// Whether `pattern` occurs somewhere in `s`.
pub open spec fn occurs_in(pattern: Seq<char>, s: Seq<char>) -> bool {
    exists|i: int|
        0 <= i && i + pattern.len() <= s.len() && #[trigger] s.subrange(i, i + pattern.len())
            == pattern
}

/// `str::contains` with a string pattern: whether the pattern occurs in the
/// slice.
#[verifier::external_body]
pub(crate) fn str_contains(s: &str, pattern: &str) -> (r: bool)
    ensures
        r == occurs_in(pattern@, s@),
{
    s.contains(pattern)
}

} // verus!
