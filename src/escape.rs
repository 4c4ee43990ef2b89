//! Shell quoting of single words, in the two styles that `shell-escape` offers.

use std::borrow::Cow;
use vstd::prelude::*;

verus! {

/// Which shell's quoting rules a rendered word follows.
#[derive(Clone, Copy, Debug, PartialEq, Eq, Structural)]
pub enum QuoteStyle {
    /// POSIX shells (`sh`, `bash`, MSYS).
    Posix,
    /// The Windows `cmd.exe` shell.
    Cmd,
}

/// Characters that a POSIX shell reads literally, so a word made only of them
/// needs no quotes.
pub open spec fn posix_plain_char(c: char) -> bool {
    ||| ('a' <= c && c <= 'z')
    ||| ('A' <= c && c <= 'Z')
    ||| ('0' <= c && c <= '9')
    ||| c == '-' || c == '_' || c == '=' || c == '/' || c == ',' || c == '.' || c == '+'
}

/// The inside of a single-quoted POSIX word: `'` and `!` leave the quotes
/// (`'\'` + the character + `'`); every other character stands as it is.
pub open spec fn posix_quoted_body(s: Seq<char>) -> Seq<char>
    decreases s.len(),
{
    if s.len() == 0 {
        Seq::empty()
    } else {
        let c = s.last();
        posix_quoted_body(s.drop_last()) + if c == '\'' || c == '!' {
            seq!['\'', '\\', c, '\'']
        } else {
            seq![c]
        }
    }
}

/// A word quoted for a POSIX shell: a non-empty word of plain characters
/// stays as it is; any other word is wrapped in single quotes.
pub open spec fn posix_escaped(s: Seq<char>) -> Seq<char> {
    if s.len() > 0 && forall|i: int| 0 <= i < s.len() ==> posix_plain_char(#[trigger] s[i]) {
        s
    } else {
        seq!['\''] + posix_quoted_body(s) + seq!['\'']
    }
}

/// A word quoted for `cmd.exe` by `shell_escape::windows::escape`.
pub uninterp spec fn cmd_escaped(s: Seq<char>) -> Seq<char>;

/// A word quoted in the given style.
pub open spec fn escaped(style: QuoteStyle, s: Seq<char>) -> Seq<char> {
    match style {
        QuoteStyle::Posix => posix_escaped(s),
        QuoteStyle::Cmd => cmd_escaped(s),
    }
}

/// Relies on `shell_escape::unix::escape`: a non-empty word of characters from
/// `[a-zA-Z0-9-_=/,.+]` is returned unchanged; any other word is put between
/// single quotes, with each `'` and `!` written as `'\'` or `'\!` followed by `'`.
#[verifier::external_body]
fn escape_posix(s: &str) -> (r: String)
    ensures
        r@ == posix_escaped(s@),
{
    shell_escape::unix::escape(Cow::Borrowed(s)).into_owned()
}

/// Relies on `shell_escape::windows::escape`: its result depends on the word
/// alone.
#[verifier::external_body]
fn escape_cmd(s: &str) -> (r: String)
    ensures
        r@ == cmd_escaped(s@),
{
    shell_escape::windows::escape(Cow::Borrowed(s)).into_owned()
}

/// Quotes one word in the given style.
pub fn escape_word(s: &str, style: QuoteStyle) -> (r: String)
    ensures
        r@ == escaped(style, s@),
{
    match style {
        QuoteStyle::Posix => escape_posix(s),
        QuoteStyle::Cmd => escape_cmd(s),
    }
}

} // verus!
