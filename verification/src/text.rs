//! Text that the rewrite reads and writes: joined lists and names.

use itertools::Itertools;
use vstd::prelude::*;
use vstd::string::{StrSliceExecFns, StringExecFns};

use crate::ast::views;

verus! {

/// The parts in order, with `sep` between each two neighbours.
pub open spec fn joined(parts: Seq<Seq<char>>, sep: Seq<char>) -> Seq<char>
    decreases parts.len(),
{
    if parts.len() == 0 {
        Seq::empty()
    } else if parts.len() == 1 {
        parts[0]
    } else {
        joined(parts.drop_last(), sep) + sep + parts.last()
    }
}

/// Joins the strings with `Itertools::join`.
///
/// Not proved: that `join` writes each element as it stands, which for a
/// `String` is what its `Display` does, and writes `sep` between each two.
/// Before it writes, `join` reserves `sep.len() * (parts.len() - 1)` bytes.
/// The separator is kept to four characters, at most 16 bytes, so that this
/// product cannot overflow: a vector holds fewer than `usize::MAX / 24`
/// strings.
#[verifier::external_body]
pub(crate) fn join(parts: &Vec<String>, sep: &str) -> (out: String)
    requires
        sep@.len() <= 4,
    ensures
        out@ == joined(views(parts@), sep@),
{
    parts.iter().join(sep)
}

/// A character that may stand in a word: a letter, a digit, an underscore,
/// or any character beyond ASCII.
pub open spec fn name_char(c: char) -> bool {
    c == '_' || ('a' <= c && c <= 'z') || ('A' <= c && c <= 'Z') || ('0' <= c && c <= '9') || c
        > '\u{7f}'
}

/// A word: made of name characters, and not starting with a digit.
pub open spec fn plain_word(s: Seq<char>) -> bool {
    &&& s.len() > 0
    &&& !('0' <= s[0] && s[0] <= '9')
    &&& forall|i: int| 0 <= i < s.len() ==> name_char(#[trigger] s[i])
}

/// A word that the language keeps for itself in every edition, the two
/// truth values among them. Such a word names nothing.
pub open spec fn reserved_word(s: Seq<char>) -> bool {
    ||| s == "as"@
    ||| s == "break"@
    ||| s == "const"@
    ||| s == "continue"@
    ||| s == "crate"@
    ||| s == "else"@
    ||| s == "enum"@
    ||| s == "extern"@
    ||| s == "false"@
    ||| s == "fn"@
    ||| s == "for"@
    ||| s == "if"@
    ||| s == "impl"@
    ||| s == "in"@
    ||| s == "let"@
    ||| s == "loop"@
    ||| s == "match"@
    ||| s == "mod"@
    ||| s == "move"@
    ||| s == "mut"@
    ||| s == "pub"@
    ||| s == "ref"@
    ||| s == "return"@
    ||| s == "self"@
    ||| s == "Self"@
    ||| s == "static"@
    ||| s == "struct"@
    ||| s == "super"@
    ||| s == "trait"@
    ||| s == "true"@
    ||| s == "type"@
    ||| s == "unsafe"@
    ||| s == "use"@
    ||| s == "where"@
    ||| s == "while"@
    ||| s == "abstract"@
    ||| s == "become"@
    ||| s == "box"@
    ||| s == "do"@
    ||| s == "final"@
    ||| s == "macro"@
    ||| s == "override"@
    ||| s == "priv"@
    ||| s == "typeof"@
    ||| s == "unsized"@
    ||| s == "virtual"@
    ||| s == "yield"@
}

/// A word that cannot be written as a raw identifier.
pub open spec fn never_raw(s: Seq<char>) -> bool {
    s == "crate"@ || s == "self"@ || s == "super"@ || s == "Self"@ || s == "_"@
}

/// A raw identifier: `r#` before a word that may be written so.
pub open spec fn raw_name(s: Seq<char>) -> bool {
    &&& s.len() > 2
    &&& s[0] == 'r'
    &&& s[1] == '#'
    &&& plain_word(s.skip(2))
    &&& !never_raw(s.skip(2))
}

/// A pattern that is one name and binds its whole value: a word that is
/// neither reserved nor the placeholder `_`, or a raw identifier. No pattern
/// that takes a value apart is one, since each holds a bracket, a blank or
/// another ASCII sign.
pub open spec fn simple_name(s: Seq<char>) -> bool {
    (plain_word(s) && !reserved_word(s) && s != "_"@) || raw_name(s)
}

fn is_name_char(c: char) -> (ok: bool)
    ensures
        ok == name_char(c),
{
    c == '_' || ('a' <= c && c <= 'z') || ('A' <= c && c <= 'Z') || ('0' <= c && c <= '9') || c
        > '\u{7f}'
}

/// Whether two texts are the same.
fn same_text(a: &str, b: &str) -> (yes: bool)
    ensures
        yes == (a@ == b@),
{
    String::from_str(a) == String::from_str(b)
}

/// Whether `s` is a reserved word.
fn is_reserved_word(s: &str) -> (yes: bool)
    ensures
        yes == reserved_word(s@),
{
    same_text(s, "as") ||
        same_text(s, "break") ||
        same_text(s, "const") ||
        same_text(s, "continue") ||
        same_text(s, "crate") ||
        same_text(s, "else") ||
        same_text(s, "enum") ||
        same_text(s, "extern") ||
        same_text(s, "false") ||
        same_text(s, "fn") ||
        same_text(s, "for") ||
        same_text(s, "if") ||
        same_text(s, "impl") ||
        same_text(s, "in") ||
        same_text(s, "let") ||
        same_text(s, "loop") ||
        same_text(s, "match") ||
        same_text(s, "mod") ||
        same_text(s, "move") ||
        same_text(s, "mut") ||
        same_text(s, "pub") ||
        same_text(s, "ref") ||
        same_text(s, "return") ||
        same_text(s, "self") ||
        same_text(s, "Self") ||
        same_text(s, "static") ||
        same_text(s, "struct") ||
        same_text(s, "super") ||
        same_text(s, "trait") ||
        same_text(s, "true") ||
        same_text(s, "type") ||
        same_text(s, "unsafe") ||
        same_text(s, "use") ||
        same_text(s, "where") ||
        same_text(s, "while") ||
        same_text(s, "abstract") ||
        same_text(s, "become") ||
        same_text(s, "box") ||
        same_text(s, "do") ||
        same_text(s, "final") ||
        same_text(s, "macro") ||
        same_text(s, "override") ||
        same_text(s, "priv") ||
        same_text(s, "typeof") ||
        same_text(s, "unsized") ||
        same_text(s, "virtual") ||
        same_text(s, "yield")
}

/// Whether `s` is a word.
fn is_plain_word(s: &str) -> (ok: bool)
    ensures
        ok == plain_word(s@),
{
    let mut empty = true;
    let mut good = true;
    for c in it: s.chars()
        invariant
            it.seq() == s@,
            empty == (it.index() == 0),
            good == ((forall|i: int| 0 <= i < it.index() ==> name_char(#[trigger] s@[i])) && (
            it.index() > 0 ==> !('0' <= s@[0] && s@[0] <= '9'))),
    {
        if empty && '0' <= c && c <= '9' {
            good = false;
        }
        if !is_name_char(c) {
            good = false;
        }
        empty = false;
    }
    good && !empty
}

/// Whether `s` is one name that binds its whole value.
pub fn is_simple_name(s: &str) -> (ok: bool)
    ensures
        ok == simple_name(s@),
{
    if is_plain_word(s) {
        proof {
            if s@.len() > 2 && s@[1] == '#' {
                assert(!name_char(s@[1]));
            }
        }
        !is_reserved_word(s) && !same_text(s, "_")
    } else {
        let n = s.unicode_len();
        if n > 2 && s.get_char(0) == 'r' && s.get_char(1) == '#' {
            let word = s.substring_char(2, n);
            is_plain_word(word) && !(same_text(word, "crate") || same_text(word, "self")
                || same_text(word, "super") || same_text(word, "Self") || same_text(word, "_"))
        } else {
            false
        }
    }
}

} // verus!
