//! A plain model of the token alphabet the macro's two inputs are read from.

use vstd::prelude::*;

verus! {

/// One input token, reduced to what the two grammars inspect: an identifier
/// or keyword with its text, a punctuation character, a string literal with
/// its unescaped value, or a parenthesized group with its source text.
#[derive(Clone, Debug)]
pub enum RawToken {
    Ident(String),
    Punct(char),
    Lit(String),
    Group(String),
}

/// Whether a token is an identifier with exactly the given text.
pub open spec fn is_ident(t: RawToken, s: Seq<char>) -> bool {
    match t {
        RawToken::Ident(k) => k@ == s,
        _ => false,
    }
}

/// Whether a token is exactly the given punctuation character.
pub open spec fn is_punct(t: RawToken, c: char) -> bool {
    match t {
        RawToken::Punct(p) => p == c,
        _ => false,
    }
}

/// Whether owned text reads exactly as the given slice.
pub fn text_eq(a: &String, b: &str) -> (r: bool)
    ensures
        r == (a@ == b@),
{
    let owned: String = b.to_owned();
    *a == owned
}

/// The text of an optional owned string, seen at the specification level.
pub open spec fn opt_text_view(o: Option<String>) -> Option<Seq<char>> {
    match o {
        Some(s) => Some(s@),
        None => None,
    }
}

} // verus!
