//! The marker declaration: the visibility qualifier and target structure name
//! read from the macro's item input, which must be exactly an empty
//! structure statement.

use crate::raw_token::{is_ident, is_punct, text_eq, RawToken};
use vstd::prelude::*;

verus! {

/// The visibility qualifier of the marker item: absent, `pub`, or `pub(...)`
/// carrying the restriction's source text.
#[derive(Clone, Debug)]
pub enum Visibility {
    Inherited,
    Public,
    Restricted(String),
}

/// A visibility qualifier, seen at the specification level.
pub enum VisibilityView {
    Inherited,
    Public,
    Restricted(Seq<char>),
}

/// The specification-level content of a visibility value.
pub open spec fn visibility_view(v: Visibility) -> VisibilityView {
    match v {
        Visibility::Inherited => VisibilityView::Inherited,
        Visibility::Public => VisibilityView::Public,
        Visibility::Restricted(g) => VisibilityView::Restricted(g@),
    }
}

/// The marker declaration parsed out of the item input.
pub struct EmptyStruct {
    pub visibility: Visibility,
    pub struct_name: String,
}

/// A marker declaration, seen at the specification level.
pub struct MarkerView {
    pub visibility: VisibilityView,
    pub name: Seq<char>,
}

/// The specification-level content of a parsed marker declaration.
pub open spec fn marker_view(m: EmptyStruct) -> MarkerView {
    MarkerView { visibility: visibility_view(m.visibility), name: m.struct_name@ }
}

/// A syntax failure of the marker grammar: the index of the offending token,
/// or an input that ended before the statement was complete.
#[derive(Clone, Copy, Debug, PartialEq, Eq, Structural)]
pub enum MarkerParseError {
    UnexpectedToken(usize),
    UnexpectedEnd,
}

/// The visibility prefix of the item input, and the index of the first token
/// after it.
pub open spec fn spec_parse_visibility(toks: Seq<RawToken>) -> (VisibilityView, int) {
    if toks.len() > 0 && is_ident(toks[0], "pub"@) {
        if toks.len() > 1 {
            match toks[1] {
                RawToken::Group(g) => (VisibilityView::Restricted(g@), 2),
                _ => (VisibilityView::Public, 1),
            }
        } else {
            (VisibilityView::Public, 1)
        }
    } else {
        (VisibilityView::Inherited, 0)
    }
}

/// What the marker grammar yields on a token sequence: a visibility prefix,
/// the `struct` keyword, one identifier, a `;`, and nothing after it.
pub open spec fn spec_parse_marker(toks: Seq<RawToken>) -> Result<MarkerView, MarkerParseError> {
    let (vis, j) = spec_parse_visibility(toks);
    if j >= toks.len() {
        Err(MarkerParseError::UnexpectedEnd)
    } else if !is_ident(toks[j], "struct"@) {
        Err(MarkerParseError::UnexpectedToken(j as usize))
    } else if j + 1 >= toks.len() {
        Err(MarkerParseError::UnexpectedEnd)
    } else {
        match toks[j + 1] {
            RawToken::Ident(name) => {
                if j + 2 >= toks.len() {
                    Err(MarkerParseError::UnexpectedEnd)
                } else if !is_punct(toks[j + 2], ';') {
                    Err(MarkerParseError::UnexpectedToken((j + 2) as usize))
                } else if j + 3 != toks.len() {
                    Err(MarkerParseError::UnexpectedToken((j + 3) as usize))
                } else {
                    Ok(MarkerView { visibility: vis, name: name@ })
                }
            },
            _ => Err(MarkerParseError::UnexpectedToken((j + 1) as usize)),
        }
    }
}

impl EmptyStruct {
    /// The marker's visibility qualifier.
    pub fn visibility(&self) -> (r: &Visibility)
        ensures
            *r == self.visibility,
    {
        &self.visibility
    }

    /// The marker's structure name.
    pub fn struct_name(&self) -> (r: &str)
        ensures
            r@ == self.struct_name@,
    {
        self.struct_name.as_str()
    }

    /// Parses the item input: exactly a visibility qualifier, the `struct`
    /// keyword, an identifier and a terminating `;`; any deviation names the
    /// offending token.
    pub fn parse(tokens: &Vec<RawToken>) -> (r: Result<EmptyStruct, MarkerParseError>)
        ensures
            match r {
                Ok(m) => spec_parse_marker(tokens@) == Ok::<MarkerView, MarkerParseError>(
                    marker_view(m),
                ),
                Err(e) => spec_parse_marker(tokens@) == Err::<MarkerView, MarkerParseError>(e),
            },
    {
        let n = tokens.len();
        let mut j: usize = 0;
        let mut visibility = Visibility::Inherited;
        if n > 0 {
            let first_is_pub = match &tokens[0] {
                RawToken::Ident(k) => text_eq(k, "pub"),
                _ => false,
            };
            if first_is_pub {
                if n > 1 {
                    match &tokens[1] {
                        RawToken::Group(g) => {
                            visibility = Visibility::Restricted(g.clone());
                            j = 2;
                        },
                        _ => {
                            visibility = Visibility::Public;
                            j = 1;
                        },
                    }
                } else {
                    visibility = Visibility::Public;
                    j = 1;
                }
            }
        }
        proof {
            assert(spec_parse_visibility(tokens@) == (visibility_view(visibility), j as int));
        }
        if j >= n {
            return Err(MarkerParseError::UnexpectedEnd);
        }
        let keyword_ok = match &tokens[j] {
            RawToken::Ident(k) => text_eq(k, "struct"),
            _ => false,
        };
        if !keyword_ok {
            return Err(MarkerParseError::UnexpectedToken(j));
        }
        if j + 1 >= n {
            return Err(MarkerParseError::UnexpectedEnd);
        }
        let name: String = match &tokens[j + 1] {
            RawToken::Ident(name) => name.clone(),
            _ => {
                return Err(MarkerParseError::UnexpectedToken(j + 1));
            },
        };
        if j + 2 >= n {
            return Err(MarkerParseError::UnexpectedEnd);
        }
        let semi_ok = match &tokens[j + 2] {
            RawToken::Punct(p) => *p == ';',
            _ => false,
        };
        if !semi_ok {
            return Err(MarkerParseError::UnexpectedToken(j + 2));
        }
        if j + 3 != n {
            return Err(MarkerParseError::UnexpectedToken(j + 3));
        }
        Ok(EmptyStruct { visibility, struct_name: name })
    }
}

} // verus!
