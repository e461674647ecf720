//! The schema model: one declared configuration variable, and the ordered
//! collection of all declarations read from a definition file.

use crate::accepted_rust_type::{type_spelling, AcceptedRustType};
use crate::raw_token::opt_text_view;
use vstd::prelude::*;

verus! {

/// One declared configuration variable: its name (the schema map's key), its
/// kind, a free-text description carried for documentation only, and an
/// optional default literal, stored unparsed.
#[derive(Clone, Debug)]
pub struct EnvVariableSpec {
    pub name: String,
    pub rust_type: AcceptedRustType,
    pub description: String,
    pub default_value: Option<String>,
}

impl EnvVariableSpec {
    /// Builds one declaration from a schema entry's key and fields; a
    /// variable's name is never empty.
    pub fn from_name_and_fields(
        name: String,
        rust_type: AcceptedRustType,
        description: String,
        default_value: Option<String>,
    ) -> (r: EnvVariableSpec)
        requires
            name@.len() > 0,
        ensures
            r.name@ == name@,
            r.rust_type == rust_type,
            r.description@ == description@,
            opt_text_view(r.default_value) == opt_text_view(default_value),
    {
        EnvVariableSpec { name, rust_type, description, default_value }
    }

    /// The variable's name, equal to the schema map's key.
    pub fn name(&self) -> (r: &str)
        ensures
            r@ == self.name@,
    {
        self.name.as_str()
    }

    /// The variable's declared kind.
    pub fn rust_type(&self) -> (r: AcceptedRustType)
        ensures
            r == self.rust_type,
    {
        self.rust_type
    }

    /// The variable's description; never emitted into generated code.
    pub fn description(&self) -> (r: &str)
        ensures
            r@ == self.description@,
    {
        self.description.as_str()
    }

    /// The variable's default literal, if one was declared.
    pub fn default_value(&self) -> (r: Option<&str>)
        ensures
            match r {
                Some(s) => opt_text_view(self.default_value) == Some(s@),
                None => self.default_value is None,
            },
    {
        match &self.default_value {
            Some(s) => Some(s.as_str()),
            None => None,
        }
    }
}

/// One schema entry before its kind string has been checked: the map key and
/// the entry's raw fields.
#[derive(Clone, Debug)]
pub struct RawVariableEntry {
    pub name: String,
    pub type_text: String,
    pub description: String,
    pub default_value: Option<String>,
}

/// Whether a kind string names one of the supported kinds.
pub open spec fn kind_supported(s: Seq<char>) -> bool {
    exists|t: AcceptedRustType| type_spelling(t) == s
}

/// Whether a character may open an identifier in emitted code.
pub open spec fn ident_start_char(c: char) -> bool {
    ('a' <= c && c <= 'z') || ('A' <= c && c <= 'Z') || c == '_'
}

/// Whether a character may continue an identifier in emitted code.
pub open spec fn ident_continue_char(c: char) -> bool {
    ident_start_char(c) || ('0' <= c && c <= '9')
}

/// Whether text can stand as an identifier in emitted code: a letter or an
/// underscore, then letters, digits or underscores.
pub open spec fn is_identifier(s: Seq<char>) -> bool {
    &&& s.len() > 0
    &&& ident_start_char(s[0])
    &&& forall|i: int| 0 < i < s.len() ==> ident_continue_char(#[trigger] s[i])
}

/// Decides whether text can stand as an identifier in emitted code.
pub fn is_identifier_text(s: &str) -> (r: bool)
    ensures
        r == is_identifier(s@),
{
    let n = s.unicode_len();
    if n == 0 {
        return false;
    }
    let first = s.get_char(0);
    let first_ok = ('a' <= first && first <= 'z') || ('A' <= first && first <= 'Z') || first
        == '_';
    if !first_ok {
        return false;
    }
    let mut i: usize = 1;
    while i < n
        invariant
            1 <= i <= n,
            n == s@.len(),
            ident_start_char(s@[0]),
            forall|k: int| 0 < k < i ==> ident_continue_char(#[trigger] s@[k]),
        decreases n - i,
    {
        let c = s.get_char(i);
        let ok = ('a' <= c && c <= 'z') || ('A' <= c && c <= 'Z') || c == '_' || ('0' <= c && c
            <= '9');
        if !ok {
            return false;
        }
        i = i + 1;
    }
    true
}

/// The failure of a schema entry whose `type` string names no supported kind.
#[derive(Clone, Debug)]
pub struct UnsupportedTypeError {
    pub type_text: String,
}

impl UnsupportedTypeError {
    /// The diagnostic text for the unsupported kind string.
    pub fn message(&self) -> (r: String)
        ensures
            r@ == "unsupported type '"@ + self.type_text@ + "'"@,
    {
        let mut m: String = "unsupported type '".to_owned();
        m.append(self.type_text.as_str());
        m.append("'");
        m
    }
}

/// The failure of a schema entry whose name cannot stand as an identifier in
/// emitted code.
#[derive(Clone, Debug)]
pub struct InvalidNameError {
    pub name: String,
}

impl InvalidNameError {
    /// The diagnostic text for the rejected variable name.
    pub fn message(&self) -> (r: String)
        ensures
            r@ == "invalid variable name '"@ + self.name@ + "'"@,
    {
        let mut m: String = "invalid variable name '".to_owned();
        m.append(self.name.as_str());
        m.append("'");
        m
    }
}

/// The failure of one schema entry: an unsupported kind string, or a name
/// that is no identifier.
#[derive(Clone, Debug)]
pub enum SchemaEntryError {
    UnsupportedType(UnsupportedTypeError),
    InvalidName(InvalidNameError),
}

/// Whether a raw schema entry passes validation: a supported kind string, and
/// a name that can stand as an identifier in emitted code.
pub open spec fn entry_accepted(e: RawVariableEntry) -> bool {
    kind_supported(e.type_text@) && is_identifier(e.name@)
}

/// The ordered collection of declarations, in the definition file's own
/// declaration order.
#[derive(Clone, Debug)]
pub struct EnvVariableDeclarations {
    pub declarations: Vec<EnvVariableSpec>,
}

impl EnvVariableDeclarations {
    /// Wraps an already-validated ordered list of declarations.
    pub fn new(declarations: Vec<EnvVariableSpec>) -> (r: EnvVariableDeclarations)
        ensures
            r.declarations@ == declarations@,
    {
        EnvVariableDeclarations { declarations }
    }

    /// How many variables are declared.
    pub fn len(&self) -> (r: usize)
        ensures
            r == self.declarations@.len(),
    {
        self.declarations.len()
    }

    /// The declaration at the given position, in schema order.
    pub fn get(&self, i: usize) -> (r: &EnvVariableSpec)
        requires
            i < self.declarations@.len(),
        ensures
            *r == self.declarations@[i as int],
    {
        &self.declarations[i]
    }

    /// Checks every entry and builds the ordered collection, keeping the
    /// entries' order: each kind string must name a supported kind, and each
    /// name — the schema map's key — must stand as an identifier in emitted
    /// code; the first entry failing either check fails the whole schema.
    pub fn from_entries(entries: &Vec<RawVariableEntry>) -> (r: Result<
        EnvVariableDeclarations,
        SchemaEntryError,
    >)
        ensures
            match r {
                Ok(d) => {
                    &&& d.declarations@.len() == entries@.len()
                    &&& forall|i: int|
                        0 <= i < entries@.len() ==> entry_accepted(#[trigger] entries@[i])
                    &&& forall|i: int|
                        0 <= i < entries@.len() ==> {
                            &&& (#[trigger] d.declarations@[i]).name@ == entries@[i].name@
                            &&& type_spelling(d.declarations@[i].rust_type)
                                == entries@[i].type_text@
                            &&& d.declarations@[i].description@ == entries@[i].description@
                            &&& opt_text_view(d.declarations@[i].default_value) == opt_text_view(
                                entries@[i].default_value,
                            )
                        }
                },
                Err(e) => exists|i: int|
                    #![trigger entries@[i]]
                    {
                        &&& 0 <= i < entries@.len()
                        &&& !entry_accepted(entries@[i])
                        &&& forall|j: int| 0 <= j < i ==> entry_accepted(#[trigger] entries@[j])
                        &&& match e {
                            SchemaEntryError::UnsupportedType(u) => u.type_text@
                                == entries@[i].type_text@ && !kind_supported(
                                entries@[i].type_text@,
                            ),
                            SchemaEntryError::InvalidName(nm) => nm.name@ == entries@[i].name@
                                && kind_supported(entries@[i].type_text@) && !is_identifier(
                                entries@[i].name@,
                            ),
                        }
                    },
            },
    {
        let mut declarations: Vec<EnvVariableSpec> = Vec::new();
        let n = entries.len();
        let mut i: usize = 0;
        while i < n
            invariant
                n == entries@.len(),
                i <= n,
                declarations@.len() == i,
                forall|k: int| 0 <= k < i ==> entry_accepted(#[trigger] entries@[k]),
                forall|k: int|
                    0 <= k < i ==> {
                        &&& (#[trigger] declarations@[k]).name@ == entries@[k].name@
                        &&& type_spelling(declarations@[k].rust_type) == entries@[k].type_text@
                        &&& declarations@[k].description@ == entries@[k].description@
                        &&& opt_text_view(declarations@[k].default_value) == opt_text_view(
                            entries@[k].default_value,
                        )
                    },
            decreases n - i,
        {
            let entry = &entries[i];
            let kind = match AcceptedRustType::from_type_str(entry.type_text.as_str()) {
                Some(t) => t,
                None => {
                    proof {
                        assert(entries@[i as int].type_text@ == entry.type_text@);
                        assert(!kind_supported(entries@[i as int].type_text@));
                        assert(!entry_accepted(entries@[i as int]));
                    }
                    return Err(
                        SchemaEntryError::UnsupportedType(
                            UnsupportedTypeError { type_text: entry.type_text.clone() },
                        ),
                    );
                },
            };
            if !is_identifier_text(entry.name.as_str()) {
                proof {
                    assert(entries@[i as int].name@ == entry.name@);
                    assert(kind_supported(entries@[i as int].type_text@));
                    assert(!is_identifier(entries@[i as int].name@));
                    assert(!entry_accepted(entries@[i as int]));
                }
                return Err(
                    SchemaEntryError::InvalidName(InvalidNameError { name: entry.name.clone() }),
                );
            }
            let default_value = match &entry.default_value {
                Some(d) => Some(d.clone()),
                None => None,
            };
            declarations.push(
                EnvVariableSpec {
                    name: entry.name.clone(),
                    rust_type: kind,
                    description: entry.description.clone(),
                    default_value,
                },
            );
            proof {
                assert(kind_supported(entries@[i as int].type_text@));
                assert(entry_accepted(entries@[i as int]));
            }
            i = i + 1;
        }
        Ok(EnvVariableDeclarations { declarations })
    }
}

} // verus!
