//! The attribute configuration: comma-separated `keyword = "value"` pairs,
//! recognizing exactly `path` (required) and `format` (optional, defaulting
//! to the sole supported definition-file format).

use crate::raw_token::{is_punct, opt_text_view, RawToken};
use vstd::prelude::*;

verus! {

/// A definition-file format the macro accepts.
#[derive(Clone, Copy, Debug, PartialEq, Eq, Structural)]
pub enum AcceptedFormat {
    Hjson,
}

/// The failure of a `format` value naming no accepted format.
#[derive(Clone, Debug)]
pub struct InvalidFormatError {
    pub format: String,
}

impl InvalidFormatError {
    /// The diagnostic text for the rejected format selector.
    pub fn message(&self) -> (r: String)
        ensures
            r@ == "invalid format '"@ + self.format@ + "'"@,
    {
        let mut m: String = "invalid format '".to_owned();
        m.append(self.format.as_str());
        m.append("'");
        m
    }
}

impl AcceptedFormat {
    /// Parses a format selector: `hjson` is the only accepted value.
    pub fn from_text(s: &str) -> (r: Result<AcceptedFormat, InvalidFormatError>)
        ensures
            match r {
                Ok(f) => f == AcceptedFormat::Hjson && s@ == "hjson"@,
                Err(e) => e.format@ == s@ && s@ != "hjson"@,
            },
    {
        let owned = s.to_owned();
        if owned == "hjson".to_owned() {
            Ok(AcceptedFormat::Hjson)
        } else {
            Err(InvalidFormatError { format: owned })
        }
    }
}

/// The failure of an attribute keyword the grammar does not know.
#[derive(Clone, Debug)]
pub struct UnknownOptionError {
    pub keyword: String,
}

impl UnknownOptionError {
    /// The diagnostic text for the unrecognized keyword.
    pub fn message(&self) -> (r: String)
        ensures
            r@ == "unknown option '"@ + self.keyword@ + "'"@,
    {
        let mut m: String = "unknown option '".to_owned();
        m.append(self.keyword.as_str());
        m.append("'");
        m
    }
}

/// The failure of a finished configuration that never set a required keyword.
#[derive(Clone, Debug)]
pub struct MissingRequiredConfigurationError {
    pub keyword: String,
}

impl MissingRequiredConfigurationError {
    /// The diagnostic text for the absent required keyword.
    pub fn message(&self) -> (r: String)
        ensures
            r@ == "the required configuration '"@ + self.keyword@ + "' is missing"@,
    {
        let mut m: String = "the required configuration '".to_owned();
        m.append(self.keyword.as_str());
        m.append("' is missing");
        m
    }
}

/// A keyword of the attribute grammar.
#[derive(Clone, Copy, Debug, PartialEq, Eq, Structural)]
enum MacroConfigKeyword {
    Path,
    Format,
}

impl MacroConfigKeyword {
    /// Parses an attribute keyword; anything but `path` or `format` is
    /// unknown.
    fn from_text(s: &String) -> (r: Result<MacroConfigKeyword, UnknownOptionError>)
        ensures
            match r {
                Ok(k) => (k is Path && s@ == "path"@) || (k is Format && s@ == "format"@ && s@
                    != "path"@),
                Err(e) => e.keyword@ == s@ && s@ != "path"@ && s@ != "format"@,
            },
    {
        if *s == "path".to_owned() {
            Ok(MacroConfigKeyword::Path)
        } else if *s == "format".to_owned() {
            Ok(MacroConfigKeyword::Format)
        } else {
            Err(UnknownOptionError { keyword: s.clone() })
        }
    }
}

/// The attribute's parsed options: the definition file's path, and the
/// selected format.
#[derive(Clone, Debug)]
pub struct MacroConfig {
    pub path: String,
    pub format: AcceptedFormat,
}

/// An attribute configuration, seen at the specification level.
pub struct ConfigView {
    pub path: Seq<char>,
    pub format: AcceptedFormat,
}

/// The specification-level content of a parsed configuration.
pub open spec fn config_view(c: MacroConfig) -> ConfigView {
    ConfigView { path: c.path@, format: c.format }
}

/// A failure of the attribute grammar, seen at the specification level.
pub enum ConfigErrorView {
    UnknownOption { keyword: Seq<char>, position: int },
    InvalidFormat { format: Seq<char>, position: int },
    MissingPath { keyword: Seq<char> },
    UnexpectedToken { position: int },
    UnexpectedEnd,
}

/// A failure of the attribute grammar: an unknown keyword, a rejected format
/// value, a required keyword never set, or plain bad syntax, each positioned
/// at the offending token.
#[derive(Clone, Debug)]
pub enum ConfigParseError {
    UnknownOption { error: UnknownOptionError, position: usize },
    InvalidFormat { error: InvalidFormatError, position: usize },
    MissingPath(MissingRequiredConfigurationError),
    UnexpectedToken { position: usize },
    UnexpectedEnd,
}

/// The specification-level content of an attribute-grammar failure.
pub open spec fn config_error_view(e: ConfigParseError) -> ConfigErrorView {
    match e {
        ConfigParseError::UnknownOption { error, position } => ConfigErrorView::UnknownOption {
            keyword: error.keyword@,
            position: position as int,
        },
        ConfigParseError::InvalidFormat { error, position } => ConfigErrorView::InvalidFormat {
            format: error.format@,
            position: position as int,
        },
        ConfigParseError::MissingPath(error) => ConfigErrorView::MissingPath {
            keyword: error.keyword@,
        },
        ConfigParseError::UnexpectedToken { position } => ConfigErrorView::UnexpectedToken {
            position: position as int,
        },
        ConfigParseError::UnexpectedEnd => ConfigErrorView::UnexpectedEnd,
    }
}

/// The format that applies when the selector was set, or left to its default.
pub open spec fn spec_format_or_default(f: Option<AcceptedFormat>) -> AcceptedFormat {
    match f {
        Some(f) => f,
        None => AcceptedFormat::Hjson,
    }
}

/// What finishing the builder yields: the accumulated options, or the
/// missing-`path` failure.
pub open spec fn spec_build(path: Option<Seq<char>>, format: Option<AcceptedFormat>) -> Result<
    ConfigView,
    ConfigErrorView,
> {
    match path {
        None => Err(ConfigErrorView::MissingPath { keyword: "path"@ }),
        Some(p) => Ok(ConfigView { path: p, format: spec_format_or_default(format) }),
    }
}

/// What the attribute grammar yields from position `i` on, having already
/// accumulated `path` and `format`: it scans `keyword = "value"` groups,
/// comma-separated, until the input is exhausted.
pub open spec fn spec_parse_config_from(
    toks: Seq<RawToken>,
    i: int,
    path: Option<Seq<char>>,
    format: Option<AcceptedFormat>,
) -> Result<ConfigView, ConfigErrorView>
    decreases toks.len() - i,
{
    if i < 0 || i >= toks.len() {
        spec_build(path, format)
    } else {
        match toks[i] {
            RawToken::Ident(kw) => {
                if kw@ == "path"@ || kw@ == "format"@ {
                    if i + 1 >= toks.len() {
                        Err(ConfigErrorView::UnexpectedEnd)
                    } else if !is_punct(toks[i + 1], '=') {
                        Err(ConfigErrorView::UnexpectedToken { position: i + 1 })
                    } else if i + 2 >= toks.len() {
                        Err(ConfigErrorView::UnexpectedEnd)
                    } else {
                        match toks[i + 2] {
                            RawToken::Lit(v) => {
                                if i + 3 < toks.len() && !is_punct(toks[i + 3], ',') {
                                    Err(ConfigErrorView::UnexpectedToken { position: i + 3 })
                                } else {
                                    let next = if i + 3 < toks.len() {
                                        i + 4
                                    } else {
                                        i + 3
                                    };
                                    if kw@ == "path"@ {
                                        spec_parse_config_from(toks, next, Some(v@), format)
                                    } else if v@ == "hjson"@ {
                                        spec_parse_config_from(
                                            toks,
                                            next,
                                            path,
                                            Some(AcceptedFormat::Hjson),
                                        )
                                    } else {
                                        Err(
                                            ConfigErrorView::InvalidFormat {
                                                format: v@,
                                                position: i + 2,
                                            },
                                        )
                                    }
                                }
                            },
                            _ => Err(ConfigErrorView::UnexpectedToken { position: i + 2 }),
                        }
                    }
                } else {
                    Err(ConfigErrorView::UnknownOption { keyword: kw@, position: i })
                }
            },
            _ => Err(ConfigErrorView::UnexpectedToken { position: i }),
        }
    }
}

/// What the attribute grammar yields on a whole token sequence.
pub open spec fn spec_parse_config(toks: Seq<RawToken>) -> Result<ConfigView, ConfigErrorView> {
    spec_parse_config_from(toks, 0, None, None)
}

/// Law: omitting the format selector behaves identically to selecting the
/// sole supported format explicitly — a configuration finished with no format
/// set equals one finished with `hjson` set, whatever path was accumulated.
pub proof fn lemma_format_default_equivalence(path: Option<Seq<char>>)
    ensures
        spec_build(path, None) == spec_build(path, Some(AcceptedFormat::Hjson)),
{
}

/// Accumulates recognized keyword/value pairs; the required `path` is only
/// checked when the builder is finished.
pub struct MacroConfigBuilder {
    pub path: Option<String>,
    pub format: Option<AcceptedFormat>,
}

impl MacroConfigBuilder {
    /// An empty builder: nothing set yet.
    pub fn new() -> (r: MacroConfigBuilder)
        ensures
            r.path is None,
            r.format is None,
    {
        MacroConfigBuilder { path: None, format: None }
    }

    /// Records the definition file's path; a later value wins.
    pub fn set_path(&mut self, path: String)
        ensures
            opt_text_view(final(self).path) == Some(path@),
            final(self).format == old(self).format,
    {
        self.path = Some(path);
    }

    /// Records the format selector; a later value wins.
    pub fn set_format(&mut self, format: AcceptedFormat)
        ensures
            final(self).format == Some(format),
            final(self).path == old(self).path,
    {
        self.format = Some(format);
    }

    /// Finishes the builder: `path` must have been set; an unset `format`
    /// falls back to the sole supported format.
    pub fn build(&self) -> (r: Result<MacroConfig, MissingRequiredConfigurationError>)
        ensures
            match r {
                Ok(c) => spec_build(opt_text_view(self.path), self.format) == Ok::<
                    ConfigView,
                    ConfigErrorView,
                >(config_view(c)),
                Err(e) => self.path is None && e.keyword@ == "path"@,
            },
    {
        match &self.path {
            None => Err(MissingRequiredConfigurationError { keyword: "path".to_owned() }),
            Some(p) => {
                let format = match self.format {
                    Some(f) => f,
                    None => AcceptedFormat::Hjson,
                };
                Ok(MacroConfig { path: p.clone(), format })
            },
        }
    }
}

impl MacroConfig {
    /// The definition file's path, relative to the build root.
    pub fn path(&self) -> (r: &str)
        ensures
            r@ == self.path@,
    {
        self.path.as_str()
    }

    /// The selected definition-file format.
    pub fn format(&self) -> (r: AcceptedFormat)
        ensures
            r == self.format,
    {
        self.format
    }

    /// Parses the attribute input: `keyword = "value"` groups separated by
    /// commas, with `path` required and `format` optional; an unknown
    /// keyword, a rejected format value or bad syntax names the offending
    /// token.
    pub fn parse(tokens: &Vec<RawToken>) -> (r: Result<MacroConfig, ConfigParseError>)
        ensures
            match r {
                Ok(c) => spec_parse_config(tokens@) == Ok::<ConfigView, ConfigErrorView>(
                    config_view(c),
                ),
                Err(e) => spec_parse_config(tokens@) == Err::<ConfigView, ConfigErrorView>(
                    config_error_view(e),
                ),
            },
    {
        let n = tokens.len();
        let mut builder = MacroConfigBuilder::new();
        let mut i: usize = 0;
        while i < n
            invariant
                n == tokens@.len(),
                i <= n,
                spec_parse_config(tokens@) == spec_parse_config_from(
                    tokens@,
                    i as int,
                    opt_text_view(builder.path),
                    builder.format,
                ),
            decreases n - i,
        {
            let kw: &String = match &tokens[i] {
                RawToken::Ident(kw) => kw,
                _ => {
                    return Err(ConfigParseError::UnexpectedToken { position: i });
                },
            };
            let keyword = match MacroConfigKeyword::from_text(kw) {
                Ok(k) => k,
                Err(e) => {
                    return Err(ConfigParseError::UnknownOption { error: e, position: i });
                },
            };
            if i + 1 >= n {
                return Err(ConfigParseError::UnexpectedEnd);
            }
            let eq_ok = match &tokens[i + 1] {
                RawToken::Punct(p) => *p == '=',
                _ => false,
            };
            if !eq_ok {
                return Err(ConfigParseError::UnexpectedToken { position: i + 1 });
            }
            if i + 2 >= n {
                return Err(ConfigParseError::UnexpectedEnd);
            }
            let value: String = match &tokens[i + 2] {
                RawToken::Lit(v) => v.clone(),
                _ => {
                    return Err(ConfigParseError::UnexpectedToken { position: i + 2 });
                },
            };
            let next: usize;
            if i + 3 < n {
                let comma_ok = match &tokens[i + 3] {
                    RawToken::Punct(p) => *p == ',',
                    _ => false,
                };
                if !comma_ok {
                    return Err(ConfigParseError::UnexpectedToken { position: i + 3 });
                }
                next = i + 4;
            } else {
                next = i + 3;
            }
            match keyword {
                MacroConfigKeyword::Path => {
                    builder.set_path(value);
                },
                MacroConfigKeyword::Format => {
                    match AcceptedFormat::from_text(value.as_str()) {
                        Ok(f) => {
                            builder.set_format(f);
                        },
                        Err(e) => {
                            return Err(
                                ConfigParseError::InvalidFormat { error: e, position: i + 2 },
                            );
                        },
                    }
                },
            }
            i = next;
        }
        match builder.build() {
            Ok(c) => Ok(c),
            Err(e) => Err(ConfigParseError::MissingPath(e)),
        }
    }
}

} // verus!
