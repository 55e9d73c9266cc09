//! Decoding of a generic key/value document tree into sway command instances.
//!
//! `base` holds the tree type and its lookup primitives, `options` the value
//! domain token decoders, `runtime` and `config` the per-command decoders, and
//! `cfgfile` the whole-file assembler.
pub mod base;
pub mod cfgfile;
pub mod config;
pub mod options;
pub mod runtime;

use vstd::prelude::*;

verus! {

/// The error taxonomy shared by every decoder: each variant names one way an
/// input tree can fail to describe exactly one command.
#[derive(Debug, Clone, PartialEq, Eq)]
pub enum ParseError {
    /// A required key (or the whole expected discriminant set) is absent.
    KeyNotFound(String),
    /// A node is present but has the wrong shape; names the accepted shapes.
    IncorrectType(Vec<String>),
    /// More than one discriminant key is present; names all keys found.
    MultiKey(Vec<String>),
    /// A string is present but outside the accepted token set; names the
    /// accepted tokens and the offending value.
    StringMismatch(Vec<String>, String),
    /// The document text itself could not be parsed into a tree.
    TomlError(String),
    /// Two fields that must differ are equal.
    ConflictDiff(String, String),
    /// Two fields that must not co-occur are both present.
    ConflictKey(String, String),
    /// A recognized but unsupported command shape.
    NotImplemented,
}

/// The spec-level shape of a `ParseError`, strings taken as character
/// sequences.
pub enum ParseErrorV {
    KeyNotFound(Seq<char>),
    IncorrectType(Seq<Seq<char>>),
    MultiKey(Seq<Seq<char>>),
    StringMismatch(Seq<Seq<char>>, Seq<char>),
    TomlError(Seq<char>),
    ConflictDiff(Seq<char>, Seq<char>),
    ConflictKey(Seq<char>, Seq<char>),
    NotImplemented,
}

impl View for ParseError {
    type V = ParseErrorV;

    open spec fn view(&self) -> ParseErrorV {
        match self {
            ParseError::KeyNotFound(k) => ParseErrorV::KeyNotFound(k@),
            ParseError::IncorrectType(ts) => ParseErrorV::IncorrectType(ts.deep_view()),
            ParseError::MultiKey(ks) => ParseErrorV::MultiKey(ks.deep_view()),
            ParseError::StringMismatch(ts, s) => ParseErrorV::StringMismatch(ts.deep_view(), s@),
            ParseError::TomlError(m) => ParseErrorV::TomlError(m@),
            ParseError::ConflictDiff(a, b) => ParseErrorV::ConflictDiff(a@, b@),
            ParseError::ConflictKey(a, b) => ParseErrorV::ConflictKey(a@, b@),
            ParseError::NotImplemented => ParseErrorV::NotImplemented,
        }
    }
}

impl DeepView for ParseError {
    type V = ParseErrorV;

    open spec fn deep_view(&self) -> ParseErrorV {
        self.view()
    }
}

/// Decoder results: a value or the first error met.
pub type ParseResult<T> = Result<T, ParseError>;

/// The spec-level shape of a decoder result.
pub open spec fn parse_view<T: DeepView>(r: ParseResult<T>) -> Result<T::V, ParseErrorV> {
    match r {
        Ok(t) => Ok(t.deep_view()),
        Err(e) => Err(e.deep_view()),
    }
}


/// The text of a decoder error.
pub open spec fn err_text(e: ParseErrorV) -> Seq<char> {
    match e {
        ParseErrorV::KeyNotFound(k) => "Key not found: "@ + k,
        ParseErrorV::IncorrectType(ts) => "Incorrect type: Must be one of the following: ("@
            + crate::text::join_with(ts, ", "@) + ")"@,
        ParseErrorV::MultiKey(ks) => "One and only one key must be provided: found ("@
            + crate::text::join_with(ks, ", "@) + ")"@,
        ParseErrorV::StringMismatch(ts, s) => "String does not match: expected one of ("@
            + crate::text::join_with(ts, ", "@) + "), found "@ + s,
        ParseErrorV::TomlError(m) => "TOML parse error: "@ + m,
        ParseErrorV::ConflictDiff(a, b) => "Conflict: keys "@ + a + " and "@ + b
            + " cannot have the same value"@,
        ParseErrorV::ConflictKey(a, b) => "Conflict: keys "@ + a + " and "@ + b
            + " cannot both be defined"@,
        ParseErrorV::NotImplemented => "Not implemented"@,
    }
}

impl ParseError {
    /// Renders the error's text.
    pub fn message(&self) -> (r: String)
        ensures
            r@ == err_text(self@),
    {
        match self {
            ParseError::KeyNotFound(k) => {
                let mut acc = String::from_str("Key not found: ");
                acc.append(k.as_str());
                acc
            },
            ParseError::IncorrectType(ts) => {
                let mut acc = String::from_str(
                    "Incorrect type: Must be one of the following: (",
                );
                let j = crate::text::join_strings(ts, ", ");
                acc.append(j.as_str());
                acc.append(")");
                acc
            },
            ParseError::MultiKey(ks) => {
                let mut acc = String::from_str(
                    "One and only one key must be provided: found (",
                );
                let j = crate::text::join_strings(ks, ", ");
                acc.append(j.as_str());
                acc.append(")");
                acc
            },
            ParseError::StringMismatch(ts, v) => {
                let mut acc = String::from_str("String does not match: expected one of (");
                let j = crate::text::join_strings(ts, ", ");
                acc.append(j.as_str());
                acc.append("), found ");
                acc.append(v.as_str());
                acc
            },
            ParseError::TomlError(m) => {
                let mut acc = String::from_str("TOML parse error: ");
                acc.append(m.as_str());
                acc
            },
            ParseError::ConflictDiff(a, b) => {
                let mut acc = String::from_str("Conflict: keys ");
                acc.append(a.as_str());
                acc.append(" and ");
                acc.append(b.as_str());
                acc.append(" cannot have the same value");
                acc
            },
            ParseError::ConflictKey(a, b) => {
                let mut acc = String::from_str("Conflict: keys ");
                acc.append(a.as_str());
                acc.append(" and ");
                acc.append(b.as_str());
                acc.append(" cannot both be defined");
                acc
            },
            ParseError::NotImplemented => String::from_str("Not implemented"),
        }
    }
}

} // verus!
