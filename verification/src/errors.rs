//! The error taxonomy of the profile lookup, and its display texts.

use vstd::prelude::*;
use vstd::string::*;

verus! {

/// A fault in the text of `profiles.ini`, found while parsing it.
#[derive(Clone, Copy, Debug, PartialEq, Eq, Structural)]
pub enum IniSyntaxError {
    /// A line opens a section header with `[` but does not close it with `]`.
    UnterminatedHeader,
    /// A line is neither blank, a comment, nor a header, yet holds no `=`.
    MissingEquals,
}

/// Everything that can go wrong while locating the default profile.
#[derive(Clone, Copy, Debug, PartialEq, Eq, Structural)]
pub enum Error {
    /// The environment provides no home directory.
    NoHomeDir,
    /// `profiles.ini` does not exist under the Firefox base directory.
    NoProfilesIni,
    /// `profiles.ini` exists but its text is malformed.
    ParseIniError { source: IniSyntaxError },
    /// No section name starts with `Install`.
    NoInstallSection,
    /// The first `Install`-prefixed section has no `Default` key.
    NoDefaultProfile,
}

/// The diagnostic text for a syntax fault.
pub open spec fn spec_syntax_message(e: IniSyntaxError) -> Seq<char> {
    match e {
        IniSyntaxError::UnterminatedHeader => "unterminated section header"@,
        IniSyntaxError::MissingEquals => "expected a 'key = value' line"@,
    }
}

/// The human-readable text for each error kind; the parse failure carries
/// the underlying syntax diagnostic.
pub open spec fn spec_error_message(e: Error) -> Seq<char> {
    match e {
        Error::NoHomeDir => "user home directory doesn't exist"@,
        Error::NoProfilesIni => "profiles.ini doesn't exist"@,
        Error::ParseIniError { source } => "parsing INI failed: "@ + spec_syntax_message(source),
        Error::NoInstallSection => "no Install* section in profiles.ini"@,
        Error::NoDefaultProfile => "no default profile in profiles.ini"@,
    }
}

impl IniSyntaxError {
    /// The human-readable diagnostic for this syntax fault.
    pub fn message(&self) -> (r: String)
        ensures
            r@ == spec_syntax_message(*self),
    {
        match self {
            IniSyntaxError::UnterminatedHeader => String::from_str("unterminated section header"),
            IniSyntaxError::MissingEquals => String::from_str("expected a 'key = value' line"),
        }
    }
}

impl Error {
    /// The human-readable description of this failure.
    pub fn message(&self) -> (r: String)
        ensures
            r@ == spec_error_message(*self),
    {
        match self {
            Error::NoHomeDir => String::from_str("user home directory doesn't exist"),
            Error::NoProfilesIni => String::from_str("profiles.ini doesn't exist"),
            Error::ParseIniError { source } => {
                let prefix = String::from_str("parsing INI failed: ");
                let diagnostic = source.message();
                prefix.concat(diagnostic.as_str())
            },
            Error::NoInstallSection => String::from_str("no Install* section in profiles.ini"),
            Error::NoDefaultProfile => String::from_str("no default profile in profiles.ini"),
        }
    }
}

} // verus!
