//! The enumerated output format for assembled asset exports.

use vstd::prelude::*;
use vstd::string::*;

use crate::error::Error;
use crate::text::str_eq;

verus! {

/// Output format selected by the `--format` token.
///
/// A closed set of recognized tokens maps to a variant; an unrecognized
/// token is rejected, never silently defaulted.
#[derive(Debug, Clone, Copy, PartialEq, Eq, Structural)]
pub enum AsmFormat {
    /// ca65-compatible assembly source.
    Ca65,
    /// BASIC `DATA` statements.
    Basic,
    /// Raw binary data.
    Bin,
}

impl AsmFormat {
    /// The format a token denotes, or `None` for an unrecognized token.
    pub open spec fn spec_from_token(s: Seq<char>) -> Option<AsmFormat> {
        if s == "ca65"@ {
            Some(AsmFormat::Ca65)
        } else if s == "basic"@ {
            Some(AsmFormat::Basic)
        } else if s == "bin"@ {
            Some(AsmFormat::Bin)
        } else {
            None
        }
    }

    /// Parses a format token into its variant; fails on any token outside
    /// the recognized set.
    pub fn from_str(s: &str) -> (r: Result<AsmFormat, Error>)
        ensures
            match r {
                Ok(f) => AsmFormat::spec_from_token(s@) == Some(f),
                Err(e) => AsmFormat::spec_from_token(s@) is None && e.message_view() == "unknown output format: "@
                    + s@,
            },
    {
        if str_eq(s, "ca65") {
            Ok(AsmFormat::Ca65)
        } else if str_eq(s, "basic") {
            Ok(AsmFormat::Basic)
        } else if str_eq(s, "bin") {
            Ok(AsmFormat::Bin)
        } else {
            let msg = String::from_str("unknown output format: ").concat(s);
            Err(Error::ArgumentError(msg))
        }
    }
}

} // verus!
