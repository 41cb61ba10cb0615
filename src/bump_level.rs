//! The bump directive: a keyword, or the exact version to move to.

use vstd::prelude::*;
use crate::version::{semver_parse, semver_text, Version};

verus! {

/// How far to move a version.
#[derive(Debug, PartialEq)]
pub enum BumpLevel {
    Major,
    Minor,
    Patch,
    Specific(Version),
}

/// Why a directive was rejected; carries the text that was given.
#[derive(Debug, PartialEq)]
pub enum BumpLevelError {
    InvalidInput(String),
}

/// The level that a keyword names, if the text is one.
pub open spec fn keyword_level(s: Seq<char>) -> Option<BumpLevel> {
    if s == seq!['m', 'a', 'j', 'o', 'r'] {
        Some(BumpLevel::Major)
    } else if s == seq!['m', 'i', 'n', 'o', 'r'] {
        Some(BumpLevel::Minor)
    } else if s == seq!['p', 'a', 't', 'c', 'h'] {
        Some(BumpLevel::Patch)
    } else {
        None
    }
}

/// The version in a parse result, if any.
pub open spec fn parsed_value(parsed: Result<Version, semver::SemVerError>) -> Option<Version> {
    match parsed {
        Ok(v) => Some(v),
        Err(_) => None,
    }
}

/// The level a directive denotes, given what the version parser made of it:
/// a keyword first, else the parsed version, else none.
pub open spec fn level_of(s: Seq<char>, parsed: Option<Version>) -> Option<BumpLevel> {
    match keyword_level(s) {
        Some(k) => Some(k),
        None => match parsed {
            Some(v) => Some(BumpLevel::Specific(v)),
            None => None,
        },
    }
}

/// The human label of a level.
pub open spec fn label_of(level: BumpLevel) -> Seq<char> {
    match level {
        BumpLevel::Major => "Major bump"@,
        BumpLevel::Minor => "Minor bump"@,
        BumpLevel::Patch => "Patch bump"@,
        BumpLevel::Specific(v) => "Specific bump to "@ + semver_text(v),
    }
}

/// Relies on `str`'s `==`: equal exactly when the characters are.
#[verifier::external_body]
fn str_eq(a: &str, b: &str) -> (r: bool)
    ensures
        r == (a@ == b@),
{
    a == b
}

impl BumpLevel {
    /// The level that `s` names when it is one of `major`, `minor`, `patch`.
    pub fn keyword(s: &str) -> (r: Option<BumpLevel>)
        ensures
            r == keyword_level(s@),
    {
        proof {
            reveal_strlit("major");
            reveal_strlit("minor");
            reveal_strlit("patch");
            assert("major"@ =~= seq!['m', 'a', 'j', 'o', 'r']);
            assert("minor"@ =~= seq!['m', 'i', 'n', 'o', 'r']);
            assert("patch"@ =~= seq!['p', 'a', 't', 'c', 'h']);
        }
        if str_eq(s, "major") {
            Some(BumpLevel::Major)
        } else if str_eq(s, "minor") {
            Some(BumpLevel::Minor)
        } else if str_eq(s, "patch") {
            Some(BumpLevel::Patch)
        } else {
            None
        }
    }

    /// Decides the level of `s` from what the version parser made of it.
    pub fn from_parsed(s: &str, parsed: Result<Version, semver::SemVerError>) -> (r: Result<
        BumpLevel,
        BumpLevelError,
    >)
        ensures
            r is Ok <==> level_of(s@, parsed_value(parsed)) is Some,
            r matches Ok(b) ==> level_of(s@, parsed_value(parsed)) == Some(b),
            r matches Err(BumpLevelError::InvalidInput(t)) ==> t@ == s@,
    {
        match Self::keyword(s) {
            Some(k) => Ok(k),
            None => match parsed {
                Ok(v) => Ok(BumpLevel::Specific(v)),
                Err(_) => Err(BumpLevelError::InvalidInput(String::from_str(s))),
            },
        }
    }

    /// Parses a directive: `major`, `minor`, `patch`, or a version literal.
    pub fn from_str(s: &str) -> (r: Result<BumpLevel, BumpLevelError>)
        ensures
            r is Ok <==> level_of(s@, semver_parse(s@)) is Some,
            r matches Ok(b) ==> level_of(s@, semver_parse(s@)) == Some(b),
            r matches Err(BumpLevelError::InvalidInput(t)) ==> t@ == s@,
    {
        match Self::keyword(s) {
            Some(k) => Ok(k),
            None => Self::from_parsed(s, Version::parse(s)),
        }
    }

    /// The level's human label, e.g. `Minor bump`.
    pub fn to_string(&self) -> (r: String)
        ensures
            r@ == label_of(*self),
    {
        match self {
            BumpLevel::Major => String::from_str("Major bump"),
            BumpLevel::Minor => String::from_str("Minor bump"),
            BumpLevel::Patch => String::from_str("Patch bump"),
            BumpLevel::Specific(v) => {
                let text = v.to_string();
                String::from_str("Specific bump to ").concat(text.as_str())
            },
        }
    }
}

} // verus!
