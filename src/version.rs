//! The library's own semantic version value, and the calls into `semver`
//! that parse and render it.

use vstd::prelude::*;

verus! {

/// Declares `semver`'s error type so that parse failures can be carried.
#[verifier::external_type_specification]
#[verifier::external_body]
pub struct ExSemVerError(semver::SemVerError);

/// One dot-separated part of a pre-release label or of build metadata.
#[derive(Debug, Clone, PartialEq, Eq)]
pub enum Ident {
    Numeric(u64),
    AlphaNumeric(String),
}

/// A semantic version: `MAJOR.MINOR.PATCH[-PRE][+BUILD]`.
#[derive(Debug, Clone, PartialEq, Eq)]
pub struct Version {
    pub major: u64,
    pub minor: u64,
    pub patch: u64,
    pub pre: Vec<Ident>,
    pub build: Vec<Ident>,
}

/// What `semver::Version::parse` makes of a text: `None` where it rejects it.
pub uninterp spec fn semver_parse(text: Seq<char>) -> Option<Version>;

/// The text that `semver` renders a version as.
pub uninterp spec fn semver_text(v: Version) -> Seq<char>;

/// A plain release version: the three numbers, no pre-release, no build.
pub open spec fn is_release(v: Version, major: int, minor: int, patch: int) -> bool {
    &&& v.major == major
    &&& v.minor == minor
    &&& v.patch == patch
    &&& v.pre@.len() == 0
    &&& v.build@.len() == 0
}

/// Relies on `semver::Version::parse`: whether a text is accepted, and the
/// version it denotes, depend on the text alone.
#[verifier::external_body]
fn semver_parse_text(text: &str) -> (r: Result<Version, semver::SemVerError>)
    ensures
        r is Err <==> semver_parse(text@) is None,
        r matches Ok(v) ==> semver_parse(text@) == Some(v),
{
    semver::Version::parse(text).map(|v| {
        let id = |i: semver::Identifier| match i {
            semver::Identifier::Numeric(n) => Ident::Numeric(n),
            semver::Identifier::AlphaNumeric(s) => Ident::AlphaNumeric(s),
        };
        let (pre, build) = (v.pre.into_iter().map(id).collect(), v.build.into_iter().map(id).collect());
        Version { major: v.major, minor: v.minor, patch: v.patch, pre, build }
    })
}

/// Relies on `semver::Version`'s `Display`: the text depends on the version alone.
#[verifier::external_body]
fn semver_render(v: &Version) -> (r: String)
    ensures
        r@ == semver_text(*v),
{
    let id = |i: &Ident| match i {
        Ident::Numeric(n) => semver::Identifier::Numeric(*n),
        Ident::AlphaNumeric(s) => semver::Identifier::AlphaNumeric(s.clone()),
    };
    let (pre, build) = (v.pre.iter().map(id).collect(), v.build.iter().map(id).collect());
    semver::Version { major: v.major, minor: v.minor, patch: v.patch, pre, build }.to_string()
}

impl Version {
    /// The release version `major.minor.patch`.
    pub fn new(major: u64, minor: u64, patch: u64) -> (r: Version)
        ensures
            is_release(r, major as int, minor as int, patch as int),
    {
        Version { major, minor, patch, pre: Vec::new(), build: Vec::new() }
    }

    /// Parses `MAJOR.MINOR.PATCH[-PRE][+BUILD]` as `semver` does.
    pub fn parse(text: &str) -> (r: Result<Version, semver::SemVerError>)
        ensures
            r is Err <==> semver_parse(text@) is None,
            r matches Ok(v) ==> semver_parse(text@) == Some(v),
    {
        semver_parse_text(text)
    }

    /// The version's text, as `semver` renders it.
    pub fn to_string(&self) -> (r: String)
        ensures
            r@ == semver_text(*self),
    {
        semver_render(self)
    }

    /// Drops the pre-release label and the build metadata.
    fn clear_metadata(&mut self)
        ensures
            final(self).major == old(self).major,
            final(self).minor == old(self).minor,
            final(self).patch == old(self).patch,
            final(self).pre@.len() == 0,
            final(self).build@.len() == 0,
    {
        self.pre = Vec::new();
        self.build = Vec::new();
    }

    /// Adds one to the patch number and drops pre-release and build.
    pub fn increment_patch(&mut self)
        requires
            old(self).patch < u64::MAX,
        ensures
            is_release(*final(self), old(self).major as int, old(self).minor as int, old(self).patch + 1),
    {
        self.patch = self.patch + 1;
        self.clear_metadata();
    }

    /// Adds one to the minor number, resets the patch number, and drops
    /// pre-release and build.
    pub fn increment_minor(&mut self)
        requires
            old(self).minor < u64::MAX,
        ensures
            is_release(*final(self), old(self).major as int, old(self).minor + 1, 0),
    {
        self.minor = self.minor + 1;
        self.patch = 0;
        self.clear_metadata();
    }

    /// Adds one to the major number, resets minor and patch, and drops
    /// pre-release and build.
    pub fn increment_major(&mut self)
        requires
            old(self).major < u64::MAX,
        ensures
            is_release(*final(self), old(self).major + 1, 0, 0),
    {
        self.major = self.major + 1;
        self.minor = 0;
        self.patch = 0;
        self.clear_metadata();
    }
}

} // verus!
