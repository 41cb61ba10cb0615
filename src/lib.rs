//! Computes the next semantic version of a package and rewrites the
//! `version = "..."` declaration of its manifest, leaving every other line
//! untouched.

pub mod version;
pub mod bump_level;
pub mod derive_next_version;
pub mod toml;

pub use version::{Ident, Version};
pub use bump_level::{BumpLevel, BumpLevelError};
pub use derive_next_version::derive_next_version;
pub use toml::{TomlError, TomlSemverExtensions};

use vstd::prelude::*;
use derive_next_version::{bump_fits, is_next_version};
use toml::{declaration_prefix, none_with, read_result, texts, write_outcome};

verus! {

/// Why a version bump did not happen.
#[derive(Debug)]
pub enum CargoVersionError {
    /// The working tree has uncommitted changes.
    GitNotClean,
    /// The manifest could not be read or written.
    IoError(std::io::Error),
    /// The manifest declares no version.
    NoVersionFound,
    /// The declared version is not a semantic version.
    SemVerError(semver::SemVerError),
    /// The version line does not have the shape `version = "..."`.
    MalformedVersionLine,
    /// The number to increment is already the largest one a version holds.
    VersionOverflow,
}

/// The error of a bump for an error of the manifest editor.
pub open spec fn cargo_error_of(err: TomlError) -> CargoVersionError {
    match err {
        TomlError::NoVersionFound => CargoVersionError::NoVersionFound,
        TomlError::IoError(e) => CargoVersionError::IoError(e),
        TomlError::SemVerError(e) => CargoVersionError::SemVerError(e),
        TomlError::MalformedVersionLine => CargoVersionError::MalformedVersionLine,
    }
}

impl From<TomlError> for CargoVersionError {
    fn from(err: TomlError) -> (r: CargoVersionError)
        ensures
            r == cargo_error_of(err),
    {
        match err {
            TomlError::NoVersionFound => CargoVersionError::NoVersionFound,
            TomlError::IoError(e) => CargoVersionError::IoError(e),
            TomlError::SemVerError(e) => CargoVersionError::SemVerError(e),
            TomlError::MalformedVersionLine => CargoVersionError::MalformedVersionLine,
        }
    }
}

impl vstd::std_specs::convert::FromSpecImpl<TomlError> for CargoVersionError {
    open spec fn obeys_from_spec() -> bool {
        true
    }

    open spec fn from_spec(err: TomlError) -> CargoVersionError {
        cargo_error_of(err)
    }
}

/// Whether the number that `level` increments can still grow.
pub fn can_bump(current: &Version, level: &BumpLevel) -> (r: bool)
    ensures
        r == bump_fits(*current, *level),
{
    match level {
        BumpLevel::Specific(_) => true,
        BumpLevel::Major => if current.major == 0 {
            current.minor < u64::MAX
        } else {
            current.major < u64::MAX
        },
        BumpLevel::Minor => if current.major == 0 {
            current.patch < u64::MAX
        } else {
            current.minor < u64::MAX
        },
        BumpLevel::Patch => current.patch < u64::MAX,
    }
}

/// What bumping the manifest `lines` by `level` gives: the manifest's version
/// is read; an error there is passed on; else the next version is derived
/// where the incremented number can grow (`VersionOverflow` where not) and
/// written back into the manifest.
pub open spec fn bump_outcome(
    lines: Seq<String>,
    level: BumpLevel,
    read: Result<Version, TomlError>,
    r: Result<(Version, Vec<String>), CargoVersionError>,
) -> bool {
    match read {
        Err(e) => r == Err::<(Version, Vec<String>), CargoVersionError>(cargo_error_of(e)),
        Ok(current) => if !bump_fits(current, level) {
            r matches Err(CargoVersionError::VersionOverflow)
        } else {
            match r {
                Ok((next, out)) => is_next_version(current, level, next) && write_outcome(
                    lines,
                    next,
                    Ok(out),
                ),
                Err(c) => c is NoVersionFound && none_with(texts(lines), declaration_prefix()),
            }
        },
    }
}

/// Reads the version of the manifest `lines`, derives the next one under
/// `level`, and returns it with the rewritten manifest.
pub fn bump_manifest(lines: &Vec<String>, level: BumpLevel) -> (r: Result<
    (Version, Vec<String>),
    CargoVersionError,
>)
    ensures
        exists|read: Result<Version, TomlError>|
            #[trigger] read_result(lines@, read) && bump_outcome(lines@, level, read, r),
{
    let read = Version::read_from_toml(lines);
    let ghost read_value = read;
    let r = match read {
        Err(e) => Err(CargoVersionError::from(e)),
        Ok(current) => if !can_bump(&current, &level) {
            Err(CargoVersionError::VersionOverflow)
        } else {
            let next = derive_next_version(current, level);
            match next.write_to_toml(lines) {
                Ok(out) => Ok((next, out)),
                Err(e) => Err(CargoVersionError::from(e)),
            }
        },
    };
    assert(read_result(lines@, read_value) && bump_outcome(lines@, level, read_value, r));
    r
}

} // verus!
