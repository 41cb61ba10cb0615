//! The next version, under the convention that before 1.0 the minor number
//! marks breaking changes.

use vstd::prelude::*;
use crate::bump_level::BumpLevel;
use crate::version::{is_release, Version};

verus! {

/// The numbers that a keyword bump leads to: before 1.0 `Major` moves the
/// minor number and `Minor` the patch number.
pub open spec fn next_numbers(current: Version, level: BumpLevel) -> (int, int, int) {
    let (major, minor, patch) = (current.major as int, current.minor as int, current.patch as int);
    match level {
        BumpLevel::Major => if major == 0 { (0, minor + 1, 0) } else { (major + 1, 0, 0) },
        BumpLevel::Minor => if major == 0 { (0, minor, patch + 1) } else { (major, minor + 1, 0) },
        BumpLevel::Patch => (major, minor, patch + 1),
        BumpLevel::Specific(v) => (v.major as int, v.minor as int, v.patch as int),
    }
}

/// The number that the bump increments is below the largest `u64`.
pub open spec fn bump_fits(current: Version, level: BumpLevel) -> bool {
    match level {
        BumpLevel::Specific(_) => true,
        _ => {
            let (major, minor, patch) = next_numbers(current, level);
            major <= u64::MAX && minor <= u64::MAX && patch <= u64::MAX
        },
    }
}

/// What a bump yields: the given version for `Specific`, else the plain
/// release of `next_numbers`.
pub open spec fn is_next_version(current: Version, level: BumpLevel, r: Version) -> bool {
    match level {
        BumpLevel::Specific(v) => r == v,
        _ => {
            let (major, minor, patch) = next_numbers(current, level);
            is_release(r, major, minor, patch)
        },
    }
}

/// The version that follows `current_version` under `level`.
pub fn derive_next_version(current_version: Version, level: BumpLevel) -> (r: Version)
    requires
        bump_fits(current_version, level),
    ensures
        is_next_version(current_version, level, r),
{
    let mut new_version = current_version;
    if new_version.major == 0 {
        match level {
            BumpLevel::Major => new_version.increment_minor(),
            BumpLevel::Minor => new_version.increment_patch(),
            BumpLevel::Patch => new_version.increment_patch(),
            BumpLevel::Specific(version) => new_version = version,
        }
    } else {
        match level {
            BumpLevel::Major => new_version.increment_major(),
            BumpLevel::Minor => new_version.increment_minor(),
            BumpLevel::Patch => new_version.increment_patch(),
            BumpLevel::Specific(version) => new_version = version,
        }
    }
    new_version
}

/// Before 1.0, a major bump adds one to the minor number and zeroes the patch.
pub proof fn lemma_pre_one_major_bumps_minor(v: Version)
    requires
        v.major == 0,
    ensures
        next_numbers(v, BumpLevel::Major) == (0int, v.minor + 1, 0int),
{
}

/// Before 1.0, minor and patch bumps agree: both add one to the patch number.
pub proof fn lemma_pre_one_minor_is_patch(v: Version, r1: Version, r2: Version)
    requires
        v.major == 0,
        is_next_version(v, BumpLevel::Minor, r1),
        is_next_version(v, BumpLevel::Patch, r2),
    ensures
        next_numbers(v, BumpLevel::Minor) == next_numbers(v, BumpLevel::Patch),
        next_numbers(v, BumpLevel::Patch) == (0int, v.minor as int, v.patch + 1),
        r1.major == r2.major && r1.minor == r2.minor && r1.patch == r2.patch,
        r1.pre@ == r2.pre@ && r1.build@ == r2.build@,
{
    assert(r1.pre@ =~= r2.pre@);
    assert(r1.build@ =~= r2.build@);
}

/// From 1.0 on, a major bump zeroes minor and patch, and a minor bump zeroes
/// the patch.
pub proof fn lemma_release_bumps_reset_lower(v: Version)
    requires
        v.major > 0,
    ensures
        next_numbers(v, BumpLevel::Major) == (v.major + 1, 0int, 0int),
        next_numbers(v, BumpLevel::Minor) == (v.major as int, v.minor + 1, 0int),
        next_numbers(v, BumpLevel::Patch) == (v.major as int, v.minor as int, v.patch + 1),
{
}

/// A specific bump yields the given version, whatever the current one.
pub proof fn lemma_specific_ignores_current(v: Version, x: Version, r: Version)
    requires
        is_next_version(v, BumpLevel::Specific(x), r),
    ensures
        r == x,
{
}

} // verus!
