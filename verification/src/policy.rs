//! The version-compatibility policy that gates an upgrade.
//!
//! Whether an upgrade may run is decided from the installed (source) version
//! and the version the running binary was built to install (the target):
//! a development target is never a valid destination, a stable release must
//! not move to an unstable one unless the caller allows it, and the target
//! must not lie below the source.

use crate::text::{spec_contains, str_contains};
use crate::version::{semver_parts_of, version_lt, version_of_parts, Version, VersionView};
use vstd::prelude::*;
use vstd::string::*;

verus! {

/// The distinct ways an upgrade path can be refused.
#[derive(Debug)]
pub enum PathError {
    /// The target is an unreleased development build.
    DevelopTarget,
    /// The source is a stable release and the target is not known stable.
    StableToUnstable,
    /// The target version lies below the source version.
    Downgrade,
}

/// True iff a known target version exists and is a stable release.
pub open spec fn target_is_stable(target: Option<VersionView>) -> bool {
    target matches Some(t) && t.pre.len() == 0
}

/// The policy decision for one (source, target) pair, checked in order:
/// development target, stable-to-unstable, downgrade.
pub open spec fn path_decision(
    allow_unstable: bool,
    source: VersionView,
    target: Option<VersionView>,
    target_is_dev: bool,
) -> Result<(), PathError> {
    if target_is_dev {
        Err(PathError::DevelopTarget)
    } else if !allow_unstable && source.pre.len() == 0 && !target_is_stable(target) {
        Err(PathError::StableToUnstable)
    } else if target matches Some(t) && version_lt(t, source) {
        Err(PathError::Downgrade)
    } else {
        Ok(())
    }
}

/// Decides whether the path from `source` to `target` is sane. `target` is
/// the parsed version of the running binary, if its tag parsed; a target
/// whose tag marks a development build is flagged by `target_is_dev`.
///
/// Fails if and only if the target is a development build, or the source is
/// stable while the target is not known stable and unstable targets are not
/// allowed, or the target version lies below the source version.
pub fn path_is_sane(
    allow_unstable: bool,
    source: &Version,
    target: Option<&Version>,
    target_is_dev: bool,
) -> (r: Result<(), PathError>)
    ensures
        ({
            let tv = match target {
                Some(t) => Some(t@),
                None => None::<VersionView>,
            };
            &&& r == path_decision(allow_unstable, source@, tv, target_is_dev)
            &&& r is Err <==> (target_is_dev || (!allow_unstable && source@.pre.len() == 0
                && !target_is_stable(tv)) || (tv matches Some(t) && version_lt(t, source@)))
        }),
{
    if target_is_dev {
        return Err(PathError::DevelopTarget);
    }
    if !allow_unstable && source.is_stable() {
        let target_stable = match target {
            Some(t) => t.is_stable(),
            None => false,
        };
        if !target_stable {
            return Err(PathError::StableToUnstable);
        }
    }
    if let Some(t) = target {
        if t.lt(source) {
            return Err(PathError::Downgrade);
        }
    }
    Ok(())
}

/// True iff `develop` stands somewhere in `s`, which marks a tag as an
/// unreleased development build.
pub open spec fn spec_contains_develop(s: Seq<char>) -> bool {
    spec_contains(s, "develop"@)
}

/// True iff the tag names a development build.
pub fn contains_develop(s: &str) -> (r: bool)
    ensures
        r == spec_contains_develop(s@),
{
    str_contains(s, "develop")
}

/// A tag with a leading `v` sheds it before being read as a version.
pub open spec fn strip_v(s: Seq<char>) -> Seq<char> {
    if s.len() > 0 && s[0] == 'v' {
        s.skip(1)
    } else {
        s
    }
}

/// The version that a binary's tag denotes, if the tag (with any leading
/// `v` shed) is a well-formed semantic version.
pub open spec fn tag_version(s: Seq<char>) -> Option<VersionView> {
    version_of_parts(semver_parts_of(strip_v(s)))
}

/// Reads the running binary's own version out of its tag.
pub fn parse_tag_version(tag: &str) -> (r: Option<Version>)
    ensures
        match r {
            Some(v) => tag_version(tag@) == Some(v@),
            None => tag_version(tag@) is None,
        },
{
    let stripped = if !tag.is_empty() && tag.get_char(0) == 'v' {
        let n = tag.unicode_len();
        tag.substring_char(1, n)
    } else {
        tag
    };
    proof {
        assert(stripped@ =~= strip_v(tag@));
    }
    Version::parse(stripped)
}

/// Validates the upgrade path from the installed `source` version against
/// the binary's own `target_tag`, as [`path_decision`] describes: the
/// decision falls out of the tag's development marker and parsed version.
pub fn upgrade_path_validation(allow_unstable: bool, source: &Version, target_tag: &str) -> (r:
    Result<(), PathError>)
    ensures
        r == path_decision(
            allow_unstable,
            source@,
            tag_version(target_tag@),
            spec_contains_develop(target_tag@),
        ),
{
    let is_dev = contains_develop(target_tag);
    let own = parse_tag_version(target_tag);
    path_is_sane(allow_unstable, source, own.as_ref(), is_dev)
}

} // verus!
