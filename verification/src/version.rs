//! Whether the calling mdbook is one this build was made for.
//!
//! A mismatch is advice, never an obstacle: mdbook's minor releases mostly keep
//! preprocessors working, so the caller is warned and served all the same. Only
//! a version that cannot be read at all stops the run.

use crate::outcome::{failure_from, reports, Failure, FailureKind};
use semver::{Version, VersionReq};
use vstd::prelude::*;

verus! {

/// `semver::Version`, of which nothing is known here but where it came from.
#[verifier::external_type_specification]
#[verifier::external_body]
pub struct ExVersion(Version);

/// `semver::VersionReq`, of which nothing is known here but where it came from.
#[verifier::external_type_specification]
#[verifier::external_body]
pub struct ExVersionReq(VersionReq);

/// `semver::Error`, read only through its display text.
#[verifier::external_type_specification]
#[verifier::external_body]
pub struct ExSemverError(semver::Error);

/// What `semver::Version::parse` makes of `text`.
pub uninterp spec fn parsed_version(text: Seq<char>) -> Result<Version, semver::Error>;

/// What `semver::VersionReq::parse` makes of `text`.
pub uninterp spec fn parsed_requirement(text: Seq<char>) -> Result<VersionReq, semver::Error>;

/// What `semver::VersionReq::matches` says of `version` under `requirement`.
pub uninterp spec fn satisfies(requirement: VersionReq, version: Version) -> bool;

/// `semver::Version::parse` reads a version from text. Taken on trust: the
/// version, or the error, depends on the text alone, which is what
/// [`parsed_version`] names.
pub assume_specification[ Version::parse ](text: &str) -> (parsed: Result<Version, semver::Error>)
    ensures
        parsed == parsed_version(text@),
;

/// `semver::VersionReq::parse` reads a requirement from text. Taken on trust:
/// the requirement, or the error, depends on the text alone, which is what
/// [`parsed_requirement`] names.
pub assume_specification[ VersionReq::parse ](text: &str) -> (parsed: Result<
    VersionReq,
    semver::Error,
>)
    ensures
        parsed == parsed_requirement(text@),
;

/// `semver::VersionReq::matches` says whether a version satisfies a
/// requirement. Taken on trust: the answer depends on the two values alone,
/// which is what [`satisfies`] names.
pub assume_specification[ VersionReq::matches ](
    requirement: &VersionReq,
    version: &Version,
) -> (answer: bool)
    ensures
        answer == satisfies(*requirement, *version),
;

/// Whether semver accepts `text` as a version.
pub open spec fn version_parses(text: Seq<char>) -> bool {
    parsed_version(text) is Ok
}

/// semver's verdict on the version `host_version` under `requirement`: the
/// error of the version where it does not parse, else the error of the
/// requirement where that does not parse, else whether the one satisfies the
/// other.
pub open spec fn verdict(host_version: Seq<char>, requirement: Seq<char>) -> Result<
    bool,
    semver::Error,
> {
    match parsed_version(host_version) {
        Err(error) => Err(error),
        Ok(version) => match parsed_requirement(requirement) {
            Err(error) => Err(error),
            Ok(accepted) => Ok(satisfies(accepted, version)),
        },
    }
}

/// Compares the calling mdbook's version with the requirement this build was
/// made against.
///
/// The result is [`verdict`]: whether the version satisfies the requirement
/// where both texts parse, and else a [`FailureKind::VersionParse`] under the
/// display text of semver's error, the version being read first.
pub fn check_version(host_version: &str, requirement: &str) -> (checked: Result<bool, Failure>)
    ensures
        match checked {
            Ok(compatible) => verdict(host_version@, requirement@) matches Ok(found) && found
                == compatible,
            Err(failure) => verdict(host_version@, requirement@) matches Err(error) && reports(
                failure,
                FailureKind::VersionParse,
                error,
            ),
        },
{
    let version = match Version::parse(host_version) {
        Ok(version) => version,
        Err(e) => {
            return Err(failure_from(FailureKind::VersionParse, &e));
        },
    };
    let accepted = match VersionReq::parse(requirement) {
        Ok(accepted) => accepted,
        Err(e) => {
            return Err(failure_from(FailureKind::VersionParse, &e));
        },
    };
    Ok(accepted.matches(&version))
}

/// The warning for a preprocessor `name` built against `built_against` and
/// called from mdbook `host_version`.
pub open spec fn warning_text(
    name: Seq<char>,
    built_against: Seq<char>,
    host_version: Seq<char>,
) -> Seq<char> {
    "Warning: The "@ + name + " plugin was built against version "@ + built_against
        + " of mdbook, but we're being called from version "@ + host_version
}

/// What a version check leads to on standard error: nothing when the host is
/// compatible, the warning of [`warning_text`] when it is not.
pub open spec fn advice(
    compatible: bool,
    name: Seq<char>,
    built_against: Seq<char>,
    host_version: Seq<char>,
) -> Option<Seq<char>> {
    if compatible {
        None
    } else {
        Some(warning_text(name, built_against, host_version))
    }
}

/// `warning` with its text as a sequence of characters.
pub open spec fn advice_view(warning: Option<String>) -> Option<Seq<char>> {
    match warning {
        Some(text) => Some(text@),
        None => None,
    }
}

/// The warning to show after a version check that found the host
/// `compatible` or not. An incompatible host is warned about and nothing more.
pub fn version_warning(
    compatible: bool,
    name: &str,
    built_against: &str,
    host_version: &str,
) -> (warning: Option<String>)
    ensures
        advice_view(warning) == advice(compatible, name@, built_against@, host_version@),
{
    if compatible {
        return None;
    }
    let mut text = String::from_str("Warning: The ");
    text.append(name);
    text.append(" plugin was built against version ");
    text.append(built_against);
    text.append(" of mdbook, but we're being called from version ");
    text.append(host_version);
    assert(text@ =~= warning_text(name@, built_against@, host_version@));
    Some(text)
}

} // verus!
