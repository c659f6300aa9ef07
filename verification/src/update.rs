use vstd::prelude::*;

use crate::version::{release_version_is_newer, version_is_newer};

verus! {

/// The message shown when the update check fails, by the HTTP status that
/// GitHub answered with (`None` when no answer came).
pub open spec fn spec_update_error_message(status: Option<u16>) -> Seq<char> {
    match status {
        Some(404) => "Release not found. The repository may have no published release."@,
        Some(403) | Some(429) => "GitHub temporarily rejected the update check. Please try again later."@,
        Some(_) => "GitHub could not complete the update check. Please try again later."@,
        None => "Could not reach GitHub. Check your internet connection and try again."@,
    }
}

/// The user-facing message for a failed update check.
pub fn update_error_message(status: Option<u16>) -> (res: &'static str)
    ensures
        res@ == spec_update_error_message(status),
{
    match status {
        Some(404) => "Release not found. The repository may have no published release.",
        Some(403) | Some(429) => "GitHub temporarily rejected the update check. Please try again later.",
        Some(_) => "GitHub could not complete the update check. Please try again later.",
        None => "Could not reach GitHub. Check your internet connection and try again.",
    }
}

/// What an update check found.
#[derive(Clone, Copy, Debug, PartialEq, Eq, Structural)]
pub enum UpdateCheckOutcome {
    /// The latest release is newer than the running version.
    Available,
    /// The latest release is not newer, or its tag is not a version.
    UpToDate,
    /// The release could not be fetched; the status GitHub answered with,
    /// if it answered.
    Failed(Option<u16>),
}

/// Decides what to tell the user, given the latest release's tag or the
/// failure of fetching it, and the running version.
pub fn update_check_outcome(latest: Result<&str, Option<u16>>, current: &str) -> (res:
    UpdateCheckOutcome)
    ensures
        res == match latest {
            Ok(tag) => if version_is_newer(tag@, current@) {
                UpdateCheckOutcome::Available
            } else {
                UpdateCheckOutcome::UpToDate
            },
            Err(status) => UpdateCheckOutcome::Failed(status),
        },
{
    match latest {
        Ok(tag) => if release_version_is_newer(tag, current) {
            UpdateCheckOutcome::Available
        } else {
            UpdateCheckOutcome::UpToDate
        },
        Err(status) => UpdateCheckOutcome::Failed(status),
    }
}

} // verus!
