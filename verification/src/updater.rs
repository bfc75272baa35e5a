//! Rules of the application updater: what an available update reports,
//! and how download progress is accumulated.
use vstd::prelude::*;

verus! {

/// Seconds after start before the first background check.
pub const FIRST_CHECK_DELAY_SECS: u64 = 5;

/// Seconds between background checks (six hours).
pub const CHECK_INTERVAL_SECS: u64 = 21600;

/// An available update.
#[derive(Debug, Clone)]
pub struct UpdateInfo {
    pub version: String,
    pub body: String,
}

impl UpdateInfo {
    /// The update to `version`; release notes default to empty.
    pub fn new(version: &str, body: Option<&str>) -> (u: Self)
        ensures
            u.version@ == version@,
            u.body@ == match body {
                Some(b) => b@,
                None => Seq::<char>::empty(),
            },
    {
        UpdateInfo {
            version: version.to_owned(),
            body: match body {
                Some(b) => b.to_owned(),
                None => String::new(),
            },
        }
    }
}

/// Bytes downloaded so far after a progress report. The installer may
/// report either the length of the last piece or the running total: a
/// report between the previous total and the announced size counts as the
/// running total, anything else as one more piece (adding saturates).
pub open spec fn spec_downloaded_total(previous: u64, reported: u64, content_length: Option<u64>) -> u64 {
    let added = if previous + reported > u64::MAX {
        u64::MAX
    } else {
        (previous + reported) as u64
    };
    match content_length {
        Some(total) => if reported <= total && reported >= previous {
            reported
        } else {
            added
        },
        None => added,
    }
}

/// Accumulates one download progress report.
pub fn next_downloaded_total(previous: u64, reported: u64, content_length: Option<u64>) -> (d: u64)
    ensures
        d == spec_downloaded_total(previous, reported, content_length),
        d >= previous,
{
    match content_length {
        Some(total) => if reported <= total && reported >= previous {
            reported
        } else {
            previous.saturating_add(reported)
        },
        None => previous.saturating_add(reported),
    }
}

/// An installation can start only when none runs.
pub fn check_install_start(in_progress: bool) -> (r: Result<(), String>)
    ensures
        in_progress ==> (r matches Err(m) && m@ == "Update installation is already in progress"@),
        !in_progress ==> r is Ok,
{
    if in_progress {
        Err("Update installation is already in progress".to_owned())
    } else {
        Ok(())
    }
}

} // verus!
