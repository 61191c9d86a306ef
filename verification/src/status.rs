//! The two-valued outcome that every stage reports.

use vstd::prelude::*;

verus! {

/// How a stage, or the whole preparation, ended. There is no third state and
/// no payload: detail belongs to the diagnostics.
#[derive(Clone, Copy, Debug, PartialEq, Eq, Structural)]
pub enum PodcastStatus {
    Success,
    Failure,
}

impl PodcastStatus {
    /// The status of an operation of which only success or failure is known.
    pub fn from_ok(ok: bool) -> (status: PodcastStatus)
        ensures
            status == (if ok { PodcastStatus::Success } else { PodcastStatus::Failure }),
    {
        if ok {
            PodcastStatus::Success
        } else {
            PodcastStatus::Failure
        }
    }

    /// Whether this is `Success`.
    pub fn is_success(self) -> (yes: bool)
        ensures
            yes == (self == PodcastStatus::Success),
    {
        match self {
            PodcastStatus::Success => true,
            PodcastStatus::Failure => false,
        }
    }
}

} // verus!
