//! What one attempt to run the transcoder came to, and what to report of it.
//!
//! Starting the process is the caller's part. It hands over an [`Attempt`];
//! the status, the kind of failure and the lines for the log follow from it.

use crate::status::PodcastStatus;
use crate::text::{decimal, joined, spec_decimal};
use vstd::prelude::*;
use vstd::string::StringExecFns;

verus! {

/// What a process that ran to its end left behind.
#[derive(Clone, Debug)]
pub struct ProcessResult {
    /// Everything it wrote to standard output.
    pub stdout: String,
    /// Everything it wrote to standard error.
    pub stderr: String,
    /// Its exit code; `None` where it ended without one, as when a signal
    /// killed it.
    pub exit_code: Option<i32>,
}

/// One attempt to run the transcoder.
#[derive(Clone, Debug)]
pub enum Attempt {
    /// The executable was not found.
    NotFound,
    /// The executable was found and the system did not start it.
    LaunchFailed,
    /// The process started and its output could not be read.
    OutputUnreadable,
    /// The process ran to its end.
    Completed(ProcessResult),
}

/// Why a stage failed. The caller of the pipeline never sees this: it is for
/// the log.
#[derive(Clone, Copy, Debug, PartialEq, Eq, Structural)]
pub enum Fault {
    /// The output directories could not be created.
    DirectoryCreateError,
    ExecutableNotFound,
    ProcessLaunchError,
    ProcessIOError,
    /// The transcoder ran and reported an error with this exit code.
    NonZeroExit(i32),
    /// The transcoder ended without an exit code.
    AbnormalTermination,
}

/// The line that the log gets for a fault.
pub open spec fn spec_message(fault: Fault) -> Seq<char> {
    match fault {
        Fault::DirectoryCreateError => "Failed to create output directory"@,
        Fault::ExecutableNotFound => "Failed to launch ffmpeg sidecar"@,
        Fault::ProcessLaunchError => "Failed to start ffmpeg"@,
        Fault::ProcessIOError => "Failed to read the output of ffmpeg"@,
        Fault::NonZeroExit(code) => "ffmpeg failed with status: "@ + spec_decimal(code as int),
        Fault::AbnormalTermination => "ffmpeg terminated unexpectedly."@,
    }
}

/// The fault of an attempt, if it has one: every attempt but one that ran
/// to its end with exit code 0.
pub open spec fn spec_fault(attempt: Attempt) -> Option<Fault> {
    match attempt {
        Attempt::NotFound => Some(Fault::ExecutableNotFound),
        Attempt::LaunchFailed => Some(Fault::ProcessLaunchError),
        Attempt::OutputUnreadable => Some(Fault::ProcessIOError),
        Attempt::Completed(result) => match result.exit_code {
            None => Some(Fault::AbnormalTermination),
            Some(code) => if code == 0 {
                None
            } else {
                Some(Fault::NonZeroExit(code))
            },
        },
    }
}

/// The status of an attempt: `Success` where it has no fault.
pub open spec fn spec_status(attempt: Attempt) -> PodcastStatus {
    if spec_fault(attempt) is None {
        PodcastStatus::Success
    } else {
        PodcastStatus::Failure
    }
}

/// `label` and `captured` in one line, or nothing where nothing was captured.
pub open spec fn spec_stream_lines(label: Seq<char>, captured: Seq<char>) -> Seq<Seq<char>> {
    if captured.len() == 0 {
        seq![]
    } else {
        seq![label + captured]
    }
}

/// The lines of a fault, if there is one.
pub open spec fn spec_fault_lines(fault: Option<Fault>) -> Seq<Seq<char>> {
    match fault {
        None => seq![],
        Some(fault) => seq![spec_message(fault)],
    }
}

/// The lines that the log gets for an attempt: what the process wrote to
/// standard output, if anything; what it wrote to standard error, if
/// anything; and its fault, if it has one.
pub open spec fn spec_diagnostics(attempt: Attempt) -> Seq<Seq<char>> {
    let streams = match attempt {
        Attempt::Completed(result) => spec_stream_lines("ffmpeg stdout: "@, result.stdout@)
            + spec_stream_lines("ffmpeg stderr: "@, result.stderr@),
        _ => seq![],
    };
    streams + spec_fault_lines(spec_fault(attempt))
}

impl Fault {
    /// The line that the log gets for this fault.
    pub fn message(&self) -> (text: String)
        ensures
            text@ == spec_message(*self),
    {
        match self {
            Fault::DirectoryCreateError => String::from_str("Failed to create output directory"),
            Fault::ExecutableNotFound => String::from_str("Failed to launch ffmpeg sidecar"),
            Fault::ProcessLaunchError => String::from_str("Failed to start ffmpeg"),
            Fault::ProcessIOError => String::from_str("Failed to read the output of ffmpeg"),
            Fault::NonZeroExit(code) => {
                let number = decimal(*code);
                joined("ffmpeg failed with status: ", number.as_str())
            },
            Fault::AbnormalTermination => String::from_str("ffmpeg terminated unexpectedly."),
        }
    }
}

impl Attempt {
    /// Why this attempt failed, or `None` where it did not.
    pub fn fault(&self) -> (fault: Option<Fault>)
        ensures
            fault == spec_fault(*self),
    {
        match self {
            Attempt::NotFound => Some(Fault::ExecutableNotFound),
            Attempt::LaunchFailed => Some(Fault::ProcessLaunchError),
            Attempt::OutputUnreadable => Some(Fault::ProcessIOError),
            Attempt::Completed(result) => match result.exit_code {
                None => Some(Fault::AbnormalTermination),
                Some(code) => if code == 0 {
                    None
                } else {
                    Some(Fault::NonZeroExit(code))
                },
            },
        }
    }

    /// `Success` where the process ran to its end with exit code 0, and
    /// `Failure` in every other case.
    pub fn status(&self) -> (status: PodcastStatus)
        ensures
            status == spec_status(*self),
            status == PodcastStatus::Success <==> (*self matches Attempt::Completed(result)
                && result.exit_code == Some(0i32)),
    {
        match self.fault() {
            None => PodcastStatus::Success,
            Some(_) => PodcastStatus::Failure,
        }
    }

    /// The lines for the log, in the order in which they are to be written.
    pub fn diagnostics(&self) -> (lines: Vec<String>)
        ensures
            lines.deep_view() == spec_diagnostics(*self),
    {
        let mut lines: Vec<String> = Vec::new();
        match self {
            Attempt::Completed(result) => {
                if !result.stdout.as_str().is_empty() {
                    lines.push(joined("ffmpeg stdout: ", result.stdout.as_str()));
                }
                if !result.stderr.as_str().is_empty() {
                    lines.push(joined("ffmpeg stderr: ", result.stderr.as_str()));
                }
            },
            _ => {},
        }
        match self.fault() {
            None => {},
            Some(fault) => {
                lines.push(fault.message());
            },
        }
        assert(lines.deep_view() =~= spec_diagnostics(*self));
        lines
    }
}

} // verus!
