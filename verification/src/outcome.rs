//! What a run leaves behind: the two output streams and the exit status.

use std::fmt::Display;
use vstd::prelude::*;
use vstd::string::to_string_from_display_ensures;

verus! {

/// How the process ends.
#[derive(Clone, Copy, Debug, PartialEq, Eq, Structural)]
pub enum ExitStatus {
    /// The request was served.
    Success,
    /// The preprocessor does not handle the renderer that was asked about.
    Unsupported,
    /// The request failed.
    Error,
}

impl ExitStatus {
    /// The exit code as an integer: zero for success alone.
    pub open spec fn spec_code(self) -> int {
        match self {
            ExitStatus::Success => 0,
            ExitStatus::Unsupported => 1,
            ExitStatus::Error => 1,
        }
    }

    /// The code to hand to the operating system.
    pub fn code(&self) -> (code: i32)
        ensures
            code == self.spec_code(),
    {
        match self {
            ExitStatus::Success => 0,
            ExitStatus::Unsupported => 1,
            ExitStatus::Error => 1,
        }
    }
}

/// Why a request failed.
#[derive(Clone, Copy, Debug, PartialEq, Eq, Structural)]
pub enum FailureKind {
    /// The command line is not one that can be served.
    Usage,
    /// Standard input does not hold a context and a book.
    Deserialization,
    /// The calling mdbook's version, or the version this build was made
    /// against, does not parse.
    VersionParse,
    /// The preprocessor reported an error.
    Operation,
    /// The processed book could not be written as JSON.
    Serialization,
}

/// A failed request: its kind, and the text to show for it.
#[derive(Clone, Debug)]
pub struct Failure {
    /// Which step failed.
    pub kind: FailureKind,
    /// The text for standard error, without a line feed.
    pub message: String,
}

/// A [`Failure`] with its message as a sequence of characters.
pub ghost struct FailureView {
    pub kind: FailureKind,
    pub message: Seq<char>,
}

impl View for Failure {
    type V = FailureView;

    open spec fn view(&self) -> FailureView {
        FailureView { kind: self.kind, message: self.message@ }
    }
}

/// Whether `message` is the text that `error` displays as.
pub open spec fn displays<E: Display>(error: E, message: String) -> bool {
    to_string_from_display_ensures::<E>(&error, message)
}

/// Whether `failure` is of `kind` and carries the display text of `error`.
pub open spec fn reports<E: Display>(failure: Failure, kind: FailureKind, error: E) -> bool {
    failure.kind == kind && displays(error, failure.message)
}

/// The failure of `kind` that `error` stands for, under the error's display
/// text.
pub fn failure_from<E: Display>(kind: FailureKind, error: &E) -> (failure: Failure)
    ensures
        reports(failure, kind, *error),
{
    Failure { kind, message: error.to_string() }
}

/// Everything the process still has to do: write `stdout` to standard output,
/// `stderr` to standard error, and exit with `status`.
#[derive(Clone, Debug)]
pub struct Outcome {
    /// The bytes for standard output.
    pub stdout: String,
    /// The bytes for standard error.
    pub stderr: String,
    /// The status to exit with.
    pub status: ExitStatus,
}

/// An [`Outcome`] with its two texts as sequences of characters.
pub ghost struct OutcomeView {
    pub stdout: Seq<char>,
    pub stderr: Seq<char>,
    pub status: ExitStatus,
}

impl View for Outcome {
    type V = OutcomeView;

    open spec fn view(&self) -> OutcomeView {
        OutcomeView { stdout: self.stdout@, stderr: self.stderr@, status: self.status }
    }
}

/// `text` followed by a line feed.
pub open spec fn line(text: Seq<char>) -> Seq<char> {
    text.push('\n')
}

/// The outcome of a request that produced `result`: a payload goes to standard
/// output as one line and the run succeeds; a failure puts its message on
/// standard error as one line, leaves standard output empty, and the run fails.
pub open spec fn conclusion(result: Result<Seq<char>, FailureView>) -> OutcomeView {
    match result {
        Ok(payload) => OutcomeView {
            stdout: line(payload),
            stderr: Seq::empty(),
            status: ExitStatus::Success,
        },
        Err(failure) => OutcomeView {
            stdout: Seq::empty(),
            stderr: line(failure.message),
            status: ExitStatus::Error,
        },
    }
}

/// `result` with payload and message as sequences of characters.
pub open spec fn result_view(result: Result<String, Failure>) -> Result<Seq<char>, FailureView> {
    match result {
        Ok(payload) => Ok(payload@),
        Err(failure) => Err(failure@),
    }
}

/// `text` with a line feed appended.
fn into_line(text: String) -> (terminated: String)
    ensures
        terminated@ == line(text@),
{
    let terminated = text.concat("\n");
    proof {
        reveal_strlit("\n");
        assert(terminated@ =~= line(text@));
    }
    terminated
}

/// Turns the result of a request into what the process does last.
pub fn conclude(result: Result<String, Failure>) -> (outcome: Outcome)
    ensures
        outcome@ == conclusion(result_view(result)),
{
    match result {
        Ok(payload) => Outcome {
            stdout: into_line(payload),
            stderr: String::new(),
            status: ExitStatus::Success,
        },
        Err(failure) => Outcome {
            stdout: String::new(),
            stderr: into_line(failure.message),
            status: ExitStatus::Error,
        },
    }
}

/// A failed request writes nothing to standard output and exits nonzero,
/// whatever the failure.
pub proof fn failure_writes_nothing(failure: FailureView)
    ensures
        conclusion(Err(failure)).stdout.len() == 0,
        conclusion(Err(failure)).status.spec_code() != 0,
{
}

} // verus!
