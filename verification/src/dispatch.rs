//! The command line: which of the two conversations mdbook has opened.
//!
//! With no arguments the process is to preprocess a book. With
//! `supports <renderer>` it is to say, by its exit code alone, whether the
//! preprocessor handles that renderer. Anything else is answered here, before
//! a byte of standard input is read.

use crate::outcome::{
    conclusion,
    ExitStatus,
    Failure,
    FailureKind,
    FailureView,
    Outcome,
    OutcomeView,
};
use clap::{App, AppSettings, Arg, SubCommand};
use vstd::prelude::*;

verus! {

/// What clap made of a command line, for an app with one subcommand that
/// takes one positional argument.
#[derive(Clone, Debug)]
pub enum Matches {
    /// clap accepted the command line. `subcommand` is `None` where the
    /// subcommand was not given; where it was, it holds the value of the
    /// subcommand's argument, if there is one.
    Accepted { subcommand: Option<Option<String>> },
    /// clap answered the command line itself: with a usage error for standard
    /// error, or with the help text for standard output.
    Refused { use_stderr: bool, message: String },
}

/// A [`Matches`] without the wording of clap's message.
pub ghost enum Reading {
    /// [`Matches::Accepted`], the argument's value as a sequence of characters.
    Accepted { subcommand: Option<Option<Seq<char>>> },
    /// [`Matches::Refused`], whatever the message.
    Refused { use_stderr: bool },
}

impl Matches {
    /// What clap made of the command line, whatever its message says.
    pub open spec fn reading(self) -> Reading {
        match self {
            Matches::Accepted { subcommand: None } => Reading::Accepted { subcommand: None },
            Matches::Accepted { subcommand: Some(None) } => Reading::Accepted {
                subcommand: Some(None),
            },
            Matches::Accepted { subcommand: Some(Some(value)) } => Reading::Accepted {
                subcommand: Some(Some(value@)),
            },
            Matches::Refused { use_stderr, message } => Reading::Refused { use_stderr },
        }
    }
}

/// How clap reads the arguments `args`, the program's own name first, for an
/// app called `name` and described by `about`, without a version flag and
/// with help that is never wrapped, with one subcommand `subcommand`,
/// described by `subcommand_about`, that takes one positional argument
/// `argument`, `required` or not.
pub uninterp spec fn command_line(
    name: Seq<char>,
    about: Seq<char>,
    subcommand: Seq<char>,
    subcommand_about: Seq<char>,
    argument: Seq<char>,
    required: bool,
    args: Seq<Seq<char>>,
) -> Reading;

/// Calls `clap::App::get_matches_from_safe` on `args`, for the app that
/// [`command_line`] describes: the builder calls before it make that app, and
/// what comes back is read with `clap::ArgMatches::subcommand_matches` and
/// `clap::ArgMatches::value_of`, or with `clap::Error::use_stderr` and the
/// error's message. The app has no version flag, on which clap would write to
/// standard output itself: with `DisableVersion` and `VersionlessSubcommands`
/// set, clap writes to no stream on any command line. Its terminal width is
/// set to 0, which clap reads as no limit: help is then laid out without
/// wrapping, and it is the wrapping that fails on some names and
/// descriptions. Taken on trust: the call returns on every input, and what
/// clap finds depends on these arguments alone. The wording of its message may
/// depend on the terminal, and nothing is claimed of it.
#[verifier::external_body]
fn match_arguments(
    name: &str,
    about: &str,
    subcommand: &str,
    subcommand_about: &str,
    argument: &str,
    required: bool,
    args: &Vec<String>,
) -> (matches: Matches)
    ensures
        matches.reading() == command_line(
            name@,
            about@,
            subcommand@,
            subcommand_about@,
            argument@,
            required,
            args.deep_view(),
        ),
{
    let positional = Arg::with_name(argument).required(required);
    let query = SubCommand::with_name(subcommand).arg(positional).about(subcommand_about);
    let silent = [AppSettings::DisableVersion, AppSettings::VersionlessSubcommands];
    let app = App::new(name).about(about).settings(&silent).set_term_width(0).subcommand(query);
    match app.get_matches_from_safe(args) {
        Ok(found) => Matches::Accepted {
            subcommand: found.subcommand_matches(subcommand).map(
                |given| given.value_of(argument).map(String::from),
            ),
        },
        Err(e) => Matches::Refused { use_stderr: e.use_stderr(), message: e.message },
    }
}

/// What the process is asked to do.
#[derive(Clone, Debug)]
pub enum Invocation {
    /// Read a context and a book from standard input and preprocess the book.
    Preprocess,
    /// Say whether the preprocessor supports `renderer`.
    Supports { renderer: String },
    /// Print `text`, the help that was asked for, and exit successfully.
    Inform { text: String },
    /// Refuse the command line.
    Invalid(Failure),
}

/// An [`Invocation`] with its texts as sequences of characters.
pub ghost enum InvocationView {
    Preprocess,
    Supports { renderer: Seq<char> },
    Inform { text: Seq<char> },
    Invalid(FailureView),
}

impl View for Invocation {
    type V = InvocationView;

    open spec fn view(&self) -> InvocationView {
        match self {
            Invocation::Preprocess => InvocationView::Preprocess,
            Invocation::Supports { renderer } => InvocationView::Supports { renderer: renderer@ },
            Invocation::Inform { text } => InvocationView::Inform { text: text@ },
            Invocation::Invalid(failure) => InvocationView::Invalid(failure@),
        }
    }
}

/// The name of the subcommand that asks about a renderer.
pub open spec fn supports_subcommand() -> Seq<char> {
    "supports"@
}

/// The name of that subcommand's argument.
pub open spec fn renderer_argument() -> Seq<char> {
    "renderer"@
}

/// What `supports --help` says of the subcommand.
pub open spec fn supports_about() -> Seq<char> {
    "Check whether a renderer is supported by this preprocessor"@
}

/// The message for an argument that is not valid UTF-8, in clap's words.
pub open spec fn undecodable_argument() -> Seq<char> {
    "error: Invalid UTF-8 was detected in one or more arguments"@
}

/// The failure for a command line with an argument that is not valid UTF-8,
/// which can be no string and so cannot be handed to [`run`]: a usage failure
/// under [`undecodable_argument`].
pub fn invalid_utf8() -> (failure: Failure)
    ensures
        failure@ == (FailureView { kind: FailureKind::Usage, message: undecodable_argument() }),
{
    Failure {
        kind: FailureKind::Usage,
        message: String::from_str("error: Invalid UTF-8 was detected in one or more arguments"),
    }
}

/// The message for a `supports` that names no renderer.
pub open spec fn missing_renderer() -> Seq<char> {
    "The renderer to check is missing"@
}

/// The invocation that `matches` stands for: a command line without the
/// subcommand asks for preprocessing, the subcommand with a renderer asks
/// about that renderer, and the subcommand without one is a usage failure.
/// What clap answered itself is a usage failure where the text is meant for
/// standard error, and information where it is meant for standard output,
/// under clap's own message.
pub open spec fn routed(matches: Matches) -> InvocationView {
    match matches {
        Matches::Accepted { subcommand: None } => InvocationView::Preprocess,
        Matches::Accepted { subcommand: Some(Some(renderer)) } => InvocationView::Supports {
            renderer: renderer@,
        },
        Matches::Accepted { subcommand: Some(None) } => InvocationView::Invalid(
            FailureView { kind: FailureKind::Usage, message: missing_renderer() },
        ),
        Matches::Refused { use_stderr: true, message } => InvocationView::Invalid(
            FailureView { kind: FailureKind::Usage, message: message@ },
        ),
        Matches::Refused { use_stderr: false, message } => InvocationView::Inform {
            text: message@,
        },
    }
}

/// Decides what to do with what clap made of the command line.
pub fn route(matches: Matches) -> (invocation: Invocation)
    ensures
        invocation@ == routed(matches),
{
    match matches {
        Matches::Accepted { subcommand: None } => Invocation::Preprocess,
        Matches::Accepted { subcommand: Some(Some(renderer)) } => Invocation::Supports {
            renderer,
        },
        Matches::Accepted { subcommand: Some(None) } => Invocation::Invalid(
            Failure {
                kind: FailureKind::Usage,
                message: String::from_str("The renderer to check is missing"),
            },
        ),
        Matches::Refused { use_stderr: true, message } => Invocation::Invalid(
            Failure { kind: FailureKind::Usage, message },
        ),
        Matches::Refused { use_stderr: false, message } => Invocation::Inform { text: message },
    }
}

/// Whether `invocation` is what a command line calls for that clap reads as
/// `reading`. It is [`routed`] without the wording of clap's message: a
/// command line that clap answered itself leads to a usage failure, or to
/// information, under whatever message clap gave.
pub open spec fn serves(invocation: InvocationView, reading: Reading) -> bool {
    match reading {
        Reading::Accepted { subcommand: None } => invocation == InvocationView::Preprocess,
        Reading::Accepted { subcommand: Some(Some(renderer)) } => invocation == (
            InvocationView::Supports { renderer }
        ),
        Reading::Accepted { subcommand: Some(None) } => invocation == InvocationView::Invalid(
            FailureView { kind: FailureKind::Usage, message: missing_renderer() },
        ),
        Reading::Refused { use_stderr: true } => invocation matches InvocationView::Invalid(
            failure,
        ) && failure.kind == FailureKind::Usage,
        Reading::Refused { use_stderr: false } => invocation is Inform,
    }
}

/// Reads the command line `args`, the program's own name first, of the
/// preprocessor called `name` and described by `description`.
///
/// The invocation is the one that [`route`] gives for what clap makes of the
/// arguments, with the `supports` subcommand and its required `renderer`
/// argument declared. No input is read and no stream is written to decide
/// it.
pub fn run(name: &str, description: &str, args: &Vec<String>) -> (invocation: Invocation)
    ensures
        serves(
            invocation@,
            command_line(
                name@,
                description@,
                supports_subcommand(),
                supports_about(),
                renderer_argument(),
                true,
                args.deep_view(),
            ),
        ),
{
    let matches = match_arguments(
        name,
        description,
        "supports",
        "Check whether a renderer is supported by this preprocessor",
        "renderer",
        true,
        args,
    );
    route(matches)
}

/// Whether the preprocessor's answer to a query is a yes. An answer that is an
/// error is no yes.
pub open spec fn affirmed(answer: Result<bool, anyhow::Error>) -> bool {
    answer matches Ok(supported) && supported
}

/// The outcome of a query about a renderer that is `supported` or not: the
/// exit status is the whole answer, and neither stream is written to.
pub open spec fn support_outcome(supported: bool) -> OutcomeView {
    OutcomeView {
        stdout: Seq::empty(),
        stderr: Seq::empty(),
        status: if supported {
            ExitStatus::Success
        } else {
            ExitStatus::Unsupported
        },
    }
}

/// Answers a `supports` query, given what the preprocessor said of the
/// renderer. The process exits zero exactly when the preprocessor said yes; a
/// query that failed counts as a no.
pub fn handle_supports(answer: Result<bool, anyhow::Error>) -> (outcome: Outcome)
    ensures
        outcome@ == support_outcome(affirmed(answer)),
        outcome.status.spec_code() == 0 <==> affirmed(answer),
{
    let supported = match answer {
        Ok(supported) => supported,
        Err(_) => false,
    };
    Outcome {
        stdout: String::new(),
        stderr: String::new(),
        status: if supported {
            ExitStatus::Success
        } else {
            ExitStatus::Unsupported
        },
    }
}

/// A command line that clap reads as the subcommand with a renderer is a query
/// about that very renderer, and the query ends with exit code zero exactly
/// when the preprocessor's answer is a yes, with nothing written.
pub proof fn query_exits_by_the_answer(
    invocation: InvocationView,
    renderer: Seq<char>,
    answer: Result<bool, anyhow::Error>,
)
    requires
        serves(invocation, Reading::Accepted { subcommand: Some(Some(renderer)) }),
    ensures
        invocation == (InvocationView::Supports { renderer }),
        support_outcome(affirmed(answer)).status.spec_code() == 0 <==> (answer matches Ok(
            supported,
        ) && supported),
        support_outcome(affirmed(answer)).stdout.len() == 0,
{
}

/// A command line that clap reads as the subcommand without a renderer, or
/// refuses with a usage error, is a usage failure: nothing is written to
/// standard output and the process exits nonzero. No input takes part in
/// this.
pub proof fn missing_renderer_is_refused(invocation: InvocationView, reading: Reading)
    requires
        serves(invocation, reading),
        reading == (Reading::Accepted { subcommand: Some(None) }) || reading == (
            Reading::Refused { use_stderr: true }
        ),
    ensures
        invocation matches InvocationView::Invalid(failure) && {
            &&& failure.kind == FailureKind::Usage
            &&& conclusion(Err(failure)).stdout.len() == 0
            &&& conclusion(Err(failure)).status.spec_code() != 0
        },
{
}

} // verus!
