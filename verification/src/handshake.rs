//! One preprocessing request: read what mdbook sent, check its version, and
//! write the processed book back.
//!
//! The request runs in two halves with the preprocessor between them.
//! [`prepare`] takes the bytes of standard input to a [`Handshake`], which
//! holds what the preprocessor is to be run on. [`write_output`] takes what
//! the preprocessor returned to the JSON text for standard output. Either half
//! can fail, and a failure ends the request: nothing is tried twice, and no
//! output is written for a request that failed.

use crate::outcome::{
    conclusion,
    displays,
    failure_from,
    line,
    reports,
    result_view,
    ExitStatus,
    Failure,
    FailureKind,
    FailureView,
    OutcomeView,
};
use crate::version::{
    advice,
    advice_view,
    check_version,
    parsed_version,
    verdict,
    version_parses,
    version_warning,
    warning_text,
};
use mdbook::book::Book;
use mdbook::preprocess::{CmdPreprocessor, PreprocessorContext};
use vstd::prelude::*;

verus! {

/// `mdbook::preprocess::PreprocessorContext`, handed on to the preprocessor
/// unread.
#[verifier::external_type_specification]
#[verifier::external_body]
pub struct ExPreprocessorContext(PreprocessorContext);

/// `mdbook::book::Book`, handed on to the preprocessor unread.
#[verifier::external_type_specification]
#[verifier::external_body]
pub struct ExBook(Book);

/// `anyhow::Error`, the error of mdbook and of preprocessors, read only
/// through its display text.
#[verifier::external_type_specification]
#[verifier::external_body]
pub struct ExAnyhowError(anyhow::Error);

/// `serde_json::Error`, read only through its display text.
#[verifier::external_type_specification]
#[verifier::external_body]
pub struct ExJsonError(serde_json::Error);

/// What mdbook sent: the context, the book, and the version that the context
/// names for the calling mdbook.
#[derive(Debug)]
pub struct Request {
    /// The calling mdbook's version, as the context names it.
    pub host_version: String,
    /// The context to run the preprocessor with.
    pub context: PreprocessorContext,
    /// The book to run the preprocessor on.
    pub book: Book,
}

/// A [`Request`] with the version as a sequence of characters.
pub ghost struct RequestView {
    pub host_version: Seq<char>,
    pub context: PreprocessorContext,
    pub book: Book,
}

impl View for Request {
    type V = RequestView;

    open spec fn view(&self) -> RequestView {
        RequestView { host_version: self.host_version@, context: self.context, book: self.book }
    }
}

/// What `mdbook::preprocess::CmdPreprocessor::parse_input` reads from `input`:
/// the context, the book and the context's `mdbook_version`, or `None` where
/// it refuses `input` as the JSON pair of a context and a book.
pub uninterp spec fn sent(input: Seq<u8>) -> Option<RequestView>;

/// What `serde_json::to_string` makes of `book`.
pub uninterp spec fn book_text(book: Book) -> Result<Seq<char>, serde_json::Error>;

/// The text under which mdbook refuses an input.
pub open spec fn unreadable_input() -> Seq<char> {
    "Unable to parse the input"@
}

/// Whether `text` is what `error` displays as, whichever string holds it.
pub open spec fn displays_as(error: anyhow::Error, text: Seq<char>) -> bool {
    forall|message: String| #[trigger] displays(error, message) ==> message@ == text
}

/// Calls `mdbook::preprocess::CmdPreprocessor::parse_input` on `input` and
/// keeps the context's `mdbook_version` beside the two values. Taken on trust:
/// what mdbook reads depends on the bytes alone, which is what [`sent`] names;
/// and the error with which it refuses displays as [`unreadable_input`], the
/// context that mdbook wraps every such error in.
#[verifier::external_body]
fn parse_input(input: &[u8]) -> (parsed: Result<Request, anyhow::Error>)
    ensures
        match parsed {
            Ok(request) => sent(input@) == Some(request@),
            Err(error) => sent(input@) is None && displays_as(error, unreadable_input()),
        },
{
    match CmdPreprocessor::parse_input(input) {
        Ok((context, book)) => Ok(
            Request { host_version: context.mdbook_version.clone(), context, book },
        ),
        Err(e) => Err(e),
    }
}

/// Calls `serde_json::to_string` on `book`. Taken on trust: the text, or the
/// error, depends on the book alone, which is what [`book_text`] names.
#[verifier::external_body]
fn book_to_json(book: &Book) -> (text: Result<String, serde_json::Error>)
    ensures
        match text {
            Ok(json) => book_text(*book) matches Ok(named) && named == json@,
            Err(error) => book_text(*book) matches Err(named) && named == error,
        },
{
    serde_json::to_string(book)
}

/// The failure for an input that mdbook refuses.
pub open spec fn unreadable() -> FailureView {
    FailureView { kind: FailureKind::Deserialization, message: unreadable_input() }
}

/// The failure for standard input that could not be read to its end: the one
/// that mdbook's parser gives for input it refuses, [`unreadable`].
pub fn unread() -> (failure: Failure)
    ensures
        failure@ == unreadable(),
{
    Failure {
        kind: FailureKind::Deserialization,
        message: String::from_str("Unable to parse the input"),
    }
}

/// Reads the context and the book from the bytes of standard input.
///
/// Succeeds exactly on the inputs mdbook's own parser accepts, with the
/// context, the book and the version that [`sent`] names; any other input is
/// the failure [`unreadable`].
pub fn read_input(input: &[u8]) -> (read: Result<Request, Failure>)
    ensures
        match read {
            Ok(request) => sent(input@) == Some(request@),
            Err(failure) => sent(input@) is None && failure@ == unreadable(),
        },
{
    match parse_input(input) {
        Ok(request) => Ok(request),
        Err(e) => Err(failure_from(FailureKind::Deserialization, &e)),
    }
}

/// A request that is ready for the preprocessor.
#[derive(Debug)]
pub struct Handshake {
    /// What the preprocessor is to be run with and on.
    pub request: Request,
    /// Whether the calling mdbook's version satisfies the requirement this
    /// build was checked against.
    pub compatible: bool,
    /// The warning to put on standard error before the preprocessor runs.
    pub warning: Option<String>,
}

/// Whether `checked` is what the version check makes of `request`, for the
/// preprocessor `name` built against `built_against`. Where semver reads
/// both the version and the requirement, it is the handshake that holds the
/// request as it came, semver's verdict, and the warning that the verdict calls
/// for. Where semver refuses either, it is the version failure under the
/// text of semver's error.
pub open spec fn checked_as(
    name: Seq<char>,
    request: RequestView,
    built_against: Seq<char>,
    checked: Result<Handshake, Failure>,
) -> bool {
    match verdict(request.host_version, built_against) {
        Ok(compatible) => checked matches Ok(handshake) && {
            &&& handshake.request@ == request
            &&& handshake.compatible == compatible
            &&& advice_view(handshake.warning) == advice(
                compatible,
                name,
                built_against,
                request.host_version,
            )
        },
        Err(error) => checked matches Err(failure) && reports(
            failure,
            FailureKind::VersionParse,
            error,
        ),
    }
}

/// Checks the version of the mdbook that sent `request` against
/// `built_against`, for the preprocessor called `name`.
///
/// The result is as [`checked_as`] says, and a handshake holds the very
/// request that was given.
pub fn check_host(name: &str, request: Request, built_against: &str) -> (checked: Result<
    Handshake,
    Failure,
>)
    ensures
        checked_as(name@, request@, built_against@, checked),
        checked matches Ok(handshake) ==> handshake.request == request,
{
    let compatible = match check_version(request.host_version.as_str(), built_against) {
        Ok(compatible) => compatible,
        Err(failure) => {
            return Err(failure);
        },
    };
    let warning = version_warning(
        compatible,
        name,
        built_against,
        request.host_version.as_str(),
    );
    Ok(Handshake { request, compatible, warning })
}

/// Whether `prepared` is what the first half of a request makes of `input`:
/// the failure [`unreadable`] where mdbook refuses the input, and else what
/// [`checked_as`] says for the request that mdbook read.
pub open spec fn prepared_as(
    name: Seq<char>,
    input: Seq<u8>,
    built_against: Seq<char>,
    prepared: Result<Handshake, Failure>,
) -> bool {
    match sent(input) {
        None => prepared matches Err(failure) && failure@ == unreadable(),
        Some(request) => checked_as(name, request, built_against, prepared),
    }
}

/// The first half of a request: reads `input` as [`read_input`] does and
/// checks the host as [`check_host`] does. The result is as [`prepared_as`]
/// says.
pub fn prepare(name: &str, input: &[u8], built_against: &str) -> (prepared: Result<
    Handshake,
    Failure,
>)
    ensures
        prepared_as(name@, input@, built_against@, prepared),
{
    match read_input(input) {
        Ok(request) => check_host(name, request, built_against),
        Err(failure) => Err(failure),
    }
}

/// Whether `written` is what the second half of a request makes of what the
/// preprocessor returned: for an error, the operation failure under the
/// error's text; for a book, serde_json's text of that book, or the
/// serialization failure under the text of serde_json's error.
pub open spec fn written_as(
    processed: Result<Book, anyhow::Error>,
    written: Result<String, Failure>,
) -> bool {
    match processed {
        Err(error) => written matches Err(failure) && reports(
            failure,
            FailureKind::Operation,
            error,
        ),
        Ok(book) => match book_text(book) {
            Ok(json) => written matches Ok(text) && text@ == json,
            Err(error) => written matches Err(failure) && reports(
                failure,
                FailureKind::Serialization,
                error,
            ),
        },
    }
}

/// The second half of a request: turns what the preprocessor returned into the
/// JSON text of the processed book. The result is as [`written_as`] says.
pub fn write_output(processed: Result<Book, anyhow::Error>) -> (written: Result<String, Failure>)
    ensures
        written_as(processed, written),
{
    let book = match processed {
        Ok(book) => book,
        Err(e) => {
            return Err(failure_from(FailureKind::Operation, &e));
        },
    };
    match book_to_json(&book) {
        Ok(json) => Ok(json),
        Err(e) => Err(failure_from(FailureKind::Serialization, &e)),
    }
}

/// A preprocessor that returns the book unchanged gets back on standard output
/// serde_json's text of the very book that mdbook read from the input, as one
/// line and under exit code zero, whatever the host's version is found to be.
pub proof fn unchanged_book_is_written_back(
    name: Seq<char>,
    input: Seq<u8>,
    built_against: Seq<char>,
    prepared: Result<Handshake, Failure>,
    written: Result<String, Failure>,
)
    requires
        prepared_as(name, input, built_against, prepared),
        prepared matches Ok(handshake) && written_as(Ok(handshake.request.book), written),
    ensures
        sent(input) matches Some(request) && match book_text(request.book) {
            Ok(json) => conclusion(result_view(written)) == (OutcomeView {
                stdout: line(json),
                stderr: Seq::empty(),
                status: ExitStatus::Success,
            }),
            Err(_) => written is Err,
        },
{
}

/// A calling mdbook whose version does not parse ends the request with the
/// version failure under semver's text, whatever else the input holds and
/// whatever this build was made against. Nothing is then written to standard
/// output, and the process exits nonzero.
pub proof fn unreadable_version_is_fatal(
    name: Seq<char>,
    input: Seq<u8>,
    built_against: Seq<char>,
    prepared: Result<Handshake, Failure>,
)
    requires
        sent(input) matches Some(request) && !version_parses(request.host_version),
        prepared_as(name, input, built_against, prepared),
    ensures
        prepared matches Err(failure) && {
            &&& failure.kind == FailureKind::VersionParse
            &&& parsed_version(sent(input).unwrap().host_version) matches Err(error) && displays(
                error,
                failure.message,
            )
            &&& conclusion(Err(failure@)).stdout.len() == 0
            &&& conclusion(Err(failure@)).status.spec_code() != 0
        },
{
}

/// A calling mdbook whose version parses but does not satisfy the requirement
/// is served all the same. The handshake carries the warning, which names the
/// preprocessor, the requirement and the version; and a book that the
/// preprocessor returns is written as it would have been without the warning:
/// as one line on standard output, with nothing on standard error from this
/// half and exit code zero.
pub proof fn mismatch_only_warns(
    name: Seq<char>,
    input: Seq<u8>,
    built_against: Seq<char>,
    prepared: Result<Handshake, Failure>,
    book: Book,
    written: Result<String, Failure>,
)
    requires
        sent(input) matches Some(request) && verdict(request.host_version, built_against) matches Ok(
            compatible,
        ) && !compatible,
        prepared_as(name, input, built_against, prepared),
        written_as(Ok(book), written),
        book_text(book) is Ok,
    ensures
        prepared matches Ok(handshake) && {
            &&& handshake.request@ == sent(input).unwrap()
            &&& !handshake.compatible
            &&& advice_view(handshake.warning) == Some(
                warning_text(name, built_against, sent(input).unwrap().host_version),
            )
        },
        conclusion(result_view(written)) == (OutcomeView {
            stdout: line(book_text(book).unwrap()),
            stderr: Seq::empty(),
            status: ExitStatus::Success,
        }),
{
}

/// When the preprocessor reports an error, the error's text goes to standard
/// error, nothing is written to standard output, and the process exits
/// nonzero.
pub proof fn operation_error_writes_nothing(
    error: anyhow::Error,
    written: Result<String, Failure>,
)
    requires
        written_as(Err(error), written),
    ensures
        written matches Err(failure) && {
            &&& reports(failure, FailureKind::Operation, error)
            &&& conclusion(result_view(written)).stderr == line(failure.message@)
        },
        conclusion(result_view(written)).stdout.len() == 0,
        conclusion(result_view(written)).status.spec_code() != 0,
{
}

/// A request writes its whole output or none: standard output holds the
/// processed book's text as one line exactly when the preprocessor returned a
/// book that serde_json could write, and is empty in every other case.
pub proof fn output_is_whole_or_absent(
    processed: Result<Book, anyhow::Error>,
    written: Result<String, Failure>,
)
    requires
        written_as(processed, written),
    ensures
        conclusion(result_view(written)).stdout == if processed matches Ok(book) && book_text(
            book,
        ) is Ok {
            line(book_text(processed.unwrap()).unwrap())
        } else {
            Seq::empty()
        },
        conclusion(result_view(written)).status.spec_code() == 0 <==> (processed matches Ok(
            book,
        ) && book_text(book) is Ok),
{
}

} // verus!
