use mdbook::book::{Book, BookItem, Chapter};
use mdbook::errors::Error;
use mdbook::preprocess::{Preprocessor, PreprocessorContext};
use mdbook_preprocessor_boilerplate::dispatch::handle_supports;
use mdbook_preprocessor_boilerplate::handshake::{
    check_host, prepare, read_input, unread, write_output, Request,
};
use mdbook_preprocessor_boilerplate::outcome::{conclude, ExitStatus, FailureKind};
use mdbook_preprocessor_boilerplate::version::{check_version, version_warning};
use std::path::PathBuf;

const EMPTY_BOOK: &str = "{\"sections\":[],\"__non_exhaustive\":null}";

const ONE_CHAPTER: &str = "{\"sections\":[{\"Chapter\":{\"name\":\"Chapter 1\",\
    \"content\":\"# Chapter 1\\n\",\"number\":[1],\"sub_items\":[],\"path\":\"chapter_1.md\",\
    \"source_path\":\"chapter_1.md\",\"parent_names\":[]}}],\"__non_exhaustive\":null}";

fn input(version: &str, book: &str) -> Vec<u8> {
    format!(
        "[{{\"root\":\"/path/to/book\",\"config\":{{\"book\":{{\"title\":\"Example\"}},\
         \"preprocessor\":{{\"nop\":{{}}}}}},\"renderer\":\"html\",\
         \"mdbook_version\":\"{}\"}},{}]",
        version, book
    )
    .into_bytes()
}

struct Nop;

impl Preprocessor for Nop {
    fn name(&self) -> &str {
        "nop-preprocessor"
    }

    fn run(&self, _ctx: &PreprocessorContext, book: Book) -> Result<Book, Error> {
        Ok(book)
    }

    fn supports_renderer(&self, renderer: &str) -> bool {
        renderer == "html"
    }
}

struct Explosive;

impl Preprocessor for Explosive {
    fn name(&self) -> &str {
        "explosive"
    }

    fn run(&self, _ctx: &PreprocessorContext, _book: Book) -> Result<Book, Error> {
        Err(Error::msg("Boom!!1!"))
    }
}

struct Shouting;

impl Preprocessor for Shouting {
    fn name(&self) -> &str {
        "shouting"
    }

    fn run(&self, _ctx: &PreprocessorContext, mut book: Book) -> Result<Book, Error> {
        book.for_each_mut(|item| {
            if let BookItem::Chapter(chapter) = item {
                chapter.content = chapter.content.to_uppercase();
            }
        });
        Ok(book)
    }
}

#[test]
fn a_compatible_host_round_trips_silently() {
    let pre = Nop;
    let handshake = prepare(pre.name(), &input("0.4.0", EMPTY_BOOK), ">=0.4.0, <0.5.0").unwrap();
    assert_eq!(handshake.request.host_version, "0.4.0");
    assert!(handshake.compatible);
    assert_eq!(handshake.warning, None);
    let json = write_output(pre.run(&handshake.request.context, handshake.request.book)).unwrap();
    assert_eq!(json, EMPTY_BOOK);
    let outcome = conclude(Ok(json));
    assert_eq!(outcome.stdout, format!("{}\n", EMPTY_BOOK));
    assert_eq!(outcome.stderr, "");
    assert_eq!(outcome.status.code(), 0);
}

#[test]
fn an_incompatible_host_is_warned_and_served() {
    let pre = Nop;
    let handshake = prepare(pre.name(), &input("99.0.0", EMPTY_BOOK), ">=0.4.0, <0.5.0").unwrap();
    assert_eq!(handshake.request.host_version, "99.0.0");
    assert!(!handshake.compatible);
    assert_eq!(
        handshake.warning.as_deref(),
        Some(
            "Warning: The nop-preprocessor plugin was built against version >=0.4.0, <0.5.0 \
             of mdbook, but we're being called from version 99.0.0"
        )
    );
    let outcome = conclude(write_output(pre.run(&handshake.request.context, handshake.request.book)));
    assert_eq!(outcome.stdout, format!("{}\n", EMPTY_BOOK));
    assert_eq!(outcome.stderr, "");
    assert_eq!(outcome.status, ExitStatus::Success);
}

#[test]
fn an_unchanged_book_comes_back_as_it_went_in() {
    let pre = Nop;
    let handshake = prepare(pre.name(), &input("0.4.52", ONE_CHAPTER), "0.4.52").unwrap();
    let sent = handshake.request.book.clone();
    assert_eq!(sent.sections.len(), 1);
    let json = write_output(pre.run(&handshake.request.context, handshake.request.book)).unwrap();
    let received: Book = serde_json::from_str(&json).unwrap();
    assert_eq!(received, sent);
    assert_eq!(json, ONE_CHAPTER);
}

#[test]
fn a_changed_book_is_what_is_written() {
    let pre = Shouting;
    let handshake = prepare(pre.name(), &input("0.4.52", ONE_CHAPTER), "0.4.52").unwrap();
    let json = write_output(pre.run(&handshake.request.context, handshake.request.book)).unwrap();
    let received: Book = serde_json::from_str(&json).unwrap();
    let mut expected = Book::new();
    let mut chapter = Chapter::new("Chapter 1", "# CHAPTER 1\n".to_string(), "chapter_1.md", vec![]);
    chapter.number = Some(mdbook::book::SectionNumber(vec![1]));
    expected.push_item(chapter);
    assert_eq!(received, expected);
}

#[test]
fn the_context_reaches_the_preprocessor() {
    let handshake = prepare("nop", &input("0.4.52", EMPTY_BOOK), "0.4.52").unwrap();
    assert_eq!(handshake.request.context.renderer, "html");
    assert_eq!(handshake.request.context.mdbook_version, "0.4.52");
    assert_eq!(handshake.request.context.config.book.title.as_deref(), Some("Example"));
    assert!(handshake.request.context.config.get_preprocessor("nop").is_some());
}

#[test]
fn read_input_finds_the_version() {
    let request = read_input(&input("1.2.3-beta.1", ONE_CHAPTER)).unwrap();
    assert_eq!(request.host_version, "1.2.3-beta.1");
    assert_eq!(request.context.mdbook_version, "1.2.3-beta.1");
    assert_eq!(request.book.sections.len(), 1);
}

#[test]
fn malformed_input_is_a_deserialization_failure() {
    let inputs: [&[u8]; 8] = [
        b"",
        b"[{\"root\":\"\",\"config\":5,\"renderer\":\"html\",\"mdbook_version\":\"0.4.0\"},\
          {\"sections\":[],\"__non_exhaustive\":null}]",
        b"[{\"root\":\"\",\"config\":{\"book\":7},\"renderer\":\"html\",\
          \"mdbook_version\":\"0.4.0\"},{\"sections\":[],\"__non_exhaustive\":null}]",
        b"not json",
        b"[]",
        b"{\"sections\":[]}",
        b"[{\"mdbook_version\":\"0.4.0\"},{\"sections\":[],\"__non_exhaustive\":null}]",
        b"[{\"root\":\"\",\"config\":{},\"renderer\":\"html\",\"mdbook_version\":\"0.4.0\"}]",
    ];
    for bytes in inputs {
        let failure = prepare("nop", bytes, "0.4.0").unwrap_err();
        assert_eq!(failure.kind, FailureKind::Deserialization);
        assert_eq!(failure.message, "Unable to parse the input");
        assert_eq!(read_input(bytes).unwrap_err().kind, FailureKind::Deserialization);
    }
}

#[test]
fn trailing_input_is_a_deserialization_failure() {
    let mut bytes = input("0.4.0", EMPTY_BOOK);
    bytes.extend_from_slice(b" []");
    assert_eq!(prepare("nop", &bytes, "0.4.0").unwrap_err().kind, FailureKind::Deserialization);
}

#[test]
fn an_unreadable_host_version_is_fatal() {
    for version in ["", "0.4", "four", "0.4.0.1", "01.0.0", "v0.4.0"] {
        let failure = prepare("nop", &input(version, EMPTY_BOOK), "0.4.0").unwrap_err();
        assert_eq!(failure.kind, FailureKind::VersionParse);
        let outcome = conclude(Err(failure));
        assert_eq!(outcome.stdout, "");
        assert_eq!(outcome.status.code(), 1);
    }
}

#[test]
fn an_unreadable_requirement_is_fatal() {
    let failure = prepare("nop", &input("0.4.0", EMPTY_BOOK), ">=0.4.0 <0.5.0").unwrap_err();
    assert_eq!(failure.kind, FailureKind::VersionParse);
    assert_eq!(failure.message, "expected comma after patch version number, found '<'");
}

#[test]
fn the_host_version_is_read_before_the_requirement() {
    let failure = check_version("", "@1").unwrap_err();
    assert_eq!(failure.kind, FailureKind::VersionParse);
    assert_eq!(failure.message, "empty string, expected a semver version");
}

#[test]
fn input_is_read_before_versions_are() {
    let failure = prepare("nop", b"[", "@1").unwrap_err();
    assert_eq!(failure.kind, FailureKind::Deserialization);
}

#[test]
fn check_version_gives_the_verdict_of_semver() {
    assert_eq!(check_version("0.4.0", ">=0.4.0, <0.5.0").unwrap(), true);
    assert_eq!(check_version("0.4.99", ">=0.4.0, <0.5.0").unwrap(), true);
    assert_eq!(check_version("0.5.0", ">=0.4.0, <0.5.0").unwrap(), false);
    assert_eq!(check_version("99.0.0", ">=0.4.0, <0.5.0").unwrap(), false);
    assert_eq!(check_version("0.4.52", "0.4.21").unwrap(), true);
    assert_eq!(check_version("0.4.20", "0.4.21").unwrap(), false);
    assert_eq!(check_version("0.5.0", "0.4.21").unwrap(), false);
    assert_eq!(check_version("0.4.22-alpha", "0.4.21").unwrap(), false);
    assert_eq!(check_version("1.0.0", "*").unwrap(), true);
}

#[test]
fn check_version_refuses_what_semver_refuses() {
    assert_eq!(check_version("1.0", "1.0").unwrap_err().kind, FailureKind::VersionParse);
    assert_eq!(check_version("1.0.0", "").unwrap_err().kind, FailureKind::VersionParse);
    assert_eq!(check_version("1.0.0", "@1.0.0").unwrap_err().kind, FailureKind::VersionParse);
    assert_eq!(
        check_version("1.0.0", "@1.0.0").unwrap_err().message,
        "unexpected character '@' while parsing major version number"
    );
}

#[test]
fn the_warning_names_plugin_build_and_host() {
    assert_eq!(version_warning(true, "nop", "0.4.21", "0.4.22"), None);
    assert_eq!(
        version_warning(false, "nop", "0.4.21", "0.5.0").as_deref(),
        Some(
            "Warning: The nop plugin was built against version 0.4.21 of mdbook, \
             but we're being called from version 0.5.0"
        )
    );
    assert_eq!(
        version_warning(false, "", "", "").as_deref(),
        Some(
            "Warning: The  plugin was built against version  of mdbook, \
             but we're being called from version "
        )
    );
}

#[test]
fn a_failing_preprocessor_writes_nothing() {
    let pre = Explosive;
    let handshake = prepare(pre.name(), &input("0.4.0", ONE_CHAPTER), "0.4.0").unwrap();
    let failure = write_output(pre.run(&handshake.request.context, handshake.request.book)).unwrap_err();
    assert_eq!(failure.kind, FailureKind::Operation);
    assert_eq!(failure.message, "Boom!!1!");
    let outcome = conclude(Err(failure));
    assert_eq!(outcome.stdout, "");
    assert_eq!(outcome.stderr, "Boom!!1!\n");
    assert_eq!(outcome.status, ExitStatus::Error);
    assert_ne!(outcome.status.code(), 0);
}

#[test]
fn write_output_serialises_the_book_it_is_given() {
    let mut book = Book::new();
    book.push_item(BookItem::Separator);
    book.push_item(BookItem::PartTitle("Part".to_string()));
    let json = write_output(Ok(book)).unwrap();
    assert_eq!(json, "{\"sections\":[\"Separator\",{\"PartTitle\":\"Part\"}],\"__non_exhaustive\":null}");
    assert_eq!(write_output(Ok(Book::new())).unwrap(), EMPTY_BOOK);
}

#[test]
fn supports_exits_zero_exactly_when_the_preprocessor_says_yes() {
    let pre = Nop;
    for renderer in ["html", "pdf", "", "markdown", "HTML"] {
        let supported = pre.supports_renderer(renderer);
        let outcome = handle_supports(Ok(supported));
        assert_eq!(outcome.status.code() == 0, supported);
        assert_eq!(outcome.stdout, "");
    }
    assert_eq!(handle_supports(Ok(pre.supports_renderer("pdf"))).status.code(), 1);
    assert_eq!(handle_supports(Ok(Explosive.supports_renderer("pdf"))).status.code(), 0);
}

#[test]
fn a_book_that_cannot_be_written_is_a_serialization_failure() {
    let mut name = PathBuf::new().into_os_string();
    assert!(name.is_empty());
    name = serde_json::from_str("{\"Unix\":[102,111,128]}").unwrap();
    assert_eq!(name.to_str(), None);
    let mut book = Book::new();
    book.push_item(Chapter::new("Chapter 1", String::new(), PathBuf::from(name), vec![]));
    let failure = write_output(Ok(book)).unwrap_err();
    assert_eq!(failure.kind, FailureKind::Serialization);
    assert_eq!(failure.message, "path contains invalid UTF-8 characters");
    let outcome = conclude(Err(failure));
    assert_eq!(outcome.stdout, "");
    assert_eq!(outcome.stderr, "path contains invalid UTF-8 characters\n");
    assert_eq!(outcome.status.code(), 1);
}

#[test]
fn check_host_hands_the_request_on_as_it_came() {
    let request = read_input(&input("0.4.30", ONE_CHAPTER)).unwrap();
    let context = request.context.clone();
    let book = request.book.clone();
    let handshake = check_host("nop", request, "0.4.21").unwrap();
    assert_eq!(handshake.request.host_version, "0.4.30");
    assert_eq!(handshake.request.context, context);
    assert_eq!(handshake.request.book, book);
    assert!(handshake.compatible);
    assert_eq!(handshake.warning, None);
}

#[test]
fn check_host_goes_by_the_version_it_is_given() {
    let read = read_input(&input("0.4.30", EMPTY_BOOK)).unwrap();
    let request = Request { host_version: "0.3.0".to_string(), ..read };
    let handshake = check_host("links", request, "0.4.21").unwrap();
    assert!(!handshake.compatible);
    assert_eq!(
        handshake.warning.as_deref(),
        Some(
            "Warning: The links plugin was built against version 0.4.21 of mdbook, \
             but we're being called from version 0.3.0"
        )
    );
    let read = read_input(&input("0.4.30", EMPTY_BOOK)).unwrap();
    let request = Request { host_version: "0.3".to_string(), ..read };
    assert_eq!(check_host("links", request, "0.4.21").unwrap_err().kind, FailureKind::VersionParse);
}

#[test]
fn input_that_could_not_be_read_fails_as_input_that_mdbook_refuses() {
    let refused = read_input(b"[").unwrap_err();
    let failure = unread();
    assert_eq!(failure.kind, FailureKind::Deserialization);
    assert_eq!(failure.kind, refused.kind);
    assert_eq!(failure.message, refused.message);
}
