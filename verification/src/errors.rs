//! The failures of resolution and authorization, as one closed type.

use crate::text::join2;
use oauth2::url::ParseError;
use serde_json::error::Category;
use vstd::prelude::*;
use vstd::std_specs::convert::FromSpecImpl;

verus! {

/// `reqwest::Error`, a failure of the transport. It is carried, never read.
#[verifier::external_type_specification]
#[verifier::external_body]
pub struct ExReqwestError(reqwest::Error);

/// `serde_json::Error`, the reason for which a text was refused as JSON.
#[verifier::external_type_specification]
#[verifier::external_body]
pub struct ExJsonError(serde_json::Error);

/// `serde_path_to_error::Error`, an error of kind `E` with the path at which it arose.
#[verifier::external_type_specification]
#[verifier::external_body]
#[verifier::reject_recursive_types(E)]
pub struct ExPathError<E>(serde_path_to_error::Error<E>);

/// What `serde_json::Error::to_string` returns for `error`.
pub uninterp spec fn json_error_message(error: serde_json::Error) -> String;

/// What `serde_json::Error::classify` returns for `error`.
pub uninterp spec fn json_error_category(error: serde_json::Error) -> JsonCategory;

/// What `serde_json::Error::line` returns for `error`.
pub uninterp spec fn json_error_line(error: serde_json::Error) -> usize;

/// What `serde_json::Error::column` returns for `error`.
pub uninterp spec fn json_error_column(error: serde_json::Error) -> usize;

/// The text of the path that `serde_path_to_error::Error::path` returns for `error`.
pub uninterp spec fn path_error_path(error: serde_path_to_error::Error<reqwest::Error>) -> String;

/// The text of the error that `serde_path_to_error::Error::inner` returns for `error`.
pub uninterp spec fn path_error_cause(error: serde_path_to_error::Error<reqwest::Error>) -> String;

/// Why a JSON text was refused.
#[derive(Clone, Copy, Debug, PartialEq, Eq, Structural)]
pub enum JsonCategory {
    /// Bytes could not be read or written.
    Io,
    /// The text is not JSON.
    Syntax,
    /// The text is JSON of another shape than the one asked for.
    Data,
    /// The text ended too early.
    Eof,
}

/// A value that could not be read, with the place in the document where reading stopped.
#[derive(Debug)]
pub struct SerializationError {
    path: String,
    cause: String,
}

/// What went wrong while resolving an identity or authorizing.
#[derive(Debug)]
pub enum MyError {
    /// A document lacks something at a known path.
    Serialization(SerializationError),
    /// The transport failed: network, timeout or TLS.
    ReqwestError(reqwest::Error),
    /// A text is no URL.
    ParseError(ParseError),
    /// A reply is not the JSON that was expected.
    JsonError { message: String, classify: JsonCategory, column: usize, line: usize },
    /// The authorization server refused the pushed authorization request.
    ParError { error: String, description: String },
    /// Neither lookup gave a DID; the number is the status of the DNS reply.
    NoAnswerFound(u8),
    /// The redirect does not belong to this attempt, or cannot be used.
    ValidationError(String),
    /// The authorization server reported an error in its redirect.
    AuthError { message: String, err_type: String },
    /// A metadata document names another issuer than the one it was fetched from.
    IssuerMismatch { expected: String, found: String },
}

/// `MyError` with each text as a sequence of characters.
pub enum ErrorView {
    Serialization { path: Seq<char>, cause: Seq<char> },
    Transport(reqwest::Error),
    Parse(ParseError),
    Json { message: Seq<char>, classify: JsonCategory, column: usize, line: usize },
    Par { error: Seq<char>, description: Seq<char> },
    NoAnswerFound(u8),
    Validation(Seq<char>),
    Auth { message: Seq<char>, err_type: Seq<char> },
    IssuerMismatch { expected: Seq<char>, found: Seq<char> },
}

impl View for MyError {
    type V = ErrorView;

    open spec fn view(&self) -> ErrorView {
        match *self {
            MyError::Serialization(e) => ErrorView::Serialization {
                path: e.spec_path(),
                cause: e.spec_cause(),
            },
            MyError::ReqwestError(e) => ErrorView::Transport(e),
            MyError::ParseError(e) => ErrorView::Parse(e),
            MyError::JsonError { message, classify, column, line } => ErrorView::Json {
                message: message@,
                classify,
                column,
                line,
            },
            MyError::ParError { error, description } => ErrorView::Par {
                error: error@,
                description: description@,
            },
            MyError::NoAnswerFound(status) => ErrorView::NoAnswerFound(status),
            MyError::ValidationError(message) => ErrorView::Validation(message@),
            MyError::AuthError { message, err_type } => ErrorView::Auth {
                message: message@,
                err_type: err_type@,
            },
            MyError::IssuerMismatch { expected, found } => ErrorView::IssuerMismatch {
                expected: expected@,
                found: found@,
            },
        }
    }
}

/// A text or a failure, with each text as a sequence of characters.
pub open spec fn text_result_view(r: Result<String, MyError>) -> Result<Seq<char>, ErrorView> {
    match r {
        Ok(text) => Ok(text@),
        Err(e) => Err(e@),
    }
}

/// The text that stands for a serialization error: `at path '<path>': <cause>`.
pub open spec fn serialization_text(path: Seq<char>, cause: Seq<char>) -> Seq<char> {
    "at path '"@ + path + "': "@ + cause
}

impl SerializationError {
    /// The path of the error, as characters.
    pub closed spec fn spec_path(&self) -> Seq<char> {
        self.path@
    }

    /// The cause of the error, as characters.
    pub closed spec fn spec_cause(&self) -> Seq<char> {
        self.cause@
    }

    /// An error at `path`, for the reason `cause`.
    pub fn new(path: &str, cause: &str) -> (e: SerializationError)
        ensures
            e.spec_path() == path@,
            e.spec_cause() == cause@,
    {
        SerializationError { path: String::from_str(path), cause: String::from_str(cause) }
    }

    /// Where in the document reading stopped.
    pub fn path(&self) -> (p: &str)
        ensures
            p@ == self.spec_path(),
    {
        self.path.as_str()
    }

    /// Why reading stopped.
    pub fn cause(&self) -> (c: &str)
        ensures
            c@ == self.spec_cause(),
    {
        self.cause.as_str()
    }

    /// The error as one line of text.
    pub fn to_text(&self) -> (s: String)
        ensures
            s@ == serialization_text(self.spec_path(), self.spec_cause()),
    {
        let head = join2("at path '", self.path.as_str());
        let tail = join2("': ", self.cause.as_str());
        join2(head.as_str(), tail.as_str())
    }
}

/// `serde_json::Error::to_string`: the error as text.
#[verifier::external_body]
fn json_message(error: &serde_json::Error) -> (s: String)
    ensures
        s == json_error_message(*error),
{
    error.to_string()
}

/// `serde_json::Error::classify`: the category of the error, variant for variant.
#[verifier::external_body]
fn json_category(error: &serde_json::Error) -> (c: JsonCategory)
    ensures
        c == json_error_category(*error),
{
    match error.classify() {
        Category::Io => JsonCategory::Io,
        Category::Syntax => JsonCategory::Syntax,
        Category::Data => JsonCategory::Data,
        Category::Eof => JsonCategory::Eof,
    }
}

/// `serde_json::Error::line`: the line at which the error was found, counted from one.
#[verifier::external_body]
fn json_line(error: &serde_json::Error) -> (n: usize)
    ensures
        n == json_error_line(*error),
{
    error.line()
}

/// `serde_json::Error::column`: the column at which the error was found.
#[verifier::external_body]
fn json_column(error: &serde_json::Error) -> (n: usize)
    ensures
        n == json_error_column(*error),
{
    error.column()
}

/// `serde_path_to_error::Error::path`, as text.
#[verifier::external_body]
fn path_text(error: &serde_path_to_error::Error<reqwest::Error>) -> (s: String)
    ensures
        s == path_error_path(*error),
{
    error.path().to_string()
}

/// `serde_path_to_error::Error::inner`, as text.
#[verifier::external_body]
fn cause_text(error: &serde_path_to_error::Error<reqwest::Error>) -> (s: String)
    ensures
        s == path_error_cause(*error),
{
    error.inner().to_string()
}

impl FromSpecImpl<SerializationError> for MyError {
    open spec fn obeys_from_spec() -> bool {
        true
    }

    open spec fn from_spec(error: SerializationError) -> MyError {
        MyError::Serialization(error)
    }
}

impl From<SerializationError> for MyError {
    /// A serialization error, as a failure.
    fn from(error: SerializationError) -> (e: MyError) {
        MyError::Serialization(error)
    }
}

impl FromSpecImpl<reqwest::Error> for MyError {
    open spec fn obeys_from_spec() -> bool {
        true
    }

    open spec fn from_spec(error: reqwest::Error) -> MyError {
        MyError::ReqwestError(error)
    }
}

impl From<reqwest::Error> for MyError {
    /// A failure of the transport, carried as it is.
    fn from(error: reqwest::Error) -> (e: MyError) {
        MyError::ReqwestError(error)
    }
}

impl FromSpecImpl<ParseError> for MyError {
    open spec fn obeys_from_spec() -> bool {
        true
    }

    open spec fn from_spec(error: ParseError) -> MyError {
        MyError::ParseError(error)
    }
}

impl From<ParseError> for MyError {
    /// The refusal of a text as a URL, carried as it is.
    fn from(error: ParseError) -> (e: MyError) {
        MyError::ParseError(error)
    }
}

impl FromSpecImpl<serde_json::Error> for MyError {
    open spec fn obeys_from_spec() -> bool {
        true
    }

    open spec fn from_spec(error: serde_json::Error) -> MyError {
        MyError::JsonError {
            message: json_error_message(error),
            classify: json_error_category(error),
            column: json_error_column(error),
            line: json_error_line(error),
        }
    }
}

impl From<serde_json::Error> for MyError {
    /// A JSON error with its message, category and position.
    fn from(error: serde_json::Error) -> (e: MyError) {
        MyError::JsonError {
            message: json_message(&error),
            classify: json_category(&error),
            column: json_column(&error),
            line: json_line(&error),
        }
    }
}

impl FromSpecImpl<serde_path_to_error::Error<reqwest::Error>> for SerializationError {
    open spec fn obeys_from_spec() -> bool {
        true
    }

    closed spec fn from_spec(error: serde_path_to_error::Error<reqwest::Error>) -> SerializationError {
        SerializationError { path: path_error_path(error), cause: path_error_cause(error) }
    }
}

impl From<serde_path_to_error::Error<reqwest::Error>> for SerializationError {
    /// The path and the cause of a deserialization failure, both as text.
    fn from(error: serde_path_to_error::Error<reqwest::Error>) -> (e: SerializationError)
        ensures
            e.spec_path() == path_error_path(error)@,
            e.spec_cause() == path_error_cause(error)@,
    {
        let path = path_text(&error);
        let cause = cause_text(&error);
        SerializationError { path, cause }
    }
}

} // verus!
