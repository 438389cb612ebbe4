//! Client-side error types.
//!
//! The main `Error` type combines the kinds of errors that can occur when
//! talking to the service: an error that the service itself reported in a
//! well-formed payload, and an error building a client, sending a request or
//! receiving a response.
use crate::json::{
    find_member, lemma_object_view, lookup, members_view, text_member, text_of, unsigned_member,
    unsigned_of, Json, JsonValue, ParseError,
};
use crate::text::{decimal, decimal_text, text_eq};
use crate::status::StatusCode;
use vstd::prelude::*;
use vstd::string::*;

verus! {

/// An error that the service reported, as a mathematical value.
pub enum ApiErrorView {
    IndexNotFound { index: Seq<char> },
    IndexAlreadyExists { index: Seq<char> },
    DocumentMissing { index: Seq<char> },
    Parsing { line: u64, col: u64, reason: Seq<char> },
    MapperParsing { reason: Seq<char> },
    ActionRequestValidation { reason: Seq<char> },
    Other(Seq<(Seq<char>, JsonValue)>),
}

/// An error that the service reported in a well-formed payload.
#[derive(Debug, PartialEq, Eq)]
pub enum ApiError {
    /// An index wasn't found.
    IndexNotFound { index: String },
    /// An index already exists.
    IndexAlreadyExists { index: String },
    /// A document is missing from an index.
    DocumentMissing { index: String },
    /// The request body can't be parsed.
    Parsing { line: u64, col: u64, reason: String },
    /// The document mapping can't be parsed.
    MapperParsing { reason: String },
    /// The request failed validation.
    ActionRequestValidation { reason: String },
    /// Any other error, by the members of its payload.
    Other(Vec<(String, Json)>),
}

impl View for ApiError {
    type V = ApiErrorView;

    open spec fn view(&self) -> ApiErrorView {
        match self {
            ApiError::IndexNotFound { index } => ApiErrorView::IndexNotFound { index: index@ },
            ApiError::IndexAlreadyExists { index } => ApiErrorView::IndexAlreadyExists {
                index: index@,
            },
            ApiError::DocumentMissing { index } => ApiErrorView::DocumentMissing { index: index@ },
            ApiError::Parsing { line, col, reason } => ApiErrorView::Parsing {
                line: *line,
                col: *col,
                reason: reason@,
            },
            ApiError::MapperParsing { reason } => ApiErrorView::MapperParsing { reason: reason@ },
            ApiError::ActionRequestValidation { reason } => ApiErrorView::ActionRequestValidation {
                reason: reason@,
            },
            ApiError::Other(members) => ApiErrorView::Other(members_view(members@)),
        }
    }
}

/// The error that the members of an error object describe.
///
/// The member `type` names the kind of error. An object without it, with a
/// kind that is not known, or without a member that its kind needs, is kept
/// whole as `Other`.
pub open spec fn error_of_members(members: Seq<(Seq<char>, JsonValue)>) -> ApiErrorView {
    let other = ApiErrorView::Other(members);
    match text_member(members, "type"@) {
        None => other,
        Some(kind) => {
            if kind == "index_not_found_exception"@ {
                match text_member(members, "index"@) {
                    Some(index) => ApiErrorView::IndexNotFound { index },
                    None => other,
                }
            } else if kind == "index_already_exists_exception"@ {
                match text_member(members, "index"@) {
                    Some(index) => ApiErrorView::IndexAlreadyExists { index },
                    None => other,
                }
            } else if kind == "document_missing_exception"@ {
                match text_member(members, "index"@) {
                    Some(index) => ApiErrorView::DocumentMissing { index },
                    None => other,
                }
            } else if kind == "parsing_exception"@ {
                match (
                    unsigned_member(members, "line"@),
                    unsigned_member(members, "col"@),
                    text_member(members, "reason"@),
                ) {
                    (Some(line), Some(col), Some(reason)) => ApiErrorView::Parsing {
                        line,
                        col,
                        reason,
                    },
                    _ => other,
                }
            } else if kind == "mapper_parsing_exception"@ {
                match text_member(members, "reason"@) {
                    Some(reason) => ApiErrorView::MapperParsing { reason },
                    None => other,
                }
            } else if kind == "action_request_validation_exception"@ {
                match text_member(members, "reason"@) {
                    Some(reason) => ApiErrorView::ActionRequestValidation { reason },
                    None => other,
                }
            } else {
                other
            }
        },
    }
}

/// The error that a decoded payload describes, where it has the shape of one.
///
/// Only an object has that shape. Its member `error`, where that is an object
/// itself, describes the error; any other object is kept whole as `Other`.
pub open spec fn api_error_of(tree: JsonValue) -> Option<ApiErrorView> {
    match tree {
        JsonValue::Object(members) => Some(
            match lookup(members, "error"@) {
                Some(JsonValue::Object(inner)) => error_of_members(inner),
                _ => ApiErrorView::Other(members),
            },
        ),
        _ => None,
    }
}

/// A copy of the members of an object.
pub fn clone_members(members: &Vec<(String, Json)>) -> (copies: Vec<(String, Json)>)
    ensures
        members_view(copies@) == members_view(members@),
{
    let mut copies: Vec<(String, Json)> = Vec::new();
    let mut i: usize = 0;
    while i < members.len()
        invariant
            i <= members.len(),
            copies.len() == i,
            forall|k: int|
                0 <= k < i ==> copies@[k].0@ == members@[k].0@ && copies@[k].1@ == members@[k].1@,
        decreases members.len() - i,
    {
        let key = members[i].0.clone();
        let value = members[i].1.clone();
        copies.push((key, value));
        i += 1;
    }
    assert(members_view(copies@) =~= members_view(members@));
    copies
}

impl ApiError {
    /// The error that the members of an error object describe.
    pub fn from_members(members: &Vec<(String, Json)>) -> (error: ApiError)
        ensures
            error@ == error_of_members(members_view(members@)),
    {
        let kind = match text_of(members, "type") {
            Some(kind) => kind,
            None => {
                return ApiError::Other(clone_members(members));
            },
        };
        if text_eq(kind.as_str(), "index_not_found_exception") {
            match text_of(members, "index") {
                Some(index) => ApiError::IndexNotFound { index },
                None => ApiError::Other(clone_members(members)),
            }
        } else if text_eq(kind.as_str(), "index_already_exists_exception") {
            match text_of(members, "index") {
                Some(index) => ApiError::IndexAlreadyExists { index },
                None => ApiError::Other(clone_members(members)),
            }
        } else if text_eq(kind.as_str(), "document_missing_exception") {
            match text_of(members, "index") {
                Some(index) => ApiError::DocumentMissing { index },
                None => ApiError::Other(clone_members(members)),
            }
        } else if text_eq(kind.as_str(), "parsing_exception") {
            match (
                unsigned_of(members, "line"),
                unsigned_of(members, "col"),
                text_of(members, "reason"),
            ) {
                (Some(line), Some(col), Some(reason)) => ApiError::Parsing { line, col, reason },
                _ => ApiError::Other(clone_members(members)),
            }
        } else if text_eq(kind.as_str(), "mapper_parsing_exception") {
            match text_of(members, "reason") {
                Some(reason) => ApiError::MapperParsing { reason },
                None => ApiError::Other(clone_members(members)),
            }
        } else if text_eq(kind.as_str(), "action_request_validation_exception") {
            match text_of(members, "reason") {
                Some(reason) => ApiError::ActionRequestValidation { reason },
                None => ApiError::Other(clone_members(members)),
            }
        } else {
            ApiError::Other(clone_members(members))
        }
    }

    /// The error that a decoded payload describes, where it has the shape of
    /// one.
    pub fn from_tree(tree: &Json) -> (error: Option<ApiError>)
        ensures
            match error {
                Some(e) => api_error_of(tree@) == Some(e@),
                None => api_error_of(tree@) is None,
            },
    {
        match tree {
            Json::Object(members) => {
                proof {
                    lemma_object_view(*members);
                }
                match find_member(members, "error") {
                    Some(Json::Object(inner)) => {
                        proof {
                            lemma_object_view(*inner);
                        }
                        Some(ApiError::from_members(inner))
                    },
                    _ => Some(ApiError::Other(clone_members(members))),
                }
            },
            _ => None,
        }
    }

    /// The text that this error displays.
    pub fn to_string(&self) -> (text: String)
        ensures
            text@ == api_display(self@),
    {
        match self {
            ApiError::IndexNotFound { index } => String::from_str("index not found: '").concat(
                index.as_str(),
            ).concat("'"),
            ApiError::IndexAlreadyExists { index } => String::from_str(
                "index already exists: '",
            ).concat(index.as_str()).concat("'"),
            ApiError::DocumentMissing { index } => String::from_str(
                "document in index is missing: '",
            ).concat(index.as_str()).concat("'"),
            ApiError::Parsing { line, col, reason } => {
                let line = decimal(*line);
                let col = decimal(*col);
                String::from_str("request parse error: '").concat(reason.as_str()).concat(
                    "' on line: ",
                ).concat(line.as_str()).concat(", col: ").concat(col.as_str())
            },
            ApiError::MapperParsing { reason } => String::from_str("mapper parse error: '").concat(
                reason.as_str(),
            ).concat("'"),
            ApiError::ActionRequestValidation { reason } => String::from_str(
                "action request failed validation: '",
            ).concat(reason.as_str()).concat("'"),
            ApiError::Other(_) => String::from_str("error response from Elasticsearch"),
        }
    }

    /// A short description of the kind of error.
    pub fn description(&self) -> (text: &'static str)
        ensures
            text@ == api_description(self@),
    {
        match self {
            ApiError::IndexNotFound { .. } => "index not found",
            ApiError::IndexAlreadyExists { .. } => "index already exists",
            ApiError::DocumentMissing { .. } => "document is missing",
            ApiError::Parsing { .. } => "request parse error",
            ApiError::MapperParsing { .. } => "mapper parse error",
            ApiError::ActionRequestValidation { .. } => "action request failed validation",
            ApiError::Other(_) => "error response from Elasticsearch",
        }
    }
}

/// The text that an error that the service reported displays.
pub open spec fn api_display(error: ApiErrorView) -> Seq<char> {
    match error {
        ApiErrorView::IndexNotFound { index } => "index not found: '"@ + index + "'"@,
        ApiErrorView::IndexAlreadyExists { index } => "index already exists: '"@ + index + "'"@,
        ApiErrorView::DocumentMissing { index } => "document in index is missing: '"@ + index
            + "'"@,
        ApiErrorView::Parsing { line, col, reason } => "request parse error: '"@ + reason
            + "' on line: "@ + decimal_text(line as nat) + ", col: "@ + decimal_text(col as nat),
        ApiErrorView::MapperParsing { reason } => "mapper parse error: '"@ + reason + "'"@,
        ApiErrorView::ActionRequestValidation { reason } => "action request failed validation: '"@
            + reason + "'"@,
        ApiErrorView::Other(_) => "error response from Elasticsearch"@,
    }
}

/// A short description of the kind of an error that the service reported.
pub open spec fn api_description(error: ApiErrorView) -> Seq<char> {
    match error {
        ApiErrorView::IndexNotFound { .. } => "index not found"@,
        ApiErrorView::IndexAlreadyExists { .. } => "index already exists"@,
        ApiErrorView::DocumentMissing { .. } => "document is missing"@,
        ApiErrorView::Parsing { .. } => "request parse error"@,
        ApiErrorView::MapperParsing { .. } => "mapper parse error"@,
        ApiErrorView::ActionRequestValidation { .. } => "action request failed validation"@,
        ApiErrorView::Other(_) => "error response from Elasticsearch"@,
    }
}

/// The cause of a client error, kept by the message it displays.
#[derive(Debug, PartialEq, Eq)]
pub struct WrappedError {
    message: String,
}

impl View for WrappedError {
    type V = Seq<char>;

    closed spec fn view(&self) -> Seq<char> {
        self.message@
    }
}

impl WrappedError {
    /// The message of the cause.
    pub fn to_string(&self) -> (text: String)
        ensures
            text@ == self@,
    {
        self.message.clone()
    }
}

/// Wraps the message of a cause into a `WrappedError`.
pub fn wrapped(err: String) -> (cause: WrappedError)
    ensures
        cause@ == err@,
{
    WrappedError { message: err }
}

/// What went wrong on the client's side, as a mathematical value.
pub enum ErrorKindView {
    Msg(Seq<char>),
    Build,
    Request,
    Response(u16),
}

/// What went wrong on the client's side.
#[derive(Debug, PartialEq, Eq)]
pub enum ErrorKind {
    /// An error described by a message alone.
    Msg(String),
    /// The client could not be built.
    Build,
    /// The request could not be generated or sent.
    Request,
    /// The response could not be read as a value or as a reported error.
    Response(StatusCode),
}

impl View for ErrorKind {
    type V = ErrorKindView;

    open spec fn view(&self) -> ErrorKindView {
        match self {
            ErrorKind::Msg(message) => ErrorKindView::Msg(message@),
            ErrorKind::Build => ErrorKindView::Build,
            ErrorKind::Request => ErrorKindView::Request,
            ErrorKind::Response(status) => ErrorKindView::Response(status.number()),
        }
    }
}

/// A client error as a mathematical value: its kind and the message of its
/// cause, where it has one.
pub struct ClientErrorView {
    pub kind: ErrorKindView,
    pub cause: Option<Seq<char>>,
}

/// An error building a client, sending a request or receiving a response.
#[derive(Debug, PartialEq, Eq)]
pub struct ClientError {
    kind: ErrorKind,
    cause: Option<WrappedError>,
}

impl View for ClientError {
    type V = ClientErrorView;

    closed spec fn view(&self) -> ClientErrorView {
        ClientErrorView {
            kind: self.kind@,
            cause: match self.cause {
                Some(cause) => Some(cause@),
                None => None,
            },
        }
    }
}

/// A short description of a kind of client error.
pub open spec fn kind_description(kind: ErrorKindView) -> Seq<char> {
    match kind {
        ErrorKindView::Msg(message) => message,
        ErrorKindView::Build => "error attempting to build a client"@,
        ErrorKindView::Request => "error sending a request"@,
        ErrorKindView::Response(_) => "error receiving a response"@,
    }
}

/// The text that a kind of client error displays.
pub open spec fn kind_display(kind: ErrorKindView) -> Seq<char> {
    match kind {
        ErrorKindView::Response(status) => "error receiving a response. Status code: "@
            + crate::status::status_display(status),
        _ => kind_description(kind),
    }
}

impl ClientError {
    /// What went wrong.
    pub fn kind(&self) -> (kind: &ErrorKind)
        ensures
            kind@ == self@.kind,
    {
        &self.kind
    }

    /// The status of the response that could not be read, for an error of
    /// that kind.
    pub fn status(&self) -> (status: Option<u16>)
        ensures
            status == match self@.kind {
                ErrorKindView::Response(code) => Some(code),
                _ => None,
            },
    {
        match &self.kind {
            ErrorKind::Response(status) => Some(status.as_u16()),
            _ => None,
        }
    }

    /// The cause of this error, where it has one.
    pub fn source(&self) -> (cause: Option<&WrappedError>)
        ensures
            match cause {
                Some(c) => self@.cause == Some(c@),
                None => self@.cause is None,
            },
    {
        match &self.cause {
            Some(cause) => Some(cause),
            None => None,
        }
    }

    /// A short description of the kind of error.
    pub fn description(&self) -> (text: String)
        ensures
            text@ == kind_description(self@.kind),
    {
        match &self.kind {
            ErrorKind::Msg(message) => message.clone(),
            ErrorKind::Build => String::from_str("error attempting to build a client"),
            ErrorKind::Request => String::from_str("error sending a request"),
            ErrorKind::Response(_) => String::from_str("error receiving a response"),
        }
    }

    /// The text that this error displays.
    pub fn to_string(&self) -> (text: String)
        ensures
            text@ == kind_display(self@.kind),
    {
        match &self.kind {
            ErrorKind::Response(status) => {
                let reason = status.to_string();
                String::from_str("error receiving a response. Status code: ").concat(
                    reason.as_str(),
                )
            },
            _ => self.description(),
        }
    }
}

/// An error as a mathematical value.
pub enum ErrorView {
    Api(ApiErrorView),
    Client(ClientErrorView),
}

/// An error encountered while talking to the service.
///
/// An error that the service reported can be matched and taken apart; a client
/// error can be displayed and asked for its kind.
#[derive(Debug, PartialEq, Eq)]
pub enum Error {
    /// An error that the service reported.
    Api(ApiError),
    /// Any other kind of error.
    Client(ClientError),
}

impl View for Error {
    type V = ErrorView;

    open spec fn view(&self) -> ErrorView {
        match self {
            Error::Api(error) => ErrorView::Api(error@),
            Error::Client(error) => ErrorView::Client(error@),
        }
    }
}

/// The text that an error displays: what kind of error it is, and what
/// caused it.
pub open spec fn error_display(error: ErrorView) -> Seq<char> {
    match error {
        ErrorView::Api(inner) => "API error returned from Elasticsearch. Caused by: "@
            + api_display(inner),
        ErrorView::Client(inner) => "error sending a request or receiving a response. Caused by: "@
            + kind_display(inner.kind),
    }
}

impl Error {
    /// The text that this error displays.
    pub fn to_string(&self) -> (text: String)
        ensures
            text@ == error_display(self@),
    {
        match self {
            Error::Api(inner) => {
                let cause = inner.to_string();
                String::from_str("API error returned from Elasticsearch. Caused by: ").concat(
                    cause.as_str(),
                )
            },
            Error::Client(inner) => {
                let cause = inner.to_string();
                String::from_str(
                    "error sending a request or receiving a response. Caused by: ",
                ).concat(cause.as_str())
            },
        }
    }

    /// A short description of the kind of error.
    pub fn description(&self) -> (text: &'static str)
        ensures
            text@ == match self@ {
                ErrorView::Api(_) => "API error returned from Elasticsearch"@,
                ErrorView::Client(_) => "error sending a request or receiving a response"@,
            },
    {
        match self {
            Error::Api(_) => "API error returned from Elasticsearch",
            Error::Client(_) => "error sending a request or receiving a response",
        }
    }
}

/// The client error of the given kind with the given cause.
pub open spec fn client_error(kind: ErrorKindView, cause: Seq<char>) -> ErrorView {
    ErrorView::Client(ClientErrorView { kind, cause: Some(cause) })
}

/// Creates a client error for a client that could not be built.
pub fn build(err: WrappedError) -> (error: Error)
    ensures
        error@ == client_error(ErrorKindView::Build, err@),
{
    Error::Client(ClientError { kind: ErrorKind::Build, cause: Some(err) })
}

/// Creates an error for when a request could not be generated or sent.
pub fn request(err: WrappedError) -> (error: Error)
    ensures
        error@ == client_error(ErrorKindView::Request, err@),
{
    Error::Client(ClientError { kind: ErrorKind::Request, cause: Some(err) })
}

/// An error that is a message and nothing else.
#[derive(Debug, PartialEq, Eq)]
pub enum StringError {
    Message(String),
}

impl StringError {
    /// The message of the error.
    pub open spec fn text(self) -> Seq<char> {
        match self {
            StringError::Message(message) => message@,
        }
    }

    /// The text that this error displays: its message.
    pub fn to_string(&self) -> (text: String)
        ensures
            text@ == self.text(),
    {
        match self {
            StringError::Message(message) => message.clone(),
        }
    }
}

/// Creates an error out of a message.
pub fn message(err: String) -> (error: StringError)
    ensures
        error == StringError::Message(err),
        error.text() == err@,
{
    StringError::Message(err)
}

/// A convenient way to make an error where a test needs one.
pub fn test() -> (error: Error)
    ensures
        error@ == ErrorView::Client(
            ClientErrorView { kind: ErrorKindView::Msg("a test error"@), cause: None },
        ),
{
    Error::Client(
        ClientError { kind: ErrorKind::Msg(String::from_str("a test error")), cause: None },
    )
}

/// Why a response is no value, as a mathematical value.
pub enum ResponseErrorView {
    Api(ApiErrorView),
    Parse(Seq<char>),
}

/// Why a response is no value: the service reported an error, or the payload
/// could not be read.
#[derive(Debug, PartialEq, Eq)]
pub enum ResponseError {
    /// The service reported an error.
    Api(ApiError),
    /// The payload could not be read.
    Parse(ParseError),
}

impl View for ResponseError {
    type V = ResponseErrorView;

    open spec fn view(&self) -> ResponseErrorView {
        match self {
            ResponseError::Api(error) => ResponseErrorView::Api(error@),
            ResponseError::Parse(error) => ResponseErrorView::Parse(error@),
        }
    }
}

/// An error that can be either an error that the service reported or some
/// other error.
#[derive(Debug, PartialEq, Eq)]
pub enum MaybeApiError<E> {
    /// An error that the service reported.
    Api(ApiError),
    /// A different error.
    Other(E),
}

impl From<ResponseError> for MaybeApiError<ResponseError> {
    fn from(err: ResponseError) -> (maybe: MaybeApiError<ResponseError>) {
        match err {
            ResponseError::Api(error) => MaybeApiError::Api(error),
            other => MaybeApiError::Other(other),
        }
    }
}

impl vstd::std_specs::convert::FromSpecImpl<ResponseError> for MaybeApiError<ResponseError> {
    open spec fn obeys_from_spec() -> bool {
        true
    }

    open spec fn from_spec(err: ResponseError) -> MaybeApiError<ResponseError> {
        match err {
            ResponseError::Api(error) => MaybeApiError::Api(error),
            other => MaybeApiError::Other(other),
        }
    }
}

impl From<ParseError> for MaybeApiError<ParseError> {
    fn from(err: ParseError) -> (maybe: MaybeApiError<ParseError>) {
        MaybeApiError::Other(err)
    }
}

impl vstd::std_specs::convert::FromSpecImpl<ParseError> for MaybeApiError<ParseError> {
    open spec fn obeys_from_spec() -> bool {
        true
    }

    open spec fn from_spec(err: ParseError) -> MaybeApiError<ParseError> {
        MaybeApiError::Other(err)
    }
}

impl From<WrappedError> for MaybeApiError<WrappedError> {
    fn from(err: WrappedError) -> (maybe: MaybeApiError<WrappedError>) {
        MaybeApiError::Other(err)
    }
}

impl vstd::std_specs::convert::FromSpecImpl<WrappedError> for MaybeApiError<WrappedError> {
    open spec fn obeys_from_spec() -> bool {
        true
    }

    open spec fn from_spec(err: WrappedError) -> MaybeApiError<WrappedError> {
        MaybeApiError::Other(err)
    }
}

/// An error that can be the cause of a client error: it has a message to
/// be kept by.
pub trait Cause: Sized {
    /// The message that the error is kept by.
    spec fn cause_text(&self) -> Seq<char>;

    /// The error as a cause.
    fn into_cause(self) -> (cause: WrappedError)
        ensures
            cause@ == self.cause_text(),
    ;
}

impl Cause for WrappedError {
    open spec fn cause_text(&self) -> Seq<char> {
        self@
    }

    fn into_cause(self) -> (cause: WrappedError) {
        self
    }
}

impl Cause for ParseError {
    open spec fn cause_text(&self) -> Seq<char> {
        self@
    }

    fn into_cause(self) -> (cause: WrappedError) {
        wrapped(self.message)
    }
}

impl Cause for ResponseError {
    /// A payload that could not be read is kept by why it could not; an error
    /// that the service reported by what it displays.
    open spec fn cause_text(&self) -> Seq<char> {
        match self {
            ResponseError::Parse(error) => error@,
            ResponseError::Api(error) => api_display(error@),
        }
    }

    fn into_cause(self) -> (cause: WrappedError) {
        match self {
            ResponseError::Parse(error) => wrapped(error.message),
            ResponseError::Api(error) => wrapped(error.to_string()),
        }
    }
}

/// The error that an error of a failure response becomes, once it is told
/// apart: an error that the service reported stays what it is, anything else
/// becomes a client error that carries the status of the response.
pub open spec fn maybe_error<E: Cause>(status: u16, maybe: MaybeApiError<E>) -> ErrorView {
    match maybe {
        MaybeApiError::Api(error) => ErrorView::Api(error@),
        MaybeApiError::Other(other) => client_error(
            ErrorKindView::Response(status),
            other.cause_text(),
        ),
    }
}

/// The error that a failure response becomes.
pub open spec fn response_error(status: u16, err: ResponseErrorView) -> ErrorView {
    match err {
        ResponseErrorView::Api(error) => ErrorView::Api(error),
        ResponseErrorView::Parse(cause) => client_error(ErrorKindView::Response(status), cause),
    }
}

/// Creates an error from a failure response.
///
/// An error that the service reported stays what it is. Anything else becomes
/// a client error that carries the status of the response.
pub fn response<E>(status: StatusCode, err: E) -> (error: Error) where
    E: Cause,
    MaybeApiError<E>: From<E>,

    ensures
        <MaybeApiError<E> as vstd::std_specs::convert::FromSpec<E>>::obeys_from_spec() ==> error@
            == maybe_error(
            status.number(),
            <MaybeApiError<E> as vstd::std_specs::convert::FromSpec<E>>::from_spec(err),
        ),
{
    match MaybeApiError::from(err) {
        MaybeApiError::Api(error) => Error::Api(error),
        MaybeApiError::Other(other) => Error::Client(
            ClientError { kind: ErrorKind::Response(status), cause: Some(other.into_cause()) },
        ),
    }
}

/// For the errors of reading a response, what `response` makes of them is
/// said by their views alone.
pub proof fn lemma_response_of_response_error(status: u16, err: ResponseError)
    ensures
        maybe_error(
            status,
            <MaybeApiError<ResponseError> as vstd::std_specs::convert::FromSpec<
                ResponseError,
            >>::from_spec(err),
        ) == response_error(status, err@),
{
}

} // verus!
