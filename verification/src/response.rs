//! Responses: the raw response of the transport, and the builders that turn
//! it into a value.
use crate::error::{response, response_error, Error, ErrorView, WrappedError};
use crate::json::{decode, json_decoding, Json, JsonValue, ParseError};
use crate::parse::{classified, classify, decoding_view, FromTree, IsOk};
use crate::status::StatusCode;
use vstd::prelude::*;

verus! {

/// A raw response as a mathematical value.
pub struct RawResponseView {
    pub status: u16,
    pub body: Seq<u8>,
}

/// What the transport hands back: the status and the whole body.
#[derive(Debug, PartialEq, Eq)]
pub struct RawResponse {
    status: StatusCode,
    body: Vec<u8>,
}

impl View for RawResponse {
    type V = RawResponseView;

    closed spec fn view(&self) -> RawResponseView {
        RawResponseView { status: self.status.number(), body: self.body@ }
    }
}

impl RawResponse {
    /// A response with the given status and body.
    pub fn new(status: StatusCode, body: Vec<u8>) -> (raw: RawResponse)
        ensures
            raw@ == (RawResponseView { status: status.number(), body: body@ }),
    {
        RawResponse { status, body }
    }

    /// The status of the response.
    pub fn status(&self) -> (status: StatusCode)
        ensures
            status.number() == self@.status,
    {
        self.status
    }

    /// The body of the response.
    pub fn body(&self) -> (body: &Vec<u8>)
        ensures
            body@ == self@.body,
    {
        &self.body
    }
}

/// What a response with the given status is to the caller, once its body has
/// been decoded: a value, or the error that stands for what went wrong.
pub open spec fn outcome_of<T: IsOk + FromTree>(
    status: u16,
    decoding: Result<JsonValue, Seq<char>>,
) -> Result<T::V, ErrorView> {
    match classified::<T>(status, decoding) {
        Ok(value) => Ok(value),
        Err(error) => Err(response_error(status, error)),
    }
}

/// What a raw response is to the caller.
pub open spec fn response_of<T: IsOk + FromTree>(raw: RawResponseView) -> Result<T::V, ErrorView> {
    outcome_of::<T>(raw.status, json_decoding(raw.body))
}

/// Turns a response whose body has been decoded into a value or an error.
pub fn respond<T: IsOk + FromTree>(status: StatusCode, decoding: Result<Json, ParseError>) -> (outcome:
    Result<T, Error>)
    ensures
        match outcome {
            Ok(value) => outcome_of::<T>(status.number(), decoding_view(decoding)) == Ok::<
                T::V,
                ErrorView,
            >(value@),
            Err(error) => outcome_of::<T>(status.number(), decoding_view(decoding)) == Err::<
                T::V,
                ErrorView,
            >(error@),
        },
{
    match classify::<T>(status, decoding) {
        Ok(value) => Ok(value),
        Err(error) => Err(response(status, error)),
    }
}

/// Reads a raw response as a value of `T`.
pub fn into_response<T: IsOk + FromTree>(raw: RawResponse) -> (outcome: Result<T, Error>)
    ensures
        match outcome {
            Ok(value) => response_of::<T>(raw@) == Ok::<T::V, ErrorView>(value@),
            Err(error) => response_of::<T>(raw@) == Err::<T::V, ErrorView>(error@),
        },
{
    let decoding = decode(raw.body.as_slice());
    respond::<T>(raw.status, decoding)
}

/// A response whose body is read piece by piece, as a mathematical value: the
/// status, and what of the body has not been read yet.
pub struct HttpResponseView {
    pub status: u16,
    pub remaining: Seq<u8>,
}

/// A raw response whose body can be read piece by piece.
#[derive(Debug)]
pub struct HttpResponse {
    status: StatusCode,
    body: Vec<u8>,
    position: usize,
}

impl View for HttpResponse {
    type V = HttpResponseView;

    closed spec fn view(&self) -> HttpResponseView {
        HttpResponseView {
            status: self.status.number(),
            remaining: self.body@.subrange(self.position as int, self.body@.len() as int),
        }
    }
}

/// How many bytes a read of at most `limit` bytes takes from what remains.
pub open spec fn read_length(remaining: Seq<u8>, limit: usize) -> int {
    if limit <= remaining.len() {
        limit as int
    } else {
        remaining.len() as int
    }
}

impl HttpResponse {
    #[verifier::type_invariant]
    spec fn within_body(self) -> bool {
        self.position <= self.body@.len()
    }

    /// A response of which nothing has been read yet.
    pub fn new(raw: RawResponse) -> (response: HttpResponse)
        ensures
            response@ == (HttpResponseView { status: raw@.status, remaining: raw@.body }),
    {
        let response = HttpResponse { status: raw.status, body: raw.body, position: 0 };
        assert(response.body@.subrange(0, response.body@.len() as int) =~= response.body@);
        response
    }

    /// The HTTP status of the response.
    pub fn status(&self) -> (status: u16)
        ensures
            status == self@.status,
    {
        self.status.as_u16()
    }

    /// Reads the next bytes of the body, at most `limit` of them.
    ///
    /// The bytes come in their order, and what has been read is not read
    /// again. Nothing comes once the body has been read to its end.
    pub fn read(&mut self, limit: usize) -> (chunk: Vec<u8>)
        ensures
            chunk@ == old(self)@.remaining.subrange(0, read_length(old(self)@.remaining, limit)),
            final(self)@.remaining == old(self)@.remaining.subrange(
                read_length(old(self)@.remaining, limit),
                old(self)@.remaining.len() as int,
            ),
            final(self)@.status == old(self)@.status,
    {
        proof {
            use_type_invariant(&*self);
        }
        let start = self.position;
        let total = self.body.len();
        let left = total - start;
        let count = if limit <= left {
            limit
        } else {
            left
        };
        let mut chunk: Vec<u8> = Vec::new();
        let mut i: usize = 0;
        while i < count
            invariant
                i <= count,
                start + count <= total,
                total == self.body@.len(),
                chunk@ == self.body@.subrange(start as int, start + i),
            decreases count - i,
        {
            chunk.push(self.body[start + i]);
            assert(chunk@ =~= self.body@.subrange(start as int, start + i + 1));
            i += 1;
        }
        self.position = start + count;
        assert(chunk@ =~= old(self)@.remaining.subrange(0, count as int));
        assert(self@.remaining =~= old(self)@.remaining.subrange(
            count as int,
            old(self)@.remaining.len() as int,
        ));
        chunk
    }
}

/// Two reads in a row take what one read of both limits would take, where
/// the limits add up: nothing is read twice and nothing is left out.
pub proof fn lemma_reads_follow_each_other(remaining: Seq<u8>, first: usize, second: usize)
    requires
        first + second <= usize::MAX,
    ensures
        ({
            let taken = read_length(remaining, first);
            let rest = remaining.subrange(taken, remaining.len() as int);
            let again = read_length(rest, second);
            remaining.subrange(0, taken) + rest.subrange(0, again) == remaining.subrange(
                0,
                read_length(remaining, (first + second) as usize),
            )
        }),
{
    let taken = read_length(remaining, first);
    let rest = remaining.subrange(taken, remaining.len() as int);
    let again = read_length(rest, second);
    assert(remaining.subrange(0, taken) + rest.subrange(0, again) =~= remaining.subrange(
        0,
        read_length(remaining, (first + second) as usize),
    ));
}

/// A builder for a response that a blocking sender received.
///
/// The builder holds the completed response and turns it into a concrete
/// type, or into a raw response whose body can be read.
#[derive(Debug, PartialEq, Eq)]
pub struct SyncResponseBuilder(RawResponse);

impl View for SyncResponseBuilder {
    type V = RawResponseView;

    closed spec fn view(&self) -> RawResponseView {
        self.0@
    }
}

/// Makes a response builder for a response that a blocking sender received.
pub fn sync_response(res: RawResponse) -> (builder: SyncResponseBuilder)
    ensures
        builder@ == res@,
{
    SyncResponseBuilder(res)
}

impl SyncResponseBuilder {
    /// The HTTP status of the response.
    pub fn status(&self) -> (status: u16)
        ensures
            status == self@.status,
    {
        self.0.status.as_u16()
    }

    /// Turns the builder into a raw response whose body can be read.
    pub fn into_raw(self) -> (raw: SyncHttpResponse)
        ensures
            raw@ == (HttpResponseView { status: self@.status, remaining: self@.body }),
    {
        SyncHttpResponse(HttpResponse::new(self.0))
    }

    /// Parses a response type from the body.
    ///
    /// The payload is a value or a reported error as `T` says of it.
    pub fn into_response<T: IsOk + FromTree>(self) -> (outcome: Result<T, Error>)
        ensures
            match outcome {
                Ok(value) => response_of::<T>(self@) == Ok::<T::V, ErrorView>(value@),
                Err(error) => response_of::<T>(self@) == Err::<T::V, ErrorView>(error@),
            },
    {
        into_response::<T>(self.0)
    }
}

/// A raw response of a blocking sender whose body can be read.
#[derive(Debug)]
pub struct SyncHttpResponse(HttpResponse);

impl View for SyncHttpResponse {
    type V = HttpResponseView;

    closed spec fn view(&self) -> HttpResponseView {
        self.0@
    }
}

impl SyncHttpResponse {
    /// The HTTP status of the response.
    pub fn status(&self) -> (status: u16)
        ensures
            status == self@.status,
    {
        self.0.status()
    }

    /// Reads the next bytes of the body, at most `limit` of them.
    pub fn read(&mut self, limit: usize) -> (chunk: Vec<u8>)
        ensures
            chunk@ == old(self)@.remaining.subrange(0, read_length(old(self)@.remaining, limit)),
            final(self)@.remaining == old(self)@.remaining.subrange(
                read_length(old(self)@.remaining, limit),
                old(self)@.remaining.len() as int,
            ),
            final(self)@.status == old(self)@.status,
    {
        self.0.read(limit)
    }
}

/// A builder for a response that a non-blocking sender received.
///
/// The builder holds the completed response. What it computes is the same as
/// for a blocking sender; when and where the computation runs is up to the
/// caller.
#[derive(Debug, PartialEq, Eq)]
pub struct AsyncResponseBuilder(RawResponse);

impl View for AsyncResponseBuilder {
    type V = RawResponseView;

    closed spec fn view(&self) -> RawResponseView {
        self.0@
    }
}

/// Makes a response builder for a response that a non-blocking sender
/// received.
pub fn async_response(res: RawResponse) -> (builder: AsyncResponseBuilder)
    ensures
        builder@ == res@,
{
    AsyncResponseBuilder(res)
}

impl AsyncResponseBuilder {
    /// The HTTP status of the response.
    pub fn status(&self) -> (status: u16)
        ensures
            status == self@.status,
    {
        self.0.status.as_u16()
    }

    /// Turns the builder into a raw response whose body can be read.
    pub fn into_raw(self) -> (raw: AsyncHttpResponse)
        ensures
            raw@ == (HttpResponseView { status: self@.status, remaining: self@.body }),
    {
        AsyncHttpResponse(HttpResponse::new(self.0))
    }

    /// Parses a response type from the body.
    ///
    /// The payload is a value or a reported error as `T` says of it.
    pub fn into_response<T: IsOk + FromTree>(self) -> (outcome: Result<T, Error>)
        ensures
            match outcome {
                Ok(value) => response_of::<T>(self@) == Ok::<T::V, ErrorView>(value@),
                Err(error) => response_of::<T>(self@) == Err::<T::V, ErrorView>(error@),
            },
    {
        into_response::<T>(self.0)
    }
}

/// A raw response of a non-blocking sender whose body can be read.
#[derive(Debug)]
pub struct AsyncHttpResponse(HttpResponse);

impl View for AsyncHttpResponse {
    type V = HttpResponseView;

    closed spec fn view(&self) -> HttpResponseView {
        self.0@
    }
}

impl AsyncHttpResponse {
    /// The HTTP status of the response.
    pub fn status(&self) -> (status: u16)
        ensures
            status == self@.status,
    {
        self.0.status()
    }

    /// Reads the next bytes of the body, at most `limit` of them.
    pub fn read(&mut self, limit: usize) -> (chunk: Vec<u8>)
        ensures
            chunk@ == old(self)@.remaining.subrange(0, read_length(old(self)@.remaining, limit)),
            final(self)@.remaining == old(self)@.remaining.subrange(
                read_length(old(self)@.remaining, limit),
                old(self)@.remaining.len() as int,
            ),
            final(self)@.status == old(self)@.status,
    {
        self.0.read(limit)
    }
}

/// A payload that its type calls a value, and that the type can read, is
/// handed to the caller as the very value that reading the payload gives.
pub proof fn lemma_value_is_decoded<T: IsOk + FromTree>(status: u16, tree: JsonValue, value: T::V)
    requires
        T::is_ok_spec(status, tree),
        T::from_tree_spec(tree) == Ok::<T::V, Seq<char>>(value),
    ensures
        outcome_of::<T>(status, Ok(tree)) == Ok::<T::V, ErrorView>(value),
{
}

/// A payload that its type does not call a value, and that has the shape of a
/// reported error, is handed to the caller as that reported error, whatever
/// the status is.
pub proof fn lemma_reported_error_is_api_error<T: IsOk + FromTree>(
    status: u16,
    tree: JsonValue,
    error: crate::error::ApiErrorView,
)
    requires
        !T::is_ok_spec(status, tree),
        crate::error::api_error_of(tree) == Some(error),
    ensures
        outcome_of::<T>(status, Ok(tree)) == Err::<T::V, ErrorView>(ErrorView::Api(error)),
{
}

/// A body that does not decode is handed to the caller as a client error
/// that carries the status, and never as a reported error.
pub proof fn lemma_undecodable_is_client_error<T: IsOk + FromTree>(status: u16, cause: Seq<char>)
    ensures
        outcome_of::<T>(status, Err(cause)) == Err::<T::V, ErrorView>(
            crate::error::client_error(crate::error::ErrorKindView::Response(status), cause),
        ),
        !(outcome_of::<T>(status, Err(cause)) matches Err(ErrorView::Api(_))),
{
}

/// A reported error comes only of a body that decoded into a payload that
/// its type does not call a value and that has the shape of that error.
pub proof fn lemma_api_error_comes_of_the_payload<T: IsOk + FromTree>(
    status: u16,
    decoding: Result<JsonValue, Seq<char>>,
    error: crate::error::ApiErrorView,
)
    requires
        outcome_of::<T>(status, decoding) == Err::<T::V, ErrorView>(ErrorView::Api(error)),
    ensures
        decoding matches Ok(tree) && !T::is_ok_spec(status, tree) && crate::error::api_error_of(
            tree,
        ) == Some(error),
{
}

/// Whatever a response is to the caller, a failure other than a reported
/// error carries the status of the response.
pub proof fn lemma_client_error_carries_status<T: IsOk + FromTree>(
    status: u16,
    decoding: Result<JsonValue, Seq<char>>,
)
    ensures
        outcome_of::<T>(status, decoding) matches Err(ErrorView::Client(inner)) ==> inner.kind
            == crate::error::ErrorKindView::Response(status),
{
}

} // verus!
