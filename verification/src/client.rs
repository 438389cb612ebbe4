//! The client, its senders and its builders.
//!
//! There is one client, generic over the kind of sender that it has: a
//! blocking one or a non-blocking one. Everything above the sender is shared
//! between the two.
use crate::error::{build, client_error, request, Error, ErrorKindView, ErrorView, WrappedError};
use crate::params::{default_base_url, RequestParams, RequestParamsView};
use crate::parse::{FromTree, IsOk};
use crate::request::{
    resolve, resolved, search_request, HttpRequest, HttpRequestView, RawRequest,
    SearchRequestBuilder, SearchRequestBuilderView,
};
use crate::response::{
    async_response, response_of, sync_response, AsyncResponseBuilder, RawResponse,
    SyncResponseBuilder,
};
use crate::responses::SearchResponse;
use vstd::prelude::*;

verus! {

/// A handle of an HTTP transport that can be made with the transport's own
/// defaults.
///
/// Nothing is known of whether a transport makes one.
pub trait Connect: Sized {
    /// Makes a handle with the transport's own defaults.
    fn connect() -> (made: Result<Self, WrappedError>);
}

/// What the blocking client needs of an HTTP transport: a handle can carry
/// one request out and wait for the response.
///
/// Nothing is known of what a transport answers.
pub trait Transport: Connect {
    /// Carries one request out and hands back the response with its whole
    /// body.
    fn execute(&self, request: &RawRequest) -> (outcome: Result<RawResponse, WrappedError>);
}

/// A sender of requests: a blocking one or a non-blocking one.
pub trait Sender: Clone {
    /// The kind of body that the sender takes.
    type Body;
}

/// A blocking sender.
#[derive(Clone, Debug)]
pub struct SyncSender<THttp> {
    http: THttp,
}

/// Whether an error says that a client could not be built.
pub open spec fn is_build_error(error: ErrorView) -> bool {
    error matches ErrorView::Client(inner) && inner.kind == ErrorKindView::Build && inner.cause
        is Some
}

/// Whether an error says that a request could not be sent.
pub open spec fn is_request_error(error: ErrorView) -> bool {
    error matches ErrorView::Client(inner) && inner.kind == ErrorKindView::Request && inner.cause
        is Some
}

impl<THttp> SyncSender<THttp> {
    /// The handle of the transport.
    pub closed spec fn http(self) -> THttp {
        self.http
    }

    /// The handle of the transport.
    pub fn get_http(&self) -> (http: &THttp)
        ensures
            *http == self.http(),
    {
        &self.http
    }

    /// A sender for a handle that was to be made: the sender where there is a
    /// handle, an error that the client could not be built where there is
    /// none.
    pub fn from_connection(made: Result<THttp, WrappedError>) -> (sender: Result<
        SyncSender<THttp>,
        Error,
    >)
        ensures
            match made {
                Ok(http) => sender matches Ok(s) && s.http() == http,
                Err(cause) => sender matches Err(e) && e@ == client_error(
                    ErrorKindView::Build,
                    cause@,
                ),
            },
    {
        match made {
            Ok(http) => Ok(SyncSender { http }),
            Err(cause) => Err(build(cause)),
        }
    }
}

impl<THttp: Connect> SyncSender<THttp> {
    /// A sender with a handle of the transport's own making.
    ///
    /// The transport is asked for a handle. What comes back is what its answer
    /// comes to: the sender with that very handle, or an error that the client
    /// could not be built, with the transport's cause.
    pub fn new() -> (sender: Result<SyncSender<THttp>, Error>)
        ensures
            exists|made: Result<THttp, WrappedError>|
                #[trigger] call_ensures(THttp::connect, (), made) && match made {
                    Ok(http) => sender matches Ok(s) && s.http() == http,
                    Err(cause) => sender matches Err(e) && e@ == client_error(
                        ErrorKindView::Build,
                        cause@,
                    ),
                },
            sender matches Err(e) ==> is_build_error(e@),
    {
        let made = THttp::connect();
        SyncSender::from_connection(made)
    }
}

impl<THttp: Transport + Clone> Sender for SyncSender<THttp> {
    type Body = Vec<u8>;
}

/// A non-blocking sender.
///
/// Besides the handle of the transport it has the size of the pool of workers
/// that decode payloads away from the thread that completed the read. With no
/// pool, payloads are decoded where the read completed.
#[derive(Clone, Debug)]
pub struct AsyncSender<THttp> {
    http: THttp,
    de_pool: Option<usize>,
}

impl<THttp> AsyncSender<THttp> {
    /// The handle of the transport.
    pub closed spec fn http(self) -> THttp {
        self.http
    }

    /// The size of the pool of workers, where there is a pool.
    pub closed spec fn pool(self) -> Option<usize> {
        self.de_pool
    }

    /// The handle of the transport.
    pub fn get_http(&self) -> (http: &THttp)
        ensures
            *http == self.http(),
    {
        &self.http
    }

    /// The size of the pool of workers, where there is a pool.
    pub fn de_pool(&self) -> (size: Option<usize>)
        ensures
            size == self.pool(),
    {
        self.de_pool
    }

    /// A sender without a pool for a handle that was to be made: the sender
    /// where there is a handle, an error that the client could not be built
    /// where there is none.
    pub fn from_connection(made: Result<THttp, WrappedError>) -> (sender: Result<
        AsyncSender<THttp>,
        Error,
    >)
        ensures
            match made {
                Ok(http) => sender matches Ok(s) && s.http() == http && s.pool() is None,
                Err(cause) => sender matches Err(e) && e@ == client_error(
                    ErrorKindView::Build,
                    cause@,
                ),
            },
    {
        match made {
            Ok(http) => Ok(AsyncSender { http, de_pool: None }),
            Err(cause) => Err(build(cause)),
        }
    }
}

impl<THttp: Connect> AsyncSender<THttp> {
    /// A sender with a handle of the transport's own making and no pool.
    ///
    /// The transport is asked for a handle. What comes back is what its answer
    /// comes to: the sender with that very handle, or an error that the client
    /// could not be built, with the transport's cause.
    pub fn new() -> (sender: Result<AsyncSender<THttp>, Error>)
        ensures
            exists|made: Result<THttp, WrappedError>|
                #[trigger] call_ensures(THttp::connect, (), made) && match made {
                    Ok(http) => sender matches Ok(s) && s.http() == http && s.pool() is None,
                    Err(cause) => sender matches Err(e) && e@ == client_error(
                        ErrorKindView::Build,
                        cause@,
                    ),
                },
            sender matches Ok(s) ==> s.pool() is None,
            sender matches Err(e) ==> is_build_error(e@),
    {
        let made = THttp::connect();
        AsyncSender::from_connection(made)
    }
}

impl<THttp: Connect + Clone> Sender for AsyncSender<THttp> {
    type Body = Vec<u8>;
}

/// A client for the service: a sender and the parameters that its requests
/// share.
///
/// The client keeps nothing of a request, and a request changes nothing of
/// the client.
#[derive(Clone, Debug)]
pub struct Client<TSender> {
    sender: TSender,
    params: RequestParams,
}

/// A client that blocks.
pub type SyncClient<THttp> = Client<SyncSender<THttp>>;

/// A client that does not block.
pub type AsyncClient<THttp> = Client<AsyncSender<THttp>>;

impl<TSender> Client<TSender> {
    /// The sender of the client.
    pub closed spec fn sender(self) -> TSender {
        self.sender
    }

    /// The parameters that the requests of the client share.
    pub closed spec fn params(self) -> RequestParamsView {
        self.params@
    }

    /// The client with the given sender and parameters.
    pub fn with_sender(sender: TSender, params: RequestParams) -> (client: Client<TSender>)
        ensures
            client.sender() == sender,
            client.params() == params@,
    {
        Client { sender, params }
    }

    /// The client for a sender that was to be made.
    pub fn from_sender(made: Result<TSender, Error>, params: RequestParams) -> (client: Result<
        Client<TSender>,
        Error,
    >)
        ensures
            match made {
                Ok(sender) => client matches Ok(c) && c.sender() == sender && c.params()
                    == params@,
                Err(error) => client matches Err(e) && e@ == error@,
            },
    {
        match made {
            Ok(sender) => Ok(Client { sender, params }),
            Err(error) => Err(error),
        }
    }

    /// The parameters that the requests of the client share.
    pub fn get_params(&self) -> (params: &RequestParams)
        ensures
            params@ == self.params(),
    {
        &self.params
    }

    /// The sender of the client.
    pub fn get_sender(&self) -> (sender: &TSender)
        ensures
            *sender == self.sender(),
    {
        &self.sender
    }

    /// Makes a builder for a request. This never fails.
    pub fn request(&self, req: HttpRequest) -> (builder: RequestBuilder<'_, TSender, HttpRequest>)
        ensures
            builder.client() == *self,
            builder.effective_params() == self.params(),
            builder.inner()@ == req@,
    {
        RequestBuilder::new(self, None, req)
    }

    /// Makes a builder for a search request over all indices, with an empty
    /// body.
    pub fn search(&self) -> (builder: RequestBuilder<'_, TSender, SearchRequestBuilder>)
        ensures
            builder.client() == *self,
            builder.effective_params() == self.params(),
            builder.inner()@ == (SearchRequestBuilderView {
                index: None,
                ty: None,
                body: Seq::empty(),
            }),
    {
        RequestBuilder::new(self, None, SearchRequestBuilder::new(Vec::new()))
    }
}

impl<THttp: Connect> Client<SyncSender<THttp>> {
    /// Creates a blocking client for the given parameters.
    ///
    /// The parameters are what every request of the client starts from; a
    /// request can set its own. An error comes back where the transport makes
    /// no handle.
    pub fn new(params: RequestParams) -> (client: Result<Client<SyncSender<THttp>>, Error>)
        ensures
            exists|made: Result<THttp, WrappedError>|
                #[trigger] call_ensures(THttp::connect, (), made) && match made {
                    Ok(http) => client matches Ok(c) && c.sender().http() == http && c.params()
                        == params@,
                    Err(cause) => client matches Err(e) && e@ == client_error(
                        ErrorKindView::Build,
                        cause@,
                    ),
                },
            match client {
                Ok(c) => c.params() == params@,
                Err(e) => is_build_error(e@),
            },
    {
        let sender = SyncSender::new();
        Client::from_sender(sender, params)
    }
}

impl<THttp: Connect> Client<AsyncSender<THttp>> {
    /// Creates a non-blocking client for the given parameters, without a pool
    /// of workers.
    ///
    /// The parameters are what every request of the client starts from; a
    /// request can set its own. An error comes back where the transport makes
    /// no handle.
    pub fn new(params: RequestParams) -> (client: Result<Client<AsyncSender<THttp>>, Error>)
        ensures
            exists|made: Result<THttp, WrappedError>|
                #[trigger] call_ensures(THttp::connect, (), made) && match made {
                    Ok(http) => client matches Ok(c) && c.sender().http() == http
                        && c.sender().pool() is None && c.params() == params@,
                    Err(cause) => client matches Err(e) && e@ == client_error(
                        ErrorKindView::Build,
                        cause@,
                    ),
                },
            match client {
                Ok(c) => c.params() == params@ && c.sender().pool() is None,
                Err(e) => is_build_error(e@),
            },
    {
        let sender = AsyncSender::new();
        Client::from_sender(sender, params)
    }
}

/// A builder for a blocking client.
pub struct SyncClientBuilder<THttp> {
    http: Option<THttp>,
    params: RequestParams,
}

impl<THttp> SyncClientBuilder<THttp> {
    /// The handle that the client is to use, where one was given.
    pub closed spec fn http(self) -> Option<THttp> {
        self.http
    }

    /// The parameters that the client is to have.
    pub closed spec fn params_value(self) -> RequestParams {
        self.params
    }

    /// Creates a new client builder.
    ///
    /// A client of this builder sends its requests to a node on this machine,
    /// with no url parameters and no headers of its own.
    pub fn new() -> (builder: SyncClientBuilder<THttp>)
        ensures
            builder.http() is None,
            builder.params_value()@ == (RequestParamsView {
                base_url: default_base_url(),
                url_params: Seq::empty(),
                headers: Seq::empty(),
            }),
    {
        SyncClientBuilder { http: None, params: RequestParams::default() }
    }

    /// Sets the base url. The url is meant to be fully qualified; it is taken
    /// as given.
    pub fn base_url(self, base_url: &str) -> (builder: SyncClientBuilder<THttp>)
        ensures
            builder.http() == self.http(),
            builder.params_value()@ == (RequestParamsView {
                base_url: base_url@,
                ..self.params_value()@
            }),
    {
        SyncClientBuilder { http: self.http, params: self.params.base_url(base_url) }
    }

    /// Changes the parameters that every request starts from.
    pub fn params<F: FnOnce(RequestParams) -> RequestParams>(self, builder: F) -> (next:
        SyncClientBuilder<THttp>)
        requires
            builder.requires((self.params_value(),)),
        ensures
            next.http() == self.http(),
            builder.ensures((self.params_value(),), next.params_value()),
    {
        SyncClientBuilder { http: self.http, params: builder(self.params) }
    }

    /// Uses the given handle for sending requests.
    pub fn http_client(self, client: THttp) -> (builder: SyncClientBuilder<THttp>)
        ensures
            builder.http() == Some(client),
            builder.params_value() == self.params_value(),
    {
        SyncClientBuilder { http: Some(client), params: self.params }
    }

    /// Whether `client` is what this builder builds where the transport, asked
    /// for a handle, answers `made`.
    ///
    /// With a handle given, the client has that handle and building succeeds,
    /// whatever the transport would answer. With none, the client has the
    /// handle that the transport made, and building fails exactly where the
    /// transport made none, with an error that the client could not be built
    /// and the transport's cause.
    pub open spec fn built(
        self,
        made: Result<THttp, WrappedError>,
        client: Result<Client<SyncSender<THttp>>, Error>,
    ) -> bool {
        match (self.http(), made) {
            (Some(http), _) => client matches Ok(c) && c.sender().http() == http && c.params()
                == self.params_value()@,
            (None, Ok(http)) => client matches Ok(c) && c.sender().http() == http && c.params()
                == self.params_value()@,
            (None, Err(cause)) => client matches Err(e) && e@ == client_error(
                ErrorKindView::Build,
                cause@,
            ),
        }
    }

    /// The client of this builder for a handle that was to be made, for use
    /// where none was given.
    pub fn build_with(self, made: Result<THttp, WrappedError>) -> (client: Result<
        Client<SyncSender<THttp>>,
        Error,
    >)
        ensures
            self.built(made, client),
    {
        match self.http {
            Some(http) => Ok(Client { sender: SyncSender { http }, params: self.params }),
            None => Client::from_sender(SyncSender::from_connection(made), self.params),
        }
    }
}

impl<THttp: Connect> SyncClientBuilder<THttp> {
    /// Constructs a client from this builder.
    ///
    /// With a handle given, the client uses it, and building does not fail.
    /// With none, the transport makes one, or building fails.
    ///
    /// The transport is asked for a handle only where none was given, and the
    /// client is then what the builder builds of its answer.
    pub fn build(self) -> (client: Result<Client<SyncSender<THttp>>, Error>)
        ensures
            exists|made: Result<THttp, WrappedError>|
                (self.http() is None ==> call_ensures(THttp::connect, (), made))
                    && #[trigger] self.built(made, client),
            match client {
                Ok(c) => c.params() == self.params_value()@ && (self.http() matches Some(http)
                    ==> c.sender().http() == http),
                Err(e) => self.http() is None && is_build_error(e@),
            },
    {
        if self.http.is_some() {
            let http = self.http.unwrap();
            let client = Ok(Client { sender: SyncSender { http }, params: self.params });
            assert(self.built(Ok(http), client));
            client
        } else {
            let made = THttp::connect();
            self.build_with(made)
        }
    }
}

/// A builder for a non-blocking client.
pub struct AsyncClientBuilder<THttp> {
    http: Option<THttp>,
    de_pool: Option<usize>,
    params: RequestParams,
}

impl<THttp> AsyncClientBuilder<THttp> {
    /// The handle that the client is to use, where one was given.
    pub closed spec fn http(self) -> Option<THttp> {
        self.http
    }

    /// The size of the pool of workers that the client is to have.
    pub closed spec fn pool(self) -> Option<usize> {
        self.de_pool
    }

    /// The parameters that the client is to have.
    pub closed spec fn params_value(self) -> RequestParams {
        self.params
    }

    /// Creates a new client builder.
    ///
    /// A client of this builder sends its requests to a node on this machine,
    /// with no url parameters and no headers of its own. It has no pool of
    /// workers unless it is given one: payloads are decoded where the read
    /// completed.
    pub fn new() -> (builder: AsyncClientBuilder<THttp>)
        ensures
            builder.http() is None,
            builder.pool() is None,
            builder.params_value()@ == (RequestParamsView {
                base_url: default_base_url(),
                url_params: Seq::empty(),
                headers: Seq::empty(),
            }),
    {
        AsyncClientBuilder {
            http: None,
            de_pool: None,
            params: RequestParams::default(),
        }
    }

    /// Sets the base url. The url is meant to be fully qualified; it is taken
    /// as given.
    pub fn base_url(self, base_url: &str) -> (builder: AsyncClientBuilder<THttp>)
        ensures
            builder.http() == self.http(),
            builder.pool() == self.pool(),
            builder.params_value()@ == (RequestParamsView {
                base_url: base_url@,
                ..self.params_value()@
            }),
    {
        AsyncClientBuilder {
            http: self.http,
            de_pool: self.de_pool,
            params: self.params.base_url(base_url),
        }
    }

    /// Changes the parameters that every request starts from.
    pub fn params<F: FnOnce(RequestParams) -> RequestParams>(self, builder: F) -> (next:
        AsyncClientBuilder<THttp>)
        requires
            builder.requires((self.params_value(),)),
        ensures
            next.http() == self.http(),
            next.pool() == self.pool(),
            builder.ensures((self.params_value(),), next.params_value()),
    {
        AsyncClientBuilder { http: self.http, de_pool: self.de_pool, params: builder(self.params) }
    }

    /// Sets the size of the pool of workers that decode payloads, or takes
    /// the pool away, so that payloads are decoded where the read completed.
    pub fn de_pool(self, de_pool: Option<usize>) -> (builder: AsyncClientBuilder<THttp>)
        ensures
            builder.http() == self.http(),
            builder.pool() == de_pool,
            builder.params_value() == self.params_value(),
    {
        AsyncClientBuilder { http: self.http, de_pool, params: self.params }
    }

    /// Uses the given handle for sending requests.
    pub fn http_client(self, client: THttp) -> (builder: AsyncClientBuilder<THttp>)
        ensures
            builder.http() == Some(client),
            builder.pool() == self.pool(),
            builder.params_value() == self.params_value(),
    {
        AsyncClientBuilder { http: Some(client), de_pool: self.de_pool, params: self.params }
    }

    /// Whether `client` is what this builder builds where the transport, asked
    /// for a handle, answers `made`.
    ///
    /// With a handle given, the client has that handle and building succeeds,
    /// whatever the transport would answer. With none, the client has the
    /// handle that the transport made, and building fails exactly where the
    /// transport made none, with an error that the client could not be built
    /// and the transport's cause. The client has the pool of the builder.
    pub open spec fn built(
        self,
        made: Result<THttp, WrappedError>,
        client: Result<Client<AsyncSender<THttp>>, Error>,
    ) -> bool {
        match (self.http(), made) {
            (Some(http), _) => client matches Ok(c) && c.sender().http() == http
                && c.sender().pool() == self.pool() && c.params() == self.params_value()@,
            (None, Ok(http)) => client matches Ok(c) && c.sender().http() == http
                && c.sender().pool() == self.pool() && c.params() == self.params_value()@,
            (None, Err(cause)) => client matches Err(e) && e@ == client_error(
                ErrorKindView::Build,
                cause@,
            ),
        }
    }

    /// The client of this builder for a handle that was to be made, for use
    /// where none was given.
    pub fn build_with(self, made: Result<THttp, WrappedError>) -> (client: Result<
        Client<AsyncSender<THttp>>,
        Error,
    >)
        ensures
            self.built(made, client),
    {
        let http = match self.http {
            Some(http) => http,
            None => match made {
                Ok(http) => http,
                Err(cause) => {
                    return Err(build(cause));
                },
            },
        };
        Ok(Client { sender: AsyncSender { http, de_pool: self.de_pool }, params: self.params })
    }
}

impl<THttp: Connect> AsyncClientBuilder<THttp> {
    /// Constructs a client from this builder.
    ///
    /// With a handle given, the client uses it, and building does not fail.
    /// With none, the transport makes one, or building fails.
    ///
    /// The transport is asked for a handle only where none was given, and the
    /// client is then what the builder builds of its answer.
    pub fn build(self) -> (client: Result<Client<AsyncSender<THttp>>, Error>)
        ensures
            exists|made: Result<THttp, WrappedError>|
                (self.http() is None ==> call_ensures(THttp::connect, (), made))
                    && #[trigger] self.built(made, client),
            match client {
                Ok(c) => c.params() == self.params_value()@ && c.sender().pool() == self.pool()
                    && (self.http() matches Some(http) ==> c.sender().http() == http),
                Err(e) => self.http() is None && is_build_error(e@),
            },
    {
        if self.http.is_some() {
            let http = self.http.unwrap();
            let client = Ok(
                Client { sender: AsyncSender { http, de_pool: self.de_pool }, params: self.params },
            );
            assert(self.built(Ok(http), client));
            client
        } else {
            let made = THttp::connect();
            self.build_with(made)
        }
    }
}

/// A builder for a request: the client that it goes through, the parameters
/// that this request has of its own, and the request.
pub struct RequestBuilder<'a, TSender, TRequest> {
    client: &'a Client<TSender>,
    params: Option<RequestParams>,
    req: TRequest,
}

impl<'a, TSender, TRequest> RequestBuilder<'a, TSender, TRequest> {
    /// The client that the request goes through.
    pub closed spec fn client(self) -> Client<TSender> {
        *self.client
    }

    /// The parameters that the request is sent under: its own where it has
    /// any, those of the client otherwise.
    pub closed spec fn effective_params(self) -> RequestParamsView {
        match self.params {
            Some(params) => params@,
            None => self.client.params@,
        }
    }

    /// The request.
    pub closed spec fn inner(self) -> TRequest {
        self.req
    }

    /// A builder for a request through the given client, with parameters of
    /// its own where some are given.
    pub fn new(client: &'a Client<TSender>, params: Option<RequestParams>, req: TRequest) -> (builder:
        RequestBuilder<'a, TSender, TRequest>)
        ensures
            builder.client() == *client,
            builder.inner() == req,
            builder.effective_params() == match params {
                Some(own) => own@,
                None => client.params(),
            },
    {
        RequestBuilder { client, params, req }
    }

    /// The request, taken out of the builder.
    pub fn into_inner(self) -> (req: TRequest)
        ensures
            req == self.inner(),
    {
        self.req
    }

    /// A copy of the parameters that the request is sent under.
    pub fn get_params(&self) -> (params: RequestParams)
        ensures
            params@ == self.effective_params(),
    {
        match &self.params {
            Some(own) => own.clone(),
            None => self.client.params.clone(),
        }
    }

    /// Changes the parameters of this request.
    ///
    /// The change starts from the parameters that the request is sent under
    /// and stays with this request: the parameters of the client are as they
    /// were.
    pub fn params<F: FnOnce(RequestParams) -> RequestParams>(self, builder: F) -> (next:
        RequestBuilder<'a, TSender, TRequest>)
        requires
            forall|start: RequestParams| start@ == self.effective_params() ==> builder.requires((start,)),
        ensures
            next.client() == self.client(),
            next.inner() == self.inner(),
            exists|start: RequestParams, own: RequestParams|
                start@ == self.effective_params() && builder.ensures((start,), own)
                    && next.effective_params() == own@,
    {
        let start = self.get_params();
        let own = builder(start);
        RequestBuilder { client: self.client, params: Some(own), req: self.req }
    }
}

/// What a request that was handed to the transport comes to: the response
/// where there is one, an error that the request could not be sent where
/// there is none.
pub open spec fn sent_view(outcome: Result<RawResponse, WrappedError>) -> Result<
    crate::response::RawResponseView,
    ErrorView,
> {
    match outcome {
        Ok(raw) => Ok(raw@),
        Err(cause) => Err(client_error(ErrorKindView::Request, cause@)),
    }
}

/// What a request that was handed to the transport comes to, read as a value
/// of `T`.
pub open spec fn received_view<T: IsOk + FromTree>(
    outcome: Result<RawResponse, WrappedError>,
) -> Result<T::V, ErrorView> {
    match outcome {
        Ok(raw) => response_of::<T>(raw@),
        Err(cause) => Err(client_error(ErrorKindView::Request, cause@)),
    }
}

/// Makes a response builder of what a blocking transport handed back.
pub fn sent(outcome: Result<RawResponse, WrappedError>) -> (response: Result<
    SyncResponseBuilder,
    Error,
>)
    ensures
        match response {
            Ok(builder) => sent_view(outcome) == Ok::<crate::response::RawResponseView, ErrorView>(
                builder@,
            ),
            Err(error) => sent_view(outcome) == Err::<crate::response::RawResponseView, ErrorView>(
                error@,
            ),
        },
{
    match outcome {
        Ok(raw) => Ok(sync_response(raw)),
        Err(cause) => Err(request(cause)),
    }
}

/// Reads what a blocking transport handed back as a value of `T`.
pub fn received<T: IsOk + FromTree>(outcome: Result<RawResponse, WrappedError>) -> (response:
    Result<T, Error>)
    ensures
        match response {
            Ok(value) => received_view::<T>(outcome) == Ok::<T::V, ErrorView>(value@),
            Err(error) => received_view::<T>(outcome) == Err::<T::V, ErrorView>(error@),
        },
{
    match sent(outcome) {
        Ok(builder) => builder.into_response::<T>(),
        Err(error) => Err(error),
    }
}

impl<'a, TSender> RequestBuilder<'a, TSender, HttpRequest> {
    /// What goes over the wire for this request.
    ///
    /// It depends on nothing but the request and the parameters that it is
    /// sent under, and making it sends nothing.
    pub fn into_raw(self) -> (raw: RawRequest)
        ensures
            raw@ == resolved(self.effective_params(), self.inner()@),
    {
        match &self.params {
            Some(own) => resolve(own, self.req),
            None => resolve(&self.client.params, self.req),
        }
    }
}

impl<'a, THttp: Transport> RequestBuilder<'a, SyncSender<THttp>, HttpRequest> {
    /// Sends the request and waits for the response.
    ///
    /// The transport is handed what goes over the wire for this request under
    /// the parameters that it is sent under, and is asked once. What comes
    /// back is what its answer comes to: a builder for the response, or an
    /// error that the request could not be sent, with the transport's cause.
    pub fn send(self) -> (response: Result<SyncResponseBuilder, Error>)
        ensures
            exists|raw: RawRequest, outcome: Result<RawResponse, WrappedError>|
                raw@ == resolved(self.effective_params(), self.inner()@) && #[trigger] call_ensures(
                    THttp::execute,
                    (&self.client().sender().http(), &raw),
                    outcome,
                ) && match response {
                    Ok(builder) => sent_view(outcome) == Ok::<
                        crate::response::RawResponseView,
                        ErrorView,
                    >(builder@),
                    Err(error) => sent_view(outcome) == Err::<
                        crate::response::RawResponseView,
                        ErrorView,
                    >(error@),
                },
            response matches Err(error) ==> is_request_error(error@),
    {
        let client = self.client;
        let raw = self.into_raw();
        let outcome = client.sender.http.execute(&raw);
        assert(client.sender.http == self.client().sender().http());
        assert(call_ensures(THttp::execute, (&self.client().sender().http(), &raw), outcome));
        sent(outcome)
    }
}

/// A request of a non-blocking sender that is yet to be carried out, and the
/// size of the pool of workers on which its response is to be decoded.
#[derive(Debug)]
pub struct Pending {
    request: RawRequest,
    de_pool: Option<usize>,
}

impl Pending {
    /// The request that is to be carried out.
    pub closed spec fn raw(self) -> RawRequest {
        self.request
    }

    /// The size of the pool of workers, where there is a pool.
    pub closed spec fn pool(self) -> Option<usize> {
        self.de_pool
    }

    /// The request that is to be carried out.
    pub fn request(&self) -> (request: &RawRequest)
        ensures
            *request == self.raw(),
    {
        &self.request
    }

    /// The size of the pool of workers, where there is a pool.
    pub fn de_pool(&self) -> (size: Option<usize>)
        ensures
            size == self.pool(),
    {
        self.de_pool
    }

    /// Makes a response builder of what the transport handed back.
    pub fn complete(self, outcome: Result<RawResponse, WrappedError>) -> (response: Result<
        AsyncResponseBuilder,
        Error,
    >)
        ensures
            match response {
                Ok(builder) => sent_view(outcome) == Ok::<
                    crate::response::RawResponseView,
                    ErrorView,
                >(builder@),
                Err(error) => sent_view(outcome) == Err::<
                    crate::response::RawResponseView,
                    ErrorView,
                >(error@),
            },
    {
        match outcome {
            Ok(raw) => Ok(async_response(raw)),
            Err(cause) => Err(request(cause)),
        }
    }
}

impl<'a, THttp> RequestBuilder<'a, AsyncSender<THttp>, HttpRequest> {
    /// Makes the request ready to be carried out without blocking.
    ///
    /// Nothing is sent here: what comes back says what is to be sent, and
    /// where the response is to be decoded.
    pub fn send(self) -> (pending: Pending)
        ensures
            pending.raw()@ == resolved(self.effective_params(), self.inner()@),
            pending.pool() == self.client().sender().pool(),
    {
        let de_pool = self.client.sender.de_pool;
        Pending { request: self.into_raw(), de_pool }
    }
}

impl<'a, TSender> RequestBuilder<'a, TSender, SearchRequestBuilder> {
    /// Sets the indices for the search request.
    ///
    /// If no index is specified then `_all` will be used.
    pub fn index(self, index: &str) -> (next: RequestBuilder<'a, TSender, SearchRequestBuilder>)
        ensures
            next.client() == self.client(),
            next.effective_params() == self.effective_params(),
            next.inner()@ == (SearchRequestBuilderView { index: Some(index@), ..self.inner()@ }),
    {
        RequestBuilder { client: self.client, params: self.params, req: self.req.index(index) }
    }

    /// Sets the types for the search request.
    pub fn ty(self, ty: Option<&str>) -> (next: RequestBuilder<'a, TSender, SearchRequestBuilder>)
        ensures
            next.client() == self.client(),
            next.effective_params() == self.effective_params(),
            next.inner()@.index == self.inner()@.index,
            next.inner()@.body == self.inner()@.body,
            match ty {
                Some(name) => next.inner()@.ty == Some(name@),
                None => next.inner()@.ty is None,
            },
    {
        RequestBuilder { client: self.client, params: self.params, req: self.req.ty(ty) }
    }

    /// Sets the body for the search request.
    ///
    /// If no body is specified then an empty query will be used.
    pub fn body(self, body: Vec<u8>) -> (next: RequestBuilder<'a, TSender, SearchRequestBuilder>)
        ensures
            next.client() == self.client(),
            next.effective_params() == self.effective_params(),
            next.inner()@ == (SearchRequestBuilderView { body: body@, ..self.inner()@ }),
    {
        RequestBuilder { client: self.client, params: self.params, req: self.req.body(body) }
    }

    /// The builder for the request that the search stands for.
    pub fn into_request(self) -> (next: RequestBuilder<'a, TSender, HttpRequest>)
        ensures
            next.client() == self.client(),
            next.effective_params() == self.effective_params(),
            next.inner()@ == search_request(self.inner()@),
    {
        RequestBuilder { client: self.client, params: self.params, req: self.req.into_request() }
    }
}

impl<'a, THttp: Transport> RequestBuilder<'a, SyncSender<THttp>, SearchRequestBuilder> {
    /// Sends the search request and reads the response.
    ///
    /// The transport is handed what goes over the wire for the search under
    /// the parameters that it is sent under, and is asked once. What comes
    /// back is what its answer comes to, read as the answer to a search.
    pub fn send(self) -> (response: Result<SearchResponse, Error>)
        ensures
            exists|raw: RawRequest, outcome: Result<RawResponse, WrappedError>|
                raw@ == resolved(self.effective_params(), search_request(self.inner()@))
                    && #[trigger] call_ensures(
                    THttp::execute,
                    (&self.client().sender().http(), &raw),
                    outcome,
                ) && match response {
                    Ok(value) => received_view::<SearchResponse>(outcome) == Ok::<
                        crate::responses::SearchResponseView,
                        ErrorView,
                    >(value@),
                    Err(error) => received_view::<SearchResponse>(outcome) == Err::<
                        crate::responses::SearchResponseView,
                        ErrorView,
                    >(error@),
                },
    {
        let client = self.client;
        let raw = self.into_request().into_raw();
        let outcome = client.sender.http.execute(&raw);
        assert(client.sender.http == self.client().sender().http());
        assert(call_ensures(THttp::execute, (&self.client().sender().http(), &raw), outcome));
        received::<SearchResponse>(outcome)
    }
}

impl<'a, THttp> RequestBuilder<'a, AsyncSender<THttp>, SearchRequestBuilder> {
    /// Makes the search request ready to be carried out without blocking.
    pub fn send(self) -> (pending: Pending)
        ensures
            pending.raw()@ == resolved(
                self.effective_params(),
                search_request(self.inner()@),
            ),
            pending.pool() == self.client().sender().pool(),
    {
        self.into_request().send()
    }
}

} // verus!
