//! Requests: what is asked for, and what goes over the wire.
use crate::params::{pairs_view, query_text, RequestParams, RequestParamsView};
use vstd::prelude::*;
use vstd::string::*;

verus! {

/// The method of a request.
#[derive(Clone, Copy, Debug, PartialEq, Eq, Structural)]
pub enum Method {
    Get,
    Post,
    Put,
    Delete,
    Head,
}

/// A request as a mathematical value.
pub struct HttpRequestView {
    pub method: Method,
    pub url: Seq<char>,
    pub body: Option<Seq<u8>>,
}

/// A request to the service: a method, a path below the base url, and a body
/// where the request has one.
///
/// A request does not change once it is made.
#[derive(Debug, PartialEq, Eq)]
pub struct HttpRequest {
    method: Method,
    url: String,
    body: Option<Vec<u8>>,
}

/// Bytes that may be there, as a mathematical value.
pub open spec fn body_view(body: Option<Vec<u8>>) -> Option<Seq<u8>> {
    match body {
        Some(bytes) => Some(bytes@),
        None => None,
    }
}

impl View for HttpRequest {
    type V = HttpRequestView;

    closed spec fn view(&self) -> HttpRequestView {
        HttpRequestView { method: self.method, url: self.url@, body: body_view(self.body) }
    }
}

impl HttpRequest {
    /// A request with the given method, path and body.
    pub fn new(method: Method, url: &str, body: Option<Vec<u8>>) -> (request: HttpRequest)
        ensures
            request@ == (HttpRequestView { method, url: url@, body: body_view(body) }),
    {
        HttpRequest { method, url: url.to_owned(), body }
    }

    /// The method of the request.
    pub fn method(&self) -> (method: Method)
        ensures
            method == self@.method,
    {
        self.method
    }

    /// The path of the request.
    pub fn url(&self) -> (url: &str)
        ensures
            url@ == self@.url,
    {
        self.url.as_str()
    }

    /// The body of the request.
    pub fn body(&self) -> (body: Option<&Vec<u8>>)
        ensures
            match body {
                Some(bytes) => self@.body == Some(bytes@),
                None => self@.body is None,
            },
    {
        match &self.body {
            Some(bytes) => Some(bytes),
            None => None,
        }
    }
}

/// A request as it goes over the wire, as a mathematical value.
pub struct RawRequestView {
    pub method: Method,
    pub url: Seq<char>,
    pub headers: Seq<(Seq<char>, Seq<char>)>,
    pub body: Option<Seq<u8>>,
}

/// A request as it goes over the wire: the method, the whole url, the headers
/// and the body.
#[derive(Debug, PartialEq, Eq)]
pub struct RawRequest {
    method: Method,
    url: String,
    headers: Vec<(String, String)>,
    body: Option<Vec<u8>>,
}

impl View for RawRequest {
    type V = RawRequestView;

    closed spec fn view(&self) -> RawRequestView {
        RawRequestView {
            method: self.method,
            url: self.url@,
            headers: pairs_view(self.headers@),
            body: body_view(self.body),
        }
    }
}

impl RawRequest {
    /// The method of the request.
    pub fn method(&self) -> (method: Method)
        ensures
            method == self@.method,
    {
        self.method
    }

    /// The whole url of the request.
    pub fn url(&self) -> (url: &str)
        ensures
            url@ == self@.url,
    {
        self.url.as_str()
    }

    /// The headers of the request.
    pub fn headers(&self) -> (headers: &Vec<(String, String)>)
        ensures
            pairs_view(headers@) == self@.headers,
    {
        &self.headers
    }

    /// The body of the request.
    pub fn body(&self) -> (body: Option<&Vec<u8>>)
        ensures
            match body {
                Some(bytes) => self@.body == Some(bytes@),
                None => self@.body is None,
            },
    {
        match &self.body {
            Some(bytes) => Some(bytes),
            None => None,
        }
    }
}

/// The url that a request for `path` goes to under the given parameters: the
/// base url, the path, and the query string of the url parameters.
pub open spec fn resolved_url(params: RequestParamsView, path: Seq<char>) -> Seq<char> {
    params.base_url + path + query_text(params.url_params)
}

/// The headers that a request carries under the given parameters.
pub open spec fn resolved_headers(params: RequestParamsView) -> Seq<(Seq<char>, Seq<char>)> {
    seq![("Content-Type"@, "application/json"@)] + params.headers
}

/// What goes over the wire for a request under the given parameters.
pub open spec fn resolved(params: RequestParamsView, request: HttpRequestView) -> RawRequestView {
    RawRequestView {
        method: request.method,
        url: resolved_url(params, request.url),
        headers: resolved_headers(params),
        body: request.body,
    }
}

/// Resolves a request against the parameters that it is sent under.
pub fn resolve(params: &RequestParams, request: HttpRequest) -> (raw: RawRequest)
    ensures
        raw@ == resolved(params@, request@),
{
    let mut url = params.get_base_url().to_owned();
    url.append(request.url.as_str());
    match params.get_url_qry().1 {
        Some(query) => {
            url.append(query.as_str());
        },
        None => {
            assert(query_text(params@.url_params) =~= Seq::<char>::empty());
        },
    }
    assert(url@ =~= resolved_url(params@, request@.url));
    RawRequest { method: request.method, url, headers: params.get_headers(), body: request.body }
}

/// The index that a search goes to where none is named: all of them.
pub open spec fn all_indices() -> Seq<char> {
    "_all"@
}

/// The path of a search request for an index and, where one is named, a type.
pub open spec fn search_path(index: Option<Seq<char>>, ty: Option<Seq<char>>) -> Seq<char> {
    let index = match index {
        Some(index) => index,
        None => all_indices(),
    };
    match ty {
        Some(ty) => "/"@ + index + "/"@ + ty + "/_search"@,
        None => "/"@ + index + "/_search"@,
    }
}

/// A search request in the making, as a mathematical value.
pub struct SearchRequestBuilderView {
    pub index: Option<Seq<char>>,
    pub ty: Option<Seq<char>>,
    pub body: Seq<u8>,
}

/// A builder for a search request.
#[derive(Debug, PartialEq, Eq)]
pub struct SearchRequestBuilder {
    index: Option<String>,
    ty: Option<String>,
    body: Vec<u8>,
}

/// A text that may be there, as a mathematical value.
pub open spec fn name_view(name: Option<String>) -> Option<Seq<char>> {
    match name {
        Some(text) => Some(text@),
        None => None,
    }
}

impl View for SearchRequestBuilder {
    type V = SearchRequestBuilderView;

    closed spec fn view(&self) -> SearchRequestBuilderView {
        SearchRequestBuilderView {
            index: name_view(self.index),
            ty: name_view(self.ty),
            body: self.body@,
        }
    }
}

/// The request that a search request in the making stands for.
pub open spec fn search_request(builder: SearchRequestBuilderView) -> HttpRequestView {
    HttpRequestView {
        method: Method::Post,
        url: search_path(builder.index, builder.ty),
        body: Some(builder.body),
    }
}

impl SearchRequestBuilder {
    /// A search over all indices and types with the given body.
    pub fn new(body: Vec<u8>) -> (builder: SearchRequestBuilder)
        ensures
            builder@ == (SearchRequestBuilderView { index: None, ty: None, body: body@ }),
    {
        SearchRequestBuilder { index: None, ty: None, body }
    }

    /// Sets the index to search.
    pub fn index(self, index: &str) -> (builder: SearchRequestBuilder)
        ensures
            builder@ == (SearchRequestBuilderView { index: Some(index@), ..self@ }),
    {
        SearchRequestBuilder { index: Some(index.to_owned()), ty: self.ty, body: self.body }
    }

    /// Sets the type to search, or takes it away.
    pub fn ty(self, ty: Option<&str>) -> (builder: SearchRequestBuilder)
        ensures
            builder@.index == self@.index,
            builder@.body == self@.body,
            match ty {
                Some(name) => builder@.ty == Some(name@),
                None => builder@.ty is None,
            },
    {
        let ty = match ty {
            Some(name) => Some(name.to_owned()),
            None => None,
        };
        SearchRequestBuilder { index: self.index, ty, body: self.body }
    }

    /// Sets the body of the search.
    pub fn body(self, body: Vec<u8>) -> (builder: SearchRequestBuilder)
        ensures
            builder@ == (SearchRequestBuilderView { body: body@, ..self@ }),
    {
        SearchRequestBuilder { index: self.index, ty: self.ty, body }
    }

    /// The request that this builder stands for.
    pub fn into_request(self) -> (request: HttpRequest)
        ensures
            request@ == search_request(self@),
    {
        let mut url = String::from_str("/");
        match &self.index {
            Some(index) => {
                url.append(index.as_str());
            },
            None => {
                url.append("_all");
            },
        }
        match &self.ty {
            Some(ty) => {
                url.append("/");
                url.append(ty.as_str());
            },
            None => {},
        }
        url.append("/_search");
        assert(url@ =~= search_path(self@.index, self@.ty));
        HttpRequest { method: Method::Post, url, body: Some(self.body) }
    }
}

/// What goes over the wire is settled by the request and the parameters that
/// it is sent under: resolving the same request under the same parameters
/// twice gives the same url, method, headers and body.
pub proof fn lemma_resolving_is_repeatable(
    params: RequestParamsView,
    request: HttpRequestView,
    first: RawRequestView,
    second: RawRequestView,
)
    requires
        first == resolved(params, request),
        second == resolved(params, request),
    ensures
        first == second,
        first.method == request.method,
        first.body == request.body,
        first.url == params.base_url + request.url + query_text(params.url_params),
{
}

} // verus!
