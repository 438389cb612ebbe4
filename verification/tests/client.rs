use elastic::client::{
    received, sent, AsyncClient, AsyncClientBuilder, AsyncSender, Client, SyncClient,
    SyncClientBuilder, SyncSender, Connect, Transport,
};
use elastic::error::{wrapped, ApiError, Error, ErrorKind, WrappedError};
use elastic::json::Json;
use elastic::params::RequestParams;
use elastic::request::{HttpRequest, Method, RawRequest};
use elastic::response::RawResponse;
use elastic::responses::GetResponse;
use elastic::status::StatusCode;

/// A transport that answers every request with its url as a payload.
#[derive(Clone, Debug, PartialEq)]
struct Echo {
    tag: u8,
}

impl Connect for Echo {
    fn connect() -> Result<Self, WrappedError> {
        Ok(Echo { tag: 0 })
    }
}

impl Transport for Echo {
    fn execute(&self, request: &RawRequest) -> Result<RawResponse, WrappedError> {
        let body = format!("{:?}", request.url());
        Ok(RawResponse::new(StatusCode::from_u16(200).unwrap(), body.into_bytes()))
    }
}

/// A transport that cannot be made.
#[derive(Clone, Debug, PartialEq)]
struct Broken;

impl Connect for Broken {
    fn connect() -> Result<Self, WrappedError> {
        Err(wrapped(String::from("no tls backend")))
    }
}

impl Transport for Broken {
    fn execute(&self, _request: &RawRequest) -> Result<RawResponse, WrappedError> {
        Err(wrapped(String::from("connection refused")))
    }
}

fn pair(key: &str, value: &str) -> (String, String) {
    (String::from(key), String::from(value))
}

fn assert_build_error(err: Error, cause: &str) {
    match err {
        Error::Client(inner) => {
            assert_eq!(&ErrorKind::Build, inner.kind());
            assert_eq!(cause, inner.source().unwrap().to_string());
        }
        other => panic!("{:?}", other),
    }
}

#[test]
fn client_has_the_params_it_was_made_with() {
    let client = SyncClient::<Echo>::new(RequestParams::new("http://eshost:9200")).unwrap();

    assert_eq!("http://eshost:9200", client.get_params().get_base_url());
}

#[test]
fn client_fails_to_build_without_a_transport() {
    let err = SyncClient::<Broken>::new(RequestParams::default()).unwrap_err();
    assert_build_error(err, "no tls backend");

    let err = AsyncClient::<Broken>::new(RequestParams::default()).unwrap_err();
    assert_build_error(err, "no tls backend");

    assert_build_error(SyncSender::<Broken>::new().unwrap_err(), "no tls backend");
    assert_build_error(AsyncSender::<Broken>::new().unwrap_err(), "no tls backend");
}

#[test]
fn sync_builder_defaults() {
    let client = SyncClientBuilder::<Echo>::new().build().unwrap();

    assert_eq!(&RequestParams::default(), client.get_params());
}

#[test]
fn sync_builder_sets_base_url_and_params() {
    let client = SyncClientBuilder::<Echo>::new()
        .base_url("https://my_es_cluster/some_path")
        .params(|params| params.url_param("pretty", "true"))
        .build()
        .unwrap();

    assert_eq!("https://my_es_cluster/some_path", client.get_params().get_base_url());
    assert_eq!(&vec![pair("pretty", "true")], client.get_params().get_url_params());
}

#[test]
fn sync_builder_uses_the_given_handle() {
    let client = SyncClientBuilder::<Broken>::new().http_client(Broken).build().unwrap();

    assert_eq!("http://localhost:9200", client.get_params().get_base_url());

    let client = SyncClientBuilder::<Echo>::new().http_client(Echo { tag: 9 }).build().unwrap();
    assert_eq!(&Echo { tag: 9 }, client.get_sender().get_http());
}

#[test]
fn builders_without_a_handle_have_the_one_that_the_transport_makes() {
    let client = SyncClientBuilder::<Echo>::new().build().unwrap();
    assert_eq!(&Echo { tag: 0 }, client.get_sender().get_http());

    let client = AsyncClientBuilder::<Echo>::new().de_pool(Some(3)).build().unwrap();
    assert_eq!(&Echo { tag: 0 }, client.get_sender().get_http());
    assert_eq!(Some(3), client.get_sender().de_pool());

    let client = AsyncClientBuilder::<Echo>::new().http_client(Echo { tag: 5 }).build().unwrap();
    assert_eq!(&Echo { tag: 5 }, client.get_sender().get_http());
}

#[test]
fn sync_builder_without_a_handle_asks_the_transport() {
    let err = SyncClientBuilder::<Broken>::new().build().unwrap_err();

    assert_build_error(err, "no tls backend");
}

#[test]
fn sync_builder_with_a_handle_that_was_made() {
    let client = SyncClientBuilder::<Echo>::new().build_with(Ok(Echo { tag: 7 })).unwrap();
    assert_eq!("http://localhost:9200", client.get_params().get_base_url());

    let err = SyncClientBuilder::<Echo>::new()
        .build_with(Err(wrapped(String::from("nope"))))
        .unwrap_err();
    assert_build_error(err, "nope");

    let given = SyncClientBuilder::<Echo>::new()
        .http_client(Echo { tag: 1 })
        .build_with(Err(wrapped(String::from("nope"))));
    assert!(given.is_ok());
}

#[test]
fn async_builder_defaults_to_no_pool() {
    let client = AsyncClientBuilder::<Echo>::new().build().unwrap();

    assert_eq!(None, client.get_sender().de_pool());
    assert_eq!(&RequestParams::default(), client.get_params());
}

#[test]
fn async_builder_has_the_pool_it_is_given() {
    let client = AsyncClientBuilder::<Echo>::new().de_pool(Some(2)).build().unwrap();
    assert_eq!(Some(2), client.get_sender().de_pool());

    let client = AsyncClientBuilder::<Echo>::new().de_pool(Some(2)).de_pool(None).build().unwrap();
    assert_eq!(None, client.get_sender().de_pool());
}

#[test]
fn async_builder_sets_base_url_params_and_handle() {
    let client = AsyncClientBuilder::<Broken>::new()
        .base_url("http://es")
        .params(|params| params.header("a", "b"))
        .http_client(Broken)
        .build()
        .unwrap();

    assert_eq!("http://es", client.get_params().get_base_url());
    assert_eq!(
        vec![pair("Content-Type", "application/json"), pair("a", "b")],
        client.get_params().get_headers()
    );

    let err = AsyncClientBuilder::<Broken>::new().build().unwrap_err();
    assert_build_error(err, "no tls backend");
}

#[test]
fn async_builder_with_a_handle_that_was_made() {
    let client = AsyncClientBuilder::<Echo>::new()
        .de_pool(Some(4))
        .build_with(Ok(Echo { tag: 7 }))
        .unwrap();
    assert_eq!(Some(4), client.get_sender().de_pool());
    assert_eq!(&Echo { tag: 7 }, client.get_sender().get_http());

    let err = AsyncClientBuilder::<Echo>::new()
        .build_with(Err(wrapped(String::from("nope"))))
        .unwrap_err();
    assert_build_error(err, "nope");
}

#[test]
fn async_client_has_no_pool_unless_built_with_one() {
    let client = AsyncClient::<Echo>::new(RequestParams::default()).unwrap();

    assert_eq!(None, client.get_sender().de_pool());
}

#[test]
fn request_local_override_appears_once() {
    let client = SyncClient::<Echo>::new(
        RequestParams::new("http://eshost:9200").url_param("pretty", "false").url_param("q", "x"),
    )
    .unwrap();

    let raw = client
        .request(HttpRequest::new(Method::Get, "/idx/_search", None))
        .params(|params| params.url_param("pretty", "true"))
        .into_raw();

    assert_eq!("http://eshost:9200/idx/_search?pretty=true&q=x", raw.url());
    assert_eq!(1, raw.url().matches("pretty").count());
    assert_eq!(0, raw.url().matches("false").count());
}

#[test]
fn request_local_override_leaves_the_client_alone() {
    let client = SyncClient::<Echo>::new(
        RequestParams::new("http://eshost:9200").url_param("pretty", "false"),
    )
    .unwrap();

    let builder = client
        .request(HttpRequest::new(Method::Get, "/", None))
        .params(|params| params.url_param("pretty", "true").header("X", "1"))
        .params(|params| params.url_param("human", "true"));

    assert_eq!(
        &vec![pair("pretty", "true"), pair("human", "true")],
        builder.get_params().get_url_params()
    );
    assert_eq!(&vec![pair("pretty", "false")], client.get_params().get_url_params());

    let plain = client.request(HttpRequest::new(Method::Get, "/", None)).into_raw();
    assert_eq!("http://eshost:9200/?pretty=false", plain.url());
}

#[test]
fn building_a_request_twice_gives_the_same() {
    let client = SyncClient::<Echo>::new(
        RequestParams::new("http://eshost:9200").url_param("a", "1"),
    )
    .unwrap();

    let first = client
        .request(HttpRequest::new(Method::Post, "/idx", Some(b"{}".to_vec())))
        .params(|params| params.url_param("b", "2"))
        .into_raw();
    let second = client
        .request(HttpRequest::new(Method::Post, "/idx", Some(b"{}".to_vec())))
        .params(|params| params.url_param("b", "2"))
        .into_raw();

    assert_eq!(first, second);
    assert_eq!("http://eshost:9200/idx?a=1&b=2", first.url());
    assert_eq!(Method::Post, first.method());
    assert_eq!(Some(&b"{}".to_vec()), first.body());
}

#[test]
fn send_hands_the_resolved_request_to_the_transport() {
    let client = SyncClient::<Echo>::new(RequestParams::new("http://eshost:9200")).unwrap();

    let res = client
        .request(HttpRequest::new(Method::Get, "/idx", None))
        .params(|params| params.url_param("pretty", "true"))
        .send()
        .unwrap();

    assert_eq!(200, res.status());
    assert_eq!(
        Json::Text(String::from("http://eshost:9200/idx?pretty=true")),
        res.into_response::<Json>().unwrap()
    );
}

#[test]
fn send_without_an_answer_is_a_request_error() {
    let client = Client::with_sender(
        SyncSender::<Broken>::from_connection(Ok(Broken)).unwrap(),
        RequestParams::default(),
    );

    let err = client.request(HttpRequest::new(Method::Get, "/", None)).send().unwrap_err();

    match err {
        Error::Client(inner) => {
            assert_eq!(&ErrorKind::Request, inner.kind());
            assert_eq!("connection refused", inner.source().unwrap().to_string());
        }
        other => panic!("{:?}", other),
    }
}

#[test]
fn non_blocking_send_says_what_is_to_be_sent() {
    let client = AsyncClientBuilder::<Echo>::new()
        .base_url("http://eshost:9200")
        .de_pool(Some(3))
        .build()
        .unwrap();

    let pending = client
        .request(HttpRequest::new(Method::Get, "/idx/ty/1", None))
        .params(|params| params.url_param("pretty", "true"))
        .send();

    assert_eq!("http://eshost:9200/idx/ty/1?pretty=true", pending.request().url());
    assert_eq!(Method::Get, pending.request().method());
    assert_eq!(Some(3), pending.de_pool());

    let raw = RawResponse::new(StatusCode::from_u16(200).unwrap(), b"{\"found\": false}".to_vec());
    let res = pending.complete(Ok(raw)).unwrap().into_response::<GetResponse>().unwrap();
    assert!(!res.found());
}

#[test]
fn non_blocking_send_without_an_answer_is_a_request_error() {
    let client = AsyncClient::<Echo>::new(RequestParams::default()).unwrap();

    let pending = client.search().index("idx").send();
    assert_eq!("http://localhost:9200/idx/_search", pending.request().url());
    assert_eq!(None, pending.de_pool());

    match pending.complete(Err(wrapped(String::from("timeout")))).unwrap_err() {
        Error::Client(inner) => {
            assert_eq!(&ErrorKind::Request, inner.kind());
            assert_eq!("timeout", inner.source().unwrap().to_string());
        }
        other => panic!("{:?}", other),
    }
}

#[test]
fn sent_and_received_take_the_outcome_as_it_is() {
    let ok = sent(Ok(RawResponse::new(StatusCode::from_u16(201).unwrap(), Vec::new()))).unwrap();
    assert_eq!(201, ok.status());

    let body = br#"{"error": {"type": "index_not_found_exception", "index": "i"}}"#.to_vec();
    let reported = received::<GetResponse>(Ok(RawResponse::new(
        StatusCode::from_u16(404).unwrap(),
        body,
    )));
    assert_eq!(
        Err(Error::Api(ApiError::IndexNotFound { index: String::from("i") })),
        reported
    );

    match received::<GetResponse>(Err(wrapped(String::from("dns")))).unwrap_err() {
        Error::Client(inner) => assert_eq!(&ErrorKind::Request, inner.kind()),
        other => panic!("{:?}", other),
    }
}
