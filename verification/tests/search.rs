use elastic::client::{Connect, SyncClient, Transport};
use elastic::error::WrappedError;
use elastic::params::RequestParams;
use elastic::request::{Method, RawRequest};
use elastic::response::RawResponse;

/// A transport that makes a handle and answers nothing.
#[derive(Clone)]
struct Offline;

impl Connect for Offline {
    fn connect() -> Result<Self, WrappedError> {
        Ok(Offline)
    }
}

impl Transport for Offline {
    fn execute(&self, _request: &RawRequest) -> Result<RawResponse, WrappedError> {
        Err(elastic::error::wrapped(String::from("offline")))
    }
}

#[test]
fn default_request() {
    let client = SyncClient::<Offline>::new(RequestParams::new("http://eshost:9200")).unwrap();

    let req = client.search().into_inner().into_request();

    assert_eq!("/_all/_search", req.url());
}

#[test]
fn specify_index() {
    let client = SyncClient::<Offline>::new(RequestParams::new("http://eshost:9200")).unwrap();

    let req = client.search().index("new-idx").into_inner().into_request();

    assert_eq!("/new-idx/_search", req.url());
}

#[test]
fn specify_ty() {
    let client = SyncClient::<Offline>::new(RequestParams::new("http://eshost:9200")).unwrap();

    let req = client
        .search()
        .ty(Some("new-ty"))
        .into_inner()
        .into_request();

    assert_eq!("/_all/new-ty/_search", req.url());
}

#[test]
fn specify_body() {
    let client = SyncClient::<Offline>::new(RequestParams::new("http://eshost:9200")).unwrap();

    let req = client.search().body(b"{}".to_vec()).into_inner().into_request();

    assert_eq!(Some(&b"{}".to_vec()), req.body());
}

#[test]
fn search_is_a_post_with_an_empty_body_by_default() {
    let client = SyncClient::<Offline>::new(RequestParams::new("http://eshost:9200")).unwrap();

    let req = client.search().into_inner().into_request();

    assert_eq!(Method::Post, req.method());
    assert_eq!(Some(&Vec::new()), req.body());
}

#[test]
fn specify_index_and_ty() {
    let client = SyncClient::<Offline>::new(RequestParams::new("http://eshost:9200")).unwrap();

    let req = client
        .search()
        .index("idx")
        .ty(Some("ty"))
        .into_inner()
        .into_request();

    assert_eq!("/idx/ty/_search", req.url());
}

#[test]
fn taking_the_ty_away_searches_the_whole_index() {
    let client = SyncClient::<Offline>::new(RequestParams::new("http://eshost:9200")).unwrap();

    let req = client
        .search()
        .index("idx")
        .ty(Some("ty"))
        .ty(None)
        .into_inner()
        .into_request();

    assert_eq!("/idx/_search", req.url());
}

#[test]
fn search_resolves_against_the_client() {
    let client = SyncClient::<Offline>::new(RequestParams::new("http://eshost:9200")).unwrap();

    let raw = client.search().index("idx").into_request().into_raw();

    assert_eq!("http://eshost:9200/idx/_search", raw.url());
    assert_eq!(Method::Post, raw.method());
}

#[test]
fn search_through_a_transport_without_an_answer_is_a_request_error() {
    let client = SyncClient::<Offline>::new(RequestParams::new("http://eshost:9200")).unwrap();

    let err = client.search().send().unwrap_err();

    match err {
        elastic::error::Error::Client(inner) => {
            assert_eq!("error sending a request", inner.to_string());
            assert_eq!("offline", inner.source().unwrap().to_string());
        }
        other => panic!("{:?}", other),
    }
}
