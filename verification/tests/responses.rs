use elastic::error::{ApiError, Error, ErrorKind, ResponseError};
use elastic::json::{decode, Json, ParseError};
use elastic::parse::{classify, parse};
use elastic::response::{
    async_response, into_response, respond, sync_response, HttpResponse, RawResponse,
};
use elastic::responses::{GetResponse, SearchResponse};
use elastic::status::StatusCode;

fn raw(status: u16, body: &str) -> RawResponse {
    RawResponse::new(StatusCode::from_u16(status).unwrap(), body.as_bytes().to_vec())
}

fn text(value: &str) -> Json {
    Json::Text(String::from(value))
}

fn object(members: Vec<(&str, Json)>) -> Json {
    Json::Object(members.into_iter().map(|(key, value)| (String::from(key), value)).collect())
}

#[test]
fn get_found_document() {
    let body = r#"{"_index": "idx", "_type": "ty", "_id": "1", "_version": 3, "found": true, "_source": {"title": "a", "n": 1}}"#;

    let res = sync_response(raw(200, body)).into_response::<GetResponse>().unwrap();

    assert!(res.found());
    assert_eq!(Some("idx"), res.index());
    assert_eq!(Some("ty"), res.ty());
    assert_eq!(Some("1"), res.id());
    assert_eq!(Some(3), res.version());
    assert_eq!(
        Some(object(vec![("n", Json::Unsigned(1)), ("title", text("a"))])),
        res.into_document()
    );
}

#[test]
fn get_document_not_found() {
    let res = sync_response(raw(200, r#"{"found": false}"#)).into_response::<GetResponse>().unwrap();

    assert!(!res.found());
    assert_eq!(None, res.index());
    assert_eq!(None, res.version());
    assert_eq!(None, res.into_document());
}

#[test]
fn get_document_not_found_with_404() {
    let body = r#"{"_index": "idx", "_type": "ty", "_id": "1", "found": false}"#;

    let res = sync_response(raw(404, body)).into_response::<GetResponse>().unwrap();

    assert!(!res.found());
    assert_eq!(None, res.into_document());
}

#[test]
fn get_null_source_is_no_document() {
    let res = sync_response(raw(200, r#"{"found": true, "_source": null}"#))
        .into_response::<GetResponse>()
        .unwrap();

    assert!(res.found());
    assert_eq!(None, res.into_document());
}

#[test]
fn get_index_not_found() {
    let body = r#"{"error": {"root_cause": [{"type": "index_not_found_exception", "reason": "no such index", "index": "carrots"}], "type": "index_not_found_exception", "reason": "no such index", "resource.type": "index_or_alias", "resource.id": "carrots", "index_uuid": "_na_", "index": "carrots"}, "status": 404}"#;

    let err = sync_response(raw(404, body)).into_response::<GetResponse>().unwrap_err();

    assert_eq!(Error::Api(ApiError::IndexNotFound { index: String::from("carrots") }), err);
}

#[test]
fn plain_text_body_is_a_client_error_with_the_status() {
    let err = sync_response(raw(503, "Service Unavailable"))
        .into_response::<GetResponse>()
        .unwrap_err();

    match err {
        Error::Client(inner) => {
            assert_eq!(Some(503), inner.status());
            assert_eq!(
                &ErrorKind::Response(StatusCode::from_u16(503).unwrap()),
                inner.kind()
            );
            assert_eq!("expected value at line 1 column 1", inner.source().unwrap().to_string());
        }
        other => panic!("{:?}", other),
    }
}

#[test]
fn plain_text_body_is_never_an_api_error() {
    for status in [200u16, 404, 500, 503] {
        let err = sync_response(raw(status, "not json")).into_response::<Json>().unwrap_err();
        match err {
            Error::Client(inner) => assert_eq!(Some(status), inner.status()),
            other => panic!("{:?}", other),
        }
    }
}

#[test]
fn success_payload_that_is_no_value_is_a_client_error() {
    let err = sync_response(raw(200, r#"{"took": 1}"#)).into_response::<GetResponse>().unwrap_err();

    match err {
        Error::Client(inner) => {
            assert_eq!(Some(200), inner.status());
            assert_eq!("missing field `found`", inner.source().unwrap().to_string());
        }
        other => panic!("{:?}", other),
    }
}

#[test]
fn error_payload_decides_whatever_the_status_is() {
    let body = r#"{"error": {"type": "index_not_found_exception", "reason": "no such index", "index": "idx"}, "status": 404}"#;

    for status in [200u16, 201, 299, 404, 500] {
        let expected = || Error::Api(ApiError::IndexNotFound { index: String::from("idx") });

        let err = sync_response(raw(status, body)).into_response::<GetResponse>().unwrap_err();
        assert_eq!(expected(), err);

        let err = sync_response(raw(status, body)).into_response::<SearchResponse>().unwrap_err();
        assert_eq!(expected(), err);

        let err = sync_response(raw(status, body)).into_response::<Json>().unwrap_err();
        assert_eq!(expected(), err);

        let err = async_response(raw(status, body)).into_response::<GetResponse>().unwrap_err();
        assert_eq!(expected(), err);
    }
}

#[test]
fn error_member_that_is_no_object_is_kept_whole_whatever_the_status_is() {
    let err = sync_response(raw(200, r#"{"error": "text", "found": true}"#))
        .into_response::<GetResponse>()
        .unwrap_err();

    assert_eq!(
        Error::Api(ApiError::Other(vec![
            (String::from("error"), text("text")),
            (String::from("found"), Json::Bool(true)),
        ])),
        err
    );
}

#[test]
fn failure_status_with_a_payload_that_is_no_object_is_a_client_error() {
    let err = sync_response(raw(500, r#"["a"]"#)).into_response::<Json>().unwrap_err();

    match err {
        Error::Client(inner) => {
            assert_eq!(Some(500), inner.status());
            assert_eq!("the payload is not an object", inner.source().unwrap().to_string());
        }
        other => panic!("{:?}", other),
    }
}

#[test]
fn failure_status_with_an_object_without_an_error_is_kept_whole() {
    let err = sync_response(raw(500, r#"{"message": "boom"}"#)).into_response::<Json>().unwrap_err();

    assert_eq!(
        Error::Api(ApiError::Other(vec![(String::from("message"), text("boom"))])),
        err
    );
}

#[test]
fn value_response_is_the_decoded_body() {
    let body = r#"{"b": [1, -2, 1.5, "x", null, true], "a": {}}"#;

    let value = sync_response(raw(200, body)).into_response::<Json>().unwrap();

    assert_eq!(decode(body.as_bytes()).unwrap(), value);
    assert_eq!(
        object(vec![
            ("a", Json::Object(Vec::new())),
            (
                "b",
                Json::Array(vec![
                    Json::Unsigned(1),
                    Json::Signed(-2),
                    Json::Real(String::from("1.5")),
                    text("x"),
                    Json::Null,
                    Json::Bool(true),
                ])
            ),
        ]),
        value
    );
}

#[test]
fn known_api_errors() {
    let cases: Vec<(&str, ApiError)> = vec![
        (
            r#"{"error": {"type": "index_already_exists_exception", "index": "idx"}}"#,
            ApiError::IndexAlreadyExists { index: String::from("idx") },
        ),
        (
            r#"{"error": {"type": "document_missing_exception", "index": "idx"}}"#,
            ApiError::DocumentMissing { index: String::from("idx") },
        ),
        (
            r#"{"error": {"type": "parsing_exception", "line": 2, "col": 9, "reason": "bad"}}"#,
            ApiError::Parsing { line: 2, col: 9, reason: String::from("bad") },
        ),
        (
            r#"{"error": {"type": "mapper_parsing_exception", "reason": "bad"}}"#,
            ApiError::MapperParsing { reason: String::from("bad") },
        ),
        (
            r#"{"error": {"type": "action_request_validation_exception", "reason": "bad"}}"#,
            ApiError::ActionRequestValidation { reason: String::from("bad") },
        ),
    ];

    for (body, expected) in cases {
        let err = sync_response(raw(400, body)).into_response::<Json>().unwrap_err();
        assert_eq!(Error::Api(expected), err);
    }
}

#[test]
fn unknown_or_incomplete_api_errors_are_kept_whole() {
    let unknown = sync_response(raw(400, r#"{"error": {"type": "strange", "reason": "r"}}"#))
        .into_response::<Json>()
        .unwrap_err();
    assert_eq!(
        Error::Api(ApiError::Other(vec![
            (String::from("reason"), text("r")),
            (String::from("type"), text("strange")),
        ])),
        unknown
    );

    let incomplete = sync_response(raw(400, r#"{"error": {"type": "parsing_exception", "line": 2}}"#))
        .into_response::<Json>()
        .unwrap_err();
    assert_eq!(
        Error::Api(ApiError::Other(vec![
            (String::from("line"), Json::Unsigned(2)),
            (String::from("type"), text("parsing_exception")),
        ])),
        incomplete
    );

    let untyped = sync_response(raw(400, r#"{"error": "text"}"#)).into_response::<Json>().unwrap_err();
    assert_eq!(Error::Api(ApiError::Other(vec![(String::from("error"), text("text"))])), untyped);
}

#[test]
fn search_response_holds_the_hits() {
    let body = r#"{"took": 5, "timed_out": false, "hits": {"total": 2, "hits": [{"_id": "1"}, {"_id": "2"}]}}"#;

    let res = sync_response(raw(200, body)).into_response::<SearchResponse>().unwrap();

    assert_eq!(Some(5), res.took());
    assert_eq!(Some(2), res.total());
    assert_eq!(
        &vec![object(vec![("_id", text("1"))]), object(vec![("_id", text("2"))])],
        res.hits()
    );
}

#[test]
fn search_response_without_hits_is_a_client_error() {
    let err = sync_response(raw(200, r#"{"took": 5}"#)).into_response::<SearchResponse>().unwrap_err();

    match err {
        Error::Client(inner) => {
            assert_eq!(Some(200), inner.status());
            assert_eq!("missing field `hits`", inner.source().unwrap().to_string());
        }
        other => panic!("{:?}", other),
    }
}

#[test]
fn search_failure_is_an_api_error() {
    let body = r#"{"error": {"type": "index_not_found_exception", "index": "idx"}, "status": 404}"#;

    let err = sync_response(raw(404, body)).into_response::<SearchResponse>().unwrap_err();

    assert_eq!(Error::Api(ApiError::IndexNotFound { index: String::from("idx") }), err);
}

#[test]
fn status_can_be_asked_any_number_of_times() {
    let builder = sync_response(raw(201, "{}"));

    assert_eq!(201, builder.status());
    assert_eq!(201, builder.status());
    assert_eq!(object(vec![]), builder.into_response::<Json>().unwrap());
}

#[test]
fn async_builder_gives_what_the_sync_builder_gives() {
    let body = r#"{"found": true, "_source": {"a": 1}}"#;

    let blocking = sync_response(raw(200, body)).into_response::<GetResponse>();
    let builder = async_response(raw(200, body));
    assert_eq!(200, builder.status());
    let non_blocking = builder.into_response::<GetResponse>();

    assert_eq!(blocking, non_blocking);
    assert_eq!(blocking, into_response::<GetResponse>(raw(200, body)));
}

#[test]
fn raw_response_is_read_piece_by_piece() {
    let mut res = sync_response(raw(200, "hello world")).into_raw();

    assert_eq!(200, res.status());
    assert_eq!(b"hello".to_vec(), res.read(5));
    assert_eq!(b"".to_vec(), res.read(0));
    assert_eq!(b" world".to_vec(), res.read(100));
    assert_eq!(b"".to_vec(), res.read(100));
    assert_eq!(200, res.status());
}

#[test]
fn async_raw_response_is_read_piece_by_piece() {
    let mut res = async_response(raw(404, "abc")).into_raw();

    assert_eq!(404, res.status());
    assert_eq!(b"ab".to_vec(), res.read(2));
    assert_eq!(b"c".to_vec(), res.read(2));
    assert_eq!(b"".to_vec(), res.read(2));
}

#[test]
fn http_response_of_an_empty_body() {
    let mut res = HttpResponse::new(raw(204, ""));

    assert_eq!(204, res.status());
    assert_eq!(b"".to_vec(), res.read(10));
}

#[test]
fn classify_takes_the_decoding_as_it_is() {
    let status = StatusCode::from_u16(200).unwrap();

    let ok = classify::<GetResponse>(status, Ok(object(vec![("found", Json::Bool(false))]))).unwrap();
    assert!(!ok.found());

    let undecoded = classify::<GetResponse>(
        status,
        Err(ParseError { message: String::from("eof") }),
    );
    assert_eq!(
        Err(ResponseError::Parse(ParseError { message: String::from("eof") })),
        undecoded
    );

    let not_found = StatusCode::from_u16(404).unwrap();
    let reported = classify::<GetResponse>(
        not_found,
        Ok(object(vec![(
            "error",
            object(vec![("type", text("index_not_found_exception")), ("index", text("i"))]),
        )])),
    );
    assert_eq!(
        Err(ResponseError::Api(ApiError::IndexNotFound { index: String::from("i") })),
        reported
    );
}

#[test]
fn respond_maps_what_cannot_be_read_to_the_status() {
    let status = StatusCode::from_u16(502).unwrap();

    let err = respond::<Json>(status, Err(ParseError { message: String::from("eof") })).unwrap_err();

    match err {
        Error::Client(inner) => {
            assert_eq!(Some(502), inner.status());
            assert_eq!("eof", inner.source().unwrap().to_string());
            assert_eq!(
                "error receiving a response. Status code: 502 Bad Gateway",
                inner.to_string()
            );
        }
        other => panic!("{:?}", other),
    }
}

#[test]
fn parse_decodes_and_classifies() {
    let status = StatusCode::from_u16(200).unwrap();

    assert_eq!(Ok(Json::Unsigned(7)), parse::<Json>(status, b"7"));
    assert_eq!(
        Err(ResponseError::Parse(ParseError {
            message: String::from("EOF while parsing a value at line 1 column 0")
        })),
        parse::<Json>(status, b"")
    );
}
