use elastic::error::{
    build, message, request, response, wrapped, ApiError, Error, ErrorKind, MaybeApiError,
    ResponseError, StringError,
};
use elastic::json::ParseError;
use elastic::status::StatusCode;

fn assert_send<T: Send>() {}

fn assert_sync<T: Sync>() {}

#[test]
fn error_is_send_sync() {
    assert_send::<Error>();
    assert_sync::<Error>();
}

#[test]
fn build_wraps_the_cause() {
    match build(wrapped(String::from("no tls"))) {
        Error::Client(inner) => {
            assert_eq!(&ErrorKind::Build, inner.kind());
            assert_eq!("no tls", inner.source().unwrap().to_string());
            assert_eq!("error attempting to build a client", inner.to_string());
            assert_eq!("error attempting to build a client", inner.description());
            assert_eq!(None, inner.status());
        }
        other => panic!("{:?}", other),
    }
}

#[test]
fn request_wraps_the_cause() {
    match request(wrapped(String::from("timed out"))) {
        Error::Client(inner) => {
            assert_eq!(&ErrorKind::Request, inner.kind());
            assert_eq!("timed out", inner.source().unwrap().to_string());
            assert_eq!("error sending a request", inner.to_string());
        }
        other => panic!("{:?}", other),
    }
}

#[test]
fn response_keeps_an_api_error() {
    let status = StatusCode::from_u16(404).unwrap();
    let api = ApiError::IndexNotFound { index: String::from("idx") };

    let err = response(status, ResponseError::Api(api));

    assert_eq!(Error::Api(ApiError::IndexNotFound { index: String::from("idx") }), err);
    assert_eq!("API error returned from Elasticsearch", err.description());
}

#[test]
fn response_wraps_any_other_error_with_the_status() {
    let status = StatusCode::from_u16(503).unwrap();
    let parse = ParseError { message: String::from("expected value") };

    match response(status, ResponseError::Parse(parse)) {
        Error::Client(inner) => {
            assert_eq!(Some(503), inner.status());
            assert_eq!("expected value", inner.source().unwrap().to_string());
            assert_eq!("error receiving a response", inner.description());
            assert_eq!(
                "error receiving a response. Status code: 503 Service Unavailable",
                inner.to_string()
            );
        }
        other => panic!("{:?}", other),
    }
}

#[test]
fn client_error_description() {
    let err = request(wrapped(String::from("refused")));

    assert_eq!("error sending a request or receiving a response", err.description());
}

#[test]
fn message_is_the_message() {
    assert_eq!(StringError::Message(String::from("oops")), message(String::from("oops")));
    assert_eq!("abc", message(String::from("abc")).to_string());
    assert_eq!("", message(String::new()).to_string());
}

#[test]
fn response_takes_any_cause() {
    let status = StatusCode::from_u16(500).unwrap();

    match response(status, ParseError { message: String::from("eof") }) {
        Error::Client(inner) => {
            assert_eq!(Some(500), inner.status());
            assert_eq!("eof", inner.source().unwrap().to_string());
        }
        other => panic!("{:?}", other),
    }

    match response(status, wrapped(String::from("broken pipe"))) {
        Error::Client(inner) => {
            assert_eq!(Some(500), inner.status());
            assert_eq!("broken pipe", inner.source().unwrap().to_string());
        }
        other => panic!("{:?}", other),
    }
}

#[test]
fn test_error_has_no_cause() {
    match elastic::error::test() {
        Error::Client(inner) => {
            assert_eq!(&ErrorKind::Msg(String::from("a test error")), inner.kind());
            assert!(inner.source().is_none());
            assert_eq!("a test error", inner.to_string());
        }
        other => panic!("{:?}", other),
    }
}

#[test]
fn maybe_api_error_from_response_error() {
    let api = ResponseError::Api(ApiError::MapperParsing { reason: String::from("bad") });
    assert_eq!(
        MaybeApiError::Api(ApiError::MapperParsing { reason: String::from("bad") }),
        MaybeApiError::from(api)
    );

    let parse = ResponseError::Parse(ParseError { message: String::from("eof") });
    assert_eq!(
        MaybeApiError::Other(ResponseError::Parse(ParseError { message: String::from("eof") })),
        MaybeApiError::from(parse)
    );
}

#[test]
fn maybe_api_error_from_parse_error() {
    let parse = ParseError { message: String::from("eof") };

    assert_eq!(
        MaybeApiError::Other(ParseError { message: String::from("eof") }),
        MaybeApiError::from(parse)
    );
}

#[test]
fn api_error_descriptions() {
    assert_eq!("index not found", ApiError::IndexNotFound { index: String::new() }.description());
    assert_eq!(
        "index already exists",
        ApiError::IndexAlreadyExists { index: String::new() }.description()
    );
    assert_eq!(
        "document is missing",
        ApiError::DocumentMissing { index: String::new() }.description()
    );
    assert_eq!(
        "request parse error",
        ApiError::Parsing { line: 1, col: 2, reason: String::new() }.description()
    );
    assert_eq!(
        "mapper parse error",
        ApiError::MapperParsing { reason: String::new() }.description()
    );
    assert_eq!(
        "action request failed validation",
        ApiError::ActionRequestValidation { reason: String::new() }.description()
    );
    assert_eq!("error response from Elasticsearch", ApiError::Other(Vec::new()).description());
}

#[test]
fn api_errors_display_what_they_are_about() {
    assert_eq!(
        "index not found: 'idx'",
        ApiError::IndexNotFound { index: String::from("idx") }.to_string()
    );
    assert_eq!(
        "index already exists: 'idx'",
        ApiError::IndexAlreadyExists { index: String::from("idx") }.to_string()
    );
    assert_eq!(
        "document in index is missing: 'idx'",
        ApiError::DocumentMissing { index: String::from("idx") }.to_string()
    );
    assert_eq!(
        "request parse error: 'bad' on line: 12, col: 0",
        ApiError::Parsing { line: 12, col: 0, reason: String::from("bad") }.to_string()
    );
    assert_eq!(
        "mapper parse error: 'bad'",
        ApiError::MapperParsing { reason: String::from("bad") }.to_string()
    );
    assert_eq!(
        "action request failed validation: 'bad'",
        ApiError::ActionRequestValidation { reason: String::from("bad") }.to_string()
    );
    assert_eq!("error response from Elasticsearch", ApiError::Other(Vec::new()).to_string());
}

#[test]
fn errors_display_their_kind_and_cause() {
    assert_eq!(
        "API error returned from Elasticsearch. Caused by: index not found: 'idx'",
        Error::Api(ApiError::IndexNotFound { index: String::from("idx") }).to_string()
    );
    assert_eq!(
        "error sending a request or receiving a response. Caused by: error sending a request",
        request(wrapped(String::from("refused"))).to_string()
    );
    assert_eq!(
        "error sending a request or receiving a response. Caused by: error receiving a response. Status code: 404 Not Found",
        response(
            StatusCode::from_u16(404).unwrap(),
            ResponseError::Parse(ParseError { message: String::from("eof") })
        )
        .to_string()
    );
}

#[test]
fn decimal_has_no_leading_zeros() {
    assert_eq!("0", elastic::text::decimal(0));
    assert_eq!("9", elastic::text::decimal(9));
    assert_eq!("10", elastic::text::decimal(10));
    assert_eq!("1234567890", elastic::text::decimal(1234567890));
    assert_eq!("18446744073709551615", elastic::text::decimal(u64::MAX));
}

#[test]
fn maybe_api_error_from_a_cause() {
    assert_eq!(
        MaybeApiError::Other(wrapped(String::from("io"))),
        MaybeApiError::from(wrapped(String::from("io")))
    );
}
