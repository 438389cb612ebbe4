//! Telling a value from a reported error in a decoded payload.
use crate::error::{api_error_of, ApiError, ResponseError, ResponseErrorView};
use crate::json::{decode, json_decoding, Json, JsonValue, ParseError};
use crate::status::StatusCode;
use vstd::prelude::*;
use vstd::string::*;

verus! {

/// How a response type tells whether a decoded payload is a value of it or an
/// error that the service reported.
///
/// The status of the response is at hand, but it is the payload that decides:
/// a type may call a payload a value whatever the status is.
pub trait IsOk {
    /// Whether a response with this status and payload is a value.
    spec fn is_ok_spec(status: u16, tree: JsonValue) -> bool;

    /// Whether a response with this status and payload is a value.
    fn is_ok(status: StatusCode, tree: &Json) -> (ok: bool)
        ensures
            ok == Self::is_ok_spec(status.number(), tree@),
    ;
}

/// How a response type is made from a decoded payload.
pub trait FromTree: View + Sized {
    /// The value that a payload holds, or why it holds none.
    spec fn from_tree_spec(tree: JsonValue) -> Result<Self::V, Seq<char>>;

    /// The value that a payload holds, or why it holds none.
    fn from_tree(tree: &Json) -> (value: Result<Self, ParseError>)
        ensures
            match value {
                Ok(v) => Self::from_tree_spec(tree@) == Ok::<Self::V, Seq<char>>(v@),
                Err(e) => Self::from_tree_spec(tree@) == Err::<Self::V, Seq<char>>(e@),
            },
    ;
}

/// Why a payload that is not a value is no reported error either.
pub open spec fn not_an_error() -> Seq<char> {
    "the payload is not an object"@
}

/// What a response with the given status is, once its body has been decoded:
/// a value, an error that the service reported, or a payload that cannot be
/// read.
///
/// A body that does not decode is never a reported error. A decoded payload
/// is a value or a reported error as the type says of it, whatever the status
/// is; one that then cannot be read as what it was said to be cannot be read.
pub open spec fn classified<T: IsOk + FromTree>(
    status: u16,
    decoding: Result<JsonValue, Seq<char>>,
) -> Result<T::V, ResponseErrorView> {
    match decoding {
        Err(cause) => Err(ResponseErrorView::Parse(cause)),
        Ok(tree) => if T::is_ok_spec(status, tree) {
            match T::from_tree_spec(tree) {
                Ok(value) => Ok(value),
                Err(cause) => Err(ResponseErrorView::Parse(cause)),
            }
        } else {
            match api_error_of(tree) {
                Some(error) => Err(ResponseErrorView::Api(error)),
                None => Err(ResponseErrorView::Parse(not_an_error())),
            }
        },
    }
}

/// The outcome of decoding, as a mathematical value.
pub open spec fn decoding_view(decoding: Result<Json, ParseError>) -> Result<JsonValue, Seq<char>> {
    match decoding {
        Ok(tree) => Ok(tree@),
        Err(error) => Err(error@),
    }
}

/// Classifies a response whose body has been decoded.
pub fn classify<T: IsOk + FromTree>(status: StatusCode, decoding: Result<Json, ParseError>) -> (outcome:
    Result<T, ResponseError>)
    ensures
        match outcome {
            Ok(value) => classified::<T>(status.number(), decoding_view(decoding)) == Ok::<
                T::V,
                ResponseErrorView,
            >(value@),
            Err(error) => classified::<T>(status.number(), decoding_view(decoding)) == Err::<
                T::V,
                ResponseErrorView,
            >(error@),
        },
{
    let tree = match decoding {
        Ok(tree) => tree,
        Err(error) => {
            return Err(ResponseError::Parse(error));
        },
    };
    if T::is_ok(status, &tree) {
        match T::from_tree(&tree) {
            Ok(value) => Ok(value),
            Err(error) => Err(ResponseError::Parse(error)),
        }
    } else {
        match ApiError::from_tree(&tree) {
            Some(error) => Err(ResponseError::Api(error)),
            None => Err(
                ResponseError::Parse(
                    ParseError { message: String::from_str("the payload is not an object") },
                ),
            ),
        }
    }
}

/// Decodes the body of a response and classifies it.
pub fn parse<T: IsOk + FromTree>(status: StatusCode, body: &[u8]) -> (outcome: Result<
    T,
    ResponseError,
>)
    ensures
        match outcome {
            Ok(value) => classified::<T>(status.number(), json_decoding(body@)) == Ok::<
                T::V,
                ResponseErrorView,
            >(value@),
            Err(error) => classified::<T>(status.number(), json_decoding(body@)) == Err::<
                T::V,
                ResponseErrorView,
            >(error@),
        },
{
    classify::<T>(status, decode(body))
}

} // verus!
