//! What an answer of the service means: the value that the call returns,
//! or the failure.

use crate::codec::JsonCodec;
use crate::error::{
    ApiError, Error, ErrorResponse, ErrorResponseView, ErrorView, Failure, FailureView,
};
use crate::json::{json_parse, Json, JsonView};
use vstd::prelude::*;

verus! {

/// Whether a status says that the call succeeded: 200 to 299.
pub open spec fn is_success(status: u16) -> bool {
    200 <= status <= 299
}

/// What the body of a refused call says. Where the body is a JSON document
/// in the shape of an error, it is that error; where it is a JSON string,
/// the string; any other body stands for itself.
pub open spec fn error_response(body: Seq<char>, document: Option<JsonView>) -> ErrorResponseView {
    match document {
        Some(doc) => match ErrorResponse::decoded(doc) {
            Some(e) => e,
            None => ErrorResponseView::OtherError(body),
        },
        None => ErrorResponseView::OtherError(body),
    }
}

/// What an answer means for a call that returns a `T`, given the document
/// that the body holds, if it holds one.
pub open spec fn outcome<T: JsonCodec>(
    status: u16,
    body: Seq<char>,
    document: Option<JsonView>,
) -> Result<T::V, FailureView> {
    if is_success(status) {
        match document {
            Some(doc) => match T::decoded(doc) {
                Some(v) => Ok(v),
                None => Err(FailureView::Schema { body }),
            },
            None => Err(FailureView::Schema { body }),
        }
    } else {
        Err(FailureView::Remote(ErrorView { response: error_response(body, document), status }))
    }
}

/// What an answer means for a download, whose body is the file itself
/// where the status is a success.
pub open spec fn download_outcome(
    status: u16,
    body: Seq<char>,
    document: Option<JsonView>,
) -> Result<(), ErrorView> {
    if is_success(status) {
        Ok(())
    } else {
        Err(ErrorView { response: error_response(body, document), status })
    }
}

/// Tells whether a status says that the call succeeded.
pub fn status_is_success(status: u16) -> (r: bool)
    ensures
        r == is_success(status),
{
    200 <= status && status <= 299
}

/// Reads the body of a refused call, given the document that it holds.
pub fn classify_error(body: &str, document: &Option<Json>) -> (r: ErrorResponse)
    ensures
        r.deep_view() == error_response(body@, document.deep_view()),
{
    match document {
        Some(doc) => match ErrorResponse::from_json(doc) {
            Some(e) => e,
            None => ErrorResponse::OtherError(body.to_owned()),
        },
        None => ErrorResponse::OtherError(body.to_owned()),
    }
}

/// Reads an answer, given the document that its body holds.
pub fn interpret<T: JsonCodec>(status: u16, body: &str, document: &Option<Json>) -> (r: Result<
    T,
    Failure,
>)
    ensures
        match r {
            Ok(v) => outcome::<T>(status, body@, document.deep_view()) == Ok::<T::V, FailureView>(
                v.deep_view(),
            ),
            Err(e) => outcome::<T>(status, body@, document.deep_view()) == Err::<T::V, FailureView>(
                e.deep_view(),
            ),
        },
{
    if status_is_success(status) {
        match document {
            Some(doc) => match T::from_json(doc) {
                Some(v) => Ok(v),
                None => Err(Failure::Schema { body: body.to_owned() }),
            },
            None => Err(Failure::Schema { body: body.to_owned() }),
        }
    } else {
        Err(Failure::Remote(Error { response: classify_error(body, document), status }))
    }
}

/// Reads an answer: the status and the body as they came.
pub fn process_response<T: JsonCodec>(status: u16, body: &str) -> (r: Result<T, Failure>)
    ensures
        match r {
            Ok(v) => outcome::<T>(status, body@, json_parse(body@)) == Ok::<T::V, FailureView>(
                v.deep_view(),
            ),
            Err(e) => outcome::<T>(status, body@, json_parse(body@)) == Err::<T::V, FailureView>(
                e.deep_view(),
            ),
        },
{
    let document = Json::parse(body);
    interpret::<T>(status, body, &document)
}

/// Reads the answer to a download, given the document that its body holds.
pub fn interpret_download(status: u16, body: &str, document: &Option<Json>) -> (r: Result<
    (),
    Error,
>)
    ensures
        match r {
            Ok(_) => download_outcome(status, body@, document.deep_view()) is Ok,
            Err(e) => download_outcome(status, body@, document.deep_view()) == Err::<(), ErrorView>(
                e.deep_view(),
            ),
        },
{
    if status_is_success(status) {
        Ok(())
    } else {
        Err(Error { response: classify_error(body, document), status })
    }
}

/// Reads the answer to a download. Where the status is a success the body
/// is the file, and is not looked at.
pub fn check_download(status: u16, body: &str) -> (r: Result<(), Error>)
    ensures
        match r {
            Ok(_) => download_outcome(status, body@, json_parse(body@)) is Ok,
            Err(e) => download_outcome(status, body@, json_parse(body@)) == Err::<(), ErrorView>(
                e.deep_view(),
            ),
        },
{
    if status_is_success(status) {
        Ok(())
    } else {
        let document = Json::parse(body);
        interpret_download(status, body, &document)
    }
}

/// A refused call whose body is a JSON document in the shape of the error
/// object gives that error.
pub proof fn lemma_refused_with_error_object<T: JsonCodec>(
    status: u16,
    body: Seq<char>,
    doc: JsonView,
)
    requires
        !is_success(status),
        ApiError::decoded(doc) is Some,
    ensures
        outcome::<T>(status, body, Some(doc)) == Err::<T::V, FailureView>(
            FailureView::Remote(
                ErrorView {
                    response: ErrorResponseView::ApiError(ApiError::decoded(doc)->0),
                    status,
                },
            ),
        ),
{
}

/// A refused call whose body is not JSON gives the body as it came.
pub proof fn lemma_refused_without_json<T: JsonCodec>(status: u16, body: Seq<char>)
    requires
        !is_success(status),
    ensures
        outcome::<T>(status, body, None) == Err::<T::V, FailureView>(
            FailureView::Remote(
                ErrorView { response: ErrorResponseView::OtherError(body), status },
            ),
        ),
{
}

} // verus!
