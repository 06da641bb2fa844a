use openai_req::codec::JsonCodec;
use openai_req::common::DeleteResponse;
use openai_req::error::{ApiError, ApiErrorDetails, Error, ErrorResponse, Failure, PreconditionError};
use openai_req::json::Json;
use openai_req::response::{check_download, classify_error, interpret, interpret_download, process_response, status_is_success};

fn details(param: Option<&str>, code: Option<&str>) -> ApiError {
    ApiError {
        error: ApiErrorDetails {
            message: "Invalid value".to_string(),
            kind: "invalid_request_error".to_string(),
            param: param.map(|p| p.to_string()),
            code: code.map(|c| c.to_string()),
        },
    }
}

#[test]
fn an_api_error_is_written_in_one_line() {
    assert_eq!(details(None, None).to_string(), "Invalid value");
    assert_eq!(details(None, Some("bad")).to_string(), "Invalid value, code:bad");
    assert_eq!(details(Some("n"), None).to_string(), "Invalid value, param:n");
    assert_eq!(details(Some("n"), Some("bad")).to_string(), "Invalid value, param:n, code: bad");
}

#[test]
fn an_error_response_is_written_as_what_it_holds() {
    assert_eq!(ErrorResponse::ApiError(details(Some("n"), None)).to_string(), "Invalid value, param:n");
    assert_eq!(ErrorResponse::OtherError("bad gateway".to_string()).to_string(), "bad gateway");
    let error = Error { response: ErrorResponse::OtherError("bad gateway".to_string()), status: 502 };
    assert_eq!(error.to_string(), "bad gateway");
    assert_eq!(Failure::Remote(error).to_string(), "bad gateway");
    assert_eq!(Failure::Schema { body: "{}".to_string() }.to_string(), "{}");
    assert_eq!(PreconditionError::FileNotFound.to_string(), "File does not exist");
}

#[test]
fn the_error_object_travels_under_its_wire_names() {
    let error = details(Some("n"), None);
    let doc = error.to_json();
    assert_eq!(
        doc.render(),
        "{\"error\":{\"code\":null,\"message\":\"Invalid value\",\"param\":\"n\",\"type\":\"invalid_request_error\"}}"
    );
    assert_eq!(ApiError::from_json(&doc), Some(error));
}

#[test]
fn the_error_object_may_leave_out_param_and_code() {
    let doc = Json::parse("{\"error\":{\"message\":\"m\",\"type\":\"t\"}}").unwrap();
    let error = ApiError::from_json(&doc).unwrap();
    assert_eq!(error.error.message, "m");
    assert_eq!(error.error.kind, "t");
    assert_eq!(error.error.param, None);
    assert_eq!(error.error.code, None);
    let doc = Json::parse("{\"error\":{\"message\":\"m\"}}").unwrap();
    assert_eq!(ApiError::from_json(&doc), None);
    let doc = Json::parse("{\"error\":{\"message\":\"m\",\"type\":\"t\",\"code\":7}}").unwrap();
    assert_eq!(ApiError::from_json(&doc), None);
}

#[test]
fn status_classes() {
    assert!(!status_is_success(199));
    assert!(status_is_success(200));
    assert!(status_is_success(204));
    assert!(status_is_success(299));
    assert!(!status_is_success(300));
    assert!(!status_is_success(404));
    assert!(!status_is_success(500));
    assert!(!status_is_success(0));
}

#[test]
fn a_refused_call_with_an_error_object_gives_the_error() {
    let body = "{\"error\":{\"message\":\"Incorrect API key provided\",\"type\":\"invalid_request_error\",\"param\":null,\"code\":\"invalid_api_key\"}}";
    let result = process_response::<DeleteResponse>(401, body);
    let expected = ApiError {
        error: ApiErrorDetails {
            message: "Incorrect API key provided".to_string(),
            kind: "invalid_request_error".to_string(),
            param: None,
            code: Some("invalid_api_key".to_string()),
        },
    };
    assert_eq!(result, Err(Failure::Remote(Error { response: ErrorResponse::ApiError(expected), status: 401 })));
}

#[test]
fn a_refused_call_without_json_gives_the_body() {
    let body = "<html>502 Bad Gateway</html>";
    let result = process_response::<DeleteResponse>(502, body);
    assert_eq!(
        result,
        Err(Failure::Remote(Error { response: ErrorResponse::OtherError(body.to_string()), status: 502 }))
    );
    let result = process_response::<DeleteResponse>(500, "");
    assert_eq!(
        result,
        Err(Failure::Remote(Error { response: ErrorResponse::OtherError("".to_string()), status: 500 }))
    );
}

#[test]
fn a_refused_call_with_a_json_string_gives_the_string() {
    let result = process_response::<DeleteResponse>(429, "\"slow down\"");
    assert_eq!(
        result,
        Err(Failure::Remote(Error { response: ErrorResponse::OtherError("slow down".to_string()), status: 429 }))
    );
}

#[test]
fn a_refused_call_with_other_json_gives_the_body() {
    let body = "{\"detail\":\"not found\"}";
    let result = process_response::<DeleteResponse>(404, body);
    assert_eq!(
        result,
        Err(Failure::Remote(Error { response: ErrorResponse::OtherError(body.to_string()), status: 404 }))
    );
}

#[test]
fn a_refused_call_is_refused_whatever_the_body() {
    let body = "{\"id\":\"file-1\",\"object\":\"file\",\"deleted\":true}";
    let result = process_response::<DeleteResponse>(300, body);
    assert_eq!(
        result,
        Err(Failure::Remote(Error { response: ErrorResponse::OtherError(body.to_string()), status: 300 }))
    );
}

#[test]
fn an_accepted_call_gives_the_value() {
    let body = "{\"id\":\"file-1\",\"object\":\"file\",\"deleted\":true}";
    let result = process_response::<DeleteResponse>(200, body);
    assert_eq!(
        result,
        Ok(DeleteResponse { id: "file-1".to_string(), object: "file".to_string(), deleted: true })
    );
}

#[test]
fn an_accepted_call_with_another_body_keeps_the_body() {
    let body = "{\"id\":\"file-1\",\"object\":\"file\"}";
    assert_eq!(process_response::<DeleteResponse>(200, body), Err(Failure::Schema { body: body.to_string() }));
    assert_eq!(
        process_response::<DeleteResponse>(200, "not json"),
        Err(Failure::Schema { body: "not json".to_string() })
    );
    let body = "{\"error\":{\"message\":\"m\",\"type\":\"t\"}}";
    assert_eq!(process_response::<DeleteResponse>(299, body), Err(Failure::Schema { body: body.to_string() }));
}

#[test]
fn interpret_takes_the_document_as_given() {
    let doc = Json::Object(vec![
        ("id".to_string(), Json::String("m".to_string())),
        ("object".to_string(), Json::String("model".to_string())),
        ("deleted".to_string(), Json::Bool(false)),
    ]);
    assert_eq!(
        interpret::<DeleteResponse>(200, "ignored", &Some(doc)),
        Ok(DeleteResponse { id: "m".to_string(), object: "model".to_string(), deleted: false })
    );
    assert_eq!(
        interpret::<DeleteResponse>(200, "kept", &None),
        Err(Failure::Schema { body: "kept".to_string() })
    );
    assert_eq!(
        interpret::<DeleteResponse>(503, "kept", &None),
        Err(Failure::Remote(Error { response: ErrorResponse::OtherError("kept".to_string()), status: 503 }))
    );
}

#[test]
fn classify_error_reads_the_document() {
    let doc = Json::parse("{\"error\":{\"message\":\"m\",\"type\":\"t\",\"param\":\"p\",\"code\":\"c\"}}");
    match classify_error("raw", &doc) {
        ErrorResponse::ApiError(e) => assert_eq!(e.to_string(), "m, param:p, code: c"),
        other => panic!("not an error object: {:?}", other),
    }
    assert_eq!(classify_error("raw", &None), ErrorResponse::OtherError("raw".to_string()));
    assert_eq!(
        classify_error("raw", &Some(Json::Array(vec![]))),
        ErrorResponse::OtherError("raw".to_string())
    );
    assert_eq!(
        classify_error("raw", &Some(Json::String("text".to_string()))),
        ErrorResponse::OtherError("text".to_string())
    );
}

#[test]
fn a_download_is_judged_by_its_status() {
    assert_eq!(check_download(200, "{\"prompt\":\"a\"}\n{\"prompt\":\"b\"}\n"), Ok(()));
    assert_eq!(check_download(206, ""), Ok(()));
    let body = "{\"error\":{\"message\":\"No such File object: file-9\",\"type\":\"invalid_request_error\",\"param\":\"id\",\"code\":null}}";
    match check_download(404, body) {
        Err(Error { response: ErrorResponse::ApiError(e), status: 404 }) => {
            assert_eq!(e.to_string(), "No such File object: file-9, param:id")
        },
        other => panic!("not the error of the service: {:?}", other),
    }
    assert_eq!(
        check_download(500, "oops"),
        Err(Error { response: ErrorResponse::OtherError("oops".to_string()), status: 500 })
    );
    assert_eq!(interpret_download(204, "x", &None), Ok(()));
    assert_eq!(
        interpret_download(400, "x", &None),
        Err(Error { response: ErrorResponse::OtherError("x".to_string()), status: 400 })
    );
}

#[test]
fn error_response_round_trip() {
    let object = ErrorResponse::ApiError(details(Some("n"), Some("c")));
    assert_eq!(ErrorResponse::from_json(&object.to_json()), Some(object));
    let other = ErrorResponse::OtherError("text".to_string());
    assert_eq!(other.to_json(), Json::String("text".to_string()));
    assert_eq!(ErrorResponse::from_json(&other.to_json()), Some(other));
    assert_eq!(ErrorResponse::from_json(&Json::Null), None);
}
