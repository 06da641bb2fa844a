//! The errors of a call.

use crate::codec::{
    get_optional, get_required, group_members, optional, put, put_nullable, required, with,
    with_nullable, JsonCodec,
};
use crate::json::{lemma_members_empty, lemma_object_view, Json, JsonView};
use vstd::string::StringExecFns;
use vstd::prelude::*;

verus! {

/// What the service says went wrong.
#[derive(Clone, Debug, PartialEq)]
pub struct ApiErrorDetails {
    pub message: String,
    /// The class of the error, `type` on the wire.
    pub kind: String,
    /// The parameter at fault, where one is.
    pub param: Option<String>,
    pub code: Option<String>,
}

/// The model of [`ApiErrorDetails`].
pub struct ApiErrorDetailsView {
    pub message: Seq<char>,
    pub kind: Seq<char>,
    pub param: Option<Seq<char>>,
    pub code: Option<Seq<char>>,
}

impl DeepView for ApiErrorDetails {
    type V = ApiErrorDetailsView;

    open spec fn deep_view(&self) -> ApiErrorDetailsView {
        ApiErrorDetailsView {
            message: self.message@,
            kind: self.kind@,
            param: self.param.deep_view(),
            code: self.code.deep_view(),
        }
    }
}

impl JsonCodec for ApiErrorDetails {
    open spec fn encoded(v: ApiErrorDetailsView) -> JsonView {
        let m = Seq::empty();
        let m = with::<String>(m, "message"@, v.message);
        let m = with::<String>(m, "type"@, v.kind);
        let m = with_nullable::<String>(m, "param"@, v.param);
        let m = with_nullable::<String>(m, "code"@, v.code);
        JsonView::Object(m)
    }

    open spec fn decoded(doc: JsonView) -> Option<ApiErrorDetailsView> {
        match doc {
            JsonView::Object(m) => {
                let message = required::<String>(m, "message"@);
                let kind = required::<String>(m, "type"@);
                let param = optional::<String>(m, "param"@);
                let code = optional::<String>(m, "code"@);
                if message is Some && kind is Some && param is Some && code is Some {
                    Some(
                        ApiErrorDetailsView {
                            message: message->0,
                            kind: kind->0,
                            param: param->0,
                            code: code->0,
                        },
                    )
                } else {
                    None
                }
            },
            _ => None,
        }
    }

    fn to_json(&self) -> (doc: Json) {
        let mut m: Vec<(String, Json)> = Vec::new();
        proof {
            lemma_members_empty(m);
        }
        put(&mut m, "message", &self.message);
        put(&mut m, "type", &self.kind);
        put_nullable(&mut m, "param", &self.param);
        put_nullable(&mut m, "code", &self.code);
        proof {
            lemma_object_view(m);
        }
        Json::Object(m)
    }

    fn from_json(doc: &Json) -> (r: Option<ApiErrorDetails>) {
        match doc {
            Json::Object(m) => {
                proof {
                    lemma_object_view(*m);
                }
                let message = match get_required::<String>(m, "message") {
                    Some(v) => v,
                    None => return None,
                };
                let kind = match get_required::<String>(m, "type") {
                    Some(v) => v,
                    None => return None,
                };
                let param = match get_optional::<String>(m, "param") {
                    Some(v) => v,
                    None => return None,
                };
                let code = match get_optional::<String>(m, "code") {
                    Some(v) => v,
                    None => return None,
                };
                Some(ApiErrorDetails { message, kind, param, code })
            },
            _ => None,
        }
    }

    proof fn lemma_round_trip(v: ApiErrorDetailsView) {
        broadcast use group_members;

        ApiErrorDetails::lemma_names_differ();
        String::lemma_round_trip(v.message);
        String::lemma_round_trip(v.kind);
        if v.param is Some {
            String::lemma_round_trip(v.param->0);
        }
        if v.code is Some {
            String::lemma_round_trip(v.code->0);
        }
    }
}

impl ApiErrorDetails {
    /// No two members of the JSON form have the same name.
    proof fn lemma_names_differ()
        ensures
            "message"@ != "type"@,
            "message"@ != "param"@,
            "message"@ != "code"@,
            "type"@ != "param"@,
            "type"@ != "code"@,
            "param"@ != "code"@,
    {
        reveal_strlit("message");
        reveal_strlit("type");
        reveal_strlit("param");
        reveal_strlit("code");
        assert("message"@.len() == 7);
        assert("type"@.len() == 4);
        assert("param"@.len() == 5);
        assert("code"@.len() == 4);
        assert("type"@[0] == 't');
        assert("code"@[0] == 'c');
    }
}

/// The error object that the service sends with a failed call.
#[derive(Clone, Debug, PartialEq)]
pub struct ApiError {
    pub error: ApiErrorDetails,
}

/// The model of [`ApiError`].
pub struct ApiErrorView {
    pub error: ApiErrorDetailsView,
}

impl DeepView for ApiError {
    type V = ApiErrorView;

    open spec fn deep_view(&self) -> ApiErrorView {
        ApiErrorView {
            error: self.error.deep_view(),
        }
    }
}

impl JsonCodec for ApiError {
    open spec fn encoded(v: ApiErrorView) -> JsonView {
        let m = Seq::empty();
        let m = with::<ApiErrorDetails>(m, "error"@, v.error);
        JsonView::Object(m)
    }

    open spec fn decoded(doc: JsonView) -> Option<ApiErrorView> {
        match doc {
            JsonView::Object(m) => {
                let error = required::<ApiErrorDetails>(m, "error"@);
                if error is Some {
                    Some(
                        ApiErrorView {
                            error: error->0,
                        },
                    )
                } else {
                    None
                }
            },
            _ => None,
        }
    }

    fn to_json(&self) -> (doc: Json) {
        let mut m: Vec<(String, Json)> = Vec::new();
        proof {
            lemma_members_empty(m);
        }
        put(&mut m, "error", &self.error);
        proof {
            lemma_object_view(m);
        }
        Json::Object(m)
    }

    fn from_json(doc: &Json) -> (r: Option<ApiError>) {
        match doc {
            Json::Object(m) => {
                proof {
                    lemma_object_view(*m);
                }
                let error = match get_required::<ApiErrorDetails>(m, "error") {
                    Some(v) => v,
                    None => return None,
                };
                Some(ApiError { error })
            },
            _ => None,
        }
    }

    proof fn lemma_round_trip(v: ApiErrorView) {
        broadcast use group_members;

        ApiErrorDetails::lemma_round_trip(v.error);
    }
}

impl ApiError {
    /// The error in one line: the message, then the parameter and the code
    /// where they are given.
    pub open spec fn text(v: ApiErrorView) -> Seq<char> {
        match (v.error.param, v.error.code) {
            (None, None) => v.error.message,
            (None, Some(code)) => v.error.message + ", code:"@ + code,
            (Some(param), None) => v.error.message + ", param:"@ + param,
            (Some(param), Some(code)) => v.error.message + ", param:"@ + param + ", code: "@ + code,
        }
    }

    pub fn to_string(&self) -> (r: String)
        ensures
            r@ == ApiError::text(self.deep_view()),
    {
        let mut r = self.error.message.clone();
        match &self.error.param {
            None => match &self.error.code {
                None => {},
                Some(code) => {
                    r.append(", code:");
                    r.append(code.as_str());
                },
            },
            Some(param) => {
                r.append(", param:");
                r.append(param.as_str());
                match &self.error.code {
                    None => {},
                    Some(code) => {
                        r.append(", code: ");
                        r.append(code.as_str());
                    },
                }
            },
        }
        r
    }
}

/// The body of a failed call: the error object of the service where the
/// body is one, any other text otherwise.
#[derive(Clone, Debug, PartialEq)]
pub enum ErrorResponse {
    ApiError(ApiError),
    OtherError(String),
}

/// The model of [`ErrorResponse`].
pub enum ErrorResponseView {
    ApiError(ApiErrorView),
    OtherError(Seq<char>),
}

impl DeepView for ErrorResponse {
    type V = ErrorResponseView;

    open spec fn deep_view(&self) -> ErrorResponseView {
        match self {
            ErrorResponse::ApiError(e) => ErrorResponseView::ApiError(e.deep_view()),
            ErrorResponse::OtherError(s) => ErrorResponseView::OtherError(s@),
        }
    }
}

impl JsonCodec for ErrorResponse {
    open spec fn encoded(v: ErrorResponseView) -> JsonView {
        match v {
            ErrorResponseView::ApiError(e) => ApiError::encoded(e),
            ErrorResponseView::OtherError(s) => String::encoded(s),
        }
    }

    open spec fn decoded(doc: JsonView) -> Option<ErrorResponseView> {
        match ApiError::decoded(doc) {
            Some(e) => Some(ErrorResponseView::ApiError(e)),
            None => match String::decoded(doc) {
                Some(s) => Some(ErrorResponseView::OtherError(s)),
                None => None,
            },
        }
    }

    fn to_json(&self) -> (doc: Json) {
        match self {
            ErrorResponse::ApiError(e) => e.to_json(),
            ErrorResponse::OtherError(s) => s.to_json(),
        }
    }

    fn from_json(doc: &Json) -> (r: Option<ErrorResponse>) {
        match ApiError::from_json(doc) {
            Some(e) => Some(ErrorResponse::ApiError(e)),
            None => match String::from_json(doc) {
                Some(s) => Some(ErrorResponse::OtherError(s)),
                None => None,
            },
        }
    }

    proof fn lemma_round_trip(v: ErrorResponseView) {
        match v {
            ErrorResponseView::ApiError(e) => ApiError::lemma_round_trip(e),
            ErrorResponseView::OtherError(s) => String::lemma_round_trip(s),
        }
    }
}

impl ErrorResponse {
    /// The error in one line.
    pub open spec fn text(v: ErrorResponseView) -> Seq<char> {
        match v {
            ErrorResponseView::ApiError(e) => ApiError::text(e),
            ErrorResponseView::OtherError(s) => s,
        }
    }

    pub fn to_string(&self) -> (r: String)
        ensures
            r@ == ErrorResponse::text(self.deep_view()),
    {
        match self {
            ErrorResponse::ApiError(e) => e.to_string(),
            ErrorResponse::OtherError(s) => s.clone(),
        }
    }
}

/// A call that the service refused: the status it answered with, and what
/// its body said.
#[derive(Clone, Debug, PartialEq)]
pub struct Error {
    pub response: ErrorResponse,
    pub status: u16,
}

/// The model of [`Error`].
pub struct ErrorView {
    pub response: ErrorResponseView,
    pub status: u16,
}

impl DeepView for Error {
    type V = ErrorView;

    open spec fn deep_view(&self) -> ErrorView {
        ErrorView { response: self.response.deep_view(), status: self.status }
    }
}

impl Error {
    pub fn to_string(&self) -> (r: String)
        ensures
            r@ == ErrorResponse::text(self.deep_view().response),
    {
        self.response.to_string()
    }
}

/// How a call that got an answer can still fail.
#[derive(Clone, Debug, PartialEq)]
pub enum Failure {
    /// The service answered with a status outside 200 to 299.
    Remote(Error),
    /// The service answered with success, and the body is not what the
    /// call returns. The body is kept as it came.
    Schema { body: String },
}

/// The model of [`Failure`].
pub enum FailureView {
    Remote(ErrorView),
    Schema { body: Seq<char> },
}

impl DeepView for Failure {
    type V = FailureView;

    open spec fn deep_view(&self) -> FailureView {
        match self {
            Failure::Remote(e) => FailureView::Remote(e.deep_view()),
            Failure::Schema { body } => FailureView::Schema { body: body@ },
        }
    }
}

impl Failure {
    /// The failure in one line: what the service said, or the body that
    /// could not be read.
    pub open spec fn text(v: FailureView) -> Seq<char> {
        match v {
            FailureView::Remote(e) => ErrorResponse::text(e.response),
            FailureView::Schema { body } => body,
        }
    }

    pub fn to_string(&self) -> (r: String)
        ensures
            r@ == Failure::text(self.deep_view()),
    {
        match self {
            Failure::Remote(e) => e.to_string(),
            Failure::Schema { body } => body.clone(),
        }
    }
}

/// What is wrong with a request before it is sent.
#[derive(Clone, Copy, Debug, PartialEq, Eq)]
pub enum PreconditionError {
    /// The file that the request names is not there.
    FileNotFound,
}

impl PreconditionError {
    pub fn to_string(&self) -> (r: String)
        ensures
            r@ == "File does not exist"@,
    {
        "File does not exist".to_owned()
    }
}

} // verus!
