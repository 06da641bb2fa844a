//! What a call asks of the HTTP client: the method, the URL, the bearer
//! token and the body. The library says what is sent; sending is the
//! caller's.

use crate::client::OpenAiClient;
use crate::codec::JsonCodec;
use crate::json::{json_text, Json, JsonNumber};
use crate::text::{is_segment_char, joined, percent_safe};
use vstd::prelude::*;
use vstd::string::StringExecFns;

verus! {

#[derive(Clone, Copy, Debug, PartialEq, Eq)]
pub enum Method {
    Get,
    Post,
    Delete,
}

/// What one part of a multipart form holds.
#[derive(Clone, Debug, PartialEq)]
pub enum FormValue {
    /// A text, sent as it is.
    Text(String),
    /// A number, sent as the text that the number is written as.
    Number(JsonNumber),
    /// The path of a local file, whose content is sent under its file name.
    File(String),
}

/// The model of [`FormValue`].
pub enum FormValueView {
    Text(Seq<char>),
    Number(JsonNumber),
    File(Seq<char>),
}

impl DeepView for FormValue {
    type V = FormValueView;

    open spec fn deep_view(&self) -> FormValueView {
        match self {
            FormValue::Text(s) => FormValueView::Text(s@),
            FormValue::Number(n) => FormValueView::Number(*n),
            FormValue::File(p) => FormValueView::File(p@),
        }
    }
}

/// One part of a multipart form.
#[derive(Clone, Debug, PartialEq)]
pub struct FormPart {
    pub name: String,
    pub value: FormValue,
}

/// The model of [`FormPart`].
pub struct FormPartView {
    pub name: Seq<char>,
    pub value: FormValueView,
}

impl DeepView for FormPart {
    type V = FormPartView;

    open spec fn deep_view(&self) -> FormPartView {
        FormPartView { name: self.name@, value: self.value.deep_view() }
    }
}

/// The part that holds a text.
pub open spec fn text_part(name: Seq<char>, value: Seq<char>) -> FormPartView {
    FormPartView { name, value: FormValueView::Text(value) }
}

/// The part that holds a number.
pub open spec fn number_part(name: Seq<char>, value: JsonNumber) -> FormPartView {
    FormPartView { name, value: FormValueView::Number(value) }
}

/// The part that holds a file.
pub open spec fn file_part(name: Seq<char>, path: Seq<char>) -> FormPartView {
    FormPartView { name, value: FormValueView::File(path) }
}

/// The parts with one more where there is a value.
pub open spec fn with_part(parts: Seq<FormPartView>, part: Option<FormPartView>) -> Seq<
    FormPartView,
> {
    match part {
        Some(p) => parts.push(p),
        None => parts,
    }
}

impl FormPart {
    pub fn text(name: &str, value: &str) -> (r: FormPart)
        ensures
            r.deep_view() == text_part(name@, value@),
    {
        FormPart { name: name.to_owned(), value: FormValue::Text(value.to_owned()) }
    }

    pub fn number(name: &str, value: &JsonNumber) -> (r: FormPart)
        ensures
            r.deep_view() == number_part(name@, *value),
    {
        FormPart { name: name.to_owned(), value: FormValue::Number(value.copy()) }
    }

    pub fn file(name: &str, path: &str) -> (r: FormPart)
        ensures
            r.deep_view() == file_part(name@, path@),
    {
        FormPart { name: name.to_owned(), value: FormValue::File(path.to_owned()) }
    }
}

/// Appends a part to a form.
pub fn push_part(parts: &mut Vec<FormPart>, part: FormPart)
    ensures
        final(parts).deep_view() == old(parts).deep_view().push(part.deep_view()),
{
    parts.push(part);
    assert(parts.deep_view() =~= old(parts).deep_view().push(part.deep_view()));
}

/// What a request carries.
#[derive(Clone, Debug, PartialEq)]
pub enum Body {
    Empty,
    /// A JSON text, sent as `application/json`.
    Json(String),
    /// The parts of a form, sent as `multipart/form-data` in this order.
    Form(Vec<FormPart>),
}

/// The model of [`Body`].
pub enum BodyView {
    Empty,
    Json(Seq<char>),
    Form(Seq<FormPartView>),
}

impl DeepView for Body {
    type V = BodyView;

    open spec fn deep_view(&self) -> BodyView {
        match self {
            Body::Empty => BodyView::Empty,
            Body::Json(s) => BodyView::Json(s@),
            Body::Form(parts) => BodyView::Form(parts.deep_view()),
        }
    }
}

/// One HTTP call, ready to be made.
#[derive(Clone, Debug, PartialEq)]
pub struct HttpRequest {
    pub method: Method,
    pub url: String,
    /// The token of the `Authorization: Bearer` header.
    pub bearer: String,
    pub body: Body,
}

/// The model of [`HttpRequest`].
pub struct HttpRequestView {
    pub method: Method,
    pub url: Seq<char>,
    pub bearer: Seq<char>,
    pub body: BodyView,
}

impl DeepView for HttpRequest {
    type V = HttpRequestView;

    open spec fn deep_view(&self) -> HttpRequestView {
        HttpRequestView {
            method: self.method,
            url: self.url@,
            bearer: self.bearer@,
            body: self.body.deep_view(),
        }
    }
}

/// The URL of an endpoint: the base URL, then the endpoint.
pub open spec fn endpoint_url(base: Seq<char>, endpoint: Seq<char>) -> Seq<char> {
    base + endpoint
}

/// The URL of a resource: the base URL, the endpoint, the identifier of the
/// resource and what follows it.
pub open spec fn resource_url(
    base: Seq<char>,
    endpoint: Seq<char>,
    id: Seq<char>,
    suffix: Seq<char>,
) -> Seq<char> {
    base + endpoint + id + suffix
}

impl HttpRequest {
    /// The call that posts a document to an endpoint.
    pub fn post_json(client: &OpenAiClient, endpoint: &str, doc: &Json) -> (r: HttpRequest)
        ensures
            r.deep_view() == (HttpRequestView {
                method: Method::Post,
                url: endpoint_url(client.deep_view().url, endpoint@),
                bearer: client.deep_view().key,
                body: BodyView::Json(json_text(doc.deep_view())),
            }),
    {
        HttpRequest {
            method: Method::Post,
            url: joined(client.url(), endpoint),
            bearer: client.key().to_owned(),
            body: Body::Json(doc.render()),
        }
    }

    /// The call that posts a form to an endpoint.
    pub fn post_form(client: &OpenAiClient, endpoint: &str, parts: Vec<FormPart>) -> (r:
        HttpRequest)
        ensures
            r.deep_view() == (HttpRequestView {
                method: Method::Post,
                url: endpoint_url(client.deep_view().url, endpoint@),
                bearer: client.deep_view().key,
                body: BodyView::Form(parts.deep_view()),
            }),
    {
        HttpRequest {
            method: Method::Post,
            url: joined(client.url(), endpoint),
            bearer: client.key().to_owned(),
            body: Body::Form(parts),
        }
    }

    /// The call that gets what an endpoint lists.
    pub fn get(client: &OpenAiClient, endpoint: &str) -> (r: HttpRequest)
        ensures
            r.deep_view() == (HttpRequestView {
                method: Method::Get,
                url: endpoint_url(client.deep_view().url, endpoint@),
                bearer: client.deep_view().key,
                body: BodyView::Empty,
            }),
    {
        HttpRequest {
            method: Method::Get,
            url: joined(client.url(), endpoint),
            bearer: client.key().to_owned(),
            body: Body::Empty,
        }
    }

    /// The call on one resource, whose identifier stands in the URL between
    /// the endpoint and the suffix, as it is.
    pub fn by_id(
        client: &OpenAiClient,
        method: Method,
        endpoint: &str,
        id: &str,
        suffix: &str,
    ) -> (r: HttpRequest)
        ensures
            r.deep_view() == (HttpRequestView {
                method,
                url: resource_url(client.deep_view().url, endpoint@, id@, suffix@),
                bearer: client.deep_view().key,
                body: BodyView::Empty,
            }),
    {
        let mut url = joined(client.url(), endpoint);
        url.append(id);
        url.append(suffix);
        HttpRequest { method, url, bearer: client.key().to_owned(), body: Body::Empty }
    }
}

/// A request of the library: it knows the one HTTP call that it stands for
/// and the type of what the service answers.
pub trait ApiRequest {
    /// What the service answers where it accepts the call.
    type Response: JsonCodec;

    spec fn method(&self) -> Method;

    /// The path of the call below the base URL.
    spec fn path(&self) -> Seq<char>;

    spec fn body(&self) -> BodyView;

    /// The call: to the base URL of the client followed by the path, with
    /// the client's key as bearer token.
    fn request(&self, client: &OpenAiClient) -> (r: HttpRequest)
        ensures
            r.deep_view() == (HttpRequestView {
                method: self.method(),
                url: endpoint_url(client.deep_view().url, self.path()),
                bearer: client.deep_view().key,
                body: self.body(),
            }),
    ;
}

/// A list that the service hands out on a plain `GET`.
pub trait Listing: JsonCodec {
    /// The path of the list below the base URL.
    spec fn path() -> Seq<char>;

    /// The call that gets the list.
    fn request(client: &OpenAiClient) -> (r: HttpRequest)
        ensures
            r.deep_view() == (HttpRequestView {
                method: Method::Get,
                url: endpoint_url(client.deep_view().url, Self::path()),
                bearer: client.deep_view().key,
                body: BodyView::Empty,
            }),
    ;
}

/// The URL of an endpoint begins with the base URL and goes on with the
/// endpoint, and with nothing else.
pub proof fn lemma_endpoint_url(base: Seq<char>, endpoint: Seq<char>)
    ensures
        ({
            let url = endpoint_url(base, endpoint);
            let split = base.len() as int;
            &&& url.len() == split + endpoint.len()
            &&& url.subrange(0, split) == base
            &&& url.subrange(split, url.len() as int) == endpoint
        }),
{
    let url = endpoint_url(base, endpoint);
    let split = base.len() as int;
    assert(url.subrange(0, split) =~= base);
    assert(url.subrange(split, url.len() as int) =~= endpoint);
}

/// In the URL of a resource the identifier stands whole between the
/// endpoint and the suffix; where the identifier is percent-safe, every
/// character at its place is one that a path segment may hold.
pub proof fn lemma_resource_url(
    base: Seq<char>,
    endpoint: Seq<char>,
    id: Seq<char>,
    suffix: Seq<char>,
)
    requires
        percent_safe(id),
    ensures
        ({
            let url = resource_url(base, endpoint, id, suffix);
            let start = (base.len() + endpoint.len()) as int;
            let end = start + id.len();
            &&& url.len() == end + suffix.len()
            &&& url.subrange(0, start) == endpoint_url(base, endpoint)
            &&& url.subrange(start, end) == id
            &&& url.subrange(end, url.len() as int) == suffix
            &&& forall|i: int| start <= i < end ==> is_segment_char(#[trigger] url[i])
        }),
{
    let url = resource_url(base, endpoint, id, suffix);
    let start = (base.len() + endpoint.len()) as int;
    let end = start + id.len();
    assert(url.subrange(0, start) =~= endpoint_url(base, endpoint));
    assert(url.subrange(start, end) =~= id);
    assert(url.subrange(end, url.len() as int) =~= suffix);
    assert forall|i: int| start <= i < end implies is_segment_char(#[trigger] url[i]) by {
        assert(url[i] == id[i - start]);
    }
}

} // verus!
