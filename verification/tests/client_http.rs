use openai_req::client::OpenAiClient;
use openai_req::http::{push_part, Body, FormPart, FormValue, HttpRequest, Method};
use openai_req::json::{Json, JsonNumber};

#[test]
fn a_client_is_at_the_usual_place_unless_told() {
    let client = OpenAiClient::new("sk-test");
    assert_eq!(client.url(), "https://api.openai.com/v1");
    assert_eq!(client.key(), "sk-test");
    let other = OpenAiClient::with_url("sk-test", "http://localhost:8080/v1");
    assert_eq!(other.url(), "http://localhost:8080/v1");
    assert_eq!(other.key(), "sk-test");
    assert_eq!(OpenAiClient::with_url("sk-test", "https://api.openai.com/v1"), client);
}

#[test]
fn making_a_client_never_fails() {
    let client = OpenAiClient::with_url("", "");
    assert_eq!(client.url(), "");
    assert_eq!(client.key(), "");
}

#[test]
fn post_json_sends_the_document_to_the_endpoint() {
    let client = OpenAiClient::new("sk-test");
    let doc = Json::Object(vec![("n".to_string(), Json::Number(JsonNumber::PosInt(1)))]);
    let request = HttpRequest::post_json(&client, "/edits", &doc);
    assert_eq!(request.method, Method::Post);
    assert_eq!(request.url, "https://api.openai.com/v1/edits");
    assert_eq!(request.bearer, "sk-test");
    assert_eq!(request.body, Body::Json("{\"n\":1}".to_string()));
}

#[test]
fn post_form_sends_the_parts_in_order() {
    let client = OpenAiClient::with_url("k", "http://h");
    let mut parts = Vec::new();
    push_part(&mut parts, FormPart::text("purpose", "fine-tune"));
    push_part(&mut parts, FormPart::file("file", "data/train.jsonl"));
    push_part(&mut parts, FormPart::number("temperature", &JsonNumber::PosInt(1)));
    let request = HttpRequest::post_form(&client, "/files", parts);
    assert_eq!(request.method, Method::Post);
    assert_eq!(request.url, "http://h/files");
    assert_eq!(request.bearer, "k");
    assert_eq!(
        request.body,
        Body::Form(vec![
            FormPart { name: "purpose".to_string(), value: FormValue::Text("fine-tune".to_string()) },
            FormPart { name: "file".to_string(), value: FormValue::File("data/train.jsonl".to_string()) },
            FormPart { name: "temperature".to_string(), value: FormValue::Number(JsonNumber::PosInt(1)) },
        ])
    );
}

#[test]
fn get_has_no_body() {
    let client = OpenAiClient::new("sk-test");
    let request = HttpRequest::get(&client, "/models");
    assert_eq!(
        request,
        HttpRequest {
            method: Method::Get,
            url: "https://api.openai.com/v1/models".to_string(),
            bearer: "sk-test".to_string(),
            body: Body::Empty,
        }
    );
}

#[test]
fn by_id_puts_the_identifier_between_endpoint_and_suffix() {
    let client = OpenAiClient::new("sk-test");
    let request = HttpRequest::by_id(&client, Method::Post, "/fine-tunes/", "ft-AF1WoRqd3aJAHsqc9NY7iL8F", "/cancel");
    assert_eq!(request.method, Method::Post);
    assert_eq!(request.url, "https://api.openai.com/v1/fine-tunes/ft-AF1WoRqd3aJAHsqc9NY7iL8F/cancel");
    assert_eq!(request.body, Body::Empty);
    let request = HttpRequest::by_id(&client, Method::Delete, "/files/", "file-1", "");
    assert_eq!(request.method, Method::Delete);
    assert_eq!(request.url, "https://api.openai.com/v1/files/file-1");
}

#[test]
fn by_id_takes_the_identifier_as_it_is() {
    let client = OpenAiClient::with_url("k", "http://h");
    let request = HttpRequest::by_id(&client, Method::Get, "/models/", "a b/c", "");
    assert_eq!(request.url, "http://h/models/a b/c");
}
