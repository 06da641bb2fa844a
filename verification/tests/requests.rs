use openai_req::client::OpenAiClient;
use openai_req::codec::JsonCodec;
use openai_req::common::Input;
use openai_req::completion::{CompletionChoice, CompletionRequest, CompletionSuccess};
use openai_req::edit::{EditRequest, EditResponse};
use openai_req::embeddings::{EmbeddingRequest, EmbeddingResponse};
use openai_req::fine_tunes::FineTuneCreateRequest;
use openai_req::http::{ApiRequest, Body, Listing, Method};
use openai_req::json::{Json, JsonNumber};
use openai_req::moderations::{ModerationModel, ModerationRequest, ModerationResponse};
use openai_req::response::process_response;

fn fraction(text: &str) -> JsonNumber {
    JsonNumber::Real(serde_json::from_str(text).unwrap())
}

fn client() -> OpenAiClient {
    OpenAiClient::with_url("sk-test", "https://example.test/v1")
}

#[test]
fn completion_request_defaults() {
    let request = CompletionRequest::new(Input::from_str("long long time ago"));
    assert_eq!(
        request.to_json().render(),
        "{\"model\":\"text-davinci-003\",\"prompt\":\"long long time ago\"}"
    );
    assert_eq!(request, CompletionRequest::with_model("text-davinci-003", Input::from_str("long long time ago")));
    let call = request.request(&client());
    assert_eq!(call.method, Method::Post);
    assert_eq!(call.url, "https://example.test/v1/completions");
    assert_eq!(call.bearer, "sk-test");
}

#[test]
fn completion_request_setters() {
    let mut request = CompletionRequest::with_model("ada", Input::from_strings(vec!["a".to_string(), "b".to_string()]));
    request
        .set_suffix("!")
        .set_max_tokens(16)
        .set_temperature(fraction("0.7"))
        .set_top_p(JsonNumber::PosInt(1))
        .set_n(2)
        .set_stream(false)
        .set_logprobs(3)
        .set_echo(true);
    let request = request
        .set_stop(vec!["\n".to_string()])
        .set_presence_penalty(fraction("0.1"))
        .set_frequency_penalty(fraction("0.2"))
        .set_best_of(4)
        .set_user("u".to_string());
    assert_eq!(
        request.to_json().render(),
        "{\"best_of\":4,\"echo\":true,\"frequency_penalty\":0.2,\"logprobs\":3,\"max_tokens\":16,\"model\":\"ada\",\"n\":2,\"presence_penalty\":0.1,\"prompt\":[\"a\",\"b\"],\"stop\":[\"\\n\"],\"stream\":false,\"suffix\":\"!\",\"temperature\":0.7,\"top_p\":1,\"user\":\"u\"}"
    );
    assert_eq!(CompletionRequest::from_json(&request.to_json()), Some(request));
}

#[test]
fn completion_answer() {
    let body = "{\"id\":\"cmpl-1\",\"object\":\"text_completion\",\"created\":1589478378,\"model\":\"text-davinci-003\",\"choices\":[{\"text\":\"\\n\\nThis is indeed a test\",\"index\":0,\"logprobs\":null,\"finish_reason\":\"length\"}],\"usage\":{\"prompt_tokens\":5,\"completion_tokens\":7,\"total_tokens\":12}}";
    let answer = process_response::<CompletionSuccess>(200, body).unwrap();
    assert_eq!(answer.id, "cmpl-1");
    assert_eq!(answer.created, 1589478378);
    assert_eq!(
        answer.choices,
        vec![CompletionChoice {
            text: "\n\nThis is indeed a test".to_string(),
            index: 0,
            logprobs: None,
            finish_reason: "length".to_string(),
        }]
    );
    assert_eq!(answer.usage.total_tokens, 12);
    assert_eq!(CompletionSuccess::from_json(&answer.to_json()), Some(answer));
}

#[test]
fn edit_request() {
    let request = EditRequest::new_text("correct spelling").set_input("quick blck fox jupms over lazy dog");
    assert_eq!(
        request.to_json().render(),
        "{\"input\":\"quick blck fox jupms over lazy dog\",\"instruction\":\"correct spelling\",\"model\":\"text-davinci-edit-001\"}"
    );
    let code = EditRequest::new_code("add a docstring");
    assert_eq!(code.to_json().render(), "{\"instruction\":\"add a docstring\",\"model\":\"code-davinci-edit-001\"}");
    assert_eq!(code, EditRequest::with_model("code-davinci-edit-001", "add a docstring"));
    let tuned = EditRequest::with_model("m", "i").set_n(2).set_temperature(fraction("0.5")).set_top_p(fraction("0.25"));
    assert_eq!(
        tuned.to_json().render(),
        "{\"instruction\":\"i\",\"model\":\"m\",\"n\":2,\"temperature\":0.5,\"top_p\":0.25}"
    );
    assert_eq!(EditRequest::from_json(&tuned.to_json()), Some(tuned));
    let call = request.request(&client());
    assert_eq!(call.method, Method::Post);
    assert_eq!(call.url, "https://example.test/v1/edits");
    assert_eq!(call.body, Body::Json(request.to_json().render()));
}

#[test]
fn edit_answer() {
    let body = "{\"object\":\"edit\",\"created\":1589478378,\"choices\":[{\"text\":\"What day of the week is it?\",\"index\":0}],\"usage\":{\"prompt_tokens\":25,\"completion_tokens\":32,\"total_tokens\":57}}";
    let answer = process_response::<EditResponse>(200, body).unwrap();
    assert_eq!(answer.object, "edit");
    assert_eq!(answer.choices.len(), 1);
    assert_eq!(answer.choices[0].text, "What day of the week is it?");
    assert_eq!(answer.choices[0].index, 0);
    assert_eq!(answer.usage.prompt_tokens, 25);
}

#[test]
fn embedding_request() {
    let request = EmbeddingRequest::new(Input::from_str("The food was delicious and the waiter..."));
    assert_eq!(request.model, "text-embedding-ada-002");
    assert_eq!(request.user, None);
    assert_eq!(
        request.to_json().render(),
        "{\"input\":\"The food was delicious and the waiter...\",\"model\":\"text-embedding-ada-002\"}"
    );
    let request = EmbeddingRequest::with_model("m".to_string(), Input::from_str("x")).user("u".to_string());
    assert_eq!(request.to_json().render(), "{\"input\":\"x\",\"model\":\"m\",\"user\":\"u\"}");
    assert_eq!(EmbeddingRequest::from_json(&request.to_json()), Some(request.clone()));
    let call = request.request(&client());
    assert_eq!(call.url, "https://example.test/v1/embeddings");
    assert_eq!(call.method, Method::Post);
}

#[test]
fn embedding_answer() {
    let body = "{\"object\":\"list\",\"data\":[{\"object\":\"embedding\",\"embedding\":[0.0023064255,-0.009327292,0,1],\"index\":0}],\"model\":\"text-embedding-ada-002\",\"usage\":{\"prompt_tokens\":8,\"total_tokens\":8}}";
    let answer = process_response::<EmbeddingResponse>(200, body).unwrap();
    assert_eq!(answer.data.len(), 1);
    assert_eq!(
        answer.data[0].embedding,
        vec![fraction("0.0023064255"), fraction("-0.009327292"), JsonNumber::PosInt(0), JsonNumber::PosInt(1)]
    );
    assert_eq!(answer.usage.prompt_tokens, 8);
    assert_eq!(answer.usage.total_tokens, 8);
    assert_eq!(EmbeddingResponse::from_json(&answer.to_json()), Some(answer));
}

#[test]
fn moderation_request() {
    let request = ModerationRequest::new(Input::from_str("I want to kill everyone"));
    assert_eq!(request.model, ModerationModel::TextModerationStable);
    assert_eq!(
        request.to_json().render(),
        "{\"input\":\"I want to kill everyone\",\"model\":\"text-moderation-stable\"}"
    );
    let latest = ModerationRequest::with_model(ModerationModel::TextModerationLatest, Input::from_str("x"));
    assert_eq!(latest.to_json().render(), "{\"input\":\"x\",\"model\":\"text-moderation-latest\"}");
    assert_eq!(ModerationRequest::from_json(&latest.to_json()), Some(latest));
    assert_eq!(ModerationModel::from_wire_name("text-moderation-latest"), Some(ModerationModel::TextModerationLatest));
    assert_eq!(ModerationModel::from_wire_name("text-moderation"), None);
    let call = request.request(&client());
    assert_eq!(call.url, "https://example.test/v1/moderations");
}

#[test]
fn moderation_answer() {
    let body = "{\"id\":\"modr-5MWoLO\",\"model\":\"text-moderation-001\",\"results\":[{\"categories\":{\"hate\":false,\"hate/threatening\":true,\"self-harm\":false,\"sexual\":false,\"sexual/minors\":false,\"violence\":true,\"violence/graphic\":false},\"category_scores\":{\"hate\":0.22714105248451233,\"hate/threatening\":0.4132447838783264,\"self-harm\":0.005232391878962517,\"sexual\":0.01407341007143259,\"sexual/minors\":0.0038522258400917053,\"violence\":0.9223177433013916,\"violence/graphic\":0.036865197122097015},\"flagged\":true}]}";
    let answer = process_response::<ModerationResponse>(200, body).unwrap();
    assert_eq!(answer.id, "modr-5MWoLO");
    assert_eq!(answer.results.len(), 1);
    let result = &answer.results[0];
    assert!(result.flagged);
    assert!(result.categories.hate_threatening);
    assert!(result.categories.violence);
    assert!(!result.categories.self_harm);
    assert!(!result.categories.sexual_minors);
    assert_eq!(result.category_scores.violence, fraction("0.9223177433013916"));
    assert_eq!(result.category_scores.self_harm, fraction("0.005232391878962517"));
    assert_eq!(ModerationResponse::from_json(&answer.to_json()), Some(answer));
}

#[test]
fn fine_tune_create_request() {
    let request = FineTuneCreateRequest::new("file-XGinujblHPwGLSztz8cPS8XY".to_string());
    assert_eq!(request.to_json().render(), "{\"training_file\":\"file-XGinujblHPwGLSztz8cPS8XY\"}");
    let request = request
        .validation_file("file-v".to_string())
        .model("curie".to_string())
        .n_epochs(4)
        .batch_size(-1)
        .learning_rate_multiplier(fraction("0.1"))
        .prompt_loss_weight(fraction("0.01"))
        .compute_classification_metrics(true)
        .classification_n_classes(3)
        .classification_positive_class("yes".to_string())
        .classification_betas(vec![fraction("0.5"), JsonNumber::PosInt(1)])
        .suffix("acme".to_string());
    assert_eq!(
        request.to_json().render(),
        "{\"batch_size\":-1,\"classification_betas\":[0.5,1],\"classification_n_classes\":3,\"classification_positive_class\":\"yes\",\"compute_classification_metrics\":true,\"learning_rate_multiplier\":0.1,\"model\":\"curie\",\"n_epochs\":4,\"prompt_loss_weight\":0.01,\"suffix\":\"acme\",\"training_file\":\"file-XGinujblHPwGLSztz8cPS8XY\",\"validation_file\":\"file-v\"}"
    );
    assert_eq!(FineTuneCreateRequest::from_json(&request.to_json()), Some(request.clone()));
    let call = request.request(&client());
    assert_eq!(call.method, Method::Post);
    assert_eq!(call.url, "https://example.test/v1/fine-tunes");
}

#[test]
fn lists_are_plain_gets() {
    let c = client();
    let call = openai_req::files::FileListResponse::request(&c);
    assert_eq!((call.method, call.url.as_str(), &call.body), (Method::Get, "https://example.test/v1/files", &Body::Empty));
    let call = openai_req::fine_tunes::FineTuneListResponse::request(&c);
    assert_eq!((call.method, call.url.as_str()), (Method::Get, "https://example.test/v1/fine-tunes"));
    let call = openai_req::model::ModelListResponse::request(&c);
    assert_eq!((call.method, call.url.as_str()), (Method::Get, "https://example.test/v1/models"));
    assert_eq!(call.bearer, "sk-test");
}

#[test]
fn an_accepted_answer_of_another_shape_is_a_schema_failure() {
    let body = "{\"object\":\"list\"}";
    assert_eq!(
        process_response::<EmbeddingResponse>(200, body),
        Err(openai_req::error::Failure::Schema { body: body.to_string() })
    );
    assert_eq!(EmbeddingResponse::from_json(&Json::Null), None);
}
