use openai_req::chat::{ChatChoice, ChatRequest, ChatSuccess, Message, Role, StopSeq};
use openai_req::client::OpenAiClient;
use openai_req::codec::JsonCodec;
use openai_req::common::{LogitBias, Usage};
use openai_req::http::{ApiRequest, Body, Method};
use openai_req::json::{Json, JsonNumber};
use openai_req::response::process_response;

fn fraction(text: &str) -> JsonNumber {
    JsonNumber::Real(serde_json::from_str(text).unwrap())
}

fn hello() -> Vec<Message> {
    vec![Message { role: Role::User, content: "hello!".to_string() }]
}

#[test]
fn roles_travel_in_lower_case() {
    assert_eq!(Role::System.as_wire_name(), "system");
    assert_eq!(Role::User.as_wire_name(), "user");
    assert_eq!(Role::Assistant.as_wire_name(), "assistant");
    assert_eq!(Role::from_wire_name("assistant"), Some(Role::Assistant));
    assert_eq!(Role::from_wire_name("user"), Some(Role::User));
    assert_eq!(Role::from_wire_name("system"), Some(Role::System));
    assert_eq!(Role::from_wire_name("User"), None);
    assert_eq!(Role::from_wire_name(""), None);
    assert_eq!(Role::User.to_json(), Json::String("user".to_string()));
    assert_eq!(Role::from_json(&Json::String("system".to_string())), Some(Role::System));
    assert_eq!(Role::from_json(&Json::Null), None);
}

#[test]
fn a_new_request_has_the_default_model_and_nothing_else() {
    let request = ChatRequest::new(hello());
    assert_eq!(
        request.to_json().render(),
        "{\"messages\":[{\"content\":\"hello!\",\"role\":\"user\"}],\"model\":\"gpt-3.5-turbo\"}"
    );
    assert_eq!(request, ChatRequest::with_model_and_messages("gpt-3.5-turbo", hello()));
}

#[test]
fn fields_that_are_not_set_are_left_out() {
    let request = ChatRequest::with_model_and_messages("gpt-4", Vec::new()).n(2).user("u1".to_string());
    assert_eq!(
        request.to_json(),
        Json::Object(vec![
            ("model".to_string(), Json::String("gpt-4".to_string())),
            ("messages".to_string(), Json::Array(vec![])),
            ("n".to_string(), Json::Number(JsonNumber::PosInt(2))),
            ("user".to_string(), Json::String("u1".to_string())),
        ])
    );
    assert!(!request.to_json().render().contains("null"));
}

#[test]
fn every_field_travels_under_its_name() {
    let request = ChatRequest::new(hello())
        .model("gpt-4".to_string())
        .add_message(Message { role: Role::Assistant, content: "hi".to_string() })
        .temperature(fraction("0.5"))
        .n(3)
        .stream(false)
        .stop(StopSeq::Vec(vec!["a".to_string(), "b".to_string()]))
        .max_tokens(64)
        .presence_penalty(fraction("-0.5"))
        .frequency_penalty(JsonNumber::PosInt(1))
        .logit_bias(LogitBias { entries: vec![("50256".to_string(), JsonNumber::NegInt(-100))] })
        .user("u".to_string());
    assert_eq!(
        request.to_json().render(),
        "{\"frequency_penalty\":1,\"logit_bias\":{\"50256\":-100},\"max_tokens\":64,\"messages\":[{\"content\":\"hello!\",\"role\":\"user\"},{\"content\":\"hi\",\"role\":\"assistant\"}],\"model\":\"gpt-4\",\"n\":3,\"presence_penalty\":-0.5,\"stop\":[\"a\",\"b\"],\"stream\":false,\"temperature\":0.5,\"user\":\"u\"}"
    );
}

#[test]
fn temperature_and_top_p_exclude_each_other() {
    let request = ChatRequest::new(hello()).top_p(fraction("0.9")).temperature(fraction("0.2"));
    let text = request.to_json().render();
    assert!(text.contains("\"temperature\":0.2"));
    assert!(!text.contains("top_p"));
    let request = request.top_p(fraction("0.9"));
    let text = request.to_json().render();
    assert!(text.contains("\"top_p\":0.9"));
    assert!(!text.contains("temperature"));
}

#[test]
fn integers_out_of_range_are_set_to_the_bound() {
    let request = ChatRequest::new(hello())
        .temperature(JsonNumber::PosInt(5))
        .presence_penalty(JsonNumber::NegInt(-9))
        .frequency_penalty(JsonNumber::PosInt(9));
    assert_eq!(
        request.to_json().render(),
        "{\"frequency_penalty\":2,\"messages\":[{\"content\":\"hello!\",\"role\":\"user\"}],\"model\":\"gpt-3.5-turbo\",\"presence_penalty\":-2,\"temperature\":2}"
    );
    let request = ChatRequest::new(hello()).top_p(JsonNumber::PosInt(3));
    assert!(request.to_json().render().contains("\"top_p\":1"));
    let request = ChatRequest::new(hello()).temperature(JsonNumber::NegInt(-1));
    assert!(request.to_json().render().contains("\"temperature\":0"));
}

#[test]
fn a_stop_is_a_text_or_a_list() {
    assert_eq!(StopSeq::String("\n".to_string()).to_json(), Json::String("\n".to_string()));
    let list = StopSeq::Vec(vec!["a".to_string()]);
    assert_eq!(list.to_json(), Json::Array(vec![Json::String("a".to_string())]));
    assert_eq!(StopSeq::from_json(&list.to_json()), Some(list));
    assert_eq!(StopSeq::from_json(&Json::String("x".to_string())), Some(StopSeq::String("x".to_string())));
    assert_eq!(StopSeq::from_json(&Json::Bool(true)), None);
}

#[test]
fn the_request_goes_to_chat_completions() {
    let client = OpenAiClient::new("sk-test");
    let request = ChatRequest::new(hello());
    let call = request.request(&client);
    assert_eq!(call.method, Method::Post);
    assert_eq!(call.url, "https://api.openai.com/v1/chat/completions");
    assert_eq!(call.bearer, "sk-test");
    assert_eq!(call.body, Body::Json(request.to_json().render()));
}

#[test]
fn a_request_round_trips_through_its_json_form() {
    let request = ChatRequest::new(hello())
        .temperature(fraction("0.5"))
        .stop(StopSeq::String("END".to_string()))
        .max_tokens(10)
        .logit_bias(LogitBias { entries: vec![("1".to_string(), JsonNumber::PosInt(1))] });
    assert_eq!(ChatRequest::from_json(&request.to_json()), Some(request));
    let plain = ChatRequest::new(Vec::new());
    assert_eq!(ChatRequest::from_json(&plain.to_json()), Some(plain));
}

#[test]
fn a_request_round_trips_through_text() {
    let request = ChatRequest::new(hello()).n(2).stream(true).user("u".to_string());
    let text = request.to_json().render();
    let doc = Json::parse(&text).unwrap();
    assert_eq!(ChatRequest::from_json(&doc), Some(request));
}

#[test]
fn a_request_does_not_decode_without_its_messages() {
    let doc = Json::parse("{\"model\":\"gpt-4\"}").unwrap();
    assert_eq!(ChatRequest::from_json(&doc), None);
    let doc = Json::parse("{\"model\":\"gpt-4\",\"messages\":[],\"n\":70000}").unwrap();
    assert_eq!(ChatRequest::from_json(&doc), None);
    let doc = Json::parse("{\"model\":\"gpt-4\",\"messages\":[],\"n\":null}").unwrap();
    assert_eq!(ChatRequest::from_json(&doc), Some(ChatRequest::with_model_and_messages("gpt-4", Vec::new())));
}

#[test]
fn the_answer_decodes_from_the_documented_shape() {
    let body = "{\"id\":\"chatcmpl-123\",\"object\":\"chat.completion\",\"created\":1677652288,\"choices\":[{\"index\":0,\"message\":{\"role\":\"assistant\",\"content\":\"\\n\\nHello there, how may I assist you today?\"},\"finish_reason\":\"stop\"}],\"usage\":{\"prompt_tokens\":9,\"completion_tokens\":12,\"total_tokens\":21}}";
    let answer = process_response::<ChatSuccess>(200, body).unwrap();
    let expected = ChatSuccess {
        id: "chatcmpl-123".to_string(),
        object: "chat.completion".to_string(),
        created: 1677652288,
        choices: vec![ChatChoice {
            index: 0,
            message: Message {
                role: Role::Assistant,
                content: "\n\nHello there, how may I assist you today?".to_string(),
            },
            finish_reason: "stop".to_string(),
        }],
        usage: Usage { prompt_tokens: 9, completion_tokens: 12, total_tokens: 21 },
    };
    assert_eq!(answer, expected);
    assert_eq!(ChatSuccess::from_json(&expected.to_json()), Some(expected));
}
