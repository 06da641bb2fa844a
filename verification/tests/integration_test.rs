use openai_req::audio::{AudioResponse, Iso639_1, TranscriptionRequest, TranslationRequest};
use openai_req::chat::{ChatRequest, ChatSuccess, Message, Role};
use openai_req::common::{DeleteResponse, Input};
use openai_req::completion::{CompletionRequest, CompletionSuccess};
use openai_req::edit::{EditRequest, EditResponse};
use openai_req::embeddings::{EmbeddingRequest, EmbeddingResponse};
use openai_req::files::{FileDeleteRequest, FileDownloadRequest, FileInfo, FileInfoRequest, FileListResponse, FileUploadRequest};
use openai_req::fine_tunes::{FineTune, FineTuneCreateRequest, FineTuneEventsGetRequest, FineTuneEventsResponse, FineTuneListResponse};
use openai_req::http::{ApiRequest, Body, FormPart, FormValue, HttpRequest, Listing, Method};
use openai_req::image::{ImageEditRequest, ImageRequest, ImageResponse, ImageSize, ImageVariationRequest};
use openai_req::model::{ModelDeleteRequest, ModelListResponse};
use openai_req::moderations::{ModerationRequest, ModerationResponse};
use openai_req::response::{check_download, process_response};
use openai_req::OpenAiClient;

const FILES: &str = "{\"data\":[{\"id\":\"file-XjGxS3KTG0uNmNOK362iJua3\",\"object\":\"file\",\"bytes\":140,\"created_at\":1613779121,\"filename\":\"fine-tune.json\",\"purpose\":\"fine-tune\"}],\"object\":\"list\"}";

const FINE_TUNE: &str = "{\"id\":\"ft-AF1WoRqd3aJAHsqc9NY7iL8F\",\"object\":\"fine-tune\",\"model\":\"curie\",\"created_at\":1614807352,\"events\":[],\"fine_tuned_model\":\"curie:ft-acme-2021-03-03-21-44-20\",\"hyperparams\":{\"batch_size\":4,\"learning_rate_multiplier\":0.1,\"n_epochs\":4,\"prompt_loss_weight\":0.1},\"organization_id\":\"org-1\",\"result_files\":[],\"status\":\"succeeded\",\"validation_files\":[],\"training_files\":[],\"updated_at\":1614807865}";

fn get_client() -> OpenAiClient {
    OpenAiClient::new("sk-test")
}

fn json_body(call: &HttpRequest) -> &str {
    match &call.body {
        Body::Json(text) => text,
        other => panic!("not a JSON body: {:?}", other),
    }
}

fn fine_tunes() -> FineTuneListResponse {
    let body = format!("{{\"object\":\"list\",\"data\":[{}]}}", FINE_TUNE.replace("\"events\":[],", ""));
    process_response::<FineTuneListResponse>(200, &body).unwrap()
}

#[test]
fn chat() {
    let client = get_client();
    let messages = vec![Message { role: Role::User, content: "hello!".to_string() }];
    let chat_request = ChatRequest::new(messages);
    let call = chat_request.request(&client);
    assert_eq!(call.method, Method::Post);
    assert_eq!(call.url, "https://api.openai.com/v1/chat/completions");
    assert_eq!(call.bearer, "sk-test");
    assert_eq!(
        json_body(&call),
        "{\"messages\":[{\"content\":\"hello!\",\"role\":\"user\"}],\"model\":\"gpt-3.5-turbo\"}"
    );
    let answer = "{\"id\":\"chatcmpl-1\",\"object\":\"chat.completion\",\"created\":1677652288,\"choices\":[{\"index\":0,\"message\":{\"role\":\"assistant\",\"content\":\"Hello! How can I help?\"},\"finish_reason\":\"stop\"}],\"usage\":{\"prompt_tokens\":9,\"completion_tokens\":7,\"total_tokens\":16}}";
    let response = process_response::<ChatSuccess>(200, answer).unwrap();
    assert!(!response.choices.is_empty());
    assert_eq!(response.choices[0].message.role, Role::Assistant);
    assert_eq!(response.choices[0].message.content, "Hello! How can I help?");
}

#[test]
fn edit() {
    let client = get_client();
    let instruction = "correct spelling";
    let text = "quick blck fox jupms over lazy dog";
    let request = EditRequest::new_text(instruction).set_input(text);
    let call = request.request(&client);
    assert_eq!(call.url, "https://api.openai.com/v1/edits");
    assert_eq!(
        json_body(&call),
        "{\"input\":\"quick blck fox jupms over lazy dog\",\"instruction\":\"correct spelling\",\"model\":\"text-davinci-edit-001\"}"
    );
    let answer = "{\"object\":\"edit\",\"created\":1589478378,\"choices\":[{\"text\":\"quick black fox jumps over lazy dog\",\"index\":0}],\"usage\":{\"prompt_tokens\":25,\"completion_tokens\":28,\"total_tokens\":53}}";
    let response = process_response::<EditResponse>(200, answer).unwrap();
    assert_eq!(response.choices[0].text, "quick black fox jumps over lazy dog");
}

#[test]
fn completion() {
    let client = get_client();
    let completion_request = CompletionRequest::new(Input::from_str("long long time ago"));
    let call = completion_request.request(&client);
    assert_eq!(call.url, "https://api.openai.com/v1/completions");
    assert_eq!(json_body(&call), "{\"model\":\"text-davinci-003\",\"prompt\":\"long long time ago\"}");
    let answer = "{\"id\":\"cmpl-1\",\"object\":\"text_completion\",\"created\":1589478378,\"model\":\"text-davinci-003\",\"choices\":[{\"text\":\", in a galaxy far away\",\"index\":0,\"logprobs\":null,\"finish_reason\":\"length\"}],\"usage\":{\"prompt_tokens\":4,\"completion_tokens\":6,\"total_tokens\":10}}";
    let response = process_response::<CompletionSuccess>(200, answer).unwrap();
    assert_eq!(response.choices[0].text, ", in a galaxy far away");
}

#[test]
fn models() {
    let client = get_client();
    let call = ModelListResponse::request(&client);
    assert_eq!((call.method, call.url.as_str()), (Method::Get, "https://api.openai.com/v1/models"));
    let answer = "{\"object\":\"list\",\"data\":[{\"id\":\"ada\",\"object\":\"model\",\"created\":1649358449,\"owned_by\":\"openai\",\"permission\":[],\"root\":\"ada\",\"parent\":null}]}";
    let response = process_response::<ModelListResponse>(200, answer).unwrap();
    assert_eq!(response.data.len(), 1);
    assert_eq!(response.data[0].id, "ada");
}

#[test]
fn embeddings() {
    let client = get_client();
    let embedding_request = EmbeddingRequest::new(Input::from_str("The food was delicious and the waiter..."));
    let call = embedding_request.request(&client);
    assert_eq!(call.url, "https://api.openai.com/v1/embeddings");
    assert_eq!(
        json_body(&call),
        "{\"input\":\"The food was delicious and the waiter...\",\"model\":\"text-embedding-ada-002\"}"
    );
    let answer = "{\"object\":\"list\",\"data\":[{\"object\":\"embedding\",\"embedding\":[0.5,-0.25],\"index\":0}],\"model\":\"text-embedding-ada-002\",\"usage\":{\"prompt_tokens\":8,\"total_tokens\":8}}";
    let response = process_response::<EmbeddingResponse>(200, answer).unwrap();
    assert_eq!(response.data[0].embedding.len(), 2);
}

#[test]
fn file_upload() {
    let client = get_client();
    let file = FileUploadRequest::with_str("tests/fine-tune.json", "fine-tune", true).unwrap();
    let call = file.request(&client);
    assert_eq!((call.method, call.url.as_str()), (Method::Post, "https://api.openai.com/v1/files"));
    assert_eq!(
        call.body,
        Body::Form(vec![
            FormPart { name: "purpose".to_string(), value: FormValue::Text("fine-tune".to_string()) },
            FormPart { name: "file".to_string(), value: FormValue::File("tests/fine-tune.json".to_string()) },
        ])
    );
    let answer = "{\"id\":\"file-XjGxS3KTG0uNmNOK362iJua3\",\"object\":\"file\",\"bytes\":140,\"created_at\":1613779121,\"filename\":\"fine-tune.json\",\"purpose\":\"fine-tune\"}";
    let response = process_response::<FileInfo>(200, answer).unwrap();
    let info_request = FileInfoRequest::new(response.id);
    let call = info_request.request(&client);
    assert_eq!(
        (call.method, call.url.as_str()),
        (Method::Get, "https://api.openai.com/v1/files/file-XjGxS3KTG0uNmNOK362iJua3")
    );
    let info = process_response::<FileInfo>(200, answer).unwrap();
    assert_eq!(info.filename, "fine-tune.json");
}

#[test]
fn file_list() {
    let client = get_client();
    let call = FileListResponse::request(&client);
    assert_eq!((call.method, call.url.as_str()), (Method::Get, "https://api.openai.com/v1/files"));
    let files = process_response::<FileListResponse>(200, FILES).unwrap();
    assert_eq!(files.data.len(), 1);
    assert_eq!(files.object, "list");
}

#[test]
fn file_download() {
    let client = get_client();
    let files = process_response::<FileListResponse>(200, FILES).unwrap();
    let info = files.data.first().expect("No files available");
    let download_request: FileDownloadRequest = info.clone().into();
    let call = download_request.request(&client);
    assert_eq!(
        (call.method, call.url.as_str()),
        (Method::Get, "https://api.openai.com/v1/files/file-XjGxS3KTG0uNmNOK362iJua3/content")
    );
    assert_eq!(check_download(200, "{\"prompt\":\"a\",\"completion\":\"b\"}\n"), Ok(()));
    assert!(check_download(404, "{\"error\":{\"message\":\"no such file\",\"type\":\"invalid_request_error\"}}").is_err());
}

#[test]
fn file_delete() {
    let client = get_client();
    let files = process_response::<FileListResponse>(200, FILES).unwrap();
    for file in files.data {
        let delete_request: FileDeleteRequest = file.clone().into();
        let call = delete_request.request(&client);
        assert_eq!(
            (call.method, call.url.as_str()),
            (Method::Delete, "https://api.openai.com/v1/files/file-XjGxS3KTG0uNmNOK362iJua3")
        );
        let answer = "{\"id\":\"file-XjGxS3KTG0uNmNOK362iJua3\",\"object\":\"file\",\"deleted\":true}";
        let delete_result = process_response::<DeleteResponse>(200, answer).unwrap();
        assert_eq!(
            delete_result,
            DeleteResponse { id: file.id, object: "file".to_string(), deleted: true }
        );
    }
}

#[test]
fn fine_tune_create() {
    let client = get_client();
    let files = process_response::<FileListResponse>(200, FILES).unwrap();
    let info = files.data.first().expect("No files available");
    let ft_req = FineTuneCreateRequest::new(info.id.to_string());
    let call = ft_req.request(&client);
    assert_eq!(call.url, "https://api.openai.com/v1/fine-tunes");
    assert_eq!(json_body(&call), "{\"training_file\":\"file-XjGxS3KTG0uNmNOK362iJua3\"}");
    let ft = process_response::<FineTune>(200, FINE_TUNE).unwrap();
    assert_eq!(ft.id, "ft-AF1WoRqd3aJAHsqc9NY7iL8F");
    assert_eq!(ft.hyperparams.n_epochs, 4);
}

#[test]
fn fine_tune_list() {
    let client = get_client();
    let call = FineTuneListResponse::request(&client);
    assert_eq!((call.method, call.url.as_str()), (Method::Get, "https://api.openai.com/v1/fine-tunes"));
    let lst = fine_tunes();
    assert_eq!(lst.data.len(), 1);
    assert_eq!(lst.data[0].status, "succeeded");
}

#[test]
fn fine_tune_events() {
    let client = get_client();
    let lst = fine_tunes();
    let first = lst.data.first().expect("no fine tunes found");
    let req = FineTuneEventsGetRequest::new(first.id.to_string());
    let call = req.request(&client);
    assert_eq!(
        (call.method, call.url.as_str()),
        (Method::Get, "https://api.openai.com/v1/fine-tunes/ft-AF1WoRqd3aJAHsqc9NY7iL8F/events")
    );
    let answer = "{\"object\":\"list\",\"data\":[{\"object\":\"fine-tune-event\",\"created_at\":1614807352,\"level\":\"info\",\"message\":\"Job succeeded.\"}]}";
    let events = process_response::<FineTuneEventsResponse>(200, answer).unwrap();
    assert_eq!(events.data[0].message, "Job succeeded.");
}

#[test]
fn file_tune_model_delete() {
    let client = get_client();
    let fine_tunes = fine_tunes();
    for file in fine_tunes.data {
        let delete_request: ModelDeleteRequest = file.clone().try_into().unwrap();
        let call = delete_request.request(&client);
        assert_eq!(
            (call.method, call.url.as_str()),
            (Method::Delete, "https://api.openai.com/v1/models/curie:ft-acme-2021-03-03-21-44-20")
        );
        let answer = "{\"id\":\"curie:ft-acme-2021-03-03-21-44-20\",\"object\":\"model\",\"deleted\":true}";
        let delete_result = process_response::<DeleteResponse>(200, answer).unwrap();
        assert!(delete_result.deleted);
        assert_eq!(delete_result.id, delete_request.id());
    }
}

#[test]
fn moderation() {
    let client = get_client();
    let req = ModerationRequest::new(Input::from_str("I want to kill everyone"));
    let call = req.request(&client);
    assert_eq!(call.url, "https://api.openai.com/v1/moderations");
    assert_eq!(
        json_body(&call),
        "{\"input\":\"I want to kill everyone\",\"model\":\"text-moderation-stable\"}"
    );
    let answer = "{\"id\":\"modr-1\",\"model\":\"text-moderation-004\",\"results\":[{\"categories\":{\"hate\":false,\"hate/threatening\":false,\"self-harm\":false,\"sexual\":false,\"sexual/minors\":false,\"violence\":true,\"violence/graphic\":false},\"category_scores\":{\"hate\":0.1,\"hate/threatening\":0.01,\"self-harm\":0,\"sexual\":0,\"sexual/minors\":0,\"violence\":0.99,\"violence/graphic\":0.02},\"flagged\":true}]}";
    let res = process_response::<ModerationResponse>(200, answer).unwrap();
    assert!(res.results[0].flagged);
    assert!(res.results[0].categories.violence);
}

#[test]
fn transcription() {
    let client = get_client();
    let req = TranscriptionRequest::new("tests/Linus-linux.mp3".to_string()).language(Iso639_1::En);
    let call = req.request(&client);
    assert_eq!((call.method, call.url.as_str()), (Method::Post, "https://api.openai.com/v1/audio/transcriptions"));
    assert_eq!(
        call.body,
        Body::Form(vec![
            FormPart { name: "model".to_string(), value: FormValue::Text("whisper-1".to_string()) },
            FormPart { name: "file".to_string(), value: FormValue::File("tests/Linus-linux.mp3".to_string()) },
            FormPart { name: "language".to_string(), value: FormValue::Text("en".to_string()) },
        ])
    );
    let res = process_response::<AudioResponse>(200, "{\"text\":\"Hello, this is Linus Torvalds\"}").unwrap();
    assert_eq!(res.text, "Hello, this is Linus Torvalds");
}

#[test]
fn translation() {
    let client = get_client();
    let req = TranslationRequest::new("tests/Linus-linux.mp3".to_string());
    let call = req.request(&client);
    assert_eq!((call.method, call.url.as_str()), (Method::Post, "https://api.openai.com/v1/audio/translations"));
    assert_eq!(
        call.body,
        Body::Form(vec![
            FormPart { name: "model".to_string(), value: FormValue::Text("whisper-1".to_string()) },
            FormPart { name: "file".to_string(), value: FormValue::File("tests/Linus-linux.mp3".to_string()) },
        ])
    );
    let res = process_response::<AudioResponse>(200, "{\"text\":\"Hello\"}").unwrap();
    assert_eq!(res.text, "Hello");
}

#[test]
fn image_gen() {
    let client = get_client();
    let prompt = "logo for rust library, providing access to web API".to_string();
    let req = ImageRequest::new(prompt).size(ImageSize::S256);
    let call = req.request(&client);
    assert_eq!(call.url, "https://api.openai.com/v1/images/generations");
    assert_eq!(
        json_body(&call),
        "{\"prompt\":\"logo for rust library, providing access to web API\",\"size\":\"256x256\"}"
    );
    let res = process_response::<ImageResponse>(200, "{\"created\":1589478378,\"data\":[{\"url\":\"https://a/1.png\"}]}").unwrap();
    assert_eq!(res.data[0].url, "https://a/1.png");
}

#[test]
fn image_var() {
    let client = get_client();
    let req = ImageVariationRequest::new("tests/generated.png".to_string(), true).unwrap().size(ImageSize::S256);
    let call = req.request(&client);
    assert_eq!((call.method, call.url.as_str()), (Method::Post, "https://api.openai.com/v1/images/variations"));
    assert_eq!(
        call.body,
        Body::Form(vec![
            FormPart { name: "image".to_string(), value: FormValue::File("tests/generated.png".to_string()) },
            FormPart { name: "size".to_string(), value: FormValue::Text("256x256".to_string()) },
        ])
    );
}

#[test]
fn image_edit() {
    let client = get_client();
    let prompt = "remove text".to_string();
    let req = ImageEditRequest::new("tests/generated.png".to_string(), prompt, true)
        .unwrap()
        .size(ImageSize::S256)
        .mask("tests/mask.png".to_string(), true)
        .unwrap();
    let call = req.request(&client);
    assert_eq!((call.method, call.url.as_str()), (Method::Post, "https://api.openai.com/v1/images/edits"));
    assert_eq!(
        call.body,
        Body::Form(vec![
            FormPart { name: "prompt".to_string(), value: FormValue::Text("remove text".to_string()) },
            FormPart { name: "image".to_string(), value: FormValue::File("tests/generated.png".to_string()) },
            FormPart { name: "mask".to_string(), value: FormValue::File("tests/mask.png".to_string()) },
            FormPart { name: "size".to_string(), value: FormValue::Text("256x256".to_string()) },
        ])
    );
}
