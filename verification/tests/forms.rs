use openai_req::audio::{AudioResponse, Iso639_1, ResponseFormat, TranscriptionRequest, TranslationRequest};
use openai_req::client::OpenAiClient;
use openai_req::codec::JsonCodec;
use openai_req::error::PreconditionError;
use openai_req::files::FileUploadRequest;
use openai_req::http::{ApiRequest, Body, FormPart, FormValue, Method};
use openai_req::image::{ImageData, ImageEditRequest, ImageRequest, ImageResponse, ImageSize, ImageVariationRequest};
use openai_req::json::{Json, JsonNumber};
use openai_req::response::process_response;

fn text(name: &str, value: &str) -> FormPart {
    FormPart { name: name.to_string(), value: FormValue::Text(value.to_string()) }
}

fn file(name: &str, path: &str) -> FormPart {
    FormPart { name: name.to_string(), value: FormValue::File(path.to_string()) }
}

fn fraction(text: &str) -> JsonNumber {
    JsonNumber::Real(serde_json::from_str(text).unwrap())
}

fn client() -> OpenAiClient {
    OpenAiClient::with_url("sk-test", "https://example.test/v1")
}

#[test]
fn image_sizes() {
    assert_eq!(ImageSize::S256.to_string(), "256x256");
    assert_eq!(ImageSize::S512.to_string(), "512x512");
    assert_eq!(ImageSize::S1024.to_string(), "1024x1024");
    assert_eq!(ImageSize::from_string("256x256"), Some(ImageSize::S256));
    assert_eq!(ImageSize::from_string("512x512"), Some(ImageSize::S512));
    assert_eq!(ImageSize::from_string("1024x1024"), Some(ImageSize::S1024));
    assert_eq!(ImageSize::from_string("2048x2048"), None);
    assert_eq!(ImageSize::from_string("256X256"), None);
    assert_eq!(ImageSize::from_string(""), None);
    assert_eq!(ImageSize::S512.to_json(), Json::String("512x512".to_string()));
    assert_eq!(ImageSize::from_json(&Json::String("1024x1024".to_string())), Some(ImageSize::S1024));
    assert_eq!(ImageSize::from_json(&Json::String("big".to_string())), None);
}

#[test]
fn image_request() {
    let request = ImageRequest::new("logo for rust library, providing access to web API".to_string()).size(ImageSize::S256);
    assert_eq!(
        request.to_json().render(),
        "{\"prompt\":\"logo for rust library, providing access to web API\",\"size\":\"256x256\"}"
    );
    let full = ImageRequest::new("p".to_string())
        .n(2)
        .size(ImageSize::S1024)
        .response_format("b64_json".to_string())
        .user("u".to_string());
    assert_eq!(
        full.to_json().render(),
        "{\"n\":2,\"prompt\":\"p\",\"response_format\":\"b64_json\",\"size\":\"1024x1024\",\"user\":\"u\"}"
    );
    assert_eq!(ImageRequest::from_json(&full.to_json()), Some(full));
    let call = request.request(&client());
    assert_eq!(call.method, Method::Post);
    assert_eq!(call.url, "https://example.test/v1/images/generations");
    assert_eq!(call.body, Body::Json(request.to_json().render()));
}

#[test]
fn image_answer() {
    let body = "{\"created\":1589478378,\"data\":[{\"url\":\"https://a/1.png\"},{\"url\":\"https://a/2.png\"}]}";
    let answer = process_response::<ImageResponse>(200, body).unwrap();
    assert_eq!(
        answer,
        ImageResponse {
            created: 1589478378,
            data: vec![
                ImageData { url: "https://a/1.png".to_string() },
                ImageData { url: "https://a/2.png".to_string() },
            ],
        }
    );
}

#[test]
fn an_image_edit_needs_its_files() {
    assert_eq!(
        ImageEditRequest::new("tests/missing.png".to_string(), "remove text".to_string(), false),
        Err(PreconditionError::FileNotFound)
    );
    let request = ImageEditRequest::new("tests/generated.png".to_string(), "remove text".to_string(), true).unwrap();
    assert_eq!(request.clone().mask("tests/missing.png".to_string(), false), Err(PreconditionError::FileNotFound));
    assert!(request.mask("tests/mask.png".to_string(), true).is_ok());
}

#[test]
fn image_edit_form() {
    let request = ImageEditRequest::new("tests/generated.png".to_string(), "remove text".to_string(), true).unwrap();
    assert_eq!(request.form_parts(), vec![text("prompt", "remove text"), file("image", "tests/generated.png")]);
    let request = request
        .size(ImageSize::S256)
        .mask("tests/mask.png".to_string(), true)
        .unwrap()
        .n(-3)
        .response_format("url".to_string())
        .user("u".to_string());
    assert_eq!(
        request.form_parts(),
        vec![
            text("prompt", "remove text"),
            file("image", "tests/generated.png"),
            file("mask", "tests/mask.png"),
            text("n", "-3"),
            text("size", "256x256"),
            text("response_format", "url"),
            text("user", "u"),
        ]
    );
    let call = request.request(&client());
    assert_eq!(call.method, Method::Post);
    assert_eq!(call.url, "https://example.test/v1/images/edits");
    assert_eq!(call.body, Body::Form(request.form_parts()));
}

#[test]
fn image_variation_form() {
    assert_eq!(ImageVariationRequest::new("tests/missing.png".to_string(), false), Err(PreconditionError::FileNotFound));
    let request = ImageVariationRequest::new("tests/generated.png".to_string(), true).unwrap();
    assert_eq!(request.form_parts(), vec![file("image", "tests/generated.png")]);
    let request = request.n(10).size(ImageSize::S512).user("u".to_string());
    assert_eq!(
        request.form_parts(),
        vec![file("image", "tests/generated.png"), text("n", "10"), text("size", "512x512"), text("user", "u")]
    );
    let call = request.request(&client());
    assert_eq!(call.url, "https://example.test/v1/images/variations");
    assert_eq!(call.body, Body::Form(request.form_parts()));
}

#[test]
fn a_file_upload_needs_its_file() {
    assert_eq!(
        FileUploadRequest::new("tests/missing.json".to_string(), "fine-tune".to_string(), false),
        Err(PreconditionError::FileNotFound)
    );
    assert_eq!(FileUploadRequest::with_str("tests/missing.json", "fine-tune", false), Err(PreconditionError::FileNotFound));
    let a = FileUploadRequest::new("tests/fine-tune.json".to_string(), "fine-tune".to_string(), true).unwrap();
    let b = FileUploadRequest::with_str("tests/fine-tune.json", "fine-tune", true).unwrap();
    assert_eq!(a, b);
}

#[test]
fn file_upload_form() {
    let request = FileUploadRequest::with_str("tests/fine-tune.json", "fine-tune", true).unwrap();
    assert_eq!(request.form_parts(), vec![text("purpose", "fine-tune"), file("file", "tests/fine-tune.json")]);
    let call = request.request(&client());
    assert_eq!(call.method, Method::Post);
    assert_eq!(call.url, "https://example.test/v1/files");
    assert_eq!(call.bearer, "sk-test");
    assert_eq!(call.body, Body::Form(request.form_parts()));
}

#[test]
fn response_formats() {
    assert_eq!(ResponseFormat::Json.to_string(), "json");
    assert_eq!(ResponseFormat::Text.to_string(), "text");
    assert_eq!(ResponseFormat::Srt.to_string(), "srt");
    assert_eq!(ResponseFormat::VerboseJson.to_string(), "verbose_json");
    assert_eq!(ResponseFormat::Vtt.to_string(), "vtt");
}

#[test]
fn language_codes() {
    assert_eq!(Iso639_1::En.to_string(), "en");
    assert_eq!(Iso639_1::Aa.to_string(), "aa");
    assert_eq!(Iso639_1::Zu.to_string(), "zu");
    assert_eq!(Iso639_1::Is.to_string(), "is");
    assert_eq!(Iso639_1::As.to_string(), "as");
    assert_eq!(Iso639_1::De.as_code(), "de");
    assert_eq!(Iso639_1::Uk.as_code(), "uk");
}

#[test]
fn transcription_form() {
    let request = TranscriptionRequest::new("tests/Linus-linux.mp3".to_string()).language(Iso639_1::En);
    assert_eq!(
        request.form_parts(),
        vec![text("model", "whisper-1"), file("file", "tests/Linus-linux.mp3"), text("language", "en")]
    );
    let request = TranscriptionRequest::with_model("a.mp3".to_string(), "whisper-2".to_string())
        .file("b.mp3".to_string())
        .prompt("names: Linus".to_string())
        .response_format(ResponseFormat::VerboseJson)
        .temperature(fraction("0.2"))
        .language(Iso639_1::Fi);
    assert_eq!(
        request.form_parts(),
        vec![
            text("model", "whisper-2"),
            file("file", "b.mp3"),
            text("prompt", "names: Linus"),
            text("response_format", "verbose_json"),
            FormPart { name: "temperature".to_string(), value: FormValue::Number(fraction("0.2")) },
            text("language", "fi"),
        ]
    );
    assert_eq!(request.clone().model("whisper-1".to_string()).form_parts()[0], text("model", "whisper-1"));
    let call = request.request(&client());
    assert_eq!(call.method, Method::Post);
    assert_eq!(call.url, "https://example.test/v1/audio/transcriptions");
    assert_eq!(call.body, Body::Form(request.form_parts()));
}

#[test]
fn translation_form() {
    let request = TranslationRequest::new("tests/Linus-linux.mp3".to_string());
    assert_eq!(request.form_parts(), vec![text("model", "whisper-1"), file("file", "tests/Linus-linux.mp3")]);
    assert_eq!(request, TranslationRequest::with_model("tests/Linus-linux.mp3".to_string(), "whisper-1".to_string()));
    let request = request
        .file("c.wav".to_string())
        .model("m".to_string())
        .prompt("p".to_string())
        .response_format(ResponseFormat::Srt)
        .temperature(JsonNumber::PosInt(0));
    assert_eq!(
        request.form_parts(),
        vec![
            text("model", "m"),
            file("file", "c.wav"),
            text("prompt", "p"),
            text("response_format", "srt"),
            FormPart { name: "temperature".to_string(), value: FormValue::Number(JsonNumber::PosInt(0)) },
        ]
    );
    let call = request.request(&client());
    assert_eq!(call.url, "https://example.test/v1/audio/translations");
}

#[test]
fn audio_answer() {
    let answer = process_response::<AudioResponse>(200, "{\"text\":\"Hello, my name is Linus.\"}").unwrap();
    assert_eq!(answer, AudioResponse { text: "Hello, my name is Linus.".to_string() });
    assert_eq!(AudioResponse::from_json(&answer.to_json()), Some(answer));
}
