use openai_req::client::OpenAiClient;
use openai_req::codec::JsonCodec;
use openai_req::common::DeleteResponse;
use openai_req::files::{FileDeleteRequest, FileDownloadRequest, FileInfo, FileInfoRequest, FileListResponse};
use openai_req::fine_tunes::{
    FineTune, FineTuneCancelRequest, FineTuneEvent, FineTuneEventsGetRequest, FineTuneEventsResponse, FineTuneFileInfo,
    FineTuneGetRequest, FineTuneListEntry, FineTuneListResponse, Hyperparams,
};
use openai_req::http::{ApiRequest, Body, Method};
use openai_req::json::{Json, JsonNumber};
use openai_req::model::{ConversionError, Model, ModelDeleteRequest, ModelListResponse, ModelRequest};
use openai_req::response::process_response;
use openai_req::text::is_percent_safe;

fn fraction(text: &str) -> JsonNumber {
    JsonNumber::Real(serde_json::from_str(text).unwrap())
}

fn client() -> OpenAiClient {
    OpenAiClient::with_url("sk-test", "https://example.test/v1")
}

fn file_info() -> FileInfo {
    FileInfo {
        id: "file-XjGxS3KTG0uNmNOK362iJua3".to_string(),
        object: "file".to_string(),
        bytes: 140,
        created_at: 1613779121,
        filename: "mydata.jsonl".to_string(),
        purpose: "fine-tune".to_string(),
    }
}

fn tune_file() -> FineTuneFileInfo {
    FineTuneFileInfo {
        id: "file-QQm6ZpqdNwAaVC3aSz5sWwLT".to_string(),
        object: "file".to_string(),
        bytes: 81509,
        created_at: 1614807863,
        filename: "compiled_results.csv".to_string(),
        purpose: "fine-tune-results".to_string(),
        status: "processed".to_string(),
        status_details: None,
    }
}

fn list_entry(model: Option<&str>) -> FineTuneListEntry {
    FineTuneListEntry {
        id: "ft-AF1WoRqd3aJAHsqc9NY7iL8F".to_string(),
        object: "fine-tune".to_string(),
        model: "curie".to_string(),
        created_at: 1614807352,
        fine_tuned_model: model.map(|m| m.to_string()),
        hyperparams: Hyperparams {
            batch_size: Some(4),
            learning_rate_multiplier: Some(fraction("0.1")),
            n_epochs: 4,
            prompt_loss_weight: fraction("0.1"),
        },
        organization_id: "org-1".to_string(),
        result_files: vec![tune_file()],
        status: "succeeded".to_string(),
        validation_files: vec![],
        training_files: vec![],
        updated_at: 1614807865,
    }
}

fn fine_tune(model: Option<&str>) -> FineTune {
    let e = list_entry(model);
    FineTune {
        id: e.id,
        object: e.object,
        model: e.model,
        created_at: e.created_at,
        events: vec![FineTuneEvent {
            object: "fine-tune-event".to_string(),
            created_at: 1614807352,
            level: "info".to_string(),
            message: "Job enqueued. Waiting for jobs ahead to complete. Queue number: 0.".to_string(),
        }],
        fine_tuned_model: e.fine_tuned_model,
        hyperparams: e.hyperparams,
        organization_id: e.organization_id,
        result_files: e.result_files,
        status: e.status,
        validation_files: e.validation_files,
        training_files: e.training_files,
        updated_at: e.updated_at,
    }
}

#[test]
fn file_requests_name_the_file_in_the_url() {
    let c = client();
    let delete = FileDeleteRequest::new("file-1".to_string());
    assert_eq!(delete.id(), "file-1");
    let call = delete.request(&c);
    assert_eq!((call.method, call.url.as_str(), &call.body), (Method::Delete, "https://example.test/v1/files/file-1", &Body::Empty));
    assert_eq!(call.bearer, "sk-test");
    let info = FileInfoRequest::new("file-1".to_string());
    assert_eq!(info.id(), "file-1");
    let call = info.request(&c);
    assert_eq!((call.method, call.url.as_str()), (Method::Get, "https://example.test/v1/files/file-1"));
    let download = FileDownloadRequest::new("file-1".to_string());
    assert_eq!(download.id(), "file-1");
    let call = download.request(&c);
    assert_eq!((call.method, call.url.as_str(), &call.body), (Method::Get, "https://example.test/v1/files/file-1/content", &Body::Empty));
}

#[test]
fn fine_tune_requests_name_the_fine_tune_in_the_url() {
    let c = client();
    let cancel = FineTuneCancelRequest::new("ft-1".to_string());
    let call = cancel.request(&c);
    assert_eq!((call.method, call.url.as_str()), (Method::Post, "https://example.test/v1/fine-tunes/ft-1/cancel"));
    let get = FineTuneGetRequest::new("ft-1".to_string());
    let call = get.request(&c);
    assert_eq!((call.method, call.url.as_str()), (Method::Get, "https://example.test/v1/fine-tunes/ft-1"));
    let events = FineTuneEventsGetRequest::new("ft-1".to_string());
    assert_eq!(events.id(), "ft-1");
    let call = events.request(&c);
    assert_eq!((call.method, call.url.as_str()), (Method::Get, "https://example.test/v1/fine-tunes/ft-1/events"));
}

#[test]
fn model_requests_name_the_model_in_the_url() {
    let c = client();
    let get = ModelRequest::new("text-davinci-003".to_string());
    assert_eq!(get.id(), "text-davinci-003");
    let call = get.request(&c);
    assert_eq!((call.method, call.url.as_str()), (Method::Get, "https://example.test/v1/models/text-davinci-003"));
    let delete = ModelDeleteRequest::new("curie:ft-acme-2021-03-03-21-44-20".to_string());
    assert!(is_percent_safe(delete.id()));
    let call = delete.request(&c);
    assert_eq!(
        (call.method, call.url.as_str()),
        (Method::Delete, "https://example.test/v1/models/curie:ft-acme-2021-03-03-21-44-20")
    );
}

#[test]
fn a_file_entry_becomes_a_request_for_the_file() {
    let delete: FileDeleteRequest = file_info().into();
    assert_eq!(delete, FileDeleteRequest::new("file-XjGxS3KTG0uNmNOK362iJua3".to_string()));
    let download = FileDownloadRequest::from(file_info());
    assert_eq!(download.file_id, "file-XjGxS3KTG0uNmNOK362iJua3");
}

#[test]
fn a_fine_tune_file_becomes_a_file_entry() {
    let info: FileInfo = tune_file().into();
    assert_eq!(
        info,
        FileInfo {
            id: "file-QQm6ZpqdNwAaVC3aSz5sWwLT".to_string(),
            object: "file".to_string(),
            bytes: 81509,
            created_at: 1614807863,
            filename: "compiled_results.csv".to_string(),
            purpose: "fine-tune-results".to_string(),
        }
    );
}

#[test]
fn a_fine_tune_becomes_a_request_for_it() {
    assert_eq!(FineTuneCancelRequest::from(list_entry(None)).id, "ft-AF1WoRqd3aJAHsqc9NY7iL8F");
    assert_eq!(FineTuneCancelRequest::from(fine_tune(None)).id, "ft-AF1WoRqd3aJAHsqc9NY7iL8F");
    assert_eq!(FineTuneGetRequest::from(list_entry(None)).id, "ft-AF1WoRqd3aJAHsqc9NY7iL8F");
    assert_eq!(FineTuneEventsGetRequest::from(list_entry(None)).id, "ft-AF1WoRqd3aJAHsqc9NY7iL8F");
    assert_eq!(FineTuneEventsGetRequest::from(fine_tune(Some("m"))).id, "ft-AF1WoRqd3aJAHsqc9NY7iL8F");
}

#[test]
fn only_a_finished_fine_tune_names_a_model() {
    let name = "curie:ft-acme-2021-03-03-21-44-20";
    assert_eq!(ModelRequest::try_from(list_entry(Some(name))), Ok(ModelRequest::new(name.to_string())));
    assert_eq!(ModelRequest::try_from(fine_tune(Some(name))), Ok(ModelRequest::new(name.to_string())));
    assert_eq!(ModelDeleteRequest::try_from(list_entry(Some(name))), Ok(ModelDeleteRequest::new(name.to_string())));
    assert_eq!(ModelDeleteRequest::try_from(fine_tune(Some(name))), Ok(ModelDeleteRequest::new(name.to_string())));
    let unfinished = ConversionError::unfinished();
    assert_eq!(unfinished.to_string(), "can only convert finished fine tune, that has fine tune model set");
    assert_eq!(ModelRequest::try_from(list_entry(None)), Err(unfinished));
    assert_eq!(ModelRequest::try_from(fine_tune(None)), Err(unfinished));
    assert_eq!(ModelDeleteRequest::try_from(list_entry(None)), Err(unfinished));
    assert_eq!(ModelDeleteRequest::try_from(fine_tune(None)), Err(unfinished));
    let request: Result<ModelDeleteRequest, ConversionError> = list_entry(Some(name)).try_into();
    assert_eq!(request.unwrap().id(), name);
}

#[test]
fn file_list_answer() {
    let body = "{\"data\":[{\"id\":\"file-XjGxS3KTG0uNmNOK362iJua3\",\"object\":\"file\",\"bytes\":140,\"created_at\":1613779121,\"filename\":\"mydata.jsonl\",\"purpose\":\"fine-tune\"}],\"object\":\"list\"}";
    let answer = process_response::<FileListResponse>(200, body).unwrap();
    assert_eq!(answer, FileListResponse { data: vec![file_info()], object: "list".to_string() });
    assert_eq!(FileInfo::from_json(&file_info().to_json()), Some(file_info()));
    assert_eq!(
        file_info().to_json().render(),
        "{\"bytes\":140,\"created_at\":1613779121,\"filename\":\"mydata.jsonl\",\"id\":\"file-XjGxS3KTG0uNmNOK362iJua3\",\"object\":\"file\",\"purpose\":\"fine-tune\"}"
    );
}

#[test]
fn fine_tune_answer() {
    let body = "{\"id\":\"ft-AF1WoRqd3aJAHsqc9NY7iL8F\",\"object\":\"fine-tune\",\"model\":\"curie\",\"created_at\":1614807352,\"events\":[{\"object\":\"fine-tune-event\",\"created_at\":1614807352,\"level\":\"info\",\"message\":\"Job enqueued. Waiting for jobs ahead to complete. Queue number: 0.\"}],\"fine_tuned_model\":null,\"hyperparams\":{\"batch_size\":4,\"learning_rate_multiplier\":0.1,\"n_epochs\":4,\"prompt_loss_weight\":0.1},\"organization_id\":\"org-1\",\"result_files\":[{\"id\":\"file-QQm6ZpqdNwAaVC3aSz5sWwLT\",\"object\":\"file\",\"bytes\":81509,\"created_at\":1614807863,\"filename\":\"compiled_results.csv\",\"purpose\":\"fine-tune-results\",\"status\":\"processed\",\"status_details\":null}],\"status\":\"succeeded\",\"validation_files\":[],\"training_files\":[],\"updated_at\":1614807865}";
    let answer = process_response::<FineTune>(200, body).unwrap();
    assert_eq!(answer, fine_tune(None));
    assert_eq!(FineTune::from_json(&fine_tune(Some("m")).to_json()), Some(fine_tune(Some("m"))));
    assert_eq!(FineTuneListEntry::from_json(&list_entry(None).to_json()), Some(list_entry(None)));
}

#[test]
fn hyperparams_without_a_batch_size() {
    let doc = Json::parse("{\"batch_size\":null,\"learning_rate_multiplier\":null,\"n_epochs\":4,\"prompt_loss_weight\":0.01}").unwrap();
    assert_eq!(
        Hyperparams::from_json(&doc),
        Some(Hyperparams { batch_size: None, learning_rate_multiplier: None, n_epochs: 4, prompt_loss_weight: fraction("0.01") })
    );
    let doc = Json::parse("{\"n_epochs\":4,\"prompt_loss_weight\":1}").unwrap();
    assert_eq!(
        Hyperparams::from_json(&doc),
        Some(Hyperparams { batch_size: None, learning_rate_multiplier: None, n_epochs: 4, prompt_loss_weight: JsonNumber::PosInt(1) })
    );
    let doc = Json::parse("{\"n_epochs\":4}").unwrap();
    assert_eq!(Hyperparams::from_json(&doc), None);
}

#[test]
fn fine_tune_lists() {
    let list = FineTuneListResponse { object: "list".to_string(), data: vec![list_entry(None), list_entry(Some("m"))] };
    let text = list.to_json().render();
    assert_eq!(process_response::<FineTuneListResponse>(200, &text), Ok(list));
    let body = "{\"object\":\"list\",\"data\":[{\"object\":\"fine-tune-event\",\"created_at\":1614807352,\"level\":\"info\",\"message\":\"Started\"}]}";
    let events = process_response::<FineTuneEventsResponse>(200, body).unwrap();
    assert_eq!(events.data.len(), 1);
    assert_eq!(events.data[0].message, "Started");
    assert_eq!(events.data[0].level, "info");
}

#[test]
fn model_answers() {
    let body = "{\"id\":\"text-davinci-003\",\"object\":\"model\",\"created\":1669599635,\"owned_by\":\"openai-internal\",\"permission\":[{\"id\":\"modelperm-1\",\"object\":\"model_permission\",\"created\":1677793558,\"allow_create_engine\":false,\"allow_sampling\":true,\"allow_logprobs\":true,\"allow_search_indices\":false,\"allow_view\":true,\"allow_fine_tuning\":false,\"organization\":\"*\",\"group\":null,\"is_blocking\":false}],\"root\":\"text-davinci-003\",\"parent\":null}";
    let model = process_response::<Model>(200, body).unwrap();
    assert_eq!(model.id, "text-davinci-003");
    assert_eq!(model.owned_by, "openai-internal");
    assert_eq!(model.parent, None);
    assert_eq!(model.permission.len(), 1);
    assert!(model.permission[0].allow_sampling);
    assert!(!model.permission[0].allow_fine_tuning);
    assert_eq!(model.permission[0].organization, "*");
    assert_eq!(model.permission[0].group, None);
    assert_eq!(Model::from_json(&model.to_json()), Some(model.clone()));
    let list = ModelListResponse { object: "list".to_string(), data: vec![model] };
    let text = list.to_json().render();
    assert_eq!(process_response::<ModelListResponse>(200, &text), Ok(list));
}

#[test]
fn delete_answer() {
    let body = "{\"id\":\"curie:ft-acme-2021-03-03-21-44-20\",\"object\":\"model\",\"deleted\":true}";
    assert_eq!(
        process_response::<DeleteResponse>(200, body),
        Ok(DeleteResponse { id: "curie:ft-acme-2021-03-03-21-44-20".to_string(), object: "model".to_string(), deleted: true })
    );
}
