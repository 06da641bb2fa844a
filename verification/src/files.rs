//! The files endpoints.

use crate::client::OpenAiClient;
use crate::codec::{get_required, group_members, put, required, with, JsonCodec};
use crate::common::DeleteResponse;
use crate::error::PreconditionError;
use crate::fine_tunes::FineTuneFileInfo;
use crate::http::{
    endpoint_url, file_part, push_part, resource_url, text_part, ApiRequest, BodyView, FormPart,
    FormPartView, HttpRequest, HttpRequestView, Listing, Method,
};
use crate::json::{lemma_members_empty, lemma_object_view, Json, JsonView};
use vstd::std_specs::convert::FromSpecImpl;
use vstd::prelude::*;

verus! {

/// The files that the service stores for the account.
#[derive(Clone, Debug, PartialEq)]
pub struct FileListResponse {
    pub data: Vec<FileInfo>,
    pub object: String,
}

/// The model of [`FileListResponse`].
pub struct FileListResponseView {
    pub data: Seq<FileInfoView>,
    pub object: Seq<char>,
}

impl DeepView for FileListResponse {
    type V = FileListResponseView;

    open spec fn deep_view(&self) -> FileListResponseView {
        FileListResponseView {
            data: self.data.deep_view(),
            object: self.object@,
        }
    }
}

impl JsonCodec for FileListResponse {
    open spec fn encoded(v: FileListResponseView) -> JsonView {
        let m = Seq::empty();
        let m = with::<Vec<FileInfo>>(m, "data"@, v.data);
        let m = with::<String>(m, "object"@, v.object);
        JsonView::Object(m)
    }

    open spec fn decoded(doc: JsonView) -> Option<FileListResponseView> {
        match doc {
            JsonView::Object(m) => {
                let data = required::<Vec<FileInfo>>(m, "data"@);
                let object = required::<String>(m, "object"@);
                if data is Some && object is Some {
                    Some(
                        FileListResponseView {
                            data: data->0,
                            object: object->0,
                        },
                    )
                } else {
                    None
                }
            },
            _ => None,
        }
    }

    fn to_json(&self) -> (doc: Json) {
        let mut m: Vec<(String, Json)> = Vec::new();
        proof {
            lemma_members_empty(m);
        }
        put(&mut m, "data", &self.data);
        put(&mut m, "object", &self.object);
        proof {
            lemma_object_view(m);
        }
        Json::Object(m)
    }

    fn from_json(doc: &Json) -> (r: Option<FileListResponse>) {
        match doc {
            Json::Object(m) => {
                proof {
                    lemma_object_view(*m);
                }
                let data = match get_required::<Vec<FileInfo>>(m, "data") {
                    Some(v) => v,
                    None => return None,
                };
                let object = match get_required::<String>(m, "object") {
                    Some(v) => v,
                    None => return None,
                };
                Some(FileListResponse { data, object })
            },
            _ => None,
        }
    }

    proof fn lemma_round_trip(v: FileListResponseView) {
        broadcast use group_members;

        FileListResponse::lemma_names_differ();
        Vec::<FileInfo>::lemma_round_trip(v.data);
        String::lemma_round_trip(v.object);
    }
}

impl FileListResponse {
    /// No two members of the JSON form have the same name.
    proof fn lemma_names_differ()
        ensures
            "data"@ != "object"@,
    {
        reveal_strlit("data");
        reveal_strlit("object");
        assert("data"@.len() == 4);
        assert("object"@.len() == 6);
    }
}

impl Listing for FileListResponse {
    open spec fn path() -> Seq<char> {
        "/files"@
    }

    fn request(client: &OpenAiClient) -> (r: HttpRequest) {
        HttpRequest::get(client, "/files")
    }
}

/// What the service knows of one stored file.
#[derive(Clone, Debug, PartialEq)]
pub struct FileInfo {
    pub id: String,
    pub object: String,
    pub bytes: i64,
    pub created_at: i64,
    pub filename: String,
    pub purpose: String,
}

/// The model of [`FileInfo`].
pub struct FileInfoView {
    pub id: Seq<char>,
    pub object: Seq<char>,
    pub bytes: i64,
    pub created_at: i64,
    pub filename: Seq<char>,
    pub purpose: Seq<char>,
}

impl DeepView for FileInfo {
    type V = FileInfoView;

    open spec fn deep_view(&self) -> FileInfoView {
        FileInfoView {
            id: self.id@,
            object: self.object@,
            bytes: self.bytes,
            created_at: self.created_at,
            filename: self.filename@,
            purpose: self.purpose@,
        }
    }
}

impl JsonCodec for FileInfo {
    open spec fn encoded(v: FileInfoView) -> JsonView {
        let m = Seq::empty();
        let m = with::<String>(m, "id"@, v.id);
        let m = with::<String>(m, "object"@, v.object);
        let m = with::<i64>(m, "bytes"@, v.bytes);
        let m = with::<i64>(m, "created_at"@, v.created_at);
        let m = with::<String>(m, "filename"@, v.filename);
        let m = with::<String>(m, "purpose"@, v.purpose);
        JsonView::Object(m)
    }

    open spec fn decoded(doc: JsonView) -> Option<FileInfoView> {
        match doc {
            JsonView::Object(m) => {
                let id = required::<String>(m, "id"@);
                let object = required::<String>(m, "object"@);
                let bytes = required::<i64>(m, "bytes"@);
                let created_at = required::<i64>(m, "created_at"@);
                let filename = required::<String>(m, "filename"@);
                let purpose = required::<String>(m, "purpose"@);
                if id is Some
                    && object is Some
                    && bytes is Some
                    && created_at is Some
                    && filename is Some
                    && purpose is Some {
                    Some(
                        FileInfoView {
                            id: id->0,
                            object: object->0,
                            bytes: bytes->0,
                            created_at: created_at->0,
                            filename: filename->0,
                            purpose: purpose->0,
                        },
                    )
                } else {
                    None
                }
            },
            _ => None,
        }
    }

    fn to_json(&self) -> (doc: Json) {
        let mut m: Vec<(String, Json)> = Vec::new();
        proof {
            lemma_members_empty(m);
        }
        put(&mut m, "id", &self.id);
        put(&mut m, "object", &self.object);
        put(&mut m, "bytes", &self.bytes);
        put(&mut m, "created_at", &self.created_at);
        put(&mut m, "filename", &self.filename);
        put(&mut m, "purpose", &self.purpose);
        proof {
            lemma_object_view(m);
        }
        Json::Object(m)
    }

    fn from_json(doc: &Json) -> (r: Option<FileInfo>) {
        match doc {
            Json::Object(m) => {
                proof {
                    lemma_object_view(*m);
                }
                let id = match get_required::<String>(m, "id") {
                    Some(v) => v,
                    None => return None,
                };
                let object = match get_required::<String>(m, "object") {
                    Some(v) => v,
                    None => return None,
                };
                let bytes = match get_required::<i64>(m, "bytes") {
                    Some(v) => v,
                    None => return None,
                };
                let created_at = match get_required::<i64>(m, "created_at") {
                    Some(v) => v,
                    None => return None,
                };
                let filename = match get_required::<String>(m, "filename") {
                    Some(v) => v,
                    None => return None,
                };
                let purpose = match get_required::<String>(m, "purpose") {
                    Some(v) => v,
                    None => return None,
                };
                Some(FileInfo { id, object, bytes, created_at, filename, purpose })
            },
            _ => None,
        }
    }

    proof fn lemma_round_trip(v: FileInfoView) {
        FileInfo::lemma_names_differ();
        let m = FileInfo::encoded(v)->Object_0;
        assert(required::<String>(m, "id"@) == Some(v.id)) by {
            broadcast use group_members;

            String::lemma_round_trip(v.id);
        }
        assert(required::<String>(m, "object"@) == Some(v.object)) by {
            broadcast use group_members;

            String::lemma_round_trip(v.object);
        }
        assert(required::<i64>(m, "bytes"@) == Some(v.bytes)) by {
            broadcast use group_members;

            i64::lemma_round_trip(v.bytes);
        }
        assert(required::<i64>(m, "created_at"@) == Some(v.created_at)) by {
            broadcast use group_members;

            i64::lemma_round_trip(v.created_at);
        }
        assert(required::<String>(m, "filename"@) == Some(v.filename)) by {
            broadcast use group_members;

            String::lemma_round_trip(v.filename);
        }
        assert(required::<String>(m, "purpose"@) == Some(v.purpose)) by {
            broadcast use group_members;

            String::lemma_round_trip(v.purpose);
        }
    }
}

impl FileInfo {
    /// No two members of the JSON form have the same name.
    proof fn lemma_names_differ()
        ensures
            "id"@ != "object"@,
            "id"@ != "bytes"@,
            "id"@ != "created_at"@,
            "id"@ != "filename"@,
            "id"@ != "purpose"@,
            "object"@ != "bytes"@,
            "object"@ != "created_at"@,
            "object"@ != "filename"@,
            "object"@ != "purpose"@,
            "bytes"@ != "created_at"@,
            "bytes"@ != "filename"@,
            "bytes"@ != "purpose"@,
            "created_at"@ != "filename"@,
            "created_at"@ != "purpose"@,
            "filename"@ != "purpose"@,
    {
        reveal_strlit("id");
        reveal_strlit("object");
        reveal_strlit("bytes");
        reveal_strlit("created_at");
        reveal_strlit("filename");
        reveal_strlit("purpose");
        assert("id"@.len() == 2);
        assert("object"@.len() == 6);
        assert("bytes"@.len() == 5);
        assert("created_at"@.len() == 10);
        assert("filename"@.len() == 8);
        assert("purpose"@.len() == 7);
    }
}

/// The file that a fine-tune names, without what the fine-tune adds.
impl From<FineTuneFileInfo> for FileInfo {
    fn from(value: FineTuneFileInfo) -> (r: Self) {
        FileInfo {
            id: value.id,
            object: value.object,
            bytes: value.bytes,
            created_at: value.created_at,
            filename: value.filename,
            purpose: value.purpose,
        }
    }
}

impl FromSpecImpl<FineTuneFileInfo> for FileInfo {
    open spec fn obeys_from_spec() -> bool {
        true
    }

    open spec fn from_spec(value: FineTuneFileInfo) -> Self {
        FileInfo {
            id: value.id,
            object: value.object,
            bytes: value.bytes,
            created_at: value.created_at,
            filename: value.filename,
            purpose: value.purpose,
        }
    }
}

/// Asks the service to delete a stored file.
#[derive(Clone, Debug, PartialEq)]
pub struct FileDeleteRequest {
    pub file_id: String,
}

/// The model of [`FileDeleteRequest`].
pub struct FileDeleteRequestView {
    pub file_id: Seq<char>,
}

impl DeepView for FileDeleteRequest {
    type V = FileDeleteRequestView;

    open spec fn deep_view(&self) -> FileDeleteRequestView {
        FileDeleteRequestView {
            file_id: self.file_id@,
        }
    }
}

impl FileDeleteRequest {
    pub fn new(file_id: String) -> (r: Self)
        ensures
            r.file_id == file_id,
    {
        FileDeleteRequest { file_id }
    }

    /// The identifier that stands in the URL of the call.
    pub fn id(&self) -> (r: &str)
        ensures
            r@ == self.file_id@,
    {
        self.file_id.as_str()
    }
}

impl From<FileInfo> for FileDeleteRequest {
    fn from(value: FileInfo) -> (r: Self) {
        FileDeleteRequest { file_id: value.id }
    }
}

impl FromSpecImpl<FileInfo> for FileDeleteRequest {
    open spec fn obeys_from_spec() -> bool {
        true
    }

    open spec fn from_spec(value: FileInfo) -> Self {
        FileDeleteRequest { file_id: value.id }
    }
}

impl ApiRequest for FileDeleteRequest {
    type Response = DeleteResponse;

    open spec fn method(&self) -> Method {
        Method::Delete
    }

    open spec fn path(&self) -> Seq<char> {
        "/files/"@ + self.file_id@
    }

    open spec fn body(&self) -> BodyView {
        BodyView::Empty
    }

    fn request(&self, client: &OpenAiClient) -> (r: HttpRequest) {
        proof {
            reveal_strlit("");
        }
        let id = self.file_id.as_str();
        let r = HttpRequest::by_id(client, Method::Delete, "/files/", id, "");
        assert(r.url@ =~= endpoint_url(client.deep_view().url, self.path()));
        r
    }
}

impl FileDeleteRequest {
    /// In the URL of the call the identifier stands, as it is, after `/files/`
    /// and nothing follows it.
    pub proof fn lemma_url(self, base: Seq<char>)
        ensures
            endpoint_url(base, self.path()) == resource_url(
                base,
                "/files/"@,
                self.file_id@,
                ""@,
            ),
    {
        reveal_strlit("");
        assert(endpoint_url(base, self.path()) =~= resource_url(
            base,
            "/files/"@,
            self.file_id@,
            ""@,
        ));
    }
}

/// Asks the service what it knows of a stored file.
#[derive(Clone, Debug, PartialEq)]
pub struct FileInfoRequest {
    pub file_id: String,
}

/// The model of [`FileInfoRequest`].
pub struct FileInfoRequestView {
    pub file_id: Seq<char>,
}

impl DeepView for FileInfoRequest {
    type V = FileInfoRequestView;

    open spec fn deep_view(&self) -> FileInfoRequestView {
        FileInfoRequestView {
            file_id: self.file_id@,
        }
    }
}

impl FileInfoRequest {
    pub fn new(file_id: String) -> (r: Self)
        ensures
            r.file_id == file_id,
    {
        FileInfoRequest { file_id }
    }

    /// The identifier that stands in the URL of the call.
    pub fn id(&self) -> (r: &str)
        ensures
            r@ == self.file_id@,
    {
        self.file_id.as_str()
    }
}

impl ApiRequest for FileInfoRequest {
    type Response = FileInfo;

    open spec fn method(&self) -> Method {
        Method::Get
    }

    open spec fn path(&self) -> Seq<char> {
        "/files/"@ + self.file_id@
    }

    open spec fn body(&self) -> BodyView {
        BodyView::Empty
    }

    fn request(&self, client: &OpenAiClient) -> (r: HttpRequest) {
        proof {
            reveal_strlit("");
        }
        let id = self.file_id.as_str();
        let r = HttpRequest::by_id(client, Method::Get, "/files/", id, "");
        assert(r.url@ =~= endpoint_url(client.deep_view().url, self.path()));
        r
    }
}

impl FileInfoRequest {
    /// In the URL of the call the identifier stands, as it is, after `/files/`
    /// and nothing follows it.
    pub proof fn lemma_url(self, base: Seq<char>)
        ensures
            endpoint_url(base, self.path()) == resource_url(
                base,
                "/files/"@,
                self.file_id@,
                ""@,
            ),
    {
        reveal_strlit("");
        assert(endpoint_url(base, self.path()) =~= resource_url(
            base,
            "/files/"@,
            self.file_id@,
            ""@,
        ));
    }
}

/// Asks the service for the content of a stored file.
#[derive(Clone, Debug, PartialEq)]
pub struct FileDownloadRequest {
    pub file_id: String,
}

/// The model of [`FileDownloadRequest`].
pub struct FileDownloadRequestView {
    pub file_id: Seq<char>,
}

impl DeepView for FileDownloadRequest {
    type V = FileDownloadRequestView;

    open spec fn deep_view(&self) -> FileDownloadRequestView {
        FileDownloadRequestView {
            file_id: self.file_id@,
        }
    }
}

impl FileDownloadRequest {
    pub fn new(file_id: String) -> (r: Self)
        ensures
            r.file_id == file_id,
    {
        FileDownloadRequest { file_id }
    }

    /// The identifier that stands in the URL of the call.
    pub fn id(&self) -> (r: &str)
        ensures
            r@ == self.file_id@,
    {
        self.file_id.as_str()
    }
}

impl From<FileInfo> for FileDownloadRequest {
    fn from(value: FileInfo) -> (r: Self) {
        FileDownloadRequest { file_id: value.id }
    }
}

impl FromSpecImpl<FileInfo> for FileDownloadRequest {
    open spec fn obeys_from_spec() -> bool {
        true
    }

    open spec fn from_spec(value: FileInfo) -> Self {
        FileDownloadRequest { file_id: value.id }
    }
}

impl FileDownloadRequest {
    /// The path of the call below the base URL.
    pub open spec fn path(&self) -> Seq<char> {
        "/files/"@ + self.file_id@ + "/content"@
    }

    /// The call that gets the content of the file. Its answer is the file
    /// itself, not a document: see [`crate::response::check_download`].
    pub fn request(&self, client: &OpenAiClient) -> (r: HttpRequest)
        ensures
            r.deep_view() == (HttpRequestView {
                method: Method::Get,
                url: endpoint_url(client.deep_view().url, self.path()),
                bearer: client.deep_view().key,
                body: BodyView::Empty,
            }),
    {
        let id = self.file_id.as_str();
        let r = HttpRequest::by_id(client, Method::Get, "/files/", id, "/content");
        assert(r.url@ =~= endpoint_url(client.deep_view().url, self.path()));
        r
    }

    /// In the URL of the call the identifier stands, as it is, after `/files/`
    /// and before `/content`.
    pub proof fn lemma_url(self, base: Seq<char>)
        ensures
            endpoint_url(base, self.path()) == resource_url(
                base,
                "/files/"@,
                self.file_id@,
                "/content"@,
            ),
    {
        assert(endpoint_url(base, self.path()) =~= resource_url(
            base,
            "/files/"@,
            self.file_id@,
            "/content"@,
        ));
    }
}

/// A local file to store at the service, and what it is for.
#[derive(Clone, Debug, PartialEq)]
pub struct FileUploadRequest {
    /// The path of the file.
    file: String,
    purpose: String,
}

/// The model of [`FileUploadRequest`].
pub struct FileUploadRequestView {
    pub file: Seq<char>,
    pub purpose: Seq<char>,
}

impl DeepView for FileUploadRequest {
    type V = FileUploadRequestView;

    closed spec fn deep_view(&self) -> FileUploadRequestView {
        FileUploadRequestView {
            file: self.file@,
            purpose: self.purpose@,
        }
    }
}

impl FileUploadRequest {
    /// A request for the file at a path, given whether a file is there. Without the
    /// file there is no request, and so no call.
    pub fn new(file: String, purpose: String, found: bool) -> (r: Result<Self, PreconditionError>)
        ensures
            found ==> r is Ok && r->Ok_0.deep_view() == (FileUploadRequestView {
                file: file@,
                purpose: purpose@,
            }),
            !found ==> r == Err::<Self, PreconditionError>(PreconditionError::FileNotFound),
    {
        if found {
            Ok(
                FileUploadRequest {
                    file,
                    purpose,
                },
            )
        } else {
            Err(PreconditionError::FileNotFound)
        }
    }

    /// As [`FileUploadRequest::new`], from borrowed texts.
    pub fn with_str(file: &str, purpose: &str, found: bool) -> (r: Result<Self, PreconditionError>)
        ensures
            found ==> r is Ok && r->Ok_0.deep_view() == (FileUploadRequestView {
                file: file@,
                purpose: purpose@,
            }),
            !found ==> r == Err::<Self, PreconditionError>(PreconditionError::FileNotFound),
    {
        if found {
            Ok(
                FileUploadRequest {
                    file: file.to_owned(),
                    purpose: purpose.to_owned(),
                },
            )
        } else {
            Err(PreconditionError::FileNotFound)
        }
    }

    /// The parts of the form: the purpose, then the file.
    pub open spec fn parts(v: FileUploadRequestView) -> Seq<FormPartView> {
        let p = Seq::empty();
        let p = p.push(text_part("purpose"@, v.purpose));
        let p = p.push(file_part("file"@, v.file));
        p
    }

    pub fn form_parts(&self) -> (parts: Vec<FormPart>)
        ensures
            parts.deep_view() == FileUploadRequest::parts(self.deep_view()),
    {
        let mut parts: Vec<FormPart> = Vec::new();
        assert(parts.deep_view() =~= Seq::<FormPartView>::empty());
        push_part(&mut parts, FormPart::text("purpose", self.purpose.as_str()));
        push_part(&mut parts, FormPart::file("file", self.file.as_str()));
        parts
    }
}

impl ApiRequest for FileUploadRequest {
    type Response = FileInfo;

    open spec fn method(&self) -> Method {
        Method::Post
    }

    open spec fn path(&self) -> Seq<char> {
        "/files"@
    }

    open spec fn body(&self) -> BodyView {
        BodyView::Form(FileUploadRequest::parts(self.deep_view()))
    }

    fn request(&self, client: &OpenAiClient) -> (r: HttpRequest) {
        HttpRequest::post_form(client, "/files", self.form_parts())
    }
}

} // verus!
