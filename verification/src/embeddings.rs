//! The embeddings endpoint.

use crate::client::OpenAiClient;
use crate::codec::{
    get_optional, get_required, group_members, optional, present, put, put_some, required, with,
    with_some, JsonCodec,
};
use crate::common::{Input, InputView};
use crate::http::{ApiRequest, BodyView, HttpRequest, Method};
use crate::json::{
    json_text, lemma_members_empty, lemma_object_view, member, Json, JsonNumber, JsonView,
};
use vstd::prelude::*;

verus! {

/// Texts to turn into vectors.
#[derive(Clone, Debug, PartialEq)]
pub struct EmbeddingRequest {
    pub model: String,
    pub input: Input,
    pub user: Option<String>,
}

/// The model of [`EmbeddingRequest`].
pub struct EmbeddingRequestView {
    pub model: Seq<char>,
    pub input: InputView,
    pub user: Option<Seq<char>>,
}

impl DeepView for EmbeddingRequest {
    type V = EmbeddingRequestView;

    open spec fn deep_view(&self) -> EmbeddingRequestView {
        EmbeddingRequestView {
            model: self.model@,
            input: self.input.deep_view(),
            user: self.user.deep_view(),
        }
    }
}

impl JsonCodec for EmbeddingRequest {
    open spec fn encoded(v: EmbeddingRequestView) -> JsonView {
        let m = Seq::empty();
        let m = with::<String>(m, "model"@, v.model);
        let m = with::<Input>(m, "input"@, v.input);
        let m = with_some::<String>(m, "user"@, v.user);
        JsonView::Object(m)
    }

    open spec fn decoded(doc: JsonView) -> Option<EmbeddingRequestView> {
        match doc {
            JsonView::Object(m) => {
                let model = required::<String>(m, "model"@);
                let input = required::<Input>(m, "input"@);
                let user = optional::<String>(m, "user"@);
                if model is Some && input is Some && user is Some {
                    Some(
                        EmbeddingRequestView {
                            model: model->0,
                            input: input->0,
                            user: user->0,
                        },
                    )
                } else {
                    None
                }
            },
            _ => None,
        }
    }

    fn to_json(&self) -> (doc: Json) {
        let mut m: Vec<(String, Json)> = Vec::new();
        proof {
            lemma_members_empty(m);
        }
        put(&mut m, "model", &self.model);
        put(&mut m, "input", &self.input);
        put_some(&mut m, "user", &self.user);
        proof {
            lemma_object_view(m);
        }
        Json::Object(m)
    }

    fn from_json(doc: &Json) -> (r: Option<EmbeddingRequest>) {
        match doc {
            Json::Object(m) => {
                proof {
                    lemma_object_view(*m);
                }
                let model = match get_required::<String>(m, "model") {
                    Some(v) => v,
                    None => return None,
                };
                let input = match get_required::<Input>(m, "input") {
                    Some(v) => v,
                    None => return None,
                };
                let user = match get_optional::<String>(m, "user") {
                    Some(v) => v,
                    None => return None,
                };
                Some(EmbeddingRequest { model, input, user })
            },
            _ => None,
        }
    }

    proof fn lemma_round_trip(v: EmbeddingRequestView) {
        broadcast use group_members;

        EmbeddingRequest::lemma_names_differ();
        String::lemma_round_trip(v.model);
        Input::lemma_round_trip(v.input);
        if v.user is Some {
            String::lemma_round_trip(v.user->0);
        }
    }
}

impl EmbeddingRequest {
    /// No two members of the JSON form have the same name.
    proof fn lemma_names_differ()
        ensures
            "model"@ != "input"@,
            "model"@ != "user"@,
            "input"@ != "user"@,
    {
        reveal_strlit("model");
        reveal_strlit("input");
        reveal_strlit("user");
        assert("model"@.len() == 5);
        assert("input"@.len() == 5);
        assert("user"@.len() == 4);
        assert("model"@[0] == 'm');
        assert("input"@[0] == 'i');
    }
}

impl EmbeddingRequest {
    /// The model that a request asks for where none is named.
    pub open spec fn default_model() -> Seq<char> {
        "text-embedding-ada-002"@
    }

    /// A request for the default model.
    pub fn new(input: Input) -> (r: Self)
        ensures
            r.deep_view() == (EmbeddingRequestView {
                model: EmbeddingRequest::default_model(),
                input: input.deep_view(),
                user: None,
            }),
    {
        EmbeddingRequest {
            model: "text-embedding-ada-002".to_owned(),
            input,
            user: None,
        }
    }

    pub fn with_model(model: String, input: Input) -> (r: Self)
        ensures
            r.deep_view() == (EmbeddingRequestView {
                model: model@,
                input: input.deep_view(),
                user: None,
            }),
    {
        EmbeddingRequest {
            model,
            input,
            user: None,
        }
    }

    pub fn user(self, user: String) -> (r: Self)
        ensures
            r.deep_view() == (EmbeddingRequestView { user: Some(user@), ..self.deep_view() }),
    {
        let mut request = self;
        request.user = Some(user);
        request
    }

    /// The JSON form has one member for each field that is set, under the name that
    /// the service knows the field by, and no other member. None of them is `null`:
    /// a field that is not set is left out.
    pub proof fn lemma_wire_form(v: EmbeddingRequestView)
        ensures
            EmbeddingRequest::encoded(v) is Object,
            ({
                let m = EmbeddingRequest::encoded(v)->Object_0;
                &&& member(m, "model"@) == Some(String::encoded(v.model))
                &&& member(m, "input"@) == Some(Input::encoded(v.input))
                &&& member(m, "user"@) == present::<String>(v.user)
                &&& forall|k: Seq<char>|
                    k != "model"@ && k != "input"@ && k != "user"@ ==> member(m, k) is None
                &&& forall|k: Seq<char>| member(m, k) != Some(JsonView::Null)
            }),
    {
        EmbeddingRequest::lemma_names_differ();
        let m = EmbeddingRequest::encoded(v)->Object_0;
        assert(member(m, "model"@) == Some(String::encoded(v.model))) by {
            broadcast use group_members;
        }
        assert(member(m, "input"@) == Some(Input::encoded(v.input))) by {
            broadcast use group_members;
        }
        assert(member(m, "user"@) == present::<String>(v.user)) by {
            broadcast use group_members;
        }
        assert forall|k: Seq<char>|
            k != "model"@ && k != "input"@ && k != "user"@ implies member(m, k) is None by {
            broadcast use group_members;
        }
    }
}

impl ApiRequest for EmbeddingRequest {
    type Response = EmbeddingResponse;

    open spec fn method(&self) -> Method {
        Method::Post
    }

    open spec fn path(&self) -> Seq<char> {
        "/embeddings"@
    }

    open spec fn body(&self) -> BodyView {
        BodyView::Json(json_text(EmbeddingRequest::encoded(self.deep_view())))
    }

    fn request(&self, client: &OpenAiClient) -> (r: HttpRequest) {
        let doc = self.to_json();
        HttpRequest::post_json(client, "/embeddings", &doc)
    }
}

/// How many tokens an embedding used.
#[derive(Clone, Debug, PartialEq)]
pub struct Usage {
    pub prompt_tokens: i64,
    pub total_tokens: i64,
}

/// The model of [`Usage`].
pub struct UsageView {
    pub prompt_tokens: i64,
    pub total_tokens: i64,
}

impl DeepView for Usage {
    type V = UsageView;

    open spec fn deep_view(&self) -> UsageView {
        UsageView {
            prompt_tokens: self.prompt_tokens,
            total_tokens: self.total_tokens,
        }
    }
}

impl JsonCodec for Usage {
    open spec fn encoded(v: UsageView) -> JsonView {
        let m = Seq::empty();
        let m = with::<i64>(m, "prompt_tokens"@, v.prompt_tokens);
        let m = with::<i64>(m, "total_tokens"@, v.total_tokens);
        JsonView::Object(m)
    }

    open spec fn decoded(doc: JsonView) -> Option<UsageView> {
        match doc {
            JsonView::Object(m) => {
                let prompt_tokens = required::<i64>(m, "prompt_tokens"@);
                let total_tokens = required::<i64>(m, "total_tokens"@);
                if prompt_tokens is Some && total_tokens is Some {
                    Some(
                        UsageView {
                            prompt_tokens: prompt_tokens->0,
                            total_tokens: total_tokens->0,
                        },
                    )
                } else {
                    None
                }
            },
            _ => None,
        }
    }

    fn to_json(&self) -> (doc: Json) {
        let mut m: Vec<(String, Json)> = Vec::new();
        proof {
            lemma_members_empty(m);
        }
        put(&mut m, "prompt_tokens", &self.prompt_tokens);
        put(&mut m, "total_tokens", &self.total_tokens);
        proof {
            lemma_object_view(m);
        }
        Json::Object(m)
    }

    fn from_json(doc: &Json) -> (r: Option<Usage>) {
        match doc {
            Json::Object(m) => {
                proof {
                    lemma_object_view(*m);
                }
                let prompt_tokens = match get_required::<i64>(m, "prompt_tokens") {
                    Some(v) => v,
                    None => return None,
                };
                let total_tokens = match get_required::<i64>(m, "total_tokens") {
                    Some(v) => v,
                    None => return None,
                };
                Some(Usage { prompt_tokens, total_tokens })
            },
            _ => None,
        }
    }

    proof fn lemma_round_trip(v: UsageView) {
        broadcast use group_members;

        Usage::lemma_names_differ();
        i64::lemma_round_trip(v.prompt_tokens);
        i64::lemma_round_trip(v.total_tokens);
    }
}

impl Usage {
    /// No two members of the JSON form have the same name.
    proof fn lemma_names_differ()
        ensures
            "prompt_tokens"@ != "total_tokens"@,
    {
        reveal_strlit("prompt_tokens");
        reveal_strlit("total_tokens");
        assert("prompt_tokens"@.len() == 13);
        assert("total_tokens"@.len() == 12);
    }
}

/// The vector of one text.
#[derive(Clone, Debug, PartialEq)]
pub struct Struct {
    pub object: String,
    pub embedding: Vec<JsonNumber>,
    pub index: i64,
}

/// The model of [`Struct`].
pub struct StructView {
    pub object: Seq<char>,
    pub embedding: Seq<JsonNumber>,
    pub index: i64,
}

impl DeepView for Struct {
    type V = StructView;

    open spec fn deep_view(&self) -> StructView {
        StructView {
            object: self.object@,
            embedding: self.embedding.deep_view(),
            index: self.index,
        }
    }
}

impl JsonCodec for Struct {
    open spec fn encoded(v: StructView) -> JsonView {
        let m = Seq::empty();
        let m = with::<String>(m, "object"@, v.object);
        let m = with::<Vec<JsonNumber>>(m, "embedding"@, v.embedding);
        let m = with::<i64>(m, "index"@, v.index);
        JsonView::Object(m)
    }

    open spec fn decoded(doc: JsonView) -> Option<StructView> {
        match doc {
            JsonView::Object(m) => {
                let object = required::<String>(m, "object"@);
                let embedding = required::<Vec<JsonNumber>>(m, "embedding"@);
                let index = required::<i64>(m, "index"@);
                if object is Some && embedding is Some && index is Some {
                    Some(
                        StructView {
                            object: object->0,
                            embedding: embedding->0,
                            index: index->0,
                        },
                    )
                } else {
                    None
                }
            },
            _ => None,
        }
    }

    fn to_json(&self) -> (doc: Json) {
        let mut m: Vec<(String, Json)> = Vec::new();
        proof {
            lemma_members_empty(m);
        }
        put(&mut m, "object", &self.object);
        put(&mut m, "embedding", &self.embedding);
        put(&mut m, "index", &self.index);
        proof {
            lemma_object_view(m);
        }
        Json::Object(m)
    }

    fn from_json(doc: &Json) -> (r: Option<Struct>) {
        match doc {
            Json::Object(m) => {
                proof {
                    lemma_object_view(*m);
                }
                let object = match get_required::<String>(m, "object") {
                    Some(v) => v,
                    None => return None,
                };
                let embedding = match get_required::<Vec<JsonNumber>>(m, "embedding") {
                    Some(v) => v,
                    None => return None,
                };
                let index = match get_required::<i64>(m, "index") {
                    Some(v) => v,
                    None => return None,
                };
                Some(Struct { object, embedding, index })
            },
            _ => None,
        }
    }

    proof fn lemma_round_trip(v: StructView) {
        broadcast use group_members;

        Struct::lemma_names_differ();
        String::lemma_round_trip(v.object);
        Vec::<JsonNumber>::lemma_round_trip(v.embedding);
        i64::lemma_round_trip(v.index);
    }
}

impl Struct {
    /// No two members of the JSON form have the same name.
    proof fn lemma_names_differ()
        ensures
            "object"@ != "embedding"@,
            "object"@ != "index"@,
            "embedding"@ != "index"@,
    {
        reveal_strlit("object");
        reveal_strlit("embedding");
        reveal_strlit("index");
        assert("object"@.len() == 6);
        assert("embedding"@.len() == 9);
        assert("index"@.len() == 5);
    }
}

/// What the service answers to an [`EmbeddingRequest`].
#[derive(Clone, Debug, PartialEq)]
pub struct EmbeddingResponse {
    pub object: String,
    pub data: Vec<Struct>,
    pub model: String,
    pub usage: Usage,
}

/// The model of [`EmbeddingResponse`].
pub struct EmbeddingResponseView {
    pub object: Seq<char>,
    pub data: Seq<StructView>,
    pub model: Seq<char>,
    pub usage: UsageView,
}

impl DeepView for EmbeddingResponse {
    type V = EmbeddingResponseView;

    open spec fn deep_view(&self) -> EmbeddingResponseView {
        EmbeddingResponseView {
            object: self.object@,
            data: self.data.deep_view(),
            model: self.model@,
            usage: self.usage.deep_view(),
        }
    }
}

impl JsonCodec for EmbeddingResponse {
    open spec fn encoded(v: EmbeddingResponseView) -> JsonView {
        let m = Seq::empty();
        let m = with::<String>(m, "object"@, v.object);
        let m = with::<Vec<Struct>>(m, "data"@, v.data);
        let m = with::<String>(m, "model"@, v.model);
        let m = with::<Usage>(m, "usage"@, v.usage);
        JsonView::Object(m)
    }

    open spec fn decoded(doc: JsonView) -> Option<EmbeddingResponseView> {
        match doc {
            JsonView::Object(m) => {
                let object = required::<String>(m, "object"@);
                let data = required::<Vec<Struct>>(m, "data"@);
                let model = required::<String>(m, "model"@);
                let usage = required::<Usage>(m, "usage"@);
                if object is Some && data is Some && model is Some && usage is Some {
                    Some(
                        EmbeddingResponseView {
                            object: object->0,
                            data: data->0,
                            model: model->0,
                            usage: usage->0,
                        },
                    )
                } else {
                    None
                }
            },
            _ => None,
        }
    }

    fn to_json(&self) -> (doc: Json) {
        let mut m: Vec<(String, Json)> = Vec::new();
        proof {
            lemma_members_empty(m);
        }
        put(&mut m, "object", &self.object);
        put(&mut m, "data", &self.data);
        put(&mut m, "model", &self.model);
        put(&mut m, "usage", &self.usage);
        proof {
            lemma_object_view(m);
        }
        Json::Object(m)
    }

    fn from_json(doc: &Json) -> (r: Option<EmbeddingResponse>) {
        match doc {
            Json::Object(m) => {
                proof {
                    lemma_object_view(*m);
                }
                let object = match get_required::<String>(m, "object") {
                    Some(v) => v,
                    None => return None,
                };
                let data = match get_required::<Vec<Struct>>(m, "data") {
                    Some(v) => v,
                    None => return None,
                };
                let model = match get_required::<String>(m, "model") {
                    Some(v) => v,
                    None => return None,
                };
                let usage = match get_required::<Usage>(m, "usage") {
                    Some(v) => v,
                    None => return None,
                };
                Some(EmbeddingResponse { object, data, model, usage })
            },
            _ => None,
        }
    }

    proof fn lemma_round_trip(v: EmbeddingResponseView) {
        broadcast use group_members;

        EmbeddingResponse::lemma_names_differ();
        String::lemma_round_trip(v.object);
        Vec::<Struct>::lemma_round_trip(v.data);
        String::lemma_round_trip(v.model);
        Usage::lemma_round_trip(v.usage);
    }
}

impl EmbeddingResponse {
    /// No two members of the JSON form have the same name.
    proof fn lemma_names_differ()
        ensures
            "object"@ != "data"@,
            "object"@ != "model"@,
            "object"@ != "usage"@,
            "data"@ != "model"@,
            "data"@ != "usage"@,
            "model"@ != "usage"@,
    {
        reveal_strlit("object");
        reveal_strlit("data");
        reveal_strlit("model");
        reveal_strlit("usage");
        assert("object"@.len() == 6);
        assert("data"@.len() == 4);
        assert("model"@.len() == 5);
        assert("usage"@.len() == 5);
        assert("model"@[0] == 'm');
        assert("usage"@[0] == 'u');
    }
}

} // verus!
