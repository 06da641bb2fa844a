//! The edit endpoint.

use crate::client::OpenAiClient;
use crate::codec::{
    get_optional, get_required, group_members, optional, present, put, put_some, required, with,
    with_some, JsonCodec,
};
use crate::common::{Usage, UsageView};
use crate::http::{ApiRequest, BodyView, HttpRequest, Method};
use crate::json::{
    json_text, lemma_members_empty, lemma_object_view, member, Json, JsonNumber, JsonView,
};
use vstd::prelude::*;

verus! {

/// A text and what the service is to change in it.
#[derive(Clone, Debug, PartialEq)]
pub struct EditRequest {
    model: String,
    input: Option<String>,
    instruction: String,
    n: Option<u16>,
    temperature: Option<JsonNumber>,
    top_p: Option<JsonNumber>,
}

/// The model of [`EditRequest`].
pub struct EditRequestView {
    pub model: Seq<char>,
    pub input: Option<Seq<char>>,
    pub instruction: Seq<char>,
    pub n: Option<u16>,
    pub temperature: Option<JsonNumber>,
    pub top_p: Option<JsonNumber>,
}

impl DeepView for EditRequest {
    type V = EditRequestView;

    closed spec fn deep_view(&self) -> EditRequestView {
        EditRequestView {
            model: self.model@,
            input: self.input.deep_view(),
            instruction: self.instruction@,
            n: self.n,
            temperature: self.temperature,
            top_p: self.top_p,
        }
    }
}

impl JsonCodec for EditRequest {
    open spec fn encoded(v: EditRequestView) -> JsonView {
        let m = Seq::empty();
        let m = with::<String>(m, "model"@, v.model);
        let m = with_some::<String>(m, "input"@, v.input);
        let m = with::<String>(m, "instruction"@, v.instruction);
        let m = with_some::<u16>(m, "n"@, v.n);
        let m = with_some::<JsonNumber>(m, "temperature"@, v.temperature);
        let m = with_some::<JsonNumber>(m, "top_p"@, v.top_p);
        JsonView::Object(m)
    }

    open spec fn decoded(doc: JsonView) -> Option<EditRequestView> {
        match doc {
            JsonView::Object(m) => {
                let model = required::<String>(m, "model"@);
                let input = optional::<String>(m, "input"@);
                let instruction = required::<String>(m, "instruction"@);
                let n = optional::<u16>(m, "n"@);
                let temperature = optional::<JsonNumber>(m, "temperature"@);
                let top_p = optional::<JsonNumber>(m, "top_p"@);
                if model is Some
                    && input is Some
                    && instruction is Some
                    && n is Some
                    && temperature is Some
                    && top_p is Some {
                    Some(
                        EditRequestView {
                            model: model->0,
                            input: input->0,
                            instruction: instruction->0,
                            n: n->0,
                            temperature: temperature->0,
                            top_p: top_p->0,
                        },
                    )
                } else {
                    None
                }
            },
            _ => None,
        }
    }

    fn to_json(&self) -> (doc: Json) {
        let mut m: Vec<(String, Json)> = Vec::new();
        proof {
            lemma_members_empty(m);
        }
        put(&mut m, "model", &self.model);
        put_some(&mut m, "input", &self.input);
        put(&mut m, "instruction", &self.instruction);
        put_some(&mut m, "n", &self.n);
        put_some(&mut m, "temperature", &self.temperature);
        put_some(&mut m, "top_p", &self.top_p);
        proof {
            lemma_object_view(m);
        }
        Json::Object(m)
    }

    fn from_json(doc: &Json) -> (r: Option<EditRequest>) {
        match doc {
            Json::Object(m) => {
                proof {
                    lemma_object_view(*m);
                }
                let model = match get_required::<String>(m, "model") {
                    Some(v) => v,
                    None => return None,
                };
                let input = match get_optional::<String>(m, "input") {
                    Some(v) => v,
                    None => return None,
                };
                let instruction = match get_required::<String>(m, "instruction") {
                    Some(v) => v,
                    None => return None,
                };
                let n = match get_optional::<u16>(m, "n") {
                    Some(v) => v,
                    None => return None,
                };
                let temperature = match get_optional::<JsonNumber>(m, "temperature") {
                    Some(v) => v,
                    None => return None,
                };
                let top_p = match get_optional::<JsonNumber>(m, "top_p") {
                    Some(v) => v,
                    None => return None,
                };
                Some(EditRequest { model, input, instruction, n, temperature, top_p })
            },
            _ => None,
        }
    }

    proof fn lemma_round_trip(v: EditRequestView) {
        EditRequest::lemma_names_differ();
        let m = EditRequest::encoded(v)->Object_0;
        assert(required::<String>(m, "model"@) == Some(v.model)) by {
            broadcast use group_members;

            String::lemma_round_trip(v.model);
        }
        assert(optional::<String>(m, "input"@) == Some(v.input)) by {
            broadcast use group_members;

            if v.input is Some {
                String::lemma_round_trip(v.input->0);
            }
        }
        assert(required::<String>(m, "instruction"@) == Some(v.instruction)) by {
            broadcast use group_members;

            String::lemma_round_trip(v.instruction);
        }
        assert(optional::<u16>(m, "n"@) == Some(v.n)) by {
            broadcast use group_members;

            if v.n is Some {
                u16::lemma_round_trip(v.n->0);
            }
        }
        assert(optional::<JsonNumber>(m, "temperature"@) == Some(v.temperature)) by {
            broadcast use group_members;

            if v.temperature is Some {
                JsonNumber::lemma_round_trip(v.temperature->0);
            }
        }
        assert(optional::<JsonNumber>(m, "top_p"@) == Some(v.top_p)) by {
            broadcast use group_members;

            if v.top_p is Some {
                JsonNumber::lemma_round_trip(v.top_p->0);
            }
        }
    }
}

impl EditRequest {
    /// No two members of the JSON form have the same name.
    proof fn lemma_names_differ()
        ensures
            "model"@ != "input"@,
            "model"@ != "instruction"@,
            "model"@ != "n"@,
            "model"@ != "temperature"@,
            "model"@ != "top_p"@,
            "input"@ != "instruction"@,
            "input"@ != "n"@,
            "input"@ != "temperature"@,
            "input"@ != "top_p"@,
            "instruction"@ != "n"@,
            "instruction"@ != "temperature"@,
            "instruction"@ != "top_p"@,
            "n"@ != "temperature"@,
            "n"@ != "top_p"@,
            "temperature"@ != "top_p"@,
    {
        reveal_strlit("model");
        reveal_strlit("input");
        reveal_strlit("instruction");
        reveal_strlit("n");
        reveal_strlit("temperature");
        reveal_strlit("top_p");
        assert("model"@.len() == 5);
        assert("input"@.len() == 5);
        assert("instruction"@.len() == 11);
        assert("n"@.len() == 1);
        assert("temperature"@.len() == 11);
        assert("top_p"@.len() == 5);
        assert("model"@[0] == 'm');
        assert("input"@[0] == 'i');
        assert("top_p"@[0] == 't');
        assert("instruction"@[0] == 'i');
        assert("temperature"@[0] == 't');
    }
}

impl EditRequest {
    /// The model that edits prose.
    pub open spec fn text_model() -> Seq<char> {
        "text-davinci-edit-001"@
    }

    /// The model that edits code.
    pub open spec fn code_model() -> Seq<char> {
        "code-davinci-edit-001"@
    }

    /// A request to edit prose.
    pub fn new_text(instruction: &str) -> (r: Self)
        ensures
            r.deep_view() == (EditRequestView {
                model: EditRequest::text_model(),
                input: None,
                instruction: instruction@,
                n: None,
                temperature: None,
                top_p: None,
            }),
    {
        EditRequest {
            model: "text-davinci-edit-001".to_owned(),
            input: None,
            instruction: instruction.to_owned(),
            n: None,
            temperature: None,
            top_p: None,
        }
    }

    /// A request to edit code.
    pub fn new_code(instruction: &str) -> (r: Self)
        ensures
            r.deep_view() == (EditRequestView {
                model: EditRequest::code_model(),
                input: None,
                instruction: instruction@,
                n: None,
                temperature: None,
                top_p: None,
            }),
    {
        EditRequest {
            model: "code-davinci-edit-001".to_owned(),
            input: None,
            instruction: instruction.to_owned(),
            n: None,
            temperature: None,
            top_p: None,
        }
    }

    pub fn with_model(model: &str, instruction: &str) -> (r: Self)
        ensures
            r.deep_view() == (EditRequestView {
                model: model@,
                input: None,
                instruction: instruction@,
                n: None,
                temperature: None,
                top_p: None,
            }),
    {
        EditRequest {
            model: model.to_owned(),
            input: None,
            instruction: instruction.to_owned(),
            n: None,
            temperature: None,
            top_p: None,
        }
    }

    /// The text to edit.
    pub fn set_input(self, input: &str) -> (r: Self)
        ensures
            r.deep_view() == (EditRequestView { input: Some(input@), ..self.deep_view() }),
    {
        let mut request = self;
        request.input = Some(input.to_owned());
        request
    }

    pub fn set_n(self, n: u16) -> (r: Self)
        ensures
            r.deep_view() == (EditRequestView { n: Some(n), ..self.deep_view() }),
    {
        let mut request = self;
        request.n = Some(n);
        request
    }

    pub fn set_temperature(self, temperature: JsonNumber) -> (r: Self)
        ensures
            r.deep_view() == (EditRequestView {
                temperature: Some(temperature),
                ..self.deep_view()
            }),
    {
        let mut request = self;
        request.temperature = Some(temperature);
        request
    }

    pub fn set_top_p(self, top_p: JsonNumber) -> (r: Self)
        ensures
            r.deep_view() == (EditRequestView { top_p: Some(top_p), ..self.deep_view() }),
    {
        let mut request = self;
        request.top_p = Some(top_p);
        request
    }

    /// The JSON form has one member for each field that is set, under the name that
    /// the service knows the field by, and no other member. None of them is `null`:
    /// a field that is not set is left out.
    pub proof fn lemma_wire_form(v: EditRequestView)
        ensures
            EditRequest::encoded(v) is Object,
            ({
                let m = EditRequest::encoded(v)->Object_0;
                &&& member(m, "model"@) == Some(String::encoded(v.model))
                &&& member(m, "input"@) == present::<String>(v.input)
                &&& member(m, "instruction"@) == Some(String::encoded(v.instruction))
                &&& member(m, "n"@) == present::<u16>(v.n)
                &&& member(m, "temperature"@) == present::<JsonNumber>(v.temperature)
                &&& member(m, "top_p"@) == present::<JsonNumber>(v.top_p)
                &&& forall|k: Seq<char>|
                    k != "model"@ && k != "input"@ && k != "instruction"@ && k != "n"@
                    && k != "temperature"@ && k != "top_p"@ ==> member(m, k) is None
                &&& forall|k: Seq<char>| member(m, k) != Some(JsonView::Null)
            }),
    {
        EditRequest::lemma_names_differ();
        let m = EditRequest::encoded(v)->Object_0;
        assert(member(m, "model"@) == Some(String::encoded(v.model))) by {
            broadcast use group_members;
        }
        assert(member(m, "input"@) == present::<String>(v.input)) by {
            broadcast use group_members;
        }
        assert(member(m, "instruction"@) == Some(String::encoded(v.instruction))) by {
            broadcast use group_members;
        }
        assert(member(m, "n"@) == present::<u16>(v.n)) by {
            broadcast use group_members;
        }
        assert(member(m, "temperature"@) == present::<JsonNumber>(v.temperature)) by {
            broadcast use group_members;
        }
        assert(member(m, "top_p"@) == present::<JsonNumber>(v.top_p)) by {
            broadcast use group_members;
        }
        assert forall|k: Seq<char>|
            k != "model"@ && k != "input"@ && k != "instruction"@ && k != "n"@
            && k != "temperature"@ && k != "top_p"@ implies member(m, k) is None by {
            broadcast use group_members;
        }
    }
}

impl ApiRequest for EditRequest {
    type Response = EditResponse;

    open spec fn method(&self) -> Method {
        Method::Post
    }

    open spec fn path(&self) -> Seq<char> {
        "/edits"@
    }

    open spec fn body(&self) -> BodyView {
        BodyView::Json(json_text(EditRequest::encoded(self.deep_view())))
    }

    fn request(&self, client: &OpenAiClient) -> (r: HttpRequest) {
        let doc = self.to_json();
        HttpRequest::post_json(client, "/edits", &doc)
    }
}

/// One edited text.
#[derive(Clone, Debug, PartialEq)]
pub struct EditChoice {
    pub text: String,
    pub index: i64,
}

/// The model of [`EditChoice`].
pub struct EditChoiceView {
    pub text: Seq<char>,
    pub index: i64,
}

impl DeepView for EditChoice {
    type V = EditChoiceView;

    open spec fn deep_view(&self) -> EditChoiceView {
        EditChoiceView {
            text: self.text@,
            index: self.index,
        }
    }
}

impl JsonCodec for EditChoice {
    open spec fn encoded(v: EditChoiceView) -> JsonView {
        let m = Seq::empty();
        let m = with::<String>(m, "text"@, v.text);
        let m = with::<i64>(m, "index"@, v.index);
        JsonView::Object(m)
    }

    open spec fn decoded(doc: JsonView) -> Option<EditChoiceView> {
        match doc {
            JsonView::Object(m) => {
                let text = required::<String>(m, "text"@);
                let index = required::<i64>(m, "index"@);
                if text is Some && index is Some {
                    Some(
                        EditChoiceView {
                            text: text->0,
                            index: index->0,
                        },
                    )
                } else {
                    None
                }
            },
            _ => None,
        }
    }

    fn to_json(&self) -> (doc: Json) {
        let mut m: Vec<(String, Json)> = Vec::new();
        proof {
            lemma_members_empty(m);
        }
        put(&mut m, "text", &self.text);
        put(&mut m, "index", &self.index);
        proof {
            lemma_object_view(m);
        }
        Json::Object(m)
    }

    fn from_json(doc: &Json) -> (r: Option<EditChoice>) {
        match doc {
            Json::Object(m) => {
                proof {
                    lemma_object_view(*m);
                }
                let text = match get_required::<String>(m, "text") {
                    Some(v) => v,
                    None => return None,
                };
                let index = match get_required::<i64>(m, "index") {
                    Some(v) => v,
                    None => return None,
                };
                Some(EditChoice { text, index })
            },
            _ => None,
        }
    }

    proof fn lemma_round_trip(v: EditChoiceView) {
        broadcast use group_members;

        EditChoice::lemma_names_differ();
        String::lemma_round_trip(v.text);
        i64::lemma_round_trip(v.index);
    }
}

impl EditChoice {
    /// No two members of the JSON form have the same name.
    proof fn lemma_names_differ()
        ensures
            "text"@ != "index"@,
    {
        reveal_strlit("text");
        reveal_strlit("index");
        assert("text"@.len() == 4);
        assert("index"@.len() == 5);
    }
}

/// What the service answers to an [`EditRequest`].
#[derive(Clone, Debug, PartialEq)]
pub struct EditResponse {
    pub object: String,
    pub created: i64,
    pub choices: Vec<EditChoice>,
    pub usage: Usage,
}

/// The model of [`EditResponse`].
pub struct EditResponseView {
    pub object: Seq<char>,
    pub created: i64,
    pub choices: Seq<EditChoiceView>,
    pub usage: UsageView,
}

impl DeepView for EditResponse {
    type V = EditResponseView;

    open spec fn deep_view(&self) -> EditResponseView {
        EditResponseView {
            object: self.object@,
            created: self.created,
            choices: self.choices.deep_view(),
            usage: self.usage.deep_view(),
        }
    }
}

impl JsonCodec for EditResponse {
    open spec fn encoded(v: EditResponseView) -> JsonView {
        let m = Seq::empty();
        let m = with::<String>(m, "object"@, v.object);
        let m = with::<i64>(m, "created"@, v.created);
        let m = with::<Vec<EditChoice>>(m, "choices"@, v.choices);
        let m = with::<Usage>(m, "usage"@, v.usage);
        JsonView::Object(m)
    }

    open spec fn decoded(doc: JsonView) -> Option<EditResponseView> {
        match doc {
            JsonView::Object(m) => {
                let object = required::<String>(m, "object"@);
                let created = required::<i64>(m, "created"@);
                let choices = required::<Vec<EditChoice>>(m, "choices"@);
                let usage = required::<Usage>(m, "usage"@);
                if object is Some && created is Some && choices is Some && usage is Some {
                    Some(
                        EditResponseView {
                            object: object->0,
                            created: created->0,
                            choices: choices->0,
                            usage: usage->0,
                        },
                    )
                } else {
                    None
                }
            },
            _ => None,
        }
    }

    fn to_json(&self) -> (doc: Json) {
        let mut m: Vec<(String, Json)> = Vec::new();
        proof {
            lemma_members_empty(m);
        }
        put(&mut m, "object", &self.object);
        put(&mut m, "created", &self.created);
        put(&mut m, "choices", &self.choices);
        put(&mut m, "usage", &self.usage);
        proof {
            lemma_object_view(m);
        }
        Json::Object(m)
    }

    fn from_json(doc: &Json) -> (r: Option<EditResponse>) {
        match doc {
            Json::Object(m) => {
                proof {
                    lemma_object_view(*m);
                }
                let object = match get_required::<String>(m, "object") {
                    Some(v) => v,
                    None => return None,
                };
                let created = match get_required::<i64>(m, "created") {
                    Some(v) => v,
                    None => return None,
                };
                let choices = match get_required::<Vec<EditChoice>>(m, "choices") {
                    Some(v) => v,
                    None => return None,
                };
                let usage = match get_required::<Usage>(m, "usage") {
                    Some(v) => v,
                    None => return None,
                };
                Some(EditResponse { object, created, choices, usage })
            },
            _ => None,
        }
    }

    proof fn lemma_round_trip(v: EditResponseView) {
        broadcast use group_members;

        EditResponse::lemma_names_differ();
        String::lemma_round_trip(v.object);
        i64::lemma_round_trip(v.created);
        Vec::<EditChoice>::lemma_round_trip(v.choices);
        Usage::lemma_round_trip(v.usage);
    }
}

impl EditResponse {
    /// No two members of the JSON form have the same name.
    proof fn lemma_names_differ()
        ensures
            "object"@ != "created"@,
            "object"@ != "choices"@,
            "object"@ != "usage"@,
            "created"@ != "choices"@,
            "created"@ != "usage"@,
            "choices"@ != "usage"@,
    {
        reveal_strlit("object");
        reveal_strlit("created");
        reveal_strlit("choices");
        reveal_strlit("usage");
        assert("object"@.len() == 6);
        assert("created"@.len() == 7);
        assert("choices"@.len() == 7);
        assert("usage"@.len() == 5);
        assert("created"@[1] == 'r');
        assert("choices"@[1] == 'h');
    }
}

} // verus!
