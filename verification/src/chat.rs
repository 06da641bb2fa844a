//! The chat endpoint.

use crate::client::OpenAiClient;
use crate::codec::{
    get_optional, get_required, group_members, optional, present, put, put_some, required, with,
    with_some, JsonCodec,
};
use crate::common::{LogitBias, LogitBiasView, Usage, UsageView};
use crate::http::{ApiRequest, BodyView, HttpRequest, Method};
use crate::json::{
    json_text, lemma_members_empty, lemma_object_view, member, Json, JsonNumber, JsonView,
};
use crate::text::same_text;
use vstd::prelude::*;

verus! {

/// Who speaks in a message.
#[derive(Clone, Copy, Debug, PartialEq, Eq)]
pub enum Role {
    System,
    User,
    Assistant,
}

impl DeepView for Role {
    type V = Role;

    open spec fn deep_view(&self) -> Role {
        *self
    }
}

impl JsonCodec for Role {
    open spec fn encoded(v: Role) -> JsonView {
        JsonView::String(v.wire_name())
    }

    open spec fn decoded(doc: JsonView) -> Option<Role> {
        match doc {
            JsonView::String(s) => Role::named(s),
            _ => None,
        }
    }

    fn to_json(&self) -> (doc: Json) {
        Json::String(self.as_wire_name().to_owned())
    }

    fn from_json(doc: &Json) -> (r: Option<Role>) {
        match doc {
            Json::String(s) => Role::from_wire_name(s.as_str()),
            _ => None,
        }
    }

    proof fn lemma_round_trip(v: Role) {
        Role::lemma_named(v);
    }
}

impl Role {
    /// The name of the role on the wire.
    pub open spec fn wire_name(self) -> Seq<char> {
        match self {
            Role::System => "system"@,
            Role::User => "user"@,
            Role::Assistant => "assistant"@,
        }
    }

    pub fn as_wire_name(&self) -> (r: &'static str)
        ensures
            r@ == self.wire_name(),
    {
        match self {
            Role::System => "system",
            Role::User => "user",
            Role::Assistant => "assistant",
        }
    }

    /// The value of a name on the wire, if it is one.
    pub open spec fn named(s: Seq<char>) -> Option<Role> {
        if s == "system"@ {
            Some(Role::System)
        } else if s == "user"@ {
            Some(Role::User)
        } else if s == "assistant"@ {
            Some(Role::Assistant)
        } else {
            None
        }
    }

    pub fn from_wire_name(s: &str) -> (r: Option<Role>)
        ensures
            r == Role::named(s@),
    {
        if same_text(s, "system") {
            Some(Role::System)
        } else if same_text(s, "user") {
            Some(Role::User)
        } else if same_text(s, "assistant") {
            Some(Role::Assistant)
        } else {
            None
        }
    }

    /// Every value is found again by its name.
    pub proof fn lemma_named(v: Role)
        ensures
            Role::named(v.wire_name()) == Some(v),
    {
        reveal_strlit("system");
        reveal_strlit("user");
        reveal_strlit("assistant");
        assert("system"@.len() == 6);
        assert("user"@.len() == 4);
        assert("assistant"@.len() == 9);
    }
}

/// One message of a conversation.
#[derive(Clone, Debug, PartialEq)]
pub struct Message {
    pub role: Role,
    pub content: String,
}

/// The model of [`Message`].
pub struct MessageView {
    pub role: Role,
    pub content: Seq<char>,
}

impl DeepView for Message {
    type V = MessageView;

    open spec fn deep_view(&self) -> MessageView {
        MessageView {
            role: self.role,
            content: self.content@,
        }
    }
}

impl JsonCodec for Message {
    open spec fn encoded(v: MessageView) -> JsonView {
        let m = Seq::empty();
        let m = with::<Role>(m, "role"@, v.role);
        let m = with::<String>(m, "content"@, v.content);
        JsonView::Object(m)
    }

    open spec fn decoded(doc: JsonView) -> Option<MessageView> {
        match doc {
            JsonView::Object(m) => {
                let role = required::<Role>(m, "role"@);
                let content = required::<String>(m, "content"@);
                if role is Some && content is Some {
                    Some(
                        MessageView {
                            role: role->0,
                            content: content->0,
                        },
                    )
                } else {
                    None
                }
            },
            _ => None,
        }
    }

    fn to_json(&self) -> (doc: Json) {
        let mut m: Vec<(String, Json)> = Vec::new();
        proof {
            lemma_members_empty(m);
        }
        put(&mut m, "role", &self.role);
        put(&mut m, "content", &self.content);
        proof {
            lemma_object_view(m);
        }
        Json::Object(m)
    }

    fn from_json(doc: &Json) -> (r: Option<Message>) {
        match doc {
            Json::Object(m) => {
                proof {
                    lemma_object_view(*m);
                }
                let role = match get_required::<Role>(m, "role") {
                    Some(v) => v,
                    None => return None,
                };
                let content = match get_required::<String>(m, "content") {
                    Some(v) => v,
                    None => return None,
                };
                Some(Message { role, content })
            },
            _ => None,
        }
    }

    proof fn lemma_round_trip(v: MessageView) {
        broadcast use group_members;

        Message::lemma_names_differ();
        Role::lemma_round_trip(v.role);
        String::lemma_round_trip(v.content);
    }
}

impl Message {
    /// No two members of the JSON form have the same name.
    proof fn lemma_names_differ()
        ensures
            "role"@ != "content"@,
    {
        reveal_strlit("role");
        reveal_strlit("content");
        assert("role"@.len() == 4);
        assert("content"@.len() == 7);
    }
}

/// Where the service stops writing: at one text, or at any of several.
#[derive(Clone, Debug, PartialEq)]
pub enum StopSeq {
    String(String),
    Vec(Vec<String>),
}

/// The model of [`StopSeq`].
pub enum StopSeqView {
    String(Seq<char>),
    Vec(Seq<Seq<char>>),
}

impl DeepView for StopSeq {
    type V = StopSeqView;

    open spec fn deep_view(&self) -> StopSeqView {
        match self {
            StopSeq::String(s) => StopSeqView::String(s@),
            StopSeq::Vec(a) => StopSeqView::Vec(a.deep_view()),
        }
    }
}

impl JsonCodec for StopSeq {
    open spec fn encoded(v: StopSeqView) -> JsonView {
        match v {
            StopSeqView::String(s) => String::encoded(s),
            StopSeqView::Vec(a) => Vec::<String>::encoded(a),
        }
    }

    open spec fn decoded(doc: JsonView) -> Option<StopSeqView> {
        match String::decoded(doc) {
            Some(s) => Some(StopSeqView::String(s)),
            None => match Vec::<String>::decoded(doc) {
                Some(a) => Some(StopSeqView::Vec(a)),
                None => None,
            },
        }
    }

    fn to_json(&self) -> (doc: Json) {
        match self {
            StopSeq::String(s) => s.to_json(),
            StopSeq::Vec(a) => a.to_json(),
        }
    }

    fn from_json(doc: &Json) -> (r: Option<StopSeq>) {
        match String::from_json(doc) {
            Some(s) => Some(StopSeq::String(s)),
            None => match Vec::<String>::from_json(doc) {
                Some(a) => Some(StopSeq::Vec(a)),
                None => None,
            },
        }
    }

    proof fn lemma_round_trip(v: StopSeqView) {
        match v {
            StopSeqView::String(s) => String::lemma_round_trip(s),
            StopSeqView::Vec(a) => Vec::<String>::lemma_round_trip(a),
        }
    }
}

/// A conversation for the service to continue.
#[derive(Clone, Debug, PartialEq)]
pub struct ChatRequest {
    model: String,
    messages: Vec<Message>,
    temperature: Option<JsonNumber>,
    top_p: Option<JsonNumber>,
    n: Option<u16>,
    stream: Option<bool>,
    stop: Option<StopSeq>,
    max_tokens: Option<u64>,
    presence_penalty: Option<JsonNumber>,
    frequency_penalty: Option<JsonNumber>,
    logit_bias: Option<LogitBias>,
    user: Option<String>,
}

/// The model of [`ChatRequest`].
pub struct ChatRequestView {
    pub model: Seq<char>,
    pub messages: Seq<MessageView>,
    pub temperature: Option<JsonNumber>,
    pub top_p: Option<JsonNumber>,
    pub n: Option<u16>,
    pub stream: Option<bool>,
    pub stop: Option<StopSeqView>,
    pub max_tokens: Option<u64>,
    pub presence_penalty: Option<JsonNumber>,
    pub frequency_penalty: Option<JsonNumber>,
    pub logit_bias: Option<LogitBiasView>,
    pub user: Option<Seq<char>>,
}

impl DeepView for ChatRequest {
    type V = ChatRequestView;

    closed spec fn deep_view(&self) -> ChatRequestView {
        ChatRequestView {
            model: self.model@,
            messages: self.messages.deep_view(),
            temperature: self.temperature,
            top_p: self.top_p,
            n: self.n,
            stream: self.stream,
            stop: self.stop.deep_view(),
            max_tokens: self.max_tokens,
            presence_penalty: self.presence_penalty,
            frequency_penalty: self.frequency_penalty,
            logit_bias: self.logit_bias.deep_view(),
            user: self.user.deep_view(),
        }
    }
}

impl JsonCodec for ChatRequest {
    open spec fn encoded(v: ChatRequestView) -> JsonView {
        let m = Seq::empty();
        let m = with::<String>(m, "model"@, v.model);
        let m = with::<Vec<Message>>(m, "messages"@, v.messages);
        let m = with_some::<JsonNumber>(m, "temperature"@, v.temperature);
        let m = with_some::<JsonNumber>(m, "top_p"@, v.top_p);
        let m = with_some::<u16>(m, "n"@, v.n);
        let m = with_some::<bool>(m, "stream"@, v.stream);
        let m = with_some::<StopSeq>(m, "stop"@, v.stop);
        let m = with_some::<u64>(m, "max_tokens"@, v.max_tokens);
        let m = with_some::<JsonNumber>(m, "presence_penalty"@, v.presence_penalty);
        let m = with_some::<JsonNumber>(m, "frequency_penalty"@, v.frequency_penalty);
        let m = with_some::<LogitBias>(m, "logit_bias"@, v.logit_bias);
        let m = with_some::<String>(m, "user"@, v.user);
        JsonView::Object(m)
    }

    open spec fn decoded(doc: JsonView) -> Option<ChatRequestView> {
        match doc {
            JsonView::Object(m) => {
                let model = required::<String>(m, "model"@);
                let messages = required::<Vec<Message>>(m, "messages"@);
                let temperature = optional::<JsonNumber>(m, "temperature"@);
                let top_p = optional::<JsonNumber>(m, "top_p"@);
                let n = optional::<u16>(m, "n"@);
                let stream = optional::<bool>(m, "stream"@);
                let stop = optional::<StopSeq>(m, "stop"@);
                let max_tokens = optional::<u64>(m, "max_tokens"@);
                let presence_penalty = optional::<JsonNumber>(m, "presence_penalty"@);
                let frequency_penalty = optional::<JsonNumber>(m, "frequency_penalty"@);
                let logit_bias = optional::<LogitBias>(m, "logit_bias"@);
                let user = optional::<String>(m, "user"@);
                if model is Some
                    && messages is Some
                    && temperature is Some
                    && top_p is Some
                    && n is Some
                    && stream is Some
                    && stop is Some
                    && max_tokens is Some
                    && presence_penalty is Some
                    && frequency_penalty is Some
                    && logit_bias is Some
                    && user is Some {
                    Some(
                        ChatRequestView {
                            model: model->0,
                            messages: messages->0,
                            temperature: temperature->0,
                            top_p: top_p->0,
                            n: n->0,
                            stream: stream->0,
                            stop: stop->0,
                            max_tokens: max_tokens->0,
                            presence_penalty: presence_penalty->0,
                            frequency_penalty: frequency_penalty->0,
                            logit_bias: logit_bias->0,
                            user: user->0,
                        },
                    )
                } else {
                    None
                }
            },
            _ => None,
        }
    }

    fn to_json(&self) -> (doc: Json) {
        let mut m: Vec<(String, Json)> = Vec::new();
        proof {
            lemma_members_empty(m);
        }
        put(&mut m, "model", &self.model);
        put(&mut m, "messages", &self.messages);
        put_some(&mut m, "temperature", &self.temperature);
        put_some(&mut m, "top_p", &self.top_p);
        put_some(&mut m, "n", &self.n);
        put_some(&mut m, "stream", &self.stream);
        put_some(&mut m, "stop", &self.stop);
        put_some(&mut m, "max_tokens", &self.max_tokens);
        put_some(&mut m, "presence_penalty", &self.presence_penalty);
        put_some(&mut m, "frequency_penalty", &self.frequency_penalty);
        put_some(&mut m, "logit_bias", &self.logit_bias);
        put_some(&mut m, "user", &self.user);
        proof {
            lemma_object_view(m);
        }
        Json::Object(m)
    }

    fn from_json(doc: &Json) -> (r: Option<ChatRequest>) {
        match doc {
            Json::Object(m) => {
                proof {
                    lemma_object_view(*m);
                }
                let model = match get_required::<String>(m, "model") {
                    Some(v) => v,
                    None => return None,
                };
                let messages = match get_required::<Vec<Message>>(m, "messages") {
                    Some(v) => v,
                    None => return None,
                };
                let temperature = match get_optional::<JsonNumber>(m, "temperature") {
                    Some(v) => v,
                    None => return None,
                };
                let top_p = match get_optional::<JsonNumber>(m, "top_p") {
                    Some(v) => v,
                    None => return None,
                };
                let n = match get_optional::<u16>(m, "n") {
                    Some(v) => v,
                    None => return None,
                };
                let stream = match get_optional::<bool>(m, "stream") {
                    Some(v) => v,
                    None => return None,
                };
                let stop = match get_optional::<StopSeq>(m, "stop") {
                    Some(v) => v,
                    None => return None,
                };
                let max_tokens = match get_optional::<u64>(m, "max_tokens") {
                    Some(v) => v,
                    None => return None,
                };
                let presence_penalty = match get_optional::<JsonNumber>(m, "presence_penalty") {
                    Some(v) => v,
                    None => return None,
                };
                let frequency_penalty = match get_optional::<JsonNumber>(m, "frequency_penalty") {
                    Some(v) => v,
                    None => return None,
                };
                let logit_bias = match get_optional::<LogitBias>(m, "logit_bias") {
                    Some(v) => v,
                    None => return None,
                };
                let user = match get_optional::<String>(m, "user") {
                    Some(v) => v,
                    None => return None,
                };
                Some(
                    ChatRequest {
                        model,
                        messages,
                        temperature,
                        top_p,
                        n,
                        stream,
                        stop,
                        max_tokens,
                        presence_penalty,
                        frequency_penalty,
                        logit_bias,
                        user,
                    },
                )
            },
            _ => None,
        }
    }

    proof fn lemma_round_trip(v: ChatRequestView) {
        ChatRequest::lemma_names_differ();
        let m = ChatRequest::encoded(v)->Object_0;
        assert(required::<String>(m, "model"@) == Some(v.model)) by {
            broadcast use group_members;

            String::lemma_round_trip(v.model);
        }
        assert(required::<Vec<Message>>(m, "messages"@) == Some(v.messages)) by {
            broadcast use group_members;

            Vec::<Message>::lemma_round_trip(v.messages);
        }
        assert(optional::<JsonNumber>(m, "temperature"@) == Some(v.temperature)) by {
            broadcast use group_members;

            if v.temperature is Some {
                JsonNumber::lemma_round_trip(v.temperature->0);
            }
        }
        assert(optional::<JsonNumber>(m, "top_p"@) == Some(v.top_p)) by {
            broadcast use group_members;

            if v.top_p is Some {
                JsonNumber::lemma_round_trip(v.top_p->0);
            }
        }
        assert(optional::<u16>(m, "n"@) == Some(v.n)) by {
            broadcast use group_members;

            if v.n is Some {
                u16::lemma_round_trip(v.n->0);
            }
        }
        assert(optional::<bool>(m, "stream"@) == Some(v.stream)) by {
            broadcast use group_members;

            if v.stream is Some {
                bool::lemma_round_trip(v.stream->0);
            }
        }
        assert(optional::<StopSeq>(m, "stop"@) == Some(v.stop)) by {
            broadcast use group_members;

            if v.stop is Some {
                StopSeq::lemma_round_trip(v.stop->0);
            }
        }
        assert(optional::<u64>(m, "max_tokens"@) == Some(v.max_tokens)) by {
            broadcast use group_members;

            if v.max_tokens is Some {
                u64::lemma_round_trip(v.max_tokens->0);
            }
        }
        assert(optional::<JsonNumber>(m, "presence_penalty"@) == Some(v.presence_penalty)) by {
            broadcast use group_members;

            if v.presence_penalty is Some {
                JsonNumber::lemma_round_trip(v.presence_penalty->0);
            }
        }
        assert(optional::<JsonNumber>(m, "frequency_penalty"@) == Some(v.frequency_penalty)) by {
            broadcast use group_members;

            if v.frequency_penalty is Some {
                JsonNumber::lemma_round_trip(v.frequency_penalty->0);
            }
        }
        assert(optional::<LogitBias>(m, "logit_bias"@) == Some(v.logit_bias)) by {
            broadcast use group_members;

            if v.logit_bias is Some {
                LogitBias::lemma_round_trip(v.logit_bias->0);
            }
        }
        assert(optional::<String>(m, "user"@) == Some(v.user)) by {
            broadcast use group_members;

            if v.user is Some {
                String::lemma_round_trip(v.user->0);
            }
        }
    }
}

impl ChatRequest {
    /// No two members of the JSON form have the same name.
    proof fn lemma_names_differ()
        ensures
            "model"@ != "messages"@,
            "model"@ != "temperature"@,
            "model"@ != "top_p"@,
            "model"@ != "n"@,
            "model"@ != "stream"@,
            "model"@ != "stop"@,
            "model"@ != "max_tokens"@,
            "model"@ != "presence_penalty"@,
            "model"@ != "frequency_penalty"@,
            "model"@ != "logit_bias"@,
            "model"@ != "user"@,
            "messages"@ != "temperature"@,
            "messages"@ != "top_p"@,
            "messages"@ != "n"@,
            "messages"@ != "stream"@,
            "messages"@ != "stop"@,
            "messages"@ != "max_tokens"@,
            "messages"@ != "presence_penalty"@,
            "messages"@ != "frequency_penalty"@,
            "messages"@ != "logit_bias"@,
            "messages"@ != "user"@,
            "temperature"@ != "top_p"@,
            "temperature"@ != "n"@,
            "temperature"@ != "stream"@,
            "temperature"@ != "stop"@,
            "temperature"@ != "max_tokens"@,
            "temperature"@ != "presence_penalty"@,
            "temperature"@ != "frequency_penalty"@,
            "temperature"@ != "logit_bias"@,
            "temperature"@ != "user"@,
            "top_p"@ != "n"@,
            "top_p"@ != "stream"@,
            "top_p"@ != "stop"@,
            "top_p"@ != "max_tokens"@,
            "top_p"@ != "presence_penalty"@,
            "top_p"@ != "frequency_penalty"@,
            "top_p"@ != "logit_bias"@,
            "top_p"@ != "user"@,
            "n"@ != "stream"@,
            "n"@ != "stop"@,
            "n"@ != "max_tokens"@,
            "n"@ != "presence_penalty"@,
            "n"@ != "frequency_penalty"@,
            "n"@ != "logit_bias"@,
            "n"@ != "user"@,
            "stream"@ != "stop"@,
            "stream"@ != "max_tokens"@,
            "stream"@ != "presence_penalty"@,
            "stream"@ != "frequency_penalty"@,
            "stream"@ != "logit_bias"@,
            "stream"@ != "user"@,
            "stop"@ != "max_tokens"@,
            "stop"@ != "presence_penalty"@,
            "stop"@ != "frequency_penalty"@,
            "stop"@ != "logit_bias"@,
            "stop"@ != "user"@,
            "max_tokens"@ != "presence_penalty"@,
            "max_tokens"@ != "frequency_penalty"@,
            "max_tokens"@ != "logit_bias"@,
            "max_tokens"@ != "user"@,
            "presence_penalty"@ != "frequency_penalty"@,
            "presence_penalty"@ != "logit_bias"@,
            "presence_penalty"@ != "user"@,
            "frequency_penalty"@ != "logit_bias"@,
            "frequency_penalty"@ != "user"@,
            "logit_bias"@ != "user"@,
    {
        reveal_strlit("model");
        reveal_strlit("messages");
        reveal_strlit("temperature");
        reveal_strlit("top_p");
        reveal_strlit("n");
        reveal_strlit("stream");
        reveal_strlit("stop");
        reveal_strlit("max_tokens");
        reveal_strlit("presence_penalty");
        reveal_strlit("frequency_penalty");
        reveal_strlit("logit_bias");
        reveal_strlit("user");
        assert("model"@.len() == 5);
        assert("messages"@.len() == 8);
        assert("temperature"@.len() == 11);
        assert("top_p"@.len() == 5);
        assert("n"@.len() == 1);
        assert("stream"@.len() == 6);
        assert("stop"@.len() == 4);
        assert("max_tokens"@.len() == 10);
        assert("presence_penalty"@.len() == 16);
        assert("frequency_penalty"@.len() == 17);
        assert("logit_bias"@.len() == 10);
        assert("user"@.len() == 4);
        assert("model"@[0] == 'm');
        assert("top_p"@[0] == 't');
        assert("stop"@[0] == 's');
        assert("user"@[0] == 'u');
        assert("max_tokens"@[0] == 'm');
        assert("logit_bias"@[0] == 'l');
    }
}

impl ChatRequest {
    /// The model that a request asks for where none is named.
    pub open spec fn default_model() -> Seq<char> {
        "gpt-3.5-turbo"@
    }

    /// A request for the default model.
    pub fn new(messages: Vec<Message>) -> (r: Self)
        ensures
            r.deep_view() == (ChatRequestView {
                model: ChatRequest::default_model(),
                messages: messages.deep_view(),
                temperature: None,
                top_p: None,
                n: None,
                stream: None,
                stop: None,
                max_tokens: None,
                presence_penalty: None,
                frequency_penalty: None,
                logit_bias: None,
                user: None,
            }),
    {
        ChatRequest {
            model: "gpt-3.5-turbo".to_owned(),
            messages,
            temperature: None,
            top_p: None,
            n: None,
            stream: None,
            stop: None,
            max_tokens: None,
            presence_penalty: None,
            frequency_penalty: None,
            logit_bias: None,
            user: None,
        }
    }

    pub fn with_model_and_messages(model: &str, messages: Vec<Message>) -> (r: Self)
        ensures
            r.deep_view() == (ChatRequestView {
                model: model@,
                messages: messages.deep_view(),
                temperature: None,
                top_p: None,
                n: None,
                stream: None,
                stop: None,
                max_tokens: None,
                presence_penalty: None,
                frequency_penalty: None,
                logit_bias: None,
                user: None,
            }),
    {
        ChatRequest {
            model: model.to_owned(),
            messages,
            temperature: None,
            top_p: None,
            n: None,
            stream: None,
            stop: None,
            max_tokens: None,
            presence_penalty: None,
            frequency_penalty: None,
            logit_bias: None,
            user: None,
        }
    }

    /// Appends a message to the conversation.
    pub fn add_message(self, message: Message) -> (r: Self)
        ensures
            r.deep_view() == (ChatRequestView {
                messages: self.deep_view().messages.push(message.deep_view()),
                ..self.deep_view()
            }),
    {
        let mut request = self;
        request.messages.push(message);
        assert(request.messages.deep_view() =~= self.messages.deep_view().push(
            message.deep_view(),
        ));
        request
    }

    pub fn model(self, model: String) -> (r: Self)
        ensures
            r.deep_view() == (ChatRequestView { model: model@, ..self.deep_view() }),
    {
        let mut request = self;
        request.model = model;
        request
    }

    /// Sets the sampling temperature and clears `top_p`: the service takes
    /// one of the two. The service accepts 0 to 2, and an integer outside
    /// of that is set to the nearer bound.
    pub fn temperature(self, temperature: JsonNumber) -> (r: Self)
        ensures
            r.deep_view() == (ChatRequestView {
                temperature: Some(temperature.clamped(0, 2)),
                top_p: None,
                ..self.deep_view()
            }),
    {
        let mut request = self;
        request.top_p = None;
        request.temperature = Some(temperature.clamp(0, 2));
        request
    }

    /// Sets the share of the probability mass to sample from and clears
    /// `temperature`: the service takes one of the two. The service accepts
    /// 0 to 1, and an integer outside of that is set to the nearer bound.
    pub fn top_p(self, top_p: JsonNumber) -> (r: Self)
        ensures
            r.deep_view() == (ChatRequestView {
                top_p: Some(top_p.clamped(0, 1)),
                temperature: None,
                ..self.deep_view()
            }),
    {
        let mut request = self;
        request.temperature = None;
        request.top_p = Some(top_p.clamp(0, 1));
        request
    }

    /// How many answers to write.
    pub fn n(self, n: u16) -> (r: Self)
        ensures
            r.deep_view() == (ChatRequestView { n: Some(n), ..self.deep_view() }),
    {
        let mut request = self;
        request.n = Some(n);
        request
    }

    pub fn stream(self, stream: bool) -> (r: Self)
        ensures
            r.deep_view() == (ChatRequestView { stream: Some(stream), ..self.deep_view() }),
    {
        let mut request = self;
        request.stream = Some(stream);
        request
    }

    pub fn stop(self, stop: StopSeq) -> (r: Self)
        ensures
            r.deep_view() == (ChatRequestView { stop: Some(stop.deep_view()), ..self.deep_view() }),
    {
        let mut request = self;
        request.stop = Some(stop);
        request
    }

    pub fn max_tokens(self, max_tokens: u64) -> (r: Self)
        ensures
            r.deep_view() == (ChatRequestView { max_tokens: Some(max_tokens), ..self.deep_view() }),
    {
        let mut request = self;
        request.max_tokens = Some(max_tokens);
        request
    }

    /// The service accepts -2 to 2, and an integer outside of that is set to the
    /// nearer bound.
    pub fn presence_penalty(self, presence_penalty: JsonNumber) -> (r: Self)
        ensures
            r.deep_view() == (ChatRequestView {
                presence_penalty: Some(presence_penalty.clamped(-2, 2)),
                ..self.deep_view()
            }),
    {
        let mut request = self;
        request.presence_penalty = Some(presence_penalty.clamp(-2, 2));
        request
    }

    /// The service accepts -2 to 2, and an integer outside of that is set to the
    /// nearer bound.
    pub fn frequency_penalty(self, frequency_penalty: JsonNumber) -> (r: Self)
        ensures
            r.deep_view() == (ChatRequestView {
                frequency_penalty: Some(frequency_penalty.clamped(-2, 2)),
                ..self.deep_view()
            }),
    {
        let mut request = self;
        request.frequency_penalty = Some(frequency_penalty.clamp(-2, 2));
        request
    }

    pub fn logit_bias(self, logit_bias: LogitBias) -> (r: Self)
        ensures
            r.deep_view() == (ChatRequestView {
                logit_bias: Some(logit_bias.deep_view()),
                ..self.deep_view()
            }),
    {
        let mut request = self;
        request.logit_bias = Some(logit_bias);
        request
    }

    pub fn user(self, user: String) -> (r: Self)
        ensures
            r.deep_view() == (ChatRequestView { user: Some(user@), ..self.deep_view() }),
    {
        let mut request = self;
        request.user = Some(user);
        request
    }

    /// The JSON form has one member for each field that is set, under the name that
    /// the service knows the field by, and no other member. None of them is `null`:
    /// a field that is not set is left out.
    pub proof fn lemma_wire_form(v: ChatRequestView)
        ensures
            ChatRequest::encoded(v) is Object,
            ({
                let m = ChatRequest::encoded(v)->Object_0;
                &&& member(m, "model"@) == Some(String::encoded(v.model))
                &&& member(m, "messages"@) == Some(Vec::<Message>::encoded(v.messages))
                &&& member(m, "temperature"@) == present::<JsonNumber>(v.temperature)
                &&& member(m, "top_p"@) == present::<JsonNumber>(v.top_p)
                &&& member(m, "n"@) == present::<u16>(v.n)
                &&& member(m, "stream"@) == present::<bool>(v.stream)
                &&& member(m, "stop"@) == present::<StopSeq>(v.stop)
                &&& member(m, "max_tokens"@) == present::<u64>(v.max_tokens)
                &&& member(m, "presence_penalty"@) == present::<JsonNumber>(v.presence_penalty)
                &&& member(m, "frequency_penalty"@) == present::<JsonNumber>(v.frequency_penalty)
                &&& member(m, "logit_bias"@) == present::<LogitBias>(v.logit_bias)
                &&& member(m, "user"@) == present::<String>(v.user)
                &&& forall|k: Seq<char>|
                    k != "model"@ && k != "messages"@ && k != "temperature"@ && k != "top_p"@
                    && k != "n"@ && k != "stream"@ && k != "stop"@ && k != "max_tokens"@
                    && k != "presence_penalty"@ && k != "frequency_penalty"@ && k != "logit_bias"@
                    && k != "user"@ ==> member(m, k) is None
                &&& forall|k: Seq<char>| member(m, k) != Some(JsonView::Null)
            }),
    {
        ChatRequest::lemma_names_differ();
        let m = ChatRequest::encoded(v)->Object_0;
        assert(member(m, "model"@) == Some(String::encoded(v.model))) by {
            broadcast use group_members;
        }
        assert(member(m, "messages"@) == Some(Vec::<Message>::encoded(v.messages))) by {
            broadcast use group_members;
        }
        assert(member(m, "temperature"@) == present::<JsonNumber>(v.temperature)) by {
            broadcast use group_members;
        }
        assert(member(m, "top_p"@) == present::<JsonNumber>(v.top_p)) by {
            broadcast use group_members;
        }
        assert(member(m, "n"@) == present::<u16>(v.n)) by {
            broadcast use group_members;
        }
        assert(member(m, "stream"@) == present::<bool>(v.stream)) by {
            broadcast use group_members;
        }
        assert(member(m, "stop"@) == present::<StopSeq>(v.stop)) by {
            broadcast use group_members;
        }
        assert(member(m, "max_tokens"@) == present::<u64>(v.max_tokens)) by {
            broadcast use group_members;
        }
        assert(member(m, "presence_penalty"@) == present::<JsonNumber>(v.presence_penalty)) by {
            broadcast use group_members;
        }
        assert(member(m, "frequency_penalty"@) == present::<JsonNumber>(v.frequency_penalty)) by {
            broadcast use group_members;
        }
        assert(member(m, "logit_bias"@) == present::<LogitBias>(v.logit_bias)) by {
            broadcast use group_members;
        }
        assert(member(m, "user"@) == present::<String>(v.user)) by {
            broadcast use group_members;
        }
        assert forall|k: Seq<char>|
            k != "model"@ && k != "messages"@ && k != "temperature"@ && k != "top_p"@ && k != "n"@
            && k != "stream"@ && k != "stop"@ && k != "max_tokens"@ && k != "presence_penalty"@
            && k != "frequency_penalty"@ && k != "logit_bias"@ && k != "user"@
            implies member(m, k) is None by {
            broadcast use group_members;
        }
    }
}

impl ApiRequest for ChatRequest {
    type Response = ChatSuccess;

    open spec fn method(&self) -> Method {
        Method::Post
    }

    open spec fn path(&self) -> Seq<char> {
        "/chat/completions"@
    }

    open spec fn body(&self) -> BodyView {
        BodyView::Json(json_text(ChatRequest::encoded(self.deep_view())))
    }

    fn request(&self, client: &OpenAiClient) -> (r: HttpRequest) {
        let doc = self.to_json();
        HttpRequest::post_json(client, "/chat/completions", &doc)
    }
}

/// One answer of the service.
#[derive(Clone, Debug, PartialEq)]
pub struct ChatChoice {
    pub index: u16,
    pub message: Message,
    pub finish_reason: String,
}

/// The model of [`ChatChoice`].
pub struct ChatChoiceView {
    pub index: u16,
    pub message: MessageView,
    pub finish_reason: Seq<char>,
}

impl DeepView for ChatChoice {
    type V = ChatChoiceView;

    open spec fn deep_view(&self) -> ChatChoiceView {
        ChatChoiceView {
            index: self.index,
            message: self.message.deep_view(),
            finish_reason: self.finish_reason@,
        }
    }
}

impl JsonCodec for ChatChoice {
    open spec fn encoded(v: ChatChoiceView) -> JsonView {
        let m = Seq::empty();
        let m = with::<u16>(m, "index"@, v.index);
        let m = with::<Message>(m, "message"@, v.message);
        let m = with::<String>(m, "finish_reason"@, v.finish_reason);
        JsonView::Object(m)
    }

    open spec fn decoded(doc: JsonView) -> Option<ChatChoiceView> {
        match doc {
            JsonView::Object(m) => {
                let index = required::<u16>(m, "index"@);
                let message = required::<Message>(m, "message"@);
                let finish_reason = required::<String>(m, "finish_reason"@);
                if index is Some && message is Some && finish_reason is Some {
                    Some(
                        ChatChoiceView {
                            index: index->0,
                            message: message->0,
                            finish_reason: finish_reason->0,
                        },
                    )
                } else {
                    None
                }
            },
            _ => None,
        }
    }

    fn to_json(&self) -> (doc: Json) {
        let mut m: Vec<(String, Json)> = Vec::new();
        proof {
            lemma_members_empty(m);
        }
        put(&mut m, "index", &self.index);
        put(&mut m, "message", &self.message);
        put(&mut m, "finish_reason", &self.finish_reason);
        proof {
            lemma_object_view(m);
        }
        Json::Object(m)
    }

    fn from_json(doc: &Json) -> (r: Option<ChatChoice>) {
        match doc {
            Json::Object(m) => {
                proof {
                    lemma_object_view(*m);
                }
                let index = match get_required::<u16>(m, "index") {
                    Some(v) => v,
                    None => return None,
                };
                let message = match get_required::<Message>(m, "message") {
                    Some(v) => v,
                    None => return None,
                };
                let finish_reason = match get_required::<String>(m, "finish_reason") {
                    Some(v) => v,
                    None => return None,
                };
                Some(ChatChoice { index, message, finish_reason })
            },
            _ => None,
        }
    }

    proof fn lemma_round_trip(v: ChatChoiceView) {
        broadcast use group_members;

        ChatChoice::lemma_names_differ();
        u16::lemma_round_trip(v.index);
        Message::lemma_round_trip(v.message);
        String::lemma_round_trip(v.finish_reason);
    }
}

impl ChatChoice {
    /// No two members of the JSON form have the same name.
    proof fn lemma_names_differ()
        ensures
            "index"@ != "message"@,
            "index"@ != "finish_reason"@,
            "message"@ != "finish_reason"@,
    {
        reveal_strlit("index");
        reveal_strlit("message");
        reveal_strlit("finish_reason");
        assert("index"@.len() == 5);
        assert("message"@.len() == 7);
        assert("finish_reason"@.len() == 13);
    }
}

/// What the service answers to a [`ChatRequest`].
#[derive(Clone, Debug, PartialEq)]
pub struct ChatSuccess {
    pub id: String,
    pub object: String,
    pub created: u64,
    pub choices: Vec<ChatChoice>,
    pub usage: Usage,
}

/// The model of [`ChatSuccess`].
pub struct ChatSuccessView {
    pub id: Seq<char>,
    pub object: Seq<char>,
    pub created: u64,
    pub choices: Seq<ChatChoiceView>,
    pub usage: UsageView,
}

impl DeepView for ChatSuccess {
    type V = ChatSuccessView;

    open spec fn deep_view(&self) -> ChatSuccessView {
        ChatSuccessView {
            id: self.id@,
            object: self.object@,
            created: self.created,
            choices: self.choices.deep_view(),
            usage: self.usage.deep_view(),
        }
    }
}

impl JsonCodec for ChatSuccess {
    open spec fn encoded(v: ChatSuccessView) -> JsonView {
        let m = Seq::empty();
        let m = with::<String>(m, "id"@, v.id);
        let m = with::<String>(m, "object"@, v.object);
        let m = with::<u64>(m, "created"@, v.created);
        let m = with::<Vec<ChatChoice>>(m, "choices"@, v.choices);
        let m = with::<Usage>(m, "usage"@, v.usage);
        JsonView::Object(m)
    }

    open spec fn decoded(doc: JsonView) -> Option<ChatSuccessView> {
        match doc {
            JsonView::Object(m) => {
                let id = required::<String>(m, "id"@);
                let object = required::<String>(m, "object"@);
                let created = required::<u64>(m, "created"@);
                let choices = required::<Vec<ChatChoice>>(m, "choices"@);
                let usage = required::<Usage>(m, "usage"@);
                if id is Some
                    && object is Some
                    && created is Some
                    && choices is Some
                    && usage is Some {
                    Some(
                        ChatSuccessView {
                            id: id->0,
                            object: object->0,
                            created: created->0,
                            choices: choices->0,
                            usage: usage->0,
                        },
                    )
                } else {
                    None
                }
            },
            _ => None,
        }
    }

    fn to_json(&self) -> (doc: Json) {
        let mut m: Vec<(String, Json)> = Vec::new();
        proof {
            lemma_members_empty(m);
        }
        put(&mut m, "id", &self.id);
        put(&mut m, "object", &self.object);
        put(&mut m, "created", &self.created);
        put(&mut m, "choices", &self.choices);
        put(&mut m, "usage", &self.usage);
        proof {
            lemma_object_view(m);
        }
        Json::Object(m)
    }

    fn from_json(doc: &Json) -> (r: Option<ChatSuccess>) {
        match doc {
            Json::Object(m) => {
                proof {
                    lemma_object_view(*m);
                }
                let id = match get_required::<String>(m, "id") {
                    Some(v) => v,
                    None => return None,
                };
                let object = match get_required::<String>(m, "object") {
                    Some(v) => v,
                    None => return None,
                };
                let created = match get_required::<u64>(m, "created") {
                    Some(v) => v,
                    None => return None,
                };
                let choices = match get_required::<Vec<ChatChoice>>(m, "choices") {
                    Some(v) => v,
                    None => return None,
                };
                let usage = match get_required::<Usage>(m, "usage") {
                    Some(v) => v,
                    None => return None,
                };
                Some(ChatSuccess { id, object, created, choices, usage })
            },
            _ => None,
        }
    }

    proof fn lemma_round_trip(v: ChatSuccessView) {
        ChatSuccess::lemma_names_differ();
        let m = ChatSuccess::encoded(v)->Object_0;
        assert(required::<String>(m, "id"@) == Some(v.id)) by {
            broadcast use group_members;

            String::lemma_round_trip(v.id);
        }
        assert(required::<String>(m, "object"@) == Some(v.object)) by {
            broadcast use group_members;

            String::lemma_round_trip(v.object);
        }
        assert(required::<u64>(m, "created"@) == Some(v.created)) by {
            broadcast use group_members;

            u64::lemma_round_trip(v.created);
        }
        assert(required::<Vec<ChatChoice>>(m, "choices"@) == Some(v.choices)) by {
            broadcast use group_members;

            Vec::<ChatChoice>::lemma_round_trip(v.choices);
        }
        assert(required::<Usage>(m, "usage"@) == Some(v.usage)) by {
            broadcast use group_members;

            Usage::lemma_round_trip(v.usage);
        }
    }
}

impl ChatSuccess {
    /// No two members of the JSON form have the same name.
    proof fn lemma_names_differ()
        ensures
            "id"@ != "object"@,
            "id"@ != "created"@,
            "id"@ != "choices"@,
            "id"@ != "usage"@,
            "object"@ != "created"@,
            "object"@ != "choices"@,
            "object"@ != "usage"@,
            "created"@ != "choices"@,
            "created"@ != "usage"@,
            "choices"@ != "usage"@,
    {
        reveal_strlit("id");
        reveal_strlit("object");
        reveal_strlit("created");
        reveal_strlit("choices");
        reveal_strlit("usage");
        assert("id"@.len() == 2);
        assert("object"@.len() == 6);
        assert("created"@.len() == 7);
        assert("choices"@.len() == 7);
        assert("usage"@.len() == 5);
        assert("created"@[1] == 'r');
        assert("choices"@[1] == 'h');
    }
}

} // verus!
