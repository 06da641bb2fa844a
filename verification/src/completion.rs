//! The completion endpoint.

use crate::client::OpenAiClient;
use crate::codec::{
    get_optional, get_required, group_members, optional, present, put, put_nullable, put_some,
    required, with, with_nullable, with_some, JsonCodec,
};
use crate::common::{Input, InputView, LogitBias, LogitBiasView, Usage, UsageView};
use crate::http::{ApiRequest, BodyView, HttpRequest, Method};
use crate::json::{
    json_text, lemma_members_empty, lemma_object_view, member, Json, JsonNumber, JsonView,
};
use vstd::prelude::*;

verus! {

/// A text for the service to go on with.
#[derive(Clone, Debug, PartialEq)]
pub struct CompletionRequest {
    model: String,
    prompt: Input,
    suffix: Option<String>,
    max_tokens: Option<u32>,
    temperature: Option<JsonNumber>,
    top_p: Option<JsonNumber>,
    n: Option<u16>,
    stream: Option<bool>,
    logprobs: Option<u32>,
    echo: Option<bool>,
    stop: Option<Vec<String>>,
    presence_penalty: Option<JsonNumber>,
    frequency_penalty: Option<JsonNumber>,
    best_of: Option<u16>,
    logit_bias: Option<LogitBias>,
    user: Option<String>,
}

/// The model of [`CompletionRequest`].
pub struct CompletionRequestView {
    pub model: Seq<char>,
    pub prompt: InputView,
    pub suffix: Option<Seq<char>>,
    pub max_tokens: Option<u32>,
    pub temperature: Option<JsonNumber>,
    pub top_p: Option<JsonNumber>,
    pub n: Option<u16>,
    pub stream: Option<bool>,
    pub logprobs: Option<u32>,
    pub echo: Option<bool>,
    pub stop: Option<Seq<Seq<char>>>,
    pub presence_penalty: Option<JsonNumber>,
    pub frequency_penalty: Option<JsonNumber>,
    pub best_of: Option<u16>,
    pub logit_bias: Option<LogitBiasView>,
    pub user: Option<Seq<char>>,
}

impl DeepView for CompletionRequest {
    type V = CompletionRequestView;

    closed spec fn deep_view(&self) -> CompletionRequestView {
        CompletionRequestView {
            model: self.model@,
            prompt: self.prompt.deep_view(),
            suffix: self.suffix.deep_view(),
            max_tokens: self.max_tokens,
            temperature: self.temperature,
            top_p: self.top_p,
            n: self.n,
            stream: self.stream,
            logprobs: self.logprobs,
            echo: self.echo,
            stop: self.stop.deep_view(),
            presence_penalty: self.presence_penalty,
            frequency_penalty: self.frequency_penalty,
            best_of: self.best_of,
            logit_bias: self.logit_bias.deep_view(),
            user: self.user.deep_view(),
        }
    }
}

impl JsonCodec for CompletionRequest {
    open spec fn encoded(v: CompletionRequestView) -> JsonView {
        let m = Seq::empty();
        let m = with::<String>(m, "model"@, v.model);
        let m = with::<Input>(m, "prompt"@, v.prompt);
        let m = with_some::<String>(m, "suffix"@, v.suffix);
        let m = with_some::<u32>(m, "max_tokens"@, v.max_tokens);
        let m = with_some::<JsonNumber>(m, "temperature"@, v.temperature);
        let m = with_some::<JsonNumber>(m, "top_p"@, v.top_p);
        let m = with_some::<u16>(m, "n"@, v.n);
        let m = with_some::<bool>(m, "stream"@, v.stream);
        let m = with_some::<u32>(m, "logprobs"@, v.logprobs);
        let m = with_some::<bool>(m, "echo"@, v.echo);
        let m = with_some::<Vec<String>>(m, "stop"@, v.stop);
        let m = with_some::<JsonNumber>(m, "presence_penalty"@, v.presence_penalty);
        let m = with_some::<JsonNumber>(m, "frequency_penalty"@, v.frequency_penalty);
        let m = with_some::<u16>(m, "best_of"@, v.best_of);
        let m = with_some::<LogitBias>(m, "logit_bias"@, v.logit_bias);
        let m = with_some::<String>(m, "user"@, v.user);
        JsonView::Object(m)
    }

    open spec fn decoded(doc: JsonView) -> Option<CompletionRequestView> {
        match doc {
            JsonView::Object(m) => {
                let model = required::<String>(m, "model"@);
                let prompt = required::<Input>(m, "prompt"@);
                let suffix = optional::<String>(m, "suffix"@);
                let max_tokens = optional::<u32>(m, "max_tokens"@);
                let temperature = optional::<JsonNumber>(m, "temperature"@);
                let top_p = optional::<JsonNumber>(m, "top_p"@);
                let n = optional::<u16>(m, "n"@);
                let stream = optional::<bool>(m, "stream"@);
                let logprobs = optional::<u32>(m, "logprobs"@);
                let echo = optional::<bool>(m, "echo"@);
                let stop = optional::<Vec<String>>(m, "stop"@);
                let presence_penalty = optional::<JsonNumber>(m, "presence_penalty"@);
                let frequency_penalty = optional::<JsonNumber>(m, "frequency_penalty"@);
                let best_of = optional::<u16>(m, "best_of"@);
                let logit_bias = optional::<LogitBias>(m, "logit_bias"@);
                let user = optional::<String>(m, "user"@);
                if model is Some
                    && prompt is Some
                    && suffix is Some
                    && max_tokens is Some
                    && temperature is Some
                    && top_p is Some
                    && n is Some
                    && stream is Some
                    && logprobs is Some
                    && echo is Some
                    && stop is Some
                    && presence_penalty is Some
                    && frequency_penalty is Some
                    && best_of is Some
                    && logit_bias is Some
                    && user is Some {
                    Some(
                        CompletionRequestView {
                            model: model->0,
                            prompt: prompt->0,
                            suffix: suffix->0,
                            max_tokens: max_tokens->0,
                            temperature: temperature->0,
                            top_p: top_p->0,
                            n: n->0,
                            stream: stream->0,
                            logprobs: logprobs->0,
                            echo: echo->0,
                            stop: stop->0,
                            presence_penalty: presence_penalty->0,
                            frequency_penalty: frequency_penalty->0,
                            best_of: best_of->0,
                            logit_bias: logit_bias->0,
                            user: user->0,
                        },
                    )
                } else {
                    None
                }
            },
            _ => None,
        }
    }

    fn to_json(&self) -> (doc: Json) {
        let mut m: Vec<(String, Json)> = Vec::new();
        proof {
            lemma_members_empty(m);
        }
        put(&mut m, "model", &self.model);
        put(&mut m, "prompt", &self.prompt);
        put_some(&mut m, "suffix", &self.suffix);
        put_some(&mut m, "max_tokens", &self.max_tokens);
        put_some(&mut m, "temperature", &self.temperature);
        put_some(&mut m, "top_p", &self.top_p);
        put_some(&mut m, "n", &self.n);
        put_some(&mut m, "stream", &self.stream);
        put_some(&mut m, "logprobs", &self.logprobs);
        put_some(&mut m, "echo", &self.echo);
        put_some(&mut m, "stop", &self.stop);
        put_some(&mut m, "presence_penalty", &self.presence_penalty);
        put_some(&mut m, "frequency_penalty", &self.frequency_penalty);
        put_some(&mut m, "best_of", &self.best_of);
        put_some(&mut m, "logit_bias", &self.logit_bias);
        put_some(&mut m, "user", &self.user);
        proof {
            lemma_object_view(m);
        }
        Json::Object(m)
    }

    fn from_json(doc: &Json) -> (r: Option<CompletionRequest>) {
        match doc {
            Json::Object(m) => {
                proof {
                    lemma_object_view(*m);
                }
                let model = match get_required::<String>(m, "model") {
                    Some(v) => v,
                    None => return None,
                };
                let prompt = match get_required::<Input>(m, "prompt") {
                    Some(v) => v,
                    None => return None,
                };
                let suffix = match get_optional::<String>(m, "suffix") {
                    Some(v) => v,
                    None => return None,
                };
                let max_tokens = match get_optional::<u32>(m, "max_tokens") {
                    Some(v) => v,
                    None => return None,
                };
                let temperature = match get_optional::<JsonNumber>(m, "temperature") {
                    Some(v) => v,
                    None => return None,
                };
                let top_p = match get_optional::<JsonNumber>(m, "top_p") {
                    Some(v) => v,
                    None => return None,
                };
                let n = match get_optional::<u16>(m, "n") {
                    Some(v) => v,
                    None => return None,
                };
                let stream = match get_optional::<bool>(m, "stream") {
                    Some(v) => v,
                    None => return None,
                };
                let logprobs = match get_optional::<u32>(m, "logprobs") {
                    Some(v) => v,
                    None => return None,
                };
                let echo = match get_optional::<bool>(m, "echo") {
                    Some(v) => v,
                    None => return None,
                };
                let stop = match get_optional::<Vec<String>>(m, "stop") {
                    Some(v) => v,
                    None => return None,
                };
                let presence_penalty = match get_optional::<JsonNumber>(m, "presence_penalty") {
                    Some(v) => v,
                    None => return None,
                };
                let frequency_penalty = match get_optional::<JsonNumber>(m, "frequency_penalty") {
                    Some(v) => v,
                    None => return None,
                };
                let best_of = match get_optional::<u16>(m, "best_of") {
                    Some(v) => v,
                    None => return None,
                };
                let logit_bias = match get_optional::<LogitBias>(m, "logit_bias") {
                    Some(v) => v,
                    None => return None,
                };
                let user = match get_optional::<String>(m, "user") {
                    Some(v) => v,
                    None => return None,
                };
                Some(
                    CompletionRequest {
                        model,
                        prompt,
                        suffix,
                        max_tokens,
                        temperature,
                        top_p,
                        n,
                        stream,
                        logprobs,
                        echo,
                        stop,
                        presence_penalty,
                        frequency_penalty,
                        best_of,
                        logit_bias,
                        user,
                    },
                )
            },
            _ => None,
        }
    }

    proof fn lemma_round_trip(v: CompletionRequestView) {
        CompletionRequest::lemma_names_differ();
        let m = CompletionRequest::encoded(v)->Object_0;
        assert(required::<String>(m, "model"@) == Some(v.model)) by {
            broadcast use group_members;

            String::lemma_round_trip(v.model);
        }
        assert(required::<Input>(m, "prompt"@) == Some(v.prompt)) by {
            broadcast use group_members;

            Input::lemma_round_trip(v.prompt);
        }
        assert(optional::<String>(m, "suffix"@) == Some(v.suffix)) by {
            broadcast use group_members;

            if v.suffix is Some {
                String::lemma_round_trip(v.suffix->0);
            }
        }
        assert(optional::<u32>(m, "max_tokens"@) == Some(v.max_tokens)) by {
            broadcast use group_members;

            if v.max_tokens is Some {
                u32::lemma_round_trip(v.max_tokens->0);
            }
        }
        assert(optional::<JsonNumber>(m, "temperature"@) == Some(v.temperature)) by {
            broadcast use group_members;

            if v.temperature is Some {
                JsonNumber::lemma_round_trip(v.temperature->0);
            }
        }
        assert(optional::<JsonNumber>(m, "top_p"@) == Some(v.top_p)) by {
            broadcast use group_members;

            if v.top_p is Some {
                JsonNumber::lemma_round_trip(v.top_p->0);
            }
        }
        assert(optional::<u16>(m, "n"@) == Some(v.n)) by {
            broadcast use group_members;

            if v.n is Some {
                u16::lemma_round_trip(v.n->0);
            }
        }
        assert(optional::<bool>(m, "stream"@) == Some(v.stream)) by {
            broadcast use group_members;

            if v.stream is Some {
                bool::lemma_round_trip(v.stream->0);
            }
        }
        assert(optional::<u32>(m, "logprobs"@) == Some(v.logprobs)) by {
            broadcast use group_members;

            if v.logprobs is Some {
                u32::lemma_round_trip(v.logprobs->0);
            }
        }
        assert(optional::<bool>(m, "echo"@) == Some(v.echo)) by {
            broadcast use group_members;

            if v.echo is Some {
                bool::lemma_round_trip(v.echo->0);
            }
        }
        assert(optional::<Vec<String>>(m, "stop"@) == Some(v.stop)) by {
            broadcast use group_members;

            if v.stop is Some {
                Vec::<String>::lemma_round_trip(v.stop->0);
            }
        }
        assert(optional::<JsonNumber>(m, "presence_penalty"@) == Some(v.presence_penalty)) by {
            broadcast use group_members;

            if v.presence_penalty is Some {
                JsonNumber::lemma_round_trip(v.presence_penalty->0);
            }
        }
        assert(optional::<JsonNumber>(m, "frequency_penalty"@) == Some(v.frequency_penalty)) by {
            broadcast use group_members;

            if v.frequency_penalty is Some {
                JsonNumber::lemma_round_trip(v.frequency_penalty->0);
            }
        }
        assert(optional::<u16>(m, "best_of"@) == Some(v.best_of)) by {
            broadcast use group_members;

            if v.best_of is Some {
                u16::lemma_round_trip(v.best_of->0);
            }
        }
        assert(optional::<LogitBias>(m, "logit_bias"@) == Some(v.logit_bias)) by {
            broadcast use group_members;

            if v.logit_bias is Some {
                LogitBias::lemma_round_trip(v.logit_bias->0);
            }
        }
        assert(optional::<String>(m, "user"@) == Some(v.user)) by {
            broadcast use group_members;

            if v.user is Some {
                String::lemma_round_trip(v.user->0);
            }
        }
    }
}

impl CompletionRequest {
    /// No two members of the JSON form have the same name.
    proof fn lemma_names_differ()
        ensures
            "model"@ != "prompt"@,
            "model"@ != "suffix"@,
            "model"@ != "max_tokens"@,
            "model"@ != "temperature"@,
            "model"@ != "top_p"@,
            "model"@ != "n"@,
            "model"@ != "stream"@,
            "model"@ != "logprobs"@,
            "model"@ != "echo"@,
            "model"@ != "stop"@,
            "model"@ != "presence_penalty"@,
            "model"@ != "frequency_penalty"@,
            "model"@ != "best_of"@,
            "model"@ != "logit_bias"@,
            "model"@ != "user"@,
            "prompt"@ != "suffix"@,
            "prompt"@ != "max_tokens"@,
            "prompt"@ != "temperature"@,
            "prompt"@ != "top_p"@,
            "prompt"@ != "n"@,
            "prompt"@ != "stream"@,
            "prompt"@ != "logprobs"@,
            "prompt"@ != "echo"@,
            "prompt"@ != "stop"@,
            "prompt"@ != "presence_penalty"@,
            "prompt"@ != "frequency_penalty"@,
            "prompt"@ != "best_of"@,
            "prompt"@ != "logit_bias"@,
            "prompt"@ != "user"@,
            "suffix"@ != "max_tokens"@,
            "suffix"@ != "temperature"@,
            "suffix"@ != "top_p"@,
            "suffix"@ != "n"@,
            "suffix"@ != "stream"@,
            "suffix"@ != "logprobs"@,
            "suffix"@ != "echo"@,
            "suffix"@ != "stop"@,
            "suffix"@ != "presence_penalty"@,
            "suffix"@ != "frequency_penalty"@,
            "suffix"@ != "best_of"@,
            "suffix"@ != "logit_bias"@,
            "suffix"@ != "user"@,
            "max_tokens"@ != "temperature"@,
            "max_tokens"@ != "top_p"@,
            "max_tokens"@ != "n"@,
            "max_tokens"@ != "stream"@,
            "max_tokens"@ != "logprobs"@,
            "max_tokens"@ != "echo"@,
            "max_tokens"@ != "stop"@,
            "max_tokens"@ != "presence_penalty"@,
            "max_tokens"@ != "frequency_penalty"@,
            "max_tokens"@ != "best_of"@,
            "max_tokens"@ != "logit_bias"@,
            "max_tokens"@ != "user"@,
            "temperature"@ != "top_p"@,
            "temperature"@ != "n"@,
            "temperature"@ != "stream"@,
            "temperature"@ != "logprobs"@,
            "temperature"@ != "echo"@,
            "temperature"@ != "stop"@,
            "temperature"@ != "presence_penalty"@,
            "temperature"@ != "frequency_penalty"@,
            "temperature"@ != "best_of"@,
            "temperature"@ != "logit_bias"@,
            "temperature"@ != "user"@,
            "top_p"@ != "n"@,
            "top_p"@ != "stream"@,
            "top_p"@ != "logprobs"@,
            "top_p"@ != "echo"@,
            "top_p"@ != "stop"@,
            "top_p"@ != "presence_penalty"@,
            "top_p"@ != "frequency_penalty"@,
            "top_p"@ != "best_of"@,
            "top_p"@ != "logit_bias"@,
            "top_p"@ != "user"@,
            "n"@ != "stream"@,
            "n"@ != "logprobs"@,
            "n"@ != "echo"@,
            "n"@ != "stop"@,
            "n"@ != "presence_penalty"@,
            "n"@ != "frequency_penalty"@,
            "n"@ != "best_of"@,
            "n"@ != "logit_bias"@,
            "n"@ != "user"@,
            "stream"@ != "logprobs"@,
            "stream"@ != "echo"@,
            "stream"@ != "stop"@,
            "stream"@ != "presence_penalty"@,
            "stream"@ != "frequency_penalty"@,
            "stream"@ != "best_of"@,
            "stream"@ != "logit_bias"@,
            "stream"@ != "user"@,
            "logprobs"@ != "echo"@,
            "logprobs"@ != "stop"@,
            "logprobs"@ != "presence_penalty"@,
            "logprobs"@ != "frequency_penalty"@,
            "logprobs"@ != "best_of"@,
            "logprobs"@ != "logit_bias"@,
            "logprobs"@ != "user"@,
            "echo"@ != "stop"@,
            "echo"@ != "presence_penalty"@,
            "echo"@ != "frequency_penalty"@,
            "echo"@ != "best_of"@,
            "echo"@ != "logit_bias"@,
            "echo"@ != "user"@,
            "stop"@ != "presence_penalty"@,
            "stop"@ != "frequency_penalty"@,
            "stop"@ != "best_of"@,
            "stop"@ != "logit_bias"@,
            "stop"@ != "user"@,
            "presence_penalty"@ != "frequency_penalty"@,
            "presence_penalty"@ != "best_of"@,
            "presence_penalty"@ != "logit_bias"@,
            "presence_penalty"@ != "user"@,
            "frequency_penalty"@ != "best_of"@,
            "frequency_penalty"@ != "logit_bias"@,
            "frequency_penalty"@ != "user"@,
            "best_of"@ != "logit_bias"@,
            "best_of"@ != "user"@,
            "logit_bias"@ != "user"@,
    {
        reveal_strlit("model");
        reveal_strlit("prompt");
        reveal_strlit("suffix");
        reveal_strlit("max_tokens");
        reveal_strlit("temperature");
        reveal_strlit("top_p");
        reveal_strlit("n");
        reveal_strlit("stream");
        reveal_strlit("logprobs");
        reveal_strlit("echo");
        reveal_strlit("stop");
        reveal_strlit("presence_penalty");
        reveal_strlit("frequency_penalty");
        reveal_strlit("best_of");
        reveal_strlit("logit_bias");
        reveal_strlit("user");
        assert("model"@.len() == 5);
        assert("prompt"@.len() == 6);
        assert("suffix"@.len() == 6);
        assert("max_tokens"@.len() == 10);
        assert("temperature"@.len() == 11);
        assert("top_p"@.len() == 5);
        assert("n"@.len() == 1);
        assert("stream"@.len() == 6);
        assert("logprobs"@.len() == 8);
        assert("echo"@.len() == 4);
        assert("stop"@.len() == 4);
        assert("presence_penalty"@.len() == 16);
        assert("frequency_penalty"@.len() == 17);
        assert("best_of"@.len() == 7);
        assert("logit_bias"@.len() == 10);
        assert("user"@.len() == 4);
        assert("model"@[0] == 'm');
        assert("top_p"@[0] == 't');
        assert("prompt"@[0] == 'p');
        assert("suffix"@[0] == 's');
        assert("stream"@[0] == 's');
        assert("suffix"@[1] == 'u');
        assert("stream"@[1] == 't');
        assert("max_tokens"@[0] == 'm');
        assert("logit_bias"@[0] == 'l');
        assert("echo"@[0] == 'e');
        assert("stop"@[0] == 's');
        assert("user"@[0] == 'u');
    }
}

impl CompletionRequest {
    /// The model that a request asks for where none is named.
    pub open spec fn default_model() -> Seq<char> {
        "text-davinci-003"@
    }

    /// A request for the default model.
    pub fn new(prompt: Input) -> (r: Self)
        ensures
            r.deep_view() == (CompletionRequestView {
                model: CompletionRequest::default_model(),
                prompt: prompt.deep_view(),
                suffix: None,
                max_tokens: None,
                temperature: None,
                top_p: None,
                n: None,
                stream: None,
                logprobs: None,
                echo: None,
                stop: None,
                presence_penalty: None,
                frequency_penalty: None,
                best_of: None,
                logit_bias: None,
                user: None,
            }),
    {
        CompletionRequest {
            model: "text-davinci-003".to_owned(),
            prompt,
            suffix: None,
            max_tokens: None,
            temperature: None,
            top_p: None,
            n: None,
            stream: None,
            logprobs: None,
            echo: None,
            stop: None,
            presence_penalty: None,
            frequency_penalty: None,
            best_of: None,
            logit_bias: None,
            user: None,
        }
    }

    pub fn with_model(model: &str, prompt: Input) -> (r: Self)
        ensures
            r.deep_view() == (CompletionRequestView {
                model: model@,
                prompt: prompt.deep_view(),
                suffix: None,
                max_tokens: None,
                temperature: None,
                top_p: None,
                n: None,
                stream: None,
                logprobs: None,
                echo: None,
                stop: None,
                presence_penalty: None,
                frequency_penalty: None,
                best_of: None,
                logit_bias: None,
                user: None,
            }),
    {
        CompletionRequest {
            model: model.to_owned(),
            prompt,
            suffix: None,
            max_tokens: None,
            temperature: None,
            top_p: None,
            n: None,
            stream: None,
            logprobs: None,
            echo: None,
            stop: None,
            presence_penalty: None,
            frequency_penalty: None,
            best_of: None,
            logit_bias: None,
            user: None,
        }
    }

    /// What comes after the text that the service writes.
    pub fn set_suffix(&mut self, suffix: &str) -> (r: &mut Self)
        ensures
            r.deep_view() == (CompletionRequestView {
                suffix: Some(suffix@),
                ..old(self).deep_view()
            }),
            *final(self) == *final(r),
    {
        self.suffix = Some(suffix.to_owned());
        self
    }

    pub fn set_max_tokens(&mut self, max_tokens: u32) -> (r: &mut Self)
        ensures
            r.deep_view() == (CompletionRequestView {
                max_tokens: Some(max_tokens),
                ..old(self).deep_view()
            }),
            *final(self) == *final(r),
    {
        self.max_tokens = Some(max_tokens);
        self
    }

    pub fn set_temperature(&mut self, temperature: JsonNumber) -> (r: &mut Self)
        ensures
            r.deep_view() == (CompletionRequestView {
                temperature: Some(temperature),
                ..old(self).deep_view()
            }),
            *final(self) == *final(r),
    {
        self.temperature = Some(temperature);
        self
    }

    pub fn set_top_p(&mut self, top_p: JsonNumber) -> (r: &mut Self)
        ensures
            r.deep_view() == (CompletionRequestView {
                top_p: Some(top_p),
                ..old(self).deep_view()
            }),
            *final(self) == *final(r),
    {
        self.top_p = Some(top_p);
        self
    }

    pub fn set_n(&mut self, n: u16) -> (r: &mut Self)
        ensures
            r.deep_view() == (CompletionRequestView {
                n: Some(n),
                ..old(self).deep_view()
            }),
            *final(self) == *final(r),
    {
        self.n = Some(n);
        self
    }

    pub fn set_stream(&mut self, stream: bool) -> (r: &mut Self)
        ensures
            r.deep_view() == (CompletionRequestView {
                stream: Some(stream),
                ..old(self).deep_view()
            }),
            *final(self) == *final(r),
    {
        self.stream = Some(stream);
        self
    }

    pub fn set_logprobs(&mut self, logprobs: u32) -> (r: &mut Self)
        ensures
            r.deep_view() == (CompletionRequestView {
                logprobs: Some(logprobs),
                ..old(self).deep_view()
            }),
            *final(self) == *final(r),
    {
        self.logprobs = Some(logprobs);
        self
    }

    pub fn set_echo(&mut self, echo: bool) -> (r: &mut Self)
        ensures
            r.deep_view() == (CompletionRequestView {
                echo: Some(echo),
                ..old(self).deep_view()
            }),
            *final(self) == *final(r),
    {
        self.echo = Some(echo);
        self
    }

    pub fn set_stop(self, stop: Vec<String>) -> (r: Self)
        ensures
            r.deep_view() == (CompletionRequestView {
                stop: Some(stop.deep_view()),
                ..self.deep_view()
            }),
    {
        let mut request = self;
        request.stop = Some(stop);
        request
    }

    pub fn set_presence_penalty(self, presence_penalty: JsonNumber) -> (r: Self)
        ensures
            r.deep_view() == (CompletionRequestView {
                presence_penalty: Some(presence_penalty),
                ..self.deep_view()
            }),
    {
        let mut request = self;
        request.presence_penalty = Some(presence_penalty);
        request
    }

    pub fn set_frequency_penalty(self, frequency_penalty: JsonNumber) -> (r: Self)
        ensures
            r.deep_view() == (CompletionRequestView {
                frequency_penalty: Some(frequency_penalty),
                ..self.deep_view()
            }),
    {
        let mut request = self;
        request.frequency_penalty = Some(frequency_penalty);
        request
    }

    pub fn set_best_of(self, best_of: u16) -> (r: Self)
        ensures
            r.deep_view() == (CompletionRequestView { best_of: Some(best_of), ..self.deep_view() }),
    {
        let mut request = self;
        request.best_of = Some(best_of);
        request
    }

    pub fn set_logit_bias(self, logit_bias: LogitBias) -> (r: Self)
        ensures
            r.deep_view() == (CompletionRequestView {
                logit_bias: Some(logit_bias.deep_view()),
                ..self.deep_view()
            }),
    {
        let mut request = self;
        request.logit_bias = Some(logit_bias);
        request
    }

    pub fn set_user(self, user: String) -> (r: Self)
        ensures
            r.deep_view() == (CompletionRequestView { user: Some(user@), ..self.deep_view() }),
    {
        let mut request = self;
        request.user = Some(user);
        request
    }

    /// The JSON form has one member for each field that is set, under the name that
    /// the service knows the field by, and no other member. None of them is `null`:
    /// a field that is not set is left out.
    pub proof fn lemma_wire_form(v: CompletionRequestView)
        ensures
            CompletionRequest::encoded(v) is Object,
            ({
                let m = CompletionRequest::encoded(v)->Object_0;
                &&& member(m, "model"@) == Some(String::encoded(v.model))
                &&& member(m, "prompt"@) == Some(Input::encoded(v.prompt))
                &&& member(m, "suffix"@) == present::<String>(v.suffix)
                &&& member(m, "max_tokens"@) == present::<u32>(v.max_tokens)
                &&& member(m, "temperature"@) == present::<JsonNumber>(v.temperature)
                &&& member(m, "top_p"@) == present::<JsonNumber>(v.top_p)
                &&& member(m, "n"@) == present::<u16>(v.n)
                &&& member(m, "stream"@) == present::<bool>(v.stream)
                &&& member(m, "logprobs"@) == present::<u32>(v.logprobs)
                &&& member(m, "echo"@) == present::<bool>(v.echo)
                &&& member(m, "stop"@) == present::<Vec<String>>(v.stop)
                &&& member(m, "presence_penalty"@) == present::<JsonNumber>(v.presence_penalty)
                &&& member(m, "frequency_penalty"@) == present::<JsonNumber>(v.frequency_penalty)
                &&& member(m, "best_of"@) == present::<u16>(v.best_of)
                &&& member(m, "logit_bias"@) == present::<LogitBias>(v.logit_bias)
                &&& member(m, "user"@) == present::<String>(v.user)
                &&& forall|k: Seq<char>|
                    k != "model"@ && k != "prompt"@ && k != "suffix"@ && k != "max_tokens"@
                    && k != "temperature"@ && k != "top_p"@ && k != "n"@ && k != "stream"@
                    && k != "logprobs"@ && k != "echo"@ && k != "stop"@ && k != "presence_penalty"@
                    && k != "frequency_penalty"@ && k != "best_of"@ && k != "logit_bias"@
                    && k != "user"@ ==> member(m, k) is None
                &&& forall|k: Seq<char>| member(m, k) != Some(JsonView::Null)
            }),
    {
        CompletionRequest::lemma_names_differ();
        let m = CompletionRequest::encoded(v)->Object_0;
        assert(member(m, "model"@) == Some(String::encoded(v.model))) by {
            broadcast use group_members;
        }
        assert(member(m, "prompt"@) == Some(Input::encoded(v.prompt))) by {
            broadcast use group_members;
        }
        assert(member(m, "suffix"@) == present::<String>(v.suffix)) by {
            broadcast use group_members;
        }
        assert(member(m, "max_tokens"@) == present::<u32>(v.max_tokens)) by {
            broadcast use group_members;
        }
        assert(member(m, "temperature"@) == present::<JsonNumber>(v.temperature)) by {
            broadcast use group_members;
        }
        assert(member(m, "top_p"@) == present::<JsonNumber>(v.top_p)) by {
            broadcast use group_members;
        }
        assert(member(m, "n"@) == present::<u16>(v.n)) by {
            broadcast use group_members;
        }
        assert(member(m, "stream"@) == present::<bool>(v.stream)) by {
            broadcast use group_members;
        }
        assert(member(m, "logprobs"@) == present::<u32>(v.logprobs)) by {
            broadcast use group_members;
        }
        assert(member(m, "echo"@) == present::<bool>(v.echo)) by {
            broadcast use group_members;
        }
        assert(member(m, "stop"@) == present::<Vec<String>>(v.stop)) by {
            broadcast use group_members;
        }
        assert(member(m, "presence_penalty"@) == present::<JsonNumber>(v.presence_penalty)) by {
            broadcast use group_members;
        }
        assert(member(m, "frequency_penalty"@) == present::<JsonNumber>(v.frequency_penalty)) by {
            broadcast use group_members;
        }
        assert(member(m, "best_of"@) == present::<u16>(v.best_of)) by {
            broadcast use group_members;
        }
        assert(member(m, "logit_bias"@) == present::<LogitBias>(v.logit_bias)) by {
            broadcast use group_members;
        }
        assert(member(m, "user"@) == present::<String>(v.user)) by {
            broadcast use group_members;
        }
        assert forall|k: Seq<char>|
            k != "model"@ && k != "prompt"@ && k != "suffix"@ && k != "max_tokens"@
            && k != "temperature"@ && k != "top_p"@ && k != "n"@ && k != "stream"@
            && k != "logprobs"@ && k != "echo"@ && k != "stop"@ && k != "presence_penalty"@
            && k != "frequency_penalty"@ && k != "best_of"@ && k != "logit_bias"@ && k != "user"@
            implies member(m, k) is None by {
            broadcast use group_members;
        }
    }
}

impl ApiRequest for CompletionRequest {
    type Response = CompletionSuccess;

    open spec fn method(&self) -> Method {
        Method::Post
    }

    open spec fn path(&self) -> Seq<char> {
        "/completions"@
    }

    open spec fn body(&self) -> BodyView {
        BodyView::Json(json_text(CompletionRequest::encoded(self.deep_view())))
    }

    fn request(&self, client: &OpenAiClient) -> (r: HttpRequest) {
        let doc = self.to_json();
        HttpRequest::post_json(client, "/completions", &doc)
    }
}

/// One text that the service wrote.
#[derive(Clone, Debug, PartialEq)]
pub struct CompletionChoice {
    pub text: String,
    pub index: i64,
    pub logprobs: Option<u32>,
    pub finish_reason: String,
}

/// The model of [`CompletionChoice`].
pub struct CompletionChoiceView {
    pub text: Seq<char>,
    pub index: i64,
    pub logprobs: Option<u32>,
    pub finish_reason: Seq<char>,
}

impl DeepView for CompletionChoice {
    type V = CompletionChoiceView;

    open spec fn deep_view(&self) -> CompletionChoiceView {
        CompletionChoiceView {
            text: self.text@,
            index: self.index,
            logprobs: self.logprobs,
            finish_reason: self.finish_reason@,
        }
    }
}

impl JsonCodec for CompletionChoice {
    open spec fn encoded(v: CompletionChoiceView) -> JsonView {
        let m = Seq::empty();
        let m = with::<String>(m, "text"@, v.text);
        let m = with::<i64>(m, "index"@, v.index);
        let m = with_nullable::<u32>(m, "logprobs"@, v.logprobs);
        let m = with::<String>(m, "finish_reason"@, v.finish_reason);
        JsonView::Object(m)
    }

    open spec fn decoded(doc: JsonView) -> Option<CompletionChoiceView> {
        match doc {
            JsonView::Object(m) => {
                let text = required::<String>(m, "text"@);
                let index = required::<i64>(m, "index"@);
                let logprobs = optional::<u32>(m, "logprobs"@);
                let finish_reason = required::<String>(m, "finish_reason"@);
                if text is Some && index is Some && logprobs is Some && finish_reason is Some {
                    Some(
                        CompletionChoiceView {
                            text: text->0,
                            index: index->0,
                            logprobs: logprobs->0,
                            finish_reason: finish_reason->0,
                        },
                    )
                } else {
                    None
                }
            },
            _ => None,
        }
    }

    fn to_json(&self) -> (doc: Json) {
        let mut m: Vec<(String, Json)> = Vec::new();
        proof {
            lemma_members_empty(m);
        }
        put(&mut m, "text", &self.text);
        put(&mut m, "index", &self.index);
        put_nullable(&mut m, "logprobs", &self.logprobs);
        put(&mut m, "finish_reason", &self.finish_reason);
        proof {
            lemma_object_view(m);
        }
        Json::Object(m)
    }

    fn from_json(doc: &Json) -> (r: Option<CompletionChoice>) {
        match doc {
            Json::Object(m) => {
                proof {
                    lemma_object_view(*m);
                }
                let text = match get_required::<String>(m, "text") {
                    Some(v) => v,
                    None => return None,
                };
                let index = match get_required::<i64>(m, "index") {
                    Some(v) => v,
                    None => return None,
                };
                let logprobs = match get_optional::<u32>(m, "logprobs") {
                    Some(v) => v,
                    None => return None,
                };
                let finish_reason = match get_required::<String>(m, "finish_reason") {
                    Some(v) => v,
                    None => return None,
                };
                Some(CompletionChoice { text, index, logprobs, finish_reason })
            },
            _ => None,
        }
    }

    proof fn lemma_round_trip(v: CompletionChoiceView) {
        broadcast use group_members;

        CompletionChoice::lemma_names_differ();
        String::lemma_round_trip(v.text);
        i64::lemma_round_trip(v.index);
        if v.logprobs is Some {
            u32::lemma_round_trip(v.logprobs->0);
        }
        String::lemma_round_trip(v.finish_reason);
    }
}

impl CompletionChoice {
    /// No two members of the JSON form have the same name.
    proof fn lemma_names_differ()
        ensures
            "text"@ != "index"@,
            "text"@ != "logprobs"@,
            "text"@ != "finish_reason"@,
            "index"@ != "logprobs"@,
            "index"@ != "finish_reason"@,
            "logprobs"@ != "finish_reason"@,
    {
        reveal_strlit("text");
        reveal_strlit("index");
        reveal_strlit("logprobs");
        reveal_strlit("finish_reason");
        assert("text"@.len() == 4);
        assert("index"@.len() == 5);
        assert("logprobs"@.len() == 8);
        assert("finish_reason"@.len() == 13);
    }
}

/// What the service answers to a [`CompletionRequest`].
#[derive(Clone, Debug, PartialEq)]
pub struct CompletionSuccess {
    pub id: String,
    pub object: String,
    pub created: i64,
    pub model: String,
    pub choices: Vec<CompletionChoice>,
    pub usage: Usage,
}

/// The model of [`CompletionSuccess`].
pub struct CompletionSuccessView {
    pub id: Seq<char>,
    pub object: Seq<char>,
    pub created: i64,
    pub model: Seq<char>,
    pub choices: Seq<CompletionChoiceView>,
    pub usage: UsageView,
}

impl DeepView for CompletionSuccess {
    type V = CompletionSuccessView;

    open spec fn deep_view(&self) -> CompletionSuccessView {
        CompletionSuccessView {
            id: self.id@,
            object: self.object@,
            created: self.created,
            model: self.model@,
            choices: self.choices.deep_view(),
            usage: self.usage.deep_view(),
        }
    }
}

impl JsonCodec for CompletionSuccess {
    open spec fn encoded(v: CompletionSuccessView) -> JsonView {
        let m = Seq::empty();
        let m = with::<String>(m, "id"@, v.id);
        let m = with::<String>(m, "object"@, v.object);
        let m = with::<i64>(m, "created"@, v.created);
        let m = with::<String>(m, "model"@, v.model);
        let m = with::<Vec<CompletionChoice>>(m, "choices"@, v.choices);
        let m = with::<Usage>(m, "usage"@, v.usage);
        JsonView::Object(m)
    }

    open spec fn decoded(doc: JsonView) -> Option<CompletionSuccessView> {
        match doc {
            JsonView::Object(m) => {
                let id = required::<String>(m, "id"@);
                let object = required::<String>(m, "object"@);
                let created = required::<i64>(m, "created"@);
                let model = required::<String>(m, "model"@);
                let choices = required::<Vec<CompletionChoice>>(m, "choices"@);
                let usage = required::<Usage>(m, "usage"@);
                if id is Some
                    && object is Some
                    && created is Some
                    && model is Some
                    && choices is Some
                    && usage is Some {
                    Some(
                        CompletionSuccessView {
                            id: id->0,
                            object: object->0,
                            created: created->0,
                            model: model->0,
                            choices: choices->0,
                            usage: usage->0,
                        },
                    )
                } else {
                    None
                }
            },
            _ => None,
        }
    }

    fn to_json(&self) -> (doc: Json) {
        let mut m: Vec<(String, Json)> = Vec::new();
        proof {
            lemma_members_empty(m);
        }
        put(&mut m, "id", &self.id);
        put(&mut m, "object", &self.object);
        put(&mut m, "created", &self.created);
        put(&mut m, "model", &self.model);
        put(&mut m, "choices", &self.choices);
        put(&mut m, "usage", &self.usage);
        proof {
            lemma_object_view(m);
        }
        Json::Object(m)
    }

    fn from_json(doc: &Json) -> (r: Option<CompletionSuccess>) {
        match doc {
            Json::Object(m) => {
                proof {
                    lemma_object_view(*m);
                }
                let id = match get_required::<String>(m, "id") {
                    Some(v) => v,
                    None => return None,
                };
                let object = match get_required::<String>(m, "object") {
                    Some(v) => v,
                    None => return None,
                };
                let created = match get_required::<i64>(m, "created") {
                    Some(v) => v,
                    None => return None,
                };
                let model = match get_required::<String>(m, "model") {
                    Some(v) => v,
                    None => return None,
                };
                let choices = match get_required::<Vec<CompletionChoice>>(m, "choices") {
                    Some(v) => v,
                    None => return None,
                };
                let usage = match get_required::<Usage>(m, "usage") {
                    Some(v) => v,
                    None => return None,
                };
                Some(CompletionSuccess { id, object, created, model, choices, usage })
            },
            _ => None,
        }
    }

    proof fn lemma_round_trip(v: CompletionSuccessView) {
        CompletionSuccess::lemma_names_differ();
        let m = CompletionSuccess::encoded(v)->Object_0;
        assert(required::<String>(m, "id"@) == Some(v.id)) by {
            broadcast use group_members;

            String::lemma_round_trip(v.id);
        }
        assert(required::<String>(m, "object"@) == Some(v.object)) by {
            broadcast use group_members;

            String::lemma_round_trip(v.object);
        }
        assert(required::<i64>(m, "created"@) == Some(v.created)) by {
            broadcast use group_members;

            i64::lemma_round_trip(v.created);
        }
        assert(required::<String>(m, "model"@) == Some(v.model)) by {
            broadcast use group_members;

            String::lemma_round_trip(v.model);
        }
        assert(required::<Vec<CompletionChoice>>(m, "choices"@) == Some(v.choices)) by {
            broadcast use group_members;

            Vec::<CompletionChoice>::lemma_round_trip(v.choices);
        }
        assert(required::<Usage>(m, "usage"@) == Some(v.usage)) by {
            broadcast use group_members;

            Usage::lemma_round_trip(v.usage);
        }
    }
}

impl CompletionSuccess {
    /// No two members of the JSON form have the same name.
    proof fn lemma_names_differ()
        ensures
            "id"@ != "object"@,
            "id"@ != "created"@,
            "id"@ != "model"@,
            "id"@ != "choices"@,
            "id"@ != "usage"@,
            "object"@ != "created"@,
            "object"@ != "model"@,
            "object"@ != "choices"@,
            "object"@ != "usage"@,
            "created"@ != "model"@,
            "created"@ != "choices"@,
            "created"@ != "usage"@,
            "model"@ != "choices"@,
            "model"@ != "usage"@,
            "choices"@ != "usage"@,
    {
        reveal_strlit("id");
        reveal_strlit("object");
        reveal_strlit("created");
        reveal_strlit("model");
        reveal_strlit("choices");
        reveal_strlit("usage");
        assert("id"@.len() == 2);
        assert("object"@.len() == 6);
        assert("created"@.len() == 7);
        assert("model"@.len() == 5);
        assert("choices"@.len() == 7);
        assert("usage"@.len() == 5);
        assert("created"@[1] == 'r');
        assert("choices"@[1] == 'h');
        assert("model"@[0] == 'm');
        assert("usage"@[0] == 'u');
    }
}

} // verus!
