//! The values that several endpoints share.

use crate::codec::{get_required, group_members, put, required, with, JsonCodec};
use crate::json::{
    json_view, lemma_members_empty, lemma_object_view, members_view, Json, JsonNumber, JsonView,
};
use vstd::std_specs::convert::FromSpecImpl;
use vstd::prelude::*;

verus! {

/// How many tokens a call used.
#[derive(Clone, Debug, PartialEq)]
pub struct Usage {
    pub prompt_tokens: u64,
    pub completion_tokens: u64,
    pub total_tokens: u64,
}

/// The model of [`Usage`].
pub struct UsageView {
    pub prompt_tokens: u64,
    pub completion_tokens: u64,
    pub total_tokens: u64,
}

impl DeepView for Usage {
    type V = UsageView;

    open spec fn deep_view(&self) -> UsageView {
        UsageView {
            prompt_tokens: self.prompt_tokens,
            completion_tokens: self.completion_tokens,
            total_tokens: self.total_tokens,
        }
    }
}

impl JsonCodec for Usage {
    open spec fn encoded(v: UsageView) -> JsonView {
        let m = Seq::empty();
        let m = with::<u64>(m, "prompt_tokens"@, v.prompt_tokens);
        let m = with::<u64>(m, "completion_tokens"@, v.completion_tokens);
        let m = with::<u64>(m, "total_tokens"@, v.total_tokens);
        JsonView::Object(m)
    }

    open spec fn decoded(doc: JsonView) -> Option<UsageView> {
        match doc {
            JsonView::Object(m) => {
                let prompt_tokens = required::<u64>(m, "prompt_tokens"@);
                let completion_tokens = required::<u64>(m, "completion_tokens"@);
                let total_tokens = required::<u64>(m, "total_tokens"@);
                if prompt_tokens is Some && completion_tokens is Some && total_tokens is Some {
                    Some(
                        UsageView {
                            prompt_tokens: prompt_tokens->0,
                            completion_tokens: completion_tokens->0,
                            total_tokens: total_tokens->0,
                        },
                    )
                } else {
                    None
                }
            },
            _ => None,
        }
    }

    fn to_json(&self) -> (doc: Json) {
        let mut m: Vec<(String, Json)> = Vec::new();
        proof {
            lemma_members_empty(m);
        }
        put(&mut m, "prompt_tokens", &self.prompt_tokens);
        put(&mut m, "completion_tokens", &self.completion_tokens);
        put(&mut m, "total_tokens", &self.total_tokens);
        proof {
            lemma_object_view(m);
        }
        Json::Object(m)
    }

    fn from_json(doc: &Json) -> (r: Option<Usage>) {
        match doc {
            Json::Object(m) => {
                proof {
                    lemma_object_view(*m);
                }
                let prompt_tokens = match get_required::<u64>(m, "prompt_tokens") {
                    Some(v) => v,
                    None => return None,
                };
                let completion_tokens = match get_required::<u64>(m, "completion_tokens") {
                    Some(v) => v,
                    None => return None,
                };
                let total_tokens = match get_required::<u64>(m, "total_tokens") {
                    Some(v) => v,
                    None => return None,
                };
                Some(Usage { prompt_tokens, completion_tokens, total_tokens })
            },
            _ => None,
        }
    }

    proof fn lemma_round_trip(v: UsageView) {
        broadcast use group_members;

        Usage::lemma_names_differ();
        u64::lemma_round_trip(v.prompt_tokens);
        u64::lemma_round_trip(v.completion_tokens);
        u64::lemma_round_trip(v.total_tokens);
    }
}

impl Usage {
    /// No two members of the JSON form have the same name.
    proof fn lemma_names_differ()
        ensures
            "prompt_tokens"@ != "completion_tokens"@,
            "prompt_tokens"@ != "total_tokens"@,
            "completion_tokens"@ != "total_tokens"@,
    {
        reveal_strlit("prompt_tokens");
        reveal_strlit("completion_tokens");
        reveal_strlit("total_tokens");
        assert("prompt_tokens"@.len() == 13);
        assert("completion_tokens"@.len() == 17);
        assert("total_tokens"@.len() == 12);
    }
}

/// What the service answers when it was asked to delete something.
#[derive(Clone, Debug, PartialEq)]
pub struct DeleteResponse {
    pub id: String,
    pub object: String,
    pub deleted: bool,
}

/// The model of [`DeleteResponse`].
pub struct DeleteResponseView {
    pub id: Seq<char>,
    pub object: Seq<char>,
    pub deleted: bool,
}

impl DeepView for DeleteResponse {
    type V = DeleteResponseView;

    open spec fn deep_view(&self) -> DeleteResponseView {
        DeleteResponseView {
            id: self.id@,
            object: self.object@,
            deleted: self.deleted,
        }
    }
}

impl JsonCodec for DeleteResponse {
    open spec fn encoded(v: DeleteResponseView) -> JsonView {
        let m = Seq::empty();
        let m = with::<String>(m, "id"@, v.id);
        let m = with::<String>(m, "object"@, v.object);
        let m = with::<bool>(m, "deleted"@, v.deleted);
        JsonView::Object(m)
    }

    open spec fn decoded(doc: JsonView) -> Option<DeleteResponseView> {
        match doc {
            JsonView::Object(m) => {
                let id = required::<String>(m, "id"@);
                let object = required::<String>(m, "object"@);
                let deleted = required::<bool>(m, "deleted"@);
                if id is Some && object is Some && deleted is Some {
                    Some(
                        DeleteResponseView {
                            id: id->0,
                            object: object->0,
                            deleted: deleted->0,
                        },
                    )
                } else {
                    None
                }
            },
            _ => None,
        }
    }

    fn to_json(&self) -> (doc: Json) {
        let mut m: Vec<(String, Json)> = Vec::new();
        proof {
            lemma_members_empty(m);
        }
        put(&mut m, "id", &self.id);
        put(&mut m, "object", &self.object);
        put(&mut m, "deleted", &self.deleted);
        proof {
            lemma_object_view(m);
        }
        Json::Object(m)
    }

    fn from_json(doc: &Json) -> (r: Option<DeleteResponse>) {
        match doc {
            Json::Object(m) => {
                proof {
                    lemma_object_view(*m);
                }
                let id = match get_required::<String>(m, "id") {
                    Some(v) => v,
                    None => return None,
                };
                let object = match get_required::<String>(m, "object") {
                    Some(v) => v,
                    None => return None,
                };
                let deleted = match get_required::<bool>(m, "deleted") {
                    Some(v) => v,
                    None => return None,
                };
                Some(DeleteResponse { id, object, deleted })
            },
            _ => None,
        }
    }

    proof fn lemma_round_trip(v: DeleteResponseView) {
        broadcast use group_members;

        DeleteResponse::lemma_names_differ();
        String::lemma_round_trip(v.id);
        String::lemma_round_trip(v.object);
        bool::lemma_round_trip(v.deleted);
    }
}

impl DeleteResponse {
    /// No two members of the JSON form have the same name.
    proof fn lemma_names_differ()
        ensures
            "id"@ != "object"@,
            "id"@ != "deleted"@,
            "object"@ != "deleted"@,
    {
        reveal_strlit("id");
        reveal_strlit("object");
        reveal_strlit("deleted");
        assert("id"@.len() == 2);
        assert("object"@.len() == 6);
        assert("deleted"@.len() == 7);
    }
}

/// A text or a list of texts: several calls take either.
#[derive(Clone, Debug, PartialEq)]
pub enum Input {
    String(String),
    StringArray(Vec<String>),
}

/// The model of [`Input`].
pub enum InputView {
    String(Seq<char>),
    StringArray(Seq<Seq<char>>),
}

impl DeepView for Input {
    type V = InputView;

    open spec fn deep_view(&self) -> InputView {
        match self {
            Input::String(s) => InputView::String(s@),
            Input::StringArray(a) => InputView::StringArray(a.deep_view()),
        }
    }
}

impl JsonCodec for Input {
    open spec fn encoded(v: InputView) -> JsonView {
        match v {
            InputView::String(s) => String::encoded(s),
            InputView::StringArray(a) => Vec::<String>::encoded(a),
        }
    }

    open spec fn decoded(doc: JsonView) -> Option<InputView> {
        match String::decoded(doc) {
            Some(s) => Some(InputView::String(s)),
            None => match Vec::<String>::decoded(doc) {
                Some(a) => Some(InputView::StringArray(a)),
                None => None,
            },
        }
    }

    fn to_json(&self) -> (doc: Json) {
        match self {
            Input::String(s) => s.to_json(),
            Input::StringArray(a) => a.to_json(),
        }
    }

    fn from_json(doc: &Json) -> (r: Option<Input>) {
        match String::from_json(doc) {
            Some(s) => Some(Input::String(s)),
            None => match Vec::<String>::from_json(doc) {
                Some(a) => Some(Input::StringArray(a)),
                None => None,
            },
        }
    }

    proof fn lemma_round_trip(v: InputView) {
        match v {
            InputView::String(s) => String::lemma_round_trip(s),
            InputView::StringArray(a) => Vec::<String>::lemma_round_trip(a),
        }
    }
}

impl From<String> for Input {
    fn from(value: String) -> (r: Self) {
        Input::String(value)
    }
}

impl FromSpecImpl<String> for Input {
    open spec fn obeys_from_spec() -> bool {
        true
    }

    open spec fn from_spec(value: String) -> Self {
        Input::String(value)
    }
}

impl From<Vec<String>> for Input {
    fn from(value: Vec<String>) -> (r: Self) {
        Input::StringArray(value)
    }
}

impl FromSpecImpl<Vec<String>> for Input {
    open spec fn obeys_from_spec() -> bool {
        true
    }

    open spec fn from_spec(value: Vec<String>) -> Self {
        Input::StringArray(value)
    }
}

impl Input {
    /// The input that is one text.
    pub fn from_string(value: String) -> (r: Input)
        ensures
            r.deep_view() == InputView::String(value@),
    {
        Input::String(value)
    }

    /// The input that is one text.
    pub fn from_str(value: &str) -> (r: Input)
        ensures
            r.deep_view() == InputView::String(value@),
    {
        Input::String(value.to_owned())
    }

    /// The input that is a list of texts.
    pub fn from_strings(value: Vec<String>) -> (r: Input)
        ensures
            r.deep_view() == InputView::StringArray(value.deep_view()),
    {
        Input::StringArray(value)
    }
}

/// How much each token is favoured or avoided: pairs of a token and its
/// bias, which travel as one object with a member for each token.
#[derive(Clone, Debug, PartialEq)]
pub struct LogitBias {
    pub entries: Vec<(String, JsonNumber)>,
}

/// The model of [`LogitBias`].
pub struct LogitBiasView {
    pub entries: Seq<(Seq<char>, JsonNumber)>,
}

impl DeepView for LogitBias {
    type V = LogitBiasView;

    open spec fn deep_view(&self) -> LogitBiasView {
        LogitBiasView { entries: self.entries.deep_view() }
    }
}

impl JsonCodec for LogitBias {
    open spec fn encoded(v: LogitBiasView) -> JsonView {
        JsonView::Object(
            Seq::new(v.entries.len(), |i: int| (v.entries[i].0, JsonView::Number(v.entries[i].1))),
        )
    }

    open spec fn decoded(doc: JsonView) -> Option<LogitBiasView> {
        match doc {
            JsonView::Object(m) => if forall|i: int|
                0 <= i < m.len() ==> (#[trigger] m[i]).1 is Number {
                Some(
                    LogitBiasView {
                        entries: Seq::new(m.len(), |i: int| (m[i].0, m[i].1->Number_0)),
                    },
                )
            } else {
                None
            },
            _ => None,
        }
    }

    fn to_json(&self) -> (doc: Json) {
        let mut m: Vec<(String, Json)> = Vec::new();
        let mut i: usize = 0;
        while i < self.entries.len()
            invariant
                i <= self.entries.len(),
                m@.len() == i,
                forall|k: int|
                    0 <= k < i ==> (#[trigger] m@[k]).0@
                        == self.entries@[k].0@ && json_view(m@[k].1)
                        == JsonView::Number(self.entries@[k].1),
            decreases self.entries.len() - i,
        {
            m.push((self.entries[i].0.clone(), Json::Number(self.entries[i].1.copy())));
            i = i + 1;
        }
        proof {
            lemma_object_view(m);
            let ghost v = self.deep_view();
            assert(members_view(m@) =~= Seq::new(
                v.entries.len(),
                |i: int| (v.entries[i].0, JsonView::Number(v.entries[i].1)),
            ));
        }
        Json::Object(m)
    }

    fn from_json(doc: &Json) -> (r: Option<LogitBias>) {
        match doc {
            Json::Object(m) => {
                proof {
                    lemma_object_view(*m);
                }
                let ghost docs = members_view(m@);
                let mut entries: Vec<(String, JsonNumber)> = Vec::new();
                let mut i: usize = 0;
                while i < m.len()
                    invariant
                        i <= m.len(),
                        entries@.len() == i,
                        docs == members_view(m@),
                        json_view(*doc) == JsonView::Object(docs),
                        forall|k: int| 0 <= k < i ==> (#[trigger] docs[k]).1 is Number,
                        forall|k: int|
                            0 <= k < i ==> (#[trigger] entries@[k]).0@ == docs[k].0 && entries@[k].1
                                == docs[k].1->Number_0,
                    decreases m.len() - i,
                {
                    match &m[i].1 {
                        Json::Number(n) => {
                            entries.push((m[i].0.clone(), n.copy()));
                        },
                        _ => {
                            assert(!(docs[i as int].1 is Number));
                            return None;
                        },
                    }
                    i = i + 1;
                }
                let bias = LogitBias { entries };
                proof {
                    assert(bias.deep_view().entries =~= Seq::new(
                        docs.len(),
                        |i: int| (docs[i].0, docs[i].1->Number_0),
                    ));
                }
                Some(bias)
            },
            _ => None,
        }
    }

    proof fn lemma_round_trip(v: LogitBiasView) {
        let m = Seq::new(
            v.entries.len(),
            |i: int| (v.entries[i].0, JsonView::Number(v.entries[i].1)),
        );
        assert(Seq::new(m.len(), |i: int| (m[i].0, m[i].1->Number_0)) =~= v.entries);
    }
}

} // verus!
