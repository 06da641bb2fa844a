//! The moderation endpoint.

use crate::client::OpenAiClient;
use crate::codec::{get_required, group_members, put, required, with, JsonCodec};
use crate::common::{Input, InputView};
use crate::http::{ApiRequest, BodyView, HttpRequest, Method};
use crate::json::{
    json_text, lemma_members_empty, lemma_object_view, member, Json, JsonNumber, JsonView,
};
use crate::text::same_text;
use vstd::prelude::*;

verus! {

/// Texts for the service to judge.
#[derive(Clone, Debug, PartialEq)]
pub struct ModerationRequest {
    pub input: Input,
    pub model: ModerationModel,
}

/// The model of [`ModerationRequest`].
pub struct ModerationRequestView {
    pub input: InputView,
    pub model: ModerationModel,
}

impl DeepView for ModerationRequest {
    type V = ModerationRequestView;

    open spec fn deep_view(&self) -> ModerationRequestView {
        ModerationRequestView {
            input: self.input.deep_view(),
            model: self.model,
        }
    }
}

impl JsonCodec for ModerationRequest {
    open spec fn encoded(v: ModerationRequestView) -> JsonView {
        let m = Seq::empty();
        let m = with::<Input>(m, "input"@, v.input);
        let m = with::<ModerationModel>(m, "model"@, v.model);
        JsonView::Object(m)
    }

    open spec fn decoded(doc: JsonView) -> Option<ModerationRequestView> {
        match doc {
            JsonView::Object(m) => {
                let input = required::<Input>(m, "input"@);
                let model = required::<ModerationModel>(m, "model"@);
                if input is Some && model is Some {
                    Some(
                        ModerationRequestView {
                            input: input->0,
                            model: model->0,
                        },
                    )
                } else {
                    None
                }
            },
            _ => None,
        }
    }

    fn to_json(&self) -> (doc: Json) {
        let mut m: Vec<(String, Json)> = Vec::new();
        proof {
            lemma_members_empty(m);
        }
        put(&mut m, "input", &self.input);
        put(&mut m, "model", &self.model);
        proof {
            lemma_object_view(m);
        }
        Json::Object(m)
    }

    fn from_json(doc: &Json) -> (r: Option<ModerationRequest>) {
        match doc {
            Json::Object(m) => {
                proof {
                    lemma_object_view(*m);
                }
                let input = match get_required::<Input>(m, "input") {
                    Some(v) => v,
                    None => return None,
                };
                let model = match get_required::<ModerationModel>(m, "model") {
                    Some(v) => v,
                    None => return None,
                };
                Some(ModerationRequest { input, model })
            },
            _ => None,
        }
    }

    proof fn lemma_round_trip(v: ModerationRequestView) {
        broadcast use group_members;

        ModerationRequest::lemma_names_differ();
        Input::lemma_round_trip(v.input);
        ModerationModel::lemma_round_trip(v.model);
    }
}

impl ModerationRequest {
    /// No two members of the JSON form have the same name.
    proof fn lemma_names_differ()
        ensures
            "input"@ != "model"@,
    {
        reveal_strlit("input");
        reveal_strlit("model");
        assert("input"@.len() == 5);
        assert("model"@.len() == 5);
        assert("input"@[0] == 'i');
        assert("model"@[0] == 'm');
    }
}

impl ModerationRequest {
    /// A request to the stable model.
    pub fn new(input: Input) -> (r: Self)
        ensures
            r.deep_view() == (ModerationRequestView {
                input: input.deep_view(),
                model: ModerationModel::TextModerationStable,
            }),
    {
        ModerationRequest {
            input,
            model: ModerationModel::TextModerationStable,
        }
    }

    pub fn with_model(model: ModerationModel, input: Input) -> (r: Self)
        ensures
            r.deep_view() == (ModerationRequestView {
                input: input.deep_view(),
                model: model,
            }),
    {
        ModerationRequest {
            input,
            model,
        }
    }

    /// The JSON form has one member for each field that is set, under the name that
    /// the service knows the field by, and no other member. None of them is `null`:
    /// a field that is not set is left out.
    pub proof fn lemma_wire_form(v: ModerationRequestView)
        ensures
            ModerationRequest::encoded(v) is Object,
            ({
                let m = ModerationRequest::encoded(v)->Object_0;
                &&& member(m, "input"@) == Some(Input::encoded(v.input))
                &&& member(m, "model"@) == Some(ModerationModel::encoded(v.model))
                &&& forall|k: Seq<char>|
                    k != "input"@ && k != "model"@ ==> member(m, k) is None
                &&& forall|k: Seq<char>| member(m, k) != Some(JsonView::Null)
            }),
    {
        ModerationRequest::lemma_names_differ();
        let m = ModerationRequest::encoded(v)->Object_0;
        assert(member(m, "input"@) == Some(Input::encoded(v.input))) by {
            broadcast use group_members;
        }
        assert(member(m, "model"@) == Some(ModerationModel::encoded(v.model))) by {
            broadcast use group_members;
        }
        assert forall|k: Seq<char>|
            k != "input"@ && k != "model"@ implies member(m, k) is None by {
            broadcast use group_members;
        }
    }
}

impl ApiRequest for ModerationRequest {
    type Response = ModerationResponse;

    open spec fn method(&self) -> Method {
        Method::Post
    }

    open spec fn path(&self) -> Seq<char> {
        "/moderations"@
    }

    open spec fn body(&self) -> BodyView {
        BodyView::Json(json_text(ModerationRequest::encoded(self.deep_view())))
    }

    fn request(&self, client: &OpenAiClient) -> (r: HttpRequest) {
        let doc = self.to_json();
        HttpRequest::post_json(client, "/moderations", &doc)
    }
}

/// How strongly a text falls under each category.
#[derive(Clone, Debug, PartialEq)]
pub struct CategoryScores {
    pub hate: JsonNumber,
    pub hate_threatening: JsonNumber,
    pub self_harm: JsonNumber,
    pub sexual: JsonNumber,
    pub sexual_minors: JsonNumber,
    pub violence: JsonNumber,
    pub violence_graphic: JsonNumber,
}

/// The model of [`CategoryScores`].
pub struct CategoryScoresView {
    pub hate: JsonNumber,
    pub hate_threatening: JsonNumber,
    pub self_harm: JsonNumber,
    pub sexual: JsonNumber,
    pub sexual_minors: JsonNumber,
    pub violence: JsonNumber,
    pub violence_graphic: JsonNumber,
}

impl DeepView for CategoryScores {
    type V = CategoryScoresView;

    open spec fn deep_view(&self) -> CategoryScoresView {
        CategoryScoresView {
            hate: self.hate,
            hate_threatening: self.hate_threatening,
            self_harm: self.self_harm,
            sexual: self.sexual,
            sexual_minors: self.sexual_minors,
            violence: self.violence,
            violence_graphic: self.violence_graphic,
        }
    }
}

impl JsonCodec for CategoryScores {
    open spec fn encoded(v: CategoryScoresView) -> JsonView {
        let m = Seq::empty();
        let m = with::<JsonNumber>(m, "hate"@, v.hate);
        let m = with::<JsonNumber>(m, "hate/threatening"@, v.hate_threatening);
        let m = with::<JsonNumber>(m, "self-harm"@, v.self_harm);
        let m = with::<JsonNumber>(m, "sexual"@, v.sexual);
        let m = with::<JsonNumber>(m, "sexual/minors"@, v.sexual_minors);
        let m = with::<JsonNumber>(m, "violence"@, v.violence);
        let m = with::<JsonNumber>(m, "violence/graphic"@, v.violence_graphic);
        JsonView::Object(m)
    }

    open spec fn decoded(doc: JsonView) -> Option<CategoryScoresView> {
        match doc {
            JsonView::Object(m) => {
                let hate = required::<JsonNumber>(m, "hate"@);
                let hate_threatening = required::<JsonNumber>(m, "hate/threatening"@);
                let self_harm = required::<JsonNumber>(m, "self-harm"@);
                let sexual = required::<JsonNumber>(m, "sexual"@);
                let sexual_minors = required::<JsonNumber>(m, "sexual/minors"@);
                let violence = required::<JsonNumber>(m, "violence"@);
                let violence_graphic = required::<JsonNumber>(m, "violence/graphic"@);
                if hate is Some
                    && hate_threatening is Some
                    && self_harm is Some
                    && sexual is Some
                    && sexual_minors is Some
                    && violence is Some
                    && violence_graphic is Some {
                    Some(
                        CategoryScoresView {
                            hate: hate->0,
                            hate_threatening: hate_threatening->0,
                            self_harm: self_harm->0,
                            sexual: sexual->0,
                            sexual_minors: sexual_minors->0,
                            violence: violence->0,
                            violence_graphic: violence_graphic->0,
                        },
                    )
                } else {
                    None
                }
            },
            _ => None,
        }
    }

    fn to_json(&self) -> (doc: Json) {
        let mut m: Vec<(String, Json)> = Vec::new();
        proof {
            lemma_members_empty(m);
        }
        put(&mut m, "hate", &self.hate);
        put(&mut m, "hate/threatening", &self.hate_threatening);
        put(&mut m, "self-harm", &self.self_harm);
        put(&mut m, "sexual", &self.sexual);
        put(&mut m, "sexual/minors", &self.sexual_minors);
        put(&mut m, "violence", &self.violence);
        put(&mut m, "violence/graphic", &self.violence_graphic);
        proof {
            lemma_object_view(m);
        }
        Json::Object(m)
    }

    fn from_json(doc: &Json) -> (r: Option<CategoryScores>) {
        match doc {
            Json::Object(m) => {
                proof {
                    lemma_object_view(*m);
                }
                let hate = match get_required::<JsonNumber>(m, "hate") {
                    Some(v) => v,
                    None => return None,
                };
                let hate_threatening = match get_required::<JsonNumber>(m, "hate/threatening") {
                    Some(v) => v,
                    None => return None,
                };
                let self_harm = match get_required::<JsonNumber>(m, "self-harm") {
                    Some(v) => v,
                    None => return None,
                };
                let sexual = match get_required::<JsonNumber>(m, "sexual") {
                    Some(v) => v,
                    None => return None,
                };
                let sexual_minors = match get_required::<JsonNumber>(m, "sexual/minors") {
                    Some(v) => v,
                    None => return None,
                };
                let violence = match get_required::<JsonNumber>(m, "violence") {
                    Some(v) => v,
                    None => return None,
                };
                let violence_graphic = match get_required::<JsonNumber>(m, "violence/graphic") {
                    Some(v) => v,
                    None => return None,
                };
                Some(
                    CategoryScores {
                        hate,
                        hate_threatening,
                        self_harm,
                        sexual,
                        sexual_minors,
                        violence,
                        violence_graphic,
                    },
                )
            },
            _ => None,
        }
    }

    proof fn lemma_round_trip(v: CategoryScoresView) {
        CategoryScores::lemma_names_differ();
        let m = CategoryScores::encoded(v)->Object_0;
        assert(required::<JsonNumber>(m, "hate"@) == Some(v.hate)) by {
            broadcast use group_members;

            JsonNumber::lemma_round_trip(v.hate);
        }
        assert(required::<JsonNumber>(m, "hate/threatening"@) == Some(v.hate_threatening)) by {
            broadcast use group_members;

            JsonNumber::lemma_round_trip(v.hate_threatening);
        }
        assert(required::<JsonNumber>(m, "self-harm"@) == Some(v.self_harm)) by {
            broadcast use group_members;

            JsonNumber::lemma_round_trip(v.self_harm);
        }
        assert(required::<JsonNumber>(m, "sexual"@) == Some(v.sexual)) by {
            broadcast use group_members;

            JsonNumber::lemma_round_trip(v.sexual);
        }
        assert(required::<JsonNumber>(m, "sexual/minors"@) == Some(v.sexual_minors)) by {
            broadcast use group_members;

            JsonNumber::lemma_round_trip(v.sexual_minors);
        }
        assert(required::<JsonNumber>(m, "violence"@) == Some(v.violence)) by {
            broadcast use group_members;

            JsonNumber::lemma_round_trip(v.violence);
        }
        assert(required::<JsonNumber>(m, "violence/graphic"@) == Some(v.violence_graphic)) by {
            broadcast use group_members;

            JsonNumber::lemma_round_trip(v.violence_graphic);
        }
    }
}

impl CategoryScores {
    /// No two members of the JSON form have the same name.
    proof fn lemma_names_differ()
        ensures
            "hate"@ != "hate/threatening"@,
            "hate"@ != "self-harm"@,
            "hate"@ != "sexual"@,
            "hate"@ != "sexual/minors"@,
            "hate"@ != "violence"@,
            "hate"@ != "violence/graphic"@,
            "hate/threatening"@ != "self-harm"@,
            "hate/threatening"@ != "sexual"@,
            "hate/threatening"@ != "sexual/minors"@,
            "hate/threatening"@ != "violence"@,
            "hate/threatening"@ != "violence/graphic"@,
            "self-harm"@ != "sexual"@,
            "self-harm"@ != "sexual/minors"@,
            "self-harm"@ != "violence"@,
            "self-harm"@ != "violence/graphic"@,
            "sexual"@ != "sexual/minors"@,
            "sexual"@ != "violence"@,
            "sexual"@ != "violence/graphic"@,
            "sexual/minors"@ != "violence"@,
            "sexual/minors"@ != "violence/graphic"@,
            "violence"@ != "violence/graphic"@,
    {
        reveal_strlit("hate");
        reveal_strlit("hate/threatening");
        reveal_strlit("self-harm");
        reveal_strlit("sexual");
        reveal_strlit("sexual/minors");
        reveal_strlit("violence");
        reveal_strlit("violence/graphic");
        assert("hate"@.len() == 4);
        assert("hate/threatening"@.len() == 16);
        assert("self-harm"@.len() == 9);
        assert("sexual"@.len() == 6);
        assert("sexual/minors"@.len() == 13);
        assert("violence"@.len() == 8);
        assert("violence/graphic"@.len() == 16);
        assert("hate/threatening"@[0] == 'h');
        assert("violence/graphic"@[0] == 'v');
    }
}

/// Whether a text falls under each category.
#[derive(Clone, Debug, PartialEq)]
pub struct Categories {
    pub hate: bool,
    pub hate_threatening: bool,
    pub self_harm: bool,
    pub sexual: bool,
    pub sexual_minors: bool,
    pub violence: bool,
    pub violence_graphic: bool,
}

/// The model of [`Categories`].
pub struct CategoriesView {
    pub hate: bool,
    pub hate_threatening: bool,
    pub self_harm: bool,
    pub sexual: bool,
    pub sexual_minors: bool,
    pub violence: bool,
    pub violence_graphic: bool,
}

impl DeepView for Categories {
    type V = CategoriesView;

    open spec fn deep_view(&self) -> CategoriesView {
        CategoriesView {
            hate: self.hate,
            hate_threatening: self.hate_threatening,
            self_harm: self.self_harm,
            sexual: self.sexual,
            sexual_minors: self.sexual_minors,
            violence: self.violence,
            violence_graphic: self.violence_graphic,
        }
    }
}

impl JsonCodec for Categories {
    open spec fn encoded(v: CategoriesView) -> JsonView {
        let m = Seq::empty();
        let m = with::<bool>(m, "hate"@, v.hate);
        let m = with::<bool>(m, "hate/threatening"@, v.hate_threatening);
        let m = with::<bool>(m, "self-harm"@, v.self_harm);
        let m = with::<bool>(m, "sexual"@, v.sexual);
        let m = with::<bool>(m, "sexual/minors"@, v.sexual_minors);
        let m = with::<bool>(m, "violence"@, v.violence);
        let m = with::<bool>(m, "violence/graphic"@, v.violence_graphic);
        JsonView::Object(m)
    }

    open spec fn decoded(doc: JsonView) -> Option<CategoriesView> {
        match doc {
            JsonView::Object(m) => {
                let hate = required::<bool>(m, "hate"@);
                let hate_threatening = required::<bool>(m, "hate/threatening"@);
                let self_harm = required::<bool>(m, "self-harm"@);
                let sexual = required::<bool>(m, "sexual"@);
                let sexual_minors = required::<bool>(m, "sexual/minors"@);
                let violence = required::<bool>(m, "violence"@);
                let violence_graphic = required::<bool>(m, "violence/graphic"@);
                if hate is Some
                    && hate_threatening is Some
                    && self_harm is Some
                    && sexual is Some
                    && sexual_minors is Some
                    && violence is Some
                    && violence_graphic is Some {
                    Some(
                        CategoriesView {
                            hate: hate->0,
                            hate_threatening: hate_threatening->0,
                            self_harm: self_harm->0,
                            sexual: sexual->0,
                            sexual_minors: sexual_minors->0,
                            violence: violence->0,
                            violence_graphic: violence_graphic->0,
                        },
                    )
                } else {
                    None
                }
            },
            _ => None,
        }
    }

    fn to_json(&self) -> (doc: Json) {
        let mut m: Vec<(String, Json)> = Vec::new();
        proof {
            lemma_members_empty(m);
        }
        put(&mut m, "hate", &self.hate);
        put(&mut m, "hate/threatening", &self.hate_threatening);
        put(&mut m, "self-harm", &self.self_harm);
        put(&mut m, "sexual", &self.sexual);
        put(&mut m, "sexual/minors", &self.sexual_minors);
        put(&mut m, "violence", &self.violence);
        put(&mut m, "violence/graphic", &self.violence_graphic);
        proof {
            lemma_object_view(m);
        }
        Json::Object(m)
    }

    fn from_json(doc: &Json) -> (r: Option<Categories>) {
        match doc {
            Json::Object(m) => {
                proof {
                    lemma_object_view(*m);
                }
                let hate = match get_required::<bool>(m, "hate") {
                    Some(v) => v,
                    None => return None,
                };
                let hate_threatening = match get_required::<bool>(m, "hate/threatening") {
                    Some(v) => v,
                    None => return None,
                };
                let self_harm = match get_required::<bool>(m, "self-harm") {
                    Some(v) => v,
                    None => return None,
                };
                let sexual = match get_required::<bool>(m, "sexual") {
                    Some(v) => v,
                    None => return None,
                };
                let sexual_minors = match get_required::<bool>(m, "sexual/minors") {
                    Some(v) => v,
                    None => return None,
                };
                let violence = match get_required::<bool>(m, "violence") {
                    Some(v) => v,
                    None => return None,
                };
                let violence_graphic = match get_required::<bool>(m, "violence/graphic") {
                    Some(v) => v,
                    None => return None,
                };
                Some(
                    Categories {
                        hate,
                        hate_threatening,
                        self_harm,
                        sexual,
                        sexual_minors,
                        violence,
                        violence_graphic,
                    },
                )
            },
            _ => None,
        }
    }

    proof fn lemma_round_trip(v: CategoriesView) {
        Categories::lemma_names_differ();
        let m = Categories::encoded(v)->Object_0;
        assert(required::<bool>(m, "hate"@) == Some(v.hate)) by {
            broadcast use group_members;

            bool::lemma_round_trip(v.hate);
        }
        assert(required::<bool>(m, "hate/threatening"@) == Some(v.hate_threatening)) by {
            broadcast use group_members;

            bool::lemma_round_trip(v.hate_threatening);
        }
        assert(required::<bool>(m, "self-harm"@) == Some(v.self_harm)) by {
            broadcast use group_members;

            bool::lemma_round_trip(v.self_harm);
        }
        assert(required::<bool>(m, "sexual"@) == Some(v.sexual)) by {
            broadcast use group_members;

            bool::lemma_round_trip(v.sexual);
        }
        assert(required::<bool>(m, "sexual/minors"@) == Some(v.sexual_minors)) by {
            broadcast use group_members;

            bool::lemma_round_trip(v.sexual_minors);
        }
        assert(required::<bool>(m, "violence"@) == Some(v.violence)) by {
            broadcast use group_members;

            bool::lemma_round_trip(v.violence);
        }
        assert(required::<bool>(m, "violence/graphic"@) == Some(v.violence_graphic)) by {
            broadcast use group_members;

            bool::lemma_round_trip(v.violence_graphic);
        }
    }
}

impl Categories {
    /// No two members of the JSON form have the same name.
    proof fn lemma_names_differ()
        ensures
            "hate"@ != "hate/threatening"@,
            "hate"@ != "self-harm"@,
            "hate"@ != "sexual"@,
            "hate"@ != "sexual/minors"@,
            "hate"@ != "violence"@,
            "hate"@ != "violence/graphic"@,
            "hate/threatening"@ != "self-harm"@,
            "hate/threatening"@ != "sexual"@,
            "hate/threatening"@ != "sexual/minors"@,
            "hate/threatening"@ != "violence"@,
            "hate/threatening"@ != "violence/graphic"@,
            "self-harm"@ != "sexual"@,
            "self-harm"@ != "sexual/minors"@,
            "self-harm"@ != "violence"@,
            "self-harm"@ != "violence/graphic"@,
            "sexual"@ != "sexual/minors"@,
            "sexual"@ != "violence"@,
            "sexual"@ != "violence/graphic"@,
            "sexual/minors"@ != "violence"@,
            "sexual/minors"@ != "violence/graphic"@,
            "violence"@ != "violence/graphic"@,
    {
        reveal_strlit("hate");
        reveal_strlit("hate/threatening");
        reveal_strlit("self-harm");
        reveal_strlit("sexual");
        reveal_strlit("sexual/minors");
        reveal_strlit("violence");
        reveal_strlit("violence/graphic");
        assert("hate"@.len() == 4);
        assert("hate/threatening"@.len() == 16);
        assert("self-harm"@.len() == 9);
        assert("sexual"@.len() == 6);
        assert("sexual/minors"@.len() == 13);
        assert("violence"@.len() == 8);
        assert("violence/graphic"@.len() == 16);
        assert("hate/threatening"@[0] == 'h');
        assert("violence/graphic"@[0] == 'v');
    }
}

/// The judgement of one text.
#[derive(Clone, Debug, PartialEq)]
pub struct Struct {
    pub categories: Categories,
    pub category_scores: CategoryScores,
    pub flagged: bool,
}

/// The model of [`Struct`].
pub struct StructView {
    pub categories: CategoriesView,
    pub category_scores: CategoryScoresView,
    pub flagged: bool,
}

impl DeepView for Struct {
    type V = StructView;

    open spec fn deep_view(&self) -> StructView {
        StructView {
            categories: self.categories.deep_view(),
            category_scores: self.category_scores.deep_view(),
            flagged: self.flagged,
        }
    }
}

impl JsonCodec for Struct {
    open spec fn encoded(v: StructView) -> JsonView {
        let m = Seq::empty();
        let m = with::<Categories>(m, "categories"@, v.categories);
        let m = with::<CategoryScores>(m, "category_scores"@, v.category_scores);
        let m = with::<bool>(m, "flagged"@, v.flagged);
        JsonView::Object(m)
    }

    open spec fn decoded(doc: JsonView) -> Option<StructView> {
        match doc {
            JsonView::Object(m) => {
                let categories = required::<Categories>(m, "categories"@);
                let category_scores = required::<CategoryScores>(m, "category_scores"@);
                let flagged = required::<bool>(m, "flagged"@);
                if categories is Some && category_scores is Some && flagged is Some {
                    Some(
                        StructView {
                            categories: categories->0,
                            category_scores: category_scores->0,
                            flagged: flagged->0,
                        },
                    )
                } else {
                    None
                }
            },
            _ => None,
        }
    }

    fn to_json(&self) -> (doc: Json) {
        let mut m: Vec<(String, Json)> = Vec::new();
        proof {
            lemma_members_empty(m);
        }
        put(&mut m, "categories", &self.categories);
        put(&mut m, "category_scores", &self.category_scores);
        put(&mut m, "flagged", &self.flagged);
        proof {
            lemma_object_view(m);
        }
        Json::Object(m)
    }

    fn from_json(doc: &Json) -> (r: Option<Struct>) {
        match doc {
            Json::Object(m) => {
                proof {
                    lemma_object_view(*m);
                }
                let categories = match get_required::<Categories>(m, "categories") {
                    Some(v) => v,
                    None => return None,
                };
                let category_scores = match get_required::<CategoryScores>(m, "category_scores") {
                    Some(v) => v,
                    None => return None,
                };
                let flagged = match get_required::<bool>(m, "flagged") {
                    Some(v) => v,
                    None => return None,
                };
                Some(Struct { categories, category_scores, flagged })
            },
            _ => None,
        }
    }

    proof fn lemma_round_trip(v: StructView) {
        broadcast use group_members;

        Struct::lemma_names_differ();
        Categories::lemma_round_trip(v.categories);
        CategoryScores::lemma_round_trip(v.category_scores);
        bool::lemma_round_trip(v.flagged);
    }
}

impl Struct {
    /// No two members of the JSON form have the same name.
    proof fn lemma_names_differ()
        ensures
            "categories"@ != "category_scores"@,
            "categories"@ != "flagged"@,
            "category_scores"@ != "flagged"@,
    {
        reveal_strlit("categories");
        reveal_strlit("category_scores");
        reveal_strlit("flagged");
        assert("categories"@.len() == 10);
        assert("category_scores"@.len() == 15);
        assert("flagged"@.len() == 7);
    }
}

/// What the service answers to a [`ModerationRequest`].
#[derive(Clone, Debug, PartialEq)]
pub struct ModerationResponse {
    pub id: String,
    pub model: String,
    pub results: Vec<Struct>,
}

/// The model of [`ModerationResponse`].
pub struct ModerationResponseView {
    pub id: Seq<char>,
    pub model: Seq<char>,
    pub results: Seq<StructView>,
}

impl DeepView for ModerationResponse {
    type V = ModerationResponseView;

    open spec fn deep_view(&self) -> ModerationResponseView {
        ModerationResponseView {
            id: self.id@,
            model: self.model@,
            results: self.results.deep_view(),
        }
    }
}

impl JsonCodec for ModerationResponse {
    open spec fn encoded(v: ModerationResponseView) -> JsonView {
        let m = Seq::empty();
        let m = with::<String>(m, "id"@, v.id);
        let m = with::<String>(m, "model"@, v.model);
        let m = with::<Vec<Struct>>(m, "results"@, v.results);
        JsonView::Object(m)
    }

    open spec fn decoded(doc: JsonView) -> Option<ModerationResponseView> {
        match doc {
            JsonView::Object(m) => {
                let id = required::<String>(m, "id"@);
                let model = required::<String>(m, "model"@);
                let results = required::<Vec<Struct>>(m, "results"@);
                if id is Some && model is Some && results is Some {
                    Some(
                        ModerationResponseView {
                            id: id->0,
                            model: model->0,
                            results: results->0,
                        },
                    )
                } else {
                    None
                }
            },
            _ => None,
        }
    }

    fn to_json(&self) -> (doc: Json) {
        let mut m: Vec<(String, Json)> = Vec::new();
        proof {
            lemma_members_empty(m);
        }
        put(&mut m, "id", &self.id);
        put(&mut m, "model", &self.model);
        put(&mut m, "results", &self.results);
        proof {
            lemma_object_view(m);
        }
        Json::Object(m)
    }

    fn from_json(doc: &Json) -> (r: Option<ModerationResponse>) {
        match doc {
            Json::Object(m) => {
                proof {
                    lemma_object_view(*m);
                }
                let id = match get_required::<String>(m, "id") {
                    Some(v) => v,
                    None => return None,
                };
                let model = match get_required::<String>(m, "model") {
                    Some(v) => v,
                    None => return None,
                };
                let results = match get_required::<Vec<Struct>>(m, "results") {
                    Some(v) => v,
                    None => return None,
                };
                Some(ModerationResponse { id, model, results })
            },
            _ => None,
        }
    }

    proof fn lemma_round_trip(v: ModerationResponseView) {
        broadcast use group_members;

        ModerationResponse::lemma_names_differ();
        String::lemma_round_trip(v.id);
        String::lemma_round_trip(v.model);
        Vec::<Struct>::lemma_round_trip(v.results);
    }
}

impl ModerationResponse {
    /// No two members of the JSON form have the same name.
    proof fn lemma_names_differ()
        ensures
            "id"@ != "model"@,
            "id"@ != "results"@,
            "model"@ != "results"@,
    {
        reveal_strlit("id");
        reveal_strlit("model");
        reveal_strlit("results");
        assert("id"@.len() == 2);
        assert("model"@.len() == 5);
        assert("results"@.len() == 7);
    }
}

/// The models that judge a text.
#[derive(Clone, Copy, Debug, PartialEq, Eq)]
pub enum ModerationModel {
    TextModerationStable,
    TextModerationLatest,
}

impl DeepView for ModerationModel {
    type V = ModerationModel;

    open spec fn deep_view(&self) -> ModerationModel {
        *self
    }
}

impl JsonCodec for ModerationModel {
    open spec fn encoded(v: ModerationModel) -> JsonView {
        JsonView::String(v.wire_name())
    }

    open spec fn decoded(doc: JsonView) -> Option<ModerationModel> {
        match doc {
            JsonView::String(s) => ModerationModel::named(s),
            _ => None,
        }
    }

    fn to_json(&self) -> (doc: Json) {
        Json::String(self.as_wire_name().to_owned())
    }

    fn from_json(doc: &Json) -> (r: Option<ModerationModel>) {
        match doc {
            Json::String(s) => ModerationModel::from_wire_name(s.as_str()),
            _ => None,
        }
    }

    proof fn lemma_round_trip(v: ModerationModel) {
        ModerationModel::lemma_named(v);
    }
}

impl ModerationModel {
    /// The name of the model on the wire.
    pub open spec fn wire_name(self) -> Seq<char> {
        match self {
            ModerationModel::TextModerationStable => "text-moderation-stable"@,
            ModerationModel::TextModerationLatest => "text-moderation-latest"@,
        }
    }

    pub fn as_wire_name(&self) -> (r: &'static str)
        ensures
            r@ == self.wire_name(),
    {
        match self {
            ModerationModel::TextModerationStable => "text-moderation-stable",
            ModerationModel::TextModerationLatest => "text-moderation-latest",
        }
    }

    /// The value of a name on the wire, if it is one.
    pub open spec fn named(s: Seq<char>) -> Option<ModerationModel> {
        if s == "text-moderation-stable"@ {
            Some(ModerationModel::TextModerationStable)
        } else if s == "text-moderation-latest"@ {
            Some(ModerationModel::TextModerationLatest)
        } else {
            None
        }
    }

    pub fn from_wire_name(s: &str) -> (r: Option<ModerationModel>)
        ensures
            r == ModerationModel::named(s@),
    {
        if same_text(s, "text-moderation-stable") {
            Some(ModerationModel::TextModerationStable)
        } else if same_text(s, "text-moderation-latest") {
            Some(ModerationModel::TextModerationLatest)
        } else {
            None
        }
    }

    /// Every value is found again by its name.
    pub proof fn lemma_named(v: ModerationModel)
        ensures
            ModerationModel::named(v.wire_name()) == Some(v),
    {
        reveal_strlit("text-moderation-stable");
        reveal_strlit("text-moderation-latest");
        assert("text-moderation-stable"@.len() == 22);
        assert("text-moderation-latest"@.len() == 22);
        assert("text-moderation-stable"@[16] == 's');
        assert("text-moderation-latest"@[16] == 'l');
    }
}

} // verus!
