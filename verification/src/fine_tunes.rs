//! The fine-tunes endpoints.

use crate::client::OpenAiClient;
use crate::codec::{
    get_optional, get_required, group_members, optional, present, put, put_nullable, put_some,
    required, with, with_nullable, with_some, JsonCodec,
};
use crate::http::{endpoint_url, resource_url, ApiRequest, BodyView, HttpRequest, Listing, Method};
use crate::json::{
    json_text, lemma_members_empty, lemma_object_view, member, Json, JsonNumber, JsonView,
};
use vstd::std_specs::convert::FromSpecImpl;
use vstd::prelude::*;

verus! {

/// Asks the service to tune a model on an uploaded file.
#[derive(Clone, Debug, PartialEq)]
pub struct FineTuneCreateRequest {
    /// The identifier of the uploaded file to learn from.
    training_file: String,
    validation_file: Option<String>,
    model: Option<String>,
    n_epochs: Option<i32>,
    batch_size: Option<i32>,
    learning_rate_multiplier: Option<JsonNumber>,
    prompt_loss_weight: Option<JsonNumber>,
    compute_classification_metrics: Option<bool>,
    classification_n_classes: Option<i32>,
    classification_positive_class: Option<String>,
    classification_betas: Option<Vec<JsonNumber>>,
    suffix: Option<String>,
}

/// The model of [`FineTuneCreateRequest`].
pub struct FineTuneCreateRequestView {
    pub training_file: Seq<char>,
    pub validation_file: Option<Seq<char>>,
    pub model: Option<Seq<char>>,
    pub n_epochs: Option<i32>,
    pub batch_size: Option<i32>,
    pub learning_rate_multiplier: Option<JsonNumber>,
    pub prompt_loss_weight: Option<JsonNumber>,
    pub compute_classification_metrics: Option<bool>,
    pub classification_n_classes: Option<i32>,
    pub classification_positive_class: Option<Seq<char>>,
    pub classification_betas: Option<Seq<JsonNumber>>,
    pub suffix: Option<Seq<char>>,
}

impl DeepView for FineTuneCreateRequest {
    type V = FineTuneCreateRequestView;

    closed spec fn deep_view(&self) -> FineTuneCreateRequestView {
        FineTuneCreateRequestView {
            training_file: self.training_file@,
            validation_file: self.validation_file.deep_view(),
            model: self.model.deep_view(),
            n_epochs: self.n_epochs,
            batch_size: self.batch_size,
            learning_rate_multiplier: self.learning_rate_multiplier,
            prompt_loss_weight: self.prompt_loss_weight,
            compute_classification_metrics: self.compute_classification_metrics,
            classification_n_classes: self.classification_n_classes,
            classification_positive_class: self.classification_positive_class.deep_view(),
            classification_betas: self.classification_betas.deep_view(),
            suffix: self.suffix.deep_view(),
        }
    }
}

impl JsonCodec for FineTuneCreateRequest {
    open spec fn encoded(v: FineTuneCreateRequestView) -> JsonView {
        let m = Seq::empty();
        let m = with::<String>(m, "training_file"@, v.training_file);
        let m = with_some::<String>(m, "validation_file"@, v.validation_file);
        let m = with_some::<String>(m, "model"@, v.model);
        let m = with_some::<i32>(m, "n_epochs"@, v.n_epochs);
        let m = with_some::<i32>(m, "batch_size"@, v.batch_size);
        let m = with_some::<JsonNumber>(m, "learning_rate_multiplier"@, v.learning_rate_multiplier);
        let m = with_some::<JsonNumber>(m, "prompt_loss_weight"@, v.prompt_loss_weight);
        let m = with_some::<bool>(
            m,
            "compute_classification_metrics"@,
            v.compute_classification_metrics,
        );
        let m = with_some::<i32>(m, "classification_n_classes"@, v.classification_n_classes);
        let m = with_some::<String>(
            m,
            "classification_positive_class"@,
            v.classification_positive_class,
        );
        let m = with_some::<Vec<JsonNumber>>(m, "classification_betas"@, v.classification_betas);
        let m = with_some::<String>(m, "suffix"@, v.suffix);
        JsonView::Object(m)
    }

    open spec fn decoded(doc: JsonView) -> Option<FineTuneCreateRequestView> {
        match doc {
            JsonView::Object(m) => {
                let training_file = required::<String>(m, "training_file"@);
                let validation_file = optional::<String>(m, "validation_file"@);
                let model = optional::<String>(m, "model"@);
                let n_epochs = optional::<i32>(m, "n_epochs"@);
                let batch_size = optional::<i32>(m, "batch_size"@);
                let learning_rate_multiplier = optional::<JsonNumber>(
                    m,
                    "learning_rate_multiplier"@,
                );
                let prompt_loss_weight = optional::<JsonNumber>(m, "prompt_loss_weight"@);
                let compute_classification_metrics = optional::<bool>(
                    m,
                    "compute_classification_metrics"@,
                );
                let classification_n_classes = optional::<i32>(m, "classification_n_classes"@);
                let classification_positive_class = optional::<String>(
                    m,
                    "classification_positive_class"@,
                );
                let classification_betas = optional::<Vec<JsonNumber>>(m, "classification_betas"@);
                let suffix = optional::<String>(m, "suffix"@);
                if training_file is Some
                    && validation_file is Some
                    && model is Some
                    && n_epochs is Some
                    && batch_size is Some
                    && learning_rate_multiplier is Some
                    && prompt_loss_weight is Some
                    && compute_classification_metrics is Some
                    && classification_n_classes is Some
                    && classification_positive_class is Some
                    && classification_betas is Some
                    && suffix is Some {
                    Some(
                        FineTuneCreateRequestView {
                            training_file: training_file->0,
                            validation_file: validation_file->0,
                            model: model->0,
                            n_epochs: n_epochs->0,
                            batch_size: batch_size->0,
                            learning_rate_multiplier: learning_rate_multiplier->0,
                            prompt_loss_weight: prompt_loss_weight->0,
                            compute_classification_metrics: compute_classification_metrics->0,
                            classification_n_classes: classification_n_classes->0,
                            classification_positive_class: classification_positive_class->0,
                            classification_betas: classification_betas->0,
                            suffix: suffix->0,
                        },
                    )
                } else {
                    None
                }
            },
            _ => None,
        }
    }

    fn to_json(&self) -> (doc: Json) {
        let mut m: Vec<(String, Json)> = Vec::new();
        proof {
            lemma_members_empty(m);
        }
        put(&mut m, "training_file", &self.training_file);
        put_some(&mut m, "validation_file", &self.validation_file);
        put_some(&mut m, "model", &self.model);
        put_some(&mut m, "n_epochs", &self.n_epochs);
        put_some(&mut m, "batch_size", &self.batch_size);
        put_some(&mut m, "learning_rate_multiplier", &self.learning_rate_multiplier);
        put_some(&mut m, "prompt_loss_weight", &self.prompt_loss_weight);
        put_some(&mut m, "compute_classification_metrics", &self.compute_classification_metrics);
        put_some(&mut m, "classification_n_classes", &self.classification_n_classes);
        put_some(&mut m, "classification_positive_class", &self.classification_positive_class);
        put_some(&mut m, "classification_betas", &self.classification_betas);
        put_some(&mut m, "suffix", &self.suffix);
        proof {
            lemma_object_view(m);
        }
        Json::Object(m)
    }

    fn from_json(doc: &Json) -> (r: Option<FineTuneCreateRequest>) {
        match doc {
            Json::Object(m) => {
                proof {
                    lemma_object_view(*m);
                }
                let training_file = match get_required::<String>(m, "training_file") {
                    Some(v) => v,
                    None => return None,
                };
                let validation_file = match get_optional::<String>(m, "validation_file") {
                    Some(v) => v,
                    None => return None,
                };
                let model = match get_optional::<String>(m, "model") {
                    Some(v) => v,
                    None => return None,
                };
                let n_epochs = match get_optional::<i32>(m, "n_epochs") {
                    Some(v) => v,
                    None => return None,
                };
                let batch_size = match get_optional::<i32>(m, "batch_size") {
                    Some(v) => v,
                    None => return None,
                };
                let learning_rate_multiplier = match get_optional::<JsonNumber>(
                    m,
                    "learning_rate_multiplier",
                ) {
                    Some(v) => v,
                    None => return None,
                };
                let prompt_loss_weight = match get_optional::<JsonNumber>(m, "prompt_loss_weight") {
                    Some(v) => v,
                    None => return None,
                };
                let compute_classification_metrics = match get_optional::<bool>(
                    m,
                    "compute_classification_metrics",
                ) {
                    Some(v) => v,
                    None => return None,
                };
                let classification_n_classes = match get_optional::<i32>(
                    m,
                    "classification_n_classes",
                ) {
                    Some(v) => v,
                    None => return None,
                };
                let classification_positive_class = match get_optional::<String>(
                    m,
                    "classification_positive_class",
                ) {
                    Some(v) => v,
                    None => return None,
                };
                let classification_betas = match get_optional::<Vec<JsonNumber>>(
                    m,
                    "classification_betas",
                ) {
                    Some(v) => v,
                    None => return None,
                };
                let suffix = match get_optional::<String>(m, "suffix") {
                    Some(v) => v,
                    None => return None,
                };
                Some(
                    FineTuneCreateRequest {
                        training_file,
                        validation_file,
                        model,
                        n_epochs,
                        batch_size,
                        learning_rate_multiplier,
                        prompt_loss_weight,
                        compute_classification_metrics,
                        classification_n_classes,
                        classification_positive_class,
                        classification_betas,
                        suffix,
                    },
                )
            },
            _ => None,
        }
    }

    proof fn lemma_round_trip(v: FineTuneCreateRequestView) {
        FineTuneCreateRequest::lemma_names_differ();
        let m = FineTuneCreateRequest::encoded(v)->Object_0;
        assert(required::<String>(m, "training_file"@) == Some(v.training_file)) by {
            broadcast use group_members;

            String::lemma_round_trip(v.training_file);
        }
        assert(optional::<String>(m, "validation_file"@) == Some(v.validation_file)) by {
            broadcast use group_members;

            if v.validation_file is Some {
                String::lemma_round_trip(v.validation_file->0);
            }
        }
        assert(optional::<String>(m, "model"@) == Some(v.model)) by {
            broadcast use group_members;

            if v.model is Some {
                String::lemma_round_trip(v.model->0);
            }
        }
        assert(optional::<i32>(m, "n_epochs"@) == Some(v.n_epochs)) by {
            broadcast use group_members;

            if v.n_epochs is Some {
                i32::lemma_round_trip(v.n_epochs->0);
            }
        }
        assert(optional::<i32>(m, "batch_size"@) == Some(v.batch_size)) by {
            broadcast use group_members;

            if v.batch_size is Some {
                i32::lemma_round_trip(v.batch_size->0);
            }
        }
        assert(optional::<JsonNumber>(m, "learning_rate_multiplier"@)
            == Some(v.learning_rate_multiplier)) by {
            broadcast use group_members;

            if v.learning_rate_multiplier is Some {
                JsonNumber::lemma_round_trip(v.learning_rate_multiplier->0);
            }
        }
        assert(optional::<JsonNumber>(m, "prompt_loss_weight"@) == Some(v.prompt_loss_weight)) by {
            broadcast use group_members;

            if v.prompt_loss_weight is Some {
                JsonNumber::lemma_round_trip(v.prompt_loss_weight->0);
            }
        }
        assert(optional::<bool>(m, "compute_classification_metrics"@)
            == Some(v.compute_classification_metrics)) by {
            broadcast use group_members;

            if v.compute_classification_metrics is Some {
                bool::lemma_round_trip(v.compute_classification_metrics->0);
            }
        }
        assert(optional::<i32>(m, "classification_n_classes"@)
            == Some(v.classification_n_classes)) by {
            broadcast use group_members;

            if v.classification_n_classes is Some {
                i32::lemma_round_trip(v.classification_n_classes->0);
            }
        }
        assert(optional::<String>(m, "classification_positive_class"@)
            == Some(v.classification_positive_class)) by {
            broadcast use group_members;

            if v.classification_positive_class is Some {
                String::lemma_round_trip(v.classification_positive_class->0);
            }
        }
        assert(optional::<Vec<JsonNumber>>(m, "classification_betas"@)
            == Some(v.classification_betas)) by {
            broadcast use group_members;

            if v.classification_betas is Some {
                Vec::<JsonNumber>::lemma_round_trip(v.classification_betas->0);
            }
        }
        assert(optional::<String>(m, "suffix"@) == Some(v.suffix)) by {
            broadcast use group_members;

            if v.suffix is Some {
                String::lemma_round_trip(v.suffix->0);
            }
        }
    }
}

impl FineTuneCreateRequest {
    /// No two members of the JSON form have the same name.
    proof fn lemma_names_differ()
        ensures
            "training_file"@ != "validation_file"@,
            "training_file"@ != "model"@,
            "training_file"@ != "n_epochs"@,
            "training_file"@ != "batch_size"@,
            "training_file"@ != "learning_rate_multiplier"@,
            "training_file"@ != "prompt_loss_weight"@,
            "training_file"@ != "compute_classification_metrics"@,
            "training_file"@ != "classification_n_classes"@,
            "training_file"@ != "classification_positive_class"@,
            "training_file"@ != "classification_betas"@,
            "training_file"@ != "suffix"@,
            "validation_file"@ != "model"@,
            "validation_file"@ != "n_epochs"@,
            "validation_file"@ != "batch_size"@,
            "validation_file"@ != "learning_rate_multiplier"@,
            "validation_file"@ != "prompt_loss_weight"@,
            "validation_file"@ != "compute_classification_metrics"@,
            "validation_file"@ != "classification_n_classes"@,
            "validation_file"@ != "classification_positive_class"@,
            "validation_file"@ != "classification_betas"@,
            "validation_file"@ != "suffix"@,
            "model"@ != "n_epochs"@,
            "model"@ != "batch_size"@,
            "model"@ != "learning_rate_multiplier"@,
            "model"@ != "prompt_loss_weight"@,
            "model"@ != "compute_classification_metrics"@,
            "model"@ != "classification_n_classes"@,
            "model"@ != "classification_positive_class"@,
            "model"@ != "classification_betas"@,
            "model"@ != "suffix"@,
            "n_epochs"@ != "batch_size"@,
            "n_epochs"@ != "learning_rate_multiplier"@,
            "n_epochs"@ != "prompt_loss_weight"@,
            "n_epochs"@ != "compute_classification_metrics"@,
            "n_epochs"@ != "classification_n_classes"@,
            "n_epochs"@ != "classification_positive_class"@,
            "n_epochs"@ != "classification_betas"@,
            "n_epochs"@ != "suffix"@,
            "batch_size"@ != "learning_rate_multiplier"@,
            "batch_size"@ != "prompt_loss_weight"@,
            "batch_size"@ != "compute_classification_metrics"@,
            "batch_size"@ != "classification_n_classes"@,
            "batch_size"@ != "classification_positive_class"@,
            "batch_size"@ != "classification_betas"@,
            "batch_size"@ != "suffix"@,
            "learning_rate_multiplier"@ != "prompt_loss_weight"@,
            "learning_rate_multiplier"@ != "compute_classification_metrics"@,
            "learning_rate_multiplier"@ != "classification_n_classes"@,
            "learning_rate_multiplier"@ != "classification_positive_class"@,
            "learning_rate_multiplier"@ != "classification_betas"@,
            "learning_rate_multiplier"@ != "suffix"@,
            "prompt_loss_weight"@ != "compute_classification_metrics"@,
            "prompt_loss_weight"@ != "classification_n_classes"@,
            "prompt_loss_weight"@ != "classification_positive_class"@,
            "prompt_loss_weight"@ != "classification_betas"@,
            "prompt_loss_weight"@ != "suffix"@,
            "compute_classification_metrics"@ != "classification_n_classes"@,
            "compute_classification_metrics"@ != "classification_positive_class"@,
            "compute_classification_metrics"@ != "classification_betas"@,
            "compute_classification_metrics"@ != "suffix"@,
            "classification_n_classes"@ != "classification_positive_class"@,
            "classification_n_classes"@ != "classification_betas"@,
            "classification_n_classes"@ != "suffix"@,
            "classification_positive_class"@ != "classification_betas"@,
            "classification_positive_class"@ != "suffix"@,
            "classification_betas"@ != "suffix"@,
    {
        reveal_strlit("training_file");
        reveal_strlit("validation_file");
        reveal_strlit("model");
        reveal_strlit("n_epochs");
        reveal_strlit("batch_size");
        reveal_strlit("learning_rate_multiplier");
        reveal_strlit("prompt_loss_weight");
        reveal_strlit("compute_classification_metrics");
        reveal_strlit("classification_n_classes");
        reveal_strlit("classification_positive_class");
        reveal_strlit("classification_betas");
        reveal_strlit("suffix");
        assert("training_file"@.len() == 13);
        assert("validation_file"@.len() == 15);
        assert("model"@.len() == 5);
        assert("n_epochs"@.len() == 8);
        assert("batch_size"@.len() == 10);
        assert("learning_rate_multiplier"@.len() == 24);
        assert("prompt_loss_weight"@.len() == 18);
        assert("compute_classification_metrics"@.len() == 30);
        assert("classification_n_classes"@.len() == 24);
        assert("classification_positive_class"@.len() == 29);
        assert("classification_betas"@.len() == 20);
        assert("suffix"@.len() == 6);
        assert("learning_rate_multiplier"@[0] == 'l');
        assert("classification_n_classes"@[0] == 'c');
    }
}

impl FineTuneCreateRequest {
    pub fn new(training_file: String) -> (r: Self)
        ensures
            r.deep_view() == (FineTuneCreateRequestView {
                training_file: training_file@,
                validation_file: None,
                model: None,
                n_epochs: None,
                batch_size: None,
                learning_rate_multiplier: None,
                prompt_loss_weight: None,
                compute_classification_metrics: None,
                classification_n_classes: None,
                classification_positive_class: None,
                classification_betas: None,
                suffix: None,
            }),
    {
        FineTuneCreateRequest {
            training_file,
            validation_file: None,
            model: None,
            n_epochs: None,
            batch_size: None,
            learning_rate_multiplier: None,
            prompt_loss_weight: None,
            compute_classification_metrics: None,
            classification_n_classes: None,
            classification_positive_class: None,
            classification_betas: None,
            suffix: None,
        }
    }

    pub fn validation_file(self, validation_file: String) -> (r: Self)
        ensures
            r.deep_view() == (FineTuneCreateRequestView {
                validation_file: Some(validation_file@),
                ..self.deep_view()
            }),
    {
        let mut request = self;
        request.validation_file = Some(validation_file);
        request
    }

    pub fn model(self, model: String) -> (r: Self)
        ensures
            r.deep_view() == (FineTuneCreateRequestView {
                model: Some(model@),
                ..self.deep_view()
            }),
    {
        let mut request = self;
        request.model = Some(model);
        request
    }

    pub fn n_epochs(self, n_epochs: i32) -> (r: Self)
        ensures
            r.deep_view() == (FineTuneCreateRequestView {
                n_epochs: Some(n_epochs),
                ..self.deep_view()
            }),
    {
        let mut request = self;
        request.n_epochs = Some(n_epochs);
        request
    }

    pub fn batch_size(self, batch_size: i32) -> (r: Self)
        ensures
            r.deep_view() == (FineTuneCreateRequestView {
                batch_size: Some(batch_size),
                ..self.deep_view()
            }),
    {
        let mut request = self;
        request.batch_size = Some(batch_size);
        request
    }

    pub fn learning_rate_multiplier(self, learning_rate_multiplier: JsonNumber) -> (r: Self)
        ensures
            r.deep_view() == (FineTuneCreateRequestView {
                learning_rate_multiplier: Some(learning_rate_multiplier),
                ..self.deep_view()
            }),
    {
        let mut request = self;
        request.learning_rate_multiplier = Some(learning_rate_multiplier);
        request
    }

    pub fn prompt_loss_weight(self, prompt_loss_weight: JsonNumber) -> (r: Self)
        ensures
            r.deep_view() == (FineTuneCreateRequestView {
                prompt_loss_weight: Some(prompt_loss_weight),
                ..self.deep_view()
            }),
    {
        let mut request = self;
        request.prompt_loss_weight = Some(prompt_loss_weight);
        request
    }

    pub fn compute_classification_metrics(self, compute_classification_metrics: bool) -> (r: Self)
        ensures
            r.deep_view() == (FineTuneCreateRequestView {
                compute_classification_metrics: Some(compute_classification_metrics),
                ..self.deep_view()
            }),
    {
        let mut request = self;
        request.compute_classification_metrics = Some(compute_classification_metrics);
        request
    }

    pub fn classification_n_classes(self, classification_n_classes: i32) -> (r: Self)
        ensures
            r.deep_view() == (FineTuneCreateRequestView {
                classification_n_classes: Some(classification_n_classes),
                ..self.deep_view()
            }),
    {
        let mut request = self;
        request.classification_n_classes = Some(classification_n_classes);
        request
    }

    pub fn classification_positive_class(self, classification_positive_class: String) -> (r: Self)
        ensures
            r.deep_view() == (FineTuneCreateRequestView {
                classification_positive_class: Some(classification_positive_class@),
                ..self.deep_view()
            }),
    {
        let mut request = self;
        request.classification_positive_class = Some(classification_positive_class);
        request
    }

    pub fn classification_betas(self, classification_betas: Vec<JsonNumber>) -> (r: Self)
        ensures
            r.deep_view() == (FineTuneCreateRequestView {
                classification_betas: Some(classification_betas.deep_view()),
                ..self.deep_view()
            }),
    {
        let mut request = self;
        request.classification_betas = Some(classification_betas);
        request
    }

    pub fn suffix(self, suffix: String) -> (r: Self)
        ensures
            r.deep_view() == (FineTuneCreateRequestView {
                suffix: Some(suffix@),
                ..self.deep_view()
            }),
    {
        let mut request = self;
        request.suffix = Some(suffix);
        request
    }

    /// The JSON form has one member for each field that is set, under the name that
    /// the service knows the field by, and no other member. None of them is `null`:
    /// a field that is not set is left out.
    pub proof fn lemma_wire_form(v: FineTuneCreateRequestView)
        ensures
            FineTuneCreateRequest::encoded(v) is Object,
            ({
                let m = FineTuneCreateRequest::encoded(v)->Object_0;
                &&& member(m, "training_file"@) == Some(String::encoded(v.training_file))
                &&& member(m, "validation_file"@) == present::<String>(v.validation_file)
                &&& member(m, "model"@) == present::<String>(v.model)
                &&& member(m, "n_epochs"@) == present::<i32>(v.n_epochs)
                &&& member(m, "batch_size"@) == present::<i32>(v.batch_size)
                &&& member(m, "learning_rate_multiplier"@)
                    == present::<JsonNumber>(v.learning_rate_multiplier)
                &&& member(m, "prompt_loss_weight"@) == present::<JsonNumber>(v.prompt_loss_weight)
                &&& member(m, "compute_classification_metrics"@)
                    == present::<bool>(v.compute_classification_metrics)
                &&& member(m, "classification_n_classes"@)
                    == present::<i32>(v.classification_n_classes)
                &&& member(m, "classification_positive_class"@)
                    == present::<String>(v.classification_positive_class)
                &&& member(m, "classification_betas"@)
                    == present::<Vec<JsonNumber>>(v.classification_betas)
                &&& member(m, "suffix"@) == present::<String>(v.suffix)
                &&& forall|k: Seq<char>|
                    k != "training_file"@ && k != "validation_file"@ && k != "model"@
                    && k != "n_epochs"@ && k != "batch_size"@ && k != "learning_rate_multiplier"@
                    && k != "prompt_loss_weight"@ && k != "compute_classification_metrics"@
                    && k != "classification_n_classes"@ && k != "classification_positive_class"@
                    && k != "classification_betas"@ && k != "suffix"@ ==> member(m, k) is None
                &&& forall|k: Seq<char>| member(m, k) != Some(JsonView::Null)
            }),
    {
        FineTuneCreateRequest::lemma_names_differ();
        let m = FineTuneCreateRequest::encoded(v)->Object_0;
        assert(member(m, "training_file"@) == Some(String::encoded(v.training_file))) by {
            broadcast use group_members;
        }
        assert(member(m, "validation_file"@) == present::<String>(v.validation_file)) by {
            broadcast use group_members;
        }
        assert(member(m, "model"@) == present::<String>(v.model)) by {
            broadcast use group_members;
        }
        assert(member(m, "n_epochs"@) == present::<i32>(v.n_epochs)) by {
            broadcast use group_members;
        }
        assert(member(m, "batch_size"@) == present::<i32>(v.batch_size)) by {
            broadcast use group_members;
        }
        assert(member(m, "learning_rate_multiplier"@)
            == present::<JsonNumber>(v.learning_rate_multiplier)) by {
            broadcast use group_members;
        }
        assert(member(m, "prompt_loss_weight"@) == present::<JsonNumber>(v.prompt_loss_weight)) by {
            broadcast use group_members;
        }
        assert(member(m, "compute_classification_metrics"@)
            == present::<bool>(v.compute_classification_metrics)) by {
            broadcast use group_members;
        }
        assert(member(m, "classification_n_classes"@)
            == present::<i32>(v.classification_n_classes)) by {
            broadcast use group_members;
        }
        assert(member(m, "classification_positive_class"@)
            == present::<String>(v.classification_positive_class)) by {
            broadcast use group_members;
        }
        assert(member(m, "classification_betas"@)
            == present::<Vec<JsonNumber>>(v.classification_betas)) by {
            broadcast use group_members;
        }
        assert(member(m, "suffix"@) == present::<String>(v.suffix)) by {
            broadcast use group_members;
        }
        assert forall|k: Seq<char>|
            k != "training_file"@ && k != "validation_file"@ && k != "model"@ && k != "n_epochs"@
            && k != "batch_size"@ && k != "learning_rate_multiplier"@ && k != "prompt_loss_weight"@
            && k != "compute_classification_metrics"@ && k != "classification_n_classes"@
            && k != "classification_positive_class"@ && k != "classification_betas"@
            && k != "suffix"@ implies member(m, k) is None by {
            broadcast use group_members;
        }
    }
}

impl ApiRequest for FineTuneCreateRequest {
    type Response = FineTune;

    open spec fn method(&self) -> Method {
        Method::Post
    }

    open spec fn path(&self) -> Seq<char> {
        "/fine-tunes"@
    }

    open spec fn body(&self) -> BodyView {
        BodyView::Json(json_text(FineTuneCreateRequest::encoded(self.deep_view())))
    }

    fn request(&self, client: &OpenAiClient) -> (r: HttpRequest) {
        let doc = self.to_json();
        HttpRequest::post_json(client, "/fine-tunes", &doc)
    }
}

/// Asks the service to stop a fine-tune.
#[derive(Clone, Debug, PartialEq)]
pub struct FineTuneCancelRequest {
    pub id: String,
}

/// The model of [`FineTuneCancelRequest`].
pub struct FineTuneCancelRequestView {
    pub id: Seq<char>,
}

impl DeepView for FineTuneCancelRequest {
    type V = FineTuneCancelRequestView;

    open spec fn deep_view(&self) -> FineTuneCancelRequestView {
        FineTuneCancelRequestView {
            id: self.id@,
        }
    }
}

impl FineTuneCancelRequest {
    pub fn new(id: String) -> (r: Self)
        ensures
            r.id == id,
    {
        FineTuneCancelRequest { id }
    }

    /// The identifier that stands in the URL of the call.
    pub fn id(&self) -> (r: &str)
        ensures
            r@ == self.id@,
    {
        self.id.as_str()
    }
}

impl From<FineTuneListEntry> for FineTuneCancelRequest {
    fn from(value: FineTuneListEntry) -> (r: Self) {
        FineTuneCancelRequest { id: value.id }
    }
}

impl FromSpecImpl<FineTuneListEntry> for FineTuneCancelRequest {
    open spec fn obeys_from_spec() -> bool {
        true
    }

    open spec fn from_spec(value: FineTuneListEntry) -> Self {
        FineTuneCancelRequest { id: value.id }
    }
}

impl From<FineTune> for FineTuneCancelRequest {
    fn from(value: FineTune) -> (r: Self) {
        FineTuneCancelRequest { id: value.id }
    }
}

impl FromSpecImpl<FineTune> for FineTuneCancelRequest {
    open spec fn obeys_from_spec() -> bool {
        true
    }

    open spec fn from_spec(value: FineTune) -> Self {
        FineTuneCancelRequest { id: value.id }
    }
}

impl ApiRequest for FineTuneCancelRequest {
    type Response = FineTune;

    open spec fn method(&self) -> Method {
        Method::Post
    }

    open spec fn path(&self) -> Seq<char> {
        "/fine-tunes/"@ + self.id@ + "/cancel"@
    }

    open spec fn body(&self) -> BodyView {
        BodyView::Empty
    }

    fn request(&self, client: &OpenAiClient) -> (r: HttpRequest) {
        let id = self.id.as_str();
        let r = HttpRequest::by_id(client, Method::Post, "/fine-tunes/", id, "/cancel");
        assert(r.url@ =~= endpoint_url(client.deep_view().url, self.path()));
        r
    }
}

impl FineTuneCancelRequest {
    /// In the URL of the call the identifier stands, as it is, after `/fine-tunes/`
    /// and before `/cancel`.
    pub proof fn lemma_url(self, base: Seq<char>)
        ensures
            endpoint_url(base, self.path()) == resource_url(
                base,
                "/fine-tunes/"@,
                self.id@,
                "/cancel"@,
            ),
    {
        assert(endpoint_url(base, self.path()) =~= resource_url(
            base,
            "/fine-tunes/"@,
            self.id@,
            "/cancel"@,
        ));
    }
}

/// The fine-tunes of the account.
#[derive(Clone, Debug, PartialEq)]
pub struct FineTuneListResponse {
    pub object: String,
    pub data: Vec<FineTuneListEntry>,
}

/// The model of [`FineTuneListResponse`].
pub struct FineTuneListResponseView {
    pub object: Seq<char>,
    pub data: Seq<FineTuneListEntryView>,
}

impl DeepView for FineTuneListResponse {
    type V = FineTuneListResponseView;

    open spec fn deep_view(&self) -> FineTuneListResponseView {
        FineTuneListResponseView {
            object: self.object@,
            data: self.data.deep_view(),
        }
    }
}

impl JsonCodec for FineTuneListResponse {
    open spec fn encoded(v: FineTuneListResponseView) -> JsonView {
        let m = Seq::empty();
        let m = with::<String>(m, "object"@, v.object);
        let m = with::<Vec<FineTuneListEntry>>(m, "data"@, v.data);
        JsonView::Object(m)
    }

    open spec fn decoded(doc: JsonView) -> Option<FineTuneListResponseView> {
        match doc {
            JsonView::Object(m) => {
                let object = required::<String>(m, "object"@);
                let data = required::<Vec<FineTuneListEntry>>(m, "data"@);
                if object is Some && data is Some {
                    Some(
                        FineTuneListResponseView {
                            object: object->0,
                            data: data->0,
                        },
                    )
                } else {
                    None
                }
            },
            _ => None,
        }
    }

    fn to_json(&self) -> (doc: Json) {
        let mut m: Vec<(String, Json)> = Vec::new();
        proof {
            lemma_members_empty(m);
        }
        put(&mut m, "object", &self.object);
        put(&mut m, "data", &self.data);
        proof {
            lemma_object_view(m);
        }
        Json::Object(m)
    }

    fn from_json(doc: &Json) -> (r: Option<FineTuneListResponse>) {
        match doc {
            Json::Object(m) => {
                proof {
                    lemma_object_view(*m);
                }
                let object = match get_required::<String>(m, "object") {
                    Some(v) => v,
                    None => return None,
                };
                let data = match get_required::<Vec<FineTuneListEntry>>(m, "data") {
                    Some(v) => v,
                    None => return None,
                };
                Some(FineTuneListResponse { object, data })
            },
            _ => None,
        }
    }

    proof fn lemma_round_trip(v: FineTuneListResponseView) {
        broadcast use group_members;

        FineTuneListResponse::lemma_names_differ();
        String::lemma_round_trip(v.object);
        Vec::<FineTuneListEntry>::lemma_round_trip(v.data);
    }
}

impl FineTuneListResponse {
    /// No two members of the JSON form have the same name.
    proof fn lemma_names_differ()
        ensures
            "object"@ != "data"@,
    {
        reveal_strlit("object");
        reveal_strlit("data");
        assert("object"@.len() == 6);
        assert("data"@.len() == 4);
    }
}

impl Listing for FineTuneListResponse {
    open spec fn path() -> Seq<char> {
        "/fine-tunes"@
    }

    fn request(client: &OpenAiClient) -> (r: HttpRequest) {
        HttpRequest::get(client, "/fine-tunes")
    }
}

/// A fine-tune as the list of fine-tunes shows it.
#[derive(Clone, Debug, PartialEq)]
pub struct FineTuneListEntry {
    pub id: String,
    pub object: String,
    pub model: String,
    pub created_at: i64,
    /// The name of the tuned model, once the fine-tune has finished.
    pub fine_tuned_model: Option<String>,
    pub hyperparams: Hyperparams,
    pub organization_id: String,
    pub result_files: Vec<FineTuneFileInfo>,
    pub status: String,
    pub validation_files: Vec<FineTuneFileInfo>,
    pub training_files: Vec<FineTuneFileInfo>,
    pub updated_at: i64,
}

/// The model of [`FineTuneListEntry`].
pub struct FineTuneListEntryView {
    pub id: Seq<char>,
    pub object: Seq<char>,
    pub model: Seq<char>,
    pub created_at: i64,
    pub fine_tuned_model: Option<Seq<char>>,
    pub hyperparams: HyperparamsView,
    pub organization_id: Seq<char>,
    pub result_files: Seq<FineTuneFileInfoView>,
    pub status: Seq<char>,
    pub validation_files: Seq<FineTuneFileInfoView>,
    pub training_files: Seq<FineTuneFileInfoView>,
    pub updated_at: i64,
}

impl DeepView for FineTuneListEntry {
    type V = FineTuneListEntryView;

    open spec fn deep_view(&self) -> FineTuneListEntryView {
        FineTuneListEntryView {
            id: self.id@,
            object: self.object@,
            model: self.model@,
            created_at: self.created_at,
            fine_tuned_model: self.fine_tuned_model.deep_view(),
            hyperparams: self.hyperparams.deep_view(),
            organization_id: self.organization_id@,
            result_files: self.result_files.deep_view(),
            status: self.status@,
            validation_files: self.validation_files.deep_view(),
            training_files: self.training_files.deep_view(),
            updated_at: self.updated_at,
        }
    }
}

impl JsonCodec for FineTuneListEntry {
    open spec fn encoded(v: FineTuneListEntryView) -> JsonView {
        let m = Seq::empty();
        let m = with::<String>(m, "id"@, v.id);
        let m = with::<String>(m, "object"@, v.object);
        let m = with::<String>(m, "model"@, v.model);
        let m = with::<i64>(m, "created_at"@, v.created_at);
        let m = with_nullable::<String>(m, "fine_tuned_model"@, v.fine_tuned_model);
        let m = with::<Hyperparams>(m, "hyperparams"@, v.hyperparams);
        let m = with::<String>(m, "organization_id"@, v.organization_id);
        let m = with::<Vec<FineTuneFileInfo>>(m, "result_files"@, v.result_files);
        let m = with::<String>(m, "status"@, v.status);
        let m = with::<Vec<FineTuneFileInfo>>(m, "validation_files"@, v.validation_files);
        let m = with::<Vec<FineTuneFileInfo>>(m, "training_files"@, v.training_files);
        let m = with::<i64>(m, "updated_at"@, v.updated_at);
        JsonView::Object(m)
    }

    open spec fn decoded(doc: JsonView) -> Option<FineTuneListEntryView> {
        match doc {
            JsonView::Object(m) => {
                let id = required::<String>(m, "id"@);
                let object = required::<String>(m, "object"@);
                let model = required::<String>(m, "model"@);
                let created_at = required::<i64>(m, "created_at"@);
                let fine_tuned_model = optional::<String>(m, "fine_tuned_model"@);
                let hyperparams = required::<Hyperparams>(m, "hyperparams"@);
                let organization_id = required::<String>(m, "organization_id"@);
                let result_files = required::<Vec<FineTuneFileInfo>>(m, "result_files"@);
                let status = required::<String>(m, "status"@);
                let validation_files = required::<Vec<FineTuneFileInfo>>(m, "validation_files"@);
                let training_files = required::<Vec<FineTuneFileInfo>>(m, "training_files"@);
                let updated_at = required::<i64>(m, "updated_at"@);
                if id is Some
                    && object is Some
                    && model is Some
                    && created_at is Some
                    && fine_tuned_model is Some
                    && hyperparams is Some
                    && organization_id is Some
                    && result_files is Some
                    && status is Some
                    && validation_files is Some
                    && training_files is Some
                    && updated_at is Some {
                    Some(
                        FineTuneListEntryView {
                            id: id->0,
                            object: object->0,
                            model: model->0,
                            created_at: created_at->0,
                            fine_tuned_model: fine_tuned_model->0,
                            hyperparams: hyperparams->0,
                            organization_id: organization_id->0,
                            result_files: result_files->0,
                            status: status->0,
                            validation_files: validation_files->0,
                            training_files: training_files->0,
                            updated_at: updated_at->0,
                        },
                    )
                } else {
                    None
                }
            },
            _ => None,
        }
    }

    fn to_json(&self) -> (doc: Json) {
        let mut m: Vec<(String, Json)> = Vec::new();
        proof {
            lemma_members_empty(m);
        }
        put(&mut m, "id", &self.id);
        put(&mut m, "object", &self.object);
        put(&mut m, "model", &self.model);
        put(&mut m, "created_at", &self.created_at);
        put_nullable(&mut m, "fine_tuned_model", &self.fine_tuned_model);
        put(&mut m, "hyperparams", &self.hyperparams);
        put(&mut m, "organization_id", &self.organization_id);
        put(&mut m, "result_files", &self.result_files);
        put(&mut m, "status", &self.status);
        put(&mut m, "validation_files", &self.validation_files);
        put(&mut m, "training_files", &self.training_files);
        put(&mut m, "updated_at", &self.updated_at);
        proof {
            lemma_object_view(m);
        }
        Json::Object(m)
    }

    fn from_json(doc: &Json) -> (r: Option<FineTuneListEntry>) {
        match doc {
            Json::Object(m) => {
                proof {
                    lemma_object_view(*m);
                }
                let id = match get_required::<String>(m, "id") {
                    Some(v) => v,
                    None => return None,
                };
                let object = match get_required::<String>(m, "object") {
                    Some(v) => v,
                    None => return None,
                };
                let model = match get_required::<String>(m, "model") {
                    Some(v) => v,
                    None => return None,
                };
                let created_at = match get_required::<i64>(m, "created_at") {
                    Some(v) => v,
                    None => return None,
                };
                let fine_tuned_model = match get_optional::<String>(m, "fine_tuned_model") {
                    Some(v) => v,
                    None => return None,
                };
                let hyperparams = match get_required::<Hyperparams>(m, "hyperparams") {
                    Some(v) => v,
                    None => return None,
                };
                let organization_id = match get_required::<String>(m, "organization_id") {
                    Some(v) => v,
                    None => return None,
                };
                let result_files = match get_required::<Vec<FineTuneFileInfo>>(m, "result_files") {
                    Some(v) => v,
                    None => return None,
                };
                let status = match get_required::<String>(m, "status") {
                    Some(v) => v,
                    None => return None,
                };
                let validation_files = match get_required::<Vec<FineTuneFileInfo>>(
                    m,
                    "validation_files",
                ) {
                    Some(v) => v,
                    None => return None,
                };
                let training_files = match get_required::<Vec<FineTuneFileInfo>>(
                    m,
                    "training_files",
                ) {
                    Some(v) => v,
                    None => return None,
                };
                let updated_at = match get_required::<i64>(m, "updated_at") {
                    Some(v) => v,
                    None => return None,
                };
                Some(
                    FineTuneListEntry {
                        id,
                        object,
                        model,
                        created_at,
                        fine_tuned_model,
                        hyperparams,
                        organization_id,
                        result_files,
                        status,
                        validation_files,
                        training_files,
                        updated_at,
                    },
                )
            },
            _ => None,
        }
    }

    proof fn lemma_round_trip(v: FineTuneListEntryView) {
        FineTuneListEntry::lemma_names_differ();
        let m = FineTuneListEntry::encoded(v)->Object_0;
        assert(required::<String>(m, "id"@) == Some(v.id)) by {
            broadcast use group_members;

            String::lemma_round_trip(v.id);
        }
        assert(required::<String>(m, "object"@) == Some(v.object)) by {
            broadcast use group_members;

            String::lemma_round_trip(v.object);
        }
        assert(required::<String>(m, "model"@) == Some(v.model)) by {
            broadcast use group_members;

            String::lemma_round_trip(v.model);
        }
        assert(required::<i64>(m, "created_at"@) == Some(v.created_at)) by {
            broadcast use group_members;

            i64::lemma_round_trip(v.created_at);
        }
        assert(optional::<String>(m, "fine_tuned_model"@) == Some(v.fine_tuned_model)) by {
            broadcast use group_members;

            if v.fine_tuned_model is Some {
                String::lemma_round_trip(v.fine_tuned_model->0);
            }
        }
        assert(required::<Hyperparams>(m, "hyperparams"@) == Some(v.hyperparams)) by {
            broadcast use group_members;

            Hyperparams::lemma_round_trip(v.hyperparams);
        }
        assert(required::<String>(m, "organization_id"@) == Some(v.organization_id)) by {
            broadcast use group_members;

            String::lemma_round_trip(v.organization_id);
        }
        assert(required::<Vec<FineTuneFileInfo>>(m, "result_files"@) == Some(v.result_files)) by {
            broadcast use group_members;

            Vec::<FineTuneFileInfo>::lemma_round_trip(v.result_files);
        }
        assert(required::<String>(m, "status"@) == Some(v.status)) by {
            broadcast use group_members;

            String::lemma_round_trip(v.status);
        }
        assert(required::<Vec<FineTuneFileInfo>>(m, "validation_files"@)
            == Some(v.validation_files)) by {
            broadcast use group_members;

            Vec::<FineTuneFileInfo>::lemma_round_trip(v.validation_files);
        }
        assert(required::<Vec<FineTuneFileInfo>>(m, "training_files"@)
            == Some(v.training_files)) by {
            broadcast use group_members;

            Vec::<FineTuneFileInfo>::lemma_round_trip(v.training_files);
        }
        assert(required::<i64>(m, "updated_at"@) == Some(v.updated_at)) by {
            broadcast use group_members;

            i64::lemma_round_trip(v.updated_at);
        }
    }
}

impl FineTuneListEntry {
    /// No two members of the JSON form have the same name.
    proof fn lemma_names_differ()
        ensures
            "id"@ != "object"@,
            "id"@ != "model"@,
            "id"@ != "created_at"@,
            "id"@ != "fine_tuned_model"@,
            "id"@ != "hyperparams"@,
            "id"@ != "organization_id"@,
            "id"@ != "result_files"@,
            "id"@ != "status"@,
            "id"@ != "validation_files"@,
            "id"@ != "training_files"@,
            "id"@ != "updated_at"@,
            "object"@ != "model"@,
            "object"@ != "created_at"@,
            "object"@ != "fine_tuned_model"@,
            "object"@ != "hyperparams"@,
            "object"@ != "organization_id"@,
            "object"@ != "result_files"@,
            "object"@ != "status"@,
            "object"@ != "validation_files"@,
            "object"@ != "training_files"@,
            "object"@ != "updated_at"@,
            "model"@ != "created_at"@,
            "model"@ != "fine_tuned_model"@,
            "model"@ != "hyperparams"@,
            "model"@ != "organization_id"@,
            "model"@ != "result_files"@,
            "model"@ != "status"@,
            "model"@ != "validation_files"@,
            "model"@ != "training_files"@,
            "model"@ != "updated_at"@,
            "created_at"@ != "fine_tuned_model"@,
            "created_at"@ != "hyperparams"@,
            "created_at"@ != "organization_id"@,
            "created_at"@ != "result_files"@,
            "created_at"@ != "status"@,
            "created_at"@ != "validation_files"@,
            "created_at"@ != "training_files"@,
            "created_at"@ != "updated_at"@,
            "fine_tuned_model"@ != "hyperparams"@,
            "fine_tuned_model"@ != "organization_id"@,
            "fine_tuned_model"@ != "result_files"@,
            "fine_tuned_model"@ != "status"@,
            "fine_tuned_model"@ != "validation_files"@,
            "fine_tuned_model"@ != "training_files"@,
            "fine_tuned_model"@ != "updated_at"@,
            "hyperparams"@ != "organization_id"@,
            "hyperparams"@ != "result_files"@,
            "hyperparams"@ != "status"@,
            "hyperparams"@ != "validation_files"@,
            "hyperparams"@ != "training_files"@,
            "hyperparams"@ != "updated_at"@,
            "organization_id"@ != "result_files"@,
            "organization_id"@ != "status"@,
            "organization_id"@ != "validation_files"@,
            "organization_id"@ != "training_files"@,
            "organization_id"@ != "updated_at"@,
            "result_files"@ != "status"@,
            "result_files"@ != "validation_files"@,
            "result_files"@ != "training_files"@,
            "result_files"@ != "updated_at"@,
            "status"@ != "validation_files"@,
            "status"@ != "training_files"@,
            "status"@ != "updated_at"@,
            "validation_files"@ != "training_files"@,
            "validation_files"@ != "updated_at"@,
            "training_files"@ != "updated_at"@,
    {
        reveal_strlit("id");
        reveal_strlit("object");
        reveal_strlit("model");
        reveal_strlit("created_at");
        reveal_strlit("fine_tuned_model");
        reveal_strlit("hyperparams");
        reveal_strlit("organization_id");
        reveal_strlit("result_files");
        reveal_strlit("status");
        reveal_strlit("validation_files");
        reveal_strlit("training_files");
        reveal_strlit("updated_at");
        assert("id"@.len() == 2);
        assert("object"@.len() == 6);
        assert("model"@.len() == 5);
        assert("created_at"@.len() == 10);
        assert("fine_tuned_model"@.len() == 16);
        assert("hyperparams"@.len() == 11);
        assert("organization_id"@.len() == 15);
        assert("result_files"@.len() == 12);
        assert("status"@.len() == 6);
        assert("validation_files"@.len() == 16);
        assert("training_files"@.len() == 14);
        assert("updated_at"@.len() == 10);
        assert("object"@[0] == 'o');
        assert("status"@[0] == 's');
        assert("created_at"@[0] == 'c');
        assert("updated_at"@[0] == 'u');
        assert("fine_tuned_model"@[0] == 'f');
        assert("validation_files"@[0] == 'v');
    }
}

/// Asks the service for one fine-tune.
#[derive(Clone, Debug, PartialEq)]
pub struct FineTuneGetRequest {
    pub id: String,
}

/// The model of [`FineTuneGetRequest`].
pub struct FineTuneGetRequestView {
    pub id: Seq<char>,
}

impl DeepView for FineTuneGetRequest {
    type V = FineTuneGetRequestView;

    open spec fn deep_view(&self) -> FineTuneGetRequestView {
        FineTuneGetRequestView {
            id: self.id@,
        }
    }
}

impl FineTuneGetRequest {
    pub fn new(id: String) -> (r: Self)
        ensures
            r.id == id,
    {
        FineTuneGetRequest { id }
    }

    /// The identifier that stands in the URL of the call.
    pub fn id(&self) -> (r: &str)
        ensures
            r@ == self.id@,
    {
        self.id.as_str()
    }
}

impl From<FineTuneListEntry> for FineTuneGetRequest {
    fn from(value: FineTuneListEntry) -> (r: Self) {
        FineTuneGetRequest { id: value.id }
    }
}

impl FromSpecImpl<FineTuneListEntry> for FineTuneGetRequest {
    open spec fn obeys_from_spec() -> bool {
        true
    }

    open spec fn from_spec(value: FineTuneListEntry) -> Self {
        FineTuneGetRequest { id: value.id }
    }
}

impl ApiRequest for FineTuneGetRequest {
    type Response = FineTune;

    open spec fn method(&self) -> Method {
        Method::Get
    }

    open spec fn path(&self) -> Seq<char> {
        "/fine-tunes/"@ + self.id@
    }

    open spec fn body(&self) -> BodyView {
        BodyView::Empty
    }

    fn request(&self, client: &OpenAiClient) -> (r: HttpRequest) {
        proof {
            reveal_strlit("");
        }
        let id = self.id.as_str();
        let r = HttpRequest::by_id(client, Method::Get, "/fine-tunes/", id, "");
        assert(r.url@ =~= endpoint_url(client.deep_view().url, self.path()));
        r
    }
}

impl FineTuneGetRequest {
    /// In the URL of the call the identifier stands, as it is, after `/fine-tunes/`
    /// and nothing follows it.
    pub proof fn lemma_url(self, base: Seq<char>)
        ensures
            endpoint_url(base, self.path()) == resource_url(
                base,
                "/fine-tunes/"@,
                self.id@,
                ""@,
            ),
    {
        reveal_strlit("");
        assert(endpoint_url(base, self.path()) =~= resource_url(
            base,
            "/fine-tunes/"@,
            self.id@,
            ""@,
        ));
    }
}

/// A fine-tune, with its log.
#[derive(Clone, Debug, PartialEq)]
pub struct FineTune {
    pub id: String,
    pub object: String,
    pub model: String,
    pub created_at: i64,
    pub events: Vec<FineTuneEvent>,
    /// The name of the tuned model, once the fine-tune has finished.
    pub fine_tuned_model: Option<String>,
    pub hyperparams: Hyperparams,
    pub organization_id: String,
    pub result_files: Vec<FineTuneFileInfo>,
    pub status: String,
    pub validation_files: Vec<FineTuneFileInfo>,
    pub training_files: Vec<FineTuneFileInfo>,
    pub updated_at: i64,
}

/// The model of [`FineTune`].
pub struct FineTuneView {
    pub id: Seq<char>,
    pub object: Seq<char>,
    pub model: Seq<char>,
    pub created_at: i64,
    pub events: Seq<FineTuneEventView>,
    pub fine_tuned_model: Option<Seq<char>>,
    pub hyperparams: HyperparamsView,
    pub organization_id: Seq<char>,
    pub result_files: Seq<FineTuneFileInfoView>,
    pub status: Seq<char>,
    pub validation_files: Seq<FineTuneFileInfoView>,
    pub training_files: Seq<FineTuneFileInfoView>,
    pub updated_at: i64,
}

impl DeepView for FineTune {
    type V = FineTuneView;

    open spec fn deep_view(&self) -> FineTuneView {
        FineTuneView {
            id: self.id@,
            object: self.object@,
            model: self.model@,
            created_at: self.created_at,
            events: self.events.deep_view(),
            fine_tuned_model: self.fine_tuned_model.deep_view(),
            hyperparams: self.hyperparams.deep_view(),
            organization_id: self.organization_id@,
            result_files: self.result_files.deep_view(),
            status: self.status@,
            validation_files: self.validation_files.deep_view(),
            training_files: self.training_files.deep_view(),
            updated_at: self.updated_at,
        }
    }
}

impl JsonCodec for FineTune {
    open spec fn encoded(v: FineTuneView) -> JsonView {
        let m = Seq::empty();
        let m = with::<String>(m, "id"@, v.id);
        let m = with::<String>(m, "object"@, v.object);
        let m = with::<String>(m, "model"@, v.model);
        let m = with::<i64>(m, "created_at"@, v.created_at);
        let m = with::<Vec<FineTuneEvent>>(m, "events"@, v.events);
        let m = with_nullable::<String>(m, "fine_tuned_model"@, v.fine_tuned_model);
        let m = with::<Hyperparams>(m, "hyperparams"@, v.hyperparams);
        let m = with::<String>(m, "organization_id"@, v.organization_id);
        let m = with::<Vec<FineTuneFileInfo>>(m, "result_files"@, v.result_files);
        let m = with::<String>(m, "status"@, v.status);
        let m = with::<Vec<FineTuneFileInfo>>(m, "validation_files"@, v.validation_files);
        let m = with::<Vec<FineTuneFileInfo>>(m, "training_files"@, v.training_files);
        let m = with::<i64>(m, "updated_at"@, v.updated_at);
        JsonView::Object(m)
    }

    open spec fn decoded(doc: JsonView) -> Option<FineTuneView> {
        match doc {
            JsonView::Object(m) => {
                let id = required::<String>(m, "id"@);
                let object = required::<String>(m, "object"@);
                let model = required::<String>(m, "model"@);
                let created_at = required::<i64>(m, "created_at"@);
                let events = required::<Vec<FineTuneEvent>>(m, "events"@);
                let fine_tuned_model = optional::<String>(m, "fine_tuned_model"@);
                let hyperparams = required::<Hyperparams>(m, "hyperparams"@);
                let organization_id = required::<String>(m, "organization_id"@);
                let result_files = required::<Vec<FineTuneFileInfo>>(m, "result_files"@);
                let status = required::<String>(m, "status"@);
                let validation_files = required::<Vec<FineTuneFileInfo>>(m, "validation_files"@);
                let training_files = required::<Vec<FineTuneFileInfo>>(m, "training_files"@);
                let updated_at = required::<i64>(m, "updated_at"@);
                if id is Some
                    && object is Some
                    && model is Some
                    && created_at is Some
                    && events is Some
                    && fine_tuned_model is Some
                    && hyperparams is Some
                    && organization_id is Some
                    && result_files is Some
                    && status is Some
                    && validation_files is Some
                    && training_files is Some
                    && updated_at is Some {
                    Some(
                        FineTuneView {
                            id: id->0,
                            object: object->0,
                            model: model->0,
                            created_at: created_at->0,
                            events: events->0,
                            fine_tuned_model: fine_tuned_model->0,
                            hyperparams: hyperparams->0,
                            organization_id: organization_id->0,
                            result_files: result_files->0,
                            status: status->0,
                            validation_files: validation_files->0,
                            training_files: training_files->0,
                            updated_at: updated_at->0,
                        },
                    )
                } else {
                    None
                }
            },
            _ => None,
        }
    }

    fn to_json(&self) -> (doc: Json) {
        let mut m: Vec<(String, Json)> = Vec::new();
        proof {
            lemma_members_empty(m);
        }
        put(&mut m, "id", &self.id);
        put(&mut m, "object", &self.object);
        put(&mut m, "model", &self.model);
        put(&mut m, "created_at", &self.created_at);
        put(&mut m, "events", &self.events);
        put_nullable(&mut m, "fine_tuned_model", &self.fine_tuned_model);
        put(&mut m, "hyperparams", &self.hyperparams);
        put(&mut m, "organization_id", &self.organization_id);
        put(&mut m, "result_files", &self.result_files);
        put(&mut m, "status", &self.status);
        put(&mut m, "validation_files", &self.validation_files);
        put(&mut m, "training_files", &self.training_files);
        put(&mut m, "updated_at", &self.updated_at);
        proof {
            lemma_object_view(m);
        }
        Json::Object(m)
    }

    fn from_json(doc: &Json) -> (r: Option<FineTune>) {
        match doc {
            Json::Object(m) => {
                proof {
                    lemma_object_view(*m);
                }
                let id = match get_required::<String>(m, "id") {
                    Some(v) => v,
                    None => return None,
                };
                let object = match get_required::<String>(m, "object") {
                    Some(v) => v,
                    None => return None,
                };
                let model = match get_required::<String>(m, "model") {
                    Some(v) => v,
                    None => return None,
                };
                let created_at = match get_required::<i64>(m, "created_at") {
                    Some(v) => v,
                    None => return None,
                };
                let events = match get_required::<Vec<FineTuneEvent>>(m, "events") {
                    Some(v) => v,
                    None => return None,
                };
                let fine_tuned_model = match get_optional::<String>(m, "fine_tuned_model") {
                    Some(v) => v,
                    None => return None,
                };
                let hyperparams = match get_required::<Hyperparams>(m, "hyperparams") {
                    Some(v) => v,
                    None => return None,
                };
                let organization_id = match get_required::<String>(m, "organization_id") {
                    Some(v) => v,
                    None => return None,
                };
                let result_files = match get_required::<Vec<FineTuneFileInfo>>(m, "result_files") {
                    Some(v) => v,
                    None => return None,
                };
                let status = match get_required::<String>(m, "status") {
                    Some(v) => v,
                    None => return None,
                };
                let validation_files = match get_required::<Vec<FineTuneFileInfo>>(
                    m,
                    "validation_files",
                ) {
                    Some(v) => v,
                    None => return None,
                };
                let training_files = match get_required::<Vec<FineTuneFileInfo>>(
                    m,
                    "training_files",
                ) {
                    Some(v) => v,
                    None => return None,
                };
                let updated_at = match get_required::<i64>(m, "updated_at") {
                    Some(v) => v,
                    None => return None,
                };
                Some(
                    FineTune {
                        id,
                        object,
                        model,
                        created_at,
                        events,
                        fine_tuned_model,
                        hyperparams,
                        organization_id,
                        result_files,
                        status,
                        validation_files,
                        training_files,
                        updated_at,
                    },
                )
            },
            _ => None,
        }
    }

    proof fn lemma_round_trip(v: FineTuneView) {
        FineTune::lemma_names_differ();
        let m = FineTune::encoded(v)->Object_0;
        assert(required::<String>(m, "id"@) == Some(v.id)) by {
            broadcast use group_members;

            String::lemma_round_trip(v.id);
        }
        assert(required::<String>(m, "object"@) == Some(v.object)) by {
            broadcast use group_members;

            String::lemma_round_trip(v.object);
        }
        assert(required::<String>(m, "model"@) == Some(v.model)) by {
            broadcast use group_members;

            String::lemma_round_trip(v.model);
        }
        assert(required::<i64>(m, "created_at"@) == Some(v.created_at)) by {
            broadcast use group_members;

            i64::lemma_round_trip(v.created_at);
        }
        assert(required::<Vec<FineTuneEvent>>(m, "events"@) == Some(v.events)) by {
            broadcast use group_members;

            Vec::<FineTuneEvent>::lemma_round_trip(v.events);
        }
        assert(optional::<String>(m, "fine_tuned_model"@) == Some(v.fine_tuned_model)) by {
            broadcast use group_members;

            if v.fine_tuned_model is Some {
                String::lemma_round_trip(v.fine_tuned_model->0);
            }
        }
        assert(required::<Hyperparams>(m, "hyperparams"@) == Some(v.hyperparams)) by {
            broadcast use group_members;

            Hyperparams::lemma_round_trip(v.hyperparams);
        }
        assert(required::<String>(m, "organization_id"@) == Some(v.organization_id)) by {
            broadcast use group_members;

            String::lemma_round_trip(v.organization_id);
        }
        assert(required::<Vec<FineTuneFileInfo>>(m, "result_files"@) == Some(v.result_files)) by {
            broadcast use group_members;

            Vec::<FineTuneFileInfo>::lemma_round_trip(v.result_files);
        }
        assert(required::<String>(m, "status"@) == Some(v.status)) by {
            broadcast use group_members;

            String::lemma_round_trip(v.status);
        }
        assert(required::<Vec<FineTuneFileInfo>>(m, "validation_files"@)
            == Some(v.validation_files)) by {
            broadcast use group_members;

            Vec::<FineTuneFileInfo>::lemma_round_trip(v.validation_files);
        }
        assert(required::<Vec<FineTuneFileInfo>>(m, "training_files"@)
            == Some(v.training_files)) by {
            broadcast use group_members;

            Vec::<FineTuneFileInfo>::lemma_round_trip(v.training_files);
        }
        assert(required::<i64>(m, "updated_at"@) == Some(v.updated_at)) by {
            broadcast use group_members;

            i64::lemma_round_trip(v.updated_at);
        }
    }
}

impl FineTune {
    /// No two members of the JSON form have the same name.
    proof fn lemma_names_differ()
        ensures
            "id"@ != "object"@,
            "id"@ != "model"@,
            "id"@ != "created_at"@,
            "id"@ != "events"@,
            "id"@ != "fine_tuned_model"@,
            "id"@ != "hyperparams"@,
            "id"@ != "organization_id"@,
            "id"@ != "result_files"@,
            "id"@ != "status"@,
            "id"@ != "validation_files"@,
            "id"@ != "training_files"@,
            "id"@ != "updated_at"@,
            "object"@ != "model"@,
            "object"@ != "created_at"@,
            "object"@ != "events"@,
            "object"@ != "fine_tuned_model"@,
            "object"@ != "hyperparams"@,
            "object"@ != "organization_id"@,
            "object"@ != "result_files"@,
            "object"@ != "status"@,
            "object"@ != "validation_files"@,
            "object"@ != "training_files"@,
            "object"@ != "updated_at"@,
            "model"@ != "created_at"@,
            "model"@ != "events"@,
            "model"@ != "fine_tuned_model"@,
            "model"@ != "hyperparams"@,
            "model"@ != "organization_id"@,
            "model"@ != "result_files"@,
            "model"@ != "status"@,
            "model"@ != "validation_files"@,
            "model"@ != "training_files"@,
            "model"@ != "updated_at"@,
            "created_at"@ != "events"@,
            "created_at"@ != "fine_tuned_model"@,
            "created_at"@ != "hyperparams"@,
            "created_at"@ != "organization_id"@,
            "created_at"@ != "result_files"@,
            "created_at"@ != "status"@,
            "created_at"@ != "validation_files"@,
            "created_at"@ != "training_files"@,
            "created_at"@ != "updated_at"@,
            "events"@ != "fine_tuned_model"@,
            "events"@ != "hyperparams"@,
            "events"@ != "organization_id"@,
            "events"@ != "result_files"@,
            "events"@ != "status"@,
            "events"@ != "validation_files"@,
            "events"@ != "training_files"@,
            "events"@ != "updated_at"@,
            "fine_tuned_model"@ != "hyperparams"@,
            "fine_tuned_model"@ != "organization_id"@,
            "fine_tuned_model"@ != "result_files"@,
            "fine_tuned_model"@ != "status"@,
            "fine_tuned_model"@ != "validation_files"@,
            "fine_tuned_model"@ != "training_files"@,
            "fine_tuned_model"@ != "updated_at"@,
            "hyperparams"@ != "organization_id"@,
            "hyperparams"@ != "result_files"@,
            "hyperparams"@ != "status"@,
            "hyperparams"@ != "validation_files"@,
            "hyperparams"@ != "training_files"@,
            "hyperparams"@ != "updated_at"@,
            "organization_id"@ != "result_files"@,
            "organization_id"@ != "status"@,
            "organization_id"@ != "validation_files"@,
            "organization_id"@ != "training_files"@,
            "organization_id"@ != "updated_at"@,
            "result_files"@ != "status"@,
            "result_files"@ != "validation_files"@,
            "result_files"@ != "training_files"@,
            "result_files"@ != "updated_at"@,
            "status"@ != "validation_files"@,
            "status"@ != "training_files"@,
            "status"@ != "updated_at"@,
            "validation_files"@ != "training_files"@,
            "validation_files"@ != "updated_at"@,
            "training_files"@ != "updated_at"@,
    {
        reveal_strlit("id");
        reveal_strlit("object");
        reveal_strlit("model");
        reveal_strlit("created_at");
        reveal_strlit("events");
        reveal_strlit("fine_tuned_model");
        reveal_strlit("hyperparams");
        reveal_strlit("organization_id");
        reveal_strlit("result_files");
        reveal_strlit("status");
        reveal_strlit("validation_files");
        reveal_strlit("training_files");
        reveal_strlit("updated_at");
        assert("id"@.len() == 2);
        assert("object"@.len() == 6);
        assert("model"@.len() == 5);
        assert("created_at"@.len() == 10);
        assert("events"@.len() == 6);
        assert("fine_tuned_model"@.len() == 16);
        assert("hyperparams"@.len() == 11);
        assert("organization_id"@.len() == 15);
        assert("result_files"@.len() == 12);
        assert("status"@.len() == 6);
        assert("validation_files"@.len() == 16);
        assert("training_files"@.len() == 14);
        assert("updated_at"@.len() == 10);
        assert("object"@[0] == 'o');
        assert("events"@[0] == 'e');
        assert("status"@[0] == 's');
        assert("created_at"@[0] == 'c');
        assert("updated_at"@[0] == 'u');
        assert("fine_tuned_model"@[0] == 'f');
        assert("validation_files"@[0] == 'v');
    }
}

/// The settings that a fine-tune ran with.
#[derive(Clone, Debug, PartialEq)]
pub struct Hyperparams {
    pub batch_size: Option<i64>,
    pub learning_rate_multiplier: Option<JsonNumber>,
    pub n_epochs: i64,
    pub prompt_loss_weight: JsonNumber,
}

/// The model of [`Hyperparams`].
pub struct HyperparamsView {
    pub batch_size: Option<i64>,
    pub learning_rate_multiplier: Option<JsonNumber>,
    pub n_epochs: i64,
    pub prompt_loss_weight: JsonNumber,
}

impl DeepView for Hyperparams {
    type V = HyperparamsView;

    open spec fn deep_view(&self) -> HyperparamsView {
        HyperparamsView {
            batch_size: self.batch_size,
            learning_rate_multiplier: self.learning_rate_multiplier,
            n_epochs: self.n_epochs,
            prompt_loss_weight: self.prompt_loss_weight,
        }
    }
}

impl JsonCodec for Hyperparams {
    open spec fn encoded(v: HyperparamsView) -> JsonView {
        let m = Seq::empty();
        let m = with_nullable::<i64>(m, "batch_size"@, v.batch_size);
        let m = with_nullable::<JsonNumber>(
            m,
            "learning_rate_multiplier"@,
            v.learning_rate_multiplier,
        );
        let m = with::<i64>(m, "n_epochs"@, v.n_epochs);
        let m = with::<JsonNumber>(m, "prompt_loss_weight"@, v.prompt_loss_weight);
        JsonView::Object(m)
    }

    open spec fn decoded(doc: JsonView) -> Option<HyperparamsView> {
        match doc {
            JsonView::Object(m) => {
                let batch_size = optional::<i64>(m, "batch_size"@);
                let learning_rate_multiplier = optional::<JsonNumber>(
                    m,
                    "learning_rate_multiplier"@,
                );
                let n_epochs = required::<i64>(m, "n_epochs"@);
                let prompt_loss_weight = required::<JsonNumber>(m, "prompt_loss_weight"@);
                if batch_size is Some
                    && learning_rate_multiplier is Some
                    && n_epochs is Some
                    && prompt_loss_weight is Some {
                    Some(
                        HyperparamsView {
                            batch_size: batch_size->0,
                            learning_rate_multiplier: learning_rate_multiplier->0,
                            n_epochs: n_epochs->0,
                            prompt_loss_weight: prompt_loss_weight->0,
                        },
                    )
                } else {
                    None
                }
            },
            _ => None,
        }
    }

    fn to_json(&self) -> (doc: Json) {
        let mut m: Vec<(String, Json)> = Vec::new();
        proof {
            lemma_members_empty(m);
        }
        put_nullable(&mut m, "batch_size", &self.batch_size);
        put_nullable(&mut m, "learning_rate_multiplier", &self.learning_rate_multiplier);
        put(&mut m, "n_epochs", &self.n_epochs);
        put(&mut m, "prompt_loss_weight", &self.prompt_loss_weight);
        proof {
            lemma_object_view(m);
        }
        Json::Object(m)
    }

    fn from_json(doc: &Json) -> (r: Option<Hyperparams>) {
        match doc {
            Json::Object(m) => {
                proof {
                    lemma_object_view(*m);
                }
                let batch_size = match get_optional::<i64>(m, "batch_size") {
                    Some(v) => v,
                    None => return None,
                };
                let learning_rate_multiplier = match get_optional::<JsonNumber>(
                    m,
                    "learning_rate_multiplier",
                ) {
                    Some(v) => v,
                    None => return None,
                };
                let n_epochs = match get_required::<i64>(m, "n_epochs") {
                    Some(v) => v,
                    None => return None,
                };
                let prompt_loss_weight = match get_required::<JsonNumber>(m, "prompt_loss_weight") {
                    Some(v) => v,
                    None => return None,
                };
                Some(
                    Hyperparams {
                        batch_size,
                        learning_rate_multiplier,
                        n_epochs,
                        prompt_loss_weight,
                    },
                )
            },
            _ => None,
        }
    }

    proof fn lemma_round_trip(v: HyperparamsView) {
        broadcast use group_members;

        Hyperparams::lemma_names_differ();
        if v.batch_size is Some {
            i64::lemma_round_trip(v.batch_size->0);
        }
        if v.learning_rate_multiplier is Some {
            JsonNumber::lemma_round_trip(v.learning_rate_multiplier->0);
        }
        i64::lemma_round_trip(v.n_epochs);
        JsonNumber::lemma_round_trip(v.prompt_loss_weight);
    }
}

impl Hyperparams {
    /// No two members of the JSON form have the same name.
    proof fn lemma_names_differ()
        ensures
            "batch_size"@ != "learning_rate_multiplier"@,
            "batch_size"@ != "n_epochs"@,
            "batch_size"@ != "prompt_loss_weight"@,
            "learning_rate_multiplier"@ != "n_epochs"@,
            "learning_rate_multiplier"@ != "prompt_loss_weight"@,
            "n_epochs"@ != "prompt_loss_weight"@,
    {
        reveal_strlit("batch_size");
        reveal_strlit("learning_rate_multiplier");
        reveal_strlit("n_epochs");
        reveal_strlit("prompt_loss_weight");
        assert("batch_size"@.len() == 10);
        assert("learning_rate_multiplier"@.len() == 24);
        assert("n_epochs"@.len() == 8);
        assert("prompt_loss_weight"@.len() == 18);
    }
}

/// One line of the log of a fine-tune.
#[derive(Clone, Debug, PartialEq)]
pub struct FineTuneEvent {
    pub object: String,
    pub created_at: i64,
    pub level: String,
    pub message: String,
}

/// The model of [`FineTuneEvent`].
pub struct FineTuneEventView {
    pub object: Seq<char>,
    pub created_at: i64,
    pub level: Seq<char>,
    pub message: Seq<char>,
}

impl DeepView for FineTuneEvent {
    type V = FineTuneEventView;

    open spec fn deep_view(&self) -> FineTuneEventView {
        FineTuneEventView {
            object: self.object@,
            created_at: self.created_at,
            level: self.level@,
            message: self.message@,
        }
    }
}

impl JsonCodec for FineTuneEvent {
    open spec fn encoded(v: FineTuneEventView) -> JsonView {
        let m = Seq::empty();
        let m = with::<String>(m, "object"@, v.object);
        let m = with::<i64>(m, "created_at"@, v.created_at);
        let m = with::<String>(m, "level"@, v.level);
        let m = with::<String>(m, "message"@, v.message);
        JsonView::Object(m)
    }

    open spec fn decoded(doc: JsonView) -> Option<FineTuneEventView> {
        match doc {
            JsonView::Object(m) => {
                let object = required::<String>(m, "object"@);
                let created_at = required::<i64>(m, "created_at"@);
                let level = required::<String>(m, "level"@);
                let message = required::<String>(m, "message"@);
                if object is Some && created_at is Some && level is Some && message is Some {
                    Some(
                        FineTuneEventView {
                            object: object->0,
                            created_at: created_at->0,
                            level: level->0,
                            message: message->0,
                        },
                    )
                } else {
                    None
                }
            },
            _ => None,
        }
    }

    fn to_json(&self) -> (doc: Json) {
        let mut m: Vec<(String, Json)> = Vec::new();
        proof {
            lemma_members_empty(m);
        }
        put(&mut m, "object", &self.object);
        put(&mut m, "created_at", &self.created_at);
        put(&mut m, "level", &self.level);
        put(&mut m, "message", &self.message);
        proof {
            lemma_object_view(m);
        }
        Json::Object(m)
    }

    fn from_json(doc: &Json) -> (r: Option<FineTuneEvent>) {
        match doc {
            Json::Object(m) => {
                proof {
                    lemma_object_view(*m);
                }
                let object = match get_required::<String>(m, "object") {
                    Some(v) => v,
                    None => return None,
                };
                let created_at = match get_required::<i64>(m, "created_at") {
                    Some(v) => v,
                    None => return None,
                };
                let level = match get_required::<String>(m, "level") {
                    Some(v) => v,
                    None => return None,
                };
                let message = match get_required::<String>(m, "message") {
                    Some(v) => v,
                    None => return None,
                };
                Some(FineTuneEvent { object, created_at, level, message })
            },
            _ => None,
        }
    }

    proof fn lemma_round_trip(v: FineTuneEventView) {
        broadcast use group_members;

        FineTuneEvent::lemma_names_differ();
        String::lemma_round_trip(v.object);
        i64::lemma_round_trip(v.created_at);
        String::lemma_round_trip(v.level);
        String::lemma_round_trip(v.message);
    }
}

impl FineTuneEvent {
    /// No two members of the JSON form have the same name.
    proof fn lemma_names_differ()
        ensures
            "object"@ != "created_at"@,
            "object"@ != "level"@,
            "object"@ != "message"@,
            "created_at"@ != "level"@,
            "created_at"@ != "message"@,
            "level"@ != "message"@,
    {
        reveal_strlit("object");
        reveal_strlit("created_at");
        reveal_strlit("level");
        reveal_strlit("message");
        assert("object"@.len() == 6);
        assert("created_at"@.len() == 10);
        assert("level"@.len() == 5);
        assert("message"@.len() == 7);
    }
}

/// A file that a fine-tune names: what the service knows of the file, and how far it
/// has got with it.
#[derive(Clone, Debug, PartialEq)]
pub struct FineTuneFileInfo {
    pub id: String,
    pub object: String,
    pub bytes: i64,
    pub created_at: i64,
    pub filename: String,
    pub purpose: String,
    pub status: String,
    pub status_details: Option<String>,
}

/// The model of [`FineTuneFileInfo`].
pub struct FineTuneFileInfoView {
    pub id: Seq<char>,
    pub object: Seq<char>,
    pub bytes: i64,
    pub created_at: i64,
    pub filename: Seq<char>,
    pub purpose: Seq<char>,
    pub status: Seq<char>,
    pub status_details: Option<Seq<char>>,
}

impl DeepView for FineTuneFileInfo {
    type V = FineTuneFileInfoView;

    open spec fn deep_view(&self) -> FineTuneFileInfoView {
        FineTuneFileInfoView {
            id: self.id@,
            object: self.object@,
            bytes: self.bytes,
            created_at: self.created_at,
            filename: self.filename@,
            purpose: self.purpose@,
            status: self.status@,
            status_details: self.status_details.deep_view(),
        }
    }
}

impl JsonCodec for FineTuneFileInfo {
    open spec fn encoded(v: FineTuneFileInfoView) -> JsonView {
        let m = Seq::empty();
        let m = with::<String>(m, "id"@, v.id);
        let m = with::<String>(m, "object"@, v.object);
        let m = with::<i64>(m, "bytes"@, v.bytes);
        let m = with::<i64>(m, "created_at"@, v.created_at);
        let m = with::<String>(m, "filename"@, v.filename);
        let m = with::<String>(m, "purpose"@, v.purpose);
        let m = with::<String>(m, "status"@, v.status);
        let m = with_nullable::<String>(m, "status_details"@, v.status_details);
        JsonView::Object(m)
    }

    open spec fn decoded(doc: JsonView) -> Option<FineTuneFileInfoView> {
        match doc {
            JsonView::Object(m) => {
                let id = required::<String>(m, "id"@);
                let object = required::<String>(m, "object"@);
                let bytes = required::<i64>(m, "bytes"@);
                let created_at = required::<i64>(m, "created_at"@);
                let filename = required::<String>(m, "filename"@);
                let purpose = required::<String>(m, "purpose"@);
                let status = required::<String>(m, "status"@);
                let status_details = optional::<String>(m, "status_details"@);
                if id is Some
                    && object is Some
                    && bytes is Some
                    && created_at is Some
                    && filename is Some
                    && purpose is Some
                    && status is Some
                    && status_details is Some {
                    Some(
                        FineTuneFileInfoView {
                            id: id->0,
                            object: object->0,
                            bytes: bytes->0,
                            created_at: created_at->0,
                            filename: filename->0,
                            purpose: purpose->0,
                            status: status->0,
                            status_details: status_details->0,
                        },
                    )
                } else {
                    None
                }
            },
            _ => None,
        }
    }

    fn to_json(&self) -> (doc: Json) {
        let mut m: Vec<(String, Json)> = Vec::new();
        proof {
            lemma_members_empty(m);
        }
        put(&mut m, "id", &self.id);
        put(&mut m, "object", &self.object);
        put(&mut m, "bytes", &self.bytes);
        put(&mut m, "created_at", &self.created_at);
        put(&mut m, "filename", &self.filename);
        put(&mut m, "purpose", &self.purpose);
        put(&mut m, "status", &self.status);
        put_nullable(&mut m, "status_details", &self.status_details);
        proof {
            lemma_object_view(m);
        }
        Json::Object(m)
    }

    fn from_json(doc: &Json) -> (r: Option<FineTuneFileInfo>) {
        match doc {
            Json::Object(m) => {
                proof {
                    lemma_object_view(*m);
                }
                let id = match get_required::<String>(m, "id") {
                    Some(v) => v,
                    None => return None,
                };
                let object = match get_required::<String>(m, "object") {
                    Some(v) => v,
                    None => return None,
                };
                let bytes = match get_required::<i64>(m, "bytes") {
                    Some(v) => v,
                    None => return None,
                };
                let created_at = match get_required::<i64>(m, "created_at") {
                    Some(v) => v,
                    None => return None,
                };
                let filename = match get_required::<String>(m, "filename") {
                    Some(v) => v,
                    None => return None,
                };
                let purpose = match get_required::<String>(m, "purpose") {
                    Some(v) => v,
                    None => return None,
                };
                let status = match get_required::<String>(m, "status") {
                    Some(v) => v,
                    None => return None,
                };
                let status_details = match get_optional::<String>(m, "status_details") {
                    Some(v) => v,
                    None => return None,
                };
                Some(
                    FineTuneFileInfo {
                        id,
                        object,
                        bytes,
                        created_at,
                        filename,
                        purpose,
                        status,
                        status_details,
                    },
                )
            },
            _ => None,
        }
    }

    proof fn lemma_round_trip(v: FineTuneFileInfoView) {
        FineTuneFileInfo::lemma_names_differ();
        let m = FineTuneFileInfo::encoded(v)->Object_0;
        assert(required::<String>(m, "id"@) == Some(v.id)) by {
            broadcast use group_members;

            String::lemma_round_trip(v.id);
        }
        assert(required::<String>(m, "object"@) == Some(v.object)) by {
            broadcast use group_members;

            String::lemma_round_trip(v.object);
        }
        assert(required::<i64>(m, "bytes"@) == Some(v.bytes)) by {
            broadcast use group_members;

            i64::lemma_round_trip(v.bytes);
        }
        assert(required::<i64>(m, "created_at"@) == Some(v.created_at)) by {
            broadcast use group_members;

            i64::lemma_round_trip(v.created_at);
        }
        assert(required::<String>(m, "filename"@) == Some(v.filename)) by {
            broadcast use group_members;

            String::lemma_round_trip(v.filename);
        }
        assert(required::<String>(m, "purpose"@) == Some(v.purpose)) by {
            broadcast use group_members;

            String::lemma_round_trip(v.purpose);
        }
        assert(required::<String>(m, "status"@) == Some(v.status)) by {
            broadcast use group_members;

            String::lemma_round_trip(v.status);
        }
        assert(optional::<String>(m, "status_details"@) == Some(v.status_details)) by {
            broadcast use group_members;

            if v.status_details is Some {
                String::lemma_round_trip(v.status_details->0);
            }
        }
    }
}

impl FineTuneFileInfo {
    /// No two members of the JSON form have the same name.
    proof fn lemma_names_differ()
        ensures
            "id"@ != "object"@,
            "id"@ != "bytes"@,
            "id"@ != "created_at"@,
            "id"@ != "filename"@,
            "id"@ != "purpose"@,
            "id"@ != "status"@,
            "id"@ != "status_details"@,
            "object"@ != "bytes"@,
            "object"@ != "created_at"@,
            "object"@ != "filename"@,
            "object"@ != "purpose"@,
            "object"@ != "status"@,
            "object"@ != "status_details"@,
            "bytes"@ != "created_at"@,
            "bytes"@ != "filename"@,
            "bytes"@ != "purpose"@,
            "bytes"@ != "status"@,
            "bytes"@ != "status_details"@,
            "created_at"@ != "filename"@,
            "created_at"@ != "purpose"@,
            "created_at"@ != "status"@,
            "created_at"@ != "status_details"@,
            "filename"@ != "purpose"@,
            "filename"@ != "status"@,
            "filename"@ != "status_details"@,
            "purpose"@ != "status"@,
            "purpose"@ != "status_details"@,
            "status"@ != "status_details"@,
    {
        reveal_strlit("id");
        reveal_strlit("object");
        reveal_strlit("bytes");
        reveal_strlit("created_at");
        reveal_strlit("filename");
        reveal_strlit("purpose");
        reveal_strlit("status");
        reveal_strlit("status_details");
        assert("id"@.len() == 2);
        assert("object"@.len() == 6);
        assert("bytes"@.len() == 5);
        assert("created_at"@.len() == 10);
        assert("filename"@.len() == 8);
        assert("purpose"@.len() == 7);
        assert("status"@.len() == 6);
        assert("status_details"@.len() == 14);
        assert("object"@[0] == 'o');
        assert("status"@[0] == 's');
    }
}

/// Asks the service for the log of a fine-tune.
#[derive(Clone, Debug, PartialEq)]
pub struct FineTuneEventsGetRequest {
    pub id: String,
}

/// The model of [`FineTuneEventsGetRequest`].
pub struct FineTuneEventsGetRequestView {
    pub id: Seq<char>,
}

impl DeepView for FineTuneEventsGetRequest {
    type V = FineTuneEventsGetRequestView;

    open spec fn deep_view(&self) -> FineTuneEventsGetRequestView {
        FineTuneEventsGetRequestView {
            id: self.id@,
        }
    }
}

impl FineTuneEventsGetRequest {
    pub fn new(id: String) -> (r: Self)
        ensures
            r.id == id,
    {
        FineTuneEventsGetRequest { id }
    }

    /// The identifier that stands in the URL of the call.
    pub fn id(&self) -> (r: &str)
        ensures
            r@ == self.id@,
    {
        self.id.as_str()
    }
}

impl From<FineTuneListEntry> for FineTuneEventsGetRequest {
    fn from(value: FineTuneListEntry) -> (r: Self) {
        FineTuneEventsGetRequest { id: value.id }
    }
}

impl FromSpecImpl<FineTuneListEntry> for FineTuneEventsGetRequest {
    open spec fn obeys_from_spec() -> bool {
        true
    }

    open spec fn from_spec(value: FineTuneListEntry) -> Self {
        FineTuneEventsGetRequest { id: value.id }
    }
}

impl From<FineTune> for FineTuneEventsGetRequest {
    fn from(value: FineTune) -> (r: Self) {
        FineTuneEventsGetRequest { id: value.id }
    }
}

impl FromSpecImpl<FineTune> for FineTuneEventsGetRequest {
    open spec fn obeys_from_spec() -> bool {
        true
    }

    open spec fn from_spec(value: FineTune) -> Self {
        FineTuneEventsGetRequest { id: value.id }
    }
}

impl ApiRequest for FineTuneEventsGetRequest {
    type Response = FineTuneEventsResponse;

    open spec fn method(&self) -> Method {
        Method::Get
    }

    open spec fn path(&self) -> Seq<char> {
        "/fine-tunes/"@ + self.id@ + "/events"@
    }

    open spec fn body(&self) -> BodyView {
        BodyView::Empty
    }

    fn request(&self, client: &OpenAiClient) -> (r: HttpRequest) {
        let id = self.id.as_str();
        let r = HttpRequest::by_id(client, Method::Get, "/fine-tunes/", id, "/events");
        assert(r.url@ =~= endpoint_url(client.deep_view().url, self.path()));
        r
    }
}

impl FineTuneEventsGetRequest {
    /// In the URL of the call the identifier stands, as it is, after `/fine-tunes/`
    /// and before `/events`.
    pub proof fn lemma_url(self, base: Seq<char>)
        ensures
            endpoint_url(base, self.path()) == resource_url(
                base,
                "/fine-tunes/"@,
                self.id@,
                "/events"@,
            ),
    {
        assert(endpoint_url(base, self.path()) =~= resource_url(
            base,
            "/fine-tunes/"@,
            self.id@,
            "/events"@,
        ));
    }
}

/// The log of a fine-tune.
#[derive(Clone, Debug, PartialEq)]
pub struct FineTuneEventsResponse {
    pub object: String,
    pub data: Vec<FineTuneEvent>,
}

/// The model of [`FineTuneEventsResponse`].
pub struct FineTuneEventsResponseView {
    pub object: Seq<char>,
    pub data: Seq<FineTuneEventView>,
}

impl DeepView for FineTuneEventsResponse {
    type V = FineTuneEventsResponseView;

    open spec fn deep_view(&self) -> FineTuneEventsResponseView {
        FineTuneEventsResponseView {
            object: self.object@,
            data: self.data.deep_view(),
        }
    }
}

impl JsonCodec for FineTuneEventsResponse {
    open spec fn encoded(v: FineTuneEventsResponseView) -> JsonView {
        let m = Seq::empty();
        let m = with::<String>(m, "object"@, v.object);
        let m = with::<Vec<FineTuneEvent>>(m, "data"@, v.data);
        JsonView::Object(m)
    }

    open spec fn decoded(doc: JsonView) -> Option<FineTuneEventsResponseView> {
        match doc {
            JsonView::Object(m) => {
                let object = required::<String>(m, "object"@);
                let data = required::<Vec<FineTuneEvent>>(m, "data"@);
                if object is Some && data is Some {
                    Some(
                        FineTuneEventsResponseView {
                            object: object->0,
                            data: data->0,
                        },
                    )
                } else {
                    None
                }
            },
            _ => None,
        }
    }

    fn to_json(&self) -> (doc: Json) {
        let mut m: Vec<(String, Json)> = Vec::new();
        proof {
            lemma_members_empty(m);
        }
        put(&mut m, "object", &self.object);
        put(&mut m, "data", &self.data);
        proof {
            lemma_object_view(m);
        }
        Json::Object(m)
    }

    fn from_json(doc: &Json) -> (r: Option<FineTuneEventsResponse>) {
        match doc {
            Json::Object(m) => {
                proof {
                    lemma_object_view(*m);
                }
                let object = match get_required::<String>(m, "object") {
                    Some(v) => v,
                    None => return None,
                };
                let data = match get_required::<Vec<FineTuneEvent>>(m, "data") {
                    Some(v) => v,
                    None => return None,
                };
                Some(FineTuneEventsResponse { object, data })
            },
            _ => None,
        }
    }

    proof fn lemma_round_trip(v: FineTuneEventsResponseView) {
        broadcast use group_members;

        FineTuneEventsResponse::lemma_names_differ();
        String::lemma_round_trip(v.object);
        Vec::<FineTuneEvent>::lemma_round_trip(v.data);
    }
}

impl FineTuneEventsResponse {
    /// No two members of the JSON form have the same name.
    proof fn lemma_names_differ()
        ensures
            "object"@ != "data"@,
    {
        reveal_strlit("object");
        reveal_strlit("data");
        assert("object"@.len() == 6);
        assert("data"@.len() == 4);
    }
}

} // verus!
