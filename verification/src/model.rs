//! The models endpoints.

use crate::client::OpenAiClient;
use crate::codec::{
    get_optional, get_required, group_members, optional, put, put_nullable, required, with,
    with_nullable, JsonCodec,
};
use crate::common::DeleteResponse;
use crate::fine_tunes::{FineTune, FineTuneListEntry};
use crate::http::{endpoint_url, resource_url, ApiRequest, BodyView, HttpRequest, Listing, Method};
use crate::json::{lemma_members_empty, lemma_object_view, Json, JsonView};
use vstd::std_specs::convert::TryFromSpecImpl;
use vstd::prelude::*;

verus! {

/// Asks the service what it knows of a model.
#[derive(Clone, Debug, PartialEq)]
pub struct ModelRequest {
    pub model_name: String,
}

/// The model of [`ModelRequest`].
pub struct ModelRequestView {
    pub model_name: Seq<char>,
}

impl DeepView for ModelRequest {
    type V = ModelRequestView;

    open spec fn deep_view(&self) -> ModelRequestView {
        ModelRequestView {
            model_name: self.model_name@,
        }
    }
}

impl ModelRequest {
    pub fn new(model_name: String) -> (r: Self)
        ensures
            r.model_name == model_name,
    {
        ModelRequest { model_name }
    }

    /// The identifier that stands in the URL of the call.
    pub fn id(&self) -> (r: &str)
        ensures
            r@ == self.model_name@,
    {
        self.model_name.as_str()
    }
}

impl TryFrom<FineTuneListEntry> for ModelRequest {
    type Error = ConversionError;

    fn try_from(value: FineTuneListEntry) -> (r: Result<Self, ConversionError>) {
        match value.fine_tuned_model {
            Some(model_name) => Ok(ModelRequest { model_name }),
            None => Err(ConversionError::unfinished()),
        }
    }
}

impl TryFromSpecImpl<FineTuneListEntry> for ModelRequest {
    open spec fn obeys_try_from_spec() -> bool {
        true
    }

    open spec fn try_from_spec(value: FineTuneListEntry) -> Result<Self, ConversionError> {
        match value.fine_tuned_model {
            Some(model_name) => Ok(ModelRequest { model_name }),
            None => Err(ConversionError::unfinished()),
        }
    }
}

impl TryFrom<FineTune> for ModelRequest {
    type Error = ConversionError;

    fn try_from(value: FineTune) -> (r: Result<Self, ConversionError>) {
        match value.fine_tuned_model {
            Some(model_name) => Ok(ModelRequest { model_name }),
            None => Err(ConversionError::unfinished()),
        }
    }
}

impl TryFromSpecImpl<FineTune> for ModelRequest {
    open spec fn obeys_try_from_spec() -> bool {
        true
    }

    open spec fn try_from_spec(value: FineTune) -> Result<Self, ConversionError> {
        match value.fine_tuned_model {
            Some(model_name) => Ok(ModelRequest { model_name }),
            None => Err(ConversionError::unfinished()),
        }
    }
}

impl ApiRequest for ModelRequest {
    type Response = Model;

    open spec fn method(&self) -> Method {
        Method::Get
    }

    open spec fn path(&self) -> Seq<char> {
        "/models/"@ + self.model_name@
    }

    open spec fn body(&self) -> BodyView {
        BodyView::Empty
    }

    fn request(&self, client: &OpenAiClient) -> (r: HttpRequest) {
        proof {
            reveal_strlit("");
        }
        let id = self.model_name.as_str();
        let r = HttpRequest::by_id(client, Method::Get, "/models/", id, "");
        assert(r.url@ =~= endpoint_url(client.deep_view().url, self.path()));
        r
    }
}

impl ModelRequest {
    /// In the URL of the call the identifier stands, as it is, after `/models/`
    /// and nothing follows it.
    pub proof fn lemma_url(self, base: Seq<char>)
        ensures
            endpoint_url(base, self.path()) == resource_url(
                base,
                "/models/"@,
                self.model_name@,
                ""@,
            ),
    {
        reveal_strlit("");
        assert(endpoint_url(base, self.path()) =~= resource_url(
            base,
            "/models/"@,
            self.model_name@,
            ""@,
        ));
    }
}

/// What the service knows of one model.
#[derive(Clone, Debug, PartialEq)]
pub struct Model {
    pub id: String,
    pub object: String,
    pub created: i64,
    pub owned_by: String,
    pub permission: Vec<ModelPermission>,
    pub root: String,
    pub parent: Option<String>,
}

/// The model of [`Model`].
pub struct ModelView {
    pub id: Seq<char>,
    pub object: Seq<char>,
    pub created: i64,
    pub owned_by: Seq<char>,
    pub permission: Seq<ModelPermissionView>,
    pub root: Seq<char>,
    pub parent: Option<Seq<char>>,
}

impl DeepView for Model {
    type V = ModelView;

    open spec fn deep_view(&self) -> ModelView {
        ModelView {
            id: self.id@,
            object: self.object@,
            created: self.created,
            owned_by: self.owned_by@,
            permission: self.permission.deep_view(),
            root: self.root@,
            parent: self.parent.deep_view(),
        }
    }
}

impl JsonCodec for Model {
    open spec fn encoded(v: ModelView) -> JsonView {
        let m = Seq::empty();
        let m = with::<String>(m, "id"@, v.id);
        let m = with::<String>(m, "object"@, v.object);
        let m = with::<i64>(m, "created"@, v.created);
        let m = with::<String>(m, "owned_by"@, v.owned_by);
        let m = with::<Vec<ModelPermission>>(m, "permission"@, v.permission);
        let m = with::<String>(m, "root"@, v.root);
        let m = with_nullable::<String>(m, "parent"@, v.parent);
        JsonView::Object(m)
    }

    open spec fn decoded(doc: JsonView) -> Option<ModelView> {
        match doc {
            JsonView::Object(m) => {
                let id = required::<String>(m, "id"@);
                let object = required::<String>(m, "object"@);
                let created = required::<i64>(m, "created"@);
                let owned_by = required::<String>(m, "owned_by"@);
                let permission = required::<Vec<ModelPermission>>(m, "permission"@);
                let root = required::<String>(m, "root"@);
                let parent = optional::<String>(m, "parent"@);
                if id is Some
                    && object is Some
                    && created is Some
                    && owned_by is Some
                    && permission is Some
                    && root is Some
                    && parent is Some {
                    Some(
                        ModelView {
                            id: id->0,
                            object: object->0,
                            created: created->0,
                            owned_by: owned_by->0,
                            permission: permission->0,
                            root: root->0,
                            parent: parent->0,
                        },
                    )
                } else {
                    None
                }
            },
            _ => None,
        }
    }

    fn to_json(&self) -> (doc: Json) {
        let mut m: Vec<(String, Json)> = Vec::new();
        proof {
            lemma_members_empty(m);
        }
        put(&mut m, "id", &self.id);
        put(&mut m, "object", &self.object);
        put(&mut m, "created", &self.created);
        put(&mut m, "owned_by", &self.owned_by);
        put(&mut m, "permission", &self.permission);
        put(&mut m, "root", &self.root);
        put_nullable(&mut m, "parent", &self.parent);
        proof {
            lemma_object_view(m);
        }
        Json::Object(m)
    }

    fn from_json(doc: &Json) -> (r: Option<Model>) {
        match doc {
            Json::Object(m) => {
                proof {
                    lemma_object_view(*m);
                }
                let id = match get_required::<String>(m, "id") {
                    Some(v) => v,
                    None => return None,
                };
                let object = match get_required::<String>(m, "object") {
                    Some(v) => v,
                    None => return None,
                };
                let created = match get_required::<i64>(m, "created") {
                    Some(v) => v,
                    None => return None,
                };
                let owned_by = match get_required::<String>(m, "owned_by") {
                    Some(v) => v,
                    None => return None,
                };
                let permission = match get_required::<Vec<ModelPermission>>(m, "permission") {
                    Some(v) => v,
                    None => return None,
                };
                let root = match get_required::<String>(m, "root") {
                    Some(v) => v,
                    None => return None,
                };
                let parent = match get_optional::<String>(m, "parent") {
                    Some(v) => v,
                    None => return None,
                };
                Some(Model { id, object, created, owned_by, permission, root, parent })
            },
            _ => None,
        }
    }

    proof fn lemma_round_trip(v: ModelView) {
        Model::lemma_names_differ();
        let m = Model::encoded(v)->Object_0;
        assert(required::<String>(m, "id"@) == Some(v.id)) by {
            broadcast use group_members;

            String::lemma_round_trip(v.id);
        }
        assert(required::<String>(m, "object"@) == Some(v.object)) by {
            broadcast use group_members;

            String::lemma_round_trip(v.object);
        }
        assert(required::<i64>(m, "created"@) == Some(v.created)) by {
            broadcast use group_members;

            i64::lemma_round_trip(v.created);
        }
        assert(required::<String>(m, "owned_by"@) == Some(v.owned_by)) by {
            broadcast use group_members;

            String::lemma_round_trip(v.owned_by);
        }
        assert(required::<Vec<ModelPermission>>(m, "permission"@) == Some(v.permission)) by {
            broadcast use group_members;

            Vec::<ModelPermission>::lemma_round_trip(v.permission);
        }
        assert(required::<String>(m, "root"@) == Some(v.root)) by {
            broadcast use group_members;

            String::lemma_round_trip(v.root);
        }
        assert(optional::<String>(m, "parent"@) == Some(v.parent)) by {
            broadcast use group_members;

            if v.parent is Some {
                String::lemma_round_trip(v.parent->0);
            }
        }
    }
}

impl Model {
    /// No two members of the JSON form have the same name.
    proof fn lemma_names_differ()
        ensures
            "id"@ != "object"@,
            "id"@ != "created"@,
            "id"@ != "owned_by"@,
            "id"@ != "permission"@,
            "id"@ != "root"@,
            "id"@ != "parent"@,
            "object"@ != "created"@,
            "object"@ != "owned_by"@,
            "object"@ != "permission"@,
            "object"@ != "root"@,
            "object"@ != "parent"@,
            "created"@ != "owned_by"@,
            "created"@ != "permission"@,
            "created"@ != "root"@,
            "created"@ != "parent"@,
            "owned_by"@ != "permission"@,
            "owned_by"@ != "root"@,
            "owned_by"@ != "parent"@,
            "permission"@ != "root"@,
            "permission"@ != "parent"@,
            "root"@ != "parent"@,
    {
        reveal_strlit("id");
        reveal_strlit("object");
        reveal_strlit("created");
        reveal_strlit("owned_by");
        reveal_strlit("permission");
        reveal_strlit("root");
        reveal_strlit("parent");
        assert("id"@.len() == 2);
        assert("object"@.len() == 6);
        assert("created"@.len() == 7);
        assert("owned_by"@.len() == 8);
        assert("permission"@.len() == 10);
        assert("root"@.len() == 4);
        assert("parent"@.len() == 6);
        assert("object"@[0] == 'o');
        assert("parent"@[0] == 'p');
    }
}

/// What the account may do with a model.
#[derive(Clone, Debug, PartialEq)]
pub struct ModelPermission {
    pub id: String,
    pub object: String,
    pub created: i64,
    pub allow_create_engine: bool,
    pub allow_sampling: bool,
    pub allow_logprobs: bool,
    pub allow_search_indices: bool,
    pub allow_view: bool,
    pub allow_fine_tuning: bool,
    pub organization: String,
    pub group: Option<String>,
    pub is_blocking: bool,
}

/// The model of [`ModelPermission`].
pub struct ModelPermissionView {
    pub id: Seq<char>,
    pub object: Seq<char>,
    pub created: i64,
    pub allow_create_engine: bool,
    pub allow_sampling: bool,
    pub allow_logprobs: bool,
    pub allow_search_indices: bool,
    pub allow_view: bool,
    pub allow_fine_tuning: bool,
    pub organization: Seq<char>,
    pub group: Option<Seq<char>>,
    pub is_blocking: bool,
}

impl DeepView for ModelPermission {
    type V = ModelPermissionView;

    open spec fn deep_view(&self) -> ModelPermissionView {
        ModelPermissionView {
            id: self.id@,
            object: self.object@,
            created: self.created,
            allow_create_engine: self.allow_create_engine,
            allow_sampling: self.allow_sampling,
            allow_logprobs: self.allow_logprobs,
            allow_search_indices: self.allow_search_indices,
            allow_view: self.allow_view,
            allow_fine_tuning: self.allow_fine_tuning,
            organization: self.organization@,
            group: self.group.deep_view(),
            is_blocking: self.is_blocking,
        }
    }
}

impl JsonCodec for ModelPermission {
    open spec fn encoded(v: ModelPermissionView) -> JsonView {
        let m = Seq::empty();
        let m = with::<String>(m, "id"@, v.id);
        let m = with::<String>(m, "object"@, v.object);
        let m = with::<i64>(m, "created"@, v.created);
        let m = with::<bool>(m, "allow_create_engine"@, v.allow_create_engine);
        let m = with::<bool>(m, "allow_sampling"@, v.allow_sampling);
        let m = with::<bool>(m, "allow_logprobs"@, v.allow_logprobs);
        let m = with::<bool>(m, "allow_search_indices"@, v.allow_search_indices);
        let m = with::<bool>(m, "allow_view"@, v.allow_view);
        let m = with::<bool>(m, "allow_fine_tuning"@, v.allow_fine_tuning);
        let m = with::<String>(m, "organization"@, v.organization);
        let m = with_nullable::<String>(m, "group"@, v.group);
        let m = with::<bool>(m, "is_blocking"@, v.is_blocking);
        JsonView::Object(m)
    }

    open spec fn decoded(doc: JsonView) -> Option<ModelPermissionView> {
        match doc {
            JsonView::Object(m) => {
                let id = required::<String>(m, "id"@);
                let object = required::<String>(m, "object"@);
                let created = required::<i64>(m, "created"@);
                let allow_create_engine = required::<bool>(m, "allow_create_engine"@);
                let allow_sampling = required::<bool>(m, "allow_sampling"@);
                let allow_logprobs = required::<bool>(m, "allow_logprobs"@);
                let allow_search_indices = required::<bool>(m, "allow_search_indices"@);
                let allow_view = required::<bool>(m, "allow_view"@);
                let allow_fine_tuning = required::<bool>(m, "allow_fine_tuning"@);
                let organization = required::<String>(m, "organization"@);
                let group = optional::<String>(m, "group"@);
                let is_blocking = required::<bool>(m, "is_blocking"@);
                if id is Some
                    && object is Some
                    && created is Some
                    && allow_create_engine is Some
                    && allow_sampling is Some
                    && allow_logprobs is Some
                    && allow_search_indices is Some
                    && allow_view is Some
                    && allow_fine_tuning is Some
                    && organization is Some
                    && group is Some
                    && is_blocking is Some {
                    Some(
                        ModelPermissionView {
                            id: id->0,
                            object: object->0,
                            created: created->0,
                            allow_create_engine: allow_create_engine->0,
                            allow_sampling: allow_sampling->0,
                            allow_logprobs: allow_logprobs->0,
                            allow_search_indices: allow_search_indices->0,
                            allow_view: allow_view->0,
                            allow_fine_tuning: allow_fine_tuning->0,
                            organization: organization->0,
                            group: group->0,
                            is_blocking: is_blocking->0,
                        },
                    )
                } else {
                    None
                }
            },
            _ => None,
        }
    }

    fn to_json(&self) -> (doc: Json) {
        let mut m: Vec<(String, Json)> = Vec::new();
        proof {
            lemma_members_empty(m);
        }
        put(&mut m, "id", &self.id);
        put(&mut m, "object", &self.object);
        put(&mut m, "created", &self.created);
        put(&mut m, "allow_create_engine", &self.allow_create_engine);
        put(&mut m, "allow_sampling", &self.allow_sampling);
        put(&mut m, "allow_logprobs", &self.allow_logprobs);
        put(&mut m, "allow_search_indices", &self.allow_search_indices);
        put(&mut m, "allow_view", &self.allow_view);
        put(&mut m, "allow_fine_tuning", &self.allow_fine_tuning);
        put(&mut m, "organization", &self.organization);
        put_nullable(&mut m, "group", &self.group);
        put(&mut m, "is_blocking", &self.is_blocking);
        proof {
            lemma_object_view(m);
        }
        Json::Object(m)
    }

    fn from_json(doc: &Json) -> (r: Option<ModelPermission>) {
        match doc {
            Json::Object(m) => {
                proof {
                    lemma_object_view(*m);
                }
                let id = match get_required::<String>(m, "id") {
                    Some(v) => v,
                    None => return None,
                };
                let object = match get_required::<String>(m, "object") {
                    Some(v) => v,
                    None => return None,
                };
                let created = match get_required::<i64>(m, "created") {
                    Some(v) => v,
                    None => return None,
                };
                let allow_create_engine = match get_required::<bool>(m, "allow_create_engine") {
                    Some(v) => v,
                    None => return None,
                };
                let allow_sampling = match get_required::<bool>(m, "allow_sampling") {
                    Some(v) => v,
                    None => return None,
                };
                let allow_logprobs = match get_required::<bool>(m, "allow_logprobs") {
                    Some(v) => v,
                    None => return None,
                };
                let allow_search_indices = match get_required::<bool>(m, "allow_search_indices") {
                    Some(v) => v,
                    None => return None,
                };
                let allow_view = match get_required::<bool>(m, "allow_view") {
                    Some(v) => v,
                    None => return None,
                };
                let allow_fine_tuning = match get_required::<bool>(m, "allow_fine_tuning") {
                    Some(v) => v,
                    None => return None,
                };
                let organization = match get_required::<String>(m, "organization") {
                    Some(v) => v,
                    None => return None,
                };
                let group = match get_optional::<String>(m, "group") {
                    Some(v) => v,
                    None => return None,
                };
                let is_blocking = match get_required::<bool>(m, "is_blocking") {
                    Some(v) => v,
                    None => return None,
                };
                Some(
                    ModelPermission {
                        id,
                        object,
                        created,
                        allow_create_engine,
                        allow_sampling,
                        allow_logprobs,
                        allow_search_indices,
                        allow_view,
                        allow_fine_tuning,
                        organization,
                        group,
                        is_blocking,
                    },
                )
            },
            _ => None,
        }
    }

    proof fn lemma_round_trip(v: ModelPermissionView) {
        ModelPermission::lemma_names_differ();
        let m = ModelPermission::encoded(v)->Object_0;
        assert(required::<String>(m, "id"@) == Some(v.id)) by {
            broadcast use group_members;

            String::lemma_round_trip(v.id);
        }
        assert(required::<String>(m, "object"@) == Some(v.object)) by {
            broadcast use group_members;

            String::lemma_round_trip(v.object);
        }
        assert(required::<i64>(m, "created"@) == Some(v.created)) by {
            broadcast use group_members;

            i64::lemma_round_trip(v.created);
        }
        assert(required::<bool>(m, "allow_create_engine"@) == Some(v.allow_create_engine)) by {
            broadcast use group_members;

            bool::lemma_round_trip(v.allow_create_engine);
        }
        assert(required::<bool>(m, "allow_sampling"@) == Some(v.allow_sampling)) by {
            broadcast use group_members;

            bool::lemma_round_trip(v.allow_sampling);
        }
        assert(required::<bool>(m, "allow_logprobs"@) == Some(v.allow_logprobs)) by {
            broadcast use group_members;

            bool::lemma_round_trip(v.allow_logprobs);
        }
        assert(required::<bool>(m, "allow_search_indices"@) == Some(v.allow_search_indices)) by {
            broadcast use group_members;

            bool::lemma_round_trip(v.allow_search_indices);
        }
        assert(required::<bool>(m, "allow_view"@) == Some(v.allow_view)) by {
            broadcast use group_members;

            bool::lemma_round_trip(v.allow_view);
        }
        assert(required::<bool>(m, "allow_fine_tuning"@) == Some(v.allow_fine_tuning)) by {
            broadcast use group_members;

            bool::lemma_round_trip(v.allow_fine_tuning);
        }
        assert(required::<String>(m, "organization"@) == Some(v.organization)) by {
            broadcast use group_members;

            String::lemma_round_trip(v.organization);
        }
        assert(optional::<String>(m, "group"@) == Some(v.group)) by {
            broadcast use group_members;

            if v.group is Some {
                String::lemma_round_trip(v.group->0);
            }
        }
        assert(required::<bool>(m, "is_blocking"@) == Some(v.is_blocking)) by {
            broadcast use group_members;

            bool::lemma_round_trip(v.is_blocking);
        }
    }
}

impl ModelPermission {
    /// No two members of the JSON form have the same name.
    proof fn lemma_names_differ()
        ensures
            "id"@ != "object"@,
            "id"@ != "created"@,
            "id"@ != "allow_create_engine"@,
            "id"@ != "allow_sampling"@,
            "id"@ != "allow_logprobs"@,
            "id"@ != "allow_search_indices"@,
            "id"@ != "allow_view"@,
            "id"@ != "allow_fine_tuning"@,
            "id"@ != "organization"@,
            "id"@ != "group"@,
            "id"@ != "is_blocking"@,
            "object"@ != "created"@,
            "object"@ != "allow_create_engine"@,
            "object"@ != "allow_sampling"@,
            "object"@ != "allow_logprobs"@,
            "object"@ != "allow_search_indices"@,
            "object"@ != "allow_view"@,
            "object"@ != "allow_fine_tuning"@,
            "object"@ != "organization"@,
            "object"@ != "group"@,
            "object"@ != "is_blocking"@,
            "created"@ != "allow_create_engine"@,
            "created"@ != "allow_sampling"@,
            "created"@ != "allow_logprobs"@,
            "created"@ != "allow_search_indices"@,
            "created"@ != "allow_view"@,
            "created"@ != "allow_fine_tuning"@,
            "created"@ != "organization"@,
            "created"@ != "group"@,
            "created"@ != "is_blocking"@,
            "allow_create_engine"@ != "allow_sampling"@,
            "allow_create_engine"@ != "allow_logprobs"@,
            "allow_create_engine"@ != "allow_search_indices"@,
            "allow_create_engine"@ != "allow_view"@,
            "allow_create_engine"@ != "allow_fine_tuning"@,
            "allow_create_engine"@ != "organization"@,
            "allow_create_engine"@ != "group"@,
            "allow_create_engine"@ != "is_blocking"@,
            "allow_sampling"@ != "allow_logprobs"@,
            "allow_sampling"@ != "allow_search_indices"@,
            "allow_sampling"@ != "allow_view"@,
            "allow_sampling"@ != "allow_fine_tuning"@,
            "allow_sampling"@ != "organization"@,
            "allow_sampling"@ != "group"@,
            "allow_sampling"@ != "is_blocking"@,
            "allow_logprobs"@ != "allow_search_indices"@,
            "allow_logprobs"@ != "allow_view"@,
            "allow_logprobs"@ != "allow_fine_tuning"@,
            "allow_logprobs"@ != "organization"@,
            "allow_logprobs"@ != "group"@,
            "allow_logprobs"@ != "is_blocking"@,
            "allow_search_indices"@ != "allow_view"@,
            "allow_search_indices"@ != "allow_fine_tuning"@,
            "allow_search_indices"@ != "organization"@,
            "allow_search_indices"@ != "group"@,
            "allow_search_indices"@ != "is_blocking"@,
            "allow_view"@ != "allow_fine_tuning"@,
            "allow_view"@ != "organization"@,
            "allow_view"@ != "group"@,
            "allow_view"@ != "is_blocking"@,
            "allow_fine_tuning"@ != "organization"@,
            "allow_fine_tuning"@ != "group"@,
            "allow_fine_tuning"@ != "is_blocking"@,
            "organization"@ != "group"@,
            "organization"@ != "is_blocking"@,
            "group"@ != "is_blocking"@,
    {
        reveal_strlit("id");
        reveal_strlit("object");
        reveal_strlit("created");
        reveal_strlit("allow_create_engine");
        reveal_strlit("allow_sampling");
        reveal_strlit("allow_logprobs");
        reveal_strlit("allow_search_indices");
        reveal_strlit("allow_view");
        reveal_strlit("allow_fine_tuning");
        reveal_strlit("organization");
        reveal_strlit("group");
        reveal_strlit("is_blocking");
        assert("id"@.len() == 2);
        assert("object"@.len() == 6);
        assert("created"@.len() == 7);
        assert("allow_create_engine"@.len() == 19);
        assert("allow_sampling"@.len() == 14);
        assert("allow_logprobs"@.len() == 14);
        assert("allow_search_indices"@.len() == 20);
        assert("allow_view"@.len() == 10);
        assert("allow_fine_tuning"@.len() == 17);
        assert("organization"@.len() == 12);
        assert("group"@.len() == 5);
        assert("is_blocking"@.len() == 11);
        assert("allow_sampling"@[6] == 's');
        assert("allow_logprobs"@[6] == 'l');
    }
}

/// The models that the account can use.
#[derive(Clone, Debug, PartialEq)]
pub struct ModelListResponse {
    pub object: String,
    pub data: Vec<Model>,
}

/// The model of [`ModelListResponse`].
pub struct ModelListResponseView {
    pub object: Seq<char>,
    pub data: Seq<ModelView>,
}

impl DeepView for ModelListResponse {
    type V = ModelListResponseView;

    open spec fn deep_view(&self) -> ModelListResponseView {
        ModelListResponseView {
            object: self.object@,
            data: self.data.deep_view(),
        }
    }
}

impl JsonCodec for ModelListResponse {
    open spec fn encoded(v: ModelListResponseView) -> JsonView {
        let m = Seq::empty();
        let m = with::<String>(m, "object"@, v.object);
        let m = with::<Vec<Model>>(m, "data"@, v.data);
        JsonView::Object(m)
    }

    open spec fn decoded(doc: JsonView) -> Option<ModelListResponseView> {
        match doc {
            JsonView::Object(m) => {
                let object = required::<String>(m, "object"@);
                let data = required::<Vec<Model>>(m, "data"@);
                if object is Some && data is Some {
                    Some(
                        ModelListResponseView {
                            object: object->0,
                            data: data->0,
                        },
                    )
                } else {
                    None
                }
            },
            _ => None,
        }
    }

    fn to_json(&self) -> (doc: Json) {
        let mut m: Vec<(String, Json)> = Vec::new();
        proof {
            lemma_members_empty(m);
        }
        put(&mut m, "object", &self.object);
        put(&mut m, "data", &self.data);
        proof {
            lemma_object_view(m);
        }
        Json::Object(m)
    }

    fn from_json(doc: &Json) -> (r: Option<ModelListResponse>) {
        match doc {
            Json::Object(m) => {
                proof {
                    lemma_object_view(*m);
                }
                let object = match get_required::<String>(m, "object") {
                    Some(v) => v,
                    None => return None,
                };
                let data = match get_required::<Vec<Model>>(m, "data") {
                    Some(v) => v,
                    None => return None,
                };
                Some(ModelListResponse { object, data })
            },
            _ => None,
        }
    }

    proof fn lemma_round_trip(v: ModelListResponseView) {
        broadcast use group_members;

        ModelListResponse::lemma_names_differ();
        String::lemma_round_trip(v.object);
        Vec::<Model>::lemma_round_trip(v.data);
    }
}

impl ModelListResponse {
    /// No two members of the JSON form have the same name.
    proof fn lemma_names_differ()
        ensures
            "object"@ != "data"@,
    {
        reveal_strlit("object");
        reveal_strlit("data");
        assert("object"@.len() == 6);
        assert("data"@.len() == 4);
    }
}

impl Listing for ModelListResponse {
    open spec fn path() -> Seq<char> {
        "/models"@
    }

    fn request(client: &OpenAiClient) -> (r: HttpRequest) {
        HttpRequest::get(client, "/models")
    }
}

/// Asks the service to delete a tuned model that the account owns.
#[derive(Clone, Debug, PartialEq)]
pub struct ModelDeleteRequest {
    pub model_name: String,
}

/// The model of [`ModelDeleteRequest`].
pub struct ModelDeleteRequestView {
    pub model_name: Seq<char>,
}

impl DeepView for ModelDeleteRequest {
    type V = ModelDeleteRequestView;

    open spec fn deep_view(&self) -> ModelDeleteRequestView {
        ModelDeleteRequestView {
            model_name: self.model_name@,
        }
    }
}

impl ModelDeleteRequest {
    pub fn new(model_name: String) -> (r: Self)
        ensures
            r.model_name == model_name,
    {
        ModelDeleteRequest { model_name }
    }

    /// The identifier that stands in the URL of the call.
    pub fn id(&self) -> (r: &str)
        ensures
            r@ == self.model_name@,
    {
        self.model_name.as_str()
    }
}

/// What a fine-tune that has not finished is told when a model is asked of
/// it.
pub const UNFINISHED: &'static str =
    "can only convert finished fine tune, that has fine tune model set";

/// Why a fine-tune does not name a model: it has not finished.
#[derive(Clone, Copy, Debug, PartialEq, Eq)]
pub struct ConversionError {
    pub message: &'static str,
}

impl ConversionError {
    /// The error of a fine-tune that has no tuned model yet.
    #[verifier::when_used_as_spec(spec_unfinished)]
    pub fn unfinished() -> (r: ConversionError)
        ensures
            r == ConversionError::spec_unfinished(),
    {
        ConversionError { message: UNFINISHED }
    }

    pub open spec fn spec_unfinished() -> ConversionError {
        ConversionError { message: UNFINISHED }
    }

    pub fn to_string(&self) -> (r: String)
        ensures
            r@ == self.message@,
    {
        self.message.to_owned()
    }
}

impl TryFrom<FineTuneListEntry> for ModelDeleteRequest {
    type Error = ConversionError;

    fn try_from(value: FineTuneListEntry) -> (r: Result<Self, ConversionError>) {
        match value.fine_tuned_model {
            Some(model_name) => Ok(ModelDeleteRequest { model_name }),
            None => Err(ConversionError::unfinished()),
        }
    }
}

impl TryFromSpecImpl<FineTuneListEntry> for ModelDeleteRequest {
    open spec fn obeys_try_from_spec() -> bool {
        true
    }

    open spec fn try_from_spec(value: FineTuneListEntry) -> Result<Self, ConversionError> {
        match value.fine_tuned_model {
            Some(model_name) => Ok(ModelDeleteRequest { model_name }),
            None => Err(ConversionError::unfinished()),
        }
    }
}

impl TryFrom<FineTune> for ModelDeleteRequest {
    type Error = ConversionError;

    fn try_from(value: FineTune) -> (r: Result<Self, ConversionError>) {
        match value.fine_tuned_model {
            Some(model_name) => Ok(ModelDeleteRequest { model_name }),
            None => Err(ConversionError::unfinished()),
        }
    }
}

impl TryFromSpecImpl<FineTune> for ModelDeleteRequest {
    open spec fn obeys_try_from_spec() -> bool {
        true
    }

    open spec fn try_from_spec(value: FineTune) -> Result<Self, ConversionError> {
        match value.fine_tuned_model {
            Some(model_name) => Ok(ModelDeleteRequest { model_name }),
            None => Err(ConversionError::unfinished()),
        }
    }
}

impl ApiRequest for ModelDeleteRequest {
    type Response = DeleteResponse;

    open spec fn method(&self) -> Method {
        Method::Delete
    }

    open spec fn path(&self) -> Seq<char> {
        "/models/"@ + self.model_name@
    }

    open spec fn body(&self) -> BodyView {
        BodyView::Empty
    }

    fn request(&self, client: &OpenAiClient) -> (r: HttpRequest) {
        proof {
            reveal_strlit("");
        }
        let id = self.model_name.as_str();
        let r = HttpRequest::by_id(client, Method::Delete, "/models/", id, "");
        assert(r.url@ =~= endpoint_url(client.deep_view().url, self.path()));
        r
    }
}

impl ModelDeleteRequest {
    /// In the URL of the call the identifier stands, as it is, after `/models/`
    /// and nothing follows it.
    pub proof fn lemma_url(self, base: Seq<char>)
        ensures
            endpoint_url(base, self.path()) == resource_url(
                base,
                "/models/"@,
                self.model_name@,
                ""@,
            ),
    {
        reveal_strlit("");
        assert(endpoint_url(base, self.path()) =~= resource_url(
            base,
            "/models/"@,
            self.model_name@,
            ""@,
        ));
    }
}

} // verus!
