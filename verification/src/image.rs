//! The image endpoints.

use crate::client::OpenAiClient;
use crate::codec::{
    get_optional, get_required, group_members, optional, present, put, put_some, required, with,
    with_some, JsonCodec,
};
use crate::error::PreconditionError;
use crate::http::{
    file_part, push_part, text_part, with_part, ApiRequest, BodyView, FormPart, FormPartView,
    HttpRequest, Method,
};
use crate::json::{json_text, lemma_members_empty, lemma_object_view, member, Json, JsonView};
use crate::text::{decimal, decimal_text, same_text, signed_decimal, signed_decimal_text};
use vstd::prelude::*;

verus! {

/// The sizes in which the service draws.
#[derive(Clone, Copy, Debug, PartialEq, Eq)]
pub enum ImageSize {
    S256,
    S512,
    S1024,
}

impl DeepView for ImageSize {
    type V = ImageSize;

    open spec fn deep_view(&self) -> ImageSize {
        *self
    }
}

impl ImageSize {
    /// The size as the service writes it: width, `x`, height.
    pub open spec fn wire_name(self) -> Seq<char> {
        match self {
            ImageSize::S256 => "256x256"@,
            ImageSize::S512 => "512x512"@,
            ImageSize::S1024 => "1024x1024"@,
        }
    }

    pub fn as_wire_name(&self) -> (r: &'static str)
        ensures
            r@ == self.wire_name(),
    {
        match self {
            ImageSize::S256 => "256x256",
            ImageSize::S512 => "512x512",
            ImageSize::S1024 => "1024x1024",
        }
    }

    pub fn to_string(&self) -> (r: String)
        ensures
            r@ == self.wire_name(),
    {
        self.as_wire_name().to_owned()
    }

    /// The size that a text names, if it names one.
    pub open spec fn named(s: Seq<char>) -> Option<ImageSize> {
        if s == "256x256"@ {
            Some(ImageSize::S256)
        } else if s == "512x512"@ {
            Some(ImageSize::S512)
        } else if s == "1024x1024"@ {
            Some(ImageSize::S1024)
        } else {
            None
        }
    }

    /// Reads a size as the service writes it.
    pub fn from_string(s: &str) -> (r: Option<ImageSize>)
        ensures
            r == ImageSize::named(s@),
    {
        if same_text(s, "256x256") {
            Some(ImageSize::S256)
        } else if same_text(s, "512x512") {
            Some(ImageSize::S512)
        } else if same_text(s, "1024x1024") {
            Some(ImageSize::S1024)
        } else {
            None
        }
    }

    /// Every value is found again by its name.
    pub proof fn lemma_named(v: ImageSize)
        ensures
            ImageSize::named(v.wire_name()) == Some(v),
    {
        reveal_strlit("256x256");
        reveal_strlit("512x512");
        reveal_strlit("1024x1024");
        assert("256x256"@.len() == 7);
        assert("512x512"@.len() == 7);
        assert("1024x1024"@.len() == 9);
        assert("256x256"@[0] == '2');
        assert("512x512"@[0] == '5');
    }
}

impl JsonCodec for ImageSize {
    open spec fn encoded(v: ImageSize) -> JsonView {
        JsonView::String(v.wire_name())
    }

    open spec fn decoded(doc: JsonView) -> Option<ImageSize> {
        match doc {
            JsonView::String(s) => ImageSize::named(s),
            _ => None,
        }
    }

    fn to_json(&self) -> (doc: Json) {
        Json::String(self.as_wire_name().to_owned())
    }

    fn from_json(doc: &Json) -> (r: Option<ImageSize>) {
        match doc {
            Json::String(s) => ImageSize::from_string(s.as_str()),
            _ => None,
        }
    }

    proof fn lemma_round_trip(v: ImageSize) {
        ImageSize::lemma_named(v);
    }
}

/// A description for the service to draw.
#[derive(Clone, Debug, PartialEq)]
pub struct ImageRequest {
    prompt: String,
    n: Option<u32>,
    size: Option<ImageSize>,
    response_format: Option<String>,
    user: Option<String>,
}

/// The model of [`ImageRequest`].
pub struct ImageRequestView {
    pub prompt: Seq<char>,
    pub n: Option<u32>,
    pub size: Option<ImageSize>,
    pub response_format: Option<Seq<char>>,
    pub user: Option<Seq<char>>,
}

impl DeepView for ImageRequest {
    type V = ImageRequestView;

    closed spec fn deep_view(&self) -> ImageRequestView {
        ImageRequestView {
            prompt: self.prompt@,
            n: self.n,
            size: self.size,
            response_format: self.response_format.deep_view(),
            user: self.user.deep_view(),
        }
    }
}

impl JsonCodec for ImageRequest {
    open spec fn encoded(v: ImageRequestView) -> JsonView {
        let m = Seq::empty();
        let m = with::<String>(m, "prompt"@, v.prompt);
        let m = with_some::<u32>(m, "n"@, v.n);
        let m = with_some::<ImageSize>(m, "size"@, v.size);
        let m = with_some::<String>(m, "response_format"@, v.response_format);
        let m = with_some::<String>(m, "user"@, v.user);
        JsonView::Object(m)
    }

    open spec fn decoded(doc: JsonView) -> Option<ImageRequestView> {
        match doc {
            JsonView::Object(m) => {
                let prompt = required::<String>(m, "prompt"@);
                let n = optional::<u32>(m, "n"@);
                let size = optional::<ImageSize>(m, "size"@);
                let response_format = optional::<String>(m, "response_format"@);
                let user = optional::<String>(m, "user"@);
                if prompt is Some
                    && n is Some
                    && size is Some
                    && response_format is Some
                    && user is Some {
                    Some(
                        ImageRequestView {
                            prompt: prompt->0,
                            n: n->0,
                            size: size->0,
                            response_format: response_format->0,
                            user: user->0,
                        },
                    )
                } else {
                    None
                }
            },
            _ => None,
        }
    }

    fn to_json(&self) -> (doc: Json) {
        let mut m: Vec<(String, Json)> = Vec::new();
        proof {
            lemma_members_empty(m);
        }
        put(&mut m, "prompt", &self.prompt);
        put_some(&mut m, "n", &self.n);
        put_some(&mut m, "size", &self.size);
        put_some(&mut m, "response_format", &self.response_format);
        put_some(&mut m, "user", &self.user);
        proof {
            lemma_object_view(m);
        }
        Json::Object(m)
    }

    fn from_json(doc: &Json) -> (r: Option<ImageRequest>) {
        match doc {
            Json::Object(m) => {
                proof {
                    lemma_object_view(*m);
                }
                let prompt = match get_required::<String>(m, "prompt") {
                    Some(v) => v,
                    None => return None,
                };
                let n = match get_optional::<u32>(m, "n") {
                    Some(v) => v,
                    None => return None,
                };
                let size = match get_optional::<ImageSize>(m, "size") {
                    Some(v) => v,
                    None => return None,
                };
                let response_format = match get_optional::<String>(m, "response_format") {
                    Some(v) => v,
                    None => return None,
                };
                let user = match get_optional::<String>(m, "user") {
                    Some(v) => v,
                    None => return None,
                };
                Some(ImageRequest { prompt, n, size, response_format, user })
            },
            _ => None,
        }
    }

    proof fn lemma_round_trip(v: ImageRequestView) {
        ImageRequest::lemma_names_differ();
        let m = ImageRequest::encoded(v)->Object_0;
        assert(required::<String>(m, "prompt"@) == Some(v.prompt)) by {
            broadcast use group_members;

            String::lemma_round_trip(v.prompt);
        }
        assert(optional::<u32>(m, "n"@) == Some(v.n)) by {
            broadcast use group_members;

            if v.n is Some {
                u32::lemma_round_trip(v.n->0);
            }
        }
        assert(optional::<ImageSize>(m, "size"@) == Some(v.size)) by {
            broadcast use group_members;

            if v.size is Some {
                ImageSize::lemma_round_trip(v.size->0);
            }
        }
        assert(optional::<String>(m, "response_format"@) == Some(v.response_format)) by {
            broadcast use group_members;

            if v.response_format is Some {
                String::lemma_round_trip(v.response_format->0);
            }
        }
        assert(optional::<String>(m, "user"@) == Some(v.user)) by {
            broadcast use group_members;

            if v.user is Some {
                String::lemma_round_trip(v.user->0);
            }
        }
    }
}

impl ImageRequest {
    /// No two members of the JSON form have the same name.
    proof fn lemma_names_differ()
        ensures
            "prompt"@ != "n"@,
            "prompt"@ != "size"@,
            "prompt"@ != "response_format"@,
            "prompt"@ != "user"@,
            "n"@ != "size"@,
            "n"@ != "response_format"@,
            "n"@ != "user"@,
            "size"@ != "response_format"@,
            "size"@ != "user"@,
            "response_format"@ != "user"@,
    {
        reveal_strlit("prompt");
        reveal_strlit("n");
        reveal_strlit("size");
        reveal_strlit("response_format");
        reveal_strlit("user");
        assert("prompt"@.len() == 6);
        assert("n"@.len() == 1);
        assert("size"@.len() == 4);
        assert("response_format"@.len() == 15);
        assert("user"@.len() == 4);
        assert("size"@[0] == 's');
        assert("user"@[0] == 'u');
    }
}

impl ImageRequest {
    pub fn new(prompt: String) -> (r: Self)
        ensures
            r.deep_view() == (ImageRequestView {
                prompt: prompt@,
                n: None,
                size: None,
                response_format: None,
                user: None,
            }),
    {
        ImageRequest {
            prompt,
            n: None,
            size: None,
            response_format: None,
            user: None,
        }
    }

    /// How many images to draw.
    pub fn n(self, n: u32) -> (r: Self)
        ensures
            r.deep_view() == (ImageRequestView { n: Some(n), ..self.deep_view() }),
    {
        let mut request = self;
        request.n = Some(n);
        request
    }

    pub fn size(self, size: ImageSize) -> (r: Self)
        ensures
            r.deep_view() == (ImageRequestView { size: Some(size), ..self.deep_view() }),
    {
        let mut request = self;
        request.size = Some(size);
        request
    }

    pub fn response_format(self, response_format: String) -> (r: Self)
        ensures
            r.deep_view() == (ImageRequestView {
                response_format: Some(response_format@),
                ..self.deep_view()
            }),
    {
        let mut request = self;
        request.response_format = Some(response_format);
        request
    }

    pub fn user(self, user: String) -> (r: Self)
        ensures
            r.deep_view() == (ImageRequestView { user: Some(user@), ..self.deep_view() }),
    {
        let mut request = self;
        request.user = Some(user);
        request
    }

    /// The JSON form has one member for each field that is set, under the name that
    /// the service knows the field by, and no other member. None of them is `null`:
    /// a field that is not set is left out.
    pub proof fn lemma_wire_form(v: ImageRequestView)
        ensures
            ImageRequest::encoded(v) is Object,
            ({
                let m = ImageRequest::encoded(v)->Object_0;
                &&& member(m, "prompt"@) == Some(String::encoded(v.prompt))
                &&& member(m, "n"@) == present::<u32>(v.n)
                &&& member(m, "size"@) == present::<ImageSize>(v.size)
                &&& member(m, "response_format"@) == present::<String>(v.response_format)
                &&& member(m, "user"@) == present::<String>(v.user)
                &&& forall|k: Seq<char>|
                    k != "prompt"@ && k != "n"@ && k != "size"@ && k != "response_format"@
                    && k != "user"@ ==> member(m, k) is None
                &&& forall|k: Seq<char>| member(m, k) != Some(JsonView::Null)
            }),
    {
        ImageRequest::lemma_names_differ();
        let m = ImageRequest::encoded(v)->Object_0;
        assert(member(m, "prompt"@) == Some(String::encoded(v.prompt))) by {
            broadcast use group_members;
        }
        assert(member(m, "n"@) == present::<u32>(v.n)) by {
            broadcast use group_members;
        }
        assert(member(m, "size"@) == present::<ImageSize>(v.size)) by {
            broadcast use group_members;
        }
        assert(member(m, "response_format"@) == present::<String>(v.response_format)) by {
            broadcast use group_members;
        }
        assert(member(m, "user"@) == present::<String>(v.user)) by {
            broadcast use group_members;
        }
        assert forall|k: Seq<char>|
            k != "prompt"@ && k != "n"@ && k != "size"@ && k != "response_format"@ && k != "user"@
            implies member(m, k) is None by {
            broadcast use group_members;
        }
    }
}

impl ApiRequest for ImageRequest {
    type Response = ImageResponse;

    open spec fn method(&self) -> Method {
        Method::Post
    }

    open spec fn path(&self) -> Seq<char> {
        "/images/generations"@
    }

    open spec fn body(&self) -> BodyView {
        BodyView::Json(json_text(ImageRequest::encoded(self.deep_view())))
    }

    fn request(&self, client: &OpenAiClient) -> (r: HttpRequest) {
        let doc = self.to_json();
        HttpRequest::post_json(client, "/images/generations", &doc)
    }
}

/// An image for the service to change as a description says.
#[derive(Clone, Debug, PartialEq)]
pub struct ImageEditRequest {
    /// The path of the image.
    image: String,
    /// The path of the mask: where it is transparent, the image is redrawn.
    mask: Option<String>,
    prompt: String,
    n: Option<i32>,
    size: Option<ImageSize>,
    response_format: Option<String>,
    user: Option<String>,
}

/// The model of [`ImageEditRequest`].
pub struct ImageEditRequestView {
    pub image: Seq<char>,
    pub mask: Option<Seq<char>>,
    pub prompt: Seq<char>,
    pub n: Option<i32>,
    pub size: Option<ImageSize>,
    pub response_format: Option<Seq<char>>,
    pub user: Option<Seq<char>>,
}

impl DeepView for ImageEditRequest {
    type V = ImageEditRequestView;

    closed spec fn deep_view(&self) -> ImageEditRequestView {
        ImageEditRequestView {
            image: self.image@,
            mask: self.mask.deep_view(),
            prompt: self.prompt@,
            n: self.n,
            size: self.size,
            response_format: self.response_format.deep_view(),
            user: self.user.deep_view(),
        }
    }
}

impl ImageEditRequest {
    /// A request for the image at a path, given whether a file is there. Without the
    /// file there is no request, and so no call.
    pub fn new(image: String, prompt: String, found: bool) -> (r: Result<Self, PreconditionError>)
        ensures
            found ==> r is Ok && r->Ok_0.deep_view() == (ImageEditRequestView {
                image: image@,
                mask: None,
                prompt: prompt@,
                n: None,
                size: None,
                response_format: None,
                user: None,
            }),
            !found ==> r == Err::<Self, PreconditionError>(PreconditionError::FileNotFound),
    {
        if found {
            Ok(
                ImageEditRequest {
                    image,
                    mask: None,
                    prompt,
                    n: None,
                    size: None,
                    response_format: None,
                    user: None,
                },
            )
        } else {
            Err(PreconditionError::FileNotFound)
        }
    }

    /// Names the mask, given whether a file is at its path. Without the file
    /// there is no request.
    pub fn mask(self, mask: String, found: bool) -> (r: Result<Self, PreconditionError>)
        ensures
            found ==> r is Ok && r->Ok_0.deep_view() == (ImageEditRequestView {
                mask: Some(mask@),
                ..self.deep_view()
            }),
            !found ==> r == Err::<Self, PreconditionError>(PreconditionError::FileNotFound),
    {
        if found {
            let mut request = self;
            request.mask = Some(mask);
            Ok(request)
        } else {
            Err(PreconditionError::FileNotFound)
        }
    }

    pub fn n(self, n: i32) -> (r: Self)
        ensures
            r.deep_view() == (ImageEditRequestView { n: Some(n), ..self.deep_view() }),
    {
        let mut request = self;
        request.n = Some(n);
        request
    }

    pub fn size(self, size: ImageSize) -> (r: Self)
        ensures
            r.deep_view() == (ImageEditRequestView { size: Some(size), ..self.deep_view() }),
    {
        let mut request = self;
        request.size = Some(size);
        request
    }

    pub fn response_format(self, response_format: String) -> (r: Self)
        ensures
            r.deep_view() == (ImageEditRequestView {
                response_format: Some(response_format@),
                ..self.deep_view()
            }),
    {
        let mut request = self;
        request.response_format = Some(response_format);
        request
    }

    pub fn user(self, user: String) -> (r: Self)
        ensures
            r.deep_view() == (ImageEditRequestView { user: Some(user@), ..self.deep_view() }),
    {
        let mut request = self;
        request.user = Some(user);
        request
    }

    /// The parts of the form: the description and the image, then what was set.
    pub open spec fn parts(v: ImageEditRequestView) -> Seq<FormPartView> {
        let p = Seq::empty();
        let p = p.push(text_part("prompt"@, v.prompt));
        let p = p.push(file_part("image"@, v.image));
        let p = with_part(
            p,
            match v.mask {
                Some(x) => Some(file_part("mask"@, x)),
                None => None,
            },
        );
        let p = with_part(
            p,
            match v.n {
                Some(x) => Some(text_part("n"@, signed_decimal(x as int))),
                None => None,
            },
        );
        let p = with_part(
            p,
            match v.size {
                Some(x) => Some(text_part("size"@, x.wire_name())),
                None => None,
            },
        );
        let p = with_part(
            p,
            match v.response_format {
                Some(x) => Some(text_part("response_format"@, x)),
                None => None,
            },
        );
        let p = with_part(
            p,
            match v.user {
                Some(x) => Some(text_part("user"@, x)),
                None => None,
            },
        );
        p
    }

    pub fn form_parts(&self) -> (parts: Vec<FormPart>)
        ensures
            parts.deep_view() == ImageEditRequest::parts(self.deep_view()),
    {
        let mut parts: Vec<FormPart> = Vec::new();
        assert(parts.deep_view() =~= Seq::<FormPartView>::empty());
        push_part(&mut parts, FormPart::text("prompt", self.prompt.as_str()));
        push_part(&mut parts, FormPart::file("image", self.image.as_str()));
        match &self.mask {
            Some(x) => {
                push_part(&mut parts, FormPart::file("mask", x.as_str()));
            },
            None => {},
        }
        match &self.n {
            Some(x) => {
                push_part(&mut parts, FormPart::text("n", signed_decimal_text(*x as i64).as_str()));
            },
            None => {},
        }
        match &self.size {
            Some(x) => {
                push_part(&mut parts, FormPart::text("size", x.as_wire_name()));
            },
            None => {},
        }
        match &self.response_format {
            Some(x) => {
                push_part(&mut parts, FormPart::text("response_format", x.as_str()));
            },
            None => {},
        }
        match &self.user {
            Some(x) => {
                push_part(&mut parts, FormPart::text("user", x.as_str()));
            },
            None => {},
        }
        parts
    }
}

impl ApiRequest for ImageEditRequest {
    type Response = ImageResponse;

    open spec fn method(&self) -> Method {
        Method::Post
    }

    open spec fn path(&self) -> Seq<char> {
        "/images/edits"@
    }

    open spec fn body(&self) -> BodyView {
        BodyView::Form(ImageEditRequest::parts(self.deep_view()))
    }

    fn request(&self, client: &OpenAiClient) -> (r: HttpRequest) {
        HttpRequest::post_form(client, "/images/edits", self.form_parts())
    }
}

/// An image for the service to vary.
#[derive(Clone, Debug, PartialEq)]
pub struct ImageVariationRequest {
    /// The path of the image.
    image: String,
    n: Option<u32>,
    size: Option<ImageSize>,
    user: Option<String>,
}

/// The model of [`ImageVariationRequest`].
pub struct ImageVariationRequestView {
    pub image: Seq<char>,
    pub n: Option<u32>,
    pub size: Option<ImageSize>,
    pub user: Option<Seq<char>>,
}

impl DeepView for ImageVariationRequest {
    type V = ImageVariationRequestView;

    closed spec fn deep_view(&self) -> ImageVariationRequestView {
        ImageVariationRequestView {
            image: self.image@,
            n: self.n,
            size: self.size,
            user: self.user.deep_view(),
        }
    }
}

impl ImageVariationRequest {
    /// A request for the image at a path, given whether a file is there. Without the
    /// file there is no request, and so no call.
    pub fn new(image: String, found: bool) -> (r: Result<Self, PreconditionError>)
        ensures
            found ==> r is Ok && r->Ok_0.deep_view() == (ImageVariationRequestView {
                image: image@,
                n: None,
                size: None,
                user: None,
            }),
            !found ==> r == Err::<Self, PreconditionError>(PreconditionError::FileNotFound),
    {
        if found {
            Ok(
                ImageVariationRequest {
                    image,
                    n: None,
                    size: None,
                    user: None,
                },
            )
        } else {
            Err(PreconditionError::FileNotFound)
        }
    }

    pub fn n(self, n: u32) -> (r: Self)
        ensures
            r.deep_view() == (ImageVariationRequestView { n: Some(n), ..self.deep_view() }),
    {
        let mut request = self;
        request.n = Some(n);
        request
    }

    pub fn size(self, size: ImageSize) -> (r: Self)
        ensures
            r.deep_view() == (ImageVariationRequestView { size: Some(size), ..self.deep_view() }),
    {
        let mut request = self;
        request.size = Some(size);
        request
    }

    pub fn user(self, user: String) -> (r: Self)
        ensures
            r.deep_view() == (ImageVariationRequestView { user: Some(user@), ..self.deep_view() }),
    {
        let mut request = self;
        request.user = Some(user);
        request
    }

    /// The parts of the form: the image, then what was set.
    pub open spec fn parts(v: ImageVariationRequestView) -> Seq<FormPartView> {
        let p = Seq::empty();
        let p = p.push(file_part("image"@, v.image));
        let p = with_part(
            p,
            match v.n {
                Some(x) => Some(text_part("n"@, decimal(x as nat))),
                None => None,
            },
        );
        let p = with_part(
            p,
            match v.size {
                Some(x) => Some(text_part("size"@, x.wire_name())),
                None => None,
            },
        );
        let p = with_part(
            p,
            match v.user {
                Some(x) => Some(text_part("user"@, x)),
                None => None,
            },
        );
        p
    }

    pub fn form_parts(&self) -> (parts: Vec<FormPart>)
        ensures
            parts.deep_view() == ImageVariationRequest::parts(self.deep_view()),
    {
        let mut parts: Vec<FormPart> = Vec::new();
        assert(parts.deep_view() =~= Seq::<FormPartView>::empty());
        push_part(&mut parts, FormPart::file("image", self.image.as_str()));
        match &self.n {
            Some(x) => {
                push_part(&mut parts, FormPart::text("n", decimal_text(*x as u64).as_str()));
            },
            None => {},
        }
        match &self.size {
            Some(x) => {
                push_part(&mut parts, FormPart::text("size", x.as_wire_name()));
            },
            None => {},
        }
        match &self.user {
            Some(x) => {
                push_part(&mut parts, FormPart::text("user", x.as_str()));
            },
            None => {},
        }
        parts
    }
}

impl ApiRequest for ImageVariationRequest {
    type Response = ImageResponse;

    open spec fn method(&self) -> Method {
        Method::Post
    }

    open spec fn path(&self) -> Seq<char> {
        "/images/variations"@
    }

    open spec fn body(&self) -> BodyView {
        BodyView::Form(ImageVariationRequest::parts(self.deep_view()))
    }

    fn request(&self, client: &OpenAiClient) -> (r: HttpRequest) {
        HttpRequest::post_form(client, "/images/variations", self.form_parts())
    }
}

/// What the service answers to the image requests.
#[derive(Clone, Debug, PartialEq)]
pub struct ImageResponse {
    pub created: i64,
    pub data: Vec<ImageData>,
}

/// The model of [`ImageResponse`].
pub struct ImageResponseView {
    pub created: i64,
    pub data: Seq<ImageDataView>,
}

impl DeepView for ImageResponse {
    type V = ImageResponseView;

    open spec fn deep_view(&self) -> ImageResponseView {
        ImageResponseView {
            created: self.created,
            data: self.data.deep_view(),
        }
    }
}

impl JsonCodec for ImageResponse {
    open spec fn encoded(v: ImageResponseView) -> JsonView {
        let m = Seq::empty();
        let m = with::<i64>(m, "created"@, v.created);
        let m = with::<Vec<ImageData>>(m, "data"@, v.data);
        JsonView::Object(m)
    }

    open spec fn decoded(doc: JsonView) -> Option<ImageResponseView> {
        match doc {
            JsonView::Object(m) => {
                let created = required::<i64>(m, "created"@);
                let data = required::<Vec<ImageData>>(m, "data"@);
                if created is Some && data is Some {
                    Some(
                        ImageResponseView {
                            created: created->0,
                            data: data->0,
                        },
                    )
                } else {
                    None
                }
            },
            _ => None,
        }
    }

    fn to_json(&self) -> (doc: Json) {
        let mut m: Vec<(String, Json)> = Vec::new();
        proof {
            lemma_members_empty(m);
        }
        put(&mut m, "created", &self.created);
        put(&mut m, "data", &self.data);
        proof {
            lemma_object_view(m);
        }
        Json::Object(m)
    }

    fn from_json(doc: &Json) -> (r: Option<ImageResponse>) {
        match doc {
            Json::Object(m) => {
                proof {
                    lemma_object_view(*m);
                }
                let created = match get_required::<i64>(m, "created") {
                    Some(v) => v,
                    None => return None,
                };
                let data = match get_required::<Vec<ImageData>>(m, "data") {
                    Some(v) => v,
                    None => return None,
                };
                Some(ImageResponse { created, data })
            },
            _ => None,
        }
    }

    proof fn lemma_round_trip(v: ImageResponseView) {
        broadcast use group_members;

        ImageResponse::lemma_names_differ();
        i64::lemma_round_trip(v.created);
        Vec::<ImageData>::lemma_round_trip(v.data);
    }
}

impl ImageResponse {
    /// No two members of the JSON form have the same name.
    proof fn lemma_names_differ()
        ensures
            "created"@ != "data"@,
    {
        reveal_strlit("created");
        reveal_strlit("data");
        assert("created"@.len() == 7);
        assert("data"@.len() == 4);
    }
}

/// Where one image is to be had.
#[derive(Clone, Debug, PartialEq)]
pub struct ImageData {
    pub url: String,
}

/// The model of [`ImageData`].
pub struct ImageDataView {
    pub url: Seq<char>,
}

impl DeepView for ImageData {
    type V = ImageDataView;

    open spec fn deep_view(&self) -> ImageDataView {
        ImageDataView {
            url: self.url@,
        }
    }
}

impl JsonCodec for ImageData {
    open spec fn encoded(v: ImageDataView) -> JsonView {
        let m = Seq::empty();
        let m = with::<String>(m, "url"@, v.url);
        JsonView::Object(m)
    }

    open spec fn decoded(doc: JsonView) -> Option<ImageDataView> {
        match doc {
            JsonView::Object(m) => {
                let url = required::<String>(m, "url"@);
                if url is Some {
                    Some(
                        ImageDataView {
                            url: url->0,
                        },
                    )
                } else {
                    None
                }
            },
            _ => None,
        }
    }

    fn to_json(&self) -> (doc: Json) {
        let mut m: Vec<(String, Json)> = Vec::new();
        proof {
            lemma_members_empty(m);
        }
        put(&mut m, "url", &self.url);
        proof {
            lemma_object_view(m);
        }
        Json::Object(m)
    }

    fn from_json(doc: &Json) -> (r: Option<ImageData>) {
        match doc {
            Json::Object(m) => {
                proof {
                    lemma_object_view(*m);
                }
                let url = match get_required::<String>(m, "url") {
                    Some(v) => v,
                    None => return None,
                };
                Some(ImageData { url })
            },
            _ => None,
        }
    }

    proof fn lemma_round_trip(v: ImageDataView) {
        broadcast use group_members;

        String::lemma_round_trip(v.url);
    }
}

} // verus!
