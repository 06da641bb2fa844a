//! The audio endpoints.

use crate::client::OpenAiClient;
use crate::codec::{get_required, group_members, put, required, with, JsonCodec};
use crate::http::{
    file_part, number_part, push_part, text_part, with_part, ApiRequest, BodyView, FormPart,
    FormPartView, HttpRequest, Method,
};
use crate::json::{lemma_members_empty, lemma_object_view, Json, JsonNumber, JsonView};
use vstd::prelude::*;

verus! {

/// The forms in which the service writes what it heard.
#[derive(Clone, Copy, Debug, PartialEq, Eq)]
pub enum ResponseFormat {
    Json,
    Text,
    Srt,
    VerboseJson,
    Vtt,
}

impl DeepView for ResponseFormat {
    type V = ResponseFormat;

    open spec fn deep_view(&self) -> ResponseFormat {
        *self
    }
}

impl ResponseFormat {
    /// The name of the form as the service takes it.
    pub open spec fn name(self) -> Seq<char> {
        match self {
            ResponseFormat::Json => "json"@,
            ResponseFormat::Text => "text"@,
            ResponseFormat::Srt => "srt"@,
            ResponseFormat::VerboseJson => "verbose_json"@,
            ResponseFormat::Vtt => "vtt"@,
        }
    }

    pub fn as_name(&self) -> (r: &'static str)
        ensures
            r@ == self.name(),
    {
        match self {
            ResponseFormat::Json => "json",
            ResponseFormat::Text => "text",
            ResponseFormat::Srt => "srt",
            ResponseFormat::VerboseJson => "verbose_json",
            ResponseFormat::Vtt => "vtt",
        }
    }

    pub fn to_string(&self) -> (r: String)
        ensures
            r@ == self.name(),
    {
        self.as_name().to_owned()
    }
}

/// What the service heard.
#[derive(Clone, Debug, PartialEq)]
pub struct AudioResponse {
    pub text: String,
}

/// The model of [`AudioResponse`].
pub struct AudioResponseView {
    pub text: Seq<char>,
}

impl DeepView for AudioResponse {
    type V = AudioResponseView;

    open spec fn deep_view(&self) -> AudioResponseView {
        AudioResponseView {
            text: self.text@,
        }
    }
}

impl JsonCodec for AudioResponse {
    open spec fn encoded(v: AudioResponseView) -> JsonView {
        let m = Seq::empty();
        let m = with::<String>(m, "text"@, v.text);
        JsonView::Object(m)
    }

    open spec fn decoded(doc: JsonView) -> Option<AudioResponseView> {
        match doc {
            JsonView::Object(m) => {
                let text = required::<String>(m, "text"@);
                if text is Some {
                    Some(
                        AudioResponseView {
                            text: text->0,
                        },
                    )
                } else {
                    None
                }
            },
            _ => None,
        }
    }

    fn to_json(&self) -> (doc: Json) {
        let mut m: Vec<(String, Json)> = Vec::new();
        proof {
            lemma_members_empty(m);
        }
        put(&mut m, "text", &self.text);
        proof {
            lemma_object_view(m);
        }
        Json::Object(m)
    }

    fn from_json(doc: &Json) -> (r: Option<AudioResponse>) {
        match doc {
            Json::Object(m) => {
                proof {
                    lemma_object_view(*m);
                }
                let text = match get_required::<String>(m, "text") {
                    Some(v) => v,
                    None => return None,
                };
                Some(AudioResponse { text })
            },
            _ => None,
        }
    }

    proof fn lemma_round_trip(v: AudioResponseView) {
        broadcast use group_members;

        String::lemma_round_trip(v.text);
    }
}

/// A recording for the service to write down.
#[derive(Clone, Debug, PartialEq)]
pub struct TranscriptionRequest {
    /// The path of the recording.
    file: String,
    model: String,
    prompt: Option<String>,
    response_format: Option<ResponseFormat>,
    temperature: Option<JsonNumber>,
    /// The language of the recording.
    language: Option<Iso639_1>,
}

/// The model of [`TranscriptionRequest`].
pub struct TranscriptionRequestView {
    pub file: Seq<char>,
    pub model: Seq<char>,
    pub prompt: Option<Seq<char>>,
    pub response_format: Option<ResponseFormat>,
    pub temperature: Option<JsonNumber>,
    pub language: Option<Iso639_1>,
}

impl DeepView for TranscriptionRequest {
    type V = TranscriptionRequestView;

    closed spec fn deep_view(&self) -> TranscriptionRequestView {
        TranscriptionRequestView {
            file: self.file@,
            model: self.model@,
            prompt: self.prompt.deep_view(),
            response_format: self.response_format,
            temperature: self.temperature,
            language: self.language,
        }
    }
}

impl TranscriptionRequest {
    /// The model that a request asks for where none is named.
    pub open spec fn default_model() -> Seq<char> {
        "whisper-1"@
    }

    /// A request for the default model.
    pub fn new(file: String) -> (r: Self)
        ensures
            r.deep_view() == (TranscriptionRequestView {
                file: file@,
                model: TranscriptionRequest::default_model(),
                prompt: None,
                response_format: None,
                temperature: None,
                language: None,
            }),
    {
        TranscriptionRequest {
            file,
            model: "whisper-1".to_owned(),
            prompt: None,
            response_format: None,
            temperature: None,
            language: None,
        }
    }

    pub fn with_model(file: String, model: String) -> (r: Self)
        ensures
            r.deep_view() == (TranscriptionRequestView {
                file: file@,
                model: model@,
                prompt: None,
                response_format: None,
                temperature: None,
                language: None,
            }),
    {
        TranscriptionRequest {
            file,
            model,
            prompt: None,
            response_format: None,
            temperature: None,
            language: None,
        }
    }

    pub fn file(self, file: String) -> (r: Self)
        ensures
            r.deep_view() == (TranscriptionRequestView { file: file@, ..self.deep_view() }),
    {
        let mut request = self;
        request.file = file;
        request
    }

    pub fn model(self, model: String) -> (r: Self)
        ensures
            r.deep_view() == (TranscriptionRequestView { model: model@, ..self.deep_view() }),
    {
        let mut request = self;
        request.model = model;
        request
    }

    pub fn prompt(self, prompt: String) -> (r: Self)
        ensures
            r.deep_view() == (TranscriptionRequestView {
                prompt: Some(prompt@),
                ..self.deep_view()
            }),
    {
        let mut request = self;
        request.prompt = Some(prompt);
        request
    }

    pub fn response_format(self, response_format: ResponseFormat) -> (r: Self)
        ensures
            r.deep_view() == (TranscriptionRequestView {
                response_format: Some(response_format),
                ..self.deep_view()
            }),
    {
        let mut request = self;
        request.response_format = Some(response_format);
        request
    }

    pub fn temperature(self, temperature: JsonNumber) -> (r: Self)
        ensures
            r.deep_view() == (TranscriptionRequestView {
                temperature: Some(temperature),
                ..self.deep_view()
            }),
    {
        let mut request = self;
        request.temperature = Some(temperature);
        request
    }

    pub fn language(self, language: Iso639_1) -> (r: Self)
        ensures
            r.deep_view() == (TranscriptionRequestView {
                language: Some(language),
                ..self.deep_view()
            }),
    {
        let mut request = self;
        request.language = Some(language);
        request
    }

    /// The parts of the form: the model and the recording, then what was set.
    pub open spec fn parts(v: TranscriptionRequestView) -> Seq<FormPartView> {
        let p = Seq::empty();
        let p = p.push(text_part("model"@, v.model));
        let p = p.push(file_part("file"@, v.file));
        let p = with_part(
            p,
            match v.prompt {
                Some(x) => Some(text_part("prompt"@, x)),
                None => None,
            },
        );
        let p = with_part(
            p,
            match v.response_format {
                Some(x) => Some(text_part("response_format"@, x.name())),
                None => None,
            },
        );
        let p = with_part(
            p,
            match v.temperature {
                Some(x) => Some(number_part("temperature"@, x)),
                None => None,
            },
        );
        let p = with_part(
            p,
            match v.language {
                Some(x) => Some(text_part("language"@, x.code())),
                None => None,
            },
        );
        p
    }

    pub fn form_parts(&self) -> (parts: Vec<FormPart>)
        ensures
            parts.deep_view() == TranscriptionRequest::parts(self.deep_view()),
    {
        let mut parts: Vec<FormPart> = Vec::new();
        assert(parts.deep_view() =~= Seq::<FormPartView>::empty());
        push_part(&mut parts, FormPart::text("model", self.model.as_str()));
        push_part(&mut parts, FormPart::file("file", self.file.as_str()));
        match &self.prompt {
            Some(x) => {
                push_part(&mut parts, FormPart::text("prompt", x.as_str()));
            },
            None => {},
        }
        match &self.response_format {
            Some(x) => {
                push_part(&mut parts, FormPart::text("response_format", x.as_name()));
            },
            None => {},
        }
        match &self.temperature {
            Some(x) => {
                push_part(&mut parts, FormPart::number("temperature", x));
            },
            None => {},
        }
        match &self.language {
            Some(x) => {
                push_part(&mut parts, FormPart::text("language", x.as_code()));
            },
            None => {},
        }
        parts
    }
}

impl ApiRequest for TranscriptionRequest {
    type Response = AudioResponse;

    open spec fn method(&self) -> Method {
        Method::Post
    }

    open spec fn path(&self) -> Seq<char> {
        "/audio/transcriptions"@
    }

    open spec fn body(&self) -> BodyView {
        BodyView::Form(TranscriptionRequest::parts(self.deep_view()))
    }

    fn request(&self, client: &OpenAiClient) -> (r: HttpRequest) {
        HttpRequest::post_form(client, "/audio/transcriptions", self.form_parts())
    }
}

/// A recording for the service to write down in English.
#[derive(Clone, Debug, PartialEq)]
pub struct TranslationRequest {
    /// The path of the recording.
    file: String,
    model: String,
    prompt: Option<String>,
    response_format: Option<ResponseFormat>,
    temperature: Option<JsonNumber>,
}

/// The model of [`TranslationRequest`].
pub struct TranslationRequestView {
    pub file: Seq<char>,
    pub model: Seq<char>,
    pub prompt: Option<Seq<char>>,
    pub response_format: Option<ResponseFormat>,
    pub temperature: Option<JsonNumber>,
}

impl DeepView for TranslationRequest {
    type V = TranslationRequestView;

    closed spec fn deep_view(&self) -> TranslationRequestView {
        TranslationRequestView {
            file: self.file@,
            model: self.model@,
            prompt: self.prompt.deep_view(),
            response_format: self.response_format,
            temperature: self.temperature,
        }
    }
}

impl TranslationRequest {
    /// The model that a request asks for where none is named.
    pub open spec fn default_model() -> Seq<char> {
        "whisper-1"@
    }

    /// A request for the default model.
    pub fn new(file: String) -> (r: Self)
        ensures
            r.deep_view() == (TranslationRequestView {
                file: file@,
                model: TranslationRequest::default_model(),
                prompt: None,
                response_format: None,
                temperature: None,
            }),
    {
        TranslationRequest {
            file,
            model: "whisper-1".to_owned(),
            prompt: None,
            response_format: None,
            temperature: None,
        }
    }

    pub fn with_model(file: String, model: String) -> (r: Self)
        ensures
            r.deep_view() == (TranslationRequestView {
                file: file@,
                model: model@,
                prompt: None,
                response_format: None,
                temperature: None,
            }),
    {
        TranslationRequest {
            file,
            model,
            prompt: None,
            response_format: None,
            temperature: None,
        }
    }

    pub fn file(self, file: String) -> (r: Self)
        ensures
            r.deep_view() == (TranslationRequestView { file: file@, ..self.deep_view() }),
    {
        let mut request = self;
        request.file = file;
        request
    }

    pub fn model(self, model: String) -> (r: Self)
        ensures
            r.deep_view() == (TranslationRequestView { model: model@, ..self.deep_view() }),
    {
        let mut request = self;
        request.model = model;
        request
    }

    pub fn prompt(self, prompt: String) -> (r: Self)
        ensures
            r.deep_view() == (TranslationRequestView { prompt: Some(prompt@), ..self.deep_view() }),
    {
        let mut request = self;
        request.prompt = Some(prompt);
        request
    }

    pub fn response_format(self, response_format: ResponseFormat) -> (r: Self)
        ensures
            r.deep_view() == (TranslationRequestView {
                response_format: Some(response_format),
                ..self.deep_view()
            }),
    {
        let mut request = self;
        request.response_format = Some(response_format);
        request
    }

    pub fn temperature(self, temperature: JsonNumber) -> (r: Self)
        ensures
            r.deep_view() == (TranslationRequestView {
                temperature: Some(temperature),
                ..self.deep_view()
            }),
    {
        let mut request = self;
        request.temperature = Some(temperature);
        request
    }

    /// The parts of the form: the model and the recording, then what was set.
    pub open spec fn parts(v: TranslationRequestView) -> Seq<FormPartView> {
        let p = Seq::empty();
        let p = p.push(text_part("model"@, v.model));
        let p = p.push(file_part("file"@, v.file));
        let p = with_part(
            p,
            match v.prompt {
                Some(x) => Some(text_part("prompt"@, x)),
                None => None,
            },
        );
        let p = with_part(
            p,
            match v.response_format {
                Some(x) => Some(text_part("response_format"@, x.name())),
                None => None,
            },
        );
        let p = with_part(
            p,
            match v.temperature {
                Some(x) => Some(number_part("temperature"@, x)),
                None => None,
            },
        );
        p
    }

    pub fn form_parts(&self) -> (parts: Vec<FormPart>)
        ensures
            parts.deep_view() == TranslationRequest::parts(self.deep_view()),
    {
        let mut parts: Vec<FormPart> = Vec::new();
        assert(parts.deep_view() =~= Seq::<FormPartView>::empty());
        push_part(&mut parts, FormPart::text("model", self.model.as_str()));
        push_part(&mut parts, FormPart::file("file", self.file.as_str()));
        match &self.prompt {
            Some(x) => {
                push_part(&mut parts, FormPart::text("prompt", x.as_str()));
            },
            None => {},
        }
        match &self.response_format {
            Some(x) => {
                push_part(&mut parts, FormPart::text("response_format", x.as_name()));
            },
            None => {},
        }
        match &self.temperature {
            Some(x) => {
                push_part(&mut parts, FormPart::number("temperature", x));
            },
            None => {},
        }
        parts
    }
}

impl ApiRequest for TranslationRequest {
    type Response = AudioResponse;

    open spec fn method(&self) -> Method {
        Method::Post
    }

    open spec fn path(&self) -> Seq<char> {
        "/audio/translations"@
    }

    open spec fn body(&self) -> BodyView {
        BodyView::Form(TranslationRequest::parts(self.deep_view()))
    }

    fn request(&self, client: &OpenAiClient) -> (r: HttpRequest) {
        HttpRequest::post_form(client, "/audio/translations", self.form_parts())
    }
}

/// The languages of ISO 639-1.
#[derive(Clone, Copy, Debug, PartialEq, Eq)]
pub enum Iso639_1 {
    /// Afar
    Aa,
    /// Abkhaz
    Ab,
    /// Avestan
    Ae,
    /// Afrikaans
    Af,
    /// Akan
    Ak,
    /// Amharic
    Am,
    /// Aragonese
    An,
    /// Arabic
    Ar,
    /// Assamese
    As,
    /// Avaric
    Av,
    /// Aymara
    Ay,
    /// Azerbaijani
    Az,
    /// Bashkir
    Ba,
    /// Belarusian
    Be,
    /// Bulgarian
    Bg,
    /// Bihari
    Bh,
    /// Bislama
    Bi,
    /// Bambara
    Bm,
    /// Bengali, Bangla
    Bn,
    /// Tibetan Standard, Tibetan, Central
    Bo,
    /// Breton
    Br,
    /// Bosnian
    Bs,
    /// Catalan
    Ca,
    /// Chechen
    Ce,
    /// Chamorro
    Ch,
    /// Corsican
    Co,
    /// Cree
    Cr,
    /// Czech
    Cs,
    /// Old Church Slavonic, Church Slavonic, Old Bulgarian
    Cu,
    /// Chuvash
    Cv,
    /// Welsh
    Cy,
    /// Danish
    Da,
    /// German
    De,
    /// Divehi, Dhivehi, Maldivian
    Dv,
    /// Dzongkha
    Dz,
    /// Ewe
    Ee,
    /// Greek
    El,
    /// English
    En,
    /// Esperanto
    Eo,
    /// Spanish
    Es,
    /// Estonian
    Et,
    /// Basque
    Eu,
    /// Persian
    Fa,
    /// Fula, Fulah, Pulaar, Pular
    Ff,
    /// Finnish
    Fi,
    /// Fijian
    Fj,
    /// Faroese
    Fo,
    /// French
    Fr,
    /// Western Frisian
    Fy,
    /// Irish
    Ga,
    /// Scottish Gaelic, Gaelic
    Gd,
    /// Galician
    Gl,
    /// Guaran
    Gn,
    /// Gujarati
    Gu,
    /// Manx
    Gv,
    /// Hausa
    Ha,
    /// Hebrew
    He,
    /// Hindi
    Hi,
    /// Hiri Motu
    Ho,
    /// Croatian
    Hr,
    /// Haitian, Haitian Creole
    Ht,
    /// Hungarian
    Hu,
    /// Armenian
    Hy,
    /// Herero
    Hz,
    /// Interlingua
    Ia,
    /// Indonesian
    Id,
    /// Interlingue
    Ie,
    /// Igbo
    Ig,
    /// Nuosu
    Ii,
    /// Inupiaq
    Ik,
    /// Ido
    Io,
    /// Icelandic
    Is,
    /// Italian
    It,
    /// Inuktitut
    Iu,
    /// Japanese
    Ja,
    /// Javanese
    Jv,
    /// Georgian
    Ka,
    /// Kongo
    Kg,
    /// Kikuyu, Gikuyu
    Ki,
    /// Kwanyama, Kuanyama
    Kj,
    /// Kazakh
    Kk,
    /// Kalaallisut, Greenlandic
    Kl,
    /// Khmer
    Km,
    /// Kannada
    Kn,
    /// Korean
    Ko,
    /// Kanuri
    Kr,
    /// Kashmiri
    Ks,
    /// Kurdish
    Ku,
    /// Komi
    Kv,
    /// Cornish
    Kw,
    /// Kyrgyz
    Ky,
    /// Latin
    La,
    /// Luxembourgish, Letzeburgesch
    Lb,
    /// Ganda
    Lg,
    /// Limburgish, Limburgan, Limburger
    Li,
    /// Lingala
    Ln,
    /// Lao
    Lo,
    /// Lithuanian
    Lt,
    /// Luba-Katanga
    Lu,
    /// Latvian
    Lv,
    /// Malagasy
    Mg,
    /// Marshallese
    Mh,
    /// Mori
    Mi,
    /// Macedonian
    Mk,
    /// Malayalam
    Ml,
    /// Mongolian
    Mn,
    /// Marathi
    Mr,
    /// Malay
    Ms,
    /// Maltese
    Mt,
    /// Burmese
    My,
    /// Nauruan
    Na,
    /// Norwegian Bokml
    Nb,
    /// Northern Ndebele
    Nd,
    /// Nepali
    Ne,
    /// Ndonga
    Ng,
    /// Dutch
    Nl,
    /// Norwegian Nynorsk
    Nn,
    /// Norwegian
    No,
    /// Southern Ndebele
    Nr,
    /// Navajo, Navaho
    Nv,
    /// Chichewa, Chewa, Nyanja
    Ny,
    /// Occitan
    Oc,
    /// Ojibwe, Ojibwa
    Oj,
    /// Oromo
    Om,
    /// Oriya
    Or,
    /// Ossetian, Ossetic
    Os,
    /// Eastern) Punjabi
    Pa,
    /// Pli
    Pi,
    /// Polish
    Pl,
    /// Pashto, Pushto
    Ps,
    /// Portuguese
    Pt,
    /// Quechua
    Qu,
    /// Romansh
    Rm,
    /// Kirundi
    Rn,
    /// Romanian
    Ro,
    /// Russian
    Ru,
    /// Kinyarwanda
    Rw,
    /// Sanskrit
    Sa,
    /// Sardinian
    Sc,
    /// Sindhi
    Sd,
    /// Northern Sami
    Se,
    /// Sango
    Sg,
    /// Sinhalese, Sinhala
    Si,
    /// Slovak
    Sk,
    /// Slovene
    Sl,
    /// Samoan
    Sm,
    /// Shona
    Sn,
    /// Somali
    So,
    /// Albanian
    Sq,
    /// Serbian
    Sr,
    /// Swati
    Ss,
    /// Southern Sotho
    St,
    /// Sundanese
    Su,
    /// Swedish
    Sv,
    /// Swahili
    Sw,
    /// Tamil
    Ta,
    /// Telugu
    Te,
    /// Tajik
    Tg,
    /// Thai
    Th,
    /// Tigrinya
    Ti,
    /// Turkmen
    Tk,
    /// Tagalog
    Tl,
    /// Tswana
    Tn,
    /// Tonga
    To,
    /// Turkish
    Tr,
    /// Tsonga
    Ts,
    /// Tatar
    Tt,
    /// Twi
    Tw,
    /// Tahitian
    Ty,
    /// Uyghur
    Ug,
    /// Ukrainian
    Uk,
    /// Urdu
    Ur,
    /// Uzbek
    Uz,
    /// Venda
    Ve,
    /// Vietnamese
    Vi,
    /// Volapk
    Vo,
    /// Walloon
    Wa,
    /// Wolof
    Wo,
    /// Xhosa
    Xh,
    /// Yiddish
    Yi,
    /// Yoruba
    Yo,
    /// Zhuang, Chuang
    Za,
    /// Chinese
    Zh,
    /// Zulu
    Zu,
}

impl DeepView for Iso639_1 {
    type V = Iso639_1;

    open spec fn deep_view(&self) -> Iso639_1 {
        *self
    }
}

impl Iso639_1 {
    /// The two letters of the language, in lower case.
    pub open spec fn code(self) -> Seq<char> {
        match self {
            Iso639_1::Aa => "aa"@,
            Iso639_1::Ab => "ab"@,
            Iso639_1::Ae => "ae"@,
            Iso639_1::Af => "af"@,
            Iso639_1::Ak => "ak"@,
            Iso639_1::Am => "am"@,
            Iso639_1::An => "an"@,
            Iso639_1::Ar => "ar"@,
            Iso639_1::As => "as"@,
            Iso639_1::Av => "av"@,
            Iso639_1::Ay => "ay"@,
            Iso639_1::Az => "az"@,
            Iso639_1::Ba => "ba"@,
            Iso639_1::Be => "be"@,
            Iso639_1::Bg => "bg"@,
            Iso639_1::Bh => "bh"@,
            Iso639_1::Bi => "bi"@,
            Iso639_1::Bm => "bm"@,
            Iso639_1::Bn => "bn"@,
            Iso639_1::Bo => "bo"@,
            Iso639_1::Br => "br"@,
            Iso639_1::Bs => "bs"@,
            Iso639_1::Ca => "ca"@,
            Iso639_1::Ce => "ce"@,
            Iso639_1::Ch => "ch"@,
            Iso639_1::Co => "co"@,
            Iso639_1::Cr => "cr"@,
            Iso639_1::Cs => "cs"@,
            Iso639_1::Cu => "cu"@,
            Iso639_1::Cv => "cv"@,
            Iso639_1::Cy => "cy"@,
            Iso639_1::Da => "da"@,
            Iso639_1::De => "de"@,
            Iso639_1::Dv => "dv"@,
            Iso639_1::Dz => "dz"@,
            Iso639_1::Ee => "ee"@,
            Iso639_1::El => "el"@,
            Iso639_1::En => "en"@,
            Iso639_1::Eo => "eo"@,
            Iso639_1::Es => "es"@,
            Iso639_1::Et => "et"@,
            Iso639_1::Eu => "eu"@,
            Iso639_1::Fa => "fa"@,
            Iso639_1::Ff => "ff"@,
            Iso639_1::Fi => "fi"@,
            Iso639_1::Fj => "fj"@,
            Iso639_1::Fo => "fo"@,
            Iso639_1::Fr => "fr"@,
            Iso639_1::Fy => "fy"@,
            Iso639_1::Ga => "ga"@,
            Iso639_1::Gd => "gd"@,
            Iso639_1::Gl => "gl"@,
            Iso639_1::Gn => "gn"@,
            Iso639_1::Gu => "gu"@,
            Iso639_1::Gv => "gv"@,
            Iso639_1::Ha => "ha"@,
            Iso639_1::He => "he"@,
            Iso639_1::Hi => "hi"@,
            Iso639_1::Ho => "ho"@,
            Iso639_1::Hr => "hr"@,
            Iso639_1::Ht => "ht"@,
            Iso639_1::Hu => "hu"@,
            Iso639_1::Hy => "hy"@,
            Iso639_1::Hz => "hz"@,
            Iso639_1::Ia => "ia"@,
            Iso639_1::Id => "id"@,
            Iso639_1::Ie => "ie"@,
            Iso639_1::Ig => "ig"@,
            Iso639_1::Ii => "ii"@,
            Iso639_1::Ik => "ik"@,
            Iso639_1::Io => "io"@,
            Iso639_1::Is => "is"@,
            Iso639_1::It => "it"@,
            Iso639_1::Iu => "iu"@,
            Iso639_1::Ja => "ja"@,
            Iso639_1::Jv => "jv"@,
            Iso639_1::Ka => "ka"@,
            Iso639_1::Kg => "kg"@,
            Iso639_1::Ki => "ki"@,
            Iso639_1::Kj => "kj"@,
            Iso639_1::Kk => "kk"@,
            Iso639_1::Kl => "kl"@,
            Iso639_1::Km => "km"@,
            Iso639_1::Kn => "kn"@,
            Iso639_1::Ko => "ko"@,
            Iso639_1::Kr => "kr"@,
            Iso639_1::Ks => "ks"@,
            Iso639_1::Ku => "ku"@,
            Iso639_1::Kv => "kv"@,
            Iso639_1::Kw => "kw"@,
            Iso639_1::Ky => "ky"@,
            Iso639_1::La => "la"@,
            Iso639_1::Lb => "lb"@,
            Iso639_1::Lg => "lg"@,
            Iso639_1::Li => "li"@,
            Iso639_1::Ln => "ln"@,
            Iso639_1::Lo => "lo"@,
            Iso639_1::Lt => "lt"@,
            Iso639_1::Lu => "lu"@,
            Iso639_1::Lv => "lv"@,
            Iso639_1::Mg => "mg"@,
            Iso639_1::Mh => "mh"@,
            Iso639_1::Mi => "mi"@,
            Iso639_1::Mk => "mk"@,
            Iso639_1::Ml => "ml"@,
            Iso639_1::Mn => "mn"@,
            Iso639_1::Mr => "mr"@,
            Iso639_1::Ms => "ms"@,
            Iso639_1::Mt => "mt"@,
            Iso639_1::My => "my"@,
            Iso639_1::Na => "na"@,
            Iso639_1::Nb => "nb"@,
            Iso639_1::Nd => "nd"@,
            Iso639_1::Ne => "ne"@,
            Iso639_1::Ng => "ng"@,
            Iso639_1::Nl => "nl"@,
            Iso639_1::Nn => "nn"@,
            Iso639_1::No => "no"@,
            Iso639_1::Nr => "nr"@,
            Iso639_1::Nv => "nv"@,
            Iso639_1::Ny => "ny"@,
            Iso639_1::Oc => "oc"@,
            Iso639_1::Oj => "oj"@,
            Iso639_1::Om => "om"@,
            Iso639_1::Or => "or"@,
            Iso639_1::Os => "os"@,
            Iso639_1::Pa => "pa"@,
            Iso639_1::Pi => "pi"@,
            Iso639_1::Pl => "pl"@,
            Iso639_1::Ps => "ps"@,
            Iso639_1::Pt => "pt"@,
            Iso639_1::Qu => "qu"@,
            Iso639_1::Rm => "rm"@,
            Iso639_1::Rn => "rn"@,
            Iso639_1::Ro => "ro"@,
            Iso639_1::Ru => "ru"@,
            Iso639_1::Rw => "rw"@,
            Iso639_1::Sa => "sa"@,
            Iso639_1::Sc => "sc"@,
            Iso639_1::Sd => "sd"@,
            Iso639_1::Se => "se"@,
            Iso639_1::Sg => "sg"@,
            Iso639_1::Si => "si"@,
            Iso639_1::Sk => "sk"@,
            Iso639_1::Sl => "sl"@,
            Iso639_1::Sm => "sm"@,
            Iso639_1::Sn => "sn"@,
            Iso639_1::So => "so"@,
            Iso639_1::Sq => "sq"@,
            Iso639_1::Sr => "sr"@,
            Iso639_1::Ss => "ss"@,
            Iso639_1::St => "st"@,
            Iso639_1::Su => "su"@,
            Iso639_1::Sv => "sv"@,
            Iso639_1::Sw => "sw"@,
            Iso639_1::Ta => "ta"@,
            Iso639_1::Te => "te"@,
            Iso639_1::Tg => "tg"@,
            Iso639_1::Th => "th"@,
            Iso639_1::Ti => "ti"@,
            Iso639_1::Tk => "tk"@,
            Iso639_1::Tl => "tl"@,
            Iso639_1::Tn => "tn"@,
            Iso639_1::To => "to"@,
            Iso639_1::Tr => "tr"@,
            Iso639_1::Ts => "ts"@,
            Iso639_1::Tt => "tt"@,
            Iso639_1::Tw => "tw"@,
            Iso639_1::Ty => "ty"@,
            Iso639_1::Ug => "ug"@,
            Iso639_1::Uk => "uk"@,
            Iso639_1::Ur => "ur"@,
            Iso639_1::Uz => "uz"@,
            Iso639_1::Ve => "ve"@,
            Iso639_1::Vi => "vi"@,
            Iso639_1::Vo => "vo"@,
            Iso639_1::Wa => "wa"@,
            Iso639_1::Wo => "wo"@,
            Iso639_1::Xh => "xh"@,
            Iso639_1::Yi => "yi"@,
            Iso639_1::Yo => "yo"@,
            Iso639_1::Za => "za"@,
            Iso639_1::Zh => "zh"@,
            Iso639_1::Zu => "zu"@,
        }
    }

    pub fn as_code(&self) -> (r: &'static str)
        ensures
            r@ == self.code(),
    {
        match self {
            Iso639_1::Aa => "aa",
            Iso639_1::Ab => "ab",
            Iso639_1::Ae => "ae",
            Iso639_1::Af => "af",
            Iso639_1::Ak => "ak",
            Iso639_1::Am => "am",
            Iso639_1::An => "an",
            Iso639_1::Ar => "ar",
            Iso639_1::As => "as",
            Iso639_1::Av => "av",
            Iso639_1::Ay => "ay",
            Iso639_1::Az => "az",
            Iso639_1::Ba => "ba",
            Iso639_1::Be => "be",
            Iso639_1::Bg => "bg",
            Iso639_1::Bh => "bh",
            Iso639_1::Bi => "bi",
            Iso639_1::Bm => "bm",
            Iso639_1::Bn => "bn",
            Iso639_1::Bo => "bo",
            Iso639_1::Br => "br",
            Iso639_1::Bs => "bs",
            Iso639_1::Ca => "ca",
            Iso639_1::Ce => "ce",
            Iso639_1::Ch => "ch",
            Iso639_1::Co => "co",
            Iso639_1::Cr => "cr",
            Iso639_1::Cs => "cs",
            Iso639_1::Cu => "cu",
            Iso639_1::Cv => "cv",
            Iso639_1::Cy => "cy",
            Iso639_1::Da => "da",
            Iso639_1::De => "de",
            Iso639_1::Dv => "dv",
            Iso639_1::Dz => "dz",
            Iso639_1::Ee => "ee",
            Iso639_1::El => "el",
            Iso639_1::En => "en",
            Iso639_1::Eo => "eo",
            Iso639_1::Es => "es",
            Iso639_1::Et => "et",
            Iso639_1::Eu => "eu",
            Iso639_1::Fa => "fa",
            Iso639_1::Ff => "ff",
            Iso639_1::Fi => "fi",
            Iso639_1::Fj => "fj",
            Iso639_1::Fo => "fo",
            Iso639_1::Fr => "fr",
            Iso639_1::Fy => "fy",
            Iso639_1::Ga => "ga",
            Iso639_1::Gd => "gd",
            Iso639_1::Gl => "gl",
            Iso639_1::Gn => "gn",
            Iso639_1::Gu => "gu",
            Iso639_1::Gv => "gv",
            Iso639_1::Ha => "ha",
            Iso639_1::He => "he",
            Iso639_1::Hi => "hi",
            Iso639_1::Ho => "ho",
            Iso639_1::Hr => "hr",
            Iso639_1::Ht => "ht",
            Iso639_1::Hu => "hu",
            Iso639_1::Hy => "hy",
            Iso639_1::Hz => "hz",
            Iso639_1::Ia => "ia",
            Iso639_1::Id => "id",
            Iso639_1::Ie => "ie",
            Iso639_1::Ig => "ig",
            Iso639_1::Ii => "ii",
            Iso639_1::Ik => "ik",
            Iso639_1::Io => "io",
            Iso639_1::Is => "is",
            Iso639_1::It => "it",
            Iso639_1::Iu => "iu",
            Iso639_1::Ja => "ja",
            Iso639_1::Jv => "jv",
            Iso639_1::Ka => "ka",
            Iso639_1::Kg => "kg",
            Iso639_1::Ki => "ki",
            Iso639_1::Kj => "kj",
            Iso639_1::Kk => "kk",
            Iso639_1::Kl => "kl",
            Iso639_1::Km => "km",
            Iso639_1::Kn => "kn",
            Iso639_1::Ko => "ko",
            Iso639_1::Kr => "kr",
            Iso639_1::Ks => "ks",
            Iso639_1::Ku => "ku",
            Iso639_1::Kv => "kv",
            Iso639_1::Kw => "kw",
            Iso639_1::Ky => "ky",
            Iso639_1::La => "la",
            Iso639_1::Lb => "lb",
            Iso639_1::Lg => "lg",
            Iso639_1::Li => "li",
            Iso639_1::Ln => "ln",
            Iso639_1::Lo => "lo",
            Iso639_1::Lt => "lt",
            Iso639_1::Lu => "lu",
            Iso639_1::Lv => "lv",
            Iso639_1::Mg => "mg",
            Iso639_1::Mh => "mh",
            Iso639_1::Mi => "mi",
            Iso639_1::Mk => "mk",
            Iso639_1::Ml => "ml",
            Iso639_1::Mn => "mn",
            Iso639_1::Mr => "mr",
            Iso639_1::Ms => "ms",
            Iso639_1::Mt => "mt",
            Iso639_1::My => "my",
            Iso639_1::Na => "na",
            Iso639_1::Nb => "nb",
            Iso639_1::Nd => "nd",
            Iso639_1::Ne => "ne",
            Iso639_1::Ng => "ng",
            Iso639_1::Nl => "nl",
            Iso639_1::Nn => "nn",
            Iso639_1::No => "no",
            Iso639_1::Nr => "nr",
            Iso639_1::Nv => "nv",
            Iso639_1::Ny => "ny",
            Iso639_1::Oc => "oc",
            Iso639_1::Oj => "oj",
            Iso639_1::Om => "om",
            Iso639_1::Or => "or",
            Iso639_1::Os => "os",
            Iso639_1::Pa => "pa",
            Iso639_1::Pi => "pi",
            Iso639_1::Pl => "pl",
            Iso639_1::Ps => "ps",
            Iso639_1::Pt => "pt",
            Iso639_1::Qu => "qu",
            Iso639_1::Rm => "rm",
            Iso639_1::Rn => "rn",
            Iso639_1::Ro => "ro",
            Iso639_1::Ru => "ru",
            Iso639_1::Rw => "rw",
            Iso639_1::Sa => "sa",
            Iso639_1::Sc => "sc",
            Iso639_1::Sd => "sd",
            Iso639_1::Se => "se",
            Iso639_1::Sg => "sg",
            Iso639_1::Si => "si",
            Iso639_1::Sk => "sk",
            Iso639_1::Sl => "sl",
            Iso639_1::Sm => "sm",
            Iso639_1::Sn => "sn",
            Iso639_1::So => "so",
            Iso639_1::Sq => "sq",
            Iso639_1::Sr => "sr",
            Iso639_1::Ss => "ss",
            Iso639_1::St => "st",
            Iso639_1::Su => "su",
            Iso639_1::Sv => "sv",
            Iso639_1::Sw => "sw",
            Iso639_1::Ta => "ta",
            Iso639_1::Te => "te",
            Iso639_1::Tg => "tg",
            Iso639_1::Th => "th",
            Iso639_1::Ti => "ti",
            Iso639_1::Tk => "tk",
            Iso639_1::Tl => "tl",
            Iso639_1::Tn => "tn",
            Iso639_1::To => "to",
            Iso639_1::Tr => "tr",
            Iso639_1::Ts => "ts",
            Iso639_1::Tt => "tt",
            Iso639_1::Tw => "tw",
            Iso639_1::Ty => "ty",
            Iso639_1::Ug => "ug",
            Iso639_1::Uk => "uk",
            Iso639_1::Ur => "ur",
            Iso639_1::Uz => "uz",
            Iso639_1::Ve => "ve",
            Iso639_1::Vi => "vi",
            Iso639_1::Vo => "vo",
            Iso639_1::Wa => "wa",
            Iso639_1::Wo => "wo",
            Iso639_1::Xh => "xh",
            Iso639_1::Yi => "yi",
            Iso639_1::Yo => "yo",
            Iso639_1::Za => "za",
            Iso639_1::Zh => "zh",
            Iso639_1::Zu => "zu",
        }
    }

    pub fn to_string(&self) -> (r: String)
        ensures
            r@ == self.code(),
    {
        self.as_code().to_owned()
    }
}

} // verus!
