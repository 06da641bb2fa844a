//! The handle that every call takes: where the service is, and the key that
//! opens it.

use vstd::prelude::*;

verus! {

/// The base URL and the API key of the service. Making one never fails:
/// whatever is wrong with either shows when a call is made.
#[derive(Clone, Debug, PartialEq)]
pub struct OpenAiClient {
    url: String,
    key: String,
}

/// The model of [`OpenAiClient`].
pub struct OpenAiClientView {
    pub url: Seq<char>,
    pub key: Seq<char>,
}

impl DeepView for OpenAiClient {
    type V = OpenAiClientView;

    closed spec fn deep_view(&self) -> OpenAiClientView {
        OpenAiClientView { url: self.url@, key: self.key@ }
    }
}

/// The base URL of the service where none is given.
pub open spec fn default_url() -> Seq<char> {
    "https://api.openai.com/v1"@
}

impl OpenAiClient {
    /// A client for the service at its usual place.
    pub fn new(key: &str) -> (r: Self)
        ensures
            r.deep_view() == (OpenAiClientView { url: default_url(), key: key@ }),
    {
        OpenAiClient::with_url(key, "https://api.openai.com/v1")
    }

    /// A client for a service at another base URL.
    pub fn with_url(key: &str, url: &str) -> (r: Self)
        ensures
            r.deep_view() == (OpenAiClientView { url: url@, key: key@ }),
    {
        OpenAiClient { url: url.to_owned(), key: key.to_owned() }
    }

    /// The base URL, to which each call appends its endpoint.
    pub fn url(&self) -> (r: &str)
        ensures
            r@ == self.deep_view().url,
    {
        self.url.as_str()
    }

    /// The key, which each call sends as its bearer token.
    pub fn key(&self) -> (r: &str)
        ensures
            r@ == self.deep_view().key,
    {
        self.key.as_str()
    }
}

} // verus!
