//! The OpenAI client of the typed-parts wire form: it lists models and
//! posts chat completions.
//!
//! Sending the requests is outside work; here is what is sent where.

use vstd::prelude::*;
use vstd::string::*;
use crate::provider::{clone_http_client, default_http_client};
use crate::text::{concat_str, text_of};

verus! {

broadcast use vstd::string::group_string_axioms;

/// Builder for [`OpenaiClient`].
#[derive(Debug)]
pub struct OpenaiClientBuilder {
    base_url: String,
    api_key: Option<String>,
    http_client: Option<reqwest::Client>,
}

impl Default for OpenaiClientBuilder {
    fn default() -> (res: OpenaiClientBuilder)
        ensures
            res.spec_base_url().len() == 0,
            res.spec_api_key() is None,
            res.spec_http_client() is None,
    {
        OpenaiClientBuilder { base_url: String::new(), api_key: None, http_client: None }
    }
}

impl OpenaiClientBuilder {
    pub closed spec fn spec_base_url(&self) -> Seq<char> {
        self.base_url@
    }

    pub closed spec fn spec_api_key(&self) -> Option<Seq<char>> {
        text_of(self.api_key)
    }

    pub closed spec fn spec_http_client(&self) -> Option<reqwest::Client> {
        self.http_client
    }

    pub fn base_url(self, v: String) -> (res: OpenaiClientBuilder)
        ensures
            res.spec_base_url() == v@,
            res.spec_api_key() == self.spec_api_key(),
            res.spec_http_client() == self.spec_http_client(),
    {
        OpenaiClientBuilder { base_url: v, ..self }
    }

    pub fn api_key(self, v: String) -> (res: OpenaiClientBuilder)
        ensures
            res.spec_base_url() == self.spec_base_url(),
            res.spec_api_key() == Some(v@),
            res.spec_http_client() == self.spec_http_client(),
    {
        OpenaiClientBuilder { api_key: Some(v), ..self }
    }

    pub fn http_client(self, v: reqwest::Client) -> (res: OpenaiClientBuilder)
        ensures
            res.spec_base_url() == self.spec_base_url(),
            res.spec_api_key() == self.spec_api_key(),
            res.spec_http_client() == Some(v),
    {
        OpenaiClientBuilder { http_client: Some(v), ..self }
    }

    /// The client; a base URL is required (an empty one is refused).
    pub fn build(self) -> (res: OpenaiClient)
        requires
            self.spec_base_url().len() > 0,
        ensures
            res.spec_base_url() == self.spec_base_url(),
            res.spec_api_key() == self.spec_api_key(),
            self.spec_http_client() matches Some(h) ==> res.spec_http_client() == h,
    {
        let http_client = match self.http_client {
            Some(h) => h,
            None => default_http_client(),
        };
        OpenaiClient { base_url: self.base_url, api_key: self.api_key, http_client }
    }
}

/// Client that posts chat completions to an OpenAI-compatible API.
#[derive(Debug)]
pub struct OpenaiClient {
    pub base_url: String,
    api_key: Option<String>,
    http_client: reqwest::Client,
}

impl OpenaiClient {
    pub closed spec fn spec_base_url(&self) -> Seq<char> {
        self.base_url@
    }

    pub closed spec fn spec_api_key(&self) -> Option<Seq<char>> {
        text_of(self.api_key)
    }

    pub closed spec fn spec_http_client(&self) -> reqwest::Client {
        self.http_client
    }

    /// A client with a default HTTP client.
    pub fn new(base_url: String, api_key: Option<String>) -> (res: OpenaiClient)
        ensures
            res.spec_base_url() == base_url@,
            res.spec_api_key() == text_of(api_key),
    {
        OpenaiClient { base_url, api_key, http_client: default_http_client() }
    }

    pub fn builder() -> (res: OpenaiClientBuilder)
        ensures
            res.spec_base_url().len() == 0,
            res.spec_api_key() is None,
            res.spec_http_client() is None,
    {
        OpenaiClientBuilder::default()
    }

    /// The HTTP client the requests go through.
    pub fn http(&self) -> (res: &reqwest::Client)
        ensures
            *res == self.spec_http_client(),
    {
        &self.http_client
    }

    /// The `Authorization` header: `Bearer <key>` when an API key is set.
    pub fn authorization(&self) -> (res: Option<String>)
        ensures
            match self.spec_api_key() {
                Some(k) => res matches Some(h) && h@ == "Bearer "@ + k,
                None => res is None,
            },
    {
        match &self.api_key {
            Some(k) => Some(concat_str("Bearer ", k.as_str())),
            None => None,
        }
    }

    /// Where the model list is fetched: `<base_url>/models`.
    pub fn models_url(&self) -> (res: String)
        ensures
            res@ == self.spec_base_url() + "/models"@,
    {
        concat_str(self.base_url.as_str(), "/models")
    }

    /// Where chat completions are posted: `<base_url>/chat/completions`.
    pub fn chat_completions_url(&self) -> (res: String)
        ensures
            res@ == self.spec_base_url() + "/chat/completions"@,
    {
        concat_str(self.base_url.as_str(), "/chat/completions")
    }

    /// The error reported for an unsuccessful HTTP status.
    pub fn api_error(body: &str) -> (res: String)
        ensures
            res@ == "OpenAI API error: "@ + body@,
    {
        concat_str("OpenAI API error: ", body)
    }
}

impl Clone for OpenaiClient {
    fn clone(&self) -> (res: OpenaiClient)
        ensures
            res.spec_base_url() == self.spec_base_url(),
            res.spec_api_key() == self.spec_api_key(),
    {
        let api_key = match &self.api_key {
            Some(k) => Some(k.clone()),
            None => None,
        };
        OpenaiClient {
            base_url: self.base_url.clone(),
            api_key,
            http_client: clone_http_client(&self.http_client),
        }
    }
}

impl Default for OpenaiClient {
    fn default() -> (res: OpenaiClient)
        ensures
            res.spec_base_url().len() == 0,
            res.spec_api_key() is None,
    {
        OpenaiClient { base_url: String::new(), api_key: None, http_client: default_http_client() }
    }
}

} // verus!
