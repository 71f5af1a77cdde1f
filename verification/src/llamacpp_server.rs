//! The client of a llama.cpp server's model management endpoints: it
//! lists models and loads or unloads one.
//!
//! Sending the requests is outside work; here is what is sent where.

use vstd::prelude::*;
use vstd::string::*;
use crate::provider::default_http_client;
use crate::text::{concat_str, json_quoted, json_string, text_of};

verus! {

broadcast use vstd::string::group_string_axioms;

/// Builder for [`LlamaCppClient`].
#[derive(Debug)]
pub struct ClientBuilder {
    base_url: String,
    api_key: Option<String>,
    http_client: Option<reqwest::Client>,
}

impl Default for ClientBuilder {
    fn default() -> (res: ClientBuilder)
        ensures
            res.spec_base_url().len() == 0,
            res.spec_api_key() is None,
            res.spec_http_client() is None,
    {
        ClientBuilder { base_url: String::new(), api_key: None, http_client: None }
    }
}

impl ClientBuilder {
    pub closed spec fn spec_base_url(&self) -> Seq<char> {
        self.base_url@
    }

    pub closed spec fn spec_api_key(&self) -> Option<Seq<char>> {
        text_of(self.api_key)
    }

    pub closed spec fn spec_http_client(&self) -> Option<reqwest::Client> {
        self.http_client
    }

    pub fn base_url(self, v: String) -> (res: ClientBuilder)
        ensures
            res.spec_base_url() == v@,
            res.spec_api_key() == self.spec_api_key(),
            res.spec_http_client() == self.spec_http_client(),
    {
        ClientBuilder { base_url: v, ..self }
    }

    pub fn api_key(self, v: String) -> (res: ClientBuilder)
        ensures
            res.spec_base_url() == self.spec_base_url(),
            res.spec_api_key() == Some(v@),
            res.spec_http_client() == self.spec_http_client(),
    {
        ClientBuilder { api_key: Some(v), ..self }
    }

    pub fn http_client(self, v: reqwest::Client) -> (res: ClientBuilder)
        ensures
            res.spec_base_url() == self.spec_base_url(),
            res.spec_api_key() == self.spec_api_key(),
            res.spec_http_client() == Some(v),
    {
        ClientBuilder { http_client: Some(v), ..self }
    }

    /// The client; a base URL is required (an empty one is refused).
    pub fn build(self) -> (res: LlamaCppClient)
        requires
            self.spec_base_url().len() > 0,
        ensures
            res.spec_base_url() == self.spec_base_url(),
            res.spec_api_key() == self.spec_api_key(),
            self.spec_http_client() matches Some(h) ==> res.spec_http_client() == h,
    {
        let http_client = match self.http_client {
            Some(h) => h,
            None => default_http_client(),
        };
        LlamaCppClient { base_url: self.base_url, api_key: self.api_key, http_client }
    }
}

/// Client of a llama.cpp server's model management API.
#[derive(Debug)]
pub struct LlamaCppClient {
    pub base_url: String,
    api_key: Option<String>,
    http_client: reqwest::Client,
}

impl LlamaCppClient {
    pub closed spec fn spec_base_url(&self) -> Seq<char> {
        self.base_url@
    }

    pub closed spec fn spec_api_key(&self) -> Option<Seq<char>> {
        text_of(self.api_key)
    }

    pub closed spec fn spec_http_client(&self) -> reqwest::Client {
        self.http_client
    }

    /// A client without an API key and with a default HTTP client.
    pub fn new(base_url: String) -> (res: LlamaCppClient)
        ensures
            res.spec_base_url() == base_url@,
            res.spec_api_key() is None,
    {
        LlamaCppClient { base_url, api_key: None, http_client: default_http_client() }
    }

    pub fn builder() -> (res: ClientBuilder)
        ensures
            res.spec_base_url().len() == 0,
            res.spec_api_key() is None,
            res.spec_http_client() is None,
    {
        ClientBuilder::default()
    }

    /// The HTTP client the requests go through.
    pub fn http(&self) -> (res: &reqwest::Client)
        ensures
            *res == self.spec_http_client(),
    {
        &self.http_client
    }

    /// The `Authorization` header: `Bearer <key>` when an API key is set.
    pub fn authorization(&self) -> (res: Option<String>)
        ensures
            match self.spec_api_key() {
                Some(k) => res matches Some(h) && h@ == "Bearer "@ + k,
                None => res is None,
            },
    {
        match &self.api_key {
            Some(k) => Some(concat_str("Bearer ", k.as_str())),
            None => None,
        }
    }

    /// Where the model list is fetched: `<base_url>/models`.
    pub fn models_url(&self) -> (res: String)
        ensures
            res@ == self.spec_base_url() + "/models"@,
    {
        concat_str(self.base_url.as_str(), "/models")
    }

    /// Where a model is unloaded: `<base_url>/models/unload`.
    pub fn model_unload_url(&self) -> (res: String)
        ensures
            res@ == self.spec_base_url() + "/models/unload"@,
    {
        concat_str(self.base_url.as_str(), "/models/unload")
    }

    /// Where a model is loaded: `<base_url>/models/load`.
    pub fn model_load_url(&self) -> (res: String)
        ensures
            res@ == self.spec_base_url() + "/models/load"@,
    {
        concat_str(self.base_url.as_str(), "/models/load")
    }

    /// The JSON body naming the model to load or unload: `{"model":<id>}`,
    /// the ID written as a JSON string.
    pub fn model_body(id: &str) -> (res: String)
        ensures
            res@ == "{\"model\":"@ + json_quoted(id@) + "}"@,
    {
        let mut b = String::from_str("{\"model\":");
        let quoted = json_string(id);
        b.append(quoted.as_str());
        b.append("}");
        b
    }

    /// The error reported for an unsuccessful HTTP status.
    pub fn api_error(body: &str) -> (res: String)
        ensures
            res@ == "OpenAI API error: "@ + body@,
    {
        concat_str("OpenAI API error: ", body)
    }
}

} // verus!
