//! The configuration of a llama.cpp server client: a base URL, an
//! optional API key and an HTTP client.

use vstd::prelude::*;
use vstd::string::*;
use crate::provider::default_http_client;
use crate::text::text_of;

verus! {

broadcast use vstd::string::group_string_axioms;

/// Builder for [`LlamaServerClient`].
#[derive(Debug)]
pub struct ClientBuilder {
    base_url: String,
    api_key: Option<String>,
    http_client: Option<reqwest::Client>,
}

impl Default for ClientBuilder {
    fn default() -> (res: ClientBuilder)
        ensures
            res.spec_base_url().len() == 0,
            res.spec_api_key() is None,
            res.spec_http_client() is None,
    {
        ClientBuilder { base_url: String::new(), api_key: None, http_client: None }
    }
}

impl ClientBuilder {
    pub closed spec fn spec_base_url(&self) -> Seq<char> {
        self.base_url@
    }

    pub closed spec fn spec_api_key(&self) -> Option<Seq<char>> {
        text_of(self.api_key)
    }

    pub closed spec fn spec_http_client(&self) -> Option<reqwest::Client> {
        self.http_client
    }

    /// A builder for the server at `base_url`.
    pub fn new(base_url: String) -> (res: ClientBuilder)
        ensures
            res.spec_base_url() == base_url@,
            res.spec_api_key() is None,
            res.spec_http_client() is None,
    {
        ClientBuilder { base_url, api_key: None, http_client: None }
    }

    pub fn api_key(self, v: String) -> (res: ClientBuilder)
        ensures
            res.spec_base_url() == self.spec_base_url(),
            res.spec_api_key() == Some(v@),
            res.spec_http_client() == self.spec_http_client(),
    {
        ClientBuilder { api_key: Some(v), ..self }
    }

    pub fn http_client(self, v: reqwest::Client) -> (res: ClientBuilder)
        ensures
            res.spec_base_url() == self.spec_base_url(),
            res.spec_api_key() == self.spec_api_key(),
            res.spec_http_client() == Some(v),
    {
        ClientBuilder { http_client: Some(v), ..self }
    }

    /// The client; without an HTTP client a default one is made.
    pub fn build(self) -> (res: LlamaServerClient)
        ensures
            res.spec_base_url() == self.spec_base_url(),
            res.spec_api_key() == self.spec_api_key(),
            self.spec_http_client() matches Some(h) ==> res.spec_http_client() == h,
    {
        let http_client = match self.http_client {
            Some(h) => h,
            None => default_http_client(),
        };
        LlamaServerClient { base_url: self.base_url, api_key: self.api_key, http_client }
    }
}

/// A llama.cpp server to talk to.
#[derive(Debug)]
pub struct LlamaServerClient {
    pub base_url: String,
    api_key: Option<String>,
    http_client: reqwest::Client,
}

impl LlamaServerClient {
    pub closed spec fn spec_base_url(&self) -> Seq<char> {
        self.base_url@
    }

    pub closed spec fn spec_api_key(&self) -> Option<Seq<char>> {
        text_of(self.api_key)
    }

    pub closed spec fn spec_http_client(&self) -> reqwest::Client {
        self.http_client
    }

    /// A client without an API key and with a default HTTP client.
    pub fn new(base_url: String) -> (res: LlamaServerClient)
        ensures
            res.spec_base_url() == base_url@,
            res.spec_api_key() is None,
    {
        LlamaServerClient { base_url, api_key: None, http_client: default_http_client() }
    }
}

} // verus!
