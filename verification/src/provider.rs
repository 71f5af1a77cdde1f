//! The HTTP client of an OpenAI-compatible provider: its configuration, the
//! requests it makes, and how a streamed answer is cut into events.
//!
//! Sending the requests is outside work; here is what is sent where, and
//! what is read back from the server-sent-events stream.

use vstd::prelude::*;
use vstd::string::*;
use crate::lines::{LineBuffer, NEWLINE, byte_lines, lemma_split_lines_append, split_lines};
use crate::models::ChatCompletion;
use crate::text::{text_of, concat_str, decode_lossy, has_prefix, starts_with, trim, trimmed, utf8_lossy};

verus! {

broadcast use vstd::string::group_string_axioms;

/// The HTTP client that sends the requests; carried through unread.
#[verifier::external_type_specification]
#[verifier::external_body]
pub struct ExHttpClient(reqwest::Client);

/// `reqwest::Client::clone`: another handle on the same connection pool;
/// nothing of it is stated.
#[verifier::external_body]
pub(crate) fn clone_http_client(c: &reqwest::Client) -> reqwest::Client {
    c.clone()
}

/// A copy of the optional string.
fn clone_text(o: &Option<String>) -> (res: Option<String>)
    ensures
        text_of(res) == text_of(*o),
{
    match o {
        Some(s) => Some(s.clone()),
        None => None,
    }
}

/// `reqwest::Client::default()`, that is `reqwest::Client::new()`. Its documentation
/// says that it panics when a TLS backend cannot be initialized or the
/// resolver cannot load the system configuration; nothing of the client is
/// stated.
#[verifier::external_body]
pub(crate) fn default_http_client() -> reqwest::Client {
    reqwest::Client::default()
}

/// Builder for [`ProviderClient`].
#[derive(Debug)]
pub struct ClientBuilder {
    base_url: String,
    api_key: Option<String>,
    http_client: Option<reqwest::Client>,
}

impl ClientBuilder {
    pub closed spec fn spec_base_url(&self) -> Seq<char> {
        self.base_url@
    }

    pub closed spec fn spec_api_key(&self) -> Option<Seq<char>> {
        text_of(self.api_key)
    }

    pub closed spec fn spec_http_client(&self) -> Option<reqwest::Client> {
        self.http_client
    }

    pub fn base_url(self, v: String) -> (res: ClientBuilder)
        ensures
            res.spec_base_url() == v@,
            res.spec_api_key() == self.spec_api_key(),
            res.spec_http_client() == self.spec_http_client(),
    {
        ClientBuilder { base_url: v, ..self }
    }

    pub fn api_key(self, v: String) -> (res: ClientBuilder)
        ensures
            res.spec_base_url() == self.spec_base_url(),
            res.spec_api_key() == Some(v@),
            res.spec_http_client() == self.spec_http_client(),
    {
        ClientBuilder { api_key: Some(v), ..self }
    }

    pub fn http_client(self, v: reqwest::Client) -> (res: ClientBuilder)
        ensures
            res.spec_base_url() == self.spec_base_url(),
            res.spec_api_key() == self.spec_api_key(),
            res.spec_http_client() == Some(v),
    {
        ClientBuilder { http_client: Some(v), ..self }
    }

    /// The client. A base URL must have been set (an empty one is refused);
    /// without an HTTP client a default one is made.
    pub fn build(self) -> (res: ProviderClient)
        requires
            self.spec_base_url().len() > 0,
        ensures
            res.spec_base_url() == self.spec_base_url(),
            res.spec_api_key() == self.spec_api_key(),
            self.spec_http_client() matches Some(h) ==> res.spec_http_client() == h,
    {
        let http_client = match self.http_client {
            Some(h) => h,
            None => default_http_client(),
        };
        ProviderClient { base_url: self.base_url, api_key: self.api_key, http_client }
    }
}

impl Default for ClientBuilder {
    fn default() -> (res: ClientBuilder)
        ensures
            res.spec_base_url().len() == 0,
            res.spec_api_key() is None,
            res.spec_http_client() is None,
    {
        ClientBuilder { base_url: String::new(), api_key: None, http_client: None }
    }
}

/// HTTP client for OpenAI-compatible LLM provider APIs.
#[derive(Debug)]
pub struct ProviderClient {
    pub base_url: String,
    api_key: Option<String>,
    http_client: reqwest::Client,
}

/// What a streamed answer is read as: each line that begins with `data:`
/// gives what follows, trimmed; other lines give nothing.
pub open spec fn sse_payload(line: Seq<char>) -> Option<Seq<char>> {
    if has_prefix(line, "data:"@) {
        Some(trim(line.skip(5)))
    } else {
        None
    }
}

/// The payloads of the given lines, in order.
pub open spec fn sse_payloads(lines: Seq<Seq<char>>) -> Seq<Seq<char>>
    decreases lines.len(),
{
    if lines.len() == 0 {
        Seq::empty()
    } else {
        let rest = sse_payloads(lines.drop_last());
        match sse_payload(lines.last()) {
            Some(p) => rest.push(p),
            None => rest,
        }
    }
}

impl ProviderClient {
    pub closed spec fn spec_base_url(&self) -> Seq<char> {
        self.base_url@
    }

    pub closed spec fn spec_api_key(&self) -> Option<Seq<char>> {
        text_of(self.api_key)
    }

    pub closed spec fn spec_http_client(&self) -> reqwest::Client {
        self.http_client
    }

    pub fn new(base_url: String, api_key: Option<String>, http_client: reqwest::Client) -> (res:
        ProviderClient)
        ensures
            res.spec_base_url() == base_url@,
            res.spec_api_key() == text_of(api_key),
            res.spec_http_client() == http_client,
    {
        ProviderClient { base_url, api_key, http_client }
    }

    pub fn builder() -> (res: ClientBuilder)
        ensures
            res.spec_base_url().len() == 0,
            res.spec_api_key() is None,
            res.spec_http_client() is None,
    {
        ClientBuilder::default()
    }

    /// The HTTP client the requests go through.
    pub fn http(&self) -> (res: &reqwest::Client)
        ensures
            *res == self.spec_http_client(),
    {
        &self.http_client
    }

    /// The `Authorization` header sent with every request: `Bearer <key>`
    /// when an API key is set.
    pub fn authorization(&self) -> (res: Option<String>)
        ensures
            match self.spec_api_key() {
                Some(k) => res matches Some(h) && h@ == "Bearer "@ + k,
                None => res is None,
            },
    {
        match &self.api_key {
            Some(k) => Some(concat_str("Bearer ", k.as_str())),
            None => None,
        }
    }

    /// Where the model list is fetched: `<base_url>/models`, for the
    /// OpenAI-compatible list and for llama.cpp's alike.
    pub fn models_url(&self) -> (res: String)
        ensures
            res@ == self.spec_base_url() + "/models"@,
    {
        let mut u = String::from_str(self.base_url.as_str());
        u.append("/models");
        u
    }

    /// Where chat completions are posted: `<base_url>/chat/completions`.
    pub fn chat_completions_url(&self) -> (res: String)
        ensures
            res@ == self.spec_base_url() + "/chat/completions"@,
    {
        let mut u = String::from_str(self.base_url.as_str());
        u.append("/chat/completions");
        u
    }

    /// The error reported for an unsuccessful HTTP status, from the body
    /// the provider sent.
    pub fn api_error(body: &str) -> (res: String)
        ensures
            res@ == "provider API error: "@ + body@,
    {
        concat_str("provider API error: ", body)
    }

    /// Whether the answer to `completion` comes as a stream of events:
    /// exactly when it asks for streaming.
    pub fn streams(completion: &ChatCompletion) -> (res: bool)
        ensures
            res == (completion.stream == Some(true)),
    {
        match completion.stream {
            Some(b) => b,
            None => false,
        }
    }
}

impl Clone for ClientBuilder {
    fn clone(&self) -> (res: ClientBuilder)
        ensures
            res.spec_base_url() == self.spec_base_url(),
            res.spec_api_key() == self.spec_api_key(),
            res.spec_http_client() is Some <==> self.spec_http_client() is Some,
    {
        ClientBuilder {
            base_url: self.base_url.clone(),
            api_key: clone_text(&self.api_key),
            http_client: match &self.http_client {
                Some(h) => Some(clone_http_client(h)),
                None => None,
            },
        }
    }
}

impl Clone for ProviderClient {
    fn clone(&self) -> (res: ProviderClient)
        ensures
            res.spec_base_url() == self.spec_base_url(),
            res.spec_api_key() == self.spec_api_key(),
    {
        ProviderClient {
            base_url: self.base_url.clone(),
            api_key: clone_text(&self.api_key),
            http_client: clone_http_client(&self.http_client),
        }
    }
}

impl Default for ProviderClient {
    fn default() -> (res: ProviderClient)
        ensures
            res.spec_base_url().len() == 0,
            res.spec_api_key() is None,
    {
        ProviderClient { base_url: String::new(), api_key: None, http_client: default_http_client() }
    }
}

/// The payloads of lines taken in two parts are those of the first part,
/// then those of the second.
pub proof fn lemma_sse_payloads_concat(x: Seq<Seq<char>>, y: Seq<Seq<char>>)
    ensures
        sse_payloads(x + y) == sse_payloads(x) + sse_payloads(y),
    decreases y.len(),
{
    if y.len() == 0 {
        assert(x + y =~= x);
        assert(sse_payloads(x) + Seq::<Seq<char>>::empty() =~= sse_payloads(x));
    } else {
        lemma_sse_payloads_concat(x, y.drop_last());
        assert((x + y).drop_last() =~= x + y.drop_last());
        assert((x + y).last() == y.last());
        match sse_payload(y.last()) {
            Some(q) => {
                assert(sse_payloads(x) + sse_payloads(y.drop_last()).push(q) =~= (sse_payloads(x)
                    + sse_payloads(y.drop_last())).push(q));
            },
            None => {},
        }
    }
}

/// The payloads read from a body are those of its bytes alone: fed in two
/// chunks, the payloads of the first chunk followed by those of the second
/// are those of the whole, and the same bytes are left over.
pub proof fn lemma_event_payloads_independent_of_chunks(p: Seq<u8>, a: Seq<u8>, b: Seq<u8>)
    ensures
        ({
            let first = split_lines(p + a, NEWLINE);
            let second = split_lines(first.1 + b, NEWLINE);
            let whole = split_lines(p + a + b, NEWLINE);
            &&& sse_payloads(first.0.map_values(|l: Seq<u8>| utf8_lossy(l))) + sse_payloads(
                second.0.map_values(|l: Seq<u8>| utf8_lossy(l)),
            ) == sse_payloads(whole.0.map_values(|l: Seq<u8>| utf8_lossy(l)))
            &&& second.1 == whole.1
        }),
{
    let first = split_lines(p + a, NEWLINE);
    let second = split_lines(first.1 + b, NEWLINE);
    lemma_split_lines_append(p + a, b, NEWLINE);
    let f = |l: Seq<u8>| utf8_lossy(l);
    assert((first.0 + second.0).map_values(f) =~= first.0.map_values(f) + second.0.map_values(f));
    lemma_sse_payloads_concat(first.0.map_values(f), second.0.map_values(f));
}

/// Cuts a server-sent-events body into the payloads of its `data:` lines.
#[derive(Debug)]
pub struct EventLines {
    buffer: LineBuffer,
}

impl EventLines {
    /// The bytes of the line not finished yet.
    pub closed spec fn pending(&self) -> Seq<u8> {
        self.buffer.pending()
    }

    pub fn new() -> (res: EventLines)
        ensures
            res.pending() == Seq::<u8>::empty(),
    {
        EventLines { buffer: LineBuffer::new() }
    }

    /// Takes the next chunk of the body; returns the payloads of the lines
    /// it finishes, in order, each line decoded with invalid UTF-8 replaced.
    pub fn push_bytes(&mut self, bytes: &[u8]) -> (res: Vec<String>)
        ensures
            res.deep_view() == sse_payloads(
                split_lines(old(self).pending() + bytes@, NEWLINE).0.map_values(
                    |l: Seq<u8>| utf8_lossy(l),
                ),
            ),
            final(self).pending() == split_lines(old(self).pending() + bytes@, NEWLINE).1,
    {
        proof {
            reveal_strlit("data:");
        }
        let raw = self.buffer.push_chunk(bytes);
        let ghost lines = byte_lines(raw@).map_values(|l: Seq<u8>| utf8_lossy(l));
        let mut out: Vec<String> = Vec::new();
        let mut i: usize = 0;
        while i < raw.len()
            invariant
                i <= raw@.len(),
                lines == byte_lines(raw@).map_values(|l: Seq<u8>| utf8_lossy(l)),
                out.deep_view() == sse_payloads(lines.take(i as int)),
            decreases raw@.len() - i,
        {
            proof {
                reveal_strlit("data:");
            }
            let text = decode_lossy(raw[i].as_slice());
            assert(lines.take(i + 1).drop_last() =~= lines.take(i as int));
            assert(lines.take(i + 1).last() == text@);
            if starts_with(text.as_str(), "data:") {
                let n = text.as_str().unicode_len();
                let payload = trimmed(text.as_str().substring_char(5, n));
                assert(text@.subrange(5, n as int) =~= text@.skip(5));
                let ghost before = out.deep_view();
                out.push(payload);
                assert(out.deep_view() =~= before.push(payload@));
            }
            i = i + 1;
        }
        assert(lines.take(raw@.len() as int) =~= lines);
        out
    }
}

} // verus!
