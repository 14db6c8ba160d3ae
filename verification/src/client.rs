//! What the HTTP client decides before a request is sent: its URL, headers
//! and body, and for a private API its signature.

use crate::api::params::lemma_mapping_of_sorted;
use crate::api::{Api, ApiBuilderView, ApiKind, Body, BodyView};
use crate::auth::{decoded_key, Credentials, CredentialsView};
use crate::clock::clock_nonce;
use crate::error::{Error, ErrorView};
use crate::header::{
    append_header, are_header_texts, empty_headers, header_values, insert_header,
    is_header_name, is_header_text, lemma_few_headers, lemma_header_texts, lower_name,
    no_headers, with_added_header, with_header,
};
use crate::signer::{signature, signature_text};
use reqwest::header::HeaderMap;
use vstd::prelude::*;
use vstd::string::*;

pub use builder::ClientBuilder;

mod builder;

verus! {

/// The HTTP client used to query the Kraken servers.
///
/// # Note
/// The default client will only able to query public APIs. In order to query
/// private APIs you need to construct the client with your private credentials.
pub struct HttpClient<T> {
    /// The HTTP client implementation.
    client: T,
    /// The credentials to use for private APIs.
    credentials: Option<Credentials>,
    /// The User-Agent header used for each request.
    user_agent: String,
}

/// What an [`HttpClient`] holds beside its transport, as plain values.
pub struct HttpClientView {
    pub credentials: Option<CredentialsView>,
    pub user_agent: Seq<char>,
}

/// How a request is sent.
#[derive(Debug, Clone, Copy, PartialEq, Eq, Structural)]
pub enum HttpMethod {
    /// Public APIs are read with GET.
    Get,
    /// Private APIs are called with POST.
    Post,
}

/// A request that is ready to be sent.
#[derive(Debug, PartialEq, Eq)]
pub struct Request {
    pub method: HttpMethod,
    pub url: String,
    pub headers: HeaderMap<String>,
    /// The URL-encoded body of a POST request.
    pub body: Option<String>,
}

/// What a [`Request`] holds, as plain values.
pub struct RequestView {
    pub method: HttpMethod,
    pub url: Seq<char>,
    /// Under each header name, in lower case, the values sent under it.
    pub headers: Map<Seq<char>, Seq<Seq<char>>>,
    pub body: Option<Seq<char>>,
}

impl View for Request {
    type V = RequestView;

    open spec fn view(&self) -> RequestView {
        RequestView {
            method: self.method,
            url: self.url@,
            headers: header_values(self.headers),
            body: match self.body {
                Some(body) => Some(body@),
                None => None,
            },
        }
    }
}

/// The text shown for a user agent: the agent itself where it is ASCII.
pub open spec fn shown_user_agent(user_agent: Seq<char>) -> Seq<char> {
    if vstd::utf8::is_ascii_chars(user_agent) {
        user_agent
    } else {
        "User-Agent N/A"@
    }
}

impl HttpClientView {
    /// The client as text: its user agent, then the library's own in angle
    /// brackets.
    pub open spec fn text(self) -> Seq<char> {
        shown_user_agent(self.user_agent) + " <"@ + "akkorokamui/0.4.0"@ + ">"@
    }

    /// The key that requests are signed with, where there are credentials
    /// whose private key can be decoded.
    pub open spec fn signing_key(self) -> Option<Seq<u8>> {
        match self.credentials {
            Some(credentials) => decoded_key(credentials.private_key),
            None => None,
        }
    }

    /// Whether `error` is the error with which signing fails: without
    /// credentials it is `Unauthorized`, with a private key that cannot be
    /// decoded an `InvalidKey`.
    pub open spec fn signing_error(self, error: ErrorView) -> bool {
        match self.credentials {
            Some(credentials) => decoded_key(credentials.private_key) is None
                && error is InvalidKey,
            None => error == ErrorView::Unauthorized,
        }
    }

    /// The signature of a request, where there is a signing key.
    pub open spec fn signature(self, uri_path: Seq<char>, nonce: u64, body: Seq<char>) -> Option<
        Seq<char>,
    > {
        match self.signing_key() {
            Some(key) => Some(signature_text(uri_path, nonce, body, key)),
            None => None,
        }
    }

    /// The body that is sent to the private API `api` with `nonce`.
    pub open spec fn body(api: ApiBuilderView, nonce: u64) -> Seq<char> {
        (BodyView { nonce, otp: None, params: api.params }).encoded()
    }

    /// The headers that authenticate a request to `api` with `nonce`, where
    /// there is a signing key: the API key and the signature.
    pub open spec fn auth_headers(self, api: ApiBuilderView, nonce: u64) -> Option<
        Map<Seq<char>, Seq<Seq<char>>>,
    > {
        match self.signature(api.uri_path(), nonce, Self::body(api, nonce)) {
            Some(signature) => Some(
                with_header(
                    with_header(no_headers(), "API-Key"@, self.credentials->0.api_key),
                    "API-Sign"@,
                    signature,
                ),
            ),
            None => None,
        }
    }

    /// The request for `api`. A public API is read with GET from its URL. A
    /// private API is called with POST, with a body that holds `nonce`, and
    /// needs a signing key. Both name the user agent.
    pub open spec fn request(self, api: ApiBuilderView, nonce: u64) -> Option<RequestView> {
        if api.kind == ApiKind::Public {
            Some(
                RequestView {
                    method: HttpMethod::Get,
                    url: api.url(),
                    headers: with_added_header(no_headers(), "User-Agent"@, self.user_agent),
                    body: None,
                },
            )
        } else {
            match self.auth_headers(api, nonce) {
                Some(headers) => Some(
                    RequestView {
                        method: HttpMethod::Post,
                        url: api.url(),
                        headers: with_added_header(headers, "User-Agent"@, self.user_agent),
                        body: Some(Self::body(api, nonce)),
                    },
                ),
                None => None,
            }
        }
    }
}

/// The names of the headers that a request carries are header names, and
/// these are the forms under which a header map keeps them.
pub proof fn lemma_header_names()
    ensures
        is_header_name("User-Agent"@),
        is_header_name("API-Key"@),
        is_header_name("API-Sign"@),
        lower_name("User-Agent"@) == "user-agent"@,
        lower_name("API-Key"@) == "api-key"@,
        lower_name("API-Sign"@) == "api-sign"@,
{
    reveal_strlit("User-Agent");
    reveal_strlit("API-Key");
    reveal_strlit("API-Sign");
    reveal_strlit("user-agent");
    reveal_strlit("api-key");
    reveal_strlit("api-sign");
    assert(lower_name("User-Agent"@) =~= "user-agent"@);
    assert(lower_name("API-Key"@) =~= "api-key"@);
    assert(lower_name("API-Sign"@) =~= "api-sign"@);
}

/// The headers of a request, written out: the user agent, and for a private
/// API the API key and the signature, each the only value under its name.
pub proof fn lemma_request_headers(client: HttpClientView, api: ApiBuilderView, nonce: u64)
    requires
        client.request(api, nonce) is Some,
    ensures
        api.kind == ApiKind::Public ==> client.request(api, nonce)->0.headers
            == map!["user-agent"@ => seq![client.user_agent]],
        api.kind != ApiKind::Public ==> client.credentials is Some && client.signature(
            api.uri_path(),
            nonce,
            HttpClientView::body(api, nonce),
        ) is Some && client.request(api, nonce)->0.headers == map![
            "user-agent"@ => seq![client.user_agent],
            "api-key"@ => seq![client.credentials->0.api_key],
            "api-sign"@ => seq![
                client.signature(api.uri_path(), nonce, HttpClientView::body(api, nonce))->0,
            ],
        ],
{
    lemma_header_names();
    reveal_strlit("user-agent");
    reveal_strlit("api-key");
    reveal_strlit("api-sign");
    let headers = client.request(api, nonce)->0.headers;
    if api.kind == ApiKind::Public {
        assert(headers =~= map!["user-agent"@ => seq![client.user_agent]]);
    } else {
        let signature = client.signature(
            api.uri_path(),
            nonce,
            HttpClientView::body(api, nonce),
        )->0;
        let auth = client.auth_headers(api, nonce)->0;
        assert("user-agent"@.len() == 10 && "api-key"@.len() == 7 && "api-sign"@.len() == 8);
        assert(!auth.contains_key("user-agent"@));
        assert(headers =~= map![
            "user-agent"@ => seq![client.user_agent],
            "api-key"@ => seq![client.credentials->0.api_key],
            "api-sign"@ => seq![signature],
        ]);
    }
}

impl<T> View for HttpClient<T> {
    type V = HttpClientView;

    closed spec fn view(&self) -> HttpClientView {
        HttpClientView {
            credentials: match self.credentials {
                Some(credentials) => Some(credentials@),
                None => None,
            },
            user_agent: self.user_agent@,
        }
    }
}

impl<T: Clone> Clone for HttpClient<T> {
    fn clone(&self) -> (copy: Self)
        ensures
            copy@ == self@,
    {
        proof {
            use_type_invariant(self);
        }
        HttpClient {
            client: self.client.clone(),
            credentials: match &self.credentials {
                Some(credentials) => Some(credentials.clone()),
                None => None,
            },
            user_agent: self.user_agent.clone(),
        }
    }
}

impl<T> HttpClient<T> {
    #[verifier::type_invariant]
    spec fn well_formed(&self) -> bool {
        is_header_text(self.user_agent@)
    }

    /// Puts a client together from its transport, its credentials and a user
    /// agent that can be sent as a header value.
    pub(crate) fn assemble(
        client: T,
        credentials: Option<Credentials>,
        user_agent: String,
    ) -> (http: Self)
        requires
            is_header_text(user_agent@),
        ensures
            http.transport() == client,
            http@.user_agent == user_agent@,
            http@.credentials == match credentials {
                Some(credentials) => Some(credentials@),
                None => None,
            },
    {
        HttpClient { client, credentials, user_agent }
    }

    /// The HTTP client implementation.
    pub closed spec fn transport(&self) -> T {
        self.client
    }

    /// The HTTP client implementation.
    pub fn client(&self) -> (client: &T)
        ensures
            *client == self.transport(),
    {
        &self.client
    }

    /// The credentials used for private APIs.
    pub fn credentials(&self) -> (credentials: Option<&Credentials>)
        ensures
            self@.credentials == match credentials {
                Some(credentials) => Some(credentials@),
                None => None,
            },
    {
        self.credentials.as_ref()
    }

    /// The User-Agent header used for each request.
    pub fn user_agent(&self) -> (user_agent: &str)
        ensures
            user_agent@ == self@.user_agent,
            is_header_text(user_agent@),
    {
        proof {
            use_type_invariant(self);
        }
        self.user_agent.as_str()
    }

    /// The client as text.
    pub fn to_string(&self) -> (text: String)
        ensures
            text@ == self@.text(),
    {
        let mut text = if self.user_agent.as_str().is_ascii() {
            self.user_agent.clone()
        } else {
            String::from_str("User-Agent N/A")
        };
        text.append(" <");
        text.append(user_agent());
        text.append(">");
        text
    }

    /// Builds the POST request headers and body, with a nonce taken from the
    /// clock.
    pub fn make_req_args(&self, api: Api) -> (args: Result<(HeaderMap<String>, String), Error>)
        ensures
            match args {
                Ok((headers, body)) => are_header_texts(header_values(headers)) && exists|
                    nonce: u64,
                |
                    self@.auth_headers(api@, nonce) == Some(header_values(headers)) && body@
                        == HttpClientView::body(api@, nonce),
                Err(error) => error@ is Internal || self@.signing_error(error@),
            },
    {
        let nonce = match self.nonce() {
            Ok(nonce) => nonce,
            Err(error) => {
                return Err(error);
            },
        };
        self.make_req_args_at(&api, nonce)
    }

    /// Builds the POST request headers and body for the given nonce.
    pub fn make_req_args_at(&self, api: &Api, nonce: u64) -> (args: Result<
        (HeaderMap<String>, String),
        Error,
    >)
        ensures
            match args {
                Ok((headers, body)) => self@.auth_headers(api@, nonce) == Some(
                    header_values(headers),
                ) && body@ == HttpClientView::body(api@, nonce) && are_header_texts(
                    header_values(headers),
                ),
                Err(error) => self@.auth_headers(api@, nonce) is None && self@.signing_error(
                    error@,
                ),
            },
    {
        let uri_path = api.uri_path();
        proof {
            use_type_invariant(api);
            lemma_mapping_of_sorted(api@.params);
        }
        let body = Body::with_params(nonce, api.param_list());
        let body = body.urlencode();
        let api_sign = match self.api_sign(uri_path, nonce, body.as_str()) {
            Ok(api_sign) => api_sign,
            Err(error) => {
                return Err(error);
            },
        };
        let mut headers = empty_headers();
        match &self.credentials {
            Some(credentials) => {
                let api_key = String::from_str(credentials.api_key());
                proof {
                    lemma_header_names();
                    lemma_few_headers(no_headers(), "API-Key"@, credentials@.api_key);
                    lemma_header_texts(no_headers(), "API-Key"@, credentials@.api_key);
                    lemma_header_texts(
                        with_header(no_headers(), "API-Key"@, credentials@.api_key),
                        "API-Sign"@,
                        api_sign@,
                    );
                }
                insert_header(&mut headers, "API-Key", api_key);
                insert_header(&mut headers, "API-Sign", api_sign);
                Ok((headers, body))
            },
            None => Err(Error::Unauthorized),
        }
    }

    /// Gets a new increasing nonce value.
    pub fn nonce(&self) -> (nonce: Result<u64, Error>)
        ensures
            nonce matches Err(error) ==> error@ is Internal,
    {
        clock_nonce()
    }

    /// Generates the API-Sign header value.
    pub fn api_sign(&self, uri_path: String, nonce: u64, body: &str) -> (signed: Result<
        String,
        Error,
    >)
        ensures
            match signed {
                Ok(api_sign) => self@.signature(uri_path@, nonce, body@) == Some(api_sign@)
                    && is_header_text(api_sign@),
                Err(error) => self@.signature(uri_path@, nonce, body@) is None
                    && self@.signing_error(error@),
            },
    {
        if let Some(credentials) = &self.credentials {
            // API-Sign = Message signature using HMAC-SHA512 of (URI path +
            // SHA256(nonce + POST data)) and base64 decoded secret API key
            let private_key = match credentials.private_key() {
                Ok(private_key) => private_key,
                Err(error) => {
                    return Err(error);
                },
            };
            signature(uri_path.as_str(), nonce, body, private_key.as_slice())
        } else {
            Err(Error::Unauthorized)
        }
    }

    /// Builds the request for `api`, with a nonce taken from the clock where
    /// the API is private.
    pub fn request(&self, api: Api) -> (request: Result<Request, Error>)
        ensures
            match request {
                Ok(request) => are_header_texts(request@.headers) && exists|nonce: u64|
                    self@.request(api@, nonce) == Some(request@),
                Err(error) => api@.kind == ApiKind::Private && (error@ is Internal
                    || self@.signing_error(error@)),
            },
    {
        let nonce = if api.is_public() {
            0
        } else {
            match self.nonce() {
                Ok(nonce) => nonce,
                Err(error) => {
                    return Err(error);
                },
            }
        };
        self.request_at(&api, nonce)
    }

    /// Builds the request for `api`, with the given nonce where the API is
    /// private.
    pub fn request_at(&self, api: &Api, nonce: u64) -> (request: Result<Request, Error>)
        ensures
            match request {
                Ok(request) => self@.request(api@, nonce) == Some(request@) && are_header_texts(
                    request@.headers,
                ),
                Err(error) => self@.request(api@, nonce) is None && self@.signing_error(error@),
            },
    {
        if api.is_public() {
            let mut headers = empty_headers();
            proof {
                use_type_invariant(self);
                lemma_header_names();
                lemma_header_texts(no_headers(), "User-Agent"@, self@.user_agent);
            }
            append_header(&mut headers, "User-Agent", self.user_agent.clone());
            Ok(Request { method: HttpMethod::Get, url: api.url(), headers, body: None })
        } else {
            let (mut headers, body) = match self.make_req_args_at(api, nonce) {
                Ok(args) => args,
                Err(error) => {
                    return Err(error);
                },
            };
            proof {
                use_type_invariant(self);
                lemma_header_names();
                lemma_header_texts(header_values(headers), "User-Agent"@, self@.user_agent);
                let key = self@.credentials->0.api_key;
                let with_key = with_header(no_headers(), "API-Key"@, key);
                lemma_few_headers(no_headers(), "API-Key"@, key);
                lemma_few_headers(with_key, "API-Sign"@, seq![]);
                assert(header_values(headers).dom() =~= with_header(
                    with_key,
                    "API-Sign"@,
                    seq![],
                ).dom());
            }
            append_header(&mut headers, "User-Agent", self.user_agent.clone());
            Ok(Request { method: HttpMethod::Post, url: api.url(), headers, body: Some(body) })
        }
    }
}

/// Gets the client User Agent.
pub fn user_agent() -> (user_agent: &'static str)
    ensures
        user_agent@ == "akkorokamui/0.4.0"@,
{
    "akkorokamui/0.4.0"
}

} // verus!
