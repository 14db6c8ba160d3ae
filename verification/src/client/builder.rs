use crate::auth::{Credentials, CredentialsView};
use crate::client::HttpClient;
use crate::error::{Error, ErrorView};
use crate::header::{header_error_text, is_header_text, validate_header_text};
use vstd::prelude::*;
use vstd::string::*;

verus! {

/// Client builder.
pub struct ClientBuilder {
    /// The User-Agent header used for each request.
    user_agent: String,
    /// The credentials to use for private APIs.
    credentials: Option<Credentials>,
}

/// What a [`ClientBuilder`] holds, as plain values.
pub struct ClientBuilderView {
    pub user_agent: Seq<char>,
    pub credentials: Option<CredentialsView>,
}

impl View for ClientBuilder {
    type V = ClientBuilderView;

    closed spec fn view(&self) -> ClientBuilderView {
        ClientBuilderView {
            user_agent: self.user_agent@,
            credentials: match self.credentials {
                Some(credentials) => Some(credentials@),
                None => None,
            },
        }
    }
}

impl ClientBuilder {
    /// Creates a new Client builder with the given user agent.
    pub fn with_user_agent(user_agent: &str) -> (builder: Self)
        ensures
            builder@ == (ClientBuilderView { user_agent: user_agent@, credentials: None }),
    {
        Self { user_agent: String::from_str(user_agent), credentials: None }
    }

    /// Sets the client credentials.
    pub fn with_credentials(self, credentials: Credentials) -> (builder: Self)
        ensures
            builder@ == (ClientBuilderView {
                user_agent: self@.user_agent,
                credentials: Some(credentials@),
            }),
    {
        Self { user_agent: self.user_agent, credentials: Some(credentials) }
    }

    /// Consumes the client builder to build a new client on the transport
    /// `client`. The user agent must be fit for a header value.
    pub fn build<T>(self, client: T) -> (built: Result<HttpClient<T>, Error>)
        ensures
            match built {
                Ok(http) => is_header_text(self@.user_agent) && http.transport() == client
                    && http@.user_agent == self@.user_agent && http@.credentials
                    == self@.credentials,
                Err(error) => !is_header_text(self@.user_agent) && error@
                    == ErrorView::InvalidUserAgent(header_error_text()),
            },
    {
        match validate_header_text(self.user_agent.as_str()) {
            Ok(_) => Ok(HttpClient::assemble(client, self.credentials, self.user_agent)),
            Err(message) => Err(Error::invalid_agent(message.as_str())),
        }
    }
}

} // verus!
