//! The APIs of the exchange and what they answer.

use vstd::prelude::*;
use vstd::string::*;

pub use body::{Body, BodyView};
pub use builder::{lemma_with_again, lemma_with_commutes, ApiBuilder, ApiBuilderView};

pub mod params;
pub mod private;
pub mod public;

mod body;
mod builder;

verus! {

/// Kraken API response.
#[derive(Debug, Clone, PartialEq, Eq)]
pub struct Response<T> {
    /// List of error messages.
    pub error: Vec<String>,
    /// Result of API call (may not be present if errors occur).
    pub result: Option<T>,
    /// The response HTTP status code.
    pub status_code: u16,
}

impl<T> Response<T> {
    /// Whether the response is a success: no error message, and a status
    /// within [200, 299].
    pub open spec fn success(&self) -> bool {
        self.error@.len() == 0 && 200 <= self.status_code <= 299
    }

    /// Returns true only if the Response doesn't contain any error and the
    /// HTTP status code is within [200, 299].
    pub fn is_success(&self) -> (success: bool)
        ensures
            success == self.success(),
    {
        self.error.is_empty() && self.status_code >= 200 && self.status_code < 300
    }

    /// Sets the HTTP status with which the response came.
    pub fn with_status(self, status_code: u16) -> (response: Self)
        ensures
            response.error == self.error,
            response.result == self.result,
            response.status_code == status_code,
    {
        Response { error: self.error, result: self.result, status_code }
    }
}

/// A single Kraken API.
#[derive(Debug, PartialEq, Eq)]
pub struct Api {
    pub(crate) inner: ApiBuilder,
}

impl View for Api {
    type V = ApiBuilderView;

    closed spec fn view(&self) -> ApiBuilderView {
        self.inner@
    }
}

impl Clone for Api {
    fn clone(&self) -> (copy: Self)
        ensures
            copy@ == self@,
            copy@.wf(),
    {
        Api { inner: self.inner.clone() }
    }
}

impl Api {
    /// Every API is well formed: its parameters are a mapping.
    #[verifier::type_invariant]
    pub open spec fn well_formed(&self) -> bool {
        self@.wf()
    }

    /// Returns true only if this is a public API.
    pub fn is_public(&self) -> (public: bool)
        ensures
            public == (self@.kind == ApiKind::Public),
    {
        self.inner.kind() == ApiKind::Public
    }

    /// Returns true only if this is a private API.
    pub fn is_private(&self) -> (private: bool)
        ensures
            private == (self@.kind == ApiKind::Private),
    {
        self.inner.kind() == ApiKind::Private
    }

    /// Gets the API URL.
    pub fn url(&self) -> (url: String)
        ensures
            url@ == self@.url(),
    {
        self.inner.url()
    }

    /// Gets the API URI path used for the Sign-API header.
    pub fn uri_path(&self) -> (path: String)
        ensures
            path@ == self@.uri_path(),
    {
        self.inner.uri_path()
    }

    /// Gets a copy of the parameters, each with its name and its value.
    pub fn param_list(&self) -> (params: Vec<(String, String)>)
        ensures
            crate::api::params::param_views(params@) == self@.params,
    {
        self.inner.param_list()
    }

    /// The API as text.
    pub fn to_string(&self) -> (text: String)
        ensures
            text@ == self@.text(),
    {
        self.inner.to_string()
    }
}

impl From<ApiBuilder> for Api {
    fn from(inner: ApiBuilder) -> (api: Self)
        ensures
            api@ == inner@,
            api@.wf(),
    {
        proof {
            use_type_invariant(&inner);
        }
        Self { inner }
    }
}

impl vstd::std_specs::convert::FromSpecImpl<ApiBuilder> for Api {
    open spec fn obeys_from_spec() -> bool {
        false
    }

    open spec fn from_spec(inner: ApiBuilder) -> Api {
        arbitrary()
    }
}

/// The API kind.
#[derive(Debug, Clone, Copy, PartialEq, Eq, Structural)]
pub enum ApiKind {
    Public,
    Private,
}

impl ApiKind {
    /// The kind as it stands in a URL.
    pub open spec fn text(self) -> Seq<char> {
        match self {
            ApiKind::Public => "public"@,
            ApiKind::Private => "private"@,
        }
    }

    /// The kind as it stands in a URL.
    pub fn as_str(&self) -> (text: &'static str)
        ensures
            text@ == self.text(),
    {
        match self {
            ApiKind::Public => "public",
            ApiKind::Private => "private",
        }
    }
}

} // verus!
