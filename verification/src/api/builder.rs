use crate::api::params::{
    join_params, joined_params, lemma_with_param, lemma_with_param_again,
    lemma_with_param_commutes, param_views, set_param, sorted_names, with_param, ParamView,
};
use crate::api::private::PrivateMethod;
use crate::api::public::PublicMethod;
use crate::api::ApiKind;
use vstd::prelude::*;
use vstd::string::*;

verus! {

/// API builder.
#[derive(Debug, PartialEq, Eq)]
pub struct ApiBuilder {
    pub(crate) kind: ApiKind,
    /// Kraken domain.
    pub(crate) domain: String,
    /// API version.
    pub(crate) version: String,
    /// Public/Private API path.
    pub(crate) path: String,
    /// API method.
    pub(crate) method: String,
    /// API parameters.
    pub(crate) params: Vec<(String, String)>,
}

/// What an [`ApiBuilder`] holds, as plain values.
pub struct ApiBuilderView {
    pub kind: ApiKind,
    pub domain: Seq<char>,
    pub version: Seq<char>,
    pub path: Seq<char>,
    pub method: Seq<char>,
    pub params: Seq<ParamView>,
}

impl ApiBuilderView {
    /// The API of the given kind and method before any parameter is added.
    pub open spec fn new(kind: ApiKind, method: Seq<char>) -> ApiBuilderView {
        ApiBuilderView {
            kind,
            domain: "https://api.kraken.com"@,
            version: "0"@,
            path: kind.text(),
            method,
            params: Seq::empty(),
        }
    }

    /// The parameters are a mapping: their names stand in the order of their
    /// bytes, and none occurs twice.
    pub open spec fn wf(self) -> bool {
        sorted_names(self.params)
    }

    /// This API with the parameter `name` set to `value`.
    pub open spec fn with(self, name: Seq<char>, value: Seq<char>) -> ApiBuilderView {
        ApiBuilderView { params: with_param(self.params, name, value), ..self }
    }

    /// The URI path that is signed: version, path and method, each after a
    /// slash.
    pub open spec fn uri_path(self) -> Seq<char> {
        "/"@ + self.version + "/"@ + self.path + "/"@ + self.method
    }

    /// The parameters as a query, with `&` between them.
    pub open spec fn query(self) -> Seq<char> {
        joined_params(self.params)
    }

    /// The URL: domain and URI path, and for a public API with parameters the
    /// query after a question mark.
    pub open spec fn url(self) -> Seq<char> {
        if self.kind == ApiKind::Public && self.params.len() > 0 {
            self.domain + self.uri_path() + "?"@ + self.query()
        } else {
            self.domain + self.uri_path()
        }
    }

    /// The API as text: the URL, and for a private API with parameters the
    /// query after a question mark.
    pub open spec fn text(self) -> Seq<char> {
        if self.kind == ApiKind::Private && self.params.len() > 0 {
            self.url() + "?"@ + self.query()
        } else {
            self.url()
        }
    }
}

/// The parameters of an API are a mapping: for two different names it does
/// not matter which of them is given first.
pub proof fn lemma_with_commutes(
    api: ApiBuilderView,
    name: Seq<char>,
    value: Seq<char>,
    other_name: Seq<char>,
    other_value: Seq<char>,
)
    requires
        api.wf(),
        name != other_name,
    ensures
        api.with(name, value).with(other_name, other_value) == api.with(
            other_name,
            other_value,
        ).with(name, value),
{
    lemma_with_param_commutes(api.params, (name, value), (other_name, other_value));
}

/// A name that is given twice has the value that was given last, as if it had
/// been given once with that value.
pub proof fn lemma_with_again(
    api: ApiBuilderView,
    name: Seq<char>,
    first: Seq<char>,
    second: Seq<char>,
)
    requires
        api.wf(),
    ensures
        api.with(name, first).with(name, second) == api.with(name, second),
{
    lemma_with_param_again(api.params, name, first, second);
}

impl View for ApiBuilder {
    type V = ApiBuilderView;

    closed spec fn view(&self) -> ApiBuilderView {
        ApiBuilderView {
            kind: self.kind,
            domain: self.domain@,
            version: self.version@,
            path: self.path@,
            method: self.method@,
            params: param_views(self.params@),
        }
    }
}

impl Clone for ApiBuilder {
    fn clone(&self) -> (copy: Self)
        ensures
            copy@ == self@,
            copy@.wf(),
    {
        proof {
            use_type_invariant(self);
        }
        ApiBuilder {
            kind: self.kind,
            domain: self.domain.clone(),
            version: self.version.clone(),
            path: self.path.clone(),
            method: self.method.clone(),
            params: self.param_list(),
        }
    }
}

impl ApiBuilder {
    /// Every API builder is well formed.
    #[verifier::type_invariant]
    pub open spec fn well_formed(&self) -> bool {
        self@.wf()
    }

    /// Creates new API components for the given (public/private) path and method.
    fn with_method(kind: ApiKind, method: &str) -> (api: Self)
        ensures
            api@ == ApiBuilderView::new(kind, method@),
            api@.wf(),
    {
        let api = ApiBuilder {
            kind,
            domain: String::from_str("https://api.kraken.com"),
            version: String::from_str("0"),
            path: String::from_str(kind.as_str()),
            method: String::from_str(method),
            params: Vec::new(),
        };
        assert(api@.params =~= Seq::<ParamView>::empty());
        api
    }

    /// Whether the API is public or private.
    pub fn kind(&self) -> (kind: ApiKind)
        ensures
            kind == self@.kind,
    {
        self.kind
    }

    /// Adds a new parameter to the API, or gives a new value to one that it
    /// has.
    pub fn with(self, key: &str, value: &str) -> (api: Self)
        ensures
            api@ == self@.with(key@, value@),
            api@.wf(),
    {
        proof {
            use_type_invariant(&self);
            lemma_with_param(self@.params, key@, value@);
        }
        let ApiBuilder { kind, domain, version, path, method, params } = self;
        let mut params = params;
        set_param(&mut params, key, value);
        ApiBuilder { kind, domain, version, path, method, params }
    }

    /// Adds a new parameter to the API, or gives a new value to one that it
    /// has.
    pub fn with_mut(&mut self, key: &str, value: &str) -> (api: &mut Self)
        ensures
            api@ == old(self)@.with(key@, value@),
            api@.wf(),
            *final(self) == *final(api),
    {
        proof {
            use_type_invariant(&*self);
            lemma_with_param(self@.params, key@, value@);
        }
        let mut params = self.param_list();
        set_param(&mut params, key, value);
        self.params = params;
        self
    }

    /// Constructs the default API components for a public method.
    pub fn public(method: PublicMethod) -> (api: Self)
        ensures
            api@ == ApiBuilderView::new(ApiKind::Public, method.text()),
            api@.wf(),
    {
        Self::with_method(ApiKind::Public, method.name())
    }

    /// Constructs the default API components for a private method.
    pub fn private(method: PrivateMethod) -> (api: Self)
        ensures
            api@ == ApiBuilderView::new(ApiKind::Private, method.text()),
            api@.wf(),
    {
        Self::with_method(ApiKind::Private, method.name())
    }

    /// Gets the API URI path used for the Sign-API header.
    pub fn uri_path(&self) -> (path: String)
        ensures
            path@ == self@.uri_path(),
    {
        let mut path = String::from_str("/");
        path.append(self.version.as_str());
        path.append("/");
        path.append(self.path.as_str());
        path.append("/");
        path.append(self.method.as_str());
        path
    }

    /// Gets the API URL.
    pub fn url(&self) -> (url: String)
        ensures
            url@ == self@.url(),
    {
        let mut url = self.domain.clone();
        url.append(self.uri_path().as_str());
        if self.kind == ApiKind::Public && self.params.len() > 0 {
            url.append("?");
            url.append(self.params().as_str());
        }
        url
    }

    /// Gets a copy of the parameters, each with its name and its value.
    pub fn param_list(&self) -> (params: Vec<(String, String)>)
        ensures
            param_views(params@) == self@.params,
    {
        let mut params: Vec<(String, String)> = Vec::new();
        for index in 0..self.params.len()
            invariant
                params@.len() == index,
                forall|i: int| 0 <= i < index ==> param_views(params@)[i] == self@.params[i],
        {
            let name = self.params[index].0.clone();
            let value = self.params[index].1.clone();
            params.push((name, value));
        }
        assert(param_views(params@) =~= self@.params);
        params
    }

    /// Gets the API list of parameters.
    pub fn params(&self) -> (query: String)
        ensures
            query@ == self@.query(),
    {
        join_params(&self.params)
    }

    /// The API as text.
    pub fn to_string(&self) -> (text: String)
        ensures
            text@ == self@.text(),
    {
        let mut text = self.url();
        // if the API is public the parameters are already included in the URL query
        if self.kind == ApiKind::Private && self.params.len() > 0 {
            text.append("?");
            text.append(self.params().as_str());
        }
        text
    }
}

} // verus!
