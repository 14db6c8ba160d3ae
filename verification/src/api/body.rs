use crate::api::params::{
    as_mapping, join_params, joined_params, param_views, to_mapping, ParamView,
};
use crate::encoding::{percent_encode_controls, percent_encoded};
use crate::text::{decimal_string, decimal_text};
use vstd::prelude::*;
use vstd::string::*;

verus! {

/// The body of a POST request.
#[derive(Debug)]
pub struct Body {
    nonce: u64,
    otp: Option<String>,
    params: Vec<(String, String)>,
}

/// What a [`Body`] holds, as plain values.
pub struct BodyView {
    pub nonce: u64,
    pub otp: Option<Seq<char>>,
    pub params: Seq<ParamView>,
}

impl BodyView {
    /// The body as text: the parameters, each followed by `&`, then the
    /// nonce, then the one-time password if there is one.
    pub open spec fn text(self) -> Seq<char> {
        let params = if self.params.len() > 0 {
            joined_params(self.params) + "&"@
        } else {
            Seq::empty()
        };
        let otp = match self.otp {
            Some(otp) => "&otp="@ + otp,
            None => Seq::empty(),
        };
        params + "nonce="@ + decimal_text(self.nonce as nat) + otp
    }

    /// The body as it is sent: its text, percent-encoded.
    pub open spec fn encoded(self) -> Seq<char> {
        percent_encoded(self.text())
    }
}

impl View for Body {
    type V = BodyView;

    closed spec fn view(&self) -> BodyView {
        BodyView {
            nonce: self.nonce,
            otp: match self.otp {
                Some(otp) => Some(otp@),
                None => None,
            },
            params: param_views(self.params@),
        }
    }
}

impl Body {
    /// Constructs a new Body with the given nonce and parameters. The
    /// parameters are taken as a mapping: in the order of their names, and
    /// with the last value of a name that is given more than once.
    pub fn with_params(nonce: u64, params: Vec<(String, String)>) -> (body: Self)
        ensures
            body@ == (BodyView { nonce, otp: None, params: as_mapping(param_views(params@)) }),
    {
        Self { nonce, otp: None, params: to_mapping(params) }
    }

    /// The body as text.
    pub fn to_string(&self) -> (text: String)
        ensures
            text@ == self@.text(),
    {
        let mut text = join_params(&self.params);
        if self.params.len() > 0 {
            text.append("&");
        }
        text.append("nonce=");
        text.append(decimal_string(self.nonce).as_str());
        if let Some(otp) = &self.otp {
            text.append("&otp=");
            text.append(otp.as_str());
        }
        assert(text@ =~= self@.text());
        text
    }

    /// Returns the URL encoded string representation of this Body.
    pub fn urlencode(&self) -> (encoded: String)
        ensures
            encoded@ == self@.encoded(),
    {
        percent_encode_controls(self.to_string().as_str())
    }
}

} // verus!
