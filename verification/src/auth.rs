//! The key pair of an account.

use crate::encoding::{base64_bytes, base64_decode, base64_input_limit};
use crate::error::{Error, ErrorView};
use crate::header::{header_error_text, is_header_text, validate_header_text};
use crate::text::{line_views, split_lines, text_lines};
use vstd::prelude::*;
use vstd::string::*;
use vstd::utf8::encode_utf8;

verus! {

/// Public-Private key pair to be used by the API.
pub struct Credentials {
    api_key: String,
    private_key: String,
}

/// What [`Credentials`] hold, as plain values.
pub struct CredentialsView {
    /// The public API key.
    pub api_key: Seq<char>,
    /// The private key, in Base64.
    pub private_key: Seq<char>,
}

impl CredentialsView {
    /// Both keys can be sent as header values.
    pub open spec fn wf(self) -> bool {
        is_header_text(self.api_key) && is_header_text(self.private_key)
    }
}

/// What the text of a key file holds. The file has two lines: the first is
/// the API key, the second the private key. A file with fewer or more lines
/// is refused, and so is one with a key that is unfit for a header value, the
/// private key being looked at first.
pub open spec fn parsed_keys(content: Seq<char>) -> Result<CredentialsView, ErrorView> {
    let lines = text_lines(content);
    if lines.len() < 2 {
        Err(ErrorView::InvalidKey("key not found"@))
    } else if lines.len() > 2 {
        Err(ErrorView::InvalidKey("more than two lines"@))
    } else if !is_header_text(lines[1]) {
        Err(ErrorView::InvalidKey(header_error_text()))
    } else if !is_header_text(lines[0]) {
        Err(ErrorView::InvalidKey(header_error_text()))
    } else {
        Ok(CredentialsView { api_key: lines[0], private_key: lines[1] })
    }
}

/// The bytes that the Base64 text `private_key` stands for; `None` where it is
/// no Base64 text, or too long to be decoded.
pub open spec fn decoded_key(private_key: Seq<char>) -> Option<Seq<u8>> {
    let input = encode_utf8(private_key);
    if input.len() <= base64_input_limit() {
        base64_bytes(input)
    } else {
        None
    }
}

impl View for Credentials {
    type V = CredentialsView;

    closed spec fn view(&self) -> CredentialsView {
        CredentialsView { api_key: self.api_key@, private_key: self.private_key@ }
    }
}

impl Clone for Credentials {
    fn clone(&self) -> (copy: Self)
        ensures
            copy@ == self@,
    {
        proof {
            use_type_invariant(self);
        }
        Credentials { api_key: self.api_key.clone(), private_key: self.private_key.clone() }
    }
}

impl Credentials {
    #[verifier::type_invariant]
    spec fn well_formed(&self) -> bool {
        self@.wf()
    }

    /// Checks that `key` is fit for a header value.
    fn checked_key(key: String) -> (checked: Result<String, Error>)
        ensures
            match checked {
                Ok(same) => same@ == key@ && is_header_text(key@),
                Err(error) => !is_header_text(key@) && error@ == ErrorView::InvalidKey(
                    header_error_text(),
                ),
            },
    {
        match validate_header_text(key.as_str()) {
            Ok(_) => Ok(key),
            Err(message) => Err(Error::invalid_key(message.as_str())),
        }
    }

    /// Reads the keys from the text of a key file, which has two lines: the
    /// first line contains the public API key and the second line contains
    /// the private key.
    pub fn parse(content: &str) -> (keys: Result<Credentials, Error>)
        ensures
            match keys {
                Ok(credentials) => parsed_keys(content@) == Ok::<CredentialsView, ErrorView>(
                    credentials@,
                ),
                Err(error) => parsed_keys(content@) == Err::<CredentialsView, ErrorView>(error@),
            },
    {
        let mut lines = split_lines(content);
        let ghost all = lines@;
        assert(line_views(all).len() == all.len());
        assert(forall|i: int| 0 <= i < all.len() ==> line_views(all)[i] == all[i]@);
        if lines.len() < 2 {
            return Err(Error::invalid_key("key not found"));
        }
        if lines.len() > 2 {
            return Err(Error::invalid_key("more than two lines"));
        }
        let private_key = match Self::checked_key(lines.remove(1)) {
            Ok(key) => key,
            Err(error) => {
                return Err(error);
            },
        };
        let api_key = match Self::checked_key(lines.remove(0)) {
            Ok(key) => key,
            Err(error) => {
                return Err(error);
            },
        };
        Ok(Credentials { api_key, private_key })
    }

    /// Gets the API public key.
    pub fn api_key(&self) -> (key: &str)
        ensures
            key@ == self@.api_key,
            is_header_text(key@),
    {
        proof {
            use_type_invariant(self);
        }
        self.api_key.as_str()
    }

    /// Gets the private key as it was given, in Base64.
    pub fn private_key_text(&self) -> (key: &str)
        ensures
            key@ == self@.private_key,
            is_header_text(key@),
    {
        proof {
            use_type_invariant(self);
        }
        self.private_key.as_str()
    }

    /// Gets the private key decoded from Base64.
    pub fn private_key(&self) -> (key: Result<Vec<u8>, Error>)
        ensures
            match key {
                Ok(bytes) => decoded_key(self@.private_key) == Some(bytes@),
                Err(error) => decoded_key(self@.private_key) is None && error@ is InvalidKey,
            },
    {
        let input = self.private_key.as_str().as_bytes();
        if input.len() > isize::MAX as usize {
            return Err(Error::invalid_key("key too long"));
        }
        match base64_decode(input) {
            Ok(bytes) => Ok(bytes),
            Err(error) => Err(Error::invalid_key(error.to_string().as_str())),
        }
    }
}

} // verus!
