//! Typed requests for the REST API of the [Kraken](https://www.kraken.com)
//! exchange: what is sent, how it is signed, and how an answer is judged.
//!
//! An API is picked from [`api::public`] or [`api::private`] and given its
//! parameters. An [`HttpClient`] turns it into a [`client::Request`]: a public
//! API is read with GET and has its parameters in the URL, a private API is
//! called with POST, has its parameters and a nonce in the body, and carries
//! the API key and the signature of [`signer`] as headers. [`Credentials`]
//! hold the two keys of an account, as read from a key file. A [`Response`]
//! is a success when it came with a 2xx status and without error messages.
//!
//! The library sends nothing itself. The transport of a client is whatever
//! its user hands to [`ClientBuilder::build`].

pub use api::{Api, Response};
pub use assets::{Asset, AssetPair};
pub use auth::{Credentials, CredentialsView};
pub use client::{ClientBuilder, HttpClient};
pub use error::{Error, ErrorView};
pub use order::{Order, OrderType};

pub mod api;
pub mod assets;
pub mod auth;
pub mod client;
pub mod clock;
pub mod digest;
pub mod encoding;
pub mod error;
pub mod header;
pub mod order;
pub mod signer;
pub mod text;
