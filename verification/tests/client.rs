use akkorokamui::api;
use akkorokamui::client::{self, HttpMethod, Request};
use akkorokamui::clock::nonce_from_millis;
use akkorokamui::{Api, ClientBuilder, Credentials, Error};
use reqwest::header::HeaderMap;

const PRIVATE_KEY: &str =
    "kQH5HW/8p1uGOVjbgWA7FunAmGO8lsSUXNsu3eow76sz84Q18fWxnyRzBHCd3pd5nE9qa99HAZtuZuj6F1huXg==";

fn dummy_credentials() -> (String, String, String) {
    let api_key = "<api_key>".to_string();
    let private_key = "<private_key>".to_string();
    let content = format!("{}\n{}", api_key, private_key);
    (api_key, private_key, content)
}

#[test]
fn async_client_builder() {
    let client = ClientBuilder::with_user_agent(client::user_agent())
        .build(reqwest::Client::default())
        .unwrap();
    assert_eq!(client.user_agent(), client::user_agent());
    assert!(client.credentials().is_none());
}

#[test]
fn blocking_client_builder() {
    let client = ClientBuilder::with_user_agent(client::user_agent())
        .build(reqwest::blocking::Client::default())
        .unwrap();
    assert_eq!(client.user_agent(), client::user_agent());
    assert!(client.credentials().is_none());
}

#[test]
fn client_builder_with_credentials() {
    let (api_key, private_key, content) = dummy_credentials();

    let credentials = Credentials::parse(&content).unwrap();
    let client = ClientBuilder::with_user_agent(client::user_agent())
        .with_credentials(credentials)
        .build(reqwest::blocking::Client::default())
        .unwrap();
    assert_eq!(client.user_agent(), client::user_agent());
    assert!(client.credentials().is_some());
    assert_eq!(client.credentials().unwrap().api_key(), api_key);
    assert_eq!(client.credentials().unwrap().private_key_text(), private_key);
}

#[test]
fn the_user_agent_of_the_library() {
    assert_eq!(client::user_agent(), "akkorokamui/0.4.0");
}

#[test]
fn a_user_agent_with_a_control_character_is_refused() {
    let built = ClientBuilder::with_user_agent("bad\nagent").build(());
    assert_eq!(
        built.err(),
        Some(Error::InvalidUserAgent("failed to parse header value".to_string()))
    );
}

#[test]
fn a_client_as_text() {
    let client = ClientBuilder::with_user_agent("tester/1.0").build(()).unwrap();
    assert_eq!(client.to_string(), "tester/1.0 <akkorokamui/0.4.0>");
    assert_eq!(client.client(), &());
}

#[test]
fn a_client_whose_user_agent_is_not_ascii_as_text() {
    let client = ClientBuilder::with_user_agent("caf\u{e9}/1.0").build(()).unwrap();
    assert_eq!(client.user_agent(), "caf\u{e9}/1.0");
    assert_eq!(client.to_string(), "User-Agent N/A <akkorokamui/0.4.0>");
}

#[test]
fn the_request_for_a_public_api_is_a_get() {
    let client = ClientBuilder::with_user_agent("tester/1.0").build(()).unwrap();
    let api: Api = api::public::ticker().with("pair", "XXBTZEUR").into();
    let mut headers = HeaderMap::default();
    headers.insert("user-agent", "tester/1.0".to_string());
    let expected = Request {
        method: HttpMethod::Get,
        url: "https://api.kraken.com/0/public/Ticker?pair=XXBTZEUR".to_string(),
        headers,
        body: None,
    };
    assert_eq!(client.request_at(&api, 1).as_ref(), Ok(&expected));
    assert_eq!(client.request(api), Ok(expected));
}

#[test]
fn the_request_for_a_private_api_is_a_signed_post() {
    let credentials = Credentials::parse(&format!("my-api-key\n{}", PRIVATE_KEY)).unwrap();
    let client = ClientBuilder::with_user_agent("tester/1.0")
        .with_credentials(credentials)
        .build(())
        .unwrap();
    let api: Api = api::private::add_order()
        .with("ordertype", "limit")
        .with("pair", "XBTUSD")
        .with("price", "37500")
        .with("type", "buy")
        .with("volume", "1.25")
        .into();
    let request = client.request_at(&api, 1616492376594).unwrap();
    assert_eq!(request.method, HttpMethod::Post);
    assert_eq!(request.url, "https://api.kraken.com/0/private/AddOrder");
    let mut headers = HeaderMap::default();
    headers.insert("user-agent", "tester/1.0".to_string());
    headers.insert("api-key", "my-api-key".to_string());
    headers.insert(
        "api-sign",
        "rFqGLqqw5WOQDfgNHwKclLJlmkS4aPSjAIenhCn0VoNNsvihOoaJy4N1eXKSKSUbJVPVAo8su+4GgxHdi6UwLw=="
            .to_string(),
    );
    assert_eq!(request.headers, headers);
    assert_eq!(request.headers.len(), 3);
    assert_eq!(
        request.headers.get(reqwest::header::USER_AGENT),
        Some(&"tester/1.0".to_string())
    );
    assert_eq!(
        request.body,
        Some(
            "ordertype=limit&pair=XBTUSD&price=37500&type=buy&volume=1.25&nonce=1616492376594"
                .to_string()
        )
    );
}

#[test]
fn the_request_for_a_private_api_needs_credentials() {
    let client = ClientBuilder::with_user_agent("tester/1.0").build(()).unwrap();
    let api: Api = api::private::balance().into();
    assert_eq!(client.request_at(&api, 1), Err(Error::Unauthorized));
    assert_eq!(client.request(api), Err(Error::Unauthorized));
}

#[test]
fn the_request_for_a_private_api_needs_a_key_in_base64() {
    let (_, _, content) = dummy_credentials();
    let client = ClientBuilder::with_user_agent("tester/1.0")
        .with_credentials(Credentials::parse(&content).unwrap())
        .build(())
        .unwrap();
    let api: Api = api::private::balance().into();
    assert!(matches!(client.request_at(&api, 1), Err(Error::InvalidKey(_))));
}

#[test]
fn the_request_for_a_private_api_takes_its_nonce_from_the_clock() {
    let credentials = Credentials::parse(&format!("my-api-key\n{}", PRIVATE_KEY)).unwrap();
    let client = ClientBuilder::with_user_agent("tester/1.0")
        .with_credentials(credentials)
        .build(())
        .unwrap();
    let api: Api = api::private::balance().into();
    let request = client.request(api.clone()).unwrap();
    let body = request.body.clone().unwrap();
    let nonce: u64 = body.strip_prefix("nonce=").unwrap().parse().unwrap();
    // 2020-01-01T00:00:00Z in milliseconds
    assert!(nonce > 1_577_836_800_000);
    assert_eq!(client.request_at(&api, nonce), Ok(request));
}

#[test]
fn nonces_are_milliseconds_since_the_epoch() {
    let client = ClientBuilder::with_user_agent("tester/1.0").build(()).unwrap();
    let first = client.nonce().unwrap();
    let second = client.nonce().unwrap();
    // 2020-01-01T00:00:00Z and 2100-01-01T00:00:00Z in milliseconds
    assert!(first > 1_577_836_800_000);
    assert!(first < 4_102_444_800_000);
    assert!(second >= first);
}

#[test]
fn a_nonce_is_the_low_64_bits_of_the_milliseconds() {
    assert_eq!(nonce_from_millis(0), 0);
    assert_eq!(nonce_from_millis(1616492376594), 1616492376594);
    assert_eq!(nonce_from_millis(u64::MAX as u128), u64::MAX);
    assert_eq!(nonce_from_millis(u64::MAX as u128 + 1), 0);
    assert_eq!(nonce_from_millis((5u128 << 64) + 9), 9);
}

#[test]
fn a_cloned_client_holds_the_same_agent_and_keys() {
    let (api_key, _, content) = dummy_credentials();
    let client = ClientBuilder::with_user_agent("tester/1.0")
        .with_credentials(Credentials::parse(&content).unwrap())
        .build(7u8)
        .unwrap();
    let copy = client.clone();
    assert_eq!(copy.user_agent(), "tester/1.0");
    assert_eq!(copy.client(), &7);
    assert_eq!(copy.credentials().unwrap().api_key(), api_key);
}
