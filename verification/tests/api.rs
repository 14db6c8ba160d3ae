use akkorokamui::api::params::{find_param, join_params, set_param, to_mapping};
use akkorokamui::api::{self, ApiBuilder, ApiKind, Body};
use akkorokamui::{Api, Asset, Order, OrderType, Response};

#[test]
fn a_public_api_without_parameters() {
    let api = api::public::time();
    assert_eq!(api.kind(), ApiKind::Public);
    assert_eq!(api.uri_path(), "/0/public/Time");
    assert_eq!(api.url(), "https://api.kraken.com/0/public/Time");
    assert_eq!(api.params(), "");
    assert_eq!(api.to_string(), "https://api.kraken.com/0/public/Time");
}

#[test]
fn a_public_api_has_its_parameters_in_the_url() {
    let asset_pair = Asset::new("XXBT").pair(Asset::new("ZGBP"));
    let api = api::public::depth()
        .with("pair", &asset_pair.to_string())
        .with("count", "2");
    assert_eq!(api.params(), "count=2&pair=XXBTZGBP");
    assert_eq!(
        api.url(),
        "https://api.kraken.com/0/public/Depth?count=2&pair=XXBTZGBP"
    );
    assert_eq!(
        api.to_string(),
        "https://api.kraken.com/0/public/Depth?count=2&pair=XXBTZGBP"
    );
}

#[test]
fn a_private_api_has_its_parameters_in_its_text_only() {
    let api = api::private::add_order()
        .with("type", Order::Buy.as_str())
        .with("ordertype", OrderType::TakeProfitLimit.as_str());
    assert_eq!(api.kind(), ApiKind::Private);
    assert_eq!(api.uri_path(), "/0/private/AddOrder");
    assert_eq!(api.url(), "https://api.kraken.com/0/private/AddOrder");
    assert_eq!(
        api.to_string(),
        "https://api.kraken.com/0/private/AddOrder?ordertype=take-profit-limit&type=buy"
    );
}

#[test]
fn a_parameter_given_again_keeps_its_place_and_takes_the_new_value() {
    let api = api::public::ohlc()
        .with("pair", "XXBTZUSD")
        .with("interval", "1")
        .with("pair", "XETHZUSD");
    assert_eq!(api.params(), "interval=1&pair=XETHZUSD");
    assert_eq!(
        api.param_list(),
        vec![
            ("interval".to_string(), "1".to_string()),
            ("pair".to_string(), "XETHZUSD".to_string()),
        ]
    );
    assert_eq!(
        api,
        api::public::ohlc().with("pair", "XETHZUSD").with("interval", "1")
    );
}

#[test]
fn parameters_are_a_mapping_whatever_the_order_in_which_they_are_given() {
    let one = api::public::time().with("a", "1").with("b", "2");
    let other = api::public::time().with("b", "2").with("a", "1");
    assert_eq!(one, other);
    assert_eq!(one.params(), "a=1&b=2");
    assert_eq!(other.params(), "a=1&b=2");
    assert_eq!(Api::from(one), Api::from(other));

    let one = api::private::add_order()
        .with("volume", "1.25")
        .with("pair", "XBTUSD")
        .with("Pair", "x")
        .with("pai", "y")
        .with("", "z");
    let other = api::private::add_order()
        .with("", "z")
        .with("Pair", "x")
        .with("pai", "y")
        .with("pair", "XBTUSD")
        .with("volume", "1.25");
    assert_eq!(one, other);
    assert_eq!(one.params(), "=z&Pair=x&pai=y&pair=XBTUSD&volume=1.25");
}

#[test]
fn a_parameter_given_twice_has_the_last_value() {
    let api = api::public::time().with("a", "1").with("a", "2");
    assert_eq!(api, api::public::time().with("a", "2"));
    let same = api::public::time().with("a", "1").with("a", "1");
    assert_eq!(same, api::public::time().with("a", "1"));
}

#[test]
fn parameters_are_added_in_place_too() {
    let mut api = api::public::trades();
    api.with_mut("pair", "XXBTZUSD").with_mut("since", "0");
    assert_eq!(api, api::public::trades().with("pair", "XXBTZUSD").with("since", "0"));
    assert_eq!(api.params(), "pair=XXBTZUSD&since=0");
}

#[test]
fn public_methods() {
    let expected = [
        (api::public::time(), "Time"),
        (api::public::assets(), "Assets"),
        (api::public::asset_pairs(), "AssetPairs"),
        (api::public::ticker(), "Ticker"),
        (api::public::ohlc(), "OHLC"),
        (api::public::depth(), "Depth"),
        (api::public::trades(), "Trades"),
        (api::public::spread(), "Spread"),
        (api::public::system_status(), "SystemStatus"),
    ];
    for (api, method) in expected {
        assert_eq!(api.kind(), ApiKind::Public);
        assert_eq!(api.url(), format!("https://api.kraken.com/0/public/{}", method));
    }
}

#[test]
fn private_methods() {
    let expected = [
        (api::private::retrieve_export(), "RetrieveExport"),
        (api::private::wallet_transfer(), "WalletTransfer"),
        (api::private::withdraw_cancel(), "WithdrawCancel"),
        (api::private::withdraw_status(), "WithdrawStatus"),
        (api::private::withdraw(), "Withdraw"),
        (api::private::withdraw_info(), "WithdrawInfo"),
        (api::private::deposit_status(), "DepositStatus"),
        (api::private::deposit_addresses(), "DepositAddresses"),
        (api::private::deposit_methods(), "DepositMethods"),
        (api::private::balance(), "Balance"),
        (api::private::trade_balance(), "TradeBalance"),
        (api::private::open_orders(), "OpenOrders"),
        (api::private::closed_orders(), "ClosedOrders"),
        (api::private::query_ledgers(), "QueryLedgers"),
        (api::private::query_orders(), "QueryOrders"),
        (api::private::trades_history(), "TradesHistory"),
        (api::private::query_trades(), "QueryTrades"),
        (api::private::open_positions(), "OpenPositions"),
        (api::private::ledgers(), "Ledgers"),
        (api::private::trade_volume(), "TradeVolume"),
        (api::private::add_export(), "AddExport"),
        (api::private::export_status(), "ExportStatus"),
        (api::private::remove_export(), "RemoveExport"),
        (api::private::add_order(), "AddOrder"),
        (api::private::cancel_order(), "CancelOrder"),
        (api::private::cancel_all(), "CancelAll"),
        (api::private::cancel_all_after(), "CancelAllOrdersAfter"),
        (api::private::get_websockets_token(), "GetWebSocketsToken"),
    ];
    for (api, method) in expected {
        assert_eq!(api.kind(), ApiKind::Private);
        assert_eq!(api.uri_path(), format!("/0/private/{}", method));
        assert_eq!(api.url(), format!("https://api.kraken.com/0/private/{}", method));
    }
}

#[test]
fn builders_by_kind() {
    assert_eq!(
        ApiBuilder::public(api::public::PublicMethod::Ticker),
        api::public::ticker()
    );
    assert_eq!(
        ApiBuilder::private(api::private::PrivateMethod::Balance),
        api::private::balance()
    );
    assert_eq!(ApiKind::Public.as_str(), "public");
    assert_eq!(ApiKind::Private.as_str(), "private");
}

#[test]
fn an_api_is_made_from_its_builder() {
    let public: Api = api::public::ticker().with("pair", "XXBTZEUR").into();
    assert!(public.is_public());
    assert!(!public.is_private());
    assert_eq!(public.url(), "https://api.kraken.com/0/public/Ticker?pair=XXBTZEUR");
    assert_eq!(public.to_string(), public.url());
    assert_eq!(public.uri_path(), "/0/public/Ticker");
    assert_eq!(
        public.param_list(),
        vec![("pair".to_string(), "XXBTZEUR".to_string())]
    );

    let private = Api::from(api::private::balance());
    assert!(private.is_private());
    assert!(!private.is_public());
    assert_eq!(private.url(), "https://api.kraken.com/0/private/Balance");
}

#[test]
fn a_body_without_parameters_holds_the_nonce() {
    let body = Body::with_params(1616492376594, Vec::new());
    assert_eq!(body.to_string(), "nonce=1616492376594");
    assert_eq!(body.urlencode(), "nonce=1616492376594");
}

#[test]
fn a_body_holds_its_parameters_before_the_nonce() {
    let params = vec![
        ("pair".to_string(), "XBTUSD".to_string()),
        ("volume".to_string(), "1.25".to_string()),
    ];
    let body = Body::with_params(0, params);
    assert_eq!(body.to_string(), "pair=XBTUSD&volume=1.25&nonce=0");
    assert_eq!(body.urlencode(), "pair=XBTUSD&volume=1.25&nonce=0");
}

#[test]
fn a_body_is_sent_with_control_characters_and_bytes_beyond_ascii_encoded() {
    let params = vec![("note".to_string(), "a\tb \u{e9}\n\u{7f}~".to_string())];
    let body = Body::with_params(u64::MAX, params);
    assert_eq!(
        body.to_string(),
        "note=a\tb \u{e9}\n\u{7f}~&nonce=18446744073709551615"
    );
    assert_eq!(
        body.urlencode(),
        "note=a%09b %C3%A9%0A%7F~&nonce=18446744073709551615"
    );
}

fn response(error: &[&str], status_code: u16) -> Response<u32> {
    Response {
        error: error.iter().map(|e| e.to_string()).collect(),
        result: Some(1),
        status_code,
    }
}

#[test]
fn a_response_without_errors_and_with_a_2xx_status_is_a_success() {
    assert!(response(&[], 200).is_success());
    assert!(response(&[], 204).is_success());
    assert!(response(&[], 299).is_success());
}

#[test]
fn a_response_with_an_error_is_no_success() {
    assert!(!response(&["EGeneral:Invalid arguments"], 200).is_success());
    assert!(!response(&["a", "b"], 299).is_success());
}

#[test]
fn a_response_with_a_status_outside_2xx_is_no_success() {
    assert!(!response(&[], 0).is_success());
    assert!(!response(&[], 199).is_success());
    assert!(!response(&[], 300).is_success());
    assert!(!response(&[], 404).is_success());
    assert!(!response(&[], 500).is_success());
    assert!(!response(&[], u16::MAX).is_success());
    assert!(!response(&["EService:Unavailable"], 503).is_success());
}

#[test]
fn a_response_takes_the_status_it_came_with() {
    let parsed: Response<u32> = Response {
        error: Vec::new(),
        result: Some(7),
        status_code: 0,
    };
    assert!(!parsed.is_success());
    let response = parsed.with_status(200);
    assert_eq!(response.status_code, 200);
    assert_eq!(response.result, Some(7));
    assert!(response.error.is_empty());
    assert!(response.is_success());
}

#[test]
fn orders_as_text() {
    assert_eq!(Order::Buy.to_string(), "buy");
    assert_eq!(Order::Sell.to_string(), "sell");
    assert_eq!(Order::Sell.as_str(), "sell");
}

#[test]
fn order_types_as_text() {
    assert_eq!(OrderType::Market.to_string(), "market");
    assert_eq!(OrderType::Limit.to_string(), "limit");
    assert_eq!(OrderType::SettlePosition.to_string(), "settle-position");
    assert_eq!(OrderType::StopLoss.to_string(), "stop-loss");
    assert_eq!(OrderType::TakeProfit.to_string(), "take-profit");
    assert_eq!(OrderType::StopLossLimit.to_string(), "stop-loss-limit");
    assert_eq!(OrderType::TakeProfitLimit.to_string(), "take-profit-limit");
    assert_eq!(OrderType::StopLossLimit.as_str(), "stop-loss-limit");
}

fn params(pairs: &[(&str, &str)]) -> Vec<(String, String)> {
    pairs
        .iter()
        .map(|(name, value)| (name.to_string(), value.to_string()))
        .collect()
}

#[test]
fn a_parameter_is_found_at_the_first_name_that_does_not_come_before_it() {
    let list = params(&[("a", "1"), ("c", "2"), ("e", "3")]);
    assert_eq!(find_param(&list, "a"), 0);
    assert_eq!(find_param(&list, "b"), 1);
    assert_eq!(find_param(&list, "c"), 1);
    assert_eq!(find_param(&list, "d"), 2);
    assert_eq!(find_param(&list, "e"), 2);
    assert_eq!(find_param(&list, "ea"), 3);
    assert_eq!(find_param(&list, ""), 0);
    assert_eq!(find_param(&Vec::new(), "a"), 0);
}

#[test]
fn a_parameter_is_set_in_the_place_of_its_name() {
    let mut list = params(&[("a", "1"), ("c", "2")]);
    set_param(&mut list, "c", "3");
    assert_eq!(list, params(&[("a", "1"), ("c", "3")]));
    set_param(&mut list, "b", "4");
    assert_eq!(list, params(&[("a", "1"), ("b", "4"), ("c", "3")]));
    set_param(&mut list, "d", "5");
    assert_eq!(list, params(&[("a", "1"), ("b", "4"), ("c", "3"), ("d", "5")]));
    set_param(&mut list, "", "");
    assert_eq!(
        list,
        params(&[("", ""), ("a", "1"), ("b", "4"), ("c", "3"), ("d", "5")])
    );
    set_param(&mut list, "a", "");
    assert_eq!(
        list,
        params(&[("", ""), ("a", ""), ("b", "4"), ("c", "3"), ("d", "5")])
    );
}

#[test]
fn a_list_of_parameters_becomes_a_mapping() {
    assert_eq!(to_mapping(Vec::new()), params(&[]));
    assert_eq!(
        to_mapping(params(&[("b", "1"), ("a", "2"), ("b", "3")])),
        params(&[("a", "2"), ("b", "3")])
    );
    assert_eq!(
        to_mapping(params(&[("a", "1"), ("b", "2")])),
        params(&[("a", "1"), ("b", "2")])
    );
}

#[test]
fn a_body_takes_its_parameters_as_a_mapping() {
    let body = Body::with_params(3, params(&[("volume", "1"), ("pair", "x"), ("volume", "2")]));
    assert_eq!(body.to_string(), "pair=x&volume=2&nonce=3");
}

#[test]
fn parameters_are_joined_with_ampersands() {
    assert_eq!(join_params(&Vec::new()), "");
    assert_eq!(join_params(&params(&[("a", "1")])), "a=1");
    assert_eq!(join_params(&params(&[("a", "1"), ("b", "")])), "a=1&b=");
    assert_eq!(
        join_params(&params(&[("a", "1"), ("b", "2"), ("c", "x y")])),
        "a=1&b=2&c=x y"
    );
}
