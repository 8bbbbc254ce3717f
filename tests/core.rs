use coinchecker::decimal::{decimal_string, signed_decimal_string, Decimal};
use coinchecker::endpoints::{Account, Order, Public, WithdrawsJpy};
use coinchecker::error::ApiError;
use coinchecker::request::{
    build_url, check_status, get_nonce, prepare_request, Client, Credentials, HttpMethod,
};
use coinchecker::signing::get_signature;
use coinchecker::types::{
    BaseOrderType, CoinPair, Currency, OrderType, Pagination, Params, SortOrder,
};

fn pairs(p: &[(&str, &str)]) -> Params {
    p.iter().map(|(k, v)| (k.to_string(), v.to_string())).collect()
}

fn keys() -> Credentials {
    Credentials { access_key: Some("hoge".to_string()), secret_key: Some("fuga".to_string()) }
}

fn no_keys() -> Credentials {
    Credentials { access_key: None, secret_key: None }
}

fn header_names(h: &[(String, String)]) -> Vec<&str> {
    h.iter().map(|(k, _)| k.as_str()).collect()
}

#[test]
fn enum_texts() {
    assert_eq!(Currency::Jpy.as_str(), "JPY");
    assert_eq!(Currency::Btc.as_str(), "BTC");
    assert_eq!(CoinPair::BtcJpy.as_str(), "btc_jpy");
    assert_eq!(CoinPair::EtcJpy.as_str(), "etc_jpy");
    assert_eq!(CoinPair::FctJpy.as_str(), "fct_jpy");
    assert_eq!(CoinPair::MonaJpy.as_str(), "mona_jpy");
    assert_eq!(CoinPair::PltJpy.as_str(), "plt_jpy");
    assert_eq!(BaseOrderType::Buy.as_str(), "buy");
    assert_eq!(BaseOrderType::Sell.as_str(), "sell");
    assert_eq!(OrderType::Limit(BaseOrderType::Buy).as_str(), "buy");
    assert_eq!(OrderType::Limit(BaseOrderType::Sell).as_str(), "sell");
    assert_eq!(OrderType::MarketBuy.as_str(), "market_buy");
    assert_eq!(OrderType::MarketSell.as_str(), "market_sell");
    assert_eq!(SortOrder::Asc.as_str(), "asc");
    assert_eq!(SortOrder::Desc.as_str(), "desc");
}

#[test]
fn sort_order_round_trip() {
    for o in [SortOrder::Asc, SortOrder::Desc] {
        assert_eq!(SortOrder::parse(&o.to_string()), Ok(o));
        assert_eq!(o.to_string().parse::<SortOrder>(), Ok(o));
    }
    assert!(SortOrder::parse("ASC").is_err());
    assert!(SortOrder::parse("").is_err());
    assert!(SortOrder::parse("descending").is_err());
}

#[test]
fn pagination_params() {
    let p = Pagination { limit: 3, order: SortOrder::Asc, starting_after: None, ending_before: None };
    assert_eq!(p.to_params(), pairs(&[("limit", "3"), ("order", "asc")]));
    let p = Pagination {
        limit: -20,
        order: SortOrder::Desc,
        starting_after: Some(42),
        ending_before: Some(18446744073709551615),
    };
    assert_eq!(
        p.to_params(),
        pairs(&[
            ("limit", "-20"),
            ("order", "desc"),
            ("starting_after", "42"),
            ("ending_before", "18446744073709551615"),
        ])
    );
    let p = Pagination { limit: i32::MIN, order: SortOrder::Asc, starting_after: None, ending_before: Some(7) };
    assert_eq!(p.to_params(), pairs(&[("limit", "-2147483648"), ("order", "asc"), ("ending_before", "7")]));
}

#[test]
fn decimal_texts() {
    assert_eq!(decimal_string(0), "0");
    assert_eq!(decimal_string(9), "9");
    assert_eq!(decimal_string(10), "10");
    assert_eq!(decimal_string(1234567890), "1234567890");
    assert_eq!(decimal_string(u128::MAX), u128::MAX.to_string());
    assert_eq!(signed_decimal_string(-5), "-5");
    assert_eq!(signed_decimal_string(i64::MIN), i64::MIN.to_string());
    assert_eq!(Decimal { digits: 1, scale: 2 }.to_text(), "0.01");
    assert_eq!(Decimal { digits: 12345, scale: 2 }.to_text(), "123.45");
    assert_eq!(Decimal { digits: 5, scale: 3 }.to_text(), "0.005");
    assert_eq!(Decimal { digits: 100, scale: 0 }.to_text(), "100");
    assert_eq!(Decimal { digits: 150, scale: 2 }.to_text(), "1.50");
    assert_eq!(Decimal { digits: 0, scale: 2 }.to_text(), "0.00");
    assert_eq!(Decimal::from_integer(35000).to_text(), "35000");
}

#[test]
fn signature_golden_vector() {
    // HMAC-SHA256 test vector with key "Jefe" (RFC 4231, case 2).
    let s = get_signature("Jefe", "what do ya want for nothing?").unwrap();
    assert_eq!(s, "5bdcc146bf60754e6a042426089575c75a003f089d2739839dec58b964ec3843");
}

#[test]
fn signature_is_deterministic_and_sensitive() {
    let a = get_signature("secret", "1600000000000000https://coincheck.com/api/accounts").unwrap();
    let b = get_signature("secret", "1600000000000000https://coincheck.com/api/accounts").unwrap();
    assert_eq!(a, b);
    assert_eq!(a.len(), 64);
    assert!(a.chars().all(|c| c.is_ascii_digit() || ('a'..='f').contains(&c)));
    let c = get_signature("secreT", "1600000000000000https://coincheck.com/api/accounts").unwrap();
    let d = get_signature("secret", "1600000000000001https://coincheck.com/api/accounts").unwrap();
    assert_ne!(a, c);
    assert_ne!(a, d);
    // An empty key and a key longer than the block are both accepted.
    assert!(get_signature("", "m").is_ok());
    assert!(get_signature(&"k".repeat(200), "m").is_ok());
}

#[test]
fn nonces_increase() {
    let a = get_nonce().unwrap();
    let b = get_nonce().unwrap();
    assert!(a.chars().all(|c| c.is_ascii_digit()));
    let a: u128 = a.parse().unwrap();
    let b: u128 = b.parse().unwrap();
    assert!(b >= a);
    assert!(a > 1_600_000_000_000_000);
}

#[test]
fn url_building() {
    assert_eq!(build_url("/api/ticker", None), Ok("https://coincheck.com/api/ticker".to_string()));
    let p = pairs(&[("pair", "btc_jpy"), ("note", "a b&c")]);
    assert_eq!(
        build_url("/api/trades", Some(&p)),
        Ok("https://coincheck.com/api/trades?pair=btc_jpy&note=a+b%26c".to_string())
    );
}

#[test]
fn ticker_request_without_auth() {
    let call = Public::ticker();
    assert_eq!(call.method, HttpMethod::Get);
    assert_eq!(call.path, "/api/ticker");
    assert_eq!(call.params, None);
    assert!(!call.use_auth);
    let req = prepare_request(&no_keys(), HttpMethod::Get, "/api/ticker", None, false, "").unwrap();
    assert_eq!(req.method, HttpMethod::Get);
    assert_eq!(req.url, "https://coincheck.com/api/ticker");
    assert!(req.headers.is_empty());
    let mut client = Client::new(None, None);
    let req = client.request_call(&call).unwrap();
    assert_eq!(req.url, "https://coincheck.com/api/ticker");
    assert!(req.headers.is_empty());
}

#[test]
fn no_auth_headers_without_auth() {
    for m in [HttpMethod::Get, HttpMethod::Post, HttpMethod::Delete] {
        let req = prepare_request(&keys(), m, "/api/ticker", None, false, "1").unwrap();
        for (k, _) in &req.headers {
            assert!(k != "ACCESS-KEY" && k != "ACCESS-NONCE" && k != "ACCESS-SIGNATURE");
        }
    }
    let mut client = Client::new(Some("hoge".to_string()), Some("fuga".to_string()));
    let req = client.request_call(&Public::order_book()).unwrap();
    assert!(req.headers.is_empty());
}

#[test]
fn auth_without_keys_fails() {
    let r = prepare_request(&no_keys(), HttpMethod::Get, "/api/accounts", None, true, "1");
    assert_eq!(r, Err(ApiError::MissingCredentials));
    let only_access = Credentials { access_key: Some("hoge".to_string()), secret_key: None };
    let r = prepare_request(&only_access, HttpMethod::Get, "/api/accounts", None, true, "1");
    assert_eq!(r, Err(ApiError::MissingCredentials));
    let mut client = Client::new(None, None);
    assert_eq!(client.request_call(&Account::balance()), Err(ApiError::MissingCredentials));
}

#[test]
fn post_order_with_auth() {
    let params = pairs(&[("pair", "btc_jpy"), ("order_type", "buy"), ("rate", "100"), ("amount", "0.01")]);
    let nonce = "1600000000000000";
    let req = prepare_request(&keys(), HttpMethod::Post, "/api/exchange/orders", Some(&params), true, nonce)
        .unwrap();
    let url = "https://coincheck.com/api/exchange/orders?pair=btc_jpy&order_type=buy&rate=100&amount=0.01";
    assert_eq!(req.url, url);
    assert_eq!(header_names(&req.headers), vec!["ACCESS-NONCE", "ACCESS-SIGNATURE", "ACCESS-KEY", "content-type"]);
    assert_eq!(req.headers[0].1, nonce);
    let signed = get_signature("fuga", &format!("{}{}", nonce, url)).unwrap();
    assert_eq!(req.headers[1].1, signed);
    assert_eq!(req.headers[2].1, "hoge");
    assert_eq!(req.headers[3].1, "application/json");

    let call = Order::new_limit_buy(&CoinPair::BtcJpy, Decimal::from_integer(100), Decimal { digits: 1, scale: 2 });
    assert_eq!(call.params, Some(params));
    let mut client = Client::new(Some("hoge".to_string()), Some("fuga".to_string()));
    let req = client.request_call(&call).unwrap();
    assert_eq!(req.url, url);
    let names = header_names(&req.headers);
    assert_eq!(names, vec!["ACCESS-NONCE", "ACCESS-SIGNATURE", "ACCESS-KEY", "content-type"]);
    let sent_nonce = req.headers[0].1.clone();
    let signed = get_signature("fuga", &format!("{}{}", sent_nonce, url)).unwrap();
    assert_eq!(req.headers[1].1, signed);
}

#[test]
fn content_type_only_on_post_and_delete() {
    let get = prepare_request(&keys(), HttpMethod::Get, "/api/accounts", None, true, "5").unwrap();
    assert_eq!(header_names(&get.headers), vec!["ACCESS-NONCE", "ACCESS-SIGNATURE", "ACCESS-KEY"]);
    let del = prepare_request(&keys(), HttpMethod::Delete, "/api/exchange/orders/12", None, false, "").unwrap();
    assert_eq!(del.headers, pairs(&[("content-type", "application/json")]));
}

#[test]
fn unsupported_methods_fail() {
    for m in [HttpMethod::Put, HttpMethod::Patch, HttpMethod::Head, HttpMethod::Options, HttpMethod::Connect, HttpMethod::Trace] {
        assert_eq!(prepare_request(&keys(), m, "/api/ticker", None, true, "1"), Err(ApiError::UnsupportedMethod));
    }
}

#[test]
fn invalid_url_fails() {
    assert_eq!(
        prepare_request(&keys(), HttpMethod::Get, ":99999/x", None, false, ""),
        Err(ApiError::InvalidUrl)
    );
}

#[test]
fn status_handling() {
    assert_eq!(
        check_status(400, "bad".to_string()),
        Err(ApiError::ApiStatus { status: 400, body: "bad".to_string() })
    );
    assert_eq!(
        check_status(503, String::new()),
        Err(ApiError::ApiStatus { status: 503, body: String::new() })
    );
    assert_eq!(check_status(200, "{}".to_string()), Ok("{}".to_string()));
    assert_eq!(check_status(399, "x".to_string()), Ok("x".to_string()));
    assert_eq!(check_status(600, "x".to_string()), Ok("x".to_string()));
}

#[test]
fn endpoint_calls() {
    let c = Public::trades(&CoinPair::MonaJpy);
    assert_eq!(c.params, Some(pairs(&[("pair", "mona_jpy")])));
    let c = Public::order_rate_from_amount(&BaseOrderType::Buy, &CoinPair::BtcJpy, Decimal { digits: 1, scale: 1 });
    assert_eq!(c.path, "/api/exchange/orders/rate");
    assert_eq!(c.params, Some(pairs(&[("order_type", "buy"), ("pair", "btc_jpy"), ("amount", "0.1")])));
    let c = Public::order_rate_from_price(&BaseOrderType::Sell, &CoinPair::BtcJpy, Decimal::from_integer(35000));
    assert_eq!(c.params, Some(pairs(&[("order_type", "sell"), ("pair", "btc_jpy"), ("price", "35000")])));
    assert_eq!(Public::marketplace_buy_rate(&CoinPair::EtcJpy).path, "/api/rate/etc_jpy");
    assert_eq!(Account::sends().params, Some(pairs(&[("currency", "BTC")])));
    assert_eq!(Account::deposits().path, "/api/deposit_money");
    assert!(Account::info().use_auth);
    assert_eq!(WithdrawsJpy::bank_accounts().path, "/api/bank_accounts");
    assert_eq!(WithdrawsJpy::withdraws().path, "/api/withdraws");
    let c = Order::cancel(12345);
    assert_eq!((c.method, c.path.as_str()), (HttpMethod::Delete, "/api/exchange/orders/12345"));
    assert_eq!(Order::cancel_status(7).params, Some(pairs(&[("id", "7")])));
    let c = Order::new_stop_market_sell(&CoinPair::BtcJpy, Decimal { digits: 5, scale: 1 }, Decimal::from_integer(900));
    assert_eq!(
        c.params,
        Some(pairs(&[("pair", "btc_jpy"), ("order_type", "market_sell"), ("amount", "0.5"), ("stop_loss_rate", "900")]))
    );
    let c = Order::new_market_buy(&CoinPair::BtcJpy, Decimal::from_integer(1000));
    assert_eq!(c.params, Some(pairs(&[("pair", "btc_jpy"), ("order_type", "market_buy"), ("market_buy_amount", "1000")])));
    let page = Pagination { limit: 3, order: SortOrder::Asc, starting_after: None, ending_before: None };
    let c = Order::transactions_pagination(&page);
    assert_eq!(c.path, "/api/exchange/orders/transactions_pagination");
    assert_eq!(c.params, Some(pairs(&[("limit", "3"), ("order", "asc")])));
    assert!(c.use_auth);
}

#[test]
fn records_hold_their_fields() {
    let r = coinchecker::records::CancelResult { success: true, id: 12345 };
    assert_eq!(r, coinchecker::records::CancelResult { success: true, id: 12345 });
    let a = coinchecker::records::BankAccount {
        id: 1,
        bank_name: "bank".to_string(),
        branch_name: "branch".to_string(),
        bank_account_type: "futsu".to_string(),
        number: "0123456".to_string(),
        name: "name".to_string(),
    };
    let b = coinchecker::records::BankAccounts { success: true, data: vec![a] };
    assert_eq!(b.data.len(), 1);
    assert_eq!(b.data[0].number, "0123456");
}
