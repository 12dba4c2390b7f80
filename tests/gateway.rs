use exc_gateio::error::GateioError;
use exc_gateio::key::{GateioKey, SignError, UtcTime, RFC3339_MAX_NANOS, RFC3339_MIN_NANOS};
use exc_gateio::layer::GateioHttpApi;
use exc_gateio::request::HttpRequest;
use exc_gateio::response::{complete_exchange, decode_body};
use exc_gateio::retry::{RetryPolicy, DEFAULT_MAX_RETRIES, MAX_DELAY_MS};
use exc_gateio::service::Endpoint;

const HOST: &str = "https://api.gateio.ws/api/v4";
const EMPTY_SHA512_HEX: &str = "cf83e1357eefb8bdf1542850d66d8007d620e4050b5715dc83f4a921d36ce9ce47d0d13c5d85f2b0ff8318d2877eec2f63b931bd47417a81a538327af927da3e";

fn at(secs: i128) -> UtcTime {
    UtcTime { unix_nanos: secs * 1_000_000_000 }
}

fn tickers(contract: Option<&str>) -> HttpRequest {
    HttpRequest::ListFuturesTickers {
        settle: "usdt".to_string(),
        contract: contract.map(|c| c.to_string()),
    }
}

#[test]
fn paths_of_every_variant() {
    assert_eq!(tickers(None).path(), "/futures/usdt/tickers");
    let get = HttpRequest::GetFuturesContract { settle: "btc".to_string(), contract: "BTC_USD".to_string() };
    assert_eq!(get.path(), "/futures/btc/contracts/BTC_USD");
    let list = HttpRequest::ListFuturesContracts { settle: "usdt".to_string() };
    assert_eq!(list.path(), "/futures/usdt/contracts");
    assert_eq!(HttpRequest::ListCurrencies.path(), "/spot/currencies");
    let cur = HttpRequest::GetCurrency { currency: "GT".to_string() };
    assert_eq!(cur.path(), "/spot/currencies/GT");
    for r in [tickers(None), get, list, HttpRequest::ListCurrencies, cur] {
        assert_eq!(r.method(), "GET");
    }
}

#[test]
fn empty_fields_pass_through() {
    let r = HttpRequest::ListFuturesContracts { settle: String::new() };
    assert_eq!(r.path(), "/futures//contracts");
}

#[test]
fn shaping_is_deterministic() {
    let r = tickers(Some("BTC_USDT"));
    assert_eq!(r.path(), r.clone().path());
    assert_eq!(r.query(), r.clone().query());
    assert_eq!(r.uri(HOST), r.uri(HOST));
}

#[test]
fn query_only_with_filter() {
    assert_eq!(tickers(Some("BTC_USDT")).query(), Some("contract=BTC_USDT".to_string()));
    assert_eq!(tickers(None).query(), None);
    assert_eq!(HttpRequest::ListCurrencies.query(), None);
    let get = HttpRequest::GetFuturesContract { settle: "usdt".to_string(), contract: "BTC_USDT".to_string() };
    assert_eq!(get.query(), None);
    assert!(!tickers(None).uri(HOST).contains('?'));
    assert_eq!(tickers(Some("X")).uri("h"), "h/futures/usdt/tickers?contract=X");
}

#[test]
fn sign_matches_hmac_vector() {
    let key = GateioKey::new("id", "secret");
    let s = key
        .sign_at("GET", "/futures/usdt/tickers", Some("contract=BTC_USDT"), None, at(1_700_000_000))
        .unwrap();
    assert_eq!(s.timestamp, "2023-11-14T22:13:20Z");
    assert_eq!(s.sign, "07202a41f5b7b389dcc01009cbfefe5f405add3818903c8ccf9dd536a3540acc2ed3d7a43084f965dc8ac2273b292971bacf535ec80c212d10fe6425942d9c7d");
    assert_eq!(s.sign.len(), 128);
}

#[test]
fn sign_with_body_and_fraction() {
    let key = GateioKey::new("id", "secret");
    let t = UtcTime { unix_nanos: 1_700_000_000_500_000_000 };
    let s = key.sign_at("POST", "/spot/orders", None, Some("{\"a\":1}"), t).unwrap();
    assert_eq!(s.timestamp, "2023-11-14T22:13:20.5Z");
    assert_eq!(s.sign, "ecd28e4fdd249a1798489ba618b85a52d1868b053d15255d990615469856e8c8086a7732a910231d6522c600ac674ba121f29d9203a9ae6031535a33f289bd38");
}

#[test]
fn sign_is_deterministic_at_fixed_time() {
    let key = GateioKey::new("id", "secret");
    let a = key.sign_at("GET", "/spot/currencies", None, None, at(1_700_000_000)).unwrap();
    let b = key.sign_at("GET", "/spot/currencies", None, None, at(1_700_000_000)).unwrap();
    assert_eq!(a.sign, b.sign);
    assert_eq!(a.sign, "378a58e9ab507a28bb7ee75791542c43e0ad1b8b228a68f321916737d9398844094f06bfe47bb21b69ed7cbf9241aee6d77edc5adb1dfcf23b17354000f4fc61");
}

#[test]
fn sign_differs_across_timestamps() {
    let key = GateioKey::new("id", "secret");
    let a = key.sign_at("GET", "/futures/usdt/tickers", Some("contract=BTC_USDT"), None, at(1_700_000_000)).unwrap();
    let b = key.sign_at("GET", "/futures/usdt/tickers", Some("contract=BTC_USDT"), None, at(1_700_000_001)).unwrap();
    assert_ne!(a.sign, b.sign);
    assert_ne!(a.timestamp, b.timestamp);
    assert_eq!(b.sign, "52c2a80bd002de14f69e661b40637a381acd644a4ca9a195af8fce4f376a5e5962a313161b78de0d52eb21276e5823a676a7a1beac7a356b5426c225a0988645");
}

#[test]
fn sign_rejects_unwritable_timestamps() {
    let key = GateioKey::new("id", "secret");
    let late = UtcTime { unix_nanos: RFC3339_MAX_NANOS + 1 };
    let early = UtcTime { unix_nanos: RFC3339_MIN_NANOS - 1 };
    assert_eq!(key.sign_at("GET", "/", None, None, late).unwrap_err(), SignError::Timestamp);
    assert_eq!(key.sign_at("GET", "/", None, None, early).unwrap_err(), SignError::Timestamp);
    let edge = key.sign_at("GET", "/", None, None, UtcTime { unix_nanos: RFC3339_MIN_NANOS }).unwrap();
    assert_eq!(edge.timestamp, "0000-01-01T00:00:00Z");
    let last = key.sign_at("GET", "/", None, None, UtcTime { unix_nanos: RFC3339_MAX_NANOS }).unwrap();
    assert_eq!(last.timestamp, "9999-12-31T23:59:59.999999999Z");
}

#[test]
fn sign_now_signs() {
    let key = GateioKey::new("id", "secret");
    let s = key.sign_now("GET", "/spot/currencies", None, None).unwrap();
    assert_eq!(s.sign.len(), 128);
    assert!(s.timestamp.ends_with('Z'));
}

#[test]
fn public_currencies_request() {
    let api = GateioHttpApi::new();
    let w = api.prepare_at(&HttpRequest::ListCurrencies, at(1_700_000_000)).unwrap();
    assert_eq!(w.method, "GET");
    assert_eq!(w.uri, "https://api.gateio.ws/api/v4/spot/currencies");
    assert!(w.headers.is_empty());
    assert!(!w.uri.contains('?'));
}

#[test]
fn private_tickers_request() {
    let api = GateioHttpApi::new().key(GateioKey::new("id", "secret"));
    let w = api.prepare_at(&tickers(Some("BTC_USDT")), at(1_700_000_000)).unwrap();
    assert_eq!(w.method, "GET");
    assert_eq!(w.uri, "https://api.gateio.ws/api/v4/futures/usdt/tickers?contract=BTC_USDT");
    let expected = vec![
        ("KEY".to_string(), "id".to_string()),
        ("Timestamp".to_string(), "2023-11-14T22:13:20Z".to_string()),
        ("SIGN".to_string(), "07202a41f5b7b389dcc01009cbfefe5f405add3818903c8ccf9dd536a3540acc2ed3d7a43084f965dc8ac2273b292971bacf535ec80c212d10fe6425942d9c7d".to_string()),
    ];
    assert_eq!(w.headers, expected);
}

#[test]
fn prepare_now_with_and_without_key() {
    let public = GateioHttpApi::new().host("http://h");
    let w = public.prepare(&HttpRequest::ListCurrencies).unwrap();
    assert_eq!(w.uri, "http://h/spot/currencies");
    assert!(w.headers.is_empty());
    let private = public.key(GateioKey::new("k", "s"));
    let w = private.prepare(&HttpRequest::ListCurrencies).unwrap();
    assert_eq!(w.headers.len(), 3);
    assert_eq!(w.headers[0], ("KEY".to_string(), "k".to_string()));
}

#[test]
fn to_request_without_key() {
    let w = tickers(None).to_request("h", None).unwrap();
    assert_eq!(w.uri, "h/futures/usdt/tickers");
    assert!(w.headers.is_empty());
}

#[test]
fn signing_error_surfaces() {
    let api = GateioHttpApi::new().key(GateioKey::new("id", "secret"));
    let r = api.prepare_at(&HttpRequest::ListCurrencies, UtcTime { unix_nanos: RFC3339_MAX_NANOS + 1 });
    assert!(matches!(r, Err(GateioError::Sign(SignError::Timestamp))));
}

#[test]
fn body_hash_of_empty_body() {
    // The empty body's SHA-512 enters the signed text; an empty string body hashes the same.
    let key = GateioKey::new("id", "secret");
    let none = key.sign_at("GET", "/p", None, None, at(0)).unwrap();
    let empty = key.sign_at("GET", "/p", None, Some(""), at(0)).unwrap();
    assert_eq!(none.sign, empty.sign);
    assert_eq!(EMPTY_SHA512_HEX.len(), 128);
    assert_eq!(none.timestamp, "1970-01-01T00:00:00Z");
}

#[test]
fn decode_json_and_errors() {
    let r = decode_body(b"{\"a\":[1,2]}").unwrap();
    assert_eq!(r.into_inner()["a"][1], 2);
    assert!(matches!(decode_body(b"not json"), Err(GateioError::Decode)));
    assert!(matches!(decode_body(b""), Err(GateioError::Decode)));
    match complete_exchange(Err("connection reset".to_string())) {
        Err(GateioError::Transport(m)) => assert_eq!(m, "connection reset"),
        _ => panic!("expected a transport error"),
    }
    assert!(complete_exchange(Ok(b"[]".to_vec())).is_ok());
    assert!(matches!(complete_exchange(Ok(b"[".to_vec())), Err(GateioError::Decode)));
}

#[test]
fn never_policy_never_retries() {
    let p = RetryPolicy::never();
    assert_eq!(p.next(true), None);
    assert_eq!(p.next(false), None);
}

#[test]
fn bounded_policy_stops() {
    let mut p = RetryPolicy::bounded(DEFAULT_MAX_RETRIES);
    let mut granted: u32 = 0;
    while let Some(n) = p.next(true) {
        granted += 1;
        p = n;
    }
    assert_eq!(granted, DEFAULT_MAX_RETRIES);
    assert_eq!(RetryPolicy::bounded(3).next(false), None);
}

#[test]
fn backoff_doubles_then_caps() {
    let d: Vec<u64> = (0..10).map(|k| RetryPolicy { max_retries: 10, retries: k }.backoff_ms()).collect();
    assert_eq!(d, vec![100, 200, 400, 800, 1600, 3200, 6400, 10000, 10000, 10000]);
    assert_eq!(RetryPolicy { max_retries: u32::MAX, retries: u32::MAX }.backoff_ms(), MAX_DELAY_MS);
}

#[test]
fn endpoint_defaults_and_builders() {
    let e = Endpoint::default();
    assert_eq!(e.host, HOST);
    assert!(e.key.is_none());
    assert_eq!(e.buffer, 128);
    let e = e.host("http://localhost").private(GateioKey::new("k", "s")).buffer(1);
    assert_eq!(e.buffer, 1);
    let api = e.api();
    assert_eq!(api.host, "http://localhost");
    assert_eq!(api.key.unwrap().key, "k");
}
