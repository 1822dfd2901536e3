use fxoanda::account::{
    CancelOrderRequest, ClosePositionRequest, ConfigureAccountRequest, CreateMarketOrderRequest,
    GetAccountInstrumentCandlesRequest, GetAccountSummaryRequest, GetPositionRequest,
    ListAccountsRequest, ListTradesRequest, ListTransactionsRequest,
    SetTradeDependentOrdersRequest, StreamPricingRequest,
};
use fxoanda::client::Client;
use fxoanda::decimal::DecimalString;
use fxoanda::errors::ApiError;
use fxoanda::http::HttpMethod;
use fxoanda::instrument::{GetInstrumentCandlesRequest, GetOrderBookRequest};
use fxoanda::pricing::{GetBasePricesRequest, GetPriceRangeRequest};
use fxoanda::rfc3339::parse_rfc3339;

fn client() -> Client {
    Client::new("api-fxtrade.oanda.com".to_string(), "test-token".to_string())
}

#[test]
fn candles_url_exact() {
    let req = GetAccountInstrumentCandlesRequest::new()
        .with_account_id("001-001-1234567-001".to_string())
        .with_instrument("EUR_USD".to_string());
    let prepared = req.prepare(&client()).expect("all path parameters are set");
    assert_eq!(
        prepared.url,
        "https://api-fxtrade.oanda.com/v3/accounts/001-001-1234567-001/instruments/EUR_USD/candles"
    );
    assert_eq!(prepared.method, HttpMethod::Get);
    assert_eq!(prepared.method.name(), "GET");
    assert_eq!(prepared.bearer, "test-token");
    assert_eq!(prepared.query, vec![]);
    assert_eq!(prepared.body, None);
}

#[test]
fn instrument_candles_url() {
    let req = GetInstrumentCandlesRequest::new().with_instrument("EUR_USD".to_string());
    let prepared = req.prepare(&client()).unwrap();
    assert_eq!(
        prepared.url,
        "https://api-fxtrade.oanda.com/v3/instruments/EUR_USD/candles"
    );
}

#[test]
fn missing_path_parameter_is_typed_error() {
    let req = GetInstrumentCandlesRequest::new();
    match req.prepare(&client()) {
        Err(ApiError::MissingPathParameter { name }) => assert_eq!(name, "instrument"),
        other => panic!("expected a missing-parameter error, got {other:?}"),
    }
    // the first unresolved placeholder, in template order, is named
    let req = GetAccountInstrumentCandlesRequest::new().with_instrument("EUR_USD".to_string());
    match req.prepare(&client()) {
        Err(ApiError::MissingPathParameter { name }) => assert_eq!(name, "accountID"),
        other => panic!("expected a missing-parameter error, got {other:?}"),
    }
}

#[test]
fn unused_declared_parameter_is_not_required() {
    // the price-range template references no placeholder, so the declared
    // instrument parameter may stay unset
    let req = GetPriceRangeRequest::new();
    let prepared = req.prepare(&client()).expect("no placeholder is referenced");
    assert_eq!(prepared.url, "https://api-fxtrade.oanda.com/v3/pricing/range");
}

#[test]
fn query_encoding_by_kind() {
    let from = parse_rfc3339("2023-06-15T10:30:00Z").unwrap();
    let req = GetInstrumentCandlesRequest::new()
        .with_instrument("EUR_USD".to_string())
        .with_price("BA".to_string())
        .with_granularity("H4".to_string())
        .with_count(500)
        .with_from(from)
        .with_smooth(true)
        .with_daily_alignment(-5)
        .with_include_first(false);
    let prepared = req.prepare(&client()).unwrap();
    let expected: Vec<(String, String)> = vec![
        ("price".to_string(), "BA".to_string()),
        ("granularity".to_string(), "H4".to_string()),
        ("count".to_string(), "500".to_string()),
        ("from".to_string(), "2023-06-15T10:30:00Z".to_string()),
        ("smooth".to_string(), "true".to_string()),
        ("includeFirst".to_string(), "false".to_string()),
        ("dailyAlignment".to_string(), "-5".to_string()),
    ];
    assert_eq!(prepared.query, expected);
}

#[test]
fn list_query_values_comma_joined() {
    let req = ListTradesRequest::new()
        .with_account_id("A".to_string())
        .with_ids(vec!["7".to_string(), "8".to_string(), "9".to_string()])
        .with_state("OPEN".to_string());
    let prepared = req.prepare(&client()).unwrap();
    let expected: Vec<(String, String)> = vec![
        ("ids".to_string(), "7,8,9".to_string()),
        ("state".to_string(), "OPEN".to_string()),
    ];
    assert_eq!(prepared.query, expected);
    let req = StreamPricingRequest::new()
        .with_account_id("A".to_string())
        .with_instruments(vec!["EUR_USD".to_string()])
        .with_snapshot(true);
    let prepared = req.prepare(&client()).unwrap();
    let expected: Vec<(String, String)> = vec![
        ("instruments".to_string(), "EUR_USD".to_string()),
        ("snapshot".to_string(), "true".to_string()),
    ];
    assert_eq!(prepared.query, expected);
}

#[test]
fn timestamp_query_uses_rfc3339() {
    let t = parse_rfc3339("2021-03-04T05:06:07.5+00:00").unwrap();
    let req = GetOrderBookRequest::new()
        .with_instrument("EUR_USD".to_string())
        .with_time(t);
    let prepared = req.prepare(&client()).unwrap();
    let expected: Vec<(String, String)> = vec![
        ("time".to_string(), "2021-03-04T05:06:07.500000000Z".to_string()),
    ];
    assert_eq!(prepared.query, expected);
}

#[test]
fn body_frames_set_fields_in_order() {
    let req = ClosePositionRequest::new()
        .with_account_id("A1".to_string())
        .with_instrument("EUR_USD".to_string())
        .with_long_units("ALL".to_string())
        .with_long_client_extensions("{\"id\":\"x1\"}".to_string());
    let prepared = req.prepare(&client()).unwrap();
    assert_eq!(prepared.method, HttpMethod::Put);
    assert_eq!(
        prepared.url,
        "https://api-fxtrade.oanda.com/v3/accounts/A1/positions/EUR_USD/close"
    );
    assert_eq!(
        prepared.body,
        Some("{\"longUnits\":\"ALL\",\"longClientExtensions\":{\"id\":\"x1\"}}".to_string())
    );
}

#[test]
fn empty_body_is_an_empty_object() {
    let req = CancelOrderRequest::new()
        .with_account_id("A1".to_string())
        .with_order_specifier("77".to_string());
    let prepared = req.prepare(&client()).unwrap();
    assert_eq!(prepared.method, HttpMethod::Put);
    assert_eq!(prepared.body, Some("{}".to_string()));
}

#[test]
fn string_body_values_are_json_escaped() {
    let req = ConfigureAccountRequest::new()
        .with_account_id("A1".to_string())
        .with_alias("say \"hi\"\n\u{1}".to_string());
    let prepared = req.prepare(&client()).unwrap();
    assert_eq!(prepared.method, HttpMethod::Patch);
    assert_eq!(
        prepared.body,
        Some("{\"alias\":\"say \\\"hi\\\"\\n\\u0001\"}".to_string())
    );
}

#[test]
fn decimal_body_values_are_decimal_strings() {
    let rate = DecimalString::new("0.02".to_string()).unwrap();
    let req = ConfigureAccountRequest::new()
        .with_account_id("A1".to_string())
        .with_margin_rate(rate);
    let prepared = req.prepare(&client()).unwrap();
    assert_eq!(prepared.body, Some("{\"marginRate\":\"0.02\"}".to_string()));
    // a non-finite decimal still travels as its text
    let inf = DecimalString::new("inf".to_string()).unwrap();
    let req = ConfigureAccountRequest::new()
        .with_account_id("A1".to_string())
        .with_margin_rate(inf);
    let prepared = req.prepare(&client()).unwrap();
    assert_eq!(prepared.body, Some("{\"marginRate\":\"inf\"}".to_string()));
}

#[test]
fn get_operations_send_no_body() {
    let prepared = ListAccountsRequest::new().prepare(&client()).unwrap();
    assert_eq!(prepared.method, HttpMethod::Get);
    assert_eq!(prepared.url, "https://api-fxtrade.oanda.com/v3/accounts");
    assert_eq!(prepared.body, None);
    let prepared = GetAccountSummaryRequest::new()
        .with_account_id("001-001-1234567-001".to_string())
        .prepare(&client())
        .unwrap();
    assert_eq!(
        prepared.url,
        "https://api-fxtrade.oanda.com/v3/accounts/001-001-1234567-001/summary"
    );
}

#[test]
fn with_uri_overrides_the_template() {
    let req = ListAccountsRequest::new().with_uri("/v3/other/{x}".to_string());
    match req.prepare(&client()) {
        Err(ApiError::MissingPathParameter { name }) => {
            // `x` names no declared parameter, so the braces stay literal
            panic!("unexpected missing parameter {name}");
        },
        Ok(prepared) => {
            assert_eq!(prepared.url, "https://api-fxtrade.oanda.com/v3/other/{x}");
        },
        Err(other) => panic!("unexpected error {other:?}"),
    }
}

#[test]
fn order_creation_posts_raw_json_body() {
    let req = CreateMarketOrderRequest::new()
        .with_account_id("A1".to_string())
        .with_order("{\"type\":\"MARKET\",\"instrument\":\"EUR_USD\",\"units\":\"100\"}".to_string());
    let prepared = req.prepare(&client()).unwrap();
    assert_eq!(prepared.method, HttpMethod::Post);
    assert_eq!(prepared.url, "https://api-fxtrade.oanda.com/v3/accounts/A1/orders");
    assert_eq!(
        prepared.body,
        Some("{\"order\":{\"type\":\"MARKET\",\"instrument\":\"EUR_USD\",\"units\":\"100\"}}".to_string())
    );
}

#[test]
fn dependent_orders_body_keeps_declaration_order() {
    let req = SetTradeDependentOrdersRequest::new()
        .with_account_id("A1".to_string())
        .with_trade_specifier("12".to_string())
        .with_stop_loss("{\"price\":\"1.05\"}".to_string())
        .with_take_profit("{\"price\":\"1.20\"}".to_string());
    let prepared = req.prepare(&client()).unwrap();
    assert_eq!(
        prepared.url,
        "https://api-fxtrade.oanda.com/v3/accounts/A1/trades/12/orders"
    );
    // declaration order on the wire, not call order
    assert_eq!(
        prepared.body,
        Some("{\"takeProfit\":{\"price\":\"1.20\"},\"stopLoss\":{\"price\":\"1.05\"}}".to_string())
    );
}

#[test]
fn transaction_queries_mix_kinds() {
    let from = parse_rfc3339("2020-01-01T00:00:00Z").unwrap();
    let to = parse_rfc3339("2020-02-01T00:00:00Z").unwrap();
    let req = ListTransactionsRequest::new()
        .with_account_id("A1".to_string())
        .with_from(from)
        .with_to(to)
        .with_page_size(50)
        .with_otype(vec!["ORDER_FILL".to_string(), "ORDER_CANCEL".to_string()]);
    let prepared = req.prepare(&client()).unwrap();
    let expected: Vec<(String, String)> = vec![
        ("from".to_string(), "2020-01-01T00:00:00Z".to_string()),
        ("to".to_string(), "2020-02-01T00:00:00Z".to_string()),
        ("pageSize".to_string(), "50".to_string()),
        ("type".to_string(), "ORDER_FILL,ORDER_CANCEL".to_string()),
    ];
    assert_eq!(prepared.query, expected);
}

#[test]
fn two_path_parameters_both_substituted() {
    let req = GetPositionRequest::new()
        .with_account_id("001-001-1234567-001".to_string())
        .with_instrument("USD_JPY".to_string());
    let prepared = req.prepare(&client()).unwrap();
    assert_eq!(
        prepared.url,
        "https://api-fxtrade.oanda.com/v3/accounts/001-001-1234567-001/positions/USD_JPY"
    );
}

#[test]
fn base_prices_has_no_path_parameters() {
    let t = parse_rfc3339("2022-01-01T00:00:00Z").unwrap();
    let req = GetBasePricesRequest::new().with_time(t);
    let prepared = req.prepare(&client()).unwrap();
    assert_eq!(prepared.url, "https://api-fxtrade.oanda.com/v3/pricing");
    let expected: Vec<(String, String)> = vec![
        ("time".to_string(), "2022-01-01T00:00:00Z".to_string()),
    ];
    assert_eq!(prepared.query, expected);
}

#[test]
fn service_error_message_text() {
    let e = ApiError::ServiceError { status: 404, body: "not found".to_string() };
    assert_eq!(e.message(), "service failure, status 404: not found");
    let e = ApiError::MissingPathParameter { name: "accountID".to_string() };
    assert_eq!(e.message(), "missing path parameter: accountID");
    let e = ApiError::Transport { message: "connection reset".to_string() };
    assert_eq!(e.message(), "transport failure: connection reset");
    let e = ApiError::Decode { message: "bad json".to_string() };
    assert_eq!(e.message(), "decode failure: bad json");
}
