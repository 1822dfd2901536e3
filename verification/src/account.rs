//! Account-scoped operations: positions, trades, orders, transactions,
//! pricing, account configuration and details.  Each operation is a builder
//! over optional fields, a fixed URL template, and a `prepare` that computes
//! the exact request.

use vstd::prelude::*;

use crate::client::Client;
use crate::decimal::DecimalString;
use crate::errors::ApiError;
use crate::http::{
    opt_bool, opt_decimal, opt_int, opt_json_decimal, opt_json_string, opt_list, opt_text,
    opt_time, opt_view,
    prepare_matches, prepare_request, spec_prepare, HttpMethod, PreparedRequest, QueryValue,
};
use crate::timestamp::Timestamp;

verus! {

/// List all positions for an account.
#[derive(Debug, Clone, PartialEq)]
pub struct ListPositionsRequest {
    /// URL template of the operation.
    pub uri: String,
    /// The authorization bearer token previously obtained by the client.
    pub authorization: Option<String>,
    /// Format of date-time fields in the request and response.
    pub accept_datetime_format: Option<String>,
    /// Account identifier.
    pub account_id: Option<String>,
}

impl ListPositionsRequest {
    pub fn new() -> (r: ListPositionsRequest)
        ensures
            r.uri@ == "/v3/accounts/{accountID}/positions"@,
            r.authorization is None,
            r.accept_datetime_format is None,
            r.account_id is None,
    {
        ListPositionsRequest {
            uri: String::from_str("/v3/accounts/{accountID}/positions"),
            authorization: None,
            accept_datetime_format: None,
            account_id: None,
        }
    }

    pub fn with_uri(self, x: String) -> (r: Self)
        ensures
            r == (ListPositionsRequest { uri: x, ..self }),
    {
        ListPositionsRequest { uri: x, ..self }
    }

    pub fn with_authorization(self, x: String) -> (r: Self)
        ensures
            r == (ListPositionsRequest { authorization: Some(x), ..self }),
    {
        ListPositionsRequest { authorization: Some(x), ..self }
    }

    pub fn with_accept_datetime_format(self, x: String) -> (r: Self)
        ensures
            r == (ListPositionsRequest { accept_datetime_format: Some(x), ..self }),
    {
        ListPositionsRequest { accept_datetime_format: Some(x), ..self }
    }

    pub fn with_account_id(self, x: String) -> (r: Self)
        ensures
            r == (ListPositionsRequest { account_id: Some(x), ..self }),
    {
        ListPositionsRequest { account_id: Some(x), ..self }
    }

    /// The path parameters the URL template draws on.
    pub open spec fn path_fields(self) -> Seq<(Seq<char>, Option<Seq<char>>)> {
        seq![
            ("accountID"@, opt_view(self.account_id)),
        ]
    }

    /// The query fields, in the order they go on the wire.
    pub open spec fn query_fields(self) -> Seq<(Seq<char>, Option<QueryValue>)> {
        Seq::empty()
    }

    /// Computes the exact request this operation sends.
    pub fn prepare(self, client: &Client) -> (r: Result<PreparedRequest, ApiError>)
        ensures
            prepare_matches(
                r,
                spec_prepare(
                    HttpMethod::Get,
                    self.uri@,
                    self.path_fields(),
                    self.query_fields(),
                    None,
                    client.host@,
                    client.authentication@,
                ),
            ),
    {
        let path: Vec<(String, Option<String>)> = vec![
            (String::from_str("accountID"), self.account_id),
        ];
        let query: Vec<(String, Option<QueryValue>)> = Vec::new();
        proof {
            assert(crate::url::params_view(path@) =~= self.path_fields());
            assert(crate::http::query_fields_view(query@) =~= self.query_fields());
        }
        prepare_request(HttpMethod::Get, self.uri.as_str(), path, query, None, client)
    }
}

/// List all open positions for an account.
#[derive(Debug, Clone, PartialEq)]
pub struct ListOpenPositionsRequest {
    /// URL template of the operation.
    pub uri: String,
    /// The authorization bearer token previously obtained by the client.
    pub authorization: Option<String>,
    /// Format of date-time fields in the request and response.
    pub accept_datetime_format: Option<String>,
    /// Account identifier.
    pub account_id: Option<String>,
}

impl ListOpenPositionsRequest {
    pub fn new() -> (r: ListOpenPositionsRequest)
        ensures
            r.uri@ == "/v3/accounts/{accountID}/openPositions"@,
            r.authorization is None,
            r.accept_datetime_format is None,
            r.account_id is None,
    {
        ListOpenPositionsRequest {
            uri: String::from_str("/v3/accounts/{accountID}/openPositions"),
            authorization: None,
            accept_datetime_format: None,
            account_id: None,
        }
    }

    pub fn with_uri(self, x: String) -> (r: Self)
        ensures
            r == (ListOpenPositionsRequest { uri: x, ..self }),
    {
        ListOpenPositionsRequest { uri: x, ..self }
    }

    pub fn with_authorization(self, x: String) -> (r: Self)
        ensures
            r == (ListOpenPositionsRequest { authorization: Some(x), ..self }),
    {
        ListOpenPositionsRequest { authorization: Some(x), ..self }
    }

    pub fn with_accept_datetime_format(self, x: String) -> (r: Self)
        ensures
            r == (ListOpenPositionsRequest { accept_datetime_format: Some(x), ..self }),
    {
        ListOpenPositionsRequest { accept_datetime_format: Some(x), ..self }
    }

    pub fn with_account_id(self, x: String) -> (r: Self)
        ensures
            r == (ListOpenPositionsRequest { account_id: Some(x), ..self }),
    {
        ListOpenPositionsRequest { account_id: Some(x), ..self }
    }

    /// The path parameters the URL template draws on.
    pub open spec fn path_fields(self) -> Seq<(Seq<char>, Option<Seq<char>>)> {
        seq![
            ("accountID"@, opt_view(self.account_id)),
        ]
    }

    /// The query fields, in the order they go on the wire.
    pub open spec fn query_fields(self) -> Seq<(Seq<char>, Option<QueryValue>)> {
        Seq::empty()
    }

    /// Computes the exact request this operation sends.
    pub fn prepare(self, client: &Client) -> (r: Result<PreparedRequest, ApiError>)
        ensures
            prepare_matches(
                r,
                spec_prepare(
                    HttpMethod::Get,
                    self.uri@,
                    self.path_fields(),
                    self.query_fields(),
                    None,
                    client.host@,
                    client.authentication@,
                ),
            ),
    {
        let path: Vec<(String, Option<String>)> = vec![
            (String::from_str("accountID"), self.account_id),
        ];
        let query: Vec<(String, Option<QueryValue>)> = Vec::new();
        proof {
            assert(crate::url::params_view(path@) =~= self.path_fields());
            assert(crate::http::query_fields_view(query@) =~= self.query_fields());
        }
        prepare_request(HttpMethod::Get, self.uri.as_str(), path, query, None, client)
    }
}

/// Get the details of a single instrument's position in an account.
#[derive(Debug, Clone, PartialEq)]
pub struct GetPositionRequest {
    /// URL template of the operation.
    pub uri: String,
    /// The authorization bearer token previously obtained by the client.
    pub authorization: Option<String>,
    /// Format of date-time fields in the request and response.
    pub accept_datetime_format: Option<String>,
    /// Account identifier.
    pub account_id: Option<String>,
    /// Name of the instrument.
    pub instrument: Option<String>,
}

impl GetPositionRequest {
    pub fn new() -> (r: GetPositionRequest)
        ensures
            r.uri@ == "/v3/accounts/{accountID}/positions/{instrument}"@,
            r.authorization is None,
            r.accept_datetime_format is None,
            r.account_id is None,
            r.instrument is None,
    {
        GetPositionRequest {
            uri: String::from_str("/v3/accounts/{accountID}/positions/{instrument}"),
            authorization: None,
            accept_datetime_format: None,
            account_id: None,
            instrument: None,
        }
    }

    pub fn with_uri(self, x: String) -> (r: Self)
        ensures
            r == (GetPositionRequest { uri: x, ..self }),
    {
        GetPositionRequest { uri: x, ..self }
    }

    pub fn with_authorization(self, x: String) -> (r: Self)
        ensures
            r == (GetPositionRequest { authorization: Some(x), ..self }),
    {
        GetPositionRequest { authorization: Some(x), ..self }
    }

    pub fn with_accept_datetime_format(self, x: String) -> (r: Self)
        ensures
            r == (GetPositionRequest { accept_datetime_format: Some(x), ..self }),
    {
        GetPositionRequest { accept_datetime_format: Some(x), ..self }
    }

    pub fn with_account_id(self, x: String) -> (r: Self)
        ensures
            r == (GetPositionRequest { account_id: Some(x), ..self }),
    {
        GetPositionRequest { account_id: Some(x), ..self }
    }

    pub fn with_instrument(self, x: String) -> (r: Self)
        ensures
            r == (GetPositionRequest { instrument: Some(x), ..self }),
    {
        GetPositionRequest { instrument: Some(x), ..self }
    }

    /// The path parameters the URL template draws on.
    pub open spec fn path_fields(self) -> Seq<(Seq<char>, Option<Seq<char>>)> {
        seq![
            ("accountID"@, opt_view(self.account_id)),
            ("instrument"@, opt_view(self.instrument)),
        ]
    }

    /// The query fields, in the order they go on the wire.
    pub open spec fn query_fields(self) -> Seq<(Seq<char>, Option<QueryValue>)> {
        Seq::empty()
    }

    /// Computes the exact request this operation sends.
    pub fn prepare(self, client: &Client) -> (r: Result<PreparedRequest, ApiError>)
        ensures
            prepare_matches(
                r,
                spec_prepare(
                    HttpMethod::Get,
                    self.uri@,
                    self.path_fields(),
                    self.query_fields(),
                    None,
                    client.host@,
                    client.authentication@,
                ),
            ),
    {
        let path: Vec<(String, Option<String>)> = vec![
            (String::from_str("accountID"), self.account_id),
            (String::from_str("instrument"), self.instrument),
        ];
        let query: Vec<(String, Option<QueryValue>)> = Vec::new();
        proof {
            assert(crate::url::params_view(path@) =~= self.path_fields());
            assert(crate::http::query_fields_view(query@) =~= self.query_fields());
        }
        prepare_request(HttpMethod::Get, self.uri.as_str(), path, query, None, client)
    }
}

/// Close out a position on an instrument in an account.
#[derive(Debug, Clone, PartialEq)]
pub struct ClosePositionRequest {
    /// URL template of the operation.
    pub uri: String,
    /// The authorization bearer token previously obtained by the client.
    pub authorization: Option<String>,
    /// Format of date-time fields in the request and response.
    pub accept_datetime_format: Option<String>,
    /// Account identifier.
    pub account_id: Option<String>,
    /// Name of the instrument.
    pub instrument: Option<String>,
    /// How much of the long position to close, as units or `ALL`/`NONE`.
    pub long_units: Option<String>,
    /// Client extensions for the resulting long-close transaction, as JSON text.
    pub long_client_extensions: Option<String>,
    /// How much of the short position to close, as units or `ALL`/`NONE`.
    pub short_units: Option<String>,
    /// Client extensions for the resulting short-close transaction, as JSON text.
    pub short_client_extensions: Option<String>,
}

impl ClosePositionRequest {
    pub fn new() -> (r: ClosePositionRequest)
        ensures
            r.uri@ == "/v3/accounts/{accountID}/positions/{instrument}/close"@,
            r.authorization is None,
            r.accept_datetime_format is None,
            r.account_id is None,
            r.instrument is None,
            r.long_units is None,
            r.long_client_extensions is None,
            r.short_units is None,
            r.short_client_extensions is None,
    {
        ClosePositionRequest {
            uri: String::from_str("/v3/accounts/{accountID}/positions/{instrument}/close"),
            authorization: None,
            accept_datetime_format: None,
            account_id: None,
            instrument: None,
            long_units: None,
            long_client_extensions: None,
            short_units: None,
            short_client_extensions: None,
        }
    }

    pub fn with_uri(self, x: String) -> (r: Self)
        ensures
            r == (ClosePositionRequest { uri: x, ..self }),
    {
        ClosePositionRequest { uri: x, ..self }
    }

    pub fn with_authorization(self, x: String) -> (r: Self)
        ensures
            r == (ClosePositionRequest { authorization: Some(x), ..self }),
    {
        ClosePositionRequest { authorization: Some(x), ..self }
    }

    pub fn with_accept_datetime_format(self, x: String) -> (r: Self)
        ensures
            r == (ClosePositionRequest { accept_datetime_format: Some(x), ..self }),
    {
        ClosePositionRequest { accept_datetime_format: Some(x), ..self }
    }

    pub fn with_account_id(self, x: String) -> (r: Self)
        ensures
            r == (ClosePositionRequest { account_id: Some(x), ..self }),
    {
        ClosePositionRequest { account_id: Some(x), ..self }
    }

    pub fn with_instrument(self, x: String) -> (r: Self)
        ensures
            r == (ClosePositionRequest { instrument: Some(x), ..self }),
    {
        ClosePositionRequest { instrument: Some(x), ..self }
    }

    pub fn with_long_units(self, x: String) -> (r: Self)
        ensures
            r == (ClosePositionRequest { long_units: Some(x), ..self }),
    {
        ClosePositionRequest { long_units: Some(x), ..self }
    }

    pub fn with_long_client_extensions(self, x: String) -> (r: Self)
        ensures
            r == (ClosePositionRequest { long_client_extensions: Some(x), ..self }),
    {
        ClosePositionRequest { long_client_extensions: Some(x), ..self }
    }

    pub fn with_short_units(self, x: String) -> (r: Self)
        ensures
            r == (ClosePositionRequest { short_units: Some(x), ..self }),
    {
        ClosePositionRequest { short_units: Some(x), ..self }
    }

    pub fn with_short_client_extensions(self, x: String) -> (r: Self)
        ensures
            r == (ClosePositionRequest { short_client_extensions: Some(x), ..self }),
    {
        ClosePositionRequest { short_client_extensions: Some(x), ..self }
    }

    /// The path parameters the URL template draws on.
    pub open spec fn path_fields(self) -> Seq<(Seq<char>, Option<Seq<char>>)> {
        seq![
            ("accountID"@, opt_view(self.account_id)),
            ("instrument"@, opt_view(self.instrument)),
        ]
    }

    /// The query fields, in the order they go on the wire.
    pub open spec fn query_fields(self) -> Seq<(Seq<char>, Option<QueryValue>)> {
        Seq::empty()
    }

    /// The body fields, each as rendered JSON text.
    pub open spec fn body_fields(self) -> Seq<(Seq<char>, Option<Seq<char>>)> {
        seq![
            ("longUnits"@, opt_json_string(self.long_units)),
            ("longClientExtensions"@, opt_view(self.long_client_extensions)),
            ("shortUnits"@, opt_json_string(self.short_units)),
            ("shortClientExtensions"@, opt_view(self.short_client_extensions)),
        ]
    }

    /// Computes the exact request this operation sends.
    pub fn prepare(self, client: &Client) -> (r: Result<PreparedRequest, ApiError>)
        ensures
            prepare_matches(
                r,
                spec_prepare(
                    HttpMethod::Put,
                    self.uri@,
                    self.path_fields(),
                    self.query_fields(),
                    Some(self.body_fields()),
                    client.host@,
                    client.authentication@,
                ),
            ),
    {
        let path: Vec<(String, Option<String>)> = vec![
            (String::from_str("accountID"), self.account_id),
            (String::from_str("instrument"), self.instrument),
        ];
        let query: Vec<(String, Option<QueryValue>)> = Vec::new();
        let body: Vec<(String, Option<String>)> = vec![
            (String::from_str("longUnits"), crate::http::body_string(self.long_units)),
            (String::from_str("longClientExtensions"), self.long_client_extensions),
            (String::from_str("shortUnits"), crate::http::body_string(self.short_units)),
            (String::from_str("shortClientExtensions"), self.short_client_extensions),
        ];
        proof {
            assert(crate::url::params_view(path@) =~= self.path_fields());
            assert(crate::http::query_fields_view(query@) =~= self.query_fields());
            assert(crate::url::params_view(body@) =~= self.body_fields());
        }
        prepare_request(HttpMethod::Put, self.uri.as_str(), path, query, Some(body), client)
    }
}

/// Get a list of trades for an account.
#[derive(Debug, Clone, PartialEq)]
pub struct ListTradesRequest {
    /// URL template of the operation.
    pub uri: String,
    /// The authorization bearer token previously obtained by the client.
    pub authorization: Option<String>,
    /// Format of date-time fields in the request and response.
    pub accept_datetime_format: Option<String>,
    /// Account identifier.
    pub account_id: Option<String>,
    /// List of identifiers to retrieve.
    pub ids: Option<Vec<String>>,
    /// The state to filter by.
    pub state: Option<String>,
    /// The `instrument` query parameter.
    pub instrument: Option<String>,
    /// The maximum number of items to return.
    pub count: Option<i32>,
    /// The maximum identifier to return.
    pub before_id: Option<String>,
}

impl ListTradesRequest {
    pub fn new() -> (r: ListTradesRequest)
        ensures
            r.uri@ == "/v3/accounts/{accountID}/trades"@,
            r.authorization is None,
            r.accept_datetime_format is None,
            r.account_id is None,
            r.ids is None,
            r.state is None,
            r.instrument is None,
            r.count is None,
            r.before_id is None,
    {
        ListTradesRequest {
            uri: String::from_str("/v3/accounts/{accountID}/trades"),
            authorization: None,
            accept_datetime_format: None,
            account_id: None,
            ids: None,
            state: None,
            instrument: None,
            count: None,
            before_id: None,
        }
    }

    pub fn with_uri(self, x: String) -> (r: Self)
        ensures
            r == (ListTradesRequest { uri: x, ..self }),
    {
        ListTradesRequest { uri: x, ..self }
    }

    pub fn with_authorization(self, x: String) -> (r: Self)
        ensures
            r == (ListTradesRequest { authorization: Some(x), ..self }),
    {
        ListTradesRequest { authorization: Some(x), ..self }
    }

    pub fn with_accept_datetime_format(self, x: String) -> (r: Self)
        ensures
            r == (ListTradesRequest { accept_datetime_format: Some(x), ..self }),
    {
        ListTradesRequest { accept_datetime_format: Some(x), ..self }
    }

    pub fn with_account_id(self, x: String) -> (r: Self)
        ensures
            r == (ListTradesRequest { account_id: Some(x), ..self }),
    {
        ListTradesRequest { account_id: Some(x), ..self }
    }

    pub fn with_ids(self, x: Vec<String>) -> (r: Self)
        ensures
            r == (ListTradesRequest { ids: Some(x), ..self }),
    {
        ListTradesRequest { ids: Some(x), ..self }
    }

    pub fn with_state(self, x: String) -> (r: Self)
        ensures
            r == (ListTradesRequest { state: Some(x), ..self }),
    {
        ListTradesRequest { state: Some(x), ..self }
    }

    pub fn with_instrument(self, x: String) -> (r: Self)
        ensures
            r == (ListTradesRequest { instrument: Some(x), ..self }),
    {
        ListTradesRequest { instrument: Some(x), ..self }
    }

    pub fn with_count(self, x: i32) -> (r: Self)
        ensures
            r == (ListTradesRequest { count: Some(x), ..self }),
    {
        ListTradesRequest { count: Some(x), ..self }
    }

    pub fn with_before_id(self, x: String) -> (r: Self)
        ensures
            r == (ListTradesRequest { before_id: Some(x), ..self }),
    {
        ListTradesRequest { before_id: Some(x), ..self }
    }

    /// The path parameters the URL template draws on.
    pub open spec fn path_fields(self) -> Seq<(Seq<char>, Option<Seq<char>>)> {
        seq![
            ("accountID"@, opt_view(self.account_id)),
        ]
    }

    /// The query fields, in the order they go on the wire.
    pub open spec fn query_fields(self) -> Seq<(Seq<char>, Option<QueryValue>)> {
        seq![
            ("ids"@, opt_list(self.ids)),
            ("state"@, opt_text(self.state)),
            ("instrument"@, opt_text(self.instrument)),
            ("count"@, opt_int(self.count)),
            ("beforeID"@, opt_text(self.before_id)),
        ]
    }

    /// Computes the exact request this operation sends.
    pub fn prepare(self, client: &Client) -> (r: Result<PreparedRequest, ApiError>)
        ensures
            prepare_matches(
                r,
                spec_prepare(
                    HttpMethod::Get,
                    self.uri@,
                    self.path_fields(),
                    self.query_fields(),
                    None,
                    client.host@,
                    client.authentication@,
                ),
            ),
    {
        let path: Vec<(String, Option<String>)> = vec![
            (String::from_str("accountID"), self.account_id),
        ];
        let query: Vec<(String, Option<QueryValue>)> = vec![
            (
                String::from_str("ids"),
                match self.ids {
                    Some(v) => Some(QueryValue::List(v)),
                    None => None,
                },
            ),
            (
                String::from_str("state"),
                match self.state {
                    Some(v) => Some(QueryValue::Text(v)),
                    None => None,
                },
            ),
            (
                String::from_str("instrument"),
                match self.instrument {
                    Some(v) => Some(QueryValue::Text(v)),
                    None => None,
                },
            ),
            (
                String::from_str("count"),
                match self.count {
                    Some(v) => Some(QueryValue::Int(v)),
                    None => None,
                },
            ),
            (
                String::from_str("beforeID"),
                match self.before_id {
                    Some(v) => Some(QueryValue::Text(v)),
                    None => None,
                },
            ),
        ];
        proof {
            assert(crate::url::params_view(path@) =~= self.path_fields());
            assert(crate::http::query_fields_view(query@) =~= self.query_fields());
        }
        prepare_request(HttpMethod::Get, self.uri.as_str(), path, query, None, client)
    }
}

/// Get the list of open trades for an account.
#[derive(Debug, Clone, PartialEq)]
pub struct ListOpenTradesRequest {
    /// URL template of the operation.
    pub uri: String,
    /// The authorization bearer token previously obtained by the client.
    pub authorization: Option<String>,
    /// Format of date-time fields in the request and response.
    pub accept_datetime_format: Option<String>,
    /// Account identifier.
    pub account_id: Option<String>,
}

impl ListOpenTradesRequest {
    pub fn new() -> (r: ListOpenTradesRequest)
        ensures
            r.uri@ == "/v3/accounts/{accountID}/openTrades"@,
            r.authorization is None,
            r.accept_datetime_format is None,
            r.account_id is None,
    {
        ListOpenTradesRequest {
            uri: String::from_str("/v3/accounts/{accountID}/openTrades"),
            authorization: None,
            accept_datetime_format: None,
            account_id: None,
        }
    }

    pub fn with_uri(self, x: String) -> (r: Self)
        ensures
            r == (ListOpenTradesRequest { uri: x, ..self }),
    {
        ListOpenTradesRequest { uri: x, ..self }
    }

    pub fn with_authorization(self, x: String) -> (r: Self)
        ensures
            r == (ListOpenTradesRequest { authorization: Some(x), ..self }),
    {
        ListOpenTradesRequest { authorization: Some(x), ..self }
    }

    pub fn with_accept_datetime_format(self, x: String) -> (r: Self)
        ensures
            r == (ListOpenTradesRequest { accept_datetime_format: Some(x), ..self }),
    {
        ListOpenTradesRequest { accept_datetime_format: Some(x), ..self }
    }

    pub fn with_account_id(self, x: String) -> (r: Self)
        ensures
            r == (ListOpenTradesRequest { account_id: Some(x), ..self }),
    {
        ListOpenTradesRequest { account_id: Some(x), ..self }
    }

    /// The path parameters the URL template draws on.
    pub open spec fn path_fields(self) -> Seq<(Seq<char>, Option<Seq<char>>)> {
        seq![
            ("accountID"@, opt_view(self.account_id)),
        ]
    }

    /// The query fields, in the order they go on the wire.
    pub open spec fn query_fields(self) -> Seq<(Seq<char>, Option<QueryValue>)> {
        Seq::empty()
    }

    /// Computes the exact request this operation sends.
    pub fn prepare(self, client: &Client) -> (r: Result<PreparedRequest, ApiError>)
        ensures
            prepare_matches(
                r,
                spec_prepare(
                    HttpMethod::Get,
                    self.uri@,
                    self.path_fields(),
                    self.query_fields(),
                    None,
                    client.host@,
                    client.authentication@,
                ),
            ),
    {
        let path: Vec<(String, Option<String>)> = vec![
            (String::from_str("accountID"), self.account_id),
        ];
        let query: Vec<(String, Option<QueryValue>)> = Vec::new();
        proof {
            assert(crate::url::params_view(path@) =~= self.path_fields());
            assert(crate::http::query_fields_view(query@) =~= self.query_fields());
        }
        prepare_request(HttpMethod::Get, self.uri.as_str(), path, query, None, client)
    }
}

/// Get the details of a specific trade in an account.
#[derive(Debug, Clone, PartialEq)]
pub struct GetTradeRequest {
    /// URL template of the operation.
    pub uri: String,
    /// The authorization bearer token previously obtained by the client.
    pub authorization: Option<String>,
    /// Format of date-time fields in the request and response.
    pub accept_datetime_format: Option<String>,
    /// Account identifier.
    pub account_id: Option<String>,
    /// Specifier for the trade.
    pub trade_specifier: Option<String>,
}

impl GetTradeRequest {
    pub fn new() -> (r: GetTradeRequest)
        ensures
            r.uri@ == "/v3/accounts/{accountID}/trades/{tradeSpecifier}"@,
            r.authorization is None,
            r.accept_datetime_format is None,
            r.account_id is None,
            r.trade_specifier is None,
    {
        GetTradeRequest {
            uri: String::from_str("/v3/accounts/{accountID}/trades/{tradeSpecifier}"),
            authorization: None,
            accept_datetime_format: None,
            account_id: None,
            trade_specifier: None,
        }
    }

    pub fn with_uri(self, x: String) -> (r: Self)
        ensures
            r == (GetTradeRequest { uri: x, ..self }),
    {
        GetTradeRequest { uri: x, ..self }
    }

    pub fn with_authorization(self, x: String) -> (r: Self)
        ensures
            r == (GetTradeRequest { authorization: Some(x), ..self }),
    {
        GetTradeRequest { authorization: Some(x), ..self }
    }

    pub fn with_accept_datetime_format(self, x: String) -> (r: Self)
        ensures
            r == (GetTradeRequest { accept_datetime_format: Some(x), ..self }),
    {
        GetTradeRequest { accept_datetime_format: Some(x), ..self }
    }

    pub fn with_account_id(self, x: String) -> (r: Self)
        ensures
            r == (GetTradeRequest { account_id: Some(x), ..self }),
    {
        GetTradeRequest { account_id: Some(x), ..self }
    }

    pub fn with_trade_specifier(self, x: String) -> (r: Self)
        ensures
            r == (GetTradeRequest { trade_specifier: Some(x), ..self }),
    {
        GetTradeRequest { trade_specifier: Some(x), ..self }
    }

    /// The path parameters the URL template draws on.
    pub open spec fn path_fields(self) -> Seq<(Seq<char>, Option<Seq<char>>)> {
        seq![
            ("accountID"@, opt_view(self.account_id)),
            ("tradeSpecifier"@, opt_view(self.trade_specifier)),
        ]
    }

    /// The query fields, in the order they go on the wire.
    pub open spec fn query_fields(self) -> Seq<(Seq<char>, Option<QueryValue>)> {
        Seq::empty()
    }

    /// Computes the exact request this operation sends.
    pub fn prepare(self, client: &Client) -> (r: Result<PreparedRequest, ApiError>)
        ensures
            prepare_matches(
                r,
                spec_prepare(
                    HttpMethod::Get,
                    self.uri@,
                    self.path_fields(),
                    self.query_fields(),
                    None,
                    client.host@,
                    client.authentication@,
                ),
            ),
    {
        let path: Vec<(String, Option<String>)> = vec![
            (String::from_str("accountID"), self.account_id),
            (String::from_str("tradeSpecifier"), self.trade_specifier),
        ];
        let query: Vec<(String, Option<QueryValue>)> = Vec::new();
        proof {
            assert(crate::url::params_view(path@) =~= self.path_fields());
            assert(crate::http::query_fields_view(query@) =~= self.query_fields());
        }
        prepare_request(HttpMethod::Get, self.uri.as_str(), path, query, None, client)
    }
}

/// Close, partially or fully, a specific open trade in an account.
#[derive(Debug, Clone, PartialEq)]
pub struct CloseTradeRequest {
    /// URL template of the operation.
    pub uri: String,
    /// The authorization bearer token previously obtained by the client.
    pub authorization: Option<String>,
    /// Format of date-time fields in the request and response.
    pub accept_datetime_format: Option<String>,
    /// Account identifier.
    pub account_id: Option<String>,
    /// Specifier for the trade.
    pub trade_specifier: Option<String>,
    /// The number of units.
    pub units: Option<String>,
}

impl CloseTradeRequest {
    pub fn new() -> (r: CloseTradeRequest)
        ensures
            r.uri@ == "/v3/accounts/{accountID}/trades/{tradeSpecifier}/close"@,
            r.authorization is None,
            r.accept_datetime_format is None,
            r.account_id is None,
            r.trade_specifier is None,
            r.units is None,
    {
        CloseTradeRequest {
            uri: String::from_str("/v3/accounts/{accountID}/trades/{tradeSpecifier}/close"),
            authorization: None,
            accept_datetime_format: None,
            account_id: None,
            trade_specifier: None,
            units: None,
        }
    }

    pub fn with_uri(self, x: String) -> (r: Self)
        ensures
            r == (CloseTradeRequest { uri: x, ..self }),
    {
        CloseTradeRequest { uri: x, ..self }
    }

    pub fn with_authorization(self, x: String) -> (r: Self)
        ensures
            r == (CloseTradeRequest { authorization: Some(x), ..self }),
    {
        CloseTradeRequest { authorization: Some(x), ..self }
    }

    pub fn with_accept_datetime_format(self, x: String) -> (r: Self)
        ensures
            r == (CloseTradeRequest { accept_datetime_format: Some(x), ..self }),
    {
        CloseTradeRequest { accept_datetime_format: Some(x), ..self }
    }

    pub fn with_account_id(self, x: String) -> (r: Self)
        ensures
            r == (CloseTradeRequest { account_id: Some(x), ..self }),
    {
        CloseTradeRequest { account_id: Some(x), ..self }
    }

    pub fn with_trade_specifier(self, x: String) -> (r: Self)
        ensures
            r == (CloseTradeRequest { trade_specifier: Some(x), ..self }),
    {
        CloseTradeRequest { trade_specifier: Some(x), ..self }
    }

    pub fn with_units(self, x: String) -> (r: Self)
        ensures
            r == (CloseTradeRequest { units: Some(x), ..self }),
    {
        CloseTradeRequest { units: Some(x), ..self }
    }

    /// The path parameters the URL template draws on.
    pub open spec fn path_fields(self) -> Seq<(Seq<char>, Option<Seq<char>>)> {
        seq![
            ("accountID"@, opt_view(self.account_id)),
            ("tradeSpecifier"@, opt_view(self.trade_specifier)),
        ]
    }

    /// The query fields, in the order they go on the wire.
    pub open spec fn query_fields(self) -> Seq<(Seq<char>, Option<QueryValue>)> {
        Seq::empty()
    }

    /// The body fields, each as rendered JSON text.
    pub open spec fn body_fields(self) -> Seq<(Seq<char>, Option<Seq<char>>)> {
        seq![
            ("units"@, opt_json_string(self.units)),
        ]
    }

    /// Computes the exact request this operation sends.
    pub fn prepare(self, client: &Client) -> (r: Result<PreparedRequest, ApiError>)
        ensures
            prepare_matches(
                r,
                spec_prepare(
                    HttpMethod::Put,
                    self.uri@,
                    self.path_fields(),
                    self.query_fields(),
                    Some(self.body_fields()),
                    client.host@,
                    client.authentication@,
                ),
            ),
    {
        let path: Vec<(String, Option<String>)> = vec![
            (String::from_str("accountID"), self.account_id),
            (String::from_str("tradeSpecifier"), self.trade_specifier),
        ];
        let query: Vec<(String, Option<QueryValue>)> = Vec::new();
        let body: Vec<(String, Option<String>)> = vec![
            (String::from_str("units"), crate::http::body_string(self.units)),
        ];
        proof {
            assert(crate::url::params_view(path@) =~= self.path_fields());
            assert(crate::http::query_fields_view(query@) =~= self.query_fields());
            assert(crate::url::params_view(body@) =~= self.body_fields());
        }
        prepare_request(HttpMethod::Put, self.uri.as_str(), path, query, Some(body), client)
    }
}

/// Update the client extensions for a trade.
#[derive(Debug, Clone, PartialEq)]
pub struct SetTradeClientExtensionsRequest {
    /// URL template of the operation.
    pub uri: String,
    /// The authorization bearer token previously obtained by the client.
    pub authorization: Option<String>,
    /// Format of date-time fields in the request and response.
    pub accept_datetime_format: Option<String>,
    /// Account identifier.
    pub account_id: Option<String>,
    /// Specifier for the trade.
    pub trade_specifier: Option<String>,
    /// The client extensions, as JSON text.
    pub client_extensions: Option<String>,
}

impl SetTradeClientExtensionsRequest {
    pub fn new() -> (r: SetTradeClientExtensionsRequest)
        ensures
            r.uri@ == "/v3/accounts/{accountID}/trades/{tradeSpecifier}/clientExtensions"@,
            r.authorization is None,
            r.accept_datetime_format is None,
            r.account_id is None,
            r.trade_specifier is None,
            r.client_extensions is None,
    {
        SetTradeClientExtensionsRequest {
            uri: String::from_str("/v3/accounts/{accountID}/trades/{tradeSpecifier}/clientExtensions"),
            authorization: None,
            accept_datetime_format: None,
            account_id: None,
            trade_specifier: None,
            client_extensions: None,
        }
    }

    pub fn with_uri(self, x: String) -> (r: Self)
        ensures
            r == (SetTradeClientExtensionsRequest { uri: x, ..self }),
    {
        SetTradeClientExtensionsRequest { uri: x, ..self }
    }

    pub fn with_authorization(self, x: String) -> (r: Self)
        ensures
            r == (SetTradeClientExtensionsRequest { authorization: Some(x), ..self }),
    {
        SetTradeClientExtensionsRequest { authorization: Some(x), ..self }
    }

    pub fn with_accept_datetime_format(self, x: String) -> (r: Self)
        ensures
            r == (SetTradeClientExtensionsRequest { accept_datetime_format: Some(x), ..self }),
    {
        SetTradeClientExtensionsRequest { accept_datetime_format: Some(x), ..self }
    }

    pub fn with_account_id(self, x: String) -> (r: Self)
        ensures
            r == (SetTradeClientExtensionsRequest { account_id: Some(x), ..self }),
    {
        SetTradeClientExtensionsRequest { account_id: Some(x), ..self }
    }

    pub fn with_trade_specifier(self, x: String) -> (r: Self)
        ensures
            r == (SetTradeClientExtensionsRequest { trade_specifier: Some(x), ..self }),
    {
        SetTradeClientExtensionsRequest { trade_specifier: Some(x), ..self }
    }

    pub fn with_client_extensions(self, x: String) -> (r: Self)
        ensures
            r == (SetTradeClientExtensionsRequest { client_extensions: Some(x), ..self }),
    {
        SetTradeClientExtensionsRequest { client_extensions: Some(x), ..self }
    }

    /// The path parameters the URL template draws on.
    pub open spec fn path_fields(self) -> Seq<(Seq<char>, Option<Seq<char>>)> {
        seq![
            ("accountID"@, opt_view(self.account_id)),
            ("tradeSpecifier"@, opt_view(self.trade_specifier)),
        ]
    }

    /// The query fields, in the order they go on the wire.
    pub open spec fn query_fields(self) -> Seq<(Seq<char>, Option<QueryValue>)> {
        Seq::empty()
    }

    /// The body fields, each as rendered JSON text.
    pub open spec fn body_fields(self) -> Seq<(Seq<char>, Option<Seq<char>>)> {
        seq![
            ("clientExtensions"@, opt_view(self.client_extensions)),
        ]
    }

    /// Computes the exact request this operation sends.
    pub fn prepare(self, client: &Client) -> (r: Result<PreparedRequest, ApiError>)
        ensures
            prepare_matches(
                r,
                spec_prepare(
                    HttpMethod::Put,
                    self.uri@,
                    self.path_fields(),
                    self.query_fields(),
                    Some(self.body_fields()),
                    client.host@,
                    client.authentication@,
                ),
            ),
    {
        let path: Vec<(String, Option<String>)> = vec![
            (String::from_str("accountID"), self.account_id),
            (String::from_str("tradeSpecifier"), self.trade_specifier),
        ];
        let query: Vec<(String, Option<QueryValue>)> = Vec::new();
        let body: Vec<(String, Option<String>)> = vec![
            (String::from_str("clientExtensions"), self.client_extensions),
        ];
        proof {
            assert(crate::url::params_view(path@) =~= self.path_fields());
            assert(crate::http::query_fields_view(query@) =~= self.query_fields());
            assert(crate::url::params_view(body@) =~= self.body_fields());
        }
        prepare_request(HttpMethod::Put, self.uri.as_str(), path, query, Some(body), client)
    }
}

/// Create, replace and cancel a trade's dependent orders.
#[derive(Debug, Clone, PartialEq)]
pub struct SetTradeDependentOrdersRequest {
    /// URL template of the operation.
    pub uri: String,
    /// The authorization bearer token previously obtained by the client.
    pub authorization: Option<String>,
    /// Format of date-time fields in the request and response.
    pub accept_datetime_format: Option<String>,
    /// Account identifier.
    pub account_id: Option<String>,
    /// Specifier for the trade.
    pub trade_specifier: Option<String>,
    /// The specification of the take-profit to create, as JSON text.
    pub take_profit: Option<String>,
    /// The specification of the stop-loss to create, as JSON text.
    pub stop_loss: Option<String>,
    /// The specification of the trailing stop-loss to create, as JSON text.
    pub trailing_stop_loss: Option<String>,
}

impl SetTradeDependentOrdersRequest {
    pub fn new() -> (r: SetTradeDependentOrdersRequest)
        ensures
            r.uri@ == "/v3/accounts/{accountID}/trades/{tradeSpecifier}/orders"@,
            r.authorization is None,
            r.accept_datetime_format is None,
            r.account_id is None,
            r.trade_specifier is None,
            r.take_profit is None,
            r.stop_loss is None,
            r.trailing_stop_loss is None,
    {
        SetTradeDependentOrdersRequest {
            uri: String::from_str("/v3/accounts/{accountID}/trades/{tradeSpecifier}/orders"),
            authorization: None,
            accept_datetime_format: None,
            account_id: None,
            trade_specifier: None,
            take_profit: None,
            stop_loss: None,
            trailing_stop_loss: None,
        }
    }

    pub fn with_uri(self, x: String) -> (r: Self)
        ensures
            r == (SetTradeDependentOrdersRequest { uri: x, ..self }),
    {
        SetTradeDependentOrdersRequest { uri: x, ..self }
    }

    pub fn with_authorization(self, x: String) -> (r: Self)
        ensures
            r == (SetTradeDependentOrdersRequest { authorization: Some(x), ..self }),
    {
        SetTradeDependentOrdersRequest { authorization: Some(x), ..self }
    }

    pub fn with_accept_datetime_format(self, x: String) -> (r: Self)
        ensures
            r == (SetTradeDependentOrdersRequest { accept_datetime_format: Some(x), ..self }),
    {
        SetTradeDependentOrdersRequest { accept_datetime_format: Some(x), ..self }
    }

    pub fn with_account_id(self, x: String) -> (r: Self)
        ensures
            r == (SetTradeDependentOrdersRequest { account_id: Some(x), ..self }),
    {
        SetTradeDependentOrdersRequest { account_id: Some(x), ..self }
    }

    pub fn with_trade_specifier(self, x: String) -> (r: Self)
        ensures
            r == (SetTradeDependentOrdersRequest { trade_specifier: Some(x), ..self }),
    {
        SetTradeDependentOrdersRequest { trade_specifier: Some(x), ..self }
    }

    pub fn with_take_profit(self, x: String) -> (r: Self)
        ensures
            r == (SetTradeDependentOrdersRequest { take_profit: Some(x), ..self }),
    {
        SetTradeDependentOrdersRequest { take_profit: Some(x), ..self }
    }

    pub fn with_stop_loss(self, x: String) -> (r: Self)
        ensures
            r == (SetTradeDependentOrdersRequest { stop_loss: Some(x), ..self }),
    {
        SetTradeDependentOrdersRequest { stop_loss: Some(x), ..self }
    }

    pub fn with_trailing_stop_loss(self, x: String) -> (r: Self)
        ensures
            r == (SetTradeDependentOrdersRequest { trailing_stop_loss: Some(x), ..self }),
    {
        SetTradeDependentOrdersRequest { trailing_stop_loss: Some(x), ..self }
    }

    /// The path parameters the URL template draws on.
    pub open spec fn path_fields(self) -> Seq<(Seq<char>, Option<Seq<char>>)> {
        seq![
            ("accountID"@, opt_view(self.account_id)),
            ("tradeSpecifier"@, opt_view(self.trade_specifier)),
        ]
    }

    /// The query fields, in the order they go on the wire.
    pub open spec fn query_fields(self) -> Seq<(Seq<char>, Option<QueryValue>)> {
        Seq::empty()
    }

    /// The body fields, each as rendered JSON text.
    pub open spec fn body_fields(self) -> Seq<(Seq<char>, Option<Seq<char>>)> {
        seq![
            ("takeProfit"@, opt_view(self.take_profit)),
            ("stopLoss"@, opt_view(self.stop_loss)),
            ("trailingStopLoss"@, opt_view(self.trailing_stop_loss)),
        ]
    }

    /// Computes the exact request this operation sends.
    pub fn prepare(self, client: &Client) -> (r: Result<PreparedRequest, ApiError>)
        ensures
            prepare_matches(
                r,
                spec_prepare(
                    HttpMethod::Put,
                    self.uri@,
                    self.path_fields(),
                    self.query_fields(),
                    Some(self.body_fields()),
                    client.host@,
                    client.authentication@,
                ),
            ),
    {
        let path: Vec<(String, Option<String>)> = vec![
            (String::from_str("accountID"), self.account_id),
            (String::from_str("tradeSpecifier"), self.trade_specifier),
        ];
        let query: Vec<(String, Option<QueryValue>)> = Vec::new();
        let body: Vec<(String, Option<String>)> = vec![
            (String::from_str("takeProfit"), self.take_profit),
            (String::from_str("stopLoss"), self.stop_loss),
            (String::from_str("trailingStopLoss"), self.trailing_stop_loss),
        ];
        proof {
            assert(crate::url::params_view(path@) =~= self.path_fields());
            assert(crate::http::query_fields_view(query@) =~= self.query_fields());
            assert(crate::url::params_view(body@) =~= self.body_fields());
        }
        prepare_request(HttpMethod::Put, self.uri.as_str(), path, query, Some(body), client)
    }
}

/// Get a list of all accounts authorized for the provided token.
#[derive(Debug, Clone, PartialEq)]
pub struct ListAccountsRequest {
    /// URL template of the operation.
    pub uri: String,
    /// The authorization bearer token previously obtained by the client.
    pub authorization: Option<String>,
    /// Format of date-time fields in the request and response.
    pub accept_datetime_format: Option<String>,
}

impl ListAccountsRequest {
    pub fn new() -> (r: ListAccountsRequest)
        ensures
            r.uri@ == "/v3/accounts"@,
            r.authorization is None,
            r.accept_datetime_format is None,
    {
        ListAccountsRequest {
            uri: String::from_str("/v3/accounts"),
            authorization: None,
            accept_datetime_format: None,
        }
    }

    pub fn with_uri(self, x: String) -> (r: Self)
        ensures
            r == (ListAccountsRequest { uri: x, ..self }),
    {
        ListAccountsRequest { uri: x, ..self }
    }

    pub fn with_authorization(self, x: String) -> (r: Self)
        ensures
            r == (ListAccountsRequest { authorization: Some(x), ..self }),
    {
        ListAccountsRequest { authorization: Some(x), ..self }
    }

    pub fn with_accept_datetime_format(self, x: String) -> (r: Self)
        ensures
            r == (ListAccountsRequest { accept_datetime_format: Some(x), ..self }),
    {
        ListAccountsRequest { accept_datetime_format: Some(x), ..self }
    }

    /// The path parameters the URL template draws on.
    pub open spec fn path_fields(self) -> Seq<(Seq<char>, Option<Seq<char>>)> {
        Seq::empty()
    }

    /// The query fields, in the order they go on the wire.
    pub open spec fn query_fields(self) -> Seq<(Seq<char>, Option<QueryValue>)> {
        Seq::empty()
    }

    /// Computes the exact request this operation sends.
    pub fn prepare(self, client: &Client) -> (r: Result<PreparedRequest, ApiError>)
        ensures
            prepare_matches(
                r,
                spec_prepare(
                    HttpMethod::Get,
                    self.uri@,
                    self.path_fields(),
                    self.query_fields(),
                    None,
                    client.host@,
                    client.authentication@,
                ),
            ),
    {
        let path: Vec<(String, Option<String>)> = Vec::new();
        let query: Vec<(String, Option<QueryValue>)> = Vec::new();
        proof {
            assert(crate::url::params_view(path@) =~= self.path_fields());
            assert(crate::http::query_fields_view(query@) =~= self.query_fields());
        }
        prepare_request(HttpMethod::Get, self.uri.as_str(), path, query, None, client)
    }
}

/// Get the full details for a single account.
#[derive(Debug, Clone, PartialEq)]
pub struct GetAccountRequest {
    /// URL template of the operation.
    pub uri: String,
    /// The authorization bearer token previously obtained by the client.
    pub authorization: Option<String>,
    /// Format of date-time fields in the request and response.
    pub accept_datetime_format: Option<String>,
    /// Account identifier.
    pub account_id: Option<String>,
}

impl GetAccountRequest {
    pub fn new() -> (r: GetAccountRequest)
        ensures
            r.uri@ == "/v3/accounts/{accountID}"@,
            r.authorization is None,
            r.accept_datetime_format is None,
            r.account_id is None,
    {
        GetAccountRequest {
            uri: String::from_str("/v3/accounts/{accountID}"),
            authorization: None,
            accept_datetime_format: None,
            account_id: None,
        }
    }

    pub fn with_uri(self, x: String) -> (r: Self)
        ensures
            r == (GetAccountRequest { uri: x, ..self }),
    {
        GetAccountRequest { uri: x, ..self }
    }

    pub fn with_authorization(self, x: String) -> (r: Self)
        ensures
            r == (GetAccountRequest { authorization: Some(x), ..self }),
    {
        GetAccountRequest { authorization: Some(x), ..self }
    }

    pub fn with_accept_datetime_format(self, x: String) -> (r: Self)
        ensures
            r == (GetAccountRequest { accept_datetime_format: Some(x), ..self }),
    {
        GetAccountRequest { accept_datetime_format: Some(x), ..self }
    }

    pub fn with_account_id(self, x: String) -> (r: Self)
        ensures
            r == (GetAccountRequest { account_id: Some(x), ..self }),
    {
        GetAccountRequest { account_id: Some(x), ..self }
    }

    /// The path parameters the URL template draws on.
    pub open spec fn path_fields(self) -> Seq<(Seq<char>, Option<Seq<char>>)> {
        seq![
            ("accountID"@, opt_view(self.account_id)),
        ]
    }

    /// The query fields, in the order they go on the wire.
    pub open spec fn query_fields(self) -> Seq<(Seq<char>, Option<QueryValue>)> {
        Seq::empty()
    }

    /// Computes the exact request this operation sends.
    pub fn prepare(self, client: &Client) -> (r: Result<PreparedRequest, ApiError>)
        ensures
            prepare_matches(
                r,
                spec_prepare(
                    HttpMethod::Get,
                    self.uri@,
                    self.path_fields(),
                    self.query_fields(),
                    None,
                    client.host@,
                    client.authentication@,
                ),
            ),
    {
        let path: Vec<(String, Option<String>)> = vec![
            (String::from_str("accountID"), self.account_id),
        ];
        let query: Vec<(String, Option<QueryValue>)> = Vec::new();
        proof {
            assert(crate::url::params_view(path@) =~= self.path_fields());
            assert(crate::http::query_fields_view(query@) =~= self.query_fields());
        }
        prepare_request(HttpMethod::Get, self.uri.as_str(), path, query, None, client)
    }
}

/// Get a summary for a single account.
#[derive(Debug, Clone, PartialEq)]
pub struct GetAccountSummaryRequest {
    /// URL template of the operation.
    pub uri: String,
    /// The authorization bearer token previously obtained by the client.
    pub authorization: Option<String>,
    /// Format of date-time fields in the request and response.
    pub accept_datetime_format: Option<String>,
    /// Account identifier.
    pub account_id: Option<String>,
}

impl GetAccountSummaryRequest {
    pub fn new() -> (r: GetAccountSummaryRequest)
        ensures
            r.uri@ == "/v3/accounts/{accountID}/summary"@,
            r.authorization is None,
            r.accept_datetime_format is None,
            r.account_id is None,
    {
        GetAccountSummaryRequest {
            uri: String::from_str("/v3/accounts/{accountID}/summary"),
            authorization: None,
            accept_datetime_format: None,
            account_id: None,
        }
    }

    pub fn with_uri(self, x: String) -> (r: Self)
        ensures
            r == (GetAccountSummaryRequest { uri: x, ..self }),
    {
        GetAccountSummaryRequest { uri: x, ..self }
    }

    pub fn with_authorization(self, x: String) -> (r: Self)
        ensures
            r == (GetAccountSummaryRequest { authorization: Some(x), ..self }),
    {
        GetAccountSummaryRequest { authorization: Some(x), ..self }
    }

    pub fn with_accept_datetime_format(self, x: String) -> (r: Self)
        ensures
            r == (GetAccountSummaryRequest { accept_datetime_format: Some(x), ..self }),
    {
        GetAccountSummaryRequest { accept_datetime_format: Some(x), ..self }
    }

    pub fn with_account_id(self, x: String) -> (r: Self)
        ensures
            r == (GetAccountSummaryRequest { account_id: Some(x), ..self }),
    {
        GetAccountSummaryRequest { account_id: Some(x), ..self }
    }

    /// The path parameters the URL template draws on.
    pub open spec fn path_fields(self) -> Seq<(Seq<char>, Option<Seq<char>>)> {
        seq![
            ("accountID"@, opt_view(self.account_id)),
        ]
    }

    /// The query fields, in the order they go on the wire.
    pub open spec fn query_fields(self) -> Seq<(Seq<char>, Option<QueryValue>)> {
        Seq::empty()
    }

    /// Computes the exact request this operation sends.
    pub fn prepare(self, client: &Client) -> (r: Result<PreparedRequest, ApiError>)
        ensures
            prepare_matches(
                r,
                spec_prepare(
                    HttpMethod::Get,
                    self.uri@,
                    self.path_fields(),
                    self.query_fields(),
                    None,
                    client.host@,
                    client.authentication@,
                ),
            ),
    {
        let path: Vec<(String, Option<String>)> = vec![
            (String::from_str("accountID"), self.account_id),
        ];
        let query: Vec<(String, Option<QueryValue>)> = Vec::new();
        proof {
            assert(crate::url::params_view(path@) =~= self.path_fields());
            assert(crate::http::query_fields_view(query@) =~= self.query_fields());
        }
        prepare_request(HttpMethod::Get, self.uri.as_str(), path, query, None, client)
    }
}

/// Get the list of tradeable instruments for the given account.
#[derive(Debug, Clone, PartialEq)]
pub struct GetAccountInstrumentsRequest {
    /// URL template of the operation.
    pub uri: String,
    /// The authorization bearer token previously obtained by the client.
    pub authorization: Option<String>,
    /// Format of date-time fields in the request and response.
    pub accept_datetime_format: Option<String>,
    /// Account identifier.
    pub account_id: Option<String>,
    /// The instruments to consider.
    pub instruments: Option<Vec<String>>,
}

impl GetAccountInstrumentsRequest {
    pub fn new() -> (r: GetAccountInstrumentsRequest)
        ensures
            r.uri@ == "/v3/accounts/{accountID}/instruments"@,
            r.authorization is None,
            r.accept_datetime_format is None,
            r.account_id is None,
            r.instruments is None,
    {
        GetAccountInstrumentsRequest {
            uri: String::from_str("/v3/accounts/{accountID}/instruments"),
            authorization: None,
            accept_datetime_format: None,
            account_id: None,
            instruments: None,
        }
    }

    pub fn with_uri(self, x: String) -> (r: Self)
        ensures
            r == (GetAccountInstrumentsRequest { uri: x, ..self }),
    {
        GetAccountInstrumentsRequest { uri: x, ..self }
    }

    pub fn with_authorization(self, x: String) -> (r: Self)
        ensures
            r == (GetAccountInstrumentsRequest { authorization: Some(x), ..self }),
    {
        GetAccountInstrumentsRequest { authorization: Some(x), ..self }
    }

    pub fn with_accept_datetime_format(self, x: String) -> (r: Self)
        ensures
            r == (GetAccountInstrumentsRequest { accept_datetime_format: Some(x), ..self }),
    {
        GetAccountInstrumentsRequest { accept_datetime_format: Some(x), ..self }
    }

    pub fn with_account_id(self, x: String) -> (r: Self)
        ensures
            r == (GetAccountInstrumentsRequest { account_id: Some(x), ..self }),
    {
        GetAccountInstrumentsRequest { account_id: Some(x), ..self }
    }

    pub fn with_instruments(self, x: Vec<String>) -> (r: Self)
        ensures
            r == (GetAccountInstrumentsRequest { instruments: Some(x), ..self }),
    {
        GetAccountInstrumentsRequest { instruments: Some(x), ..self }
    }

    /// The path parameters the URL template draws on.
    pub open spec fn path_fields(self) -> Seq<(Seq<char>, Option<Seq<char>>)> {
        seq![
            ("accountID"@, opt_view(self.account_id)),
        ]
    }

    /// The query fields, in the order they go on the wire.
    pub open spec fn query_fields(self) -> Seq<(Seq<char>, Option<QueryValue>)> {
        seq![
            ("instruments"@, opt_list(self.instruments)),
        ]
    }

    /// Computes the exact request this operation sends.
    pub fn prepare(self, client: &Client) -> (r: Result<PreparedRequest, ApiError>)
        ensures
            prepare_matches(
                r,
                spec_prepare(
                    HttpMethod::Get,
                    self.uri@,
                    self.path_fields(),
                    self.query_fields(),
                    None,
                    client.host@,
                    client.authentication@,
                ),
            ),
    {
        let path: Vec<(String, Option<String>)> = vec![
            (String::from_str("accountID"), self.account_id),
        ];
        let query: Vec<(String, Option<QueryValue>)> = vec![
            (
                String::from_str("instruments"),
                match self.instruments {
                    Some(v) => Some(QueryValue::List(v)),
                    None => None,
                },
            ),
        ];
        proof {
            assert(crate::url::params_view(path@) =~= self.path_fields());
            assert(crate::http::query_fields_view(query@) =~= self.query_fields());
        }
        prepare_request(HttpMethod::Get, self.uri.as_str(), path, query, None, client)
    }
}

/// Set the client-configurable portions of an account.
#[derive(Debug, Clone, PartialEq)]
pub struct ConfigureAccountRequest {
    /// URL template of the operation.
    pub uri: String,
    /// The authorization bearer token previously obtained by the client.
    pub authorization: Option<String>,
    /// Format of date-time fields in the request and response.
    pub accept_datetime_format: Option<String>,
    /// Account identifier.
    pub account_id: Option<String>,
    /// The client-defined alias for the account.
    pub alias: Option<String>,
    /// The margin rate for the account.
    pub margin_rate: Option<DecimalString>,
}

impl ConfigureAccountRequest {
    pub fn new() -> (r: ConfigureAccountRequest)
        ensures
            r.uri@ == "/v3/accounts/{accountID}/configuration"@,
            r.authorization is None,
            r.accept_datetime_format is None,
            r.account_id is None,
            r.alias is None,
            r.margin_rate is None,
    {
        ConfigureAccountRequest {
            uri: String::from_str("/v3/accounts/{accountID}/configuration"),
            authorization: None,
            accept_datetime_format: None,
            account_id: None,
            alias: None,
            margin_rate: None,
        }
    }

    pub fn with_uri(self, x: String) -> (r: Self)
        ensures
            r == (ConfigureAccountRequest { uri: x, ..self }),
    {
        ConfigureAccountRequest { uri: x, ..self }
    }

    pub fn with_authorization(self, x: String) -> (r: Self)
        ensures
            r == (ConfigureAccountRequest { authorization: Some(x), ..self }),
    {
        ConfigureAccountRequest { authorization: Some(x), ..self }
    }

    pub fn with_accept_datetime_format(self, x: String) -> (r: Self)
        ensures
            r == (ConfigureAccountRequest { accept_datetime_format: Some(x), ..self }),
    {
        ConfigureAccountRequest { accept_datetime_format: Some(x), ..self }
    }

    pub fn with_account_id(self, x: String) -> (r: Self)
        ensures
            r == (ConfigureAccountRequest { account_id: Some(x), ..self }),
    {
        ConfigureAccountRequest { account_id: Some(x), ..self }
    }

    pub fn with_alias(self, x: String) -> (r: Self)
        ensures
            r == (ConfigureAccountRequest { alias: Some(x), ..self }),
    {
        ConfigureAccountRequest { alias: Some(x), ..self }
    }

    pub fn with_margin_rate(self, x: DecimalString) -> (r: Self)
        ensures
            r == (ConfigureAccountRequest { margin_rate: Some(x), ..self }),
    {
        ConfigureAccountRequest { margin_rate: Some(x), ..self }
    }

    /// The path parameters the URL template draws on.
    pub open spec fn path_fields(self) -> Seq<(Seq<char>, Option<Seq<char>>)> {
        seq![
            ("accountID"@, opt_view(self.account_id)),
        ]
    }

    /// The query fields, in the order they go on the wire.
    pub open spec fn query_fields(self) -> Seq<(Seq<char>, Option<QueryValue>)> {
        Seq::empty()
    }

    /// The body fields, each as rendered JSON text.
    pub open spec fn body_fields(self) -> Seq<(Seq<char>, Option<Seq<char>>)> {
        seq![
            ("alias"@, opt_json_string(self.alias)),
            ("marginRate"@, opt_json_decimal(self.margin_rate)),
        ]
    }

    /// Computes the exact request this operation sends.
    pub fn prepare(self, client: &Client) -> (r: Result<PreparedRequest, ApiError>)
        ensures
            prepare_matches(
                r,
                spec_prepare(
                    HttpMethod::Patch,
                    self.uri@,
                    self.path_fields(),
                    self.query_fields(),
                    Some(self.body_fields()),
                    client.host@,
                    client.authentication@,
                ),
            ),
    {
        let path: Vec<(String, Option<String>)> = vec![
            (String::from_str("accountID"), self.account_id),
        ];
        let query: Vec<(String, Option<QueryValue>)> = Vec::new();
        let body: Vec<(String, Option<String>)> = vec![
            (String::from_str("alias"), crate::http::body_string(self.alias)),
            (String::from_str("marginRate"), crate::http::body_decimal(self.margin_rate)),
        ];
        proof {
            assert(crate::url::params_view(path@) =~= self.path_fields());
            assert(crate::http::query_fields_view(query@) =~= self.query_fields());
            assert(crate::url::params_view(body@) =~= self.body_fields());
        }
        prepare_request(HttpMethod::Patch, self.uri.as_str(), path, query, Some(body), client)
    }
}

/// Poll an account for its current state and changes since a transaction.
#[derive(Debug, Clone, PartialEq)]
pub struct GetAccountChangesRequest {
    /// URL template of the operation.
    pub uri: String,
    /// The authorization bearer token previously obtained by the client.
    pub authorization: Option<String>,
    /// Format of date-time fields in the request and response.
    pub accept_datetime_format: Option<String>,
    /// Account identifier.
    pub account_id: Option<String>,
    /// The identifier of the transaction to get account changes since.
    pub since_transaction_id: Option<String>,
}

impl GetAccountChangesRequest {
    pub fn new() -> (r: GetAccountChangesRequest)
        ensures
            r.uri@ == "/v3/accounts/{accountID}/changes"@,
            r.authorization is None,
            r.accept_datetime_format is None,
            r.account_id is None,
            r.since_transaction_id is None,
    {
        GetAccountChangesRequest {
            uri: String::from_str("/v3/accounts/{accountID}/changes"),
            authorization: None,
            accept_datetime_format: None,
            account_id: None,
            since_transaction_id: None,
        }
    }

    pub fn with_uri(self, x: String) -> (r: Self)
        ensures
            r == (GetAccountChangesRequest { uri: x, ..self }),
    {
        GetAccountChangesRequest { uri: x, ..self }
    }

    pub fn with_authorization(self, x: String) -> (r: Self)
        ensures
            r == (GetAccountChangesRequest { authorization: Some(x), ..self }),
    {
        GetAccountChangesRequest { authorization: Some(x), ..self }
    }

    pub fn with_accept_datetime_format(self, x: String) -> (r: Self)
        ensures
            r == (GetAccountChangesRequest { accept_datetime_format: Some(x), ..self }),
    {
        GetAccountChangesRequest { accept_datetime_format: Some(x), ..self }
    }

    pub fn with_account_id(self, x: String) -> (r: Self)
        ensures
            r == (GetAccountChangesRequest { account_id: Some(x), ..self }),
    {
        GetAccountChangesRequest { account_id: Some(x), ..self }
    }

    pub fn with_since_transaction_id(self, x: String) -> (r: Self)
        ensures
            r == (GetAccountChangesRequest { since_transaction_id: Some(x), ..self }),
    {
        GetAccountChangesRequest { since_transaction_id: Some(x), ..self }
    }

    /// The path parameters the URL template draws on.
    pub open spec fn path_fields(self) -> Seq<(Seq<char>, Option<Seq<char>>)> {
        seq![
            ("accountID"@, opt_view(self.account_id)),
        ]
    }

    /// The query fields, in the order they go on the wire.
    pub open spec fn query_fields(self) -> Seq<(Seq<char>, Option<QueryValue>)> {
        seq![
            ("sinceTransactionID"@, opt_text(self.since_transaction_id)),
        ]
    }

    /// Computes the exact request this operation sends.
    pub fn prepare(self, client: &Client) -> (r: Result<PreparedRequest, ApiError>)
        ensures
            prepare_matches(
                r,
                spec_prepare(
                    HttpMethod::Get,
                    self.uri@,
                    self.path_fields(),
                    self.query_fields(),
                    None,
                    client.host@,
                    client.authentication@,
                ),
            ),
    {
        let path: Vec<(String, Option<String>)> = vec![
            (String::from_str("accountID"), self.account_id),
        ];
        let query: Vec<(String, Option<QueryValue>)> = vec![
            (
                String::from_str("sinceTransactionID"),
                match self.since_transaction_id {
                    Some(v) => Some(QueryValue::Text(v)),
                    None => None,
                },
            ),
        ];
        proof {
            assert(crate::url::params_view(path@) =~= self.path_fields());
            assert(crate::http::query_fields_view(query@) =~= self.query_fields());
        }
        prepare_request(HttpMethod::Get, self.uri.as_str(), path, query, None, client)
    }
}

/// Get a list of transaction pages that satisfy a time-based query.
#[derive(Debug, Clone, PartialEq)]
pub struct ListTransactionsRequest {
    /// URL template of the operation.
    pub uri: String,
    /// The authorization bearer token previously obtained by the client.
    pub authorization: Option<String>,
    /// Format of date-time fields in the request and response.
    pub accept_datetime_format: Option<String>,
    /// Account identifier.
    pub account_id: Option<String>,
    /// The start of the time range.
    pub from: Option<Timestamp>,
    /// The end of the time range.
    pub to: Option<Timestamp>,
    /// The number of transactions to include in each page of the results.
    pub page_size: Option<i32>,
    /// A filter for restricting the returned set by type.
    pub otype: Option<Vec<String>>,
}

impl ListTransactionsRequest {
    pub fn new() -> (r: ListTransactionsRequest)
        ensures
            r.uri@ == "/v3/accounts/{accountID}/transactions"@,
            r.authorization is None,
            r.accept_datetime_format is None,
            r.account_id is None,
            r.from is None,
            r.to is None,
            r.page_size is None,
            r.otype is None,
    {
        ListTransactionsRequest {
            uri: String::from_str("/v3/accounts/{accountID}/transactions"),
            authorization: None,
            accept_datetime_format: None,
            account_id: None,
            from: None,
            to: None,
            page_size: None,
            otype: None,
        }
    }

    pub fn with_uri(self, x: String) -> (r: Self)
        ensures
            r == (ListTransactionsRequest { uri: x, ..self }),
    {
        ListTransactionsRequest { uri: x, ..self }
    }

    pub fn with_authorization(self, x: String) -> (r: Self)
        ensures
            r == (ListTransactionsRequest { authorization: Some(x), ..self }),
    {
        ListTransactionsRequest { authorization: Some(x), ..self }
    }

    pub fn with_accept_datetime_format(self, x: String) -> (r: Self)
        ensures
            r == (ListTransactionsRequest { accept_datetime_format: Some(x), ..self }),
    {
        ListTransactionsRequest { accept_datetime_format: Some(x), ..self }
    }

    pub fn with_account_id(self, x: String) -> (r: Self)
        ensures
            r == (ListTransactionsRequest { account_id: Some(x), ..self }),
    {
        ListTransactionsRequest { account_id: Some(x), ..self }
    }

    pub fn with_from(self, x: Timestamp) -> (r: Self)
        ensures
            r == (ListTransactionsRequest { from: Some(x), ..self }),
    {
        ListTransactionsRequest { from: Some(x), ..self }
    }

    pub fn with_to(self, x: Timestamp) -> (r: Self)
        ensures
            r == (ListTransactionsRequest { to: Some(x), ..self }),
    {
        ListTransactionsRequest { to: Some(x), ..self }
    }

    pub fn with_page_size(self, x: i32) -> (r: Self)
        ensures
            r == (ListTransactionsRequest { page_size: Some(x), ..self }),
    {
        ListTransactionsRequest { page_size: Some(x), ..self }
    }

    pub fn with_otype(self, x: Vec<String>) -> (r: Self)
        ensures
            r == (ListTransactionsRequest { otype: Some(x), ..self }),
    {
        ListTransactionsRequest { otype: Some(x), ..self }
    }

    /// The path parameters the URL template draws on.
    pub open spec fn path_fields(self) -> Seq<(Seq<char>, Option<Seq<char>>)> {
        seq![
            ("accountID"@, opt_view(self.account_id)),
        ]
    }

    /// The query fields, in the order they go on the wire.
    pub open spec fn query_fields(self) -> Seq<(Seq<char>, Option<QueryValue>)> {
        seq![
            ("from"@, opt_time(self.from)),
            ("to"@, opt_time(self.to)),
            ("pageSize"@, opt_int(self.page_size)),
            ("type"@, opt_list(self.otype)),
        ]
    }

    /// Computes the exact request this operation sends.
    pub fn prepare(self, client: &Client) -> (r: Result<PreparedRequest, ApiError>)
        ensures
            prepare_matches(
                r,
                spec_prepare(
                    HttpMethod::Get,
                    self.uri@,
                    self.path_fields(),
                    self.query_fields(),
                    None,
                    client.host@,
                    client.authentication@,
                ),
            ),
    {
        let path: Vec<(String, Option<String>)> = vec![
            (String::from_str("accountID"), self.account_id),
        ];
        let query: Vec<(String, Option<QueryValue>)> = vec![
            (
                String::from_str("from"),
                match self.from {
                    Some(v) => Some(QueryValue::Time(v)),
                    None => None,
                },
            ),
            (
                String::from_str("to"),
                match self.to {
                    Some(v) => Some(QueryValue::Time(v)),
                    None => None,
                },
            ),
            (
                String::from_str("pageSize"),
                match self.page_size {
                    Some(v) => Some(QueryValue::Int(v)),
                    None => None,
                },
            ),
            (
                String::from_str("type"),
                match self.otype {
                    Some(v) => Some(QueryValue::List(v)),
                    None => None,
                },
            ),
        ];
        proof {
            assert(crate::url::params_view(path@) =~= self.path_fields());
            assert(crate::http::query_fields_view(query@) =~= self.query_fields());
        }
        prepare_request(HttpMethod::Get, self.uri.as_str(), path, query, None, client)
    }
}

/// Get the details of a single account transaction.
#[derive(Debug, Clone, PartialEq)]
pub struct GetTransactionRequest {
    /// URL template of the operation.
    pub uri: String,
    /// The authorization bearer token previously obtained by the client.
    pub authorization: Option<String>,
    /// Format of date-time fields in the request and response.
    pub accept_datetime_format: Option<String>,
    /// Account identifier.
    pub account_id: Option<String>,
    /// A transaction identifier.
    pub transaction_id: Option<String>,
}

impl GetTransactionRequest {
    pub fn new() -> (r: GetTransactionRequest)
        ensures
            r.uri@ == "/v3/accounts/{accountID}/transactions/{transactionID}"@,
            r.authorization is None,
            r.accept_datetime_format is None,
            r.account_id is None,
            r.transaction_id is None,
    {
        GetTransactionRequest {
            uri: String::from_str("/v3/accounts/{accountID}/transactions/{transactionID}"),
            authorization: None,
            accept_datetime_format: None,
            account_id: None,
            transaction_id: None,
        }
    }

    pub fn with_uri(self, x: String) -> (r: Self)
        ensures
            r == (GetTransactionRequest { uri: x, ..self }),
    {
        GetTransactionRequest { uri: x, ..self }
    }

    pub fn with_authorization(self, x: String) -> (r: Self)
        ensures
            r == (GetTransactionRequest { authorization: Some(x), ..self }),
    {
        GetTransactionRequest { authorization: Some(x), ..self }
    }

    pub fn with_accept_datetime_format(self, x: String) -> (r: Self)
        ensures
            r == (GetTransactionRequest { accept_datetime_format: Some(x), ..self }),
    {
        GetTransactionRequest { accept_datetime_format: Some(x), ..self }
    }

    pub fn with_account_id(self, x: String) -> (r: Self)
        ensures
            r == (GetTransactionRequest { account_id: Some(x), ..self }),
    {
        GetTransactionRequest { account_id: Some(x), ..self }
    }

    pub fn with_transaction_id(self, x: String) -> (r: Self)
        ensures
            r == (GetTransactionRequest { transaction_id: Some(x), ..self }),
    {
        GetTransactionRequest { transaction_id: Some(x), ..self }
    }

    /// The path parameters the URL template draws on.
    pub open spec fn path_fields(self) -> Seq<(Seq<char>, Option<Seq<char>>)> {
        seq![
            ("accountID"@, opt_view(self.account_id)),
            ("transactionID"@, opt_view(self.transaction_id)),
        ]
    }

    /// The query fields, in the order they go on the wire.
    pub open spec fn query_fields(self) -> Seq<(Seq<char>, Option<QueryValue>)> {
        Seq::empty()
    }

    /// Computes the exact request this operation sends.
    pub fn prepare(self, client: &Client) -> (r: Result<PreparedRequest, ApiError>)
        ensures
            prepare_matches(
                r,
                spec_prepare(
                    HttpMethod::Get,
                    self.uri@,
                    self.path_fields(),
                    self.query_fields(),
                    None,
                    client.host@,
                    client.authentication@,
                ),
            ),
    {
        let path: Vec<(String, Option<String>)> = vec![
            (String::from_str("accountID"), self.account_id),
            (String::from_str("transactionID"), self.transaction_id),
        ];
        let query: Vec<(String, Option<QueryValue>)> = Vec::new();
        proof {
            assert(crate::url::params_view(path@) =~= self.path_fields());
            assert(crate::http::query_fields_view(query@) =~= self.query_fields());
        }
        prepare_request(HttpMethod::Get, self.uri.as_str(), path, query, None, client)
    }
}

/// Get a range of transactions for an account based on transaction identifiers.
#[derive(Debug, Clone, PartialEq)]
pub struct GetTransactionRangeRequest {
    /// URL template of the operation.
    pub uri: String,
    /// The authorization bearer token previously obtained by the client.
    pub authorization: Option<String>,
    /// Format of date-time fields in the request and response.
    pub accept_datetime_format: Option<String>,
    /// Account identifier.
    pub account_id: Option<String>,
    /// The start of the time range.
    pub from: Option<String>,
    /// The end of the time range.
    pub to: Option<String>,
    /// A filter for restricting the returned set by type.
    pub otype: Option<Vec<String>>,
}

impl GetTransactionRangeRequest {
    pub fn new() -> (r: GetTransactionRangeRequest)
        ensures
            r.uri@ == "/v3/accounts/{accountID}/transactions/idrange"@,
            r.authorization is None,
            r.accept_datetime_format is None,
            r.account_id is None,
            r.from is None,
            r.to is None,
            r.otype is None,
    {
        GetTransactionRangeRequest {
            uri: String::from_str("/v3/accounts/{accountID}/transactions/idrange"),
            authorization: None,
            accept_datetime_format: None,
            account_id: None,
            from: None,
            to: None,
            otype: None,
        }
    }

    pub fn with_uri(self, x: String) -> (r: Self)
        ensures
            r == (GetTransactionRangeRequest { uri: x, ..self }),
    {
        GetTransactionRangeRequest { uri: x, ..self }
    }

    pub fn with_authorization(self, x: String) -> (r: Self)
        ensures
            r == (GetTransactionRangeRequest { authorization: Some(x), ..self }),
    {
        GetTransactionRangeRequest { authorization: Some(x), ..self }
    }

    pub fn with_accept_datetime_format(self, x: String) -> (r: Self)
        ensures
            r == (GetTransactionRangeRequest { accept_datetime_format: Some(x), ..self }),
    {
        GetTransactionRangeRequest { accept_datetime_format: Some(x), ..self }
    }

    pub fn with_account_id(self, x: String) -> (r: Self)
        ensures
            r == (GetTransactionRangeRequest { account_id: Some(x), ..self }),
    {
        GetTransactionRangeRequest { account_id: Some(x), ..self }
    }

    pub fn with_from(self, x: String) -> (r: Self)
        ensures
            r == (GetTransactionRangeRequest { from: Some(x), ..self }),
    {
        GetTransactionRangeRequest { from: Some(x), ..self }
    }

    pub fn with_to(self, x: String) -> (r: Self)
        ensures
            r == (GetTransactionRangeRequest { to: Some(x), ..self }),
    {
        GetTransactionRangeRequest { to: Some(x), ..self }
    }

    pub fn with_otype(self, x: Vec<String>) -> (r: Self)
        ensures
            r == (GetTransactionRangeRequest { otype: Some(x), ..self }),
    {
        GetTransactionRangeRequest { otype: Some(x), ..self }
    }

    /// The path parameters the URL template draws on.
    pub open spec fn path_fields(self) -> Seq<(Seq<char>, Option<Seq<char>>)> {
        seq![
            ("accountID"@, opt_view(self.account_id)),
        ]
    }

    /// The query fields, in the order they go on the wire.
    pub open spec fn query_fields(self) -> Seq<(Seq<char>, Option<QueryValue>)> {
        seq![
            ("from"@, opt_text(self.from)),
            ("to"@, opt_text(self.to)),
            ("type"@, opt_list(self.otype)),
        ]
    }

    /// Computes the exact request this operation sends.
    pub fn prepare(self, client: &Client) -> (r: Result<PreparedRequest, ApiError>)
        ensures
            prepare_matches(
                r,
                spec_prepare(
                    HttpMethod::Get,
                    self.uri@,
                    self.path_fields(),
                    self.query_fields(),
                    None,
                    client.host@,
                    client.authentication@,
                ),
            ),
    {
        let path: Vec<(String, Option<String>)> = vec![
            (String::from_str("accountID"), self.account_id),
        ];
        let query: Vec<(String, Option<QueryValue>)> = vec![
            (
                String::from_str("from"),
                match self.from {
                    Some(v) => Some(QueryValue::Text(v)),
                    None => None,
                },
            ),
            (
                String::from_str("to"),
                match self.to {
                    Some(v) => Some(QueryValue::Text(v)),
                    None => None,
                },
            ),
            (
                String::from_str("type"),
                match self.otype {
                    Some(v) => Some(QueryValue::List(v)),
                    None => None,
                },
            ),
        ];
        proof {
            assert(crate::url::params_view(path@) =~= self.path_fields());
            assert(crate::http::query_fields_view(query@) =~= self.query_fields());
        }
        prepare_request(HttpMethod::Get, self.uri.as_str(), path, query, None, client)
    }
}

/// Get a range of transactions for an account starting at a transaction identifier.
#[derive(Debug, Clone, PartialEq)]
pub struct GetTransactionsSinceIdRequest {
    /// URL template of the operation.
    pub uri: String,
    /// The authorization bearer token previously obtained by the client.
    pub authorization: Option<String>,
    /// Format of date-time fields in the request and response.
    pub accept_datetime_format: Option<String>,
    /// Account identifier.
    pub account_id: Option<String>,
    /// The identifier of the first transaction to get.
    pub id: Option<String>,
}

impl GetTransactionsSinceIdRequest {
    pub fn new() -> (r: GetTransactionsSinceIdRequest)
        ensures
            r.uri@ == "/v3/accounts/{accountID}/transactions/sinceid"@,
            r.authorization is None,
            r.accept_datetime_format is None,
            r.account_id is None,
            r.id is None,
    {
        GetTransactionsSinceIdRequest {
            uri: String::from_str("/v3/accounts/{accountID}/transactions/sinceid"),
            authorization: None,
            accept_datetime_format: None,
            account_id: None,
            id: None,
        }
    }

    pub fn with_uri(self, x: String) -> (r: Self)
        ensures
            r == (GetTransactionsSinceIdRequest { uri: x, ..self }),
    {
        GetTransactionsSinceIdRequest { uri: x, ..self }
    }

    pub fn with_authorization(self, x: String) -> (r: Self)
        ensures
            r == (GetTransactionsSinceIdRequest { authorization: Some(x), ..self }),
    {
        GetTransactionsSinceIdRequest { authorization: Some(x), ..self }
    }

    pub fn with_accept_datetime_format(self, x: String) -> (r: Self)
        ensures
            r == (GetTransactionsSinceIdRequest { accept_datetime_format: Some(x), ..self }),
    {
        GetTransactionsSinceIdRequest { accept_datetime_format: Some(x), ..self }
    }

    pub fn with_account_id(self, x: String) -> (r: Self)
        ensures
            r == (GetTransactionsSinceIdRequest { account_id: Some(x), ..self }),
    {
        GetTransactionsSinceIdRequest { account_id: Some(x), ..self }
    }

    pub fn with_id(self, x: String) -> (r: Self)
        ensures
            r == (GetTransactionsSinceIdRequest { id: Some(x), ..self }),
    {
        GetTransactionsSinceIdRequest { id: Some(x), ..self }
    }

    /// The path parameters the URL template draws on.
    pub open spec fn path_fields(self) -> Seq<(Seq<char>, Option<Seq<char>>)> {
        seq![
            ("accountID"@, opt_view(self.account_id)),
        ]
    }

    /// The query fields, in the order they go on the wire.
    pub open spec fn query_fields(self) -> Seq<(Seq<char>, Option<QueryValue>)> {
        seq![
            ("id"@, opt_text(self.id)),
        ]
    }

    /// Computes the exact request this operation sends.
    pub fn prepare(self, client: &Client) -> (r: Result<PreparedRequest, ApiError>)
        ensures
            prepare_matches(
                r,
                spec_prepare(
                    HttpMethod::Get,
                    self.uri@,
                    self.path_fields(),
                    self.query_fields(),
                    None,
                    client.host@,
                    client.authentication@,
                ),
            ),
    {
        let path: Vec<(String, Option<String>)> = vec![
            (String::from_str("accountID"), self.account_id),
        ];
        let query: Vec<(String, Option<QueryValue>)> = vec![
            (
                String::from_str("id"),
                match self.id {
                    Some(v) => Some(QueryValue::Text(v)),
                    None => None,
                },
            ),
        ];
        proof {
            assert(crate::url::params_view(path@) =~= self.path_fields());
            assert(crate::http::query_fields_view(query@) =~= self.query_fields());
        }
        prepare_request(HttpMethod::Get, self.uri.as_str(), path, query, None, client)
    }
}

/// Get a stream of transactions for an account.
#[derive(Debug, Clone, PartialEq)]
pub struct StreamTransactionsRequest {
    /// URL template of the operation.
    pub uri: String,
    /// The authorization bearer token previously obtained by the client.
    pub authorization: Option<String>,
    /// Format of date-time fields in the request and response.
    pub accept_datetime_format: Option<String>,
    /// Account identifier.
    pub account_id: Option<String>,
}

impl StreamTransactionsRequest {
    pub fn new() -> (r: StreamTransactionsRequest)
        ensures
            r.uri@ == "/v3/accounts/{accountID}/transactions/stream"@,
            r.authorization is None,
            r.accept_datetime_format is None,
            r.account_id is None,
    {
        StreamTransactionsRequest {
            uri: String::from_str("/v3/accounts/{accountID}/transactions/stream"),
            authorization: None,
            accept_datetime_format: None,
            account_id: None,
        }
    }

    pub fn with_uri(self, x: String) -> (r: Self)
        ensures
            r == (StreamTransactionsRequest { uri: x, ..self }),
    {
        StreamTransactionsRequest { uri: x, ..self }
    }

    pub fn with_authorization(self, x: String) -> (r: Self)
        ensures
            r == (StreamTransactionsRequest { authorization: Some(x), ..self }),
    {
        StreamTransactionsRequest { authorization: Some(x), ..self }
    }

    pub fn with_accept_datetime_format(self, x: String) -> (r: Self)
        ensures
            r == (StreamTransactionsRequest { accept_datetime_format: Some(x), ..self }),
    {
        StreamTransactionsRequest { accept_datetime_format: Some(x), ..self }
    }

    pub fn with_account_id(self, x: String) -> (r: Self)
        ensures
            r == (StreamTransactionsRequest { account_id: Some(x), ..self }),
    {
        StreamTransactionsRequest { account_id: Some(x), ..self }
    }

    /// The path parameters the URL template draws on.
    pub open spec fn path_fields(self) -> Seq<(Seq<char>, Option<Seq<char>>)> {
        seq![
            ("accountID"@, opt_view(self.account_id)),
        ]
    }

    /// The query fields, in the order they go on the wire.
    pub open spec fn query_fields(self) -> Seq<(Seq<char>, Option<QueryValue>)> {
        Seq::empty()
    }

    /// Computes the exact request this operation sends.
    pub fn prepare(self, client: &Client) -> (r: Result<PreparedRequest, ApiError>)
        ensures
            prepare_matches(
                r,
                spec_prepare(
                    HttpMethod::Get,
                    self.uri@,
                    self.path_fields(),
                    self.query_fields(),
                    None,
                    client.host@,
                    client.authentication@,
                ),
            ),
    {
        let path: Vec<(String, Option<String>)> = vec![
            (String::from_str("accountID"), self.account_id),
        ];
        let query: Vec<(String, Option<QueryValue>)> = Vec::new();
        proof {
            assert(crate::url::params_view(path@) =~= self.path_fields());
            assert(crate::http::query_fields_view(query@) =~= self.query_fields());
        }
        prepare_request(HttpMethod::Get, self.uri.as_str(), path, query, None, client)
    }
}

/// Get pricing information for a specified list of instruments in an account.
#[derive(Debug, Clone, PartialEq)]
pub struct GetPricesRequest {
    /// URL template of the operation.
    pub uri: String,
    /// The authorization bearer token previously obtained by the client.
    pub authorization: Option<String>,
    /// Format of date-time fields in the request and response.
    pub accept_datetime_format: Option<String>,
    /// Account identifier.
    pub account_id: Option<String>,
    /// The instruments to consider.
    pub instruments: Option<String>,
    /// Only provide prices newer than this filter.
    pub since: Option<Timestamp>,
    /// Whether to include the units available section in the response.
    pub include_units_available: Option<bool>,
    /// Whether to include the home conversions section in the response.
    pub include_home_conversions: Option<bool>,
}

impl GetPricesRequest {
    pub fn new() -> (r: GetPricesRequest)
        ensures
            r.uri@ == "/v3/accounts/{accountID}/pricing"@,
            r.authorization is None,
            r.accept_datetime_format is None,
            r.account_id is None,
            r.instruments is None,
            r.since is None,
            r.include_units_available is None,
            r.include_home_conversions is None,
    {
        GetPricesRequest {
            uri: String::from_str("/v3/accounts/{accountID}/pricing"),
            authorization: None,
            accept_datetime_format: None,
            account_id: None,
            instruments: None,
            since: None,
            include_units_available: None,
            include_home_conversions: None,
        }
    }

    pub fn with_uri(self, x: String) -> (r: Self)
        ensures
            r == (GetPricesRequest { uri: x, ..self }),
    {
        GetPricesRequest { uri: x, ..self }
    }

    pub fn with_authorization(self, x: String) -> (r: Self)
        ensures
            r == (GetPricesRequest { authorization: Some(x), ..self }),
    {
        GetPricesRequest { authorization: Some(x), ..self }
    }

    pub fn with_accept_datetime_format(self, x: String) -> (r: Self)
        ensures
            r == (GetPricesRequest { accept_datetime_format: Some(x), ..self }),
    {
        GetPricesRequest { accept_datetime_format: Some(x), ..self }
    }

    pub fn with_account_id(self, x: String) -> (r: Self)
        ensures
            r == (GetPricesRequest { account_id: Some(x), ..self }),
    {
        GetPricesRequest { account_id: Some(x), ..self }
    }

    pub fn with_instruments(self, x: String) -> (r: Self)
        ensures
            r == (GetPricesRequest { instruments: Some(x), ..self }),
    {
        GetPricesRequest { instruments: Some(x), ..self }
    }

    pub fn with_since(self, x: Timestamp) -> (r: Self)
        ensures
            r == (GetPricesRequest { since: Some(x), ..self }),
    {
        GetPricesRequest { since: Some(x), ..self }
    }

    pub fn with_include_units_available(self, x: bool) -> (r: Self)
        ensures
            r == (GetPricesRequest { include_units_available: Some(x), ..self }),
    {
        GetPricesRequest { include_units_available: Some(x), ..self }
    }

    pub fn with_include_home_conversions(self, x: bool) -> (r: Self)
        ensures
            r == (GetPricesRequest { include_home_conversions: Some(x), ..self }),
    {
        GetPricesRequest { include_home_conversions: Some(x), ..self }
    }

    /// The path parameters the URL template draws on.
    pub open spec fn path_fields(self) -> Seq<(Seq<char>, Option<Seq<char>>)> {
        seq![
            ("accountID"@, opt_view(self.account_id)),
        ]
    }

    /// The query fields, in the order they go on the wire.
    pub open spec fn query_fields(self) -> Seq<(Seq<char>, Option<QueryValue>)> {
        seq![
            ("instruments"@, opt_text(self.instruments)),
            ("since"@, opt_time(self.since)),
            ("includeUnitsAvailable"@, opt_bool(self.include_units_available)),
            ("includeHomeConversions"@, opt_bool(self.include_home_conversions)),
        ]
    }

    /// Computes the exact request this operation sends.
    pub fn prepare(self, client: &Client) -> (r: Result<PreparedRequest, ApiError>)
        ensures
            prepare_matches(
                r,
                spec_prepare(
                    HttpMethod::Get,
                    self.uri@,
                    self.path_fields(),
                    self.query_fields(),
                    None,
                    client.host@,
                    client.authentication@,
                ),
            ),
    {
        let path: Vec<(String, Option<String>)> = vec![
            (String::from_str("accountID"), self.account_id),
        ];
        let query: Vec<(String, Option<QueryValue>)> = vec![
            (
                String::from_str("instruments"),
                match self.instruments {
                    Some(v) => Some(QueryValue::Text(v)),
                    None => None,
                },
            ),
            (
                String::from_str("since"),
                match self.since {
                    Some(v) => Some(QueryValue::Time(v)),
                    None => None,
                },
            ),
            (
                String::from_str("includeUnitsAvailable"),
                match self.include_units_available {
                    Some(v) => Some(QueryValue::Bool(v)),
                    None => None,
                },
            ),
            (
                String::from_str("includeHomeConversions"),
                match self.include_home_conversions {
                    Some(v) => Some(QueryValue::Bool(v)),
                    None => None,
                },
            ),
        ];
        proof {
            assert(crate::url::params_view(path@) =~= self.path_fields());
            assert(crate::http::query_fields_view(query@) =~= self.query_fields());
        }
        prepare_request(HttpMethod::Get, self.uri.as_str(), path, query, None, client)
    }
}

/// Get a stream of account prices.
#[derive(Debug, Clone, PartialEq)]
pub struct StreamPricingRequest {
    /// URL template of the operation.
    pub uri: String,
    /// The authorization bearer token previously obtained by the client.
    pub authorization: Option<String>,
    /// Format of date-time fields in the request and response.
    pub accept_datetime_format: Option<String>,
    /// Account identifier.
    pub account_id: Option<String>,
    /// The instruments to consider.
    pub instruments: Option<Vec<String>>,
    /// Whether a pricing snapshot is sent when the connection is first established.
    pub snapshot: Option<bool>,
}

impl StreamPricingRequest {
    pub fn new() -> (r: StreamPricingRequest)
        ensures
            r.uri@ == "/v3/accounts/{accountID}/pricing/stream"@,
            r.authorization is None,
            r.accept_datetime_format is None,
            r.account_id is None,
            r.instruments is None,
            r.snapshot is None,
    {
        StreamPricingRequest {
            uri: String::from_str("/v3/accounts/{accountID}/pricing/stream"),
            authorization: None,
            accept_datetime_format: None,
            account_id: None,
            instruments: None,
            snapshot: None,
        }
    }

    pub fn with_uri(self, x: String) -> (r: Self)
        ensures
            r == (StreamPricingRequest { uri: x, ..self }),
    {
        StreamPricingRequest { uri: x, ..self }
    }

    pub fn with_authorization(self, x: String) -> (r: Self)
        ensures
            r == (StreamPricingRequest { authorization: Some(x), ..self }),
    {
        StreamPricingRequest { authorization: Some(x), ..self }
    }

    pub fn with_accept_datetime_format(self, x: String) -> (r: Self)
        ensures
            r == (StreamPricingRequest { accept_datetime_format: Some(x), ..self }),
    {
        StreamPricingRequest { accept_datetime_format: Some(x), ..self }
    }

    pub fn with_account_id(self, x: String) -> (r: Self)
        ensures
            r == (StreamPricingRequest { account_id: Some(x), ..self }),
    {
        StreamPricingRequest { account_id: Some(x), ..self }
    }

    pub fn with_instruments(self, x: Vec<String>) -> (r: Self)
        ensures
            r == (StreamPricingRequest { instruments: Some(x), ..self }),
    {
        StreamPricingRequest { instruments: Some(x), ..self }
    }

    pub fn with_snapshot(self, x: bool) -> (r: Self)
        ensures
            r == (StreamPricingRequest { snapshot: Some(x), ..self }),
    {
        StreamPricingRequest { snapshot: Some(x), ..self }
    }

    /// The path parameters the URL template draws on.
    pub open spec fn path_fields(self) -> Seq<(Seq<char>, Option<Seq<char>>)> {
        seq![
            ("accountID"@, opt_view(self.account_id)),
        ]
    }

    /// The query fields, in the order they go on the wire.
    pub open spec fn query_fields(self) -> Seq<(Seq<char>, Option<QueryValue>)> {
        seq![
            ("instruments"@, opt_list(self.instruments)),
            ("snapshot"@, opt_bool(self.snapshot)),
        ]
    }

    /// Computes the exact request this operation sends.
    pub fn prepare(self, client: &Client) -> (r: Result<PreparedRequest, ApiError>)
        ensures
            prepare_matches(
                r,
                spec_prepare(
                    HttpMethod::Get,
                    self.uri@,
                    self.path_fields(),
                    self.query_fields(),
                    None,
                    client.host@,
                    client.authentication@,
                ),
            ),
    {
        let path: Vec<(String, Option<String>)> = vec![
            (String::from_str("accountID"), self.account_id),
        ];
        let query: Vec<(String, Option<QueryValue>)> = vec![
            (
                String::from_str("instruments"),
                match self.instruments {
                    Some(v) => Some(QueryValue::List(v)),
                    None => None,
                },
            ),
            (
                String::from_str("snapshot"),
                match self.snapshot {
                    Some(v) => Some(QueryValue::Bool(v)),
                    None => None,
                },
            ),
        ];
        proof {
            assert(crate::url::params_view(path@) =~= self.path_fields());
            assert(crate::http::query_fields_view(query@) =~= self.query_fields());
        }
        prepare_request(HttpMethod::Get, self.uri.as_str(), path, query, None, client)
    }
}

/// Fetch candlestick data for an instrument of an account.
#[derive(Debug, Clone, PartialEq)]
pub struct GetAccountInstrumentCandlesRequest {
    /// URL template of the operation.
    pub uri: String,
    /// The authorization bearer token previously obtained by the client.
    pub authorization: Option<String>,
    /// Format of date-time fields in the request and response.
    pub accept_datetime_format: Option<String>,
    /// Account identifier.
    pub account_id: Option<String>,
    /// Name of the instrument.
    pub instrument: Option<String>,
    /// The price components to get candlestick data for.
    pub price: Option<String>,
    /// The granularity of the candlesticks to fetch.
    pub granularity: Option<String>,
    /// The maximum number of items to return.
    pub count: Option<i32>,
    /// The start of the time range.
    pub from: Option<Timestamp>,
    /// The end of the time range.
    pub to: Option<Timestamp>,
    /// Whether the candlesticks are smoothed.
    pub smooth: Option<bool>,
    /// Whether the candlestick covered by the from time is included.
    pub include_first: Option<bool>,
    /// The hour of the day used for granularities with daily alignment.
    pub daily_alignment: Option<i32>,
    /// The timezone used for the daily alignment hour.
    pub alignment_timezone: Option<String>,
    /// The day of the week used for granularities with weekly alignment.
    pub weekly_alignment: Option<String>,
    /// The number of units.
    pub units: Option<DecimalString>,
}

impl GetAccountInstrumentCandlesRequest {
    pub fn new() -> (r: GetAccountInstrumentCandlesRequest)
        ensures
            r.uri@ == "/v3/accounts/{accountID}/instruments/{instrument}/candles"@,
            r.authorization is None,
            r.accept_datetime_format is None,
            r.account_id is None,
            r.instrument is None,
            r.price is None,
            r.granularity is None,
            r.count is None,
            r.from is None,
            r.to is None,
            r.smooth is None,
            r.include_first is None,
            r.daily_alignment is None,
            r.alignment_timezone is None,
            r.weekly_alignment is None,
            r.units is None,
    {
        GetAccountInstrumentCandlesRequest {
            uri: String::from_str("/v3/accounts/{accountID}/instruments/{instrument}/candles"),
            authorization: None,
            accept_datetime_format: None,
            account_id: None,
            instrument: None,
            price: None,
            granularity: None,
            count: None,
            from: None,
            to: None,
            smooth: None,
            include_first: None,
            daily_alignment: None,
            alignment_timezone: None,
            weekly_alignment: None,
            units: None,
        }
    }

    pub fn with_uri(self, x: String) -> (r: Self)
        ensures
            r == (GetAccountInstrumentCandlesRequest { uri: x, ..self }),
    {
        GetAccountInstrumentCandlesRequest { uri: x, ..self }
    }

    pub fn with_authorization(self, x: String) -> (r: Self)
        ensures
            r == (GetAccountInstrumentCandlesRequest { authorization: Some(x), ..self }),
    {
        GetAccountInstrumentCandlesRequest { authorization: Some(x), ..self }
    }

    pub fn with_accept_datetime_format(self, x: String) -> (r: Self)
        ensures
            r == (GetAccountInstrumentCandlesRequest { accept_datetime_format: Some(x), ..self }),
    {
        GetAccountInstrumentCandlesRequest { accept_datetime_format: Some(x), ..self }
    }

    pub fn with_account_id(self, x: String) -> (r: Self)
        ensures
            r == (GetAccountInstrumentCandlesRequest { account_id: Some(x), ..self }),
    {
        GetAccountInstrumentCandlesRequest { account_id: Some(x), ..self }
    }

    pub fn with_instrument(self, x: String) -> (r: Self)
        ensures
            r == (GetAccountInstrumentCandlesRequest { instrument: Some(x), ..self }),
    {
        GetAccountInstrumentCandlesRequest { instrument: Some(x), ..self }
    }

    pub fn with_price(self, x: String) -> (r: Self)
        ensures
            r == (GetAccountInstrumentCandlesRequest { price: Some(x), ..self }),
    {
        GetAccountInstrumentCandlesRequest { price: Some(x), ..self }
    }

    pub fn with_granularity(self, x: String) -> (r: Self)
        ensures
            r == (GetAccountInstrumentCandlesRequest { granularity: Some(x), ..self }),
    {
        GetAccountInstrumentCandlesRequest { granularity: Some(x), ..self }
    }

    pub fn with_count(self, x: i32) -> (r: Self)
        ensures
            r == (GetAccountInstrumentCandlesRequest { count: Some(x), ..self }),
    {
        GetAccountInstrumentCandlesRequest { count: Some(x), ..self }
    }

    pub fn with_from(self, x: Timestamp) -> (r: Self)
        ensures
            r == (GetAccountInstrumentCandlesRequest { from: Some(x), ..self }),
    {
        GetAccountInstrumentCandlesRequest { from: Some(x), ..self }
    }

    pub fn with_to(self, x: Timestamp) -> (r: Self)
        ensures
            r == (GetAccountInstrumentCandlesRequest { to: Some(x), ..self }),
    {
        GetAccountInstrumentCandlesRequest { to: Some(x), ..self }
    }

    pub fn with_smooth(self, x: bool) -> (r: Self)
        ensures
            r == (GetAccountInstrumentCandlesRequest { smooth: Some(x), ..self }),
    {
        GetAccountInstrumentCandlesRequest { smooth: Some(x), ..self }
    }

    pub fn with_include_first(self, x: bool) -> (r: Self)
        ensures
            r == (GetAccountInstrumentCandlesRequest { include_first: Some(x), ..self }),
    {
        GetAccountInstrumentCandlesRequest { include_first: Some(x), ..self }
    }

    pub fn with_daily_alignment(self, x: i32) -> (r: Self)
        ensures
            r == (GetAccountInstrumentCandlesRequest { daily_alignment: Some(x), ..self }),
    {
        GetAccountInstrumentCandlesRequest { daily_alignment: Some(x), ..self }
    }

    pub fn with_alignment_timezone(self, x: String) -> (r: Self)
        ensures
            r == (GetAccountInstrumentCandlesRequest { alignment_timezone: Some(x), ..self }),
    {
        GetAccountInstrumentCandlesRequest { alignment_timezone: Some(x), ..self }
    }

    pub fn with_weekly_alignment(self, x: String) -> (r: Self)
        ensures
            r == (GetAccountInstrumentCandlesRequest { weekly_alignment: Some(x), ..self }),
    {
        GetAccountInstrumentCandlesRequest { weekly_alignment: Some(x), ..self }
    }

    pub fn with_units(self, x: DecimalString) -> (r: Self)
        ensures
            r == (GetAccountInstrumentCandlesRequest { units: Some(x), ..self }),
    {
        GetAccountInstrumentCandlesRequest { units: Some(x), ..self }
    }

    /// The path parameters the URL template draws on.
    pub open spec fn path_fields(self) -> Seq<(Seq<char>, Option<Seq<char>>)> {
        seq![
            ("accountID"@, opt_view(self.account_id)),
            ("instrument"@, opt_view(self.instrument)),
        ]
    }

    /// The query fields, in the order they go on the wire.
    pub open spec fn query_fields(self) -> Seq<(Seq<char>, Option<QueryValue>)> {
        seq![
            ("price"@, opt_text(self.price)),
            ("granularity"@, opt_text(self.granularity)),
            ("count"@, opt_int(self.count)),
            ("from"@, opt_time(self.from)),
            ("to"@, opt_time(self.to)),
            ("smooth"@, opt_bool(self.smooth)),
            ("includeFirst"@, opt_bool(self.include_first)),
            ("dailyAlignment"@, opt_int(self.daily_alignment)),
            ("alignmentTimezone"@, opt_text(self.alignment_timezone)),
            ("weeklyAlignment"@, opt_text(self.weekly_alignment)),
            ("units"@, opt_decimal(self.units)),
        ]
    }

    /// Computes the exact request this operation sends.
    pub fn prepare(self, client: &Client) -> (r: Result<PreparedRequest, ApiError>)
        ensures
            prepare_matches(
                r,
                spec_prepare(
                    HttpMethod::Get,
                    self.uri@,
                    self.path_fields(),
                    self.query_fields(),
                    None,
                    client.host@,
                    client.authentication@,
                ),
            ),
    {
        let path: Vec<(String, Option<String>)> = vec![
            (String::from_str("accountID"), self.account_id),
            (String::from_str("instrument"), self.instrument),
        ];
        let query: Vec<(String, Option<QueryValue>)> = vec![
            (
                String::from_str("price"),
                match self.price {
                    Some(v) => Some(QueryValue::Text(v)),
                    None => None,
                },
            ),
            (
                String::from_str("granularity"),
                match self.granularity {
                    Some(v) => Some(QueryValue::Text(v)),
                    None => None,
                },
            ),
            (
                String::from_str("count"),
                match self.count {
                    Some(v) => Some(QueryValue::Int(v)),
                    None => None,
                },
            ),
            (
                String::from_str("from"),
                match self.from {
                    Some(v) => Some(QueryValue::Time(v)),
                    None => None,
                },
            ),
            (
                String::from_str("to"),
                match self.to {
                    Some(v) => Some(QueryValue::Time(v)),
                    None => None,
                },
            ),
            (
                String::from_str("smooth"),
                match self.smooth {
                    Some(v) => Some(QueryValue::Bool(v)),
                    None => None,
                },
            ),
            (
                String::from_str("includeFirst"),
                match self.include_first {
                    Some(v) => Some(QueryValue::Bool(v)),
                    None => None,
                },
            ),
            (
                String::from_str("dailyAlignment"),
                match self.daily_alignment {
                    Some(v) => Some(QueryValue::Int(v)),
                    None => None,
                },
            ),
            (
                String::from_str("alignmentTimezone"),
                match self.alignment_timezone {
                    Some(v) => Some(QueryValue::Text(v)),
                    None => None,
                },
            ),
            (
                String::from_str("weeklyAlignment"),
                match self.weekly_alignment {
                    Some(v) => Some(QueryValue::Text(v)),
                    None => None,
                },
            ),
            (
                String::from_str("units"),
                match self.units {
                    Some(v) => Some(QueryValue::Decimal(v)),
                    None => None,
                },
            ),
        ];
        proof {
            assert(crate::url::params_view(path@) =~= self.path_fields());
            assert(crate::http::query_fields_view(query@) =~= self.query_fields());
        }
        prepare_request(HttpMethod::Get, self.uri.as_str(), path, query, None, client)
    }
}

/// Create a market order for an account.
#[derive(Debug, Clone, PartialEq)]
pub struct CreateMarketOrderRequest {
    /// URL template of the operation.
    pub uri: String,
    /// The authorization bearer token previously obtained by the client.
    pub authorization: Option<String>,
    /// Format of date-time fields in the request and response.
    pub accept_datetime_format: Option<String>,
    /// Account identifier.
    pub account_id: Option<String>,
    /// The specification of the order to create, as JSON text.
    pub order: Option<String>,
}

impl CreateMarketOrderRequest {
    pub fn new() -> (r: CreateMarketOrderRequest)
        ensures
            r.uri@ == "/v3/accounts/{accountID}/orders"@,
            r.authorization is None,
            r.accept_datetime_format is None,
            r.account_id is None,
            r.order is None,
    {
        CreateMarketOrderRequest {
            uri: String::from_str("/v3/accounts/{accountID}/orders"),
            authorization: None,
            accept_datetime_format: None,
            account_id: None,
            order: None,
        }
    }

    pub fn with_uri(self, x: String) -> (r: Self)
        ensures
            r == (CreateMarketOrderRequest { uri: x, ..self }),
    {
        CreateMarketOrderRequest { uri: x, ..self }
    }

    pub fn with_authorization(self, x: String) -> (r: Self)
        ensures
            r == (CreateMarketOrderRequest { authorization: Some(x), ..self }),
    {
        CreateMarketOrderRequest { authorization: Some(x), ..self }
    }

    pub fn with_accept_datetime_format(self, x: String) -> (r: Self)
        ensures
            r == (CreateMarketOrderRequest { accept_datetime_format: Some(x), ..self }),
    {
        CreateMarketOrderRequest { accept_datetime_format: Some(x), ..self }
    }

    pub fn with_account_id(self, x: String) -> (r: Self)
        ensures
            r == (CreateMarketOrderRequest { account_id: Some(x), ..self }),
    {
        CreateMarketOrderRequest { account_id: Some(x), ..self }
    }

    pub fn with_order(self, x: String) -> (r: Self)
        ensures
            r == (CreateMarketOrderRequest { order: Some(x), ..self }),
    {
        CreateMarketOrderRequest { order: Some(x), ..self }
    }

    /// The path parameters the URL template draws on.
    pub open spec fn path_fields(self) -> Seq<(Seq<char>, Option<Seq<char>>)> {
        seq![
            ("accountID"@, opt_view(self.account_id)),
        ]
    }

    /// The query fields, in the order they go on the wire.
    pub open spec fn query_fields(self) -> Seq<(Seq<char>, Option<QueryValue>)> {
        Seq::empty()
    }

    /// The body fields, each as rendered JSON text.
    pub open spec fn body_fields(self) -> Seq<(Seq<char>, Option<Seq<char>>)> {
        seq![
            ("order"@, opt_view(self.order)),
        ]
    }

    /// Computes the exact request this operation sends.
    pub fn prepare(self, client: &Client) -> (r: Result<PreparedRequest, ApiError>)
        ensures
            prepare_matches(
                r,
                spec_prepare(
                    HttpMethod::Post,
                    self.uri@,
                    self.path_fields(),
                    self.query_fields(),
                    Some(self.body_fields()),
                    client.host@,
                    client.authentication@,
                ),
            ),
    {
        let path: Vec<(String, Option<String>)> = vec![
            (String::from_str("accountID"), self.account_id),
        ];
        let query: Vec<(String, Option<QueryValue>)> = Vec::new();
        let body: Vec<(String, Option<String>)> = vec![
            (String::from_str("order"), self.order),
        ];
        proof {
            assert(crate::url::params_view(path@) =~= self.path_fields());
            assert(crate::http::query_fields_view(query@) =~= self.query_fields());
            assert(crate::url::params_view(body@) =~= self.body_fields());
        }
        prepare_request(HttpMethod::Post, self.uri.as_str(), path, query, Some(body), client)
    }
}

/// Create a limit order for an account.
#[derive(Debug, Clone, PartialEq)]
pub struct CreateLimitOrderRequest {
    /// URL template of the operation.
    pub uri: String,
    /// The authorization bearer token previously obtained by the client.
    pub authorization: Option<String>,
    /// Format of date-time fields in the request and response.
    pub accept_datetime_format: Option<String>,
    /// Account identifier.
    pub account_id: Option<String>,
    /// The specification of the order to create, as JSON text.
    pub order: Option<String>,
}

impl CreateLimitOrderRequest {
    pub fn new() -> (r: CreateLimitOrderRequest)
        ensures
            r.uri@ == "/v3/accounts/{accountID}/orders"@,
            r.authorization is None,
            r.accept_datetime_format is None,
            r.account_id is None,
            r.order is None,
    {
        CreateLimitOrderRequest {
            uri: String::from_str("/v3/accounts/{accountID}/orders"),
            authorization: None,
            accept_datetime_format: None,
            account_id: None,
            order: None,
        }
    }

    pub fn with_uri(self, x: String) -> (r: Self)
        ensures
            r == (CreateLimitOrderRequest { uri: x, ..self }),
    {
        CreateLimitOrderRequest { uri: x, ..self }
    }

    pub fn with_authorization(self, x: String) -> (r: Self)
        ensures
            r == (CreateLimitOrderRequest { authorization: Some(x), ..self }),
    {
        CreateLimitOrderRequest { authorization: Some(x), ..self }
    }

    pub fn with_accept_datetime_format(self, x: String) -> (r: Self)
        ensures
            r == (CreateLimitOrderRequest { accept_datetime_format: Some(x), ..self }),
    {
        CreateLimitOrderRequest { accept_datetime_format: Some(x), ..self }
    }

    pub fn with_account_id(self, x: String) -> (r: Self)
        ensures
            r == (CreateLimitOrderRequest { account_id: Some(x), ..self }),
    {
        CreateLimitOrderRequest { account_id: Some(x), ..self }
    }

    pub fn with_order(self, x: String) -> (r: Self)
        ensures
            r == (CreateLimitOrderRequest { order: Some(x), ..self }),
    {
        CreateLimitOrderRequest { order: Some(x), ..self }
    }

    /// The path parameters the URL template draws on.
    pub open spec fn path_fields(self) -> Seq<(Seq<char>, Option<Seq<char>>)> {
        seq![
            ("accountID"@, opt_view(self.account_id)),
        ]
    }

    /// The query fields, in the order they go on the wire.
    pub open spec fn query_fields(self) -> Seq<(Seq<char>, Option<QueryValue>)> {
        Seq::empty()
    }

    /// The body fields, each as rendered JSON text.
    pub open spec fn body_fields(self) -> Seq<(Seq<char>, Option<Seq<char>>)> {
        seq![
            ("order"@, opt_view(self.order)),
        ]
    }

    /// Computes the exact request this operation sends.
    pub fn prepare(self, client: &Client) -> (r: Result<PreparedRequest, ApiError>)
        ensures
            prepare_matches(
                r,
                spec_prepare(
                    HttpMethod::Post,
                    self.uri@,
                    self.path_fields(),
                    self.query_fields(),
                    Some(self.body_fields()),
                    client.host@,
                    client.authentication@,
                ),
            ),
    {
        let path: Vec<(String, Option<String>)> = vec![
            (String::from_str("accountID"), self.account_id),
        ];
        let query: Vec<(String, Option<QueryValue>)> = Vec::new();
        let body: Vec<(String, Option<String>)> = vec![
            (String::from_str("order"), self.order),
        ];
        proof {
            assert(crate::url::params_view(path@) =~= self.path_fields());
            assert(crate::http::query_fields_view(query@) =~= self.query_fields());
            assert(crate::url::params_view(body@) =~= self.body_fields());
        }
        prepare_request(HttpMethod::Post, self.uri.as_str(), path, query, Some(body), client)
    }
}

/// Create a stop order for an account.
#[derive(Debug, Clone, PartialEq)]
pub struct CreateStopOrderRequest {
    /// URL template of the operation.
    pub uri: String,
    /// The authorization bearer token previously obtained by the client.
    pub authorization: Option<String>,
    /// Format of date-time fields in the request and response.
    pub accept_datetime_format: Option<String>,
    /// Account identifier.
    pub account_id: Option<String>,
    /// The specification of the order to create, as JSON text.
    pub order: Option<String>,
}

impl CreateStopOrderRequest {
    pub fn new() -> (r: CreateStopOrderRequest)
        ensures
            r.uri@ == "/v3/accounts/{accountID}/orders"@,
            r.authorization is None,
            r.accept_datetime_format is None,
            r.account_id is None,
            r.order is None,
    {
        CreateStopOrderRequest {
            uri: String::from_str("/v3/accounts/{accountID}/orders"),
            authorization: None,
            accept_datetime_format: None,
            account_id: None,
            order: None,
        }
    }

    pub fn with_uri(self, x: String) -> (r: Self)
        ensures
            r == (CreateStopOrderRequest { uri: x, ..self }),
    {
        CreateStopOrderRequest { uri: x, ..self }
    }

    pub fn with_authorization(self, x: String) -> (r: Self)
        ensures
            r == (CreateStopOrderRequest { authorization: Some(x), ..self }),
    {
        CreateStopOrderRequest { authorization: Some(x), ..self }
    }

    pub fn with_accept_datetime_format(self, x: String) -> (r: Self)
        ensures
            r == (CreateStopOrderRequest { accept_datetime_format: Some(x), ..self }),
    {
        CreateStopOrderRequest { accept_datetime_format: Some(x), ..self }
    }

    pub fn with_account_id(self, x: String) -> (r: Self)
        ensures
            r == (CreateStopOrderRequest { account_id: Some(x), ..self }),
    {
        CreateStopOrderRequest { account_id: Some(x), ..self }
    }

    pub fn with_order(self, x: String) -> (r: Self)
        ensures
            r == (CreateStopOrderRequest { order: Some(x), ..self }),
    {
        CreateStopOrderRequest { order: Some(x), ..self }
    }

    /// The path parameters the URL template draws on.
    pub open spec fn path_fields(self) -> Seq<(Seq<char>, Option<Seq<char>>)> {
        seq![
            ("accountID"@, opt_view(self.account_id)),
        ]
    }

    /// The query fields, in the order they go on the wire.
    pub open spec fn query_fields(self) -> Seq<(Seq<char>, Option<QueryValue>)> {
        Seq::empty()
    }

    /// The body fields, each as rendered JSON text.
    pub open spec fn body_fields(self) -> Seq<(Seq<char>, Option<Seq<char>>)> {
        seq![
            ("order"@, opt_view(self.order)),
        ]
    }

    /// Computes the exact request this operation sends.
    pub fn prepare(self, client: &Client) -> (r: Result<PreparedRequest, ApiError>)
        ensures
            prepare_matches(
                r,
                spec_prepare(
                    HttpMethod::Post,
                    self.uri@,
                    self.path_fields(),
                    self.query_fields(),
                    Some(self.body_fields()),
                    client.host@,
                    client.authentication@,
                ),
            ),
    {
        let path: Vec<(String, Option<String>)> = vec![
            (String::from_str("accountID"), self.account_id),
        ];
        let query: Vec<(String, Option<QueryValue>)> = Vec::new();
        let body: Vec<(String, Option<String>)> = vec![
            (String::from_str("order"), self.order),
        ];
        proof {
            assert(crate::url::params_view(path@) =~= self.path_fields());
            assert(crate::http::query_fields_view(query@) =~= self.query_fields());
            assert(crate::url::params_view(body@) =~= self.body_fields());
        }
        prepare_request(HttpMethod::Post, self.uri.as_str(), path, query, Some(body), client)
    }
}

/// Get a list of orders for an account.
#[derive(Debug, Clone, PartialEq)]
pub struct ListOrdersRequest {
    /// URL template of the operation.
    pub uri: String,
    /// The authorization bearer token previously obtained by the client.
    pub authorization: Option<String>,
    /// Format of date-time fields in the request and response.
    pub accept_datetime_format: Option<String>,
    /// Account identifier.
    pub account_id: Option<String>,
    /// List of identifiers to retrieve.
    pub ids: Option<Vec<String>>,
    /// The state to filter by.
    pub state: Option<String>,
    /// The `instrument` query parameter.
    pub instrument: Option<String>,
    /// The maximum number of items to return.
    pub count: Option<i32>,
    /// The maximum identifier to return.
    pub before_id: Option<String>,
}

impl ListOrdersRequest {
    pub fn new() -> (r: ListOrdersRequest)
        ensures
            r.uri@ == "/v3/accounts/{accountID}/orders"@,
            r.authorization is None,
            r.accept_datetime_format is None,
            r.account_id is None,
            r.ids is None,
            r.state is None,
            r.instrument is None,
            r.count is None,
            r.before_id is None,
    {
        ListOrdersRequest {
            uri: String::from_str("/v3/accounts/{accountID}/orders"),
            authorization: None,
            accept_datetime_format: None,
            account_id: None,
            ids: None,
            state: None,
            instrument: None,
            count: None,
            before_id: None,
        }
    }

    pub fn with_uri(self, x: String) -> (r: Self)
        ensures
            r == (ListOrdersRequest { uri: x, ..self }),
    {
        ListOrdersRequest { uri: x, ..self }
    }

    pub fn with_authorization(self, x: String) -> (r: Self)
        ensures
            r == (ListOrdersRequest { authorization: Some(x), ..self }),
    {
        ListOrdersRequest { authorization: Some(x), ..self }
    }

    pub fn with_accept_datetime_format(self, x: String) -> (r: Self)
        ensures
            r == (ListOrdersRequest { accept_datetime_format: Some(x), ..self }),
    {
        ListOrdersRequest { accept_datetime_format: Some(x), ..self }
    }

    pub fn with_account_id(self, x: String) -> (r: Self)
        ensures
            r == (ListOrdersRequest { account_id: Some(x), ..self }),
    {
        ListOrdersRequest { account_id: Some(x), ..self }
    }

    pub fn with_ids(self, x: Vec<String>) -> (r: Self)
        ensures
            r == (ListOrdersRequest { ids: Some(x), ..self }),
    {
        ListOrdersRequest { ids: Some(x), ..self }
    }

    pub fn with_state(self, x: String) -> (r: Self)
        ensures
            r == (ListOrdersRequest { state: Some(x), ..self }),
    {
        ListOrdersRequest { state: Some(x), ..self }
    }

    pub fn with_instrument(self, x: String) -> (r: Self)
        ensures
            r == (ListOrdersRequest { instrument: Some(x), ..self }),
    {
        ListOrdersRequest { instrument: Some(x), ..self }
    }

    pub fn with_count(self, x: i32) -> (r: Self)
        ensures
            r == (ListOrdersRequest { count: Some(x), ..self }),
    {
        ListOrdersRequest { count: Some(x), ..self }
    }

    pub fn with_before_id(self, x: String) -> (r: Self)
        ensures
            r == (ListOrdersRequest { before_id: Some(x), ..self }),
    {
        ListOrdersRequest { before_id: Some(x), ..self }
    }

    /// The path parameters the URL template draws on.
    pub open spec fn path_fields(self) -> Seq<(Seq<char>, Option<Seq<char>>)> {
        seq![
            ("accountID"@, opt_view(self.account_id)),
        ]
    }

    /// The query fields, in the order they go on the wire.
    pub open spec fn query_fields(self) -> Seq<(Seq<char>, Option<QueryValue>)> {
        seq![
            ("ids"@, opt_list(self.ids)),
            ("state"@, opt_text(self.state)),
            ("instrument"@, opt_text(self.instrument)),
            ("count"@, opt_int(self.count)),
            ("beforeID"@, opt_text(self.before_id)),
        ]
    }

    /// Computes the exact request this operation sends.
    pub fn prepare(self, client: &Client) -> (r: Result<PreparedRequest, ApiError>)
        ensures
            prepare_matches(
                r,
                spec_prepare(
                    HttpMethod::Get,
                    self.uri@,
                    self.path_fields(),
                    self.query_fields(),
                    None,
                    client.host@,
                    client.authentication@,
                ),
            ),
    {
        let path: Vec<(String, Option<String>)> = vec![
            (String::from_str("accountID"), self.account_id),
        ];
        let query: Vec<(String, Option<QueryValue>)> = vec![
            (
                String::from_str("ids"),
                match self.ids {
                    Some(v) => Some(QueryValue::List(v)),
                    None => None,
                },
            ),
            (
                String::from_str("state"),
                match self.state {
                    Some(v) => Some(QueryValue::Text(v)),
                    None => None,
                },
            ),
            (
                String::from_str("instrument"),
                match self.instrument {
                    Some(v) => Some(QueryValue::Text(v)),
                    None => None,
                },
            ),
            (
                String::from_str("count"),
                match self.count {
                    Some(v) => Some(QueryValue::Int(v)),
                    None => None,
                },
            ),
            (
                String::from_str("beforeID"),
                match self.before_id {
                    Some(v) => Some(QueryValue::Text(v)),
                    None => None,
                },
            ),
        ];
        proof {
            assert(crate::url::params_view(path@) =~= self.path_fields());
            assert(crate::http::query_fields_view(query@) =~= self.query_fields());
        }
        prepare_request(HttpMethod::Get, self.uri.as_str(), path, query, None, client)
    }
}

/// List all pending orders in an account.
#[derive(Debug, Clone, PartialEq)]
pub struct ListPendingOrdersRequest {
    /// URL template of the operation.
    pub uri: String,
    /// The authorization bearer token previously obtained by the client.
    pub authorization: Option<String>,
    /// Format of date-time fields in the request and response.
    pub accept_datetime_format: Option<String>,
    /// Account identifier.
    pub account_id: Option<String>,
}

impl ListPendingOrdersRequest {
    pub fn new() -> (r: ListPendingOrdersRequest)
        ensures
            r.uri@ == "/v3/accounts/{accountID}/pendingOrders"@,
            r.authorization is None,
            r.accept_datetime_format is None,
            r.account_id is None,
    {
        ListPendingOrdersRequest {
            uri: String::from_str("/v3/accounts/{accountID}/pendingOrders"),
            authorization: None,
            accept_datetime_format: None,
            account_id: None,
        }
    }

    pub fn with_uri(self, x: String) -> (r: Self)
        ensures
            r == (ListPendingOrdersRequest { uri: x, ..self }),
    {
        ListPendingOrdersRequest { uri: x, ..self }
    }

    pub fn with_authorization(self, x: String) -> (r: Self)
        ensures
            r == (ListPendingOrdersRequest { authorization: Some(x), ..self }),
    {
        ListPendingOrdersRequest { authorization: Some(x), ..self }
    }

    pub fn with_accept_datetime_format(self, x: String) -> (r: Self)
        ensures
            r == (ListPendingOrdersRequest { accept_datetime_format: Some(x), ..self }),
    {
        ListPendingOrdersRequest { accept_datetime_format: Some(x), ..self }
    }

    pub fn with_account_id(self, x: String) -> (r: Self)
        ensures
            r == (ListPendingOrdersRequest { account_id: Some(x), ..self }),
    {
        ListPendingOrdersRequest { account_id: Some(x), ..self }
    }

    /// The path parameters the URL template draws on.
    pub open spec fn path_fields(self) -> Seq<(Seq<char>, Option<Seq<char>>)> {
        seq![
            ("accountID"@, opt_view(self.account_id)),
        ]
    }

    /// The query fields, in the order they go on the wire.
    pub open spec fn query_fields(self) -> Seq<(Seq<char>, Option<QueryValue>)> {
        Seq::empty()
    }

    /// Computes the exact request this operation sends.
    pub fn prepare(self, client: &Client) -> (r: Result<PreparedRequest, ApiError>)
        ensures
            prepare_matches(
                r,
                spec_prepare(
                    HttpMethod::Get,
                    self.uri@,
                    self.path_fields(),
                    self.query_fields(),
                    None,
                    client.host@,
                    client.authentication@,
                ),
            ),
    {
        let path: Vec<(String, Option<String>)> = vec![
            (String::from_str("accountID"), self.account_id),
        ];
        let query: Vec<(String, Option<QueryValue>)> = Vec::new();
        proof {
            assert(crate::url::params_view(path@) =~= self.path_fields());
            assert(crate::http::query_fields_view(query@) =~= self.query_fields());
        }
        prepare_request(HttpMethod::Get, self.uri.as_str(), path, query, None, client)
    }
}

/// Get details for a single order in an account.
#[derive(Debug, Clone, PartialEq)]
pub struct GetOrderRequest {
    /// URL template of the operation.
    pub uri: String,
    /// The authorization bearer token previously obtained by the client.
    pub authorization: Option<String>,
    /// Format of date-time fields in the request and response.
    pub accept_datetime_format: Option<String>,
    /// Account identifier.
    pub account_id: Option<String>,
    /// The order specifier.
    pub order_specifier: Option<String>,
}

impl GetOrderRequest {
    pub fn new() -> (r: GetOrderRequest)
        ensures
            r.uri@ == "/v3/accounts/{accountID}/orders/{orderSpecifier}"@,
            r.authorization is None,
            r.accept_datetime_format is None,
            r.account_id is None,
            r.order_specifier is None,
    {
        GetOrderRequest {
            uri: String::from_str("/v3/accounts/{accountID}/orders/{orderSpecifier}"),
            authorization: None,
            accept_datetime_format: None,
            account_id: None,
            order_specifier: None,
        }
    }

    pub fn with_uri(self, x: String) -> (r: Self)
        ensures
            r == (GetOrderRequest { uri: x, ..self }),
    {
        GetOrderRequest { uri: x, ..self }
    }

    pub fn with_authorization(self, x: String) -> (r: Self)
        ensures
            r == (GetOrderRequest { authorization: Some(x), ..self }),
    {
        GetOrderRequest { authorization: Some(x), ..self }
    }

    pub fn with_accept_datetime_format(self, x: String) -> (r: Self)
        ensures
            r == (GetOrderRequest { accept_datetime_format: Some(x), ..self }),
    {
        GetOrderRequest { accept_datetime_format: Some(x), ..self }
    }

    pub fn with_account_id(self, x: String) -> (r: Self)
        ensures
            r == (GetOrderRequest { account_id: Some(x), ..self }),
    {
        GetOrderRequest { account_id: Some(x), ..self }
    }

    pub fn with_order_specifier(self, x: String) -> (r: Self)
        ensures
            r == (GetOrderRequest { order_specifier: Some(x), ..self }),
    {
        GetOrderRequest { order_specifier: Some(x), ..self }
    }

    /// The path parameters the URL template draws on.
    pub open spec fn path_fields(self) -> Seq<(Seq<char>, Option<Seq<char>>)> {
        seq![
            ("accountID"@, opt_view(self.account_id)),
            ("orderSpecifier"@, opt_view(self.order_specifier)),
        ]
    }

    /// The query fields, in the order they go on the wire.
    pub open spec fn query_fields(self) -> Seq<(Seq<char>, Option<QueryValue>)> {
        Seq::empty()
    }

    /// Computes the exact request this operation sends.
    pub fn prepare(self, client: &Client) -> (r: Result<PreparedRequest, ApiError>)
        ensures
            prepare_matches(
                r,
                spec_prepare(
                    HttpMethod::Get,
                    self.uri@,
                    self.path_fields(),
                    self.query_fields(),
                    None,
                    client.host@,
                    client.authentication@,
                ),
            ),
    {
        let path: Vec<(String, Option<String>)> = vec![
            (String::from_str("accountID"), self.account_id),
            (String::from_str("orderSpecifier"), self.order_specifier),
        ];
        let query: Vec<(String, Option<QueryValue>)> = Vec::new();
        proof {
            assert(crate::url::params_view(path@) =~= self.path_fields());
            assert(crate::http::query_fields_view(query@) =~= self.query_fields());
        }
        prepare_request(HttpMethod::Get, self.uri.as_str(), path, query, None, client)
    }
}

/// Replace an order in an account by cancelling it and creating a new one.
#[derive(Debug, Clone, PartialEq)]
pub struct ReplaceOrderRequest {
    /// URL template of the operation.
    pub uri: String,
    /// The authorization bearer token previously obtained by the client.
    pub authorization: Option<String>,
    /// Format of date-time fields in the request and response.
    pub accept_datetime_format: Option<String>,
    /// Client-provided request identifier.
    pub client_request_id: Option<String>,
    /// Account identifier.
    pub account_id: Option<String>,
    /// The order specifier.
    pub order_specifier: Option<String>,
    /// The specification of the order to create, as JSON text.
    pub order: Option<String>,
}

impl ReplaceOrderRequest {
    pub fn new() -> (r: ReplaceOrderRequest)
        ensures
            r.uri@ == "/v3/accounts/{accountID}/orders/{orderSpecifier}"@,
            r.authorization is None,
            r.accept_datetime_format is None,
            r.client_request_id is None,
            r.account_id is None,
            r.order_specifier is None,
            r.order is None,
    {
        ReplaceOrderRequest {
            uri: String::from_str("/v3/accounts/{accountID}/orders/{orderSpecifier}"),
            authorization: None,
            accept_datetime_format: None,
            client_request_id: None,
            account_id: None,
            order_specifier: None,
            order: None,
        }
    }

    pub fn with_uri(self, x: String) -> (r: Self)
        ensures
            r == (ReplaceOrderRequest { uri: x, ..self }),
    {
        ReplaceOrderRequest { uri: x, ..self }
    }

    pub fn with_authorization(self, x: String) -> (r: Self)
        ensures
            r == (ReplaceOrderRequest { authorization: Some(x), ..self }),
    {
        ReplaceOrderRequest { authorization: Some(x), ..self }
    }

    pub fn with_accept_datetime_format(self, x: String) -> (r: Self)
        ensures
            r == (ReplaceOrderRequest { accept_datetime_format: Some(x), ..self }),
    {
        ReplaceOrderRequest { accept_datetime_format: Some(x), ..self }
    }

    pub fn with_client_request_id(self, x: String) -> (r: Self)
        ensures
            r == (ReplaceOrderRequest { client_request_id: Some(x), ..self }),
    {
        ReplaceOrderRequest { client_request_id: Some(x), ..self }
    }

    pub fn with_account_id(self, x: String) -> (r: Self)
        ensures
            r == (ReplaceOrderRequest { account_id: Some(x), ..self }),
    {
        ReplaceOrderRequest { account_id: Some(x), ..self }
    }

    pub fn with_order_specifier(self, x: String) -> (r: Self)
        ensures
            r == (ReplaceOrderRequest { order_specifier: Some(x), ..self }),
    {
        ReplaceOrderRequest { order_specifier: Some(x), ..self }
    }

    pub fn with_order(self, x: String) -> (r: Self)
        ensures
            r == (ReplaceOrderRequest { order: Some(x), ..self }),
    {
        ReplaceOrderRequest { order: Some(x), ..self }
    }

    /// The path parameters the URL template draws on.
    pub open spec fn path_fields(self) -> Seq<(Seq<char>, Option<Seq<char>>)> {
        seq![
            ("accountID"@, opt_view(self.account_id)),
            ("orderSpecifier"@, opt_view(self.order_specifier)),
        ]
    }

    /// The query fields, in the order they go on the wire.
    pub open spec fn query_fields(self) -> Seq<(Seq<char>, Option<QueryValue>)> {
        Seq::empty()
    }

    /// The body fields, each as rendered JSON text.
    pub open spec fn body_fields(self) -> Seq<(Seq<char>, Option<Seq<char>>)> {
        seq![
            ("order"@, opt_view(self.order)),
        ]
    }

    /// Computes the exact request this operation sends.
    pub fn prepare(self, client: &Client) -> (r: Result<PreparedRequest, ApiError>)
        ensures
            prepare_matches(
                r,
                spec_prepare(
                    HttpMethod::Put,
                    self.uri@,
                    self.path_fields(),
                    self.query_fields(),
                    Some(self.body_fields()),
                    client.host@,
                    client.authentication@,
                ),
            ),
    {
        let path: Vec<(String, Option<String>)> = vec![
            (String::from_str("accountID"), self.account_id),
            (String::from_str("orderSpecifier"), self.order_specifier),
        ];
        let query: Vec<(String, Option<QueryValue>)> = Vec::new();
        let body: Vec<(String, Option<String>)> = vec![
            (String::from_str("order"), self.order),
        ];
        proof {
            assert(crate::url::params_view(path@) =~= self.path_fields());
            assert(crate::http::query_fields_view(query@) =~= self.query_fields());
            assert(crate::url::params_view(body@) =~= self.body_fields());
        }
        prepare_request(HttpMethod::Put, self.uri.as_str(), path, query, Some(body), client)
    }
}

/// Cancel a pending order in an account.
#[derive(Debug, Clone, PartialEq)]
pub struct CancelOrderRequest {
    /// URL template of the operation.
    pub uri: String,
    /// The authorization bearer token previously obtained by the client.
    pub authorization: Option<String>,
    /// Format of date-time fields in the request and response.
    pub accept_datetime_format: Option<String>,
    /// Client-provided request identifier.
    pub client_request_id: Option<String>,
    /// Account identifier.
    pub account_id: Option<String>,
    /// The order specifier.
    pub order_specifier: Option<String>,
}

impl CancelOrderRequest {
    pub fn new() -> (r: CancelOrderRequest)
        ensures
            r.uri@ == "/v3/accounts/{accountID}/orders/{orderSpecifier}/cancel"@,
            r.authorization is None,
            r.accept_datetime_format is None,
            r.client_request_id is None,
            r.account_id is None,
            r.order_specifier is None,
    {
        CancelOrderRequest {
            uri: String::from_str("/v3/accounts/{accountID}/orders/{orderSpecifier}/cancel"),
            authorization: None,
            accept_datetime_format: None,
            client_request_id: None,
            account_id: None,
            order_specifier: None,
        }
    }

    pub fn with_uri(self, x: String) -> (r: Self)
        ensures
            r == (CancelOrderRequest { uri: x, ..self }),
    {
        CancelOrderRequest { uri: x, ..self }
    }

    pub fn with_authorization(self, x: String) -> (r: Self)
        ensures
            r == (CancelOrderRequest { authorization: Some(x), ..self }),
    {
        CancelOrderRequest { authorization: Some(x), ..self }
    }

    pub fn with_accept_datetime_format(self, x: String) -> (r: Self)
        ensures
            r == (CancelOrderRequest { accept_datetime_format: Some(x), ..self }),
    {
        CancelOrderRequest { accept_datetime_format: Some(x), ..self }
    }

    pub fn with_client_request_id(self, x: String) -> (r: Self)
        ensures
            r == (CancelOrderRequest { client_request_id: Some(x), ..self }),
    {
        CancelOrderRequest { client_request_id: Some(x), ..self }
    }

    pub fn with_account_id(self, x: String) -> (r: Self)
        ensures
            r == (CancelOrderRequest { account_id: Some(x), ..self }),
    {
        CancelOrderRequest { account_id: Some(x), ..self }
    }

    pub fn with_order_specifier(self, x: String) -> (r: Self)
        ensures
            r == (CancelOrderRequest { order_specifier: Some(x), ..self }),
    {
        CancelOrderRequest { order_specifier: Some(x), ..self }
    }

    /// The path parameters the URL template draws on.
    pub open spec fn path_fields(self) -> Seq<(Seq<char>, Option<Seq<char>>)> {
        seq![
            ("accountID"@, opt_view(self.account_id)),
            ("orderSpecifier"@, opt_view(self.order_specifier)),
        ]
    }

    /// The query fields, in the order they go on the wire.
    pub open spec fn query_fields(self) -> Seq<(Seq<char>, Option<QueryValue>)> {
        Seq::empty()
    }

    /// The body fields, each as rendered JSON text.
    pub open spec fn body_fields(self) -> Seq<(Seq<char>, Option<Seq<char>>)> {
        Seq::empty()
    }

    /// Computes the exact request this operation sends.
    pub fn prepare(self, client: &Client) -> (r: Result<PreparedRequest, ApiError>)
        ensures
            prepare_matches(
                r,
                spec_prepare(
                    HttpMethod::Put,
                    self.uri@,
                    self.path_fields(),
                    self.query_fields(),
                    Some(self.body_fields()),
                    client.host@,
                    client.authentication@,
                ),
            ),
    {
        let path: Vec<(String, Option<String>)> = vec![
            (String::from_str("accountID"), self.account_id),
            (String::from_str("orderSpecifier"), self.order_specifier),
        ];
        let query: Vec<(String, Option<QueryValue>)> = Vec::new();
        let body: Vec<(String, Option<String>)> = Vec::new();
        proof {
            assert(crate::url::params_view(path@) =~= self.path_fields());
            assert(crate::http::query_fields_view(query@) =~= self.query_fields());
            assert(crate::url::params_view(body@) =~= self.body_fields());
        }
        prepare_request(HttpMethod::Put, self.uri.as_str(), path, query, Some(body), client)
    }
}

/// Update the client extensions for an order in an account.
#[derive(Debug, Clone, PartialEq)]
pub struct SetOrderClientExtensionsRequest {
    /// URL template of the operation.
    pub uri: String,
    /// The authorization bearer token previously obtained by the client.
    pub authorization: Option<String>,
    /// Format of date-time fields in the request and response.
    pub accept_datetime_format: Option<String>,
    /// Account identifier.
    pub account_id: Option<String>,
    /// The order specifier.
    pub order_specifier: Option<String>,
    /// The client extensions, as JSON text.
    pub client_extensions: Option<String>,
    /// The client extensions of the trade, as JSON text.
    pub trade_client_extensions: Option<String>,
}

impl SetOrderClientExtensionsRequest {
    pub fn new() -> (r: SetOrderClientExtensionsRequest)
        ensures
            r.uri@ == "/v3/accounts/{accountID}/orders/{orderSpecifier}/clientExtensions"@,
            r.authorization is None,
            r.accept_datetime_format is None,
            r.account_id is None,
            r.order_specifier is None,
            r.client_extensions is None,
            r.trade_client_extensions is None,
    {
        SetOrderClientExtensionsRequest {
            uri: String::from_str("/v3/accounts/{accountID}/orders/{orderSpecifier}/clientExtensions"),
            authorization: None,
            accept_datetime_format: None,
            account_id: None,
            order_specifier: None,
            client_extensions: None,
            trade_client_extensions: None,
        }
    }

    pub fn with_uri(self, x: String) -> (r: Self)
        ensures
            r == (SetOrderClientExtensionsRequest { uri: x, ..self }),
    {
        SetOrderClientExtensionsRequest { uri: x, ..self }
    }

    pub fn with_authorization(self, x: String) -> (r: Self)
        ensures
            r == (SetOrderClientExtensionsRequest { authorization: Some(x), ..self }),
    {
        SetOrderClientExtensionsRequest { authorization: Some(x), ..self }
    }

    pub fn with_accept_datetime_format(self, x: String) -> (r: Self)
        ensures
            r == (SetOrderClientExtensionsRequest { accept_datetime_format: Some(x), ..self }),
    {
        SetOrderClientExtensionsRequest { accept_datetime_format: Some(x), ..self }
    }

    pub fn with_account_id(self, x: String) -> (r: Self)
        ensures
            r == (SetOrderClientExtensionsRequest { account_id: Some(x), ..self }),
    {
        SetOrderClientExtensionsRequest { account_id: Some(x), ..self }
    }

    pub fn with_order_specifier(self, x: String) -> (r: Self)
        ensures
            r == (SetOrderClientExtensionsRequest { order_specifier: Some(x), ..self }),
    {
        SetOrderClientExtensionsRequest { order_specifier: Some(x), ..self }
    }

    pub fn with_client_extensions(self, x: String) -> (r: Self)
        ensures
            r == (SetOrderClientExtensionsRequest { client_extensions: Some(x), ..self }),
    {
        SetOrderClientExtensionsRequest { client_extensions: Some(x), ..self }
    }

    pub fn with_trade_client_extensions(self, x: String) -> (r: Self)
        ensures
            r == (SetOrderClientExtensionsRequest { trade_client_extensions: Some(x), ..self }),
    {
        SetOrderClientExtensionsRequest { trade_client_extensions: Some(x), ..self }
    }

    /// The path parameters the URL template draws on.
    pub open spec fn path_fields(self) -> Seq<(Seq<char>, Option<Seq<char>>)> {
        seq![
            ("accountID"@, opt_view(self.account_id)),
            ("orderSpecifier"@, opt_view(self.order_specifier)),
        ]
    }

    /// The query fields, in the order they go on the wire.
    pub open spec fn query_fields(self) -> Seq<(Seq<char>, Option<QueryValue>)> {
        Seq::empty()
    }

    /// The body fields, each as rendered JSON text.
    pub open spec fn body_fields(self) -> Seq<(Seq<char>, Option<Seq<char>>)> {
        seq![
            ("clientExtensions"@, opt_view(self.client_extensions)),
            ("tradeClientExtensions"@, opt_view(self.trade_client_extensions)),
        ]
    }

    /// Computes the exact request this operation sends.
    pub fn prepare(self, client: &Client) -> (r: Result<PreparedRequest, ApiError>)
        ensures
            prepare_matches(
                r,
                spec_prepare(
                    HttpMethod::Put,
                    self.uri@,
                    self.path_fields(),
                    self.query_fields(),
                    Some(self.body_fields()),
                    client.host@,
                    client.authentication@,
                ),
            ),
    {
        let path: Vec<(String, Option<String>)> = vec![
            (String::from_str("accountID"), self.account_id),
            (String::from_str("orderSpecifier"), self.order_specifier),
        ];
        let query: Vec<(String, Option<QueryValue>)> = Vec::new();
        let body: Vec<(String, Option<String>)> = vec![
            (String::from_str("clientExtensions"), self.client_extensions),
            (String::from_str("tradeClientExtensions"), self.trade_client_extensions),
        ];
        proof {
            assert(crate::url::params_view(path@) =~= self.path_fields());
            assert(crate::http::query_fields_view(query@) =~= self.query_fields());
            assert(crate::url::params_view(body@) =~= self.body_fields());
        }
        prepare_request(HttpMethod::Put, self.uri.as_str(), path, query, Some(body), client)
    }
}

} // verus!
