//! Instrument operations: candles, prices, price ranges, order book and
//! position book.  Each operation is a builder over optional fields, a
//! fixed URL template, and a `prepare` that computes the exact request.

use vstd::prelude::*;

use crate::client::Client;
use crate::errors::ApiError;
use crate::http::{
    opt_bool, opt_int, opt_text, opt_time, opt_view, prepare_matches, prepare_request,
    spec_prepare, HttpMethod, PreparedRequest, QueryValue,
};
use crate::timestamp::Timestamp;

verus! {

/// Fetch candlestick data for an instrument.
#[derive(Debug, Clone, PartialEq)]
pub struct GetInstrumentCandlesRequest {
    /// URL template of the operation.
    pub uri: String,
    /// The authorization bearer token previously obtained by the client.
    pub authorization: Option<String>,
    /// Format of date-time fields in the request and response.
    pub accept_datetime_format: Option<String>,
    /// Name of the instrument.
    pub instrument: Option<String>,
    /// The price components to get candlestick data for.
    pub price: Option<String>,
    /// The granularity of the candlesticks to fetch.
    pub granularity: Option<String>,
    /// The maximum number of items to return.
    pub count: Option<i32>,
    /// The start of the time range.
    pub from: Option<Timestamp>,
    /// The end of the time range.
    pub to: Option<Timestamp>,
    /// Whether the candlesticks are smoothed.
    pub smooth: Option<bool>,
    /// Whether the candlestick covered by the from time is included.
    pub include_first: Option<bool>,
    /// The hour of the day used for granularities with daily alignment.
    pub daily_alignment: Option<i32>,
    /// The timezone used for the daily alignment hour.
    pub alignment_timezone: Option<String>,
    /// The day of the week used for granularities with weekly alignment.
    pub weekly_alignment: Option<String>,
}

impl GetInstrumentCandlesRequest {
    pub fn new() -> (r: GetInstrumentCandlesRequest)
        ensures
            r.uri@ == "/v3/instruments/{instrument}/candles"@,
            r.authorization is None,
            r.accept_datetime_format is None,
            r.instrument is None,
            r.price is None,
            r.granularity is None,
            r.count is None,
            r.from is None,
            r.to is None,
            r.smooth is None,
            r.include_first is None,
            r.daily_alignment is None,
            r.alignment_timezone is None,
            r.weekly_alignment is None,
    {
        GetInstrumentCandlesRequest {
            uri: String::from_str("/v3/instruments/{instrument}/candles"),
            authorization: None,
            accept_datetime_format: None,
            instrument: None,
            price: None,
            granularity: None,
            count: None,
            from: None,
            to: None,
            smooth: None,
            include_first: None,
            daily_alignment: None,
            alignment_timezone: None,
            weekly_alignment: None,
        }
    }

    pub fn with_uri(self, x: String) -> (r: Self)
        ensures
            r == (GetInstrumentCandlesRequest { uri: x, ..self }),
    {
        GetInstrumentCandlesRequest { uri: x, ..self }
    }

    pub fn with_authorization(self, x: String) -> (r: Self)
        ensures
            r == (GetInstrumentCandlesRequest { authorization: Some(x), ..self }),
    {
        GetInstrumentCandlesRequest { authorization: Some(x), ..self }
    }

    pub fn with_accept_datetime_format(self, x: String) -> (r: Self)
        ensures
            r == (GetInstrumentCandlesRequest { accept_datetime_format: Some(x), ..self }),
    {
        GetInstrumentCandlesRequest { accept_datetime_format: Some(x), ..self }
    }

    pub fn with_instrument(self, x: String) -> (r: Self)
        ensures
            r == (GetInstrumentCandlesRequest { instrument: Some(x), ..self }),
    {
        GetInstrumentCandlesRequest { instrument: Some(x), ..self }
    }

    pub fn with_price(self, x: String) -> (r: Self)
        ensures
            r == (GetInstrumentCandlesRequest { price: Some(x), ..self }),
    {
        GetInstrumentCandlesRequest { price: Some(x), ..self }
    }

    pub fn with_granularity(self, x: String) -> (r: Self)
        ensures
            r == (GetInstrumentCandlesRequest { granularity: Some(x), ..self }),
    {
        GetInstrumentCandlesRequest { granularity: Some(x), ..self }
    }

    pub fn with_count(self, x: i32) -> (r: Self)
        ensures
            r == (GetInstrumentCandlesRequest { count: Some(x), ..self }),
    {
        GetInstrumentCandlesRequest { count: Some(x), ..self }
    }

    pub fn with_from(self, x: Timestamp) -> (r: Self)
        ensures
            r == (GetInstrumentCandlesRequest { from: Some(x), ..self }),
    {
        GetInstrumentCandlesRequest { from: Some(x), ..self }
    }

    pub fn with_to(self, x: Timestamp) -> (r: Self)
        ensures
            r == (GetInstrumentCandlesRequest { to: Some(x), ..self }),
    {
        GetInstrumentCandlesRequest { to: Some(x), ..self }
    }

    pub fn with_smooth(self, x: bool) -> (r: Self)
        ensures
            r == (GetInstrumentCandlesRequest { smooth: Some(x), ..self }),
    {
        GetInstrumentCandlesRequest { smooth: Some(x), ..self }
    }

    pub fn with_include_first(self, x: bool) -> (r: Self)
        ensures
            r == (GetInstrumentCandlesRequest { include_first: Some(x), ..self }),
    {
        GetInstrumentCandlesRequest { include_first: Some(x), ..self }
    }

    pub fn with_daily_alignment(self, x: i32) -> (r: Self)
        ensures
            r == (GetInstrumentCandlesRequest { daily_alignment: Some(x), ..self }),
    {
        GetInstrumentCandlesRequest { daily_alignment: Some(x), ..self }
    }

    pub fn with_alignment_timezone(self, x: String) -> (r: Self)
        ensures
            r == (GetInstrumentCandlesRequest { alignment_timezone: Some(x), ..self }),
    {
        GetInstrumentCandlesRequest { alignment_timezone: Some(x), ..self }
    }

    pub fn with_weekly_alignment(self, x: String) -> (r: Self)
        ensures
            r == (GetInstrumentCandlesRequest { weekly_alignment: Some(x), ..self }),
    {
        GetInstrumentCandlesRequest { weekly_alignment: Some(x), ..self }
    }

    /// The path parameters the URL template draws on.
    pub open spec fn path_fields(self) -> Seq<(Seq<char>, Option<Seq<char>>)> {
        seq![
            ("instrument"@, opt_view(self.instrument)),
        ]
    }

    /// The query fields, in the order they go on the wire.
    pub open spec fn query_fields(self) -> Seq<(Seq<char>, Option<QueryValue>)> {
        seq![
            ("price"@, opt_text(self.price)),
            ("granularity"@, opt_text(self.granularity)),
            ("count"@, opt_int(self.count)),
            ("from"@, opt_time(self.from)),
            ("to"@, opt_time(self.to)),
            ("smooth"@, opt_bool(self.smooth)),
            ("includeFirst"@, opt_bool(self.include_first)),
            ("dailyAlignment"@, opt_int(self.daily_alignment)),
            ("alignmentTimezone"@, opt_text(self.alignment_timezone)),
            ("weeklyAlignment"@, opt_text(self.weekly_alignment)),
        ]
    }

    /// Computes the exact request this operation sends.
    pub fn prepare(self, client: &Client) -> (r: Result<PreparedRequest, ApiError>)
        ensures
            prepare_matches(
                r,
                spec_prepare(
                    HttpMethod::Get,
                    self.uri@,
                    self.path_fields(),
                    self.query_fields(),
                    None,
                    client.host@,
                    client.authentication@,
                ),
            ),
    {
        let path: Vec<(String, Option<String>)> = vec![
            (String::from_str("instrument"), self.instrument),
        ];
        let query: Vec<(String, Option<QueryValue>)> = vec![
            (
                String::from_str("price"),
                match self.price {
                    Some(v) => Some(QueryValue::Text(v)),
                    None => None,
                },
            ),
            (
                String::from_str("granularity"),
                match self.granularity {
                    Some(v) => Some(QueryValue::Text(v)),
                    None => None,
                },
            ),
            (
                String::from_str("count"),
                match self.count {
                    Some(v) => Some(QueryValue::Int(v)),
                    None => None,
                },
            ),
            (
                String::from_str("from"),
                match self.from {
                    Some(v) => Some(QueryValue::Time(v)),
                    None => None,
                },
            ),
            (
                String::from_str("to"),
                match self.to {
                    Some(v) => Some(QueryValue::Time(v)),
                    None => None,
                },
            ),
            (
                String::from_str("smooth"),
                match self.smooth {
                    Some(v) => Some(QueryValue::Bool(v)),
                    None => None,
                },
            ),
            (
                String::from_str("includeFirst"),
                match self.include_first {
                    Some(v) => Some(QueryValue::Bool(v)),
                    None => None,
                },
            ),
            (
                String::from_str("dailyAlignment"),
                match self.daily_alignment {
                    Some(v) => Some(QueryValue::Int(v)),
                    None => None,
                },
            ),
            (
                String::from_str("alignmentTimezone"),
                match self.alignment_timezone {
                    Some(v) => Some(QueryValue::Text(v)),
                    None => None,
                },
            ),
            (
                String::from_str("weeklyAlignment"),
                match self.weekly_alignment {
                    Some(v) => Some(QueryValue::Text(v)),
                    None => None,
                },
            ),
        ];
        proof {
            assert(crate::url::params_view(path@) =~= self.path_fields());
            assert(crate::http::query_fields_view(query@) =~= self.query_fields());
        }
        prepare_request(HttpMethod::Get, self.uri.as_str(), path, query, None, client)
    }
}

/// Fetch a price for an instrument.
#[derive(Debug, Clone, PartialEq)]
pub struct GetInstrumentPriceRequest {
    /// URL template of the operation.
    pub uri: String,
    /// The authorization bearer token previously obtained by the client.
    pub authorization: Option<String>,
    /// Format of date-time fields in the request and response.
    pub accept_datetime_format: Option<String>,
    /// Name of the instrument.
    pub instrument: Option<String>,
    /// The time at which the desired price is in effect.
    pub time: Option<Timestamp>,
}

impl GetInstrumentPriceRequest {
    pub fn new() -> (r: GetInstrumentPriceRequest)
        ensures
            r.uri@ == "/v3/instruments/{instrument}/price"@,
            r.authorization is None,
            r.accept_datetime_format is None,
            r.instrument is None,
            r.time is None,
    {
        GetInstrumentPriceRequest {
            uri: String::from_str("/v3/instruments/{instrument}/price"),
            authorization: None,
            accept_datetime_format: None,
            instrument: None,
            time: None,
        }
    }

    pub fn with_uri(self, x: String) -> (r: Self)
        ensures
            r == (GetInstrumentPriceRequest { uri: x, ..self }),
    {
        GetInstrumentPriceRequest { uri: x, ..self }
    }

    pub fn with_authorization(self, x: String) -> (r: Self)
        ensures
            r == (GetInstrumentPriceRequest { authorization: Some(x), ..self }),
    {
        GetInstrumentPriceRequest { authorization: Some(x), ..self }
    }

    pub fn with_accept_datetime_format(self, x: String) -> (r: Self)
        ensures
            r == (GetInstrumentPriceRequest { accept_datetime_format: Some(x), ..self }),
    {
        GetInstrumentPriceRequest { accept_datetime_format: Some(x), ..self }
    }

    pub fn with_instrument(self, x: String) -> (r: Self)
        ensures
            r == (GetInstrumentPriceRequest { instrument: Some(x), ..self }),
    {
        GetInstrumentPriceRequest { instrument: Some(x), ..self }
    }

    pub fn with_time(self, x: Timestamp) -> (r: Self)
        ensures
            r == (GetInstrumentPriceRequest { time: Some(x), ..self }),
    {
        GetInstrumentPriceRequest { time: Some(x), ..self }
    }

    /// The path parameters the URL template draws on.
    pub open spec fn path_fields(self) -> Seq<(Seq<char>, Option<Seq<char>>)> {
        seq![
            ("instrument"@, opt_view(self.instrument)),
        ]
    }

    /// The query fields, in the order they go on the wire.
    pub open spec fn query_fields(self) -> Seq<(Seq<char>, Option<QueryValue>)> {
        seq![
            ("time"@, opt_time(self.time)),
        ]
    }

    /// Computes the exact request this operation sends.
    pub fn prepare(self, client: &Client) -> (r: Result<PreparedRequest, ApiError>)
        ensures
            prepare_matches(
                r,
                spec_prepare(
                    HttpMethod::Get,
                    self.uri@,
                    self.path_fields(),
                    self.query_fields(),
                    None,
                    client.host@,
                    client.authentication@,
                ),
            ),
    {
        let path: Vec<(String, Option<String>)> = vec![
            (String::from_str("instrument"), self.instrument),
        ];
        let query: Vec<(String, Option<QueryValue>)> = vec![
            (
                String::from_str("time"),
                match self.time {
                    Some(v) => Some(QueryValue::Time(v)),
                    None => None,
                },
            ),
        ];
        proof {
            assert(crate::url::params_view(path@) =~= self.path_fields());
            assert(crate::http::query_fields_view(query@) =~= self.query_fields());
        }
        prepare_request(HttpMethod::Get, self.uri.as_str(), path, query, None, client)
    }
}

/// Fetch a range of prices for an instrument.
#[derive(Debug, Clone, PartialEq)]
pub struct GetInstrumentPriceRangeRequest {
    /// URL template of the operation.
    pub uri: String,
    /// The authorization bearer token previously obtained by the client.
    pub authorization: Option<String>,
    /// Format of date-time fields in the request and response.
    pub accept_datetime_format: Option<String>,
    /// Name of the instrument.
    pub instrument: Option<String>,
    /// The start of the time range.
    pub from: Option<Timestamp>,
    /// The end of the time range.
    pub to: Option<Timestamp>,
}

impl GetInstrumentPriceRangeRequest {
    pub fn new() -> (r: GetInstrumentPriceRangeRequest)
        ensures
            r.uri@ == "/v3/instruments/{instrument}/price/range"@,
            r.authorization is None,
            r.accept_datetime_format is None,
            r.instrument is None,
            r.from is None,
            r.to is None,
    {
        GetInstrumentPriceRangeRequest {
            uri: String::from_str("/v3/instruments/{instrument}/price/range"),
            authorization: None,
            accept_datetime_format: None,
            instrument: None,
            from: None,
            to: None,
        }
    }

    pub fn with_uri(self, x: String) -> (r: Self)
        ensures
            r == (GetInstrumentPriceRangeRequest { uri: x, ..self }),
    {
        GetInstrumentPriceRangeRequest { uri: x, ..self }
    }

    pub fn with_authorization(self, x: String) -> (r: Self)
        ensures
            r == (GetInstrumentPriceRangeRequest { authorization: Some(x), ..self }),
    {
        GetInstrumentPriceRangeRequest { authorization: Some(x), ..self }
    }

    pub fn with_accept_datetime_format(self, x: String) -> (r: Self)
        ensures
            r == (GetInstrumentPriceRangeRequest { accept_datetime_format: Some(x), ..self }),
    {
        GetInstrumentPriceRangeRequest { accept_datetime_format: Some(x), ..self }
    }

    pub fn with_instrument(self, x: String) -> (r: Self)
        ensures
            r == (GetInstrumentPriceRangeRequest { instrument: Some(x), ..self }),
    {
        GetInstrumentPriceRangeRequest { instrument: Some(x), ..self }
    }

    pub fn with_from(self, x: Timestamp) -> (r: Self)
        ensures
            r == (GetInstrumentPriceRangeRequest { from: Some(x), ..self }),
    {
        GetInstrumentPriceRangeRequest { from: Some(x), ..self }
    }

    pub fn with_to(self, x: Timestamp) -> (r: Self)
        ensures
            r == (GetInstrumentPriceRangeRequest { to: Some(x), ..self }),
    {
        GetInstrumentPriceRangeRequest { to: Some(x), ..self }
    }

    /// The path parameters the URL template draws on.
    pub open spec fn path_fields(self) -> Seq<(Seq<char>, Option<Seq<char>>)> {
        seq![
            ("instrument"@, opt_view(self.instrument)),
        ]
    }

    /// The query fields, in the order they go on the wire.
    pub open spec fn query_fields(self) -> Seq<(Seq<char>, Option<QueryValue>)> {
        seq![
            ("from"@, opt_time(self.from)),
            ("to"@, opt_time(self.to)),
        ]
    }

    /// Computes the exact request this operation sends.
    pub fn prepare(self, client: &Client) -> (r: Result<PreparedRequest, ApiError>)
        ensures
            prepare_matches(
                r,
                spec_prepare(
                    HttpMethod::Get,
                    self.uri@,
                    self.path_fields(),
                    self.query_fields(),
                    None,
                    client.host@,
                    client.authentication@,
                ),
            ),
    {
        let path: Vec<(String, Option<String>)> = vec![
            (String::from_str("instrument"), self.instrument),
        ];
        let query: Vec<(String, Option<QueryValue>)> = vec![
            (
                String::from_str("from"),
                match self.from {
                    Some(v) => Some(QueryValue::Time(v)),
                    None => None,
                },
            ),
            (
                String::from_str("to"),
                match self.to {
                    Some(v) => Some(QueryValue::Time(v)),
                    None => None,
                },
            ),
        ];
        proof {
            assert(crate::url::params_view(path@) =~= self.path_fields());
            assert(crate::http::query_fields_view(query@) =~= self.query_fields());
        }
        prepare_request(HttpMethod::Get, self.uri.as_str(), path, query, None, client)
    }
}

/// Fetch an order book for an instrument.
#[derive(Debug, Clone, PartialEq)]
pub struct GetOrderBookRequest {
    /// URL template of the operation.
    pub uri: String,
    /// The authorization bearer token previously obtained by the client.
    pub authorization: Option<String>,
    /// Format of date-time fields in the request and response.
    pub accept_datetime_format: Option<String>,
    /// Name of the instrument.
    pub instrument: Option<String>,
    /// The time at which the desired price is in effect.
    pub time: Option<Timestamp>,
}

impl GetOrderBookRequest {
    pub fn new() -> (r: GetOrderBookRequest)
        ensures
            r.uri@ == "/v3/instruments/{instrument}/orderBook"@,
            r.authorization is None,
            r.accept_datetime_format is None,
            r.instrument is None,
            r.time is None,
    {
        GetOrderBookRequest {
            uri: String::from_str("/v3/instruments/{instrument}/orderBook"),
            authorization: None,
            accept_datetime_format: None,
            instrument: None,
            time: None,
        }
    }

    pub fn with_uri(self, x: String) -> (r: Self)
        ensures
            r == (GetOrderBookRequest { uri: x, ..self }),
    {
        GetOrderBookRequest { uri: x, ..self }
    }

    pub fn with_authorization(self, x: String) -> (r: Self)
        ensures
            r == (GetOrderBookRequest { authorization: Some(x), ..self }),
    {
        GetOrderBookRequest { authorization: Some(x), ..self }
    }

    pub fn with_accept_datetime_format(self, x: String) -> (r: Self)
        ensures
            r == (GetOrderBookRequest { accept_datetime_format: Some(x), ..self }),
    {
        GetOrderBookRequest { accept_datetime_format: Some(x), ..self }
    }

    pub fn with_instrument(self, x: String) -> (r: Self)
        ensures
            r == (GetOrderBookRequest { instrument: Some(x), ..self }),
    {
        GetOrderBookRequest { instrument: Some(x), ..self }
    }

    pub fn with_time(self, x: Timestamp) -> (r: Self)
        ensures
            r == (GetOrderBookRequest { time: Some(x), ..self }),
    {
        GetOrderBookRequest { time: Some(x), ..self }
    }

    /// The path parameters the URL template draws on.
    pub open spec fn path_fields(self) -> Seq<(Seq<char>, Option<Seq<char>>)> {
        seq![
            ("instrument"@, opt_view(self.instrument)),
        ]
    }

    /// The query fields, in the order they go on the wire.
    pub open spec fn query_fields(self) -> Seq<(Seq<char>, Option<QueryValue>)> {
        seq![
            ("time"@, opt_time(self.time)),
        ]
    }

    /// Computes the exact request this operation sends.
    pub fn prepare(self, client: &Client) -> (r: Result<PreparedRequest, ApiError>)
        ensures
            prepare_matches(
                r,
                spec_prepare(
                    HttpMethod::Get,
                    self.uri@,
                    self.path_fields(),
                    self.query_fields(),
                    None,
                    client.host@,
                    client.authentication@,
                ),
            ),
    {
        let path: Vec<(String, Option<String>)> = vec![
            (String::from_str("instrument"), self.instrument),
        ];
        let query: Vec<(String, Option<QueryValue>)> = vec![
            (
                String::from_str("time"),
                match self.time {
                    Some(v) => Some(QueryValue::Time(v)),
                    None => None,
                },
            ),
        ];
        proof {
            assert(crate::url::params_view(path@) =~= self.path_fields());
            assert(crate::http::query_fields_view(query@) =~= self.query_fields());
        }
        prepare_request(HttpMethod::Get, self.uri.as_str(), path, query, None, client)
    }
}

/// Fetch a position book for an instrument.
#[derive(Debug, Clone, PartialEq)]
pub struct GetPositionBookRequest {
    /// URL template of the operation.
    pub uri: String,
    /// The authorization bearer token previously obtained by the client.
    pub authorization: Option<String>,
    /// Format of date-time fields in the request and response.
    pub accept_datetime_format: Option<String>,
    /// Name of the instrument.
    pub instrument: Option<String>,
    /// The time at which the desired price is in effect.
    pub time: Option<Timestamp>,
}

impl GetPositionBookRequest {
    pub fn new() -> (r: GetPositionBookRequest)
        ensures
            r.uri@ == "/v3/instruments/{instrument}/positionBook"@,
            r.authorization is None,
            r.accept_datetime_format is None,
            r.instrument is None,
            r.time is None,
    {
        GetPositionBookRequest {
            uri: String::from_str("/v3/instruments/{instrument}/positionBook"),
            authorization: None,
            accept_datetime_format: None,
            instrument: None,
            time: None,
        }
    }

    pub fn with_uri(self, x: String) -> (r: Self)
        ensures
            r == (GetPositionBookRequest { uri: x, ..self }),
    {
        GetPositionBookRequest { uri: x, ..self }
    }

    pub fn with_authorization(self, x: String) -> (r: Self)
        ensures
            r == (GetPositionBookRequest { authorization: Some(x), ..self }),
    {
        GetPositionBookRequest { authorization: Some(x), ..self }
    }

    pub fn with_accept_datetime_format(self, x: String) -> (r: Self)
        ensures
            r == (GetPositionBookRequest { accept_datetime_format: Some(x), ..self }),
    {
        GetPositionBookRequest { accept_datetime_format: Some(x), ..self }
    }

    pub fn with_instrument(self, x: String) -> (r: Self)
        ensures
            r == (GetPositionBookRequest { instrument: Some(x), ..self }),
    {
        GetPositionBookRequest { instrument: Some(x), ..self }
    }

    pub fn with_time(self, x: Timestamp) -> (r: Self)
        ensures
            r == (GetPositionBookRequest { time: Some(x), ..self }),
    {
        GetPositionBookRequest { time: Some(x), ..self }
    }

    /// The path parameters the URL template draws on.
    pub open spec fn path_fields(self) -> Seq<(Seq<char>, Option<Seq<char>>)> {
        seq![
            ("instrument"@, opt_view(self.instrument)),
        ]
    }

    /// The query fields, in the order they go on the wire.
    pub open spec fn query_fields(self) -> Seq<(Seq<char>, Option<QueryValue>)> {
        seq![
            ("time"@, opt_time(self.time)),
        ]
    }

    /// Computes the exact request this operation sends.
    pub fn prepare(self, client: &Client) -> (r: Result<PreparedRequest, ApiError>)
        ensures
            prepare_matches(
                r,
                spec_prepare(
                    HttpMethod::Get,
                    self.uri@,
                    self.path_fields(),
                    self.query_fields(),
                    None,
                    client.host@,
                    client.authentication@,
                ),
            ),
    {
        let path: Vec<(String, Option<String>)> = vec![
            (String::from_str("instrument"), self.instrument),
        ];
        let query: Vec<(String, Option<QueryValue>)> = vec![
            (
                String::from_str("time"),
                match self.time {
                    Some(v) => Some(QueryValue::Time(v)),
                    None => None,
                },
            ),
        ];
        proof {
            assert(crate::url::params_view(path@) =~= self.path_fields());
            assert(crate::http::query_fields_view(query@) =~= self.query_fields());
        }
        prepare_request(HttpMethod::Get, self.uri.as_str(), path, query, None, client)
    }
}

} // verus!
