//! Account-independent pricing operations.  Each operation is a builder
//! over optional fields, a fixed URL template, and a `prepare` that computes
//! the exact request.

use vstd::prelude::*;

use crate::client::Client;
use crate::errors::ApiError;
use crate::http::{
    opt_time, opt_view, prepare_matches, prepare_request, spec_prepare, HttpMethod,
    PreparedRequest, QueryValue,
};
use crate::timestamp::Timestamp;

verus! {

/// Get pricing information for a specified instrument.
#[derive(Debug, Clone, PartialEq)]
pub struct GetBasePricesRequest {
    /// URL template of the operation.
    pub uri: String,
    /// The authorization bearer token previously obtained by the client.
    pub authorization: Option<String>,
    /// Format of date-time fields in the request and response.
    pub accept_datetime_format: Option<String>,
    /// The time at which the desired price is in effect.
    pub time: Option<Timestamp>,
}

impl GetBasePricesRequest {
    pub fn new() -> (r: GetBasePricesRequest)
        ensures
            r.uri@ == "/v3/pricing"@,
            r.authorization is None,
            r.accept_datetime_format is None,
            r.time is None,
    {
        GetBasePricesRequest {
            uri: String::from_str("/v3/pricing"),
            authorization: None,
            accept_datetime_format: None,
            time: None,
        }
    }

    pub fn with_uri(self, x: String) -> (r: Self)
        ensures
            r == (GetBasePricesRequest { uri: x, ..self }),
    {
        GetBasePricesRequest { uri: x, ..self }
    }

    pub fn with_authorization(self, x: String) -> (r: Self)
        ensures
            r == (GetBasePricesRequest { authorization: Some(x), ..self }),
    {
        GetBasePricesRequest { authorization: Some(x), ..self }
    }

    pub fn with_accept_datetime_format(self, x: String) -> (r: Self)
        ensures
            r == (GetBasePricesRequest { accept_datetime_format: Some(x), ..self }),
    {
        GetBasePricesRequest { accept_datetime_format: Some(x), ..self }
    }

    pub fn with_time(self, x: Timestamp) -> (r: Self)
        ensures
            r == (GetBasePricesRequest { time: Some(x), ..self }),
    {
        GetBasePricesRequest { time: Some(x), ..self }
    }

    /// The path parameters the URL template draws on.
    pub open spec fn path_fields(self) -> Seq<(Seq<char>, Option<Seq<char>>)> {
        Seq::empty()
    }

    /// The query fields, in the order they go on the wire.
    pub open spec fn query_fields(self) -> Seq<(Seq<char>, Option<QueryValue>)> {
        seq![
            ("time"@, opt_time(self.time)),
        ]
    }

    /// Computes the exact request this operation sends.
    pub fn prepare(self, client: &Client) -> (r: Result<PreparedRequest, ApiError>)
        ensures
            prepare_matches(
                r,
                spec_prepare(
                    HttpMethod::Get,
                    self.uri@,
                    self.path_fields(),
                    self.query_fields(),
                    None,
                    client.host@,
                    client.authentication@,
                ),
            ),
    {
        let path: Vec<(String, Option<String>)> = Vec::new();
        let query: Vec<(String, Option<QueryValue>)> = vec![
            (
                String::from_str("time"),
                match self.time {
                    Some(v) => Some(QueryValue::Time(v)),
                    None => None,
                },
            ),
        ];
        proof {
            assert(crate::url::params_view(path@) =~= self.path_fields());
            assert(crate::http::query_fields_view(query@) =~= self.query_fields());
        }
        prepare_request(HttpMethod::Get, self.uri.as_str(), path, query, None, client)
    }
}

/// Get pricing information for a specified range of prices.
#[derive(Debug, Clone, PartialEq)]
pub struct GetPriceRangeRequest {
    /// URL template of the operation.
    pub uri: String,
    /// The authorization bearer token previously obtained by the client.
    pub authorization: Option<String>,
    /// Format of date-time fields in the request and response.
    pub accept_datetime_format: Option<String>,
    /// Name of the instrument.
    pub instrument: Option<String>,
    /// The start of the time range.
    pub from: Option<Timestamp>,
    /// The end of the time range.
    pub to: Option<Timestamp>,
}

impl GetPriceRangeRequest {
    pub fn new() -> (r: GetPriceRangeRequest)
        ensures
            r.uri@ == "/v3/pricing/range"@,
            r.authorization is None,
            r.accept_datetime_format is None,
            r.instrument is None,
            r.from is None,
            r.to is None,
    {
        GetPriceRangeRequest {
            uri: String::from_str("/v3/pricing/range"),
            authorization: None,
            accept_datetime_format: None,
            instrument: None,
            from: None,
            to: None,
        }
    }

    pub fn with_uri(self, x: String) -> (r: Self)
        ensures
            r == (GetPriceRangeRequest { uri: x, ..self }),
    {
        GetPriceRangeRequest { uri: x, ..self }
    }

    pub fn with_authorization(self, x: String) -> (r: Self)
        ensures
            r == (GetPriceRangeRequest { authorization: Some(x), ..self }),
    {
        GetPriceRangeRequest { authorization: Some(x), ..self }
    }

    pub fn with_accept_datetime_format(self, x: String) -> (r: Self)
        ensures
            r == (GetPriceRangeRequest { accept_datetime_format: Some(x), ..self }),
    {
        GetPriceRangeRequest { accept_datetime_format: Some(x), ..self }
    }

    pub fn with_instrument(self, x: String) -> (r: Self)
        ensures
            r == (GetPriceRangeRequest { instrument: Some(x), ..self }),
    {
        GetPriceRangeRequest { instrument: Some(x), ..self }
    }

    pub fn with_from(self, x: Timestamp) -> (r: Self)
        ensures
            r == (GetPriceRangeRequest { from: Some(x), ..self }),
    {
        GetPriceRangeRequest { from: Some(x), ..self }
    }

    pub fn with_to(self, x: Timestamp) -> (r: Self)
        ensures
            r == (GetPriceRangeRequest { to: Some(x), ..self }),
    {
        GetPriceRangeRequest { to: Some(x), ..self }
    }

    /// The path parameters the URL template draws on.
    pub open spec fn path_fields(self) -> Seq<(Seq<char>, Option<Seq<char>>)> {
        seq![
            ("instrument"@, opt_view(self.instrument)),
        ]
    }

    /// The query fields, in the order they go on the wire.
    pub open spec fn query_fields(self) -> Seq<(Seq<char>, Option<QueryValue>)> {
        seq![
            ("from"@, opt_time(self.from)),
            ("to"@, opt_time(self.to)),
        ]
    }

    /// Computes the exact request this operation sends.
    pub fn prepare(self, client: &Client) -> (r: Result<PreparedRequest, ApiError>)
        ensures
            prepare_matches(
                r,
                spec_prepare(
                    HttpMethod::Get,
                    self.uri@,
                    self.path_fields(),
                    self.query_fields(),
                    None,
                    client.host@,
                    client.authentication@,
                ),
            ),
    {
        let path: Vec<(String, Option<String>)> = vec![
            (String::from_str("instrument"), self.instrument),
        ];
        let query: Vec<(String, Option<QueryValue>)> = vec![
            (
                String::from_str("from"),
                match self.from {
                    Some(v) => Some(QueryValue::Time(v)),
                    None => None,
                },
            ),
            (
                String::from_str("to"),
                match self.to {
                    Some(v) => Some(QueryValue::Time(v)),
                    None => None,
                },
            ),
        ];
        proof {
            assert(crate::url::params_view(path@) =~= self.path_fields());
            assert(crate::http::query_fields_view(query@) =~= self.query_fields());
        }
        prepare_request(HttpMethod::Get, self.uri.as_str(), path, query, None, client)
    }
}

} // verus!
