//! Dispatch-time request preparation: the HTTP verb, the composed URL,
//! the encoded query pairs, and the JSON body, computed from an
//! operation's fields and the client configuration.  What leaves this
//! module is exactly what the transport must send.

use vstd::prelude::*;

use crate::client::Client;
use crate::decimal::DecimalString;
use crate::errors::ApiError;
use crate::json::json_object_text;
use crate::rfc3339::{format_rfc3339, spec_format_rfc3339};
use crate::text::{append_i32, int_str};
use crate::timestamp::Timestamp;
use crate::url::{params_view, spec_substitute, substitute};

verus! {

#[derive(Debug, Clone, Copy, PartialEq, Eq, Structural)]
pub enum HttpMethod {
    Get,
    Post,
    Put,
    Patch,
}

impl HttpMethod {
    /// The verb as it goes on the wire.
    pub fn name(&self) -> (r: &'static str)
        ensures
            match self {
                HttpMethod::Get => r@ == "GET"@,
                HttpMethod::Post => r@ == "POST"@,
                HttpMethod::Put => r@ == "PUT"@,
                HttpMethod::Patch => r@ == "PATCH"@,
            },
    {
        match self {
            HttpMethod::Get => "GET",
            HttpMethod::Post => "POST",
            HttpMethod::Put => "PUT",
            HttpMethod::Patch => "PATCH",
        }
    }
}

/// One query parameter value, still typed.
#[derive(Debug, Clone, PartialEq, Eq)]
pub enum QueryValue {
    Text(String),
    Int(i32),
    Bool(bool),
    Time(Timestamp),
    List(Vec<String>),
    Decimal(DecimalString),
}

/// The items of a string list, viewed.
pub open spec fn strings_view(l: Seq<String>) -> Seq<Seq<char>> {
    Seq::new(l.len(), |i: int| l[i]@)
}

/// Comma-joined items, from position `i` on.
pub open spec fn comma_join_from(items: Seq<Seq<char>>, i: int) -> Seq<char>
    decreases items.len() - i,
{
    if i < 0 || i >= items.len() {
        Seq::empty()
    } else if i + 1 == items.len() {
        items[i]
    } else {
        items[i] + seq![','] + comma_join_from(items, i + 1)
    }
}

/// The wire text of a query value: text and decimals as they stand,
/// numbers in decimal, booleans as `true`/`false`, instants in RFC 3339,
/// lists comma-joined.
pub open spec fn query_value_text(v: QueryValue) -> Seq<char> {
    match v {
        QueryValue::Text(s) => s@,
        QueryValue::Int(n) => int_str(n as int),
        QueryValue::Bool(b) => if b {
            seq!['t', 'r', 'u', 'e']
        } else {
            seq!['f', 'a', 'l', 's', 'e']
        },
        QueryValue::Time(ts) => spec_format_rfc3339(ts),
        QueryValue::List(l) => comma_join_from(strings_view(l@), 0),
        QueryValue::Decimal(d) => d@,
    }
}

/// Renders a query value as its wire text.
pub fn encode_query_value(v: &QueryValue) -> (r: String)
    ensures
        r@ == query_value_text(*v),
{
    match v {
        QueryValue::Text(s) => s.clone(),
        QueryValue::Int(n) => {
            let mut out = String::new();
            append_i32(&mut out, *n);
            proof {
                assert(out@ =~= int_str(*n as int));
            }
            out
        },
        QueryValue::Bool(b) => {
            proof {
                reveal_strlit("true");
                reveal_strlit("false");
                assert("true"@ =~= seq!['t', 'r', 'u', 'e']);
                assert("false"@ =~= seq!['f', 'a', 'l', 's', 'e']);
            }
            if *b {
                String::from_str("true")
            } else {
                String::from_str("false")
            }
        },
        QueryValue::Time(ts) => format_rfc3339(ts),
        QueryValue::List(l) => {
            let ghost sv = strings_view(l@);
            let mut out = String::new();
            let m = l.len();
            let mut k: usize = 0;
            while k < m
                invariant
                    k <= m == l@.len(),
                    sv == strings_view(l@),
                    comma_join_from(sv, 0) == out@ + comma_join_from(sv, k as int),
                decreases m - k,
            {
                let ghost out0 = out@;
                out.append(l[k].as_str());
                if k + 1 < m {
                    proof {
                        reveal_strlit(",");
                    }
                    out.append(",");
                    proof {
                        assert(","@ =~= seq![',']);
                        assert(out0 + (sv[k as int] + seq![','] + comma_join_from(
                            sv,
                            k + 1 as int,
                        )) =~= out@ + comma_join_from(sv, k + 1 as int));
                    }
                } else {
                    proof {
                        assert(out0 + sv[k as int] =~= out@);
                        assert(comma_join_from(sv, k + 1 as int) =~= Seq::<char>::empty());
                        assert(out0 + comma_join_from(sv, k as int) =~= out@ + comma_join_from(
                            sv,
                            k + 1 as int,
                        ));
                    }
                }
                k = k + 1;
            }
            proof {
                assert(comma_join_from(sv, 0) =~= out@);
            }
            out
        },
        QueryValue::Decimal(d) => d.as_str().to_owned(),
    }
}

/// A fully computed request: everything the transport needs to send it.
#[derive(Debug, Clone, PartialEq, Eq)]
pub struct PreparedRequest {
    pub method: HttpMethod,
    /// The absolute URL, path placeholders substituted.
    pub url: String,
    /// The token for the bearer authorization header.
    pub bearer: String,
    /// Encoded query pairs, one per set query field, in declaration order.
    pub query: Vec<(String, String)>,
    /// JSON body text, for the operations that send one.
    pub body: Option<String>,
}

/// The view of a prepared request.
pub struct PreparedView {
    pub method: HttpMethod,
    pub url: Seq<char>,
    pub bearer: Seq<char>,
    pub query: Seq<(Seq<char>, Seq<char>)>,
    pub body: Option<Seq<char>>,
}

/// The views of encoded query pairs.
pub open spec fn pairs_view(q: Seq<(String, String)>) -> Seq<(Seq<char>, Seq<char>)> {
    Seq::new(q.len(), |i: int| (q[i].0@, q[i].1@))
}

impl View for PreparedRequest {
    type V = PreparedView;

    open spec fn view(&self) -> PreparedView {
        PreparedView {
            method: self.method,
            url: self.url@,
            bearer: self.bearer@,
            query: pairs_view(self.query@),
            body: match self.body {
                Some(b) => Some(b@),
                None => None,
            },
        }
    }
}

/// The views of an operation's typed query fields.
pub open spec fn query_fields_view(q: Seq<(String, Option<QueryValue>)>) -> Seq<
    (Seq<char>, Option<QueryValue>),
> {
    Seq::new(q.len(), |i: int| (q[i].0@, q[i].1))
}

/// The encoded pairs of the set query fields, from `i` on, in order.
pub open spec fn query_pairs_from(fs: Seq<(Seq<char>, Option<QueryValue>)>, i: int) -> Seq<
    (Seq<char>, Seq<char>),
>
    decreases fs.len() - i,
{
    if i < 0 || i >= fs.len() {
        Seq::empty()
    } else {
        match fs[i].1 {
            None => query_pairs_from(fs, i + 1),
            Some(v) => seq![(fs[i].0, query_value_text(v))] + query_pairs_from(fs, i + 1),
        }
    }
}

/// What preparing a request yields: the URL from the substituted template
/// on the host, the bearer token from the client, the encoded query pairs,
/// and the JSON body; or the name of the first unset path parameter.
pub open spec fn spec_prepare(
    method: HttpMethod,
    template: Seq<char>,
    path: Seq<(Seq<char>, Option<Seq<char>>)>,
    query: Seq<(Seq<char>, Option<QueryValue>)>,
    body: Option<Seq<(Seq<char>, Option<Seq<char>>)>>,
    host: Seq<char>,
    token: Seq<char>,
) -> Result<PreparedView, Seq<char>> {
    match spec_substitute(template, path) {
        Err(name) => Err(name),
        Ok(p) => Ok(
            PreparedView {
                method,
                url: "https://"@ + host + p,
                bearer: token,
                query: query_pairs_from(query, 0),
                body: match body {
                    None => None,
                    Some(fs) => Some(json_object_text(fs)),
                },
            },
        ),
    }
}

/// How a prepared result relates to its specification: the request is
/// exactly the specified one, or the typed error names the specified
/// missing parameter.
pub open spec fn prepare_matches(
    r: Result<PreparedRequest, ApiError>,
    expected: Result<PreparedView, Seq<char>>,
) -> bool {
    match r {
        Ok(p) => expected == Ok::<PreparedView, Seq<char>>(p@),
        Err(e) => e matches ApiError::MissingPathParameter { name } && expected == Err::<
            PreparedView,
            Seq<char>,
        >(name@),
    }
}

/// The view of an optional string field.
pub open spec fn opt_view(x: Option<String>) -> Option<Seq<char>> {
    match x {
        Some(v) => Some(v@),
        None => None,
    }
}

pub open spec fn opt_text(x: Option<String>) -> Option<QueryValue> {
    match x {
        Some(v) => Some(QueryValue::Text(v)),
        None => None,
    }
}

pub open spec fn opt_int(x: Option<i32>) -> Option<QueryValue> {
    match x {
        Some(v) => Some(QueryValue::Int(v)),
        None => None,
    }
}

pub open spec fn opt_bool(x: Option<bool>) -> Option<QueryValue> {
    match x {
        Some(v) => Some(QueryValue::Bool(v)),
        None => None,
    }
}

pub open spec fn opt_time(x: Option<Timestamp>) -> Option<QueryValue> {
    match x {
        Some(v) => Some(QueryValue::Time(v)),
        None => None,
    }
}

pub open spec fn opt_list(x: Option<Vec<String>>) -> Option<QueryValue> {
    match x {
        Some(v) => Some(QueryValue::List(v)),
        None => None,
    }
}

pub open spec fn opt_decimal(x: Option<DecimalString>) -> Option<QueryValue> {
    match x {
        Some(v) => Some(QueryValue::Decimal(v)),
        None => None,
    }
}

/// The JSON token of an optional string body field: quoted and escaped.
pub open spec fn opt_json_string(x: Option<String>) -> Option<Seq<char>> {
    match x {
        Some(v) => Some(crate::json::json_quoted(v@)),
        None => None,
    }
}

/// The JSON token of an optional decimal body field: the decimal's text
/// as a JSON string, the form the wire carries decimals in.
pub open spec fn opt_json_decimal(x: Option<DecimalString>) -> Option<Seq<char>> {
    match x {
        Some(d) => Some(crate::json::json_quoted(d@)),
        None => None,
    }
}

/// Renders an optional string body field as a JSON string token.
pub fn body_string(x: Option<String>) -> (r: Option<String>)
    ensures
        opt_view(r) == opt_json_string(x),
{
    match x {
        None => None,
        Some(s) => {
            let mut out = String::new();
            crate::json::append_json_quoted(&mut out, s.as_str());
            proof {
                assert(Seq::<char>::empty() + crate::json::json_quoted(s@) =~= crate::json::json_quoted(s@));
            }
            Some(out)
        },
    }
}

/// Renders an optional decimal body field as a JSON string token holding
/// the decimal's text.
pub fn body_decimal(x: Option<DecimalString>) -> (r: Option<String>)
    ensures
        opt_view(r) == opt_json_decimal(x),
{
    match x {
        None => None,
        Some(d) => {
            let mut out = String::new();
            crate::json::append_json_quoted(&mut out, d.as_str());
            proof {
                assert(Seq::<char>::empty() + crate::json::json_quoted(d@)
                    =~= crate::json::json_quoted(d@));
            }
            Some(out)
        },
    }
}

/// Computes the request an operation sends: substitutes the URL template,
/// composes the absolute URL on the client's host, takes the client's
/// bearer token, encodes the set query fields in declaration order, and
/// frames the JSON body.  Fails exactly when a path placeholder that the
/// template references was never set.
pub fn prepare_request(
    method: HttpMethod,
    template: &str,
    path: Vec<(String, Option<String>)>,
    query: Vec<(String, Option<QueryValue>)>,
    body: Option<Vec<(String, Option<String>)>>,
    client: &Client,
) -> (r: Result<PreparedRequest, ApiError>)
    ensures
        prepare_matches(
            r,
            spec_prepare(
                method,
                template@,
                params_view(path@),
                query_fields_view(query@),
                match body {
                    None => None,
                    Some(fs) => Some(params_view(fs@)),
                },
                client.host@,
                client.authentication@,
            ),
        ),
{
    let p = match substitute(template, &path) {
        Ok(p) => p,
        Err(e) => {
            return Err(e);
        },
    };
    let mut url = String::from_str("https://");
    url.append(client.host.as_str());
    url.append(p.as_str());
    let ghost qfv = query_fields_view(query@);
    let mut pairs: Vec<(String, String)> = Vec::new();
    let m = query.len();
    let mut k: usize = 0;
    while k < m
        invariant
            k <= m == query@.len(),
            qfv == query_fields_view(query@),
            query_pairs_from(qfv, 0) == pairs_view(pairs@) + query_pairs_from(qfv, k as int),
        decreases m - k,
    {
        let ghost pairs0 = pairs_view(pairs@);
        let f = &query[k];
        match &f.1 {
            None => {},
            Some(v) => {
                let key = f.0.clone();
                let text = encode_query_value(v);
                pairs.push((key, text));
                proof {
                    assert(pairs_view(pairs@) =~= pairs0 + seq![
                        (qfv[k as int].0, query_value_text(qfv[k as int].1->Some_0)),
                    ]);
                    assert(pairs0 + (seq![(qfv[k as int].0, query_value_text(qfv[k as int].1->Some_0))]
                        + query_pairs_from(qfv, k + 1 as int)) =~= pairs_view(pairs@)
                        + query_pairs_from(qfv, k + 1 as int));
                }
            },
        }
        k = k + 1;
    }
    proof {
        assert(pairs_view(pairs@) + query_pairs_from(qfv, m as int) =~= pairs_view(pairs@));
    }
    let body_text = match body {
        None => None,
        Some(fields) => Some(crate::json::render_json_object(&fields)),
    };
    let req = PreparedRequest { method, url, bearer: client.authentication.clone(), query: pairs, body: body_text };
    Ok(req)
}

} // verus!
