//! The scalar field codecs of the wire format.
//!
//! Timestamps travel as optional RFC 3339 strings, with the service quirk
//! that the sentinel string `"0"` means "no value" on the way in; encoding
//! never emits the sentinel.  A string that is neither absent, the
//! sentinel, nor a parseable date-time is a fatal decode error, never a
//! silent "no value".  Decimals travel as optional numeric strings; a
//! non-numeric string is a recoverable decode error.

use vstd::prelude::*;

use crate::decimal::{is_float_literal, DecimalString};
use crate::errors::DecodeError;
use crate::rfc3339::{format_rfc3339, parse_rfc3339, spec_format_rfc3339, spec_parse_rfc3339};
use crate::timestamp::Timestamp;

verus! {

/// The string that the service uses for "never" in timestamp fields.
pub open spec fn timestamp_sentinel() -> Seq<char> {
    seq!['0']
}

/// Decodes an optional timestamp field.  Absence and the sentinel both
/// yield no value; anything else must be a date-time in range, or the
/// whole decode fails fatally.
pub fn decode_timestamp_field(x: Option<&str>) -> (r: Result<Option<Timestamp>, DecodeError>)
    ensures
        match x {
            None => r == Ok::<Option<Timestamp>, DecodeError>(None),
            Some(s) => {
                if s@ == timestamp_sentinel() {
                    r == Ok::<Option<Timestamp>, DecodeError>(None)
                } else {
                    match spec_parse_rfc3339(s@) {
                        Some(v) => r matches Ok(Some(ts)) && ts.sec() == v.0 && ts.ns() == v.1,
                        None => r matches Err(e) && e matches DecodeError::MalformedTimestamp {
                            input,
                        } && input@ == s@,
                    }
                }
            },
        },
{
    match x {
        None => Ok(None),
        Some(s) => {
            if s.unicode_len() == 1 && s.get_char(0) == '0' {
                proof {
                    assert(s@ =~= timestamp_sentinel());
                }
                return Ok(None);
            }
            proof {
                assert(s@ != timestamp_sentinel());
            }
            match parse_rfc3339(s) {
                Some(ts) => Ok(Some(ts)),
                None => Err(DecodeError::MalformedTimestamp { input: s.to_owned() }),
            }
        },
    }
}

/// Encodes an optional timestamp field: the canonical RFC 3339 rendering,
/// which is never the sentinel.
pub fn encode_timestamp_field(x: Option<&Timestamp>) -> (r: Option<String>)
    ensures
        match x {
            None => r is None,
            Some(ts) => r matches Some(w) && w@ == spec_format_rfc3339(*ts) && w@
                != timestamp_sentinel(),
        },
{
    match x {
        None => None,
        Some(ts) => {
            let w = format_rfc3339(ts);
            proof {
                use_type_invariant(ts);
                crate::rfc3339::lemma_format_parse_round_trip(*ts);
                assert(w@.len() >= 20);
            }
            Some(w)
        },
    }
}

/// Decodes an optional decimal field.  Absence yields no value; a
/// non-numeric string is a recoverable decode error.
pub fn decode_decimal_field(x: Option<&str>) -> (r: Result<Option<DecimalString>, DecodeError>)
    ensures
        match x {
            None => r == Ok::<Option<DecimalString>, DecodeError>(None),
            Some(s) => {
                if is_float_literal(s@) {
                    r matches Ok(Some(d)) && d@ == s@
                } else {
                    r matches Err(e) && e matches DecodeError::MalformedDecimal { input }
                        && input@ == s@
                }
            },
        },
{
    match x {
        None => Ok(None),
        Some(s) => {
            match DecimalString::new(s.to_owned()) {
                Some(d) => Ok(Some(d)),
                None => Err(DecodeError::MalformedDecimal { input: s.to_owned() }),
            }
        },
    }
}

/// Encodes an optional decimal field: the numeric text itself.
pub fn encode_decimal_field(x: Option<&DecimalString>) -> (r: Option<String>)
    ensures
        match x {
            None => r is None,
            Some(d) => r matches Some(w) && w@ == d@,
        },
{
    match x {
        None => None,
        Some(d) => Some(d.as_str().to_owned()),
    }
}

} // verus!
