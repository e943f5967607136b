//! Activity fetcher, compute side: extracting the last-update timestamp from
//! a fetched status body. The HTTP request itself is performed by the caller,
//! which hands the response body in as a string.

use vstd::prelude::*;

verus! {

/// Whether a string parses as a JSON document. `serde_json` parsing is
/// deterministic, so this is a function of the text alone.
pub uninterp spec fn json_parse_ok(body: Seq<char>) -> bool;

/// The integer value of the top-level `timestamp` field of a JSON document,
/// when the document has one that is representable as a 64-bit signed
/// integer; `None` otherwise. A function of the text alone, defined when
/// `json_parse_ok` holds of it.
pub uninterp spec fn json_timestamp_field(body: Seq<char>) -> Option<i64>;

/// Whether `millis` is a representable point in time: within the range of
/// epoch milliseconds that `chrono` accepts. A function of the value alone.
pub uninterp spec fn chrono_millis_in_range(millis: i64) -> bool;

/// An error of the fetch side, per the error taxonomy: the transport failed,
/// the body was not JSON, or the JSON did not carry a usable timestamp.
#[derive(Clone, Copy, Debug, PartialEq, Eq, Structural)]
pub enum FetchError {
    /// The HTTP request could not complete (DNS, connection, transport).
    NetworkError,
    /// The response body is not valid JSON.
    ParseError,
    /// The JSON has no integer `timestamp` field, or its value is not a
    /// representable point in time.
    SchemaError,
}

/// A point in time: epoch milliseconds, naive UTC, within the representable
/// range.
#[derive(Clone, Copy, Debug, PartialEq, Eq, Structural)]
pub struct Timestamp {
    pub millis: i64,
}

/// What timestamp extraction yields on a body, over the named outcomes of
/// the JSON parse and the range check.
pub open spec fn extract_spec(body: Seq<char>) -> Result<i64, FetchError> {
    if !json_parse_ok(body) {
        Err(FetchError::ParseError)
    } else {
        match json_timestamp_field(body) {
            Option::None => Err(FetchError::SchemaError),
            Option::Some(t) => if chrono_millis_in_range(t) {
                Ok(t)
            } else {
                Err(FetchError::SchemaError)
            },
        }
    }
}

/// Relies on `serde_json::from_str::<Value>`, `Value::get` and
/// `Value::as_i64`: parsing is deterministic and the map behind a JSON object
/// is ordered, so both outcomes are functions of the body text alone.
/// Returns `None` when the body is not valid JSON, and otherwise the integer
/// value of the top-level `timestamp` field, if there is one.
#[verifier::external_body]
fn parse_timestamp_field(body: &str) -> (r: Option<Option<i64>>)
    ensures
        r is Some <==> json_parse_ok(body@),
        json_parse_ok(body@) ==> r == Some(json_timestamp_field(body@)),
{
    match serde_json::from_str::<serde_json::Value>(body) {
        Ok(doc) => Some(match doc.get("timestamp") {
            Some(field) => field.as_i64(),
            None => None,
        }),
        Err(_) => None,
    }
}

/// Relies on `chrono::DateTime::<Utc>::from_timestamp_millis`: it returns
/// `Some` exactly when the millisecond count is in the representable range,
/// a deterministic function of the count alone.
#[verifier::external_body]
fn millis_in_range(millis: i64) -> (r: bool)
    ensures
        r == chrono_millis_in_range(millis),
{
    chrono::DateTime::<chrono::Utc>::from_timestamp_millis(millis).is_some()
}

/// The status-endpoint request URL for a region/bracket pair, requesting the
/// first page of activity.
pub open spec fn activity_url_spec(region: Seq<char>, bracket: Seq<char>) -> Seq<char> {
    "https://pvpq.net/api/"@ + region + "/activity/"@ + bracket + "?page=1"@
}

/// Builds the status-endpoint request URL for a region/bracket pair.
pub fn activity_url(region: &str, bracket: &str) -> (r: String)
    ensures
        r@ == activity_url_spec(region@, bracket@),
{
    let mut r = String::from_str("https://pvpq.net/api/");
    r.append(region);
    r.append("/activity/");
    r.append(bracket);
    r.append("?page=1");
    proof {
        assert(r@ =~= activity_url_spec(region@, bracket@));
    }
    r
}

/// Extracts the last-update timestamp from a status body: `ParseError` when
/// the body is not JSON, `SchemaError` when the JSON has no integer
/// `timestamp` field or the value is not a representable point in time, and
/// the timestamp otherwise.
pub fn extract_timestamp(body: &str) -> (r: Result<Timestamp, FetchError>)
    ensures
        r == (match extract_spec(body@) {
            Ok(t) => Ok::<Timestamp, FetchError>(Timestamp { millis: t }),
            Err(e) => Err::<Timestamp, FetchError>(e),
        }),
{
    match parse_timestamp_field(body) {
        None => Err(FetchError::ParseError),
        Some(None) => Err(FetchError::SchemaError),
        Some(Some(millis)) => {
            if millis_in_range(millis) {
                Ok(Timestamp { millis })
            } else {
                Err(FetchError::SchemaError)
            }
        },
    }
}

} // verus!
