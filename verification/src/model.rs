//! The typed result model: the response envelope with its solar-event
//! record, and the decoder that reads both out of the document tree.

use vstd::prelude::*;
use crate::digits::{parse_i32, spec_parse_i32};
use crate::json::{JsonValue, get_field, lookup};

verus! {

/// The solar-event record carried under the envelope's `results` field.
/// After normalization every time-of-day field holds a 24-hour `HH:MM:SS`
/// string; `day_length` and `timezone` pass through unmodified.
#[derive(Debug, Clone)]
pub struct SunriseSunsetResults {
    pub date: String,
    pub sunrise: String,
    pub sunset: String,
    pub first_light: String,
    pub last_light: String,
    pub dawn: String,
    pub dusk: String,
    pub solar_noon: String,
    pub golden_hour: String,
    pub day_length: String,
    pub timezone: String,
    pub utc_offset: i32,
}

/// The decoded top-level shape of the remote service's answer.
#[derive(Debug, Clone)]
pub struct Response {
    pub results: SunriseSunsetResults,
    pub status: String,
}

/// Why a response body could not be decoded.
#[derive(Debug, Clone, Copy, PartialEq, Eq, Structural)]
pub enum DecodeError {
    /// The body is not a well-formed structured document.
    InvalidDocument,
    /// The document does not have the envelope's expected shape.
    IncompatibleShape,
}

/// The string bound to `name` in a field list, if the field holds a string.
pub open spec fn str_field(fields: Seq<(String, JsonValue)>, name: Seq<char>) -> Option<Seq<char>> {
    match lookup(fields, name) {
        Some(JsonValue::Text(s)) => Some(s@),
        _ => None,
    }
}

/// The integer bound to `name` in a field list, if the field holds a number
/// that reads as a signed 32-bit decimal.
pub open spec fn int_field(fields: Seq<(String, JsonValue)>, name: Seq<char>) -> Option<int> {
    match lookup(fields, name) {
        Some(JsonValue::Num(t)) => spec_parse_i32(t@),
        _ => None,
    }
}

/// The field list of the document's `results` object; empty when the
/// document has no such object.
pub open spec fn results_fields(doc: JsonValue) -> Seq<(String, JsonValue)> {
    match doc {
        JsonValue::Obj(f) => match lookup(f@, "results"@) {
            Some(JsonValue::Obj(rf)) => rf@,
            _ => Seq::empty(),
        },
        _ => Seq::empty(),
    }
}

/// Whether a `results` field list carries every field of the record, each
/// with the right kind of value.
pub open spec fn results_shape_ok(rf: Seq<(String, JsonValue)>) -> bool {
    &&& str_field(rf, "date"@) is Some
    &&& str_field(rf, "sunrise"@) is Some
    &&& str_field(rf, "sunset"@) is Some
    &&& str_field(rf, "first_light"@) is Some
    &&& str_field(rf, "last_light"@) is Some
    &&& str_field(rf, "dawn"@) is Some
    &&& str_field(rf, "dusk"@) is Some
    &&& str_field(rf, "solar_noon"@) is Some
    &&& str_field(rf, "golden_hour"@) is Some
    &&& str_field(rf, "day_length"@) is Some
    &&& str_field(rf, "timezone"@) is Some
    &&& int_field(rf, "utc_offset"@) is Some
}

/// Whether the document has the envelope's shape: a top-level object whose
/// `results` field holds a complete record and whose `status` is a string.
pub open spec fn envelope_ok(doc: JsonValue) -> bool {
    &&& doc matches JsonValue::Obj(f)
    &&& lookup(f@, "results"@) matches Some(r)
    &&& r is Obj
    &&& results_shape_ok(results_fields(doc))
    &&& (doc matches JsonValue::Obj(f2) && str_field(f2@, "status"@) is Some)
}

/// Whether the decoded record reads exactly the fields of the `results`
/// field list.
pub open spec fn record_matches(r: SunriseSunsetResults, rf: Seq<(String, JsonValue)>) -> bool {
    &&& Some(r.date@) == str_field(rf, "date"@)
    &&& Some(r.sunrise@) == str_field(rf, "sunrise"@)
    &&& Some(r.sunset@) == str_field(rf, "sunset"@)
    &&& Some(r.first_light@) == str_field(rf, "first_light"@)
    &&& Some(r.last_light@) == str_field(rf, "last_light"@)
    &&& Some(r.dawn@) == str_field(rf, "dawn"@)
    &&& Some(r.dusk@) == str_field(rf, "dusk"@)
    &&& Some(r.solar_noon@) == str_field(rf, "solar_noon"@)
    &&& Some(r.golden_hour@) == str_field(rf, "golden_hour"@)
    &&& Some(r.day_length@) == str_field(rf, "day_length"@)
    &&& Some(r.timezone@) == str_field(rf, "timezone"@)
    &&& Some(r.utc_offset as int) == int_field(rf, "utc_offset"@)
}

fn get_str_field(rf: &Vec<(String, JsonValue)>, name: &str) -> (r: Option<String>)
    ensures
        match r {
            Some(s) => str_field(rf@, name@) == Some(s@),
            None => str_field(rf@, name@) is None,
        },
{
    match get_field(rf, name) {
        Some(JsonValue::Text(s)) => Some(s.clone()),
        _ => None,
    }
}

/// Decodes the (already transformed) document into the typed envelope:
/// succeeds exactly on documents of the envelope's shape, and then carries
/// every field over verbatim; anything else is an incompatible shape.
pub fn decode_response(doc: &JsonValue) -> (r: Result<Response, DecodeError>)
    ensures
        r is Ok <==> envelope_ok(*doc),
        r matches Ok(resp) ==> {
            &&& record_matches(resp.results, results_fields(*doc))
            &&& (doc matches JsonValue::Obj(f) && Some(resp.status@) == str_field(f@, "status"@))
        },
        r matches Err(e) ==> e == DecodeError::IncompatibleShape,
{
    let fields = match doc {
        JsonValue::Obj(f) => f,
        _ => {
            return Err(DecodeError::IncompatibleShape);
        },
    };
    let rf = match get_field(fields, "results") {
        Some(JsonValue::Obj(rf)) => rf,
        _ => {
            return Err(DecodeError::IncompatibleShape);
        },
    };
    let status = match get_str_field(fields, "status") {
        Some(s) => s,
        None => {
            return Err(DecodeError::IncompatibleShape);
        },
    };
    let date = match get_str_field(rf, "date") {
        Some(s) => s,
        None => {
            return Err(DecodeError::IncompatibleShape);
        },
    };
    let sunrise = match get_str_field(rf, "sunrise") {
        Some(s) => s,
        None => {
            return Err(DecodeError::IncompatibleShape);
        },
    };
    let sunset = match get_str_field(rf, "sunset") {
        Some(s) => s,
        None => {
            return Err(DecodeError::IncompatibleShape);
        },
    };
    let first_light = match get_str_field(rf, "first_light") {
        Some(s) => s,
        None => {
            return Err(DecodeError::IncompatibleShape);
        },
    };
    let last_light = match get_str_field(rf, "last_light") {
        Some(s) => s,
        None => {
            return Err(DecodeError::IncompatibleShape);
        },
    };
    let dawn = match get_str_field(rf, "dawn") {
        Some(s) => s,
        None => {
            return Err(DecodeError::IncompatibleShape);
        },
    };
    let dusk = match get_str_field(rf, "dusk") {
        Some(s) => s,
        None => {
            return Err(DecodeError::IncompatibleShape);
        },
    };
    let solar_noon = match get_str_field(rf, "solar_noon") {
        Some(s) => s,
        None => {
            return Err(DecodeError::IncompatibleShape);
        },
    };
    let golden_hour = match get_str_field(rf, "golden_hour") {
        Some(s) => s,
        None => {
            return Err(DecodeError::IncompatibleShape);
        },
    };
    let day_length = match get_str_field(rf, "day_length") {
        Some(s) => s,
        None => {
            return Err(DecodeError::IncompatibleShape);
        },
    };
    let timezone = match get_str_field(rf, "timezone") {
        Some(s) => s,
        None => {
            return Err(DecodeError::IncompatibleShape);
        },
    };
    let utc_offset = match get_field(rf, "utc_offset") {
        Some(JsonValue::Num(t)) => match parse_i32(t.as_str()) {
            Some(x) => x,
            None => {
                return Err(DecodeError::IncompatibleShape);
            },
        },
        _ => {
            return Err(DecodeError::IncompatibleShape);
        },
    };
    Ok(
        Response {
            results: SunriseSunsetResults {
                date,
                sunrise,
                sunset,
                first_light,
                last_light,
                dawn,
                dusk,
                solar_noon,
                golden_hour,
                day_length,
                timezone,
                utc_offset,
            },
            status,
        },
    )
}

} // verus!
