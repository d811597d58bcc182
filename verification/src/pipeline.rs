//! The orchestrator's computing side: from a fetched body (or a transport
//! failure) to the decoded envelope and the rendered output text. The fetch
//! itself and the file write stay outside this crate; a run whose fetch
//! failed produces no text to write.

use vstd::prelude::*;
use crate::json::JsonValue;
use crate::model::{DecodeError, Response, envelope_ok, record_matches, results_fields, str_field};
use crate::render::{render_toml, spec_render};
use crate::transform::{convert_times_to_24_hour, doc_transformed, json_doc};

verus! {

/// Why a run stops before anything is written.
pub enum StageError {
    /// The network exchange failed; carries the transport's message.
    Fetch(String),
    /// The response body could not be parsed or decoded.
    Decode(DecodeError),
}

/// Whether the outcome is exactly what processing `body` owes: the decoded
/// envelope together with its rendered text when the body parses and its
/// transformed document has the envelope's shape, and the right decode
/// error otherwise.
pub open spec fn body_processed(body: Seq<char>, r: Result<(Response, String), DecodeError>) -> bool {
    match json_doc(body) {
        None => r matches Err(e) && e == DecodeError::InvalidDocument,
        Some(d) => exists|t: JsonValue|
            {
                &&& #[trigger] doc_transformed(d, t)
                &&& if envelope_ok(t) {
                    r matches Ok(p) && record_matches(p.0.results, results_fields(t)) && (
                    t matches JsonValue::Obj(f) && Some(p.0.status@) == str_field(f@, "status"@))
                        && p.1@ == spec_render(p.0)
                } else {
                    r matches Err(e) && e == DecodeError::IncompatibleShape
                }
            },
    }
}

/// Transforms, decodes and renders one fetched body: the typed envelope and
/// the output document's full text, or the decode error that stops the run.
pub fn process_body(body: &str) -> (r: Result<(Response, String), DecodeError>)
    ensures
        body_processed(body@, r),
{
    let doc = match convert_times_to_24_hour(body) {
        Ok(doc) => doc,
        Err(e) => {
            return Err(e);
        },
    };
    let resp = match crate::model::decode_response(&doc) {
        Ok(resp) => resp,
        Err(e) => {
            return Err(e);
        },
    };
    let text = render_toml(&resp);
    Ok((resp, text))
}

/// The orchestrator's step after the fetch stage: a transport failure ends
/// the run with a fetch error — no document is produced, so nothing is ever
/// written — and a fetched body is processed as `body_processed` says.
pub fn process_fetched(fetched: Result<String, String>) -> (r: Result<
    (Response, String),
    StageError,
>)
    ensures
        fetched matches Err(m) ==> r matches Err(StageError::Fetch(m2)) && m2 == m,
        fetched matches Ok(body) ==> process_outcome(body@, r),
{
    match fetched {
        Ok(body) => match process_body(body.as_str()) {
            Ok(p) => Ok(p),
            Err(e) => Err(StageError::Decode(e)),
        },
        Err(m) => Err(StageError::Fetch(m)),
    }
}

/// Whether the run's outcome matches what the fetched body owes, with
/// decode failures carried as the run's decode stage error.
pub open spec fn process_outcome(body: Seq<char>, r: Result<(Response, String), StageError>) -> bool {
    match r {
        Ok(p) => body_processed(body, Ok(p)),
        Err(StageError::Decode(e)) => body_processed(body, Err(e)),
        Err(StageError::Fetch(_)) => false,
    }
}

} // verus!
