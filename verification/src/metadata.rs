//! Reading the probing tool's JSON report.
//!
//! What the report yields is a function of the bytes alone: serde_json
//! parses them, the stream array is located, and each record's
//! channel-count field is read. That composite result bears a name,
//! [`probe_fields_of`], which the one trusted call applies and every
//! contract above it speaks of; everything built on the extracted fields
//! is verified against plain values.

use vstd::prelude::*;

use crate::channels::ChannelField;
use crate::errors::RunError;

verus! {

/// What the probing tool's report yields for the given bytes: one
/// [`ChannelField`] per stream record, in stream order, or nothing where
/// the bytes are not a JSON document carrying a stream array. The result
/// depends on the bytes alone.
pub uninterp spec fn probe_fields_of(bytes: Seq<u8>) -> Option<Seq<ChannelField>>;

/// Relies on serde_json::from_slice, Value::get, Value::as_array and
/// Value::as_i64: parse the bytes as JSON, failing on malformed input;
/// locate the "streams" array, failing where it is absent or not an
/// array; and read each record's "channels" field — an integer count, an
/// invalid marker where present but not an i64 integer, a missing marker
/// where absent. The composite is deterministic in the bytes, which is
/// all the name claims.
#[verifier::external_body]
fn extract_fields(stdout: &[u8]) -> (r: Option<Vec<ChannelField>>)
    ensures
        r matches Some(fields) ==> probe_fields_of(stdout@) == Some(fields@),
        r is None <==> probe_fields_of(stdout@) is None,
{
    let doc: serde_json::Value = serde_json::from_slice(stdout).ok()?;
    let streams = doc.get("streams")?.as_array()?;
    Some(
        streams.iter().map(|record| match record.get("channels").map(|v| v.as_i64()) {
            None => ChannelField::Missing,
            Some(Some(n)) => ChannelField::Count(n),
            Some(None) => ChannelField::Invalid,
        }).collect(),
    )
}

/// Read the stream records out of the probing tool's standard output.
/// Succeeds exactly where the bytes are a JSON document carrying a stream
/// array, yielding [`probe_fields_of`] the bytes; the only failure this
/// step can produce is `MalformedMetadata`.
pub fn parse_probe_output(stdout: &Vec<u8>) -> (r: Result<Vec<ChannelField>, RunError>)
    ensures
        r matches Ok(fields) ==> probe_fields_of(stdout@) == Some(fields@),
        r is Err <==> probe_fields_of(stdout@) is None,
        r matches Err(e) ==> e is MalformedMetadata,
{
    match extract_fields(stdout.as_slice()) {
        Some(fields) => Ok(fields),
        None => Err(RunError::MalformedMetadata),
    }
}

} // verus!
