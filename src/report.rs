use vstd::prelude::*;
use crate::sample::{assemble_spec, timestamp_from_text, timestamp_spec, Field, Measurement, SampleError};

verus! {

/// serde_json's `Number`: a JSON number, carried opaquely to the store.
#[verifier::external_type_specification]
#[verifier::external_body]
pub struct ExJsonNumber(serde_json::Number);

/// Whether the bytes are one JSON document.
pub uninterp spec fn json_decodes(output: Seq<u8>) -> bool;

/// The text held under a key of the JSON object that the bytes decode to,
/// or `None` where there is no such member or it is not a string.
pub uninterp spec fn json_text_at(output: Seq<u8>, key: Seq<char>) -> Option<Seq<char>>;

/// Whether the JSON object that the bytes decode to holds a number under a
/// key.
pub uninterp spec fn json_number_at(output: Seq<u8>, key: Seq<char>) -> bool;

/// Relies on serde_json's `from_slice` into a `Value`: whether the bytes
/// decode, which depends on the bytes alone; no bytes at all are no
/// document.
#[verifier::external_body]
fn decodes(output: &[u8]) -> (r: bool)
    ensures
        r == json_decodes(output@),
        output@.len() == 0 ==> !r,
{
    serde_json::from_slice::<serde_json::Value>(output).is_ok()
}

/// Relies on serde_json's `from_slice` into a `Value`, then `Value::get`
/// and `Value::as_str`: the string member under a key of the decoded
/// document.
#[verifier::external_body]
fn text_member(output: &[u8], key: &str) -> (r: Option<String>)
    ensures
        !json_decodes(output@) ==> r is None,
        json_decodes(output@) ==> match r {
            Some(s) => json_text_at(output@, key@) == Some(s@),
            None => json_text_at(output@, key@) is None,
        },
{
    let doc = serde_json::from_slice::<serde_json::Value>(output).ok()?;
    doc.get(key).and_then(|v| v.as_str()).map(String::from)
}

/// Relies on serde_json's `from_slice` into a `Value`, then `Value::get`
/// and `Value::as_number`: the numeric member under a key of the decoded
/// document, copied out of it.
#[verifier::external_body]
fn number_member(output: &[u8], key: &str) -> (r: Option<serde_json::Number>)
    ensures
        !json_decodes(output@) ==> r is None,
        json_decodes(output@) ==> (r is Some <==> json_number_at(output@, key@)),
{
    let doc = serde_json::from_slice::<serde_json::Value>(output).ok()?;
    doc.get(key).and_then(|v| v.as_number()).cloned()
}

/// Whether the report holds a number for the field.
pub open spec fn number_present(output: Seq<u8>, field: Field) -> Option<()> {
    if json_number_at(output, field.key_spec()) {
        Some(())
    } else {
        None
    }
}

/// What one attempt yields for the tool's output: `Malformed` where it is
/// no JSON document, else the first missing or unreadable field in field
/// order, else the timestamp of the record.
pub open spec fn report_spec(output: Seq<u8>) -> Result<i64, SampleError> {
    if !json_decodes(output) {
        Err(SampleError::Malformed)
    } else {
        match assemble_spec::<()>(
            timestamp_spec(json_text_at(output, Field::Timestamp.key_spec())),
            number_present(output, Field::Download),
            number_present(output, Field::Upload),
            number_present(output, Field::Ping),
            number_present(output, Field::BytesSent),
            number_present(output, Field::BytesReceived),
        ) {
            Ok(m) => Ok(m.timestamp),
            Err(e) => Err(e),
        }
    }
}

/// Tool output that decodes, with a readable timestamp and the download and
/// upload figures but no ping figure, yields no record: the attempt fails on
/// the ping field.
pub proof fn lemma_report_without_ping(output: Seq<u8>)
    requires
        json_decodes(output),
        timestamp_spec(json_text_at(output, Field::Timestamp.key_spec())) is Ok,
        json_number_at(output, Field::Download.key_spec()),
        json_number_at(output, Field::Upload.key_spec()),
        !json_number_at(output, Field::Ping.key_spec()),
    ensures
        report_spec(output) == Err::<i64, SampleError>(SampleError::MissingField(Field::Ping)),
{
}

/// Reads one sample out of the measurement tool's standard output: a JSON
/// object with an RFC 3339 `timestamp` text and the numbers `download`,
/// `upload`, `ping`, `bytes_sent` and `bytes_received`. The figures of the
/// record are the numbers found under their keys.
pub fn read_sample(output: &[u8]) -> (r: Result<Measurement<serde_json::Number>, SampleError>)
    ensures
        match report_spec(output@) {
            Ok(t) => r matches Ok(m) && m.timestamp == t,
            Err(e) => r == Err::<Measurement<serde_json::Number>, SampleError>(e),
        },
        output@.len() == 0 ==> r == Err::<Measurement<serde_json::Number>, SampleError>(
            SampleError::Malformed,
        ),
{
    if !decodes(output) {
        return Err(SampleError::Malformed);
    }
    let text = text_member(output, Field::Timestamp.key());
    let seconds = match &text {
        Some(s) => timestamp_from_text(Some(s.as_str())),
        None => timestamp_from_text(None),
    };
    let download = number_member(output, Field::Download.key());
    let upload = number_member(output, Field::Upload.key());
    let ping = number_member(output, Field::Ping.key());
    let bytes_sent = number_member(output, Field::BytesSent.key());
    let bytes_received = number_member(output, Field::BytesReceived.key());
    Measurement::from_fields(seconds, download, upload, ping, bytes_sent, bytes_received)
}

} // verus!
