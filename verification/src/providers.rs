//! The calls into outside crates that the pipeline's logic needs:
//! reading one string field out of a provider's JSON response, and
//! base64-encoding synthesized audio for transport.

use vstd::prelude::*;

verus! {

/// What a provider's response body held. A body that is not JSON at all
/// is a malformed response — fatal at a mandatory step — and is kept
/// apart from one that parsed but lacks the wanted member, which reads
/// as an absent field and follows the normal empty path.
pub enum ExtractedField {
    Malformed,
    Field(Option<String>),
}

/// Whether a transcription response body fails to parse as one JSON
/// document.
pub uninterp spec fn stt_malformed(body: Seq<char>) -> bool;

/// The `text` member of a parsed transcription response: its content
/// where the member is present and a string, nothing otherwise.
pub uninterp spec fn stt_text_of(body: Seq<char>) -> Option<Seq<char>>;

/// The `text` member of a transcription response. Relies on
/// serde_json's from_str, Value::get and Value::as_str: whether the
/// body parses, and what stands under the key `"text"` when it does,
/// are functions of the body's characters alone.
#[verifier::external_body]
pub fn stt_text_field(body: &str) -> (r: ExtractedField)
    ensures
        (r is Malformed) == stt_malformed(body@),
        r is Field ==> r->Field_0.deep_view() == stt_text_of(body@),
{
    match serde_json::from_str::<serde_json::Value>(body) {
        Ok(v) => ExtractedField::Field(
            v.get("text").and_then(|f| f.as_str()).map(|s| s.to_owned()),
        ),
        Err(_) => ExtractedField::Malformed,
    }
}

/// Whether a completion response body fails to parse as one JSON
/// document.
pub uninterp spec fn completion_malformed(body: Seq<char>) -> bool;

/// The first choice's message content of a parsed completion response:
/// the string under `choices[0].message.content` where each step of
/// that path is present, nothing otherwise.
pub uninterp spec fn completion_content_of(body: Seq<char>) -> Option<Seq<char>>;

/// The reply of a completion response. Relies on serde_json's from_str,
/// Value::get and Value::as_str: whether the body parses, and what
/// stands under `choices[0].message.content` when it does, are
/// functions of the body's characters alone.
#[verifier::external_body]
pub fn completion_content_field(body: &str) -> (r: ExtractedField)
    ensures
        (r is Malformed) == completion_malformed(body@),
        r is Field ==> r->Field_0.deep_view() == completion_content_of(body@),
{
    match serde_json::from_str::<serde_json::Value>(body) {
        Ok(v) => ExtractedField::Field(
            v.get("choices")
                .and_then(|c| c.get(0))
                .and_then(|c| c.get("message"))
                .and_then(|m| m.get("content"))
                .and_then(|f| f.as_str())
                .map(|s| s.to_owned()),
        ),
        Err(_) => ExtractedField::Malformed,
    }
}

/// What the standard base64 encoding of a byte sequence reads.
pub uninterp spec fn base64_of(bytes: Seq<u8>) -> Seq<char>;

/// Relies on base64's `Engine::encode` with the standard padded engine:
/// the encoding depends on the input bytes alone, and the encoding of no
/// bytes is the empty string.
#[verifier::external_body]
pub(crate) fn base64_encode(bytes: &Vec<u8>) -> (r: String)
    ensures
        r@ == base64_of(bytes@),
        bytes@.len() == 0 ==> r@.len() == 0,
{
    base64::Engine::encode(&base64::engine::general_purpose::STANDARD, bytes)
}

} // verus!
