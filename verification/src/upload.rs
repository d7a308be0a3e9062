//! The compute step of the file-save boundary: the UI hands the upload over
//! as base64 text; the bytes to write are decoded here, and the caller does
//! the writing. A payload that is not valid base64 is rejected before
//! anything touches the disk.

use vstd::prelude::*;

verus! {

/// What the standard-alphabet base64 decoding of `s` is: `Some` of the
/// decoded bytes when `s` is valid padded standard base64, `None`
/// otherwise. Determined by the input bytes alone.
pub uninterp spec fn b64_standard_decoded(s: Seq<u8>) -> Option<Seq<u8>>;

/// Relies on base64's `Engine::decode` on the `STANDARD` engine: a pure
/// function of the input bytes that returns the decoded bytes for valid
/// padded standard base64 and an error otherwise.
#[verifier::external_body]
fn b64_decode(input: &[u8]) -> (r: Option<Vec<u8>>)
    ensures
        match r {
            Some(v) => b64_standard_decoded(input@) == Some(v@),
            None => b64_standard_decoded(input@) is None,
        },
{
    match base64::Engine::decode(&base64::engine::general_purpose::STANDARD, input) {
        Ok(v) => Some(v),
        Err(_) => None,
    }
}

/// Why an upload was rejected.
#[derive(Clone, Copy, PartialEq, Eq, Structural, Debug)]
pub enum UploadError {
    /// The payload is not valid standard base64.
    InvalidBase64,
}

/// Decodes an uploaded file's base64 payload to the bytes to save.
/// Succeeds exactly on valid standard base64, and then returns exactly its
/// decoding; everything else is rejected with `InvalidBase64`.
pub fn decode_upload(base64_data: &[u8]) -> (r: Result<Vec<u8>, UploadError>)
    ensures
        r is Ok <==> b64_standard_decoded(base64_data@) is Some,
        match r {
            Ok(v) => b64_standard_decoded(base64_data@) == Some(v@),
            Err(e) => e is InvalidBase64,
        },
{
    match b64_decode(base64_data) {
        Some(v) => Ok(v),
        None => Err(UploadError::InvalidBase64),
    }
}

} // verus!
