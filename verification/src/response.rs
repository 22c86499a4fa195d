//! Classification of the collector's response: any status in the success
//! range is success, anything else is a rejection carrying the status and
//! the best-effort decoded body.

use vstd::prelude::*;

use vstd::utf8::decode_utf8;
use vstd::utf8::valid_utf8;

use crate::errors::ExportError;

verus! {

/// One response as the transport hands it back: the numeric status and the
/// raw body bytes.
pub struct TransportResponse {
    /// The HTTP status code.
    pub status: u16,
    /// The raw response body.
    pub body: Vec<u8>,
}

/// Whether a status code counts as success.
pub open spec fn is_success_status(status: u16) -> bool {
    200 <= status < 300
}

/// The placeholder put in place of a body that is not valid UTF-8.
pub open spec fn undecodable_body_text() -> Seq<char> {
    "response body cannot be decoded"@
}

/// The text a response body is reported as: its UTF-8 decoding, or the fixed
/// placeholder where the bytes are not valid UTF-8.
pub open spec fn body_text(bytes: Seq<u8>) -> Seq<char> {
    if valid_utf8(bytes) {
        decode_utf8(bytes)
    } else {
        undecodable_body_text()
    }
}

/// Relies on std::str::from_utf8: it succeeds exactly on valid UTF-8 input
/// and returns the decoded character sequence.
#[verifier::external_body]
fn decode_body(bytes: &Vec<u8>) -> (r: Option<String>)
    ensures
        r is Some <==> valid_utf8(bytes@),
        r matches Some(s) ==> s@ == decode_utf8(bytes@),
{
    match std::str::from_utf8(bytes.as_slice()) {
        Ok(s) => Some(s.to_owned()),
        Err(_) => None,
    }
}

/// Interprets the collector's response: a status in the success range is
/// success and the body is discarded; any other status is a rejection
/// carrying the status and the body text, decoded best-effort.
pub fn interpret_response(response: TransportResponse) -> (r: Result<(), ExportError>)
    ensures
        r is Ok <==> is_success_status(response.status),
        !is_success_status(response.status) ==> (r matches Err(e) && e matches
            ExportError::ServerRejected { status, body } && status == response.status && body@
            == body_text(response.body@)),
{
    if 200 <= response.status && response.status < 300 {
        Ok(())
    } else {
        let text = match decode_body(&response.body) {
            Some(s) => s,
            None => String::from_str("response body cannot be decoded"),
        };
        Err(ExportError::ServerRejected { status: response.status, body: text })
    }
}

} // verus!
