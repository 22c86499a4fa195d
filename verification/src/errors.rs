//! The error taxonomy of the exporter, with a diagnostic message for each
//! failure.

use vstd::prelude::*;

use crate::decimal::dec_digits;
use crate::decimal::u16_to_decimal;

verus! {

/// A failure of the payload encoder.
#[derive(Debug, PartialEq)]
pub enum EncodeError {
    /// No wire format was configured; no default is chosen in its place.
    Configuration,
    /// The batch could not be serialized into the configured format. The
    /// protobuf serializer has no failure path of its own, so `encode`
    /// never yields this; it stands in the taxonomy for serializers that
    /// can fail.
    Serialization(String),
}

/// A failure of one export call.
#[derive(Debug, PartialEq)]
pub enum ExportError {
    /// The exporter was shut down before this call began; no network call
    /// was attempted.
    AlreadyShutDown,
    /// The payload encoder failed; nothing was sent.
    Encode(EncodeError),
    /// The transport could not deliver the request.
    Transport(String),
    /// The collector answered with a status outside the success range.
    ServerRejected { status: u16, body: String },
}

/// A failure of the shutdown call.
#[derive(Debug, PartialEq)]
pub enum ShutdownError {
    /// The guard around the transport state could not be acquired.
    LockFailure,
}

/// The diagnostic text of an encoder failure.
pub open spec fn encode_error_text(e: EncodeError) -> Seq<char> {
    match e {
        EncodeError::Configuration => "no wire format configured"@,
        EncodeError::Serialization(m) => "failed to serialize the metrics batch: "@ + m@,
    }
}

/// The diagnostic text of an export failure. A rejection by the collector
/// carries both the numeric status and the body text.
pub open spec fn export_error_text(e: ExportError) -> Seq<char> {
    match e {
        ExportError::AlreadyShutDown => "exporter is already shut down"@,
        ExportError::Encode(inner) => encode_error_text(inner),
        ExportError::Transport(m) => "request failed: "@ + m@,
        ExportError::ServerRejected { status, body } => "request failed with status "@
            + dec_digits(status as nat) + " (Body: "@ + body@ + ")"@,
    }
}

/// The diagnostic text of a shutdown failure.
pub open spec fn shutdown_error_text(e: ShutdownError) -> Seq<char> {
    match e {
        ShutdownError::LockFailure => "the guard around the transport state is poisoned"@,
    }
}

/// Whether `needle` occurs in `haystack` as one contiguous run.
pub open spec fn contains_seq(haystack: Seq<char>, needle: Seq<char>) -> bool {
    exists|k: int|
        0 <= k && k + needle.len() <= haystack.len() && #[trigger] haystack.subrange(
            k,
            k + needle.len(),
        ) == needle
}

/// Law: the text of a rejection carries the decimal status and the body
/// text, whatever the status and the body are.
pub proof fn lemma_rejection_text_carries_status_and_body(status: u16, body: String)
    ensures
        contains_seq(
            export_error_text((ExportError::ServerRejected { status, body })),
            dec_digits(status as nat),
        ),
        contains_seq(export_error_text((ExportError::ServerRejected { status, body })), body@),
{
    let a = "request failed with status "@;
    let d = dec_digits(status as nat);
    let b = " (Body: "@;
    let text = export_error_text(ExportError::ServerRejected { status, body });
    let k1 = a.len() as int;
    assert(text.subrange(k1, k1 + d.len()) =~= d);
    let k2 = (a.len() + d.len() + b.len()) as int;
    assert(text.subrange(k2, k2 + body@.len()) =~= body@);
}

impl EncodeError {
    /// The diagnostic message of this failure.
    pub fn message(&self) -> (r: String)
        ensures
            r@ == encode_error_text(*self),
    {
        match self {
            EncodeError::Configuration => String::from_str("no wire format configured"),
            EncodeError::Serialization(m) => {
                let mut s = String::from_str("failed to serialize the metrics batch: ");
                s.append(m.as_str());
                s
            },
        }
    }
}

impl ExportError {
    /// The diagnostic message of this failure.
    pub fn message(&self) -> (r: String)
        ensures
            r@ == export_error_text(*self),
    {
        match self {
            ExportError::AlreadyShutDown => String::from_str("exporter is already shut down"),
            ExportError::Encode(inner) => inner.message(),
            ExportError::Transport(m) => {
                let mut s = String::from_str("request failed: ");
                s.append(m.as_str());
                s
            },
            ExportError::ServerRejected { status, body } => {
                let mut s = String::from_str("request failed with status ");
                let digits = u16_to_decimal(*status);
                s.append(digits.as_str());
                s.append(" (Body: ");
                s.append(body.as_str());
                s.append(")");
                proof {
                    assert(s@ =~= export_error_text(*self));
                }
                s
            },
        }
    }
}

impl ShutdownError {
    /// The diagnostic message of this failure.
    pub fn message(&self) -> (r: String)
        ensures
            r@ == shutdown_error_text(*self),
    {
        match self {
            ShutdownError::LockFailure => String::from_str(
                "the guard around the transport state is poisoned",
            ),
        }
    }
}

} // verus!
