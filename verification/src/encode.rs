//! The payload encoder: turns a metrics batch into wire bytes plus the
//! content type of the chosen format.

use vstd::prelude::*;

use opentelemetry_sdk::metrics::data::ResourceMetrics;

use crate::errors::EncodeError;
use crate::WireFormat;

verus! {

/// A metrics batch is externally owned and opaque to this library: it is
/// carried through to the serializer unread and unchanged.
#[verifier::external_type_specification]
#[verifier::external_body]
pub struct ExResourceMetrics(ResourceMetrics);

/// One encoded wire payload, created fresh per export call.
#[derive(Debug)]
pub struct EncodedPayload {
    /// The serialized batch.
    pub bytes: Vec<u8>,
    /// The content type matching the format the bytes were produced in.
    pub content_type: String,
}

/// The content type of the binary protocol-buffer format.
pub open spec fn protobuf_content_type() -> Seq<char> {
    "application/x-protobuf"@
}

/// The protobuf wire bytes of a metrics batch: what serializing the batch
/// value yields, a function of that value alone.
pub uninterp spec fn proto_encoding_of(batch: ResourceMetrics) -> Seq<u8>;

/// Relies on opentelemetry_proto's `From<&ResourceMetrics>` conversion into
/// the OTLP `ExportMetricsServiceRequest` and on prost's
/// `Message::encode_to_vec`: together they serialize the batch into protobuf
/// wire bytes, with no failure path of their own.
#[verifier::external_body]
fn proto_encode(batch: &ResourceMetrics) -> (r: Vec<u8>)
    ensures
        r@ == proto_encoding_of(*batch),
{
    let request: opentelemetry_proto::tonic::collector::metrics::v1::ExportMetricsServiceRequest =
        batch.into();
    prost::Message::encode_to_vec(&request)
}

/// Serializes the batch in the configured wire format, yielding exactly the
/// batch's protobuf encoding and its content type. With no format configured
/// it fails with the configuration error, whatever the batch holds; it never
/// falls back to a default format.
pub fn encode(format: Option<WireFormat>, batch: &ResourceMetrics) -> (r: Result<
    EncodedPayload,
    EncodeError,
>)
    ensures
        format is None <==> r == Err::<EncodedPayload, EncodeError>(EncodeError::Configuration),
        format is Some <==> (r matches Ok(p) && p.bytes@ == proto_encoding_of(*batch)
            && p.content_type@ == protobuf_content_type()),
{
    match format {
        None => Err(EncodeError::Configuration),
        Some(WireFormat::HttpProtobuf) => Ok(
            EncodedPayload {
                bytes: proto_encode(batch),
                content_type: String::from_str("application/x-protobuf"),
            },
        ),
    }
}

/// Law: encoding is deterministic. Two successful encodings satisfy the
/// clauses `encode` states of its result exactly when their bytes are the
/// batch's protobuf encoding and their content type names the format; any
/// two such payloads for one batch value are identical.
pub proof fn lemma_encode_deterministic(
    first: EncodedPayload,
    second: EncodedPayload,
    batch: ResourceMetrics,
)
    requires
        first.bytes@ == proto_encoding_of(batch),
        first.content_type@ == protobuf_content_type(),
        second.bytes@ == proto_encoding_of(batch),
        second.content_type@ == protobuf_content_type(),
    ensures
        first.bytes@ == second.bytes@,
        first.content_type@ == second.content_type@,
{
}

} // verus!
