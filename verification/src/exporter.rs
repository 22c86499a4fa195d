//! The exporter: one export call checks the transport state, encodes the
//! batch, builds the request, sends it, and classifies the response; a
//! shutdown call clears the transport state once and for all.

use vstd::prelude::*;

use opentelemetry_sdk::metrics::data::ResourceMetrics;

use crate::encode::encode;
use crate::encode::proto_encoding_of;
use crate::encode::protobuf_content_type;
use crate::errors::EncodeError;
use crate::errors::ExportError;
use crate::errors::ShutdownError;
use crate::request::build_request;
use crate::request::merged_header_views;
use crate::request::OutgoingRequest;
use crate::response::interpret_response;
use crate::response::is_success_status;
use crate::response::TransportResponse;
use crate::WireFormat;

verus! {

/// The injectable transport capability: it delivers one HTTP-shaped request
/// and hands back the collector's response, or a message describing the
/// transport-level failure. Implementations live with the callers; nothing
/// is assumed of them.
pub trait Transport {
    /// Sends one request over the wire.
    fn send(&self, request: &OutgoingRequest) -> Result<TransportResponse, String>;
}

/// The lifecycle of the transport: present while active, cleared on
/// shutdown. Once shut down it never becomes active again; only the
/// exporter's own methods touch it.
enum TransportState<T> {
    Active(T),
    ShutDown,
}

/// A metrics exporter towards one fixed collector endpoint, over an
/// injectable transport.
pub struct Exporter<T> {
    state: TransportState<T>,
    endpoint: String,
    custom_headers: Vec<(String, String)>,
    format: Option<WireFormat>,
}

/// Sends an already-built request over the given transport and classifies
/// the outcome: a delivery failure is a transport error, and the response is
/// judged by its status.
pub fn dispatch<T: Transport>(transport: &T, request: &OutgoingRequest) -> (r: Result<
    (),
    ExportError,
>)
    ensures
        r matches Err(e) ==> (e matches ExportError::Transport(_) || e matches
            ExportError::ServerRejected { .. }),
        r matches Err(ExportError::ServerRejected { status: rejected, .. })
            ==> !is_success_status(rejected),
{
    match transport.send(request) {
        Ok(response) => interpret_response(response),
        Err(cause) => Err(ExportError::Transport(cause)),
    }
}

impl<T> Exporter<T> {
    /// Whether shutdown has already run on this exporter.
    pub closed spec fn is_shut_down(&self) -> bool {
        !(self.state is Active)
    }

    /// The collector endpoint, fixed at construction.
    pub closed spec fn spec_endpoint(&self) -> String {
        self.endpoint
    }

    /// The preconfigured custom headers, applied to every outgoing request.
    pub closed spec fn spec_custom_headers(&self) -> Seq<(Seq<char>, Seq<char>)> {
        self.custom_headers.deep_view()
    }

    /// The configured wire format, if any.
    pub closed spec fn spec_format(&self) -> Option<WireFormat> {
        self.format
    }

    /// Constructs an exporter in the active state, around the given
    /// transport, endpoint, custom headers and wire format.
    pub fn new(
        transport: T,
        endpoint: String,
        custom_headers: Vec<(String, String)>,
        format: Option<WireFormat>,
    ) -> (r: Self)
        ensures
            !r.is_shut_down(),
            r.spec_endpoint() == endpoint,
            r.spec_custom_headers() == custom_headers.deep_view(),
            r.spec_format() == format,
    {
        Exporter {
            state: TransportState::Active(transport),
            endpoint,
            custom_headers,
            format,
        }
    }

    /// Whether the exporter still accepts export calls.
    pub fn is_active(&self) -> (r: bool)
        ensures
            r == !self.is_shut_down(),
    {
        match &self.state {
            TransportState::Active(_) => true,
            TransportState::ShutDown => false,
        }
    }

    /// Clears the transport state, making every later export fail fast.
    /// Idempotent: on an exporter already shut down it succeeds again, and
    /// it never fails.
    pub fn shutdown(&mut self) -> (r: Result<(), ShutdownError>)
        ensures
            r is Ok,
            final (self).is_shut_down(),
            final (self).spec_endpoint() == old(self).spec_endpoint(),
            final (self).spec_custom_headers() == old(self).spec_custom_headers(),
            final (self).spec_format() == old(self).spec_format(),
    {
        self.state = TransportState::ShutDown;
        Ok(())
    }

    /// Encodes the batch and builds the outgoing request for it, without
    /// touching the transport state. With a configured format it succeeds
    /// and the request is pinned down: method `POST`, the fixed endpoint,
    /// the merged headers, and the batch's protobuf encoding as the body.
    /// With no configured format it fails with the configuration error,
    /// whatever the batch holds.
    pub fn prepare(&self, batch: &ResourceMetrics) -> (r: Result<OutgoingRequest, ExportError>)
        ensures
            self.spec_format() is None <==> r == Err::<OutgoingRequest, ExportError>(
                ExportError::Encode(EncodeError::Configuration),
            ),
            self.spec_format() is Some <==> (r matches Ok(request) && {
                &&& request.method@ == "POST"@
                &&& request.uri == self.spec_endpoint()
                &&& request.headers.deep_view() == merged_header_views(
                    protobuf_content_type(),
                    self.spec_custom_headers(),
                )
                &&& request.body@ == proto_encoding_of(*batch)
            }),
    {
        match encode(self.format, batch) {
            Ok(payload) => Ok(build_request(&self.endpoint, payload, &self.custom_headers)),
            Err(e) => Err(ExportError::Encode(e)),
        }
    }

    /// Exports one batch: fails fast with the shutdown error exactly when
    /// the exporter is shut down, in which case no network call is made;
    /// otherwise it encodes the batch, sends the request over the held
    /// transport, and classifies the response.
    pub fn export(&self, batch: &ResourceMetrics) -> (r: Result<(), ExportError>)
        where T: Transport
        ensures
            self.is_shut_down() <==> r == Err::<(), ExportError>(ExportError::AlreadyShutDown),
            !self.is_shut_down() && self.spec_format() is None ==> r == Err::<(), ExportError>(
                ExportError::Encode(EncodeError::Configuration),
            ),
            r is Ok ==> !self.is_shut_down() && self.spec_format() is Some,
            !self.is_shut_down() && self.spec_format() is Some ==> (r is Ok || (r matches Err(e)
                && (e matches ExportError::Transport(_) || e matches ExportError::ServerRejected {
                ..
            }))),
            r matches Err(ExportError::ServerRejected { status: rejected, .. })
                ==> !is_success_status(rejected),
    {
        let transport = match &self.state {
            TransportState::Active(t) => t,
            TransportState::ShutDown => {
                return Err(ExportError::AlreadyShutDown);
            },
        };
        let request = match self.prepare(batch) {
            Ok(request) => request,
            Err(e) => {
                return Err(e);
            },
        };
        dispatch(transport, &request)
    }
}

impl<T: Clone> Exporter<T> {
    /// Hands out a clone of the transport handle, or the shutdown error
    /// exactly when the exporter is shut down. A caller that shares the
    /// exporter behind a guard can so keep its critical section to this
    /// read alone and send outside it.
    pub fn transport_clone(&self) -> (r: Result<T, ExportError>)
        ensures
            r is Ok <==> !self.is_shut_down(),
            self.is_shut_down() ==> r == Err::<T, ExportError>(ExportError::AlreadyShutDown),
    {
        match &self.state {
            TransportState::Active(t) => Ok(t.clone()),
            TransportState::ShutDown => Err(ExportError::AlreadyShutDown),
        }
    }
}

} // verus!
