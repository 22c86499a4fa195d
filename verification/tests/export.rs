//! Export scenarios: response classification, shutdown lifecycle, and the
//! headers of the outgoing request, exercised through mock transports.

use std::cell::RefCell;
use std::rc::Rc;

use opentelemetry_sdk::metrics::data::ResourceMetrics;

use otlp_metrics_client::errors::EncodeError;
use otlp_metrics_client::errors::ExportError;
use otlp_metrics_client::exporter::dispatch;
use otlp_metrics_client::exporter::Exporter;
use otlp_metrics_client::exporter::Transport;
use otlp_metrics_client::request::OutgoingRequest;
use otlp_metrics_client::response::TransportResponse;
use otlp_metrics_client::WireFormat;

/// Answers every request with a fixed status and body, and records the
/// headers of each request it saw.
#[derive(Clone)]
struct ScriptedTransport {
    status: u16,
    body: Vec<u8>,
    seen_headers: Rc<RefCell<Vec<Vec<(String, String)>>>>,
}

impl ScriptedTransport {
    fn new(status: u16, body: &[u8]) -> ScriptedTransport {
        ScriptedTransport {
            status,
            body: body.to_vec(),
            seen_headers: Rc::new(RefCell::new(Vec::new())),
        }
    }
}

impl Transport for ScriptedTransport {
    fn send(&self, request: &OutgoingRequest) -> Result<TransportResponse, String> {
        self.seen_headers.borrow_mut().push(request.headers.clone());
        Ok(TransportResponse { status: self.status, body: self.body.clone() })
    }
}

/// Panics when invoked: stands in for a transport that must never be
/// reached.
#[derive(Clone)]
struct PanickingTransport;

impl Transport for PanickingTransport {
    fn send(&self, _request: &OutgoingRequest) -> Result<TransportResponse, String> {
        panic!("the transport was invoked");
    }
}

/// Fails every delivery with a fixed cause.
struct FailingTransport;

impl Transport for FailingTransport {
    fn send(&self, _request: &OutgoingRequest) -> Result<TransportResponse, String> {
        Err(String::from("connection refused"))
    }
}

fn proto_exporter<T: Transport>(transport: T) -> Exporter<T> {
    Exporter::new(
        transport,
        String::from("http://localhost:4318/v1/metrics"),
        Vec::new(),
        Some(WireFormat::HttpProtobuf),
    )
}

#[test]
fn test_bad_status_code_error_message() {
    let transport = ScriptedTransport::new(400, b"Details");
    let exporter = proto_exporter(transport);
    let metrics = ResourceMetrics::default();
    let result = exporter.export(&metrics).unwrap_err();
    let debug_err = format!("{:?}", result);
    assert!(debug_err.contains("400"));
    assert!(debug_err.contains("Details"));
}

#[test]
fn test_rejection_carries_status_and_body() {
    let exporter = proto_exporter(ScriptedTransport::new(400, b"Details"));
    let metrics = ResourceMetrics::default();
    let err = exporter.export(&metrics).unwrap_err();
    assert_eq!(
        err,
        ExportError::ServerRejected { status: 400, body: String::from("Details") }
    );
    assert_eq!(
        err.message(),
        String::from("request failed with status 400 (Body: Details)")
    );
}

#[test]
fn test_success_status_ignores_body() {
    let exporter = proto_exporter(ScriptedTransport::new(200, b"anything at all"));
    let metrics = ResourceMetrics::default();
    assert_eq!(exporter.export(&metrics), Ok(()));
}

#[test]
fn test_other_success_status_is_success() {
    let exporter = proto_exporter(ScriptedTransport::new(204, b""));
    let metrics = ResourceMetrics::default();
    assert_eq!(exporter.export(&metrics), Ok(()));
}

#[test]
fn test_invalid_utf8_body_uses_placeholder() {
    let exporter = proto_exporter(ScriptedTransport::new(500, &[0xff, 0xfe, 0x80]));
    let metrics = ResourceMetrics::default();
    let err = exporter.export(&metrics).unwrap_err();
    assert_eq!(
        err,
        ExportError::ServerRejected {
            status: 500,
            body: String::from("response body cannot be decoded"),
        }
    );
}

#[test]
fn test_unconfigured_format_fails_before_any_network_call() {
    let exporter = Exporter::new(
        PanickingTransport,
        String::from("http://localhost:4318/v1/metrics"),
        Vec::new(),
        None,
    );
    let metrics = ResourceMetrics::default();
    let err = exporter.export(&metrics).unwrap_err();
    assert_eq!(err, ExportError::Encode(EncodeError::Configuration));
}

#[test]
fn test_shutdown_is_idempotent() {
    let mut exporter = proto_exporter(ScriptedTransport::new(200, b""));
    assert!(exporter.is_active());
    assert_eq!(exporter.shutdown(), Ok(()));
    assert!(!exporter.is_active());
    assert_eq!(exporter.shutdown(), Ok(()));
    assert!(!exporter.is_active());
}

#[test]
fn test_export_after_shutdown_fails_without_network_call() {
    let mut exporter = proto_exporter(PanickingTransport);
    exporter.shutdown().unwrap();
    let metrics = ResourceMetrics::default();
    let err = exporter.export(&metrics).unwrap_err();
    assert_eq!(err, ExportError::AlreadyShutDown);
}

#[test]
fn test_custom_header_sent_on_every_export() {
    let transport = ScriptedTransport::new(200, b"");
    let seen = transport.seen_headers.clone();
    let exporter = Exporter::new(
        transport,
        String::from("http://localhost:4318/v1/metrics"),
        vec![(String::from("X-Test"), String::from("abc"))],
        Some(WireFormat::HttpProtobuf),
    );
    let metrics = ResourceMetrics::default();
    exporter.export(&metrics).unwrap();
    exporter.export(&metrics).unwrap();
    let seen = seen.borrow();
    assert_eq!(seen.len(), 2);
    for headers in seen.iter() {
        assert_eq!(
            headers[0],
            (
                String::from("content-type"),
                String::from("application/x-protobuf"),
            )
        );
        assert_eq!(headers[1], (String::from("X-Test"), String::from("abc")));
    }
}

#[test]
fn test_custom_header_overrides_content_type() {
    let transport = ScriptedTransport::new(200, b"");
    let seen = transport.seen_headers.clone();
    let exporter = Exporter::new(
        transport,
        String::from("http://localhost:4318/v1/metrics"),
        vec![(String::from("content-type"), String::from("text/plain"))],
        Some(WireFormat::HttpProtobuf),
    );
    let metrics = ResourceMetrics::default();
    exporter.export(&metrics).unwrap();
    let seen = seen.borrow();
    assert_eq!(
        seen[0],
        vec![
            (
                String::from("content-type"),
                String::from("application/x-protobuf"),
            ),
            (String::from("content-type"), String::from("text/plain")),
        ]
    );
}

#[test]
fn test_transport_failure_is_reported_with_cause() {
    let exporter = proto_exporter(FailingTransport);
    let metrics = ResourceMetrics::default();
    let err = exporter.export(&metrics).unwrap_err();
    assert_eq!(err, ExportError::Transport(String::from("connection refused")));
    assert_eq!(err.message(), String::from("request failed: connection refused"));
}

#[test]
fn test_in_flight_handle_outlives_shutdown() {
    let transport = ScriptedTransport::new(200, b"");
    let mut exporter = proto_exporter(transport);
    let metrics = ResourceMetrics::default();
    let handle = exporter.transport_clone().unwrap();
    let request = exporter.prepare(&metrics).unwrap();
    exporter.shutdown().unwrap();
    assert_eq!(exporter.export(&metrics).unwrap_err(), ExportError::AlreadyShutDown);
    assert_eq!(dispatch(&handle, &request), Ok(()));
}

#[test]
fn test_transport_clone_fails_after_shutdown() {
    let mut exporter = proto_exporter(ScriptedTransport::new(200, b""));
    assert!(exporter.transport_clone().is_ok());
    exporter.shutdown().unwrap();
    match exporter.transport_clone() {
        Err(ExportError::AlreadyShutDown) => {}
        other => panic!("unexpected outcome: {:?}", other.is_ok()),
    }
}
