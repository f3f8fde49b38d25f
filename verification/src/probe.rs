//! Classification of what a health probe found at a port.

use vstd::prelude::*;
use vstd::string::*;
use vstd::slice::slice_subrange;
use vstd::utf8::is_ascii_chars;
use crate::config::PROBE_RESPONSE_LIMIT;
use crate::text::{ascii_bytes, has_prefix, has_infix, starts_with_bytes, contains_bytes,
    infix_of_prefix};

verus! {

/// Status line of a successful HTTP/1.1 response.
pub const STATUS_OK_HTTP_1_1: &'static str = "HTTP/1.1 200";

/// Status line of a successful HTTP/1.0 response.
pub const STATUS_OK_HTTP_1_0: &'static str = "HTTP/1.0 200";

/// The field by which the backend names itself, written without a space.
pub const SERVICE_MARKER_COMPACT: &'static str = "\"service\":\"ancia-local-backend\"";

/// The same field, written with a space after the colon.
pub const SERVICE_MARKER_SPACED: &'static str = "\"service\": \"ancia-local-backend\"";

/// What a probe found at a port.
#[derive(Clone, Copy, Debug, PartialEq, Eq, Structural)]
pub enum BackendProbeState {
    /// Nothing answered.
    Unreachable,
    /// The backend answered and named itself.
    Healthy,
    /// Something answered that is not the backend.
    OccupiedByOtherService,
}

/// How the exchange with a port went.
#[derive(Debug)]
pub enum ProbeReply {
    /// The connection was refused or timed out.
    NoConnection,
    /// The request could not be written.
    SendFailed,
    /// Reading the response failed.
    ReadFailed,
    /// These bytes were read.
    Received(Vec<u8>),
}

/// The part of a response that is inspected.
pub open spec fn inspected(response: Seq<u8>) -> Seq<u8> {
    if response.len() <= PROBE_RESPONSE_LIMIT {
        response
    } else {
        response.take(PROBE_RESPONSE_LIMIT as int)
    }
}

/// Whether a response begins with the status line of a success.
pub open spec fn status_ok(response: Seq<u8>) -> bool {
    has_prefix(response, ascii_bytes(STATUS_OK_HTTP_1_1@)) || has_prefix(
        response,
        ascii_bytes(STATUS_OK_HTTP_1_0@),
    )
}

/// Whether a response holds the field by which the backend names itself.
pub open spec fn has_service_marker(response: Seq<u8>) -> bool {
    has_infix(response, ascii_bytes(SERVICE_MARKER_COMPACT@)) || has_infix(
        response,
        ascii_bytes(SERVICE_MARKER_SPACED@),
    )
}

/// What a response says of the port it came from.
pub open spec fn classify_response(response: Seq<u8>) -> BackendProbeState {
    if response.len() == 0 {
        BackendProbeState::Unreachable
    } else if status_ok(inspected(response)) && has_service_marker(inspected(response)) {
        BackendProbeState::Healthy
    } else {
        BackendProbeState::OccupiedByOtherService
    }
}

/// What an exchange says of the port: unreachable unless bytes came back,
/// healthy only for a success that carries the service marker.
pub open spec fn probe_state(reply: ProbeReply) -> BackendProbeState {
    match reply {
        ProbeReply::Received(response) => classify_response(response@),
        _ => BackendProbeState::Unreachable,
    }
}

fn ascii_pattern(text: &'static str) -> (bytes: &'static [u8])
    requires
        is_ascii_chars(text@),
    ensures
        bytes@ == ascii_bytes(text@),
{
    let bytes = text.as_bytes();
    proof {
        vstd::string::is_ascii_spec_bytes(text);
        assert(vstd::string::is_ascii(text));
        assert(bytes@ =~= ascii_bytes(text@));
    }
    bytes
}

/// Classifies the outcome of one probe.
pub fn probe_backend_state(reply: &ProbeReply) -> (state: BackendProbeState)
    ensures
        state == probe_state(*reply),
{
    match reply {
        ProbeReply::Received(response) => {
            let size = response.len();
            if size == 0 {
                return BackendProbeState::Unreachable;
            }
            let limit = if size <= PROBE_RESPONSE_LIMIT {
                size
            } else {
                PROBE_RESPONSE_LIMIT
            };
            let data = slice_subrange(response.as_slice(), 0, limit);
            proof {
                reveal_strlit("HTTP/1.1 200");
                reveal_strlit("HTTP/1.0 200");
                reveal_strlit("\"service\":\"ancia-local-backend\"");
                reveal_strlit("\"service\": \"ancia-local-backend\"");
                assert(data@ =~= inspected(response@));
            }
            let http_ok = starts_with_bytes(data, ascii_pattern(STATUS_OK_HTTP_1_1))
                || starts_with_bytes(data, ascii_pattern(STATUS_OK_HTTP_1_0));
            let service_ok = contains_bytes(data, ascii_pattern(SERVICE_MARKER_COMPACT))
                || contains_bytes(data, ascii_pattern(SERVICE_MARKER_SPACED));
            if http_ok && service_ok {
                BackendProbeState::Healthy
            } else {
                BackendProbeState::OccupiedByOtherService
            }
        },
        _ => BackendProbeState::Unreachable,
    }
}

/// Whether the probe found the backend itself.
pub fn is_backend_healthy(reply: &ProbeReply) -> (healthy: bool)
    ensures
        healthy == (probe_state(*reply) == BackendProbeState::Healthy),
{
    probe_backend_state(reply) == BackendProbeState::Healthy
}

/// A response that lacks the service marker is never classified as healthy,
/// whatever its status line says; nor is one that holds the marker only
/// behind the part that is inspected.
pub proof fn unmarked_response_is_never_healthy(response: Seq<u8>)
    requires
        !has_service_marker(response) || !has_service_marker(inspected(response)),
    ensures
        classify_response(response) != BackendProbeState::Healthy,
{
    if has_service_marker(inspected(response)) {
        let limit = inspected(response).len() as int;
        assert(inspected(response) =~= response.take(limit));
        if has_infix(inspected(response), ascii_bytes(SERVICE_MARKER_COMPACT@)) {
            infix_of_prefix(response, ascii_bytes(SERVICE_MARKER_COMPACT@), limit);
        } else {
            infix_of_prefix(response, ascii_bytes(SERVICE_MARKER_SPACED@), limit);
        }
    }
}

/// A response is classified as healthy exactly when it is a success that
/// carries the service marker, and as unreachable exactly when it is empty.
pub proof fn classification_cases(response: Seq<u8>)
    ensures
        classify_response(response) == BackendProbeState::Healthy <==> (response.len() > 0
            && status_ok(inspected(response)) && has_service_marker(inspected(response))),
        classify_response(response) == BackendProbeState::Unreachable <==> response.len() == 0,
{
}

} // verus!
