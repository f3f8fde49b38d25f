use backend_supervisor::config::PROBE_RESPONSE_LIMIT;
use backend_supervisor::probe::{
    is_backend_healthy, probe_backend_state, BackendProbeState, ProbeReply,
};
use backend_supervisor::text::{contains_bytes, starts_with_bytes};

fn received(text: &str) -> ProbeReply {
    ProbeReply::Received(text.as_bytes().to_vec())
}

#[test]
fn success_with_compact_marker_is_healthy() {
    let reply = received(
        "HTTP/1.1 200 OK\r\ncontent-type: application/json\r\n\r\n{\"status\":\"ok\",\"service\":\"ancia-local-backend\"}",
    );
    assert_eq!(probe_backend_state(&reply), BackendProbeState::Healthy);
    assert!(is_backend_healthy(&reply));
}

#[test]
fn success_with_spaced_marker_is_healthy() {
    let reply = received("HTTP/1.1 200 OK\r\n\r\n{\"service\": \"ancia-local-backend\"}");
    assert_eq!(probe_backend_state(&reply), BackendProbeState::Healthy);
}

#[test]
fn http_1_0_success_is_healthy() {
    let reply = received("HTTP/1.0 200 OK\r\n\r\n{\"service\":\"ancia-local-backend\"}");
    assert_eq!(probe_backend_state(&reply), BackendProbeState::Healthy);
}

#[test]
fn success_without_marker_is_foreign() {
    let reply = received("HTTP/1.1 200 OK\r\n\r\n{\"service\":\"something-else\"}");
    assert_eq!(probe_backend_state(&reply), BackendProbeState::OccupiedByOtherService);
    assert!(!is_backend_healthy(&reply));
}

#[test]
fn marker_with_two_spaces_is_foreign() {
    let reply = received("HTTP/1.1 200 OK\r\n\r\n{\"service\":  \"ancia-local-backend\"}");
    assert_eq!(probe_backend_state(&reply), BackendProbeState::OccupiedByOtherService);
}

#[test]
fn marker_without_success_is_foreign() {
    let reply = received("HTTP/1.1 404 Not Found\r\n\r\n{\"service\":\"ancia-local-backend\"}");
    assert_eq!(probe_backend_state(&reply), BackendProbeState::OccupiedByOtherService);
    let reply = received("HTTP/1.1 500 x\r\n\r\n{\"service\": \"ancia-local-backend\"}");
    assert_eq!(probe_backend_state(&reply), BackendProbeState::OccupiedByOtherService);
}

#[test]
fn status_line_must_come_first() {
    let reply = received(" HTTP/1.1 200 OK\r\n\r\n{\"service\":\"ancia-local-backend\"}");
    assert_eq!(probe_backend_state(&reply), BackendProbeState::OccupiedByOtherService);
    let reply = received("HTTP/2 200\r\n\r\n{\"service\":\"ancia-local-backend\"}");
    assert_eq!(probe_backend_state(&reply), BackendProbeState::OccupiedByOtherService);
}

#[test]
fn any_other_answer_is_foreign() {
    assert_eq!(
        probe_backend_state(&received("SSH-2.0-OpenSSH_9.6\r\n")),
        BackendProbeState::OccupiedByOtherService
    );
    assert_eq!(probe_backend_state(&received("x")), BackendProbeState::OccupiedByOtherService);
    assert_eq!(
        probe_backend_state(&ProbeReply::Received(vec![0xff, 0xfe, 0x00])),
        BackendProbeState::OccupiedByOtherService
    );
}

#[test]
fn empty_answer_is_unreachable() {
    assert_eq!(probe_backend_state(&ProbeReply::Received(vec![])), BackendProbeState::Unreachable);
}

#[test]
fn failed_exchange_is_unreachable() {
    assert_eq!(probe_backend_state(&ProbeReply::NoConnection), BackendProbeState::Unreachable);
    assert_eq!(probe_backend_state(&ProbeReply::SendFailed), BackendProbeState::Unreachable);
    assert_eq!(probe_backend_state(&ProbeReply::ReadFailed), BackendProbeState::Unreachable);
    assert!(!is_backend_healthy(&ProbeReply::NoConnection));
}

#[test]
fn bytes_that_are_not_text_do_not_hide_the_marker() {
    let mut bytes = b"HTTP/1.1 200 OK\r\n\r\n".to_vec();
    bytes.extend_from_slice(&[0xff, 0xc3]);
    bytes.extend_from_slice(b"\"service\":\"ancia-local-backend\"");
    bytes.push(0x80);
    assert_eq!(probe_backend_state(&ProbeReply::Received(bytes)), BackendProbeState::Healthy);
}

#[test]
fn only_the_first_bytes_are_inspected() {
    let head = "HTTP/1.1 200 OK\r\n\r\n";
    let marker = "\"service\":\"ancia-local-backend\"";
    let mut inside = head.as_bytes().to_vec();
    while inside.len() < PROBE_RESPONSE_LIMIT - marker.len() {
        inside.push(b' ');
    }
    inside.extend_from_slice(marker.as_bytes());
    assert_eq!(inside.len(), PROBE_RESPONSE_LIMIT);
    assert_eq!(
        probe_backend_state(&ProbeReply::Received(inside.clone())),
        BackendProbeState::Healthy
    );

    let mut straddling = head.as_bytes().to_vec();
    while straddling.len() < PROBE_RESPONSE_LIMIT - marker.len() + 1 {
        straddling.push(b' ');
    }
    straddling.extend_from_slice(marker.as_bytes());
    assert_eq!(
        probe_backend_state(&ProbeReply::Received(straddling)),
        BackendProbeState::OccupiedByOtherService
    );

    let mut beyond = head.as_bytes().to_vec();
    while beyond.len() < PROBE_RESPONSE_LIMIT {
        beyond.push(b' ');
    }
    beyond.extend_from_slice(marker.as_bytes());
    assert_eq!(
        probe_backend_state(&ProbeReply::Received(beyond)),
        BackendProbeState::OccupiedByOtherService
    );
}

#[test]
fn short_success_line_is_enough_with_marker_only() {
    let reply = received("HTTP/1.1 200");
    assert_eq!(probe_backend_state(&reply), BackendProbeState::OccupiedByOtherService);
    let reply = received("HTTP/1.1 200\"service\":\"ancia-local-backend\"");
    assert_eq!(probe_backend_state(&reply), BackendProbeState::Healthy);
    let reply = received("HTTP/1.1 20");
    assert_eq!(probe_backend_state(&reply), BackendProbeState::OccupiedByOtherService);
}

#[test]
fn prefix_search_is_exact() {
    let data = b"abcdef";
    assert!(starts_with_bytes(data, b"abc"));
    assert!(starts_with_bytes(data, b""));
    assert!(starts_with_bytes(data, b"abcdef"));
    assert!(!starts_with_bytes(&data[..2], b"abc"));
    assert!(!starts_with_bytes(data, b"abd"));
    assert!(!starts_with_bytes(data, b"bcd"));
    assert!(!starts_with_bytes(data, b"abcdefg"));
    assert!(starts_with_bytes(b"", b""));
    assert!(!starts_with_bytes(b"", b"a"));
}

#[test]
fn infix_search_is_exact() {
    let data = b"abcabd";
    assert!(contains_bytes(data, b"abd"));
    assert!(contains_bytes(data, b"abc"));
    assert!(contains_bytes(data, b"d"));
    assert!(contains_bytes(data, b""));
    assert!(contains_bytes(b"", b""));
    assert!(!contains_bytes(&data[..5], b"abd"));
    assert!(!contains_bytes(data, b"abe"));
    assert!(!contains_bytes(data, b"abcabda"));
    assert!(contains_bytes(data, b"abcabd"));
    assert!(contains_bytes(b"aab", b"ab"));
    assert!(!contains_bytes(b"", b"a"));
}
