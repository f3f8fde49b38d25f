//! The backend's endpoint: host and port as they are configured, and the
//! forms in which they are used.

use vstd::prelude::*;
use vstd::string::*;
use crate::config::{BACKEND_HOST, BACKEND_PORT_DEFAULT, BACKEND_HEALTH_PATH};
use crate::text::{trim, trimmed, trimmed_is_idempotent, is_white_space, decimal, decimal_string,
    same_text, eq_ignore_ascii_case, same_ignoring_ascii_case};

verus! {

/// The host that stands for `host`: `host` without surrounding white space,
/// or the default host where nothing is left.
pub open spec fn normalized_host(host: Seq<char>) -> Seq<char> {
    if trimmed(host).len() == 0 {
        BACKEND_HOST@
    } else {
        trimmed(host)
    }
}

/// The port that stands for `port`: the default port for zero, else `port` itself.
pub open spec fn normalized_port(port: u16) -> u16 {
    if port == 0 {
        BACKEND_PORT_DEFAULT
    } else {
        port
    }
}

/// Host, colon and port in decimal digits.
pub open spec fn authority(host: Seq<char>, port: u16) -> Seq<char> {
    normalized_host(host) + ":"@ + decimal(normalized_port(port) as nat)
}

/// The base URL of the backend at `host` and `port`.
pub open spec fn url_text(host: Seq<char>, port: u16) -> Seq<char> {
    "http://"@ + authority(host, port)
}

/// The health request sent to the backend at `host` and `port`.
pub open spec fn health_request_text(host: Seq<char>, port: u16) -> Seq<char> {
    "GET "@ + BACKEND_HEALTH_PATH@ + " HTTP/1.1\r\nHost: "@ + authority(host, port)
        + "\r\nAccept: application/json\r\nConnection: close\r\n\r\n"@
}

/// Whether `host` names the loopback interface.
pub open spec fn is_loopback_host(host: Seq<char>) -> bool {
    same_ignoring_ascii_case(host, "localhost"@) || host == "127.0.0.1"@
}

/// Removes surrounding white space from `host` and replaces an empty host by the default host.
pub fn normalize_backend_host(host: &str) -> (normalized: String)
    ensures
        normalized@ == normalized_host(host@),
{
    let trimmed = trim(host);
    if trimmed.is_empty() {
        String::from_str(BACKEND_HOST)
    } else {
        String::from_str(trimmed)
    }
}

/// Replaces a zero port by the default port.
pub fn normalize_backend_port(port: u16) -> (normalized: u16)
    ensures
        normalized == normalized_port(port),
{
    if port == 0 {
        BACKEND_PORT_DEFAULT
    } else {
        port
    }
}

fn host_and_port(host: &str, port: u16) -> (text: String)
    ensures
        text@ == authority(host@, port),
{
    let mut text = normalize_backend_host(host);
    text.append(":");
    let digits = decimal_string(normalize_backend_port(port) as u64);
    text.append(digits.as_str());
    text
}

/// The base URL of the backend: scheme, normalized host and normalized port.
pub fn backend_url(host: &str, port: u16) -> (url: String)
    ensures
        url@ == url_text(host@, port),
{
    let mut url = String::from_str("http://");
    let rest = host_and_port(host, port);
    url.append(rest.as_str());
    assert(url@ =~= url_text(host@, port));
    url
}

/// The text of the HTTP request that asks the backend for its health.
pub fn health_request(host: &str, port: u16) -> (request: String)
    ensures
        request@ == health_request_text(host@, port),
{
    let mut request = String::from_str("GET ");
    request.append(BACKEND_HEALTH_PATH);
    request.append(" HTTP/1.1\r\nHost: ");
    let target = host_and_port(host, port);
    request.append(target.as_str());
    request.append("\r\nAccept: application/json\r\nConnection: close\r\n\r\n");
    request
}

/// Where a probe connects to.
#[derive(Debug)]
pub enum BackendAddr {
    /// The loopback interface, at the given port.
    Loopback { port: u16 },
    /// The socket address that `text` spells; where `text` spells none, the
    /// loopback interface at `port`.
    Literal { text: String, port: u16 },
}

/// The address that stands for `host` and `port`: the loopback interface for
/// its two names, else the normalized host and port as one text.
pub fn backend_addr(host: &str, port: u16) -> (addr: BackendAddr)
    ensures
        is_loopback_host(normalized_host(host@)) ==> addr == (BackendAddr::Loopback {
            port: normalized_port(port),
        }),
        !is_loopback_host(normalized_host(host@)) ==> (addr matches BackendAddr::Literal {
            text,
            port: fallback,
        } && text@ == authority(host@, port) && fallback == normalized_port(port)),
{
    let normalized = normalize_backend_host(host);
    let normalized_port = normalize_backend_port(port);
    if eq_ignore_ascii_case(normalized.as_str(), "localhost") || same_text(
        normalized.as_str(),
        "127.0.0.1",
    ) {
        BackendAddr::Loopback { port: normalized_port }
    } else {
        BackendAddr::Literal { text: host_and_port(host, port), port: normalized_port }
    }
}

/// Normalizing a host that is normalized changes nothing, and a normalized
/// host is never empty.
pub proof fn normalized_host_is_stable(host: Seq<char>)
    ensures
        normalized_host(normalized_host(host)) == normalized_host(host),
        normalized_host(host).len() > 0,
{
    reveal_strlit("127.0.0.1");
    let default_host = BACKEND_HOST@;
    assert(default_host.len() == 9);
    assert(!is_white_space(default_host[0]));
    assert(!is_white_space(default_host.last()));
    assert(trimmed(default_host) == default_host);
    trimmed_is_idempotent(host);
}

/// A port is normalized to a port that is not zero, and normalizing it again
/// changes nothing.
pub proof fn normalized_port_is_stable(port: u16)
    ensures
        normalized_port(port) != 0,
        normalized_port(normalized_port(port)) == normalized_port(port),
        port != 0 ==> normalized_port(port) == port,
{
}

} // verus!
