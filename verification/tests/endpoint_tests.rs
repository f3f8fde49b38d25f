use backend_supervisor::config::{BACKEND_HOST, BACKEND_PORT_DEFAULT, BACKEND_PORT_FALLBACK_MAX};
use backend_supervisor::endpoint::{
    backend_addr, backend_url, health_request, normalize_backend_host, normalize_backend_port,
    BackendAddr,
};
use backend_supervisor::text::{decimal_string, eq_ignore_ascii_case, same_text, trim, white_space};

#[test]
fn host_is_trimmed() {
    assert_eq!(normalize_backend_host("  10.0.0.1 \n"), "10.0.0.1");
    assert_eq!(normalize_backend_host("localhost"), "localhost");
    assert_eq!(normalize_backend_host("\tbackend.local"), "backend.local");
}

#[test]
fn blank_host_gives_default_host() {
    assert_eq!(normalize_backend_host(""), "127.0.0.1");
    assert_eq!(normalize_backend_host("   "), BACKEND_HOST);
    assert_eq!(normalize_backend_host(" \t\r\n"), BACKEND_HOST);
}

#[test]
fn host_keeps_inner_white_space() {
    assert_eq!(normalize_backend_host(" a b "), "a b");
}

#[test]
fn host_loses_unicode_white_space() {
    assert_eq!(normalize_backend_host("\u{3000}example\u{a0}"), "example");
    assert_eq!(normalize_backend_host("\u{2003}\u{2028}"), BACKEND_HOST);
}

#[test]
fn host_keeps_characters_that_are_not_white_space() {
    assert_eq!(normalize_backend_host("\u{200b}x"), "\u{200b}x");
    assert_eq!(normalize_backend_host("пример"), "пример");
}

#[test]
fn trim_agrees_with_std() {
    let samples = [
        "", " ", "a", " a", "a ", "  a  b  ", "\n\n", "\u{85}x\u{1680}", "x\u{feff}", " é ",
    ];
    for sample in samples {
        assert_eq!(trim(sample), sample.trim());
    }
}

#[test]
fn zero_port_gives_default_port() {
    assert_eq!(normalize_backend_port(0), 5055);
    assert_eq!(normalize_backend_port(0), BACKEND_PORT_DEFAULT);
}

#[test]
fn other_ports_stay() {
    assert_eq!(normalize_backend_port(1), 1);
    assert_eq!(normalize_backend_port(5055), 5055);
    assert_eq!(normalize_backend_port(8080), 8080);
    assert_eq!(normalize_backend_port(65535), 65535);
}

#[test]
fn port_range_is_above_default() {
    assert_eq!(BACKEND_PORT_FALLBACK_MAX, 5072);
    assert!(BACKEND_PORT_DEFAULT < BACKEND_PORT_FALLBACK_MAX);
}

#[test]
fn url_of_defaults() {
    assert_eq!(backend_url("", 0), "http://127.0.0.1:5055");
}

#[test]
fn url_normalizes_host_and_port() {
    assert_eq!(backend_url(" localhost ", 65535), "http://localhost:65535");
    assert_eq!(backend_url("10.1.2.3", 7), "http://10.1.2.3:7");
    assert_eq!(backend_url("h", 10), "http://h:10");
    assert_eq!(backend_url("h", 100), "http://h:100");
    assert_eq!(backend_url("h", 1000), "http://h:1000");
    assert_eq!(backend_url("h", 5072), "http://h:5072");
}

#[test]
fn health_request_is_exact() {
    assert_eq!(
        health_request("127.0.0.1", 5055),
        "GET /health HTTP/1.1\r\nHost: 127.0.0.1:5055\r\nAccept: application/json\r\nConnection: close\r\n\r\n"
    );
}

#[test]
fn health_request_normalizes_endpoint() {
    assert_eq!(
        health_request("  ", 0),
        "GET /health HTTP/1.1\r\nHost: 127.0.0.1:5055\r\nAccept: application/json\r\nConnection: close\r\n\r\n"
    );
    assert!(health_request(" example ", 81).contains("\r\nHost: example:81\r\n"));
}

#[test]
fn loopback_names_give_loopback_address() {
    assert!(matches!(backend_addr("localhost", 5055), BackendAddr::Loopback { port: 5055 }));
    assert!(matches!(backend_addr("LocalHost", 0), BackendAddr::Loopback { port: 5055 }));
    assert!(matches!(backend_addr(" LOCALHOST ", 9), BackendAddr::Loopback { port: 9 }));
    assert!(matches!(backend_addr("127.0.0.1", 5060), BackendAddr::Loopback { port: 5060 }));
    assert!(matches!(backend_addr("", 0), BackendAddr::Loopback { port: 5055 }));
}

#[test]
fn other_hosts_give_their_text() {
    match backend_addr(" 192.168.1.5 ", 80) {
        BackendAddr::Literal { text, port } => {
            assert_eq!(text, "192.168.1.5:80");
            assert_eq!(port, 80);
        }
        BackendAddr::Loopback { .. } => panic!("not a loopback name"),
    }
    match backend_addr("localhost.", 0) {
        BackendAddr::Literal { text, port } => {
            assert_eq!(text, "localhost.:5055");
            assert_eq!(port, 5055);
        }
        BackendAddr::Loopback { .. } => panic!("not a loopback name"),
    }
}

#[test]
fn decimal_digits_are_exact() {
    assert_eq!(decimal_string(0), "0");
    assert_eq!(decimal_string(9), "9");
    assert_eq!(decimal_string(10), "10");
    assert_eq!(decimal_string(5055), "5055");
    assert_eq!(decimal_string(1_000_000), "1000000");
    assert_eq!(decimal_string(u64::MAX), "18446744073709551615");
}

#[test]
fn decimal_digits_agree_with_std() {
    let mut n: u64 = 1;
    for _ in 0..60 {
        assert_eq!(decimal_string(n), n.to_string());
        assert_eq!(decimal_string(n - 1), (n - 1).to_string());
        n = n.wrapping_mul(3).wrapping_add(7) % 4_000_000_000_000_000_000 + 1;
    }
}

#[test]
fn ascii_case_is_ignored() {
    assert!(eq_ignore_ascii_case("localhost", "LOCALHOST"));
    assert!(eq_ignore_ascii_case("", ""));
    assert!(!eq_ignore_ascii_case("localhost", "localhos"));
    assert!(!eq_ignore_ascii_case("a", "b"));
    assert!(!eq_ignore_ascii_case("É", "é"));
    assert!(eq_ignore_ascii_case("Zz@[", "zZ@["));
    assert!(!eq_ignore_ascii_case("@", "`"));
}

#[test]
fn same_text_compares_characters() {
    assert!(same_text("127.0.0.1", "127.0.0.1"));
    assert!(!same_text("127.0.0.1", "127.0.0.2"));
    assert!(!same_text("a", "A"));
}

#[test]
fn white_space_is_what_std_calls_white_space() {
    let mut count = 0;
    for code in 0..=0x10ffffu32 {
        if let Some(c) = char::from_u32(code) {
            assert_eq!(white_space(c), c.is_whitespace(), "U+{:04X}", code);
            if white_space(c) {
                count += 1;
            }
        }
    }
    assert_eq!(count, 25);
}

#[test]
fn trimming_twice_is_trimming_once() {
    for sample in ["", "  ", " a ", "\t x y \n", "\u{2009}z\u{2009}", "127.0.0.1"] {
        assert_eq!(trim(trim(sample)), trim(sample));
        assert_eq!(
            normalize_backend_host(&normalize_backend_host(sample)),
            normalize_backend_host(sample)
        );
        assert!(!normalize_backend_host(sample).is_empty());
    }
}
