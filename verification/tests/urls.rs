use terracotta::encoding::url_encode;
use terracotta::error::TerracottaError;
use terracotta::request::{
    is_success_status, local_url, public_nodes, request_outcome, request_url, room_close_outcome,
};
use terracotta::runtime::Runtime;

fn strings(items: &[&str]) -> Vec<String> {
    items.iter().map(|s| s.to_string()).collect()
}

#[test]
fn encodes_reserved_and_non_ascii_bytes() {
    assert_eq!(url_encode("a b&c=d?e#f"), "a%20b%26c%3Dd%3Fe%23f");
    assert_eq!(url_encode("AZaz09-._~"), "AZaz09-._~");
    assert_eq!(url_encode("é/"), "%C3%A9%2F");
    assert_eq!(url_encode(""), "");
}

#[test]
fn local_addresses() {
    assert_eq!(local_url(8080, "/state"), "http://127.0.0.1:8080/state");
    assert_eq!(local_url(0, ""), "http://127.0.0.1:0");
    assert_eq!(local_url(65535, "/x"), "http://127.0.0.1:65535/x");
    assert_eq!(local_url(9, "/x"), "http://127.0.0.1:9/x");
}

#[test]
fn public_nodes_are_trimmed_and_deduplicated() {
    let nodes = public_nodes(&strings(&[" wss://a ", "", "wss://b", "wss://a", "  ", "wss://b "]));
    assert_eq!(nodes, strings(&["wss://a", "wss://b"]));
}

#[test]
fn public_nodes_default_when_none_usable() {
    assert_eq!(public_nodes(&Vec::new()), strings(&["wss://center.node.1tmc.top"]));
    assert_eq!(
        public_nodes(&strings(&[" ", "\t"])),
        strings(&["wss://center.node.1tmc.top"])
    );
}

#[test]
fn request_url_opens_query_when_path_has_none() {
    let url = request_url(7000, "/state/ide", &strings(&["wss://a b", "wss://c"]));
    assert_eq!(
        url,
        "http://127.0.0.1:7000/state/ide?public_nodes=wss%3A%2F%2Fa%20b&public_nodes=wss%3A%2F%2Fc"
    );
}

#[test]
fn request_url_extends_existing_query() {
    let url = request_url(1, "/state/scanning?room=&player=P", &strings(&["n"]));
    assert_eq!(
        url,
        "http://127.0.0.1:1/state/scanning?room=&player=P&public_nodes=n"
    );
    assert_eq!(request_url(1, "/p", &Vec::new()), "http://127.0.0.1:1/p");
}

#[test]
fn room_request_needs_port() {
    let runtime: Runtime<()> = Runtime::new();
    let err = runtime.room_request_url("/state", &Vec::new()).unwrap_err();
    assert!(matches!(err, TerracottaError::NotRunning));
    assert_eq!(err.message(), "Terracotta is not running");
}

#[test]
fn room_request_with_port_uses_default_node() {
    let mut runtime: Runtime<()> = Runtime::new();
    runtime.port = Some(4321);
    let url = runtime
        .room_request_url("/state/guesting?room=U%2FABCD-1234-EFGH-5678&player=P", &strings(&["  "]))
        .unwrap();
    assert_eq!(
        url,
        "http://127.0.0.1:4321/state/guesting?room=U%2FABCD-1234-EFGH-5678&player=P&public_nodes=wss%3A%2F%2Fcenter.node.1tmc.top"
    );
}

#[test]
fn close_and_shutdown_addresses() {
    let mut runtime: Runtime<u32> = Runtime::new();
    assert!(matches!(runtime.close_room_url(), Err(TerracottaError::NotRunning)));
    assert_eq!(runtime.shutdown_url(), None);
    runtime.port = Some(25565);
    runtime.child = Some(7);
    assert_eq!(runtime.close_room_url().unwrap(), "http://127.0.0.1:25565/state/ide");
    assert_eq!(
        runtime.shutdown_url().unwrap(),
        "http://127.0.0.1:25565/panic?peaceful=true"
    );
    assert_eq!(runtime.shut_down(), Some(7));
    assert_eq!(runtime.port, None);
    assert_eq!(runtime.child, None);
}

#[test]
fn request_failure_messages() {
    let e = TerracottaError::RequestFailed {
        status: "404 Not Found".to_string(),
        url: "http://127.0.0.1:1/x".to_string(),
        body: "nope".to_string(),
    };
    assert_eq!(
        e.message(),
        "HTTP status 404 Not Found for Terracotta request http://127.0.0.1:1/x: nope"
    );
    let e = TerracottaError::RoomCloseFailed {
        status: "500 Internal Server Error".to_string(),
        body: "".to_string(),
    };
    assert_eq!(
        e.message(),
        "HTTP status 500 Internal Server Error for Terracotta room close: "
    );
    assert_eq!(TerracottaError::SpawnFailed("denied".to_string()).message(), "denied");
}

#[test]
fn http_status_outcomes() {
    assert!(is_success_status(200));
    assert!(is_success_status(204));
    assert!(!is_success_status(199));
    assert!(!is_success_status(300));
    assert!(!is_success_status(404));
    assert!(request_outcome(200, "200 OK".into(), "u".into(), "".into()).is_ok());
    let err = request_outcome(502, "502 Bad Gateway".into(), "u".into(), "down".into()).unwrap_err();
    assert_eq!(err.message(), "HTTP status 502 Bad Gateway for Terracotta request u: down");
    assert!(room_close_outcome(201, "201 Created".into(), "".into()).is_ok());
    let err = room_close_outcome(404, "404 Not Found".into(), "x".into()).unwrap_err();
    assert_eq!(err.message(), "HTTP status 404 Not Found for Terracotta room close: x");
}
