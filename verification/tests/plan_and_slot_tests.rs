use tdn_collector::phase::{phase_line, CollectorPhase};
use tdn_collector::reqplan::{build_request_plan, build_session_payload};
use tdn_collector::strutil::u64_to_dec;
use tdn_collector::supervisor::{resolve_both_in_order, ResultSlot};

fn headers() -> Vec<(String, String)> {
    vec![
        ("Accept".to_string(), "text/html".to_string()),
        ("X-Dup".to_string(), "first".to_string()),
        ("X-Dup".to_string(), "second".to_string()),
        ("X-Dup".to_string(), "third".to_string()),
    ]
}

#[test]
fn duplicate_headers_all_present_in_order() {
    let p = build_request_plan(
        "GET".to_string(),
        "https://example.com/".to_string(),
        headers(),
        "".to_string(),
    );
    assert_eq!(p.headers, headers());
    let dups: Vec<&str> = p
        .headers
        .iter()
        .filter(|(k, _)| k == "X-Dup")
        .map(|(_, v)| v.as_str())
        .collect();
    assert_eq!(dups, vec!["first", "second", "third"]);
}

#[test]
fn body_presence_changes_only_the_body() {
    let empty = build_request_plan(
        "POST".to_string(),
        "https://example.com/x".to_string(),
        headers(),
        "".to_string(),
    );
    let full = build_request_plan(
        "POST".to_string(),
        "https://example.com/x".to_string(),
        headers(),
        "payload".to_string(),
    );
    assert_eq!(empty.method, full.method);
    assert_eq!(empty.uri, full.uri);
    assert_eq!(empty.headers, full.headers);
    assert_eq!(empty.body, None);
    assert_eq!(full.body, Some("payload".to_string()));
    // The builder adds no header, so no body-dependent length or encoding
    // entry can differ between the two.
    assert!(!empty.headers.iter().any(|(k, _)| k.eq_ignore_ascii_case("content-length")));
    assert!(!full.headers.iter().any(|(k, _)| k.eq_ignore_ascii_case("transfer-encoding")));
}

#[test]
fn session_payload_exact_forms() {
    assert_eq!(
        build_session_payload(&None, &None),
        "{\"client_type\":\"Websocket\"}"
    );
    assert_eq!(
        build_session_payload(&Some(1024), &None),
        "{\"client_type\":\"Websocket\",\"max_sent_data\":1024}"
    );
    assert_eq!(
        build_session_payload(&None, &Some(7)),
        "{\"client_type\":\"Websocket\",\"max_recv_data\":7}"
    );
    assert_eq!(
        build_session_payload(&Some(0), &Some(18446744073709551615)),
        "{\"client_type\":\"Websocket\",\"max_sent_data\":0,\"max_recv_data\":18446744073709551615}"
    );
}

#[test]
fn decimal_rendering_exact() {
    assert_eq!(u64_to_dec(0), "0");
    assert_eq!(u64_to_dec(9), "9");
    assert_eq!(u64_to_dec(10), "10");
    assert_eq!(u64_to_dec(404), "404");
    assert_eq!(u64_to_dec(18446744073709551615), "18446744073709551615");
}

#[test]
fn slots_buffer_whatever_order_tasks_finish_in() {
    // The proving task finishes first; resolving the connection channel
    // first must still hand both values over without blocking.
    let mut conn: ResultSlot<&str> = ResultSlot::new();
    let mut prov: ResultSlot<u32> = ResultSlot::new();
    prov.complete(7);
    conn.complete("socket");
    let (c, p) = resolve_both_in_order(&mut conn, &mut prov);
    assert_eq!(c, "socket");
    assert_eq!(p, 7);

    // And in the other completion order.
    let mut conn2: ResultSlot<&str> = ResultSlot::new();
    let mut prov2: ResultSlot<u32> = ResultSlot::new();
    conn2.complete("socket");
    prov2.complete(9);
    let (c2, p2) = resolve_both_in_order(&mut conn2, &mut prov2);
    assert_eq!(c2, "socket");
    assert_eq!(p2, 9);
}

#[test]
fn phase_lines_render_index_and_message() {
    assert_eq!(
        phase_line(&CollectorPhase::NegotiateSession),
        "tlsn-js 0: Negotiate a session with the notary"
    );
    assert_eq!(
        phase_line(&CollectorPhase::StartNotarization),
        "tlsn-js 14: Start notarization"
    );
    assert_eq!(CollectorPhase::BuildRequest.index(), 8);
    assert_eq!(CollectorPhase::BuildRequest.message(), "Build request");
}
