use tdn_collector::collector::{ChannelOutcome, Collector};
use tdn_collector::reqplan::RequestOptions;

fn options(body: &str) -> RequestOptions {
    RequestOptions {
        notary_url: "https://notary.example.com".to_string(),
        websocket_proxy_url: "wss://proxy.example.com/ws".to_string(),
        method: "POST".to_string(),
        headers: vec![
            ("Accept".to_string(), "application/json".to_string()),
            ("X-Tag".to_string(), "one".to_string()),
            ("X-Tag".to_string(), "two".to_string()),
        ],
        body: body.to_string(),
        max_sent_data: Some(4096),
        max_recv_data: Some(16384),
    }
}

// dGVzdA== is "test" in standard base64; QUJD is "ABC".
const PWD_B64: &str = "dGVzdA==";
const KEY_B64: &str = "QUJD";

#[test]
fn begin_plans_session_creation() {
    let (c, act) = Collector::begin("https://example.com/api", options("{}"), PWD_B64, KEY_B64)
        .unwrap();
    assert_eq!(act.url, "https://notary.example.com/session");
    assert_eq!(act.method, "POST");
    assert_eq!(
        act.headers,
        vec![
            ("Host".to_string(), "notary.example.com".to_string()),
            ("Content-Type".to_string(), "application/json".to_string()),
        ]
    );
    assert_eq!(
        act.payload,
        "{\"client_type\":\"Websocket\",\"max_sent_data\":4096,\"max_recv_data\":16384}"
    );
    assert_eq!(c.target_host, "example.com");
    assert_eq!(c.pwd_bytes, b"test".to_vec());
    assert_eq!(c.key_bytes, b"ABC".to_vec());
}

#[test]
fn begin_omits_absent_limits() {
    let mut o = options("");
    o.max_sent_data = None;
    o.max_recv_data = None;
    let (_, act) = Collector::begin("https://example.com/", o, PWD_B64, KEY_B64).unwrap();
    assert_eq!(act.payload, "{\"client_type\":\"Websocket\"}");
}

#[test]
fn begin_keeps_notary_path() {
    let mut o = options("");
    o.notary_url = "http://notary.example.com:7047/v1".to_string();
    let (c, act) = Collector::begin("https://example.com/", o, PWD_B64, KEY_B64).unwrap();
    assert_eq!(act.url, "http://notary.example.com:7047/v1/session");
    assert!(!c.notary_ssl);
}

#[test]
fn scenario_session_id_lands_in_ws_url() {
    let (c, _) = Collector::begin("https://example.com/api", options("{}"), PWD_B64, KEY_B64)
        .unwrap();
    let (_, connect) = c.on_session_response("{\"session_id\":\"abc123\"}").unwrap();
    assert!(connect.ws_url.contains("sessionId=abc123"));
    assert_eq!(
        connect.ws_url,
        "wss://notary.example.com/tdn-collect?sessionId=abc123\
         &commitmentPwdProofBase64=dGVzdA==&pubKeyConsumerBase64=QUJD"
    );
}

#[test]
fn scenario_non_ok_status_fails_run() {
    let (c, _) = Collector::begin("https://example.com/api", options("{}"), PWD_B64, KEY_B64)
        .unwrap();
    let (c, _) = c.on_session_response("{\"session_id\":\"abc123\"}").unwrap();
    let (c, _) = c.on_notary_connected();
    let (c, _) = c.on_prover_setup(true).unwrap();
    let c = c.on_proxy_connected();
    let c = c.on_prover_bound();
    let (c, _) = c.on_handshake_done(true).unwrap();
    let c = c.on_defer_decryption(true).unwrap();
    let err = c.on_response_status(Some(404)).unwrap_err();
    assert!(err.contains("Response status is not OK"));
    assert_eq!(err, "Response status is not OK: 404");
}

#[test]
fn scenario_full_happy_run() {
    let (c, _) = Collector::begin("https://example.com/api", options("{}"), PWD_B64, KEY_B64)
        .unwrap();
    let (c, _) = c.on_session_response("{\"session_id\":\"abc123\"}").unwrap();
    let (c, config) = c.on_notary_connected();
    assert_eq!(config.id, "abc123");
    assert_eq!(config.server_dns, "example.com");
    assert_eq!(config.max_sent_data, Some(4096));
    let (c, proxy) = c.on_prover_setup(true).unwrap();
    assert_eq!(proxy.ws_url, "wss://proxy.example.com/ws");
    let c = c.on_proxy_connected();
    let c = c.on_prover_bound();
    let (c, exchange) = c.on_handshake_done(true).unwrap();
    assert!(exchange.defer_decryption_first);
    assert_eq!(exchange.request.method, "POST");
    assert_eq!(exchange.request.uri, "https://example.com/api");
    let c = c.on_defer_decryption(true).unwrap();
    let c = c.on_response_status(Some(200)).unwrap();
    let (c, pretty) = c.on_response_body(Some("{\"ok\":true}")).unwrap();
    assert_eq!(pretty, "{\n  \"ok\": true\n}");
    let c = c.on_connection_resolved(ChannelOutcome::Delivered).unwrap();
    let c = c.on_prover_resolved(ChannelOutcome::Delivered).unwrap();
    let c = c.on_capture_serialized(Some("{\"transcript\":\"deadbeef\"}".to_string())).unwrap();
    let (c, notarize) = c.on_socket_closed(true).unwrap();
    assert_eq!(notarize.commitment_pwd_proof, b"test".to_vec());
    assert_eq!(notarize.pub_key_consumer, b"ABC".to_vec());
    let (c, res) = c.on_notarized(true).unwrap();
    assert!(!res.is_empty());
    assert_eq!(res, "{\"transcript\":\"deadbeef\"}");

    // The reported phases are exactly the fixed order, each exactly once,
    // strictly increasing.
    let indices: Vec<u8> = c.log.reported.iter().map(|p| p.index()).collect();
    let expected: Vec<u8> = (0u8..=14).collect();
    assert_eq!(indices, expected);
    for w in indices.windows(2) {
        assert!(w[0] < w[1]);
    }
    let messages: Vec<String> = c.log.reported.iter().map(|p| p.message()).collect();
    assert_eq!(messages[0], "Negotiate a session with the notary");
    assert_eq!(messages[1], "Build prover config");
    assert_eq!(messages[14], "Start notarization");
}

#[test]
fn begin_rejects_bad_target_url() {
    let err = Collector::begin("not a url", options(""), PWD_B64, KEY_B64).unwrap_err();
    assert_eq!(err, "Could not parse target_url");
}

#[test]
fn begin_rejects_hostless_target_url() {
    let err = Collector::begin("data:text/plain,hi", options(""), PWD_B64, KEY_B64).unwrap_err();
    assert_eq!(err, "Could not get target host");
}

#[test]
fn begin_rejects_bad_proof_parameters() {
    let err = Collector::begin("https://example.com/", options(""), "!!", KEY_B64).unwrap_err();
    assert_eq!(err, "Could not decode commitment_pwd_proof_base64");
    let err = Collector::begin("https://example.com/", options(""), PWD_B64, "!!").unwrap_err();
    assert_eq!(err, "Could not decode pub_key_consumer_base64");
}

#[test]
fn begin_rejects_bad_notary_url() {
    let mut o = options("");
    o.notary_url = "::::".to_string();
    let err = Collector::begin("https://example.com/", o, PWD_B64, KEY_B64).unwrap_err();
    assert_eq!(err, "Could not parse notary_url");
}

#[test]
fn session_response_without_id_fails() {
    let (c, _) = Collector::begin("https://example.com/", options(""), PWD_B64, KEY_B64).unwrap();
    let err = c.on_session_response("{\"other\":1}").unwrap_err();
    assert_eq!(err, "Could not deserialize response");
}

fn reach_defer(body: &str) -> Collector {
    let (c, _) = Collector::begin("https://example.com/api", options(body), PWD_B64, KEY_B64)
        .unwrap();
    let (c, _) = c.on_session_response("{\"session_id\":\"s\"}").unwrap();
    let (c, _) = c.on_notary_connected();
    let (c, _) = c.on_prover_setup(true).unwrap();
    let c = c.on_proxy_connected();
    c.on_prover_bound()
}

#[test]
fn mid_run_failures_carry_their_messages() {
    let c = reach_defer("");
    let err = c.on_handshake_done(false).unwrap_err();
    assert_eq!(err, "Could not handshake");

    let c = reach_defer("");
    let (c, _) = c.on_handshake_done(true).unwrap();
    let err = c.on_defer_decryption(false).unwrap_err();
    assert_eq!(err, "failed to enable deferred decryption");

    let c = reach_defer("");
    let (c, _) = c.on_handshake_done(true).unwrap();
    let c = c.on_defer_decryption(true).unwrap();
    let err = c.on_response_status(None).unwrap_err();
    assert_eq!(err, "Could not send request");
}

#[test]
fn late_run_failures_carry_their_messages() {
    let run = |which: u32| -> String {
        let c = reach_defer("");
        let (c, _) = c.on_handshake_done(true).unwrap();
        let c = c.on_defer_decryption(true).unwrap();
        let c = c.on_response_status(Some(200)).unwrap();
        if which == 0 {
            return c.on_response_body(None).unwrap_err();
        }
        if which == 1 {
            return c.on_response_body(Some("no json at all {{")).unwrap_err();
        }
        let (c, _) = c.on_response_body(Some("{}")).unwrap();
        if which == 2 {
            return c.on_connection_resolved(ChannelOutcome::Canceled).unwrap_err();
        }
        if which == 3 {
            return c.on_connection_resolved(ChannelOutcome::Failed).unwrap_err();
        }
        let c = c.on_connection_resolved(ChannelOutcome::Delivered).unwrap();
        if which == 4 {
            return c.on_prover_resolved(ChannelOutcome::Canceled).unwrap_err();
        }
        if which == 5 {
            return c.on_prover_resolved(ChannelOutcome::Failed).unwrap_err();
        }
        let c = c.on_prover_resolved(ChannelOutcome::Delivered).unwrap();
        if which == 6 {
            return c.on_capture_serialized(None).unwrap_err();
        }
        let c = c.on_capture_serialized(Some("{}".to_string())).unwrap();
        if which == 7 {
            return c.on_socket_closed(false).unwrap_err();
        }
        let (c, _) = c.on_socket_closed(true).unwrap();
        c.on_notarized(false).unwrap_err()
    };
    assert_eq!(run(0), "Could not get response body");
    assert_eq!(run(1), "Could not parse response");
    assert_eq!(run(2), "Could not receive from connection_receiver");
    assert_eq!(run(3), "Could not get TlsConnection");
    assert_eq!(run(4), "Could not receive from prover_receiver");
    assert_eq!(run(5), "Could not get Prover");
    assert_eq!(run(6), "Could not serialize TDN collect leader result");
    assert_eq!(run(7), "Could not close socket");
    assert_eq!(run(8), "Could not notarize");
}

#[test]
fn prover_setup_failure_fails_run() {
    let (c, _) = Collector::begin("https://example.com/", options(""), PWD_B64, KEY_B64).unwrap();
    let (c, _) = c.on_session_response("{\"session_id\":\"s\"}").unwrap();
    let (c, _) = c.on_notary_connected();
    let err = c.on_prover_setup(false).unwrap_err();
    assert_eq!(err, "Could not set up prover");
}
