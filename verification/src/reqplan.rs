//! Caller-supplied run options, the planned foreground HTTP request, and
//! the session-creation payload.
use vstd::prelude::*;
use vstd::string::{StrSliceExecFns, StringExecFns};
use crate::strutil::{dec_digits, u64_to_dec};

verus! {

/// Options one run is invoked with; read-only to the core.
#[derive(Debug)]
pub struct RequestOptions {
    pub notary_url: String,
    pub websocket_proxy_url: String,
    pub method: String,
    pub headers: Vec<(String, String)>,
    pub body: String,
    pub max_sent_data: Option<u64>,
    pub max_recv_data: Option<u64>,
}

/// The single foreground request, as handed to the HTTP layer: headers stay
/// in caller order with duplicates preserved, and an empty body is carried
/// as no body at all.
#[derive(Debug)]
pub struct RequestPlan {
    pub method: String,
    pub uri: String,
    pub headers: Vec<(String, String)>,
    pub body: Option<String>,
}

/// What the plan for given inputs is: everything is passed through
/// unchanged, except that an empty body becomes an absent one.
pub open spec fn spec_request_plan(
    method: String,
    uri: String,
    headers: Vec<(String, String)>,
    body: String,
) -> RequestPlan {
    RequestPlan {
        method,
        uri,
        headers,
        body: if body@.len() == 0 {
            None
        } else {
            Some(body)
        },
    }
}

/// Builds the foreground request plan.
pub fn build_request_plan(
    method: String,
    uri: String,
    headers: Vec<(String, String)>,
    body: String,
) -> (p: RequestPlan)
    ensures
        p == spec_request_plan(method, uri, headers, body),
        p.headers == headers,
{
    let has_body = body.as_str().unicode_len() > 0;
    RequestPlan {
        method,
        uri,
        headers,
        body: if has_body {
            Some(body)
        } else {
            None
        },
    }
}

/// Law: all caller headers are present in the outgoing request, in the
/// caller's order, duplicates included, whatever the body is.
pub proof fn lemma_headers_passed_through(
    method: String,
    uri: String,
    headers: Vec<(String, String)>,
    body: String,
)
    ensures
        spec_request_plan(method, uri, headers, body).headers == headers,
{
}

/// Law: two plans that differ only in the body differ at most in body
/// presence and content: method, target and headers are identical, so no
/// body-dependent length or encoding entry can creep in.
pub proof fn lemma_body_changes_body_only(
    method: String,
    uri: String,
    headers: Vec<(String, String)>,
    body1: String,
    body2: String,
)
    ensures
        spec_request_plan(method, uri, headers, body1).method == spec_request_plan(
            method,
            uri,
            headers,
            body2,
        ).method,
        spec_request_plan(method, uri, headers, body1).uri == spec_request_plan(
            method,
            uri,
            headers,
            body2,
        ).uri,
        spec_request_plan(method, uri, headers, body1).headers == spec_request_plan(
            method,
            uri,
            headers,
            body2,
        ).headers,
        body1@.len() == 0 ==> spec_request_plan(method, uri, headers, body1).body is None,
        body2@.len() > 0 ==> spec_request_plan(method, uri, headers, body2).body == Some(body2),
{
}

/// The session-creation payload: the websocket client type, and the two
/// transport limits when they are set.
pub open spec fn spec_session_payload(max_sent: Option<u64>, max_recv: Option<u64>) -> Seq<char> {
    "{\"client_type\":\"Websocket\""@ + (match max_sent {
        Some(n) => ",\"max_sent_data\":"@ + dec_digits(n as nat),
        None => Seq::<char>::empty(),
    }) + (match max_recv {
        Some(n) => ",\"max_recv_data\":"@ + dec_digits(n as nat),
        None => Seq::<char>::empty(),
    }) + "}"@
}

/// Builds the session-creation payload.
pub fn build_session_payload(max_sent: &Option<u64>, max_recv: &Option<u64>) -> (s: String)
    ensures
        s@ == spec_session_payload(*max_sent, *max_recv),
{
    let mut s = "{\"client_type\":\"Websocket\"".to_owned();
    match max_sent {
        Some(n) => {
            s.append(",\"max_sent_data\":");
            let d = u64_to_dec(*n);
            s.append(d.as_str());
        },
        None => {
            proof {
                assert(s@ + Seq::<char>::empty() =~= s@);
            }
        },
    }
    match max_recv {
        Some(n) => {
            s.append(",\"max_recv_data\":");
            let d = u64_to_dec(*n);
            s.append(d.as_str());
        },
        None => {},
    }
    s.append("}");
    proof {
        assert(s@ =~= spec_session_payload(*max_sent, *max_recv));
    }
    s
}

} // verus!
