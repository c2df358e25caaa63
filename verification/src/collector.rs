//! The orchestrator: a step-wise state machine over one collection run.
//! Every outside effect (a fetch, a websocket connect, a handshake, a
//! channel resolution) happens between two steps; each step takes the
//! outcome of the previous effect, decides, and hands back the next action.
use vstd::prelude::*;
use vstd::string::StringExecFns;
use crate::b64::{b64_decode, b64_encode, reencode_to_url_safe};
use crate::jsonio::{extract_session_id, normalize_json_pretty, pretty_json_of, spec_session_id_of};
use crate::phase::{CollectorPhase, PhaseLog};
use crate::reqplan::{
    build_request_plan, build_session_payload, spec_request_plan, spec_session_payload,
    RequestOptions, RequestPlan,
};
use crate::strutil::dec_digits;
use crate::strutil::u64_to_dec;
use crate::urlinfo::{
    build_collect_ws_url, build_session_url, is_secure_scheme, parse_url, spec_collect_ws_url,
    spec_is_secure, spec_session_url, url_parts_of,
};

verus! {

/// Where a run stands: which outside effect the orchestrator is waiting on.
#[derive(Clone, Copy, PartialEq, Eq, Structural, Debug)]
pub enum Stage {
    AwaitSessionResponse,
    AwaitNotaryWs,
    AwaitProverSetup,
    AwaitProxyWs,
    AwaitProverBind,
    AwaitHandshake,
    AwaitDeferDecryption,
    AwaitResponseStatus,
    AwaitResponseBody,
    AwaitConnResolution,
    AwaitProverResolution,
    AwaitCaptureSerialization,
    AwaitSocketClose,
    AwaitNotarization,
    Done,
}

/// How the resolution of a background result channel went: the value was
/// delivered; the channel was dropped unresolved; or the task itself
/// reported a failure.
#[derive(Clone, Copy, PartialEq, Eq, Structural, Debug)]
pub enum ChannelOutcome {
    Delivered,
    Canceled,
    Failed,
}

/// The one request of the session negotiation.
#[derive(Debug)]
pub struct SessionRequest {
    pub url: String,
    pub method: String,
    pub headers: Vec<(String, String)>,
    pub payload: String,
}

/// The websocket connection to the notary's collection endpoint.
#[derive(Debug)]
pub struct NotaryConnect {
    pub ws_url: String,
}

/// The proving-process description bound to the notary connection.
#[derive(Debug)]
pub struct ProverConfigPlan {
    pub id: String,
    pub server_dns: String,
    pub max_sent_data: Option<u64>,
    pub max_recv_data: Option<u64>,
}

/// The websocket connection to the target through the caller's proxy.
#[derive(Debug)]
pub struct ProxyConnect {
    pub ws_url: String,
}

/// The foreground exchange: enable deferred decryption first, then send
/// the one request.
#[derive(Debug)]
pub struct ExchangePlan {
    pub defer_decryption_first: bool,
    pub request: RequestPlan,
}

/// The notarization call, with the two proof parameters as raw bytes, as
/// decoded from their standard-alphabet renderings at the start of the run.
#[derive(Debug)]
pub struct NotarizePlan {
    pub commitment_pwd_proof: Vec<u8>,
    pub pub_key_consumer: Vec<u8>,
}

/// Session materials carried alongside the final artifact.
#[derive(Debug)]
pub struct TdnSessionMaterials {
    pub session: String,
}

/// The index of the last phase a run at this stage has reported.
pub open spec fn stage_last_phase(s: Stage) -> int {
    match s {
        Stage::AwaitSessionResponse => 0,
        Stage::AwaitNotaryWs => 0,
        Stage::AwaitProverSetup => 2,
        Stage::AwaitProxyWs => 3,
        Stage::AwaitProverBind => 4,
        Stage::AwaitHandshake => 6,
        Stage::AwaitDeferDecryption => 9,
        Stage::AwaitResponseStatus => 9,
        Stage::AwaitResponseBody => 10,
        Stage::AwaitConnResolution => 12,
        Stage::AwaitProverResolution => 13,
        Stage::AwaitCaptureSerialization => 13,
        Stage::AwaitSocketClose => 13,
        Stage::AwaitNotarization => 14,
        Stage::Done => 14,
    }
}

/// One run's orchestrator state.
#[derive(Debug)]
pub struct Collector {
    pub log: PhaseLog,
    pub stage: Stage,
    pub target_url: String,
    pub target_host: String,
    pub notary_ssl: bool,
    pub notary_authority: String,
    pub notary_path: String,
    pub pwd_bytes: Vec<u8>,
    pub pwd_url_b64: String,
    pub key_bytes: Vec<u8>,
    pub key_url_b64: String,
    pub method: String,
    pub headers: Vec<(String, String)>,
    pub body: String,
    pub websocket_proxy_url: String,
    pub max_sent_data: Option<u64>,
    pub max_recv_data: Option<u64>,
    pub session_id: String,
    pub capture_result: String,
}

impl Collector {
    /// The phase log is consistent with the stage, so the next report is
    /// always a later phase than every reported one.
    pub open spec fn wf(self) -> bool {
        &&& self.log.wf()
        &&& self.log.last_index() == stage_last_phase(self.stage)
    }

    /// The finalizer's material is carried unchanged.
    pub open spec fn keeps_finalizer(self, post: Collector) -> bool {
        &&& post.pwd_bytes == self.pwd_bytes
        &&& post.key_bytes == self.key_bytes
        &&& post.session_id == self.session_id
        &&& post.capture_result == self.capture_result
    }

    /// The setup-time material is carried unchanged.
    pub open spec fn keeps_setup(self, post: Collector) -> bool {
        &&& post.target_url == self.target_url
        &&& post.target_host == self.target_host
        &&& post.method == self.method
        &&& post.headers == self.headers
        &&& post.body == self.body
        &&& post.websocket_proxy_url == self.websocket_proxy_url
        &&& post.max_sent_data == self.max_sent_data
        &&& post.max_recv_data == self.max_recv_data
        &&& post.notary_ssl == self.notary_ssl
        &&& post.notary_authority == self.notary_authority
        &&& post.notary_path == self.notary_path
        &&& post.pwd_url_b64 == self.pwd_url_b64
        &&& post.key_url_b64 == self.key_url_b64
    }
}

/// The input-validation failure of a run's first step, if any, with its
/// message: checks happen in this order, and the first to fail decides.
pub open spec fn spec_begin_error(
    target: Seq<char>,
    notary: Seq<char>,
    pwd_b64: Seq<char>,
    key_b64: Seq<char>,
) -> Option<Seq<char>> {
    if url_parts_of(target) is None {
        Some("Could not parse target_url"@)
    } else if url_parts_of(target)->Some_0.host is None {
        Some("Could not get target host"@)
    } else if b64_decode(pwd_b64, false) is None {
        Some("Could not decode commitment_pwd_proof_base64"@)
    } else if b64_decode(key_b64, false) is None {
        Some("Could not decode pub_key_consumer_base64"@)
    } else if url_parts_of(notary) is None {
        Some("Could not parse notary_url"@)
    } else {
        None
    }
}

impl Collector {
    /// Validates the inputs, re-encodes the two proof parameters into the
    /// URL-safe alphabet, and plans the session-creation request.
    pub fn begin(
        target_url: &str,
        options: RequestOptions,
        commitment_pwd_proof_base64: &str,
        pub_key_consumer_base64: &str,
    ) -> (r: Result<(Collector, SessionRequest), String>)
        ensures
            r is Err <==> spec_begin_error(
                target_url@,
                options.notary_url@,
                commitment_pwd_proof_base64@,
                pub_key_consumer_base64@,
            ) is Some,
            r is Err ==> r->Err_0@ == spec_begin_error(
                target_url@,
                options.notary_url@,
                commitment_pwd_proof_base64@,
                pub_key_consumer_base64@,
            )->Some_0,
            r is Ok ==> ({
                let c = r->Ok_0.0;
                let act = r->Ok_0.1;
                let tp = url_parts_of(target_url@)->Some_0;
                let np = url_parts_of(options.notary_url@)->Some_0;
                &&& c.wf()
                &&& c.stage == Stage::AwaitSessionResponse
                &&& c.log.reported@ == seq![CollectorPhase::NegotiateSession]
                &&& c.target_url@ == target_url@
                &&& c.target_host@ == tp.host->Some_0
                &&& c.notary_ssl == spec_is_secure(np.scheme)
                &&& c.notary_authority@ == np.authority
                &&& c.notary_path@ == np.path
                &&& b64_decode(commitment_pwd_proof_base64@, false) == Some(c.pwd_bytes@)
                &&& c.pwd_url_b64@ == b64_encode(c.pwd_bytes@, true)
                &&& b64_decode(pub_key_consumer_base64@, false) == Some(c.key_bytes@)
                &&& c.key_url_b64@ == b64_encode(c.key_bytes@, true)
                &&& c.method == options.method
                &&& c.headers == options.headers
                &&& c.body == options.body
                &&& c.websocket_proxy_url == options.websocket_proxy_url
                &&& c.max_sent_data == options.max_sent_data
                &&& c.max_recv_data == options.max_recv_data
                &&& c.session_id@ == Seq::<char>::empty()
                &&& act.url@ == spec_session_url(c.notary_ssl, np.authority, np.path)
                &&& act.method@ == "POST"@
                &&& act.headers@.len() == 2
                &&& act.headers@[0].0@ == "Host"@
                &&& act.headers@[0].1@ == np.authority
                &&& act.headers@[1].0@ == "Content-Type"@
                &&& act.headers@[1].1@ == "application/json"@
                &&& act.payload@ == spec_session_payload(
                    options.max_sent_data,
                    options.max_recv_data,
                )
            }),
    {
        let tp = match parse_url(target_url) {
            Some(p) => p,
            None => {
                return Err("Could not parse target_url".to_owned());
            },
        };
        let target_host = match tp.host {
            Some(h) => h,
            None => {
                return Err("Could not get target host".to_owned());
            },
        };
        let (pwd_bytes, pwd_url_b64) = match reencode_to_url_safe(commitment_pwd_proof_base64) {
            Some(p) => p,
            None => {
                return Err("Could not decode commitment_pwd_proof_base64".to_owned());
            },
        };
        let (key_bytes, key_url_b64) = match reencode_to_url_safe(pub_key_consumer_base64) {
            Some(p) => p,
            None => {
                return Err("Could not decode pub_key_consumer_base64".to_owned());
            },
        };
        let np = match parse_url(options.notary_url.as_str()) {
            Some(p) => p,
            None => {
                return Err("Could not parse notary_url".to_owned());
            },
        };
        let ssl = is_secure_scheme(&np.scheme);
        let session_url = build_session_url(ssl, &np.authority, &np.path);
        let payload = build_session_payload(&options.max_sent_data, &options.max_recv_data);
        let mut req_headers: Vec<(String, String)> = Vec::new();
        req_headers.push(("Host".to_owned(), np.authority.clone()));
        req_headers.push(("Content-Type".to_owned(), "application/json".to_owned()));
        let mut log = PhaseLog::new();
        log.report(CollectorPhase::NegotiateSession);
        let c = Collector {
            log,
            stage: Stage::AwaitSessionResponse,
            target_url: target_url.to_owned(),
            target_host,
            notary_ssl: ssl,
            notary_authority: np.authority,
            notary_path: np.path,
            pwd_bytes,
            pwd_url_b64,
            key_bytes,
            key_url_b64,
            method: options.method,
            headers: options.headers,
            body: options.body,
            websocket_proxy_url: options.websocket_proxy_url,
            max_sent_data: options.max_sent_data,
            max_recv_data: options.max_recv_data,
            session_id: String::new(),
            capture_result: String::new(),
        };
        let act = SessionRequest {
            url: session_url,
            method: "POST".to_owned(),
            headers: req_headers,
            payload,
        };
        Ok((c, act))
    }

    /// Takes the session-creation response body, extracts the session
    /// identifier, and plans the notary collection websocket connection,
    /// whose query string carries the identifier and the two URL-safe
    /// proof parameters.
    pub fn on_session_response(self, body: &str) -> (r: Result<(Collector, NotaryConnect), String>)
        requires
            self.wf(),
            self.stage == Stage::AwaitSessionResponse,
        ensures
            r is Err <==> spec_session_id_of(body@) is None,
            r is Err ==> r->Err_0@ == "Could not deserialize response"@,
            r is Ok ==> ({
                let c = r->Ok_0.0;
                let act = r->Ok_0.1;
                &&& c.wf()
                &&& c.stage == Stage::AwaitNotaryWs
                &&& c.log.reported@ == self.log.reported@
                &&& c.session_id@ == spec_session_id_of(body@)->Some_0
                &&& self.keeps_setup(c)
                &&& c.pwd_bytes == self.pwd_bytes
                &&& c.key_bytes == self.key_bytes
                &&& c.capture_result == self.capture_result
                &&& act.ws_url@ == spec_collect_ws_url(
                    self.notary_ssl,
                    self.notary_authority@,
                    self.notary_path@,
                    spec_session_id_of(body@)->Some_0,
                    self.pwd_url_b64@,
                    self.key_url_b64@,
                )
            }),
    {
        let session_id = match extract_session_id(body) {
            Some(id) => id,
            None => {
                return Err("Could not deserialize response".to_owned());
            },
        };
        let ws_url = build_collect_ws_url(
            self.notary_ssl,
            &self.notary_authority,
            &self.notary_path,
            &session_id,
            &self.pwd_url_b64,
            &self.key_url_b64,
        );
        let c = Collector { stage: Stage::AwaitNotaryWs, session_id, ..self };
        Ok((c, NotaryConnect { ws_url }))
    }

    /// The notary websocket is connected: builds the proving-process
    /// description (session identifier, target hostname, transport limits)
    /// to be set up against the notary connection.
    pub fn on_notary_connected(self) -> (r: (Collector, ProverConfigPlan))
        requires
            self.wf(),
            self.stage == Stage::AwaitNotaryWs,
        ensures
            ({
                let c = r.0;
                let act = r.1;
                &&& c.wf()
                &&& c.stage == Stage::AwaitProverSetup
                &&& c.log.reported@ == self.log.reported@.push(
                    CollectorPhase::BuildProverConfig,
                ).push(CollectorPhase::SetUpProver)
                &&& self.keeps_setup(c)
                &&& self.keeps_finalizer(c)
                &&& act.id@ == self.session_id@
                &&& act.server_dns@ == self.target_host@
                &&& act.max_sent_data == self.max_sent_data
                &&& act.max_recv_data == self.max_recv_data
            }),
    {
        let mut log = self.log;
        log.report(CollectorPhase::BuildProverConfig);
        let act = ProverConfigPlan {
            id: self.session_id.clone(),
            server_dns: self.target_host.clone(),
            max_sent_data: self.max_sent_data,
            max_recv_data: self.max_recv_data,
        };
        log.report(CollectorPhase::SetUpProver);
        let c = Collector { log, stage: Stage::AwaitProverSetup, ..self };
        (c, act)
    }

    /// The proving process finished (or failed) its setup handshake with
    /// the notary; on success, plans the proxy connection to the target.
    pub fn on_prover_setup(self, ok: bool) -> (r: Result<(Collector, ProxyConnect), String>)
        requires
            self.wf(),
            self.stage == Stage::AwaitProverSetup,
        ensures
            r is Err <==> !ok,
            r is Err ==> r->Err_0@ == "Could not set up prover"@,
            r is Ok ==> ({
                let c = r->Ok_0.0;
                &&& c.wf()
                &&& c.stage == Stage::AwaitProxyWs
                &&& c.log.reported@ == self.log.reported@.push(CollectorPhase::ConnectWsProxy)
                &&& self.keeps_setup(c)
                &&& self.keeps_finalizer(c)
                &&& r->Ok_0.1.ws_url@ == self.websocket_proxy_url@
            }),
    {
        if !ok {
            return Err("Could not set up prover".to_owned());
        }
        let mut log = self.log;
        log.report(CollectorPhase::ConnectWsProxy);
        let act = ProxyConnect { ws_url: self.websocket_proxy_url.clone() };
        let c = Collector { log, stage: Stage::AwaitProxyWs, ..self };
        Ok((c, act))
    }

    /// The proxy websocket is connected: the proving process is to be
    /// bound to this second connection.
    pub fn on_proxy_connected(self) -> (c: Collector)
        requires
            self.wf(),
            self.stage == Stage::AwaitProxyWs,
        ensures
            c.wf(),
            c.stage == Stage::AwaitProverBind,
            c.log.reported@ == self.log.reported@.push(CollectorPhase::BindProverToConnection),
            self.keeps_setup(c),
            self.keeps_finalizer(c),
    {
        let mut log = self.log;
        log.report(CollectorPhase::BindProverToConnection);
        Collector { log, stage: Stage::AwaitProverBind, ..self }
    }

    /// The proving process is bound and its future exists: it is to be
    /// spawned as the first background task, and the HTTP client attached
    /// to the encrypted channel.
    pub fn on_prover_bound(self) -> (c: Collector)
        requires
            self.wf(),
            self.stage == Stage::AwaitProverBind,
        ensures
            c.wf(),
            c.stage == Stage::AwaitHandshake,
            c.log.reported@ == self.log.reported@.push(CollectorPhase::SpawnProverThread).push(
                CollectorPhase::AttachHttpClient,
            ),
            self.keeps_setup(c),
            self.keeps_finalizer(c),
    {
        let mut log = self.log;
        log.report(CollectorPhase::SpawnProverThread);
        log.report(CollectorPhase::AttachHttpClient);
        Collector { log, stage: Stage::AwaitHandshake, ..self }
    }

    /// The protocol handshake over the encrypted channel yielded (or
    /// failed to yield) a request sender and a connection-driving future;
    /// on success the connection task is to be spawned as the second
    /// background task, and the foreground exchange planned: deferred
    /// decryption first, then the one request, with the caller's headers
    /// in order and an empty body carried as no body.
    pub fn on_handshake_done(self, ok: bool) -> (r: Result<(Collector, ExchangePlan), String>)
        requires
            self.wf(),
            self.stage == Stage::AwaitHandshake,
        ensures
            r is Err <==> !ok,
            r is Err ==> r->Err_0@ == "Could not handshake"@,
            r is Ok ==> ({
                let c = r->Ok_0.0;
                let act = r->Ok_0.1;
                &&& c.wf()
                &&& c.stage == Stage::AwaitDeferDecryption
                &&& c.log.reported@ == self.log.reported@.push(CollectorPhase::SpawnHttpTask).push(
                    CollectorPhase::BuildRequest,
                ).push(CollectorPhase::StartMpcConnection)
                &&& self.keeps_finalizer(c)
                &&& act.defer_decryption_first
                &&& act.request == spec_request_plan(
                    self.method,
                    self.target_url,
                    self.headers,
                    self.body,
                )
            }),
    {
        if !ok {
            return Err("Could not handshake".to_owned());
        }
        let mut log = self.log;
        log.report(CollectorPhase::SpawnHttpTask);
        log.report(CollectorPhase::BuildRequest);
        let plan = build_request_plan(self.method, self.target_url, self.headers, self.body);
        log.report(CollectorPhase::StartMpcConnection);
        let c = Collector {
            log,
            stage: Stage::AwaitDeferDecryption,
            target_url: String::new(),
            method: String::new(),
            headers: Vec::new(),
            body: String::new(),
            ..self
        };
        Ok((c, ExchangePlan { defer_decryption_first: true, request: plan }))
    }

    /// The deferred-decryption control signal was (or was not) accepted;
    /// failure to enable it is fatal to the run.
    pub fn on_defer_decryption(self, ok: bool) -> (r: Result<Collector, String>)
        requires
            self.wf(),
            self.stage == Stage::AwaitDeferDecryption,
        ensures
            r is Err <==> !ok,
            r is Err ==> r->Err_0@ == "failed to enable deferred decryption"@,
            r is Ok ==> ({
                let c = r->Ok_0;
                &&& c.wf()
                &&& c.stage == Stage::AwaitResponseStatus
                &&& c.log.reported@ == self.log.reported@
                &&& self.keeps_finalizer(c)
            }),
    {
        if !ok {
            return Err("failed to enable deferred decryption".to_owned());
        }
        Ok(Collector { stage: Stage::AwaitResponseStatus, ..self })
    }

    /// The response head arrived (None stands for a transport failure of
    /// the send itself). Any status other than 200 fails the run, as a
    /// protocol error distinct from a transport failure.
    pub fn on_response_status(self, status: Option<u16>) -> (r: Result<Collector, String>)
        requires
            self.wf(),
            self.stage == Stage::AwaitResponseStatus,
        ensures
            r is Err <==> !(status == Some(200u16)),
            status is None ==> r is Err && r->Err_0@ == "Could not send request"@,
            status is Some && status->0 != 200 ==> r is Err && r->Err_0@
                == "Response status is not OK: "@ + dec_digits(status->0 as nat),
            r is Ok ==> ({
                let c = r->Ok_0;
                &&& c.wf()
                &&& c.stage == Stage::AwaitResponseBody
                &&& c.log.reported@ == self.log.reported@.push(CollectorPhase::ReceivedResponse)
                &&& self.keeps_finalizer(c)
            }),
    {
        let s = match status {
            Some(s) => s,
            None => {
                return Err("Could not send request".to_owned());
            },
        };
        let mut log = self.log;
        log.report(CollectorPhase::ReceivedResponse);
        if s != 200 {
            let mut m = "Response status is not OK: ".to_owned();
            let d = u64_to_dec(s as u64);
            m.append(d.as_str());
            return Err(m);
        }
        Ok(Collector { log, stage: Stage::AwaitResponseBody, ..self })
    }

    /// The full response body arrived (None stands for a failure while
    /// collecting it); it is parsed as JSON and re-rendered in the
    /// normalized pretty form, which is handed back for observability.
    pub fn on_response_body(self, body: Option<&str>) -> (r: Result<(Collector, String), String>)
        requires
            self.wf(),
            self.stage == Stage::AwaitResponseBody,
        ensures
            body is None ==> r is Err && r->Err_0@ == "Could not get response body"@,
            body is Some ==> ((r is Err && pretty_json_of(body->0@) is None && r->Err_0@
                == "Could not parse response"@) || (r is Ok && pretty_json_of(body->0@) == Some(
                r->Ok_0.1@,
            ))),
            r is Ok ==> ({
                let c = r->Ok_0.0;
                &&& c.wf()
                &&& c.stage == Stage::AwaitConnResolution
                &&& c.log.reported@ == self.log.reported@.push(CollectorPhase::ParseResponse).push(
                    CollectorPhase::CloseConnection,
                )
                &&& self.keeps_finalizer(c)
            }),
    {
        let b = match body {
            Some(b) => b,
            None => {
                return Err("Could not get response body".to_owned());
            },
        };
        let mut log = self.log;
        log.report(CollectorPhase::ParseResponse);
        let pretty = match normalize_json_pretty(b) {
            Some(p) => p,
            None => {
                return Err("Could not parse response".to_owned());
            },
        };
        log.report(CollectorPhase::CloseConnection);
        let c = Collector { log, stage: Stage::AwaitConnResolution, ..self };
        Ok((c, pretty))
    }

    /// The connection-driving task's channel was resolved first, as the
    /// finalizer's order requires: its result carries the raw socket.
    pub fn on_connection_resolved(self, outcome: ChannelOutcome) -> (r: Result<Collector, String>)
        requires
            self.wf(),
            self.stage == Stage::AwaitConnResolution,
        ensures
            r is Err <==> outcome != ChannelOutcome::Delivered,
            outcome == ChannelOutcome::Canceled ==> r->Err_0@
                == "Could not receive from connection_receiver"@,
            outcome == ChannelOutcome::Failed ==> r->Err_0@ == "Could not get TlsConnection"@,
            r is Ok ==> ({
                let c = r->Ok_0;
                &&& c.wf()
                &&& c.stage == Stage::AwaitProverResolution
                &&& c.log.reported@ == self.log.reported@.push(CollectorPhase::TakeTlsResults)
                &&& self.keeps_finalizer(c)
            }),
    {
        match outcome {
            ChannelOutcome::Canceled => Err("Could not receive from connection_receiver".to_owned()),
            ChannelOutcome::Failed => Err("Could not get TlsConnection".to_owned()),
            ChannelOutcome::Delivered => {
                let mut log = self.log;
                log.report(CollectorPhase::TakeTlsResults);
                Ok(Collector { log, stage: Stage::AwaitProverResolution, ..self })
            },
        }
    }

    /// The proving task's channel was resolved second: its result carries
    /// the completed proving process.
    pub fn on_prover_resolved(self, outcome: ChannelOutcome) -> (r: Result<Collector, String>)
        requires
            self.wf(),
            self.stage == Stage::AwaitProverResolution,
        ensures
            r is Err <==> outcome != ChannelOutcome::Delivered,
            outcome == ChannelOutcome::Canceled ==> r->Err_0@
                == "Could not receive from prover_receiver"@,
            outcome == ChannelOutcome::Failed ==> r->Err_0@ == "Could not get Prover"@,
            r is Ok ==> ({
                let c = r->Ok_0;
                &&& c.wf()
                &&& c.stage == Stage::AwaitCaptureSerialization
                &&& c.log.reported@ == self.log.reported@
                &&& self.keeps_finalizer(c)
            }),
    {
        match outcome {
            ChannelOutcome::Canceled => Err("Could not receive from prover_receiver".to_owned()),
            ChannelOutcome::Failed => Err("Could not get Prover".to_owned()),
            ChannelOutcome::Delivered => {
                Ok(Collector { stage: Stage::AwaitCaptureSerialization, ..self })
            },
        }
    }

    /// The capture result was pulled from the completed proving process
    /// and serialized (None stands for a serialization failure); it
    /// becomes the run's success payload, retained across the close.
    pub fn on_capture_serialized(self, res: Option<String>) -> (r: Result<Collector, String>)
        requires
            self.wf(),
            self.stage == Stage::AwaitCaptureSerialization,
        ensures
            r is Err <==> res is None,
            r is Err ==> r->Err_0@ == "Could not serialize TDN collect leader result"@,
            r is Ok ==> ({
                let c = r->Ok_0;
                &&& c.wf()
                &&& c.stage == Stage::AwaitSocketClose
                &&& c.log.reported@ == self.log.reported@
                &&& c.capture_result == res->0
                &&& c.pwd_bytes == self.pwd_bytes
                &&& c.key_bytes == self.key_bytes
                &&& c.session_id == self.session_id
            }),
    {
        match res {
            Some(cr) => Ok(Collector { stage: Stage::AwaitSocketClose, capture_result: cr, ..self }),
            None => Err("Could not serialize TDN collect leader result".to_owned()),
        }
    }

    /// The extracted socket was closed (gracefully or not); only then is
    /// notarization started, with the two proof parameters in their
    /// decoded byte forms, not the re-encoded query-string renderings.
    pub fn on_socket_closed(self, ok: bool) -> (r: Result<(Collector, NotarizePlan), String>)
        requires
            self.wf(),
            self.stage == Stage::AwaitSocketClose,
        ensures
            r is Err <==> !ok,
            r is Err ==> r->Err_0@ == "Could not close socket"@,
            r is Ok ==> ({
                let c = r->Ok_0.0;
                let act = r->Ok_0.1;
                &&& c.wf()
                &&& c.stage == Stage::AwaitNotarization
                &&& c.log.reported@ == self.log.reported@.push(CollectorPhase::StartNotarization)
                &&& c.capture_result == self.capture_result
                &&& c.session_id == self.session_id
                &&& act.commitment_pwd_proof == self.pwd_bytes
                &&& act.pub_key_consumer == self.key_bytes
            }),
    {
        if !ok {
            return Err("Could not close socket".to_owned());
        }
        let mut log = self.log;
        log.report(CollectorPhase::StartNotarization);
        let act = NotarizePlan {
            commitment_pwd_proof: self.pwd_bytes,
            pub_key_consumer: self.key_bytes,
        };
        let c = Collector {
            log,
            stage: Stage::AwaitNotarization,
            pwd_bytes: Vec::new(),
            key_bytes: Vec::new(),
            ..self
        };
        Ok((c, act))
    }

    /// The notarization call returned: its signed outcome is observability
    /// only, and the run's success value is the serialized capture result.
    pub fn on_notarized(self, ok: bool) -> (r: Result<(Collector, String), String>)
        requires
            self.wf(),
            self.stage == Stage::AwaitNotarization,
        ensures
            r is Err <==> !ok,
            r is Err ==> r->Err_0@ == "Could not notarize"@,
            r is Ok ==> ({
                let c = r->Ok_0.0;
                &&& c.wf()
                &&& c.stage == Stage::Done
                &&& c.log.reported@ == self.log.reported@
                &&& r->Ok_0.1 == self.capture_result
            }),
    {
        if !ok {
            return Err("Could not notarize".to_owned());
        }
        let res = self.capture_result;
        let c = Collector { stage: Stage::Done, capture_result: String::new(), ..self };
        Ok((c, res))
    }
}

} // verus!
