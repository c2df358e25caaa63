//! Observability milestones of one collection run. Phases are reported
//! monotonically in the fixed order below and never repeat within a run.
use vstd::prelude::*;
use vstd::string::StringExecFns;

verus! {

/// The ordered milestones of one run, in the order a successful run
/// reports them.
#[derive(Clone, Copy, PartialEq, Eq, Structural, Debug)]
pub enum CollectorPhase {
    NegotiateSession,
    BuildProverConfig,
    SetUpProver,
    ConnectWsProxy,
    BindProverToConnection,
    SpawnProverThread,
    AttachHttpClient,
    SpawnHttpTask,
    BuildRequest,
    StartMpcConnection,
    ReceivedResponse,
    ParseResponse,
    CloseConnection,
    TakeTlsResults,
    StartNotarization,
}

/// Position of a phase in the fixed order.
pub open spec fn phase_index(p: CollectorPhase) -> int {
    match p {
        CollectorPhase::NegotiateSession => 0,
        CollectorPhase::BuildProverConfig => 1,
        CollectorPhase::SetUpProver => 2,
        CollectorPhase::ConnectWsProxy => 3,
        CollectorPhase::BindProverToConnection => 4,
        CollectorPhase::SpawnProverThread => 5,
        CollectorPhase::AttachHttpClient => 6,
        CollectorPhase::SpawnHttpTask => 7,
        CollectorPhase::BuildRequest => 8,
        CollectorPhase::StartMpcConnection => 9,
        CollectorPhase::ReceivedResponse => 10,
        CollectorPhase::ParseResponse => 11,
        CollectorPhase::CloseConnection => 12,
        CollectorPhase::TakeTlsResults => 13,
        CollectorPhase::StartNotarization => 14,
    }
}

/// The human-readable milestone description.
pub open spec fn phase_message(p: CollectorPhase) -> Seq<char> {
    match p {
        CollectorPhase::NegotiateSession => "Negotiate a session with the notary"@,
        CollectorPhase::BuildProverConfig => "Build prover config"@,
        CollectorPhase::SetUpProver => "Set up prover"@,
        CollectorPhase::ConnectWsProxy => "Connect application server with websocket proxy"@,
        CollectorPhase::BindProverToConnection => "Bind the prover to the server connection"@,
        CollectorPhase::SpawnProverThread => "Spawn the prover thread"@,
        CollectorPhase::AttachHttpClient => "Attach the hyper HTTP client to the TLS connection"@,
        CollectorPhase::SpawnHttpTask => "Spawn the HTTP task to be run concurrently"@,
        CollectorPhase::BuildRequest => "Build request"@,
        CollectorPhase::StartMpcConnection => "Start MPC-TLS connection with the server"@,
        CollectorPhase::ReceivedResponse => "Received response from the server"@,
        CollectorPhase::ParseResponse => "Parsing response from the server"@,
        CollectorPhase::CloseConnection => "Close the connection to the server"@,
        CollectorPhase::TakeTlsResults => "Taking TLS results from the prover"@,
        CollectorPhase::StartNotarization => "Start notarization"@,
    }
}

impl CollectorPhase {
    /// Position of this phase in the fixed order.
    pub fn index(&self) -> (i: u8)
        ensures
            i as int == phase_index(*self),
    {
        match self {
            CollectorPhase::NegotiateSession => 0,
            CollectorPhase::BuildProverConfig => 1,
            CollectorPhase::SetUpProver => 2,
            CollectorPhase::ConnectWsProxy => 3,
            CollectorPhase::BindProverToConnection => 4,
            CollectorPhase::SpawnProverThread => 5,
            CollectorPhase::AttachHttpClient => 6,
            CollectorPhase::SpawnHttpTask => 7,
            CollectorPhase::BuildRequest => 8,
            CollectorPhase::StartMpcConnection => 9,
            CollectorPhase::ReceivedResponse => 10,
            CollectorPhase::ParseResponse => 11,
            CollectorPhase::CloseConnection => 12,
            CollectorPhase::TakeTlsResults => 13,
            CollectorPhase::StartNotarization => 14,
        }
    }

    /// The human-readable milestone description.
    pub fn message(&self) -> (m: String)
        ensures
            m@ == phase_message(*self),
    {
        match self {
            CollectorPhase::NegotiateSession => "Negotiate a session with the notary".to_owned(),
            CollectorPhase::BuildProverConfig => "Build prover config".to_owned(),
            CollectorPhase::SetUpProver => "Set up prover".to_owned(),
            CollectorPhase::ConnectWsProxy => "Connect application server with websocket proxy".to_owned(),
            CollectorPhase::BindProverToConnection => "Bind the prover to the server connection".to_owned(),
            CollectorPhase::SpawnProverThread => "Spawn the prover thread".to_owned(),
            CollectorPhase::AttachHttpClient => "Attach the hyper HTTP client to the TLS connection".to_owned(),
            CollectorPhase::SpawnHttpTask => "Spawn the HTTP task to be run concurrently".to_owned(),
            CollectorPhase::BuildRequest => "Build request".to_owned(),
            CollectorPhase::StartMpcConnection => "Start MPC-TLS connection with the server".to_owned(),
            CollectorPhase::ReceivedResponse => "Received response from the server".to_owned(),
            CollectorPhase::ParseResponse => "Parsing response from the server".to_owned(),
            CollectorPhase::CloseConnection => "Close the connection to the server".to_owned(),
            CollectorPhase::TakeTlsResults => "Taking TLS results from the prover".to_owned(),
            CollectorPhase::StartNotarization => "Start notarization".to_owned(),
        }
    }
}

/// The log line reporting a phase: the position in the fixed order, then
/// the milestone description.
pub open spec fn spec_phase_line(p: CollectorPhase) -> Seq<char> {
    "tlsn-js "@ + crate::strutil::dec_digits(phase_index(p) as nat) + ": "@ + phase_message(p)
}

/// Renders the log line for one phase report.
pub fn phase_line(p: &CollectorPhase) -> (s: String)
    ensures
        s@ == spec_phase_line(*p),
{
    let mut s = "tlsn-js ".to_owned();
    let idx = p.index();
    let d = crate::strutil::u64_to_dec(idx as u64);
    s.append(d.as_str());
    s.append(": ");
    let m = p.message();
    s.append(m.as_str());
    s
}

/// The record of the phases one run has reported, in reporting order.
#[derive(Debug)]
pub struct PhaseLog {
    pub reported: Vec<CollectorPhase>,
}

impl PhaseLog {
    /// Reported phase indices are strictly increasing.
    pub open spec fn wf(self) -> bool {
        forall|i: int, j: int|
            0 <= i < j < self.reported@.len() ==> phase_index(self.reported@[i]) < phase_index(
                self.reported@[j],
            )
    }

    /// Index of the last reported phase, or -1 before the first report.
    pub open spec fn last_index(self) -> int {
        if self.reported@.len() == 0 {
            -1
        } else {
            phase_index(self.reported@.last())
        }
    }

    pub fn new() -> (r: PhaseLog)
        ensures
            r.wf(),
            r.reported@.len() == 0,
    {
        PhaseLog { reported: Vec::new() }
    }

    /// Records one milestone; a phase may only be reported after all the
    /// phases that precede it in the fixed order.
    pub fn report(&mut self, p: CollectorPhase)
        requires
            old(self).wf(),
            old(self).last_index() < phase_index(p),
        ensures
            final(self).wf(),
            final(self).reported@ == old(self).reported@.push(p),
            final(self).last_index() == phase_index(p),
    {
        self.reported.push(p);
    }
}

/// Law: every well-formed log reports phases strictly increasing along the
/// fixed order — so it is a subsequence of that order — and reports no
/// phase twice.
pub proof fn lemma_phase_order(log: PhaseLog)
    requires
        log.wf(),
    ensures
        forall|i: int, j: int|
            0 <= i < j < log.reported@.len() ==> phase_index(log.reported@[i]) < phase_index(
                log.reported@[j],
            ),
        forall|i: int, j: int|
            0 <= i < log.reported@.len() && 0 <= j < log.reported@.len() && log.reported@[i]
                == log.reported@[j] ==> i == j,
{
    assert forall|i: int, j: int|
        0 <= i < log.reported@.len() && 0 <= j < log.reported@.len() && log.reported@[i]
            == log.reported@[j] implies i == j by {
        if i < j {
            assert(phase_index(log.reported@[i]) < phase_index(log.reported@[j]));
        }
        if j < i {
            assert(phase_index(log.reported@[j]) < phase_index(log.reported@[i]));
        }
    }
}

} // verus!
