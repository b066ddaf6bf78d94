//! The launch orchestration state machine.
//!
//! One launch attempt is a single forward pass: reserve a port, prepare the
//! data directory, resolve the web assets, detect the LAN address, publish
//! the runtime info, spawn the sidecar, drain its output concurrently, poll
//! for readiness, and open the local URL — failing fast on any error.  The
//! machine here holds every decision of that pass; the surrounding binary
//! owns the sockets, the filesystem and the child process, carries out each
//! emitted [`Action`], and feeds the observed result back as an [`Event`].
//!
//! A known, accepted race: the reserved ephemeral port is only free at the
//! instant of reservation; another process could claim it before the
//! sidecar binds.  The machine does not try to mitigate this.

use crate::netprobe::READINESS_TIMEOUT_MS;
use crate::netprobe::lan_ip_or_loopback;
use crate::urls::decimal_digits;
use crate::urls::format_http_url;
use crate::urls::spec_http_url;
use crate::urls::u16_to_string;
use vstd::prelude::*;

verus! {

/// The terminal result of one launch attempt, produced exactly once.
pub enum LaunchOutcome {
    /// The sidecar accepted a connection and the local URL was opened.
    Ready { local_url: String },
    /// Some step failed; the reason is the human-readable error text.
    Failed { reason: String },
}

/// What the environment observed while carrying out the last action.
pub enum Event {
    /// An ephemeral port was reserved.
    PortReserved { port: u16 },
    /// Port reservation failed.
    PortFailed { reason: String },
    /// The application data directory exists (created if absent).
    DataDirReady { dir: String },
    /// The data directory could not be created.
    DataDirFailed { reason: String },
    /// The web-asset directory was resolved (this step never fails).
    AssetsResolved { web_dist: String },
    /// The LAN address probe finished, successfully or not.
    LanIpDetected { ip: Option<String> },
    /// The sidecar process was spawned.
    SpawnSucceeded,
    /// The sidecar could not be spawned.
    SpawnFailed { reason: String },
    /// The readiness poll finished: ready, or timed out.
    ProbeFinished { ready: bool },
    /// The local URL was opened in the default viewer.
    OpenSucceeded,
    /// Opening the local URL failed.
    OpenFailed { reason: String },
}

/// What the environment must do next.
pub enum Action {
    /// Append a line to the presentation sink's log.
    Log { text: String },
    /// Bind a loopback listener on port 0 and report the assigned port.
    ReservePort,
    /// Ensure the application data directory exists.
    PrepareDataDir,
    /// Resolve the web-asset directory.
    ResolveAssets,
    /// Detect the outbound-routable LAN address.
    DetectLanIp,
    /// Push the runtime info to the presentation sink, exactly once.
    PublishRuntimeInfo { local_url: String, lan_url: String, db_path: String },
    /// Spawn the sidecar binary with exactly these arguments, then detach
    /// the child so it outlives every local scope.
    SpawnSidecar { args: Vec<String> },
    /// Start the detached task that drains the child's output.
    StartOutputDrain,
    /// Poll loopback readiness on this port until the timeout.
    ProbeReadiness { port: u16, timeout_ms: u64 },
    /// Open this URL in the default viewer.
    OpenUrl { url: String },
}

/// Where the launch stands; `Done` is terminal.
pub enum Phase {
    AwaitingPort,
    AwaitingDataDir { port: u16 },
    AwaitingAssets { port: u16, db_path: String },
    AwaitingLanIp { port: u16, db_path: String, web_dist: String },
    AwaitingSpawn { port: u16, local_url: String },
    AwaitingReady { local_url: String },
    AwaitingOpen { local_url: String },
    Done { outcome: LaunchOutcome },
}

/// The database file path: the data directory with the fixed file name.
pub open spec fn spec_db_path(dir: Seq<char>) -> Seq<char> {
    dir + "/rms-local.db"@
}

/// The sidecar's argument list: fixed flag-value pairs, in this order —
/// a contract the child process depends on.
pub open spec fn spec_sidecar_args(port: u16, db_path: Seq<char>, web_dist: Seq<char>) -> Seq<
    Seq<char>,
> {
    seq![
        "--host"@,
        "0.0.0.0"@,
        "--port"@,
        decimal_digits(port as nat),
        "--db-path"@,
        db_path,
        "--web-dist"@,
        web_dist,
    ]
}

/// The error text a readiness timeout is reported with.
pub open spec fn timeout_reason() -> Seq<char> {
    "Sidecar readiness timeout"@
}

pub open spec fn msg_preparing() -> Seq<char> {
    "Preparing local runtime..."@
}

pub open spec fn msg_selected_port(port: u16) -> Seq<char> {
    "Selected available port: "@ + decimal_digits(port as nat)
}

pub open spec fn msg_db_path(db_path: Seq<char>) -> Seq<char> {
    "Database path: "@ + db_path
}

pub open spec fn msg_web_dist(web_dist: Seq<char>) -> Seq<char> {
    "Serving web assets from: "@ + web_dist
}

pub open spec fn msg_lan_url(lan_url: Seq<char>) -> Seq<char> {
    "LAN URL: "@ + lan_url
}

pub open spec fn msg_starting() -> Seq<char> {
    "Starting sidecar runtime..."@
}

pub open spec fn msg_waiting() -> Seq<char> {
    "Waiting for HTTP server readiness..."@
}

pub open spec fn msg_ready() -> Seq<char> {
    "Server is ready. Opening browser..."@
}

pub open spec fn msg_opened(local_url: Seq<char>) -> Seq<char> {
    "Opened: "@ + local_url
}

pub open spec fn msg_timeout() -> Seq<char> {
    "Server did not become ready within timeout."@
}

/// The transition relation of the machine: for each phase and event, the
/// next phase and the exact actions emitted.  An event that the phase does
/// not expect changes nothing.
pub open spec fn step_spec(pre: Phase, ev: Event, post: Phase, acts: Seq<Action>) -> bool {
    match (pre, ev) {
        (Phase::AwaitingPort, Event::PortReserved { port }) => {
            &&& post matches Phase::AwaitingDataDir { port: p } && p == port
            &&& acts.len() == 2
            &&& acts[0] matches Action::Log { text } && text@ == msg_selected_port(port)
            &&& acts[1] is PrepareDataDir
        },
        (Phase::AwaitingPort, Event::PortFailed { reason }) => {
            &&& post matches Phase::Done { outcome: LaunchOutcome::Failed { reason: r } } && r@
                == reason@
            &&& acts.len() == 0
        },
        (Phase::AwaitingDataDir { port }, Event::DataDirReady { dir }) => {
            &&& post matches Phase::AwaitingAssets { port: p, db_path } && p == port && db_path@
                == spec_db_path(dir@)
            &&& acts.len() == 1
            &&& acts[0] is ResolveAssets
        },
        (Phase::AwaitingDataDir { port }, Event::DataDirFailed { reason }) => {
            &&& post matches Phase::Done { outcome: LaunchOutcome::Failed { reason: r } } && r@
                == reason@
            &&& acts.len() == 0
        },
        (Phase::AwaitingAssets { port, db_path }, Event::AssetsResolved { web_dist }) => {
            &&& post matches Phase::AwaitingLanIp { port: p, db_path: d, web_dist: w } && p == port
                && d@ == db_path@ && w@ == web_dist@
            &&& acts.len() == 1
            &&& acts[0] is DetectLanIp
        },
        (Phase::AwaitingLanIp { port, db_path, web_dist }, Event::LanIpDetected { ip }) => {
            let lan_host = match ip {
                Some(s) => s@,
                None => "127.0.0.1"@,
            };
            let local = spec_http_url("127.0.0.1"@, port);
            let lan = spec_http_url(lan_host, port);
            &&& post matches Phase::AwaitingSpawn { port: p, local_url } && p == port && local_url@
                == local
            &&& acts.len() == 6
            &&& acts[0] matches Action::PublishRuntimeInfo { local_url, lan_url, db_path: d }
                && local_url@ == local && lan_url@ == lan && d@ == db_path@
            &&& acts[1] matches Action::Log { text } && text@ == msg_db_path(db_path@)
            &&& acts[2] matches Action::Log { text } && text@ == msg_web_dist(web_dist@)
            &&& acts[3] matches Action::Log { text } && text@ == msg_lan_url(lan)
            &&& acts[4] matches Action::Log { text } && text@ == msg_starting()
            &&& acts[5] matches Action::SpawnSidecar { args } && args.deep_view()
                == spec_sidecar_args(port, db_path@, web_dist@)
        },
        (Phase::AwaitingSpawn { port, local_url }, Event::SpawnSucceeded) => {
            &&& post matches Phase::AwaitingReady { local_url: u } && u@ == local_url@
            &&& acts.len() == 3
            &&& acts[0] is StartOutputDrain
            &&& acts[1] matches Action::Log { text } && text@ == msg_waiting()
            &&& acts[2] matches Action::ProbeReadiness { port: p, timeout_ms } && p == port
                && timeout_ms == READINESS_TIMEOUT_MS
        },
        (Phase::AwaitingSpawn { port, local_url }, Event::SpawnFailed { reason }) => {
            &&& post matches Phase::Done { outcome: LaunchOutcome::Failed { reason: r } } && r@
                == reason@
            &&& acts.len() == 0
        },
        (Phase::AwaitingReady { local_url }, Event::ProbeFinished { ready }) => {
            if ready {
                &&& post matches Phase::AwaitingOpen { local_url: u } && u@ == local_url@
                &&& acts.len() == 2
                &&& acts[0] matches Action::Log { text } && text@ == msg_ready()
                &&& acts[1] matches Action::OpenUrl { url } && url@ == local_url@
            } else {
                &&& post matches Phase::Done { outcome: LaunchOutcome::Failed { reason: r } } && r@
                    == timeout_reason()
                &&& acts.len() == 1
                &&& acts[0] matches Action::Log { text } && text@ == msg_timeout()
            }
        },
        (Phase::AwaitingOpen { local_url }, Event::OpenSucceeded) => {
            &&& post matches Phase::Done { outcome: LaunchOutcome::Ready { local_url: u } } && u@
                == local_url@
            &&& acts.len() == 1
            &&& acts[0] matches Action::Log { text } && text@ == msg_opened(local_url@)
        },
        (Phase::AwaitingOpen { local_url }, Event::OpenFailed { reason }) => {
            &&& post matches Phase::Done { outcome: LaunchOutcome::Failed { reason: r } } && r@
                == reason@
            &&& acts.len() == 0
        },
        _ => post == pre && acts.len() == 0,
    }
}

/// Begins one launch attempt: the machine awaits the reserved port, after
/// logging that the runtime is being prepared.
pub fn launch_init() -> (r: (Phase, Vec<Action>))
    ensures
        r.0 is AwaitingPort,
        r.1@.len() == 2,
        r.1@[0] matches Action::Log { text } && text@ == msg_preparing(),
        r.1@[1] is ReservePort,
{
    let mut acts: Vec<Action> = Vec::new();
    acts.push(Action::Log { text: String::from_str("Preparing local runtime...") });
    acts.push(Action::ReservePort);
    (Phase::AwaitingPort, acts)
}

/// Advances the machine by one observed event, returning the next phase
/// and the actions to carry out, exactly as `step_spec` relates them.
pub fn launch_step(phase: Phase, event: Event) -> (r: (Phase, Vec<Action>))
    ensures
        step_spec(phase, event, r.0, r.1@),
{
    match (phase, event) {
        (Phase::AwaitingPort, Event::PortReserved { port }) => {
            let mut text = String::from_str("Selected available port: ");
            let digits = u16_to_string(port);
            text.append(digits.as_str());
            proof {
                assert(text@ =~= msg_selected_port(port));
            }
            let mut acts: Vec<Action> = Vec::new();
            acts.push(Action::Log { text });
            acts.push(Action::PrepareDataDir);
            (Phase::AwaitingDataDir { port }, acts)
        },
        (Phase::AwaitingPort, Event::PortFailed { reason }) => {
            (Phase::Done { outcome: LaunchOutcome::Failed { reason } }, Vec::new())
        },
        (Phase::AwaitingDataDir { port }, Event::DataDirReady { dir }) => {
            let mut db_path = dir;
            db_path.append("/rms-local.db");
            let mut acts: Vec<Action> = Vec::new();
            acts.push(Action::ResolveAssets);
            (Phase::AwaitingAssets { port, db_path }, acts)
        },
        (Phase::AwaitingDataDir { port }, Event::DataDirFailed { reason }) => {
            (Phase::Done { outcome: LaunchOutcome::Failed { reason } }, Vec::new())
        },
        (Phase::AwaitingAssets { port, db_path }, Event::AssetsResolved { web_dist }) => {
            let mut acts: Vec<Action> = Vec::new();
            acts.push(Action::DetectLanIp);
            (Phase::AwaitingLanIp { port, db_path, web_dist }, acts)
        },
        (Phase::AwaitingLanIp { port, db_path, web_dist }, Event::LanIpDetected { ip }) => {
            let lan_host = lan_ip_or_loopback(ip);
            let local_url = format_http_url("127.0.0.1", port);
            let lan_url = format_http_url(lan_host.as_str(), port);
            let mut text_db = String::from_str("Database path: ");
            text_db.append(db_path.as_str());
            let mut text_web = String::from_str("Serving web assets from: ");
            text_web.append(web_dist.as_str());
            let mut text_lan = String::from_str("LAN URL: ");
            text_lan.append(lan_url.as_str());
            let port_digits = u16_to_string(port);
            let mut args: Vec<String> = Vec::new();
            args.push(String::from_str("--host"));
            args.push(String::from_str("0.0.0.0"));
            args.push(String::from_str("--port"));
            args.push(port_digits);
            args.push(String::from_str("--db-path"));
            args.push(db_path.clone());
            args.push(String::from_str("--web-dist"));
            args.push(web_dist.clone());
            proof {
                assert(args.deep_view() =~~= spec_sidecar_args(port, db_path@, web_dist@));
            }
            let mut acts: Vec<Action> = Vec::new();
            acts.push(
                Action::PublishRuntimeInfo {
                    local_url: local_url.clone(),
                    lan_url,
                    db_path: db_path.clone(),
                },
            );
            acts.push(Action::Log { text: text_db });
            acts.push(Action::Log { text: text_web });
            acts.push(Action::Log { text: text_lan });
            acts.push(Action::Log { text: String::from_str("Starting sidecar runtime...") });
            acts.push(Action::SpawnSidecar { args });
            (Phase::AwaitingSpawn { port, local_url }, acts)
        },
        (Phase::AwaitingSpawn { port, local_url }, Event::SpawnSucceeded) => {
            let mut acts: Vec<Action> = Vec::new();
            acts.push(Action::StartOutputDrain);
            acts.push(
                Action::Log { text: String::from_str("Waiting for HTTP server readiness...") },
            );
            acts.push(Action::ProbeReadiness { port, timeout_ms: READINESS_TIMEOUT_MS });
            (Phase::AwaitingReady { local_url }, acts)
        },
        (Phase::AwaitingSpawn { port: _, local_url: _ }, Event::SpawnFailed { reason }) => {
            (Phase::Done { outcome: LaunchOutcome::Failed { reason } }, Vec::new())
        },
        (Phase::AwaitingReady { local_url }, Event::ProbeFinished { ready }) => {
            if ready {
                let mut acts: Vec<Action> = Vec::new();
                acts.push(
                    Action::Log { text: String::from_str("Server is ready. Opening browser...") },
                );
                acts.push(Action::OpenUrl { url: local_url.clone() });
                (Phase::AwaitingOpen { local_url }, acts)
            } else {
                let mut acts: Vec<Action> = Vec::new();
                acts.push(
                    Action::Log {
                        text: String::from_str("Server did not become ready within timeout."),
                    },
                );
                (
                    Phase::Done {
                        outcome: LaunchOutcome::Failed {
                            reason: String::from_str("Sidecar readiness timeout"),
                        },
                    },
                    acts,
                )
            }
        },
        (Phase::AwaitingOpen { local_url }, Event::OpenSucceeded) => {
            let mut text = String::from_str("Opened: ");
            text.append(local_url.as_str());
            let mut acts: Vec<Action> = Vec::new();
            acts.push(Action::Log { text });
            (Phase::Done { outcome: LaunchOutcome::Ready { local_url } }, acts)
        },
        (Phase::AwaitingOpen { local_url: _ }, Event::OpenFailed { reason }) => {
            (Phase::Done { outcome: LaunchOutcome::Failed { reason } }, Vec::new())
        },
        (p, _) => (p, Vec::new()),
    }
}

/// Law: a step emits the open side effect only on the probe's success
/// report, the launch concludes ready only once the open side effect
/// succeeded, and the runtime info is published only on the one transition
/// that also spawns the sidecar — so over a whole run each happens at most
/// once, and never after a failure.
pub proof fn lemma_side_effect_discipline(pre: Phase, ev: Event, post: Phase, acts: Seq<Action>)
    requires
        step_spec(pre, ev, post, acts),
    ensures
        (exists|i: int| 0 <= i < acts.len() && acts[i] is OpenUrl) ==> (pre is AwaitingReady && (ev
            matches Event::ProbeFinished { ready } && ready) && post is AwaitingOpen),
        (post matches Phase::Done { outcome } && outcome is Ready && !(pre is Done)) ==> (pre
            is AwaitingOpen && ev is OpenSucceeded),
        (exists|i: int| 0 <= i < acts.len() && acts[i] is PublishRuntimeInfo) ==> (pre
            is AwaitingLanIp && ev is LanIpDetected && post is AwaitingSpawn),
        (exists|i: int| 0 <= i < acts.len() && acts[i] is SpawnSidecar) ==> (pre is AwaitingLanIp
            && ev is LanIpDetected && post is AwaitingSpawn),
{
}

/// The position of a phase in the single forward pass.
pub open spec fn phase_rank(p: Phase) -> nat {
    match p {
        Phase::AwaitingPort => 0,
        Phase::AwaitingDataDir { .. } => 1,
        Phase::AwaitingAssets { .. } => 2,
        Phase::AwaitingLanIp { .. } => 3,
        Phase::AwaitingSpawn { .. } => 4,
        Phase::AwaitingReady { .. } => 5,
        Phase::AwaitingOpen { .. } => 6,
        Phase::Done { .. } => 7,
    }
}

/// Law: a launch attempt is a single forward pass — no step moves the
/// machine backwards, and there is no retry or re-entry.
pub proof fn lemma_forward_pass(pre: Phase, ev: Event, post: Phase, acts: Seq<Action>)
    requires
        step_spec(pre, ev, post, acts),
    ensures
        phase_rank(post) >= phase_rank(pre),
{
}

/// Law: a terminal phase is final — no event changes it or emits anything,
/// so the outcome is produced exactly once.
pub proof fn lemma_done_is_terminal(pre: Phase, ev: Event, post: Phase, acts: Seq<Action>)
    requires
        step_spec(pre, ev, post, acts),
        pre is Done,
    ensures
        post == pre,
        acts.len() == 0,
{
}

/// A run of the machine: each step relates consecutive phases by
/// `step_spec`, with `actss[k]` the actions of step `k`.
pub open spec fn is_run(phases: Seq<Phase>, events: Seq<Event>, actss: Seq<Seq<Action>>) -> bool {
    &&& phases.len() == events.len() + 1
    &&& actss.len() == events.len()
    &&& forall|k: int|
        0 <= k < events.len() ==> step_spec(phases[k], events[k], phases[k + 1], actss[k])
}

proof fn lemma_rank_monotone_over_run(
    phases: Seq<Phase>,
    events: Seq<Event>,
    actss: Seq<Seq<Action>>,
    k1: int,
    k2: int,
)
    requires
        is_run(phases, events, actss),
        0 <= k1 <= k2 < phases.len(),
    ensures
        phase_rank(phases[k1]) <= phase_rank(phases[k2]),
    decreases k2 - k1,
{
    if k1 < k2 {
        lemma_rank_monotone_over_run(phases, events, actss, k1, k2 - 1);
        lemma_forward_pass(phases[k2 - 1], events[k2 - 1], phases[k2], actss[k2 - 1]);
    }
}

/// Law: over any run of the machine, the runtime info is published at most
/// once — once some step has emitted it, no later step does.
pub proof fn lemma_runtime_info_published_at_most_once(
    phases: Seq<Phase>,
    events: Seq<Event>,
    actss: Seq<Seq<Action>>,
    i: int,
    j: int,
)
    requires
        is_run(phases, events, actss),
        0 <= i < j < events.len(),
        exists|a: int| 0 <= a < actss[i].len() && actss[i][a] is PublishRuntimeInfo,
    ensures
        forall|b: int| 0 <= b < actss[j].len() ==> !(actss[j][b] is PublishRuntimeInfo),
{
    lemma_side_effect_discipline(phases[i], events[i], phases[i + 1], actss[i]);
    lemma_rank_monotone_over_run(phases, events, actss, i + 1, j);
    assert forall|b: int| 0 <= b < actss[j].len() implies !(actss[j][b] is PublishRuntimeInfo) by {
        if actss[j][b] is PublishRuntimeInfo {
            lemma_side_effect_discipline(phases[j], events[j], phases[j + 1], actss[j]);
        }
    }
}

/// Law: over any run of the machine, the open side effect is requested at
/// most once, and never once the machine has reached a terminal phase — a
/// run that fails (a timeout included) never opens anything afterwards.
pub proof fn lemma_open_requested_at_most_once(
    phases: Seq<Phase>,
    events: Seq<Event>,
    actss: Seq<Seq<Action>>,
    i: int,
    j: int,
)
    requires
        is_run(phases, events, actss),
        0 <= i < j < events.len(),
        (exists|a: int| 0 <= a < actss[i].len() && actss[i][a] is OpenUrl) || phases[i] is Done,
    ensures
        forall|b: int| 0 <= b < actss[j].len() ==> !(actss[j][b] is OpenUrl),
{
    if exists|a: int| 0 <= a < actss[i].len() && actss[i][a] is OpenUrl {
        lemma_side_effect_discipline(phases[i], events[i], phases[i + 1], actss[i]);
        assert(phase_rank(phases[i + 1]) == 6);
    }
    lemma_rank_monotone_over_run(phases, events, actss, i + 1, j);
    lemma_rank_monotone_over_run(phases, events, actss, i, j);
    assert forall|b: int| 0 <= b < actss[j].len() implies !(actss[j][b] is OpenUrl) by {
        if actss[j][b] is OpenUrl {
            lemma_side_effect_discipline(phases[j], events[j], phases[j + 1], actss[j]);
        }
    }
}

} // verus!
