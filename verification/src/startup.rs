//! The daemon startup sequence, as decisions over plain values.
//!
//! The blocking work itself (creating the data directory, probing the
//! health endpoint, spawning the binary, sleeping between polls) happens
//! outside this crate; every decision taken on its results is verified
//! here: what a probe response means, which binary candidate wins, when
//! the poll resolves and to what, and the exact failure messages.

use vstd::prelude::*;
use vstd::string::StringExecFns;
use crate::text::chars_contain;
use crate::text::str_contains;

verus! {

/// Maximum startup wait, in milliseconds.
pub const STARTUP_TIMEOUT_MS: u64 = 30000;

/// Ping retry interval during startup, in milliseconds.
pub const STARTUP_PING_INTERVAL_MS: u64 = 200;

/// Read timeout of a single health probe, in seconds.
pub const PROBE_READ_TIMEOUT_SECS: u64 = 2;

/// A health-probe response means "alive" when it carries the success
/// marker of the liveness endpoint.
pub open spec fn spec_probe_alive(resp: Seq<char>) -> bool {
    chars_contain(resp, "200 OK"@) || chars_contain(resp, "OK"@)
}

/// Interprets the text read from the health endpoint.
pub fn probe_response_alive(resp: &str) -> (r: bool)
    ensures
        r == spec_probe_alive(resp@),
{
    str_contains(resp, "200 OK") || str_contains(resp, "OK")
}

/// The fixed liveness request sent over the health endpoint.
pub fn probe_request() -> (r: &'static str)
    ensures
        r@ == "GET /_ping HTTP/1.1\r\nHost: localhost\r\nConnection: close\r\n\r\n"@,
{
    "GET /_ping HTTP/1.1\r\nHost: localhost\r\nConnection: close\r\n\r\n"
}

/// The first binary candidate that exists, in search order: inside the
/// application bundle, beside the running executable, then the first
/// match on the system search path.
pub open spec fn spec_pick_daemon_binary(
    bundle: Option<String>,
    alongside: Option<String>,
    on_path: Option<String>,
) -> Option<String> {
    if bundle is Some {
        bundle
    } else if alongside is Some {
        alongside
    } else {
        on_path
    }
}

/// Picks the daemon binary among the candidates that were found.
pub fn pick_daemon_binary(
    bundle: Option<String>,
    alongside: Option<String>,
    on_path: Option<String>,
) -> (r: Option<String>)
    ensures
        r == spec_pick_daemon_binary(bundle, alongside, on_path),
{
    match bundle {
        Some(b) => Some(b),
        None => match alongside {
            Some(a) => Some(a),
            None => on_path,
        },
    }
}

/// One round of the startup poll: what the health probe said, and the
/// status text of the spawned process if it was seen to have exited.
#[derive(Debug, Clone)]
pub struct PollObservation {
    pub probe_ok: bool,
    pub exit_status: Option<String>,
}

/// How the startup poll resolved.
#[derive(Debug, Clone, PartialEq, Eq)]
pub enum StartupPoll {
    /// A probe succeeded: the daemon is ready.
    Ready,
    /// The spawned process exited first, with this status text.
    Exited(String),
    /// The overall startup window elapsed first.
    TimedOut,
    /// The observations ran out before anything was decided.
    Undecided,
}

/// The decision taken in one round, `elapsed_ms` into the sequence:
/// a successful probe wins, then an observed exit, then the timeout.
pub open spec fn spec_poll_round(o: PollObservation, elapsed_ms: int) -> StartupPoll {
    if o.probe_ok {
        StartupPoll::Ready
    } else if o.exit_status is Some {
        StartupPoll::Exited(o.exit_status->0)
    } else if elapsed_ms > STARTUP_TIMEOUT_MS {
        StartupPoll::TimedOut
    } else {
        StartupPoll::Undecided
    }
}

/// The first decision the rounds from `i` on arrive at, with round `j`
/// taken `j * STARTUP_PING_INTERVAL_MS` into the sequence.
pub open spec fn spec_startup_poll(obs: Seq<PollObservation>, i: nat) -> StartupPoll
    decreases obs.len() - i,
{
    if i >= obs.len() {
        StartupPoll::Undecided
    } else {
        let d = spec_poll_round(obs[i as int], i * (STARTUP_PING_INTERVAL_MS as int));
        if d is Undecided {
            spec_startup_poll(obs, i + 1)
        } else {
            d
        }
    }
}

/// Replays the startup poll over a recorded series of observations.
pub fn run_probe_loop(obs: &Vec<PollObservation>) -> (r: StartupPoll)
    ensures
        r == spec_startup_poll(obs@, 0),
{
    let mut i: usize = 0;
    while i < obs.len()
        invariant
            i <= obs@.len(),
            i > 0 ==> (i - 1) * (STARTUP_PING_INTERVAL_MS as int) <= STARTUP_TIMEOUT_MS,
            spec_startup_poll(obs@, 0) == spec_startup_poll(obs@, i as nat),
        decreases obs@.len() - i,
    {
        let o = &obs[i];
        if o.probe_ok {
            return StartupPoll::Ready;
        }
        match &o.exit_status {
            Some(status) => {
                return StartupPoll::Exited(status.clone());
            },
            None => {},
        }
        let elapsed: u64 = (i as u64) * STARTUP_PING_INTERVAL_MS;
        if elapsed > STARTUP_TIMEOUT_MS {
            return StartupPoll::TimedOut;
        }
        i = i + 1;
    }
    StartupPoll::Undecided
}

/// If within the poll window no probe succeeds and the process never
/// exits, the poll resolves to `TimedOut` — it cannot hang: rounds past
/// the window are never reached.
pub proof fn lemma_startup_timeout(obs: Seq<PollObservation>)
    requires
        forall|i: int|
            0 <= i < obs.len() ==> !(#[trigger] obs[i]).probe_ok && obs[i].exit_status is None,
        obs.len() * (STARTUP_PING_INTERVAL_MS as int) > STARTUP_TIMEOUT_MS
            + STARTUP_PING_INTERVAL_MS,
    ensures
        spec_startup_poll(obs, 0) is TimedOut,
{
    lemma_startup_timeout_from(obs, 0);
}

/// Helper for `lemma_startup_timeout`: the tail from any round within
/// the window still times out.
proof fn lemma_startup_timeout_from(obs: Seq<PollObservation>, i: nat)
    requires
        forall|k: int|
            0 <= k < obs.len() ==> !(#[trigger] obs[k]).probe_ok && obs[k].exit_status is None,
        obs.len() * (STARTUP_PING_INTERVAL_MS as int) > STARTUP_TIMEOUT_MS
            + STARTUP_PING_INTERVAL_MS,
        i * (STARTUP_PING_INTERVAL_MS as int) <= STARTUP_TIMEOUT_MS + STARTUP_PING_INTERVAL_MS,
    ensures
        spec_startup_poll(obs, i) is TimedOut,
    decreases obs.len() - i,
{
    assert(i < obs.len()) by (nonlinear_arith)
        requires
            i * (STARTUP_PING_INTERVAL_MS as int) <= STARTUP_TIMEOUT_MS + STARTUP_PING_INTERVAL_MS,
            obs.len() * (STARTUP_PING_INTERVAL_MS as int) > STARTUP_TIMEOUT_MS
                + STARTUP_PING_INTERVAL_MS,
            STARTUP_PING_INTERVAL_MS == 200,
            STARTUP_TIMEOUT_MS == 30000,
    ;
    if i * (STARTUP_PING_INTERVAL_MS as int) > STARTUP_TIMEOUT_MS {
    } else {
        lemma_startup_timeout_from(obs, i + 1);
    }
}

/// If the process is seen to exit at round `k`, before any successful
/// probe and within the poll window, the poll reports exactly that
/// exit — it does not wait for the timeout.
pub proof fn lemma_exit_detected(obs: Seq<PollObservation>, k: int)
    requires
        0 <= k < obs.len(),
        obs[k].exit_status is Some,
        forall|i: int| 0 <= i <= k ==> !(#[trigger] obs[i]).probe_ok,
        forall|i: int| 0 <= i < k ==> (#[trigger] obs[i]).exit_status is None,
        k * (STARTUP_PING_INTERVAL_MS as int) <= STARTUP_TIMEOUT_MS,
    ensures
        spec_startup_poll(obs, 0) == StartupPoll::Exited(obs[k].exit_status->0),
{
    lemma_exit_detected_from(obs, k, 0);
}

/// Helper for `lemma_exit_detected`.
proof fn lemma_exit_detected_from(obs: Seq<PollObservation>, k: int, i: nat)
    requires
        0 <= k < obs.len(),
        i <= k,
        obs[k].exit_status is Some,
        forall|j: int| 0 <= j <= k ==> !(#[trigger] obs[j]).probe_ok,
        forall|j: int| 0 <= j < k ==> (#[trigger] obs[j]).exit_status is None,
        k * (STARTUP_PING_INTERVAL_MS as int) <= STARTUP_TIMEOUT_MS,
    ensures
        spec_startup_poll(obs, i) == StartupPoll::Exited(obs[k].exit_status->0),
    decreases k - i,
{
    assert(i * (STARTUP_PING_INTERVAL_MS as int) <= k * (STARTUP_PING_INTERVAL_MS as int))
        by (nonlinear_arith)
        requires
            i <= k,
            STARTUP_PING_INTERVAL_MS == 200,
    ;
    if i < k {
        lemma_exit_detected_from(obs, k, i + 1);
    }
}

/// If the probe first succeeds at round `k`, within the poll window
/// and before any observed exit, the poll resolves to `Ready` there.
pub proof fn lemma_probe_success(obs: Seq<PollObservation>, k: int)
    requires
        0 <= k < obs.len(),
        obs[k].probe_ok,
        forall|i: int| 0 <= i < k ==> !(#[trigger] obs[i]).probe_ok && obs[i].exit_status is None,
        k * (STARTUP_PING_INTERVAL_MS as int) <= STARTUP_TIMEOUT_MS,
    ensures
        spec_startup_poll(obs, 0) is Ready,
{
    lemma_probe_success_from(obs, k, 0);
}

/// Helper for `lemma_probe_success`.
proof fn lemma_probe_success_from(obs: Seq<PollObservation>, k: int, i: nat)
    requires
        0 <= k < obs.len(),
        i <= k,
        obs[k].probe_ok,
        forall|j: int| 0 <= j < k ==> !(#[trigger] obs[j]).probe_ok && obs[j].exit_status is None,
        k * (STARTUP_PING_INTERVAL_MS as int) <= STARTUP_TIMEOUT_MS,
    ensures
        spec_startup_poll(obs, i) is Ready,
    decreases k - i,
{
    assert(i * (STARTUP_PING_INTERVAL_MS as int) <= k * (STARTUP_PING_INTERVAL_MS as int))
        by (nonlinear_arith)
        requires
            i <= k,
            STARTUP_PING_INTERVAL_MS == 200,
    ;
    if i < k {
        lemma_probe_success_from(obs, k, i + 1);
    }
}

/// With observations covering the whole poll window, the poll always
/// decides: `Undecided` is only ever a truncated recording.
pub proof fn lemma_poll_decides(obs: Seq<PollObservation>)
    requires
        obs.len() * (STARTUP_PING_INTERVAL_MS as int) > STARTUP_TIMEOUT_MS
            + STARTUP_PING_INTERVAL_MS,
    ensures
        !(spec_startup_poll(obs, 0) is Undecided),
{
    lemma_poll_decides_from(obs, 0);
}

/// Helper for `lemma_poll_decides`.
proof fn lemma_poll_decides_from(obs: Seq<PollObservation>, i: nat)
    requires
        obs.len() * (STARTUP_PING_INTERVAL_MS as int) > STARTUP_TIMEOUT_MS
            + STARTUP_PING_INTERVAL_MS,
        i * (STARTUP_PING_INTERVAL_MS as int) <= STARTUP_TIMEOUT_MS + STARTUP_PING_INTERVAL_MS,
    ensures
        !(spec_startup_poll(obs, i) is Undecided),
    decreases obs.len() - i,
{
    assert(i < obs.len()) by (nonlinear_arith)
        requires
            i * (STARTUP_PING_INTERVAL_MS as int) <= STARTUP_TIMEOUT_MS + STARTUP_PING_INTERVAL_MS,
            obs.len() * (STARTUP_PING_INTERVAL_MS as int) > STARTUP_TIMEOUT_MS
                + STARTUP_PING_INTERVAL_MS,
            STARTUP_PING_INTERVAL_MS == 200,
            STARTUP_TIMEOUT_MS == 30000,
    ;
    let d = spec_poll_round(obs[i as int], i * (STARTUP_PING_INTERVAL_MS as int));
    if d is Undecided {
        lemma_poll_decides_from(obs, i + 1);
    }
}

/// What the startup sequence does before any spawn is attempted.
#[derive(Debug, Clone)]
pub enum PreSpawnStep {
    /// The data directory could not be created; startup fails.
    FailedDataDir(String),
    /// The health endpoint already answers: adopt the running daemon.
    AlreadyRunning,
    /// Remove any stale socket file, then spawn the binary.
    Spawn,
}

/// Decides the pre-spawn step from the data-directory result and an
/// initial health probe.
pub fn startup_prelude(dir_result: Result<(), String>, probe_ok: bool) -> (r: PreSpawnStep)
    ensures
        dir_result matches Err(e) ==> r matches PreSpawnStep::FailedDataDir(m) && m@
            == "Failed to create data dir: "@ + e@,
        dir_result is Ok && probe_ok ==> r is AlreadyRunning,
        dir_result is Ok && !probe_ok ==> r is Spawn,
{
    match dir_result {
        Err(e) => PreSpawnStep::FailedDataDir("Failed to create data dir: ".to_owned().concat(
            e.as_str(),
        )),
        Ok(()) => {
            if probe_ok {
                PreSpawnStep::AlreadyRunning
            } else {
                PreSpawnStep::Spawn
            }
        },
    }
}

/// The argument list the daemon binary is spawned with.
pub fn daemon_args(socket_path: &String, data_dir: &String) -> (r: Vec<String>)
    ensures
        r@.len() == 6,
        r@[0]@ == "daemon"@,
        r@[1]@ == "--socket"@,
        r@[2]@ == socket_path@,
        r@[3]@ == "--data-dir"@,
        r@[4]@ == data_dir@,
        r@[5]@ == "--foreground"@,
{
    let mut r: Vec<String> = Vec::new();
    r.push("daemon".to_owned());
    r.push("--socket".to_owned());
    r.push(socket_path.clone());
    r.push("--data-dir".to_owned());
    r.push(data_dir.clone());
    r.push("--foreground".to_owned());
    r
}

/// How a completed startup sequence resolved.
#[derive(Debug, Clone, PartialEq, Eq)]
pub enum StartupOutcome {
    /// The health endpoint answered before any spawn: an externally
    /// started daemon serves us, and no process handle is held.
    AlreadyRunning,
    /// The spawned process became healthy; its handle is retained.
    Spawned,
    /// The sequence failed, with a human-readable reason.
    Failed(String),
}

/// Resolves a finished startup poll into an outcome, and says whether
/// the caller must terminate the process it spawned.
pub fn resolve_poll(poll: StartupPoll) -> (r: (StartupOutcome, bool))
    requires
        !(poll is Undecided),
    ensures
        poll is Ready ==> r.0 is Spawned && !r.1,
        poll matches StartupPoll::Exited(s) ==> (r.0 matches StartupOutcome::Failed(m) && m@
            == "Daemon exited with: "@ + s@) && !r.1,
        poll is TimedOut ==> (r.0 matches StartupOutcome::Failed(m) && m@
            == "Daemon startup timeout"@) && r.1,
{
    match poll {
        StartupPoll::Ready => (StartupOutcome::Spawned, false),
        StartupPoll::Exited(s) => (
            StartupOutcome::Failed("Daemon exited with: ".to_owned().concat(s.as_str())),
            false,
        ),
        StartupPoll::TimedOut => (
            StartupOutcome::Failed("Daemon startup timeout".to_owned()),
            true,
        ),
        StartupPoll::Undecided => (StartupOutcome::Failed(String::new()), false),
    }
}

/// The outcome when the spawn call itself fails with `e`.
pub fn spawn_failed_outcome(e: String) -> (r: StartupOutcome)
    ensures
        r matches StartupOutcome::Failed(m) && m@ == "Failed to spawn daemon: "@ + e@,
{
    StartupOutcome::Failed("Failed to spawn daemon: ".to_owned().concat(e.as_str()))
}

} // verus!
