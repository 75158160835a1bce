//! What the dashboard's status endpoint reports, and when a new update run
//! is admitted.
//!
//! A run may start when none is running and the last successful run ended
//! at least [`COOLDOWN_SECS`] seconds ago. Only a successful run starts the
//! cooldown: a failed one must be retryable straight away. Times are whole
//! seconds of one monotonic clock.
use vstd::prelude::*;

use crate::text::{decimal, decimal_string};
use crate::version::{formatted, is_update_available, law_compare_total, version_eq, version_lt};

verus! {

/// Seconds after a successful run before another may start.
pub const COOLDOWN_SECS: u64 = 300;

/// Seconds of cooldown left, given how long ago the last successful run
/// ended (if there was one).
pub open spec fn cooldown_left(since_success: Option<u64>) -> u64 {
    match since_success {
        Some(t) => if t < COOLDOWN_SECS {
            (COOLDOWN_SECS - t) as u64
        } else {
            0
        },
        None => 0,
    }
}

/// Seconds of cooldown left (`COOLDOWN_SECS.saturating_sub(elapsed)`).
pub fn cooldown_remaining(since_success: Option<u64>) -> (r: u64)
    ensures
        r == cooldown_left(since_success),
{
    match since_success {
        Some(t) => COOLDOWN_SECS.saturating_sub(t),
        None => 0,
    }
}

/// The status endpoint's `can_update`: no cooldown left and no run going.
pub fn can_update(since_success: Option<u64>, update_running: bool) -> (b: bool)
    ensures
        b == (cooldown_left(since_success) == 0 && !update_running),
{
    cooldown_remaining(since_success) == 0 && !update_running
}

/// Why a request to start a run was turned down.
#[derive(Clone, Copy, Debug, PartialEq, Eq, Structural)]
pub enum Refusal {
    /// A run is going (answered with 409 Conflict).
    AlreadyRunning,
    /// The cooldown has `wait_secs` seconds left (answered with 429).
    Cooldown { wait_secs: u64 },
}

/// The answer to a request to start a run: refused while one is running,
/// refused while the last success is less than [`COOLDOWN_SECS`] ago.
pub open spec fn admission(update_running: bool, since_success: Option<u64>) -> Result<(), Refusal> {
    if update_running {
        Err(Refusal::AlreadyRunning)
    } else {
        match since_success {
            Some(t) => if t < COOLDOWN_SECS {
                Err(Refusal::Cooldown { wait_secs: (COOLDOWN_SECS - t) as u64 })
            } else {
                Ok(())
            },
            None => Ok(()),
        }
    }
}

/// Whether a run may start now; if not, why.
pub fn admit_update(update_running: bool, since_success: Option<u64>) -> (r: Result<(), Refusal>)
    ensures
        r == admission(update_running, since_success),
{
    if update_running {
        return Err(Refusal::AlreadyRunning);
    }
    match since_success {
        Some(t) => {
            if t < COOLDOWN_SECS {
                return Err(Refusal::Cooldown { wait_secs: COOLDOWN_SECS - t });
            }
            Ok(())
        },
        None => Ok(()),
    }
}

/// Seconds since the last successful run ended, given when it ended (if it
/// did) and the time now, both in whole seconds of one monotonic clock. A
/// reading of now before the end counts as no time elapsed.
pub open spec fn elapsed_since(last_success: Option<u64>, now_secs: u64) -> Option<u64> {
    match last_success {
        Some(t) => Some(
            if now_secs >= t {
                (now_secs - t) as u64
            } else {
                0
            },
        ),
        None => None,
    }
}

/// Seconds since the last successful run ended, if there was one.
pub fn since_success(last_success: Option<u64>, now_secs: u64) -> (r: Option<u64>)
    ensures
        r == elapsed_since(last_success, now_secs),
{
    match last_success {
        Some(t) => Some(now_secs.saturating_sub(t)),
        None => None,
    }
}

/// When the last successful run ended, once a run that ended at `now_secs`
/// has finished: only a successful run starts the cooldown, so a failed one
/// leaves the previous time in place.
pub open spec fn after_run(previous: Option<u64>, succeeded: bool, now_secs: u64) -> Option<u64> {
    if succeeded {
        Some(now_secs)
    } else {
        previous
    }
}

/// When the last successful run ended, once a run that ended at `now_secs`
/// has finished.
pub fn last_success_after_run(previous: Option<u64>, succeeded: bool, now_secs: u64) -> (r: Option<
    u64,
>)
    ensures
        r == (if succeeded {
            Some(now_secs)
        } else {
            previous
        }),
{
    if succeeded {
        Some(now_secs)
    } else {
        previous
    }
}

/// A failed run changes nothing about when the next one is admitted: at any
/// later time, and whether or not another run is going, a request is
/// answered as it would have been had the failed run never happened.
pub proof fn law_failed_run_leaves_admission_unchanged(
    previous: Option<u64>,
    ended: u64,
    now_secs: u64,
    update_running: bool,
)
    ensures
        admission(update_running, elapsed_since(after_run(previous, false, ended), now_secs))
            == admission(update_running, elapsed_since(previous, now_secs)),
{
}

/// A successful run that ended at `ended` starts the cooldown: until
/// [`COOLDOWN_SECS`] seconds have passed a request is refused with the
/// seconds left, and afterwards it is admitted (when no run is going),
/// whatever came before.
pub proof fn law_success_starts_cooldown(previous: Option<u64>, ended: u64, now_secs: u64)
    requires
        ended <= now_secs,
    ensures
        now_secs - ended < COOLDOWN_SECS ==> admission(
            false,
            elapsed_since(after_run(previous, true, ended), now_secs),
        ) == Err::<(), Refusal>(
            Refusal::Cooldown { wait_secs: (COOLDOWN_SECS - (now_secs - ended)) as u64 },
        ),
        now_secs - ended >= COOLDOWN_SECS ==> admission(
            false,
            elapsed_since(after_run(previous, true, ended), now_secs),
        ) is Ok,
{
}

/// The HTTP status a refusal is answered with: 409 Conflict while a run is
/// going, 429 Too Many Requests during the cooldown.
pub open spec fn refusal_status(r: Refusal) -> u16 {
    match r {
        Refusal::AlreadyRunning => 409,
        Refusal::Cooldown { .. } => 429,
    }
}

/// The HTTP status a refusal is answered with.
pub fn refusal_code(r: &Refusal) -> (c: u16)
    ensures
        c == refusal_status(*r),
{
    match r {
        Refusal::AlreadyRunning => 409,
        Refusal::Cooldown { .. } => 429,
    }
}

/// What the update endpoint keeps between requests: whether a run is going,
/// and when the last successful run ended (whole seconds of one monotonic
/// clock).
#[derive(Clone, Copy, Debug)]
pub struct UpdateGate {
    pub running: bool,
    pub last_success: Option<u64>,
}

/// The endpoint's state and its answer after a request, at `now_secs`, to
/// start a run: refused, with the state unchanged, while a run is going or the cooldown
/// lasts; otherwise admitted, and the run is then going.
pub open spec fn start_request(g: UpdateGate, now_secs: u64) -> (UpdateGate, Result<(), Refusal>) {
    match admission(g.running, elapsed_since(g.last_success, now_secs)) {
        Ok(()) => (UpdateGate { running: true, ..g }, Ok(())),
        Err(r) => (g, Err(r)),
    }
}

/// The endpoint's state once a run that ended at `now_secs` has finished: no run is
/// going, and only a success moves the time of the last success.
pub open spec fn finished(g: UpdateGate, succeeded: bool, now_secs: u64) -> UpdateGate {
    UpdateGate { running: false, last_success: after_run(g.last_success, succeeded, now_secs) }
}

impl UpdateGate {
    /// No run going and none has succeeded yet.
    pub fn new() -> (g: UpdateGate)
        ensures
            !g.running,
            g.last_success is None,
    {
        UpdateGate { running: false, last_success: None }
    }

    /// A request to start a run at `now_secs`.
    pub fn request_start(&mut self, now_secs: u64) -> (r: Result<(), Refusal>)
        ensures
            (*final(self), r) == start_request(*old(self), now_secs),
    {
        let since = since_success(self.last_success, now_secs);
        let r = admit_update(self.running, since);
        if r.is_ok() {
            self.running = true;
        }
        r
    }

    /// The run that was going ended at `now_secs`, successfully or not.
    pub fn finish_run(&mut self, succeeded: bool, now_secs: u64)
        ensures
            *final(self) == finished(*old(self), succeeded, now_secs),
    {
        self.running = false;
        self.last_success = last_success_after_run(self.last_success, succeeded, now_secs);
    }
}

/// The update endpoint, as a whole. With `e` the whole seconds since the
/// last success: while a run is going a request is answered 409 "Update
/// already in progress"; otherwise, while `e` is below [`COOLDOWN_SECS`], it
/// is answered 429 "Cooldown active. Wait {COOLDOWN_SECS - e} seconds.";
/// in both cases no run starts and nothing changes. Otherwise the request is
/// admitted and a run is going. When that run ends no run is going, and the
/// time of the last success becomes the end time exactly when it succeeded.
pub proof fn law_update_endpoint(g: UpdateGate, now_secs: u64, succeeded: bool, ended: u64)
    ensures
        g.running ==> start_request(g, now_secs) == (g, Err::<(), Refusal>(
            Refusal::AlreadyRunning,
        )) && refusal_status(Refusal::AlreadyRunning) == 409 && refusal_text(
            Refusal::AlreadyRunning,
        ) == "Update already in progress"@,
        (!g.running && g.last_success is Some && elapsed_since(g.last_success, now_secs)->0
            < COOLDOWN_SECS) ==> start_request(g, now_secs) == (g, Err::<(), Refusal>(
            Refusal::Cooldown {
                wait_secs: (COOLDOWN_SECS - elapsed_since(g.last_success, now_secs)->0) as u64,
            },
        )),
        start_request(g, now_secs).1 matches Err(r) ==> refusal_status(r) == 409 || refusal_status(r)
            == 429,
        start_request(g, now_secs).1 matches Err(Refusal::Cooldown { wait_secs }) ==> refusal_status(
            Refusal::Cooldown { wait_secs },
        ) == 429 && refusal_text(Refusal::Cooldown { wait_secs }) == "Cooldown active. Wait "@
            + decimal(wait_secs as nat) + " seconds."@,
        start_request(g, now_secs).1 is Ok <==> (!g.running && (g.last_success is None
            || elapsed_since(g.last_success, now_secs)->0 >= COOLDOWN_SECS)),
        start_request(g, now_secs).1 is Ok ==> start_request(g, now_secs).0 == (UpdateGate {
            running: true,
            last_success: g.last_success,
        }),
        !finished(g, succeeded, ended).running,
        finished(g, succeeded, ended).last_success == (if succeeded {
            Some(ended)
        } else {
            g.last_success
        }),
{
}

/// The text a refusal is answered with.
pub open spec fn refusal_text(r: Refusal) -> Seq<char> {
    match r {
        Refusal::AlreadyRunning => "Update already in progress"@,
        Refusal::Cooldown { wait_secs } => "Cooldown active. Wait "@ + decimal(wait_secs as nat)
            + " seconds."@,
    }
}

/// The text a refusal is answered with.
pub fn refusal_message(r: &Refusal) -> (m: String)
    ensures
        m@ == refusal_text(*r),
{
    match r {
        Refusal::AlreadyRunning => String::from_str("Update already in progress"),
        Refusal::Cooldown { wait_secs } => {
            let mut m = String::from_str("Cooldown active. Wait ");
            let n = decimal_string(*wait_secs);
            m.append(n.as_str());
            m.append(" seconds.");
            m
        },
    }
}

/// The dashboard offers an update (`can_update`) exactly when a request to
/// start one would be admitted, and a request refused for the cooldown names
/// the seconds the dashboard shows as remaining.
pub proof fn law_offer_matches_admission(since_success: Option<u64>, update_running: bool)
    ensures
        (cooldown_left(since_success) == 0 && !update_running) <==> admission(
            update_running,
            since_success,
        ) is Ok,
        admission(update_running, since_success) matches Err(Refusal::Cooldown { wait_secs })
            ==> wait_secs == cooldown_left(since_success) && wait_secs > 0,
{
}

/// The version part of the status endpoint's answer.
pub struct VersionStatus {
    pub current_version: String,
    pub latest_version: String,
    pub update_available: bool,
    pub error: Option<String>,
}

/// [`VersionStatus`] with its texts as sequences.
pub struct VersionStatusModel {
    pub current_version: Seq<char>,
    pub latest_version: Seq<char>,
    pub update_available: bool,
    pub error: Option<Seq<char>>,
}

impl View for VersionStatus {
    type V = VersionStatusModel;

    open spec fn view(&self) -> VersionStatusModel {
        VersionStatusModel {
            current_version: self.current_version@,
            latest_version: self.latest_version@,
            update_available: self.update_available,
            error: match self.error {
                Some(e) => Some(e@),
                None => None,
            },
        }
    }
}

pub open spec fn text_result(r: Result<String, String>) -> Result<Seq<char>, Seq<char>> {
    match r {
        Ok(s) => Ok(s@),
        Err(e) => Err(e@),
    }
}

/// What the status endpoint reports of the installed version `current` and
/// the latest build `latest`, each read or failed to read.
pub open spec fn version_status_of(
    current: Result<Seq<char>, Seq<char>>,
    latest: Result<Seq<char>, Seq<char>>,
) -> VersionStatusModel {
    match (current, latest) {
        (Ok(c), Ok(l)) => VersionStatusModel {
            current_version: formatted(c),
            latest_version: formatted(l),
            update_available: version_lt(c, l),
            error: None,
        },
        (Err(e), _) => VersionStatusModel {
            current_version: "unknown"@,
            latest_version: "unknown"@,
            update_available: false,
            error: Some("Cannot read installed version: "@ + e),
        },
        (Ok(c), Err(e)) => VersionStatusModel {
            current_version: formatted(c),
            latest_version: "unknown"@,
            update_available: false,
            error: Some("Cannot fetch latest version: "@ + e),
        },
    }
}

/// The version part of the status endpoint's answer.
pub fn version_status(current: Result<String, String>, latest: Result<String, String>) -> (r:
    VersionStatus)
    ensures
        r@ == version_status_of(text_result(current), text_result(latest)),
{
    match (current, latest) {
        (Ok(c), Ok(l)) => VersionStatus {
            current_version: crate::version::format(c.as_str()),
            latest_version: crate::version::format(l.as_str()),
            update_available: is_update_available(c.as_str(), l.as_str()),
            error: None,
        },
        (Err(e), _) => {
            let mut m = String::from_str("Cannot read installed version: ");
            m.append(e.as_str());
            VersionStatus {
                current_version: String::from_str("unknown"),
                latest_version: String::from_str("unknown"),
                update_available: false,
                error: Some(m),
            }
        },
        (Ok(c), Err(e)) => {
            let mut m = String::from_str("Cannot fetch latest version: ");
            m.append(e.as_str());
            VersionStatus {
                current_version: crate::version::format(c.as_str()),
                latest_version: String::from_str("unknown"),
                update_available: false,
                error: Some(m),
            }
        },
    }
}

/// An update is only ever offered when both versions were read, and then
/// no error is reported.
pub proof fn law_update_offered_only_when_known(
    current: Result<Seq<char>, Seq<char>>,
    latest: Result<Seq<char>, Seq<char>>,
)
    ensures
        version_status_of(current, latest).update_available ==> current is Ok && latest is Ok,
        version_status_of(current, latest).error is None <==> current is Ok && latest is Ok,
{
}

/// When both versions were read, an update is offered exactly when the
/// installed version is strictly older than the latest build: never when
/// they are the same version, and never when the installed one is newer.
pub proof fn law_update_available_iff_older(current: Seq<char>, latest: Seq<char>)
    ensures
        version_status_of(Ok(current), Ok(latest)).update_available == version_lt(current, latest),
        version_eq(current, latest) ==> !version_status_of(Ok(current), Ok(latest)).update_available,
        version_lt(latest, current) ==> !version_status_of(Ok(current), Ok(latest)).update_available,
        version_status_of(Ok(current), Ok(latest)).error is None,
{
    law_compare_total(current, latest);
}

} // verus!
