//! The decisions of an update run, as a state machine.
//!
//! A run wraps the companion-pi update script with a safety gate:
//!   1. Pre-upgrade: fetch the full export, count it, archive it, report
//!      `SafetyPre`.
//!   2. Read the installed version and the latest advertised build.
//!   3. Update the companion-pi checkout (its picker decides what installs).
//!   4. Stop Companion, run the update script, start Companion, wait until it
//!      is healthy.
//!   5. Post-upgrade: fetch the export again, count it, report `SafetyPost`.
//!   6. If any count decreased: import the pre-upgrade export back and report
//!      `SafetyRollback`.
//!   7. Compare the installed version before and after; anything not provably
//!      installed is reported as an error, never as success.
//!
//! The caller performs each [`Request`] (the I/O) and hands the result back
//! as a [`Reply`]; [`UpdateRun::step`] decides what comes next. From the
//! moment Companion is stopped until it is started again the caller holds a
//! guard that starts Companion if the run ends early; [`Step::guard`] says
//! when to arm and release it.
use vstd::prelude::*;

use crate::safety::{count_error_of, count_from_json, decreased, export_counts, loss, Counts};
use crate::text::{decimal, decimal_string};
use crate::update::{classify_outcome, join, join3, outcome_of, EventModel, OutcomeModel, Outcome, UpdateEvent};
use crate::version::{formatted, version_lt};

verus! {

/// Where a run stands: the reply it waits for.
#[derive(Clone, Copy, Debug, PartialEq, Eq, Structural)]
pub enum Phase {
    Begin,
    PreExport,
    PreSave,
    PreVersion,
    Latest,
    Installer,
    Stopping,
    Script,
    ScriptRestart,
    Starting,
    Healthy,
    PostExport,
    RollbackImport,
    RollbackHealthy,
    PostVersion,
    Finished,
}

/// What to do with the guard that restarts Companion.
#[derive(Clone, Copy, Debug, PartialEq, Eq, Structural)]
pub enum GuardAction {
    Keep,
    Arm,
    Disarm,
}

/// The outside work a run asks for next.
pub enum Request {
    /// Fetch Companion's full export.
    FetchExport,
    /// Persist the pre-upgrade export (and archive it).
    SaveSnapshot(Vec<u8>),
    /// Read the installed version.
    ReadVersion,
    /// Fetch the latest stable Linux version.
    FetchLatest,
    /// `git pull` the companion-pi checkout, streaming its output.
    UpdateInstaller,
    /// `systemctl stop companion`.
    StopCompanion,
    /// Run the update script, streaming its output; report whether it printed
    /// a skip marker.
    RunScript,
    /// `systemctl start companion`.
    StartCompanion,
    /// Wait until Companion answers again.
    WaitHealthy,
    /// Import this export into Companion.
    ImportSnapshot(Vec<u8>),
    /// The run is over; `true` only for a verified success.
    Finish(bool),
}

/// The result of the outside work, handed back to the run.
pub enum Reply {
    Start,
    Export(Result<Vec<u8>, String>),
    Saved(Result<(), String>),
    Version(Result<String, String>),
    Latest(Result<String, String>),
    InstallerUpdated,
    Service(Result<(), String>),
    Script(Result<bool, String>),
    Healthy(Result<(), String>),
    Imported(Result<(), String>),
}

/// What one step decided: events to send, in order, then the guard action,
/// then the request to perform.
pub struct Step {
    pub events: Vec<UpdateEvent>,
    pub guard: GuardAction,
    pub request: Request,
}

/// A [`Request`] with its bytes as a sequence.
pub enum RequestModel {
    FetchExport,
    SaveSnapshot(Seq<u8>),
    ReadVersion,
    FetchLatest,
    UpdateInstaller,
    StopCompanion,
    RunScript,
    StartCompanion,
    WaitHealthy,
    ImportSnapshot(Seq<u8>),
    Finish(bool),
}

/// A [`Reply`] with its bytes and texts as sequences.
pub enum ReplyModel {
    Start,
    Export(Result<Seq<u8>, Seq<char>>),
    Saved(Result<(), Seq<char>>),
    Version(Result<Seq<char>, Seq<char>>),
    Latest(Result<Seq<char>, Seq<char>>),
    InstallerUpdated,
    Service(Result<(), Seq<char>>),
    Script(Result<bool, Seq<char>>),
    Healthy(Result<(), Seq<char>>),
    Imported(Result<(), Seq<char>>),
}

/// A [`Step`] with its parts as sequences.
pub struct StepModel {
    pub events: Seq<EventModel>,
    pub guard: GuardAction,
    pub request: RequestModel,
}

/// The state of a run.
pub struct RunModel {
    pub phase: Phase,
    pub pre_bytes: Seq<u8>,
    pub pre_counts: Counts,
    pub pre_version: Seq<char>,
    pub latest: Option<Seq<char>>,
    pub skipped: bool,
    pub post_counts: Counts,
    pub lost: Counts,
    pub script_error: Seq<char>,
    pub guard_armed: bool,
}

impl View for Request {
    type V = RequestModel;

    open spec fn view(&self) -> RequestModel {
        match self {
            Request::FetchExport => RequestModel::FetchExport,
            Request::SaveSnapshot(b) => RequestModel::SaveSnapshot(b@),
            Request::ReadVersion => RequestModel::ReadVersion,
            Request::FetchLatest => RequestModel::FetchLatest,
            Request::UpdateInstaller => RequestModel::UpdateInstaller,
            Request::StopCompanion => RequestModel::StopCompanion,
            Request::RunScript => RequestModel::RunScript,
            Request::StartCompanion => RequestModel::StartCompanion,
            Request::WaitHealthy => RequestModel::WaitHealthy,
            Request::ImportSnapshot(b) => RequestModel::ImportSnapshot(b@),
            Request::Finish(ok) => RequestModel::Finish(*ok),
        }
    }
}

pub open spec fn unit_result(r: Result<(), String>) -> Result<(), Seq<char>> {
    match r {
        Ok(()) => Ok(()),
        Err(e) => Err(e@),
    }
}

impl View for Reply {
    type V = ReplyModel;

    open spec fn view(&self) -> ReplyModel {
        match self {
            Reply::Start => ReplyModel::Start,
            Reply::Export(r) => ReplyModel::Export(
                match r {
                    Ok(b) => Ok(b@),
                    Err(e) => Err(e@),
                },
            ),
            Reply::Saved(r) => ReplyModel::Saved(unit_result(*r)),
            Reply::Version(r) => ReplyModel::Version(
                match r {
                    Ok(v) => Ok(v@),
                    Err(e) => Err(e@),
                },
            ),
            Reply::Latest(r) => ReplyModel::Latest(
                match r {
                    Ok(v) => Ok(v@),
                    Err(e) => Err(e@),
                },
            ),
            Reply::InstallerUpdated => ReplyModel::InstallerUpdated,
            Reply::Service(r) => ReplyModel::Service(unit_result(*r)),
            Reply::Script(r) => ReplyModel::Script(
                match r {
                    Ok(b) => Ok(*b),
                    Err(e) => Err(e@),
                },
            ),
            Reply::Healthy(r) => ReplyModel::Healthy(unit_result(*r)),
            Reply::Imported(r) => ReplyModel::Imported(unit_result(*r)),
        }
    }
}

impl View for Step {
    type V = StepModel;

    open spec fn view(&self) -> StepModel {
        StepModel {
            events: self.events@.map_values(|e: UpdateEvent| e@),
            guard: self.guard,
            request: self.request@,
        }
    }
}

// ---------------------------------------------------------------------------
// The transition relation
// ---------------------------------------------------------------------------
/// The reply `r` is the kind of result that phase `p` waits for.
pub open spec fn accepts(p: Phase, r: ReplyModel) -> bool {
    match p {
        Phase::Begin => r is Start,
        Phase::PreExport | Phase::PostExport => r is Export,
        Phase::PreSave => r is Saved,
        Phase::PreVersion | Phase::PostVersion => r is Version,
        Phase::Latest => r is Latest,
        Phase::Installer => r is InstallerUpdated,
        Phase::Stopping | Phase::ScriptRestart | Phase::Starting => r is Service,
        Phase::Script => r is Script,
        Phase::Healthy | Phase::RollbackHealthy => r is Healthy,
        Phase::RollbackImport => r is Imported,
        Phase::Finished => false,
    }
}

/// The run moves to phase `p`, its data otherwise unchanged.
pub open spec fn moved(s: RunModel, p: Phase) -> RunModel {
    RunModel { phase: p, ..s }
}

/// A step that sends `events`, leaves the guard, and asks for `request`.
pub open spec fn asks(events: Seq<EventModel>, request: RequestModel) -> StepModel {
    StepModel { events, guard: GuardAction::Keep, request }
}

/// The run ends in failure after reporting `message`.
pub open spec fn fails(s: RunModel, message: Seq<char>, t: RunModel, st: StepModel) -> bool {
    &&& t == moved(s, Phase::Finished)
    &&& st == asks(seq![EventModel::Error(message)], RequestModel::Finish(false))
}

pub open spec fn companion_stopped_message() -> Seq<char> {
    "COMPANION IS STOPPED — start it manually: sudo systemctl start companion. "@
}

pub open spec fn data_loss_message(lost: Counts) -> Seq<char> {
    "Data loss detected (lost "@ + decimal(lost.connections as nat) + " connections, "@ + decimal(
        lost.buttons as nat,
    ) + " buttons, "@ + decimal(lost.triggers as nat) + " triggers). Rolling back..."@
}

/// The summary of a successful run that installed `new`, having found
/// `outcome` (not a failure).
pub open spec fn summary(pre: Seq<char>, new: Seq<char>, outcome: OutcomeModel) -> Seq<char> {
    match outcome {
        OutcomeModel::Applied(still_behind) => "Update complete. Now running "@ + formatted(new)
            + " (was "@ + formatted(pre) + ")"@ + match still_behind {
            Some(l) => " — note: "@ + l + " is available, still behind"@,
            None => Seq::empty(),
        },
        _ => "Nothing to install — already running the latest build "@ + formatted(new),
    }
}

/// `r` is the kind of result that performing `req` gives back. Finishing
/// gives nothing back.
pub open spec fn answers(req: RequestModel, r: ReplyModel) -> bool {
    match req {
        RequestModel::FetchExport => r is Export,
        RequestModel::SaveSnapshot(_) => r is Saved,
        RequestModel::ReadVersion => r is Version,
        RequestModel::FetchLatest => r is Latest,
        RequestModel::UpdateInstaller => r is InstallerUpdated,
        RequestModel::StopCompanion | RequestModel::StartCompanion => r is Service,
        RequestModel::RunScript => r is Script,
        RequestModel::WaitHealthy => r is Healthy,
        RequestModel::ImportSnapshot(_) => r is Imported,
        RequestModel::Finish(_) => false,
    }
}

/// One step of a run: in state `s`, on reply `r`, the run moves to `t` and
/// decides `st`.
pub open spec fn transition(s: RunModel, r: ReplyModel, t: RunModel, st: StepModel) -> bool {
    match (s.phase, r) {
        (Phase::Begin, ReplyModel::Start) => {
            &&& t == moved(s, Phase::PreExport)
            &&& st == asks(
                seq![EventModel::Progress("Taking pre-upgrade snapshot..."@)],
                RequestModel::FetchExport,
            )
        },
        (Phase::PreExport, ReplyModel::Export(Err(e))) => fails(
            s,
            "pre-upgrade snapshot failed: "@ + e,
            t,
            st,
        ),
        (Phase::PreExport, ReplyModel::Export(Ok(b))) => match export_counts(b) {
            None => fails(s, "pre-upgrade parse failed: "@ + count_error_of(b)->0, t, st),
            Some(c) => {
                &&& t == RunModel { phase: Phase::PreSave, pre_bytes: b, pre_counts: c, ..s }
                &&& st == asks(Seq::empty(), RequestModel::SaveSnapshot(b))
            },
        },
        (Phase::PreSave, ReplyModel::Saved(Err(e))) => fails(
            s,
            "could not persist pre-upgrade snapshot: "@ + e,
            t,
            st,
        ),
        (Phase::PreSave, ReplyModel::Saved(Ok(()))) => {
            &&& t == moved(s, Phase::PreVersion)
            &&& st == asks(seq![EventModel::SafetyPre(s.pre_counts)], RequestModel::ReadVersion)
        },
        (Phase::PreVersion, ReplyModel::Version(Err(e))) => fails(
            s,
            "cannot read installed version: "@ + e,
            t,
            st,
        ),
        (Phase::PreVersion, ReplyModel::Version(Ok(v))) => {
            &&& t == RunModel { phase: Phase::Latest, pre_version: v, ..s }
            &&& st == asks(Seq::empty(), RequestModel::FetchLatest)
        },
        (Phase::Latest, ReplyModel::Latest(Ok(l))) => {
            &&& t == RunModel { phase: Phase::Installer, latest: Some(l), ..s }
            &&& st == asks(Seq::empty(), RequestModel::UpdateInstaller)
        },
        (Phase::Latest, ReplyModel::Latest(Err(e))) => {
            &&& t == RunModel { phase: Phase::Installer, latest: None, ..s }
            &&& st == asks(
                seq![
                    EventModel::Progress(
                        "WARNING: could not fetch the list of available builds: "@ + e,
                    ),
                ],
                RequestModel::UpdateInstaller,
            )
        },
        (Phase::Installer, ReplyModel::InstallerUpdated) => {
            &&& t == RunModel { phase: Phase::Stopping, guard_armed: true, ..s }
            &&& st == StepModel {
                events: seq![EventModel::Progress("Stopping companion service..."@)],
                guard: GuardAction::Arm,
                request: RequestModel::StopCompanion,
            }
        },
        (Phase::Stopping, ReplyModel::Service(Err(e))) => {
            &&& t == RunModel { phase: Phase::Finished, guard_armed: false, ..s }
            &&& st == StepModel {
                events: seq![EventModel::Error(e)],
                guard: GuardAction::Disarm,
                request: RequestModel::Finish(false),
            }
        },
        (Phase::Stopping, ReplyModel::Service(Ok(()))) => {
            &&& t == moved(s, Phase::Script)
            &&& st == asks(
                seq![EventModel::Progress("Starting update (stable channel)..."@)],
                RequestModel::RunScript,
            )
        },
        (Phase::Script, ReplyModel::Script(Ok(skipped))) => {
            &&& t == RunModel { phase: Phase::Starting, skipped, ..s }
            &&& st == asks(
                seq![EventModel::Progress("Starting companion service..."@)],
                RequestModel::StartCompanion,
            )
        },
        (Phase::Script, ReplyModel::Script(Err(e))) => {
            &&& t == RunModel { phase: Phase::ScriptRestart, script_error: e, ..s }
            &&& st == asks(
                seq![EventModel::Progress("Update script failed — restarting Companion..."@)],
                RequestModel::StartCompanion,
            )
        },
        (Phase::ScriptRestart, ReplyModel::Service(Ok(()))) => {
            &&& t == RunModel { phase: Phase::Finished, guard_armed: false, ..s }
            &&& st == StepModel {
                events: seq![
                    EventModel::Error(s.script_error + " (Companion was restarted.)"@),
                ],
                guard: GuardAction::Disarm,
                request: RequestModel::Finish(false),
            }
        },
        (Phase::ScriptRestart, ReplyModel::Service(Err(e))) => fails(
            s,
            companion_stopped_message() + "Update failed: "@ + s.script_error
                + ". Restart also failed: "@ + e,
            t,
            st,
        ),
        (Phase::Starting, ReplyModel::Service(Err(e))) => fails(
            s,
            companion_stopped_message() + "Cause: "@ + e,
            t,
            st,
        ),
        (Phase::Starting, ReplyModel::Service(Ok(()))) => {
            &&& t == RunModel { phase: Phase::Healthy, guard_armed: false, ..s }
            &&& st == StepModel {
                events: Seq::empty(),
                guard: GuardAction::Disarm,
                request: RequestModel::WaitHealthy,
            }
        },
        (Phase::Healthy, ReplyModel::Healthy(Err(e))) => fails(
            s,
            "Companion did not return to healthy: "@ + e,
            t,
            st,
        ),
        (Phase::Healthy, ReplyModel::Healthy(Ok(()))) => {
            &&& t == moved(s, Phase::PostExport)
            &&& st == asks(
                seq![EventModel::Progress("Taking post-upgrade snapshot..."@)],
                RequestModel::FetchExport,
            )
        },
        (Phase::PostExport, ReplyModel::Export(Err(e))) => fails(
            s,
            "post-upgrade snapshot failed: "@ + e,
            t,
            st,
        ),
        (Phase::PostExport, ReplyModel::Export(Ok(b))) => match export_counts(b) {
            None => fails(s, "post-upgrade parse failed: "@ + count_error_of(b)->0, t, st),
            Some(c) => if decreased(s.pre_counts, c) {
                &&& t == RunModel {
                    phase: Phase::RollbackImport,
                    post_counts: c,
                    lost: loss(s.pre_counts, c),
                    ..s
                }
                &&& st == asks(
                    seq![
                        EventModel::SafetyPost(c),
                        EventModel::Progress(data_loss_message(loss(s.pre_counts, c))),
                    ],
                    RequestModel::ImportSnapshot(s.pre_bytes),
                )
            } else {
                &&& t == RunModel { phase: Phase::PostVersion, post_counts: c, ..s }
                &&& st == asks(seq![EventModel::SafetyPost(c)], RequestModel::ReadVersion)
            },
        },
        (Phase::RollbackImport, ReplyModel::Imported(Err(e))) => fails(
            s,
            "rollback import failed: "@ + e,
            t,
            st,
        ),
        (Phase::RollbackImport, ReplyModel::Imported(Ok(()))) => {
            &&& t == moved(s, Phase::RollbackHealthy)
            &&& st == asks(Seq::empty(), RequestModel::WaitHealthy)
        },
        (Phase::RollbackHealthy, ReplyModel::Healthy(Err(e))) => fails(
            s,
            "Companion did not return to healthy after rollback: "@ + e,
            t,
            st,
        ),
        (Phase::RollbackHealthy, ReplyModel::Healthy(Ok(()))) => {
            &&& t == moved(s, Phase::Finished)
            &&& st == asks(
                seq![
                    EventModel::SafetyRollback(
                        "Data loss detected; rolled back to pre-upgrade state."@,
                        s.lost,
                    ),
                ],
                RequestModel::Finish(false),
            )
        },
        (Phase::PostVersion, ReplyModel::Version(Err(e))) => fails(
            s,
            "Cannot verify the update: the installed version could not be read after the run ("@
                + e + "). Your configuration was left untouched."@,
            t,
            st,
        ),
        (Phase::PostVersion, ReplyModel::Version(Ok(new))) => match outcome_of(
            s.pre_version,
            new,
            s.latest,
            s.skipped,
        ) {
            OutcomeModel::Failed(m) => fails(
                s,
                m + " Your configuration was left untouched."@,
                t,
                st,
            ),
            outcome => {
                &&& t == moved(s, Phase::Finished)
                &&& st == asks(
                    seq![
                        EventModel::Complete(
                            summary(s.pre_version, new, outcome),
                            Some(loss(s.post_counts, s.pre_counts)),
                        ),
                    ],
                    RequestModel::Finish(true),
                )
            },
        },
        _ => false,
    }
}

/// What holds of every state a run passes through.
pub open spec fn well_formed(s: RunModel) -> bool {
    &&& (s.phase != Phase::Begin && s.phase != Phase::PreExport && s.phase != Phase::Finished)
        ==> export_counts(s.pre_bytes) == Some(s.pre_counts)
    &&& (s.phase == Phase::Stopping || s.phase == Phase::Script || s.phase == Phase::ScriptRestart
        || s.phase == Phase::Starting) ==> s.guard_armed
    &&& (s.phase != Phase::Stopping && s.phase != Phase::Script && s.phase != Phase::ScriptRestart
        && s.phase != Phase::Starting && s.phase != Phase::Finished) ==> !s.guard_armed
    &&& (s.phase == Phase::RollbackImport || s.phase == Phase::RollbackHealthy) ==> decreased(
        s.pre_counts,
        s.post_counts,
    ) && s.lost == loss(s.pre_counts, s.post_counts)
    &&& s.phase == Phase::PostVersion ==> !decreased(s.pre_counts, s.post_counts)
}


// ---------------------------------------------------------------------------
// The run
// ---------------------------------------------------------------------------
/// An update run in progress.
pub struct UpdateRun {
    phase: Phase,
    pre_bytes: Vec<u8>,
    pre_counts: Counts,
    pre_version: String,
    latest: Option<String>,
    skipped: bool,
    post_counts: Counts,
    lost: Counts,
    script_error: String,
    guard_armed: bool,
}

pub open spec fn opt_string(x: Option<String>) -> Option<Seq<char>> {
    match x {
        Some(s) => Some(s@),
        None => None,
    }
}

impl View for UpdateRun {
    type V = RunModel;

    closed spec fn view(&self) -> RunModel {
        RunModel {
            phase: self.phase,
            pre_bytes: self.pre_bytes@,
            pre_counts: self.pre_counts,
            pre_version: self.pre_version@,
            latest: opt_string(self.latest),
            skipped: self.skipped,
            post_counts: self.post_counts,
            lost: self.lost,
            script_error: self.script_error@,
            guard_armed: self.guard_armed,
        }
    }
}

fn zero_counts() -> (c: Counts)
    ensures
        c == (Counts { connections: 0, pages_with_content: 0, buttons: 0, triggers: 0 }),
{
    Counts { connections: 0, pages_with_content: 0, buttons: 0, triggers: 0 }
}

fn copy_bytes(v: &Vec<u8>) -> (r: Vec<u8>)
    ensures
        r@ == v@,
{
    let mut r: Vec<u8> = Vec::new();
    let mut i: usize = 0;
    while i < v.len()
        invariant
            i <= v.len(),
            r@ == v@.take(i as int),
        decreases v.len() - i,
    {
        r.push(v[i]);
        i = i + 1;
        assert(r@ =~= v@.take(i as int));
    }
    assert(v@.take(v.len() as int) =~= v@);
    r
}

fn copy_opt(x: &Option<String>) -> (r: Option<String>)
    ensures
        opt_string(r) == opt_string(*x),
{
    match x {
        Some(s) => Some(s.clone()),
        None => None,
    }
}

fn no_events() -> (v: Vec<UpdateEvent>)
    ensures
        v@.map_values(|e: UpdateEvent| e@) == Seq::<EventModel>::empty(),
{
    let v: Vec<UpdateEvent> = Vec::new();
    assert(v@.map_values(|e: UpdateEvent| e@) =~= Seq::<EventModel>::empty());
    v
}

fn one_event(a: UpdateEvent) -> (v: Vec<UpdateEvent>)
    ensures
        v@.map_values(|e: UpdateEvent| e@) == seq![a@],
{
    let mut v: Vec<UpdateEvent> = Vec::new();
    let ghost ga = a@;
    v.push(a);
    assert(v@.map_values(|e: UpdateEvent| e@) =~= seq![ga]);
    v
}

fn two_events(a: UpdateEvent, b: UpdateEvent) -> (v: Vec<UpdateEvent>)
    ensures
        v@.map_values(|e: UpdateEvent| e@) == seq![a@, b@],
{
    let mut v: Vec<UpdateEvent> = Vec::new();
    let ghost (ga, gb) = (a@, b@);
    v.push(a);
    v.push(b);
    assert(v@.map_values(|e: UpdateEvent| e@) =~= seq![ga, gb]);
    v
}

fn progress(text: &str) -> (e: UpdateEvent)
    ensures
        e@ == EventModel::Progress(text@),
{
    UpdateEvent::Progress { message: String::from_str(text) }
}

fn error_event(message: String) -> (e: UpdateEvent)
    ensures
        e@ == EventModel::Error(message@),
{
    UpdateEvent::Error { message }
}

/// The progress line announcing a rollback.
fn data_loss_text(lost: Counts) -> (res: String)
    ensures
        res@ == data_loss_message(lost),
{
    let mut out = String::from_str("Data loss detected (lost ");
    let c = decimal_string(lost.connections as u64);
    let b = decimal_string(lost.buttons as u64);
    let t = decimal_string(lost.triggers as u64);
    out.append(c.as_str());
    out.append(" connections, ");
    out.append(b.as_str());
    out.append(" buttons, ");
    out.append(t.as_str());
    out.append(" triggers). Rolling back...");
    out
}

/// The summary of a run whose outcome is not a failure.
fn summary_text(pre: &str, new: &str, outcome: &Outcome) -> (res: String)
    requires
        !(outcome@ is Failed),
    ensures
        res@ == summary(pre@, new@, outcome@),
{
    let fnew = crate::version::format(new);
    match outcome {
        Outcome::Applied { still_behind } => {
            let fpre = crate::version::format(pre);
            let mut out = String::from_str("Update complete. Now running ");
            out.append(fnew.as_str());
            out.append(" (was ");
            out.append(fpre.as_str());
            out.append(")");
            match still_behind {
                Some(l) => {
                    out.append(" — note: ");
                    out.append(l.as_str());
                    out.append(" is available, still behind");
                },
                None => {
                    assert(out@ + Seq::<char>::empty() =~= out@);
                },
            }
            out
        },
        _ => join("Nothing to install — already running the latest build ", fnew.as_str()),
    }
}

/// The state of a run that has not started: waiting for the start, nothing
/// recorded, all counts zero, the guard not armed.
pub open spec fn initial_run() -> RunModel {
    RunModel {
        phase: Phase::Begin,
        pre_bytes: Seq::empty(),
        pre_counts: Counts { connections: 0, pages_with_content: 0, buttons: 0, triggers: 0 },
        pre_version: Seq::empty(),
        latest: None,
        skipped: false,
        post_counts: Counts { connections: 0, pages_with_content: 0, buttons: 0, triggers: 0 },
        lost: Counts { connections: 0, pages_with_content: 0, buttons: 0, triggers: 0 },
        script_error: Seq::empty(),
        guard_armed: false,
    }
}

impl UpdateRun {
    #[verifier::type_invariant]
    closed spec fn inv(self) -> bool {
        well_formed(self@)
    }

    /// A run that has not started.
    pub fn new() -> (r: UpdateRun)
        ensures
            r@ == initial_run(),
            well_formed(r@),
    {
        let run = UpdateRun {
            phase: Phase::Begin,
            pre_bytes: Vec::new(),
            pre_counts: zero_counts(),
            pre_version: String::new(),
            latest: None,
            skipped: false,
            post_counts: zero_counts(),
            lost: zero_counts(),
            script_error: String::new(),
            guard_armed: false,
        };
        assert(run@.pre_bytes =~= Seq::<u8>::empty());
        assert(run@.pre_version =~= Seq::<char>::empty());
        assert(run@.script_error =~= Seq::<char>::empty());
        run
    }

    /// Where the run stands.
    pub fn phase(&self) -> (p: Phase)
        ensures
            p == self@.phase,
            well_formed(self@),
    {
        proof {
            use_type_invariant(self);
        }
        self.phase
    }

    /// Whether `reply` is the kind of result the run waits for.
    pub fn expects(&self, reply: &Reply) -> (b: bool)
        ensures
            b == accepts(self@.phase, reply@),
    {
        match (self.phase, reply) {
            (Phase::Begin, Reply::Start) => true,
            (Phase::PreExport, Reply::Export(_)) => true,
            (Phase::PostExport, Reply::Export(_)) => true,
            (Phase::PreSave, Reply::Saved(_)) => true,
            (Phase::PreVersion, Reply::Version(_)) => true,
            (Phase::PostVersion, Reply::Version(_)) => true,
            (Phase::Latest, Reply::Latest(_)) => true,
            (Phase::Installer, Reply::InstallerUpdated) => true,
            (Phase::Stopping, Reply::Service(_)) => true,
            (Phase::ScriptRestart, Reply::Service(_)) => true,
            (Phase::Starting, Reply::Service(_)) => true,
            (Phase::Script, Reply::Script(_)) => true,
            (Phase::Healthy, Reply::Healthy(_)) => true,
            (Phase::RollbackHealthy, Reply::Healthy(_)) => true,
            (Phase::RollbackImport, Reply::Imported(_)) => true,
            _ => false,
        }
    }

    /// A copy of this run in phase `phase`, with the guard flag `armed`.
    fn moved_to(&self, phase: Phase, armed: bool) -> (r: UpdateRun)
        requires
            well_formed(RunModel { phase, guard_armed: armed, ..self@ }),
        ensures
            r@ == (RunModel { phase, guard_armed: armed, ..self@ }),
    {
        UpdateRun {
            phase,
            pre_bytes: copy_bytes(&self.pre_bytes),
            pre_counts: self.pre_counts,
            pre_version: self.pre_version.clone(),
            latest: copy_opt(&self.latest),
            skipped: self.skipped,
            post_counts: self.post_counts,
            lost: self.lost,
            script_error: self.script_error.clone(),
            guard_armed: armed,
        }
    }

    /// Ends the run in failure after reporting `message`.
    fn fail_with(&mut self, message: String) -> (st: Step)
        ensures
            fails(old(self)@, message@, final(self)@, st@),
    {
        let armed = self.guard_armed;
        *self = self.moved_to(Phase::Finished, armed);
        Step {
            events: one_event(error_event(message)),
            guard: GuardAction::Keep,
            request: Request::Finish(false),
        }
    }

    /// Decide the next step of the run from the result of the last request.
    pub fn step(&mut self, reply: Reply) -> (st: Step)
        requires
            accepts(old(self)@.phase, reply@),
        ensures
            transition(old(self)@, reply@, final(self)@, st@),
            well_formed(final(self)@),
    {
        proof {
            use_type_invariant(&*self);
        }
        let st = match reply {
            Reply::Start => {
                *self = self.moved_to(Phase::PreExport, false);
                Step {
                    events: one_event(progress("Taking pre-upgrade snapshot...")),
                    guard: GuardAction::Keep,
                    request: Request::FetchExport,
                }
            },
            Reply::Export(Err(e)) => {
                if self.phase == Phase::PreExport {
                    self.fail_with(join("pre-upgrade snapshot failed: ", e.as_str()))
                } else {
                    self.fail_with(join("post-upgrade snapshot failed: ", e.as_str()))
                }
            },
            Reply::Export(Ok(bytes)) => self.on_export(bytes),
            Reply::Saved(Err(e)) => self.fail_with(
                join("could not persist pre-upgrade snapshot: ", e.as_str()),
            ),
            Reply::Saved(Ok(())) => {
                let counts = self.pre_counts;
                *self = self.moved_to(Phase::PreVersion, false);
                Step {
                    events: one_event(UpdateEvent::SafetyPre { counts }),
                    guard: GuardAction::Keep,
                    request: Request::ReadVersion,
                }
            },
            Reply::Version(r) => self.on_version(r),
            Reply::Latest(r) => {
                let (latest, events) = match r {
                    Ok(l) => (Some(l), no_events()),
                    Err(e) => (
                        None,
                        one_event(
                            UpdateEvent::Progress {
                                message: join(
                                    "WARNING: could not fetch the list of available builds: ",
                                    e.as_str(),
                                ),
                            },
                        ),
                    ),
                };
                *self = UpdateRun {
                    phase: Phase::Installer,
                    pre_bytes: copy_bytes(&self.pre_bytes),
                    pre_counts: self.pre_counts,
                    pre_version: self.pre_version.clone(),
                    latest,
                    skipped: self.skipped,
                    post_counts: self.post_counts,
                    lost: self.lost,
                    script_error: self.script_error.clone(),
                    guard_armed: false,
                };
                Step { events, guard: GuardAction::Keep, request: Request::UpdateInstaller }
            },
            Reply::InstallerUpdated => {
                *self = self.moved_to(Phase::Stopping, true);
                Step {
                    events: one_event(progress("Stopping companion service...")),
                    guard: GuardAction::Arm,
                    request: Request::StopCompanion,
                }
            },
            Reply::Service(r) => self.on_service(r),
            Reply::Script(Ok(skipped)) => {
                *self = UpdateRun {
                    phase: Phase::Starting,
                    pre_bytes: copy_bytes(&self.pre_bytes),
                    pre_counts: self.pre_counts,
                    pre_version: self.pre_version.clone(),
                    latest: copy_opt(&self.latest),
                    skipped,
                    post_counts: self.post_counts,
                    lost: self.lost,
                    script_error: self.script_error.clone(),
                    guard_armed: true,
                };
                Step {
                    events: one_event(progress("Starting companion service...")),
                    guard: GuardAction::Keep,
                    request: Request::StartCompanion,
                }
            },
            Reply::Script(Err(e)) => {
                *self = UpdateRun {
                    phase: Phase::ScriptRestart,
                    pre_bytes: copy_bytes(&self.pre_bytes),
                    pre_counts: self.pre_counts,
                    pre_version: self.pre_version.clone(),
                    latest: copy_opt(&self.latest),
                    skipped: self.skipped,
                    post_counts: self.post_counts,
                    lost: self.lost,
                    script_error: e,
                    guard_armed: true,
                };
                Step {
                    events: one_event(progress("Update script failed — restarting Companion...")),
                    guard: GuardAction::Keep,
                    request: Request::StartCompanion,
                }
            },
            Reply::Healthy(Err(e)) => {
                if self.phase == Phase::Healthy {
                    self.fail_with(join("Companion did not return to healthy: ", e.as_str()))
                } else {
                    self.fail_with(
                        join("Companion did not return to healthy after rollback: ", e.as_str()),
                    )
                }
            },
            Reply::Healthy(Ok(())) => {
                if self.phase == Phase::Healthy {
                    *self = self.moved_to(Phase::PostExport, false);
                    Step {
                        events: one_event(progress("Taking post-upgrade snapshot...")),
                        guard: GuardAction::Keep,
                        request: Request::FetchExport,
                    }
                } else {
                    let lost = self.lost;
                    *self = self.moved_to(Phase::Finished, false);
                    Step {
                        events: one_event(
                            UpdateEvent::SafetyRollback {
                                message: String::from_str(
                                    "Data loss detected; rolled back to pre-upgrade state.",
                                ),
                                lost,
                            },
                        ),
                        guard: GuardAction::Keep,
                        request: Request::Finish(false),
                    }
                }
            },
            Reply::Imported(Err(e)) => self.fail_with(join("rollback import failed: ", e.as_str())),
            Reply::Imported(Ok(())) => {
                *self = self.moved_to(Phase::RollbackHealthy, false);
                Step {
                    events: no_events(),
                    guard: GuardAction::Keep,
                    request: Request::WaitHealthy,
                }
            },
        };
        proof {
            use_type_invariant(&*self);
        }
        st
    }

    /// An export arrived, before or after the upgrade.
    fn on_export(&mut self, bytes: Vec<u8>) -> (st: Step)
        requires
            old(self)@.phase == Phase::PreExport || old(self)@.phase == Phase::PostExport,
        ensures
            transition(old(self)@, ReplyModel::Export(Ok(bytes@)), final(self)@, st@),
    {
        proof {
            use_type_invariant(&*self);
        }
        let pre = self.phase == Phase::PreExport;
        match count_from_json(bytes.as_slice()) {
            Err(m) => {
                let st = if pre {
                    self.fail_with(join("pre-upgrade parse failed: ", m.as_str()))
                } else {
                    self.fail_with(join("post-upgrade parse failed: ", m.as_str()))
                };
                st
            },
            Ok(c) => {
                if pre {
                    let request = Request::SaveSnapshot(copy_bytes(&bytes));
                    *self = UpdateRun {
                        phase: Phase::PreSave,
                        pre_bytes: bytes,
                        pre_counts: c,
                        pre_version: self.pre_version.clone(),
                        latest: copy_opt(&self.latest),
                        skipped: self.skipped,
                        post_counts: self.post_counts,
                        lost: self.lost,
                        script_error: self.script_error.clone(),
                        guard_armed: false,
                    };
                    Step { events: no_events(), guard: GuardAction::Keep, request }
                } else if self.pre_counts.any_decreased(&c) {
                    let lost = self.pre_counts.lost(&c);
                    let request = Request::ImportSnapshot(copy_bytes(&self.pre_bytes));
                    let events = two_events(
                        UpdateEvent::SafetyPost { counts: c },
                        UpdateEvent::Progress { message: data_loss_text(lost) },
                    );
                    *self = UpdateRun {
                        phase: Phase::RollbackImport,
                        pre_bytes: copy_bytes(&self.pre_bytes),
                        pre_counts: self.pre_counts,
                        pre_version: self.pre_version.clone(),
                        latest: copy_opt(&self.latest),
                        skipped: self.skipped,
                        post_counts: c,
                        lost,
                        script_error: self.script_error.clone(),
                        guard_armed: false,
                    };
                    Step { events, guard: GuardAction::Keep, request }
                } else {
                    *self = UpdateRun {
                        phase: Phase::PostVersion,
                        pre_bytes: copy_bytes(&self.pre_bytes),
                        pre_counts: self.pre_counts,
                        pre_version: self.pre_version.clone(),
                        latest: copy_opt(&self.latest),
                        skipped: self.skipped,
                        post_counts: c,
                        lost: self.lost,
                        script_error: self.script_error.clone(),
                        guard_armed: false,
                    };
                    Step {
                        events: one_event(UpdateEvent::SafetyPost { counts: c }),
                        guard: GuardAction::Keep,
                        request: Request::ReadVersion,
                    }
                }
            },
        }
    }

    /// The installed version was read, before or after the upgrade.
    fn on_version(&mut self, r: Result<String, String>) -> (st: Step)
        requires
            old(self)@.phase == Phase::PreVersion || old(self)@.phase == Phase::PostVersion,
        ensures
            transition(
                old(self)@,
                ReplyModel::Version(
                    match r {
                        Ok(v) => Ok(v@),
                        Err(e) => Err(e@),
                    },
                ),
                final(self)@,
                st@,
            ),
    {
        proof {
            use_type_invariant(&*self);
        }
        if self.phase == Phase::PreVersion {
            match r {
                Err(e) => self.fail_with(join("cannot read installed version: ", e.as_str())),
                Ok(v) => {
                    *self = UpdateRun {
                        phase: Phase::Latest,
                        pre_bytes: copy_bytes(&self.pre_bytes),
                        pre_counts: self.pre_counts,
                        pre_version: v,
                        latest: copy_opt(&self.latest),
                        skipped: self.skipped,
                        post_counts: self.post_counts,
                        lost: self.lost,
                        script_error: self.script_error.clone(),
                        guard_armed: false,
                    };
                    Step {
                        events: no_events(),
                        guard: GuardAction::Keep,
                        request: Request::FetchLatest,
                    }
                },
            }
        } else {
            match r {
                Err(e) => self.fail_with(
                    join3(
                        "Cannot verify the update: the installed version could not be read after the run (",
                        e.as_str(),
                        "). Your configuration was left untouched.",
                    ),
                ),
                Ok(new) => {
                    let latest = match &self.latest {
                        Some(l) => Some(l.as_str()),
                        None => None,
                    };
                    let outcome = classify_outcome(
                        self.pre_version.as_str(),
                        new.as_str(),
                        latest,
                        self.skipped,
                    );
                    match outcome {
                        Outcome::Failed(m) => self.fail_with(
                            join(m.as_str(), " Your configuration was left untouched."),
                        ),
                        _ => {
                            let message = summary_text(self.pre_version.as_str(), new.as_str(), &outcome);
                            let diff = self.post_counts.lost(&self.pre_counts);
                            *self = self.moved_to(Phase::Finished, false);
                            Step {
                                events: one_event(
                                    UpdateEvent::Complete { message, diff: Some(diff) },
                                ),
                                guard: GuardAction::Keep,
                                request: Request::Finish(true),
                            }
                        },
                    }
                },
            }
        }
    }

    /// `systemctl` answered, after a stop or a start.
    fn on_service(&mut self, r: Result<(), String>) -> (st: Step)
        requires
            old(self)@.phase == Phase::Stopping || old(self)@.phase == Phase::ScriptRestart
                || old(self)@.phase == Phase::Starting,
        ensures
            transition(old(self)@, ReplyModel::Service(unit_result(r)), final(self)@, st@),
    {
        proof {
            use_type_invariant(&*self);
        }
        match (self.phase, r) {
            (Phase::Stopping, Err(e)) => {
                *self = self.moved_to(Phase::Finished, false);
                Step {
                    events: one_event(error_event(e)),
                    guard: GuardAction::Disarm,
                    request: Request::Finish(false),
                }
            },
            (Phase::Stopping, Ok(())) => {
                *self = self.moved_to(Phase::Script, true);
                Step {
                    events: one_event(progress("Starting update (stable channel)...")),
                    guard: GuardAction::Keep,
                    request: Request::RunScript,
                }
            },
            (Phase::ScriptRestart, Ok(())) => {
                let message = join(self.script_error.as_str(), " (Companion was restarted.)");
                *self = self.moved_to(Phase::Finished, false);
                Step {
                    events: one_event(error_event(message)),
                    guard: GuardAction::Disarm,
                    request: Request::Finish(false),
                }
            },
            (Phase::ScriptRestart, Err(e)) => {
                let mut m = String::from_str(
                    "COMPANION IS STOPPED — start it manually: sudo systemctl start companion. ",
                );
                m.append("Update failed: ");
                m.append(self.script_error.as_str());
                m.append(". Restart also failed: ");
                m.append(e.as_str());
                self.fail_with(m)
            },
            (_, Err(e)) => {
                let mut m = String::from_str(
                    "COMPANION IS STOPPED — start it manually: sudo systemctl start companion. ",
                );
                m.append("Cause: ");
                m.append(e.as_str());
                self.fail_with(m)
            },
            (_, Ok(())) => {
                *self = self.moved_to(Phase::Healthy, false);
                Step {
                    events: no_events(),
                    guard: GuardAction::Disarm,
                    request: Request::WaitHealthy,
                }
            },
        }
    }
}

// ---------------------------------------------------------------------------
// Laws
// ---------------------------------------------------------------------------
/// Every step keeps the run well formed.
pub proof fn law_step_keeps_well_formed(s: RunModel, r: ReplyModel, t: RunModel, st: StepModel)
    requires
        well_formed(s),
        transition(s, r, t, st),
    ensures
        well_formed(t),
{
}

/// A run reports success only after a verified upgrade: it was waiting for
/// the installed version after the upgrade, no count had decreased, the
/// versions show an install (or that nothing newer exists), and the last
/// event is `Complete`.
pub proof fn law_success_is_verified(s: RunModel, r: ReplyModel, t: RunModel, st: StepModel)
    requires
        well_formed(s),
        transition(s, r, t, st),
        st.request == RequestModel::Finish(true),
    ensures
        s.phase == Phase::PostVersion,
        !decreased(s.pre_counts, s.post_counts),
        r matches ReplyModel::Version(Ok(new)) && !(outcome_of(
            s.pre_version,
            new,
            s.latest,
            s.skipped,
        ) is Failed),
        st.events.len() == 1 && st.events[0] is Complete,
        t.phase == Phase::Finished,
        !t.guard_armed,
{
}

/// When a count decreased between the snapshots, the run imports exactly the
/// pre-upgrade export back (the bytes whose counts were taken before).
pub proof fn law_loss_triggers_rollback(s: RunModel, b: Seq<u8>, t: RunModel, st: StepModel)
    requires
        well_formed(s),
        s.phase == Phase::PostExport,
        transition(s, ReplyModel::Export(Ok(b)), t, st),
        export_counts(b) matches Some(c) && decreased(s.pre_counts, c),
    ensures
        st.request == RequestModel::ImportSnapshot(s.pre_bytes),
        export_counts(s.pre_bytes) == Some(s.pre_counts),
        t.phase == Phase::RollbackImport,
        t.lost == loss(s.pre_counts, export_counts(b)->0),
{
}

/// Once a rollback has begun, the run never reports success.
pub proof fn law_rollback_never_succeeds(s: RunModel, r: ReplyModel, t: RunModel, st: StepModel)
    requires
        s.phase == Phase::RollbackImport || s.phase == Phase::RollbackHealthy,
        transition(s, r, t, st),
    ensures
        st.request != RequestModel::Finish(true),
        t.phase == Phase::RollbackHealthy || t.phase == Phase::Finished,
{
}

/// The guard that restarts Companion is released only after Companion was
/// started again, or when stopping it failed.
pub proof fn law_guard_released_only_when_running(
    s: RunModel,
    r: ReplyModel,
    t: RunModel,
    st: StepModel,
)
    requires
        transition(s, r, t, st),
        st.guard == GuardAction::Disarm,
    ensures
        ((s.phase == Phase::Starting || s.phase == Phase::ScriptRestart) && (r matches ReplyModel::Service(Ok(_))))
            || (s.phase == Phase::Stopping && (r matches ReplyModel::Service(Err(_)))),
{
}

/// An armed guard stays armed until a step releases it; a run that ends with
/// it armed is one whose restart of Companion failed, so the guard's own
/// restart still runs.
pub proof fn law_guard_kept_while_down(s: RunModel, r: ReplyModel, t: RunModel, st: StepModel)
    requires
        well_formed(s),
        transition(s, r, t, st),
    ensures
        s.guard_armed && s.phase != Phase::Finished ==> t.guard_armed || st.guard
            == GuardAction::Disarm,
        t.phase == Phase::Finished && t.guard_armed ==> ((s.phase == Phase::Starting || s.phase
            == Phase::ScriptRestart) && (r matches ReplyModel::Service(Err(_)))),
        st.guard == GuardAction::Arm ==> s.phase == Phase::Installer && st.request
            == RequestModel::StopCompanion,
{
}

/// Every run that ends says why: a success ends with `Complete`, a failure
/// with `Error` or `SafetyRollback`.
pub proof fn law_finish_is_reported(s: RunModel, r: ReplyModel, t: RunModel, st: StepModel)
    requires
        transition(s, r, t, st),
        st.request is Finish,
    ensures
        t.phase == Phase::Finished,
        st.events.len() == 1,
        st.request == RequestModel::Finish(true) ==> st.events[0] is Complete,
        st.request == RequestModel::Finish(false) ==> st.events[0] is Error
            || st.events[0] is SafetyRollback,
{
}

/// A run always waits for what it asked for: a run that has not started
/// accepts the start, and after every step the result of the request it
/// made, of whatever outcome, is accepted by the phase it moved to. A step
/// finishes the run exactly when it moves to `Finished`, which accepts
/// nothing more.
pub proof fn law_reply_to_request_is_accepted(
    s: RunModel,
    r: ReplyModel,
    t: RunModel,
    st: StepModel,
    next: ReplyModel,
)
    requires
        transition(s, r, t, st),
    ensures
        accepts(initial_run().phase, ReplyModel::Start),
        answers(st.request, next) ==> accepts(t.phase, next),
        st.request is Finish <==> t.phase == Phase::Finished,
{
}

/// The latest build a run compares against comes only from the reply to its
/// fetch: a failed fetch leaves it unknown (it is never filled in with the
/// installed version or anything else), a successful one records the build
/// fetched, and no other step changes it.
pub proof fn law_latest_only_from_fetch(s: RunModel, r: ReplyModel, t: RunModel, st: StepModel)
    requires
        transition(s, r, t, st),
    ensures
        s.phase == Phase::Latest ==> (r matches ReplyModel::Latest(Err(_)) ==> t.latest is None),
        s.phase == Phase::Latest ==> (r matches ReplyModel::Latest(Ok(l)) ==> t.latest == Some(l)),
        s.phase != Phase::Latest ==> t.latest == s.latest,
{
}

/// A run reports success only with proof: the installed version went up, or
/// it is unchanged and not older than a latest build that was actually
/// fetched. So a run whose installed version did not move and whose latest
/// build is unknown ends in an error, never in `Complete`, and does not
/// start the cooldown.
pub proof fn law_unverified_run_never_succeeds(
    s: RunModel,
    r: ReplyModel,
    t: RunModel,
    st: StepModel,
)
    requires
        transition(s, r, t, st),
    ensures
        st.request == RequestModel::Finish(true) ==> s.phase == Phase::PostVersion && (
        r matches ReplyModel::Version(Ok(new)) && (version_lt(s.pre_version, new) || (
        s.latest is Some && !version_lt(new, s.latest->0)))),
        (s.phase == Phase::PostVersion && s.latest is None) ==> (r matches ReplyModel::Version(
            Ok(new),
        ) ==> (!version_lt(s.pre_version, new) ==> (st.request == RequestModel::Finish(false)
            && st.events.len() == 1 && st.events[0] is Error))),
{
}

} // verus!
