use companion_updater::run::{GuardAction, Phase, Reply, Request, Step, UpdateRun};
use companion_updater::safety::Counts;
use companion_updater::update::UpdateEvent;

const PRE: &[u8] = br#"{"instances":{"a":{},"b":{}},"pages":[{"controls":{"0":{"0":"x","1":"y"}}}],"triggers":{"t":{}}}"#;
const SAME: &[u8] = br#"{"instances":{"a":{},"b":{},"c":{}},"pages":[{"controls":{"0":{"0":"x","1":"y"}}}],"triggers":{"t":{}}}"#;
const FEWER: &[u8] = br#"{"instances":{"a":{},"b":{}},"pages":[{"controls":{"0":{"0":"x"}}}],"triggers":{"t":{}}}"#;

fn feed(run: &mut UpdateRun, reply: Reply) -> Step {
    assert!(run.expects(&reply), "reply not expected in {:?}", run.phase());
    run.step(reply)
}

fn messages(step: &Step) -> Vec<String> {
    step.events
        .iter()
        .map(|e| match e {
            UpdateEvent::Progress { message } => format!("progress: {message}"),
            UpdateEvent::Complete { message, .. } => format!("complete: {message}"),
            UpdateEvent::Error { message } => format!("error: {message}"),
            UpdateEvent::SafetyPre { counts } => format!("pre: {}", counts.buttons),
            UpdateEvent::SafetyPost { counts } => format!("post: {}", counts.buttons),
            UpdateEvent::SafetyRollback { message, lost } => {
                format!("rollback: {message} {}", lost.buttons)
            }
        })
        .collect()
}

/// Drives a run up to the post-upgrade export.
fn run_until_post_export(latest: Result<String, String>, skipped: bool) -> UpdateRun {
    let mut run = UpdateRun::new();
    let s = feed(&mut run, Reply::Start);
    assert!(matches!(s.request, Request::FetchExport));
    assert_eq!(messages(&s), vec!["progress: Taking pre-upgrade snapshot..."]);
    let s = feed(&mut run, Reply::Export(Ok(PRE.to_vec())));
    match &s.request {
        Request::SaveSnapshot(b) => assert_eq!(b.as_slice(), PRE),
        _ => panic!("expected SaveSnapshot"),
    }
    let s = feed(&mut run, Reply::Saved(Ok(())));
    assert_eq!(messages(&s), vec!["pre: 2"]);
    assert!(matches!(s.request, Request::ReadVersion));
    let s = feed(&mut run, Reply::Version(Ok("4.3.4".to_string())));
    assert!(matches!(s.request, Request::FetchLatest));
    let s = feed(&mut run, Reply::Latest(latest));
    assert!(matches!(s.request, Request::UpdateInstaller));
    let s = feed(&mut run, Reply::InstallerUpdated);
    assert_eq!(s.guard, GuardAction::Arm);
    assert!(matches!(s.request, Request::StopCompanion));
    let s = feed(&mut run, Reply::Service(Ok(())));
    assert!(matches!(s.request, Request::RunScript));
    let s = feed(&mut run, Reply::Script(Ok(skipped)));
    assert!(matches!(s.request, Request::StartCompanion));
    let s = feed(&mut run, Reply::Service(Ok(())));
    assert_eq!(s.guard, GuardAction::Disarm);
    assert!(matches!(s.request, Request::WaitHealthy));
    let s = feed(&mut run, Reply::Healthy(Ok(())));
    assert!(matches!(s.request, Request::FetchExport));
    assert_eq!(run.phase(), Phase::PostExport);
    run
}

#[test]
fn successful_run_reports_complete_with_gains() {
    let mut run = run_until_post_export(Ok("v5.0.2".to_string()), false);
    let s = feed(&mut run, Reply::Export(Ok(SAME.to_vec())));
    assert_eq!(messages(&s), vec!["post: 2"]);
    assert!(matches!(s.request, Request::ReadVersion));
    let s = feed(&mut run, Reply::Version(Ok("5.0.2+9665".to_string())));
    assert!(matches!(s.request, Request::Finish(true)));
    match &s.events[0] {
        UpdateEvent::Complete { message, diff } => {
            assert_eq!(message, "Update complete. Now running v5.0.2 (was v4.3.4)");
            assert_eq!(
                *diff,
                Some(Counts { connections: 1, pages_with_content: 0, buttons: 0, triggers: 0 })
            );
        }
        _ => panic!("expected Complete"),
    }
    assert_eq!(run.phase(), Phase::Finished);
}

#[test]
fn run_that_lands_behind_latest_says_so() {
    let mut run = run_until_post_export(Ok("v5.0.2".to_string()), false);
    feed(&mut run, Reply::Export(Ok(PRE.to_vec())));
    let s = feed(&mut run, Reply::Version(Ok("4.3.5".to_string())));
    assert_eq!(
        messages(&s),
        vec!["complete: Update complete. Now running v4.3.5 (was v4.3.4) — note: v5.0.2 is available, still behind"]
    );
}

#[test]
fn unchanged_version_is_an_error_not_success() {
    let mut run = run_until_post_export(Ok("v5.0.2".to_string()), true);
    feed(&mut run, Reply::Export(Ok(PRE.to_vec())));
    let s = feed(&mut run, Reply::Version(Ok("4.3.4".to_string())));
    assert!(matches!(s.request, Request::Finish(false)));
    assert_eq!(
        messages(&s),
        vec!["error: Update did NOT apply: still running v4.3.4 while v5.0.2 is available — the companion-pi installer reported it had no matching build to install (its version whitelist may not cover this release yet). Your configuration was left untouched."]
    );
}

#[test]
fn already_latest_is_a_success() {
    let mut run = run_until_post_export(Ok("v4.3.4".to_string()), true);
    feed(&mut run, Reply::Export(Ok(PRE.to_vec())));
    let s = feed(&mut run, Reply::Version(Ok("4.3.4".to_string())));
    assert!(matches!(s.request, Request::Finish(true)));
    assert_eq!(
        messages(&s),
        vec!["complete: Nothing to install — already running the latest build v4.3.4"]
    );
}

#[test]
fn data_loss_rolls_back_to_the_pre_upgrade_export() {
    let mut run = run_until_post_export(Err("offline".to_string()), false);
    let s = feed(&mut run, Reply::Export(Ok(FEWER.to_vec())));
    assert_eq!(
        messages(&s),
        vec![
            "post: 1",
            "progress: Data loss detected (lost 0 connections, 1 buttons, 0 triggers). Rolling back..."
        ]
    );
    match &s.request {
        Request::ImportSnapshot(b) => assert_eq!(b.as_slice(), PRE),
        _ => panic!("expected ImportSnapshot"),
    }
    let s = feed(&mut run, Reply::Imported(Ok(())));
    assert!(matches!(s.request, Request::WaitHealthy));
    let s = feed(&mut run, Reply::Healthy(Ok(())));
    assert!(matches!(s.request, Request::Finish(false)));
    assert_eq!(
        messages(&s),
        vec!["rollback: Data loss detected; rolled back to pre-upgrade state. 1"]
    );
}

#[test]
fn failed_rollback_import_is_an_error() {
    let mut run = run_until_post_export(Ok("v5".to_string()), false);
    feed(&mut run, Reply::Export(Ok(FEWER.to_vec())));
    let s = feed(&mut run, Reply::Imported(Err("HTTP 500".to_string())));
    assert!(matches!(s.request, Request::Finish(false)));
    assert_eq!(messages(&s), vec!["error: rollback import failed: HTTP 500"]);
}

#[test]
fn unreadable_pre_export_stops_the_run() {
    let mut run = UpdateRun::new();
    feed(&mut run, Reply::Start);
    let s = feed(&mut run, Reply::Export(Ok(b"not json".to_vec())));
    assert!(matches!(s.request, Request::Finish(false)));
    let m = messages(&s);
    assert!(m[0].starts_with("error: pre-upgrade parse failed: parse companionconfig: "), "{m:?}");
}

#[test]
fn failed_export_fetch_stops_the_run() {
    let mut run = UpdateRun::new();
    feed(&mut run, Reply::Start);
    let s = feed(&mut run, Reply::Export(Err("connection refused".to_string())));
    assert_eq!(messages(&s), vec!["error: pre-upgrade snapshot failed: connection refused"]);
    assert!(!run.expects(&Reply::Start));
}

#[test]
fn latest_unknown_is_a_warning_only() {
    let mut run = UpdateRun::new();
    feed(&mut run, Reply::Start);
    feed(&mut run, Reply::Export(Ok(PRE.to_vec())));
    feed(&mut run, Reply::Saved(Ok(())));
    feed(&mut run, Reply::Version(Ok("4.3.4".to_string())));
    let s = feed(&mut run, Reply::Latest(Err("timeout".to_string())));
    assert_eq!(
        messages(&s),
        vec!["progress: WARNING: could not fetch the list of available builds: timeout"]
    );
    assert!(matches!(s.request, Request::UpdateInstaller));
}

#[test]
fn script_failure_restarts_companion() {
    let mut run = UpdateRun::new();
    for reply in [
        Reply::Start,
        Reply::Export(Ok(PRE.to_vec())),
        Reply::Saved(Ok(())),
        Reply::Version(Ok("4.3.4".to_string())),
        Reply::Latest(Ok("v5".to_string())),
        Reply::InstallerUpdated,
        Reply::Service(Ok(())),
    ] {
        feed(&mut run, reply);
    }
    let s = feed(&mut run, Reply::Script(Err("update.sh exited with 3".to_string())));
    assert_eq!(messages(&s), vec!["progress: Update script failed — restarting Companion..."]);
    assert!(matches!(s.request, Request::StartCompanion));
    let s = feed(&mut run, Reply::Service(Ok(())));
    assert_eq!(s.guard, GuardAction::Disarm);
    assert_eq!(
        messages(&s),
        vec!["error: update.sh exited with 3 (Companion was restarted.)"]
    );
}

#[test]
fn failed_restart_keeps_the_guard() {
    let mut run = UpdateRun::new();
    for reply in [
        Reply::Start,
        Reply::Export(Ok(PRE.to_vec())),
        Reply::Saved(Ok(())),
        Reply::Version(Ok("4.3.4".to_string())),
        Reply::Latest(Ok("v5".to_string())),
        Reply::InstallerUpdated,
        Reply::Service(Ok(())),
        Reply::Script(Err("boom".to_string())),
    ] {
        feed(&mut run, reply);
    }
    let s = feed(&mut run, Reply::Service(Err("unit not found".to_string())));
    assert_eq!(s.guard, GuardAction::Keep);
    assert!(matches!(s.request, Request::Finish(false)));
    assert_eq!(
        messages(&s),
        vec!["error: COMPANION IS STOPPED — start it manually: sudo systemctl start companion. Update failed: boom. Restart also failed: unit not found"]
    );
}

#[test]
fn failed_stop_releases_the_guard() {
    let mut run = UpdateRun::new();
    for reply in [
        Reply::Start,
        Reply::Export(Ok(PRE.to_vec())),
        Reply::Saved(Ok(())),
        Reply::Version(Ok("4.3.4".to_string())),
        Reply::Latest(Ok("v5".to_string())),
        Reply::InstallerUpdated,
    ] {
        feed(&mut run, reply);
    }
    let s = feed(&mut run, Reply::Service(Err("systemctl stop companion exited with 1".to_string())));
    assert_eq!(s.guard, GuardAction::Disarm);
    assert_eq!(messages(&s), vec!["error: systemctl stop companion exited with 1"]);
}

#[test]
fn failed_start_after_script_keeps_the_guard() {
    let mut run = UpdateRun::new();
    for reply in [
        Reply::Start,
        Reply::Export(Ok(PRE.to_vec())),
        Reply::Saved(Ok(())),
        Reply::Version(Ok("4.3.4".to_string())),
        Reply::Latest(Ok("v5".to_string())),
        Reply::InstallerUpdated,
        Reply::Service(Ok(())),
        Reply::Script(Ok(false)),
    ] {
        feed(&mut run, reply);
    }
    let s = feed(&mut run, Reply::Service(Err("denied".to_string())));
    assert_eq!(s.guard, GuardAction::Keep);
    assert_eq!(
        messages(&s),
        vec!["error: COMPANION IS STOPPED — start it manually: sudo systemctl start companion. Cause: denied"]
    );
}

#[test]
fn unreadable_post_version_is_an_error() {
    let mut run = run_until_post_export(Ok("v5".to_string()), false);
    feed(&mut run, Reply::Export(Ok(SAME.to_vec())));
    let s = feed(&mut run, Reply::Version(Err("no such file".to_string())));
    assert_eq!(
        messages(&s),
        vec!["error: Cannot verify the update: the installed version could not be read after the run (no such file). Your configuration was left untouched."]
    );
}

#[test]
fn post_export_in_another_format_fails_closed() {
    let mut run = run_until_post_export(Ok("v5".to_string()), false);
    let s = feed(&mut run, Reply::Export(Ok(br#"[1,2]"#.to_vec())));
    assert!(matches!(s.request, Request::Finish(false)));
    assert_eq!(
        messages(&s),
        vec!["error: post-upgrade parse failed: companionconfig is not a JSON object"]
    );
    assert_eq!(run.phase(), Phase::Finished);
}
