use companion_updater::gate::{
    admit_update, can_update, cooldown_remaining, last_success_after_run, refusal_code,
    refusal_message, since_success, version_status, Refusal, UpdateGate, COOLDOWN_SECS,
};

#[test]
fn cooldown_counts_down_from_last_success() {
    assert_eq!(cooldown_remaining(None), 0);
    assert_eq!(cooldown_remaining(Some(0)), COOLDOWN_SECS);
    assert_eq!(cooldown_remaining(Some(100)), 200);
    assert_eq!(cooldown_remaining(Some(300)), 0);
    assert_eq!(cooldown_remaining(Some(10_000)), 0);
}

#[test]
fn admission_refuses_running_and_cooldown() {
    assert_eq!(admit_update(true, None), Err(Refusal::AlreadyRunning));
    assert_eq!(admit_update(false, Some(120)), Err(Refusal::Cooldown { wait_secs: 180 }));
    assert_eq!(admit_update(false, Some(300)), Ok(()));
    assert_eq!(admit_update(false, None), Ok(()));
}

#[test]
fn offer_matches_admission() {
    for running in [false, true] {
        for since in [None, Some(0), Some(1), Some(299), Some(300), Some(301)] {
            assert_eq!(can_update(since, running), admit_update(running, since).is_ok());
        }
    }
}

#[test]
fn refusal_messages() {
    assert_eq!(refusal_message(&Refusal::AlreadyRunning), "Update already in progress");
    assert_eq!(
        refusal_message(&Refusal::Cooldown { wait_secs: 42 }),
        "Cooldown active. Wait 42 seconds."
    );
}

#[test]
fn version_status_reports_both_versions() {
    let s = version_status(Ok("4.2.6+8823".to_string()), Ok("v4.3.1".to_string()));
    assert_eq!(s.current_version, "v4.2.6");
    assert_eq!(s.latest_version, "v4.3.1");
    assert!(s.update_available);
    assert_eq!(s.error, None);
}

#[test]
fn version_status_reports_read_failures() {
    let s = version_status(Err("no file".to_string()), Ok("v4.3.1".to_string()));
    assert_eq!(s.current_version, "unknown");
    assert_eq!(s.latest_version, "unknown");
    assert!(!s.update_available);
    assert_eq!(s.error.as_deref(), Some("Cannot read installed version: no file"));
    let s = version_status(Ok("4.2.6".to_string()), Err("timeout".to_string()));
    assert_eq!(s.current_version, "v4.2.6");
    assert_eq!(s.latest_version, "unknown");
    assert!(!s.update_available);
    assert_eq!(s.error.as_deref(), Some("Cannot fetch latest version: timeout"));
}

#[test]
fn only_a_successful_run_starts_the_cooldown() {
    assert_eq!(last_success_after_run(None, true, 1000), Some(1000));
    assert_eq!(last_success_after_run(Some(400), true, 1000), Some(1000));
    assert_eq!(last_success_after_run(None, false, 1000), None);
    assert_eq!(last_success_after_run(Some(400), false, 1000), Some(400));
    // After a failed run a retry is admitted at once.
    let last = last_success_after_run(None, false, 1000);
    assert_eq!(admit_update(false, since_success(last, 1001)), Ok(()));
    // After a successful one it waits out the cooldown.
    let last = last_success_after_run(None, true, 1000);
    assert_eq!(
        admit_update(false, since_success(last, 1100)),
        Err(Refusal::Cooldown { wait_secs: 200 })
    );
    assert_eq!(admit_update(false, since_success(last, 1300)), Ok(()));
}

#[test]
fn elapsed_time_never_goes_negative() {
    assert_eq!(since_success(None, 50), None);
    assert_eq!(since_success(Some(20), 50), Some(30));
    assert_eq!(since_success(Some(80), 50), Some(0));
}

#[test]
fn update_endpoint_admits_refuses_and_finishes() {
    let mut g = UpdateGate::new();
    assert_eq!(g.request_start(100), Ok(()));
    assert!(g.running);
    // A second request while the run is going is refused, nothing changes.
    let r = g.request_start(110).unwrap_err();
    assert_eq!(r, Refusal::AlreadyRunning);
    assert_eq!(refusal_code(&r), 409);
    assert_eq!(refusal_message(&r), "Update already in progress");
    assert!(g.running);
    // A failed run: retry at once.
    g.finish_run(false, 120);
    assert!(!g.running);
    assert_eq!(g.last_success, None);
    assert_eq!(g.request_start(121), Ok(()));
    // A successful run starts the cooldown.
    g.finish_run(true, 200);
    assert_eq!(g.last_success, Some(200));
    let r = g.request_start(260).unwrap_err();
    assert_eq!(r, Refusal::Cooldown { wait_secs: 240 });
    assert_eq!(refusal_code(&r), 429);
    assert_eq!(refusal_message(&r), "Cooldown active. Wait 240 seconds.");
    assert!(!g.running);
    assert_eq!(g.last_success, Some(200));
    assert_eq!(g.request_start(500), Ok(()));
    assert!(g.running);
}
