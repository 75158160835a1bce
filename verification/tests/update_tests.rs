use companion_updater::update::{
    classify_outcome, installer_messages, is_skip_marker, nonblank_lines_of, script_result, Outcome,
};

#[test]
fn skip_marker_matches_update_script_skip_line() {
    assert!(is_skip_marker("Skipping update"));
}

#[test]
fn skip_marker_matches_picker_no_build_line() {
    assert!(is_skip_marker("No matching stable build was found!"));
}

#[test]
fn skip_marker_matches_already_installed_line() {
    assert!(is_skip_marker(
        "The latest build of stable (v5.0.2+9665-stable) is already installed"
    ));
}

#[test]
fn skip_marker_ignores_ordinary_progress() {
    assert!(!is_skip_marker("Extracting..."));
    assert!(!is_skip_marker("Installing from https://example.com/x.tar.gz"));
}

#[test]
fn skip_marker_ignores_apt_already_installed_chatter() {
    assert!(!is_skip_marker("libfontconfig1 is already installed"));
}

#[test]
fn outcome_failed_when_skipped_and_newer_version_available() {
    let outcome = classify_outcome("4.3.4", "4.3.4", Some("v5.0.2"), true);
    match outcome {
        Outcome::Failed(msg) => {
            assert!(msg.contains("4.3.4"), "got {msg}");
            assert!(msg.contains("5.0.2"), "got {msg}");
        }
        other => panic!("expected Failed, got {other:?}"),
    }
}

#[test]
fn outcome_failed_when_version_unchanged_without_marker() {
    assert!(matches!(
        classify_outcome("4.3.4", "4.3.4", Some("v5.0.2"), false),
        Outcome::Failed(_)
    ));
}

#[test]
fn outcome_applied_when_version_changed() {
    assert_eq!(
        classify_outcome("4.3.4", "5.0.2", Some("v5.0.2"), false),
        Outcome::Applied { still_behind: None }
    );
}

#[test]
fn outcome_applied_even_if_a_skip_marker_appeared_but_version_moved() {
    assert_eq!(
        classify_outcome("4.3.4", "5.0.2", Some("v5.0.2"), true),
        Outcome::Applied { still_behind: None }
    );
}

#[test]
fn outcome_applied_flags_a_version_that_is_still_behind() {
    assert_eq!(
        classify_outcome("4.3.4", "4.3.5", Some("v5.0.2"), false),
        Outcome::Applied {
            still_behind: Some("v5.0.2".into())
        }
    );
}

#[test]
fn outcome_already_latest_when_unchanged_and_current_is_newest() {
    assert_eq!(
        classify_outcome("5.0.2+9300", "5.0.2+9300", Some("v5.0.2"), true),
        Outcome::AlreadyLatest
    );
}

#[test]
fn outcome_already_latest_when_installed_is_ahead_of_latest() {
    assert_eq!(
        classify_outcome("5.1.0", "5.1.0", Some("v5.0.2"), false),
        Outcome::AlreadyLatest
    );
}

#[test]
fn outcome_failed_when_post_version_is_unreadable() {
    match classify_outcome("4.3.4", "unknown", Some("v5.0.2"), false) {
        Outcome::Failed(msg) => assert!(msg.contains("not a version number"), "got {msg}"),
        other => panic!("expected Failed, got {other:?}"),
    }
}

#[test]
fn outcome_failed_when_version_went_backwards() {
    match classify_outcome("4.3.4", "4.2.6", Some("v5.0.2"), false) {
        Outcome::Failed(msg) => assert!(msg.contains("BACKWARDS"), "got {msg}"),
        other => panic!("expected Failed, got {other:?}"),
    }
}

#[test]
fn outcome_failed_when_unchanged_and_latest_is_unknown() {
    match classify_outcome("4.3.4", "4.3.4", None, true) {
        Outcome::Failed(msg) => assert!(msg.contains("could not be fetched"), "got {msg}"),
        other => panic!("expected Failed, got {other:?}"),
    }
}

#[test]
fn outcome_applied_when_version_moved_even_with_latest_unknown() {
    assert_eq!(
        classify_outcome("4.3.4", "5.0.2", None, false),
        Outcome::Applied { still_behind: None }
    );
}

#[test]
fn outcome_messages_are_exact() {
    assert_eq!(
        classify_outcome("4.3.4", "unknown", None, false),
        Outcome::Failed(
            "Cannot verify the update: the installed version reads as \"unknown\", which is not a version number. Check /opt/companion/package.json."
                .to_string()
        )
    );
    assert_eq!(
        classify_outcome("4.3.4", "4.2.6+1", None, false),
        Outcome::Failed(
            "Update went BACKWARDS: v4.2.6 was installed over v4.3.4. The installer picked an older build."
                .to_string()
        )
    );
    assert_eq!(
        classify_outcome("4.3.4", "4.3.4", Some("5.0.2"), true),
        Outcome::Failed(
            "Update did NOT apply: still running v4.3.4 while v5.0.2 is available — the companion-pi installer reported it had no matching build to install (its version whitelist may not cover this release yet)."
                .to_string()
        )
    );
    assert_eq!(
        classify_outcome("4.3.4", "4.3.4", Some("5.0.2"), false),
        Outcome::Failed(
            "Update did NOT apply: still running v4.3.4 while v5.0.2 is available — the update script exited successfully but /opt/companion is unchanged."
                .to_string()
        )
    );
    assert_eq!(
        classify_outcome("4.3.4", "4.3.4", None, false),
        Outcome::Failed(
            "Cannot confirm the update: still running v4.3.4 and the list of available builds could not be fetched, so there is no proof anything was installed. Check the network and try again."
                .to_string()
        )
    );
}

#[test]
fn unreadable_version_is_quoted_with_escapes() {
    match classify_outcome("4.3.4", "a\"b\n", None, false) {
        Outcome::Failed(msg) => assert!(msg.contains("reads as \"a\\\"b\\n\""), "got {msg}"),
        other => panic!("expected Failed, got {other:?}"),
    }
}

#[test]
fn skip_marker_needs_build_with_already_installed() {
    assert!(is_skip_marker("build 7 is already installed"));
    assert!(!is_skip_marker("Skipping"));
    assert!(!is_skip_marker(""));
}

#[test]
fn nonblank_lines_follow_str_lines() {
    assert_eq!(nonblank_lines_of("a\nb\r\n\n  \nc"), vec!["a", "b", "c"]);
    assert_eq!(nonblank_lines_of(""), Vec::<String>::new());
    assert_eq!(nonblank_lines_of("\n\n"), Vec::<String>::new());
    assert_eq!(nonblank_lines_of(" x \r"), vec![" x \r"]);
    assert_eq!(nonblank_lines_of("a\rb\n"), vec!["a\rb"]);
    for text in ["one\ntwo\r\n \t\nthree\n", "x", "\r\n", "a\n\nb"] {
        let expected: Vec<String> = text
            .lines()
            .filter(|l| !l.trim().is_empty())
            .map(|l| l.to_string())
            .collect();
        assert_eq!(nonblank_lines_of(text), expected);
    }
}

#[test]
fn installer_messages_add_warning_on_failure() {
    assert_eq!(
        installer_messages("Already up to date.\n", "", true, "exit status: 0"),
        vec!["Already up to date."]
    );
    assert_eq!(
        installer_messages("out\n", "err1\n\nerr2\n", false, "exit status: 1"),
        vec![
            "out",
            "err1",
            "err2",
            "WARNING: could not update the companion-pi installer (exit status: 1). Continuing with the installed copy."
        ]
    );
}

#[test]
fn script_result_distinguishes_skip_install_and_failure() {
    assert_eq!(script_result("/x/update.sh", true, "exit status: 0", true), Ok(true));
    assert_eq!(script_result("/x/update.sh", true, "exit status: 0", false), Ok(false));
    assert_eq!(
        script_result("/x/update.sh", false, "exit status: 3", false),
        Err("/x/update.sh exited with exit status: 3".to_string())
    );
    assert_eq!(
        script_result("/x/update.sh", false, "exit status: 3", true),
        Err("/x/update.sh exited with exit status: 3".to_string())
    );
}
