use companion_updater::bitfocus::{pick_latest_linux, Package};

fn pkg(version: &str, target: &str) -> Package {
    Package {
        version: version.to_string(),
        target: target.to_string(),
    }
}

#[test]
fn picks_highest_linux_version() {
    let packages = vec![
        pkg("v4.2.6", "linux-tgz"),
        pkg("v4.3.1", "linux-tgz"),
        pkg("v4.3.1", "win-x64"),
        pkg("v4.2.5", "linux-arm64-tgz"),
    ];
    assert_eq!(pick_latest_linux(&packages), Some("v4.3.1".to_string()));
}

#[test]
fn ignores_non_linux_targets() {
    let packages = vec![
        pkg("v5.0.0", "win-x64"),
        pkg("v5.0.0", "mac-arm"),
        pkg("v4.2.6", "linux-tgz"),
    ];
    assert_eq!(pick_latest_linux(&packages), Some("v4.2.6".to_string()));
}

#[test]
fn returns_none_when_no_linux() {
    let packages = vec![pkg("v5.0.0", "win-x64")];
    assert_eq!(pick_latest_linux(&packages), None);
}

#[test]
fn equal_versions_pick_the_last() {
    let packages = vec![
        pkg("4.3.1", "linux-tgz"),
        pkg("v4.3.1+99", "linux-arm64-tgz"),
        pkg("v4.2", "linux-x"),
    ];
    assert_eq!(pick_latest_linux(&packages), Some("v4.3.1+99".to_string()));
}

#[test]
fn target_must_start_with_linux_dash() {
    let packages = vec![pkg("v9", "linux"), pkg("v8", "xlinux-tgz"), pkg("v1", "linux-")];
    assert_eq!(pick_latest_linux(&packages), Some("v1".to_string()));
    assert_eq!(pick_latest_linux(&[]), None);
}
