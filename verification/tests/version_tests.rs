use companion_updater::version::{compare, is_update_available, parse};
use std::cmp::Ordering;

#[test]
fn parse_strips_v_prefix() {
    assert_eq!(parse("v4.2.6"), vec![4, 2, 6]);
}

#[test]
fn parse_strips_build_suffix() {
    assert_eq!(parse("4.2.6+8823"), vec![4, 2, 6]);
}

#[test]
fn parse_handles_both() {
    assert_eq!(parse("v4.3.1+9209-stable"), vec![4, 3, 1]);
}

#[test]
fn compare_equal() {
    assert_eq!(compare("4.2.6", "v4.2.6+8823"), Ordering::Equal);
}

#[test]
fn compare_patch_difference() {
    assert_eq!(compare("4.2.6", "4.2.8"), Ordering::Less);
    assert_eq!(compare("4.2.8", "4.2.6"), Ordering::Greater);
}

#[test]
fn compare_minor_difference() {
    assert_eq!(compare("4.2.10", "4.3.0"), Ordering::Less);
}

#[test]
fn compare_different_lengths() {
    assert_eq!(compare("4.2", "4.2.0"), Ordering::Equal);
    assert_eq!(compare("4.2", "4.2.1"), Ordering::Less);
}

#[test]
fn update_available_true_when_remote_newer() {
    assert!(is_update_available("4.2.6", "4.3.1"));
}

#[test]
fn update_available_false_when_equal() {
    assert!(!is_update_available("4.2.6", "v4.2.6+8823"));
}

#[test]
fn update_available_false_when_local_newer() {
    assert!(!is_update_available("4.3.1", "4.2.6"));
}

#[test]
fn format_adds_v_prefix() {
    assert_eq!(companion_updater::version::format("4.2.6"), "v4.2.6");
}

#[test]
fn format_drops_build() {
    assert_eq!(companion_updater::version::format("4.2.6+8823"), "v4.2.6");
}

#[test]
fn format_idempotent() {
    assert_eq!(companion_updater::version::format("v4.2.6"), "v4.2.6");
}

#[test]
fn parse_trims_whitespace_and_repeated_v() {
    assert_eq!(parse("  vv5.0.2+9665-stable\n"), vec![5, 0, 2]);
    assert_eq!(parse("\u{3000}4.1\t"), vec![4, 1]);
}

#[test]
fn parse_drops_components_that_are_not_numbers() {
    assert_eq!(parse("4.x.2"), vec![4, 2]);
    assert_eq!(parse("4..2"), vec![4, 2]);
    assert_eq!(parse("4.2-beta"), vec![4]);
    assert_eq!(parse("unknown"), Vec::<u32>::new());
    assert_eq!(parse(""), Vec::<u32>::new());
    assert_eq!(parse("1. 2"), vec![1]);
}

#[test]
fn parse_drops_components_too_large_for_u32() {
    assert_eq!(parse("4294967295.1"), vec![4294967295, 1]);
    assert_eq!(parse("4294967296.1"), vec![1]);
    assert_eq!(parse("99999999999999999999.7"), vec![7]);
}

#[test]
fn compare_is_antisymmetric_and_reflexive() {
    let vs = ["4.2", "4.2.0", "v4.3.1+1", "5", "0.0.0", "junk", "4.10.0"];
    for a in vs.iter() {
        assert_eq!(compare(a, a), Ordering::Equal);
        for b in vs.iter() {
            assert_eq!(compare(a, b), compare(b, a).reverse());
        }
    }
}

#[test]
fn compare_is_transitive_on_examples() {
    assert_eq!(compare("4.2.6", "4.2.10"), Ordering::Less);
    assert_eq!(compare("4.2.10", "4.10"), Ordering::Less);
    assert_eq!(compare("4.2.6", "4.10"), Ordering::Less);
    assert_eq!(compare("junk", "0"), Ordering::Equal);
    assert_eq!(compare("", "0.0"), Ordering::Equal);
}

#[test]
fn format_of_format_is_format() {
    for s in ["4.2.6", "v4.2.6+1", "  vv4 ", "x", "", "4.2+a+b"].iter() {
        let once = companion_updater::version::format(s);
        assert_eq!(companion_updater::version::format(&once), once);
        assert!(!once.contains('+'));
        assert!(once.starts_with('v'));
        assert_eq!(parse(&once), parse(s));
    }
}

#[test]
fn format_keeps_trailing_whitespace_before_build() {
    assert_eq!(companion_updater::version::format("4.2 +x"), "v4.2 ");
    assert_eq!(companion_updater::version::format("v4.2 "), "v4.2");
}

#[test]
fn format_of_empty_is_v() {
    assert_eq!(companion_updater::version::format(""), "v");
    assert_eq!(companion_updater::version::format("vvv"), "v");
}

#[test]
fn update_available_matches_compare_less() {
    for (a, b) in [("4.2", "4.2.1"), ("4.2.1", "4.2"), ("4.2", "4.2.0"), ("1", "2")].iter() {
        assert_eq!(is_update_available(a, b), compare(a, b) == Ordering::Less);
    }
}
