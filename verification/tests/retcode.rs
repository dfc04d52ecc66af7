use std::collections::HashSet;
use storekeeper::hoyolab::retcode::{has_kind, is_transient_throttle, lookup, retcodes, RetcodeKind};

#[test]
fn the_catalogue_lists_each_code_once() {
    let mut seen = HashSet::new();
    for retcode in retcodes() {
        assert!(seen.insert(retcode.code), "retcode {} appears more than once", retcode.code);
    }
}

#[test]
fn lookup_maps_a_code_to_each_kind() {
    for (code, kind) in [
        (-1004, RetcodeKind::Cooldown),
        (-110, RetcodeKind::Cooldown),
        (1028, RetcodeKind::Cooldown),
        (10101, RetcodeKind::RateLimited),
        (-100, RetcodeKind::Cookie),
        (-10002, RetcodeKind::Account),
        (-5003, RetcodeKind::AlreadyClaimed),
        (-3102, RetcodeKind::Geetest),
        (-2016, RetcodeKind::Redemption),
        (-10001, RetcodeKind::Request),
    ] {
        assert_eq!(lookup(code).map(|retcode| retcode.kind), Some(kind), "retcode {code}");
    }
}

#[test]
fn lookup_is_none_for_a_code_outside_the_catalogue() {
    assert_eq!(lookup(-1002), None);
}

#[test]
fn only_a_time_bounded_throttle_is_transient() {
    for code in [-1004, -3101, -110, 1028, -500_004] {
        assert!(is_transient_throttle(code), "retcode {code} is a temporary throttle");
    }
    for code in [10101, -119, -3206, -3006, -2016, -5003, -100, -1002] {
        assert!(!is_transient_throttle(code), "retcode {code} is not a temporary throttle");
    }
}

#[test]
fn has_kind_agrees_with_lookup() {
    for entry in retcodes() {
        assert!(has_kind(entry.code, entry.kind));
        assert_eq!(lookup(entry.code), Some(entry));
    }
    assert!(!has_kind(-1002, RetcodeKind::Request));
}
