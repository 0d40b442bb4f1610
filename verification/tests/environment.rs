use worker_security::environment::{
    check_scrubbed, default_allow_list, is_allowed, malformed_reasons, remove_env_vars,
    scrub_environment, EnvironmentEntry, MalformedReason, ScrubWarning,
};

fn entry(key: &[u8], value: &[u8]) -> EnvironmentEntry {
    EnvironmentEntry { key: key.to_vec(), value: value.to_vec() }
}

#[test]
fn only_rust_log_is_kept_by_default() {
    let table = vec![
        entry(b"HOME", b"/root"),
        entry(b"RUST_LOG", b"debug"),
        entry(b"PATH", b"/usr/bin"),
    ];
    let scrub = remove_env_vars(&table);
    assert_eq!(scrub.retained, vec![entry(b"RUST_LOG", b"debug")]);
    assert_eq!(scrub.removed, vec![b"HOME".to_vec(), b"PATH".to_vec()]);
    assert!(scrub.warnings.is_empty());
    assert_eq!(default_allow_list(), vec![b"RUST_LOG".to_vec()]);
}

#[test]
fn names_are_compared_exactly() {
    let table = vec![
        entry(b"RUST_LOG2", b""),
        entry(b"rust_log", b""),
        entry(b"RUST_LO", b""),
        entry(b"", b"x"),
    ];
    let scrub = remove_env_vars(&table);
    assert!(scrub.retained.is_empty());
    assert_eq!(scrub.removed.len(), 4);
}

#[test]
fn empty_table_gives_nothing() {
    let scrub = remove_env_vars(&Vec::new());
    assert!(scrub.retained.is_empty());
    assert!(scrub.removed.is_empty());
    assert!(scrub.warnings.is_empty());
    let scrub = scrub_environment(&Vec::new(), &Vec::new());
    assert!(scrub.retained.is_empty() && scrub.removed.is_empty() && scrub.warnings.is_empty());
}

#[test]
fn empty_allow_list_removes_everything() {
    let table = vec![entry(b"RUST_LOG", b"debug"), entry(b"A", b"1")];
    let scrub = scrub_environment(&table, &Vec::new());
    assert!(scrub.retained.is_empty());
    assert_eq!(scrub.removed, vec![b"RUST_LOG".to_vec(), b"A".to_vec()]);
}

#[test]
fn retained_keys_are_the_allowed_keys_of_the_table() {
    let table = vec![entry(b"A", b"1"), entry(b"B", b"2"), entry(b"C", b"3"), entry(b"A", b"4")];
    let allow = vec![b"C".to_vec(), b"A".to_vec(), b"Z".to_vec()];
    let scrub = scrub_environment(&table, &allow);
    assert_eq!(scrub.retained, vec![entry(b"A", b"1"), entry(b"C", b"3"), entry(b"A", b"4")]);
    assert_eq!(scrub.removed, vec![b"B".to_vec()]);
    assert_eq!(scrub.retained.len() + scrub.removed.len(), table.len());
    assert!(check_scrubbed(&scrub.retained, &allow));
    assert!(!check_scrubbed(&table, &allow));
}

#[test]
fn key_with_equals_draws_one_warning_and_is_removed() {
    let table = vec![entry(b"GOOD", b"1"), entry(b"BAD=KEY", b"v"), entry(b"RUST_LOG", b"x")];
    let scrub = remove_env_vars(&table);
    assert_eq!(
        scrub.warnings,
        vec![ScrubWarning {
            index: 1,
            key: b"BAD=KEY".to_vec(),
            value: b"v".to_vec(),
            reasons: vec![MalformedReason::KeyContainsEquals],
        }]
    );
    assert_eq!(scrub.removed, vec![b"GOOD".to_vec(), b"BAD=KEY".to_vec()]);
    assert_eq!(scrub.retained, vec![entry(b"RUST_LOG", b"x")]);
}

#[test]
fn every_reason_is_reported_in_order() {
    let all = entry(b"=\0", b"a\0b");
    assert_eq!(
        malformed_reasons(&all),
        vec![
            MalformedReason::KeyContainsEquals,
            MalformedReason::KeyContainsNul,
            MalformedReason::ValueContainsNul
        ]
    );
    assert_eq!(
        malformed_reasons(&entry(b"", b"\0")),
        vec![MalformedReason::KeyEmpty, MalformedReason::ValueContainsNul]
    );
    assert_eq!(malformed_reasons(&entry(b"", b"")), vec![MalformedReason::KeyEmpty]);
    assert_eq!(malformed_reasons(&entry(b"K\0", b"")), vec![MalformedReason::KeyContainsNul]);
    assert_eq!(malformed_reasons(&entry(b"K", b"\0")), vec![MalformedReason::ValueContainsNul]);
    assert!(malformed_reasons(&entry(b"K", b"a=b")).is_empty());
    assert!(malformed_reasons(&entry(b"K", b"")).is_empty());
}

#[test]
fn bytes_that_are_not_utf8_are_checked_too() {
    assert_eq!(
        malformed_reasons(&entry(&[0xff, b'=', 0xfe], &[0xff, 0x00])),
        vec![MalformedReason::KeyContainsEquals, MalformedReason::ValueContainsNul]
    );
    assert!(malformed_reasons(&entry(&[0xff, 0xfe], &[0xc3])).is_empty());
}

#[test]
fn reasons_in_words() {
    assert_eq!(MalformedReason::KeyEmpty.message(), "key is empty");
    assert_eq!(MalformedReason::KeyContainsEquals.message(), "key contains '='");
    assert_eq!(MalformedReason::KeyContainsNul.message(), "key contains null character");
    assert_eq!(MalformedReason::ValueContainsNul.message(), "value contains null character");
}

#[test]
fn warnings_come_in_table_order_with_positions() {
    let table = vec![
        entry(b"", b"x"),
        entry(b"FINE", b"x"),
        entry(b"A=B", b"\0"),
        entry(b"RUST_LOG", b"\0"),
        entry(b"N\0", b"y"),
    ];
    let scrub = remove_env_vars(&table);
    let positions: Vec<usize> = scrub.warnings.iter().map(|w| w.index).collect();
    assert_eq!(positions, vec![0, 2, 4]);
    for warning in &scrub.warnings {
        assert_eq!(warning.key, table[warning.index].key);
        assert_eq!(warning.value, table[warning.index].value);
        assert_eq!(warning.reasons, malformed_reasons(&table[warning.index]));
        assert!(!warning.reasons.is_empty());
    }
    assert_eq!(
        scrub.warnings[1].reasons,
        vec![MalformedReason::KeyContainsEquals, MalformedReason::ValueContainsNul]
    );
    assert_eq!(scrub.removed.len(), 4);
}

#[test]
fn a_kept_variable_draws_no_warning() {
    let table = vec![entry(b"RUST_LOG", b"a\0b")];
    let scrub = remove_env_vars(&table);
    assert!(scrub.warnings.is_empty());
    assert_eq!(scrub.retained, table);
    let allow = vec![b"A=B".to_vec()];
    let scrub = scrub_environment(&vec![entry(b"A=B", b"")], &allow);
    assert!(scrub.warnings.is_empty());
    assert_eq!(scrub.retained.len(), 1);
}

#[test]
fn the_same_malformed_key_twice_draws_two_warnings() {
    let table = vec![entry(b"A=", b"1"), entry(b"A=", b"2")];
    let scrub = remove_env_vars(&table);
    assert_eq!(scrub.warnings.len(), 2);
    assert_eq!(scrub.warnings[0].index, 0);
    assert_eq!(scrub.warnings[1].index, 1);
    assert_eq!(scrub.removed, vec![b"A=".to_vec(), b"A=".to_vec()]);
}

#[test]
fn allow_list_membership() {
    let allow = vec![b"A".to_vec(), Vec::new()];
    assert!(is_allowed(&b"A".to_vec(), &allow));
    assert!(is_allowed(&Vec::new(), &allow));
    assert!(!is_allowed(&b"B".to_vec(), &allow));
    assert!(!is_allowed(&b"A".to_vec(), &Vec::new()));
}

#[test]
fn scrubbed_means_nothing_is_left_to_remove() {
    let allow = default_allow_list();
    assert!(check_scrubbed(&Vec::new(), &allow));
    assert!(check_scrubbed(&vec![entry(b"RUST_LOG", b"")], &allow));
    assert!(!check_scrubbed(&vec![entry(b"RUST_LOG", b""), entry(b"X", b"")], &allow));
    assert!(check_scrubbed(&Vec::new(), &Vec::new()));
}
