use worker_security::access::{Abi, AccessFs, AccessRights, LANDLOCK_ABI};
use std::io::ErrorKind;
use landlock::{Access, RulesetAttr};
use worker_security::restriction::{
    check_is_fully_enabled, exception_paths, get_status, reported_status, restriction_status,
    rule_outcome, status_is_fully_enabled, step_outcome, try_restrict, ProbeError, ProbeOutcome,
    RestrictionError, RestrictionStep, RulesetException,
};
use worker_security::status::LandlockStatus;

fn exception(path: &[u8], access: AccessRights) -> RulesetException {
    RulesetException { path: path.to_vec(), access }
}

#[test]
fn restriction_without_exceptions_gives_a_status_or_a_kernel_failure() {
    let result = try_restrict(&Vec::new());
    assert!(!matches!(
        result,
        Err(RestrictionError::InvalidPath { .. }) | Err(RestrictionError::AddRule { .. })
    ));
    let status = get_status(ProbeOutcome::Completed(result));
    assert!(!matches!(status, Err(ProbeError::Panicked)));
}

#[test]
fn restriction_passes_over_a_path_that_cannot_be_opened() {
    let result = try_restrict(&vec![
        exception(b"/this/path/does/not/exist/anywhere", AccessFs::from_read(LANDLOCK_ABI)),
        exception(b"/neither/does/this/one", AccessFs::from_all(LANDLOCK_ABI)),
    ]);
    assert!(!matches!(
        result,
        Err(RestrictionError::InvalidPath { .. }) | Err(RestrictionError::AddRule { .. })
    ));
}

#[test]
fn restriction_with_an_exception_for_the_root() {
    let result = try_restrict(&vec![exception(b"/", AccessFs::from_read(LANDLOCK_ABI))]);
    assert!(!matches!(result, Err(RestrictionError::InvalidPath { .. })));
    if let Err(RestrictionError::AddRule { index, .. }) = result {
        assert_eq!(index, 0);
    }
}

#[test]
fn exception_path_must_be_utf8() {
    let read = AccessFs::from_read(LANDLOCK_ABI);
    let list = vec![
        exception(b"/tmp", read),
        exception(&[0x2f, 0xff], read),
        exception(&[0x2f, 0xfe], read),
    ];
    assert_eq!(try_restrict(&list), Err(RestrictionError::InvalidPath { index: 1 }));
    assert_eq!(exception_paths(&list), Err(1));
    assert_eq!(exception_paths(&list[..1].to_vec()), Ok(vec!["/tmp"]));
    assert_eq!(exception_paths(&Vec::new()), Ok(Vec::new()));
}

#[test]
fn a_right_that_is_not_handled_is_refused_when_its_rule_is_added() {
    let read = AccessFs::from_read(LANDLOCK_ABI);
    let refer = AccessRights::only(AccessFs::Refer);
    let list = vec![
        exception(b"/", read),
        exception(b"/this/path/does/not/exist/anywhere", refer),
        exception(b"/", read.union(refer)),
        exception(b"/", refer),
    ];
    let result = try_restrict(&list);
    match result {
        Err(RestrictionError::AddRule { index, detail }) => {
            assert_eq!(index, 2);
            assert!(!detail.is_empty());
        }
        Err(RestrictionError::HandleAccess { .. }) | Err(RestrictionError::CreateRuleset { .. }) => {}
        other => panic!("the rule for a right that is not handled was taken: {:?}", other),
    }
}

#[test]
fn invalid_path_is_reported_before_anything_is_asked() {
    let list = vec![
        exception(b"/", AccessRights::only(AccessFs::Refer)),
        exception(&[0xff], AccessFs::from_read(LANDLOCK_ABI)),
    ];
    assert_eq!(try_restrict(&list), Err(RestrictionError::InvalidPath { index: 1 }));
}

#[test]
fn a_step_that_succeeds_hands_on_what_it_gave() {
    for step in [
        RestrictionStep::HandleAccess,
        RestrictionStep::CreateRuleset,
        RestrictionStep::AddRule { index: 4 },
        RestrictionStep::RestrictSelf,
    ] {
        assert_eq!(step_outcome(step, Ok(7u32)), Ok(7u32));
        assert_eq!(step_outcome(step, Ok("rule set")), Ok("rule set"));
    }
}

#[test]
fn a_step_that_fails_gives_its_own_error() {
    let detail = || "refused".to_string();
    assert_eq!(
        step_outcome::<u32>(RestrictionStep::HandleAccess, Err(detail())),
        Err(RestrictionError::HandleAccess { detail: detail() })
    );
    assert_eq!(
        step_outcome::<u32>(RestrictionStep::CreateRuleset, Err(detail())),
        Err(RestrictionError::CreateRuleset { detail: detail() })
    );
    assert_eq!(
        step_outcome::<u32>(RestrictionStep::AddRule { index: 3 }, Err(detail())),
        Err(RestrictionError::AddRule { index: 3, detail: detail() })
    );
    assert_eq!(
        step_outcome::<u32>(RestrictionStep::RestrictSelf, Err(detail())),
        Err(RestrictionError::RestrictSelf { detail: detail() })
    );
    assert_eq!(
        step_outcome::<u32>(RestrictionStep::CreateRuleset, Err(String::new())),
        Err(RestrictionError::CreateRuleset { detail: String::new() })
    );
}

#[test]
fn an_exception_without_a_rule_is_passed_over() {
    assert_eq!(rule_outcome::<u32>(0, None), Ok(None));
    assert_eq!(rule_outcome::<u32>(9, None), Ok(None));
}

#[test]
fn a_rule_that_was_made_is_to_be_added() {
    assert_eq!(rule_outcome(0, Some(Ok(5u32))), Ok(Some(5u32)));
    assert_eq!(rule_outcome(2, Some(Ok("rule"))), Ok(Some("rule")));
}

#[test]
fn a_rule_that_could_not_be_made_fails_the_restriction() {
    assert_eq!(
        rule_outcome::<u32>(2, Some(Err("no rule".to_string()))),
        Err(RestrictionError::AddRule { index: 2, detail: "no rule".to_string() })
    );
    assert_eq!(
        rule_outcome::<u32>(0, Some(Err(String::new()))),
        Err(RestrictionError::AddRule { index: 0, detail: String::new() })
    );
}

#[test]
fn a_failed_last_step_gives_no_status() {
    assert_eq!(
        restriction_status(Err("denied".to_string())),
        Err(RestrictionError::RestrictSelf { detail: "denied".to_string() })
    );
}

#[test]
fn the_status_of_the_rule_set_is_handed_on() {
    let outcome = landlock::Ruleset::new()
        .handle_access(landlock::AccessFs::from_all(landlock::ABI::V1))
        .and_then(|ruleset| ruleset.create())
        .and_then(|created| created.restrict_self());
    let status = match outcome {
        Ok(status) => status,
        Err(_) => return,
    };
    let expected = match status.ruleset {
        landlock::RulesetStatus::FullyEnforced => landlock::RulesetStatus::FullyEnforced,
        landlock::RulesetStatus::PartiallyEnforced => landlock::RulesetStatus::PartiallyEnforced,
        landlock::RulesetStatus::NotEnforced => landlock::RulesetStatus::NotEnforced,
    };
    assert_eq!(restriction_status(Ok(status)), Ok(expected));
}

#[test]
fn probe_outcomes() {
    let full = || ProbeOutcome::Completed(Ok(landlock::RulesetStatus::FullyEnforced));
    let partial = || ProbeOutcome::Completed(Ok(landlock::RulesetStatus::PartiallyEnforced));
    let none = || ProbeOutcome::Completed(Ok(landlock::RulesetStatus::NotEnforced));
    let failed = || {
        ProbeOutcome::Completed(Err(RestrictionError::CreateRuleset { detail: "no".to_string() }))
    };

    assert_eq!(get_status(full()), Ok(landlock::RulesetStatus::FullyEnforced));
    assert_eq!(get_status(partial()), Ok(landlock::RulesetStatus::PartiallyEnforced));
    assert_eq!(get_status(none()), Ok(landlock::RulesetStatus::NotEnforced));
    assert_eq!(
        get_status(failed()),
        Err(ProbeError::Restriction(RestrictionError::CreateRuleset { detail: "no".to_string() }))
    );
    assert_eq!(get_status(ProbeOutcome::Panicked), Err(ProbeError::Panicked));

    assert!(check_is_fully_enabled(full()));
    assert!(!check_is_fully_enabled(partial()));
    assert!(!check_is_fully_enabled(none()));
    assert!(!check_is_fully_enabled(failed()));
    assert!(!check_is_fully_enabled(ProbeOutcome::Panicked));
}

#[test]
fn a_kernel_without_the_mechanism_is_not_an_error() {
    let outcome = ProbeOutcome::Completed(Ok(landlock::RulesetStatus::NotEnforced));
    let status = get_status(outcome);
    assert_eq!(status, Ok(landlock::RulesetStatus::NotEnforced));
    assert!(!status_is_fully_enabled(&status));
}

#[test]
fn only_full_enforcement_counts_as_enabled() {
    assert!(status_is_fully_enabled(&Ok(landlock::RulesetStatus::FullyEnforced)));
    assert!(!status_is_fully_enabled(&Ok(landlock::RulesetStatus::PartiallyEnforced)));
    assert!(!status_is_fully_enabled(&Ok(landlock::RulesetStatus::NotEnforced)));
    assert!(!status_is_fully_enabled(&Err(ProbeError::Panicked)));
    assert!(!status_is_fully_enabled(&Err(ProbeError::Restriction(
        RestrictionError::RestrictSelf { detail: String::new() }
    ))));
}

#[test]
fn errors_in_words() {
    assert_eq!(ProbeError::Panicked.message(), "a panic occurred in try_restrict");
    assert_eq!(
        RestrictionError::InvalidPath { index: 3 }.message(),
        "exception path is not valid UTF-8"
    );
    let detail = "failed to create a ruleset".to_string();
    assert_eq!(RestrictionError::HandleAccess { detail: detail.clone() }.message(), detail);
    assert_eq!(RestrictionError::CreateRuleset { detail: detail.clone() }.message(), detail);
    assert_eq!(RestrictionError::AddRule { index: 1, detail: detail.clone() }.message(), detail);
    assert_eq!(RestrictionError::RestrictSelf { detail: detail.clone() }.message(), detail);
    assert_eq!(
        ProbeError::Restriction(RestrictionError::RestrictSelf { detail: detail.clone() })
            .message(),
        detail
    );
}

#[test]
fn status_reported_after_a_probe() {
    assert_eq!(
        reported_status(Ok(landlock::RulesetStatus::FullyEnforced)),
        LandlockStatus::FullyEnforced
    );
    assert_eq!(
        reported_status(Ok(landlock::RulesetStatus::PartiallyEnforced)),
        LandlockStatus::PartiallyEnforced
    );
    assert_eq!(
        reported_status(Ok(landlock::RulesetStatus::NotEnforced)),
        LandlockStatus::NotEnforced
    );
    assert_eq!(reported_status(Err(ProbeError::Panicked)), LandlockStatus::Unavailable);
    assert_eq!(
        reported_status(Err(ProbeError::Restriction(RestrictionError::CreateRuleset {
            detail: String::new()
        }))),
        LandlockStatus::Unavailable
    );
    assert_eq!(
        reported_status(get_status(ProbeOutcome::Panicked)),
        LandlockStatus::Unavailable
    );
}

#[test]
fn restricted_thread_cannot_list_directory() {
    let dir = tempfile::tempdir().unwrap();
    assert!(dir.path().read_dir().is_ok());
    let status = try_restrict(&Vec::new());
    if !matches!(status, Ok(landlock::RulesetStatus::FullyEnforced)) {
        return;
    }
    let result = dir.path().read_dir();
    assert!(matches!(
        result,
        Err(err) if matches!(err.kind(), ErrorKind::PermissionDenied)
    ));
}

#[test]
fn restricted_thread_can_list_the_excepted_directory_only() {
    let dir1 = tempfile::tempdir().unwrap();
    let dir2 = tempfile::tempdir().unwrap();
    let status = try_restrict(&vec![exception(
        dir1.path().to_str().unwrap().as_bytes(),
        AccessFs::from_read(LANDLOCK_ABI),
    )]);
    if !matches!(status, Ok(landlock::RulesetStatus::FullyEnforced)) {
        return;
    }
    assert!(dir1.path().read_dir().is_ok());
    let result = dir2.path().read_dir();
    assert!(matches!(
        result,
        Err(err) if matches!(err.kind(), ErrorKind::PermissionDenied)
    ));

    // A later restriction only tightens.
    let status = try_restrict(&Vec::new());
    assert!(matches!(status, Ok(landlock::RulesetStatus::FullyEnforced)));
    let result = dir1.path().read_dir();
    assert!(matches!(
        result,
        Err(err) if matches!(err.kind(), ErrorKind::PermissionDenied)
    ));
}

#[test]
fn restricted_thread_cannot_list_without_the_right_to_list() {
    let dir = tempfile::tempdir().unwrap();
    let status = try_restrict(&vec![exception(
        dir.path().to_str().unwrap().as_bytes(),
        AccessFs::from_read(LANDLOCK_ABI)
            .symmetric_difference(AccessRights::only(AccessFs::ReadDir)),
    )]);
    if !matches!(status, Ok(landlock::RulesetStatus::FullyEnforced)) {
        return;
    }
    let result = dir.path().read_dir();
    assert!(matches!(
        result,
        Err(err) if matches!(err.kind(), ErrorKind::PermissionDenied)
    ));
}

#[test]
fn restricted_thread_can_create_files_in_the_excepted_directory_only() {
    let dir1 = tempfile::tempdir().unwrap();
    let dir2 = tempfile::tempdir().unwrap();
    assert!(tempfile::NamedTempFile::new_in(dir2.path()).is_ok());
    let status = try_restrict(&vec![exception(
        dir1.path().to_str().unwrap().as_bytes(),
        AccessFs::from_all(LANDLOCK_ABI),
    )]);
    if !matches!(status, Ok(landlock::RulesetStatus::FullyEnforced)) {
        return;
    }
    assert!(tempfile::NamedTempFile::new_in(dir1.path()).is_ok());
    let result = tempfile::NamedTempFile::new_in(dir2.path());
    assert!(matches!(
        result,
        Err(err) if matches!(err.kind(), ErrorKind::PermissionDenied)
    ));
}

#[test]
fn read_exception_does_not_allow_creating_files() {
    let dir = tempfile::tempdir().unwrap();
    let status = try_restrict(&vec![exception(
        dir.path().to_str().unwrap().as_bytes(),
        AccessFs::from_read(LANDLOCK_ABI),
    )]);
    if !matches!(status, Ok(landlock::RulesetStatus::FullyEnforced)) {
        return;
    }
    assert!(dir.path().read_dir().is_ok());
    let result = tempfile::NamedTempFile::new_in(dir.path());
    assert!(matches!(
        result,
        Err(err) if matches!(err.kind(), ErrorKind::PermissionDenied)
    ));
}
