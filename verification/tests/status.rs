use worker_security::status::LandlockStatus;

const EVERY_STATUS: [LandlockStatus; 4] = [
    LandlockStatus::FullyEnforced,
    LandlockStatus::PartiallyEnforced,
    LandlockStatus::NotEnforced,
    LandlockStatus::Unavailable,
];

#[test]
fn ruleset_status_maps_to_the_variant_of_the_same_name() {
    assert_eq!(
        LandlockStatus::from_ruleset_status(landlock::RulesetStatus::FullyEnforced),
        LandlockStatus::FullyEnforced
    );
    assert_eq!(
        LandlockStatus::from_ruleset_status(landlock::RulesetStatus::PartiallyEnforced),
        LandlockStatus::PartiallyEnforced
    );
    assert_eq!(
        LandlockStatus::from_ruleset_status(landlock::RulesetStatus::NotEnforced),
        LandlockStatus::NotEnforced
    );
}

#[test]
fn ranks() {
    assert_eq!(LandlockStatus::FullyEnforced.rank(), 3);
    assert_eq!(LandlockStatus::PartiallyEnforced.rank(), 2);
    assert_eq!(LandlockStatus::NotEnforced.rank(), 1);
    assert_eq!(LandlockStatus::Unavailable.rank(), 0);
}

#[test]
fn the_weaker_of_two() {
    for a in EVERY_STATUS {
        for b in EVERY_STATUS {
            let w = a.weaker(b);
            assert!(w == a || w == b);
            assert!(w.rank() <= a.rank() && w.rank() <= b.rank());
            assert_eq!(w, b.weaker(a));
        }
    }
    assert_eq!(
        LandlockStatus::FullyEnforced.weaker(LandlockStatus::NotEnforced),
        LandlockStatus::NotEnforced
    );
}

#[test]
fn only_fully_enforced_is_fully_enforced() {
    assert!(LandlockStatus::FullyEnforced.is_fully_enforced());
    assert!(!LandlockStatus::PartiallyEnforced.is_fully_enforced());
    assert!(!LandlockStatus::NotEnforced.is_fully_enforced());
    assert!(!LandlockStatus::Unavailable.is_fully_enforced());
}
