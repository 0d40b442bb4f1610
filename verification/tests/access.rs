use landlock::Access;
use worker_security::access::{Abi, AccessFs, AccessRights, ALL_BITS, LANDLOCK_ABI};

const EVERY_RIGHT: [AccessFs; 14] = [
    AccessFs::Execute,
    AccessFs::WriteFile,
    AccessFs::ReadFile,
    AccessFs::ReadDir,
    AccessFs::RemoveDir,
    AccessFs::RemoveFile,
    AccessFs::MakeChar,
    AccessFs::MakeDir,
    AccessFs::MakeReg,
    AccessFs::MakeSock,
    AccessFs::MakeFifo,
    AccessFs::MakeBlock,
    AccessFs::MakeSym,
    AccessFs::Refer,
];

fn same_bits(ours: AccessRights, theirs: landlock::BitFlags<landlock::AccessFs>) -> bool {
    ours.bits() == theirs.bits()
}

#[test]
fn the_fixed_version_is_the_first() {
    assert_eq!(LANDLOCK_ABI, Abi::V1);
}

#[test]
fn bits_are_those_of_the_kernel() {
    let theirs = [
        landlock::AccessFs::Execute,
        landlock::AccessFs::WriteFile,
        landlock::AccessFs::ReadFile,
        landlock::AccessFs::ReadDir,
        landlock::AccessFs::RemoveDir,
        landlock::AccessFs::RemoveFile,
        landlock::AccessFs::MakeChar,
        landlock::AccessFs::MakeDir,
        landlock::AccessFs::MakeReg,
        landlock::AccessFs::MakeSock,
        landlock::AccessFs::MakeFifo,
        landlock::AccessFs::MakeBlock,
        landlock::AccessFs::MakeSym,
        landlock::AccessFs::Refer,
    ];
    for (k, (ours, theirs)) in EVERY_RIGHT.iter().zip(theirs.iter()).enumerate() {
        assert_eq!(ours.bit(), 1u64 << k);
        assert_eq!(ours.bit(), *theirs as u64);
        assert!(same_bits(AccessRights::only(*ours), (*theirs).into()));
    }
    assert_eq!(AccessFs::Execute.bit(), 1);
    assert_eq!(AccessFs::ReadDir.bit(), 8);
    assert_eq!(AccessFs::Refer.bit(), 8192);
    assert_eq!(ALL_BITS, 0x3fff);
}

#[test]
fn named_sets_are_those_of_landlock() {
    let versions =
        [(Abi::Unsupported, landlock::ABI::Unsupported), (Abi::V1, landlock::ABI::V1), (Abi::V2, landlock::ABI::V2)];
    for (ours, theirs) in versions {
        assert!(same_bits(AccessFs::from_read(ours), landlock::AccessFs::from_read(theirs)));
        assert!(same_bits(AccessFs::from_write(ours), landlock::AccessFs::from_write(theirs)));
        assert!(same_bits(AccessFs::from_all(ours), landlock::AccessFs::from_all(theirs)));
    }
}

#[test]
fn named_sets_by_their_bits() {
    assert_eq!(AccessFs::from_read(Abi::V1).bits(), 0x000d);
    assert_eq!(AccessFs::from_write(Abi::V1).bits(), 0x1ff2);
    assert_eq!(AccessFs::from_all(Abi::V1).bits(), 0x1fff);
    assert_eq!(AccessFs::from_read(Abi::V2).bits(), 0x000d);
    assert_eq!(AccessFs::from_write(Abi::V2).bits(), 0x3ff2);
    assert_eq!(AccessFs::from_all(Abi::V2).bits(), 0x3fff);
    assert_eq!(AccessFs::from_all(Abi::Unsupported).bits(), 0);
    assert_eq!(AccessFs::from_all(LANDLOCK_ABI).bits(), 0x1fff);
}

#[test]
fn reading_and_writing_share_nothing() {
    for abi in [Abi::Unsupported, Abi::V1, Abi::V2] {
        let read = AccessFs::from_read(abi);
        let write = AccessFs::from_write(abi);
        assert!(read.intersection(write).is_empty());
        assert_eq!(read.union(write), AccessFs::from_all(abi));
        assert_eq!(AccessFs::from_all(abi).difference(write), read);
    }
}

#[test]
fn membership() {
    let read = AccessFs::from_read(Abi::V1);
    assert!(read.contains(AccessFs::Execute));
    assert!(read.contains(AccessFs::ReadFile));
    assert!(read.contains(AccessFs::ReadDir));
    assert!(!read.contains(AccessFs::WriteFile));
    assert!(!read.contains(AccessFs::Refer));
    let empty = AccessRights::empty();
    for right in EVERY_RIGHT {
        assert!(!empty.contains(right));
        assert!(AccessRights::only(right).contains(right));
        assert!(AccessFs::from_all(Abi::V2).contains(right));
    }
    assert!(!AccessFs::from_all(Abi::V1).contains(AccessFs::Refer));
}

#[test]
fn a_set_of_one_holds_just_that_one() {
    for a in EVERY_RIGHT {
        for b in EVERY_RIGHT {
            assert_eq!(AccessRights::only(a).contains(b), a == b);
        }
    }
}

#[test]
fn set_operations() {
    let read = AccessFs::from_read(Abi::V1);
    let list = AccessRights::only(AccessFs::ReadDir);
    let write_file = AccessRights::only(AccessFs::WriteFile);
    assert_eq!(read.symmetric_difference(list).bits(), 0x0005);
    assert_eq!(read.difference(list).bits(), 0x0005);
    assert_eq!(read.symmetric_difference(write_file).bits(), 0x000f);
    assert_eq!(read.difference(write_file), read);
    assert_eq!(read.union(write_file).bits(), 0x000f);
    assert_eq!(read.intersection(list), list);
    assert!(read.intersection(write_file).is_empty());
    assert_eq!(read.symmetric_difference(read), AccessRights::empty());
    assert_eq!(read.union(AccessRights::empty()), read);
}

#[test]
fn emptiness() {
    assert!(AccessRights::empty().is_empty());
    assert_eq!(AccessRights::empty().bits(), 0);
    assert!(AccessFs::from_all(Abi::Unsupported).is_empty());
    for right in EVERY_RIGHT {
        assert!(!AccessRights::only(right).is_empty());
    }
}

#[test]
fn subsets() {
    let read = AccessFs::from_read(Abi::V1);
    let all = AccessFs::from_all(Abi::V1);
    assert!(read.is_subset_of(&all));
    assert!(!all.is_subset_of(&read));
    assert!(read.is_subset_of(&read));
    assert!(AccessRights::empty().is_subset_of(&AccessRights::empty()));
    assert!(AccessRights::empty().is_subset_of(&read));
    assert!(!AccessRights::only(AccessFs::Refer).is_subset_of(&all));
    assert!(AccessRights::only(AccessFs::Refer).is_subset_of(&AccessFs::from_all(Abi::V2)));
}
