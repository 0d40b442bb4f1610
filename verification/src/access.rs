//! File system access rights, and sets of them.
//!
//! A right is one of the kinds of access that the kernel's Landlock feature
//! tells apart. A set of rights is kept as the kernel takes it: one bit for each
//! right. Contracts speak of it as a mathematical set.

use vstd::prelude::*;

verus! {

/// Version of the Landlock interface.
#[derive(Debug, Clone, Copy, PartialEq, Eq, Structural)]
pub enum Abi {
    /// No Landlock at all.
    Unsupported,
    /// The first version.
    V1,
    /// The second version, which adds [`AccessFs::Refer`].
    V2,
}

/// The version whose rights a rule set handles. It is fixed, and the same on
/// every host: it is never taken from what the running kernel offers, so that
/// untrusted code meets the same restrictions everywhere.
pub const LANDLOCK_ABI: Abi = Abi::V1;

/// A file system access right.
#[derive(Debug, Clone, Copy, PartialEq, Eq, Structural)]
pub enum AccessFs {
    /// Execute a file.
    Execute,
    /// Open a file with write access.
    WriteFile,
    /// Open a file with read access.
    ReadFile,
    /// Open a directory or list its content.
    ReadDir,
    /// Remove an empty directory or rename one.
    RemoveDir,
    /// Unlink or rename a file.
    RemoveFile,
    /// Create, rename or link a character device.
    MakeChar,
    /// Create or rename a directory.
    MakeDir,
    /// Create, rename or link a regular file.
    MakeReg,
    /// Create, rename or link a UNIX domain socket.
    MakeSock,
    /// Create, rename or link a named pipe.
    MakeFifo,
    /// Create, rename or link a block device.
    MakeBlock,
    /// Create, rename or link a symbolic link.
    MakeSym,
    /// Link or rename a file from or to a different directory.
    Refer,
}

/// Number of rights.
pub const RIGHT_COUNT: u64 = 14;

/// The bits of all rights together.
pub const ALL_BITS: u64 = 0x3fff;

impl AccessFs {
    /// Number of the bit that stands for the right.
    pub open spec fn position(self) -> u64 {
        match self {
            AccessFs::Execute => 0,
            AccessFs::WriteFile => 1,
            AccessFs::ReadFile => 2,
            AccessFs::ReadDir => 3,
            AccessFs::RemoveDir => 4,
            AccessFs::RemoveFile => 5,
            AccessFs::MakeChar => 6,
            AccessFs::MakeDir => 7,
            AccessFs::MakeReg => 8,
            AccessFs::MakeSock => 9,
            AccessFs::MakeFifo => 10,
            AccessFs::MakeBlock => 11,
            AccessFs::MakeSym => 12,
            AccessFs::Refer => 13,
        }
    }

    /// The bit that stands for the right.
    pub open spec fn spec_bit(self) -> u64 {
        1u64 << self.position()
    }

    /// The bit that stands for the right.
    pub fn bit(self) -> (bit: u64)
        ensures
            bit == self.spec_bit(),
    {
        let position: u64 = match self {
            AccessFs::Execute => 0,
            AccessFs::WriteFile => 1,
            AccessFs::ReadFile => 2,
            AccessFs::ReadDir => 3,
            AccessFs::RemoveDir => 4,
            AccessFs::RemoveFile => 5,
            AccessFs::MakeChar => 6,
            AccessFs::MakeDir => 7,
            AccessFs::MakeReg => 8,
            AccessFs::MakeSock => 9,
            AccessFs::MakeFifo => 10,
            AccessFs::MakeBlock => 11,
            AccessFs::MakeSym => 12,
            AccessFs::Refer => 13,
        };
        1u64 << position
    }

    /// The rights that count as reading under the given version.
    pub open spec fn read_rights(abi: Abi) -> Set<AccessFs> {
        match abi {
            Abi::Unsupported => Set::empty(),
            _ => set![AccessFs::Execute, AccessFs::ReadFile, AccessFs::ReadDir],
        }
    }

    /// The rights that count as writing under the first version.
    pub open spec fn first_write_rights() -> Set<AccessFs> {
        set![
            AccessFs::WriteFile,
            AccessFs::RemoveDir,
            AccessFs::RemoveFile,
            AccessFs::MakeChar,
            AccessFs::MakeDir,
            AccessFs::MakeReg,
            AccessFs::MakeSock,
            AccessFs::MakeFifo,
            AccessFs::MakeBlock,
            AccessFs::MakeSym
        ]
    }

    /// The rights that count as writing under the given version.
    pub open spec fn write_rights(abi: Abi) -> Set<AccessFs> {
        match abi {
            Abi::Unsupported => Set::empty(),
            Abi::V1 => Self::first_write_rights(),
            Abi::V2 => Self::first_write_rights().insert(AccessFs::Refer),
        }
    }

    /// All rights that the given version knows: those of reading and those of
    /// writing.
    pub open spec fn all_rights(abi: Abi) -> Set<AccessFs> {
        Self::read_rights(abi).union(Self::write_rights(abi))
    }

    /// The rights that count as reading under the given version.
    pub fn from_read(abi: Abi) -> (rights: AccessRights)
        ensures
            rights@ == Self::read_rights(abi),
    {
        let bits: u64 = match abi {
            Abi::Unsupported => 0,
            _ => 0x000d,
        };
        proof {
            lemma_bits_of_constants();
        }
        let rights = AccessRights { bits };
        assert(rights@ =~= Self::read_rights(abi));
        rights
    }

    /// The rights that count as writing under the given version.
    pub fn from_write(abi: Abi) -> (rights: AccessRights)
        ensures
            rights@ == Self::write_rights(abi),
    {
        let bits: u64 = match abi {
            Abi::Unsupported => 0,
            Abi::V1 => 0x1ff2,
            Abi::V2 => 0x3ff2,
        };
        proof {
            lemma_bits_of_constants();
        }
        let rights = AccessRights { bits };
        assert(rights@ =~= Self::write_rights(abi));
        rights
    }

    /// All rights that the given version knows.
    pub fn from_all(abi: Abi) -> (rights: AccessRights)
        ensures
            rights@ == Self::all_rights(abi),
    {
        Self::from_read(abi).union(Self::from_write(abi))
    }
}

/// A set of file system access rights.
#[derive(Debug, Clone, Copy, PartialEq, Eq)]
pub struct AccessRights {
    bits: u64,
}

impl View for AccessRights {
    type V = Set<AccessFs>;

    closed spec fn view(&self) -> Set<AccessFs> {
        Set::new(|right: AccessFs| self.bits & right.spec_bit() != 0)
    }
}

impl AccessRights {
    #[verifier::type_invariant]
    spec fn well_formed(self) -> bool {
        self.bits <= ALL_BITS
    }

    /// The bits of the set, one for each right that it holds.
    pub closed spec fn spec_bits(self) -> u64 {
        self.bits
    }

    /// The set without any right.
    pub fn empty() -> (rights: AccessRights)
        ensures
            rights@ == Set::<AccessFs>::empty(),
    {
        let rights = AccessRights { bits: 0 };
        proof {
            assert forall|right: AccessFs| !rights@.contains(right) by {
                lemma_bit_of_zero(right.position());
            }
        }
        assert(rights@ =~= Set::<AccessFs>::empty());
        rights
    }

    /// The set of one right.
    pub fn only(right: AccessFs) -> (rights: AccessRights)
        ensures
            rights@ == set![right],
    {
        proof {
            lemma_bit_in_range(right.position());
        }
        let rights = AccessRights { bits: right.bit() };
        proof {
            assert forall|other: AccessFs| rights@.contains(other) <==> other == right by {
                lemma_distinct_bits(right.position(), other.position());
            }
        }
        assert(rights@ =~= set![right]);
        rights
    }

    /// Whether the set holds `right`.
    pub fn contains(&self, right: AccessFs) -> (held: bool)
        ensures
            held == self@.contains(right),
    {
        self.bits & right.bit() != 0
    }

    /// Whether the set holds no right.
    pub fn is_empty(&self) -> (none: bool)
        ensures
            none == (self@ == Set::<AccessFs>::empty()),
    {
        proof {
            use_type_invariant(self);
            if self.bits != 0 {
                let position = lemma_some_bit_is_set(self.bits);
                let right = right_at(position);
                assert(self@.contains(right));
            } else {
                assert forall|right: AccessFs| !self@.contains(right) by {
                    lemma_bit_of_zero(right.position());
                }
                assert(self@ =~= Set::<AccessFs>::empty());
            }
        }
        self.bits == 0
    }

    /// The rights of either set.
    pub fn union(self, other: AccessRights) -> (rights: AccessRights)
        ensures
            rights@ == self@.union(other@),
    {
        proof {
            use_type_invariant(self);
            use_type_invariant(other);
            lemma_union_bits(self.bits, other.bits);
        }
        let rights = AccessRights { bits: self.bits | other.bits };
        proof {
            assert forall|right: AccessFs|
                rights@.contains(right) <==> self@.contains(right) || other@.contains(right) by {
                lemma_union_bit(self.bits, other.bits, right.position());
            }
        }
        assert(rights@ =~= self@.union(other@));
        rights
    }

    /// The rights of both sets.
    pub fn intersection(self, other: AccessRights) -> (rights: AccessRights)
        ensures
            rights@ == self@.intersect(other@),
    {
        proof {
            use_type_invariant(self);
            lemma_intersection_bits(self.bits, other.bits);
        }
        let rights = AccessRights { bits: self.bits & other.bits };
        proof {
            assert forall|right: AccessFs|
                rights@.contains(right) <==> self@.contains(right) && other@.contains(right) by {
                lemma_intersection_bit(self.bits, other.bits, right.position());
            }
        }
        assert(rights@ =~= self@.intersect(other@));
        rights
    }

    /// The rights of this set that `other` does not hold.
    pub fn difference(self, other: AccessRights) -> (rights: AccessRights)
        ensures
            rights@ == self@.difference(other@),
    {
        proof {
            use_type_invariant(self);
            lemma_difference_bits(self.bits, other.bits);
        }
        let rights = AccessRights { bits: self.bits & !other.bits };
        proof {
            assert forall|right: AccessFs|
                rights@.contains(right) <==> self@.contains(right) && !other@.contains(right) by {
                lemma_difference_bit(self.bits, other.bits, right.position());
            }
        }
        assert(rights@ =~= self@.difference(other@));
        rights
    }

    /// The rights that exactly one of the two sets holds.
    pub fn symmetric_difference(self, other: AccessRights) -> (rights: AccessRights)
        ensures
            rights@ == self@.difference(other@).union(other@.difference(self@)),
    {
        proof {
            use_type_invariant(self);
            use_type_invariant(other);
            lemma_symmetric_difference_bits(self.bits, other.bits);
        }
        let rights = AccessRights { bits: self.bits ^ other.bits };
        proof {
            assert forall|right: AccessFs|
                rights@.contains(right) <==> (self@.contains(right) != other@.contains(right)) by {
                lemma_symmetric_difference_bit(self.bits, other.bits, right.position());
            }
        }
        assert(rights@ =~= self@.difference(other@).union(other@.difference(self@)));
        rights
    }

    /// Whether every right of this set is a right of `other`.
    pub fn is_subset_of(&self, other: &AccessRights) -> (within: bool)
        ensures
            within == self@.subset_of(other@),
    {
        let rest = self.difference(*other);
        proof {
            if rest@ == Set::<AccessFs>::empty() {
                assert forall|right: AccessFs| self@.contains(right) implies other@.contains(
                    right,
                ) by {
                    assert(!rest@.contains(right));
                }
            } else {
                assert(!(rest@ =~= Set::<AccessFs>::empty()));
            }
        }
        rest.is_empty()
    }

    /// The bits of the set, one for each right that it holds, as the kernel
    /// takes them.
    pub fn bits(&self) -> (bits: u64)
        ensures
            bits == self.spec_bits(),
            bits <= ALL_BITS,
            forall|right: AccessFs| self@.contains(right) <==> bits & right.spec_bit() != 0,
    {
        proof {
            use_type_invariant(self);
        }
        self.bits
    }
}

/// The right whose bit has the given number.
pub open spec fn right_at(position: u64) -> AccessFs {
    if position == 0 {
        AccessFs::Execute
    } else if position == 1 {
        AccessFs::WriteFile
    } else if position == 2 {
        AccessFs::ReadFile
    } else if position == 3 {
        AccessFs::ReadDir
    } else if position == 4 {
        AccessFs::RemoveDir
    } else if position == 5 {
        AccessFs::RemoveFile
    } else if position == 6 {
        AccessFs::MakeChar
    } else if position == 7 {
        AccessFs::MakeDir
    } else if position == 8 {
        AccessFs::MakeReg
    } else if position == 9 {
        AccessFs::MakeSock
    } else if position == 10 {
        AccessFs::MakeFifo
    } else if position == 11 {
        AccessFs::MakeBlock
    } else if position == 12 {
        AccessFs::MakeSym
    } else {
        AccessFs::Refer
    }
}

proof fn lemma_bit_of_zero(position: u64)
    requires
        position < RIGHT_COUNT,
    ensures
        0u64 & (1u64 << position) == 0,
{
    assert(0u64 & (1u64 << position) == 0) by (bit_vector);
}

proof fn lemma_bit_in_range(position: u64)
    requires
        position < RIGHT_COUNT,
    ensures
        (1u64 << position) <= ALL_BITS,
        (1u64 << position) != 0,
{
    assert(position < 14 ==> (1u64 << position) <= 0x3fff && (1u64 << position) != 0)
        by (bit_vector);
}

proof fn lemma_distinct_bits(p: u64, q: u64)
    requires
        p < RIGHT_COUNT,
        q < RIGHT_COUNT,
    ensures
        ((1u64 << p) & (1u64 << q) != 0) <==> p == q,
{
    assert(p < 14 && q < 14 ==> (((1u64 << p) & (1u64 << q) != 0) <==> p == q)) by (bit_vector);
}

proof fn lemma_some_bit_is_set(bits: u64) -> (position: u64)
    requires
        bits != 0,
        bits <= ALL_BITS,
    ensures
        position < RIGHT_COUNT,
        bits & (1u64 << position) != 0,
{
    assert(bits != 0 && bits <= 0x3fff ==> bits & (1u64 << 0) != 0 || bits & (1u64 << 1) != 0 || bits
        & (1u64 << 2) != 0 || bits & (1u64 << 3) != 0 || bits & (1u64 << 4) != 0 || bits & (1u64
        << 5) != 0 || bits & (1u64 << 6) != 0 || bits & (1u64 << 7) != 0 || bits & (1u64 << 8) != 0
        || bits & (1u64 << 9) != 0 || bits & (1u64 << 10) != 0 || bits & (1u64 << 11) != 0 || bits
        & (1u64 << 12) != 0 || bits & (1u64 << 13) != 0) by (bit_vector);
    if bits & (1u64 << 0) != 0 {
        0
    } else if bits & (1u64 << 1) != 0 {
        1
    } else if bits & (1u64 << 2) != 0 {
        2
    } else if bits & (1u64 << 3) != 0 {
        3
    } else if bits & (1u64 << 4) != 0 {
        4
    } else if bits & (1u64 << 5) != 0 {
        5
    } else if bits & (1u64 << 6) != 0 {
        6
    } else if bits & (1u64 << 7) != 0 {
        7
    } else if bits & (1u64 << 8) != 0 {
        8
    } else if bits & (1u64 << 9) != 0 {
        9
    } else if bits & (1u64 << 10) != 0 {
        10
    } else if bits & (1u64 << 11) != 0 {
        11
    } else if bits & (1u64 << 12) != 0 {
        12
    } else {
        13
    }
}

proof fn lemma_union_bits(a: u64, b: u64)
    requires
        a <= ALL_BITS,
        b <= ALL_BITS,
    ensures
        (a | b) <= ALL_BITS,
{
    assert(a <= 0x3fff && b <= 0x3fff ==> (a | b) <= 0x3fff) by (bit_vector);
}

proof fn lemma_union_bit(a: u64, b: u64, position: u64)
    requires
        position < RIGHT_COUNT,
    ensures
        ((a | b) & (1u64 << position) != 0) <==> (a & (1u64 << position) != 0 || b & (1u64
            << position) != 0),
{
    assert(((a | b) & (1u64 << position) != 0) <==> (a & (1u64 << position) != 0 || b & (1u64
        << position) != 0)) by (bit_vector);
}

proof fn lemma_intersection_bits(a: u64, b: u64)
    requires
        a <= ALL_BITS,
    ensures
        (a & b) <= ALL_BITS,
{
    assert(a <= 0x3fff ==> (a & b) <= 0x3fff) by (bit_vector);
}

proof fn lemma_intersection_bit(a: u64, b: u64, position: u64)
    requires
        position < RIGHT_COUNT,
    ensures
        ((a & b) & (1u64 << position) != 0) <==> (a & (1u64 << position) != 0 && b & (1u64
            << position) != 0),
{
    assert(position < 14 ==> (((a & b) & (1u64 << position) != 0) <==> (a & (1u64 << position) != 0
        && b & (1u64 << position) != 0))) by (bit_vector);
}

proof fn lemma_difference_bits(a: u64, b: u64)
    requires
        a <= ALL_BITS,
    ensures
        (a & !b) <= ALL_BITS,
{
    assert(a <= 0x3fff ==> (a & !b) <= 0x3fff) by (bit_vector);
}

proof fn lemma_difference_bit(a: u64, b: u64, position: u64)
    requires
        position < RIGHT_COUNT,
    ensures
        ((a & !b) & (1u64 << position) != 0) <==> (a & (1u64 << position) != 0 && !(b & (1u64
            << position) != 0)),
{
    assert(position < 14 ==> (((a & !b) & (1u64 << position) != 0) <==> (a & (1u64 << position) != 0
        && !(b & (1u64 << position) != 0)))) by (bit_vector);
}

proof fn lemma_symmetric_difference_bits(a: u64, b: u64)
    requires
        a <= ALL_BITS,
        b <= ALL_BITS,
    ensures
        (a ^ b) <= ALL_BITS,
{
    assert(a <= 0x3fff && b <= 0x3fff ==> (a ^ b) <= 0x3fff) by (bit_vector);
}

proof fn lemma_symmetric_difference_bit(a: u64, b: u64, position: u64)
    requires
        position < RIGHT_COUNT,
    ensures
        ((a ^ b) & (1u64 << position) != 0) <==> ((a & (1u64 << position) != 0) != (b & (1u64
            << position) != 0)),
{
    assert(position < 14 ==> (((a ^ b) & (1u64 << position) != 0) <==> ((a & (1u64 << position)
        != 0) != (b & (1u64 << position) != 0)))) by (bit_vector);
}

/// Which rights the bit patterns of the named sets hold.
proof fn lemma_bits_of_constants()
    ensures
        forall|p: u64| p < RIGHT_COUNT ==> 0u64 & (1u64 << p) == 0,
        forall|p: u64|
            p < RIGHT_COUNT ==> ((0x000du64 & (1u64 << p) != 0) <==> (p == 0 || p == 2 || p == 3)),
        forall|p: u64|
            p < RIGHT_COUNT ==> ((0x1ff2u64 & (1u64 << p) != 0) <==> (p == 1 || (4 <= p && p
                <= 12))),
        forall|p: u64|
            p < RIGHT_COUNT ==> ((0x3ff2u64 & (1u64 << p) != 0) <==> (p == 1 || (4 <= p && p
                <= 13))),
{
    assert forall|p: u64| p < RIGHT_COUNT implies 0u64 & (1u64 << p) == 0 by {
        assert(0u64 & (1u64 << p) == 0) by (bit_vector);
    }
    assert forall|p: u64| p < RIGHT_COUNT implies ((0x000du64 & (1u64 << p) != 0) <==> (p == 0 || p
        == 2 || p == 3)) by {
        assert(p < 14 ==> ((0x000du64 & (1u64 << p) != 0) <==> (p == 0 || p == 2 || p == 3)))
            by (bit_vector);
    }
    assert forall|p: u64| p < RIGHT_COUNT implies ((0x1ff2u64 & (1u64 << p) != 0) <==> (p == 1 || (4
        <= p && p <= 12))) by {
        assert(p < 14 ==> ((0x1ff2u64 & (1u64 << p) != 0) <==> (p == 1 || (4 <= p && p <= 12))))
            by (bit_vector);
    }
    assert forall|p: u64| p < RIGHT_COUNT implies ((0x3ff2u64 & (1u64 << p) != 0) <==> (p == 1 || (4
        <= p && p <= 13))) by {
        assert(p < 14 ==> ((0x3ff2u64 & (1u64 << p) != 0) <==> (p == 1 || (4 <= p && p <= 13))))
            by (bit_vector);
    }
}

} // verus!
