//! Byte strings: paths, environment keys and values as the operating system holds them.

use vstd::prelude::*;
use vstd::string::StringSliceAdditionalSpecFns;

verus! {

/// `std::str::from_utf8`: the bytes as a string, if they are well-formed UTF-8;
/// the string holds the same bytes.
#[verifier::external_body]
pub(crate) fn as_utf8(bytes: &Vec<u8>) -> (text: Option<&str>)
    ensures
        text is Some <==> vstd::utf8::valid_utf8(bytes@),
        text matches Some(s) ==> s.spec_bytes() == bytes@,
{
    std::str::from_utf8(bytes.as_slice()).ok()
}

/// `b` occurs somewhere in `s`.
pub open spec fn has_byte(s: Seq<u8>, b: u8) -> bool {
    exists|i: int| 0 <= i < s.len() && s[i] == b
}

/// `prefix` is an initial segment of `s`.
pub open spec fn is_prefix(prefix: Seq<u8>, s: Seq<u8>) -> bool {
    prefix.len() <= s.len() && s.subrange(0, prefix.len() as int) == prefix
}

/// Whether `b` occurs in `v`.
pub fn contains_byte(v: &Vec<u8>, b: u8) -> (found: bool)
    ensures
        found == has_byte(v@, b),
{
    let mut i: usize = 0;
    while i < v.len()
        invariant
            i <= v.len(),
            forall|j: int| 0 <= j < i ==> v@[j] != b,
        decreases v.len() - i,
    {
        if v[i] == b {
            return true;
        }
        i += 1;
    }
    false
}

/// Whether the two byte strings are the same.
pub fn bytes_eq(a: &Vec<u8>, b: &Vec<u8>) -> (same: bool)
    ensures
        same == (a@ == b@),
{
    if a.len() != b.len() {
        return false;
    }
    let mut i: usize = 0;
    while i < a.len()
        invariant
            i <= a.len(),
            a.len() == b.len(),
            forall|j: int| 0 <= j < i ==> a@[j] == b@[j],
        decreases a.len() - i,
    {
        if a[i] != b[i] {
            return false;
        }
        i += 1;
    }
    assert(a@ =~= b@);
    true
}

/// Whether `v` begins with `prefix`.
pub fn starts_with(v: &Vec<u8>, prefix: &Vec<u8>) -> (yes: bool)
    ensures
        yes == is_prefix(prefix@, v@),
{
    if prefix.len() > v.len() {
        return false;
    }
    let mut i: usize = 0;
    while i < prefix.len()
        invariant
            i <= prefix.len(),
            prefix.len() <= v.len(),
            forall|j: int| 0 <= j < i ==> v@[j] == prefix@[j],
        decreases prefix.len() - i,
    {
        if v[i] != prefix[i] {
            assert(v@.subrange(0, prefix@.len() as int)[i as int] != prefix@[i as int]);
            return false;
        }
        i += 1;
    }
    assert(v@.subrange(0, prefix@.len() as int) =~= prefix@);
    true
}

/// Appends `src` to `dst`.
pub fn append(dst: &mut Vec<u8>, src: &Vec<u8>)
    ensures
        final(dst)@ == old(dst)@ + src@,
{
    let mut i: usize = 0;
    while i < src.len()
        invariant
            i <= src.len(),
            dst@ == old(dst)@ + src@.subrange(0, i as int),
        decreases src.len() - i,
    {
        dst.push(src[i]);
        i += 1;
        assert(dst@ =~= old(dst)@ + src@.subrange(0, i as int));
    }
    assert(src@.subrange(0, src@.len() as int) =~= src@);
}

/// The part of `v` from `start` on.
pub fn tail_from(v: &Vec<u8>, start: usize) -> (tail: Vec<u8>)
    requires
        start <= v.len(),
    ensures
        tail@ == v@.subrange(start as int, v@.len() as int),
{
    let mut tail: Vec<u8> = Vec::new();
    let mut i: usize = start;
    while i < v.len()
        invariant
            start <= i <= v.len(),
            tail@ == v@.subrange(start as int, i as int),
        decreases v.len() - i,
    {
        tail.push(v[i]);
        i += 1;
        assert(tail@ =~= v@.subrange(start as int, i as int));
    }
    tail
}

/// A copy of `v`.
pub fn copy_of(v: &Vec<u8>) -> (copy: Vec<u8>)
    ensures
        copy@ == v@,
{
    let copy = tail_from(v, 0);
    assert(v@.subrange(0, v@.len() as int) =~= v@);
    copy
}

} // verus!
