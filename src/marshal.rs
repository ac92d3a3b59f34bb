//! Bounded copies into buffers that the host owns. Every write is bounded by
//! the length of the destination, and each copy says how much it wrote.
use vstd::prelude::*;
use vstd::string::StringSliceAdditionalSpecFns;

verus! {

/// Length of the name buffer that the host hands to the open call; the host
/// documents it, the call itself does not pass it.
pub const NAME_BUFFER_LEN: usize = 32;

/// The bytes of `s` followed by one terminating zero byte.
pub open spec fn terminated(s: Seq<u8>) -> Seq<u8> {
    s.push(0u8)
}

/// Writes the bytes of `src` and one terminating zero byte at the start of
/// `dst`, and returns the number of bytes of `src`; where `dst` has no room
/// for both it writes nothing and returns `None`.
pub fn copy_into(src: &str, dst: &mut [u8]) -> (r: Option<usize>)
    ensures
        src.spec_bytes().len() < old(dst)@.len() ==> r == Some(src.spec_bytes().len() as usize)
            && final(dst)@ == terminated(src.spec_bytes()) + old(dst)@.subrange(
            src.spec_bytes().len() + 1 as int,
            old(dst)@.len() as int,
        ),
        src.spec_bytes().len() >= old(dst)@.len() ==> r is None && final(dst)@ == old(dst)@,
{
    let bytes = src.as_bytes();
    let n = bytes.len();
    if n >= dst.len() {
        return None;
    }
    let ghost before = dst@;
    let mut i: usize = 0;
    while i < n
        invariant
            n == bytes@.len(),
            bytes@ == src.spec_bytes(),
            n < dst@.len(),
            dst@.len() == before.len(),
            i <= n,
            forall|j: int| 0 <= j < i ==> dst@[j] == bytes@[j],
            forall|j: int| i <= j < dst@.len() ==> dst@[j] == before[j],
        decreases n - i,
    {
        dst[i] = bytes[i];
        i += 1;
    }
    dst[n] = 0u8;
    assert(dst@ =~= terminated(src.spec_bytes()) + before.subrange(n + 1, before.len() as int));
    Some(n)
}

/// How many records a bounded copy writes: all of the source where it fits,
/// else as many as the destination holds.
pub open spec fn written(source_len: nat, capacity: nat) -> nat {
    if source_len <= capacity { source_len } else { capacity }
}

/// Copies the first records of `source` into `destination`, as many as fit,
/// and returns how many it copied; the rest of `destination` is untouched.
pub fn write_records<T: Copy>(source: &[T], destination: &mut [T]) -> (r: usize)
    ensures
        r == written(source@.len(), old(destination)@.len()),
        final(destination)@ == source@.subrange(0, r as int) + old(destination)@.subrange(
            r as int,
            old(destination)@.len() as int,
        ),
{
    let n: usize = if source.len() <= destination.len() {
        source.len()
    } else {
        destination.len()
    };
    let ghost before = destination@;
    let mut i: usize = 0;
    while i < n
        invariant
            n <= source@.len(),
            n <= before.len(),
            destination@.len() == before.len(),
            i <= n,
            forall|j: int| 0 <= j < i ==> destination@[j] == source@[j],
            forall|j: int| i <= j < destination@.len() ==> destination@[j] == before[j],
        decreases n - i,
    {
        destination[i] = source[i];
        i += 1;
    }
    assert(destination@ =~= source@.subrange(0, n as int) + before.subrange(
        n as int,
        before.len() as int,
    ));
    n
}

} // verus!
