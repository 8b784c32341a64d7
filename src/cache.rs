//! The page-aligned anonymous memory region that serves as a guest's block
//! cache, and the write/read-back self-test it must pass before use.
use memmap::MmapMut;
use rand::distributions::Alphanumeric;
use rand::Rng;
use vstd::prelude::*;

use crate::error::DaemonError;

verus! {

/// Size of the block cache of each VM: 2 MiB.
pub const HUGE_TLB_MAX: usize = 2 * 1024 * 1024;

/// `memmap::MmapMut`, a writable memory mapping, held opaquely.
#[verifier::external_type_specification]
#[verifier::external_body]
pub struct ExMmapMut(memmap::MmapMut);

/// `std::io::Error`, the error of a failed mapping, held opaquely.
#[verifier::external_type_specification]
#[verifier::external_body]
pub struct ExIoError(std::io::Error);

/// Number of bytes a memory mapping spans.
pub uninterp spec fn mapped_len(m: MmapMut) -> nat;

/// Whether a byte is an ASCII letter or digit.
pub open spec fn is_alphanumeric(b: u8) -> bool {
    (0x30 <= b <= 0x39) || (0x41 <= b <= 0x5a) || (0x61 <= b <= 0x7a)
}

/// Relies on `memmap::MmapMut::map_anon`: a new anonymous read/write mapping
/// of `len` bytes; a zero length is refused with an error.
#[verifier::external_body]
fn map_anon(len: usize) -> (r: Result<MmapMut, std::io::Error>)
    ensures
        r matches Ok(m) ==> mapped_len(m) == len,
        len == 0 ==> r is Err,
{
    MmapMut::map_anon(len)
}

/// Relies on `<[u8]>::copy_from_slice` through `MmapMut`'s `DerefMut`: it
/// panics unless both lengths agree and leaves the mapping's length as it was.
#[verifier::external_body]
fn write_cache(m: &mut MmapMut, data: &[u8])
    requires
        data@.len() == mapped_len(*old(m)),
    ensures
        mapped_len(*final(m)) == mapped_len(*old(m)),
{
    m.copy_from_slice(data)
}

/// Relies on `<[u8]>::to_vec` through `MmapMut`'s `Deref`: a copy of each
/// byte of the mapping.
#[verifier::external_body]
fn read_cache(m: &MmapMut) -> (r: Vec<u8>)
    ensures
        r@.len() == mapped_len(*m),
{
    m.to_vec()
}

/// Relies on `<[u8]>::as_ptr` through `MmapMut`'s `Deref`: the virtual
/// address at which the mapping starts.
#[verifier::external_body]
pub(crate) fn cache_address(m: &MmapMut) -> (r: u64) {
    m.as_ptr() as usize as u64
}

/// Relies on `rand::thread_rng` sampled through `rand::distributions::Alphanumeric`:
/// `n` random bytes, each an ASCII letter or digit.
#[verifier::external_body]
fn random_alphanumeric(n: usize) -> (r: Vec<u8>)
    ensures
        r@.len() == n,
        forall|i: int| 0 <= i < n ==> is_alphanumeric(#[trigger] r@[i]),
{
    rand::thread_rng().sample_iter(&Alphanumeric).take(n).collect()
}

/// Allocates a zero-initialised anonymous cache of `len` bytes.
pub fn allocate_cache(len: usize) -> (r: Result<MmapMut, DaemonError>)
    ensures
        r matches Ok(m) ==> mapped_len(m) == len,
        r matches Err(e) ==> e == DaemonError::BadState,
        len == 0 ==> r is Err,
{
    match map_anon(len) {
        Ok(m) => Ok(m),
        Err(_) => Err(DaemonError::BadState),
    }
}

/// The verdict of the cache self-test: the bytes read back must be exactly
/// the bytes written.
pub fn cache_self_test(written: &[u8], read: &[u8]) -> (r: Result<(), DaemonError>)
    ensures
        r == (if written@ == read@ {
            Ok::<(), DaemonError>(())
        } else {
            Err(DaemonError::BadState)
        }),
{
    if written.len() != read.len() {
        return Err(DaemonError::BadState);
    }
    let mut i: usize = 0;
    while i < written.len()
        invariant
            i <= written@.len() == read@.len(),
            forall|j: int| 0 <= j < i ==> written@[j] == read@[j],
        decreases written@.len() - i,
    {
        if written[i] != read[i] {
            return Err(DaemonError::BadState);
        }
        i = i + 1;
    }
    assert(written@ =~= read@);
    Ok(())
}

/// Checks that the cache can be trusted: fills it with random bytes, reads
/// it back and compares. A mismatch is a `BadState` error.
pub fn check_cache_address(mmap: &mut MmapMut) -> (r: Result<(), DaemonError>)
    requires
        mapped_len(*old(mmap)) == HUGE_TLB_MAX,
    ensures
        mapped_len(*final(mmap)) == HUGE_TLB_MAX,
        r matches Err(e) ==> e == DaemonError::BadState,
{
    let written = random_alphanumeric(HUGE_TLB_MAX);
    write_cache(mmap, written.as_slice());
    let read = read_cache(mmap);
    cache_self_test(written.as_slice(), read.as_slice())
}

} // verus!
