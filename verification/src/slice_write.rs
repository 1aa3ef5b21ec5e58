//! Writing bytes into a fixed buffer through embedded-io's `Write` for byte slices.
use vstd::prelude::*;

use embedded_io::Write;

verus! {

/// The error that embedded-io's `Write` for byte slices returns when the slice is full.
#[verifier::external_type_specification]
#[verifier::external_body]
pub struct ExSliceWriteError(embedded_io::SliceWriteError);

/// Writes `data` into `target` from position `pos` on, through
/// `<&mut [u8] as embedded_io::Write>::write_all`. That function writes as many bytes as
/// the slice has room for; it returns `Ok` when all of `data` fits and the `Full` error
/// otherwise, after filling the slice with the first bytes of `data`. No byte before
/// `pos` or after the written ones changes, and the buffer keeps its length.
#[verifier::external_body]
pub(crate) fn write_all_at(target: &mut [u8], pos: usize, data: &[u8]) -> (r: Result<
    (),
    embedded_io::SliceWriteError,
>)
    requires
        pos <= old(target)@.len(),
    ensures
        final(target)@.len() == old(target)@.len(),
        pos + data@.len() <= old(target)@.len() ==> r is Ok && final(target)@ == old(
            target,
        )@.subrange(0, pos as int) + data@ + old(target)@.subrange(
            pos + data@.len() as int,
            old(target)@.len() as int,
        ),
        pos + data@.len() > old(target)@.len() ==> r is Err && final(target)@ == old(
            target,
        )@.subrange(0, pos as int) + data@.subrange(0, old(target)@.len() - pos),
{
    let mut rest: &mut [u8] = &mut target[pos..];
    rest.write_all(data)
}

} // verus!
