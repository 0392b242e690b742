//! Bounds-checked access to a guest's linear memory.

use vstd::prelude::*;
use crate::error::ProgramRuntimeError;

verus! {

/// Whether `len` bytes from `addr` on lie inside a memory of `size` bytes.
pub open spec fn in_bounds(size: int, addr: int, len: int) -> bool {
    0 <= addr && 0 <= len && addr + len <= size
}

/// The memory `mem` after `data` was written at `addr`.
pub open spec fn written(mem: Seq<u8>, addr: int, data: Seq<u8>) -> Seq<u8> {
    Seq::new(
        mem.len(),
        |i: int|
            if addr <= i < addr + data.len() {
                data[i - addr]
            } else {
                mem[i]
            },
    )
}

/// Tells whether `len` bytes from `addr` on lie inside `mem`.
pub fn check_bounds(mem: &[u8], addr: u32, len: usize) -> (ok: bool)
    ensures
        ok == in_bounds(mem@.len() as int, addr as int, len as int),
{
    len <= mem.len() && addr as usize <= mem.len() - len
}

/// Writes `data` into guest memory at `addr`.  When the bytes would not fit
/// inside the memory, nothing is written.
pub fn write_bytes(mem: &mut [u8], addr: u32, data: &[u8]) -> (r: Result<(), ProgramRuntimeError>)
    ensures
        r == if in_bounds(old(mem)@.len() as int, addr as int, data@.len() as int) {
            Ok::<(), ProgramRuntimeError>(())
        } else {
            Err(ProgramRuntimeError::OutOfBounds(addr))
        },
        r is Ok ==> final(mem)@ == written(old(mem)@, addr as int, data@),
        r is Err ==> final(mem)@ == old(mem)@,
{
    if !check_bounds(mem, addr, data.len()) {
        return Err(ProgramRuntimeError::OutOfBounds(addr));
    }
    let base: usize = addr as usize;
    let size: usize = mem.len();
    let mut i: usize = 0;
    while i < data.len()
        invariant
            i <= data@.len(),
            mem@.len() == size,
            size == old(mem)@.len(),
            base + data@.len() <= mem@.len(),
            forall|k: int| 0 <= k < base + i ==> mem@[k] == written(old(mem)@, base as int, data@)[k],
            forall|k: int| base + i <= k < mem@.len() ==> mem@[k] == old(mem)@[k],
        decreases data@.len() - i,
    {
        mem[base + i] = data[i];
        i = i + 1;
    }
    assert(mem@ =~= written(old(mem)@, addr as int, data@));
    Ok(())
}

} // verus!
