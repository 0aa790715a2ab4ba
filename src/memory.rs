use vstd::prelude::*;
use crate::patch::PatchError;

verus! {

/// The byte contents of the process's address space, as the contracts see it.
pub type Memory = spec_fn(u32) -> u8;

/// The absolute address `offset` bytes past `base` fits the 32-bit address space.
pub open spec fn resolvable(base: u32, offset: u32) -> bool {
    base + offset <= u32::MAX
}

/// The absolute address `offset` bytes past `base`.
pub open spec fn target_address(base: u32, offset: u32) -> u32 {
    (base + offset) as u32
}

/// Translates a module-relative offset into an absolute address, given the
/// module's base address. `None` when the sum leaves the address space: such
/// an address is never handed out.
pub fn resolve(base: u32, offset: u32) -> (r: Option<u32>)
    ensures
        r == (if resolvable(base, offset) {
            Some(target_address(base, offset))
        } else {
            None::<u32>
        }),
{
    base.checked_add(offset)
}

/// One single-byte write at an absolute address, with the module-relative
/// offset it was resolved from (used to report a failed write).
#[derive(Clone, Copy, Debug, PartialEq, Eq, Structural)]
pub struct ByteWrite {
    pub address: u32,
    pub offset: u32,
    pub byte: u8,
}

/// What one attempted write means for its patch set: nothing when the
/// platform accepted it, otherwise a protection error naming the patch's
/// offset (the set stops there).
pub fn write_outcome(w: &ByteWrite, accepted: bool) -> (r: Result<(), PatchError>)
    ensures
        r == (if accepted {
            Ok::<(), PatchError>(())
        } else {
            Err(PatchError::Protection(w.offset))
        }),
{
    if accepted {
        Ok(())
    } else {
        Err(PatchError::Protection(w.offset))
    }
}

/// Memory after one byte write.
pub open spec fn store(mem: Memory, w: ByteWrite) -> Memory {
    |a: u32| if a == w.address { w.byte } else { mem(a) }
}

/// Memory after a sequence of byte writes, performed in order.
pub open spec fn perform(mem: Memory, ws: Seq<ByteWrite>) -> Memory
    decreases ws.len(),
{
    if ws.len() == 0 {
        mem
    } else {
        store(perform(mem, ws.drop_last()), ws.last())
    }
}

/// Writes agree wherever they meet: two writes to one address store one byte.
pub open spec fn writes_agree(ws: Seq<ByteWrite>) -> bool {
    forall|i: int, j: int|
        0 <= i < ws.len() && 0 <= j < ws.len() && #[trigger] ws[i].address == #[trigger] ws[j].address
            ==> ws[i].byte == ws[j].byte
}

/// After writes that agree, every written address holds its write's byte.
pub proof fn lemma_perform_lands(mem: Memory, ws: Seq<ByteWrite>)
    requires
        writes_agree(ws),
    ensures
        forall|i: int| 0 <= i < ws.len() ==> perform(mem, ws)(#[trigger] ws[i].address) == ws[i].byte,
    decreases ws.len(),
{
    if ws.len() > 0 {
        let init = ws.drop_last();
        assert(writes_agree(init)) by {
            assert forall|i: int, j: int|
                0 <= i < init.len() && 0 <= j < init.len() && #[trigger] init[i].address
                    == #[trigger] init[j].address implies init[i].byte == init[j].byte by {
                assert(init[i] == ws[i] && init[j] == ws[j]);
            }
        }
        lemma_perform_lands(mem, init);
        assert forall|i: int| 0 <= i < ws.len() implies perform(mem, ws)(#[trigger] ws[i].address)
            == ws[i].byte by {
            if i < ws.len() - 1 {
                assert(init[i] == ws[i]);
                if ws[i].address == ws.last().address {
                    assert(ws[i].address == ws[ws.len() - 1].address);
                }
            }
        }
    }
}

} // verus!
