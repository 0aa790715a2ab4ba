use vstd::prelude::*;
use crate::memory::{
    lemma_perform_lands, perform, resolvable, target_address, writes_agree, ByteWrite, Memory,
};
use crate::patch::{Patch, PatchError};

verus! {

/// Every patch of the set resolves to an address in the 32-bit address space.
pub open spec fn all_resolvable(base: u32, ps: Seq<Patch>) -> bool {
    forall|i: int| 0 <= i < ps.len() ==> resolvable(base, #[trigger] ps[i].offset)
}

/// Patches that share an offset also share the byte they write.
pub open spec fn offsets_agree(ps: Seq<Patch>) -> bool {
    forall|i: int, j: int|
        0 <= i < ps.len() && 0 <= j < ps.len() && #[trigger] ps[i].offset == #[trigger] ps[j].offset
            ==> ps[i].new == ps[j].new
}

/// The bytes found at the set's resolved addresses, one per patch.
pub open spec fn observe(mem: Memory, base: u32, ps: Seq<Patch>) -> Seq<u8> {
    ps.map_values(|p: Patch| mem(target_address(base, p.offset)))
}

/// Every observed byte is its patch's expected original.
pub open spec fn originals_match(ps: Seq<Patch>, observed: Seq<u8>) -> bool {
    forall|i: int| 0 <= i < ps.len() ==> #[trigger] observed[i] == ps[i].org
}

/// Patch `i` is the first whose observed byte is not its expected original.
pub open spec fn first_mismatch(ps: Seq<Patch>, observed: Seq<u8>, i: int) -> bool {
    &&& 0 <= i < ps.len()
    &&& observed[i] != ps[i].org
    &&& forall|j: int| 0 <= j < i ==> #[trigger] observed[j] == ps[j].org
}

/// The outcome of checking a set's originals against the observed bytes: the
/// first mismatch, with its offset, expected byte and found byte.
pub open spec fn precondition_verdict(ps: Seq<Patch>, observed: Seq<u8>) -> Result<(), PatchError> {
    if exists|i: int| first_mismatch(ps, observed, i) {
        let i = choose|i: int| first_mismatch(ps, observed, i);
        Err(PatchError::ByteMismatch(ps[i].offset, ps[i].org, observed[i]))
    } else {
        Ok(())
    }
}

/// The write that carries out one patch.
pub open spec fn patch_write(base: u32, p: Patch) -> ByteWrite {
    ByteWrite { address: target_address(base, p.offset), offset: p.offset, byte: p.new }
}

/// The writes that carry out a whole set, in the set's order.
pub open spec fn planned_writes(base: u32, ps: Seq<Patch>) -> Seq<ByteWrite> {
    ps.map_values(|p: Patch| patch_write(base, p))
}

/// What applying a set decides: with `verify`, the first mismatch aborts the
/// set before any write; otherwise every patch is written, in order.
pub open spec fn patch_outcome(base: u32, ps: Seq<Patch>, verify: bool, observed: Seq<u8>) -> Result<
    Seq<ByteWrite>,
    PatchError,
> {
    if verify {
        match precondition_verdict(ps, observed) {
            Ok(_) => Ok(planned_writes(base, ps)),
            Err(e) => Err(e),
        }
    } else {
        Ok(planned_writes(base, ps))
    }
}

/// Memory once the writes of an outcome have all been performed; an aborted
/// set writes nothing.
pub open spec fn memory_after(mem: Memory, outcome: Result<Seq<ByteWrite>, PatchError>) -> Memory {
    match outcome {
        Ok(ws) => perform(mem, ws),
        Err(_) => mem,
    }
}

/// There is at most one first mismatch.
proof fn lemma_first_mismatch_unique(ps: Seq<Patch>, observed: Seq<u8>, i: int, j: int)
    requires
        first_mismatch(ps, observed, i),
        first_mismatch(ps, observed, j),
    ensures
        i == j,
{
    if i < j {
        assert(observed[i] == ps[i].org);
    } else if j < i {
        assert(observed[j] == ps[j].org);
    }
}

/// A mismatch anywhere means there is a first one.
proof fn lemma_first_mismatch_exists(ps: Seq<Patch>, observed: Seq<u8>, k: int)
    requires
        0 <= k < ps.len(),
        k < observed.len(),
        observed[k] != ps[k].org,
    ensures
        exists|i: int| first_mismatch(ps, observed, i),
    decreases k,
{
    if forall|j: int| 0 <= j < k ==> #[trigger] observed[j] == ps[j].org {
        assert(first_mismatch(ps, observed, k));
    } else {
        let j = choose|j: int| 0 <= j < k && !(#[trigger] observed[j] == ps[j].org);
        lemma_first_mismatch_exists(ps, observed, j);
    }
}

/// The verdict is `Ok` exactly when every original matches.
proof fn lemma_verdict_ok_iff_match(ps: Seq<Patch>, observed: Seq<u8>)
    requires
        observed.len() == ps.len(),
    ensures
        precondition_verdict(ps, observed) is Ok <==> originals_match(ps, observed),
{
    if !originals_match(ps, observed) {
        let k = choose|k: int| 0 <= k < ps.len() && !(#[trigger] observed[k] == ps[k].org);
        lemma_first_mismatch_exists(ps, observed, k);
    }
}

/// Checks every patch's expected original against the byte observed at its
/// address (`observed[i]` for `patch_set[i]`), and names the first mismatch.
pub fn check_originals(patch_set: &[Patch], observed: &[u8]) -> (r: Result<(), PatchError>)
    requires
        observed@.len() == patch_set@.len(),
    ensures
        r == precondition_verdict(patch_set@, observed@),
        r is Ok <==> originals_match(patch_set@, observed@),
{
    proof {
        lemma_verdict_ok_iff_match(patch_set@, observed@);
    }
    let mut i: usize = 0;
    while i < patch_set.len()
        invariant
            i <= patch_set@.len(),
            observed@.len() == patch_set@.len(),
            forall|j: int| 0 <= j < i ==> #[trigger] observed@[j] == patch_set@[j].org,
        decreases patch_set@.len() - i,
    {
        let p = patch_set[i];
        if observed[i] != p.org {
            proof {
                assert(first_mismatch(patch_set@, observed@, i as int));
                let c = choose|c: int| first_mismatch(patch_set@, observed@, c);
                lemma_first_mismatch_unique(patch_set@, observed@, c, i as int);
            }
            return Err(PatchError::ByteMismatch(p.offset, p.org, observed[i]));
        }
        i = i + 1;
    }
    Ok(())
}

/// Whether every patch of the set resolves against `base`.
pub fn patches_resolvable(base: u32, patch_set: &[Patch]) -> (r: bool)
    ensures
        r == all_resolvable(base, patch_set@),
{
    let mut i: usize = 0;
    while i < patch_set.len()
        invariant
            i <= patch_set@.len(),
            forall|j: int| 0 <= j < i ==> resolvable(base, #[trigger] patch_set@[j].offset),
        decreases patch_set@.len() - i,
    {
        if base.checked_add(patch_set[i].offset).is_none() {
            return false;
        }
        i = i + 1;
    }
    true
}

/// Decides how a patch set is applied, given the module's base address and,
/// when `verify` is set, the bytes observed at the set's addresses. With
/// `verify`, a mismatch aborts the whole set before any write is handed out;
/// otherwise the result lists one write per patch, in the set's order.
pub fn plan_patch(base: u32, patch_set: &[Patch], verify: bool, observed: &[u8]) -> (r: Result<
    Vec<ByteWrite>,
    PatchError,
>)
    requires
        all_resolvable(base, patch_set@),
        verify ==> observed@.len() == patch_set@.len(),
    ensures
        match r {
            Ok(ws) => patch_outcome(base, patch_set@, verify, observed@) == Ok::<
                Seq<ByteWrite>,
                PatchError,
            >(ws@),
            Err(e) => patch_outcome(base, patch_set@, verify, observed@) == Err::<
                Seq<ByteWrite>,
                PatchError,
            >(e),
        },
        r is Ok <==> (!verify || originals_match(patch_set@, observed@)),
{
    if verify {
        if let Err(e) = check_originals(patch_set, observed) {
            return Err(e);
        }
    }
    let mut writes: Vec<ByteWrite> = Vec::new();
    let mut i: usize = 0;
    while i < patch_set.len()
        invariant
            i <= patch_set@.len(),
            all_resolvable(base, patch_set@),
            writes@ == planned_writes(base, patch_set@.take(i as int)),
        decreases patch_set@.len() - i,
    {
        let p = patch_set[i];
        assert(resolvable(base, patch_set@[i as int].offset));
        writes.push(ByteWrite { address: base + p.offset, offset: p.offset, byte: p.new });
        proof {
            assert(patch_set@.take(i + 1) == patch_set@.take(i as int).push(p));
            assert(planned_writes(base, patch_set@.take(i + 1)) =~= planned_writes(
                base,
                patch_set@.take(i as int),
            ).push(patch_write(base, p)));
        }
        i = i + 1;
    }
    assert(patch_set@.take(patch_set@.len() as int) == patch_set@);
    Ok(writes)
}

/// The writes of a set whose offsets agree also agree.
proof fn lemma_planned_writes_agree(base: u32, ps: Seq<Patch>)
    requires
        all_resolvable(base, ps),
        offsets_agree(ps),
    ensures
        writes_agree(planned_writes(base, ps)),
{
    let ws = planned_writes(base, ps);
    assert forall|i: int, j: int|
        0 <= i < ws.len() && 0 <= j < ws.len() && #[trigger] ws[i].address
            == #[trigger] ws[j].address implies ws[i].byte == ws[j].byte by {
        assert(resolvable(base, ps[i].offset) && resolvable(base, ps[j].offset));
        assert(ps[i].offset == ps[j].offset);
    }
}

/// A verified application succeeds exactly when every resolved byte holds its
/// patch's original. Otherwise it fails on the first mismatching patch, naming
/// its offset, the expected byte and the byte found, and writes nothing.
pub proof fn lemma_verified_apply_all_or_nothing(mem: Memory, base: u32, ps: Seq<Patch>)
    requires
        all_resolvable(base, ps),
    ensures
        ({
            let observed = observe(mem, base, ps);
            let outcome = patch_outcome(base, ps, true, observed);
            &&& outcome is Ok <==> (forall|i: int|
                0 <= i < ps.len() ==> mem(target_address(base, #[trigger] ps[i].offset))
                    == ps[i].org)
            &&& outcome is Err ==> memory_after(mem, outcome) == mem && exists|i: int|
                first_mismatch(ps, observed, i) && outcome == Err::<Seq<ByteWrite>, PatchError>(
                    PatchError::ByteMismatch(
                        ps[i].offset,
                        ps[i].org,
                        mem(target_address(base, ps[i].offset)),
                    ),
                )
        }),
{
    let observed = observe(mem, base, ps);
    lemma_verdict_ok_iff_match(ps, observed);
    if exists|i: int| first_mismatch(ps, observed, i) {
        let i = choose|i: int| first_mismatch(ps, observed, i);
        assert(first_mismatch(ps, observed, i));
    }
    assert((forall|i: int|
        0 <= i < ps.len() ==> mem(target_address(base, #[trigger] ps[i].offset)) == ps[i].org)
        <==> originals_match(ps, observed)) by {
        if originals_match(ps, observed) {
            assert forall|i: int| 0 <= i < ps.len() implies mem(
                target_address(base, #[trigger] ps[i].offset),
            ) == ps[i].org by {
                assert(observed[i] == ps[i].org);
            }
        }
    }
}

/// An unverified application hands out one write per patch, whatever bytes
/// are present, and once those writes are done every resolved address holds
/// its patch's new byte.
pub proof fn lemma_unverified_apply_writes_all(
    mem: Memory,
    base: u32,
    ps: Seq<Patch>,
    observed: Seq<u8>,
)
    requires
        all_resolvable(base, ps),
        offsets_agree(ps),
    ensures
        ({
            let outcome = patch_outcome(base, ps, false, observed);
            &&& outcome == Ok::<Seq<ByteWrite>, PatchError>(planned_writes(base, ps))
            &&& planned_writes(base, ps).len() == ps.len()
            &&& forall|i: int|
                0 <= i < ps.len() ==> #[trigger] planned_writes(base, ps)[i] == patch_write(
                    base,
                    ps[i],
                )
            &&& forall|i: int|
                0 <= i < ps.len() ==> memory_after(mem, outcome)(
                    target_address(base, #[trigger] ps[i].offset),
                ) == ps[i].new
        }),
{
    let ws = planned_writes(base, ps);
    lemma_planned_writes_agree(base, ps);
    lemma_perform_lands(mem, ws);
    assert forall|i: int| 0 <= i < ps.len() implies perform(mem, ws)(
        target_address(base, #[trigger] ps[i].offset),
    ) == ps[i].new by {
        assert(ws[i].address == target_address(base, ps[i].offset));
    }
}

/// Patch `j` is the first of the set whose new byte differs from its original.
pub open spec fn first_changing(ps: Seq<Patch>, j: int) -> bool {
    &&& 0 <= j < ps.len()
    &&& ps[j].new != ps[j].org
    &&& forall|i: int| 0 <= i < j ==> #[trigger] ps[i].new == ps[i].org
}

/// Applying a verified set twice in a row fails the second time: the first
/// application replaced an original byte, so the precondition no longer holds,
/// and the second writes nothing. When the first succeeded, the second fails
/// on the first patch that changes its byte, having found that patch's new byte.
pub proof fn lemma_second_verified_apply_fails(mem: Memory, base: u32, ps: Seq<Patch>)
    requires
        all_resolvable(base, ps),
        offsets_agree(ps),
        exists|k: int| 0 <= k < ps.len() && #[trigger] ps[k].new != ps[k].org,
    ensures
        ({
            let first = patch_outcome(base, ps, true, observe(mem, base, ps));
            let mem1 = memory_after(mem, first);
            let second = patch_outcome(base, ps, true, observe(mem1, base, ps));
            &&& second is Err
            &&& memory_after(mem1, second) == mem1
            &&& first is Ok ==> exists|j: int|
                first_changing(ps, j) && second == Err::<Seq<ByteWrite>, PatchError>(
                    PatchError::ByteMismatch(ps[j].offset, ps[j].org, ps[j].new),
                )
        }),
{
    let first = patch_outcome(base, ps, true, observe(mem, base, ps));
    let mem1 = memory_after(mem, first);
    let observed1 = observe(mem1, base, ps);
    lemma_verdict_ok_iff_match(ps, observe(mem, base, ps));
    lemma_verdict_ok_iff_match(ps, observed1);
    let k = choose|k: int| 0 <= k < ps.len() && #[trigger] ps[k].new != ps[k].org;
    if first is Ok {
        lemma_unverified_apply_writes_all(mem, base, ps, observe(mem, base, ps));
        assert forall|i: int| 0 <= i < ps.len() implies #[trigger] observed1[i] == ps[i].new by {
            assert(mem1(target_address(base, ps[i].offset)) == ps[i].new);
        }
        assert(observed1[k] == ps[k].new);
        lemma_first_mismatch_exists(ps, observed1, k);
        let j = choose|j: int| first_mismatch(ps, observed1, j);
        assert(first_changing(ps, j)) by {
            assert forall|i: int| 0 <= i < j implies #[trigger] ps[i].new == ps[i].org by {
                assert(observed1[i] == ps[i].org);
            }
        }
    } else {
        assert(observed1 == observe(mem, base, ps));
    }
}

} // verus!
