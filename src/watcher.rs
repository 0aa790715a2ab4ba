use vstd::prelude::*;
use crate::engine::{all_resolvable, memory_after, offsets_agree, patch_outcome};
use crate::engine::lemma_unverified_apply_writes_all;
use crate::memory::{resolvable, target_address, Memory};
use crate::patch::Patch;

verus! {

/// Milliseconds slept between two polls of a watcher.
pub const POLL_INTERVAL_MS: u64 = 1;

/// Consecutive stable polls after which the resolution watcher retires.
pub const STABILITY_BOUND: u32 = 1000;

/// What one poll of a byte watcher found.
#[derive(Clone, Copy, Debug, PartialEq, Eq, Structural)]
pub enum PollOutcome {
    /// The watched state holds its desired value: nothing to do.
    Stable,
    /// The watched state drifted: the corrective action is due.
    Repair,
}

/// Watches one byte of a patch set (its first patch) and asks for the set to
/// be re-applied whenever that byte no longer holds the patched value.
#[derive(Clone, Copy, Debug, PartialEq, Eq, Structural)]
pub struct ByteWatcher {
    /// Absolute address of the watched byte.
    pub address: u32,
    /// The byte the watched address should hold.
    pub desired: u8,
}

/// The watcher that guards a patch set: its first patch's address and byte.
pub open spec fn set_watcher(base: u32, ps: Seq<Patch>) -> ByteWatcher {
    ByteWatcher { address: target_address(base, ps[0].offset), desired: ps[0].new }
}

impl ByteWatcher {
    /// A poll's verdict on the byte observed at the watched address.
    pub open spec fn outcome(self, observed: u8) -> PollOutcome {
        if observed == self.desired {
            PollOutcome::Stable
        } else {
            PollOutcome::Repair
        }
    }

    /// The watcher for a patch set, resolved against the module's base.
    pub fn for_patch_set(base: u32, patch_set: &[Patch]) -> (r: ByteWatcher)
        requires
            patch_set@.len() > 0,
            all_resolvable(base, patch_set@),
        ensures
            r == set_watcher(base, patch_set@),
    {
        let first = patch_set[0];
        assert(resolvable(base, patch_set@[0].offset));
        ByteWatcher { address: base + first.offset, desired: first.new }
    }

    /// Compares the byte observed at the watched address with the desired one.
    pub fn poll(&self, observed: u8) -> (r: PollOutcome)
        ensures
            r == self.outcome(observed),
    {
        if observed == self.desired {
            PollOutcome::Stable
        } else {
            PollOutcome::Repair
        }
    }
}

/// A set's watcher asks for a repair exactly when its byte has drifted, and
/// once the set has been written again (without verification) its next poll
/// is stable: each drift brings one repair, not a stream of them.
pub proof fn lemma_repair_settles(mem: Memory, base: u32, ps: Seq<Patch>)
    requires
        ps.len() > 0,
        all_resolvable(base, ps),
        offsets_agree(ps),
    ensures
        ({
            let w = set_watcher(base, ps);
            let repaired = memory_after(mem, patch_outcome(base, ps, false, Seq::<u8>::empty()));
            &&& w.outcome(mem(w.address)) == PollOutcome::Repair <==> mem(w.address) != ps[0].new
            &&& repaired(w.address) == ps[0].new
            &&& w.outcome(repaired(w.address)) == PollOutcome::Stable
        }),
{
    lemma_unverified_apply_writes_all(mem, base, ps, Seq::<u8>::empty());
    assert(ps[0].offset == ps[0].offset);
}

/// One 32-bit value to store at an absolute address.
#[derive(Clone, Copy, Debug, PartialEq, Eq, Structural)]
pub struct FieldWrite {
    pub address: u32,
    pub value: u32,
}

/// Keeps the host's width and height fields at the desired resolution while
/// the host keeps resetting them, and retires once they have held for `bound`
/// consecutive polls.
#[derive(Clone, Copy, Debug, PartialEq, Eq, Structural)]
pub struct ResolutionWatcher {
    pub width_address: u32,
    pub height_address: u32,
    pub width: u32,
    pub height: u32,
    /// Consecutive stable polls after which the watcher retires.
    pub bound: u32,
    /// Stable polls since the last correction (or since the start).
    pub stable_polls: u32,
}

impl ResolutionWatcher {
    /// The stable count never passes the bound.
    pub open spec fn wf(self) -> bool {
        self.stable_polls <= self.bound
    }

    /// The watcher has retired.
    pub open spec fn done(self) -> bool {
        self.stable_polls >= self.bound
    }

    /// Either observed field differs from the desired one.
    pub open spec fn drifted(self, observed_width: u32, observed_height: u32) -> bool {
        observed_width != self.width || observed_height != self.height
    }

    /// The state after one poll: a drift resets the stable count, a stable
    /// poll adds one to it.
    pub open spec fn next(self, observed_width: u32, observed_height: u32) -> ResolutionWatcher {
        if self.drifted(observed_width, observed_height) {
            ResolutionWatcher { stable_polls: 0, ..self }
        } else {
            ResolutionWatcher { stable_polls: (self.stable_polls + 1) as u32, ..self }
        }
    }

    /// The corrective writes of one poll: each drifted field gets its desired
    /// value back, width first.
    pub open spec fn repairs(self, observed_width: u32, observed_height: u32) -> Seq<FieldWrite> {
        let w = if observed_width != self.width {
            seq![FieldWrite { address: self.width_address, value: self.width }]
        } else {
            Seq::<FieldWrite>::empty()
        };
        let h = if observed_height != self.height {
            seq![FieldWrite { address: self.height_address, value: self.height }]
        } else {
            Seq::<FieldWrite>::empty()
        };
        w + h
    }

    /// A watcher that has seen no poll yet.
    pub fn new(width_address: u32, height_address: u32, width: u32, height: u32, bound: u32) -> (r:
        ResolutionWatcher)
        ensures
            r == (ResolutionWatcher {
                width_address,
                height_address,
                width,
                height,
                bound,
                stable_polls: 0,
            }),
            r.wf(),
    {
        ResolutionWatcher { width_address, height_address, width, height, bound, stable_polls: 0 }
    }

    /// Whether the watcher has retired.
    pub fn is_done(&self) -> (r: bool)
        ensures
            r == self.done(),
    {
        self.stable_polls >= self.bound
    }

    /// One poll over the observed width and height: returns the corrective
    /// writes (none when both fields hold) and advances the stable count.
    pub fn poll(&mut self, observed_width: u32, observed_height: u32) -> (r: Vec<FieldWrite>)
        requires
            old(self).wf(),
            !old(self).done(),
        ensures
            *final(self) == old(self).next(observed_width, observed_height),
            r@ == old(self).repairs(observed_width, observed_height),
            final(self).wf(),
    {
        let mut writes: Vec<FieldWrite> = Vec::new();
        if observed_width != self.width {
            writes.push(FieldWrite { address: self.width_address, value: self.width });
        }
        if observed_height != self.height {
            writes.push(FieldWrite { address: self.height_address, value: self.height });
        }
        if observed_width != self.width || observed_height != self.height {
            self.stable_polls = 0;
        } else {
            self.stable_polls = self.stable_polls + 1;
        }
        assert(writes@ =~= old(self).repairs(observed_width, observed_height));
        writes
    }
}

/// The watcher after `k` polls that each find the desired resolution.
pub open spec fn after_stable_polls(w: ResolutionWatcher, k: nat) -> ResolutionWatcher
    decreases k,
{
    if k == 0 {
        w
    } else {
        after_stable_polls(w, (k - 1) as nat).next(w.width, w.height)
    }
}

/// A correction resets the stable count to zero; from there the watcher stays
/// active through `bound - 1` stable polls and retires at the `bound`-th.
pub proof fn lemma_retires_after_bound(
    w: ResolutionWatcher,
    observed_width: u32,
    observed_height: u32,
    k: nat,
)
    requires
        w.wf(),
        w.drifted(observed_width, observed_height),
        k <= w.bound,
    ensures
        w.next(observed_width, observed_height).stable_polls == 0,
        after_stable_polls(w.next(observed_width, observed_height), k).stable_polls == k,
        after_stable_polls(w.next(observed_width, observed_height), k).done() <==> k == w.bound,
{
    lemma_stable_count(w.next(observed_width, observed_height), k);
}

/// Stable polls from a zero count count up one by one, with the rest of the
/// state unchanged.
proof fn lemma_stable_count(c: ResolutionWatcher, k: nat)
    requires
        c.stable_polls == 0,
        k <= c.bound,
    ensures
        after_stable_polls(c, k) == (ResolutionWatcher { stable_polls: k as u32, ..c }),
    decreases k,
{
    if k > 0 {
        lemma_stable_count(c, (k - 1) as nat);
    }
}

} // verus!
