use vstd::prelude::*;
use crate::engine::offsets_agree;
use crate::patch::Patch;

verus! {

/// The tick-clamp removal: turns the conditional jumps that clamp the game's
/// tick rate into no-ops and unconditional jumps.
pub open spec fn constant_tick_table() -> Seq<Patch> {
    seq![
        Patch { offset: 0x0003FA0E, org: 0x75, new: 0x90 },
        Patch { offset: 0x0003FA0F, org: 0x0A, new: 0x90 },
        Patch { offset: 0x0003FA14, org: 0x75, new: 0x90 },
        Patch { offset: 0x0003FA15, org: 0x04, new: 0x90 },
        Patch { offset: 0x0003FA18, org: 0x75, new: 0xEB },
        Patch { offset: 0x0003FB09, org: 0x75, new: 0xEB },
    ]
}

/// Pins the graphics quality setting to level 3.
pub open spec fn graphics_level_3_table() -> Seq<Patch> {
    seq![Patch { offset: 0x131134, org: 0x0, new: 0x2 }]
}

/// A catalogued set: not empty, every patch changes its byte, and patches
/// that share an offset write the same byte.
pub open spec fn well_formed_set(ps: Seq<Patch>) -> bool {
    &&& ps.len() > 0
    &&& forall|i: int| 0 <= i < ps.len() ==> #[trigger] ps[i].new != ps[i].org
    &&& offsets_agree(ps)
}

/// The tick-clamp removal set.
pub fn constant_tick() -> (r: Vec<Patch>)
    ensures
        r@ == constant_tick_table(),
{
    let r = vec![
        Patch { offset: 0x0003FA0E, org: 0x75, new: 0x90 },
        Patch { offset: 0x0003FA0F, org: 0x0A, new: 0x90 },
        Patch { offset: 0x0003FA14, org: 0x75, new: 0x90 },
        Patch { offset: 0x0003FA15, org: 0x04, new: 0x90 },
        Patch { offset: 0x0003FA18, org: 0x75, new: 0xEB },
        Patch { offset: 0x0003FB09, org: 0x75, new: 0xEB },
    ];
    assert(r@ =~= constant_tick_table());
    r
}

/// The graphics-level set.
pub fn graphics_level_3() -> (r: Vec<Patch>)
    ensures
        r@ == graphics_level_3_table(),
{
    let r = vec![Patch { offset: 0x131134, org: 0x0, new: 0x2 }];
    assert(r@ =~= graphics_level_3_table());
    r
}

/// Both catalogued sets are well formed.
pub proof fn lemma_catalogue_well_formed()
    ensures
        well_formed_set(constant_tick_table()),
        well_formed_set(graphics_level_3_table()),
{
    let t = constant_tick_table();
    assert forall|i: int, j: int|
        0 <= i < t.len() && 0 <= j < t.len() && #[trigger] t[i].offset == #[trigger] t[j].offset
            implies t[i].new == t[j].new by {
        assert(i == j);
    }
}

} // verus!
