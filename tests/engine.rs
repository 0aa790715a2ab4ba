use chess_titans_rtx::engine::{check_originals, patches_resolvable, plan_patch};
use chess_titans_rtx::memory::{resolve, write_outcome, ByteWrite};
use chess_titans_rtx::patch::{Patch, PatchError};
use chess_titans_rtx::patches::{constant_tick, graphics_level_3};

const BASE: u32 = 0x0040_0000;

/// A small stand-in for the process image: `len` bytes starting at `BASE`.
struct Image {
    bytes: Vec<u8>,
}

impl Image {
    fn new(len: usize) -> Image {
        Image { bytes: vec![0; len] }
    }

    fn get(&self, address: u32) -> u8 {
        self.bytes[(address - BASE) as usize]
    }

    fn set(&mut self, address: u32, byte: u8) {
        self.bytes[(address - BASE) as usize] = byte;
    }

    fn observe(&self, set: &[Patch]) -> Vec<u8> {
        set.iter().map(|p| self.get(BASE + p.offset)).collect()
    }

    fn apply(&mut self, set: &[Patch], verify: bool) -> Result<(), PatchError> {
        let observed = if verify { self.observe(set) } else { Vec::new() };
        let writes = plan_patch(BASE, set, verify, &observed)?;
        for w in writes {
            self.set(w.address, w.byte);
        }
        Ok(())
    }
}

fn scenario_set() -> Vec<Patch> {
    vec![Patch { offset: 0x10, org: 0x75, new: 0x90 }]
}

#[test]
fn verified_apply_on_matching_byte_writes_new_byte() {
    let set = scenario_set();
    let mut image = Image::new(0x40);
    image.set(BASE + 0x10, 0x75);
    assert_eq!(image.apply(&set, true), Ok(()));
    assert_eq!(image.get(BASE + 0x10), 0x90);
}

#[test]
fn verified_apply_on_foreign_byte_fails_and_leaves_memory() {
    let set = scenario_set();
    let mut image = Image::new(0x40);
    image.set(BASE + 0x10, 0xAB);
    assert_eq!(image.apply(&set, true), Err(PatchError::ByteMismatch(0x10, 0x75, 0xAB)));
    assert_eq!(image.get(BASE + 0x10), 0xAB);
}

#[test]
fn plan_lists_one_write_per_patch() {
    let set = scenario_set();
    let plan = plan_patch(BASE, &set, true, &[0x75]);
    assert_eq!(plan, Ok(vec![ByteWrite { address: BASE + 0x10, offset: 0x10, byte: 0x90 }]));
}

#[test]
fn first_mismatch_is_reported() {
    let set = vec![
        Patch { offset: 1, org: 1, new: 9 },
        Patch { offset: 2, org: 2, new: 9 },
        Patch { offset: 3, org: 3, new: 9 },
    ];
    assert_eq!(check_originals(&set, &[1, 7, 8]), Err(PatchError::ByteMismatch(2, 2, 7)));
    assert_eq!(check_originals(&set, &[1, 2, 3]), Ok(()));
    assert_eq!(check_originals(&[], &[]), Ok(()));
}

#[test]
fn mismatch_in_later_patch_writes_nothing() {
    let set = vec![Patch { offset: 0, org: 0, new: 5 }, Patch { offset: 1, org: 3, new: 6 }];
    let mut image = Image::new(4);
    assert_eq!(image.apply(&set, true), Err(PatchError::ByteMismatch(1, 3, 0)));
    assert_eq!(image.bytes, vec![0, 0, 0, 0]);
}

#[test]
fn unverified_apply_writes_every_patch() {
    let set = vec![Patch { offset: 0, org: 1, new: 5 }, Patch { offset: 2, org: 1, new: 6 }];
    let mut image = Image::new(4);
    image.set(BASE, 0xEE);
    assert_eq!(image.apply(&set, false), Ok(()));
    assert_eq!(image.bytes, vec![5, 0, 6, 0]);
}

#[test]
fn second_verified_apply_fails() {
    let set = scenario_set();
    let mut image = Image::new(0x40);
    image.set(BASE + 0x10, 0x75);
    assert_eq!(image.apply(&set, true), Ok(()));
    assert_eq!(image.apply(&set, true), Err(PatchError::ByteMismatch(0x10, 0x75, 0x90)));
    assert_eq!(image.get(BASE + 0x10), 0x90);
}

#[test]
fn resolve_adds_offset_and_refuses_overflow() {
    assert_eq!(resolve(0x0040_0000, 0x10), Some(0x0040_0010));
    assert_eq!(resolve(u32::MAX, 0), Some(u32::MAX));
    assert_eq!(resolve(u32::MAX, 1), None);
    assert!(patches_resolvable(BASE, &scenario_set()));
    assert!(!patches_resolvable(u32::MAX - 0xF, &scenario_set()));
}

#[test]
fn catalogue_sets_apply_to_their_originals() {
    let tick = constant_tick();
    assert_eq!(tick.len(), 6);
    assert_eq!(tick[0], Patch { offset: 0x0003FA0E, org: 0x75, new: 0x90 });
    assert_eq!(tick[5], Patch { offset: 0x0003FB09, org: 0x75, new: 0xEB });
    let graphics = graphics_level_3();
    assert_eq!(graphics, vec![Patch { offset: 0x131134, org: 0x0, new: 0x2 }]);

    let mut image = Image::new(0x0013_2000);
    for p in tick.iter() {
        image.set(BASE + p.offset, p.org);
    }
    assert_eq!(image.apply(&tick, true), Ok(()));
    for p in tick.iter() {
        assert_eq!(image.get(BASE + p.offset), p.new);
    }
    assert_eq!(image.apply(&graphics, true), Ok(()));
    assert_eq!(image.get(BASE + 0x131134), 0x2);
}

#[test]
fn mismatch_message_names_bytes_in_hex() {
    let e = PatchError::ByteMismatch(0x10, 0x75, 0xAB);
    assert_eq!(
        e.message(),
        "Byte 0xab at target offset 0x10 does not match the original byte 0x75 in the patch. \
         The patch may be intended for a different executable."
    );
    let z = PatchError::ByteMismatch(0x3FA0E, 0x0, 0x5);
    assert_eq!(
        z.message(),
        "Byte 0x5 at target offset 0x3fa0e does not match the original byte 0x0 in the patch. \
         The patch may be intended for a different executable."
    );
    assert_eq!(
        PatchError::Protection(0x131134).message(),
        "Page protection could not be changed around the write at target offset 0x131134."
    );
}

#[test]
fn refused_write_reports_its_offset() {
    let w = ByteWrite { address: BASE + 0x131134, offset: 0x131134, byte: 0x2 };
    assert_eq!(write_outcome(&w, true), Ok(()));
    assert_eq!(write_outcome(&w, false), Err(PatchError::Protection(0x131134)));
}
