//! Proximity-triggered emotes: each tick, every supply whose box overlaps
//! the pet's box overrides the pet's emote with its mapped reaction.
//!
//! Supplies are walked in insertion order, so when several overlap at once
//! the last-evaluated overlapping supply wins. That last-writer-wins rule is
//! deliberate, not a tie-break to repair.

use vstd::prelude::*;

use crate::emote::Emote;
use crate::emote::spec_emote_for;
use crate::emote::emote_for;
use crate::geom::Point;
use crate::geom::boxes_intersect;
use crate::geom::spec_boxes_intersect;
use crate::pet::Pet;
use crate::supplies::SupplyState;

verus! {

/// Half-extent of the pet's bounding box, in world units.
pub const PET_HALF_EXTENT: i64 = 64;

/// The pet's emote after walking `supplies` in order, starting from `cur`:
/// every supply whose box (centered at its position, with the shared
/// half-extents `hx`, `hy`) overlaps the pet's box replaces the emote with
/// its mapped reaction, so the last overlapping supply wins.
pub open spec fn spec_proximity_emote(
    cur: Emote,
    pet_pos: Point,
    supplies: Seq<SupplyState>,
    hx: int,
    hy: int,
) -> Emote
    decreases supplies.len(),
{
    if supplies.len() == 0 {
        cur
    } else {
        let next = if spec_boxes_intersect(
            pet_pos,
            PET_HALF_EXTENT as int,
            PET_HALF_EXTENT as int,
            supplies[0].position,
            hx,
            hy,
        ) {
            spec_emote_for(supplies[0].kind)
        } else {
            cur
        };
        spec_proximity_emote(next, pet_pos, supplies.drop_first(), hx, hy)
    }
}

/// Per-tick proximity system: override the pet's emote with the reaction of
/// each overlapping supply, in insertion order. All five supplies share one
/// visual scale, so one half-extent pair covers them all.
pub fn check_supply(
    pet: &mut Pet,
    pet_pos: Point,
    supplies: &Vec<SupplyState>,
    half_x: i64,
    half_y: i64,
)
    requires
        half_x >= 0,
        half_y >= 0,
    ensures
        final(pet).emote == spec_proximity_emote(
            old(pet).emote,
            pet_pos,
            supplies@,
            half_x as int,
            half_y as int,
        ),
{
    let ghost all: Seq<SupplyState> = supplies@;
    let mut emote: Emote = pet.emote;
    let n: usize = supplies.len();
    let mut i: usize = 0;
    proof {
        assert(all.skip(0) =~= all);
    }
    while i < n
        invariant
            i <= n,
            n == all.len(),
            supplies@ == all,
            half_x >= 0,
            half_y >= 0,
            spec_proximity_emote(old(pet).emote, pet_pos, all, half_x as int, half_y as int)
                == spec_proximity_emote(emote, pet_pos, all.skip(i as int), half_x as int, half_y as int),
        decreases n - i,
    {
        let s = supplies[i];
        proof {
            assert(all.skip(i as int)[0] == all[i as int]);
            assert(all.skip(i as int).drop_first() =~= all.skip(i as int + 1));
        }
        if boxes_intersect(pet_pos, PET_HALF_EXTENT, PET_HALF_EXTENT, s.position, half_x, half_y) {
            emote = emote_for(s.kind);
        }
        i = i + 1;
    }
    proof {
        assert(all.skip(n as int) =~= Seq::<SupplyState>::empty());
    }
    pet.emote = emote;
}

} // verus!
