//! The per-frame pipeline: a fixed, named ordering of the tick systems.
//!
//! Pointer events (petting and drag handlers) are applied by the host as
//! they arrive, before the frame advances. Within a frame the order is then
//! fixed: proximity overrides the emote the petting handlers left behind,
//! the animation sequencer reads the emote that results, and the return
//! integrator advances the supplies. The integrator touches only supply
//! state, so its place at the end is a choice, not a constraint; the first
//! two stages must keep this order or the displayed animation changes.

use vstd::prelude::*;

use crate::geom::Point;
use crate::pet::AnimationConfig;
use crate::pet::Pet;
use crate::pet::animate_purr;
use crate::pet::spec_animate;
use crate::supplies::SupplyState;
use crate::supplies::move_back;
use crate::supplies::spec_return_step;
use crate::supplies::spec_supply_in_bounds;
use crate::timer::DT_LIMIT_US;
use crate::utils::check_supply;
use crate::utils::spec_proximity_emote;

verus! {

/// Advance one frame: proximity override, then animation, then supply
/// return. The supplies' positions are read by the proximity stage as the
/// drag handlers left them, before the integrator moves them.
pub fn run_frame(
    pet: &mut Pet,
    config: &mut AnimationConfig,
    frame: &mut usize,
    pet_pos: Point,
    supplies: &mut Vec<SupplyState>,
    half_x: i64,
    half_y: i64,
    dt_us: u64,
)
    requires
        old(config).wf(),
        old(config).frame_wf(*old(frame)),
        dt_us <= DT_LIMIT_US,
        half_x >= 0,
        half_y >= 0,
        forall|i: int|
            0 <= i < old(supplies)@.len() ==> spec_supply_in_bounds(#[trigger] old(supplies)@[i]),
    ensures
        final(pet).emote == spec_proximity_emote(
            old(pet).emote,
            pet_pos,
            old(supplies)@,
            half_x as int,
            half_y as int,
        ),
        *final(config) == spec_animate(*old(config), final(pet).emote, *old(frame), dt_us).0,
        *final(frame) == spec_animate(*old(config), final(pet).emote, *old(frame), dt_us).1,
        final(supplies)@.len() == old(supplies)@.len(),
        forall|i: int|
            0 <= i < old(supplies)@.len() ==> #[trigger] final(supplies)@[i] == spec_return_step(
                old(supplies)@[i],
                dt_us,
            ),
        final(config).wf(),
        final(config).frame_wf(*final(frame)),
{
    check_supply(pet, pet_pos, supplies, half_x, half_y);
    let current = pet.emote;
    animate_purr(config, current, frame, dt_us);
    move_back(supplies, dt_us);
}

} // verus!
