use pet_core::emote::Emote;
use pet_core::emote::Supply;
use pet_core::frame::run_frame;
use pet_core::geom::Point;
use pet_core::pet::make_pet;
use pet_core::supplies::SupplyState;
use pet_core::utils::check_supply;

fn supply(kind: Supply, x: i64, y: i64) -> SupplyState {
    SupplyState {
        kind,
        position: Point { x, y },
        origin: Point { x, y },
        dragging: false,
        return_speed: 500,
    }
}

#[test]
fn overlapping_supply_overrides_the_emote() {
    let (mut pet, _config, pos) = make_pet();
    let supplies = vec![supply(Supply::Milk, 60, 0)];
    check_supply(&mut pet, pos, &supplies, 10, 10);
    assert_eq!(pet.emote, Emote::Drinking);
}

#[test]
fn boundary_touching_supply_still_triggers() {
    let (mut pet, _config, pos) = make_pet();
    // pet half-extent 64 plus supply half-extent 10: centers 74 apart touch
    let supplies = vec![supply(Supply::Toy, 74, 0)];
    check_supply(&mut pet, pos, &supplies, 10, 10);
    assert_eq!(pet.emote, Emote::Playing);
}

#[test]
fn distant_supplies_leave_the_emote_alone() {
    let (mut pet, _config, pos) = make_pet();
    pet.emote = Emote::Purring;
    let supplies = vec![supply(Supply::Food, 200, 0), supply(Supply::Toy, 0, -300)];
    check_supply(&mut pet, pos, &supplies, 10, 10);
    assert_eq!(pet.emote, Emote::Purring);
}

#[test]
fn last_overlapping_supply_wins() {
    let (mut pet, _config, pos) = make_pet();
    let supplies = vec![supply(Supply::Food, 10, 0), supply(Supply::Toy, -10, 0)];
    check_supply(&mut pet, pos, &supplies, 10, 10);
    assert_eq!(pet.emote, Emote::Playing);
    // with the insertion order swapped the other supply wins
    let (mut pet, _config, pos) = make_pet();
    let supplies = vec![supply(Supply::Toy, -10, 0), supply(Supply::Food, 10, 0)];
    check_supply(&mut pet, pos, &supplies, 10, 10);
    assert_eq!(pet.emote, Emote::Eating);
}

#[test]
fn no_supplies_at_all_leave_the_emote_alone() {
    let (mut pet, _config, pos) = make_pet();
    pet.emote = Emote::Smelling;
    let supplies: Vec<SupplyState> = Vec::new();
    check_supply(&mut pet, pos, &supplies, 10, 10);
    assert_eq!(pet.emote, Emote::Smelling);
}

#[test]
fn run_frame_orders_proximity_before_animation() {
    let (mut pet, mut config, pos) = make_pet();
    let mut frame: usize = 3;
    let mut supplies = vec![supply(Supply::Food, 10, 0)];
    // proximity sets Eating before the sequencer runs, so the frame where
    // the idle rewind would have stepped down stays put
    run_frame(
        &mut pet,
        &mut config,
        &mut frame,
        pos,
        &mut supplies,
        10,
        10,
        125_000,
    );
    assert_eq!(pet.emote, Emote::Eating);
    assert_eq!(frame, 3);
}

#[test]
fn run_frame_animates_and_returns_supplies() {
    let (mut pet, mut config, pos) = make_pet();
    let mut frame: usize = 3;
    // no supply overlaps; one is displaced and drifts back
    let mut supplies = vec![supply(Supply::Litter, 500, 0)];
    supplies[0].position = Point { x: 502, y: 0 };
    run_frame(
        &mut pet,
        &mut config,
        &mut frame,
        pos,
        &mut supplies,
        10,
        10,
        125_000,
    );
    assert_eq!(pet.emote, Emote::Idle);
    // the idle rewind stepped the frame down
    assert_eq!(frame, 2);
    // the displaced supply snapped home (distance 2 < epsilon 3)
    assert_eq!(supplies[0].position, Point { x: 500, y: 0 });
}
