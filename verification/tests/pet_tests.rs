use pet_core::emote::Emote;
use pet_core::pet::AnimationConfig;
use pet_core::pet::animate_purr;
use pet_core::pet::make_pet;
use pet_core::pet::petting;
use pet_core::pet::start_petting;
use pet_core::pet::stop_petting;

const ONSET_PERIOD_US: u64 = 1_000_000;

#[test]
fn purring_starts_on_the_second_move_after_the_onset_period() {
    let (mut pet, mut config, _pos) = make_pet();
    start_petting(&mut config);
    // first move completes the onset period but does not yet promote
    petting(&mut config, &mut pet, ONSET_PERIOD_US);
    assert_eq!(pet.emote, Emote::Idle);
    // the next move promotes
    petting(&mut config, &mut pet, ONSET_PERIOD_US);
    assert_eq!(pet.emote, Emote::Purring);
}

#[test]
fn leave_resets_to_idle_and_pauses_the_onset_timer() {
    let (mut pet, mut config, _pos) = make_pet();
    start_petting(&mut config);
    petting(&mut config, &mut pet, ONSET_PERIOD_US);
    petting(&mut config, &mut pet, ONSET_PERIOD_US);
    assert_eq!(pet.emote, Emote::Purring);
    stop_petting(&mut config, &mut pet);
    assert_eq!(pet.emote, Emote::Idle);
    assert!(config.purr_timer.paused);
}

#[test]
fn rapid_enter_and_leave_never_reaches_purring() {
    let (mut pet, mut config, _pos) = make_pet();
    for _ in 0..5 {
        start_petting(&mut config);
        // almost a full onset period, but never quite
        petting(&mut config, &mut pet, ONSET_PERIOD_US - 1);
        assert_eq!(pet.emote, Emote::Idle);
        stop_petting(&mut config, &mut pet);
        assert_eq!(pet.emote, Emote::Idle);
    }
}

#[test]
fn enter_restarts_a_paused_session_from_zero() {
    let (mut pet, mut config, _pos) = make_pet();
    start_petting(&mut config);
    petting(&mut config, &mut pet, 700_000);
    stop_petting(&mut config, &mut pet);
    assert_eq!(config.purr_timer.elapsed_us, 700_000);
    assert!(config.purr_timer.paused);
    // a new session must not resume the stale partial onset
    start_petting(&mut config);
    assert_eq!(config.purr_timer.elapsed_us, 0);
    assert!(!config.purr_timer.paused);
    petting(&mut config, &mut pet, ONSET_PERIOD_US - 1);
    assert_eq!(pet.emote, Emote::Idle);
}

#[test]
fn purr_cycle_walks_up_then_alternates() {
    let (_pet, mut config, _pos) = make_pet();
    let frame_period = config.frame_timer.period_us;
    assert_eq!(frame_period, 125_000);
    let mut frame: usize = 0;
    let mut seen = Vec::new();
    for _ in 0..5 {
        animate_purr(&mut config, Emote::Purring, &mut frame, frame_period);
        seen.push(frame);
    }
    assert_eq!(seen, vec![1, 2, 3, 2, 3]);
}

#[test]
fn purr_frame_holds_between_timer_expirations() {
    let (_pet, mut config, _pos) = make_pet();
    let mut frame: usize = 2;
    animate_purr(&mut config, Emote::Purring, &mut frame, 1_000);
    assert_eq!(frame, 2);
    animate_purr(&mut config, Emote::Purring, &mut frame, 123_999);
    assert_eq!(frame, 2);
    // the accumulated time now completes the 125 ms frame period
    animate_purr(&mut config, Emote::Purring, &mut frame, 1);
    assert_eq!(frame, 3);
}

#[test]
fn idle_rewind_steps_one_frame_per_call_whatever_the_time() {
    let (_pet, mut config, _pos) = make_pet();
    let mut frame: usize = 3;
    animate_purr(&mut config, Emote::Idle, &mut frame, 0);
    assert_eq!(frame, 2);
    animate_purr(&mut config, Emote::Idle, &mut frame, 999_999_999);
    assert_eq!(frame, 1);
    animate_purr(&mut config, Emote::Idle, &mut frame, 42);
    assert_eq!(frame, 0);
    // at the resting frame the rewind stops
    animate_purr(&mut config, Emote::Idle, &mut frame, 42);
    assert_eq!(frame, 0);
}

#[test]
fn other_emotes_leave_the_frame_alone() {
    let (_pet, mut config, _pos) = make_pet();
    let before = config;
    let mut frame: usize = 2;
    animate_purr(&mut config, Emote::Eating, &mut frame, 125_000);
    assert_eq!(frame, 2);
    assert_eq!(config, before);
}

#[test]
fn fresh_pet_state() {
    let (pet, config, pos) = make_pet();
    assert_eq!(pet.emote, Emote::Idle);
    assert_eq!(config.first, 0);
    assert_eq!(config.purr_a, 2);
    assert_eq!(config.purr_b, 3);
    assert_eq!(config.fps, 8);
    assert!(!config.purr_timer.paused);
    assert_eq!(config.purr_timer.elapsed_us, 0);
    assert_eq!(pos.x, 0);
    assert_eq!(pos.y, 0);
}

#[test]
fn animation_config_reset_rearms_the_frame_timer() {
    let mut config = AnimationConfig::new(0, 2, 3, 8);
    let mut frame: usize = 0;
    animate_purr(&mut config, Emote::Purring, &mut frame, 60_000);
    assert_eq!(config.frame_timer.elapsed_us, 60_000);
    config.reset();
    assert_eq!(config.frame_timer.elapsed_us, 0);
    assert_eq!(config.frame_timer.period_us, 125_000);
}
