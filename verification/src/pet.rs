//! The pet: its emote, its animation timers, the pointer-driven petting
//! state machine, and the frame sequencer.
//!
//! Petting runs on three pointer events. Enter restarts a paused purr-onset
//! timer, Move advances it and promotes the emote to purring on the event
//! after a full onset period has elapsed, and Leave pauses the timer and
//! forces the emote back to idle. The sequencer then advances the displayed
//! sprite frame from the current emote: purring cycles between the two purr
//! frames at the configured frame rate, idling walks one frame back toward
//! the resting frame on every invocation.

use vstd::prelude::*;

use crate::emote::Emote;
use crate::geom::Point;
use crate::timer::DT_LIMIT_US;
use crate::timer::Timer;

verus! {

/// Microseconds in one second; frame and onset periods derive from it.
pub const SECOND_US: u64 = 1_000_000;

/// The pet itself: only its current emotional state.
#[derive(Copy, Clone, PartialEq, Eq, Structural, Hash, Debug)]
pub struct Pet {
    pub emote: Emote,
}

/// Frame-cycling configuration and the two timers driving it.
#[derive(Copy, Clone, PartialEq, Eq, Structural, Debug)]
pub struct AnimationConfig {
    /// Resting frame the idle rewind walks back to.
    pub first: usize,
    /// First frame of the two-frame purr cycle.
    pub purr_a: usize,
    /// Second frame of the two-frame purr cycle.
    pub purr_b: usize,
    /// Frame advances per second while purring.
    pub fps: u8,
    /// Repeating timer gating purr frame advances; period is one over `fps`.
    pub frame_timer: Timer,
    /// Repeating one-second timer that must complete before purring starts.
    pub purr_timer: Timer,
}

/// Period of the frame timer derived from a frame rate.
pub open spec fn spec_fps_period(fps: u8) -> u64 {
    (SECOND_US as int / fps as int) as u64
}

impl AnimationConfig {
    /// Structural validity: ordered frame indices, a positive frame rate, and
    /// a frame timer armed at the rate the configuration names.
    pub open spec fn wf(self) -> bool {
        &&& self.first <= self.purr_a
        &&& self.purr_a < self.purr_b
        &&& self.fps >= 1
        &&& self.frame_timer.wf()
        &&& self.purr_timer.wf()
        &&& self.frame_timer.period_us == spec_fps_period(self.fps)
    }

    /// The frame indices a pet sprite can display under this configuration:
    /// the resting frame, the climb toward the purr cycle, and the cycle
    /// itself.
    pub open spec fn frame_wf(self, frame: usize) -> bool {
        self.first <= frame <= self.purr_b
    }

    /// A fresh configuration: both timers armed and running, nothing elapsed.
    pub fn new(first: usize, purr_a: usize, purr_b: usize, fps: u8) -> (r: AnimationConfig)
        requires
            first <= purr_a,
            purr_a < purr_b,
            fps >= 1,
        ensures
            r.first == first,
            r.purr_a == purr_a,
            r.purr_b == purr_b,
            r.fps == fps,
            r.frame_timer == Timer::spec_new(spec_fps_period(fps)),
            r.purr_timer == Timer::spec_new(SECOND_US),
            r.wf(),
            r.frame_wf(first),
    {
        AnimationConfig {
            first,
            purr_a,
            purr_b,
            fps,
            frame_timer: timer_from_fps(fps),
            purr_timer: Timer::new(SECOND_US),
        }
    }

    /// Re-arm the frame timer at the configured frame rate, discarding any
    /// partly elapsed cycle.
    pub fn reset(&mut self)
        requires
            old(self).fps >= 1,
        ensures
            *final(self) == (AnimationConfig {
                frame_timer: Timer::spec_new(spec_fps_period(old(self).fps)),
                ..*old(self)
            }),
    {
        self.frame_timer = timer_from_fps(self.fps);
    }
}

/// A fresh repeating timer whose period is one frame at the given rate.
pub fn timer_from_fps(fps: u8) -> (r: Timer)
    requires
        fps >= 1,
    ensures
        r == Timer::spec_new(spec_fps_period(fps)),
        r.wf(),
{
    let period: u64 = SECOND_US / (fps as u64);
    assert(1 <= period <= SECOND_US) by (nonlinear_arith)
        requires
            1 <= fps <= 255,
            period == 1_000_000 as u64 / (fps as u64),
    ;
    Timer::new(period)
}

/// The configuration after a pointer-enter event: a paused purr-onset timer
/// is restarted from zero and the frame timer is re-armed, so a petting
/// session never resumes a stale partial onset; a running one is untouched.
pub open spec fn spec_start_petting(c: AnimationConfig) -> AnimationConfig {
    if c.purr_timer.paused {
        AnimationConfig {
            purr_timer: Timer { elapsed_us: 0, times_finished: 0, paused: false, ..c.purr_timer },
            frame_timer: Timer::spec_new(spec_fps_period(c.fps)),
            ..c
        }
    } else {
        c
    }
}

/// Pointer-enter handler: begin a petting session.
pub fn start_petting(config: &mut AnimationConfig)
    requires
        old(config).wf(),
    ensures
        *final(config) == spec_start_petting(*old(config)),
        final(config).wf(),
{
    if config.purr_timer.paused() {
        config.purr_timer.reset();
        config.purr_timer.unpause();
        config.frame_timer = timer_from_fps(config.fps);
    }
}

/// The emote after a pointer-move event: promoted to purring exactly when
/// the onset timer completed a period on an earlier move and the pet is not
/// already purring.
pub open spec fn spec_petting_emote(c: AnimationConfig, emote: Emote) -> Emote {
    if c.purr_timer.times_finished > 0 && emote != Emote::Purring {
        Emote::Purring
    } else {
        emote
    }
}

/// The configuration after a pointer-move event: on the move that promotes
/// the emote the timer is left alone; on every other move it advances by the
/// event's elapsed time.
pub open spec fn spec_petting_config(c: AnimationConfig, emote: Emote, dt_us: u64) -> AnimationConfig {
    if c.purr_timer.times_finished > 0 && emote != Emote::Purring {
        c
    } else {
        AnimationConfig { purr_timer: c.purr_timer.spec_ticked(dt_us), ..c }
    }
}

/// Pointer-move handler: advance the purr-onset timer, promoting the emote
/// to purring once per completed onset period, on the move event after the
/// one that completed it.
pub fn petting(config: &mut AnimationConfig, pet: &mut Pet, dt_us: u64)
    requires
        old(config).wf(),
        dt_us <= DT_LIMIT_US,
    ensures
        *final(config) == spec_petting_config(*old(config), old(pet).emote, dt_us),
        final(pet).emote == spec_petting_emote(*old(config), old(pet).emote),
        final(config).wf(),
{
    if config.purr_timer.just_finished() && pet.emote != Emote::Purring {
        pet.emote = Emote::Purring;
    } else {
        config.purr_timer.tick(dt_us);
    }
}

/// Pointer-leave handler: pause the purr-onset timer and force the emote
/// back to idle, whatever it was.
pub fn stop_petting(config: &mut AnimationConfig, pet: &mut Pet)
    ensures
        *final(config) == (AnimationConfig {
            purr_timer: (Timer { paused: true, ..old(config).purr_timer }),
            ..*old(config)
        }),
        final(pet).emote == Emote::Idle,
        old(config).wf() ==> final(config).wf(),
{
    config.purr_timer.pause();
    pet.emote = Emote::Idle;
}

/// The frame following `frame` in the purr animation: within the two-frame
/// purr cycle the frames alternate; any other frame takes one transitional
/// step upward toward the cycle.
pub open spec fn spec_purr_next(c: AnimationConfig, frame: usize) -> usize {
    if frame == c.purr_a {
        c.purr_b
    } else if frame == c.purr_b {
        c.purr_a
    } else {
        (frame + 1) as usize
    }
}

/// The configuration and frame after one sequencer invocation.
///
/// Purring: the frame timer advances by `dt_us`; if that completes a period
/// the frame steps to `spec_purr_next` and the timer is re-armed at the
/// configured rate (a frame rate, not a stopwatch: the remainder is
/// discarded). Idle: on every invocation, with no timer gate, a frame above
/// the resting frame steps down by one and the frame timer is re-armed. Any
/// other emote leaves both untouched.
pub open spec fn spec_animate(c: AnimationConfig, emote: Emote, frame: usize, dt_us: u64) -> (
    AnimationConfig,
    usize,
) {
    if emote == Emote::Purring {
        let ticked = c.frame_timer.spec_ticked(dt_us);
        if ticked.times_finished > 0 {
            (
                AnimationConfig { frame_timer: Timer::spec_new(spec_fps_period(c.fps)), ..c },
                spec_purr_next(c, frame),
            )
        } else {
            (AnimationConfig { frame_timer: ticked, ..c }, frame)
        }
    } else if emote == Emote::Idle {
        if frame != c.first {
            (
                AnimationConfig { frame_timer: Timer::spec_new(spec_fps_period(c.fps)), ..c },
                (frame - 1) as usize,
            )
        } else {
            (c, frame)
        }
    } else {
        (c, frame)
    }
}

/// Advance the pet's displayed frame by one sequencer invocation under the
/// current emote.
pub fn animate_purr(config: &mut AnimationConfig, emote: Emote, frame: &mut usize, dt_us: u64)
    requires
        old(config).wf(),
        old(config).frame_wf(*old(frame)),
        dt_us <= DT_LIMIT_US,
    ensures
        *final(config) == spec_animate(*old(config), emote, *old(frame), dt_us).0,
        *final(frame) == spec_animate(*old(config), emote, *old(frame), dt_us).1,
        final(config).wf(),
        final(config).frame_wf(*final(frame)),
{
    if emote == Emote::Purring {
        config.frame_timer.tick(dt_us);
        if config.frame_timer.just_finished() {
            if *frame == config.purr_a {
                *frame = config.purr_b;
            } else if *frame == config.purr_b {
                *frame = config.purr_a;
            } else {
                *frame = *frame + 1;
            }
            config.reset();
        }
    } else if emote == Emote::Idle {
        if *frame != config.first {
            *frame = *frame - 1;
            config.reset();
        }
    }
}

/// A fresh petting session purrs on the second move, not before: after an
/// enter event on a pet whose onset timer is paused or freshly zeroed, a
/// first move of one full onset period completes the timer but leaves the
/// emote alone, and the move after that promotes it to purring.
pub proof fn lemma_purr_onset(c: AnimationConfig, emote: Emote, dt_us: u64)
    requires
        c.wf(),
        emote != Emote::Purring,
        c.purr_timer.paused || (c.purr_timer.elapsed_us == 0 && c.purr_timer.times_finished == 0),
        dt_us == c.purr_timer.period_us,
    ensures
        spec_petting_emote(spec_start_petting(c), emote) == emote,
        spec_petting_emote(
            spec_petting_config(spec_start_petting(c), emote, dt_us),
            spec_petting_emote(spec_start_petting(c), emote),
        ) == Emote::Purring,
{
    let p = c.purr_timer.period_us;
    assert(p as int / p as int == 1 && p as int % p as int == 0) by (nonlinear_arith)
        requires
            p >= 1,
    ;
}

/// A move event never promotes the emote to purring unless the onset timer
/// has completed a full period: rapid sessions that keep leaving before the
/// period elapses can never reach purring.
pub proof fn lemma_no_purr_before_onset(c: AnimationConfig, emote: Emote)
    requires
        emote != Emote::Purring,
        spec_petting_emote(c, emote) == Emote::Purring,
    ensures
        c.purr_timer.times_finished > 0,
{
}

/// The purr animation's two-frame cycle is closed and alternating: from
/// either purr frame the sequencer steps to the other, and any frame outside
/// the cycle takes a single transitional step upward.
pub proof fn lemma_purr_cycle(c: AnimationConfig, frame: usize)
    requires
        c.wf(),
    ensures
        spec_purr_next(c, c.purr_a) == c.purr_b,
        spec_purr_next(c, c.purr_b) == c.purr_a,
        frame != c.purr_a && frame != c.purr_b && frame < usize::MAX ==> spec_purr_next(c, frame)
            == frame + 1,
        frame == c.purr_a || frame == c.purr_b ==> (spec_purr_next(c, frame) == c.purr_a
            || spec_purr_next(c, frame) == c.purr_b),
{
}

/// The idle rewind steps the frame down by exactly one per invocation until
/// the resting frame, and ignores elapsed time entirely: any two elapsed
/// times give the same frame.
pub proof fn lemma_idle_rewind(c: AnimationConfig, frame: usize, dt_a: u64, dt_b: u64)
    requires
        c.wf(),
        c.frame_wf(frame),
    ensures
        frame != c.first ==> spec_animate(c, Emote::Idle, frame, dt_a).1 == frame - 1,
        frame == c.first ==> spec_animate(c, Emote::Idle, frame, dt_a).1 == frame,
        spec_animate(c, Emote::Idle, frame, dt_a).1 == spec_animate(c, Emote::Idle, frame, dt_b).1,
{
}

/// Build the pet as it exists at startup: idle, with the purr animation over
/// frames two and three of a four-frame sprite strip at eight frames per
/// second, resting on frame zero at the world center.
pub fn make_pet() -> (r: (Pet, AnimationConfig, Point))
    ensures
        r.0.emote == Emote::Idle,
        r.1.first == 0,
        r.1.purr_a == 2,
        r.1.purr_b == 3,
        r.1.fps == 8,
        r.1.frame_timer == Timer::spec_new(spec_fps_period(8)),
        r.1.purr_timer == Timer::spec_new(SECOND_US),
        r.1.wf(),
        r.1.frame_wf(0),
        r.2 == (Point { x: 0, y: 0 }),
{
    let pet = Pet { emote: Emote::Idle };
    let config = AnimationConfig::new(0, 2, 3, 8);
    (pet, config, Point { x: 0, y: 0 })
}

} // verus!
