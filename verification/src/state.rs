//! The persistent game state threaded through every frame, and the input
//! snapshot the host hands the frame logic.

use vstd::prelude::*;
use crate::timer::RepeatTimer;

verus! {

/// The spawn timer's interval: two seconds, in microseconds.
pub const SPAWN_INTERVAL_MICROS: u32 = 2_000_000;

/// The state that outlives a frame: the score pair, the monotonic counter
/// behind spawned-sprite keys, and the repeating spawn timer.
pub struct GameState {
    pub high_score: u32,
    pub score: u32,
    pub ferris_index: i32,
    pub spawn_timer: RepeatTimer,
}

impl GameState {
    /// The state is well formed when its timer is.
    pub open spec fn wf(self) -> bool {
        self.spawn_timer.wf()
    }
}

impl Default for GameState {
    /// The startup state: both scores zero, the counter at zero, and the
    /// spawn timer fresh on its two-second interval.
    fn default() -> (s: GameState)
        ensures
            s.wf(),
            s.high_score == 0,
            s.score == 0,
            s.ferris_index == 0,
            s.spawn_timer.interval_micros == SPAWN_INTERVAL_MICROS,
            s.spawn_timer.elapsed_micros == 0,
    {
        GameState {
            high_score: 0,
            score: 0,
            ferris_index: 0,
            spawn_timer: RepeatTimer::from_micros(SPAWN_INTERVAL_MICROS),
        }
    }
}

/// One frame's input snapshot, already reduced to plain values by the host:
/// edge-triggered key and mouse-button flags, held-key flags for the four
/// direction groups, the pointer location in sub-pixel units if one is
/// available, the frame delta in microseconds, the window half-extent in
/// sub-pixel units, and the HUD oscillation offset the host computes from
/// the elapsed time.
pub struct FrameInput {
    pub quit_pressed: bool,
    pub reset_pressed: bool,
    pub up_held: bool,
    pub w_held: bool,
    pub down_held: bool,
    pub s_held: bool,
    pub right_held: bool,
    pub d_held: bool,
    pub left_held: bool,
    pub a_held: bool,
    pub mouse_clicked: bool,
    pub mouse_location: Option<(i64, i64)>,
    pub delta_micros: u32,
    pub half_window_w: i64,
    pub half_window_h: i64,
    pub hud_wave: i64,
}

/// Bound on the window half-extent: ten million pixels, in sub-pixel units.
pub const DIM_LIMIT: i64 = 10_000_000_000_000;

/// Bound on the HUD oscillation offset: a thousand pixels, in sub-pixel
/// units (the host's oscillation stays within five).
pub const WAVE_LIMIT: i64 = 1_000_000_000;

impl FrameInput {
    /// What the host guarantees of a snapshot: the window half-extent is a
    /// physical size within the limit and the oscillation offset is small.
    pub open spec fn wf(self) -> bool {
        &&& 0 <= self.half_window_w <= DIM_LIMIT
        &&& 0 <= self.half_window_h <= DIM_LIMIT
        &&& -WAVE_LIMIT <= self.hud_wave <= WAVE_LIMIT
    }
}

} // verus!
