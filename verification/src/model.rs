//! The mathematical model of one frame.
//!
//! `GameModel` gathers everything a frame may change; each stage of the
//! frame is a function on it, and `frame_spec` is their composition in the
//! order the frame runs them. The executable code in `update` is proved to
//! realize exactly this model, with the two random spawn coordinates as the
//! only values left open.

use vstd::prelude::*;
use crate::fmt::{score_text_spec, high_score_text_spec};
use crate::state::FrameInput;
use crate::world::{CollisionEvent, CollisionState, Label, Sprite, World};
use crate::state::GameState;

verus! {

/// Sub-pixel units per pixel.
pub const SUBPIXELS: i64 = 1_000_000;

/// Movement speed: one hundred pixels per second, which is one hundred
/// sub-pixel units per microsecond.
pub const MOVE_SUBPIXELS_PER_MICRO: i64 = 100;

/// Horizontal inset of the score text from the right window edge.
pub const SCORE_INSET_X: i64 = 80 * 1_000_000;

/// Vertical inset of both HUD texts from the top window edge.
pub const TEXT_INSET_Y: i64 = 30 * 1_000_000;

/// Horizontal inset of the high-score text from the left window edge.
pub const HIGH_INSET_X: i64 = 110 * 1_000_000;

/// Play-field half-width: timer spawns land within 550 pixels of center.
pub const SPAWN_X_BOUND: i64 = 550 * 1_000_000;

/// Play-field half-height: timer spawns land within 325 pixels of center.
pub const SPAWN_Y_BOUND: i64 = 325 * 1_000_000;

/// Everything one frame may change, as one ghost record.
pub struct GameModel {
    pub sprites: Map<Label, Sprite>,
    pub score_text: Seq<char>,
    pub score_x: int,
    pub score_y: int,
    pub high_text: Seq<char>,
    pub high_x: int,
    pub high_y: int,
    pub events: Seq<CollisionEvent>,
    pub should_exit: bool,
    pub score: int,
    pub high_score: int,
    pub ferris_index: int,
    pub timer_elapsed: int,
    pub timer_interval: int,
    pub sfx: int,
}

/// The model denoted by the engine surfaces, the persistent state, and the
/// count of sound effects requested so far this frame.
pub open spec fn model(w: World, s: GameState, sfx: int) -> GameModel {
    GameModel {
        sprites: w.sprites@,
        score_text: w.texts.score.value@,
        score_x: w.texts.score.x as int,
        score_y: w.texts.score.y as int,
        high_text: w.texts.high_score.value@,
        high_x: w.texts.high_score.x as int,
        high_y: w.texts.high_score.y as int,
        events: w.collision_events@,
        should_exit: w.should_exit,
        score: s.score as int,
        high_score: s.high_score as int,
        ferris_index: s.ferris_index as int,
        timer_elapsed: s.spawn_timer.elapsed_micros as int,
        timer_interval: s.spawn_timer.interval_micros as int,
        sfx: sfx,
    }
}

/// Exit check: the quit key latches the exit flag.
pub open spec fn exit_spec(m: GameModel, input: FrameInput) -> GameModel {
    GameModel { should_exit: m.should_exit || input.quit_pressed, ..m }
}

/// HUD repositioning: the score text sits at the top-right margin with the
/// oscillation offset on its height, the high-score text at the top-left
/// margin without it.
pub open spec fn hud_spec(m: GameModel, input: FrameInput) -> GameModel {
    GameModel {
        score_x: input.half_window_w - SCORE_INSET_X,
        score_y: input.half_window_h - TEXT_INSET_Y + input.hud_wave,
        high_x: -input.half_window_w + HIGH_INSET_X,
        high_y: input.half_window_h - TEXT_INSET_Y,
        ..m
    }
}

/// An event scores when it begins an overlap and its pair includes the
/// player key.
pub open spec fn scoring_event(ev: CollisionEvent) -> bool {
    ev.state == CollisionState::Begin && (ev.first == Label::Player || ev.second
        == Label::Player)
}

/// Remove every pair member other than the player from the table. A
/// self-pair removes nothing.
pub open spec fn strip_non_player(sprites: Map<Label, Sprite>, ev: CollisionEvent) -> Map<
    Label,
    Sprite,
> {
    let m1 = if ev.first == Label::Player {
        sprites
    } else {
        sprites.remove(ev.first)
    };
    if ev.second == Label::Player {
        m1
    } else {
        m1.remove(ev.second)
    }
}

/// The effect of one collision event: a scoring event removes the
/// non-player pair members, bumps the score and its text, raises the high
/// score and its text when strictly exceeded, and requests one sound
/// effect; any other event does nothing.
pub open spec fn collide_step(m: GameModel, ev: CollisionEvent) -> GameModel {
    if scoring_event(ev) {
        let score2 = m.score + 1;
        let bumped = GameModel {
            sprites: strip_non_player(m.sprites, ev),
            score: score2,
            score_text: score_text_spec(score2 as nat),
            sfx: m.sfx + 1,
            ..m
        };
        if score2 > m.high_score {
            GameModel {
                high_score: score2,
                high_text: high_score_text_spec(score2 as nat),
                ..bumped
            }
        } else {
            bumped
        }
    } else {
        m
    }
}

/// Fold `collide_step` over a queue of events, first event first.
pub open spec fn run_events(m: GameModel, evs: Seq<CollisionEvent>) -> GameModel
    decreases evs.len(),
{
    if evs.len() == 0 {
        m
    } else {
        run_events(collide_step(m, evs[0]), evs.skip(1))
    }
}

/// Collision handling: every queued event is applied and the queue is
/// drained.
pub open spec fn collisions_spec(m: GameModel) -> GameModel {
    GameModel { events: Seq::empty(), ..run_events(m, m.events) }
}

/// Signed displacement along one axis for a held key pair: opposing held
/// keys both apply.
pub open spec fn axis_step(pos_held: bool, neg_held: bool, delta: int) -> int {
    (if pos_held {
        MOVE_SUBPIXELS_PER_MICRO * delta
    } else {
        0
    }) - (if neg_held {
        MOVE_SUBPIXELS_PER_MICRO * delta
    } else {
        0
    })
}

/// Keyboard movement of the player sprite: each axis moves by its
/// `axis_step` for this frame's delta.
pub open spec fn movement_spec(m: GameModel, input: FrameInput) -> GameModel {
    if m.sprites.contains_key(Label::Player) {
        let p = m.sprites[Label::Player];
        let nx = p.x + axis_step(
            input.right_held || input.d_held,
            input.left_held || input.a_held,
            input.delta_micros as int,
        );
        let ny = p.y + axis_step(
            input.up_held || input.w_held,
            input.down_held || input.s_held,
            input.delta_micros as int,
        );
        GameModel {
            sprites: m.sprites.insert(
                Label::Player,
                Sprite { x: nx as i64, y: ny as i64, collision: p.collision },
            ),
            ..m
        }
    } else {
        m
    }
}

/// Spawn one collision-enabled target at `(x, y)` under the next counter
/// value, and advance the counter.
pub open spec fn spawn_spec(m: GameModel, x: i64, y: i64) -> GameModel {
    GameModel {
        sprites: m.sprites.insert(
            Label::Ferris(m.ferris_index as i32),
            Sprite { x: x, y: y, collision: true },
        ),
        ferris_index: m.ferris_index + 1,
        ..m
    }
}

/// Mouse spawn: a click with a known pointer location spawns one target
/// there.
pub open spec fn mouse_spec(m: GameModel, input: FrameInput) -> GameModel {
    if input.mouse_clicked && input.mouse_location is Some {
        let loc = input.mouse_location->0;
        spawn_spec(m, loc.0, loc.1)
    } else {
        m
    }
}

/// Whether the spawn timer crosses its interval during this frame.
pub open spec fn timer_finishes(m: GameModel, input: FrameInput) -> bool {
    m.timer_elapsed + input.delta_micros >= m.timer_interval
}

/// Timer spawn: tick the timer by the frame delta, carrying the remainder
/// over; when it finishes, spawn one target at the given coordinates.
pub open spec fn timer_spec(m: GameModel, input: FrameInput, rx: i64, ry: i64) -> GameModel {
    let ticked = GameModel {
        timer_elapsed: (m.timer_elapsed + input.delta_micros) % m.timer_interval,
        ..m
    };
    if timer_finishes(m, input) {
        spawn_spec(ticked, rx, ry)
    } else {
        ticked
    }
}

/// Manual reset: the reset key zeroes the score and its text, touching
/// neither the high score nor its text.
pub open spec fn reset_spec(m: GameModel, input: FrameInput) -> GameModel {
    if input.reset_pressed {
        GameModel { score: 0, score_text: score_text_spec(0), ..m }
    } else {
        m
    }
}

/// One whole frame, stages in order: exit check, HUD repositioning,
/// collision scoring, movement, mouse spawn, timer spawn, reset. `rx` and
/// `ry` stand for the coordinates the timer spawn draws at random.
pub open spec fn frame_spec(m: GameModel, input: FrameInput, rx: i64, ry: i64) -> GameModel {
    reset_spec(
        timer_spec(
            mouse_spec(movement_spec(collisions_spec(hud_spec(exit_spec(m, input), input)), input), input),
            input,
            rx,
            ry,
        ),
        input,
    )
}

/// Folding one more event equals folding the rest and then stepping.
pub proof fn lemma_run_events_snoc(m: GameModel, evs: Seq<CollisionEvent>, ev: CollisionEvent)
    ensures
        run_events(m, evs.push(ev)) == collide_step(run_events(m, evs), ev),
    decreases evs.len(),
{
    if evs.len() == 0 {
        let cs = collide_step(m, ev);
        assert(evs.push(ev)[0] == ev);
        assert(evs.push(ev).skip(1) =~= Seq::<CollisionEvent>::empty());
        assert(run_events(m, evs.push(ev)) == run_events(cs, evs.push(ev).skip(1)));
        assert(run_events(cs, Seq::<CollisionEvent>::empty()) == cs);
        assert(run_events(m, evs) == m);
    } else {
        let cs = collide_step(m, evs[0]);
        assert(evs.push(ev)[0] == evs[0]);
        assert(evs.push(ev).skip(1) =~= evs.skip(1).push(ev));
        assert(run_events(m, evs.push(ev)) == run_events(cs, evs.skip(1).push(ev)));
        lemma_run_events_snoc(cs, evs.skip(1), ev);
        assert(run_events(m, evs) == run_events(cs, evs.skip(1)));
    }
}

/// What a fold of collision events leaves alone and how far it can move the
/// counters: positions, the queue, the exit flag, the timer and the spawn
/// counter are untouched; the player entry is untouched; the score grows by
/// at most one per event; the high score only rises, and a risen high score
/// never exceeds the score.
pub proof fn lemma_run_events_frame(m: GameModel, evs: Seq<CollisionEvent>)
    ensures
        run_events(m, evs).score_x == m.score_x,
        run_events(m, evs).score_y == m.score_y,
        run_events(m, evs).high_x == m.high_x,
        run_events(m, evs).high_y == m.high_y,
        run_events(m, evs).events == m.events,
        run_events(m, evs).should_exit == m.should_exit,
        run_events(m, evs).ferris_index == m.ferris_index,
        run_events(m, evs).timer_elapsed == m.timer_elapsed,
        run_events(m, evs).timer_interval == m.timer_interval,
        run_events(m, evs).sprites.contains_key(Label::Player) == m.sprites.contains_key(
            Label::Player,
        ),
        m.sprites.contains_key(Label::Player) ==> run_events(m, evs).sprites[Label::Player]
            == m.sprites[Label::Player],
        forall|l: Label| #[trigger] run_events(m, evs).sprites.contains_key(l)
            ==> m.sprites.contains_key(l),
        m.score <= run_events(m, evs).score <= m.score + evs.len(),
        m.sfx <= run_events(m, evs).sfx <= m.sfx + evs.len(),
        m.high_score <= run_events(m, evs).high_score,
        run_events(m, evs).high_score == m.high_score || run_events(m, evs).high_score
            <= run_events(m, evs).score,
    decreases evs.len(),
{
    if evs.len() > 0 {
        lemma_run_events_frame(collide_step(m, evs[0]), evs.skip(1));
    }
}

} // verus!
