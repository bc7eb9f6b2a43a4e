//! The per-frame update: executable stages, each proved to realize its
//! stage function from `model`, and `game_frame`, which runs them in order
//! and realizes `frame_spec`.

use vstd::prelude::*;
use crate::fmt::{score_text, high_score_text, score_text_spec, high_score_text_spec};
use crate::model::{
    GameModel, model, exit_spec, hud_spec, collisions_spec, run_events, collide_step,
    movement_spec, axis_step, mouse_spec, timer_spec,
    reset_spec, frame_spec, lemma_run_events_snoc, lemma_run_events_frame,
    SUBPIXELS, MOVE_SUBPIXELS_PER_MICRO, SCORE_INSET_X, TEXT_INSET_Y, HIGH_INSET_X,
    SPAWN_X_BOUND, SPAWN_Y_BOUND,
};
use crate::rng::random_in_range;
use crate::state::{FrameInput, GameState};
use crate::world::{CollisionEvent, CollisionState, Label, Sprite, SpriteTable, Text, Texts, World};

verus! {

/// Bound under which a player position is accepted by a frame: four
/// thousand million pixels from center, in sub-pixel units. Movement within
/// one frame stays far inside the machine range from here.
pub const POS_LIMIT: i64 = 4_000_000_000_000_000;

/// Exit check: the quit key latches the engine's exit flag.
pub fn apply_exit(world: &mut World, input: &FrameInput)
    ensures
        *final(world) == (World {
            should_exit: old(world).should_exit || input.quit_pressed,
            ..*old(world)
        }),
{
    if input.quit_pressed {
        world.should_exit = true;
    }
}

/// HUD repositioning: anchor the score text to the top-right margin with
/// the oscillation offset applied to its height, and the high-score text to
/// the top-left margin.
pub fn position_hud(world: &mut World, input: &FrameInput)
    requires
        input.wf(),
    ensures
        final(world).texts.score.x == input.half_window_w - SCORE_INSET_X,
        final(world).texts.score.y == input.half_window_h - TEXT_INSET_Y + input.hud_wave,
        final(world).texts.high_score.x == -input.half_window_w + HIGH_INSET_X,
        final(world).texts.high_score.y == input.half_window_h - TEXT_INSET_Y,
        final(world).texts.score.value == old(world).texts.score.value,
        final(world).texts.high_score.value == old(world).texts.high_score.value,
        final(world).sprites == old(world).sprites,
        final(world).collision_events == old(world).collision_events,
        final(world).should_exit == old(world).should_exit,
{
    world.texts.score.x = input.half_window_w - SCORE_INSET_X;
    world.texts.score.y = input.half_window_h - TEXT_INSET_Y + input.hud_wave;
    world.texts.high_score.x = -input.half_window_w + HIGH_INSET_X;
    world.texts.high_score.y = input.half_window_h - TEXT_INSET_Y;
}

/// Collision handling: drain the event queue; each begin event whose pair
/// includes the player removes the non-player pair members, scores one
/// point, refreshes the score text, raises the high score and its text when
/// strictly exceeded, and requests one sound effect. Returns how many sound
/// effects the host should play.
pub fn handle_collisions(world: &mut World, state: &mut GameState) -> (sfx: u32)
    requires
        old(world).wf(),
        old(state).score + old(world).collision_events@.len() <= u32::MAX,
    ensures
        final(world).wf(),
        model(*final(world), *final(state), sfx as int) == collisions_spec(
            model(*old(world), *old(state), 0),
        ),
{
    let ghost m0 = model(*old(world), *old(state), 0);
    let ghost evs0 = old(world).collision_events@;
    let mut sfx: u32 = 0;
    let ghost mut k: int = 0;
    while world.collision_events.len() > 0
        invariant
            world.wf(),
            0 <= k <= evs0.len(),
            world.collision_events@ == evs0.skip(k),
            (GameModel { events: evs0, ..model(*world, *state, sfx as int) }) == run_events(
                m0,
                evs0.take(k),
            ),
            m0.score >= 0,
            m0.sfx == 0,
            m0.score + evs0.len() <= u32::MAX,
        decreases world.collision_events@.len(),
    {
        let ghost mprev = GameModel { events: evs0, ..model(*world, *state, sfx as int) };
        let ev = world.collision_events.remove(0);
        proof {
            assert(ev == evs0[k]);
            assert(evs0.skip(k).remove(0) =~= evs0.skip(k + 1));
            lemma_run_events_frame(m0, evs0.take(k));
            assert(evs0.take(k).len() == k);
        }
        if ev.state == CollisionState::Begin && (ev.first == Label::Player || ev.second
            == Label::Player) {
            if ev.first != Label::Player {
                world.sprites.remove(ev.first);
            }
            if ev.second != Label::Player {
                world.sprites.remove(ev.second);
            }
            state.score = state.score + 1;
            let st = score_text(state.score);
            world.texts.score.value = st;
            if state.score > state.high_score {
                state.high_score = state.score;
                let ht = high_score_text(state.high_score);
                world.texts.high_score.value = ht;
            }
            sfx = sfx + 1;
        }
        proof {
            assert((GameModel { events: evs0, ..model(*world, *state, sfx as int) })
                == collide_step(mprev, ev));
            assert(evs0.take(k + 1) =~= evs0.take(k).push(evs0[k]));
            lemma_run_events_snoc(m0, evs0.take(k), evs0[k]);
            k = k + 1;
        }
    }
    proof {
        assert(world.collision_events@.len() == 0);
        assert(k == evs0.len());
        assert(evs0.take(k) =~= evs0);
        assert(world.collision_events@ =~= Seq::<CollisionEvent>::empty());
    }
    sfx
}

/// Keyboard movement: each of the four direction groups that is held moves
/// the player by the movement speed times the frame delta along its axis;
/// opposing groups both apply.
pub fn apply_movement(world: &mut World, input: &FrameInput)
    requires
        old(world).wf(),
        old(world).sprites@.contains_key(Label::Player),
        -POS_LIMIT <= old(world).sprites@[Label::Player].x <= POS_LIMIT,
        -POS_LIMIT <= old(world).sprites@[Label::Player].y <= POS_LIMIT,
    ensures
        final(world).wf(),
        final(world).sprites@ == old(world).sprites@.insert(Label::Player, (Sprite {
            x: (old(world).sprites@[Label::Player].x + axis_step(
                input.right_held || input.d_held,
                input.left_held || input.a_held,
                input.delta_micros as int,
            )) as i64,
            y: (old(world).sprites@[Label::Player].y + axis_step(
                input.up_held || input.w_held,
                input.down_held || input.s_held,
                input.delta_micros as int,
            )) as i64,
            collision: old(world).sprites@[Label::Player].collision,
        })),
        final(world).texts == old(world).texts,
        final(world).collision_events == old(world).collision_events,
        final(world).should_exit == old(world).should_exit,
{
    let step: i64 = MOVE_SUBPIXELS_PER_MICRO * (input.delta_micros as i64);
    let opt = world.sprites.get(Label::Player);
    match opt {
        Some(p) => {
            let mut x: i64 = p.x;
            let mut y: i64 = p.y;
            if input.up_held || input.w_held {
                y = y + step;
            }
            if input.down_held || input.s_held {
                y = y - step;
            }
            if input.right_held || input.d_held {
                x = x + step;
            }
            if input.left_held || input.a_held {
                x = x - step;
            }
            world.sprites.insert(Label::Player, Sprite { x, y, collision: p.collision });
        },
        None => {
            proof {
                assert(false);
            }
        },
    }
}

/// `w1` is `w0` with one collision-enabled target spawned at `(x, y)` under
/// counter value `idx`.
pub open spec fn spawned_at(
    w0: Map<Label, Sprite>,
    w1: Map<Label, Sprite>,
    idx: int,
    x: i64,
    y: i64,
) -> bool {
    w1 == w0.insert(Label::Ferris(idx as i32), Sprite { x: x, y: y, collision: true })
}

/// Spawn one collision-enabled target at `(x, y)` under the next counter
/// value, advancing the counter. Shared by the mouse and the timer spawn,
/// which is what keeps their generated keys from ever colliding.
pub fn spawn_target(world: &mut World, state: &mut GameState, x: i64, y: i64)
    requires
        old(world).wf(),
        old(state).ferris_index < i32::MAX,
    ensures
        final(world).wf(),
        spawned_at(
            old(world).sprites@,
            final(world).sprites@,
            old(state).ferris_index as int,
            x,
            y,
        ),
        final(state).ferris_index == old(state).ferris_index + 1,
        final(state).score == old(state).score,
        final(state).high_score == old(state).high_score,
        final(state).spawn_timer == old(state).spawn_timer,
        final(world).texts == old(world).texts,
        final(world).collision_events == old(world).collision_events,
        final(world).should_exit == old(world).should_exit,
{
    let label = Label::Ferris(state.ferris_index);
    state.ferris_index = state.ferris_index + 1;
    world.sprites.insert(label, Sprite { x, y, collision: true });
}

/// Mouse spawn: a primary-button press with a known pointer location spawns
/// one target there.
pub fn handle_mouse_spawn(world: &mut World, state: &mut GameState, input: &FrameInput)
    requires
        old(world).wf(),
        old(state).ferris_index < i32::MAX,
    ensures
        final(world).wf(),
        input.mouse_clicked && input.mouse_location is Some ==> spawned_at(
            old(world).sprites@,
            final(world).sprites@,
            old(state).ferris_index as int,
            (input.mouse_location->0).0,
            (input.mouse_location->0).1,
        ) && final(state).ferris_index == old(state).ferris_index + 1,
        !(input.mouse_clicked && input.mouse_location is Some) ==> final(world).sprites@ == old(
            world,
        ).sprites@ && final(state).ferris_index == old(state).ferris_index,
        final(state).score == old(state).score,
        final(state).high_score == old(state).high_score,
        final(state).spawn_timer == old(state).spawn_timer,
        final(world).texts == old(world).texts,
        final(world).collision_events == old(world).collision_events,
        final(world).should_exit == old(world).should_exit,
{
    if input.mouse_clicked {
        match input.mouse_location {
            Some(loc) => {
                spawn_target(world, state, loc.0, loc.1);
            },
            None => {},
        }
    }
}

/// Timer spawn: advance the spawn timer by the frame delta; when it crosses
/// its interval, spawn one target at a position drawn uniformly from the
/// play field, `x` within 550 and `y` within 325 pixels of center.
pub fn handle_timer_spawn(world: &mut World, state: &mut GameState, delta_micros: u32)
    requires
        old(world).wf(),
        old(state).wf(),
        old(state).ferris_index < i32::MAX,
    ensures
        final(world).wf(),
        final(state).wf(),
        final(state).spawn_timer.interval_micros == old(state).spawn_timer.interval_micros,
        final(state).spawn_timer.elapsed_micros == (old(state).spawn_timer.elapsed_micros
            + delta_micros) % (old(state).spawn_timer.interval_micros as int),
        final(state).score == old(state).score,
        final(state).high_score == old(state).high_score,
        final(world).texts == old(world).texts,
        final(world).collision_events == old(world).collision_events,
        final(world).should_exit == old(world).should_exit,
        old(state).spawn_timer.elapsed_micros + delta_micros
            >= old(state).spawn_timer.interval_micros ==> exists|x: i64, y: i64|
            -SPAWN_X_BOUND <= x < SPAWN_X_BOUND && -SPAWN_Y_BOUND <= y < SPAWN_Y_BOUND
                && spawned_at(
                old(world).sprites@,
                final(world).sprites@,
                old(state).ferris_index as int,
                x,
                y,
            ) && final(state).ferris_index == old(state).ferris_index + 1,
        old(state).spawn_timer.elapsed_micros + delta_micros
            < old(state).spawn_timer.interval_micros
            ==> final(world).sprites@ == old(world).sprites@
                && final(state).ferris_index == old(state).ferris_index,
{
    let finished = state.spawn_timer.tick(delta_micros);
    if finished {
        let x = random_in_range(-SPAWN_X_BOUND, SPAWN_X_BOUND);
        let y = random_in_range(-SPAWN_Y_BOUND, SPAWN_Y_BOUND);
        spawn_target(world, state, x, y);
        proof {
            assert(spawned_at(
                old(world).sprites@,
                world.sprites@,
                old(state).ferris_index as int,
                x,
                y,
            ));
        }
    }
}

/// Manual reset: the reset key zeroes the score and its text. The high
/// score and its text are deliberately left untouched.
pub fn apply_reset(world: &mut World, state: &mut GameState, input: &FrameInput)
    ensures
        input.reset_pressed ==> final(state).score == 0
            && final(world).texts.score.value@ == score_text_spec(0),
        !input.reset_pressed ==> final(state).score == old(state).score
            && final(world).texts.score.value == old(world).texts.score.value,
        final(state).high_score == old(state).high_score,
        final(state).ferris_index == old(state).ferris_index,
        final(state).spawn_timer == old(state).spawn_timer,
        final(world).texts.high_score == old(world).texts.high_score,
        final(world).texts.score.x == old(world).texts.score.x,
        final(world).texts.score.y == old(world).texts.score.y,
        final(world).sprites == old(world).sprites,
        final(world).collision_events == old(world).collision_events,
        final(world).should_exit == old(world).should_exit,
{
    if input.reset_pressed {
        state.score = 0;
        world.texts.score.value = score_text(0);
    }
}

/// One whole frame, the stages in order: exit check, HUD repositioning,
/// collision scoring, movement, mouse spawn, timer spawn, manual reset.
/// Returns how many sound effects the host should play. The result is
/// exactly `frame_spec` on the frame's input, with the timer spawn's two
/// random coordinates as the only values left open, each within the play
/// field.
pub fn game_frame(world: &mut World, state: &mut GameState, input: &FrameInput) -> (sfx: u32)
    requires
        old(world).wf(),
        old(state).wf(),
        input.wf(),
        old(world).sprites@.contains_key(Label::Player),
        -POS_LIMIT <= old(world).sprites@[Label::Player].x <= POS_LIMIT,
        -POS_LIMIT <= old(world).sprites@[Label::Player].y <= POS_LIMIT,
        old(state).score + old(world).collision_events@.len() <= u32::MAX,
        old(state).ferris_index + 2 <= i32::MAX,
    ensures
        final(world).wf(),
        final(state).wf(),
        exists|rx: i64, ry: i64|
            -SPAWN_X_BOUND <= rx < SPAWN_X_BOUND && -SPAWN_Y_BOUND <= ry < SPAWN_Y_BOUND
                && model(*final(world), *final(state), sfx as int) == frame_spec(
                model(*old(world), *old(state), 0),
                *input,
                rx,
                ry,
            ),
{
    let ghost m0 = model(*old(world), *old(state), 0);
    apply_exit(world, input);
    let ghost m1 = model(*world, *state, 0);
    proof {
        assert(m1 == exit_spec(m0, *input));
    }
    position_hud(world, input);
    let ghost m2 = model(*world, *state, 0);
    proof {
        assert(m2 == hud_spec(m1, *input));
    }
    let sfx = handle_collisions(world, state);
    let ghost m3 = model(*world, *state, sfx as int);
    proof {
        assert(m3 == collisions_spec(m2));
        lemma_run_events_frame(m2, m2.events);
    }
    apply_movement(world, input);
    let ghost m4 = model(*world, *state, sfx as int);
    proof {
        assert(m4 == movement_spec(m3, *input));
    }
    handle_mouse_spawn(world, state, input);
    let ghost m5 = model(*world, *state, sfx as int);
    proof {
        assert(m5 == mouse_spec(m4, *input));
    }
    let ghost pre_timer_state = *state;
    let ghost pre_timer_sprites = world.sprites@;
    handle_timer_spawn(world, state, input.delta_micros);
    let ghost m6 = model(*world, *state, sfx as int);
    proof {
        if pre_timer_state.spawn_timer.elapsed_micros + input.delta_micros
            >= pre_timer_state.spawn_timer.interval_micros {
            let (x, y) = choose|x: i64, y: i64|
                -SPAWN_X_BOUND <= x < SPAWN_X_BOUND && -SPAWN_Y_BOUND <= y < SPAWN_Y_BOUND
                    && spawned_at(
                    pre_timer_sprites,
                    world.sprites@,
                    pre_timer_state.ferris_index as int,
                    x,
                    y,
                ) && state.ferris_index == pre_timer_state.ferris_index + 1;
            assert(m6 == timer_spec(m5, *input, x, y));
            assert(exists|rx: i64, ry: i64|
                -SPAWN_X_BOUND <= rx < SPAWN_X_BOUND && -SPAWN_Y_BOUND <= ry < SPAWN_Y_BOUND
                    && m6 == timer_spec(m5, *input, rx, ry));
        } else {
            assert(m6 == timer_spec(m5, *input, 0, 0));
            assert(exists|rx: i64, ry: i64|
                -SPAWN_X_BOUND <= rx < SPAWN_X_BOUND && -SPAWN_Y_BOUND <= ry < SPAWN_Y_BOUND
                    && m6 == timer_spec(m5, *input, rx, ry));
        }
    }
    apply_reset(world, state, input);
    let ghost m7 = model(*world, *state, sfx as int);
    proof {
        assert(m7 == reset_spec(m6, *input));
        let (x, y) = choose|rx: i64, ry: i64|
            -SPAWN_X_BOUND <= rx < SPAWN_X_BOUND && -SPAWN_Y_BOUND <= ry < SPAWN_Y_BOUND
                && m6 == timer_spec(m5, *input, rx, ry);
        assert(m7 == frame_spec(m0, *input, x, y));
    }
    sfx
}

/// The world as the setup phase leaves it for the first frame: the player
/// sprite at the center with collisions on, both HUD texts showing zero at
/// their startup positions, no queued events, and the exit flag clear.
pub fn initial_world() -> (w: World)
    ensures
        w.wf(),
        w.sprites@ == Map::<Label, Sprite>::empty().insert(Label::Player, (Sprite {
            x: 0,
            y: 0,
            collision: true,
        })),
        w.texts.score.value@ == score_text_spec(0),
        w.texts.score.x == 520 * SUBPIXELS,
        w.texts.score.y == 320 * SUBPIXELS,
        w.texts.high_score.value@ == high_score_text_spec(0),
        w.texts.high_score.x == -520 * SUBPIXELS,
        w.texts.high_score.y == 320 * SUBPIXELS,
        w.collision_events@ == Seq::<CollisionEvent>::empty(),
        !w.should_exit,
{
    let mut sprites = SpriteTable::new();
    sprites.insert(Label::Player, Sprite { x: 0, y: 0, collision: true });
    let score = Text { value: score_text(0), x: 520 * SUBPIXELS, y: 320 * SUBPIXELS };
    let high_score = Text {
        value: high_score_text(0),
        x: -520 * SUBPIXELS,
        y: 320 * SUBPIXELS,
    };
    let collision_events: Vec<CollisionEvent> = Vec::new();
    proof {
        assert(collision_events@ =~= Seq::<CollisionEvent>::empty());
    }
    World { sprites, texts: Texts { score, high_score }, collision_events, should_exit: false }
}

} // verus!
