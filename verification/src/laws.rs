//! The laws the frame logic obeys, proved from the model: what one scoring
//! collision does, when the high score and its text move, what a reset
//! touches, why spawned sprite keys never repeat, and why movement is
//! additive in time.

use vstd::prelude::*;
use crate::fmt::{score_text_spec, high_score_text_spec};
use crate::model::{
    GameModel, axis_step, collide_step, collisions_spec, exit_spec, frame_spec, hud_spec,
    lemma_run_events_frame, mouse_spec, movement_spec, reset_spec, scoring_event,
    timer_finishes, timer_spec,
};
use crate::state::FrameInput;
use crate::world::{CollisionEvent, CollisionState, Label};

verus! {

/// A begin collision whose pair is the player and one other sprite scores
/// exactly one point, refreshes the score text to the new score, removes
/// that other sprite from the table, and requests one sound effect.
pub proof fn lemma_collision_scores(m: GameModel, ev: CollisionEvent, other: Label)
    requires
        m.score >= 0,
        ev.state == CollisionState::Begin,
        other != Label::Player,
        (ev.first == Label::Player && ev.second == other) || (ev.second == Label::Player
            && ev.first == other),
    ensures
        collide_step(m, ev).score == m.score + 1,
        collide_step(m, ev).score_text == score_text_spec((m.score + 1) as nat),
        collide_step(m, ev).sprites == m.sprites.remove(other),
        !collide_step(m, ev).sprites.contains_key(other),
        collide_step(m, ev).sfx == m.sfx + 1,
{
}

/// A begin collision whose pair is the player twice over still scores one
/// point and requests one sound effect, but removes nothing.
pub proof fn lemma_self_collision_scores(m: GameModel, ev: CollisionEvent)
    requires
        m.score >= 0,
        ev.state == CollisionState::Begin,
        ev.first == Label::Player,
        ev.second == Label::Player,
    ensures
        collide_step(m, ev).score == m.score + 1,
        collide_step(m, ev).score_text == score_text_spec((m.score + 1) as nat),
        collide_step(m, ev).sprites == m.sprites,
        collide_step(m, ev).sfx == m.sfx + 1,
{
    assert(collide_step(m, ev).sprites =~= m.sprites);
}

/// After a scoring collision the high score and its text move exactly when
/// the new score strictly exceeds the old high score, and then to the new
/// score; otherwise both are left as they were.
pub proof fn lemma_high_score_updates(m: GameModel, ev: CollisionEvent)
    requires
        m.score >= 0,
        scoring_event(ev),
    ensures
        m.score + 1 > m.high_score ==> collide_step(m, ev).high_score == m.score + 1
            && collide_step(m, ev).high_text == high_score_text_spec((m.score + 1) as nat),
        m.score + 1 <= m.high_score ==> collide_step(m, ev).high_score == m.high_score
            && collide_step(m, ev).high_text == m.high_text,
{
}

/// A reset zeroes the score and its text and touches nothing else: in
/// particular the high score and its text never move on reset.
pub proof fn lemma_reset(m: GameModel, input: FrameInput)
    ensures
        input.reset_pressed ==> reset_spec(m, input).score == 0 && reset_spec(m, input).score_text
            == score_text_spec(0),
        !input.reset_pressed ==> reset_spec(m, input) == m,
        reset_spec(m, input).high_score == m.high_score,
        reset_spec(m, input).high_text == m.high_text,
        reset_spec(m, input).sprites == m.sprites,
{
}

/// The sprite keys generated by counter values in `[lo, hi)`.
pub open spec fn spawn_labels(lo: int, hi: int) -> Set<Label> {
    Set::new(|l: Label| l is Ferris && lo <= l->0 < hi)
}

/// Spawn keys from counter ranges that do not overlap never collide: the
/// counter is monotonic, so no key is ever generated twice within a run.
pub proof fn lemma_spawn_labels_disjoint(a: int, b: int, c: int, d: int)
    requires
        b <= c,
    ensures
        spawn_labels(a, b).disjoint(spawn_labels(c, d)),
{
    assert forall|l: Label| spawn_labels(a, b).contains(l) implies !spawn_labels(
        c,
        d,
    ).contains(l) by {
        assert(l->0 < b);
    }
}

/// Within one frame, the spawn counter never falls, rises by at most two,
/// and every sprite key the frame adds comes from the counter values it
/// consumed. Together with `lemma_spawn_labels_disjoint` this makes every
/// generated key unique across any run of frames, mouse and timer spawns
/// alike.
pub proof fn lemma_frame_new_keys(m: GameModel, input: FrameInput, rx: i64, ry: i64)
    requires
        m.sprites.contains_key(Label::Player),
        i32::MIN <= m.ferris_index,
        m.ferris_index + 2 <= i32::MAX,
    ensures
        m.ferris_index <= frame_spec(m, input, rx, ry).ferris_index <= m.ferris_index + 2,
        forall|l: Label|
            #[trigger] frame_spec(m, input, rx, ry).sprites.contains_key(l)
                && !m.sprites.contains_key(l) ==> spawn_labels(
                m.ferris_index,
                frame_spec(m, input, rx, ry).ferris_index,
            ).contains(l),
{
    let m1 = exit_spec(m, input);
    let m2 = hud_spec(m1, input);
    let m3 = collisions_spec(m2);
    let m4 = movement_spec(m3, input);
    let m5 = mouse_spec(m4, input);
    let m6 = timer_spec(m5, input, rx, ry);
    let m7 = reset_spec(m6, input);
    lemma_run_events_frame(m2, m2.events);
    let i0 = m.ferris_index;
    let ifinal = m7.ferris_index;
    assert forall|l: Label|
        #[trigger] m7.sprites.contains_key(l) && !m.sprites.contains_key(l) implies spawn_labels(
        i0,
        ifinal,
    ).contains(l) by {
        if timer_finishes(m5, input) && l == Label::Ferris(m5.ferris_index as i32) {
            assert(i0 <= m5.ferris_index < ifinal);
            assert(l == Label::Ferris(m5.ferris_index as i32));
        } else {
            assert(m5.sprites.contains_key(l));
            if input.mouse_clicked && input.mouse_location is Some && l == Label::Ferris(
                m4.ferris_index as i32,
            ) {
                assert(i0 <= m4.ferris_index < ifinal);
            } else {
                assert(m4.sprites.contains_key(l));
                assert(l != Label::Player);
                assert(m3.sprites.contains_key(l));
                assert(false);
            }
        }
    }
}

/// The total of a sequence of frame deltas.
pub open spec fn sum(deltas: Seq<int>) -> int
    decreases deltas.len(),
{
    if deltas.len() == 0 {
        0
    } else {
        deltas[0] + sum(deltas.skip(1))
    }
}

/// One axis coordinate after moving frame by frame under a fixed held-key
/// state, one `axis_step` per frame delta.
pub open spec fn axis_after(start: int, pos_held: bool, neg_held: bool, deltas: Seq<int>) -> int
    decreases deltas.len(),
{
    if deltas.len() == 0 {
        start
    } else {
        axis_after(
            start + axis_step(pos_held, neg_held, deltas[0]),
            pos_held,
            neg_held,
            deltas.skip(1),
        )
    }
}

/// Movement is additive: holding a key state over any sequence of frames
/// displaces by the speed times the total elapsed time, however the time
/// was sliced into frames.
pub proof fn lemma_movement_additive(start: int, pos_held: bool, neg_held: bool, deltas: Seq<int>)
    ensures
        axis_after(start, pos_held, neg_held, deltas) == start + axis_step(
            pos_held,
            neg_held,
            sum(deltas),
        ),
    decreases deltas.len(),
{
    if deltas.len() > 0 {
        lemma_movement_additive(
            start + axis_step(pos_held, neg_held, deltas[0]),
            pos_held,
            neg_held,
            deltas.skip(1),
        );
    }
}

/// Frame-rate independence: two slicings of the same total time displace
/// equally.
pub proof fn lemma_movement_slicing(
    start: int,
    pos_held: bool,
    neg_held: bool,
    d1: Seq<int>,
    d2: Seq<int>,
)
    requires
        sum(d1) == sum(d2),
    ensures
        axis_after(start, pos_held, neg_held, d1) == axis_after(start, pos_held, neg_held, d2),
{
    lemma_movement_additive(start, pos_held, neg_held, d1);
    lemma_movement_additive(start, pos_held, neg_held, d2);
}

} // verus!
