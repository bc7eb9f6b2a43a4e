use ferris_game::model::{SPAWN_X_BOUND, SPAWN_Y_BOUND, SUBPIXELS};
use ferris_game::state::{FrameInput, GameState};
use ferris_game::update::{
    apply_exit, apply_movement, apply_reset, game_frame, handle_collisions, handle_mouse_spawn,
    handle_timer_spawn, initial_world, position_hud, spawn_target,
};
use ferris_game::world::{CollisionEvent, CollisionState, Label};

fn idle_input() -> FrameInput {
    FrameInput {
        quit_pressed: false,
        reset_pressed: false,
        up_held: false,
        w_held: false,
        down_held: false,
        s_held: false,
        right_held: false,
        d_held: false,
        left_held: false,
        a_held: false,
        mouse_clicked: false,
        mouse_location: None,
        delta_micros: 16_000,
        half_window_w: 640 * SUBPIXELS,
        half_window_h: 360 * SUBPIXELS,
        hud_wave: 3 * SUBPIXELS,
    }
}

fn begin(first: Label, second: Label) -> CollisionEvent {
    CollisionEvent { state: CollisionState::Begin, first, second }
}

#[test]
fn initial_world_setup() {
    let w = initial_world();
    let player = w.sprites.get(Label::Player).unwrap();
    assert_eq!(player.x, 0);
    assert_eq!(player.y, 0);
    assert!(player.collision);
    assert_eq!(w.texts.score.value, "Score: 0");
    assert_eq!(w.texts.high_score.value, "High Score: 0");
    assert_eq!(w.texts.score.x, 520 * SUBPIXELS);
    assert_eq!(w.texts.score.y, 320 * SUBPIXELS);
    assert_eq!(w.texts.high_score.x, -520 * SUBPIXELS);
    assert!(w.collision_events.is_empty());
    assert!(!w.should_exit);
}

#[test]
fn quit_key_latches_exit() {
    let mut w = initial_world();
    let mut input = idle_input();
    apply_exit(&mut w, &input);
    assert!(!w.should_exit);
    input.quit_pressed = true;
    apply_exit(&mut w, &input);
    assert!(w.should_exit);
    input.quit_pressed = false;
    apply_exit(&mut w, &input);
    assert!(w.should_exit);
}

#[test]
fn hud_follows_window_margins() {
    let mut w = initial_world();
    let input = idle_input();
    position_hud(&mut w, &input);
    assert_eq!(w.texts.score.x, 640 * SUBPIXELS - 80 * SUBPIXELS);
    assert_eq!(w.texts.score.y, 360 * SUBPIXELS - 30 * SUBPIXELS + 3 * SUBPIXELS);
    assert_eq!(w.texts.high_score.x, -640 * SUBPIXELS + 110 * SUBPIXELS);
    assert_eq!(w.texts.high_score.y, 360 * SUBPIXELS - 30 * SUBPIXELS);
    assert_eq!(w.texts.score.value, "Score: 0");
    assert_eq!(w.texts.high_score.value, "High Score: 0");
}

#[test]
fn player_collision_scores_and_removes() {
    let mut w = initial_world();
    let mut s = GameState::default();
    spawn_target(&mut w, &mut s, 5 * SUBPIXELS, 6 * SUBPIXELS);
    assert!(w.sprites.get(Label::Ferris(0)).is_some());
    w.collision_events.push(begin(Label::Player, Label::Ferris(0)));
    let sfx = handle_collisions(&mut w, &mut s);
    assert_eq!(s.score, 1);
    assert_eq!(w.texts.score.value, "Score: 1");
    assert!(w.sprites.get(Label::Ferris(0)).is_none());
    assert!(w.sprites.get(Label::Player).is_some());
    assert_eq!(sfx, 1);
    assert!(w.collision_events.is_empty());
}

#[test]
fn high_score_updates_only_when_exceeded() {
    let mut w = initial_world();
    let mut s = GameState::default();
    s.high_score = 2;
    w.texts.high_score.value = "High Score: 2".to_string();
    spawn_target(&mut w, &mut s, 0, 0);
    spawn_target(&mut w, &mut s, 0, 0);
    spawn_target(&mut w, &mut s, 0, 0);
    w.collision_events.push(begin(Label::Player, Label::Ferris(0)));
    handle_collisions(&mut w, &mut s);
    assert_eq!(s.score, 1);
    assert_eq!(s.high_score, 2);
    assert_eq!(w.texts.high_score.value, "High Score: 2");
    w.collision_events.push(begin(Label::Ferris(1), Label::Player));
    w.collision_events.push(begin(Label::Player, Label::Ferris(2)));
    let sfx = handle_collisions(&mut w, &mut s);
    assert_eq!(s.score, 3);
    assert_eq!(s.high_score, 3);
    assert_eq!(w.texts.high_score.value, "High Score: 3");
    assert_eq!(w.texts.score.value, "Score: 3");
    assert_eq!(sfx, 2);
}

#[test]
fn non_player_events_do_not_score() {
    let mut w = initial_world();
    let mut s = GameState::default();
    spawn_target(&mut w, &mut s, 0, 0);
    spawn_target(&mut w, &mut s, 0, 0);
    w.collision_events.push(begin(Label::Ferris(0), Label::Ferris(1)));
    w.collision_events.push(CollisionEvent {
        state: CollisionState::End,
        first: Label::Player,
        second: Label::Ferris(0),
    });
    let sfx = handle_collisions(&mut w, &mut s);
    assert_eq!(s.score, 0);
    assert_eq!(sfx, 0);
    assert!(w.sprites.get(Label::Ferris(0)).is_some());
    assert!(w.sprites.get(Label::Ferris(1)).is_some());
    assert_eq!(w.texts.score.value, "Score: 0");
}

#[test]
fn empty_event_queue_changes_nothing() {
    let mut w = initial_world();
    let mut s = GameState::default();
    s.score = 5;
    w.texts.score.value = "Score: 5".to_string();
    let sfx = handle_collisions(&mut w, &mut s);
    assert_eq!(sfx, 0);
    assert_eq!(s.score, 5);
    assert_eq!(w.texts.score.value, "Score: 5");
    assert!(w.sprites.get(Label::Player).is_some());
}

#[test]
fn self_collision_scores_but_removes_nothing() {
    let mut w = initial_world();
    let mut s = GameState::default();
    spawn_target(&mut w, &mut s, 0, 0);
    w.collision_events.push(begin(Label::Player, Label::Player));
    let sfx = handle_collisions(&mut w, &mut s);
    assert_eq!(s.score, 1);
    assert_eq!(sfx, 1);
    assert!(w.sprites.get(Label::Player).is_some());
    assert!(w.sprites.get(Label::Ferris(0)).is_some());
    assert_eq!(w.texts.score.value, "Score: 1");
}

#[test]
fn reset_zeroes_score_and_leaves_high_score() {
    let mut w = initial_world();
    let mut s = GameState::default();
    s.score = 9;
    s.high_score = 11;
    w.texts.score.value = "Score: 9".to_string();
    w.texts.high_score.value = "High Score: 11".to_string();
    let mut input = idle_input();
    input.reset_pressed = true;
    apply_reset(&mut w, &mut s, &input);
    assert_eq!(s.score, 0);
    assert_eq!(w.texts.score.value, "Score: 0");
    assert_eq!(s.high_score, 11);
    assert_eq!(w.texts.high_score.value, "High Score: 11");
}

#[test]
fn reset_key_not_pressed_changes_nothing() {
    let mut w = initial_world();
    let mut s = GameState::default();
    s.score = 4;
    w.texts.score.value = "Score: 4".to_string();
    let input = idle_input();
    apply_reset(&mut w, &mut s, &input);
    assert_eq!(s.score, 4);
    assert_eq!(w.texts.score.value, "Score: 4");
}

#[test]
fn movement_held_keys_are_additive() {
    let mut w = initial_world();
    let mut input = idle_input();
    input.right_held = true;
    input.up_held = true;
    input.delta_micros = 16_000;
    apply_movement(&mut w, &input);
    let p = w.sprites.get(Label::Player).unwrap();
    assert_eq!(p.x, 100 * 16_000);
    assert_eq!(p.y, 100 * 16_000);
}

#[test]
fn opposing_keys_cancel() {
    let mut w = initial_world();
    let mut input = idle_input();
    input.left_held = true;
    input.d_held = true;
    apply_movement(&mut w, &input);
    let p = w.sprites.get(Label::Player).unwrap();
    assert_eq!(p.x, 0);
    assert_eq!(p.y, 0);
}

#[test]
fn movement_is_frame_rate_independent() {
    let mut one = initial_world();
    let mut input = idle_input();
    input.right_held = true;
    input.s_held = true;
    input.delta_micros = 160_000;
    apply_movement(&mut one, &input);
    let mut ten = initial_world();
    input.delta_micros = 16_000;
    for _ in 0..10 {
        apply_movement(&mut ten, &input);
    }
    let p1 = one.sprites.get(Label::Player).unwrap();
    let p10 = ten.sprites.get(Label::Player).unwrap();
    assert_eq!(p1.x, p10.x);
    assert_eq!(p1.y, p10.y);
    assert_eq!(p1.x, 100 * 160_000);
    assert_eq!(p1.y, -100 * 160_000);
}

#[test]
fn mouse_click_spawns_at_pointer() {
    let mut w = initial_world();
    let mut s = GameState::default();
    let mut input = idle_input();
    input.mouse_clicked = true;
    input.mouse_location = Some((12 * SUBPIXELS, -34 * SUBPIXELS));
    handle_mouse_spawn(&mut w, &mut s, &input);
    let f = w.sprites.get(Label::Ferris(0)).unwrap();
    assert_eq!(f.x, 12 * SUBPIXELS);
    assert_eq!(f.y, -34 * SUBPIXELS);
    assert!(f.collision);
    assert_eq!(s.ferris_index, 1);
}

#[test]
fn mouse_click_without_location_spawns_nothing() {
    let mut w = initial_world();
    let mut s = GameState::default();
    let mut input = idle_input();
    input.mouse_clicked = true;
    input.mouse_location = None;
    handle_mouse_spawn(&mut w, &mut s, &input);
    assert!(w.sprites.get(Label::Ferris(0)).is_none());
    assert_eq!(s.ferris_index, 0);
}

#[test]
fn timer_spawn_lands_in_play_field() {
    for _ in 0..20 {
        let mut w = initial_world();
        let mut s = GameState::default();
        handle_timer_spawn(&mut w, &mut s, 2_000_000);
        let f = w.sprites.get(Label::Ferris(0)).unwrap();
        assert!(-SPAWN_X_BOUND <= f.x && f.x < SPAWN_X_BOUND);
        assert!(-SPAWN_Y_BOUND <= f.y && f.y < SPAWN_Y_BOUND);
        assert!(f.collision);
        assert_eq!(s.ferris_index, 1);
    }
}

#[test]
fn timer_spawn_positions_vary() {
    let mut all_at_lower_bound = true;
    for _ in 0..20 {
        let mut w = initial_world();
        let mut s = GameState::default();
        handle_timer_spawn(&mut w, &mut s, 2_000_000);
        let f = w.sprites.get(Label::Ferris(0)).unwrap();
        if f.x != -SPAWN_X_BOUND || f.y != -SPAWN_Y_BOUND {
            all_at_lower_bound = false;
        }
    }
    assert!(!all_at_lower_bound);
}

#[test]
fn timer_below_interval_spawns_nothing() {
    let mut w = initial_world();
    let mut s = GameState::default();
    handle_timer_spawn(&mut w, &mut s, 1_999_999);
    assert!(w.sprites.get(Label::Ferris(0)).is_none());
    assert_eq!(s.ferris_index, 0);
    assert_eq!(s.spawn_timer.elapsed_micros, 1_999_999);
    handle_timer_spawn(&mut w, &mut s, 1);
    assert!(w.sprites.get(Label::Ferris(0)).is_some());
    assert_eq!(s.spawn_timer.elapsed_micros, 0);
}

#[test]
fn spawn_keys_never_repeat() {
    let mut w = initial_world();
    let mut s = GameState::default();
    let mut input = idle_input();
    input.mouse_clicked = true;
    input.mouse_location = Some((0, 0));
    handle_mouse_spawn(&mut w, &mut s, &input);
    handle_timer_spawn(&mut w, &mut s, 2_000_000);
    handle_mouse_spawn(&mut w, &mut s, &input);
    assert_eq!(s.ferris_index, 3);
    assert!(w.sprites.get(Label::Ferris(0)).is_some());
    assert!(w.sprites.get(Label::Ferris(1)).is_some());
    assert!(w.sprites.get(Label::Ferris(2)).is_some());
    assert!(w.sprites.get(Label::Ferris(3)).is_none());
}

#[test]
fn whole_frame_runs_all_stages() {
    let mut w = initial_world();
    let mut s = GameState::default();
    spawn_target(&mut w, &mut s, 40 * SUBPIXELS, 0);
    w.collision_events.push(begin(Label::Player, Label::Ferris(0)));
    let mut input = idle_input();
    input.right_held = true;
    input.mouse_clicked = true;
    input.mouse_location = Some((7 * SUBPIXELS, 8 * SUBPIXELS));
    let sfx = game_frame(&mut w, &mut s, &input);
    assert_eq!(sfx, 1);
    assert_eq!(s.score, 1);
    assert_eq!(s.high_score, 1);
    assert_eq!(w.texts.score.value, "Score: 1");
    assert_eq!(w.texts.high_score.value, "High Score: 1");
    assert!(w.sprites.get(Label::Ferris(0)).is_none());
    let p = w.sprites.get(Label::Player).unwrap();
    assert_eq!(p.x, 100 * 16_000);
    assert_eq!(p.y, 0);
    let clicked = w.sprites.get(Label::Ferris(1)).unwrap();
    assert_eq!(clicked.x, 7 * SUBPIXELS);
    assert_eq!(clicked.y, 8 * SUBPIXELS);
    assert_eq!(s.ferris_index, 2);
    assert!(w.collision_events.is_empty());
    assert!(!w.should_exit);
    assert_eq!(s.spawn_timer.elapsed_micros, 16_000);
}
