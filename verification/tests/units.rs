use ferris_game::fmt::{high_score_text, score_text, u32_dec};
use ferris_game::state::GameState;
use ferris_game::timer::RepeatTimer;
use ferris_game::world::{Label, Sprite, SpriteTable};

#[test]
fn decimal_rendering() {
    assert_eq!(u32_dec(0), "0");
    assert_eq!(u32_dec(7), "7");
    assert_eq!(u32_dec(10), "10");
    assert_eq!(u32_dec(12345), "12345");
    assert_eq!(u32_dec(4294967295), "4294967295");
}

#[test]
fn hud_text_rendering() {
    assert_eq!(score_text(0), "Score: 0");
    assert_eq!(score_text(12), "Score: 12");
    assert_eq!(high_score_text(0), "High Score: 0");
    assert_eq!(high_score_text(907), "High Score: 907");
}

#[test]
fn default_state() {
    let s = GameState::default();
    assert_eq!(s.score, 0);
    assert_eq!(s.high_score, 0);
    assert_eq!(s.ferris_index, 0);
    assert_eq!(s.spawn_timer.interval_micros, 2_000_000);
    assert_eq!(s.spawn_timer.elapsed_micros, 0);
}

#[test]
fn timer_carries_remainder() {
    let mut t = RepeatTimer::from_micros(2_000_000);
    assert!(!t.tick(1_500_000));
    assert_eq!(t.elapsed_micros, 1_500_000);
    assert!(t.tick(1_000_000));
    assert_eq!(t.elapsed_micros, 500_000);
    assert!(t.tick(4_000_000));
    assert_eq!(t.elapsed_micros, 500_000);
}

#[test]
fn timer_exact_interval_finishes() {
    let mut t = RepeatTimer::from_micros(2_000_000);
    assert!(t.tick(2_000_000));
    assert_eq!(t.elapsed_micros, 0);
}

#[test]
fn sprite_table_insert_get_remove() {
    let mut t = SpriteTable::new();
    assert!(t.get(Label::Player).is_none());
    t.insert(Label::Player, Sprite { x: 1, y: 2, collision: true });
    t.insert(Label::Ferris(4), Sprite { x: 3, y: 4, collision: false });
    let p = t.get(Label::Player).unwrap();
    assert_eq!((p.x, p.y, p.collision), (1, 2, true));
    t.insert(Label::Player, Sprite { x: 9, y: 9, collision: false });
    let p = t.get(Label::Player).unwrap();
    assert_eq!((p.x, p.y, p.collision), (9, 9, false));
    t.remove(Label::Ferris(4));
    assert!(t.get(Label::Ferris(4)).is_none());
    t.remove(Label::Ferris(4));
    assert!(t.get(Label::Player).is_some());
    assert_eq!(t.entries.len(), 1);
}
