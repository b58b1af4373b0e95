use openjill_game::background::{BackgroundCell, StdBackgroundEntity};
use openjill_game::enemies::{BeesEntity, BEES_STATE_DIE};
use openjill_game::grid::BackgroundGrid;
use openjill_game::world::{DeathKind, Rect};

fn air() -> BackgroundCell {
    BackgroundCell::Std(StdBackgroundEntity::transparent())
}

#[test]
fn bee_self_destructs_after_state_die() {
    let grid = BackgroundGrid::new(Vec::new()).expect("no rows make an empty grid");
    let mut bee = BeesEntity::spawn_at(100, 100);
    bee.observe_player(Rect::new(100, 100, 16, 16));
    for _ in 0..(BEES_STATE_DIE - 1) {
        bee.update(&grid);
        assert!(!bee.should_remove(), "bee alive before stateDie");
    }
    bee.update(&grid);
    assert!(bee.should_remove(), "bee removed at stateDie");
}

#[test]
fn bee_is_not_killable() {
    let mut bee = BeesEntity::spawn_at(0, 0);
    bee.on_kill(10, DeathKind::Enemy);
    assert!(!bee.should_remove(), "bee survives a weapon hit");
}

#[test]
fn bee_homes_toward_player_both_axes() {
    let grid = BackgroundGrid::filled(64, 64, air());
    let mut bee = BeesEntity::spawn_at(100, 100);
    bee.observe_player(Rect::new(600, 600, 16, 16));
    let (x0, y0) = (bee.x, bee.y);
    for _ in 0..40 {
        bee.update(&grid);
    }
    assert!(bee.x > x0, "bee drifts right toward the player");
    assert!(bee.y > y0, "bee drifts down toward the player");
}

#[test]
fn removed_bee_is_not_persisted() {
    let grid = BackgroundGrid::filled(1, 1, air());
    let mut bee = BeesEntity::spawn_at(32, 48);
    assert!(bee.snapshot().is_some());
    for _ in 0..BEES_STATE_DIE {
        bee.update(&grid);
    }
    assert!(bee.should_remove());
    assert!(bee.snapshot().is_none(), "an expired bee writes no record");
}

#[test]
fn bee_touch_arms_an_enemy_kill_once() {
    let mut bee = BeesEntity::spawn_at(0, 0);
    bee.on_touch();
    assert_eq!(bee.take_player_kill(), Some(DeathKind::Enemy));
    assert_eq!(bee.take_player_kill(), None, "the pending kill is handed out once");
}
