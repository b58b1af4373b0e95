use openjill_game::background::{BackgroundCell, StdBackgroundEntity};
use openjill_game::bullet::{BulletEntity, BULLET_FOLLOW_MAX, BULLET_LAUNCH_END, BULLET_LAUNCH_START, BULLET_NO_MOVE_NO_HIT};
use openjill_game::grid::BackgroundGrid;
use openjill_game::world::{DeathKind, InventoryObject, Message, MessagePayload, MessageType, Rect};

fn air() -> BackgroundCell {
    BackgroundCell::Std(StdBackgroundEntity::transparent())
}

fn solid() -> BackgroundCell {
    BackgroundCell::Std(StdBackgroundEntity {
        tileset: None,
        tile: None,
        passthrough: false,
        stair: false,
        climbable: false,
        map_code: None,
    })
}

fn gives_knife_back(msgs: &[Message]) -> bool {
    msgs.iter().any(|m| {
        m.msg_type == MessageType::InventoryItem
            && m.payload == MessagePayload::InventoryItem { add: true, item: InventoryObject::Knife }
    })
}

#[test]
fn bullet_moves_xd_per_tick() {
    let grid = BackgroundGrid::filled(64, 64, air());
    let mut bullet = BulletEntity::with_velocity(16, 16, 8, 8, 4, 0);
    bullet.update(&grid);
    assert_eq!(bullet.x, 20, "x must advance by xd after one tick");
    assert!(!bullet.should_remove(), "no solid cell; must not be removed");
}

#[test]
fn bullet_blocks_at_solid_cell_during_launch_without_removing() {
    let mut grid = BackgroundGrid::filled(64, 64, air());
    grid.set(1, 1, solid());
    let mut bullet = BulletEntity::with_velocity(16, 16, 8, 8, 8, 0);
    bullet.update(&grid);
    assert_eq!(bullet.x, 16, "bullet must not enter the solid cell");
    assert!(!bullet.should_remove(), "bullet must stay alive on wall contact during launch");
}

#[test]
fn on_kill_during_launch_starts_follow_phase() {
    let mut bullet = BulletEntity::with_velocity(16, 16, 8, 8, 8, 0);
    assert_eq!(bullet.state_count, BULLET_LAUNCH_START);
    bullet.on_kill(1, DeathKind::Enemy);
    assert_eq!(bullet.state_count, BULLET_LAUNCH_END + 1, "on_kill must put the projectile at the first follow-phase tick");
}

#[test]
fn follow_phase_homes_toward_player() {
    let grid = BackgroundGrid::filled(64, 64, air());
    let mut bullet = BulletEntity::with_velocity(100, 50, 8, 8, 8, 0);
    bullet.on_kill(1, DeathKind::Enemy);
    bullet.observe_player(Rect::new(0, 50, 8, 8));
    bullet.update(&grid);
    assert_eq!(bullet.xd, 7, "xd must decrement toward the player on the first follow tick");
    assert_eq!(bullet.x, 107, "bullet still moves with the freshly adjusted xd");
}

#[test]
fn player_catches_follow_phase_projectile_returns_knife_to_inventory() {
    let grid = BackgroundGrid::filled(64, 64, air());
    let mut bullet = BulletEntity::with_velocity(20, 20, 8, 8, -8, 0);
    bullet.on_kill(1, DeathKind::Enemy);
    bullet.observe_player(Rect::new(16, 16, 16, 16));
    let msgs = bullet.update(&grid);
    assert!(bullet.should_remove(), "follow-phase overlap with the player must be treated as a catch");
    assert!(gives_knife_back(&msgs), "catch must dispatch InventoryItem(add Knife)");
}

#[test]
fn fall_onto_floor_snaps_to_pickup_state() {
    let mut grid = BackgroundGrid::filled(64, 64, air());
    grid.set(2, 3, solid());
    let mut bullet = BulletEntity::with_velocity(32, 47, 8, 8, 0, 0);
    bullet.state_count = BULLET_FOLLOW_MAX + 1;
    bullet.update(&grid);
    assert_eq!(bullet.state_count, BULLET_NO_MOVE_NO_HIT);
    assert!(!bullet.should_remove(), "landed knife must stay alive as a recoverable pickup");
}

#[test]
fn landed_knife_picks_up_on_player_overlap() {
    let grid = BackgroundGrid::filled(64, 64, air());
    let mut bullet = BulletEntity::with_velocity(40, 40, 8, 8, 0, 0);
    bullet.state_count = BULLET_NO_MOVE_NO_HIT;
    bullet.observe_player(Rect::new(36, 36, 16, 16));
    let msgs = bullet.update(&grid);
    assert!(bullet.should_remove(), "pickup overlap must remove knife");
    assert!(gives_knife_back(&msgs));
}

#[test]
fn launch_off_map_clamps_instead_of_removing() {
    let grid = BackgroundGrid::filled(8, 8, air());
    let mut bullet = BulletEntity::with_velocity(2030, 32, 16, 16, 16, 0);
    bullet.update(&grid);
    assert_eq!(bullet.x, 2032, "launch must slide flush to the map edge");
    assert!(!bullet.should_remove(), "off-map launch clamp must not remove the projectile");
}

#[test]
fn follow_slides_each_axis_independently_against_wall() {
    let mut grid = BackgroundGrid::filled(8, 8, air());
    for cy in 0..8 {
        grid.set(1, cy, solid());
    }
    let mut bullet = BulletEntity::with_velocity(34, 40, 8, 8, -8, -4);
    bullet.state_count = BULLET_LAUNCH_END + 1;
    bullet.observe_player(Rect::new(0, 0, 8, 8));
    bullet.update(&grid);
    assert_eq!(bullet.x, 32, "knife slides flush against the wall");
    assert_eq!(bullet.y, 36, "knife still climbs on the unblocked Y axis");
    assert!(!bullet.should_remove(), "knife must not be lost");
}

#[test]
fn follow_unwedges_knife_spawned_inside_wall() {
    let mut grid = BackgroundGrid::filled(8, 8, air());
    for cy in 0..8 {
        grid.set(2, cy, solid());
    }
    let mut bullet = BulletEntity::with_velocity(32, 40, 10, 10, -8, 0);
    bullet.state_count = BULLET_LAUNCH_END + 1;
    bullet.observe_player(Rect::new(0, 40, 16, 16));
    let x0 = bullet.x;
    bullet.update(&grid);
    assert!(bullet.x < x0, "knife slides left out of the wall (was wedged at {x0}, now {})", bullet.x);
    assert!(!bullet.should_remove(), "knife must not be lost");
}

#[test]
fn landed_knife_snapshot_keeps_its_place() {
    let mut bullet = BulletEntity::with_velocity(40, 24, 10, 10, 0, 0);
    bullet.state_count = BULLET_NO_MOVE_NO_HIT;
    let rec = bullet.snapshot().expect("a live knife is persisted");
    assert_eq!((rec.x, rec.y), (40, 24));
}
