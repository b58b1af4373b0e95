use openjill_game::background::{BackgroundCell, StdBackgroundEntity};
use openjill_game::checkpoint::{CheckPointEntity, CheckpointDestination, MAP_LEVEL};
use openjill_game::decor::{EyesEntity, SkullEntity, EYES_MAX_MOVE_X_LEFT, EYES_MAX_MOVE_X_RIGHT, EYES_MAX_MOVE_Y};
use openjill_game::flame_spark::{FlameEntity, SparkEntity, FLAME_FRAME_COUNT, FLAME_TILESET, FLAME_TILE_BASE};
use openjill_game::grid::BackgroundGrid;
use openjill_game::hazards::{
    FallingSpikeEntity, RollingRockEntity, ROCK_TILESET, ROCK_TILE_BASE, ROCK_X_SPEED_FALL, SPIKE_FALLING_SPEED,
    SPIKE_FALLING_SPEED_MAX, SPIKE_TILESET, SPIKE_TILE_INDEX,
};
use openjill_game::items::{
    AppleEntity, CollapsingCeilingEntity, ScatterParticleEntity, StubObjectEntity, SwitchEntity, TouchTriggerEntity, PARTICLE_COUNTER_DIE,
};
use openjill_game::items::PointEntity;
use openjill_game::layout::BLOCK_SIZE;
use openjill_game::mechanisms::{LiftEntity, LockedDoorEntity, ToggleWallEntity};
use openjill_game::record::JnObject;
use openjill_game::world::{
    DeathKind, InventoryObject, Message, MessagePayload, MessageType, Rect, RenderCommand, RuntimeState,
};

fn cell(passthrough: bool, climbable: bool) -> BackgroundCell {
    BackgroundCell::Std(StdBackgroundEntity { tileset: None, tile: None, passthrough, stair: false, climbable, map_code: None })
}

fn air() -> BackgroundCell {
    cell(true, false)
}

fn solid() -> BackgroundCell {
    cell(false, false)
}

fn grid_with_floor(width: usize, height: usize, floor_row: usize) -> BackgroundGrid {
    let mut grid = BackgroundGrid::filled(width, height, air());
    for x in 0..width {
        grid.set(x, floor_row, solid());
    }
    grid
}

fn record_at(object_type: u8, x: u16, y: u16) -> JnObject {
    JnObject::spawned(object_type, x, y, 0, 0)
}

fn record_with_counter(object_type: u8, counter: i16) -> JnObject {
    let mut obj = JnObject::spawned(object_type, 0, 0, 0, 0);
    obj.set_counter(counter);
    obj
}

fn runtime(inventory: Vec<InventoryObject>) -> RuntimeState {
    RuntimeState { level: 1, health: 8, score: 0, lives: 3, inventory }
}

fn of_type(msgs: &[Message], t: MessageType) -> Vec<MessagePayload> {
    msgs.iter().filter(|m| m.msg_type == t).map(|m| m.payload.clone()).collect()
}

fn blit(cmd: Option<RenderCommand>) -> (u8, u16) {
    match cmd.expect("the object draws") {
        RenderCommand::Blit { tileset, tile, .. } => (tileset, tile),
    }
}

/// The rounded components of a ray of length four from the pupil toward the
/// player, as the front end computes them.
fn ray(rel_x: i32, rel_y: i32) -> (i32, i32) {
    if rel_x == 0 && rel_y == 0 {
        return (0, 0);
    }
    let corner = (f64::from(rel_y.abs()) / f64::from(rel_x.abs())).atan();
    ((4.0 * corner.cos()).round() as i32, (4.0 * corner.sin()).round() as i32)
}

fn tick_eyes(eyes: &mut EyesEntity) {
    let (rel_x, rel_y) = eyes.player_offset();
    let (dx, dy) = ray(rel_x, rel_y);
    eyes.update(dx, dy);
}

#[test]
fn eyes_stay_put_and_track_player_both_axes() {
    let mut eyes = EyesEntity::new(&record_at(64, 100, 100), 16, 16);
    eyes.observe_player(Rect::new(400, 400, 16, 16));
    tick_eyes(&mut eyes);
    assert_eq!(eyes.bounding_box().x, 100, "eyes do not move horizontally");
    assert_eq!(eyes.bounding_box().y, 100, "eyes do not move vertically");
    assert!(eyes.lens_dx > 0, "lens aims right toward the player");
    assert!(eyes.lens_dy > 0, "lens aims down toward the player");
    eyes.observe_player(Rect::new(0, 0, 16, 16));
    tick_eyes(&mut eyes);
    assert!(eyes.lens_dx < 0, "lens aims left toward the player");
    assert!(eyes.lens_dy < 0, "lens aims up toward the player");
}

#[test]
fn lens_offset_is_clamped() {
    let mut eyes = EyesEntity::new(&record_at(64, 100, 100), 16, 16);
    eyes.observe_player(Rect::new(9000, 9000, 16, 16));
    tick_eyes(&mut eyes);
    assert!(eyes.lens_dx <= EYES_MAX_MOVE_X_LEFT);
    assert!(eyes.lens_dy <= EYES_MAX_MOVE_Y);
    eyes.observe_player(Rect::new(0, 9000, 16, 16));
    tick_eyes(&mut eyes);
    assert!(eyes.lens_dx >= -EYES_MAX_MOVE_X_RIGHT, "left travel clamped");
}

#[test]
fn eyes_facing_player_straight_right_keep_the_pupil_level() {
    let mut eyes = EyesEntity::new(&record_at(64, 100, 100), 16, 16);
    eyes.observe_player(Rect::new(300, 104, 16, 16));
    tick_eyes(&mut eyes);
    assert_eq!((eyes.lens_dx, eyes.lens_dy), (3, 0), "a level ray of four is clamped to three");
}

#[test]
fn falling_spike_walks_under_then_falls() {
    let mut spike = FallingSpikeEntity::new(&record_at(38, 32, 32));
    let backgrounds = BackgroundGrid::filled(8, 16, air());
    spike.update(&backgrounds);
    assert_eq!(spike.bounding_box().y, 32, "untriggered spike stays put");
    spike.observe_player(Rect::new(32, 80, BLOCK_SIZE, BLOCK_SIZE));
    spike.update(&backgrounds);
    assert_eq!(spike.bounding_box().y, 32 + SPIKE_FALLING_SPEED, "first tick post-arm advances by FALLING_SPEED");
    for _ in 0..32 {
        spike.update(&backgrounds);
    }
    let prev_y = spike.bounding_box().y;
    spike.update(&backgrounds);
    assert!(spike.bounding_box().y - prev_y <= SPIKE_FALLING_SPEED_MAX, "spike fall speed must cap at FALLING_SPEED_MAX");
}

#[test]
fn falling_spike_draw_targets_verified_sha_tile() {
    let spike = FallingSpikeEntity::new(&record_at(38, 0, 0));
    assert_eq!(blit(spike.draw()), (SPIKE_TILESET, SPIKE_TILE_INDEX));
}

#[test]
fn flame_on_touch_arms_player_kill_without_dispatching_restart() {
    let mut flame = FlameEntity::new(&record_at(31, 0, 0));
    flame.on_touch();
    assert_eq!(flame.take_player_kill(), Some(DeathKind::OtherBackground));
    assert_eq!(flame.take_player_kill(), None, "pending kill must be drained after the first take");
}

#[test]
fn flame_draw_emits_first_frame_blit() {
    let flame = FlameEntity::new(&record_at(31, 0, 0));
    assert_eq!(blit(flame.draw()), (FLAME_TILESET, FLAME_TILE_BASE));
}

#[test]
fn flame_update_advances_then_marks_removal() {
    let mut flame = FlameEntity::new(&record_at(31, 0, 0));
    for _ in 0..4 {
        flame.update();
    }
    assert_eq!(blit(flame.draw()).1, FLAME_TILE_BASE + 2);
    for _ in 4..FLAME_FRAME_COUNT {
        flame.update();
    }
    assert!(flame.should_remove(), "flame must request removal once the animation completes");
    assert!(flame.draw().is_none(), "removed flame must stop emitting blits");
}

#[test]
fn rolling_rock_reverses_at_wall() {
    let mut rock = RollingRockEntity::new(&record_at(35, 32, 32));
    let mut backgrounds = grid_with_floor(8, 6, 3);
    backgrounds.set(3, 2, solid());
    rock.update(&backgrounds);
    assert_eq!(rock.bounding_box().x, 32, "rock stays put on blocked tick");
    backgrounds.set(3, 2, air());
    rock.update(&backgrounds);
    assert_eq!(rock.bounding_box().x, 32 - ROCK_X_SPEED_FALL, "after reverse, rock rolls left by X_SPEED_FALL");
}

#[test]
fn rolling_rock_reverses_at_gap() {
    let mut rock = RollingRockEntity::new(&record_at(35, 32, 32));
    let mut backgrounds = grid_with_floor(8, 6, 3);
    backgrounds.set(3, 3, air());
    rock.update(&backgrounds);
    backgrounds.set(3, 3, solid());
    rock.update(&backgrounds);
    assert_eq!(rock.bounding_box().x, 32 - ROCK_X_SPEED_FALL, "after gap reverse, rock rolls left by X_SPEED_FALL");
}

#[test]
fn rolling_rock_draw_targets_verified_sha_range() {
    let rock = RollingRockEntity::new(&record_at(35, 0, 0));
    let (tileset, tile) = blit(rock.draw());
    assert_eq!(tileset, ROCK_TILESET);
    assert!((ROCK_TILE_BASE..ROCK_TILE_BASE + 4).contains(&tile));
}

#[test]
fn particle_falls_under_gravity() {
    let grid = BackgroundGrid::filled(64, 64, air());
    let mut p = ScatterParticleEntity::with_velocity(100, 100, 3, -4);
    p.update(&grid);
    assert_eq!(p.x, 103);
    assert_eq!(p.y, 96);
    assert_eq!(p.yd, -3, "yd must increment by GRAVITY_PER_TICK each step");
}

#[test]
fn particle_self_removes_after_counter_die() {
    let grid = BackgroundGrid::filled(64, 64, air());
    let mut p = ScatterParticleEntity::with_velocity(100, 100, 0, 0);
    for _ in 0..PARTICLE_COUNTER_DIE {
        p.update(&grid);
    }
    assert!(p.should_remove());
}

fn skull(link_id: i32) -> SkullEntity {
    let mut s = SkullEntity::new(&record_at(51, 0, 0), 16, 16);
    s.link_id = link_id;
    s
}

#[test]
fn skull_activates_on_matching_trigger() {
    let mut s = skull(5);
    s.update();
    assert!(!s.active);
    assert_eq!(s.draw_multi().len(), 1, "idle skull draws one tile");
    s.receive_trigger(4);
    assert!(!s.active);
    s.receive_trigger(5);
    assert!(s.active);
    let f0 = s.frame;
    s.update();
    assert_ne!(s.frame, f0, "frame advances once active");
    assert_eq!(s.draw_multi().len(), 3, "active skull draws base + two eyes");
}

#[test]
fn skull_is_harmless_and_unkillable() {
    let mut s = skull(1);
    s.on_kill(99, DeathKind::Enemy);
    assert_eq!(s.take_player_kill(), None, "skull arms no contact kill");
}

fn spark_at(x: i32, y: i32, yd: i32) -> SparkEntity {
    SparkEntity {
        x,
        y,
        w: 16,
        h: 16,
        y_speed: yd,
        bounds: None,
        counter: 0,
        zaphold: 0,
        pending_kill: None,
        origin: JnObject::spawned(65, x as u16, y as u16, 16, 16),
    }
}

#[test]
fn spark_oscillates_within_vine_extents() {
    let mut g = BackgroundGrid::filled(2, 6, air());
    for y in 1..=4 {
        g.set(0, y, cell(true, true));
    }
    let mut spark = spark_at(0, 48, -2);
    let mut min_y = i32::MAX;
    let mut max_y = i32::MIN;
    let mut reversed_up = false;
    let mut reversed_down = false;
    let mut prev = spark.y_speed;
    for _ in 0..400 {
        spark.update(&g);
        min_y = min_y.min(spark.y);
        max_y = max_y.max(spark.y);
        if prev < 0 && spark.y_speed > 0 {
            reversed_down = true;
        }
        if prev > 0 && spark.y_speed < 0 {
            reversed_up = true;
        }
        prev = spark.y_speed;
    }
    assert!(reversed_up && reversed_down, "spark reverses at both extents");
    assert!(max_y - min_y <= 6 * BLOCK_SIZE, "spark travel is bounded");
}

#[test]
fn spark_shoves_and_damages_on_touch() {
    let mut spark = spark_at(0, 48, -2);
    let msgs = spark.on_touch();
    assert_eq!(of_type(&msgs, MessageType::PlayerMove), vec![MessagePayload::Move { dx: -BLOCK_SIZE, dy: 0 }], "player is shoved one block left");
    assert_eq!(spark.take_player_kill(), Some(DeathKind::Enemy));
}

#[test]
fn lift_dispatches_player_move_when_player_overlaps() {
    let mut item = record_at(61, 64, 64);
    item.set_speed(2, 0);
    let mut lift = LiftEntity::new(&item);
    lift.observe_player(Rect::new(64, 64, 16, 16));
    let msgs = lift.update();
    let moves = of_type(&msgs, MessageType::PlayerMove);
    assert_eq!(moves.len(), 1, "exactly one PlayerMove message expected");
    assert_eq!(moves[0], MessagePayload::Move { dx: 2, dy: 0 }, "PlayerMove must carry (xd, yd)");
}

#[test]
fn lift_does_not_dispatch_when_player_absent() {
    let mut item = record_at(61, 64, 64);
    item.set_speed(2, 0);
    let mut lift = LiftEntity::new(&item);
    lift.observe_player(Rect::new(200, 200, 16, 16));
    let msgs = lift.update();
    assert!(of_type(&msgs, MessageType::PlayerMove).is_empty(), "no PlayerMove when the player is not on the lift");
}

#[test]
fn on_touch_opens_door_and_removes_key_when_present() {
    let mut door = LockedDoorEntity::new(&record_at(24, 0, 0));
    let state = runtime(vec![InventoryObject::RedKey]);
    let msgs = door.on_touch(&state);
    let items = of_type(&msgs, MessageType::InventoryItem);
    assert_eq!(items.len(), 1, "exactly one inventory message dispatched");
    assert_eq!(items[0], MessagePayload::InventoryItem { add: false, item: InventoryObject::RedKey });
    assert!(door.should_remove(), "door should be flagged for removal after opening");
}

#[test]
fn on_touch_is_noop_when_key_absent() {
    let mut door = LockedDoorEntity::new(&record_at(24, 0, 0));
    let msgs = door.on_touch(&runtime(Vec::new()));
    assert!(msgs.is_empty(), "no messages on closed touch");
    assert!(!door.should_remove(), "door must remain when key not carried");
}

#[test]
fn update_drops_counter_to_zero_and_flags_for_removal() {
    let mut point = PointEntity::new(&record_with_counter(27, 2));
    point.update();
    assert!(!point.should_remove());
    point.update();
    assert!(point.should_remove(), "point should expire after counter ticks to zero");
}

#[test]
fn stub_bounding_box_is_zero_sized() {
    let stub = StubObjectEntity::new(123, &JnObject::spawned(0, 0, 0, 0, 0));
    assert_eq!(stub.bounding_box(), Rect::new(0, 0, 0, 0));
}

#[test]
fn on_touch_dispatches_trigger_with_link_id() {
    let mut switch = SwitchEntity::new(&record_with_counter(32, 7));
    let msgs = switch.on_touch();
    let triggers = of_type(&msgs, MessageType::Trigger);
    assert_eq!(triggers, vec![MessagePayload::Count(7)], "Trigger must carry the switch link_id");
}

#[test]
fn on_touch_dispatches_trigger_with_counter_link_id() {
    let mut trigger = TouchTriggerEntity::new(&record_with_counter(15, 7));
    let mut received = trigger.on_touch();
    received.extend(trigger.on_touch());
    let triggers = of_type(&received, MessageType::Trigger);
    assert_eq!(triggers.len(), 2, "trigger re-fires on each touch");
    assert_eq!(triggers[0], MessagePayload::Count(7));
    assert!(!trigger.should_remove(), "touch triggers persist across hits");
}

#[test]
fn on_touch_dispatches_inventory_item_gem_and_flags_for_removal() {
    let mut apple = AppleEntity::new(&record_at(1, 0, 0));
    let msgs = apple.on_touch();
    let items = of_type(&msgs, MessageType::InventoryItem);
    assert_eq!(items.len(), 1, "exactly one message dispatched");
    assert_eq!(items[0], MessagePayload::InventoryItem { add: true, item: InventoryObject::Gem });
    assert!(apple.should_remove(), "apple should flag itself for removal after pickup");
}

#[test]
fn on_touch_is_idempotent_after_pickup() {
    let mut apple = AppleEntity::new(&record_at(1, 0, 0));
    let mut msgs = apple.on_touch();
    msgs.extend(apple.on_touch());
    assert_eq!(of_type(&msgs, MessageType::InventoryItem).len(), 1, "second touch must be no-op");
}

#[test]
fn on_touch_dispatches_change_level_for_numbered_destination() {
    let mut checkpoint = CheckPointEntity::new(&record_with_counter(12, 3), None);
    let msgs = checkpoint.on_touch();
    let changes = of_type(&msgs, MessageType::CheckpointChangeLevel);
    assert_eq!(changes.len(), 1, "exactly one transition dispatched");
    assert_eq!(changes[0], MessagePayload::ChangeLevel { level_file: String::from("3.JN1"), level_number: 3 });
    assert!(checkpoint.should_remove(), "checkpoint should flag itself for removal after firing");
}

#[test]
fn on_touch_dispatches_map_level_for_map_return_marker() {
    let mut checkpoint = CheckPointEntity::new(&record_with_counter(12, 0), Some("!"));
    let msgs = checkpoint.on_touch();
    let changes = of_type(&msgs, MessageType::CheckpointChangeLevel);
    assert_eq!(changes.len(), 1, "exactly one transition dispatched");
    assert_eq!(changes[0], MessagePayload::ChangeLevel { level_file: String::from("MAP.JN1"), level_number: MAP_LEVEL });
}

#[test]
fn checkpoint_fires_once() {
    let mut checkpoint = CheckPointEntity::new(&record_with_counter(12, 12), None);
    let first = checkpoint.on_touch();
    let second = checkpoint.on_touch();
    assert_eq!(first[0].payload, MessagePayload::ChangeLevel { level_file: String::from("12.JN1"), level_number: 12 });
    assert!(second.is_empty(), "a fired checkpoint stays silent");
    assert!(checkpoint.snapshot().is_none(), "a fired checkpoint is not persisted");
}

#[test]
fn toggle_wall_rebuilt_from_its_save_keeps_its_state() {
    let mut item = JnObject::spawned(26, 56, 72, 16, 32);
    item.set_counter(7);
    let mut wall = ToggleWallEntity::new(&item);
    assert!(wall.is_active());
    wall.receive_trigger(3);
    assert!(wall.is_active(), "another link leaves the wall standing");
    wall.receive_trigger(7);
    assert!(!wall.is_active());
    let back = ToggleWallEntity::new(&wall.snapshot().unwrap());
    assert!(!back.is_active(), "the open wall stays open after a save");
    assert_eq!(back.bounding_box(), wall.bounding_box());
    wall.receive_trigger(7);
    assert!(ToggleWallEntity::new(&wall.snapshot().unwrap()).is_active());
}

#[test]
fn collapsing_ceiling_restarts_the_level_on_every_touch() {
    let mut ceiling = CollapsingCeilingEntity::new(&record_at(37, 0, 0));
    for _ in 0..2 {
        let msgs = ceiling.on_touch();
        assert_eq!(of_type(&msgs, MessageType::DieRestartLevel), vec![MessagePayload::Empty]);
    }
}

#[test]
fn checkpoint_destination_is_the_map_exactly_for_a_bang_string() {
    assert!(matches!(CheckpointDestination::from_jn(3, None), CheckpointDestination::Level { level_number: 3, ref level_file } if level_file == "3.JN1"));
    assert!(matches!(CheckpointDestination::from_jn(0, Some("!")), CheckpointDestination::WorldMap { ref map_file } if map_file == "MAP.JN1"));
    assert!(matches!(CheckpointDestination::from_jn(5, Some("*song")), CheckpointDestination::Level { level_number: 5, .. }));
}

#[test]
fn empty_grid_has_no_cells() {
    let grid = BackgroundGrid::new(Vec::new()).expect("no rows make an empty grid");
    assert_eq!((grid.width(), grid.height()), (0, 0));
    assert!(grid.get(0, 0).is_none());
    assert!(BackgroundGrid::new(vec![vec![air()], vec![]]).is_none(), "ragged rows are refused");
}
