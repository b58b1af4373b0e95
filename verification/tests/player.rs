use openjill_game::background::{BackgroundCell, StdBackgroundEntity};
use openjill_game::collision::{try_move_vertical, try_move_vertical_horizontal};
use openjill_game::grid::BackgroundGrid;
use openjill_game::layout::{BLOCK_SIZE, ZAPHOLD_AFTER_TOUCH};
use openjill_game::player::{
    PlayerEntity, PlayerStateKind, JUMP_FALLING_SPEED_LIMIT, JUMP_INIT_SIZE, JUMP_INIT_SIZE_FOR_CLIMB,
    NB_COLORED_BULLET, STATECOUNT_MAX_TO_RESTART_GAME, SUBSTATE_VALUE_TO_FALL, TILESET_INDEX, TILE_STAND_MIDDLE,
};
use openjill_game::record::JnObject;
use openjill_game::world::{
    ActiveInput, DeathKind, InputCommand, InventoryObject, MessagePayload, MessageType, Rect, RenderCommand,
    RuntimeState,
};

fn air() -> BackgroundCell {
    BackgroundCell::Std(StdBackgroundEntity::transparent())
}

fn solid() -> BackgroundCell {
    BackgroundCell::Std(StdBackgroundEntity {
        tileset: None,
        tile: None,
        passthrough: false,
        stair: false,
        climbable: false,
        map_code: None,
    })
}

fn vine() -> BackgroundCell {
    BackgroundCell::Std(StdBackgroundEntity {
        tileset: None,
        tile: None,
        passthrough: true,
        stair: false,
        climbable: true,
        map_code: None,
    })
}

fn make_player(x: u16, y: u16) -> PlayerEntity {
    PlayerEntity::new(&JnObject::spawned(0, x, y, 0, 0))
}

fn runtime() -> RuntimeState {
    RuntimeState { level: 1, health: 8, score: 0, lives: 3, inventory: Vec::new() }
}

fn input_with(commands: &[InputCommand]) -> ActiveInput {
    let mut input = ActiveInput::new();
    for c in commands {
        input.insert(*c);
    }
    input
}

#[test]
fn stand_jump_transitions_to_jumping_with_initial_yspeed() {
    let mut grid = BackgroundGrid::filled(8, 4, air());
    for cx in 0..8 {
        grid.set(cx, 1, solid());
    }
    let mut player = make_player(16, 0);
    player.update(&input_with(&[InputCommand::Jump]), &runtime(), &grid);
    assert_eq!(player.state(), PlayerStateKind::Jumping);
    assert_eq!(player.y_speed(), -JUMP_INIT_SIZE);
}

#[test]
fn horizontal_move_slides_flush_to_wall() {
    let mut grid = BackgroundGrid::filled(8, 8, air());
    for cy in 0..8 {
        grid.set(3, cy, solid());
    }
    let mut x = 24;
    let moved = try_move_vertical_horizontal(&grid, &mut x, 16, 16, 16, 8);
    assert!(moved, "player should slide toward the wall");
    assert_eq!(x, 32, "player snaps flush to the wall (32 + 16 == 48)");
    let moved_again = try_move_vertical_horizontal(&grid, &mut x, 16, 16, 16, 8);
    assert!(!moved_again, "flush against the wall: no further progress");
    assert_eq!(x, 32);
}

#[test]
fn rising_move_snaps_flush_below_ceiling() {
    let mut grid = BackgroundGrid::filled(8, 8, air());
    for cx in 0..8 {
        grid.set(cx, 1, solid());
    }
    let mut y = 40;
    let moved = try_move_vertical(&grid, 16, &mut y, 16, 16, -12);
    assert!(moved, "player should rise toward the ceiling");
    assert_eq!(y, 32, "player snaps flush below the ceiling");
}

#[test]
fn jumping_yspeed_accelerates_and_caps_at_fall_limit() {
    let grid = BackgroundGrid::filled(64, 64, air());
    let mut player = make_player(16, 16);
    player.set_state(PlayerStateKind::Jumping);
    player.sub_state = SUBSTATE_VALUE_TO_FALL;
    player.set_y_speed(-JUMP_INIT_SIZE);
    let input = ActiveInput::new();
    for _ in 0..80 {
        player.update(&input, &runtime(), &grid);
    }
    assert_eq!(player.y_speed(), JUMP_FALLING_SPEED_LIMIT, "y_speed must saturate at JUMP_FALLING_SPEED_LIMIT");
}

#[test]
fn stand_without_floor_transitions_to_jumping() {
    let grid = BackgroundGrid::filled(8, 8, air());
    let mut player = make_player(16, 0);
    player.update(&ActiveInput::new(), &runtime(), &grid);
    assert_eq!(player.state(), PlayerStateKind::Jumping);
}

#[test]
fn jumping_with_positive_yspeed_lands_on_floor() {
    let mut grid = BackgroundGrid::filled(8, 4, air());
    for cx in 0..8 {
        grid.set(cx, 1, solid());
    }
    let mut player = make_player(16, 0);
    player.set_state(PlayerStateKind::Jumping);
    player.sub_state = SUBSTATE_VALUE_TO_FALL;
    player.set_y_speed(8);
    player.update(&ActiveInput::new(), &runtime(), &grid);
    assert_eq!(player.state(), PlayerStateKind::Stand);
}

#[test]
fn up_input_on_vine_transitions_to_climbing() {
    let mut grid = BackgroundGrid::filled(8, 8, air());
    grid.set(1, 1, vine());
    let mut player = make_player(16, 16);
    player.update(&input_with(&[InputCommand::Up]), &runtime(), &grid);
    assert_eq!(player.state(), PlayerStateKind::Climbing);
}

#[test]
fn jump_from_climbing_uses_climb_jump_initial_yspeed() {
    let mut grid = BackgroundGrid::filled(8, 8, air());
    grid.set(1, 1, vine());
    let mut player = make_player(16, 16);
    player.set_state(PlayerStateKind::Climbing);
    player.update(&input_with(&[InputCommand::Jump]), &runtime(), &grid);
    assert_eq!(player.state(), PlayerStateKind::Jumping);
    assert_eq!(player.y_speed(), -JUMP_INIT_SIZE_FOR_CLIMB);
}

#[test]
fn die_dispatches_restart_after_max_statecount() {
    let grid = BackgroundGrid::filled(8, 8, air());
    let mut player = make_player(16, 16);
    player.on_kill(1, DeathKind::Enemy);
    let first = player.update(&ActiveInput::new(), &runtime(), &grid);
    assert_eq!(player.state(), PlayerStateKind::Die);
    let create_count = first.iter().filter(|m| m.msg_type == MessageType::CreateObject).count();
    assert_eq!(create_count as i32, NB_COLORED_BULLET, "die burst must send exactly NB_COLORED_BULLET spawn requests");
    let mut restart_count = 0;
    for _ in 0..(STATECOUNT_MAX_TO_RESTART_GAME + 1) {
        let msgs = player.update(&ActiveInput::new(), &runtime(), &grid);
        restart_count += msgs.iter().filter(|m| m.msg_type == MessageType::DieRestartLevel).count();
    }
    assert!(restart_count >= 1, "DieRestartLevel must be sent after STATECOUNT_MAX_TO_RESTART_GAME ticks");
}

#[test]
fn die_restart_is_requested_exactly_once() {
    let grid = BackgroundGrid::filled(8, 8, air());
    let mut player = make_player(16, 16);
    player.on_kill(1, DeathKind::Water);
    let mut restart_count = 0;
    for _ in 0..100 {
        let msgs = player.update(&ActiveInput::new(), &runtime(), &grid);
        restart_count += msgs.iter().filter(|m| m.msg_type == MessageType::DieRestartLevel).count();
    }
    assert_eq!(restart_count, 1);
    assert_eq!(player.death_kind(), Some(DeathKind::Water));
}

#[test]
fn can_fire_true_in_stand_false_in_die() {
    let player = make_player(16, 16);
    assert!(player.can_fire(), "player in Stand state must be able to fire");
    let mut player = make_player(16, 16);
    player.set_state(PlayerStateKind::Die);
    assert!(!player.can_fire(), "player in Die state must not be able to fire");
}

#[test]
fn can_fire_false_in_climbing() {
    let mut player = make_player(16, 16);
    player.set_state(PlayerStateKind::Climbing);
    assert!(!player.can_fire(), "player in Climbing state must not be able to fire");
}

#[test]
fn bounding_box_returns_configured_rect() {
    let player = make_player(48, 32);
    assert_eq!(player.bounding_box(), Rect::new(48, 32, BLOCK_SIZE, BLOCK_SIZE));
}

#[test]
fn snapshot_round_trips_the_source_jn_object() {
    let mut obj = JnObject::spawned(0, 112, 160, 10, 12);
    obj.set_speed(1, -3);
    obj.set_state(PlayerStateKind::Jumping.to_state_code());
    obj.set_sub_state(4);
    obj.set_state_count(7);
    obj.set_info1(-1);
    obj.set_zap_hold(3);
    obj.set_counter(9);
    obj.set_flags(0x55);
    let player = PlayerEntity::new(&obj);
    let snapshot = player.snapshot().expect("player always snapshots");
    assert_eq!(snapshot, obj);
}

#[test]
fn snapshot_of_unknown_state_code_reads_back_as_stand() {
    let mut obj = JnObject::spawned(0, 10, 20, 16, 16);
    obj.set_state(9);
    let player = PlayerEntity::new(&obj);
    assert_eq!(player.state(), PlayerStateKind::Stand);
    assert_eq!(player.snapshot().unwrap().state, 0);
}

#[test]
fn zaphold_decrements_each_update() {
    let grid = BackgroundGrid::filled(8, 8, air());
    let mut player = make_player(16, 16);
    player.arm_zaphold();
    assert_eq!(player.zaphold(), ZAPHOLD_AFTER_TOUCH);
    player.update(&ActiveInput::new(), &runtime(), &grid);
    assert_eq!(player.zaphold(), ZAPHOLD_AFTER_TOUCH - 1);
}

#[test]
fn draw_emits_blit_in_player_tileset() {
    let player = make_player(24, 32);
    let cmd = player.draw().expect("stand draw must yield a command");
    let RenderCommand::Blit { tileset, tile, x, y, .. } = cmd;
    assert_eq!(tileset, TILESET_INDEX);
    assert_eq!(tile, TILE_STAND_MIDDLE);
    assert_eq!(x, 24);
    assert_eq!(y, 32);
}

#[test]
fn throw_with_knife_spawns_a_knife_and_starts_cooldown() {
    let mut grid = BackgroundGrid::filled(8, 8, air());
    for cx in 0..8 {
        grid.set(cx, 2, solid());
    }
    let mut player = make_player(32, 16);
    let mut state = runtime();
    state.inventory.push(InventoryObject::Knife);
    let msgs = player.update(&input_with(&[InputCommand::ThrowItem]), &state, &grid);
    let spawns: Vec<_> = msgs
        .iter()
        .filter_map(|m| match &m.payload {
            MessagePayload::SpawnAt(req) => Some(*req),
            _ => None,
        })
        .collect();
    assert_eq!(spawns.len(), 1);
    assert_eq!(spawns[0].object_type, 36);
    assert_eq!((spawns[0].x, spawns[0].y, spawns[0].xd, spawns[0].yd), (48, 18, 8, 0));
    assert!(msgs.iter().any(|m| m.payload == MessagePayload::InventoryItem { add: false, item: InventoryObject::Knife }));
    let again = player.update(&input_with(&[InputCommand::ThrowItem]), &state, &grid);
    assert!(again.iter().all(|m| m.msg_type != MessageType::CreateObject), "the cooldown blocks an immediate second throw");
}

#[test]
fn throw_without_knife_does_nothing() {
    let mut grid = BackgroundGrid::filled(8, 8, air());
    for cx in 0..8 {
        grid.set(cx, 2, solid());
    }
    let mut player = make_player(32, 16);
    let msgs = player.update(&input_with(&[InputCommand::ThrowItem]), &runtime(), &grid);
    assert!(msgs.is_empty());
}
