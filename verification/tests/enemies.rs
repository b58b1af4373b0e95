use openjill_game::background::{BackgroundCell, StdBackgroundEntity};
use openjill_game::crab::CrabEntity;
use openjill_game::enemies::{HiveEntity, BEES_OBJECT_TYPE};
use openjill_game::frog::{FrogEntity, FROG_JUMP_PERIOD, FROG_STATE_ON_JUMP};
use openjill_game::ghost::GhostEntity;
use openjill_game::giant_ant::{GiantAntEntity, ANT_X_SPEED};
use openjill_game::grid::BackgroundGrid;
use openjill_game::record::JnObject;
use openjill_game::snake::{SnakeEntity, SNAKE_HEAD_H, SNAKE_HEAD_W, SNAKE_MIDDLE_W, SNAKE_STATE_WHEN_TOUCH, SNAKE_TAIL_W};
use openjill_game::world::{DeathKind, MessagePayload, MessageType, Rect};

fn cell(passthrough: bool, climbable: bool, map_code: Option<u16>) -> BackgroundCell {
    BackgroundCell::Std(StdBackgroundEntity { tileset: None, tile: None, passthrough, stair: false, climbable, map_code })
}

fn air() -> BackgroundCell {
    cell(true, false, None)
}

fn solid() -> BackgroundCell {
    cell(false, false, None)
}

fn grid_with_floor(width: usize, height: usize, floor_row: usize) -> BackgroundGrid {
    let mut grid = BackgroundGrid::filled(width, height, air());
    for x in 0..width {
        grid.set(x, floor_row, solid());
    }
    grid
}

fn record_at(object_type: u8, x: u16, y: u16) -> JnObject {
    JnObject::spawned(object_type, x, y, 0, 0)
}

#[test]
fn crab_climbs_vine_then_reverses_at_ceiling() {
    let mut g = BackgroundGrid::filled(4, 6, air());
    for y in 0..6 {
        for x in 0..4 {
            if y == 0 || y == 5 {
                g.set(x, y, solid());
            } else if x == 1 {
                g.set(x, y, cell(true, true, None));
            }
        }
    }
    let mut crab = CrabEntity::new(&record_at(47, 16, 64), 16, 16);
    crab.y = 64;
    let start_y = crab.y;
    let mut climbed = false;
    for _ in 0..200 {
        crab.update(&g);
        if crab.climbing && crab.y < start_y {
            climbed = true;
            break;
        }
    }
    assert!(climbed, "crab eventually climbs the vine upward");
    for _ in 0..200 {
        crab.update(&g);
        assert!(crab.y >= 16, "crab never rises past the ceiling cell");
    }
}

#[test]
fn frog_waits_on_floor_then_jumps_toward_player() {
    let mut frog = FrogEntity::new(&record_at(22, 64, 32), 16, 16);
    let backgrounds = grid_with_floor(8, 6, 3);
    frog.observe_player(Rect::new(0, 32, 16, 16));
    for _ in 0..(FROG_JUMP_PERIOD - 1) {
        frog.update(&backgrounds);
        assert_eq!(frog.bounding_box().x, 64, "grounded frog must not patrol");
        assert!(frog.on_floor, "frog still grounded before jump");
    }
    frog.update(&backgrounds);
    assert!(!frog.on_floor, "frog launched into the air");
    assert!(frog.x_speed < 0, "frog jumps toward the player on the left");
}

#[test]
fn frog_on_kill_marks_dead_draw_returns_none() {
    let mut frog = FrogEntity::new(&record_at(22, 32, 32), 16, 16);
    assert!(frog.draw().is_some());
    frog.on_kill(1, DeathKind::Enemy);
    assert!(frog.dead);
    assert!(frog.draw().is_none(), "dead frog must not draw");
}

#[test]
fn dead_frog_score_dispatched_only_once() {
    let mut frog = FrogEntity::new(&record_at(22, 32, 32), 16, 16);
    frog.on_kill(1, DeathKind::Enemy);
    let grid = grid_with_floor(8, 8, 7);
    let mut count = 0;
    for _ in 0..2 {
        let msgs = frog.update(&grid);
        count += msgs.iter().filter(|m| m.msg_type == MessageType::InventoryPoint).count();
    }
    assert_eq!(count, 1, "score dispatched exactly once");
}

#[test]
fn snapshot_round_trips_an_airborne_frog() {
    let mut obj = JnObject::spawned(22, 80, 96, 14, 2);
    obj.set_state(FROG_STATE_ON_JUMP);
    obj.set_counter(5);
    obj.set_speed(-4, 3);
    obj.set_zap_hold(2);
    let frog = FrogEntity::new(&obj, 16, 16);
    assert_eq!(frog.snapshot(), Some(obj));
}

#[test]
fn ghost_follows_corridor_and_turns_at_wall() {
    let mut bg = BackgroundGrid::filled(5, 5, cell(true, false, Some(1)));
    for y in 0..5 {
        for x in 0..5 {
            let code = if x == 3 {
                1
            } else if y == 1 || (x == 2 && y >= 1) {
                0
            } else {
                1
            };
            bg.set(x, y, cell(true, false, Some(code)));
        }
    }
    let mut g = GhostEntity {
        x: 16,
        y: 16,
        w: 16,
        h: 16,
        x_speed: 2,
        y_speed: 0,
        speed: 2,
        dead: false,
        score_dispatched: false,
        zaphold: 0,
        pending_kill: None,
        origin: JnObject::spawned(53, 16, 16, 16, 16),
    };
    let start_x = g.x;
    for _ in 0..40 {
        g.update(&bg);
    }
    assert!(g.x > start_x, "ghost glided along the corridor");
    assert!(g.y > 16, "ghost turned down at the corridor boundary");
}

#[test]
fn snapshot_persists_reversed_direction_not_authored() {
    let mut item = JnObject::spawned(29, 0, 96, 16, 16);
    item.set_speed(-ANT_X_SPEED as i16, 0);
    let mut ant = GiantAntEntity::new(&item, 16, 16);
    ant.update(&grid_with_floor(8, 8, 7));
    let snapshot = ant.snapshot().expect("a live ant snapshots");
    assert_eq!(snapshot.x_speed, ANT_X_SPEED as i16, "snapshot must keep the live reversed direction");
}

#[test]
fn hive_spawns_bees_toward_player_over_time() {
    let mut hive = HiveEntity::new(&record_at(45, 100, 32));
    let mut spawns = Vec::new();
    for _ in 0..2000 {
        hive.observe_player(Rect::new(400, 32, 16, 16));
        for m in hive.update() {
            if m.msg_type == MessageType::CreateObject {
                spawns.push(m.payload);
            }
        }
    }
    assert!(!spawns.is_empty(), "hive eventually spawns bees");
    let expected_x = hive.x + hive.w / 2;
    for p in spawns.iter() {
        assert!(
            matches!(p, MessagePayload::SpawnAt(req) if req.object_type == BEES_OBJECT_TYPE && req.x == expected_x),
            "each spawn requests a bee on the player-facing side; got {p:?}"
        );
    }
}

fn snake_with_width(w: i32) -> SnakeEntity {
    let mut snake = SnakeEntity::new(&record_at(39, 0, 0));
    snake.w = w;
    snake.h = SNAKE_HEAD_H;
    snake
}

fn expire_recoil(snake: &mut SnakeEntity) {
    let grid = BackgroundGrid::new(Vec::new()).expect("no rows make an empty grid");
    for _ in 0..SNAKE_STATE_WHEN_TOUCH {
        snake.update(&grid);
    }
}

#[test]
fn snake_takes_multiple_hits_to_die() {
    let mut snake = snake_with_width(SNAKE_HEAD_W + 3 * SNAKE_MIDDLE_W + SNAKE_TAIL_W);
    for hit in 0..3 {
        assert!(!snake.dead, "snake alive before hit {hit}");
        let w_before = snake.w;
        snake.on_kill(1, DeathKind::Enemy);
        assert_eq!(snake.w, w_before - SNAKE_MIDDLE_W, "one segment removed per hit");
        let w_after = snake.w;
        snake.on_kill(1, DeathKind::Enemy);
        assert_eq!(snake.w, w_after, "snake immune during recoil");
        expire_recoil(&mut snake);
    }
    assert!(snake.dead, "snake dies once shrunk to head + tail");
}

#[test]
fn snake_bounding_box_shrinks_with_hits() {
    let mut snake = snake_with_width(SNAKE_HEAD_W + 4 * SNAKE_MIDDLE_W + SNAKE_TAIL_W);
    let w0 = snake.bounding_box().w;
    snake.on_kill(1, DeathKind::Enemy);
    assert!(snake.bounding_box().w < w0, "bbox shrinks after a hit");
}

#[test]
fn killed_enemies_pay_their_score_once() {
    let grid = grid_with_floor(8, 8, 7);
    let mut crab = CrabEntity::new(&record_at(47, 32, 96), 16, 16);
    crab.on_kill(1, DeathKind::Enemy);
    let first = crab.update(&grid);
    let second = crab.update(&grid);
    assert_eq!(first.len(), 1);
    assert_eq!(first[0].payload, MessagePayload::Count(200));
    assert!(second.is_empty());

    let mut hive = HiveEntity::new(&record_at(45, 32, 32));
    hive.on_kill(1, DeathKind::Enemy);
    assert_eq!(hive.update()[0].payload, MessagePayload::Count(500));
    assert!(hive.update().is_empty());
}

#[test]
fn frog_touch_arms_an_enemy_kill() {
    let mut frog = FrogEntity::new(&record_at(22, 32, 32), 16, 16);
    frog.on_touch();
    assert_eq!(frog.take_player_kill(), Some(DeathKind::Enemy));
    assert_eq!(frog.take_player_kill(), None);
}

#[test]
fn killed_frog_pays_once_over_many_ticks() {
    let mut frog = FrogEntity::new(&record_at(22, 32, 32), 16, 16);
    frog.on_kill(1, DeathKind::Enemy);
    let grid = grid_with_floor(8, 8, 7);
    let mut payloads = Vec::new();
    for _ in 0..10 {
        payloads.extend(frog.update(&grid).into_iter().map(|m| m.payload));
    }
    assert_eq!(payloads, vec![MessagePayload::Count(100)]);
    assert!(frog.is_dead() && frog.draw().is_none() && frog.snapshot().is_none());
    assert_eq!((frog.x, frog.y), (32, 32));
}
