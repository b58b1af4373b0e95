use openjill_game::factory::{make_object_entity, ObjectEntity, SpriteDims};
use openjill_game::record::JnObject;
use openjill_game::world::Rect;

fn dims() -> SpriteDims {
    SpriteDims {
        frog: (16, 16),
        crab: (16, 16),
        giant_ant: (16, 16),
        gator: (16, 16),
        eyes: (16, 16),
        skull: (16, 16),
        spark: (16, 16),
    }
}

fn object_of_type(type_id: u8) -> JnObject {
    JnObject::spawned(type_id, 0, 0, 0, 0)
}

fn make(type_id: u8, item: &JnObject) -> ObjectEntity {
    make_object_entity(type_id, item, None, &dims())
}

#[test]
fn make_object_entity_returns_stub_for_unregistered_type() {
    let entity = make(99, &object_of_type(99));
    assert!(!entity.is_player());
    assert!(!entity.is_checkpoint());
    let b = entity.bounding_box();
    assert_eq!(b.w, 0);
    assert_eq!(b.h, 0);
}

#[test]
fn make_object_entity_returns_player_for_type_zero() {
    let entity = make(0, &object_of_type(0));
    assert!(entity.is_player());
    assert!(!entity.is_checkpoint());
}

#[test]
fn make_object_entity_returns_checkpoint_for_type_twelve() {
    let entity = make(12, &object_of_type(12));
    assert!(entity.is_checkpoint());
    assert!(!entity.is_player());
}

#[test]
fn make_object_entity_returns_stub_for_explicitly_stubbed_types() {
    for type_id in [40u8, 49, 67] {
        let entity = make(type_id, &object_of_type(type_id));
        assert!(!entity.is_player(), "type {type_id} should not be player");
        assert!(!entity.is_checkpoint(), "type {type_id} should not be checkpoint");
        let b = entity.bounding_box();
        assert_eq!(b.w, 0, "type {type_id} stub bbox width");
        assert_eq!(b.h, 0, "type {type_id} stub bbox height");
    }
}

#[test]
fn make_object_entity_returns_apple_for_type_one() {
    let entity = make(1, &object_of_type(1));
    assert!(!entity.is_player());
    assert!(!entity.is_checkpoint());
    let b = entity.bounding_box();
    assert_eq!(b.w, 16);
    assert_eq!(b.h, 16);
}

#[test]
fn pickup_entities_snapshot_round_trips_their_source_record() {
    for type_id in [1u8, 14, 33, 28, 20, 21, 42] {
        let mut item = object_of_type(type_id);
        item.set_position(64, 80);
        assert_eq!(make(type_id, &item).snapshot(), Some(item), "type {type_id} snapshot must round-trip");
    }
}

#[test]
fn point_entity_snapshot_round_trips_while_alive() {
    let mut item = object_of_type(27);
    item.set_position(40, 50);
    item.set_speed(2, -3);
    item.set_counter(30);
    assert_eq!(make(27, &item).snapshot(), Some(item));
}

#[test]
fn walker_enemy_snapshot_round_trips_with_live_direction() {
    for type_id in [47u8, 48, 29] {
        for x_speed in [-4i16, 0] {
            let mut item = object_of_type(type_id);
            item.set_position(80, 96);
            item.set_speed(x_speed, 0);
            item.set_counter(2);
            item.set_zap_hold(1);
            item.set_dimensions(16, 4);
            assert_eq!(make(type_id, &item).snapshot(), Some(item), "type {type_id} (x_speed {x_speed}) snapshot must round-trip");
        }
    }
}

#[test]
fn mover_enemy_snapshot_round_trips() {
    let mut snake = object_of_type(39);
    snake.set_position(48, 64);
    snake.set_dimensions(96, 16);
    snake.set_speed(-3, 0);
    snake.set_counter(2);
    snake.set_zap_hold(1);
    assert_eq!(make(39, &snake).snapshot(), Some(snake), "snake snapshot must round-trip");

    let mut ghost = object_of_type(53);
    ghost.set_position(80, 80);
    ghost.set_speed(0, -3);
    ghost.set_counter(3);
    ghost.set_zap_hold(1);
    assert_eq!(make(53, &ghost).snapshot(), Some(ghost), "ghost snapshot must round-trip");

    let mut firebird = object_of_type(30);
    firebird.set_position(96, 32);
    firebird.set_speed(-4, 0);
    firebird.set_counter(2);
    firebird.set_zap_hold(1);
    assert_eq!(make(30, &firebird).snapshot(), Some(firebird), "firebird-enemy snapshot must round-trip");
}

#[test]
fn special_enemy_snapshot_round_trips() {
    for type_id in [46u8, 51, 64] {
        let mut item = object_of_type(type_id);
        item.set_position(72, 88);
        item.set_counter(3);
        assert_eq!(make(type_id, &item).snapshot(), Some(item), "type {type_id} snapshot must round-trip");
    }

    let mut spark = object_of_type(65);
    spark.set_position(40, 40);
    spark.set_speed(0, 3);
    spark.set_counter(2);
    spark.set_zap_hold(1);
    assert_eq!(make(65, &spark).snapshot(), Some(spark), "spark snapshot must round-trip");

    let mut hive = object_of_type(45);
    hive.set_position(64, 64);
    hive.set_counter(2);
    hive.set_zap_hold(1);
    assert_eq!(make(45, &hive).snapshot(), Some(hive), "hive snapshot must round-trip");
}

#[test]
fn hazard_entities_snapshot_round_trip_their_source_record() {
    for type_id in [24u8, 26, 32, 12, 15, 58, 37] {
        let mut item = object_of_type(type_id);
        item.set_position(56, 72);
        item.set_counter(4);
        assert_eq!(make(type_id, &item).snapshot(), Some(item), "type {type_id} snapshot must round-trip its source record");
    }
}

#[test]
fn toggled_wall_snapshot_persists_passthrough_state() {
    let mut item = object_of_type(26);
    item.set_position(56, 72);
    item.set_counter(7);
    let mut wall = make(26, &item);
    match &mut wall {
        ObjectEntity::ToggleWall(w) => w.receive_trigger(7),
        other => panic!("type 26 builds a toggle wall, got {other:?}"),
    }
    let snapshot = wall.snapshot().expect("a toggle wall always persists");
    assert_eq!(snapshot.state, 1, "toggled-open state must survive a save");
}

#[test]
fn fired_checkpoint_is_not_persisted() {
    let mut checkpoint = make(12, &object_of_type(12));
    match &mut checkpoint {
        ObjectEntity::Checkpoint(c) => {
            c.on_touch();
        }
        other => panic!("type 12 builds a checkpoint, got {other:?}"),
    }
    assert_eq!(checkpoint.snapshot(), None, "fired checkpoint is not saved");
}

#[test]
fn moving_hazard_snapshot_round_trips() {
    for type_id in [25u8, 31] {
        let mut item = object_of_type(type_id);
        item.set_position(48, 32);
        assert_eq!(make(type_id, &item).snapshot(), Some(item), "type {type_id} snapshot must round-trip");
    }

    let mut spike = object_of_type(38);
    spike.set_position(64, 16);
    spike.set_speed(0, 5);
    assert_eq!(make(38, &spike).snapshot(), Some(spike), "falling-spike snapshot must round-trip");

    for x_speed in [-4i16, 0] {
        let mut rock = object_of_type(35);
        rock.set_position(96, 80);
        rock.set_speed(x_speed, 0);
        assert_eq!(make(35, &rock).snapshot(), Some(rock), "rolling-rock (x_speed {x_speed}) snapshot must round-trip");
    }

    let mut lift = object_of_type(61);
    lift.set_position(32, 48);
    lift.set_speed(2, -1);
    assert_eq!(make(61, &lift).snapshot(), Some(lift), "lift snapshot must round-trip");
}

#[test]
fn projectile_and_stub_snapshot_round_trips() {
    for type_id in [2u8, 50, 56] {
        let mut item = object_of_type(type_id);
        item.set_position(40, 56);
        assert_eq!(make(type_id, &item).snapshot(), Some(item), "type {type_id} snapshot must round-trip");
    }
    for type_id in [36u8, 62] {
        let mut item = object_of_type(type_id);
        item.set_position(72, 24);
        item.set_speed(6, -2);
        assert_eq!(make(type_id, &item).snapshot(), Some(item), "type {type_id} snapshot must round-trip");
    }
    let mut unknown = object_of_type(99);
    unknown.set_position(88, 16);
    assert_eq!(make(99, &unknown).snapshot(), Some(unknown), "stub must persist an unrecognized object verbatim");
}

#[test]
fn frog_built_by_the_factory_sits_on_its_record_feet() {
    let mut item = object_of_type(22);
    item.set_position(80, 96);
    item.set_dimensions(16, 4);
    match make(22, &item) {
        ObjectEntity::Frog(f) => assert_eq!((f.x, f.y, f.w, f.h), (80, 84, 16, 16), "a 16-high sprite on a 4-high record rises by 12"),
        other => panic!("type 22 builds a frog, got {other:?}"),
    }
}

#[test]
fn factory_entities_report_their_boxes() {
    let mut item = object_of_type(24);
    item.set_position(40, 56);
    assert_eq!(make(24, &item).bounding_box(), Rect::new(40, 56, 16, 16), "a door covers at least a block");
    assert_eq!(make(20, &item).bounding_box(), Rect::new(40, 56, 16, 16));
    assert_eq!(make(99, &item).bounding_box(), Rect::new(40, 56, 0, 0), "a stub covers nothing");
    assert_eq!(make(0, &item).bounding_box(), Rect::new(40, 56, 16, 16));
}
