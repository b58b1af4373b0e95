//! The object factory: builds the entity a JN object record describes,
//! dispatching on the record's type.

use vstd::prelude::*;

use crate::bullet::BulletEntity;
use crate::checkpoint::{destination_target, spec_destination, spec_starts_with_map_marker, CheckPointEntity};
use crate::crab::CrabEntity;
use crate::decor::{EyesEntity, SkullEntity};
use crate::enemies::{dim_ok, BeesEntity, HiveEntity};
use crate::flame_spark::{FlameEntity, SparkEntity};
use crate::frog::FrogEntity;
use crate::gator::GatorEntity;
use crate::ghost::GhostEntity;
use crate::giant_ant::GiantAntEntity;
use crate::hazards::{FallingSpikeEntity, RollingRockEntity};
use crate::items::{
    block_dim, record_box, record_box_exec, AppleEntity, BubblesEntity, CollapsingCeilingEntity, FirebirdPlayerEntity, FirebirdWeaponEntity, KnifeEntity,
    PointEntity, StubObjectEntity, SwitchEntity, TouchTriggerEntity,
};
use crate::mechanisms::{HitFireEntity, HugeLetterTileEntity, LiftEntity, LockedDoorEntity, ToggleWallEntity};
use crate::objects::{object_kind, spec_object_kind, ObjectKind};
use crate::pickups::{BladeEntity, BonusEntity, RedKeyEntity, RockKeyEntity};
use crate::player::PlayerEntity;
use crate::record::JnObject;
use crate::world::Rect;
use crate::snake::SnakeEntity;

verus! {

/// Sprite sizes `(width, height)` of the entities sized by their first tile.
#[derive(Clone, Copy, Debug)]
pub struct SpriteDims {
    pub frog: (i32, i32),
    pub crab: (i32, i32),
    pub giant_ant: (i32, i32),
    pub gator: (i32, i32),
    pub eyes: (i32, i32),
    pub skull: (i32, i32),
    pub spark: (i32, i32),
}

impl SpriteDims {
    /// Every size is a sprite side in range.
    pub open spec fn wf(&self) -> bool {
        &&& dim_ok(self.frog.0 as int) && dim_ok(self.frog.1 as int)
        &&& dim_ok(self.crab.0 as int) && dim_ok(self.crab.1 as int)
        &&& dim_ok(self.giant_ant.0 as int) && dim_ok(self.giant_ant.1 as int)
        &&& dim_ok(self.gator.0 as int) && dim_ok(self.gator.1 as int)
        &&& dim_ok(self.eyes.0 as int) && dim_ok(self.eyes.1 as int)
        &&& dim_ok(self.skull.0 as int) && dim_ok(self.skull.1 as int)
        &&& dim_ok(self.spark.0 as int) && dim_ok(self.spark.1 as int)
    }
}

/// A live object of a level.
#[derive(Clone, Debug)]
pub enum ObjectEntity {
    Player(PlayerEntity),
    Apple(AppleEntity),
    Knife(KnifeEntity),
    Checkpoint(CheckPointEntity),
    RedKey(RedKeyEntity),
    TouchTrigger(TouchTriggerEntity),
    /// A text tile, kept as its record.
    TextTile(JnObject),
    Frog(FrogEntity),
    LockedDoor(LockedDoorEntity),
    CollapsingCeiling(CollapsingCeilingEntity),
    ToggleWall(ToggleWallEntity),
    Point(PointEntity),
    Bonus(BonusEntity),
    GiantAnt(GiantAntEntity),
    /// An enemy firebird, kept as its record.
    FirebirdEnemy(JnObject),
    Flame(FlameEntity),
    Switch(SwitchEntity),
    RockKey(RockKeyEntity),
    RollingRock(RollingRockEntity),
    Bullet(BulletEntity),
    HitFire(HitFireEntity),
    FallingSpike(FallingSpikeEntity),
    Snake(SnakeEntity),
    SilentStub(StubObjectEntity),
    HugeLetterTile(HugeLetterTileEntity),
    Hive(HiveEntity),
    Bees(BeesEntity),
    Crab(CrabEntity),
    Gator(GatorEntity),
    Blade(BladeEntity),
    Skull(SkullEntity),
    GhostEnemy(GhostEntity),
    FirebirdPlayer(FirebirdPlayerEntity),
    Bubbles(BubblesEntity),
    Lift(LiftEntity),
    FirebirdWeapon(FirebirdWeaponEntity),
    Eyes(EyesEntity),
    Spark(SparkEntity),
    Stub(StubObjectEntity),
}

impl ObjectEntity {
    /// The kind of the entity.
    pub open spec fn spec_kind(&self) -> ObjectKind {
        match self {
            ObjectEntity::Player(_) => ObjectKind::Player,
            ObjectEntity::Apple(_) => ObjectKind::Apple,
            ObjectEntity::Knife(_) => ObjectKind::Knife,
            ObjectEntity::Checkpoint(_) => ObjectKind::Checkpoint,
            ObjectEntity::RedKey(_) => ObjectKind::RedKey,
            ObjectEntity::TouchTrigger(_) => ObjectKind::TouchTrigger,
            ObjectEntity::TextTile(_) => ObjectKind::TextTile,
            ObjectEntity::Frog(_) => ObjectKind::Frog,
            ObjectEntity::LockedDoor(_) => ObjectKind::LockedDoor,
            ObjectEntity::CollapsingCeiling(_) => ObjectKind::CollapsingCeiling,
            ObjectEntity::ToggleWall(_) => ObjectKind::ToggleWall,
            ObjectEntity::Point(_) => ObjectKind::Point,
            ObjectEntity::Bonus(_) => ObjectKind::Bonus,
            ObjectEntity::GiantAnt(_) => ObjectKind::GiantAnt,
            ObjectEntity::FirebirdEnemy(_) => ObjectKind::FirebirdEnemy,
            ObjectEntity::Flame(_) => ObjectKind::Flame,
            ObjectEntity::Switch(_) => ObjectKind::Switch,
            ObjectEntity::RockKey(_) => ObjectKind::RockKey,
            ObjectEntity::RollingRock(_) => ObjectKind::RollingRock,
            ObjectEntity::Bullet(_) => ObjectKind::Bullet,
            ObjectEntity::HitFire(_) => ObjectKind::HitFire,
            ObjectEntity::FallingSpike(_) => ObjectKind::FallingSpike,
            ObjectEntity::Snake(_) => ObjectKind::Snake,
            ObjectEntity::SilentStub(_) => ObjectKind::SilentStub,
            ObjectEntity::HugeLetterTile(_) => ObjectKind::HugeLetterTile,
            ObjectEntity::Hive(_) => ObjectKind::Hive,
            ObjectEntity::Bees(_) => ObjectKind::Bees,
            ObjectEntity::Crab(_) => ObjectKind::Crab,
            ObjectEntity::Gator(_) => ObjectKind::Gator,
            ObjectEntity::Blade(_) => ObjectKind::Blade,
            ObjectEntity::Skull(_) => ObjectKind::Skull,
            ObjectEntity::GhostEnemy(_) => ObjectKind::GhostEnemy,
            ObjectEntity::FirebirdPlayer(_) => ObjectKind::FirebirdPlayer,
            ObjectEntity::Bubbles(_) => ObjectKind::Bubbles,
            ObjectEntity::Lift(_) => ObjectKind::Lift,
            ObjectEntity::FirebirdWeapon(_) => ObjectKind::FirebirdWeapon,
            ObjectEntity::Eyes(_) => ObjectKind::Eyes,
            ObjectEntity::Spark(_) => ObjectKind::Spark,
            ObjectEntity::Stub(_) => ObjectKind::Stub,
        }
    }

    /// The bounds an entity's own operations need.
    pub open spec fn wf(&self) -> bool {
        match self {
            ObjectEntity::Frog(f) => f.wf(),
            ObjectEntity::Crab(c) => c.wf(),
            ObjectEntity::GiantAnt(a) => a.wf(),
            ObjectEntity::Gator(g) => g.wf(),
            ObjectEntity::Snake(s) => s.wf(),
            _ => true,
        }
    }

    /// The entity's box: a record kept as is covers the record's box (at
    /// least a block each way), a stub covers nothing.
    pub open spec fn spec_bbox(&self) -> Rect {
        match self {
            ObjectEntity::Player(e) => Rect { x: e.x, y: e.y, w: e.w, h: e.h },
            ObjectEntity::Apple(e) => e.bbox,
            ObjectEntity::Knife(e) => e.bbox,
            ObjectEntity::Checkpoint(e) => e.bbox,
            ObjectEntity::RedKey(e) => Rect { x: e.x, y: e.y, w: e.w, h: e.h },
            ObjectEntity::TouchTrigger(e) => e.bbox,
            ObjectEntity::TextTile(e) => record_box(*e),
            ObjectEntity::Frog(e) => Rect { x: e.x, y: e.y, w: e.w, h: e.h },
            ObjectEntity::LockedDoor(e) => Rect { x: e.x, y: e.y, w: e.w, h: e.h },
            ObjectEntity::CollapsingCeiling(e) => e.bbox,
            ObjectEntity::ToggleWall(e) => Rect { x: e.x, y: e.y, w: e.w, h: e.h },
            ObjectEntity::Point(e) => e.bbox,
            ObjectEntity::Bonus(e) => Rect { x: e.x, y: e.y, w: e.w, h: e.h },
            ObjectEntity::GiantAnt(e) => Rect { x: e.x, y: e.y, w: e.w, h: e.h },
            ObjectEntity::FirebirdEnemy(e) => record_box(*e),
            ObjectEntity::Flame(e) => Rect { x: e.x, y: e.y, w: e.w, h: e.h },
            ObjectEntity::Switch(e) => e.bbox,
            ObjectEntity::RockKey(e) => Rect { x: e.x, y: e.y, w: e.w, h: e.h },
            ObjectEntity::RollingRock(e) => Rect { x: e.x, y: e.y, w: e.w, h: e.h },
            ObjectEntity::Bullet(e) => Rect { x: e.x, y: e.y, w: e.w, h: e.h },
            ObjectEntity::HitFire(e) => Rect { x: e.x, y: e.y, w: e.w, h: e.h },
            ObjectEntity::FallingSpike(e) => Rect { x: e.x, y: e.y, w: e.w, h: e.h },
            ObjectEntity::Snake(e) => Rect { x: e.x, y: e.y, w: e.w, h: e.h },
            ObjectEntity::SilentStub(e) => Rect { x: e.x, y: e.y, w: 0, h: 0 },
            ObjectEntity::HugeLetterTile(e) => Rect { x: e.x, y: e.y, w: e.w, h: e.h },
            ObjectEntity::Hive(e) => Rect { x: e.x, y: e.y, w: e.w, h: e.h },
            ObjectEntity::Bees(e) => Rect { x: e.x, y: e.y, w: e.w, h: e.h },
            ObjectEntity::Crab(e) => Rect { x: e.x, y: e.y, w: e.w, h: e.h },
            ObjectEntity::Gator(e) => Rect { x: e.x, y: e.y, w: e.w, h: e.h },
            ObjectEntity::Blade(e) => Rect { x: e.x, y: e.y, w: e.w, h: e.h },
            ObjectEntity::Skull(e) => Rect { x: e.x, y: e.y, w: e.w, h: e.h },
            ObjectEntity::GhostEnemy(e) => Rect { x: e.x, y: e.y, w: e.w, h: e.h },
            ObjectEntity::FirebirdPlayer(e) => e.bbox,
            ObjectEntity::Bubbles(e) => e.bbox,
            ObjectEntity::Lift(e) => Rect { x: e.x, y: e.y, w: e.w, h: e.h },
            ObjectEntity::FirebirdWeapon(e) => e.bbox,
            ObjectEntity::Eyes(e) => Rect { x: e.x, y: e.y, w: e.w, h: e.h },
            ObjectEntity::Spark(e) => Rect { x: e.x, y: e.y, w: e.w, h: e.h },
            ObjectEntity::Stub(e) => Rect { x: e.x, y: e.y, w: 0, h: 0 },
        }
    }

    /// The entity's collision box.
    pub fn bounding_box(&self) -> (r: Rect)
        ensures
            r == self.spec_bbox(),
    {
        match self {
            ObjectEntity::Player(e) => e.bounding_box(),
            ObjectEntity::Apple(e) => e.bounding_box(),
            ObjectEntity::Knife(e) => e.bounding_box(),
            ObjectEntity::Checkpoint(e) => e.bounding_box(),
            ObjectEntity::RedKey(e) => e.bounding_box(),
            ObjectEntity::TouchTrigger(e) => e.bounding_box(),
            ObjectEntity::TextTile(e) => record_box_exec(e),
            ObjectEntity::Frog(e) => e.bounding_box(),
            ObjectEntity::LockedDoor(e) => e.bounding_box(),
            ObjectEntity::CollapsingCeiling(e) => e.bounding_box(),
            ObjectEntity::ToggleWall(e) => e.bounding_box(),
            ObjectEntity::Point(e) => e.bounding_box(),
            ObjectEntity::Bonus(e) => e.bounding_box(),
            ObjectEntity::GiantAnt(e) => e.bounding_box(),
            ObjectEntity::FirebirdEnemy(e) => record_box_exec(e),
            ObjectEntity::Flame(e) => e.bounding_box(),
            ObjectEntity::Switch(e) => e.bounding_box(),
            ObjectEntity::RockKey(e) => e.bounding_box(),
            ObjectEntity::RollingRock(e) => e.bounding_box(),
            ObjectEntity::Bullet(e) => e.bounding_box(),
            ObjectEntity::HitFire(e) => e.bounding_box(),
            ObjectEntity::FallingSpike(e) => e.bounding_box(),
            ObjectEntity::Snake(e) => e.bounding_box(),
            ObjectEntity::SilentStub(e) => e.bounding_box(),
            ObjectEntity::HugeLetterTile(e) => e.bounding_box(),
            ObjectEntity::Hive(e) => e.bounding_box(),
            ObjectEntity::Bees(e) => e.bounding_box(),
            ObjectEntity::Crab(e) => e.bounding_box(),
            ObjectEntity::Gator(e) => e.bounding_box(),
            ObjectEntity::Blade(e) => e.bounding_box(),
            ObjectEntity::Skull(e) => e.bounding_box(),
            ObjectEntity::GhostEnemy(e) => e.bounding_box(),
            ObjectEntity::FirebirdPlayer(e) => e.bounding_box(),
            ObjectEntity::Bubbles(e) => e.bounding_box(),
            ObjectEntity::Lift(e) => e.bounding_box(),
            ObjectEntity::FirebirdWeapon(e) => e.bounding_box(),
            ObjectEntity::Eyes(e) => e.bounding_box(),
            ObjectEntity::Spark(e) => e.bounding_box(),
            ObjectEntity::Stub(e) => e.bounding_box(),
        }
    }

    /// The kind of the entity.
    pub fn kind(&self) -> (r: ObjectKind)
        ensures
            r == self.spec_kind(),
    {
        match self {
            ObjectEntity::Player(_) => ObjectKind::Player,
            ObjectEntity::Apple(_) => ObjectKind::Apple,
            ObjectEntity::Knife(_) => ObjectKind::Knife,
            ObjectEntity::Checkpoint(_) => ObjectKind::Checkpoint,
            ObjectEntity::RedKey(_) => ObjectKind::RedKey,
            ObjectEntity::TouchTrigger(_) => ObjectKind::TouchTrigger,
            ObjectEntity::TextTile(_) => ObjectKind::TextTile,
            ObjectEntity::Frog(_) => ObjectKind::Frog,
            ObjectEntity::LockedDoor(_) => ObjectKind::LockedDoor,
            ObjectEntity::CollapsingCeiling(_) => ObjectKind::CollapsingCeiling,
            ObjectEntity::ToggleWall(_) => ObjectKind::ToggleWall,
            ObjectEntity::Point(_) => ObjectKind::Point,
            ObjectEntity::Bonus(_) => ObjectKind::Bonus,
            ObjectEntity::GiantAnt(_) => ObjectKind::GiantAnt,
            ObjectEntity::FirebirdEnemy(_) => ObjectKind::FirebirdEnemy,
            ObjectEntity::Flame(_) => ObjectKind::Flame,
            ObjectEntity::Switch(_) => ObjectKind::Switch,
            ObjectEntity::RockKey(_) => ObjectKind::RockKey,
            ObjectEntity::RollingRock(_) => ObjectKind::RollingRock,
            ObjectEntity::Bullet(_) => ObjectKind::Bullet,
            ObjectEntity::HitFire(_) => ObjectKind::HitFire,
            ObjectEntity::FallingSpike(_) => ObjectKind::FallingSpike,
            ObjectEntity::Snake(_) => ObjectKind::Snake,
            ObjectEntity::SilentStub(_) => ObjectKind::SilentStub,
            ObjectEntity::HugeLetterTile(_) => ObjectKind::HugeLetterTile,
            ObjectEntity::Hive(_) => ObjectKind::Hive,
            ObjectEntity::Bees(_) => ObjectKind::Bees,
            ObjectEntity::Crab(_) => ObjectKind::Crab,
            ObjectEntity::Gator(_) => ObjectKind::Gator,
            ObjectEntity::Blade(_) => ObjectKind::Blade,
            ObjectEntity::Skull(_) => ObjectKind::Skull,
            ObjectEntity::GhostEnemy(_) => ObjectKind::GhostEnemy,
            ObjectEntity::FirebirdPlayer(_) => ObjectKind::FirebirdPlayer,
            ObjectEntity::Bubbles(_) => ObjectKind::Bubbles,
            ObjectEntity::Lift(_) => ObjectKind::Lift,
            ObjectEntity::FirebirdWeapon(_) => ObjectKind::FirebirdWeapon,
            ObjectEntity::Eyes(_) => ObjectKind::Eyes,
            ObjectEntity::Spark(_) => ObjectKind::Spark,
            ObjectEntity::Stub(_) => ObjectKind::Stub,
        }
    }

    /// The entity is the player (or the player in firebird form).
    pub fn is_player(&self) -> (r: bool)
        ensures
            r == (self.spec_kind() == ObjectKind::Player || self.spec_kind() == ObjectKind::FirebirdPlayer),
    {
        match self {
            ObjectEntity::Player(_) | ObjectEntity::FirebirdPlayer(_) => true,
            _ => false,
        }
    }

    /// The entity is a checkpoint.
    pub fn is_checkpoint(&self) -> (r: bool)
        ensures
            r == (self.spec_kind() == ObjectKind::Checkpoint),
    {
        match self {
            ObjectEntity::Checkpoint(_) => true,
            _ => false,
        }
    }

    /// The record a save keeps of the entity, `None` for one that is gone
    /// (collected, fired, killed or burnt out); a text tile and an enemy
    /// firebird keep their record as built.
    pub open spec fn spec_snapshot(&self) -> Option<JnObject> {
        match self {
            ObjectEntity::Player(p) => Some(p.spec_snapshot()),
            ObjectEntity::Apple(e) => e.spec_snapshot(),
            ObjectEntity::Knife(e) => e.spec_snapshot(),
            ObjectEntity::Checkpoint(e) => e.spec_snapshot(),
            ObjectEntity::RedKey(e) => e.spec_snapshot(),
            ObjectEntity::TouchTrigger(e) => e.spec_snapshot(),
            ObjectEntity::TextTile(o) => Some(*o),
            ObjectEntity::Frog(e) => e.spec_snapshot(),
            ObjectEntity::LockedDoor(e) => e.spec_snapshot(),
            ObjectEntity::CollapsingCeiling(e) => e.spec_snapshot(),
            ObjectEntity::ToggleWall(e) => e.spec_snapshot(),
            ObjectEntity::Point(e) => e.spec_snapshot(),
            ObjectEntity::Bonus(e) => e.spec_snapshot(),
            ObjectEntity::GiantAnt(e) => e.spec_snapshot(),
            ObjectEntity::FirebirdEnemy(o) => Some(*o),
            ObjectEntity::Flame(e) => e.spec_snapshot(),
            ObjectEntity::Switch(e) => e.spec_snapshot(),
            ObjectEntity::RockKey(e) => e.spec_snapshot(),
            ObjectEntity::RollingRock(e) => e.spec_snapshot(),
            ObjectEntity::Bullet(e) => e.spec_snapshot(),
            ObjectEntity::HitFire(e) => e.spec_snapshot(),
            ObjectEntity::FallingSpike(e) => e.spec_snapshot(),
            ObjectEntity::Snake(e) => e.spec_snapshot(),
            ObjectEntity::SilentStub(e) => e.spec_snapshot(),
            ObjectEntity::HugeLetterTile(e) => e.spec_snapshot(),
            ObjectEntity::Hive(e) => e.spec_snapshot(),
            ObjectEntity::Bees(e) => e.spec_snapshot(),
            ObjectEntity::Crab(e) => e.spec_snapshot(),
            ObjectEntity::Gator(e) => e.spec_snapshot(),
            ObjectEntity::Blade(e) => e.spec_snapshot(),
            ObjectEntity::Skull(e) => e.spec_snapshot(),
            ObjectEntity::GhostEnemy(e) => e.spec_snapshot(),
            ObjectEntity::FirebirdPlayer(e) => e.spec_snapshot(),
            ObjectEntity::Bubbles(e) => e.spec_snapshot(),
            ObjectEntity::Lift(e) => e.spec_snapshot(),
            ObjectEntity::FirebirdWeapon(e) => e.spec_snapshot(),
            ObjectEntity::Eyes(e) => e.spec_snapshot(),
            ObjectEntity::Spark(e) => e.spec_snapshot(),
            ObjectEntity::Stub(e) => e.spec_snapshot(),
        }
    }

    /// Serializes the entity for a save.
    pub fn snapshot(&self) -> (r: Option<JnObject>)
        requires
            self.wf(),
        ensures
            r == self.spec_snapshot(),
    {
        match self {
            ObjectEntity::Player(p) => p.snapshot(),
            ObjectEntity::Apple(e) => e.snapshot(),
            ObjectEntity::Knife(e) => e.snapshot(),
            ObjectEntity::Checkpoint(e) => e.snapshot(),
            ObjectEntity::RedKey(e) => e.snapshot(),
            ObjectEntity::TouchTrigger(e) => e.snapshot(),
            ObjectEntity::TextTile(o) => Some(*o),
            ObjectEntity::Frog(e) => e.snapshot(),
            ObjectEntity::LockedDoor(e) => e.snapshot(),
            ObjectEntity::CollapsingCeiling(e) => e.snapshot(),
            ObjectEntity::ToggleWall(e) => e.snapshot(),
            ObjectEntity::Point(e) => e.snapshot(),
            ObjectEntity::Bonus(e) => e.snapshot(),
            ObjectEntity::GiantAnt(e) => e.snapshot(),
            ObjectEntity::FirebirdEnemy(o) => Some(*o),
            ObjectEntity::Flame(e) => e.snapshot(),
            ObjectEntity::Switch(e) => e.snapshot(),
            ObjectEntity::RockKey(e) => e.snapshot(),
            ObjectEntity::RollingRock(e) => e.snapshot(),
            ObjectEntity::Bullet(e) => e.snapshot(),
            ObjectEntity::HitFire(e) => e.snapshot(),
            ObjectEntity::FallingSpike(e) => e.snapshot(),
            ObjectEntity::Snake(e) => e.snapshot(),
            ObjectEntity::SilentStub(e) => e.snapshot(),
            ObjectEntity::HugeLetterTile(e) => e.snapshot(),
            ObjectEntity::Hive(e) => e.snapshot(),
            ObjectEntity::Bees(e) => e.snapshot(),
            ObjectEntity::Crab(e) => e.snapshot(),
            ObjectEntity::Gator(e) => e.snapshot(),
            ObjectEntity::Blade(e) => e.snapshot(),
            ObjectEntity::Skull(e) => e.snapshot(),
            ObjectEntity::GhostEnemy(e) => e.snapshot(),
            ObjectEntity::FirebirdPlayer(e) => e.snapshot(),
            ObjectEntity::Bubbles(e) => e.snapshot(),
            ObjectEntity::Lift(e) => e.snapshot(),
            ObjectEntity::FirebirdWeapon(e) => e.snapshot(),
            ObjectEntity::Eyes(e) => e.snapshot(),
            ObjectEntity::Spark(e) => e.snapshot(),
            ObjectEntity::Stub(e) => e.snapshot(),
        }
    }
}

/// A freshly built object of `type_id` saves back to exactly `item`: true
/// of every record but a player's of an unknown state code, a frog's or a
/// toggle wall's of a state other than 0 and 1, a snake's narrower than 32
/// or a snake's or gator's whose counter names no frame, and a score popup's
/// that has run out.
pub open spec fn snapshot_round_trips(type_id: u8, item: JnObject) -> bool {
    match spec_object_kind(type_id) {
        ObjectKind::Player => 0 <= item.state <= 5,
        ObjectKind::Frog => item.state == 0 || item.state == 1,
        ObjectKind::ToggleWall => item.state == 0 || item.state == 1,
        ObjectKind::Snake => item.width >= 32 && 0 <= item.counter < 4,
        ObjectKind::Gator => 0 <= item.counter < 4,
        ObjectKind::Point => item.counter > 0,
        _ => true,
    }
}

/// Builds the entity a JN object record of `type_id` describes; the
/// checkpoint also reads the record's string, and the sprite-sized enemies
/// their sprite sizes. Types without an entity build a stub.
pub fn make_object_entity(type_id: u8, item: &JnObject, string_entry: Option<&str>, dims: &SpriteDims) -> (r: ObjectEntity)
    requires
        dims.wf(),
    ensures
        r.spec_kind() == spec_object_kind(type_id),
        r.wf(),
        snapshot_round_trips(type_id, *item) ==> r.spec_snapshot() == Some(*item),
        r matches ObjectEntity::Frog(f) ==> f == FrogEntity::spec_new(*item, dims.frog.0, dims.frog.1),
        r matches ObjectEntity::Crab(c) ==> c == CrabEntity::spec_new(*item, dims.crab.0, dims.crab.1),
        r matches ObjectEntity::GiantAnt(a) ==> a == GiantAntEntity::spec_new(*item, dims.giant_ant.0, dims.giant_ant.1),
        r matches ObjectEntity::Gator(g) ==> g == GatorEntity::spec_new(*item, dims.gator.1),
        r matches ObjectEntity::Spark(s) ==> s == SparkEntity::spec_new(*item, dims.spark.0, dims.spark.1),
        r matches ObjectEntity::Hive(h) ==> h == HiveEntity::spec_new(*item),
        r matches ObjectEntity::GhostEnemy(g) ==> g == GhostEntity::spec_new(*item),
        r matches ObjectEntity::Snake(s) ==> s == SnakeEntity::spec_new(*item),
        r matches ObjectEntity::Stub(s) ==> s == (StubObjectEntity { type_id, x: item.x as i32, y: item.y as i32, origin: *item }),
        r matches ObjectEntity::SilentStub(s) ==> s == (StubObjectEntity { type_id, x: item.x as i32, y: item.y as i32, origin: *item }),
        r matches ObjectEntity::Player(p) ==> p == PlayerEntity::spec_new(*item),
        r matches ObjectEntity::Apple(a) ==> a == AppleEntity::spec_new(*item),
        r matches ObjectEntity::Knife(k) ==> k == KnifeEntity::spec_new(*item),
        r matches ObjectEntity::Checkpoint(c) ==> (c.bbox == record_box(*item) && c.counter == item.counter
            && destination_target(c.destination) == spec_destination(item.counter, match string_entry {
                Some(s) => Some(s@),
                None => None,
            })
            && ((c.destination is WorldMap) <==> (string_entry matches Some(s) && spec_starts_with_map_marker(s@)))
            && !c.fired && c.origin == *item),
        r matches ObjectEntity::RedKey(k) ==> k == RedKeyEntity::spec_new(*item),
        r matches ObjectEntity::TouchTrigger(t) ==> t == TouchTriggerEntity::spec_new(*item),
        r matches ObjectEntity::LockedDoor(d) ==> d == LockedDoorEntity::spec_new(*item),
        r matches ObjectEntity::CollapsingCeiling(c) ==> c == CollapsingCeilingEntity::spec_new(*item),
        r matches ObjectEntity::ToggleWall(w) ==> w == ToggleWallEntity::spec_new(*item),
        r matches ObjectEntity::Point(p) ==> p == PointEntity::spec_new(*item),
        r matches ObjectEntity::Bonus(b) ==> b == BonusEntity::spec_new(*item),
        r matches ObjectEntity::Flame(f) ==> f == FlameEntity::spec_new(*item),
        r matches ObjectEntity::Switch(s) ==> s == SwitchEntity::spec_new(*item),
        r matches ObjectEntity::RockKey(k) ==> k == RockKeyEntity::spec_new(*item),
        r matches ObjectEntity::RollingRock(k) ==> k == RollingRockEntity::spec_new(*item),
        r matches ObjectEntity::Bullet(b) ==> b == BulletEntity::spec_new(*item),
        r matches ObjectEntity::HitFire(h) ==> h == HitFireEntity::spec_new(*item),
        r matches ObjectEntity::FallingSpike(f) ==> f == FallingSpikeEntity::spec_new(*item),
        r matches ObjectEntity::HugeLetterTile(h) ==> h == HugeLetterTileEntity::spec_new(*item),
        r matches ObjectEntity::Bees(b) ==> b == BeesEntity::spec_build(item.x as i32, item.y as i32, block_dim(item.width), block_dim(item.height), *item),
        r matches ObjectEntity::Blade(b) ==> b == BladeEntity::spec_new(*item),
        r matches ObjectEntity::Skull(k) ==> k == SkullEntity::spec_new(*item, dims.skull.0, dims.skull.1),
        r matches ObjectEntity::FirebirdPlayer(f) ==> f == FirebirdPlayerEntity::spec_new(*item),
        r matches ObjectEntity::Bubbles(b) ==> b == BubblesEntity::spec_new(*item),
        r matches ObjectEntity::Lift(l) ==> l == LiftEntity::spec_new(*item),
        r matches ObjectEntity::FirebirdWeapon(f) ==> f == FirebirdWeaponEntity::spec_new(*item),
        r matches ObjectEntity::Eyes(e) ==> e == EyesEntity::spec_new(*item, dims.eyes.0, dims.eyes.1),
        r matches ObjectEntity::TextTile(o) ==> o == *item,
        r matches ObjectEntity::FirebirdEnemy(o) ==> o == *item,
{
    let kind = object_kind(type_id);
    match kind {
        ObjectKind::Player => ObjectEntity::Player(PlayerEntity::new(item)),
        ObjectKind::Apple => ObjectEntity::Apple(AppleEntity::new(item)),
        ObjectKind::Knife => ObjectEntity::Knife(KnifeEntity::new(item)),
        ObjectKind::Checkpoint => ObjectEntity::Checkpoint(CheckPointEntity::new(item, string_entry)),
        ObjectKind::RedKey => ObjectEntity::RedKey(RedKeyEntity::new(item)),
        ObjectKind::TouchTrigger => ObjectEntity::TouchTrigger(TouchTriggerEntity::new(item)),
        ObjectKind::TextTile => ObjectEntity::TextTile(*item),
        ObjectKind::Frog => ObjectEntity::Frog(FrogEntity::new(item, dims.frog.0, dims.frog.1)),
        ObjectKind::LockedDoor => ObjectEntity::LockedDoor(LockedDoorEntity::new(item)),
        ObjectKind::CollapsingCeiling => ObjectEntity::CollapsingCeiling(CollapsingCeilingEntity::new(item)),
        ObjectKind::ToggleWall => ObjectEntity::ToggleWall(ToggleWallEntity::new(item)),
        ObjectKind::Point => ObjectEntity::Point(PointEntity::new(item)),
        ObjectKind::Bonus => ObjectEntity::Bonus(BonusEntity::new(item)),
        ObjectKind::GiantAnt => ObjectEntity::GiantAnt(GiantAntEntity::new(item, dims.giant_ant.0, dims.giant_ant.1)),
        ObjectKind::FirebirdEnemy => ObjectEntity::FirebirdEnemy(*item),
        ObjectKind::Flame => ObjectEntity::Flame(FlameEntity::new(item)),
        ObjectKind::Switch => ObjectEntity::Switch(SwitchEntity::new(item)),
        ObjectKind::RockKey => ObjectEntity::RockKey(RockKeyEntity::new(item)),
        ObjectKind::RollingRock => ObjectEntity::RollingRock(RollingRockEntity::new(item)),
        ObjectKind::Bullet => ObjectEntity::Bullet(BulletEntity::new(item)),
        ObjectKind::HitFire => ObjectEntity::HitFire(HitFireEntity::new(item)),
        ObjectKind::FallingSpike => ObjectEntity::FallingSpike(FallingSpikeEntity::new(item)),
        ObjectKind::Snake => ObjectEntity::Snake(SnakeEntity::new(item)),
        ObjectKind::SilentStub => ObjectEntity::SilentStub(StubObjectEntity::silent(type_id, item)),
        ObjectKind::HugeLetterTile => ObjectEntity::HugeLetterTile(HugeLetterTileEntity::new(item)),
        ObjectKind::Hive => ObjectEntity::Hive(HiveEntity::new(item)),
        ObjectKind::Bees => ObjectEntity::Bees(BeesEntity::new(item)),
        ObjectKind::Crab => ObjectEntity::Crab(CrabEntity::new(item, dims.crab.0, dims.crab.1)),
        ObjectKind::Gator => ObjectEntity::Gator(GatorEntity::new(item, dims.gator.1)),
        ObjectKind::Blade => ObjectEntity::Blade(BladeEntity::new(item)),
        ObjectKind::Skull => ObjectEntity::Skull(SkullEntity::new(item, dims.skull.0, dims.skull.1)),
        ObjectKind::GhostEnemy => ObjectEntity::GhostEnemy(GhostEntity::new(item)),
        ObjectKind::FirebirdPlayer => ObjectEntity::FirebirdPlayer(FirebirdPlayerEntity::new(item)),
        ObjectKind::Bubbles => ObjectEntity::Bubbles(BubblesEntity::new(item)),
        ObjectKind::Lift => ObjectEntity::Lift(LiftEntity::new(item)),
        ObjectKind::FirebirdWeapon => ObjectEntity::FirebirdWeapon(FirebirdWeaponEntity::new(item)),
        ObjectKind::Eyes => ObjectEntity::Eyes(EyesEntity::new(item, dims.eyes.0, dims.eyes.1)),
        ObjectKind::Spark => ObjectEntity::Spark(SparkEntity::new(item, dims.spark.0, dims.spark.1)),
        ObjectKind::Stub => ObjectEntity::Stub(StubObjectEntity::new(type_id, item)),
    }
}

} // verus!
