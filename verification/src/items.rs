//! The small object entities: pickups, triggers, switches, checkpoints,
//! score popups, particles, decorations and the stub that stands in for
//! unregistered object types.

use vstd::prelude::*;

use crate::collision::{box_ok, spec_collides_horizontal, collides_horizontal};
use crate::grid::BackgroundGrid;
use crate::layout::{BLOCK_SIZE, MAP_HEIGHT_CELLS, MAP_WIDTH_CELLS};
use crate::record::JnObject;
use crate::world::{
    DeathKind, InventoryObject, Message, MessagePayload, MessageType, Rect, RenderCommand,
};

verus! {

/// A JN dimension widened to at least one block.
pub open spec fn block_dim(v: u16) -> i32 {
    if (v as i32) < BLOCK_SIZE {
        BLOCK_SIZE
    } else {
        v as i32
    }
}

pub fn at_least_block(v: u16) -> (r: i32)
    ensures
        r == block_dim(v),
        BLOCK_SIZE <= r <= 0xFFFF,
{
    if (v as i32) < BLOCK_SIZE {
        BLOCK_SIZE
    } else {
        v as i32
    }
}

/// The bounding box `(x, y, max(w, 16), max(h, 16))` of a record.
pub open spec fn record_box(item: JnObject) -> Rect {
    Rect { x: item.x as i32, y: item.y as i32, w: block_dim(item.width), h: block_dim(item.height) }
}

pub(crate) fn record_box_exec(item: &JnObject) -> (r: Rect)
    ensures
        r == record_box(*item),
{
    Rect::new(item.x as i32, item.y as i32, at_least_block(item.width), at_least_block(item.height))
}


/// The save record of an object held as a box: the origin at the box's
/// position while it is present.
pub open spec fn box_snapshot(present: bool, bbox: Rect, origin: JnObject) -> Option<JnObject> {
    if present { Some(JnObject { x: bbox.x as u16, y: bbox.y as u16, ..origin }) } else { None }
}

fn box_snapshot_exec(present: bool, bbox: Rect, origin: JnObject) -> (r: Option<JnObject>)
    ensures
        r == box_snapshot(present, bbox, origin),
{
    if !present {
        return None;
    }
    let mut obj = origin;
    obj.set_position(bbox.x as u16, bbox.y as u16);
    Some(obj)
}

/// Message adding `item` to the inventory.
pub open spec fn add_item_message(item: InventoryObject) -> Message {
    Message {
        msg_type: MessageType::InventoryItem,
        payload: MessagePayload::InventoryItem { add: true, item },
    }
}

/// Message firing trigger `link`.
pub open spec fn trigger_message(link: i32) -> Message {
    Message { msg_type: MessageType::Trigger, payload: MessagePayload::Count(link) }
}

// ---------------------------------------------------------------------------
// Stub
// ---------------------------------------------------------------------------

/// The set of object types a missing-entity warning was already given for.
#[derive(Debug)]
pub struct WarnedTypes {
    seen: std::collections::HashSet<u8>,
}

impl WarnedTypes {
    /// Types already warned about.
    pub closed spec fn spec_set(&self) -> Set<u8> {
        self.seen@
    }

    /// No type warned about yet.
    pub fn new() -> (r: WarnedTypes)
        ensures
            r.spec_set() == Set::<u8>::empty(),
    {
        WarnedTypes { seen: std::collections::HashSet::new() }
    }
}

/// Inert stand-in for an object type without a registered entity.
#[derive(Clone, Copy, Debug)]
pub struct StubObjectEntity {
    pub type_id: u8,
    pub x: i32,
    pub y: i32,
    /// The record the stub stands for, saved back verbatim.
    pub origin: JnObject,
}

impl StubObjectEntity {
    /// A stub for `type_id` at the record's position.
    pub fn new(type_id: u8, item: &JnObject) -> (r: StubObjectEntity)
        ensures
            r == (StubObjectEntity { type_id, x: item.x as i32, y: item.y as i32, origin: *item }),
    {
        StubObjectEntity { type_id, x: item.x as i32, y: item.y as i32, origin: *item }
    }

    /// A stub for a type that is stubbed on purpose (no warning is due).
    pub fn silent(type_id: u8, item: &JnObject) -> (r: StubObjectEntity)
        ensures
            r == (StubObjectEntity { type_id, x: item.x as i32, y: item.y as i32, origin: *item }),
    {
        StubObjectEntity { type_id, x: item.x as i32, y: item.y as i32, origin: *item }
    }

    /// The save record: the stubbed record at the stub's position.
    pub open spec fn spec_snapshot(&self) -> Option<JnObject> {
        Some(JnObject { x: self.x as u16, y: self.y as u16, ..self.origin })
    }

    pub fn snapshot(&self) -> (r: Option<JnObject>)
        ensures
            r == self.spec_snapshot(),
    {
        let mut obj = self.origin;
        obj.set_position(self.x as u16, self.y as u16);
        Some(obj)
    }

    /// Records that `type_id` was warned about; `true` exactly the first
    /// time a type is recorded.
    pub fn record_warning(warned: &mut WarnedTypes, type_id: u8) -> (r: bool)
        ensures
            r == !old(warned).spec_set().contains(type_id),
            final(warned).spec_set() == old(warned).spec_set().insert(type_id),
    {
        broadcast use vstd::std_specs::hash::group_hash_axioms;
        warned.seen.insert(type_id)
    }

    /// The stubbed type id.
    pub fn type_id(&self) -> (r: u8)
        ensures
            r == self.type_id,
    {
        self.type_id
    }

    /// A zero-sized box at the stub's position.
    pub fn bounding_box(&self) -> (r: Rect)
        ensures
            r == (Rect { x: self.x, y: self.y, w: 0, h: 0 }),
    {
        Rect::new(self.x, self.y, 0, 0)
    }

    /// Stubs never draw.
    pub fn draw(&self) -> (r: Option<RenderCommand>)
        ensures
            r is None,
    {
        None
    }
}

// ---------------------------------------------------------------------------
// Switches and triggers
// ---------------------------------------------------------------------------

/// Switch: touching it fires the trigger with its link id (the record's
/// counter).
#[derive(Clone, Copy, Debug)]
pub struct SwitchEntity {
    pub bbox: Rect,
    pub link_id: i32,
    /// The record the object was built from.
    pub origin: JnObject,
}

impl SwitchEntity {
    /// The save record: the origin at the object's position.
    pub open spec fn spec_snapshot(&self) -> Option<JnObject> {
        box_snapshot(true, self.bbox, self.origin)
    }

    pub fn snapshot(&self) -> (r: Option<JnObject>)
        ensures
            r == self.spec_snapshot(),
    {
        box_snapshot_exec(true, self.bbox, self.origin)
    }

    /// The switch a record describes: its box, and the record it keeps.
    pub open spec fn spec_new(item: JnObject) -> SwitchEntity {
        SwitchEntity { bbox: record_box(item), link_id: item.counter as i32, origin: item }
    }

    pub fn new(item: &JnObject) -> (r: SwitchEntity)
        ensures
            r == Self::spec_new(*item),
    {
        SwitchEntity { bbox: record_box_exec(item), link_id: item.counter as i32, origin: *item }
    }

    /// The trigger id this switch fires.
    pub fn link_id(&self) -> (r: i32)
        ensures
            r == self.link_id,
    {
        self.link_id
    }

    /// Touch: one `Trigger` message carrying the link id.
    pub fn on_touch(&mut self) -> (r: Vec<Message>)
        ensures
            r@ == seq![trigger_message(old(self).link_id)],
            *final(self) == *old(self),
    {
        let mut v = Vec::new();
        v.push(Message { msg_type: MessageType::Trigger, payload: MessagePayload::Count(self.link_id) });
        v
    }

    pub fn bounding_box(&self) -> (r: Rect)
        ensures
            r == self.bbox,
    {
        self.bbox
    }
}

/// Invisible trigger zone: every touch fires the trigger with the record's
/// counter.
#[derive(Clone, Copy, Debug)]
pub struct TouchTriggerEntity {
    pub bbox: Rect,
    pub counter: i16,
    /// The record the object was built from.
    pub origin: JnObject,
}

impl TouchTriggerEntity {
    /// The save record: the origin at the object's position.
    pub open spec fn spec_snapshot(&self) -> Option<JnObject> {
        box_snapshot(true, self.bbox, self.origin)
    }

    pub fn snapshot(&self) -> (r: Option<JnObject>)
        ensures
            r == self.spec_snapshot(),
    {
        box_snapshot_exec(true, self.bbox, self.origin)
    }

    /// The trigger zone a record describes: its box, and the record it keeps.
    pub open spec fn spec_new(item: JnObject) -> TouchTriggerEntity {
        TouchTriggerEntity { bbox: record_box(item), counter: item.counter, origin: item }
    }

    pub fn new(item: &JnObject) -> (r: TouchTriggerEntity)
        ensures
            r == Self::spec_new(*item),
    {
        TouchTriggerEntity { bbox: record_box_exec(item), counter: item.counter, origin: *item }
    }

    /// The trigger id this zone fires.
    pub fn counter(&self) -> (r: i16)
        ensures
            r == self.counter,
    {
        self.counter
    }

    /// Touch: one `Trigger` message carrying the counter; the zone stays.
    pub fn on_touch(&mut self) -> (r: Vec<Message>)
        ensures
            r@ == seq![trigger_message(old(self).counter as i32)],
            *final(self) == *old(self),
    {
        let mut v = Vec::new();
        v.push(Message { msg_type: MessageType::Trigger, payload: MessagePayload::Count(self.counter as i32) });
        v
    }

    pub fn bounding_box(&self) -> (r: Rect)
        ensures
            r == self.bbox,
    {
        self.bbox
    }

    /// The zone is never removed: it fires again on every touch.
    pub fn should_remove(&self) -> (r: bool)
        ensures
            !r,
    {
        false
    }
}

/// Collapsing ceiling: touching it restarts the level.
#[derive(Clone, Copy, Debug)]
pub struct CollapsingCeilingEntity {
    pub bbox: Rect,
    /// The record the object was built from.
    pub origin: JnObject,
}

impl CollapsingCeilingEntity {
    /// The save record: the origin at the object's position.
    pub open spec fn spec_snapshot(&self) -> Option<JnObject> {
        box_snapshot(true, self.bbox, self.origin)
    }

    pub fn snapshot(&self) -> (r: Option<JnObject>)
        ensures
            r == self.spec_snapshot(),
    {
        box_snapshot_exec(true, self.bbox, self.origin)
    }

    /// The collapsing ceiling a record describes: its box, and the record it keeps.
    pub open spec fn spec_new(item: JnObject) -> CollapsingCeilingEntity {
        CollapsingCeilingEntity { bbox: record_box(item), origin: item }
    }

    pub fn new(item: &JnObject) -> (r: CollapsingCeilingEntity)
        ensures
            r == Self::spec_new(*item),
    {
        CollapsingCeilingEntity { bbox: record_box_exec(item), origin: *item }
    }

    /// Touch: one level-restart request.
    pub fn on_touch(&mut self) -> (r: Vec<Message>)
        ensures
            r@ == seq![Message { msg_type: MessageType::DieRestartLevel, payload: MessagePayload::Empty }],
            *final(self) == *old(self),
    {
        let mut v = Vec::new();
        v.push(Message { msg_type: MessageType::DieRestartLevel, payload: MessagePayload::Empty });
        v
    }

    pub fn bounding_box(&self) -> (r: Rect)
        ensures
            r == self.bbox,
    {
        self.bbox
    }
}

// ---------------------------------------------------------------------------
// Pickups
// ---------------------------------------------------------------------------

/// Knife lying in the level: touching it adds a knife to the inventory once.
#[derive(Clone, Copy, Debug)]
pub struct KnifeEntity {
    pub bbox: Rect,
    pub removed: bool,
    /// The record the object was built from.
    pub origin: JnObject,
}

pub const KNIFE_TILESET: u8 = 14;

pub const KNIFE_TILE: u16 = 13;

impl KnifeEntity {
    /// The save record: the origin at the object's position while present.
    pub open spec fn spec_snapshot(&self) -> Option<JnObject> {
        box_snapshot(!self.removed, self.bbox, self.origin)
    }

    pub fn snapshot(&self) -> (r: Option<JnObject>)
        ensures
            r == self.spec_snapshot(),
    {
        box_snapshot_exec(!self.removed, self.bbox, self.origin)
    }

    /// The knife a record describes: its box, and the record it keeps.
    pub open spec fn spec_new(item: JnObject) -> KnifeEntity {
        KnifeEntity { bbox: record_box(item), removed: false, origin: item }
    }

    pub fn new(item: &JnObject) -> (r: KnifeEntity)
        ensures
            r == Self::spec_new(*item),
    {
        KnifeEntity { bbox: record_box_exec(item), removed: false, origin: *item }
    }

    /// The knife tile while present.
    pub fn draw(&self) -> (r: Option<RenderCommand>)
        ensures
            r == (if self.removed {
                None
            } else {
                Some(RenderCommand::Blit { tileset: KNIFE_TILESET, tile: KNIFE_TILE, x: self.bbox.x, y: self.bbox.y, opaque: false, clip: None })
            }),
    {
        if self.removed {
            return None;
        }
        Some(RenderCommand::Blit { tileset: KNIFE_TILESET, tile: KNIFE_TILE, x: self.bbox.x, y: self.bbox.y, opaque: false, clip: None })
    }

    /// Touch: the first one adds a knife and removes the pickup; later
    /// touches do nothing.
    pub fn on_touch(&mut self) -> (r: Vec<Message>)
        ensures
            r@ == (if old(self).removed { Seq::empty() } else { seq![add_item_message(InventoryObject::Knife)] }),
            final(self).removed,
            final(self).bbox == old(self).bbox,
    {
        let mut v = Vec::new();
        if self.removed {
            return v;
        }
        v.push(Message {
            msg_type: MessageType::InventoryItem,
            payload: MessagePayload::InventoryItem { add: true, item: InventoryObject::Knife },
        });
        self.removed = true;
        v
    }

    pub fn should_remove(&self) -> (r: bool)
        ensures
            r == self.removed,
    {
        self.removed
    }

    pub fn bounding_box(&self) -> (r: Rect)
        ensures
            r == self.bbox,
    {
        self.bbox
    }
}

pub const APPLE_TILESET: u8 = 9;

pub const APPLE_FRAME_COUNT: u16 = 4;

/// Apple: an animated gem pickup.
#[derive(Clone, Copy, Debug)]
pub struct AppleEntity {
    pub bbox: Rect,
    pub frame: u16,
    pub removed: bool,
    /// The record the object was built from.
    pub origin: JnObject,
}

impl AppleEntity {
    /// The save record: the origin at the object's position while present.
    pub open spec fn spec_snapshot(&self) -> Option<JnObject> {
        box_snapshot(!self.removed, self.bbox, self.origin)
    }

    pub fn snapshot(&self) -> (r: Option<JnObject>)
        ensures
            r == self.spec_snapshot(),
    {
        box_snapshot_exec(!self.removed, self.bbox, self.origin)
    }

    /// The apple a record describes: its box, and the record it keeps.
    pub open spec fn spec_new(item: JnObject) -> AppleEntity {
        AppleEntity { bbox: record_box(item), frame: 0, removed: false, origin: item }
    }

    pub fn new(item: &JnObject) -> (r: AppleEntity)
        ensures
            r == Self::spec_new(*item),
    {
        AppleEntity { bbox: record_box_exec(item), frame: 0, removed: false, origin: *item }
    }

    /// Advances the animation counter (wrapping).
    pub fn update(&mut self)
        ensures
            final(self).frame == (if old(self).frame == u16::MAX { 0 } else { (old(self).frame + 1) as u16 }),
            final(self).bbox == old(self).bbox,
            final(self).removed == old(self).removed,
    {
        self.frame = self.frame.wrapping_add(1);
    }

    /// Tile `(frame / 2) % 4` of the apple tileset.
    pub fn draw(&self) -> (r: Option<RenderCommand>)
        ensures
            r == Some(RenderCommand::Blit {
                tileset: APPLE_TILESET,
                tile: ((self.frame / 2) % APPLE_FRAME_COUNT) as u16,
                x: self.bbox.x,
                y: self.bbox.y,
                opaque: false,
                clip: None,
            }),
    {
        let tile = (self.frame / 2) % APPLE_FRAME_COUNT;
        Some(RenderCommand::Blit { tileset: APPLE_TILESET, tile, x: self.bbox.x, y: self.bbox.y, opaque: false, clip: None })
    }

    /// Touch: the first one adds a gem and removes the apple.
    pub fn on_touch(&mut self) -> (r: Vec<Message>)
        ensures
            r@ == (if old(self).removed { Seq::empty() } else { seq![add_item_message(InventoryObject::Gem)] }),
            final(self).removed,
            final(self).bbox == old(self).bbox,
            final(self).frame == old(self).frame,
    {
        let mut v = Vec::new();
        if self.removed {
            return v;
        }
        v.push(Message {
            msg_type: MessageType::InventoryItem,
            payload: MessagePayload::InventoryItem { add: true, item: InventoryObject::Gem },
        });
        self.removed = true;
        v
    }

    pub fn bounding_box(&self) -> (r: Rect)
        ensures
            r == self.bbox,
    {
        self.bbox
    }

    pub fn should_remove(&self) -> (r: bool)
        ensures
            r == self.removed,
    {
        self.removed
    }
}

// ---------------------------------------------------------------------------
// Decorations
// ---------------------------------------------------------------------------

/// Bubbles decoration: inert.
#[derive(Clone, Copy, Debug)]
pub struct BubblesEntity {
    pub bbox: Rect,
    /// The record the object was built from.
    pub origin: JnObject,
}

impl BubblesEntity {
    /// The save record: the origin at the object's position.
    pub open spec fn spec_snapshot(&self) -> Option<JnObject> {
        box_snapshot(true, self.bbox, self.origin)
    }

    pub fn snapshot(&self) -> (r: Option<JnObject>)
        ensures
            r == self.spec_snapshot(),
    {
        box_snapshot_exec(true, self.bbox, self.origin)
    }

    /// The bubbles a record describes: its box, and the record it keeps.
    pub open spec fn spec_new(item: JnObject) -> BubblesEntity {
        BubblesEntity { bbox: record_box(item), origin: item }
    }

    pub fn new(item: &JnObject) -> (r: BubblesEntity)
        ensures
            r == Self::spec_new(*item),
    {
        BubblesEntity { bbox: record_box_exec(item), origin: *item }
    }

    pub fn bounding_box(&self) -> (r: Rect)
        ensures
            r == self.bbox,
    {
        self.bbox
    }
}

/// Firebird-form player stand-in: inert, but reports itself as the player.
#[derive(Clone, Copy, Debug)]
pub struct FirebirdPlayerEntity {
    pub bbox: Rect,
    /// The record the object was built from.
    pub origin: JnObject,
}

impl FirebirdPlayerEntity {
    /// The save record: the origin at the object's position.
    pub open spec fn spec_snapshot(&self) -> Option<JnObject> {
        box_snapshot(true, self.bbox, self.origin)
    }

    pub fn snapshot(&self) -> (r: Option<JnObject>)
        ensures
            r == self.spec_snapshot(),
    {
        box_snapshot_exec(true, self.bbox, self.origin)
    }

    /// The firebird form a record describes: its box, and the record it keeps.
    pub open spec fn spec_new(item: JnObject) -> FirebirdPlayerEntity {
        FirebirdPlayerEntity { bbox: record_box(item), origin: item }
    }

    pub fn new(item: &JnObject) -> (r: FirebirdPlayerEntity)
        ensures
            r == Self::spec_new(*item),
    {
        FirebirdPlayerEntity { bbox: record_box_exec(item), origin: *item }
    }

    pub fn is_player(&self) -> (r: bool)
        ensures
            r,
    {
        true
    }

    pub fn bounding_box(&self) -> (r: Rect)
        ensures
            r == self.bbox,
    {
        self.bbox
    }
}

/// Firebird projectile: moves by its velocity every tick.
#[derive(Clone, Copy, Debug)]
pub struct FirebirdWeaponEntity {
    pub bbox: Rect,
    pub xd: i32,
    pub yd: i32,
    /// The record the projectile was built from.
    pub origin: JnObject,
}

impl FirebirdWeaponEntity {
    /// The firebird shot a record describes: its box and speeds, and the record it keeps.
    pub open spec fn spec_new(item: JnObject) -> FirebirdWeaponEntity {
        FirebirdWeaponEntity { bbox: record_box(item), xd: item.x_speed as i32, yd: item.y_speed as i32, origin: item }
    }

    pub fn new(item: &JnObject) -> (r: FirebirdWeaponEntity)
        ensures
            r == Self::spec_new(*item),
    {
        FirebirdWeaponEntity { bbox: record_box_exec(item), xd: item.x_speed as i32, yd: item.y_speed as i32, origin: *item }
    }

    /// The save record: the origin with the projectile's position and
    /// velocity.
    pub open spec fn spec_snapshot(&self) -> Option<JnObject> {
        Some(JnObject { x: self.bbox.x as u16, y: self.bbox.y as u16, x_speed: self.xd as i16, y_speed: self.yd as i16, ..self.origin })
    }

    pub fn snapshot(&self) -> (r: Option<JnObject>)
        ensures
            r == self.spec_snapshot(),
    {
        let mut obj = self.origin;
        obj.set_position(self.bbox.x as u16, self.bbox.y as u16);
        obj.set_speed(self.xd as i16, self.yd as i16);
        Some(obj)
    }

    pub fn bounding_box(&self) -> (r: Rect)
        ensures
            r == self.bbox,
    {
        self.bbox
    }

    /// One tick: position advances by the velocity.
    pub fn update(&mut self)
        requires
            i32::MIN <= old(self).bbox.x + old(self).xd <= i32::MAX,
            i32::MIN <= old(self).bbox.y + old(self).yd <= i32::MAX,
        ensures
            final(self).bbox == (Rect { x: (old(self).bbox.x + old(self).xd) as i32, y: (old(self).bbox.y + old(self).yd) as i32, ..old(self).bbox }),
            final(self).xd == old(self).xd,
            final(self).yd == old(self).yd,
    {
        self.bbox.x = self.bbox.x + self.xd;
        self.bbox.y = self.bbox.y + self.yd;
    }
}

/// Score popup: drifts for `counter` ticks, horizontal speed decaying toward
/// zero and vertical speed decreasing by one per tick, then expires.
#[derive(Clone, Copy, Debug)]
pub struct PointEntity {
    pub bbox: Rect,
    pub x_speed: i32,
    pub y_speed: i32,
    pub counter: i32,
    /// The record the popup was built from.
    pub origin: JnObject,
}

impl PointEntity {
    /// The score popup a record describes: its box, speeds and remaining ticks (none below zero), and the record it keeps.
    pub open spec fn spec_new(item: JnObject) -> PointEntity {
        PointEntity { bbox: record_box(item), x_speed: item.x_speed as i32, y_speed: item.y_speed as i32, counter: if item.counter < 0 { 0 } else { item.counter as i32 }, origin: item }
    }

    pub fn new(item: &JnObject) -> (r: PointEntity)
        ensures
            r == Self::spec_new(*item),
    {
        PointEntity {
            bbox: record_box_exec(item),
            x_speed: item.x_speed as i32,
            y_speed: item.y_speed as i32,
            counter: if item.counter < 0 {
                0
            } else {
                item.counter as i32
            },
            origin: *item,
        }
    }

    /// The save record of a popup still showing: the origin with its
    /// position, speeds and remaining lifetime.
    pub open spec fn spec_snapshot(&self) -> Option<JnObject> {
        if self.counter <= 0 {
            None
        } else {
            Some(JnObject {
                x: self.bbox.x as u16,
                y: self.bbox.y as u16,
                x_speed: self.x_speed as i16,
                y_speed: self.y_speed as i16,
                counter: self.counter as i16,
                ..self.origin
            })
        }
    }

    pub fn snapshot(&self) -> (r: Option<JnObject>)
        ensures
            r == self.spec_snapshot(),
    {
        if self.counter <= 0 {
            return None;
        }
        let mut obj = self.origin;
        obj.set_position(self.bbox.x as u16, self.bbox.y as u16);
        obj.set_speed(self.x_speed as i16, self.y_speed as i16);
        obj.set_counter(self.counter as i16);
        Some(obj)
    }

    pub fn bounding_box(&self) -> (r: Rect)
        ensures
            r == self.bbox,
    {
        self.bbox
    }

    /// One tick of the drift (nothing once expired).
    pub fn update(&mut self)
        requires
            i32::MIN <= old(self).bbox.x + old(self).x_speed <= i32::MAX,
            i32::MIN <= old(self).bbox.y + old(self).y_speed <= i32::MAX,
            old(self).y_speed > i32::MIN,
        ensures
            old(self).counter <= 0 ==> *final(self) == *old(self),
            old(self).counter > 0 ==> {
                &&& final(self).counter == old(self).counter - 1
                &&& final(self).bbox == (Rect { x: (old(self).bbox.x + old(self).x_speed) as i32, y: (old(self).bbox.y + old(self).y_speed) as i32, ..old(self).bbox })
                &&& final(self).x_speed == (if old(self).x_speed > 0 { old(self).x_speed - 1 } else if old(self).x_speed < 0 { old(self).x_speed + 1 } else { 0 })
                &&& final(self).y_speed == old(self).y_speed - 1
            },
    {
        if self.counter <= 0 {
            return;
        }
        self.counter = self.counter - 1;
        self.bbox.x = self.bbox.x + self.x_speed;
        self.bbox.y = self.bbox.y + self.y_speed;
        if self.x_speed > 0 {
            self.x_speed = self.x_speed - 1;
        } else if self.x_speed < 0 {
            self.x_speed = self.x_speed + 1;
        }
        self.y_speed = self.y_speed - 1;
    }

    /// Expired once the counter reaches zero.
    pub fn should_remove(&self) -> (r: bool)
        ensures
            r == (self.counter <= 0),
    {
        self.counter <= 0
    }
}

// ---------------------------------------------------------------------------
// Scatter particle
// ---------------------------------------------------------------------------

pub const PARTICLE_GRAVITY_PER_TICK: i32 = 1;

pub const PARTICLE_Y_SPEED_MAX: i32 = 12;

pub const PARTICLE_COUNTER_DIE: i32 = 40;

pub const PARTICLE_TILESET: u8 = 46;

pub const PARTICLE_FRAME_COUNT: i32 = 5;

/// Particle frame for an age: one frame per 8 ticks, counting down the
/// tiles 12, 9, 6, 3, 0 and holding the last.
pub open spec fn spec_tile_for_counter(counter: i32) -> u16 {
    let c: int = if counter < 0 { 0 } else { counter as int };
    let bucket = c / 8;
    if bucket == 0 {
        12
    } else if bucket == 1 {
        9
    } else if bucket == 2 {
        6
    } else if bucket == 3 {
        3
    } else {
        0
    }
}

pub fn tile_for_counter(counter: i32) -> (r: u16)
    ensures
        r == spec_tile_for_counter(counter),
{
    let c = if counter < 0 {
        0
    } else {
        counter
    };
    let mut bucket = c / 8;
    if bucket > PARTICLE_FRAME_COUNT - 1 {
        bucket = PARTICLE_FRAME_COUNT - 1;
    }
    if bucket == 0 {
        12
    } else if bucket == 1 {
        9
    } else if bucket == 2 {
        6
    } else if bucket == 3 {
        3
    } else {
        0
    }
}

/// The box overlaps a solid cell.
pub fn overlaps_solid(g: &BackgroundGrid, x: i32, y: i32, w: i32, h: i32) -> (r: bool)
    requires
        box_ok(x as int, y as int, w as int, h as int),
    ensures
        r == spec_collides_horizontal(g, x as int, y as int, w as int, h as int),
{
    collides_horizontal(g, x, y, w, h)
}

/// Debris particle: flies ballistically, dies on leaving the map, hitting a
/// solid cell or after [`PARTICLE_COUNTER_DIE`] ticks.
#[derive(Clone, Copy, Debug)]
pub struct ScatterParticleEntity {
    pub x: i32,
    pub y: i32,
    pub w: i32,
    pub h: i32,
    pub xd: i32,
    pub yd: i32,
    pub counter: i32,
    pub removed: bool,
}

/// Width of the level map in pixels.
pub open spec fn map_width_px() -> int {
    MAP_WIDTH_CELLS as int * BLOCK_SIZE as int
}

/// Height of the level map in pixels.
pub open spec fn map_height_px() -> int {
    MAP_HEIGHT_CELLS as int * BLOCK_SIZE as int
}

impl ScatterParticleEntity {
    pub fn new(item: &JnObject) -> (r: ScatterParticleEntity)
        ensures
            r == (ScatterParticleEntity { x: item.x as i32, y: item.y as i32, w: BLOCK_SIZE, h: BLOCK_SIZE, xd: item.x_speed as i32, yd: item.y_speed as i32, counter: 0, removed: false }),
    {
        ScatterParticleEntity { x: item.x as i32, y: item.y as i32, w: BLOCK_SIZE, h: BLOCK_SIZE, xd: item.x_speed as i32, yd: item.y_speed as i32, counter: 0, removed: false }
    }

    pub fn with_velocity(x: i32, y: i32, xd: i32, yd: i32) -> (r: ScatterParticleEntity)
        ensures
            r == (ScatterParticleEntity { x, y, w: BLOCK_SIZE, h: BLOCK_SIZE, xd, yd, counter: 0, removed: false }),
    {
        ScatterParticleEntity { x, y, w: BLOCK_SIZE, h: BLOCK_SIZE, xd, yd, counter: 0, removed: false }
    }

    /// Bounds keeping a tick free of overflow.
    pub open spec fn wf(&self) -> bool {
        &&& -0x1000_0000 <= self.x <= 0x1000_0000
        &&& -0x1000_0000 <= self.y <= 0x1000_0000
        &&& -0x1_0000 <= self.xd <= 0x1_0000
        &&& -0x1_0000 <= self.yd <= 0x1_0000
        &&& self.w == BLOCK_SIZE
        &&& self.h == BLOCK_SIZE
        &&& 0 <= self.counter < i32::MAX
    }

    /// One tick: the particle dies when the next position leaves the map or
    /// overlaps a solid cell; otherwise it moves, gravity accelerates it (up
    /// to the speed cap) and it ages, dying at [`PARTICLE_COUNTER_DIE`].
    pub fn update(&mut self, g: &BackgroundGrid)
        requires
            old(self).wf(),
        ensures
            ({
                let o = *old(self);
                let nx = o.x + o.xd;
                let ny = o.y + o.yd;
                if o.removed {
                    *final(self) == o
                } else if nx < 0 || nx + o.w > map_width_px() || ny < 0 || ny + o.h > map_height_px()
                    || spec_collides_horizontal(g, nx, ny, o.w as int, o.h as int) {
                    *final(self) == (ScatterParticleEntity { removed: true, ..o })
                } else {
                    let c = o.counter + 1;
                    *final(self) == (ScatterParticleEntity {
                        x: nx as i32,
                        y: ny as i32,
                        yd: (if o.yd < PARTICLE_Y_SPEED_MAX { o.yd + PARTICLE_GRAVITY_PER_TICK } else { o.yd as int }) as i32,
                        counter: c as i32,
                        removed: c >= PARTICLE_COUNTER_DIE,
                        ..o
                    })
                }
            }),
    {
        if self.removed {
            return;
        }
        let nx = self.x + self.xd;
        let ny = self.y + self.yd;
        let map_w = (MAP_WIDTH_CELLS as i32) * BLOCK_SIZE;
        let map_h = (MAP_HEIGHT_CELLS as i32) * BLOCK_SIZE;
        if nx < 0 || nx + self.w > map_w || ny < 0 || ny + self.h > map_h {
            self.removed = true;
            return;
        }
        if overlaps_solid(g, nx, ny, self.w, self.h) {
            self.removed = true;
            return;
        }
        self.x = nx;
        self.y = ny;
        if self.yd < PARTICLE_Y_SPEED_MAX {
            self.yd = self.yd + PARTICLE_GRAVITY_PER_TICK;
        }
        self.counter = self.counter + 1;
        if self.counter >= PARTICLE_COUNTER_DIE {
            self.removed = true;
        }
    }

    /// The frame for the particle's age, while alive.
    pub fn draw(&self) -> (r: Option<RenderCommand>)
        ensures
            r == (if self.removed {
                None
            } else {
                Some(RenderCommand::Blit { tileset: PARTICLE_TILESET, tile: spec_tile_for_counter(self.counter), x: self.x, y: self.y, opaque: false, clip: None })
            }),
    {
        if self.removed {
            return None;
        }
        Some(RenderCommand::Blit { tileset: PARTICLE_TILESET, tile: tile_for_counter(self.counter), x: self.x, y: self.y, opaque: false, clip: None })
    }

    /// A weapon hit removes the particle.
    pub fn on_kill(&mut self, damage: i32, death_kind: DeathKind)
        ensures
            *final(self) == (ScatterParticleEntity { removed: true, ..*old(self) }),
    {
        self.removed = true;
    }

    pub fn should_remove(&self) -> (r: bool)
        ensures
            r == self.removed,
    {
        self.removed
    }

    pub fn always_active(&self) -> (r: bool)
        ensures
            r,
    {
        true
    }
}

} // verus!
