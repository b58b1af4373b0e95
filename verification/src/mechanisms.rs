//! Level mechanisms: the moving lift that carries the player, the locked
//! door that opens for its key, the wall that a switch toggles, the short
//! hit flash and the large letter tile.

use vstd::prelude::*;

use crate::enemies::pos_ok;
use crate::items::{at_least_block, block_dim};
use crate::record::JnObject;
use crate::world::{DeathKind, InventoryObject, Message, MessagePayload, MessageType, Rect, RenderCommand, RuntimeState};

verus! {

/// A moving platform.
#[derive(Clone, Copy, Debug)]
pub struct LiftEntity {
    pub x: i32,
    pub y: i32,
    pub w: i32,
    pub h: i32,
    pub xd: i32,
    pub yd: i32,
    /// The player's box overlapped the lift when last seen.
    pub player_on_lift: bool,
    pub origin: JnObject,
}

impl LiftEntity {
    pub open spec fn wf(&self) -> bool {
        pos_ok(self.x as int) && pos_ok(self.y as int) && -0x8000 <= self.xd <= 0x8000 && -0x8000 <= self.yd <= 0x8000
    }

    pub open spec fn spec_new(item: JnObject) -> LiftEntity {
        LiftEntity {
            x: item.x as i32,
            y: item.y as i32,
            w: block_dim(item.width),
            h: block_dim(item.height),
            xd: item.x_speed as i32,
            yd: item.y_speed as i32,
            player_on_lift: false,
            origin: item,
        }
    }

    /// A lift at the record's position moving at its speeds.
    pub fn new(item: &JnObject) -> (r: LiftEntity)
        ensures
            r == Self::spec_new(*item),
            r.wf(),
    {
        LiftEntity {
            x: item.x as i32,
            y: item.y as i32,
            w: at_least_block(item.width),
            h: at_least_block(item.height),
            xd: item.x_speed as i32,
            yd: item.y_speed as i32,
            player_on_lift: false,
            origin: *item,
        }
    }

    /// One tick: a riding player is moved along by the lift's speeds, and
    /// the lift moves by them.
    pub fn update(&mut self) -> (msgs: Vec<Message>)
        requires
            old(self).wf(),
        ensures
            msgs@ == (if old(self).player_on_lift {
                seq![Message { msg_type: MessageType::PlayerMove, payload: MessagePayload::Move { dx: old(self).xd, dy: old(self).yd } }]
            } else {
                Seq::empty()
            }),
            *final(self) == (LiftEntity { x: (old(self).x + old(self).xd) as i32, y: (old(self).y + old(self).yd) as i32, ..*old(self) }),
    {
        let mut msgs: Vec<Message> = Vec::new();
        if self.player_on_lift {
            msgs.push(Message { msg_type: MessageType::PlayerMove, payload: MessagePayload::Move { dx: self.xd, dy: self.yd } });
        }
        self.x = self.x + self.xd;
        self.y = self.y + self.yd;
        proof {
            if old(self).player_on_lift {
                assert(msgs@ =~= seq![Message { msg_type: MessageType::PlayerMove, payload: MessagePayload::Move { dx: old(self).xd, dy: old(self).yd } }]);
            } else {
                assert(msgs@ =~= Seq::<Message>::empty());
            }
        }
        msgs
    }

    /// Lifts are not drawn.
    pub fn draw(&self) -> (r: Option<RenderCommand>)
        ensures
            r is None,
    {
        None
    }

    pub fn on_touch(&mut self)
        ensures
            *final(self) == *old(self),
    {
    }

    pub fn on_kill(&mut self, damage: i32, death_kind: DeathKind)
        ensures
            *final(self) == *old(self),
    {
    }

    pub fn bounding_box(&self) -> (r: Rect)
        ensures
            r == (Rect { x: self.x, y: self.y, w: self.w, h: self.h }),
    {
        Rect::new(self.x, self.y, self.w, self.h)
    }

    /// The save record: the origin with the lift's position and speeds.
    pub open spec fn spec_snapshot(&self) -> Option<JnObject> {
        Some(JnObject { x: self.x as u16, y: self.y as u16, x_speed: self.xd as i16, y_speed: self.yd as i16, ..self.origin })
    }

    pub fn snapshot(&self) -> (r: Option<JnObject>)
        ensures
            r == self.spec_snapshot(),
    {
        let mut obj = self.origin;
        obj.set_position(self.x as u16, self.y as u16);
        obj.set_speed(self.xd as i16, self.yd as i16);
        Some(obj)
    }

    /// The player rides the lift when its box overlaps the lift's.
    pub fn observe_player(&mut self, player_bbox: Rect)
        ensures
            *final(self) == (LiftEntity {
                player_on_lift: player_bbox.spec_intersects(Rect { x: old(self).x, y: old(self).y, w: old(self).w, h: old(self).h }),
                ..*old(self)
            }),
    {
        let bb = Rect::new(self.x, self.y, self.w, self.h);
        self.player_on_lift = player_bbox.intersects(&bb);
    }
}

/// The key a door's record asks for: its `info1` names a knife (2), a gem
/// (3) or a blade (8); anything else asks for the red key.
pub open spec fn door_key(info1: i16) -> InventoryObject {
    if info1 == 2 {
        InventoryObject::Knife
    } else if info1 == 3 {
        InventoryObject::Gem
    } else if info1 == 8 {
        InventoryObject::Blade
    } else {
        InventoryObject::RedKey
    }
}

pub fn resolve_door_key(info1: i16) -> (r: InventoryObject)
    ensures
        r == door_key(info1),
{
    if info1 == 2 {
        InventoryObject::Knife
    } else if info1 == 3 {
        InventoryObject::Gem
    } else if info1 == 8 {
        InventoryObject::Blade
    } else {
        InventoryObject::RedKey
    }
}

/// A door that opens for the player carrying its key.
#[derive(Clone, Copy, Debug)]
pub struct LockedDoorEntity {
    pub x: i32,
    pub y: i32,
    pub w: i32,
    pub h: i32,
    pub required_key: InventoryObject,
    pub removed: bool,
    /// The record the door was built from.
    pub origin: JnObject,
}

impl LockedDoorEntity {
    pub open spec fn spec_new(item: JnObject) -> LockedDoorEntity {
        LockedDoorEntity {
            x: item.x as i32,
            y: item.y as i32,
            w: block_dim(item.width),
            h: block_dim(item.height),
            required_key: door_key(item.info1),
            removed: false,
            origin: item,
        }
    }

    pub fn new(item: &JnObject) -> (r: LockedDoorEntity)
        ensures
            r == Self::spec_new(*item),
    {
        LockedDoorEntity {
            x: item.x as i32,
            y: item.y as i32,
            w: at_least_block(item.width),
            h: at_least_block(item.height),
            required_key: resolve_door_key(item.info1),
            removed: false,
            origin: *item,
        }
    }

    /// The save record of a closed door: the origin at its position; an
    /// opened door is not saved.
    pub open spec fn spec_snapshot(&self) -> Option<JnObject> {
        if self.removed { None } else { Some(JnObject { x: self.x as u16, y: self.y as u16, ..self.origin }) }
    }

    pub fn snapshot(&self) -> (r: Option<JnObject>)
        ensures
            r == self.spec_snapshot(),
    {
        if self.removed {
            return None;
        }
        let mut obj = self.origin;
        obj.set_position(self.x as u16, self.y as u16);
        Some(obj)
    }

    pub fn required_key(&self) -> (r: InventoryObject)
        ensures
            r == self.required_key,
    {
        self.required_key
    }

    /// Doors are not drawn.
    pub fn draw(&self) -> (r: Option<RenderCommand>)
        ensures
            r is None,
    {
        None
    }

    /// Touched by a player carrying the key, a closed door uses the key up
    /// and opens; otherwise nothing happens.
    pub fn on_touch(&mut self, state: &RuntimeState) -> (msgs: Vec<Message>)
        ensures
            (!old(self).removed && state.spec_has(old(self).required_key)) ==> msgs@ == seq![Message {
                msg_type: MessageType::InventoryItem,
                payload: MessagePayload::InventoryItem { add: false, item: old(self).required_key },
            }] && *final(self) == (LockedDoorEntity { removed: true, ..*old(self) }),
            !(!old(self).removed && state.spec_has(old(self).required_key)) ==> msgs@ == Seq::<Message>::empty()
                && *final(self) == *old(self),
    {
        let mut msgs: Vec<Message> = Vec::new();
        if self.removed || !state.has(self.required_key) {
            proof { assert(msgs@ =~= Seq::<Message>::empty()); }
            return msgs;
        }
        msgs.push(Message { msg_type: MessageType::InventoryItem, payload: MessagePayload::InventoryItem { add: false, item: self.required_key } });
        self.removed = true;
        proof {
            assert(msgs@ =~= seq![Message {
                msg_type: MessageType::InventoryItem,
                payload: MessagePayload::InventoryItem { add: false, item: old(self).required_key },
            }]);
        }
        msgs
    }

    pub fn on_kill(&mut self, damage: i32, death_kind: DeathKind)
        ensures
            *final(self) == *old(self),
    {
    }

    pub fn bounding_box(&self) -> (r: Rect)
        ensures
            r == (Rect { x: self.x, y: self.y, w: self.w, h: self.h }),
    {
        Rect::new(self.x, self.y, self.w, self.h)
    }

    pub fn should_remove(&self) -> (r: bool)
        ensures
            r == self.removed,
    {
        self.removed
    }
}

/// Record state of a standing toggle wall.
pub const TOGGLE_WALL_STATE_SOLID: i16 = 0;

/// Record state of an open toggle wall.
pub const TOGGLE_WALL_STATE_OPEN: i16 = 1;

/// A wall that its linked switch turns on and off.
#[derive(Clone, Copy, Debug)]
pub struct ToggleWallEntity {
    pub x: i32,
    pub y: i32,
    pub w: i32,
    pub h: i32,
    pub link_id: i32,
    pub active: bool,
    pub origin: JnObject,
}

impl ToggleWallEntity {
    /// A wall linked by its record's counter, standing unless the record
    /// saved it open.
    pub open spec fn spec_new(item: JnObject) -> ToggleWallEntity {
        ToggleWallEntity {
            x: item.x as i32,
            y: item.y as i32,
            w: block_dim(item.width),
            h: block_dim(item.height),
            link_id: item.counter as i32,
            active: item.state != TOGGLE_WALL_STATE_OPEN,
            origin: item,
        }
    }

    pub fn new(item: &JnObject) -> (r: ToggleWallEntity)
        ensures
            r == Self::spec_new(*item),
    {
        ToggleWallEntity {
            x: item.x as i32,
            y: item.y as i32,
            w: at_least_block(item.width),
            h: at_least_block(item.height),
            link_id: item.counter as i32,
            active: item.state != TOGGLE_WALL_STATE_OPEN,
            origin: *item,
        }
    }

    pub fn is_active(&self) -> (r: bool)
        ensures
            r == self.active,
    {
        self.active
    }

    pub fn draw(&self) -> (r: Option<RenderCommand>)
        ensures
            r is None,
    {
        None
    }

    pub fn bounding_box(&self) -> (r: Rect)
        ensures
            r == (Rect { x: self.x, y: self.y, w: self.w, h: self.h }),
    {
        Rect::new(self.x, self.y, self.w, self.h)
    }

    /// The save record: the origin at the wall's position with its state,
    /// solid or open.
    pub open spec fn spec_snapshot(&self) -> Option<JnObject> {
        Some(JnObject {
            x: self.x as u16,
            y: self.y as u16,
            state: if self.active { TOGGLE_WALL_STATE_SOLID } else { TOGGLE_WALL_STATE_OPEN },
            ..self.origin
        })
    }

    pub fn snapshot(&self) -> (r: Option<JnObject>)
        ensures
            r == self.spec_snapshot(),
    {
        let mut obj = self.origin;
        obj.set_position(self.x as u16, self.y as u16);
        obj.set_state(if self.active { TOGGLE_WALL_STATE_SOLID } else { TOGGLE_WALL_STATE_OPEN });
        Some(obj)
    }

    /// A trigger with the wall's link flips it.
    pub fn receive_trigger(&mut self, link_id: i32)
        ensures
            *final(self) == (if link_id == old(self).link_id {
            ToggleWallEntity { active: !old(self).active, ..*old(self) }
            } else {
            *old(self)
            }),
    {
        if link_id == self.link_id {
            self.active = !self.active;
        }
    }
}

/// Ticks a hit flash lasts.
pub const HIT_FIRE_LIFETIME: i32 = 8;

/// A short-lived hit flash (not drawn).
#[derive(Clone, Copy, Debug)]
pub struct HitFireEntity {
    pub x: i32,
    pub y: i32,
    pub w: i32,
    pub h: i32,
    pub counter: i32,
    pub origin: JnObject,
}

impl HitFireEntity {
    pub open spec fn spec_new(item: JnObject) -> HitFireEntity {
        HitFireEntity {
            x: item.x as i32,
            y: item.y as i32,
            w: block_dim(item.width),
            h: block_dim(item.height),
            counter: HIT_FIRE_LIFETIME,
            origin: item,
        }
    }

    pub fn new(item: &JnObject) -> (r: HitFireEntity)
        ensures
            r == Self::spec_new(*item),
    {
        HitFireEntity {
            x: item.x as i32,
            y: item.y as i32,
            w: at_least_block(item.width),
            h: at_least_block(item.height),
            counter: HIT_FIRE_LIFETIME,
            origin: *item,
        }
    }

    /// The remaining lifetime counts down to zero.
    pub fn update(&mut self)
        ensures
            *final(self) == (if old(self).counter > 0 { HitFireEntity { counter: (old(self).counter - 1) as i32, ..*old(self) } } else { *old(self) }),
    {
        if self.counter > 0 {
            self.counter = self.counter - 1;
        }
    }

    pub fn draw(&self) -> (r: Option<RenderCommand>)
        ensures
            r is None,
    {
        None
    }

    pub fn bounding_box(&self) -> (r: Rect)
        ensures
            r == (Rect { x: self.x, y: self.y, w: self.w, h: self.h }),
    {
        Rect::new(self.x, self.y, self.w, self.h)
    }

    /// Spent once its lifetime is over.
    pub fn should_remove(&self) -> (r: bool)
        ensures
            r == (self.counter <= 0),
    {
        self.counter <= 0
    }

    pub open spec fn spec_snapshot(&self) -> Option<JnObject> {
        if self.counter <= 0 { None } else { Some(JnObject { x: self.x as u16, y: self.y as u16, ..self.origin }) }
    }

    pub fn snapshot(&self) -> (r: Option<JnObject>)
        ensures
            r == self.spec_snapshot(),
    {
        if self.counter <= 0 {
            return None;
        }
        let mut obj = self.origin;
        obj.set_position(self.x as u16, self.y as u16);
        Some(obj)
    }
}

/// A large letter tile (not drawn by the entity itself).
#[derive(Clone, Copy, Debug)]
pub struct HugeLetterTileEntity {
    pub x: i32,
    pub y: i32,
    pub w: i32,
    pub h: i32,
    pub origin: JnObject,
}

impl HugeLetterTileEntity {
    pub open spec fn spec_new(item: JnObject) -> HugeLetterTileEntity {
        HugeLetterTileEntity { x: item.x as i32, y: item.y as i32, w: block_dim(item.width), h: block_dim(item.height), origin: item }
    }

    pub fn new(item: &JnObject) -> (r: HugeLetterTileEntity)
        ensures
            r == Self::spec_new(*item),
    {
        HugeLetterTileEntity { x: item.x as i32, y: item.y as i32, w: at_least_block(item.width), h: at_least_block(item.height), origin: *item }
    }

    pub fn draw(&self) -> (r: Option<RenderCommand>)
        ensures
            r is None,
    {
        None
    }

    pub fn bounding_box(&self) -> (r: Rect)
        ensures
            r == (Rect { x: self.x, y: self.y, w: self.w, h: self.h }),
    {
        Rect::new(self.x, self.y, self.w, self.h)
    }

    pub open spec fn spec_snapshot(&self) -> Option<JnObject> {
        Some(JnObject { x: self.x as u16, y: self.y as u16, ..self.origin })
    }

    pub fn snapshot(&self) -> (r: Option<JnObject>)
        ensures
            r == self.spec_snapshot(),
    {
        let mut obj = self.origin;
        obj.set_position(self.x as u16, self.y as u16);
        Some(obj)
    }
}

} // verus!
