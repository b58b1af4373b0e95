//! Items the player collects by touching them: the red key, the gem on a
//! rock, the blade and the bonus that grants an item chosen by its record.
//! Each is collected once, sending the item to the inventory.

use vstd::prelude::*;

use crate::items::{add_item_message, at_least_block, block_dim, record_box};
use crate::record::JnObject;
use crate::world::{item_for_index, DeathKind, InventoryObject, Message, MessagePayload, MessageType, Rect, RenderCommand};

verus! {

/// A one-message vector adding `item` to the inventory.
fn add_item(item: InventoryObject) -> (v: Vec<Message>)
    ensures
        v@ == seq![add_item_message(item)],
{
    let mut v: Vec<Message> = Vec::new();
    v.push(Message { msg_type: MessageType::InventoryItem, payload: MessagePayload::InventoryItem { add: true, item } });
    proof { assert(v@ =~= seq![add_item_message(item)]); }
    v
}

/// The save record of a collectible: the origin at its position while not
/// yet collected.
pub open spec fn collectible_snapshot(removed: bool, x: i32, y: i32, origin: JnObject) -> Option<JnObject> {
    if removed { None } else { Some(JnObject { x: x as u16, y: y as u16, ..origin }) }
}

fn collectible_snapshot_exec(removed: bool, x: i32, y: i32, origin: JnObject) -> (r: Option<JnObject>)
    ensures
        r == collectible_snapshot(removed, x, y, origin),
{
    if removed {
        return None;
    }
    let mut obj = origin;
    obj.set_position(x as u16, y as u16);
    Some(obj)
}

pub const RED_KEY_TILESET: u8 = 14;

pub const RED_KEY_BASE_TILE: u16 = 6;

/// Frames of a spinning key.
pub const KEY_FRAME_COUNT: u16 = 4;

pub const ROCK_KEY_TILESET: u8 = 9;

pub const ROCK_KEY_BASE_TILE: u16 = 4;

/// Spinning-key tile for frame counter `f`: a tile every two ticks, cycling
/// through four.
pub open spec fn key_tile(base: u16, f: u16) -> u16 {
    (base + (f / 2) % KEY_FRAME_COUNT) as u16
}

/// The red key.
#[derive(Clone, Copy, Debug)]
pub struct RedKeyEntity {
    pub x: i32,
    pub y: i32,
    pub w: i32,
    pub h: i32,
    pub frame: u16,
    pub removed: bool,
    pub origin: JnObject,
}

impl RedKeyEntity {
    pub open spec fn spec_new(item: JnObject) -> RedKeyEntity {
        RedKeyEntity { x: item.x as i32, y: item.y as i32, w: block_dim(item.width), h: block_dim(item.height), frame: 0, removed: false, origin: item }
    }

    pub fn new(item: &JnObject) -> (r: RedKeyEntity)
        ensures
            r == Self::spec_new(*item),
    {
        RedKeyEntity { x: item.x as i32, y: item.y as i32, w: at_least_block(item.width), h: at_least_block(item.height), frame: 0, removed: false, origin: *item }
    }

    /// The spin frame advances, wrapping at the end of its range.
    pub fn update(&mut self)
        ensures
            *final(self) == (RedKeyEntity { frame: ((old(self).frame + 1) % 0x10000) as u16, ..*old(self) }),
    {
        self.frame = self.frame.wrapping_add(1);
    }

    pub fn draw(&self) -> (r: Option<RenderCommand>)
        ensures
            r == Some(RenderCommand::Blit { tileset: RED_KEY_TILESET, tile: key_tile(RED_KEY_BASE_TILE, self.frame), x: self.x, y: self.y, opaque: false, clip: None }),
    {
        Some(RenderCommand::Blit { tileset: RED_KEY_TILESET, tile: RED_KEY_BASE_TILE + (self.frame / 2) % KEY_FRAME_COUNT, x: self.x, y: self.y, opaque: false, clip: None })
    }

    /// The first touch collects the key.
    pub fn on_touch(&mut self) -> (r: Vec<Message>)
        ensures
            r@ == (if old(self).removed { Seq::empty() } else { seq![add_item_message(InventoryObject::RedKey)] }),
            *final(self) == (RedKeyEntity { removed: true, ..*old(self) }),
    {
        if self.removed {
            return Vec::new();
        }
        self.removed = true;
        add_item(InventoryObject::RedKey)
    }

    pub fn on_kill(&mut self, damage: i32, death_kind: DeathKind)
        ensures
            *final(self) == *old(self),
    {
    }

    pub fn bounding_box(&self) -> (r: Rect)
        ensures
            r == (Rect { x: self.x, y: self.y, w: self.w, h: self.h }),
    {
        Rect::new(self.x, self.y, self.w, self.h)
    }

    pub fn should_remove(&self) -> (r: bool)
        ensures
            r == self.removed,
    {
        self.removed
    }

    pub open spec fn spec_snapshot(&self) -> Option<JnObject> {
        collectible_snapshot(self.removed, self.x, self.y, self.origin)
    }

    pub fn snapshot(&self) -> (r: Option<JnObject>)
        ensures
            r == self.spec_snapshot(),
    {
        collectible_snapshot_exec(self.removed, self.x, self.y, self.origin)
    }
}

/// The gem set in a rock.
#[derive(Clone, Copy, Debug)]
pub struct RockKeyEntity {
    pub x: i32,
    pub y: i32,
    pub w: i32,
    pub h: i32,
    pub frame: u16,
    pub removed: bool,
    pub origin: JnObject,
}

impl RockKeyEntity {
    pub open spec fn spec_new(item: JnObject) -> RockKeyEntity {
        RockKeyEntity { x: item.x as i32, y: item.y as i32, w: block_dim(item.width), h: block_dim(item.height), frame: 0, removed: false, origin: item }
    }

    pub fn new(item: &JnObject) -> (r: RockKeyEntity)
        ensures
            r == Self::spec_new(*item),
    {
        RockKeyEntity { x: item.x as i32, y: item.y as i32, w: at_least_block(item.width), h: at_least_block(item.height), frame: 0, removed: false, origin: *item }
    }

    /// The sparkle frame advances, wrapping at the end of its range.
    pub fn update(&mut self)
        ensures
            *final(self) == (RockKeyEntity { frame: ((old(self).frame + 1) % 0x10000) as u16, ..*old(self) }),
    {
        self.frame = self.frame.wrapping_add(1);
    }

    pub fn draw(&self) -> (r: Option<RenderCommand>)
        ensures
            r == Some(RenderCommand::Blit { tileset: ROCK_KEY_TILESET, tile: key_tile(ROCK_KEY_BASE_TILE, self.frame), x: self.x, y: self.y, opaque: false, clip: None }),
    {
        Some(RenderCommand::Blit { tileset: ROCK_KEY_TILESET, tile: ROCK_KEY_BASE_TILE + (self.frame / 2) % KEY_FRAME_COUNT, x: self.x, y: self.y, opaque: false, clip: None })
    }

    /// The first touch collects a gem.
    pub fn on_touch(&mut self) -> (r: Vec<Message>)
        ensures
            r@ == (if old(self).removed { Seq::empty() } else { seq![add_item_message(InventoryObject::Gem)] }),
            *final(self) == (RockKeyEntity { removed: true, ..*old(self) }),
    {
        if self.removed {
            return Vec::new();
        }
        self.removed = true;
        add_item(InventoryObject::Gem)
    }

    pub fn on_kill(&mut self, damage: i32, death_kind: DeathKind)
        ensures
            *final(self) == *old(self),
    {
    }

    pub fn bounding_box(&self) -> (r: Rect)
        ensures
            r == (Rect { x: self.x, y: self.y, w: self.w, h: self.h }),
    {
        Rect::new(self.x, self.y, self.w, self.h)
    }

    pub fn should_remove(&self) -> (r: bool)
        ensures
            r == self.removed,
    {
        self.removed
    }

    pub open spec fn spec_snapshot(&self) -> Option<JnObject> {
        collectible_snapshot(self.removed, self.x, self.y, self.origin)
    }

    pub fn snapshot(&self) -> (r: Option<JnObject>)
        ensures
            r == self.spec_snapshot(),
    {
        collectible_snapshot_exec(self.removed, self.x, self.y, self.origin)
    }
}

/// The blade weapon pickup (not drawn).
#[derive(Clone, Copy, Debug)]
pub struct BladeEntity {
    pub x: i32,
    pub y: i32,
    pub w: i32,
    pub h: i32,
    pub removed: bool,
    pub origin: JnObject,
}

impl BladeEntity {
    pub open spec fn spec_new(item: JnObject) -> BladeEntity {
        BladeEntity { x: item.x as i32, y: item.y as i32, w: block_dim(item.width), h: block_dim(item.height), removed: false, origin: item }
    }

    pub fn new(item: &JnObject) -> (r: BladeEntity)
        ensures
            r == Self::spec_new(*item),
    {
        BladeEntity { x: item.x as i32, y: item.y as i32, w: at_least_block(item.width), h: at_least_block(item.height), removed: false, origin: *item }
    }

    pub fn draw(&self) -> (r: Option<RenderCommand>)
        ensures
            r is None,
    {
        None
    }

    /// The first touch collects the blade.
    pub fn on_touch(&mut self) -> (r: Vec<Message>)
        ensures
            r@ == (if old(self).removed { Seq::empty() } else { seq![add_item_message(InventoryObject::Blade)] }),
            *final(self) == (BladeEntity { removed: true, ..*old(self) }),
    {
        if self.removed {
            return Vec::new();
        }
        self.removed = true;
        add_item(InventoryObject::Blade)
    }

    pub fn on_kill(&mut self, damage: i32, death_kind: DeathKind)
        ensures
            *final(self) == *old(self),
    {
    }

    pub fn bounding_box(&self) -> (r: Rect)
        ensures
            r == (Rect { x: self.x, y: self.y, w: self.w, h: self.h }),
    {
        Rect::new(self.x, self.y, self.w, self.h)
    }

    pub fn should_remove(&self) -> (r: bool)
        ensures
            r == self.removed,
    {
        self.removed
    }

    pub open spec fn spec_snapshot(&self) -> Option<JnObject> {
        collectible_snapshot(self.removed, self.x, self.y, self.origin)
    }

    pub fn snapshot(&self) -> (r: Option<JnObject>)
        ensures
            r == self.spec_snapshot(),
    {
        collectible_snapshot_exec(self.removed, self.x, self.y, self.origin)
    }
}

pub const BONUS_TILESET: u8 = 14;

/// The item a bonus grants for its record's counter: the item with that
/// index, or a gem for a negative or unknown index.
pub open spec fn bonus_item(counter: i16) -> InventoryObject {
    if counter < 0 {
        InventoryObject::Gem
    } else {
        match item_for_index(counter as int) {
            Some(it) => it,
            None => InventoryObject::Gem,
        }
    }
}

pub fn resolve_bonus_item(counter: i16) -> (r: InventoryObject)
    ensures
        r == bonus_item(counter),
{
    if counter < 0 {
        return InventoryObject::Gem;
    }
    match InventoryObject::from_index(counter as u16) {
        Some(it) => it,
        None => InventoryObject::Gem,
    }
}

/// Tile of the bonus showing `item`.
pub open spec fn spec_bonus_tile(item: InventoryObject) -> u16 {
    match item {
        InventoryObject::Jill => 38,
        InventoryObject::RedKey => 12,
        InventoryObject::Knife => 13,
        InventoryObject::Gem => 11,
        InventoryObject::Frog => 14,
        InventoryObject::Firebird => 15,
        InventoryObject::BagOfCoin => 18,
        InventoryObject::Fish => 20,
        InventoryObject::Blade => 35,
        InventoryObject::HighJump => 36,
        InventoryObject::Invincibility => 37,
    }
}

pub fn bonus_tile(item: InventoryObject) -> (r: u16)
    ensures
        r == spec_bonus_tile(item),
{
    match item {
        InventoryObject::Jill => 38,
        InventoryObject::RedKey => 12,
        InventoryObject::Knife => 13,
        InventoryObject::Gem => 11,
        InventoryObject::Frog => 14,
        InventoryObject::Firebird => 15,
        InventoryObject::BagOfCoin => 18,
        InventoryObject::Fish => 20,
        InventoryObject::Blade => 35,
        InventoryObject::HighJump => 36,
        InventoryObject::Invincibility => 37,
    }
}

/// A bonus granting the item its record selects.
#[derive(Clone, Copy, Debug)]
pub struct BonusEntity {
    pub x: i32,
    pub y: i32,
    pub w: i32,
    pub h: i32,
    pub item: InventoryObject,
    pub tile: u16,
    pub removed: bool,
    pub origin: JnObject,
}

impl BonusEntity {
    pub open spec fn spec_new(item: JnObject) -> BonusEntity {
        BonusEntity {
            x: item.x as i32,
            y: item.y as i32,
            w: block_dim(item.width),
            h: block_dim(item.height),
            item: bonus_item(item.counter),
            tile: spec_bonus_tile(bonus_item(item.counter)),
            removed: false,
            origin: item,
        }
    }

    pub fn new(item: &JnObject) -> (r: BonusEntity)
        ensures
            r == Self::spec_new(*item),
    {
        let resolved = resolve_bonus_item(item.counter);
        BonusEntity {
            x: item.x as i32,
            y: item.y as i32,
            w: at_least_block(item.width),
            h: at_least_block(item.height),
            item: resolved,
            tile: bonus_tile(resolved),
            removed: false,
            origin: *item,
        }
    }

    pub fn draw(&self) -> (r: Option<RenderCommand>)
        ensures
            r == Some(RenderCommand::Blit { tileset: BONUS_TILESET, tile: self.tile, x: self.x, y: self.y, opaque: false, clip: None }),
    {
        Some(RenderCommand::Blit { tileset: BONUS_TILESET, tile: self.tile, x: self.x, y: self.y, opaque: false, clip: None })
    }

    /// The first touch grants the item.
    pub fn on_touch(&mut self) -> (r: Vec<Message>)
        ensures
            r@ == (if old(self).removed { Seq::empty() } else { seq![add_item_message(old(self).item)] }),
            *final(self) == (BonusEntity { removed: true, ..*old(self) }),
    {
        if self.removed {
            return Vec::new();
        }
        self.removed = true;
        add_item(self.item)
    }

    pub fn on_kill(&mut self, damage: i32, death_kind: DeathKind)
        ensures
            *final(self) == *old(self),
    {
    }

    pub fn bounding_box(&self) -> (r: Rect)
        ensures
            r == (Rect { x: self.x, y: self.y, w: self.w, h: self.h }),
    {
        Rect::new(self.x, self.y, self.w, self.h)
    }

    pub fn should_remove(&self) -> (r: bool)
        ensures
            r == self.removed,
    {
        self.removed
    }

    pub open spec fn spec_snapshot(&self) -> Option<JnObject> {
        collectible_snapshot(self.removed, self.x, self.y, self.origin)
    }

    pub fn snapshot(&self) -> (r: Option<JnObject>)
        ensures
            r == self.spec_snapshot(),
    {
        collectible_snapshot_exec(self.removed, self.x, self.y, self.origin)
    }
}

} // verus!
