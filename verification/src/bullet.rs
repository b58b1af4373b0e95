//! The thrown knife: flies straight, then homes back to the player like a
//! boomerang, then falls; a landed knife waits to be picked up. The player
//! catching it (or walking over it) returns the knife to the inventory.

use vstd::prelude::*;

use crate::collision::{clamp0, coord_ok, region_hits, region_hits_exec, spec_collides_horizontal, max0, Probe};
use crate::enemies::{dim_ok, pos_ok};
use crate::grid::BackgroundGrid;
use crate::items::{add_item_message, map_height_px, map_width_px, overlaps_solid};
use crate::layout::{block_index, block_of, BLOCK_SIZE, MAP_HEIGHT_CELLS, MAP_WIDTH_CELLS};
use crate::record::JnObject;
use crate::world::{DeathKind, InventoryObject, Message, MessagePayload, MessageType, Rect, RenderCommand};

verus! {

/// Phase value of a knife at rest: it neither moves nor hits.
pub const BULLET_NO_MOVE_NO_HIT: i32 = 0;

/// First tick of the straight flight.
pub const BULLET_LAUNCH_START: i32 = 1;

/// Last tick of the straight flight.
pub const BULLET_LAUNCH_END: i32 = 14;

/// Last tick of the homing return.
pub const BULLET_FOLLOW_MAX: i32 = 64;

pub const BULLET_RIGHT_MAX_X: i32 = 8;

pub const BULLET_LEFT_MAX_X: i32 = -8;

pub const BULLET_DOWN_MAX_Y: i32 = 4;

pub const BULLET_UP_MAX_Y: i32 = -4;

/// Vertical speed while falling.
pub const BULLET_FALL_STEP_Y: i32 = 1;

pub const BULLET_KNIFE_TILESET: u8 = 13;

/// Object type of a thrown knife.
pub const BULLET_OBJECT_TYPE: u8 = 36;

/// Side of a thrown knife's box.
pub const KNIFE_W: i32 = 10;

pub const KNIFE_H: i32 = 10;

/// Sign of `v` as `-1`, `0` or `1`.
pub open spec fn sgn(v: int) -> int {
    if v > 0 { 1 } else if v < 0 { -1 } else { 0 }
}

/// Magnitude of `v`.
pub open spec fn mag(v: int) -> nat {
    if v < 0 { (-v) as nat } else { v as nat }
}

/// The box lies wholly inside the level map.
pub open spec fn in_map(x: int, y: int, w: int, h: int) -> bool {
    x >= 0 && x + w <= map_width_px() && y >= 0 && y + h <= map_height_px()
}

/// A solid cell in the block column holding pixel column `col_x`, within
/// the box's rows.
pub open spec fn column_solid(g: &BackgroundGrid, col_x: int, y: int, h: int) -> bool {
    region_hits(g, block_of(col_x), block_of(col_x), max0(block_of(y)), max0(block_of(y + h - 1)), Probe::Solid)
}

/// A solid cell in the block row holding pixel row `row_y`, within the
/// box's columns.
pub open spec fn row_solid(g: &BackgroundGrid, x: int, row_y: int, w: int) -> bool {
    region_hits(g, max0(block_of(x)), max0(block_of(x + w - 1)), block_of(row_y), block_of(row_y), Probe::Solid)
}

/// The knife's x after moving up to `n` pixels by `step`: it stops before
/// leaving the map or before its leading column meets a solid cell.
pub open spec fn knife_step_x(g: &BackgroundGrid, x: int, y: int, w: int, h: int, step: int, n: nat) -> int
    decreases n,
{
    if n == 0 {
        x
    } else {
        let nx = x + step;
        let probe = if step > 0 { nx + w - 1 } else { nx };
        if !in_map(nx, y, w, h) || column_solid(g, probe, y, h) {
            x
        } else {
            knife_step_x(g, nx, y, w, h, step, (n - 1) as nat)
        }
    }
}

/// The knife's y after moving up to `n` pixels by `step`, likewise.
pub open spec fn knife_step_y(g: &BackgroundGrid, x: int, y: int, w: int, h: int, step: int, n: nat) -> int
    decreases n,
{
    if n == 0 {
        y
    } else {
        let ny = y + step;
        let probe = if step > 0 { ny + h - 1 } else { ny };
        if !in_map(x, ny, w, h) || row_solid(g, x, probe, w) {
            y
        } else {
            knife_step_y(g, x, ny, w, h, step, (n - 1) as nat)
        }
    }
}

fn in_map_exec(x: i32, y: i32, w: i32, h: i32) -> (r: bool)
    requires
        coord_ok(x as int) && coord_ok(y as int) && dim_ok(w as int) && dim_ok(h as int),
    ensures
        r == in_map(x as int, y as int, w as int, h as int),
{
    let map_w = (MAP_WIDTH_CELLS as i32) * BLOCK_SIZE;
    let map_h = (MAP_HEIGHT_CELLS as i32) * BLOCK_SIZE;
    x >= 0 && x + w <= map_w && y >= 0 && y + h <= map_h
}

fn column_solid_exec(g: &BackgroundGrid, col_x: i32, y: i32, h: i32) -> (r: bool)
    requires
        coord_ok(col_x as int) && pos_ok(y as int) && dim_ok(h as int),
    ensures
        r == column_solid(g, col_x as int, y as int, h as int),
{
    let cx = block_index(col_x);
    region_hits_exec(g, cx, cx, clamp0(block_index(y)), clamp0(block_index(y + h - 1)), Probe::Solid)
}

fn row_solid_exec(g: &BackgroundGrid, x: i32, row_y: i32, w: i32) -> (r: bool)
    requires
        pos_ok(x as int) && coord_ok(row_y as int) && dim_ok(w as int),
    ensures
        r == row_solid(g, x as int, row_y as int, w as int),
{
    let cy = block_index(row_y);
    region_hits_exec(g, clamp0(block_index(x)), clamp0(block_index(x + w - 1)), cy, cy, Probe::Solid)
}

/// Moves the knife horizontally by `dx`, a pixel at a time.
fn step_x(g: &BackgroundGrid, x: i32, y: i32, w: i32, h: i32, dx: i32) -> (r: i32)
    requires
        pos_ok(x as int) && pos_ok(y as int) && dim_ok(w as int) && dim_ok(h as int),
        -0x8000 <= dx <= 0x8000,
    ensures
        r == knife_step_x(g, x as int, y as int, w as int, h as int, sgn(dx as int), mag(dx as int)),
        pos_ok(r as int),
{
    let step: i32 = if dx > 0 { 1 } else if dx < 0 { -1 } else { 0 };
    let n: i32 = if dx < 0 { -dx } else { dx };
    let mut cur = x;
    let mut i: i32 = 0;
    while i < n
        invariant
            pos_ok(cur as int) && pos_ok(y as int) && dim_ok(w as int) && dim_ok(h as int),
            0 <= i <= n,
            n == mag(dx as int),
            step == sgn(dx as int),
            knife_step_x(g, x as int, y as int, w as int, h as int, step as int, n as nat)
                == knife_step_x(g, cur as int, y as int, w as int, h as int, step as int, (n - i) as nat),
        decreases n - i,
    {
        let nx = cur + step;
        if !in_map_exec(nx, y, w, h) {
            return cur;
        }
        let probe = if step > 0 { nx + w - 1 } else { nx };
        if column_solid_exec(g, probe, y, h) {
            return cur;
        }
        cur = nx;
        i = i + 1;
    }
    cur
}

/// Moves the knife vertically by `dy`, a pixel at a time.
fn step_y(g: &BackgroundGrid, x: i32, y: i32, w: i32, h: i32, dy: i32) -> (r: i32)
    requires
        pos_ok(x as int) && pos_ok(y as int) && dim_ok(w as int) && dim_ok(h as int),
        -0x8000 <= dy <= 0x8000,
    ensures
        r == knife_step_y(g, x as int, y as int, w as int, h as int, sgn(dy as int), mag(dy as int)),
        pos_ok(r as int),
{
    let step: i32 = if dy > 0 { 1 } else if dy < 0 { -1 } else { 0 };
    let n: i32 = if dy < 0 { -dy } else { dy };
    let mut cur = y;
    let mut i: i32 = 0;
    while i < n
        invariant
            pos_ok(x as int) && pos_ok(cur as int) && dim_ok(w as int) && dim_ok(h as int),
            0 <= i <= n,
            n == mag(dy as int),
            step == sgn(dy as int),
            knife_step_y(g, x as int, y as int, w as int, h as int, step as int, n as nat)
                == knife_step_y(g, x as int, cur as int, w as int, h as int, step as int, (n - i) as nat),
        decreases n - i,
    {
        let ny = cur + step;
        if !in_map_exec(x, ny, w, h) {
            return cur;
        }
        let probe = if step > 0 { ny + h - 1 } else { ny };
        if row_solid_exec(g, x, probe, w) {
            return cur;
        }
        cur = ny;
        i = i + 1;
    }
    cur
}

/// The message returning the knife to the inventory.
pub open spec fn catch_message() -> Message {
    add_item_message(InventoryObject::Knife)
}

/// A thrown knife.
#[derive(Clone, Copy, Debug)]
pub struct BulletEntity {
    pub x: i32,
    pub y: i32,
    pub w: i32,
    pub h: i32,
    pub xd: i32,
    pub yd: i32,
    /// Phase counter: 0 at rest, 1-14 straight flight, 15-64 homing,
    /// beyond that falling.
    pub state_count: i32,
    /// Last seen player box, homed toward and caught by.
    pub player_bbox: Rect,
    pub removed: bool,
    /// The record the knife was built from.
    pub origin: JnObject,
}

impl BulletEntity {
    /// Bounds keeping a tick free of overflow.
    pub open spec fn wf(&self) -> bool {
        &&& pos_ok(self.x as int) && pos_ok(self.y as int)
        &&& dim_ok(self.w as int) && dim_ok(self.h as int)
        &&& -0x8000 <= self.xd <= 0x8000
        &&& -0x8000 <= self.yd <= 0x8000
    }

    pub open spec fn spec_bbox(&self) -> Rect {
        Rect { x: self.x, y: self.y, w: self.w, h: self.h }
    }

    /// A knife built from a record: box at least one block, the record's
    /// speeds, in straight flight.
    pub open spec fn spec_new(item: JnObject) -> BulletEntity {
        Self::spec_launched(
            item.x as i32,
            item.y as i32,
            crate::items::block_dim(item.width),
            crate::items::block_dim(item.height),
            item.x_speed as i32,
            item.y_speed as i32,
            item,
        )
    }

    pub fn new(item: &JnObject) -> (r: BulletEntity)
        ensures
            r == Self::spec_new(*item),
            r.wf(),
    {
        let w = crate::items::at_least_block(item.width);
        let h = crate::items::at_least_block(item.height);
        let x = item.x as i32;
        let y = item.y as i32;
        BulletEntity {
            x,
            y,
            w,
            h,
            xd: item.x_speed as i32,
            yd: item.y_speed as i32,
            state_count: BULLET_LAUNCH_START,
            player_bbox: Rect::new(x, y, w, h),
            removed: false,
            origin: *item,
        }
    }

    /// A knife in straight flight from `(x, y)` with the given box, speeds
    /// and record.
    pub open spec fn spec_launched(x: i32, y: i32, w: i32, h: i32, xd: i32, yd: i32, origin: JnObject) -> BulletEntity {
        BulletEntity { x, y, w, h, xd, yd, state_count: BULLET_LAUNCH_START, player_bbox: Rect { x, y, w, h }, removed: false, origin }
    }

    /// The record a knife thrown at run time carries: a fresh knife record
    /// at its position and size.
    pub open spec fn thrown_record(x: i32, y: i32, w: i32, h: i32) -> JnObject {
        JnObject {
            object_type: BULLET_OBJECT_TYPE,
            x: x as u16,
            y: y as u16,
            x_speed: 0,
            y_speed: 0,
            width: w as u16,
            height: h as u16,
            state: 0,
            sub_state: 0,
            state_count: 0,
            counter: 0,
            flags: 0,
            pointer: 0,
            info1: 0,
            zap_hold: 0,
        }
    }

    /// A knife thrown from `(x, y)` with the given box and speeds.
    pub fn with_velocity(x: i32, y: i32, w: i32, h: i32, xd: i32, yd: i32) -> (r: BulletEntity)
        ensures
            r == Self::spec_launched(x, y, w, h, xd, yd, Self::thrown_record(x, y, w, h)),
    {
        let origin = JnObject::spawned(BULLET_OBJECT_TYPE, x as u16, y as u16, w as u16, h as u16);
        BulletEntity { x, y, w, h, xd, yd, state_count: BULLET_LAUNCH_START, player_bbox: Rect::new(x, y, w, h), removed: false, origin }
    }

    /// The save record of a knife still in play: the origin with its
    /// position and speeds.
    pub open spec fn spec_snapshot(&self) -> Option<JnObject> {
        if self.removed {
            None
        } else {
            Some(JnObject { x: self.x as u16, y: self.y as u16, x_speed: self.xd as i16, y_speed: self.yd as i16, ..self.origin })
        }
    }

    pub fn snapshot(&self) -> (r: Option<JnObject>)
        ensures
            r == self.spec_snapshot(),
    {
        if self.removed {
            return None;
        }
        let mut obj = self.origin;
        obj.set_position(self.x as u16, self.y as u16);
        obj.set_speed(self.xd as i16, self.yd as i16);
        Some(obj)
    }

    /// Straight flight: slide by the speeds, horizontally first.
    pub open spec fn spec_launch(self, g: &BackgroundGrid) -> BulletEntity {
        let nx = knife_step_x(g, self.x as int, self.y as int, self.w as int, self.h as int, sgn(self.xd as int), mag(self.xd as int));
        let ny = knife_step_y(g, nx, self.y as int, self.w as int, self.h as int, sgn(self.yd as int), mag(self.yd as int));
        BulletEntity { x: nx as i32, y: ny as i32, ..self }
    }

    /// Homing: each speed moves one toward the player (within 8 across,
    /// 4 up and down), then the knife slides by them.
    pub open spec fn spec_follow(self, g: &BackgroundGrid) -> BulletEntity {
        let px = self.player_bbox.x;
        let py = self.player_bbox.y;
        let xd = if self.x < px && self.xd < BULLET_RIGHT_MAX_X {
            self.xd + 1
        } else if self.x > px && self.xd > BULLET_LEFT_MAX_X {
            self.xd - 1
        } else {
            self.xd as int
        };
        let yd = if self.y < py && self.yd < BULLET_DOWN_MAX_Y {
            self.yd + 1
        } else if self.y > py && self.yd > BULLET_UP_MAX_Y {
            self.yd - 1
        } else {
            self.yd as int
        };
        BulletEntity { xd: xd as i32, yd: yd as i32, ..self }.spec_launch(g)
    }

    /// Falling: a pixel down per tick; leaving the map removes the knife,
    /// landing on a solid cell puts it at rest.
    pub open spec fn spec_fall(self, g: &BackgroundGrid) -> BulletEntity {
        let ny = self.y + BULLET_FALL_STEP_Y;
        if !in_map(self.x as int, ny, self.w as int, self.h as int) {
            BulletEntity { yd: BULLET_FALL_STEP_Y, removed: true, ..self }
        } else if spec_collides_horizontal(g, self.x as int, ny, self.w as int, self.h as int) {
            BulletEntity { yd: 0, state_count: BULLET_NO_MOVE_NO_HIT, ..self }
        } else {
            BulletEntity { yd: BULLET_FALL_STEP_Y, y: ny as i32, ..self }
        }
    }

    /// The knife after one tick and its messages. A knife at rest is picked
    /// up when the player overlaps it. Otherwise the phase moves it; past
    /// the straight flight, overlapping the player catches it; the phase
    /// counter then advances (saturating), unless the knife just came to
    /// rest.
    pub open spec fn spec_step(self, g: &BackgroundGrid) -> (BulletEntity, Seq<Message>) {
        if self.removed {
            (self, seq![])
        } else if self.state_count == BULLET_NO_MOVE_NO_HIT {
            if self.spec_bbox().spec_intersects(self.player_bbox) {
                (BulletEntity { removed: true, ..self }, seq![catch_message()])
            } else {
                (self, seq![])
            }
        } else {
            let sc = self.state_count;
            let b1 = if BULLET_LAUNCH_START <= sc <= BULLET_LAUNCH_END {
                self.spec_launch(g)
            } else if BULLET_LAUNCH_END < sc <= BULLET_FOLLOW_MAX {
                self.spec_follow(g)
            } else if sc > BULLET_FOLLOW_MAX {
                self.spec_fall(g)
            } else {
                self
            };
            let caught = !b1.removed && b1.state_count > BULLET_LAUNCH_END && b1.spec_bbox().spec_intersects(b1.player_bbox);
            let b2 = if caught { BulletEntity { removed: true, ..b1 } } else { b1 };
            let b3 = if b2.state_count != BULLET_NO_MOVE_NO_HIT {
                BulletEntity { state_count: if b2.state_count == i32::MAX { i32::MAX } else { (b2.state_count + 1) as i32 }, ..b2 }
            } else {
                b2
            };
            (b3, if caught { seq![catch_message()] } else { seq![] })
        }
    }

    fn tick_launch(&mut self, g: &BackgroundGrid)
        requires
            old(self).wf(),
        ensures
            *final(self) == old(self).spec_launch(g),
            final(self).wf(),
    {
        self.x = step_x(g, self.x, self.y, self.w, self.h, self.xd);
        self.y = step_y(g, self.x, self.y, self.w, self.h, self.yd);
    }

    fn tick_follow(&mut self, g: &BackgroundGrid)
        requires
            old(self).wf(),
        ensures
            *final(self) == old(self).spec_follow(g),
            final(self).wf(),
    {
        let px = self.player_bbox.x;
        let py = self.player_bbox.y;
        if self.x < px && self.xd < BULLET_RIGHT_MAX_X {
            self.xd = self.xd + 1;
        } else if self.x > px && self.xd > BULLET_LEFT_MAX_X {
            self.xd = self.xd - 1;
        }
        if self.y < py && self.yd < BULLET_DOWN_MAX_Y {
            self.yd = self.yd + 1;
        } else if self.y > py && self.yd > BULLET_UP_MAX_Y {
            self.yd = self.yd - 1;
        }
        self.tick_launch(g);
    }

    fn tick_fall(&mut self, g: &BackgroundGrid)
        requires
            old(self).wf(),
        ensures
            *final(self) == old(self).spec_fall(g),
            final(self).wf(),
    {
        self.yd = BULLET_FALL_STEP_Y;
        let ny = self.y + self.yd;
        if !in_map_exec(self.x, ny, self.w, self.h) {
            self.removed = true;
            return;
        }
        if overlaps_solid(g, self.x, ny, self.w, self.h) {
            self.state_count = BULLET_NO_MOVE_NO_HIT;
            self.yd = 0;
            return;
        }
        self.y = ny;
    }

    /// One tick of the knife; returns the messages it sends.
    pub fn update(&mut self, g: &BackgroundGrid) -> (msgs: Vec<Message>)
        requires
            old(self).wf(),
        ensures
            *final(self) == old(self).spec_step(g).0,
            msgs@ == old(self).spec_step(g).1,
            final(self).wf(),
    {
        let mut msgs: Vec<Message> = Vec::new();
        if self.removed {
            proof { assert(msgs@ =~= seq![]); }
            return msgs;
        }
        if self.state_count == BULLET_NO_MOVE_NO_HIT {
            let bb = Rect::new(self.x, self.y, self.w, self.h);
            if bb.intersects(&self.player_bbox) {
                msgs.push(Message {
                    msg_type: MessageType::InventoryItem,
                    payload: MessagePayload::InventoryItem { add: true, item: InventoryObject::Knife },
                });
                self.removed = true;
                proof { assert(msgs@ =~= seq![catch_message()]); }
            } else {
                proof { assert(msgs@ =~= seq![]); }
            }
            return msgs;
        }
        let sc = self.state_count;
        if BULLET_LAUNCH_START <= sc && sc <= BULLET_LAUNCH_END {
            self.tick_launch(g);
        } else if sc > BULLET_LAUNCH_END && sc <= BULLET_FOLLOW_MAX {
            self.tick_follow(g);
        } else if sc > BULLET_FOLLOW_MAX {
            self.tick_fall(g);
        }
        let bb = Rect::new(self.x, self.y, self.w, self.h);
        let caught = !self.removed && self.state_count > BULLET_LAUNCH_END && bb.intersects(&self.player_bbox);
        if caught {
            msgs.push(Message {
                msg_type: MessageType::InventoryItem,
                payload: MessagePayload::InventoryItem { add: true, item: InventoryObject::Knife },
            });
            self.removed = true;
        }
        if self.state_count != BULLET_NO_MOVE_NO_HIT {
            if self.state_count < i32::MAX {
                self.state_count = self.state_count + 1;
            }
        }
        proof {
            if caught {
                assert(msgs@ =~= seq![catch_message()]);
            } else {
                assert(msgs@ =~= seq![]);
            }
        }
        msgs
    }

    /// Knife frame: one of five, changing every two ticks of the phase
    /// counter.
    pub open spec fn spec_frame(&self) -> u16 {
        (((max0(self.state_count as int) / 2) as u16) as int % 5) as u16
    }

    pub fn draw(&self) -> (r: Option<RenderCommand>)
        ensures
            r == (if self.removed {
                None
            } else {
                Some(RenderCommand::Blit { tileset: BULLET_KNIFE_TILESET, tile: self.spec_frame(), x: self.x, y: self.y, opaque: false, clip: None })
            }),
    {
        if self.removed {
            return None;
        }
        let sc: i32 = if self.state_count < 0 { 0 } else { self.state_count };
        let frame = ((sc / 2) as u16) % 5;
        Some(RenderCommand::Blit { tileset: BULLET_KNIFE_TILESET, tile: frame, x: self.x, y: self.y, opaque: false, clip: None })
    }

    /// Contact with the player does nothing here: catching happens in
    /// [`Self::update`].
    pub fn on_touch(&mut self)
        ensures
            *final(self) == *old(self),
    {
    }

    /// The knife is a player projectile.
    pub fn is_projectile(&self) -> (r: bool)
        ensures
            r,
    {
        true
    }

    /// The knife keeps moving when off screen, so it always comes back.
    pub fn always_active(&self) -> (r: bool)
        ensures
            r,
    {
        true
    }

    /// Records the player's box to home toward and be caught by.
    pub fn observe_player(&mut self, player_bbox: Rect)
        ensures
            *final(self) == (BulletEntity { player_bbox, ..*old(self) }),
    {
        self.player_bbox = player_bbox;
    }

    /// Hitting an enemy during the straight flight starts the return at
    /// once.
    pub fn on_kill(&mut self, damage: i32, death_kind: DeathKind)
        ensures
            *final(self) == (if old(self).state_count != BULLET_NO_MOVE_NO_HIT && old(self).state_count <= BULLET_LAUNCH_END {
                BulletEntity { state_count: 15i32, ..*old(self) }
            } else {
                *old(self)
            }),
    {
        if self.state_count != BULLET_NO_MOVE_NO_HIT && self.state_count <= BULLET_LAUNCH_END {
            self.state_count = BULLET_LAUNCH_END + 1;
        }
    }

    pub fn bounding_box(&self) -> (r: Rect)
        ensures
            r == self.spec_bbox(),
    {
        Rect::new(self.x, self.y, self.w, self.h)
    }

    pub fn should_remove(&self) -> (r: bool)
        ensures
            r == self.removed,
    {
        self.removed
    }
}

} // verus!

verus! {

/// Saving a knife built from a record gives the record back.
pub proof fn lemma_bullet_snapshot_round_trip(item: JnObject)
    ensures
        BulletEntity::spec_new(item).spec_snapshot() == Some(item),
{
    let b = BulletEntity::spec_new(item);
    assert(b.spec_snapshot().unwrap() == item);
}

} // verus!
