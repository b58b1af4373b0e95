//! Indestructible hazards: the rolling rock that patrols a floor and the
//! ceiling spike that drops when the player walks beneath it. Both kill the
//! player on contact.

use vstd::prelude::*;

use crate::collision::{clamp0, max0, region_hits, region_hits_exec, Probe};
use crate::enemies::{dim_ok, pos_ok};
use crate::grid::BackgroundGrid;
use crate::items::{at_least_block, block_dim};
use crate::layout::{block_index, block_of};
use crate::record::JnObject;
use crate::world::{DeathKind, Rect, RenderCommand};

verus! {

pub const ROCK_TILESET: u8 = 14;

pub const ROCK_TILE_BASE: u16 = 24;

/// Frames of the rock's animation.
pub const ROCK_NUMBER_TILE_SET: i32 = 4;

/// Counter value of the airborne sprite, which does not animate.
pub const ROCK_COUNTER_FALL: i32 = 0;

/// Last rolling frame.
pub const ROCK_COUNTER_MOVE_MAX: i32 = 3;

/// Rolling frame the animation wraps to.
pub const ROCK_COUNTER_MOVE_VALUE: i32 = 1;

/// Rolling speed.
pub const ROCK_X_SPEED_FALL: i32 = 4;

/// The pixel column just ahead of a box moving by `xs`.
pub open spec fn ahead(x: int, w: int, xs: int) -> int {
    if xs > 0 { x + w } else { x - 1 }
}

/// The column ahead is off the map, or solid or a stair within the box's
/// rows.
pub open spec fn rock_blocked_ahead(g: &BackgroundGrid, x: int, y: int, w: int, h: int, xs: int) -> bool {
    let cx = block_of(ahead(x, w, xs));
    ||| cx < 0
    ||| cx >= g.spec_width()
    ||| region_hits(g, cx, cx, max0(block_of(y)), max0(block_of(y + h - 1)), Probe::SolidOrStair)
}

/// The cell below the box's next position is solid or a stair.
pub open spec fn rock_floor_under_next(g: &BackgroundGrid, x: int, y: int, w: int, h: int, xs: int) -> bool {
    let cx = block_of(ahead(x, w, xs));
    let cy = block_of(y + h);
    g.in_bounds(cx, cy) && (!g.cell(cx, cy).spec_passthrough() || g.cell(cx, cy).spec_stair())
}

fn rock_blocked_ahead_exec(g: &BackgroundGrid, x: i32, y: i32, w: i32, h: i32, xs: i32) -> (r: bool)
    requires
        pos_ok(x as int) && pos_ok(y as int) && dim_ok(w as int) && dim_ok(h as int),
    ensures
        r == rock_blocked_ahead(g, x as int, y as int, w as int, h as int, xs as int),
{
    let probe_x = if xs > 0 { x + w } else { x - 1 };
    let cx = block_index(probe_x);
    if cx < 0 || cx as usize >= g.width() {
        return true;
    }
    region_hits_exec(g, cx, cx, clamp0(block_index(y)), clamp0(block_index(y + h - 1)), Probe::SolidOrStair)
}

fn rock_floor_under_next_exec(g: &BackgroundGrid, x: i32, y: i32, w: i32, h: i32, xs: i32) -> (r: bool)
    requires
        pos_ok(x as int) && pos_ok(y as int) && dim_ok(w as int) && dim_ok(h as int),
    ensures
        r == rock_floor_under_next(g, x as int, y as int, w as int, h as int, xs as int),
{
    let probe_x = if xs > 0 { x + w } else { x - 1 };
    let cx = block_index(probe_x);
    let cy = block_index(y + h);
    if cx < 0 || cy < 0 {
        return false;
    }
    match g.get(cx as usize, cy as usize) {
        Some(c) => !c.is_passthrough() || c.is_stair(),
        None => false,
    }
}

/// A rolling rock.
#[derive(Clone, Copy, Debug)]
pub struct RollingRockEntity {
    pub x: i32,
    pub y: i32,
    pub w: i32,
    pub h: i32,
    pub x_speed: i32,
    /// Animation counter: 0 airborne, 1-3 rolling.
    pub counter: i32,
    pub pending_kill: Option<DeathKind>,
    /// The record the rock was built from.
    pub origin: JnObject,
}

impl RollingRockEntity {
    pub open spec fn wf(&self) -> bool {
        &&& pos_ok(self.x as int) && pos_ok(self.y as int)
        &&& dim_ok(self.w as int) && dim_ok(self.h as int)
        &&& -0x8000 <= self.x_speed <= 0x8000
        &&& 0 <= self.counter <= ROCK_COUNTER_MOVE_MAX
    }

    /// A rock at the record's position, box at least one block, rolling at
    /// the record's speed (rightward at 4 when it has none).
    pub open spec fn spec_new(item: JnObject) -> RollingRockEntity {
        RollingRockEntity {
            x: item.x as i32,
            y: item.y as i32,
            w: block_dim(item.width),
            h: block_dim(item.height),
            x_speed: if item.x_speed != 0 { item.x_speed as i32 } else { ROCK_X_SPEED_FALL },
            counter: ROCK_COUNTER_MOVE_VALUE,
            pending_kill: None,
            origin: item,
        }
    }

    pub fn new(item: &JnObject) -> (r: RollingRockEntity)
        ensures
            r == Self::spec_new(*item),
            r.wf(),
    {
        let xd = item.x_speed as i32;
        RollingRockEntity {
            x: item.x as i32,
            y: item.y as i32,
            w: at_least_block(item.width),
            h: at_least_block(item.height),
            x_speed: if xd != 0 { xd } else { ROCK_X_SPEED_FALL },
            counter: ROCK_COUNTER_MOVE_VALUE,
            pending_kill: None,
            origin: *item,
        }
    }

    /// The save record: the origin with the rock's position and rolling
    /// speed (none again when the record had none and the rock still rolls
    /// right at the default).
    pub open spec fn spec_snapshot(&self) -> Option<JnObject> {
        Some(JnObject {
            x: self.x as u16,
            y: self.y as u16,
            x_speed: if self.x_speed == ROCK_X_SPEED_FALL && self.origin.x_speed == 0 { 0 } else { self.x_speed as i16 },
            ..self.origin
        })
    }

    pub fn snapshot(&self) -> (r: Option<JnObject>)
        ensures
            r == self.spec_snapshot(),
    {
        let mut obj = self.origin;
        obj.set_position(self.x as u16, self.y as u16);
        let xs: i16 = if self.x_speed == ROCK_X_SPEED_FALL && obj.x_speed == 0 { 0 } else { self.x_speed as i16 };
        obj.set_speed(xs, obj.y_speed);
        Some(obj)
    }

    /// The rock after one tick: it rolls ahead when the way is open and
    /// floored, cycling frames 1-3 (the airborne frame stays), or else turns
    /// round.
    pub open spec fn spec_next(self, g: &BackgroundGrid) -> RollingRockEntity {
        if !rock_blocked_ahead(g, self.x as int, self.y as int, self.w as int, self.h as int, self.x_speed as int)
            && rock_floor_under_next(g, self.x as int, self.y as int, self.w as int, self.h as int, self.x_speed as int)
        {
            let c = if self.counter != ROCK_COUNTER_FALL {
                if self.counter + 1 > ROCK_COUNTER_MOVE_MAX { ROCK_COUNTER_MOVE_VALUE as int } else { self.counter + 1 }
            } else {
                self.counter as int
            };
            RollingRockEntity { x: (self.x + self.x_speed) as i32, counter: c as i32, ..self }
        } else {
            RollingRockEntity { x_speed: (-self.x_speed) as i32, ..self }
        }
    }

    pub fn update(&mut self, g: &BackgroundGrid)
        requires
            old(self).wf(),
        ensures
            *final(self) == old(self).spec_next(g),
    {
        let blocked = rock_blocked_ahead_exec(g, self.x, self.y, self.w, self.h, self.x_speed);
        let supported = rock_floor_under_next_exec(g, self.x, self.y, self.w, self.h, self.x_speed);
        if !blocked && supported {
            self.x = self.x + self.x_speed;
            if self.counter != ROCK_COUNTER_FALL {
                self.counter = self.counter + 1;
                if self.counter > ROCK_COUNTER_MOVE_MAX {
                    self.counter = ROCK_COUNTER_MOVE_VALUE;
                }
            }
        } else {
            self.x_speed = -self.x_speed;
        }
    }

    /// The frame of the counter, clamped into `[0, 3]`.
    pub fn draw(&self) -> (r: Option<RenderCommand>)
        ensures
            r == Some(RenderCommand::Blit {
                tileset: ROCK_TILESET,
                tile: (ROCK_TILE_BASE + (if self.counter < 0 { 0 } else if self.counter > 3 { 3 } else { self.counter as int })) as u16,
                x: self.x,
                y: self.y,
                opaque: false,
                clip: None,
            }),
    {
        let frame: u16 = if self.counter < 0 { 0 } else if self.counter > 3 { 3 } else { self.counter as u16 };
        Some(RenderCommand::Blit { tileset: ROCK_TILESET, tile: ROCK_TILE_BASE + frame, x: self.x, y: self.y, opaque: false, clip: None })
    }

    /// Contact arms a kill of the player.
    pub fn on_touch(&mut self)
        ensures
            *final(self) == (RollingRockEntity { pending_kill: Some(DeathKind::OtherBackground), ..*old(self) }),
    {
        self.pending_kill = Some(DeathKind::OtherBackground);
    }

    /// Weapons do nothing to a rock.
    pub fn on_kill(&mut self, damage: i32, death_kind: DeathKind)
        ensures
            *final(self) == *old(self),
    {
    }

    pub fn bounding_box(&self) -> (r: Rect)
        ensures
            r == (Rect { x: self.x, y: self.y, w: self.w, h: self.h }),
    {
        Rect::new(self.x, self.y, self.w, self.h)
    }

    /// Takes the armed kill, if any.
    pub fn take_player_kill(&mut self) -> (r: Option<DeathKind>)
        ensures
            r == old(self).pending_kill,
            *final(self) == (RollingRockEntity { pending_kill: None, ..*old(self) }),
    {
        let r = self.pending_kill;
        self.pending_kill = None;
        r
    }
}

// ---------------------------------------------------------------------------
// Falling spike
// ---------------------------------------------------------------------------

pub const SPIKE_TILESET: u8 = 14;

pub const SPIKE_TILE_INDEX: u16 = 33;

/// Added to the fall speed each tick.
pub const SPIKE_FALLING_SPEED: i32 = 2;

/// Largest fall speed.
pub const SPIKE_FALLING_SPEED_MAX: i32 = 16;

/// Height of the zone below a spike in which the player arms it.
pub const SPIKE_TRIGGER_DEPTH: i32 = 0x3FFF_FFFF;

/// The row just below the box is off the map, or holds a solid or stair
/// cell within the box's columns.
pub open spec fn spike_floor_below(g: &BackgroundGrid, x: int, y: int, w: int, h: int) -> bool {
    let cy = block_of(y + h);
    ||| cy < 0
    ||| cy >= g.spec_height()
    ||| region_hits(g, max0(block_of(x)), max0(block_of(x + w - 1)), cy, cy, Probe::SolidOrStair)
}

fn spike_floor_below_exec(g: &BackgroundGrid, x: i32, y: i32, w: i32, h: i32) -> (r: bool)
    requires
        pos_ok(x as int) && pos_ok(y as int) && dim_ok(w as int) && dim_ok(h as int),
    ensures
        r == spike_floor_below(g, x as int, y as int, w as int, h as int),
{
    let cy = block_index(y + h);
    if cy < 0 || cy as usize >= g.height() {
        return true;
    }
    region_hits_exec(g, clamp0(block_index(x)), clamp0(block_index(x + w - 1)), cy, cy, Probe::SolidOrStair)
}

/// A ceiling spike.
#[derive(Clone, Copy, Debug)]
pub struct FallingSpikeEntity {
    pub x: i32,
    pub y: i32,
    pub w: i32,
    pub h: i32,
    /// Fall speed; zero while hanging.
    pub y_speed: i32,
    pub removed: bool,
    /// Last seen player box.
    pub last_player_bbox: Option<Rect>,
    pub pending_kill: Option<DeathKind>,
    /// The record the spike was built from.
    pub origin: JnObject,
}

impl FallingSpikeEntity {
    pub open spec fn wf(&self) -> bool {
        &&& pos_ok(self.x as int) && pos_ok(self.y as int)
        &&& dim_ok(self.w as int) && dim_ok(self.h as int)
        &&& -0x8000 <= self.y_speed <= 0x8000
    }

    /// The zone under the spike where the player arms it: the spike's
    /// columns, from its bottom edge down.
    pub open spec fn trigger_zone(&self) -> Rect {
        Rect { x: self.x, y: (self.y + self.h) as i32, w: self.w, h: SPIKE_TRIGGER_DEPTH }
    }

    /// A spike at the record's position, box at least one block, falling
    /// at the record's vertical speed (hanging when it has none).
    pub open spec fn spec_new(item: JnObject) -> FallingSpikeEntity {
        FallingSpikeEntity {
            x: item.x as i32,
            y: item.y as i32,
            w: block_dim(item.width),
            h: block_dim(item.height),
            y_speed: item.y_speed as i32,
            removed: false,
            last_player_bbox: None,
            pending_kill: None,
            origin: item,
        }
    }

    pub fn new(item: &JnObject) -> (r: FallingSpikeEntity)
        ensures
            r == Self::spec_new(*item),
            r.wf(),
    {
        FallingSpikeEntity {
            x: item.x as i32,
            y: item.y as i32,
            w: at_least_block(item.width),
            h: at_least_block(item.height),
            y_speed: item.y_speed as i32,
            removed: false,
            last_player_bbox: None,
            pending_kill: None,
            origin: *item,
        }
    }

    /// The save record of a spike still present: the origin with its
    /// position and fall speed.
    pub open spec fn spec_snapshot(&self) -> Option<JnObject> {
        if self.removed {
            None
        } else {
            Some(JnObject { x: self.x as u16, y: self.y as u16, y_speed: self.y_speed as i16, ..self.origin })
        }
    }

    pub fn snapshot(&self) -> (r: Option<JnObject>)
        ensures
            r == self.spec_snapshot(),
    {
        if self.removed {
            return None;
        }
        let mut obj = self.origin;
        obj.set_position(self.x as u16, self.y as u16);
        obj.set_speed(obj.x_speed, self.y_speed as i16);
        Some(obj)
    }

    /// The spike after one tick. A hanging spike is armed when the last
    /// seen player box overlaps its trigger zone. A falling spike that has
    /// floor right below is removed; otherwise it drops by its speed, which
    /// then grows by 2 up to 16.
    pub open spec fn spec_next(self, g: &BackgroundGrid) -> FallingSpikeEntity {
        if self.removed {
            self
        } else {
            let armed = self.y_speed == 0 && match self.last_player_bbox {
                Some(p) => p.spec_intersects(self.trigger_zone()),
                None => false,
            };
            let ys = if armed { SPIKE_FALLING_SPEED as int } else { self.y_speed as int };
            if ys <= 0 {
                self
            } else if spike_floor_below(g, self.x as int, self.y as int, self.w as int, self.h as int) {
                FallingSpikeEntity { y_speed: ys as i32, removed: true, ..self }
            } else {
                let ns = if ys < SPIKE_FALLING_SPEED_MAX {
                    if ys + SPIKE_FALLING_SPEED < SPIKE_FALLING_SPEED_MAX { ys + SPIKE_FALLING_SPEED } else { SPIKE_FALLING_SPEED_MAX as int }
                } else {
                    ys
                };
                FallingSpikeEntity { y: (self.y + ys) as i32, y_speed: ns as i32, ..self }
            }
        }
    }

    pub fn update(&mut self, g: &BackgroundGrid)
        requires
            old(self).wf(),
        ensures
            *final(self) == old(self).spec_next(g),
    {
        if self.removed {
            return;
        }
        if self.y_speed == 0 {
            match self.last_player_bbox {
                Some(p) => {
                    let zone = Rect::new(self.x, self.y + self.h, self.w, SPIKE_TRIGGER_DEPTH);
                    if p.intersects(&zone) {
                        self.y_speed = SPIKE_FALLING_SPEED;
                    }
                },
                None => {},
            }
        }
        if self.y_speed <= 0 {
            return;
        }
        if spike_floor_below_exec(g, self.x, self.y, self.w, self.h) {
            self.removed = true;
            return;
        }
        self.y = self.y + self.y_speed;
        if self.y_speed < SPIKE_FALLING_SPEED_MAX {
            let s = self.y_speed + SPIKE_FALLING_SPEED;
            self.y_speed = if s < SPIKE_FALLING_SPEED_MAX { s } else { SPIKE_FALLING_SPEED_MAX };
        }
    }

    pub fn draw(&self) -> (r: Option<RenderCommand>)
        ensures
            r == (if self.removed {
                None
            } else {
                Some(RenderCommand::Blit { tileset: SPIKE_TILESET, tile: SPIKE_TILE_INDEX, x: self.x, y: self.y, opaque: false, clip: None })
            }),
    {
        if self.removed {
            return None;
        }
        Some(RenderCommand::Blit { tileset: SPIKE_TILESET, tile: SPIKE_TILE_INDEX, x: self.x, y: self.y, opaque: false, clip: None })
    }

    /// Records the player's box for the trigger test.
    pub fn observe_player(&mut self, player_bbox: Rect)
        ensures
            *final(self) == (FallingSpikeEntity { last_player_bbox: Some(player_bbox), ..*old(self) }),
    {
        self.last_player_bbox = Some(player_bbox);
    }

    /// Contact arms a kill of the player while the spike is present.
    pub fn on_touch(&mut self)
        ensures
            *final(self) == (if old(self).removed {
                *old(self)
            } else {
                FallingSpikeEntity { pending_kill: Some(DeathKind::OtherBackground), ..*old(self) }
            }),
    {
        if self.removed {
            return;
        }
        self.pending_kill = Some(DeathKind::OtherBackground);
    }

    /// Weapons do nothing to a spike.
    pub fn on_kill(&mut self, damage: i32, death_kind: DeathKind)
        ensures
            *final(self) == *old(self),
    {
    }

    pub fn bounding_box(&self) -> (r: Rect)
        ensures
            r == (Rect { x: self.x, y: self.y, w: self.w, h: self.h }),
    {
        Rect::new(self.x, self.y, self.w, self.h)
    }

    pub fn should_remove(&self) -> (r: bool)
        ensures
            r == self.removed,
    {
        self.removed
    }

    /// Takes the armed kill, if any.
    pub fn take_player_kill(&mut self) -> (r: Option<DeathKind>)
        ensures
            r == old(self).pending_kill,
            *final(self) == (FallingSpikeEntity { pending_kill: None, ..*old(self) }),
    {
        let r = self.pending_kill;
        self.pending_kill = None;
        r
    }
}

} // verus!

verus! {

/// Saving a rock built from a record gives the record back.
pub proof fn lemma_rock_snapshot_round_trip(item: JnObject)
    ensures
        RollingRockEntity::spec_new(item).spec_snapshot() == Some(item),
{
    let r = RollingRockEntity::spec_new(item);
    assert(r.spec_snapshot().unwrap() == item);
}

/// Saving a spike built from a record gives the record back.
pub proof fn lemma_spike_snapshot_round_trip(item: JnObject)
    ensures
        FallingSpikeEntity::spec_new(item).spec_snapshot() == Some(item),
{
    let f = FallingSpikeEntity::spec_new(item);
    assert(f.spec_snapshot().unwrap() == item);
}

} // verus!
