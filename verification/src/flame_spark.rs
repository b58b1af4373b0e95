//! Stationary hazards that harm on contact: the flame, which burns through
//! its animation once and goes out, and the spark, which slides up and down
//! its vine column and shoves the player aside.

use vstd::prelude::*;

use crate::enemies::{dim_ok, pos_ok};
use crate::grid::BackgroundGrid;
use crate::items::{at_least_block, block_dim};
use crate::layout::{block_index, block_of, BLOCK_SIZE, ZAPHOLD_AFTER_TOUCH};
use crate::record::JnObject;
use crate::world::{DeathKind, Message, MessagePayload, MessageType, Rect, RenderCommand};

verus! {

pub const FLAME_TILESET: u8 = 12;

pub const FLAME_TILE_BASE: u16 = 0;

/// Distinct flame tiles.
pub const FLAME_NUMBER_TILE_SET: i32 = 6;

/// Ticks of the whole animation (each tile shown twice).
pub const FLAME_FRAME_COUNT: i32 = 12;

/// A flame that burns once through its animation.
#[derive(Clone, Copy, Debug)]
pub struct FlameEntity {
    pub x: i32,
    pub y: i32,
    pub w: i32,
    pub h: i32,
    pub counter: i32,
    pub removed: bool,
    pub pending_kill: Option<DeathKind>,
    /// The record the flame was built from.
    pub origin: JnObject,
}

/// Flame tile for counter `c`: a tile every two ticks, clamped into the six.
pub open spec fn flame_tile(c: int) -> u16 {
    let f = c / 2;
    (FLAME_TILE_BASE + (if f < 0 { 0 } else if f > 5 { 5 } else { f })) as u16
}

impl FlameEntity {
    pub open spec fn spec_new(item: JnObject) -> FlameEntity {
        FlameEntity {
            x: item.x as i32,
            y: item.y as i32,
            w: block_dim(item.width),
            h: block_dim(item.height),
            counter: 0,
            removed: false,
            pending_kill: None,
            origin: item,
        }
    }

    /// A fresh flame at the record's position, box at least one block.
    pub fn new(item: &JnObject) -> (r: FlameEntity)
        ensures
            r == Self::spec_new(*item),
    {
        FlameEntity {
            x: item.x as i32,
            y: item.y as i32,
            w: at_least_block(item.width),
            h: at_least_block(item.height),
            counter: 0,
            removed: false,
            pending_kill: None,
            origin: *item,
        }
    }

    /// The save record of a burning flame: the origin at its position.
    pub open spec fn spec_snapshot(&self) -> Option<JnObject> {
        if self.removed { None } else { Some(JnObject { x: self.x as u16, y: self.y as u16, ..self.origin }) }
    }

    pub fn snapshot(&self) -> (r: Option<JnObject>)
        ensures
            r == self.spec_snapshot(),
    {
        if self.removed {
            return None;
        }
        let mut obj = self.origin;
        obj.set_position(self.x as u16, self.y as u16);
        Some(obj)
    }

    /// One tick: the counter advances; at the end of the animation it steps
    /// back to the last frame and the flame goes out.
    pub fn update(&mut self)
        requires
            0 <= old(self).counter < FLAME_FRAME_COUNT,
        ensures
            *final(self) == (if old(self).removed {
                *old(self)
            } else if old(self).counter + 1 >= FLAME_FRAME_COUNT {
                FlameEntity { removed: true, ..*old(self) }
            } else {
                FlameEntity { counter: (old(self).counter + 1) as i32, ..*old(self) }
            }),
            0 <= final(self).counter < FLAME_FRAME_COUNT,
    {
        if self.removed {
            return;
        }
        self.counter = self.counter + 1;
        if self.counter >= FLAME_FRAME_COUNT {
            self.counter = self.counter - 1;
            self.removed = true;
        }
    }

    pub fn draw(&self) -> (r: Option<RenderCommand>)
        ensures
            r == (if self.removed {
                None
            } else {
                Some(RenderCommand::Blit { tileset: FLAME_TILESET, tile: flame_tile(self.counter as int), x: self.x, y: self.y, opaque: false, clip: None })
            }),
    {
        if self.removed {
            return None;
        }
        let f = self.counter / 2;
        let frame: u16 = if f < 0 { 0 } else if f > 5 { 5 } else { f as u16 };
        Some(RenderCommand::Blit { tileset: FLAME_TILESET, tile: FLAME_TILE_BASE + frame, x: self.x, y: self.y, opaque: false, clip: None })
    }

    /// Contact arms a kill of the player while the flame burns.
    pub fn on_touch(&mut self)
        ensures
            *final(self) == (if old(self).removed {
                *old(self)
            } else {
                FlameEntity { pending_kill: Some(DeathKind::OtherBackground), ..*old(self) }
            }),
    {
        if self.removed {
            return;
        }
        self.pending_kill = Some(DeathKind::OtherBackground);
    }

    /// Weapons do nothing to a flame.
    pub fn on_kill(&mut self, damage: i32, death_kind: DeathKind)
        ensures
            *final(self) == *old(self),
    {
    }

    pub fn bounding_box(&self) -> (r: Rect)
        ensures
            r == (Rect { x: self.x, y: self.y, w: self.w, h: self.h }),
    {
        Rect::new(self.x, self.y, self.w, self.h)
    }

    pub fn should_remove(&self) -> (r: bool)
        ensures
            r == self.removed,
    {
        self.removed
    }

    /// Takes the armed kill, if any.
    pub fn take_player_kill(&mut self) -> (r: Option<DeathKind>)
        ensures
            r == old(self).pending_kill,
            *final(self) == (FlameEntity { pending_kill: None, ..*old(self) }),
    {
        let r = self.pending_kill;
        self.pending_kill = None;
        r
    }
}

// ---------------------------------------------------------------------------
// Spark
// ---------------------------------------------------------------------------

pub const SPARK_TILESET: u8 = 61;

pub const SPARK_TILE_BASE: u16 = 0;

/// Frames of the spark animation.
pub const SPARK_NUMBER_TILE_SET: i32 = 4;

/// Travel speed when the record carries none.
pub const SPARK_DEFAULT_SPEED: i32 = 2;

/// Cell `(cx, cy)` is a vine; off the grid it is not.
pub open spec fn is_vine_cell(g: &BackgroundGrid, cx: int, cy: int) -> bool {
    g.in_bounds(cx, cy) && g.cell(cx, cy).spec_climbable()
}

fn is_vine_cell_exec(g: &BackgroundGrid, cx: i32, cy: i32) -> (r: bool)
    ensures
        r == is_vine_cell(g, cx as int, cy as int),
{
    if cx < 0 || cy < 0 {
        return false;
    }
    match g.get(cx as usize, cy as usize) {
        Some(c) => c.is_climbable(),
        None => false,
    }
}

/// The first row from `idx` down (below `end`) whose cell in column `bx` is
/// not a vine; `end - 1` when there is none.
pub open spec fn vine_bottom(g: &BackgroundGrid, bx: int, idx: int, end: int) -> int
    decreases end - idx,
{
    if idx >= end {
        end - 1
    } else if !is_vine_cell(g, bx, idx) {
        idx
    } else {
        vine_bottom(g, bx, idx + 1, end)
    }
}

/// One below the first row from `idx` up (to row 0) whose cell in column
/// `bx` is not a vine; `0` when there is none.
pub open spec fn vine_top(g: &BackgroundGrid, bx: int, idx: int) -> int
    decreases idx + 1,
{
    if idx <= -1 {
        0
    } else if !is_vine_cell(g, bx, idx) {
        idx + 1
    } else {
        vine_top(g, bx, idx - 1)
    }
}

/// Travel bounds `(top, bottom)` in pixels of a box at `(x, y)` of height
/// `h`: the vine run of its column around it, less half its height.
pub open spec fn spark_bounds(g: &BackgroundGrid, x: int, y: int, h: int) -> (int, int) {
    let bx = block_of(x);
    let half = h / 2;
    let stop = vine_bottom(g, bx, block_of(y + h), g.spec_height());
    let start = vine_top(g, bx, block_of(y));
    (start * BLOCK_SIZE - half, stop * BLOCK_SIZE - half)
}

fn spark_bounds_exec(g: &BackgroundGrid, x: i32, y: i32, h: i32) -> (r: (i32, i32))
    requires
        pos_ok(x as int) && pos_ok(y as int) && dim_ok(h as int),
    ensures
        (r.0 as int, r.1 as int) == spark_bounds(g, x as int, y as int, h as int),
{
    let bx = block_index(x);
    let end_y = g.height() as i32;
    let mut idx = block_index(y + h);
    let mut stop_y = end_y - 1;
    while idx < end_y
        invariant_except_break
            stop_y == end_y - 1,
        invariant
            end_y == g.spec_height(),
            0 <= end_y <= 4096,
            -0x0100_0000 <= idx <= 0x0100_0000,
            vine_bottom(g, bx as int, block_of(y + h), end_y as int) == vine_bottom(g, bx as int, idx as int, end_y as int),
        ensures
            stop_y == vine_bottom(g, bx as int, block_of(y + h), end_y as int),
            -0x0100_0000 <= stop_y <= 0x0100_0000,
        decreases end_y - idx,
    {
        if !is_vine_cell_exec(g, bx, idx) {
            stop_y = idx;
            break;
        }
        idx = idx + 1;
    }
    let mut idx2 = block_index(y);
    let mut start_y: i32 = 0;
    while idx2 > -1
        invariant_except_break
            start_y == 0,
        invariant
            -0x0100_0000 <= idx2 <= 0x0100_0000,
            vine_top(g, bx as int, block_of(y as int)) == vine_top(g, bx as int, idx2 as int),
        ensures
            start_y == vine_top(g, bx as int, block_of(y as int)),
            -0x0100_0000 <= start_y <= 0x0100_0001,
        decreases idx2 + 1,
    {
        if !is_vine_cell_exec(g, bx, idx2) {
            start_y = idx2 + 1;
            break;
        }
        idx2 = idx2 - 1;
    }
    let half = h / 2;
    (start_y * BLOCK_SIZE - half, stop_y * BLOCK_SIZE - half)
}

/// A spark on a vine column.
#[derive(Clone, Copy, Debug)]
pub struct SparkEntity {
    pub x: i32,
    pub y: i32,
    pub w: i32,
    pub h: i32,
    /// Vertical speed (negative up).
    pub y_speed: i32,
    /// Travel bounds, worked out on the first tick.
    pub bounds: Option<(i32, i32)>,
    pub counter: i32,
    pub zaphold: i32,
    pub pending_kill: Option<DeathKind>,
    /// The record the spark was built from.
    pub origin: JnObject,
}

impl SparkEntity {
    pub open spec fn wf(&self) -> bool {
        &&& pos_ok(self.x as int) && pos_ok(self.y as int)
        &&& dim_ok(self.w as int) && dim_ok(self.h as int)
        &&& -0x8000 <= self.y_speed <= 0x8000
        &&& -0x8000 <= self.counter <= 0x8000
        &&& 0 <= self.zaphold <= 0xFFFF
        &&& match self.bounds {
            Some(b) => pos_ok(b.0 as int) && pos_ok(b.1 as int),
            None => true,
        }
    }

    /// The spark a record describes, with a `w` by `h` sprite: the record's
    /// vertical speed (upward at 2 when it has none), frame and cooldown.
    pub open spec fn spec_new(item: JnObject, w: i32, h: i32) -> SparkEntity {
        SparkEntity {
            x: item.x as i32,
            y: item.y as i32,
            w,
            h,
            y_speed: if item.y_speed != 0 { item.y_speed as i32 } else { -2i32 },
            bounds: None,
            counter: item.counter as i32,
            zaphold: item.zap_hold as i32,
            pending_kill: None,
            origin: item,
        }
    }

    pub fn new(item: &JnObject, w: i32, h: i32) -> (r: SparkEntity)
        requires
            dim_ok(w as int),
            dim_ok(h as int),
        ensures
            r == Self::spec_new(*item, w, h),
            r.wf(),
    {
        let yd = item.y_speed as i32;
        SparkEntity {
            x: item.x as i32,
            y: item.y as i32,
            w,
            h,
            y_speed: if yd != 0 { yd } else { -SPARK_DEFAULT_SPEED },
            bounds: None,
            counter: item.counter as i32,
            zaphold: item.zap_hold as i32,
            pending_kill: None,
            origin: *item,
        }
    }

    /// The spark after one tick: its travel bounds are fixed on the first
    /// tick; the cooldown counts down; the frame cycles through four; it
    /// moves while heading up below the top or down above the bottom, and
    /// otherwise turns round.
    pub open spec fn spec_next(self, g: &BackgroundGrid) -> SparkEntity {
        let b = match self.bounds {
            Some(b) => b,
            None => {
                let sb = spark_bounds(g, self.x as int, self.y as int, self.h as int);
                (sb.0 as i32, sb.1 as i32)
            },
        };
        let z = if self.zaphold > 0 { self.zaphold - 1 } else { self.zaphold as int };
        let c = (self.counter + 1) % (SPARK_NUMBER_TILE_SET as int);
        let c2 = if self.counter + 1 < 0 && c != 0 { c - SPARK_NUMBER_TILE_SET } else { c };
        let moving = (self.y > b.0 && self.y_speed < 0) || (self.y < b.1 && self.y_speed > 0);
        SparkEntity {
            bounds: Some(b),
            zaphold: z as i32,
            counter: c2 as i32,
            y: if moving { (self.y + self.y_speed) as i32 } else { self.y },
            y_speed: if moving { self.y_speed } else { (-self.y_speed) as i32 },
            ..self
        }
    }

    pub fn update(&mut self, g: &BackgroundGrid)
        requires
            old(self).wf(),
        ensures
            *final(self) == old(self).spec_next(g),
    {
        let (top, bottom) = match self.bounds {
            Some(b) => b,
            None => {
                let b = spark_bounds_exec(g, self.x, self.y, self.h);
                self.bounds = Some(b);
                b
            },
        };
        if self.zaphold > 0 {
            self.zaphold = self.zaphold - 1;
        }
        self.counter = (self.counter + 1) % SPARK_NUMBER_TILE_SET;
        if (self.y > top && self.y_speed < 0) || (self.y < bottom && self.y_speed > 0) {
            self.y = self.y + self.y_speed;
        } else {
            self.y_speed = -self.y_speed;
        }
    }

    pub fn draw(&self) -> (r: Option<RenderCommand>)
        ensures
            r == Some(RenderCommand::Blit {
                tileset: SPARK_TILESET,
                tile: (SPARK_TILE_BASE + crate::giant_ant::walk_frame(self.counter as int, SPARK_NUMBER_TILE_SET as int)) as u16,
                x: self.x,
                y: self.y,
                opaque: false,
                clip: None,
            }),
    {
        let frame = crate::giant_ant::walk_frame_exec(self.counter, SPARK_NUMBER_TILE_SET);
        Some(RenderCommand::Blit { tileset: SPARK_TILESET, tile: SPARK_TILE_BASE + frame, x: self.x, y: self.y, opaque: false, clip: None })
    }

    /// Contact, unless cooling down: arms the cooldown and an enemy kill and
    /// shoves the player a block to the left.
    pub fn on_touch(&mut self) -> (msgs: Vec<Message>)
        ensures
            old(self).zaphold > 0 ==> *final(self) == *old(self) && msgs@ == Seq::<Message>::empty(),
            old(self).zaphold <= 0 ==> *final(self) == (SparkEntity { zaphold: ZAPHOLD_AFTER_TOUCH, pending_kill: Some(DeathKind::Enemy), ..*old(self) })
                && msgs@ == seq![Message { msg_type: MessageType::PlayerMove, payload: MessagePayload::Move { dx: -16i32, dy: 0 } }],
    {
        let mut msgs: Vec<Message> = Vec::new();
        if self.zaphold > 0 {
            proof { assert(msgs@ =~= Seq::<Message>::empty()); }
            return msgs;
        }
        self.zaphold = ZAPHOLD_AFTER_TOUCH;
        msgs.push(Message { msg_type: MessageType::PlayerMove, payload: MessagePayload::Move { dx: -BLOCK_SIZE, dy: 0 } });
        self.pending_kill = Some(DeathKind::Enemy);
        proof {
            assert(msgs@ =~= seq![Message { msg_type: MessageType::PlayerMove, payload: MessagePayload::Move { dx: -16i32, dy: 0 } }]);
        }
        msgs
    }

    /// Sparks cannot be killed.
    pub fn on_kill(&mut self, damage: i32, death_kind: DeathKind)
        ensures
            *final(self) == *old(self),
    {
    }

    pub fn bounding_box(&self) -> (r: Rect)
        ensures
            r == (Rect { x: self.x, y: self.y, w: self.w, h: self.h }),
    {
        Rect::new(self.x, self.y, self.w, self.h)
    }

    /// The save record: the origin with position, vertical speed (none
    /// again when the record had none and the spark still heads up at the
    /// default speed), frame and cooldown.
    pub open spec fn spec_snapshot(&self) -> Option<JnObject> {
        Some(JnObject {
            x: self.x as u16,
            y: self.y as u16,
            y_speed: if self.origin.y_speed == 0 && self.y_speed == -2 { 0 } else { self.y_speed as i16 },
            counter: self.counter as i16,
            zap_hold: self.zaphold as u16,
            ..self.origin
        })
    }

    pub fn snapshot(&self) -> (r: Option<JnObject>)
        ensures
            r == self.spec_snapshot(),
    {
        let mut obj = self.origin;
        obj.set_position(self.x as u16, self.y as u16);
        let ys: i16 = if obj.y_speed == 0 && self.y_speed == -SPARK_DEFAULT_SPEED { 0 } else { self.y_speed as i16 };
        obj.set_speed(obj.x_speed, ys);
        obj.set_counter(self.counter as i16);
        obj.set_zap_hold(self.zaphold as u16);
        Some(obj)
    }

    /// Takes the armed kill, if any.
    pub fn take_player_kill(&mut self) -> (r: Option<DeathKind>)
        ensures
            r == old(self).pending_kill,
            *final(self) == (SparkEntity { pending_kill: None, ..*old(self) }),
    {
        let r = self.pending_kill;
        self.pending_kill = None;
        r
    }
}

/// Saving a spark built from a record gives the record back.
pub proof fn lemma_spark_snapshot_round_trip(item: JnObject, w: i32, h: i32)
    ensures
        SparkEntity::spec_new(item, w, h).spec_snapshot() == Some(item),
{
    let s = SparkEntity::spec_new(item, w, h);
    assert(s.spec_snapshot().unwrap() == item);
}

} // verus!
