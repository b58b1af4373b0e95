//! The gator: a two-tile-wide floor patroller that turns round at walls and
//! gaps.

use vstd::prelude::*;

use crate::collision::{blocked_ahead, floor_under_next, slide_x, spec_blocked_ahead, spec_floor_under_next};
use crate::enemies::{dim_ok, pos_ok, score_message, slid_x, y_adjust};
use crate::grid::BackgroundGrid;
use crate::layout::ZAPHOLD_AFTER_TOUCH;
use crate::record::JnObject;
use crate::world::{DeathKind, Message, MessagePayload, MessageType, Rect, RenderCommand};

verus! {

pub const GATOR_TILESET: u8 = 39;

/// Left part facing right.
pub const GATOR_RIGHT_LEFT_TILE: u16 = 0;

/// Right part facing right.
pub const GATOR_RIGHT_RIGHT_TILE: u16 = 4;

/// Left part facing left.
pub const GATOR_LEFT_LEFT_TILE: u16 = 12;

/// Right part facing left.
pub const GATOR_LEFT_RIGHT_TILE: u16 = 8;

/// Width of one of the two tiles.
pub const GATOR_TILE_W: i32 = 32;

/// Frames of the animation.
pub const GATOR_NUMBER_TILE_SET: i32 = 4;

/// Patrol speed.
pub const GATOR_X_SPEED: i32 = 3;

/// Score awarded when a gator is killed.
pub const GATOR_SCORE_VALUE: i32 = 200;

/// A two-tile floor patroller.
#[derive(Clone, Copy, Debug)]
pub struct GatorEntity {
    pub x: i32,
    pub y: i32,
    pub w: i32,
    pub h: i32,
    pub x_speed: i32,
    pub counter: i32,
    pub dead: bool,
    pub score_dispatched: bool,
    pub zaphold: i32,
    pub pending_kill: Option<DeathKind>,
    /// The record the gator was built from.
    pub origin: JnObject,
}

impl GatorEntity {
    /// Bounds keeping a tick free of overflow.
    pub open spec fn wf(&self) -> bool {
        &&& pos_ok(self.x as int) && pos_ok(self.y as int)
        &&& dim_ok(self.w as int) && dim_ok(self.h as int)
        &&& -0x8000 <= self.x_speed <= 0x8000
        &&& 0 <= self.counter < GATOR_NUMBER_TILE_SET
        &&& 0 <= self.zaphold <= 0xFFFF
    }

    /// The gator a record describes, drawn with tiles `h` high: two tiles
    /// wide, raised so its feet stay where the record's box ends, moving at
    /// the record's speed (rightward at 3 when it has none), resuming its
    /// frame (when the counter names one) and cooldown.
    pub open spec fn spec_new(item: JnObject, h: i32) -> GatorEntity {
        GatorEntity {
            x: item.x as i32,
            y: (item.y - y_adjust(h as int, item.height as int)) as i32,
            w: 64i32,
            h,
            x_speed: if item.x_speed != 0 { item.x_speed as i32 } else { GATOR_X_SPEED },
            counter: if 0 <= item.counter < 4 { item.counter as i32 } else { 0 },
            dead: false,
            score_dispatched: false,
            zaphold: item.zap_hold as i32,
            pending_kill: None,
            origin: item,
        }
    }

    pub fn new(item: &JnObject, h: i32) -> (r: GatorEntity)
        requires
            dim_ok(h as int),
        ensures
            r == Self::spec_new(*item, h),
            r.wf(),
    {
        let y_adj = crate::enemies::y_adjust_exec(h, item.height as i32);
        let xd = item.x_speed as i32;
        let c = item.counter as i32;
        GatorEntity {
            x: item.x as i32,
            y: item.y as i32 - y_adj,
            w: GATOR_TILE_W * 2,
            h,
            x_speed: if xd != 0 { xd } else { GATOR_X_SPEED },
            counter: if 0 <= c && c < 4 { c } else { 0 },
            dead: false,
            score_dispatched: false,
            zaphold: item.zap_hold as i32,
            pending_kill: None,
            origin: *item,
        }
    }

    /// The save record of a live gator: the origin with its position
    /// (sprite raise undone), speed (none again when the record had none and
    /// the gator still heads right at the default), frame and cooldown.
    pub open spec fn spec_snapshot(&self) -> Option<JnObject> {
        if self.dead {
            None
        } else {
            Some(JnObject {
                x: self.x as u16,
                y: (self.y + y_adjust(self.h as int, self.origin.height as int)) as u16,
                x_speed: if self.x_speed == GATOR_X_SPEED && self.origin.x_speed == 0 { 0 } else { self.x_speed as i16 },
                counter: self.counter as i16,
                zap_hold: self.zaphold as u16,
                ..self.origin
            })
        }
    }

    pub fn snapshot(&self) -> (r: Option<JnObject>)
        requires
            self.wf(),
        ensures
            r == self.spec_snapshot(),
    {
        if self.dead {
            return None;
        }
        let mut obj = self.origin;
        let y_adj = crate::enemies::y_adjust_exec(self.h, obj.height as i32);
        obj.set_position(self.x as u16, (self.y + y_adj) as u16);
        let xs: i16 = if self.x_speed == GATOR_X_SPEED && obj.x_speed == 0 { 0 } else { self.x_speed as i16 };
        obj.set_speed(xs, obj.y_speed);
        obj.set_counter(self.counter as i16);
        obj.set_zap_hold(self.zaphold as u16);
        Some(obj)
    }

    /// The gator after one tick and its messages. A dead gator pays its
    /// score once. Otherwise it slides ahead when the way is open and
    /// floored, or turns round; the frame advances, wrapping at four.
    pub open spec fn spec_step(self, g: &BackgroundGrid) -> (GatorEntity, Seq<Message>) {
        if self.dead {
            if !self.score_dispatched {
                (GatorEntity { score_dispatched: true, ..self }, seq![score_message(GATOR_SCORE_VALUE)])
            } else {
                (self, seq![])
            }
        } else {
            let z = if self.zaphold > 0 { self.zaphold - 1 } else { self.zaphold as int };
            let open = !spec_blocked_ahead(g, self.x as int, self.y as int, self.w as int, self.h as int, self.x_speed as int)
                && spec_floor_under_next(g, self.x as int, self.y as int, self.w as int, self.h as int, self.x_speed as int);
            let moved = if open {
                GatorEntity { x: slid_x(g, self.x as int, self.y as int, self.w as int, self.h as int, self.x_speed as int) as i32, ..self }
            } else {
                GatorEntity { x_speed: (-self.x_speed) as i32, ..self }
            };
            let c1 = self.counter + 1;
            let c = if c1 >= GATOR_NUMBER_TILE_SET { 0 } else { c1 };
            (GatorEntity { zaphold: z as i32, counter: c as i32, ..moved }, seq![])
        }
    }

    /// One tick of the gator; returns the messages it sends.
    pub fn update(&mut self, g: &BackgroundGrid) -> (msgs: Vec<Message>)
        requires
            old(self).wf(),
        ensures
            *final(self) == old(self).spec_step(g).0,
            msgs@ == old(self).spec_step(g).1,
    {
        let mut msgs: Vec<Message> = Vec::new();
        if self.dead {
            if !self.score_dispatched {
                self.score_dispatched = true;
                msgs.push(Message { msg_type: MessageType::InventoryPoint, payload: MessagePayload::Count(GATOR_SCORE_VALUE) });
                proof { assert(msgs@ =~= seq![score_message(GATOR_SCORE_VALUE)]); }
            }
            return msgs;
        }
        if self.zaphold > 0 {
            self.zaphold = self.zaphold - 1;
        }
        if !blocked_ahead(g, self.x, self.y, self.w, self.h, self.x_speed)
            && floor_under_next(g, self.x, self.y, self.w, self.h, self.x_speed)
        {
            let mut nx = self.x;
            slide_x(g, &mut nx, self.y, self.w, self.h, self.x_speed);
            self.x = nx;
        } else {
            self.x_speed = -self.x_speed;
        }
        self.counter = self.counter + 1;
        if self.counter >= GATOR_NUMBER_TILE_SET {
            self.counter = 0;
        }
        proof { assert(msgs@ =~= seq![]); }
        msgs
    }

    /// The two tiles side by side: facing right (positive speed) tiles
    /// `0 + f` and `4 + f`, otherwise `12 + f` and `8 + f`, the second 32
    /// pixels to the right.
    pub open spec fn spec_draw_multi(&self) -> Seq<RenderCommand> {
        if self.dead {
            seq![]
        } else {
            let f = self.counter as int;
            let (lt, rt) = if self.x_speed > 0 {
                (GATOR_RIGHT_LEFT_TILE + f, GATOR_RIGHT_RIGHT_TILE + f)
            } else {
                (GATOR_LEFT_LEFT_TILE + f, GATOR_LEFT_RIGHT_TILE + f)
            };
            seq![
                RenderCommand::Blit { tileset: GATOR_TILESET, tile: lt as u16, x: self.x, y: self.y, opaque: false, clip: None },
                RenderCommand::Blit { tileset: GATOR_TILESET, tile: rt as u16, x: (self.x + GATOR_TILE_W) as i32, y: self.y, opaque: false, clip: None },
            ]
        }
    }

    pub fn draw_multi(&self) -> (r: Vec<RenderCommand>)
        requires
            self.wf(),
        ensures
            r@ == self.spec_draw_multi(),
    {
        let mut v: Vec<RenderCommand> = Vec::new();
        if self.dead {
            proof { assert(v@ =~= seq![]); }
            return v;
        }
        let frame = self.counter as u16;
        let (lt, rt) = if self.x_speed > 0 {
            (GATOR_RIGHT_LEFT_TILE + frame, GATOR_RIGHT_RIGHT_TILE + frame)
        } else {
            (GATOR_LEFT_LEFT_TILE + frame, GATOR_LEFT_RIGHT_TILE + frame)
        };
        v.push(RenderCommand::Blit { tileset: GATOR_TILESET, tile: lt, x: self.x, y: self.y, opaque: false, clip: None });
        v.push(RenderCommand::Blit { tileset: GATOR_TILESET, tile: rt, x: self.x + GATOR_TILE_W, y: self.y, opaque: false, clip: None });
        proof { assert(v@ =~= self.spec_draw_multi()); }
        v
    }

    /// The first of the two tiles.
    pub fn draw(&self) -> (r: Option<RenderCommand>)
        requires
            self.wf(),
        ensures
            r == (if self.dead { None } else { Some(self.spec_draw_multi()[0]) }),
    {
        let v = self.draw_multi();
        if v.len() == 0 {
            None
        } else {
            Some(v[0])
        }
    }

    /// Contact with the player: unless dead or cooling down, arms an enemy
    /// kill and the cooldown.
    pub fn on_touch(&mut self)
        ensures
            *final(self) == (if old(self).dead || old(self).zaphold > 0 {
                *old(self)
            } else {
                GatorEntity { zaphold: ZAPHOLD_AFTER_TOUCH, pending_kill: Some(DeathKind::Enemy), ..*old(self) }
            }),
    {
        if self.dead || self.zaphold > 0 {
            return;
        }
        self.zaphold = ZAPHOLD_AFTER_TOUCH;
        self.pending_kill = Some(DeathKind::Enemy);
    }

    /// A weapon hit of at least one point kills the gator.
    pub fn on_kill(&mut self, damage: i32, death_kind: DeathKind)
        ensures
            *final(self) == (if old(self).dead || damage < 1 { *old(self) } else { GatorEntity { dead: true, ..*old(self) } }),
    {
        if self.dead || damage < 1 {
            return;
        }
        self.dead = true;
    }

    pub fn bounding_box(&self) -> (r: Rect)
        ensures
            r == (Rect { x: self.x, y: self.y, w: self.w, h: self.h }),
    {
        Rect::new(self.x, self.y, self.w, self.h)
    }

    pub fn is_dead(&self) -> (r: bool)
        ensures
            r == self.dead,
    {
        self.dead
    }

    /// Takes the armed kill, if any.
    pub fn take_player_kill(&mut self) -> (r: Option<DeathKind>)
        ensures
            r == old(self).pending_kill,
            *final(self) == (GatorEntity { pending_kill: None, ..*old(self) }),
    {
        let r = self.pending_kill;
        self.pending_kill = None;
        r
    }
}

} // verus!

verus! {

/// Saving a gator built from a record gives the record back, for every
/// record whose counter names a frame.
pub proof fn lemma_gator_snapshot_round_trip(item: JnObject, h: i32)
    requires
        dim_ok(h as int),
        0 <= item.counter < 4,
    ensures
        GatorEntity::spec_new(item, h).spec_snapshot() == Some(item),
{
    let g = GatorEntity::spec_new(item, h);
    assert(g.spec_snapshot().unwrap() == item);
}

} // verus!
