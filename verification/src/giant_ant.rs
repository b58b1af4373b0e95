//! The giant ant: marches along a floor, pausing and turning round at
//! walls and gaps.

use vstd::prelude::*;

use crate::collision::{blocked_ahead, floor_under_next, slide_x, spec_blocked_ahead, spec_floor_under_next};
use crate::enemies::{dim_ok, pos_ok, score_message, slid_x, y_adjust};
use crate::grid::BackgroundGrid;
use crate::layout::ZAPHOLD_AFTER_TOUCH;
use crate::record::JnObject;
use crate::world::{DeathKind, Message, MessagePayload, MessageType, Rect, RenderCommand};

verus! {

pub const ANT_TILESET: u8 = 10;

pub const ANT_TILE_BASE: u16 = 0;

/// Frames of the walk cycle.
pub const ANT_NUMBER_TILE_SET: i32 = 4;

/// Default march speed.
pub const ANT_X_SPEED: i32 = 4;

/// Score awarded when an ant is killed.
pub const ANT_SCORE_VALUE: i32 = 200;

/// Ticks an ant holds still after turning.
pub const ANT_TURN_PAUSE: i32 = 2;

/// Walk frame for a counter: clamped into `[0, n - 1]` (a negative counter
/// shows its low 16 bits, clamped).
pub open spec fn walk_frame(counter: int, n: int) -> int {
    let c = (counter as u16) as int;
    if c < n - 1 { c } else { n - 1 }
}

pub fn walk_frame_exec(counter: i32, n: i32) -> (r: u16)
    requires
        1 <= n <= 0xFFFF,
    ensures
        r as int == walk_frame(counter as int, n as int),
        r < n,
{
    let c = counter as u16;
    let top = (n - 1) as u16;
    if c < top { c } else { top }
}

/// A marching enemy.
#[derive(Clone, Copy, Debug)]
pub struct GiantAntEntity {
    pub x: i32,
    pub y: i32,
    pub w: i32,
    pub h: i32,
    pub x_speed: i32,
    /// Ticks left to hold still after a turn.
    pub turn_pause: i32,
    pub counter: i32,
    pub dead: bool,
    pub score_dispatched: bool,
    pub zaphold: i32,
    pub pending_kill: Option<DeathKind>,
    /// The record the ant was built from.
    pub origin: JnObject,
}

impl GiantAntEntity {
    /// Bounds keeping a tick free of overflow.
    pub open spec fn wf(&self) -> bool {
        &&& pos_ok(self.x as int) && pos_ok(self.y as int)
        &&& dim_ok(self.w as int) && dim_ok(self.h as int)
        &&& -0x8000 <= self.x_speed <= 0x8000
        &&& 0 <= self.turn_pause <= ANT_TURN_PAUSE
        &&& -0x8000 <= self.counter <= 0x8000
        &&& 0 <= self.zaphold <= 0xFFFF
    }

    /// The ant a record describes, drawn with a `w` by `h` sprite: raised so
    /// its feet stay where the record's box ends, marching at the record's
    /// speed (rightward at 4 when it has none).
    pub open spec fn spec_new(item: JnObject, w: i32, h: i32) -> GiantAntEntity {
        GiantAntEntity {
            x: item.x as i32,
            y: (item.y - y_adjust(h as int, item.height as int)) as i32,
            w,
            h,
            x_speed: if item.x_speed != 0 { item.x_speed as i32 } else { ANT_X_SPEED },
            turn_pause: 0,
            counter: item.counter as i32,
            dead: false,
            score_dispatched: false,
            zaphold: item.zap_hold as i32,
            pending_kill: None,
            origin: item,
        }
    }

    pub fn new(item: &JnObject, w: i32, h: i32) -> (r: GiantAntEntity)
        requires
            dim_ok(w as int),
            dim_ok(h as int),
        ensures
            r == Self::spec_new(*item, w, h),
            r.wf(),
    {
        let y_adj = crate::enemies::y_adjust_exec(h, item.height as i32);
        let xd = item.x_speed as i32;
        GiantAntEntity {
            x: item.x as i32,
            y: item.y as i32 - y_adj,
            w,
            h,
            x_speed: if xd != 0 { xd } else { ANT_X_SPEED },
            turn_pause: 0,
            counter: item.counter as i32,
            dead: false,
            score_dispatched: false,
            zaphold: item.zap_hold as i32,
            pending_kill: None,
            origin: *item,
        }
    }

    /// The ant after one tick and its messages. A dead ant pays its score
    /// once. A pausing ant only counts its pause down. Otherwise it slides
    /// ahead when the way is open and floored, or turns round, pauses two
    /// ticks and restarts its walk cycle; the frame then advances, wrapping
    /// at four.
    pub open spec fn spec_step(self, g: &BackgroundGrid) -> (GiantAntEntity, Seq<Message>) {
        if self.dead {
            if !self.score_dispatched {
                (GiantAntEntity { score_dispatched: true, ..self }, seq![score_message(ANT_SCORE_VALUE)])
            } else {
                (self, seq![])
            }
        } else {
            let z = if self.zaphold > 0 { self.zaphold - 1 } else { self.zaphold as int };
            if self.turn_pause > 0 {
                (GiantAntEntity { zaphold: z as i32, turn_pause: (self.turn_pause - 1) as i32, ..self }, seq![])
            } else {
                let open = !spec_blocked_ahead(g, self.x as int, self.y as int, self.w as int, self.h as int, self.x_speed as int)
                    && spec_floor_under_next(g, self.x as int, self.y as int, self.w as int, self.h as int, self.x_speed as int);
                let moved = if open {
                    GiantAntEntity { x: slid_x(g, self.x as int, self.y as int, self.w as int, self.h as int, self.x_speed as int) as i32, ..self }
                } else {
                    GiantAntEntity { x_speed: (-self.x_speed) as i32, turn_pause: ANT_TURN_PAUSE, counter: 0, ..self }
                };
                let c1 = moved.counter + 1;
                let c = if c1 >= ANT_NUMBER_TILE_SET { 0 } else { c1 };
                (GiantAntEntity { zaphold: z as i32, counter: c as i32, ..moved }, seq![])
            }
        }
    }

    /// One tick of the ant; returns the messages it sends.
    pub fn update(&mut self, g: &BackgroundGrid) -> (msgs: Vec<Message>)
        requires
            old(self).wf(),
        ensures
            *final(self) == old(self).spec_step(g).0,
            msgs@ == old(self).spec_step(g).1,
    {
        let mut msgs: Vec<Message> = Vec::new();
        if self.dead {
            if !self.score_dispatched {
                self.score_dispatched = true;
                msgs.push(Message { msg_type: MessageType::InventoryPoint, payload: MessagePayload::Count(ANT_SCORE_VALUE) });
                proof { assert(msgs@ =~= seq![score_message(ANT_SCORE_VALUE)]); }
            }
            return msgs;
        }
        if self.zaphold > 0 {
            self.zaphold = self.zaphold - 1;
        }
        if self.turn_pause > 0 {
            self.turn_pause = self.turn_pause - 1;
            proof { assert(msgs@ =~= seq![]); }
            return msgs;
        }
        if !blocked_ahead(g, self.x, self.y, self.w, self.h, self.x_speed)
            && floor_under_next(g, self.x, self.y, self.w, self.h, self.x_speed)
        {
            let mut nx = self.x;
            slide_x(g, &mut nx, self.y, self.w, self.h, self.x_speed);
            self.x = nx;
        } else {
            self.x_speed = -self.x_speed;
            self.turn_pause = ANT_TURN_PAUSE;
            self.counter = 0;
        }
        self.counter = self.counter + 1;
        if self.counter >= ANT_NUMBER_TILE_SET {
            self.counter = 0;
        }
        proof { assert(msgs@ =~= seq![]); }
        msgs
    }

    /// The walk frame (clamped into the cycle); nothing once dead.
    pub fn draw(&self) -> (r: Option<RenderCommand>)
        ensures
            r == (if self.dead {
                None
            } else {
                Some(RenderCommand::Blit {
                    tileset: ANT_TILESET,
                    tile: (ANT_TILE_BASE + walk_frame(self.counter as int, ANT_NUMBER_TILE_SET as int)) as u16,
                    x: self.x,
                    y: self.y,
                    opaque: false,
                    clip: None,
                })
            }),
    {
        if self.dead {
            return None;
        }
        let frame = walk_frame_exec(self.counter, ANT_NUMBER_TILE_SET);
        Some(RenderCommand::Blit { tileset: ANT_TILESET, tile: ANT_TILE_BASE + frame, x: self.x, y: self.y, opaque: false, clip: None })
    }

    /// Contact with the player: unless dead or cooling down, arms an enemy
    /// kill and the cooldown.
    pub fn on_touch(&mut self)
        ensures
            *final(self) == (if old(self).dead || old(self).zaphold > 0 {
                *old(self)
            } else {
                GiantAntEntity { zaphold: ZAPHOLD_AFTER_TOUCH, pending_kill: Some(DeathKind::Enemy), ..*old(self) }
            }),
    {
        if self.dead || self.zaphold > 0 {
            return;
        }
        self.zaphold = ZAPHOLD_AFTER_TOUCH;
        self.pending_kill = Some(DeathKind::Enemy);
    }

    /// A weapon hit of at least one point kills the ant.
    pub fn on_kill(&mut self, damage: i32, death_kind: DeathKind)
        ensures
            *final(self) == (if old(self).dead || damage < 1 { *old(self) } else { GiantAntEntity { dead: true, ..*old(self) } }),
    {
        if self.dead || damage < 1 {
            return;
        }
        self.dead = true;
    }

    pub fn bounding_box(&self) -> (r: Rect)
        ensures
            r == (Rect { x: self.x, y: self.y, w: self.w, h: self.h }),
    {
        Rect::new(self.x, self.y, self.w, self.h)
    }

    pub fn is_dead(&self) -> (r: bool)
        ensures
            r == self.dead,
    {
        self.dead
    }

    /// The save record of a live ant: the origin with position (sprite raise
    /// undone), march speed (zero again when the record had none and the ant
    /// still marches right at the default), frame and cooldown.
    pub open spec fn spec_snapshot(&self) -> Option<JnObject> {
        if self.dead {
            None
        } else {
            Some(JnObject {
                x: self.x as u16,
                y: (self.y + y_adjust(self.h as int, self.origin.height as int)) as u16,
                x_speed: if self.x_speed == ANT_X_SPEED && self.origin.x_speed == 0 { 0 } else { self.x_speed as i16 },
                counter: self.counter as i16,
                zap_hold: self.zaphold as u16,
                ..self.origin
            })
        }
    }

    pub fn snapshot(&self) -> (r: Option<JnObject>)
        requires
            self.wf(),
        ensures
            r == self.spec_snapshot(),
    {
        if self.dead {
            return None;
        }
        let mut obj = self.origin;
        let y_adj = crate::enemies::y_adjust_exec(self.h, obj.height as i32);
        obj.set_position(self.x as u16, (self.y + y_adj) as u16);
        let xs: i16 = if self.x_speed == ANT_X_SPEED && obj.x_speed == 0 { 0 } else { self.x_speed as i16 };
        obj.set_speed(xs, obj.y_speed);
        obj.set_counter(self.counter as i16);
        obj.set_zap_hold(self.zaphold as u16);
        Some(obj)
    }

    /// Takes the armed kill, if any.
    pub fn take_player_kill(&mut self) -> (r: Option<DeathKind>)
        ensures
            r == old(self).pending_kill,
            *final(self) == (GiantAntEntity { pending_kill: None, ..*old(self) }),
    {
        let r = self.pending_kill;
        self.pending_kill = None;
        r
    }
}

/// Saving an ant built from a record gives the record back.
pub proof fn lemma_ant_snapshot_round_trip(item: JnObject, w: i32, h: i32)
    requires
        dim_ok(w as int),
        dim_ok(h as int),
    ensures
        GiantAntEntity::spec_new(item, w, h).spec_snapshot() == Some(item),
{
    let a = GiantAntEntity::spec_new(item, w, h);
    assert(a.spec_snapshot().unwrap() == item);
}

} // verus!
