//! The crab: patrols a floor, turning at walls and gaps; on a vine column
//! it may start climbing, rising to a ceiling and coming back down.

use vstd::prelude::*;

use crate::collision::{
    blocked_ahead, dist, floor_under_next, is_on_vine, lemma_slide_y_lands, sign, slide_y, spec_blocked_ahead, spec_floor_under_next,
    spec_is_on_climbable,
};
use crate::enemies::{dim_ok, pos_ok, score_message, slid_y, y_adjust};
use crate::grid::BackgroundGrid;
use crate::layout::ZAPHOLD_AFTER_TOUCH;
use crate::record::JnObject;
use crate::rng::{range_value, xorshift, EnemyRng};
use crate::world::{DeathKind, Message, MessagePayload, MessageType, Rect, RenderCommand};

verus! {

pub const CRAB_TILESET: u8 = 38;

pub const CRAB_TILE_BASE: u16 = 0;

/// Frames of the walk cycle.
pub const CRAB_NUMBER_TILE_SET: i32 = 4;

/// Default patrol speed.
pub const CRAB_X_SPEED: i32 = 4;

/// Score awarded when a crab is killed.
pub const CRAB_SCORE_VALUE: i32 = 200;

/// Vertical speed while climbing.
pub const CRAB_CLIMB_SPEED: i32 = 2;

/// On a vine a crab starts climbing when its draw in `[0, 10)` is zero.
pub const CRAB_CLIMB_CHANCE_DEN: i32 = 10;

/// A patrolling, vine-climbing enemy.
#[derive(Clone, Copy, Debug)]
pub struct CrabEntity {
    pub x: i32,
    pub y: i32,
    pub w: i32,
    pub h: i32,
    pub x_speed: i32,
    /// Climb speed (negative up, positive down); zero while patrolling.
    pub y_speed: i32,
    pub climbing: bool,
    pub counter: i32,
    pub dead: bool,
    pub score_dispatched: bool,
    pub zaphold: i32,
    pub pending_kill: Option<DeathKind>,
    pub rng: EnemyRng,
    /// The record the crab was built from.
    pub origin: JnObject,
}

/// The seed of a crab's generator at `(x, y)`.
pub open spec fn spec_crab_seed(x: i32, y: i32) -> u32 {
    ((((x as u32) as int * 0x8DA6_B343) % 0x1_0000_0000) as u32) ^ (y as u32)
}

impl CrabEntity {
    /// Bounds keeping a tick free of overflow.
    pub open spec fn wf(&self) -> bool {
        &&& pos_ok(self.x as int) && pos_ok(self.y as int)
        &&& dim_ok(self.w as int) && dim_ok(self.h as int)
        &&& -0x8000 <= self.x_speed <= 0x8000
        &&& -0x8000 <= self.y_speed <= 0x8000
        &&& -0x8000 <= self.counter <= 0x8000
        &&& 0 <= self.zaphold <= 0xFFFF
    }

    /// The crab a record describes, drawn with a `w` by `h` sprite: raised
    /// so its feet stay where the record's box ends, walking at the
    /// record's speed (rightward at 4 when it has none), climbing when the
    /// record carries a vertical speed.
    pub open spec fn spec_new(item: JnObject, w: i32, h: i32) -> CrabEntity {
        let y = (item.y - y_adjust(h as int, item.height as int)) as i32;
        CrabEntity {
            x: item.x as i32,
            y,
            w,
            h,
            x_speed: if item.x_speed != 0 { item.x_speed as i32 } else { CRAB_X_SPEED },
            y_speed: item.y_speed as i32,
            climbing: item.y_speed != 0,
            counter: item.counter as i32,
            dead: false,
            score_dispatched: false,
            zaphold: item.zap_hold as i32,
            pending_kill: None,
            rng: EnemyRng::spec_new(spec_crab_seed(item.x as i32, y)),
            origin: item,
        }
    }

    pub fn new(item: &JnObject, w: i32, h: i32) -> (r: CrabEntity)
        requires
            dim_ok(w as int),
            dim_ok(h as int),
        ensures
            r == Self::spec_new(*item, w, h),
            r.wf(),
    {
        let y_adj = crate::enemies::y_adjust_exec(h, item.height as i32);
        let x = item.x as i32;
        let y = item.y as i32 - y_adj;
        let xd = item.x_speed as i32;
        CrabEntity {
            x,
            y,
            w,
            h,
            x_speed: if xd != 0 { xd } else { CRAB_X_SPEED },
            y_speed: item.y_speed as i32,
            climbing: item.y_speed != 0,
            counter: item.counter as i32,
            dead: false,
            score_dispatched: false,
            zaphold: item.zap_hold as i32,
            pending_kill: None,
            rng: EnemyRng::new((x as u32).wrapping_mul(0x8DA6_B343) ^ (y as u32)),
            origin: *item,
        }
    }

    /// The crab after one tick and its messages. A dead crab pays its score
    /// once. A climbing crab slides vertically; when it cannot move it turns
    /// down at a ceiling or, at a floor, goes back to patrol. A patrolling
    /// crab steps ahead when the way is open and floored, else turns round;
    /// then, on a vine, a zero draw in `[0, 10)` starts a climb upward. The
    /// walk frame advances, wrapping at four.
    pub open spec fn spec_step(self, g: &BackgroundGrid) -> (CrabEntity, Seq<Message>) {
        if self.dead {
            if !self.score_dispatched {
                (CrabEntity { score_dispatched: true, ..self }, seq![score_message(CRAB_SCORE_VALUE)])
            } else {
                (self, seq![])
            }
        } else {
            let z = if self.zaphold > 0 { self.zaphold - 1 } else { self.zaphold as int };
            let c1 = self.counter + 1;
            let c = if c1 >= CRAB_NUMBER_TILE_SET { 0 } else { c1 };
            let moved_crab = if self.climbing {
                let ny = slid_y(g, self.x as int, self.y as int, self.w as int, self.h as int, self.y_speed as int);
                if ny == self.y {
                    if self.y_speed < 0 {
                        CrabEntity { y_speed: (-self.y_speed) as i32, ..self }
                    } else {
                        CrabEntity { climbing: false, y_speed: 0, ..self }
                    }
                } else {
                    CrabEntity { y: ny as i32, ..self }
                }
            } else {
                let open = !spec_blocked_ahead(g, self.x as int, self.y as int, self.w as int, self.h as int, self.x_speed as int)
                    && spec_floor_under_next(g, self.x as int, self.y as int, self.w as int, self.h as int, self.x_speed as int);
                let walked = if open {
                    CrabEntity { x: (self.x + self.x_speed) as i32, ..self }
                } else {
                    CrabEntity { x_speed: (-self.x_speed) as i32, ..self }
                };
                if spec_is_on_climbable(g, walked.x as int, walked.y as int, walked.w as int, walked.h as int) {
                    let s = self.rng.spec_state();
                    let start = range_value(s, 0, CRAB_CLIMB_CHANCE_DEN as int) == 0;
                    let drawn = CrabEntity { rng: EnemyRng::spec_with_state(xorshift(s)), ..walked };
                    if start {
                        CrabEntity { climbing: true, y_speed: -2i32, ..drawn }
                    } else {
                        drawn
                    }
                } else {
                    walked
                }
            };
            (CrabEntity { zaphold: z as i32, counter: c as i32, ..moved_crab }, seq![])
        }
    }

    /// One tick of the crab; returns the messages it sends.
    pub fn update(&mut self, g: &BackgroundGrid) -> (msgs: Vec<Message>)
        requires
            old(self).wf(),
        ensures
            *final(self) == old(self).spec_step(g).0,
            msgs@ == old(self).spec_step(g).1,
            final(self).wf(),
    {
        let mut msgs: Vec<Message> = Vec::new();
        if self.dead {
            if !self.score_dispatched {
                self.score_dispatched = true;
                msgs.push(Message { msg_type: MessageType::InventoryPoint, payload: MessagePayload::Count(CRAB_SCORE_VALUE) });
                proof { assert(msgs@ =~= seq![score_message(CRAB_SCORE_VALUE)]); }
            }
            return msgs;
        }
        if self.zaphold > 0 {
            self.zaphold = self.zaphold - 1;
        }
        let _ = g.width();
        let _ = g.height();
        if self.climbing {
            proof {
                lemma_slide_y_lands(g, self.x as int, self.y as int, self.w as int, self.h as int, sign(self.y_speed as int), dist(self.y_speed as int, 0));
            }
            let mut ny = self.y;
            let moved = slide_y(g, self.x, &mut ny, self.w, self.h, self.y_speed);
            self.y = ny;
            if moved == 0 {
                if self.y_speed < 0 {
                    self.y_speed = -self.y_speed;
                } else {
                    self.climbing = false;
                    self.y_speed = 0;
                }
            }
        } else {
            if !blocked_ahead(g, self.x, self.y, self.w, self.h, self.x_speed)
                && floor_under_next(g, self.x, self.y, self.w, self.h, self.x_speed)
            {
                self.x = self.x + self.x_speed;
            } else {
                self.x_speed = -self.x_speed;
            }
            if is_on_vine(g, self.x, self.y, self.w, self.h) {
                proof { EnemyRng::lemma_state(self.rng); }
                if self.rng.range(0, CRAB_CLIMB_CHANCE_DEN) == 0 {
                    self.climbing = true;
                    self.y_speed = -CRAB_CLIMB_SPEED;
                }
            }
        }
        self.counter = self.counter + 1;
        if self.counter >= CRAB_NUMBER_TILE_SET {
            self.counter = 0;
        }
        proof { assert(msgs@ =~= seq![]); }
        msgs
    }

    /// The walk frame (clamped into the cycle); nothing once dead.
    pub fn draw(&self) -> (r: Option<RenderCommand>)
        requires
            self.wf(),
        ensures
            r == (if self.dead {
                None
            } else {
                Some(RenderCommand::Blit {
                    tileset: CRAB_TILESET,
                    tile: (CRAB_TILE_BASE + crate::giant_ant::walk_frame(self.counter as int, CRAB_NUMBER_TILE_SET as int)) as u16,
                    x: self.x,
                    y: self.y,
                    opaque: false,
                    clip: None,
                })
            }),
    {
        if self.dead {
            return None;
        }
        let frame = crate::giant_ant::walk_frame_exec(self.counter, CRAB_NUMBER_TILE_SET);
        Some(RenderCommand::Blit { tileset: CRAB_TILESET, tile: CRAB_TILE_BASE + frame, x: self.x, y: self.y, opaque: false, clip: None })
    }

    /// Contact with the player: unless dead or cooling down, arms an enemy
    /// kill and the cooldown.
    pub fn on_touch(&mut self)
        ensures
            *final(self) == (if old(self).dead || old(self).zaphold > 0 {
                *old(self)
            } else {
                CrabEntity { zaphold: ZAPHOLD_AFTER_TOUCH, pending_kill: Some(DeathKind::Enemy), ..*old(self) }
            }),
    {
        if self.dead || self.zaphold > 0 {
            return;
        }
        self.zaphold = ZAPHOLD_AFTER_TOUCH;
        self.pending_kill = Some(DeathKind::Enemy);
    }

    /// A weapon hit of at least one point kills the crab.
    pub fn on_kill(&mut self, damage: i32, death_kind: DeathKind)
        ensures
            *final(self) == (if old(self).dead || damage < 1 { *old(self) } else { CrabEntity { dead: true, ..*old(self) } }),
    {
        if self.dead || damage < 1 {
            return;
        }
        self.dead = true;
    }

    pub fn bounding_box(&self) -> (r: Rect)
        ensures
            r == (Rect { x: self.x, y: self.y, w: self.w, h: self.h }),
    {
        Rect::new(self.x, self.y, self.w, self.h)
    }

    pub fn is_dead(&self) -> (r: bool)
        ensures
            r == self.dead,
    {
        self.dead
    }

    /// The save record of a live crab: the origin with position (sprite
    /// raise undone), speeds, frame and cooldown. A live speed equal to the
    /// default patrol speed writes back the record's own horizontal speed.
    pub open spec fn spec_snapshot(&self) -> Option<JnObject> {
        if self.dead {
            None
        } else {
            Some(JnObject {
                x: self.x as u16,
                y: (self.y + y_adjust(self.h as int, self.origin.height as int)) as u16,
                x_speed: if self.x_speed == CRAB_X_SPEED { self.origin.x_speed } else { self.x_speed as i16 },
                y_speed: self.y_speed as i16,
                counter: self.counter as i16,
                zap_hold: self.zaphold as u16,
                ..self.origin
            })
        }
    }

    pub fn snapshot(&self) -> (r: Option<JnObject>)
        requires
            self.wf(),
        ensures
            r == self.spec_snapshot(),
    {
        if self.dead {
            return None;
        }
        let mut obj = self.origin;
        let y_adj = crate::enemies::y_adjust_exec(self.h, obj.height as i32);
        obj.set_position(self.x as u16, (self.y + y_adj) as u16);
        let xs: i16 = if self.x_speed == CRAB_X_SPEED { obj.x_speed } else { self.x_speed as i16 };
        obj.set_speed(xs, self.y_speed as i16);
        obj.set_counter(self.counter as i16);
        obj.set_zap_hold(self.zaphold as u16);
        Some(obj)
    }

    /// Takes the armed kill, if any.
    pub fn take_player_kill(&mut self) -> (r: Option<DeathKind>)
        ensures
            r == old(self).pending_kill,
            *final(self) == (CrabEntity { pending_kill: None, ..*old(self) }),
    {
        let r = self.pending_kill;
        self.pending_kill = None;
        r
    }
}

/// Saving a crab built from a record gives the record back.
pub proof fn lemma_crab_snapshot_round_trip(item: JnObject, w: i32, h: i32)
    requires
        dim_ok(w as int),
        dim_ok(h as int),
    ensures
        CrabEntity::spec_new(item, w, h).spec_snapshot() == Some(item),
{
    let c = CrabEntity::spec_new(item, w, h);
    assert(c.spec_snapshot().unwrap() == item);
}

} // verus!
