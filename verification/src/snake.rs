//! The snake: a floor patroller drawn as head, body segments and tail. Each
//! weapon hit outside its recoil window takes off one body segment; it dies
//! once only head and tail are left.

use vstd::prelude::*;

use crate::collision::{blocked_ahead, floor_under_next, spec_blocked_ahead, spec_floor_under_next};
use crate::enemies::{dim_ok, pos_ok, score_message};
use crate::grid::BackgroundGrid;
use crate::items::block_dim;
use crate::layout::ZAPHOLD_AFTER_TOUCH;
use crate::record::JnObject;
use crate::world::{DeathKind, Message, MessagePayload, MessageType, Rect, RenderCommand};

verus! {

pub const SNAKE_TILESET: u8 = 15;

/// Animation frames of each body part.
pub const SNAKE_FRAMES: usize = 4;

pub const SNAKE_HEAD_W: i32 = 16;

pub const SNAKE_HEAD_H: i32 = 16;

pub const SNAKE_TAIL_W: i32 = 8;

pub const SNAKE_MIDDLE_W: i32 = 8;

/// Height of the body row along the bottom of the box.
pub const SNAKE_BODY_H: i32 = 4;

/// Patrol speed.
pub const SNAKE_X_SPEED: i32 = 3;

/// Score awarded when the snake finally dies.
pub const SNAKE_SCORE_VALUE: i32 = 100;

/// Recoil ticks after a hit, during which weapons do nothing.
pub const SNAKE_STATE_WHEN_TOUCH: i32 = 16;

/// Head tile for frame `c`: `0,1,0,2` facing right, `9,10,9,11` facing left.
pub open spec fn head_tile(left: bool, c: int) -> u16 {
    if left {
        if c == 1 { 10 } else if c == 3 { 11 } else { 9 }
    } else {
        if c == 1 { 1 } else if c == 3 { 2 } else { 0 }
    }
}

/// Tail tile for frame `c`: `7,7,8,8` facing right, `12,12,13,13` facing left.
pub open spec fn tail_tile(left: bool, c: int) -> u16 {
    if left {
        if c < 2 { 12 } else { 13 }
    } else {
        if c < 2 { 7 } else { 8 }
    }
}

/// Middle segment tile for frame `c`: `3,4,5,6`.
pub open spec fn middle_tile(c: int) -> u16 {
    (3 + c) as u16
}

fn head_tile_exec(left: bool, c: usize) -> (r: u16)
    ensures
        r == head_tile(left, c as int),
{
    if left {
        if c == 1 { 10 } else if c == 3 { 11 } else { 9 }
    } else {
        if c == 1 { 1 } else if c == 3 { 2 } else { 0 }
    }
}

fn tail_tile_exec(left: bool, c: usize) -> (r: u16)
    ensures
        r == tail_tile(left, c as int),
{
    if left {
        if c < 2 { 12 } else { 13 }
    } else {
        if c < 2 { 7 } else { 8 }
    }
}

/// A blit of a snake tile.
pub open spec fn snake_blit(tile: u16, x: int, y: int) -> RenderCommand {
    RenderCommand::Blit { tileset: SNAKE_TILESET, tile, x: x as i32, y: y as i32, opaque: false, clip: None }
}

/// Middle segments from offset `dx` (every 8 pixels) while below `end`.
pub open spec fn middles(tile: u16, x: int, y: int, dx: int, end: int) -> Seq<RenderCommand>
    decreases end + 8 - dx,
{
    if dx >= end {
        seq![]
    } else {
        seq![snake_blit(tile, x + dx, y)] + middles(tile, x, y, dx + 8, end)
    }
}

/// A multi-segment floor patroller.
#[derive(Clone, Copy, Debug)]
pub struct SnakeEntity {
    pub x: i32,
    pub y: i32,
    /// Total width; shrinks by a segment per hit.
    pub w: i32,
    pub h: i32,
    pub x_speed: i32,
    pub counter: usize,
    /// Recoil ticks left; immune to weapons while positive.
    pub recoil: i32,
    pub dead: bool,
    pub score_dispatched: bool,
    pub zaphold: i32,
    pub pending_kill: Option<DeathKind>,
    /// The record the snake was built from.
    pub origin: JnObject,
}

/// Animation frame a record's counter resumes: the counter when it names a
/// frame, else the first.
pub open spec fn resumed_frame(counter: i16) -> usize {
    if 0 <= counter < 4 { counter as usize } else { 0 }
}

impl SnakeEntity {
    /// Bounds keeping every operation free of overflow.
    pub open spec fn wf(&self) -> bool {
        &&& pos_ok(self.x as int) && pos_ok(self.y as int)
        &&& dim_ok(self.w as int) && dim_ok(self.h as int)
        &&& -0x8000 <= self.x_speed <= 0x8000
        &&& self.counter < SNAKE_FRAMES
        &&& 0 <= self.recoil <= SNAKE_STATE_WHEN_TOUCH
        &&& 0 <= self.zaphold <= 0xFFFF
    }

    /// The snake a record describes: as long as the record's width, at
    /// least head, one segment and tail (32), at least a head high, moving
    /// at the record's speed (rightward at 3 when it has none), resuming its
    /// frame and cooldown.
    pub open spec fn spec_new(item: JnObject) -> SnakeEntity {
        SnakeEntity {
            x: item.x as i32,
            y: item.y as i32,
            w: if (item.width as int) < 32 { 32 } else { item.width as i32 },
            h: block_dim(item.height),
            x_speed: if item.x_speed != 0 { item.x_speed as i32 } else { SNAKE_X_SPEED },
            counter: resumed_frame(item.counter),
            recoil: 0,
            dead: false,
            score_dispatched: false,
            zaphold: item.zap_hold as i32,
            pending_kill: None,
            origin: item,
        }
    }

    pub fn new(item: &JnObject) -> (r: SnakeEntity)
        ensures
            r == Self::spec_new(*item),
            r.wf(),
    {
        let min_w = SNAKE_HEAD_W + SNAKE_MIDDLE_W + SNAKE_TAIL_W;
        let iw = item.width as i32;
        let xd = item.x_speed as i32;
        let c = item.counter;
        SnakeEntity {
            x: item.x as i32,
            y: item.y as i32,
            w: if iw < min_w { min_w } else { iw },
            h: crate::items::at_least_block(item.height),
            x_speed: if xd != 0 { xd } else { SNAKE_X_SPEED },
            counter: if 0 <= c && c < 4 { c as usize } else { 0 },
            recoil: 0,
            dead: false,
            score_dispatched: false,
            zaphold: item.zap_hold as i32,
            pending_kill: None,
            origin: *item,
        }
    }

    /// The save record of a live snake: the origin with its position, body
    /// width, speed (none again when the record had none and the snake still
    /// heads right at the default), frame and cooldown.
    pub open spec fn spec_snapshot(&self) -> Option<JnObject> {
        if self.dead {
            None
        } else {
            Some(JnObject {
                x: self.x as u16,
                y: self.y as u16,
                width: self.w as u16,
                x_speed: if self.x_speed == SNAKE_X_SPEED && self.origin.x_speed == 0 { 0 } else { self.x_speed as i16 },
                counter: self.counter as i16,
                zap_hold: self.zaphold as u16,
                ..self.origin
            })
        }
    }

    pub fn snapshot(&self) -> (r: Option<JnObject>)
        requires
            self.wf(),
        ensures
            r == self.spec_snapshot(),
    {
        if self.dead {
            return None;
        }
        let mut obj = self.origin;
        obj.set_position(self.x as u16, self.y as u16);
        obj.set_dimensions(self.w as u16, obj.height);
        let xs: i16 = if self.x_speed == SNAKE_X_SPEED && obj.x_speed == 0 { 0 } else { self.x_speed as i16 };
        obj.set_speed(xs, obj.y_speed);
        obj.set_counter(self.counter as i16);
        obj.set_zap_hold(self.zaphold as u16);
        Some(obj)
    }

    /// The snake after one tick and its messages. A dead snake pays its
    /// score once. Otherwise it steps ahead and animates when the way is
    /// open and floored, or turns round and restarts its animation; the
    /// recoil then counts down.
    pub open spec fn spec_step(self, g: &BackgroundGrid) -> (SnakeEntity, Seq<Message>) {
        if self.dead {
            if !self.score_dispatched {
                (SnakeEntity { score_dispatched: true, ..self }, seq![score_message(SNAKE_SCORE_VALUE)])
            } else {
                (self, seq![])
            }
        } else {
            let z = if self.zaphold > 0 { self.zaphold - 1 } else { self.zaphold as int };
            let rc = if self.recoil > 0 { self.recoil - 1 } else { self.recoil as int };
            let open = !spec_blocked_ahead(g, self.x as int, self.y as int, self.w as int, self.h as int, self.x_speed as int)
                && spec_floor_under_next(g, self.x as int, self.y as int, self.w as int, self.h as int, self.x_speed as int);
            let moved = if open {
                SnakeEntity { x: (self.x + self.x_speed) as i32, counter: ((self.counter + 1) % (SNAKE_FRAMES as int)) as usize, ..self }
            } else {
                SnakeEntity { x_speed: (-self.x_speed) as i32, counter: 0, ..self }
            };
            (SnakeEntity { zaphold: z as i32, recoil: rc as i32, ..moved }, seq![])
        }
    }

    /// One tick of the snake; returns the messages it sends.
    pub fn update(&mut self, g: &BackgroundGrid) -> (msgs: Vec<Message>)
        requires
            old(self).wf(),
        ensures
            *final(self) == old(self).spec_step(g).0,
            msgs@ == old(self).spec_step(g).1,
    {
        let mut msgs: Vec<Message> = Vec::new();
        if self.dead {
            if !self.score_dispatched {
                self.score_dispatched = true;
                msgs.push(Message { msg_type: MessageType::InventoryPoint, payload: MessagePayload::Count(SNAKE_SCORE_VALUE) });
                proof { assert(msgs@ =~= seq![score_message(SNAKE_SCORE_VALUE)]); }
            }
            return msgs;
        }
        if self.zaphold > 0 {
            self.zaphold = self.zaphold - 1;
        }
        if !blocked_ahead(g, self.x, self.y, self.w, self.h, self.x_speed)
            && floor_under_next(g, self.x, self.y, self.w, self.h, self.x_speed)
        {
            self.x = self.x + self.x_speed;
            self.counter = (self.counter + 1) % SNAKE_FRAMES;
        } else {
            self.x_speed = -self.x_speed;
            self.counter = 0;
        }
        if self.recoil > 0 {
            self.recoil = self.recoil - 1;
        }
        proof { assert(msgs@ =~= seq![]); }
        msgs
    }

    /// Just the head: at the left end facing left, at the right end facing
    /// right.
    pub fn draw(&self) -> (r: Option<RenderCommand>)
        requires
            self.wf(),
        ensures
            r == (if self.dead {
                None
            } else {
                Some(snake_blit(
                    head_tile(self.x_speed < 0, self.counter as int),
                    if self.x_speed < 0 { self.x as int } else { self.x + self.w - SNAKE_HEAD_W },
                    self.y as int,
                ))
            }),
    {
        if self.dead {
            return None;
        }
        let left = self.x_speed < 0;
        let head = head_tile_exec(left, self.counter);
        let head_x = if left { self.x } else { self.x + self.w - SNAKE_HEAD_W };
        Some(RenderCommand::Blit { tileset: SNAKE_TILESET, tile: head, x: head_x, y: self.y, opaque: false, clip: None })
    }

    /// The whole snake. Facing left: head at the left end, segments every 8
    /// pixels from 16 up to the tail, tail 8 pixels from the right end.
    /// Facing right: tail at the left end, segments every 8 pixels from 8 up
    /// to the head, head 16 pixels from the right end. Body parts sit on the
    /// bottom 4 pixels of the box.
    pub open spec fn spec_draw_multi(&self) -> Seq<RenderCommand> {
        if self.dead {
            seq![]
        } else {
            let c = self.counter as int;
            let body_y = self.y + self.h - SNAKE_BODY_H;
            if self.x_speed < 0 {
                let tail_rel = self.w - SNAKE_TAIL_W;
                seq![snake_blit(head_tile(true, c), self.x as int, self.y as int)]
                    + middles(middle_tile(c), self.x as int, body_y, SNAKE_HEAD_W as int, tail_rel)
                    + seq![snake_blit(tail_tile(true, c), self.x + tail_rel, body_y)]
            } else {
                let head_rel = self.w - SNAKE_HEAD_W;
                seq![snake_blit(tail_tile(false, c), self.x as int, body_y)]
                    + middles(middle_tile(c), self.x as int, body_y, SNAKE_TAIL_W as int, head_rel)
                    + seq![snake_blit(head_tile(false, c), self.x + head_rel, self.y as int)]
            }
        }
    }

    pub fn draw_multi(&self) -> (cmds: Vec<RenderCommand>)
        requires
            self.wf(),
        ensures
            cmds@ == self.spec_draw_multi(),
    {
        let mut cmds: Vec<RenderCommand> = Vec::new();
        if self.dead {
            proof { assert(cmds@ =~= seq![]); }
            return cmds;
        }
        let c = self.counter;
        let body_y = self.y + self.h - SNAKE_BODY_H;
        let mid = (3 + c) as u16;
        let left = self.x_speed < 0;
        let (first_tile, first_y, start, end, last_tile, last_rel, last_y) = if left {
            (head_tile_exec(true, c), self.y, SNAKE_HEAD_W, self.w - SNAKE_TAIL_W, tail_tile_exec(true, c), self.w - SNAKE_TAIL_W, body_y)
        } else {
            (tail_tile_exec(false, c), body_y, SNAKE_TAIL_W, self.w - SNAKE_HEAD_W, head_tile_exec(false, c), self.w - SNAKE_HEAD_W, self.y)
        };
        cmds.push(RenderCommand::Blit { tileset: SNAKE_TILESET, tile: first_tile, x: self.x, y: first_y, opaque: false, clip: None });
        let ghost prefix = cmds@;
        let mut dx: i32 = start;
        while dx < end
            invariant
                self.wf(),
                start <= dx <= 0x1_0008,
                start == SNAKE_HEAD_W || start == SNAKE_TAIL_W,
                end <= 0xFFFF,
                body_y == self.y + self.h - SNAKE_BODY_H,
                mid == middle_tile(c as int),
                c == self.counter,
                cmds@ + middles(mid, self.x as int, body_y as int, dx as int, end as int)
                    == prefix + middles(mid, self.x as int, body_y as int, start as int, end as int),
            decreases end + 8 - dx,
        {
            cmds.push(RenderCommand::Blit { tileset: SNAKE_TILESET, tile: mid, x: self.x + dx, y: body_y, opaque: false, clip: None });
            proof {
                let m = middles(mid, self.x as int, body_y as int, dx as int, end as int);
                let m2 = middles(mid, self.x as int, body_y as int, dx + 8, end as int);
                assert(m == seq![snake_blit(mid, self.x + dx, body_y as int)] + m2);
                assert(cmds@ + m2 =~= cmds@.drop_last() + m);
            }
            dx = dx + SNAKE_MIDDLE_W;
        }
        proof {
            assert(middles(mid, self.x as int, body_y as int, dx as int, end as int) =~= seq![]);
        }
        cmds.push(RenderCommand::Blit { tileset: SNAKE_TILESET, tile: last_tile, x: self.x + last_rel, y: last_y, opaque: false, clip: None });
        proof {
            assert(cmds@ =~= self.spec_draw_multi());
        }
        cmds
    }

    /// Contact with the player: unless dead or cooling down, arms an enemy
    /// kill and the cooldown.
    pub fn on_touch(&mut self)
        ensures
            *final(self) == (if old(self).dead || old(self).zaphold > 0 {
                *old(self)
            } else {
                SnakeEntity { zaphold: ZAPHOLD_AFTER_TOUCH, pending_kill: Some(DeathKind::Enemy), ..*old(self) }
            }),
    {
        if self.dead || self.zaphold > 0 {
            return;
        }
        self.zaphold = ZAPHOLD_AFTER_TOUCH;
        self.pending_kill = Some(DeathKind::Enemy);
    }

    /// A hit of at least one point outside the recoil window takes one
    /// segment off and starts the recoil; the snake dies once no wider than
    /// head plus tail.
    pub fn on_kill(&mut self, damage: i32, death_kind: DeathKind)
        requires
            old(self).wf(),
        ensures
            *final(self) == (if old(self).dead || damage < 1 || old(self).recoil > 0 {
                *old(self)
            } else {
                SnakeEntity {
                    recoil: SNAKE_STATE_WHEN_TOUCH,
                    w: (old(self).w - SNAKE_MIDDLE_W) as i32,
                    dead: old(self).w - SNAKE_MIDDLE_W <= SNAKE_TAIL_W + SNAKE_HEAD_W,
                    ..*old(self)
                }
            }),
    {
        if self.dead || damage < 1 || self.recoil > 0 {
            return;
        }
        self.recoil = SNAKE_STATE_WHEN_TOUCH;
        self.w = self.w - SNAKE_MIDDLE_W;
        if self.w <= SNAKE_TAIL_W + SNAKE_HEAD_W {
            self.dead = true;
        }
    }

    pub fn bounding_box(&self) -> (r: Rect)
        ensures
            r == (Rect { x: self.x, y: self.y, w: self.w, h: self.h }),
    {
        Rect::new(self.x, self.y, self.w, self.h)
    }

    pub fn is_dead(&self) -> (r: bool)
        ensures
            r == self.dead,
    {
        self.dead
    }

    /// Takes the armed kill, if any.
    pub fn take_player_kill(&mut self) -> (r: Option<DeathKind>)
        ensures
            r == old(self).pending_kill,
            *final(self) == (SnakeEntity { pending_kill: None, ..*old(self) }),
    {
        let r = self.pending_kill;
        self.pending_kill = None;
        r
    }
}

} // verus!

verus! {

/// Saving a snake built from a record gives the record back, for every
/// record at least 32 wide whose counter names a frame.
pub proof fn lemma_snake_snapshot_round_trip(item: JnObject)
    requires
        item.width >= 32,
        0 <= item.counter < 4,
    ensures
        SnakeEntity::spec_new(item).spec_snapshot() == Some(item),
{
    let s = SnakeEntity::spec_new(item);
    assert(s.spec_snapshot().unwrap() == item);
}

} // verus!
