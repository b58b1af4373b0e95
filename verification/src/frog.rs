//! The frog: sits on the floor counting ticks, then jumps toward the player
//! in a gravity arc, sliding flush against walls, ceilings and floors.

use vstd::prelude::*;

use crate::collision::{dist, lemma_slide_x_lands, lemma_slide_y_lands, sign, slide_x, slide_y};
use crate::enemies::{dim_ok, pos_ok, ENEMY_POS_LIMIT, score_message, slid_x, slid_y, y_adjust};
use crate::grid::BackgroundGrid;
use crate::layout::ZAPHOLD_AFTER_TOUCH;
use crate::record::JnObject;
use crate::world::{DeathKind, Message, MessagePayload, MessageType, Rect, RenderCommand};

verus! {

pub const FROG_TILESET: u8 = 63;

/// Tiles per facing direction (right: 0-2, left: 3-5).
pub const FROG_FRAMES_PER_DIR: u16 = 3;

/// Horizontal speed of a jump.
pub const FROG_X_SPEED: i32 = 4;

/// Score awarded when a frog is killed.
pub const FROG_SCORE_VALUE: i32 = 100;

/// Ticks on the floor before a jump.
pub const FROG_JUMP_PERIOD: i32 = 17;

/// Vertical speed at the start of a jump.
pub const FROG_JUMP_INIT_YD: i32 = -10;

/// Largest downward speed.
pub const FROG_FALL_SPEED_MAX: i32 = 12;

/// Record `state` of a frog on the floor.
pub const FROG_STATE_ON_FLOOR: i16 = 0;

/// Record `state` of a frog in the air.
pub const FROG_STATE_ON_JUMP: i16 = 1;

/// A jumping enemy.
#[derive(Clone, Copy, Debug)]
pub struct FrogEntity {
    pub x: i32,
    pub y: i32,
    pub w: i32,
    pub h: i32,
    pub x_speed: i32,
    pub y_speed: i32,
    pub jump_counter: i32,
    pub on_floor: bool,
    pub dead: bool,
    pub score_dispatched: bool,
    pub zaphold: i32,
    pub pending_kill: Option<DeathKind>,
    /// Last seen player column; a jump heads toward it.
    pub player_x: i32,
    /// The record the frog was built from.
    pub origin: JnObject,
}

/// A value that fits a record's signed 16-bit field.
pub open spec fn i16_ok(v: int) -> bool {
    -0x8000 <= v <= 0x7FFF
}

impl FrogEntity {
    /// Bounds keeping a tick free of overflow.
    pub open spec fn wf(&self) -> bool {
        &&& pos_ok(self.x as int) && pos_ok(self.y as int) && pos_ok(self.player_x as int)
        &&& dim_ok(self.w as int) && dim_ok(self.h as int)
        &&& -0x8000 <= self.x_speed <= 0x8000
        &&& -0x8000 <= self.y_speed <= 0x8000
        &&& -0x8000 <= self.jump_counter <= 0x8000
        &&& 0 <= self.zaphold <= 0xFFFF
    }

    /// The frog a record describes, drawn with a `w` by `h` sprite: raised
    /// so its feet stay where the record's box ends, resuming the record's
    /// jump state, timer, speeds and cooldown.
    pub open spec fn spec_new(item: JnObject, w: i32, h: i32) -> FrogEntity {
        FrogEntity {
            x: item.x as i32,
            y: (item.y - y_adjust(h as int, item.height as int)) as i32,
            w,
            h,
            x_speed: item.x_speed as i32,
            y_speed: item.y_speed as i32,
            jump_counter: item.counter as i32,
            on_floor: item.state != FROG_STATE_ON_JUMP,
            dead: false,
            score_dispatched: false,
            zaphold: item.zap_hold as i32,
            pending_kill: None,
            player_x: item.x as i32,
            origin: item,
        }
    }

    pub fn new(item: &JnObject, w: i32, h: i32) -> (r: FrogEntity)
        requires
            dim_ok(w as int),
            dim_ok(h as int),
        ensures
            r == Self::spec_new(*item, w, h),
            r.wf(),
    {
        let y_adj = crate::enemies::y_adjust_exec(h, item.height as i32);
        FrogEntity {
            x: item.x as i32,
            y: item.y as i32 - y_adj,
            w,
            h,
            x_speed: item.x_speed as i32,
            y_speed: item.y_speed as i32,
            jump_counter: item.counter as i32,
            on_floor: item.state != FROG_STATE_ON_JUMP,
            dead: false,
            score_dispatched: false,
            zaphold: item.zap_hold as i32,
            pending_kill: None,
            player_x: item.x as i32,
            origin: *item,
        }
    }

    /// The frog after one tick and its messages. A dead frog pays its score
    /// once. On the floor it counts; at the jump period it launches upward
    /// at speed 10 toward the player, one pixel higher. In the air it slides
    /// by its speeds; a blocked rise stops rising, a blocked fall lands;
    /// then gravity adds one up to the fall limit.
    pub open spec fn spec_step(self, g: &BackgroundGrid) -> (FrogEntity, Seq<Message>) {
        if self.dead {
            if !self.score_dispatched {
                (FrogEntity { score_dispatched: true, ..self }, seq![score_message(FROG_SCORE_VALUE)])
            } else {
                (self, seq![])
            }
        } else {
            let z = if self.zaphold > 0 { self.zaphold - 1 } else { self.zaphold as int };
            if self.on_floor {
                let jc = self.jump_counter + 1;
                if jc >= FROG_JUMP_PERIOD {
                    (FrogEntity {
                        zaphold: z as i32,
                        jump_counter: 0,
                        y_speed: FROG_JUMP_INIT_YD,
                        on_floor: false,
                        x_speed: if self.player_x < self.x { -4i32 } else { FROG_X_SPEED },
                        y: (self.y - 1) as i32,
                        ..self
                    }, seq![])
                } else {
                    (FrogEntity { zaphold: z as i32, jump_counter: jc as i32, ..self }, seq![])
                }
            } else {
                let nx = slid_x(g, self.x as int, self.y as int, self.w as int, self.h as int, self.x_speed as int);
                let ny = slid_y(g, nx, self.y as int, self.w as int, self.h as int, self.y_speed as int);
                let moved = ny - self.y;
                let (ys, onf, jc) = if self.y_speed < 0 && moved == 0 {
                    (0int, false, self.jump_counter as int)
                } else if self.y_speed > 0 && moved == 0 {
                    (0int, true, 0int)
                } else {
                    (self.y_speed as int, false, self.jump_counter as int)
                };
                let ys2 = if ys < FROG_FALL_SPEED_MAX { ys + 1 } else { ys };
                (FrogEntity {
                    zaphold: z as i32,
                    x: nx as i32,
                    y: ny as i32,
                    y_speed: ys2 as i32,
                    on_floor: onf,
                    jump_counter: jc as i32,
                    ..self
                }, seq![])
            }
        }
    }

    /// One tick of the frog; returns the messages it sends.
    pub fn update(&mut self, g: &BackgroundGrid) -> (msgs: Vec<Message>)
        requires
            old(self).wf(),
        ensures
            *final(self) == old(self).spec_step(g).0,
            msgs@ == old(self).spec_step(g).1,
            old(self).y > -ENEMY_POS_LIMIT ==> final(self).wf(),
    {
        let mut msgs: Vec<Message> = Vec::new();
        if self.dead {
            if !self.score_dispatched {
                self.score_dispatched = true;
                msgs.push(Message { msg_type: MessageType::InventoryPoint, payload: MessagePayload::Count(FROG_SCORE_VALUE) });
                proof { assert(msgs@ =~= seq![score_message(FROG_SCORE_VALUE)]); }
            }
            return msgs;
        }
        if self.zaphold > 0 {
            self.zaphold = self.zaphold - 1;
        }
        if self.on_floor {
            self.jump_counter = self.jump_counter + 1;
            if self.jump_counter >= FROG_JUMP_PERIOD {
                self.jump_counter = 0;
                self.y_speed = FROG_JUMP_INIT_YD;
                self.on_floor = false;
                self.x_speed = if self.player_x < self.x { -FROG_X_SPEED } else { FROG_X_SPEED };
                self.y = self.y - 1;
            }
        } else {
            let _ = g.width();
            let _ = g.height();
            proof {
                lemma_slide_x_lands(g, self.x as int, self.y as int, self.w as int, self.h as int, sign(self.x_speed as int), dist(self.x_speed as int, 0));
            }
            let mut nx = self.x;
            slide_x(g, &mut nx, self.y, self.w, self.h, self.x_speed);
            self.x = nx;
            let mut ny = self.y;
            proof {
                lemma_slide_y_lands(g, self.x as int, self.y as int, self.w as int, self.h as int, sign(self.y_speed as int), dist(self.y_speed as int, 0));
            }
            let moved = slide_y(g, self.x, &mut ny, self.w, self.h, self.y_speed);
            self.y = ny;
            if self.y_speed < 0 && moved == 0 {
                self.y_speed = 0;
            } else if self.y_speed > 0 && moved == 0 {
                self.y_speed = 0;
                self.on_floor = true;
                self.jump_counter = 0;
            }
            if self.y_speed < FROG_FALL_SPEED_MAX {
                self.y_speed = self.y_speed + 1;
            }
        }
        proof { assert(msgs@ =~= seq![]); }
        msgs
    }

    /// Tile of the frog: facing left uses tiles 3-5; on the floor frame 0,
    /// at the apex (no vertical speed) frame 2, otherwise frame 1.
    pub open spec fn spec_tile(&self) -> u16 {
        let base: int = if self.x_speed < 0 { FROG_FRAMES_PER_DIR as int } else { 0 };
        let frame: int = if self.on_floor { 0 } else if self.y_speed == 0 { 2 } else { 1 };
        (base + frame) as u16
    }

    pub fn draw(&self) -> (r: Option<RenderCommand>)
        ensures
            r == (if self.dead {
                None
            } else {
                Some(RenderCommand::Blit { tileset: FROG_TILESET, tile: self.spec_tile(), x: self.x, y: self.y, opaque: false, clip: None })
            }),
    {
        if self.dead {
            return None;
        }
        let base: u16 = if self.x_speed < 0 { FROG_FRAMES_PER_DIR } else { 0 };
        let frame: u16 = if self.on_floor {
            0
        } else if self.y_speed == 0 {
            2
        } else {
            1
        };
        Some(RenderCommand::Blit { tileset: FROG_TILESET, tile: base + frame, x: self.x, y: self.y, opaque: false, clip: None })
    }

    /// Contact with the player: unless dead or cooling down, arms an enemy
    /// kill and the cooldown.
    pub fn on_touch(&mut self)
        ensures
            *final(self) == (if old(self).dead || old(self).zaphold > 0 {
                *old(self)
            } else {
                FrogEntity { zaphold: ZAPHOLD_AFTER_TOUCH, pending_kill: Some(DeathKind::Enemy), ..*old(self) }
            }),
    {
        if self.dead || self.zaphold > 0 {
            return;
        }
        self.zaphold = ZAPHOLD_AFTER_TOUCH;
        self.pending_kill = Some(DeathKind::Enemy);
    }

    /// A weapon hit of at least one point kills the frog.
    pub fn on_kill(&mut self, damage: i32, death_kind: DeathKind)
        ensures
            *final(self) == (if old(self).dead || damage < 1 { *old(self) } else { FrogEntity { dead: true, ..*old(self) } }),
    {
        if self.dead {
            return;
        }
        if damage >= 1 {
            self.dead = true;
        }
    }

    pub fn bounding_box(&self) -> (r: Rect)
        ensures
            r == (Rect { x: self.x, y: self.y, w: self.w, h: self.h }),
    {
        Rect::new(self.x, self.y, self.w, self.h)
    }

    pub fn is_dead(&self) -> (r: bool)
        ensures
            r == self.dead,
    {
        self.dead
    }

    /// The save record of a live frog: the origin with position (sprite
    /// raise undone), speeds, floor/jump state, timer and cooldown.
    pub open spec fn spec_snapshot(&self) -> Option<JnObject> {
        if self.dead {
            None
        } else {
            Some(JnObject {
                x: self.x as u16,
                y: (self.y + y_adjust(self.h as int, self.origin.height as int)) as u16,
                x_speed: self.x_speed as i16,
                y_speed: self.y_speed as i16,
                state: if self.on_floor { FROG_STATE_ON_FLOOR } else { FROG_STATE_ON_JUMP },
                counter: self.jump_counter as i16,
                zap_hold: self.zaphold as u16,
                ..self.origin
            })
        }
    }

    pub fn snapshot(&self) -> (r: Option<JnObject>)
        requires
            self.wf(),
        ensures
            r == self.spec_snapshot(),
    {
        if self.dead {
            return None;
        }
        let mut obj = self.origin;
        let y_adj = crate::enemies::y_adjust_exec(self.h, obj.height as i32);
        obj.set_position(self.x as u16, (self.y + y_adj) as u16);
        obj.set_speed(self.x_speed as i16, self.y_speed as i16);
        obj.set_state(if self.on_floor { FROG_STATE_ON_FLOOR } else { FROG_STATE_ON_JUMP });
        obj.set_counter(self.jump_counter as i16);
        obj.set_zap_hold(self.zaphold as u16);
        Some(obj)
    }

    /// Takes the armed kill, if any.
    pub fn take_player_kill(&mut self) -> (r: Option<DeathKind>)
        ensures
            r == old(self).pending_kill,
            *final(self) == (FrogEntity { pending_kill: None, ..*old(self) }),
    {
        let r = self.pending_kill;
        self.pending_kill = None;
        r
    }

    /// Records the player's column for the next jump.
    pub fn observe_player(&mut self, player_bbox: Rect)
        ensures
            *final(self) == (FrogEntity { player_x: player_bbox.x, ..*old(self) }),
    {
        self.player_x = player_bbox.x;
    }
}

/// Saving a frog built from a record gives the record back, for every
/// record whose state is the floor or the jump state.
pub proof fn lemma_frog_snapshot_round_trip(item: JnObject, w: i32, h: i32)
    requires
        dim_ok(w as int),
        dim_ok(h as int),
        item.state == FROG_STATE_ON_FLOOR || item.state == FROG_STATE_ON_JUMP,
    ensures
        FrogEntity::spec_new(item, w, h).spec_snapshot() == Some(item),
{
    let f = FrogEntity::spec_new(item, w, h);
    assert(f.spec_snapshot().unwrap() == item);
}

} // verus!
