//! Harmless, indestructible decorations: the eyes whose pupil follows the
//! player, and the wall skull whose eyes start rolling when its switch is
//! thrown.

use vstd::prelude::*;

use crate::enemies::{dim_ok, pos_ok};
use crate::record::JnObject;
use crate::world::{DeathKind, Rect, RenderCommand};

verus! {

pub const EYES_TILESET: u8 = 62;

pub const EYES_TILE: u16 = 0;

pub const EYES_LENS_TILE: u16 = 1;

/// Pupil origin within the eye sprite.
pub const EYES_LENS_ORIGIN_X: i32 = 5;

pub const EYES_LENS_ORIGIN_Y: i32 = 4;

/// Largest vertical pupil offset.
pub const EYES_MAX_MOVE_Y: i32 = 1;

/// Largest rightward pupil offset.
pub const EYES_MAX_MOVE_X_LEFT: i32 = 3;

/// Largest leftward pupil offset.
pub const EYES_MAX_MOVE_X_RIGHT: i32 = 2;

/// Length of the look-at ray: each component of a rounded ray lies in
/// `[0, EYES_RAY_SIZE]`.
pub const EYES_RAY_SIZE: i32 = 4;

/// The pupil offset for the player at `(rel_x, rel_y)` from the pupil
/// origin, given the rounded components `(ray_dx, ray_dy)` of a ray of
/// length four aimed at the player: the vertical component is capped at 1
/// and signed by `rel_y`; leftward the horizontal one is capped at 2 and
/// negated; rightward it is capped at 3. The player right on the origin
/// gives no offset.
pub open spec fn lens_offset(rel_x: int, rel_y: int, ray_dx: int, ray_dy: int) -> (int, int) {
    let (nx0, ny0) = if rel_x == 0 && rel_y == 0 { (0int, 0int) } else { (ray_dx, ray_dy) };
    let ny1 = if ny0 < EYES_MAX_MOVE_Y { ny0 } else { EYES_MAX_MOVE_Y as int };
    let ny = if rel_y < 0 { -ny1 } else { ny1 };
    let nx = if rel_x < 0 {
        -(if nx0 < EYES_MAX_MOVE_X_RIGHT { nx0 } else { EYES_MAX_MOVE_X_RIGHT as int })
    } else if nx0 > 3 {
        if nx0 < EYES_MAX_MOVE_X_LEFT { nx0 } else { EYES_MAX_MOVE_X_LEFT as int }
    } else {
        nx0
    };
    (nx, ny)
}

/// Eyes whose pupil tracks the player.
#[derive(Clone, Copy, Debug)]
pub struct EyesEntity {
    pub x: i32,
    pub y: i32,
    pub w: i32,
    pub h: i32,
    /// Last seen player corner.
    pub player_x: i32,
    pub player_y: i32,
    /// Pupil offset from its origin.
    pub lens_dx: i32,
    pub lens_dy: i32,
    /// The record the eyes were built from.
    pub origin: JnObject,
}

impl EyesEntity {
    pub open spec fn wf(&self) -> bool {
        pos_ok(self.x as int) && pos_ok(self.y as int) && pos_ok(self.player_x as int) && pos_ok(self.player_y as int)
    }

    pub open spec fn spec_new(item: JnObject, w: i32, h: i32) -> EyesEntity {
        EyesEntity {
            x: item.x as i32,
            y: item.y as i32,
            w,
            h,
            player_x: item.x as i32,
            player_y: item.y as i32,
            lens_dx: 0,
            lens_dy: 0,
            origin: item,
        }
    }

    /// Eyes at the record's position with a `w` by `h` sprite, looking
    /// straight ahead.
    pub fn new(item: &JnObject, w: i32, h: i32) -> (r: EyesEntity)
        ensures
            r == Self::spec_new(*item, w, h),
            r.wf(),
    {
        EyesEntity {
            x: item.x as i32,
            y: item.y as i32,
            w,
            h,
            player_x: item.x as i32,
            player_y: item.y as i32,
            lens_dx: 0,
            lens_dy: 0,
            origin: *item,
        }
    }

    /// Where the player stands relative to the pupil origin.
    pub fn player_offset(&self) -> (r: (i32, i32))
        requires
            self.wf(),
        ensures
            r.0 == self.player_x - (self.x + EYES_LENS_ORIGIN_X),
            r.1 == self.player_y - (self.y + EYES_LENS_ORIGIN_Y),
    {
        (self.player_x - (self.x + EYES_LENS_ORIGIN_X), self.player_y - (self.y + EYES_LENS_ORIGIN_Y))
    }

    /// One tick: aims the pupil, given the rounded components of a ray of
    /// length four from the pupil origin toward the player (the angle is
    /// computed in floating point outside the library).
    pub fn update(&mut self, ray_dx: i32, ray_dy: i32)
        requires
            old(self).wf(),
            0 <= ray_dx <= EYES_RAY_SIZE,
            0 <= ray_dy <= EYES_RAY_SIZE,
        ensures
            (final(self).lens_dx as int, final(self).lens_dy as int) == lens_offset(
                old(self).player_x - (old(self).x + EYES_LENS_ORIGIN_X),
                old(self).player_y - (old(self).y + EYES_LENS_ORIGIN_Y),
                ray_dx as int,
                ray_dy as int,
            ),
            *final(self) == (EyesEntity { lens_dx: final(self).lens_dx, lens_dy: final(self).lens_dy, ..*old(self) }),
            -EYES_MAX_MOVE_X_RIGHT <= final(self).lens_dx <= EYES_MAX_MOVE_X_LEFT,
            -EYES_MAX_MOVE_Y <= final(self).lens_dy <= EYES_MAX_MOVE_Y,
    {
        let (rel_x, rel_y) = self.player_offset();
        let (mut nx, mut ny) = if rel_x == 0 && rel_y == 0 { (0i32, 0i32) } else { (ray_dx, ray_dy) };
        if ny > EYES_MAX_MOVE_Y {
            ny = EYES_MAX_MOVE_Y;
        }
        if rel_y < 0 {
            ny = -ny;
        }
        if rel_x < 0 {
            if nx > EYES_MAX_MOVE_X_RIGHT {
                nx = EYES_MAX_MOVE_X_RIGHT;
            }
            nx = -nx;
        } else if nx > 3 {
            if nx > EYES_MAX_MOVE_X_LEFT {
                nx = EYES_MAX_MOVE_X_LEFT;
            }
        }
        self.lens_dx = nx;
        self.lens_dy = ny;
    }

    /// The eye sprite alone.
    pub fn draw(&self) -> (r: Option<RenderCommand>)
        ensures
            r == Some(RenderCommand::Blit { tileset: EYES_TILESET, tile: EYES_TILE, x: self.x, y: self.y, opaque: false, clip: None }),
    {
        Some(RenderCommand::Blit { tileset: EYES_TILESET, tile: EYES_TILE, x: self.x, y: self.y, opaque: false, clip: None })
    }

    /// The eye sprite and the pupil at its offset from the origin.
    pub fn draw_multi(&self) -> (r: Vec<RenderCommand>)
        requires
            self.wf(),
            -EYES_MAX_MOVE_X_RIGHT <= self.lens_dx <= EYES_MAX_MOVE_X_LEFT,
            -EYES_MAX_MOVE_Y <= self.lens_dy <= EYES_MAX_MOVE_Y,
        ensures
            r@ == seq![
                RenderCommand::Blit { tileset: EYES_TILESET, tile: EYES_TILE, x: self.x, y: self.y, opaque: false, clip: None },
                RenderCommand::Blit {
                    tileset: EYES_TILESET,
                    tile: EYES_LENS_TILE,
                    x: (self.x + EYES_LENS_ORIGIN_X + self.lens_dx) as i32,
                    y: (self.y + EYES_LENS_ORIGIN_Y + self.lens_dy) as i32,
                    opaque: false,
                    clip: None,
                },
            ],
    {
        let mut v: Vec<RenderCommand> = Vec::new();
        v.push(RenderCommand::Blit { tileset: EYES_TILESET, tile: EYES_TILE, x: self.x, y: self.y, opaque: false, clip: None });
        v.push(RenderCommand::Blit {
            tileset: EYES_TILESET,
            tile: EYES_LENS_TILE,
            x: self.x + EYES_LENS_ORIGIN_X + self.lens_dx,
            y: self.y + EYES_LENS_ORIGIN_Y + self.lens_dy,
            opaque: false,
            clip: None,
        });
        proof {
            assert(v@ =~= seq![
                RenderCommand::Blit { tileset: EYES_TILESET, tile: EYES_TILE, x: self.x, y: self.y, opaque: false, clip: None },
                RenderCommand::Blit {
                    tileset: EYES_TILESET,
                    tile: EYES_LENS_TILE,
                    x: (self.x + EYES_LENS_ORIGIN_X + self.lens_dx) as i32,
                    y: (self.y + EYES_LENS_ORIGIN_Y + self.lens_dy) as i32,
                    opaque: false,
                    clip: None,
                },
            ]);
        }
        v
    }

    /// The eyes do not hurt the player.
    pub fn on_touch(&mut self)
        ensures
            *final(self) == *old(self),
    {
    }

    /// The eyes cannot be killed.
    pub fn on_kill(&mut self, damage: i32, death_kind: DeathKind)
        ensures
            *final(self) == *old(self),
    {
    }

    pub fn bounding_box(&self) -> (r: Rect)
        ensures
            r == (Rect { x: self.x, y: self.y, w: self.w, h: self.h }),
    {
        Rect::new(self.x, self.y, self.w, self.h)
    }

    /// Records the player's corner to aim at.
    pub fn observe_player(&mut self, player_bbox: Rect)
        ensures
            *final(self) == (EyesEntity { player_x: player_bbox.x, player_y: player_bbox.y, ..*old(self) }),
    {
        self.player_x = player_bbox.x;
        self.player_y = player_bbox.y;
    }

    /// The save record: the origin at the eyes' position.
    pub open spec fn spec_snapshot(&self) -> Option<JnObject> {
        Some(JnObject { x: self.x as u16, y: self.y as u16, ..self.origin })
    }

    pub fn snapshot(&self) -> (r: Option<JnObject>)
        ensures
            r == self.spec_snapshot(),
    {
        let mut obj = self.origin;
        obj.set_position(self.x as u16, self.y as u16);
        Some(obj)
    }
}

// ---------------------------------------------------------------------------
// Skull
// ---------------------------------------------------------------------------

pub const SKULL_TILESET: u8 = 47;

/// Tile shown before the skull is triggered.
pub const SKULL_FIXED_TILE: u16 = 0;

/// Frames of the eye-rolling animation.
pub const SKULL_FRAMES: usize = 8;

pub const SKULL_EYE_LEFT_X: i32 = 0;

pub const SKULL_EYE_LEFT_Y: i32 = 5;

pub const SKULL_EYE_RIGHT_X: i32 = 10;

pub const SKULL_EYE_RIGHT_Y: i32 = 6;

/// Skull tile of frame `f`: `0,0,1,1,2,2,1,1`.
pub open spec fn skull_tile(f: int) -> u16 {
    if f < 2 { 0 } else if f < 4 { 1 } else if f < 6 { 2 } else { 1 }
}

/// Left eye tile of frame `f`: `3,4,5,6,7,6,5,4`.
pub open spec fn left_eye_tile(f: int) -> u16 {
    if f <= 4 { (3 + f) as u16 } else { (11 - f) as u16 }
}

/// Right eye tile of frame `f`: `7,6,5,4,3,4,5,6`.
pub open spec fn right_eye_tile(f: int) -> u16 {
    if f <= 4 { (7 - f) as u16 } else { (f - 1) as u16 }
}

fn skull_tile_exec(f: usize) -> (r: u16)
    ensures
        r == skull_tile(f as int),
{
    if f < 2 { 0 } else if f < 4 { 1 } else if f < 6 { 2 } else { 1 }
}

/// A wall skull linked to a switch.
#[derive(Clone, Copy, Debug)]
pub struct SkullEntity {
    pub x: i32,
    pub y: i32,
    pub w: i32,
    pub h: i32,
    /// The switch link this skull answers to.
    pub link_id: i32,
    pub active: bool,
    /// Animation frame while active.
    pub frame: usize,
    /// The record the skull was built from.
    pub origin: JnObject,
}

impl SkullEntity {
    pub open spec fn spec_new(item: JnObject, w: i32, h: i32) -> SkullEntity {
        SkullEntity {
            x: item.x as i32,
            y: item.y as i32,
            w,
            h,
            link_id: item.counter as i32,
            active: false,
            frame: 0,
            origin: item,
        }
    }

    /// An idle skull at the record's position, linked by the record's
    /// counter, with a `w` by `h` sprite.
    pub fn new(item: &JnObject, w: i32, h: i32) -> (r: SkullEntity)
        ensures
            r == Self::spec_new(*item, w, h),
    {
        SkullEntity { x: item.x as i32, y: item.y as i32, w, h, link_id: item.counter as i32, active: false, frame: 0, origin: *item }
    }

    /// Once triggered, the animation advances a frame per tick, looping.
    pub fn update(&mut self)
        requires
            old(self).frame < SKULL_FRAMES,
        ensures
            *final(self) == (if old(self).active {
                SkullEntity { frame: ((old(self).frame + 1) % (SKULL_FRAMES as int)) as usize, ..*old(self) }
            } else {
                *old(self)
            }),
    {
        if self.active {
            self.frame = (self.frame + 1) % SKULL_FRAMES;
        }
    }

    /// The skull tile: the fixed one until triggered.
    pub fn draw(&self) -> (r: Option<RenderCommand>)
        ensures
            r == Some(RenderCommand::Blit {
                tileset: SKULL_TILESET,
                tile: if self.active { skull_tile(self.frame as int) } else { SKULL_FIXED_TILE },
                x: self.x,
                y: self.y,
                opaque: false,
                clip: None,
            }),
    {
        let tile = if self.active { skull_tile_exec(self.frame) } else { SKULL_FIXED_TILE };
        Some(RenderCommand::Blit { tileset: SKULL_TILESET, tile, x: self.x, y: self.y, opaque: false, clip: None })
    }

    /// The fixed tile while idle; once triggered the animated skull and its
    /// two eyes.
    pub open spec fn spec_draw_multi(&self) -> Seq<RenderCommand> {
        if !self.active {
            seq![RenderCommand::Blit { tileset: SKULL_TILESET, tile: SKULL_FIXED_TILE, x: self.x, y: self.y, opaque: false, clip: None }]
        } else {
            let f = self.frame as int;
            seq![
                RenderCommand::Blit { tileset: SKULL_TILESET, tile: skull_tile(f), x: self.x, y: self.y, opaque: false, clip: None },
                RenderCommand::Blit {
                    tileset: SKULL_TILESET,
                    tile: left_eye_tile(f),
                    x: (self.x + SKULL_EYE_LEFT_X) as i32,
                    y: (self.y + SKULL_EYE_LEFT_Y) as i32,
                    opaque: false,
                    clip: None,
                },
                RenderCommand::Blit {
                    tileset: SKULL_TILESET,
                    tile: right_eye_tile(f),
                    x: (self.x + SKULL_EYE_RIGHT_X) as i32,
                    y: (self.y + SKULL_EYE_RIGHT_Y) as i32,
                    opaque: false,
                    clip: None,
                },
            ]
        }
    }

    pub fn draw_multi(&self) -> (r: Vec<RenderCommand>)
        requires
            pos_ok(self.x as int) && pos_ok(self.y as int),
            self.frame < SKULL_FRAMES,
        ensures
            r@ == self.spec_draw_multi(),
    {
        let mut v: Vec<RenderCommand> = Vec::new();
        if !self.active {
            v.push(RenderCommand::Blit { tileset: SKULL_TILESET, tile: SKULL_FIXED_TILE, x: self.x, y: self.y, opaque: false, clip: None });
            proof { assert(v@ =~= self.spec_draw_multi()); }
            return v;
        }
        let f = self.frame;
        let left: u16 = if f <= 4 { (3 + f) as u16 } else { (11 - f) as u16 };
        let right: u16 = if f <= 4 { (7 - f) as u16 } else { (f - 1) as u16 };
        v.push(RenderCommand::Blit { tileset: SKULL_TILESET, tile: skull_tile_exec(f), x: self.x, y: self.y, opaque: false, clip: None });
        v.push(RenderCommand::Blit { tileset: SKULL_TILESET, tile: left, x: self.x + SKULL_EYE_LEFT_X, y: self.y + SKULL_EYE_LEFT_Y, opaque: false, clip: None });
        v.push(RenderCommand::Blit { tileset: SKULL_TILESET, tile: right, x: self.x + SKULL_EYE_RIGHT_X, y: self.y + SKULL_EYE_RIGHT_Y, opaque: false, clip: None });
        proof { assert(v@ =~= self.spec_draw_multi()); }
        v
    }

    /// The skull does not hurt the player.
    pub fn on_touch(&mut self)
        ensures
            *final(self) == *old(self),
    {
    }

    /// The skull cannot be killed.
    pub fn on_kill(&mut self, damage: i32, death_kind: DeathKind)
        ensures
            *final(self) == *old(self),
    {
    }

    /// The skull never arms a kill of the player.
    pub fn take_player_kill(&mut self) -> (r: Option<DeathKind>)
        ensures
            r is None,
            *final(self) == *old(self),
    {
        None
    }

    pub fn bounding_box(&self) -> (r: Rect)
        ensures
            r == (Rect { x: self.x, y: self.y, w: self.w, h: self.h }),
    {
        Rect::new(self.x, self.y, self.w, self.h)
    }

    /// A trigger with the skull's link starts the animation.
    pub fn receive_trigger(&mut self, link_id: i32)
        ensures
            *final(self) == (if link_id == old(self).link_id { SkullEntity { active: true, ..*old(self) } } else { *old(self) }),
    {
        if link_id == self.link_id {
            self.active = true;
        }
    }

    /// The save record: the origin at the skull's position.
    pub open spec fn spec_snapshot(&self) -> Option<JnObject> {
        Some(JnObject { x: self.x as u16, y: self.y as u16, ..self.origin })
    }

    pub fn snapshot(&self) -> (r: Option<JnObject>)
        ensures
            r == self.spec_snapshot(),
    {
        let mut obj = self.origin;
        obj.set_position(self.x as u16, self.y as u16);
        Some(obj)
    }
}

} // verus!
