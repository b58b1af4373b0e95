//! The ghost: glides along a corridor of cells sharing one map code,
//! turning onto a perpendicular branch at the corridor's end.

use vstd::prelude::*;

use crate::enemies::{dim_ok, pos_ok, score_message};
use crate::grid::BackgroundGrid;
use crate::items::block_dim;
use crate::layout::{block_index, block_of, ZAPHOLD_AFTER_TOUCH};
use crate::record::JnObject;
use crate::world::{DeathKind, Message, MessagePayload, MessageType, Rect, RenderCommand};

verus! {

pub const GHOST_TILESET: u8 = 50;

pub const GHOST_TILE_RIGHT: u16 = 0;

pub const GHOST_TILE_LEFT: u16 = 1;

pub const GHOST_TILE_UP: u16 = 2;

pub const GHOST_TILE_DOWN: u16 = 3;

/// Score awarded when a ghost is killed.
pub const GHOST_SCORE_VALUE: i32 = 300;

/// Glide speed when the record carries none.
pub const GHOST_DEFAULT_SPEED: i32 = 2;

/// The map code of cell `(cx, cy)`: `None` off the grid, `0` for a cell
/// without one.
pub open spec fn cell_code(g: &BackgroundGrid, cx: int, cy: int) -> Option<u16> {
    if !g.in_bounds(cx, cy) {
        None
    } else {
        match g.cell(cx, cy).spec_dma_map_code() {
            Some(c) => Some(c),
            None => Some(0u16),
        }
    }
}

pub fn cell_code_exec(g: &BackgroundGrid, cx: i32, cy: i32) -> (r: Option<u16>)
    ensures
        r == cell_code(g, cx as int, cy as int),
{
    if cx < 0 || cy < 0 {
        return None;
    }
    match g.get(cx as usize, cy as usize) {
        None => None,
        Some(c) => match c.dma_map_code() {
            Some(code) => Some(code),
            None => Some(0),
        },
    }
}

/// A corridor-following enemy.
#[derive(Clone, Copy, Debug)]
pub struct GhostEntity {
    pub x: i32,
    pub y: i32,
    pub w: i32,
    pub h: i32,
    pub x_speed: i32,
    pub y_speed: i32,
    /// Glide speed magnitude.
    pub speed: i32,
    pub dead: bool,
    pub score_dispatched: bool,
    pub zaphold: i32,
    pub pending_kill: Option<DeathKind>,
    /// The record the ghost was built from.
    pub origin: JnObject,
}

impl GhostEntity {
    /// Bounds keeping a tick free of overflow.
    pub open spec fn wf(&self) -> bool {
        &&& pos_ok(self.x as int) && pos_ok(self.y as int)
        &&& dim_ok(self.w as int) && dim_ok(self.h as int)
        &&& 0 <= self.speed <= 0x8000
        &&& -0x8000 <= self.x_speed <= 0x8000
        &&& -0x8000 <= self.y_speed <= 0x8000
        &&& 0 <= self.zaphold <= 0xFFFF
    }

    /// Looser bounds under which one glide step stays free of overflow.
    pub open spec fn glide_ok(&self) -> bool {
        &&& -0x0880_0000 <= self.x <= 0x0880_0000
        &&& -0x0880_0000 <= self.y <= 0x0880_0000
        &&& dim_ok(self.w as int) && dim_ok(self.h as int)
        &&& 0 <= self.speed <= 0x8000
        &&& -0x8000 <= self.x_speed <= 0x8000
        &&& -0x8000 <= self.y_speed <= 0x8000
    }

    /// The glide speed a record gives: its counter's magnitude, or 2.
    pub open spec fn spec_speed(item: JnObject) -> i32 {
        if item.counter != 0 {
            (if item.counter < 0 { -item.counter } else { item.counter as int }) as i32
        } else {
            GHOST_DEFAULT_SPEED
        }
    }

    /// The ghost a record describes: box at least one block, its speeds
    /// (gliding right at its speed when it has none).
    pub open spec fn spec_new(item: JnObject) -> GhostEntity {
        let speed = Self::spec_speed(item);
        let still = item.x_speed == 0 && item.y_speed == 0;
        GhostEntity {
            x: item.x as i32,
            y: item.y as i32,
            w: block_dim(item.width),
            h: block_dim(item.height),
            x_speed: if still { speed } else { item.x_speed as i32 },
            y_speed: if still { 0 } else { item.y_speed as i32 },
            speed,
            dead: false,
            score_dispatched: false,
            zaphold: item.zap_hold as i32,
            pending_kill: None,
            origin: item,
        }
    }

    pub fn new(item: &JnObject) -> (r: GhostEntity)
        ensures
            r == Self::spec_new(*item),
            r.wf(),
    {
        let c = item.counter as i32;
        let c = if c < 0 { -c } else { c };
        let speed = if c != 0 { c } else { GHOST_DEFAULT_SPEED };
        let xs = item.x_speed as i32;
        let ys = item.y_speed as i32;
        let (x_speed, y_speed) = if xs == 0 && ys == 0 { (speed, 0) } else { (xs, ys) };
        GhostEntity {
            x: item.x as i32,
            y: item.y as i32,
            w: crate::items::at_least_block(item.width),
            h: crate::items::at_least_block(item.height),
            x_speed,
            y_speed,
            speed,
            dead: false,
            score_dispatched: false,
            zaphold: item.zap_hold as i32,
            pending_kill: None,
            origin: *item,
        }
    }

    /// Vertical glide: the speed is reset to the glide speed in its
    /// direction; the ghost moves while the leading row's cell keeps the
    /// current code, otherwise it stops vertically and turns right (or else
    /// left) where the side cell has the current code.
    pub open spec fn spec_move_up_down(self, g: &BackgroundGrid) -> GhostEntity {
        let bx = block_of(self.x as int);
        let new_y = self.y + self.y_speed;
        let down = self.y_speed > 0;
        let ys = if down { self.speed as int } else { -self.speed };
        let by = if down { block_of(self.y + self.h - 1) } else { block_of(self.y as int) };
        let nby = if down { block_of(new_y + self.h - 1) } else { block_of(new_y) };
        let current = cell_code(g, bx, by);
        if current is Some && current == cell_code(g, bx, nby) {
            GhostEntity { y: new_y as i32, y_speed: ys as i32, ..self }
        } else if current == cell_code(g, bx + 1, by) {
            GhostEntity { y_speed: 0, x_speed: self.speed, ..self }
        } else if current == cell_code(g, bx - 1, by) {
            GhostEntity { y_speed: 0, x_speed: (-self.speed) as i32, ..self }
        } else {
            GhostEntity { y_speed: 0, ..self }
        }
    }

    /// Horizontal glide: the ghost moves while the leading column's cell
    /// keeps the current code, otherwise it stops horizontally and turns
    /// down (or else up) where the cell below (above) has the current code.
    pub open spec fn spec_move_left_right(self, g: &BackgroundGrid) -> GhostEntity {
        let by = block_of(self.y as int);
        let new_x = self.x + self.x_speed;
        let right = self.x_speed > 0;
        let bx = if right { block_of(self.x + self.w - 1) } else { block_of(self.x as int) };
        let nbx = if right { block_of(new_x + self.w - 1) } else { block_of(new_x) };
        let current = cell_code(g, bx, by);
        if current is Some && current == cell_code(g, nbx, by) {
            GhostEntity { x: new_x as i32, ..self }
        } else if current == cell_code(g, bx, by + 1) {
            GhostEntity { x_speed: 0, y_speed: self.speed, ..self }
        } else if current == cell_code(g, bx, by - 1) {
            GhostEntity { x_speed: 0, y_speed: (-self.speed) as i32, ..self }
        } else {
            GhostEntity { x_speed: 0, ..self }
        }
    }

    fn move_up_down(&mut self, g: &BackgroundGrid)
        requires
            old(self).glide_ok(),
        ensures
            *final(self) == old(self).spec_move_up_down(g),
    {
        let bx = block_index(self.x);
        let new_y = self.y + self.y_speed;
        let (by, nby) = if self.y_speed > 0 {
            self.y_speed = self.speed;
            (block_index(self.y + self.h - 1), block_index(new_y + self.h - 1))
        } else {
            self.y_speed = -self.speed;
            (block_index(self.y), block_index(new_y))
        };
        let current = cell_code_exec(g, bx, by);
        let ahead = cell_code_exec(g, bx, nby);
        if current.is_some() && current == ahead {
            self.y = new_y;
        } else {
            self.y_speed = 0;
            if current == cell_code_exec(g, bx + 1, by) {
                self.x_speed = self.speed;
            } else if current == cell_code_exec(g, bx - 1, by) {
                self.x_speed = -self.speed;
            }
        }
    }

    fn move_left_right(&mut self, g: &BackgroundGrid)
        requires
            old(self).glide_ok(),
        ensures
            *final(self) == old(self).spec_move_left_right(g),
    {
        let by = block_index(self.y);
        let new_x = self.x + self.x_speed;
        let (bx, nbx) = if self.x_speed > 0 {
            (block_index(self.x + self.w - 1), block_index(new_x + self.w - 1))
        } else {
            (block_index(self.x), block_index(new_x))
        };
        let current = cell_code_exec(g, bx, by);
        let ahead = cell_code_exec(g, nbx, by);
        if current.is_some() && current == ahead {
            self.x = new_x;
        } else {
            self.x_speed = 0;
            if current == cell_code_exec(g, bx, by + 1) {
                self.y_speed = self.speed;
            } else if current == cell_code_exec(g, bx, by - 1) {
                self.y_speed = -self.speed;
            }
        }
    }

    /// The ghost after one tick and its messages. A dead ghost pays its
    /// score once. Otherwise, with a vertical speed it glides vertically,
    /// then with a horizontal speed (possibly just turned onto) it glides
    /// horizontally.
    pub open spec fn spec_step(self, g: &BackgroundGrid) -> (GhostEntity, Seq<Message>) {
        if self.dead {
            if !self.score_dispatched {
                (GhostEntity { score_dispatched: true, ..self }, seq![score_message(GHOST_SCORE_VALUE)])
            } else {
                (self, seq![])
            }
        } else {
            let z = if self.zaphold > 0 { self.zaphold - 1 } else { self.zaphold as int };
            let g0 = GhostEntity { zaphold: z as i32, ..self };
            let g1 = if g0.y_speed != 0 { g0.spec_move_up_down(g) } else { g0 };
            let g2 = if g1.x_speed != 0 { g1.spec_move_left_right(g) } else { g1 };
            (g2, seq![])
        }
    }

    /// One tick of the ghost; returns the messages it sends.
    pub fn update(&mut self, g: &BackgroundGrid) -> (msgs: Vec<Message>)
        requires
            old(self).wf(),
        ensures
            *final(self) == old(self).spec_step(g).0,
            msgs@ == old(self).spec_step(g).1,
    {
        let mut msgs: Vec<Message> = Vec::new();
        if self.dead {
            if !self.score_dispatched {
                self.score_dispatched = true;
                msgs.push(Message { msg_type: MessageType::InventoryPoint, payload: MessagePayload::Count(GHOST_SCORE_VALUE) });
                proof { assert(msgs@ =~= seq![score_message(GHOST_SCORE_VALUE)]); }
            }
            return msgs;
        }
        if self.zaphold > 0 {
            self.zaphold = self.zaphold - 1;
        }
        if self.y_speed != 0 {
            self.move_up_down(g);
        }
        if self.x_speed != 0 {
            self.move_left_right(g);
        }
        proof { assert(msgs@ =~= seq![]); }
        msgs
    }

    /// Facing tile: left or right by the horizontal speed, else down or up.
    pub open spec fn spec_tile(&self) -> u16 {
        if self.x_speed < 0 {
            GHOST_TILE_LEFT
        } else if self.x_speed > 0 {
            GHOST_TILE_RIGHT
        } else if self.y_speed > 0 {
            GHOST_TILE_DOWN
        } else {
            GHOST_TILE_UP
        }
    }

    pub fn draw(&self) -> (r: Option<RenderCommand>)
        ensures
            r == (if self.dead {
                None
            } else {
                Some(RenderCommand::Blit { tileset: GHOST_TILESET, tile: self.spec_tile(), x: self.x, y: self.y, opaque: false, clip: None })
            }),
    {
        if self.dead {
            return None;
        }
        let tile = if self.x_speed < 0 {
            GHOST_TILE_LEFT
        } else if self.x_speed > 0 {
            GHOST_TILE_RIGHT
        } else if self.y_speed > 0 {
            GHOST_TILE_DOWN
        } else {
            GHOST_TILE_UP
        };
        Some(RenderCommand::Blit { tileset: GHOST_TILESET, tile, x: self.x, y: self.y, opaque: false, clip: None })
    }

    /// Contact with the player: unless dead or cooling down, arms an enemy
    /// kill and the cooldown.
    pub fn on_touch(&mut self)
        ensures
            *final(self) == (if old(self).dead || old(self).zaphold > 0 {
                *old(self)
            } else {
                GhostEntity { zaphold: ZAPHOLD_AFTER_TOUCH, pending_kill: Some(DeathKind::Enemy), ..*old(self) }
            }),
    {
        if self.dead || self.zaphold > 0 {
            return;
        }
        self.zaphold = ZAPHOLD_AFTER_TOUCH;
        self.pending_kill = Some(DeathKind::Enemy);
    }

    /// A weapon hit of at least one point kills the ghost.
    pub fn on_kill(&mut self, damage: i32, death_kind: DeathKind)
        ensures
            *final(self) == (if old(self).dead || damage < 1 { *old(self) } else { GhostEntity { dead: true, ..*old(self) } }),
    {
        if self.dead || damage < 1 {
            return;
        }
        self.dead = true;
    }

    pub fn bounding_box(&self) -> (r: Rect)
        ensures
            r == (Rect { x: self.x, y: self.y, w: self.w, h: self.h }),
    {
        Rect::new(self.x, self.y, self.w, self.h)
    }

    pub fn is_dead(&self) -> (r: bool)
        ensures
            r == self.dead,
    {
        self.dead
    }

    /// The save record of a live ghost: the origin with position, speeds
    /// (none again when the record had none and the ghost still glides
    /// right at its speed) and cooldown.
    pub open spec fn spec_snapshot(&self) -> Option<JnObject> {
        if self.dead {
            None
        } else {
            let default_glide = self.x_speed == self.speed && self.y_speed == 0 && self.origin.x_speed == 0 && self.origin.y_speed == 0;
            Some(JnObject {
                x: self.x as u16,
                y: self.y as u16,
                x_speed: if default_glide { self.origin.x_speed } else { self.x_speed as i16 },
                y_speed: if default_glide { self.origin.y_speed } else { self.y_speed as i16 },
                zap_hold: self.zaphold as u16,
                ..self.origin
            })
        }
    }

    pub fn snapshot(&self) -> (r: Option<JnObject>)
        ensures
            r == self.spec_snapshot(),
    {
        if self.dead {
            return None;
        }
        let mut obj = self.origin;
        obj.set_position(self.x as u16, self.y as u16);
        let default_glide = self.x_speed == self.speed && self.y_speed == 0 && obj.x_speed == 0 && obj.y_speed == 0;
        let (xs, ys) = if default_glide { (obj.x_speed, obj.y_speed) } else { (self.x_speed as i16, self.y_speed as i16) };
        obj.set_speed(xs, ys);
        obj.set_zap_hold(self.zaphold as u16);
        Some(obj)
    }

    /// Takes the armed kill, if any.
    pub fn take_player_kill(&mut self) -> (r: Option<DeathKind>)
        ensures
            r == old(self).pending_kill,
            *final(self) == (GhostEntity { pending_kill: None, ..*old(self) }),
    {
        let r = self.pending_kill;
        self.pending_kill = None;
        r
    }
}

/// Saving a ghost built from a record gives the record back.
pub proof fn lemma_ghost_snapshot_round_trip(item: JnObject)
    ensures
        GhostEntity::spec_new(item).spec_snapshot() == Some(item),
{
    let gh = GhostEntity::spec_new(item);
    assert(gh.spec_snapshot().unwrap() == item);
}

} // verus!
