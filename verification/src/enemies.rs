//! Enemies: bees and their hive, frogs, crabs and giant ants. Each tick of
//! each enemy is a function of its state, the background grid and its
//! random generator; the messages it emits (score, spawn requests) are
//! returned.

use vstd::prelude::*;

use crate::collision::{lemma_slide_x_lands, lemma_slide_y_lands, 
    blocked_ahead, box_ok, floor_under_next, is_on_vine, sign, dist, slide_x, slide_y,
    spec_blocked_ahead, spec_floor_under_next, spec_is_on_climbable, spec_slide_x, spec_slide_y,
};
use crate::grid::BackgroundGrid;
use crate::layout::{BLOCK_SIZE, ZAPHOLD_AFTER_TOUCH};
use crate::record::JnObject;
use crate::rng::{range_value, xorshift, EnemyRng};
use crate::world::{DeathKind, Message, MessagePayload, MessageType, Rect, RenderCommand, SpawnRequest};

verus! {

/// Largest absolute position an enemy may hold.
pub const ENEMY_POS_LIMIT: i32 = 0x0800_0000;

/// A position within the enemy range.
pub open spec fn pos_ok(v: int) -> bool {
    -ENEMY_POS_LIMIT <= v <= ENEMY_POS_LIMIT
}

/// A sprite side within range.
pub open spec fn dim_ok(v: int) -> bool {
    0 <= v <= 0xFFFF
}

/// Score message worth `points`.
pub open spec fn score_message(points: i32) -> Message {
    Message { msg_type: MessageType::InventoryPoint, payload: MessagePayload::Count(points) }
}

/// Result of a slide as a spec value: the new coordinate after moving up to
/// `|d|` pixels.
pub open spec fn slid_x(g: &BackgroundGrid, x: int, y: int, w: int, h: int, d: int) -> int {
    spec_slide_x(g, x, y, w, h, sign(d), dist(d, 0))
}

pub open spec fn slid_y(g: &BackgroundGrid, x: int, y: int, w: int, h: int, d: int) -> int {
    spec_slide_y(g, x, y, w, h, sign(d), dist(d, 0))
}

/// The sprite's y adjustment: a sprite taller than the record is raised so
/// its feet stay where the record's box ends.
pub open spec fn y_adjust(sprite_h: int, record_h: int) -> int {
    if record_h > 0 && sprite_h - record_h > 0 {
        sprite_h - record_h
    } else {
        0
    }
}

pub fn y_adjust_exec(sprite_h: i32, record_h: i32) -> (r: i32)
    requires
        dim_ok(sprite_h as int),
        dim_ok(record_h as int),
    ensures
        r == y_adjust(sprite_h as int, record_h as int),
        0 <= r <= 0xFFFF,
{
    if record_h > 0 && sprite_h - record_h > 0 {
        sprite_h - record_h
    } else {
        0
    }
}

// ---------------------------------------------------------------------------
// Bees
// ---------------------------------------------------------------------------

pub const BEES_TILESET: u8 = 37;

pub const BEES_TILE_BASE: u16 = 10;

pub const BEES_NUMBER_TILE_SET: i32 = 2;

/// Tick at which a bee expires.
pub const BEES_STATE_DIE: i32 = 160;

pub const BEES_START_OFFSET: i32 = 7;

/// Length of the bee movement cycle.
pub const BEES_SIZE_OF_MVT: i32 = 32;

pub const BEES_OBJECT_TYPE: u8 = 46;

/// One entry of a bee move table: for cycle values below `bound`, a speed
/// magnitude in `[lo, hi)` (or exactly `lo` when `hi == lo`).
#[derive(Clone, Copy, Debug, PartialEq, Eq, Structural)]
pub struct MoveStep {
    pub bound: i32,
    pub lo: i32,
    pub hi: i32,
}

/// Horizontal move table `4:1#11:0#15:1#32:2-4`.
pub open spec fn spec_move_x() -> Seq<MoveStep> {
    seq![
        MoveStep { bound: 4, lo: 1, hi: 1 },
        MoveStep { bound: 11, lo: 0, hi: 0 },
        MoveStep { bound: 15, lo: 1, hi: 1 },
        MoveStep { bound: 32, lo: 2, hi: 4 },
    ]
}

/// Vertical move table `4:0-3#11:0-4#15:0-3#27:0#31:0-1#32:0-2`.
pub open spec fn spec_move_y() -> Seq<MoveStep> {
    seq![
        MoveStep { bound: 4, lo: 0, hi: 3 },
        MoveStep { bound: 11, lo: 0, hi: 4 },
        MoveStep { bound: 15, lo: 0, hi: 3 },
        MoveStep { bound: 27, lo: 0, hi: 0 },
        MoveStep { bound: 31, lo: 0, hi: 1 },
        MoveStep { bound: 32, lo: 0, hi: 2 },
    ]
}

pub fn move_x_table() -> (r: Vec<MoveStep>)
    ensures
        r@ == spec_move_x(),
{
    let mut v = Vec::new();
    v.push(MoveStep { bound: 4, lo: 1, hi: 1 });
    v.push(MoveStep { bound: 11, lo: 0, hi: 0 });
    v.push(MoveStep { bound: 15, lo: 1, hi: 1 });
    v.push(MoveStep { bound: 32, lo: 2, hi: 4 });
    assert(v@ =~= spec_move_x());
    v
}

pub fn move_y_table() -> (r: Vec<MoveStep>)
    ensures
        r@ == spec_move_y(),
{
    let mut v = Vec::new();
    v.push(MoveStep { bound: 4, lo: 0, hi: 3 });
    v.push(MoveStep { bound: 11, lo: 0, hi: 4 });
    v.push(MoveStep { bound: 15, lo: 0, hi: 3 });
    v.push(MoveStep { bound: 27, lo: 0, hi: 0 });
    v.push(MoveStep { bound: 31, lo: 0, hi: 1 });
    v.push(MoveStep { bound: 32, lo: 0, hi: 2 });
    assert(v@ =~= spec_move_y());
    v
}

/// The table entry selected by cycle value `c`: the first whose bound
/// exceeds `c`, from index `i` on.
pub open spec fn first_step(table: Seq<MoveStep>, c: int, i: int) -> Option<MoveStep>
    decreases table.len() - i,
{
    if i >= table.len() || i < 0 {
        None
    } else if c < table[i].bound {
        Some(table[i])
    } else {
        first_step(table, c, i + 1)
    }
}

/// `(magnitude, next generator state)` of a bee move: the selected entry's
/// fixed magnitude, or a draw in `[lo, hi)`; zero when no entry applies.
pub open spec fn spec_move_magnitude(c: int, table: Seq<MoveStep>, s: u32) -> (int, u32) {
    match first_step(table, c, 0) {
        None => (0, s),
        Some(step) => if step.hi > step.lo {
            (range_value(s, step.lo as int, step.hi as int), xorshift(s))
        } else {
            (step.lo as int, s)
        },
    }
}

/// A move table whose magnitudes stay within a bee's top speed of four.
pub open spec fn table_ok(table: Seq<MoveStep>) -> bool {
    forall|i: int| 0 <= i < table.len() ==> 0 <= #[trigger] table[i].lo <= 4 && 0 <= table[i].hi <= 4
}

/// Move magnitude for cycle value `c` from `table`.
pub fn move_magnitude(c: i32, table: &Vec<MoveStep>, rng: &mut EnemyRng) -> (r: i32)
    requires
        table_ok(table@),
    ensures
        (r as int, final(rng).spec_state()) == spec_move_magnitude(c as int, table@, old(rng).spec_state()),
        *final(rng) == EnemyRng::spec_with_state(final(rng).spec_state()),
        0 <= r <= 4,
{
    proof { EnemyRng::lemma_state(*rng); }
    let mut i: usize = 0;
    while i < table.len()
        invariant
            0 <= i <= table.len(),
            table_ok(table@),
            *rng == *old(rng),
            *rng == EnemyRng::spec_with_state(rng.spec_state()),
            first_step(table@, c as int, 0) == first_step(table@, c as int, i as int),
        decreases table.len() - i,
    {
        let step = table[i];
        if c < step.bound {
            return if step.hi > step.lo {
                rng.range(step.lo, step.hi)
            } else {
                step.lo
            };
        }
        i = i + 1;
    }
    0
}

/// Mixes spawn coordinates into a generator seed.
pub open spec fn spec_seed_from(x: i32, y: i32) -> u32 {
    ((((x as u32) as int * 0x8DA6_B343) % 0x1_0000_0000) as u32) ^ ((((y as u32) as int * 0xD737_4257) % 0x1_0000_0000) as u32)
}

pub fn seed_from(x: i32, y: i32) -> (r: u32)
    ensures
        r == spec_seed_from(x, y),
{
    (x as u32).wrapping_mul(0x8DA6_B343) ^ (y as u32).wrapping_mul(0xD737_4257)
}

/// Short-lived bee: weaves toward the player on both axes, harms on
/// contact, cannot be killed, expires after [`BEES_STATE_DIE`] ticks.
#[derive(Clone, Copy, Debug)]
pub struct BeesEntity {
    pub x: i32,
    pub y: i32,
    pub w: i32,
    pub h: i32,
    pub player_x: i32,
    pub player_y: i32,
    pub x_speed: i32,
    pub y_speed: i32,
    pub state: i32,
    pub counter: i32,
    pub removed: bool,
    pub zaphold: i32,
    pub pending_kill: Option<DeathKind>,
    pub rng: EnemyRng,
    pub origin: JnObject,
}

impl BeesEntity {
    /// Bounds keeping a tick free of overflow.
    pub open spec fn wf(&self) -> bool {
        &&& pos_ok(self.x as int) && pos_ok(self.y as int)
        &&& pos_ok(self.player_x as int) && pos_ok(self.player_y as int)
        &&& dim_ok(self.w as int) && dim_ok(self.h as int)
        &&& -4 <= self.x_speed <= 4
        &&& -4 <= self.y_speed <= 4
        &&& 0 <= self.state <= BEES_STATE_DIE
        &&& (self.state == BEES_STATE_DIE ==> self.removed)
        &&& 0 <= self.counter < BEES_NUMBER_TILE_SET
        &&& 0 <= self.zaphold <= 0xFFFF
    }

    /// A bee built from a record: box at least one block, flight state reset.
    pub fn new(item: &JnObject) -> (r: BeesEntity)
        ensures
            r.wf(),
            r == Self::spec_build(item.x as i32, item.y as i32, crate::items::block_dim(item.width), crate::items::block_dim(item.height), *item),
    {
        let w = crate::items::at_least_block(item.width);
        let h = crate::items::at_least_block(item.height);
        Self::build(item.x as i32, item.y as i32, w, h, *item)
    }

    /// A bee spawned by a hive at `(x, y)`, with a fresh record of type 46.
    pub fn spawn_at(x: i32, y: i32) -> (r: BeesEntity)
        requires
            pos_ok(x as int),
            pos_ok(y as int),
        ensures
            r.wf(),
            r == Self::spec_build(x, y, BLOCK_SIZE, BLOCK_SIZE, JnObject {
                object_type: BEES_OBJECT_TYPE,
                x: x as u16,
                y: y as u16,
                x_speed: 0,
                y_speed: 0,
                width: BLOCK_SIZE as u16,
                height: BLOCK_SIZE as u16,
                state: 0,
                sub_state: 0,
                state_count: 0,
                counter: 0,
                flags: 0,
                pointer: 0,
                info1: 0,
                zap_hold: 0,
            }),
    {
        let origin = JnObject::spawned(BEES_OBJECT_TYPE, x as u16, y as u16, BLOCK_SIZE as u16, BLOCK_SIZE as u16);
        Self::build(x, y, BLOCK_SIZE, BLOCK_SIZE, origin)
    }

    pub open spec fn spec_build(x: i32, y: i32, w: i32, h: i32, origin: JnObject) -> BeesEntity {
        BeesEntity {
            x,
            y,
            w,
            h,
            player_x: x,
            player_y: y,
            x_speed: 0,
            y_speed: 0,
            state: 0,
            counter: 0,
            removed: false,
            zaphold: 0,
            pending_kill: None,
            rng: EnemyRng::spec_new(spec_seed_from(x, y)),
            origin,
        }
    }

    fn build(x: i32, y: i32, w: i32, h: i32, origin: JnObject) -> (r: BeesEntity)
        requires
            pos_ok(x as int),
            pos_ok(y as int),
            dim_ok(w as int),
            dim_ok(h as int),
        ensures
            r == Self::spec_build(x, y, w, h, origin),
    {
        BeesEntity {
            x,
            y,
            w,
            h,
            player_x: x,
            player_y: y,
            x_speed: 0,
            y_speed: 0,
            state: 0,
            counter: 0,
            removed: false,
            zaphold: 0,
            pending_kill: None,
            rng: EnemyRng::new(seed_from(x, y)),
            origin,
        }
    }

    /// The bee after one tick: the touch cooldown counts down, the bee ages
    /// (expiring at [`BEES_STATE_DIE`]), its frame flips, it slides by last
    /// tick's speeds and picks new speed magnitudes from the move tables for
    /// cycle `(state + 7) mod 32`, signed toward the player (the vertical
    /// one keeps flipping while level with the player).
    pub open spec fn spec_next(self, g: &BackgroundGrid) -> BeesEntity {
        if self.removed {
            self
        } else {
            let z = if self.zaphold > 0 { self.zaphold - 1 } else { self.zaphold as int };
            let st = self.state + 1;
            if st >= BEES_STATE_DIE {
                BeesEntity { zaphold: z as i32, state: st as i32, removed: true, ..self }
            } else {
                let c = (st + BEES_START_OFFSET) % (BEES_SIZE_OF_MVT as int);
                let xd_sign = self.player_x - self.x;
                let yd_sign = self.player_y - self.y;
                let nx = slid_x(g, self.x as int, self.y as int, self.w as int, self.h as int, self.x_speed as int);
                let s0 = self.rng.spec_state();
                let (mx, s1) = if xd_sign != 0 { spec_move_magnitude(c, spec_move_x(), s0) } else { (0, s0) };
                let new_xd = if xd_sign < 0 { -mx } else { mx };
                let ny = slid_y(g, nx, self.y as int, self.w as int, self.h as int, self.y_speed as int);
                let (my, s2) = spec_move_magnitude(c, spec_move_y(), s1);
                let new_yd = if yd_sign == 0 {
                    if self.y_speed > 0 { -my } else { my }
                } else if yd_sign < 0 {
                    -my
                } else {
                    my
                };
                BeesEntity {
                    zaphold: z as i32,
                    state: st as i32,
                    counter: ((self.counter + 1) % (BEES_NUMBER_TILE_SET as int)) as i32,
                    x: nx as i32,
                    y: ny as i32,
                    x_speed: new_xd as i32,
                    y_speed: new_yd as i32,
                    rng: EnemyRng::spec_with_state(s2),
                    ..self
                }
            }
        }
    }

    /// One tick of the bee.
    pub fn update(&mut self, g: &BackgroundGrid)
        requires
            old(self).wf(),
        ensures
            *final(self) == old(self).spec_next(g),
            final(self).wf(),
    {
        if self.removed {
            return;
        }
        if self.zaphold > 0 {
            self.zaphold = self.zaphold - 1;
        }
        self.state = self.state + 1;
        if self.state >= BEES_STATE_DIE {
            self.removed = true;
            return;
        }
        self.counter = (self.counter + 1) % BEES_NUMBER_TILE_SET;
        let _ = g.width();
        let _ = g.height();
        proof {
            lemma_slide_x_lands(g, self.x as int, self.y as int, self.w as int, self.h as int, sign(self.x_speed as int), dist(self.x_speed as int, 0));
        }
        let c = (self.state + BEES_START_OFFSET) % BEES_SIZE_OF_MVT;
        let xd_sign = self.player_x - self.x;
        let yd_sign = self.player_y - self.y;
        let prev_yd = self.y_speed;
        let mut nx = self.x;
        slide_x(g, &mut nx, self.y, self.w, self.h, self.x_speed);
        self.x = nx;
        let tx = move_x_table();
        let ty = move_y_table();
        let mut new_xd = if xd_sign != 0 {
            move_magnitude(c, &tx, &mut self.rng)
        } else {
            0
        };
        if xd_sign < 0 {
            new_xd = -new_xd;
        }
        self.x_speed = new_xd;
        let mut ny = self.y;
        proof {
            lemma_slide_y_lands(g, self.x as int, self.y as int, self.w as int, self.h as int, sign(self.y_speed as int), dist(self.y_speed as int, 0));
        }
        slide_y(g, self.x, &mut ny, self.w, self.h, self.y_speed);
        self.y = ny;
        let mut new_yd = move_magnitude(c, &ty, &mut self.rng);
        if yd_sign == 0 {
            if prev_yd > 0 {
                new_yd = -new_yd;
            }
        } else if yd_sign < 0 {
            new_yd = -new_yd;
        }
        self.y_speed = new_yd;
    }

    /// The bee's current frame while alive.
    pub fn draw(&self) -> (r: Option<RenderCommand>)
        requires
            0 <= self.counter < BEES_NUMBER_TILE_SET,
        ensures
            r == (if self.removed {
                None
            } else {
                Some(RenderCommand::Blit { tileset: BEES_TILESET, tile: (BEES_TILE_BASE + self.counter) as u16, x: self.x, y: self.y, opaque: false, clip: None })
            }),
    {
        if self.removed {
            return None;
        }
        Some(RenderCommand::Blit { tileset: BEES_TILESET, tile: BEES_TILE_BASE + self.counter as u16, x: self.x, y: self.y, opaque: false, clip: None })
    }

    /// Contact with the player: unless removed or cooling down, arms an
    /// enemy kill and the cooldown.
    pub fn on_touch(&mut self)
        ensures
            *final(self) == (if old(self).removed || old(self).zaphold > 0 {
                *old(self)
            } else {
                BeesEntity { zaphold: ZAPHOLD_AFTER_TOUCH, pending_kill: Some(DeathKind::Enemy), ..*old(self) }
            }),
    {
        if self.removed || self.zaphold > 0 {
            return;
        }
        self.zaphold = ZAPHOLD_AFTER_TOUCH;
        self.pending_kill = Some(DeathKind::Enemy);
    }

    /// Bees cannot be killed by weapons.
    pub fn on_kill(&mut self, damage: i32, death_kind: DeathKind)
        ensures
            *final(self) == *old(self),
    {
    }

    /// Takes the armed kill, if any.
    pub fn take_player_kill(&mut self) -> (r: Option<DeathKind>)
        ensures
            r == old(self).pending_kill,
            *final(self) == (BeesEntity { pending_kill: None, ..*old(self) }),
    {
        let r = self.pending_kill;
        self.pending_kill = None;
        r
    }

    /// Records the player's position to home toward.
    pub fn observe_player(&mut self, player_bbox: Rect)
        ensures
            *final(self) == (BeesEntity { player_x: player_bbox.x, player_y: player_bbox.y, ..*old(self) }),
    {
        self.player_x = player_bbox.x;
        self.player_y = player_bbox.y;
    }

    pub fn bounding_box(&self) -> (r: Rect)
        ensures
            r == (Rect { x: self.x, y: self.y, w: self.w, h: self.h }),
    {
        Rect::new(self.x, self.y, self.w, self.h)
    }

    pub fn should_remove(&self) -> (r: bool)
        ensures
            r == self.removed,
    {
        self.removed
    }

    /// The save record (live position over the origin) while alive.
    pub open spec fn spec_snapshot(&self) -> Option<JnObject> {
        if self.removed { None } else { Some(JnObject { x: self.x as u16, y: self.y as u16, ..self.origin }) }
    }

    pub fn snapshot(&self) -> (r: Option<JnObject>)
        ensures
            r == self.spec_snapshot(),
    {
        if self.removed {
            return None;
        }
        let mut obj = self.origin;
        obj.set_position(self.x as u16, self.y as u16);
        Some(obj)
    }
}


// ---------------------------------------------------------------------------
// Hive
// ---------------------------------------------------------------------------

pub const HIVE_TILESET: u8 = 8;

pub const HIVE_TILE_BASE: u16 = 8;

/// Score awarded when a hive is destroyed.
pub const HIVE_SCORE_VALUE: i32 = 500;

/// Charge value past which a bee is spawned.
pub const HIVE_COUNTER_CREATE_BEES: i32 = 2;

/// An idle hive starts charging with chance `1 / HIVE_MAX_RANDOM_VALUE` per tick.
pub const HIVE_MAX_RANDOM_VALUE: i32 = 20;

/// Ticks waited per charge step.
pub const HIVE_COUNTER_MAX_WAIT: i32 = 3;

/// Sign of `v` as `-1`, `0` or `1`.
pub open spec fn signum(v: int) -> int {
    if v > 0 {
        1
    } else if v < 0 {
        -1
    } else {
        0
    }
}

/// The seed a hive at `(x, y)` mixes for its generator.
pub open spec fn spec_hive_seed(x: i32, y: i32) -> u32 {
    ((((x as u32) as int * 0x9E37_79B1) % 0x1_0000_0000) as u32) ^ (y as u32)
}

/// The spawn request a hive sends: a bee half a hive-width to the facing side.
pub open spec fn bee_spawn_message(x: int, y: int, w: int, facing: int) -> Message {
    Message {
        msg_type: MessageType::CreateObject,
        payload: MessagePayload::SpawnAt(SpawnRequest {
            object_type: BEES_OBJECT_TYPE,
            x: (if facing >= 0 { x + w / 2 } else { x - w / 2 }) as i32,
            y: y as i32,
            xd: 0,
            yd: 0,
        }),
    }
}

/// Stationary, weapon-killable bee spawner.
#[derive(Clone, Copy, Debug)]
pub struct HiveEntity {
    pub x: i32,
    pub y: i32,
    pub w: i32,
    pub h: i32,
    /// Charge counter: `0` idle, `1..=2` charging.
    pub counter: i32,
    /// Ticks waited at the current charge step.
    pub counter_wait: i32,
    /// `1` when the player is to the right, `-1` to the left.
    pub facing: i32,
    pub player_x: i32,
    pub dead: bool,
    pub score_dispatched: bool,
    pub zaphold: i32,
    pub rng: EnemyRng,
    /// The record the hive was built from.
    pub origin: JnObject,
}

impl HiveEntity {
    /// Bounds keeping a tick free of overflow.
    pub open spec fn wf(&self) -> bool {
        &&& pos_ok(self.x as int) && pos_ok(self.y as int) && pos_ok(self.player_x as int)
        &&& dim_ok(self.w as int) && dim_ok(self.h as int)
        &&& -0x8000 <= self.counter <= 0x8000
        &&& 0 <= self.counter_wait <= HIVE_COUNTER_MAX_WAIT
        &&& (self.facing == 1 || self.facing == -1)
        &&& 0 <= self.zaphold <= 0xFFFF
    }

    pub open spec fn spec_new(item: JnObject) -> HiveEntity {
        HiveEntity {
            x: item.x as i32,
            y: item.y as i32,
            w: crate::items::block_dim(item.width),
            h: crate::items::block_dim(item.height),
            counter: item.counter as i32,
            counter_wait: 0,
            facing: 1,
            player_x: item.x as i32,
            dead: false,
            score_dispatched: false,
            zaphold: item.zap_hold as i32,
            rng: EnemyRng::spec_new(spec_hive_seed(item.x as i32, item.y as i32)),
            origin: item,
        }
    }

    /// A hive built from its record, facing right, resuming the record's
    /// charge and cooldown.
    pub fn new(item: &JnObject) -> (r: HiveEntity)
        ensures
            r == Self::spec_new(*item),
            r.wf(),
    {
        let x = item.x as i32;
        let y = item.y as i32;
        HiveEntity {
            x,
            y,
            w: crate::items::at_least_block(item.width),
            h: crate::items::at_least_block(item.height),
            counter: item.counter as i32,
            counter_wait: 0,
            facing: 1,
            player_x: x,
            dead: false,
            score_dispatched: false,
            zaphold: item.zap_hold as i32,
            rng: EnemyRng::new((x as u32).wrapping_mul(0x9E37_79B1) ^ (y as u32)),
            origin: *item,
        }
    }

    /// The hive after one tick and the messages it sends. A destroyed hive
    /// pays its score once. A live one counts its cooldown down, turns to
    /// the player, and either (idle) starts charging when its draw in
    /// `[0, 20)` is zero, or waits three ticks per charge step; past step
    /// two it spawns a bee on the facing side and goes idle.
    pub open spec fn spec_step(self) -> (HiveEntity, Seq<Message>) {
        if self.dead {
            if !self.score_dispatched {
                (HiveEntity { score_dispatched: true, ..self }, seq![score_message(HIVE_SCORE_VALUE)])
            } else {
                (self, seq![])
            }
        } else {
            let z = if self.zaphold > 0 { self.zaphold - 1 } else { self.zaphold as int };
            let xd = self.player_x - self.x;
            let facing = if xd != 0 { signum(xd) } else { self.facing as int };
            let base = HiveEntity { zaphold: z as i32, facing: facing as i32, ..self };
            if self.counter == 0 {
                let s = self.rng.spec_state();
                let start = range_value(s, 0, HIVE_MAX_RANDOM_VALUE as int) == 0;
                (HiveEntity { counter: if start { 1 } else { 0 }, rng: EnemyRng::spec_with_state(xorshift(s)), ..base }, seq![])
            } else if self.counter_wait < HIVE_COUNTER_MAX_WAIT {
                (HiveEntity { counter_wait: (self.counter_wait + 1) as i32, ..base }, seq![])
            } else if self.counter + 1 > HIVE_COUNTER_CREATE_BEES {
                (HiveEntity { counter: 0, counter_wait: 0, ..base }, seq![bee_spawn_message(self.x as int, self.y as int, self.w as int, facing)])
            } else {
                (HiveEntity { counter: (self.counter + 1) as i32, counter_wait: 0, ..base }, seq![])
            }
        }
    }

    /// One tick of the hive; returns the messages it sends.
    pub fn update(&mut self) -> (msgs: Vec<Message>)
        requires
            old(self).wf(),
        ensures
            *final(self) == old(self).spec_step().0,
            msgs@ == old(self).spec_step().1,
            final(self).wf(),
    {
        let mut msgs: Vec<Message> = Vec::new();
        if self.dead {
            if !self.score_dispatched {
                self.score_dispatched = true;
                msgs.push(Message { msg_type: MessageType::InventoryPoint, payload: MessagePayload::Count(HIVE_SCORE_VALUE) });
            }
            return msgs;
        }
        if self.zaphold > 0 {
            self.zaphold = self.zaphold - 1;
        }
        let xd = self.player_x - self.x;
        if xd != 0 {
            self.facing = if xd > 0 { 1 } else { -1 };
        }
        if self.counter == 0 {
            proof { EnemyRng::lemma_state(self.rng); }
            if self.rng.range(0, HIVE_MAX_RANDOM_VALUE) == 0 {
                self.counter = 1;
            }
        } else if self.counter_wait < HIVE_COUNTER_MAX_WAIT {
            self.counter_wait = self.counter_wait + 1;
        } else {
            self.counter = self.counter + 1;
            self.counter_wait = 0;
            if self.counter > HIVE_COUNTER_CREATE_BEES {
                self.counter = 0;
                let bee_x = if self.facing >= 0 {
                    self.x + self.w / 2
                } else {
                    self.x - self.w / 2
                };
                msgs.push(Message {
                    msg_type: MessageType::CreateObject,
                    payload: MessagePayload::SpawnAt(SpawnRequest { object_type: BEES_OBJECT_TYPE, x: bee_x, y: self.y, xd: 0, yd: 0 }),
                });
            }
        }
        proof {
            assert(msgs@ =~= old(self).spec_step().1);
        }
        msgs
    }

    /// The frame shows the charge level (idle is frame 0, charging frame
    /// 1); nothing once destroyed.
    pub fn draw(&self) -> (r: Option<RenderCommand>)
        ensures
            r == (if self.dead {
                None
            } else {
                Some(RenderCommand::Blit { tileset: HIVE_TILESET, tile: (HIVE_TILE_BASE + (if self.counter == 0 { 0int } else { 1 })) as u16, x: self.x, y: self.y, opaque: false, clip: None })
            }),
    {
        if self.dead {
            return None;
        }
        let frame: u16 = if self.counter == 0 { 0 } else { 1 };
        Some(RenderCommand::Blit { tileset: HIVE_TILESET, tile: HIVE_TILE_BASE + frame, x: self.x, y: self.y, opaque: false, clip: None })
    }

    /// Contact arms the cooldown only: a hive does not hurt the player.
    pub fn on_touch(&mut self)
        ensures
            *final(self) == (if old(self).dead || old(self).zaphold > 0 {
                *old(self)
            } else {
                HiveEntity { zaphold: ZAPHOLD_AFTER_TOUCH, ..*old(self) }
            }),
    {
        if self.dead || self.zaphold > 0 {
            return;
        }
        self.zaphold = ZAPHOLD_AFTER_TOUCH;
    }

    /// A weapon hit of at least one point destroys the hive.
    pub fn on_kill(&mut self, damage: i32, death_kind: DeathKind)
        ensures
            *final(self) == (if old(self).dead || damage < 1 { *old(self) } else { HiveEntity { dead: true, ..*old(self) } }),
    {
        if self.dead || damage < 1 {
            return;
        }
        self.dead = true;
    }

    pub fn bounding_box(&self) -> (r: Rect)
        ensures
            r == (Rect { x: self.x, y: self.y, w: self.w, h: self.h }),
    {
        Rect::new(self.x, self.y, self.w, self.h)
    }

    pub fn is_dead(&self) -> (r: bool)
        ensures
            r == self.dead,
    {
        self.dead
    }

    /// Records the player's column to face.
    pub fn observe_player(&mut self, player_bbox: Rect)
        ensures
            *final(self) == (HiveEntity { player_x: player_bbox.x, ..*old(self) }),
    {
        self.player_x = player_bbox.x;
    }

    /// The save record of a standing hive: the origin with its position,
    /// charge and cooldown.
    pub open spec fn spec_snapshot(&self) -> Option<JnObject> {
        if self.dead {
            None
        } else {
            Some(JnObject {
                x: self.x as u16,
                y: self.y as u16,
                counter: self.counter as i16,
                zap_hold: self.zaphold as u16,
                ..self.origin
            })
        }
    }

    pub fn snapshot(&self) -> (r: Option<JnObject>)
        ensures
            r == self.spec_snapshot(),
    {
        if self.dead {
            return None;
        }
        let mut obj = self.origin;
        obj.set_position(self.x as u16, self.y as u16);
        obj.set_counter(self.counter as i16);
        obj.set_zap_hold(self.zaphold as u16);
        Some(obj)
    }
}

} // verus!

verus! {

/// Saving a hive built from a record gives the record back.
pub proof fn lemma_hive_snapshot_round_trip(item: JnObject)
    ensures
        HiveEntity::spec_new(item).spec_snapshot() == Some(item),
{
    let h = HiveEntity::spec_new(item);
    assert(h.spec_snapshot().unwrap() == item);
}

} // verus!
