//! The player object (JN object type 0): a state machine over `Stand`,
//! `Still`, `Jumping`, `Climbing`, `Begin` and `Die`, with background
//! collision, knife throwing and the death sequence.
//!
//! Every tick runs, in order: the touch and fire cooldowns, the knife throw,
//! the promotion of a pending kill into the `Die` state, and the handler of
//! the current state. The messages a tick emits (spawn requests, inventory
//! changes, the level restart) are returned to the caller in order.

use vstd::prelude::*;

use crate::background::BackgroundCell;
use crate::bullet::{BULLET_OBJECT_TYPE, KNIFE_W};
use crate::collision::{
    has_floor_below, is_on_climbable, spec_has_floor_below, spec_is_on_climbable,
    spec_move_horizontal, spec_move_vertical, try_move_vertical, try_move_vertical_horizontal,
    COORD_LIMIT,
};
use crate::grid::BackgroundGrid;
use crate::layout::{BLOCK_SIZE, ZAPHOLD_AFTER_TOUCH};
use crate::record::JnObject;
use crate::world::{
    ActiveInput, DeathKind, InputCommand, InventoryObject, Message, MessagePayload, MessageType,
    Rect, RenderCommand, RuntimeState, SpawnRequest,
};

verus! {

/// Ticks between successive player shots.
pub const FIRE_COOLDOWN_TICKS: i32 = 8;

/// Horizontal speed of a thrown knife in pixels per tick.
pub const BULLET_SPEED_PX: i32 = 8;

/// Downward offset applied to a thrown knife's spawn position.
pub const KNIFE_SPAWN_Y_OFFSET: i32 = 2;

/// Horizontal step while running or steering a jump.
pub const PLAYER_MOVE_SIZE: i32 = 8;

/// Upward speed at the start of a jump from the ground.
pub const JUMP_INIT_SIZE: i32 = 16;

/// Gravity added to the vertical speed per tick once falling is active.
pub const JUMP_INCREMENT_VALUE: i32 = 2;

/// Terminal falling speed.
pub const JUMP_FALLING_SPEED_LIMIT: i32 = 16;

/// Upward speed at the start of a jump off a vine.
pub const JUMP_INIT_SIZE_FOR_CLIMB: i32 = 12;

/// Downward step while climbing down.
pub const PLAYER_MOVE_SIZE_CLIMB_DOWN: i32 = 4;

/// Climb sub-state when entering a climb.
pub const CLIMB_SUBSTATE_ENTER: i32 = 2;

/// Climb sub-state while climbing down.
pub const CLIMB_SUBSTATE_DOWN: i32 = 2;

/// Jump sub-state from which gravity and steering apply.
pub const SUBSTATE_VALUE_TO_FALL: i32 = 3;

/// Vertical speed set when the die animation starts.
pub const DIE_START_YD: i32 = -12;

/// Die counter value at which the level restart is requested.
pub const STATECOUNT_MAX_TO_RESTART_GAME: i32 = 20;

/// Number of spawn requests in the die burst.
pub const NB_COLORED_BULLET: i32 = 10;

/// Length of the level-entry animation in ticks.
pub const BEGIN_TICKS: i32 = 18;

/// Last frame of the running animation.
pub const RUN_LAST_FRAME: i32 = 7;

/// Tileset holding every player frame.
pub const TILESET_INDEX: u8 = 8;

pub const TILE_STAND_RIGHT: u16 = 21;

pub const TILE_STAND_LEFT: u16 = 20;

pub const TILE_STAND_MIDDLE: u16 = 16;

pub const TILE_FALL: u16 = 60;

pub const TILE_JUMP_MIDDLE_BASE: u16 = 56;

pub const TILE_JUMP_LEFT_BASE: u16 = 32;

pub const TILE_JUMP_RIGHT_BASE: u16 = 40;

pub const TILE_RUN_LEFT_BASE: u16 = 0;

pub const TILE_RUN_RIGHT_BASE: u16 = 8;

pub const TILE_DIE_BASE: u16 = 48;

pub const DIE_FRAME_COUNT: i32 = 6;

pub const DIE_STATECOUNT_STEP: i32 = 4;

/// Vertical step per climb sub-state when climbing up.
pub open spec fn climb_up_step(i: int) -> int {
    if i == 2 {
        -6
    } else if 3 <= i <= 5 {
        -4
    } else {
        0
    }
}

fn climb_up_step_exec(i: i32) -> (r: i32)
    requires
        0 <= i < 6,
    ensures
        r == climb_up_step(i as int),
{
    let steps: [i32; 6] = [0, 0, -6, -4, -4, -4];
    steps[i as usize]
}

/// Climb frame per sub-state.
pub open spec fn climb_tile(i: int) -> u16 {
    if i <= 1 {
        24
    } else if i == 2 || i == 5 {
        25
    } else {
        26
    }
}

/// `v + 1`, saturating at `i32::MAX`.
pub open spec fn sat_inc(v: i32) -> i32 {
    if v == i32::MAX {
        v
    } else {
        (v + 1) as i32
    }
}

fn sat_inc_exec(v: i32) -> (r: i32)
    ensures
        r == sat_inc(v),
{
    if v == i32::MAX {
        v
    } else {
        v + 1
    }
}

/// Top-level player state.
#[derive(Clone, Copy, Debug, PartialEq, Eq, Structural)]
pub enum PlayerStateKind {
    /// Level-entry animation.
    Begin,
    /// On the ground, running, ducking, or idle.
    Stand,
    /// Idle stand alias; handled like `Stand`.
    Still,
    /// Airborne after a jump or a fall.
    Jumping,
    /// Climbing a vine.
    Climbing,
    /// Dying animation.
    Die,
}

/// JN `state` code of each player state.
pub open spec fn spec_state_code(s: PlayerStateKind) -> i16 {
    match s {
        PlayerStateKind::Stand => 0,
        PlayerStateKind::Still => 1,
        PlayerStateKind::Jumping => 2,
        PlayerStateKind::Climbing => 3,
        PlayerStateKind::Begin => 4,
        PlayerStateKind::Die => 5,
    }
}

/// Player state for a JN `state` code; unknown codes mean `Stand`.
pub open spec fn spec_state_from_code(code: i16) -> PlayerStateKind {
    if code == 1 {
        PlayerStateKind::Still
    } else if code == 2 {
        PlayerStateKind::Jumping
    } else if code == 3 {
        PlayerStateKind::Climbing
    } else if code == 4 {
        PlayerStateKind::Begin
    } else if code == 5 {
        PlayerStateKind::Die
    } else {
        PlayerStateKind::Stand
    }
}

impl PlayerStateKind {
    /// Encodes this state as the JN `state` integer
    /// (`STAND=0, STILL=1, JUMPING=2, CLIMBING=3, BEGIN=4, DIE=5`).
    pub fn to_state_code(self) -> (r: i16)
        ensures
            r == spec_state_code(self),
    {
        match self {
            PlayerStateKind::Stand => 0,
            PlayerStateKind::Still => 1,
            PlayerStateKind::Jumping => 2,
            PlayerStateKind::Climbing => 3,
            PlayerStateKind::Begin => 4,
            PlayerStateKind::Die => 5,
        }
    }

    /// Decodes a JN `state` integer; unrecognized codes give `Stand`.
    pub fn from_state_code(code: i16) -> (r: PlayerStateKind)
        ensures
            r == spec_state_from_code(code),
    {
        if code == 1 {
            PlayerStateKind::Still
        } else if code == 2 {
            PlayerStateKind::Jumping
        } else if code == 3 {
            PlayerStateKind::Climbing
        } else if code == 4 {
            PlayerStateKind::Begin
        } else if code == 5 {
            PlayerStateKind::Die
        } else {
            PlayerStateKind::Stand
        }
    }
}

/// Largest absolute position the player may hold before a tick.
pub const POS_LIMIT: i32 = 0x0800_0000;

/// Player object entity.
#[derive(Clone, Debug)]
pub struct PlayerEntity {
    /// World X of the bounding box's top-left corner.
    pub x: i32,
    /// World Y of the bounding box's top-left corner.
    pub y: i32,
    /// Bounding box width.
    pub w: i32,
    /// Bounding box height.
    pub h: i32,
    /// Current top-level state.
    pub state: PlayerStateKind,
    /// Per-state sub-state (animation frame or fall progress).
    pub sub_state: i32,
    /// Per-state tick counter.
    pub state_count: i32,
    /// Horizontal direction: -1 left, 0 neutral, +1 right.
    pub x_speed: i32,
    /// Vertical speed in pixels per tick (positive is falling).
    pub y_speed: i32,
    /// Last horizontal facing.
    pub info1: i32,
    /// Touch cooldown counter.
    pub zaphold: i32,
    /// Death classification while dying.
    pub death_kind: Option<DeathKind>,
    /// A kill arrived and the die state starts on the next tick.
    pub die_pending: bool,
    /// Ticks before the player may throw again.
    pub fire_cooldown: i32,
    /// The JN record this player was built from.
    pub origin: JnObject,
}

/// Copy of `p` with the position set.
pub open spec fn with_pos(p: PlayerEntity, x: int, y: int) -> PlayerEntity {
    PlayerEntity { x: x as i32, y: y as i32, ..p }
}

/// The JN record a death kind is stored as (the die sub-state).
pub open spec fn death_sub_state(k: Option<DeathKind>) -> i32 {
    match k {
        Some(DeathKind::Water) => 1,
        Some(DeathKind::OtherBackground) => 2,
        _ => 0,
    }
}

/// The spawn request of a knife thrown by `p`.
pub open spec fn knife_spawn(p: PlayerEntity) -> SpawnRequest {
    let dir: int = if p.info1 < 0 { -1 } else { 1 };
    SpawnRequest {
        object_type: BULLET_OBJECT_TYPE,
        x: (if dir > 0 { p.x + p.w } else { p.x - KNIFE_W }) as i32,
        y: (p.y + KNIFE_SPAWN_Y_OFFSET) as i32,
        xd: (dir * BULLET_SPEED_PX) as i32,
        yd: 0,
    }
}

/// The two messages of a knife throw: spawn the knife, take it out of the
/// inventory.
pub open spec fn throw_messages(p: PlayerEntity) -> Seq<Message> {
    seq![
        Message {
            msg_type: MessageType::CreateObject,
            payload: MessagePayload::SpawnAt(knife_spawn(p)),
        },
        Message {
            msg_type: MessageType::InventoryItem,
            payload: MessagePayload::InventoryItem { add: false, item: InventoryObject::Knife },
        },
    ]
}

/// One message of the die burst.
pub open spec fn burst_message() -> Message {
    Message { msg_type: MessageType::CreateObject, payload: MessagePayload::Empty }
}

/// The level-restart request.
pub open spec fn restart_message() -> Message {
    Message { msg_type: MessageType::DieRestartLevel, payload: MessagePayload::Empty }
}

/// The die burst: [`NB_COLORED_BULLET`] payload-less spawn requests.
pub open spec fn die_burst() -> Seq<Message> {
    Seq::new(NB_COLORED_BULLET as nat, |i: int| burst_message())
}

impl PlayerEntity {
    /// Bounds that keep every tick free of overflow.
    pub open spec fn wf(&self) -> bool {
        &&& self.wf_state()
        &&& -POS_LIMIT <= self.x <= POS_LIMIT
        &&& -POS_LIMIT <= self.y <= POS_LIMIT
    }

    /// One tick moved the player by a bounded amount: vertically by at most
    /// one `i16` speed plus a block, horizontally by at most one step or
    /// toward the map.
    pub open spec fn step_bounded(&self, next: &PlayerEntity) -> bool {
        &&& self.y - 0x1_0000 <= next.y <= self.y + 0x1_0000
        &&& (if self.x - 8 < 0 { self.x - 8 } else { 0 }) <= next.x
        &&& next.x <= (if self.x + 8 > 0x1_0000 { self.x + 8 } else { 0x1_0000 })
    }

    /// The bounds of [`Self::wf`] other than the position's.
    pub open spec fn wf_state(&self) -> bool {
        &&& BLOCK_SIZE <= self.w <= 0xFFFF
        &&& BLOCK_SIZE <= self.h <= 0xFFFF
        &&& i16::MIN <= self.x_speed <= i16::MAX
        &&& i16::MIN <= self.y_speed <= i16::MAX
        &&& i16::MIN <= self.info1 <= i16::MAX
        &&& 0 <= self.sub_state
        &&& (self.state == PlayerStateKind::Climbing ==> self.sub_state < i32::MAX)
        &&& 0 <= self.state_count
        &&& 0 <= self.zaphold <= 0xFFFF
        &&& 0 <= self.fire_cooldown <= FIRE_COOLDOWN_TICKS
    }

    pub open spec fn spec_held(input: &ActiveInput, c: InputCommand) -> bool {
        input.held().contains(c)
    }

    /// Firing is allowed while standing, idle or jumping.
    pub open spec fn spec_can_fire(&self) -> bool {
        self.state == PlayerStateKind::Stand || self.state == PlayerStateKind::Still || self.state
            == PlayerStateKind::Jumping
    }

    // ---------------------------------------------------------------- entries

    pub open spec fn entered_jump_from_ground(self) -> PlayerEntity {
        PlayerEntity {
            state: PlayerStateKind::Jumping,
            sub_state: 0,
            state_count: 0,
            y_speed: (-JUMP_INIT_SIZE) as i32,
            ..self
        }
    }

    pub open spec fn entered_jump_from_climb(self) -> PlayerEntity {
        PlayerEntity {
            state: PlayerStateKind::Jumping,
            sub_state: 0,
            state_count: 0,
            y_speed: (-JUMP_INIT_SIZE_FOR_CLIMB) as i32,
            ..self
        }
    }

    pub open spec fn entered_climb_from_stand(self) -> PlayerEntity {
        PlayerEntity {
            state: PlayerStateKind::Climbing,
            sub_state: CLIMB_SUBSTATE_ENTER,
            state_count: 0,
            x_speed: 0,
            y_speed: 0,
            y: (self.y - 4) as i32,
            ..self
        }
    }

    pub open spec fn entered_climb_from_jump(self) -> PlayerEntity {
        PlayerEntity {
            state: PlayerStateKind::Climbing,
            sub_state: CLIMB_SUBSTATE_ENTER,
            state_count: 0,
            y_speed: 0,
            ..self
        }
    }

    pub open spec fn entered_die(self) -> PlayerEntity {
        PlayerEntity {
            state: PlayerStateKind::Die,
            sub_state: death_sub_state(self.death_kind),
            state_count: 0,
            y_speed: DIE_START_YD,
            x_speed: 0,
            ..self
        }
    }

    pub open spec fn count_tick(self) -> PlayerEntity {
        PlayerEntity { state_count: sat_inc(self.state_count), ..self }
    }

    // ---------------------------------------------------------------- stand

    /// Direction requested by the arrow keys: left wins over right.
    pub open spec fn input_direction(input: &ActiveInput) -> int {
        if Self::spec_held(input, InputCommand::MoveLeft) {
            -1
        } else if Self::spec_held(input, InputCommand::MoveRight) {
            1
        } else {
            0
        }
    }

    /// Running on the ground: the first press turns the player, the next tick
    /// starts the run, later ticks advance the run frame and step 8 pixels.
    pub open spec fn run_next(self, input: &ActiveInput, g: &BackgroundGrid) -> PlayerEntity {
        let dir = Self::input_direction(input);
        if dir == 0 {
            PlayerEntity { x_speed: 0, ..self }
        } else if self.info1 != dir {
            PlayerEntity { info1: dir as i32, x_speed: 0, state_count: 0, ..self }
        } else if self.x_speed == dir {
            let sub = if self.sub_state >= RUN_LAST_FRAME { 0 } else { self.sub_state + 1 };
            let nx = spec_move_horizontal(g, self.x as int, self.y as int, self.w as int, self.h as int, dir * PLAYER_MOVE_SIZE).0;
            PlayerEntity { sub_state: sub as i32, x: nx as i32, state_count: 0, ..self }
        } else {
            PlayerEntity { x_speed: dir as i32, sub_state: 0, state_count: 0, ..self }
        }
    }

    /// `Stand`/`Still` tick: jump, grab a vine, fall when there is no floor,
    /// otherwise run.
    #[verifier::opaque]
    pub open spec fn stand_next(self, input: &ActiveInput, g: &BackgroundGrid) -> PlayerEntity {
        let floor = spec_has_floor_below(g, self.x as int, self.y as int, self.w as int, self.h as int);
        let climbable = spec_is_on_climbable(g, self.x as int, self.y as int, self.w as int, self.h as int);
        let up = Self::spec_held(input, InputCommand::Up);
        if floor {
            if Self::spec_held(input, InputCommand::Jump) {
                self.entered_jump_from_ground().count_tick()
            } else if up && climbable {
                self.entered_climb_from_stand().count_tick()
            } else {
                PlayerEntity { y_speed: 0, ..self }.run_next(input, g).count_tick()
            }
        } else {
            let falling = PlayerEntity { state: PlayerStateKind::Jumping, sub_state: 0, y_speed: 0, ..self };
            if climbable && up {
                falling.entered_climb_from_jump().count_tick()
            } else {
                falling.count_tick()
            }
        }
    }

    // ---------------------------------------------------------------- jumping

    /// Vertical phase of a jump tick: `(player, moved, landed)`.
    pub open spec fn jump_vertical(self, g: &BackgroundGrid) -> (PlayerEntity, bool, bool) {
        if self.y_speed > 0 {
            let (ny, ok) = spec_move_vertical(g, self.x as int, self.y as int, self.w as int, self.h as int, self.y_speed);
            (PlayerEntity { y: ny as i32, ..self }, ok, !ok)
        } else if self.y_speed < 0 && self.sub_state >= SUBSTATE_VALUE_TO_FALL {
            let (ny, ok) = spec_move_vertical(g, self.x as int, self.y as int, self.w as int, self.h as int, (self.y_speed + JUMP_INCREMENT_VALUE) as i32);
            if ok {
                (PlayerEntity { y: ny as i32, ..self }, true, false)
            } else {
                (PlayerEntity { y: ny as i32, y_speed: 0, ..self }, false, false)
            }
        } else {
            (self, false, false)
        }
    }

    /// Steering phase of a jump tick (only past the rising frames).
    pub open spec fn jump_steer(self, input: &ActiveInput, g: &BackgroundGrid) -> PlayerEntity {
        if self.state == PlayerStateKind::Jumping && self.sub_state > SUBSTATE_VALUE_TO_FALL {
            if Self::spec_held(input, InputCommand::MoveLeft) {
                let nx = spec_move_horizontal(g, self.x as int, self.y as int, self.w as int, self.h as int, -PLAYER_MOVE_SIZE).0;
                PlayerEntity { x: nx as i32, x_speed: -1i32, info1: -1i32, ..self }
            } else if Self::spec_held(input, InputCommand::MoveRight) {
                let nx = spec_move_horizontal(g, self.x as int, self.y as int, self.w as int, self.h as int, PLAYER_MOVE_SIZE as int).0;
                PlayerEntity { x: nx as i32, x_speed: 1, info1: 1, ..self }
            } else {
                PlayerEntity { x_speed: 0, ..self }
            }
        } else {
            self
        }
    }

    /// `Jumping` tick: move vertically (landing on a floor), steer, grab a
    /// vine after a move, apply gravity, advance the counters.
    #[verifier::opaque]
    pub open spec fn jumping_next(self, input: &ActiveInput, g: &BackgroundGrid) -> PlayerEntity {
        let (p1, moved, land) = self.jump_vertical(g);
        let p2 = if land {
            PlayerEntity { state: PlayerStateKind::Stand, sub_state: 0, state_count: 0, y_speed: 0, x_speed: 0, ..p1 }
        } else {
            p1
        };
        let p3 = p2.jump_steer(input, g);
        let p4 = if moved && p3.state == PlayerStateKind::Jumping && spec_is_on_climbable(g, p3.x as int, p3.y as int, p3.w as int, p3.h as int) && Self::spec_held(input, InputCommand::Up) {
            p3.entered_climb_from_jump()
        } else {
            p3
        };
        let p5 = if p4.state == PlayerStateKind::Jumping && p4.sub_state >= SUBSTATE_VALUE_TO_FALL && p4.y_speed < JUMP_FALLING_SPEED_LIMIT {
            let v = p4.y_speed + JUMP_INCREMENT_VALUE;
            PlayerEntity { y_speed: (if v > JUMP_FALLING_SPEED_LIMIT { JUMP_FALLING_SPEED_LIMIT as int } else { v }) as i32, ..p4 }
        } else {
            p4
        };
        if p5.state == PlayerStateKind::Jumping {
            PlayerEntity { sub_state: sat_inc(p5.sub_state), state_count: sat_inc(p5.state_count), ..p5 }
        } else {
            p5
        }
    }

    // ---------------------------------------------------------------- climbing

    /// `Climbing` tick: jump off, climb up or down, shuffle sideways, drop
    /// into a fall when no vine is left under the player.
    #[verifier::opaque]
    pub open spec fn climbing_next(self, input: &ActiveInput, g: &BackgroundGrid) -> PlayerEntity {
        if Self::spec_held(input, InputCommand::Jump) {
            self.entered_jump_from_climb()
        } else {
            let p1 = if Self::spec_held(input, InputCommand::Up) {
                let ns = if self.sub_state + 1 < 6 { self.sub_state + 1 } else { 1 };
                let ny = spec_move_vertical(g, self.x as int, self.y as int, self.w as int, self.h as int, climb_up_step(ns) as i32).0;
                PlayerEntity { sub_state: ns as i32, y: ny as i32, ..self }
            } else if Self::spec_held(input, InputCommand::Duck) {
                let ny = spec_move_vertical(g, self.x as int, self.y as int, self.w as int, self.h as int, PLAYER_MOVE_SIZE_CLIMB_DOWN).0;
                PlayerEntity { sub_state: CLIMB_SUBSTATE_DOWN, y: ny as i32, ..self }
            } else {
                self
            };
            let p2 = if Self::spec_held(input, InputCommand::MoveLeft) {
                PlayerEntity { x: spec_move_horizontal(g, p1.x as int, p1.y as int, p1.w as int, p1.h as int, -PLAYER_MOVE_SIZE).0 as i32, ..p1 }
            } else if Self::spec_held(input, InputCommand::MoveRight) {
                PlayerEntity { x: spec_move_horizontal(g, p1.x as int, p1.y as int, p1.w as int, p1.h as int, PLAYER_MOVE_SIZE as int).0 as i32, ..p1 }
            } else {
                p1
            };
            let p3 = if !spec_is_on_climbable(g, p2.x as int, p2.y as int, p2.w as int, p2.h as int) {
                PlayerEntity { state: PlayerStateKind::Jumping, sub_state: SUBSTATE_VALUE_TO_FALL, y_speed: 0, ..p2 }
            } else {
                p2
            };
            p3.count_tick()
        }
    }

    // ---------------------------------------------------------------- begin, die

    /// `Begin` tick: after [`BEGIN_TICKS`] ticks the player stands.
    pub open spec fn begin_next(self) -> PlayerEntity {
        let c = sat_inc(self.state_count);
        if c >= BEGIN_TICKS {
            PlayerEntity { state: PlayerStateKind::Stand, sub_state: 0, state_count: 0, ..self }
        } else {
            PlayerEntity { state_count: c, ..self }
        }
    }

    /// Messages of a `Die` tick: the restart request exactly when the die
    /// counter equals [`STATECOUNT_MAX_TO_RESTART_GAME`].
    pub open spec fn die_messages(self) -> Seq<Message> {
        if self.state_count == STATECOUNT_MAX_TO_RESTART_GAME {
            seq![restart_message()]
        } else {
            Seq::empty()
        }
    }

    // ---------------------------------------------------------------- whole tick

    /// The cooldown counters after their per-tick decrement.
    pub open spec fn after_timers(self) -> PlayerEntity {
        PlayerEntity {
            zaphold: if self.zaphold > 0 { (self.zaphold - 1) as i32 } else { self.zaphold },
            fire_cooldown: if self.fire_cooldown > 0 { (self.fire_cooldown - 1) as i32 } else { self.fire_cooldown },
            ..self
        }
    }

    /// A knife is thrown this tick.
    pub open spec fn throws(self, input: &ActiveInput, has_knife: bool) -> bool {
        &&& Self::spec_held(input, InputCommand::ThrowItem)
        &&& self.spec_can_fire()
        &&& self.fire_cooldown == 0
        &&& has_knife
    }

    /// Player after the timers and the throw.
    pub open spec fn after_throw(self, input: &ActiveInput, has_knife: bool) -> PlayerEntity {
        let p = self.after_timers();
        if p.throws(input, has_knife) {
            PlayerEntity { fire_cooldown: FIRE_COOLDOWN_TICKS, ..p }
        } else {
            p
        }
    }

    /// Player after the timers, the throw and the kill promotion.
    pub open spec fn after_promotion(self, input: &ActiveInput, has_knife: bool) -> PlayerEntity {
        let p = self.after_throw(input, has_knife);
        if p.die_pending {
            PlayerEntity { die_pending: false, ..p }.entered_die()
        } else {
            p
        }
    }

    /// The player after a whole tick.
    pub open spec fn spec_next(self, input: &ActiveInput, has_knife: bool, g: &BackgroundGrid) -> PlayerEntity {
        let p = self.after_promotion(input, has_knife);
        match p.state {
            PlayerStateKind::Stand | PlayerStateKind::Still => p.stand_next(input, g),
            PlayerStateKind::Jumping => p.jumping_next(input, g),
            PlayerStateKind::Climbing => p.climbing_next(input, g),
            PlayerStateKind::Begin => p.begin_next(),
            PlayerStateKind::Die => p.count_tick(),
        }
    }

    /// The messages of a whole tick: the throw, the die burst, the restart
    /// request, in that order.
    pub open spec fn spec_messages(self, input: &ActiveInput, has_knife: bool) -> Seq<Message> {
        let p = self.after_timers();
        let throw = if p.throws(input, has_knife) { throw_messages(p) } else { Seq::empty() };
        let q = self.after_throw(input, has_knife);
        let burst = if q.die_pending { die_burst() } else { Seq::empty() };
        let r = self.after_promotion(input, has_knife);
        let die = if r.state == PlayerStateKind::Die { r.die_messages() } else { Seq::empty() };
        throw + burst + die
    }
}

} // verus!

verus! {

impl PlayerEntity {
    /// Builds a player from its JN record: the box is at least one block in
    /// each direction, the state decodes from the record's `state` code and,
    /// while dying, the death kind from the record's sub-state.
    /// The player a record describes (see [`Self::new`]).
    pub open spec fn spec_new(item: JnObject) -> PlayerEntity {
        let state = spec_state_from_code(item.state);
        PlayerEntity {
            x: item.x as i32,
            y: item.y as i32,
            w: if (item.width as i32) < BLOCK_SIZE { BLOCK_SIZE } else { item.width as i32 },
            h: if (item.height as i32) < BLOCK_SIZE { BLOCK_SIZE } else { item.height as i32 },
            state,
            sub_state: item.sub_state as i32,
            state_count: item.state_count as i32,
            x_speed: item.x_speed as i32,
            y_speed: item.y_speed as i32,
            info1: item.info1 as i32,
            zaphold: item.zap_hold as i32,
            death_kind: if state == PlayerStateKind::Die {
                Some(
                    if item.sub_state == 1 {
                        DeathKind::Water
                    } else if item.sub_state == 2 {
                        DeathKind::OtherBackground
                    } else {
                        DeathKind::Enemy
                    },
                )
            } else {
                None
            },
            die_pending: false,
            fire_cooldown: 0,
            origin: item,
        }
    }

    pub fn new(item: &JnObject) -> (r: PlayerEntity)
        ensures
            r == Self::spec_new(*item),
            r.wf(),
            r.x == item.x as i32,
            r.y == item.y as i32,
            r.w == (if (item.width as i32) < BLOCK_SIZE { BLOCK_SIZE } else { item.width as i32 }),
            r.h == (if (item.height as i32) < BLOCK_SIZE { BLOCK_SIZE } else { item.height as i32 }),
            r.state == spec_state_from_code(item.state),
            r.sub_state == item.sub_state as i32,
            r.state_count == item.state_count as i32,
            r.x_speed == item.x_speed as i32,
            r.y_speed == item.y_speed as i32,
            r.info1 == item.info1 as i32,
            r.zaphold == item.zap_hold as i32,
            r.death_kind == (if r.state == PlayerStateKind::Die {
                Some(
                    if item.sub_state == 1 {
                        DeathKind::Water
                    } else if item.sub_state == 2 {
                        DeathKind::OtherBackground
                    } else {
                        DeathKind::Enemy
                    },
                )
            } else {
                None
            }),
            !r.die_pending,
            r.fire_cooldown == 0,
            r.origin == *item,
    {
        let w = if (item.width as i32) < BLOCK_SIZE {
            BLOCK_SIZE
        } else {
            item.width as i32
        };
        let h = if (item.height as i32) < BLOCK_SIZE {
            BLOCK_SIZE
        } else {
            item.height as i32
        };
        let state = PlayerStateKind::from_state_code(item.state);
        let death_kind = if state == PlayerStateKind::Die {
            Some(
                if item.sub_state == 1 {
                    DeathKind::Water
                } else if item.sub_state == 2 {
                    DeathKind::OtherBackground
                } else {
                    DeathKind::Enemy
                },
            )
        } else {
            None
        };
        PlayerEntity {
            x: item.x as i32,
            y: item.y as i32,
            w,
            h,
            state,
            sub_state: item.sub_state as i32,
            state_count: item.state_count as i32,
            x_speed: item.x_speed as i32,
            y_speed: item.y_speed as i32,
            info1: item.info1 as i32,
            zaphold: item.zap_hold as i32,
            death_kind,
            die_pending: false,
            fire_cooldown: 0,
            origin: *item,
        }
    }

    /// Current top-level state.
    pub fn state(&self) -> (r: PlayerStateKind)
        ensures
            r == self.state,
    {
        self.state
    }

    /// Current sub-state.
    pub fn sub_state(&self) -> (r: i32)
        ensures
            r == self.sub_state,
    {
        self.sub_state
    }

    /// Vertical speed (positive is falling).
    pub fn y_speed(&self) -> (r: i32)
        ensures
            r == self.y_speed,
    {
        self.y_speed
    }

    /// Horizontal direction.
    pub fn x_speed(&self) -> (r: i32)
        ensures
            r == self.x_speed,
    {
        self.x_speed
    }

    /// World position of the bounding box's corner.
    pub fn position(&self) -> (r: (i32, i32))
        ensures
            r == (self.x, self.y),
    {
        (self.x, self.y)
    }

    /// Sets the state and resets the sub-state and counter.
    pub fn set_state(&mut self, state: PlayerStateKind)
        ensures
            *final(self) == (PlayerEntity { state, sub_state: 0, state_count: 0, ..*old(self) }),
    {
        self.state = state;
        self.sub_state = 0;
        self.state_count = 0;
    }

    /// Overwrites the vertical speed.
    pub fn set_y_speed(&mut self, value: i32)
        ensures
            *final(self) == (PlayerEntity { y_speed: value, ..*old(self) }),
    {
        self.y_speed = value;
    }

    /// Firing is allowed while standing, idle or jumping (not while
    /// climbing, beginning or dying).
    pub fn can_fire(&self) -> (r: bool)
        ensures
            r == self.spec_can_fire(),
    {
        self.state == PlayerStateKind::Stand || self.state == PlayerStateKind::Still || self.state
            == PlayerStateKind::Jumping
    }

    /// Moves the player by a platform's delta, without collision checks.
    pub fn apply_platform_move(&mut self, dx: i32, dy: i32)
        requires
            i32::MIN <= old(self).x + dx <= i32::MAX,
            i32::MIN <= old(self).y + dy <= i32::MAX,
        ensures
            *final(self) == (PlayerEntity {
                x: (old(self).x + dx) as i32,
                y: (old(self).y + dy) as i32,
                ..*old(self)
            }),
    {
        self.x = self.x + dx;
        self.y = self.y + dy;
    }

    /// Arms the post-touch cooldown.
    pub fn arm_zaphold(&mut self)
        ensures
            *final(self) == (PlayerEntity { zaphold: ZAPHOLD_AFTER_TOUCH, ..*old(self) }),
    {
        self.zaphold = ZAPHOLD_AFTER_TOUCH;
    }

    /// Current touch cooldown.
    pub fn zaphold(&self) -> (r: i32)
        ensures
            r == self.zaphold,
    {
        self.zaphold
    }

    /// Recorded death classification.
    pub fn death_kind(&self) -> (r: Option<DeathKind>)
        ensures
            r == self.death_kind,
    {
        self.death_kind
    }

    /// Bounding box.
    pub fn bounding_box(&self) -> (r: Rect)
        ensures
            r == (Rect { x: self.x, y: self.y, w: self.w, h: self.h }),
    {
        Rect::new(self.x, self.y, self.w, self.h)
    }

    /// The player keeps ticking outside the viewport.
    pub fn always_active(&self) -> (r: bool)
        ensures
            r,
    {
        true
    }

    /// This entity is the controllable player.
    pub fn is_player(&self) -> (r: bool)
        ensures
            r,
    {
        true
    }

    /// Touching a background cell deals the player the death the cell arms,
    /// if any (lava, water, spikes, thorns); other cells do nothing.
    pub fn touch_background(&mut self, cell: &BackgroundCell)
        ensures
            *final(self) == (match cell.spec_touch_kill() {
                Some(k) => if old(self).state == PlayerStateKind::Die {
                    *old(self)
                } else {
                    PlayerEntity { death_kind: Some(k), die_pending: true, ..*old(self) }
                },
                None => *old(self),
            }),
    {
        match cell.on_player_touch() {
            Some(k) => self.on_kill(1, k),
            None => {},
        }
    }

    /// A kill: unless already dying, records the death kind and arms the die
    /// state for the next tick.
    pub fn on_kill(&mut self, damage: i32, death_kind: DeathKind)
        ensures
            *final(self) == (if old(self).state == PlayerStateKind::Die {
                *old(self)
            } else {
                PlayerEntity { death_kind: Some(death_kind), die_pending: true, ..*old(self) }
            }),
    {
        if self.state == PlayerStateKind::Die {
            return;
        }
        self.death_kind = Some(death_kind);
        self.die_pending = true;
    }

    fn enter_jump_from_ground(&mut self)
        ensures
            *final(self) == old(self).entered_jump_from_ground(),
    {
        self.state = PlayerStateKind::Jumping;
        self.sub_state = 0;
        self.state_count = 0;
        self.y_speed = -JUMP_INIT_SIZE;
    }

    fn enter_jump_from_climb(&mut self)
        ensures
            *final(self) == old(self).entered_jump_from_climb(),
    {
        self.state = PlayerStateKind::Jumping;
        self.sub_state = 0;
        self.state_count = 0;
        self.y_speed = -JUMP_INIT_SIZE_FOR_CLIMB;
    }

    fn enter_climb_from_stand(&mut self)
        requires
            old(self).y >= i32::MIN + 4,
        ensures
            *final(self) == old(self).entered_climb_from_stand(),
    {
        self.state = PlayerStateKind::Climbing;
        self.sub_state = CLIMB_SUBSTATE_ENTER;
        self.state_count = 0;
        self.x_speed = 0;
        self.y_speed = 0;
        self.y = self.y + climb_up_step_exec(3);
    }

    fn enter_climb_from_jump(&mut self)
        ensures
            *final(self) == old(self).entered_climb_from_jump(),
    {
        self.state = PlayerStateKind::Climbing;
        self.sub_state = CLIMB_SUBSTATE_ENTER;
        self.state_count = 0;
        self.y_speed = 0;
        self.y = self.y + climb_up_step_exec(0);
    }

    fn enter_die_state(&mut self, messages: &mut Vec<Message>)
        ensures
            *final(self) == old(self).entered_die(),
            final(messages)@ == old(messages)@ + die_burst(),
    {
        self.state = PlayerStateKind::Die;
        self.sub_state = match self.death_kind {
            Some(DeathKind::Water) => 1,
            Some(DeathKind::OtherBackground) => 2,
            _ => 0,
        };
        self.state_count = 0;
        self.y_speed = DIE_START_YD;
        self.x_speed = 0;
        let ghost before = messages@;
        let mut i: i32 = 0;
        while i < NB_COLORED_BULLET
            invariant
                0 <= i <= NB_COLORED_BULLET,
                messages@ == before + Seq::new(i as nat, |k: int| burst_message()),
            decreases NB_COLORED_BULLET - i,
        {
            messages.push(Message { msg_type: MessageType::CreateObject, payload: MessagePayload::Empty });
            assert(Seq::new(i as nat, |k: int| burst_message()).push(burst_message()) =~= Seq::new((i + 1) as nat, |k: int| burst_message()));
            i = i + 1;
        }
        assert(Seq::new(NB_COLORED_BULLET as nat, |k: int| burst_message()) =~= die_burst());
    }

    fn run_horizontal_stand(&mut self, input: &ActiveInput, g: &BackgroundGrid)
        requires
            old(self).wf(),
        ensures
            *final(self) == old(self).run_next(input, g),
            final(self).wf_state(),
            old(self).step_bounded(&*final(self)),
    {
        let direction: i32 = if input.contains(&InputCommand::MoveLeft) {
            -1
        } else if input.contains(&InputCommand::MoveRight) {
            1
        } else {
            0
        };
        if direction == 0 {
            self.x_speed = 0;
            return;
        }
        if self.info1 != direction {
            self.info1 = direction;
            self.x_speed = 0;
            self.state_count = 0;
            return;
        }
        if self.x_speed == direction {
            self.sub_state = if self.sub_state >= RUN_LAST_FRAME {
                0
            } else {
                self.sub_state + 1
            };
            let dx = direction * PLAYER_MOVE_SIZE;
            let mut nx = self.x;
            try_move_vertical_horizontal(g, &mut nx, self.y, self.w, self.h, dx);
            self.x = nx;
        } else {
            self.x_speed = direction;
            self.sub_state = 0;
        }
        self.state_count = 0;
    }

    fn tick_stand(&mut self, input: &ActiveInput, g: &BackgroundGrid)
        requires
            old(self).wf(),
            old(self).state == PlayerStateKind::Stand || old(self).state == PlayerStateKind::Still,
        ensures
            *final(self) == old(self).stand_next(input, g),
            final(self).wf_state(),
            old(self).step_bounded(&*final(self)),
    {
        reveal(PlayerEntity::stand_next);
        let floor = has_floor_below(g, self.x, self.y, self.w, self.h);
        if floor {
            if input.contains(&InputCommand::Jump) {
                self.enter_jump_from_ground();
            } else if input.contains(&InputCommand::Up) && is_on_climbable(g, self.x, self.y, self.w, self.h) {
                self.enter_climb_from_stand();
                self.state_count = sat_inc_exec(self.state_count);
                return;
            } else {
                self.y_speed = 0;
            }
        } else {
            let climbable = is_on_climbable(g, self.x, self.y, self.w, self.h);
            self.state = PlayerStateKind::Jumping;
            self.sub_state = 0;
            self.y_speed = 0;
            if climbable && input.contains(&InputCommand::Up) {
                self.enter_climb_from_jump();
                self.state_count = sat_inc_exec(self.state_count);
                return;
            }
        }
        if self.state == PlayerStateKind::Stand || self.state == PlayerStateKind::Still {
            self.run_horizontal_stand(input, g);
        }
        self.state_count = sat_inc_exec(self.state_count);
    }
}


impl PlayerEntity {
    fn tick_jumping(&mut self, input: &ActiveInput, g: &BackgroundGrid)
        requires
            old(self).wf(),
            old(self).state == PlayerStateKind::Jumping,
        ensures
            *final(self) == old(self).jumping_next(input, g),
            final(self).wf_state(),
            old(self).step_bounded(&*final(self)),
    {
        reveal(PlayerEntity::jumping_next);
        let ghost start = *self;
        let mut moved = false;
        let mut land = false;
        if self.y_speed > 0 {
            let mut ny = self.y;
            if try_move_vertical(g, self.x, &mut ny, self.w, self.h, self.y_speed) {
                moved = true;
            } else {
                land = true;
            }
            self.y = ny;
        } else if self.y_speed < 0 && self.sub_state >= SUBSTATE_VALUE_TO_FALL {
            let dy = self.y_speed + JUMP_INCREMENT_VALUE;
            let mut ny = self.y;
            if try_move_vertical(g, self.x, &mut ny, self.w, self.h, dy) {
                moved = true;
                self.y = ny;
            } else {
                self.y = ny;
                self.y_speed = 0;
            }
        }
        assert((*self, moved, land) == start.jump_vertical(g));
        if land {
            self.state = PlayerStateKind::Stand;
            self.sub_state = 0;
            self.state_count = 0;
            self.y_speed = 0;
            self.x_speed = 0;
        }
        if self.state == PlayerStateKind::Jumping && self.sub_state > SUBSTATE_VALUE_TO_FALL {
            if input.contains(&InputCommand::MoveLeft) {
                let mut nx = self.x;
                try_move_vertical_horizontal(g, &mut nx, self.y, self.w, self.h, -PLAYER_MOVE_SIZE);
                self.x = nx;
                self.x_speed = -1;
                self.info1 = -1;
            } else if input.contains(&InputCommand::MoveRight) {
                let mut nx = self.x;
                try_move_vertical_horizontal(g, &mut nx, self.y, self.w, self.h, PLAYER_MOVE_SIZE);
                self.x = nx;
                self.x_speed = 1;
                self.info1 = 1;
            } else {
                self.x_speed = 0;
            }
        }
        if moved && self.state == PlayerStateKind::Jumping && is_on_climbable(g, self.x, self.y, self.w, self.h)
            && input.contains(&InputCommand::Up) {
            self.enter_climb_from_jump();
        }
        if self.state == PlayerStateKind::Jumping && self.sub_state >= SUBSTATE_VALUE_TO_FALL
            && self.y_speed < JUMP_FALLING_SPEED_LIMIT {
            self.y_speed = self.y_speed + JUMP_INCREMENT_VALUE;
            if self.y_speed > JUMP_FALLING_SPEED_LIMIT {
                self.y_speed = JUMP_FALLING_SPEED_LIMIT;
            }
        }
        if self.state == PlayerStateKind::Jumping {
            self.sub_state = sat_inc_exec(self.sub_state);
            self.state_count = sat_inc_exec(self.state_count);
        }
    }

    fn tick_climbing(&mut self, input: &ActiveInput, g: &BackgroundGrid)
        requires
            old(self).wf(),
            old(self).state == PlayerStateKind::Climbing,
        ensures
            *final(self) == old(self).climbing_next(input, g),
            final(self).wf_state(),
            old(self).step_bounded(&*final(self)),
    {
        reveal(PlayerEntity::climbing_next);
        if input.contains(&InputCommand::Jump) {
            self.enter_jump_from_climb();
            return;
        }
        if input.contains(&InputCommand::Up) {
            let next_sub = if self.sub_state + 1 < 6 {
                self.sub_state + 1
            } else {
                1
            };
            self.sub_state = next_sub;
            let dy = climb_up_step_exec(next_sub);
            let mut ny = self.y;
            try_move_vertical(g, self.x, &mut ny, self.w, self.h, dy);
            self.y = ny;
        } else if input.contains(&InputCommand::Duck) {
            self.sub_state = CLIMB_SUBSTATE_DOWN;
            let mut ny = self.y;
            try_move_vertical(g, self.x, &mut ny, self.w, self.h, PLAYER_MOVE_SIZE_CLIMB_DOWN);
            self.y = ny;
        }
        if input.contains(&InputCommand::MoveLeft) {
            let mut nx = self.x;
            try_move_vertical_horizontal(g, &mut nx, self.y, self.w, self.h, -PLAYER_MOVE_SIZE);
            self.x = nx;
        } else if input.contains(&InputCommand::MoveRight) {
            let mut nx = self.x;
            try_move_vertical_horizontal(g, &mut nx, self.y, self.w, self.h, PLAYER_MOVE_SIZE);
            self.x = nx;
        }
        if !is_on_climbable(g, self.x, self.y, self.w, self.h) {
            self.state = PlayerStateKind::Jumping;
            self.sub_state = SUBSTATE_VALUE_TO_FALL;
            self.y_speed = 0;
        }
        self.state_count = sat_inc_exec(self.state_count);
    }

    fn tick_begin(&mut self)
        ensures
            *final(self) == old(self).begin_next(),
    {
        self.state_count = sat_inc_exec(self.state_count);
        if self.state_count >= BEGIN_TICKS {
            self.state = PlayerStateKind::Stand;
            self.sub_state = 0;
            self.state_count = 0;
        }
    }

    fn tick_die(&mut self, messages: &mut Vec<Message>)
        ensures
            *final(self) == old(self).count_tick(),
            final(messages)@ == old(messages)@ + old(self).die_messages(),
    {
        if self.state_count == STATECOUNT_MAX_TO_RESTART_GAME {
            messages.push(Message { msg_type: MessageType::DieRestartLevel, payload: MessagePayload::Empty });
        } else {
            assert(messages@ + Seq::<Message>::empty() =~= messages@);
        }
        self.state_count = sat_inc_exec(self.state_count);
    }

    /// Advances the player by one tick and returns the messages it emits.
    ///
    /// In order: the touch and fire cooldowns count down; a knife is thrown
    /// (spawn request plus inventory removal, cooldown re-armed) when the
    /// throw key is held, the state allows firing, the cooldown is clear and
    /// the inventory holds a knife; a pending kill becomes the `Die` state
    /// together with the die burst; then the current state's handler runs.
    pub fn update(&mut self, input: &ActiveInput, state: &RuntimeState, g: &BackgroundGrid) -> (messages: Vec<Message>)
        requires
            old(self).wf(),
        ensures
            *final(self) == old(self).spec_next(input, state.spec_has(InventoryObject::Knife), g),
            final(self).wf_state(),
            old(self).step_bounded(&*final(self)),
            messages@ == old(self).spec_messages(input, state.spec_has(InventoryObject::Knife)),
    {
        let mut messages: Vec<Message> = Vec::new();
        if self.zaphold > 0 {
            self.zaphold = self.zaphold - 1;
        }
        if self.fire_cooldown > 0 {
            self.fire_cooldown = self.fire_cooldown - 1;
        }
        let has_knife = state.has(InventoryObject::Knife);
        let ghost start = *old(self);
        assert(*self == start.after_timers());
        if input.contains(&InputCommand::ThrowItem) && self.can_fire() && self.fire_cooldown == 0 && has_knife {
            let dir: i32 = if self.info1 < 0 {
                -1
            } else {
                1
            };
            let bullet_x = if dir > 0 {
                self.x + self.w
            } else {
                self.x - KNIFE_W
            };
            messages.push(Message {
                msg_type: MessageType::CreateObject,
                payload: MessagePayload::SpawnAt(SpawnRequest {
                    object_type: BULLET_OBJECT_TYPE,
                    x: bullet_x,
                    y: self.y + KNIFE_SPAWN_Y_OFFSET,
                    xd: dir * BULLET_SPEED_PX,
                    yd: 0,
                }),
            });
            messages.push(Message {
                msg_type: MessageType::InventoryItem,
                payload: MessagePayload::InventoryItem { add: false, item: InventoryObject::Knife },
            });
            self.fire_cooldown = FIRE_COOLDOWN_TICKS;
        }
        assert(*self == start.after_throw(input, has_knife));
        if self.die_pending {
            self.die_pending = false;
            self.enter_die_state(&mut messages);
        }
        assert(*self == start.after_promotion(input, has_knife));
        if self.state == PlayerStateKind::Stand || self.state == PlayerStateKind::Still {
            self.tick_stand(input, g);
        } else if self.state == PlayerStateKind::Jumping {
            self.tick_jumping(input, g);
        } else if self.state == PlayerStateKind::Climbing {
            self.tick_climbing(input, g);
        } else if self.state == PlayerStateKind::Begin {
            self.tick_begin();
        } else {
            self.tick_die(&mut messages);
        }
        messages
    }
}


/// Frame index within the run cycle: the sub-state modulo 8.
pub open spec fn run_frame(sub_state: int) -> int {
    sub_state % 8
}

impl PlayerEntity {
    /// Stand, idle and begin frame: facing frame when not running, else the
    /// run-cycle frame for the running direction.
    pub open spec fn spec_tile_for_stand(self) -> u16 {
        if self.x_speed == 0 {
            if self.info1 < 0 {
                TILE_STAND_LEFT
            } else if self.info1 > 0 {
                TILE_STAND_RIGHT
            } else {
                TILE_STAND_MIDDLE
            }
        } else if self.x_speed < 0 {
            (TILE_RUN_LEFT_BASE + run_frame(self.sub_state as int)) as u16
        } else {
            (TILE_RUN_RIGHT_BASE + run_frame(self.sub_state as int)) as u16
        }
    }

    /// Jump frame: the fall silhouette once falling past the rising frames,
    /// else the rising frame (sub-state clamped to 0..=2) for the facing
    /// (horizontal speed, or last facing when not steering).
    pub open spec fn spec_tile_for_jumping(self) -> u16 {
        if self.sub_state >= SUBSTATE_VALUE_TO_FALL && self.y_speed > 0 {
            TILE_FALL
        } else {
            let frame: int = if self.sub_state < 0 { 0 } else if self.sub_state > 2 { 2 } else { self.sub_state as int };
            let facing = if self.x_speed != 0 { self.x_speed } else { self.info1 };
            if facing < 0 {
                (TILE_JUMP_LEFT_BASE + frame) as u16
            } else if facing > 0 {
                (TILE_JUMP_RIGHT_BASE + frame) as u16
            } else {
                (TILE_JUMP_MIDDLE_BASE + frame) as u16
            }
        }
    }

    /// The frame drawn for the current state.
    pub open spec fn spec_current_tile(self) -> u16 {
        match self.state {
            PlayerStateKind::Stand | PlayerStateKind::Still | PlayerStateKind::Begin => self.spec_tile_for_stand(),
            PlayerStateKind::Jumping => self.spec_tile_for_jumping(),
            PlayerStateKind::Climbing => climb_tile(if self.sub_state < 0 { 0 } else if self.sub_state > 5 { 5 } else { self.sub_state as int }),
            PlayerStateKind::Die => {
                let q = self.state_count as int / DIE_STATECOUNT_STEP as int;
                let idx = if q < 0 { 0 } else if q > DIE_FRAME_COUNT - 1 { DIE_FRAME_COUNT - 1 } else { q };
                (TILE_DIE_BASE + idx) as u16
            },
        }
    }

    fn tile_for_stand(&self) -> (r: u16)
        ensures
            r == self.spec_tile_for_stand(),
    {
        if self.x_speed == 0 {
            if self.info1 < 0 {
                TILE_STAND_LEFT
            } else if self.info1 > 0 {
                TILE_STAND_RIGHT
            } else {
                TILE_STAND_MIDDLE
            }
        } else {
            let frame = match self.sub_state.checked_rem_euclid(8) {
                Some(f) => f as u16,
                None => 0,
            };
            if self.x_speed < 0 {
                TILE_RUN_LEFT_BASE + frame
            } else {
                TILE_RUN_RIGHT_BASE + frame
            }
        }
    }

    fn tile_for_jumping(&self) -> (r: u16)
        ensures
            r == self.spec_tile_for_jumping(),
    {
        if self.sub_state >= SUBSTATE_VALUE_TO_FALL && self.y_speed > 0 {
            return TILE_FALL;
        }
        let frame: u16 = if self.sub_state < 0 {
            0
        } else if self.sub_state > 2 {
            2
        } else {
            self.sub_state as u16
        };
        let facing = if self.x_speed != 0 {
            self.x_speed
        } else {
            self.info1
        };
        if facing < 0 {
            TILE_JUMP_LEFT_BASE + frame
        } else if facing > 0 {
            TILE_JUMP_RIGHT_BASE + frame
        } else {
            TILE_JUMP_MIDDLE_BASE + frame
        }
    }

    /// The frame to draw for the current state and sub-state.
    pub fn current_tile(&self) -> (r: Option<u16>)
        ensures
            r == Some(self.spec_current_tile()),
    {
        if self.state == PlayerStateKind::Stand || self.state == PlayerStateKind::Still || self.state
            == PlayerStateKind::Begin {
            Some(self.tile_for_stand())
        } else if self.state == PlayerStateKind::Jumping {
            Some(self.tile_for_jumping())
        } else if self.state == PlayerStateKind::Climbing {
            let idx: i32 = if self.sub_state < 0 {
                0
            } else if self.sub_state > 5 {
                5
            } else {
                self.sub_state
            };
            let tiles: [u16; 6] = [24, 24, 25, 26, 26, 25];
            Some(tiles[idx as usize])
        } else {
            let q = match self.state_count.checked_div_euclid(DIE_STATECOUNT_STEP) {
                Some(q) => q,
                None => 0,
            };
            let idx: i32 = if q < 0 {
                0
            } else if q > DIE_FRAME_COUNT - 1 {
                DIE_FRAME_COUNT - 1
            } else {
                q
            };
            Some(TILE_DIE_BASE + idx as u16)
        }
    }

    /// Render command for this frame: the current frame of the player
    /// tileset at the player's position.
    pub fn draw(&self) -> (r: Option<RenderCommand>)
        ensures
            r == Some(RenderCommand::Blit {
                tileset: TILESET_INDEX,
                tile: self.spec_current_tile(),
                x: self.x,
                y: self.y,
                opaque: false,
                clip: None,
            }),
    {
        match self.current_tile() {
            Some(tile) => Some(RenderCommand::Blit { tileset: TILESET_INDEX, tile, x: self.x, y: self.y, opaque: false, clip: None }),
            None => None,
        }
    }

    /// The save record of this player: the origin record with every tracked
    /// field (position, speeds, state, sub-state, counter, facing, touch
    /// cooldown) written back; the fields the player does not track keep
    /// their authored values.
    pub open spec fn spec_snapshot(self) -> JnObject {
        JnObject {
            x: self.x as u16,
            y: self.y as u16,
            x_speed: self.x_speed as i16,
            y_speed: self.y_speed as i16,
            state: spec_state_code(self.state),
            sub_state: self.sub_state as u16,
            state_count: self.state_count as u16,
            info1: self.info1 as i16,
            zap_hold: self.zaphold as u16,
            ..self.origin
        }
    }

    /// Serializes the live player back into its origin record.
    pub fn snapshot(&self) -> (r: Option<JnObject>)
        ensures
            r == Some(self.spec_snapshot()),
    {
        let mut obj = self.origin;
        obj.set_position(self.x as u16, self.y as u16);
        obj.set_speed(self.x_speed as i16, self.y_speed as i16);
        obj.set_state(self.state.to_state_code());
        obj.set_sub_state(self.sub_state as u16);
        obj.set_state_count(self.state_count as u16);
        obj.set_info1(self.info1 as i16);
        obj.set_zap_hold(self.zaphold as u16);
        Some(obj)
    }
}

} // verus!
