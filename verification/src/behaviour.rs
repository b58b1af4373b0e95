//! What the player, the background cells, the thrown knife, the frog and the
//! key bindings are for, stated over all inputs and proved from the
//! functions' own specifications.

use vstd::prelude::*;

use crate::background::{spec_cell_for_name, spec_is_lava_name, spec_is_water_name, DmaEntry, StdBackgroundEntity};
use crate::bullet::{BulletEntity, BULLET_FOLLOW_MAX, BULLET_LAUNCH_END};
use crate::collision::{
    dist, lemma_rise_bounds, lemma_slide_x_bounds, max0, sign, spec_blocked_ahead, spec_fall_result, spec_floor_under_next,
    spec_has_floor_below,
};
use crate::crab::CrabEntity;
use crate::giant_ant::GiantAntEntity;
use crate::hazards::{rock_blocked_ahead, rock_floor_under_next, RollingRockEntity};
use crate::frog::FrogEntity;
use crate::grid::BackgroundGrid;
use crate::input::{commands_of, key_command, Key};
use crate::player::{PlayerEntity, PlayerStateKind, POS_LIMIT};
use crate::world::{ActiveInput, DeathKind, InputCommand};

verus! {

// ---------------------------------------------------------------------------
// Player
// ---------------------------------------------------------------------------

/// A climbing player holding Down (and neither Jump nor Up) climbs down by
/// four pixels in a tick when nothing below stops the move: climbing down
/// never takes the player up.
pub proof fn lemma_climbing_down_descends(p: PlayerEntity, input: &ActiveInput, has_knife: bool, g: &BackgroundGrid)
    requires
        p.state == PlayerStateKind::Climbing,
        !p.die_pending,
        -POS_LIMIT <= p.y <= POS_LIMIT,
        input.held().contains(InputCommand::Duck),
        !input.held().contains(InputCommand::Jump),
        !input.held().contains(InputCommand::Up),
        spec_fall_result(g, p.x as int, p.y as int, p.w as int, p.h as int, 4i32) is None,
    ensures
        p.spec_next(input, has_knife, g).y == p.y + 4,
        p.spec_next(input, has_knife, g).y > p.y,
{
    reveal(PlayerEntity::climbing_next);
}

/// A climbing player holding Up (and not Jump) climbs up by at most six
/// pixels in a tick and never down.
pub proof fn lemma_climbing_up_rises(p: PlayerEntity, input: &ActiveInput, has_knife: bool, g: &BackgroundGrid)
    requires
        p.state == PlayerStateKind::Climbing,
        !p.die_pending,
        -POS_LIMIT <= p.y <= POS_LIMIT,
        input.held().contains(InputCommand::Up),
        !input.held().contains(InputCommand::Jump),
    ensures
        p.spec_next(input, has_knife, g).y <= p.y,
        p.y - 6 <= p.spec_next(input, has_knife, g).y || p.spec_next(input, has_knife, g).y == 0,
{
    reveal(PlayerEntity::climbing_next);
    let ns = if p.sub_state + 1 < 6 { p.sub_state + 1 } else { 1 };
    let dy = crate::player::climb_up_step(ns) as i32;
    lemma_rise_bounds(g, p.x as int, p.y as int, max0(p.y + dy), p.w as int, p.h as int, dy);
}

/// A standing player with a floor under it who presses Jump starts a jump
/// upward.
pub proof fn lemma_jump_starts_upward(p: PlayerEntity, input: &ActiveInput, has_knife: bool, g: &BackgroundGrid)
    requires
        p.state == PlayerStateKind::Stand || p.state == PlayerStateKind::Still,
        !p.die_pending,
        spec_has_floor_below(g, p.x as int, p.y as int, p.w as int, p.h as int),
        input.held().contains(InputCommand::Jump),
    ensures
        p.spec_next(input, has_knife, g).state == PlayerStateKind::Jumping,
        p.spec_next(input, has_knife, g).y_speed < 0,
        p.spec_next(input, has_knife, g).y == p.y,
{
    reveal(PlayerEntity::stand_next);
}

// ---------------------------------------------------------------------------
// Background cells
// ---------------------------------------------------------------------------

/// What the cell built for each DMA name does, whatever its DMA entry:
/// spikes, thorns and lava kill the player with the background death, water
/// with the drowning one; every other name kills nobody. The vine base is
/// passable and climbable, the fake floor stops only rising bodies and the
/// fake roof only falling ones. Every cell draws the entry's tile.
pub proof fn lemma_named_cells_behave(name: Seq<char>, e: Option<DmaEntry>)
    ensures
        (name == "SPIKE"@ || is_thorn_name(name) || spec_is_lava_name(name)) ==> spec_cell_for_name(name, e).spec_touch_kill()
            == Some(DeathKind::OtherBackground),
        spec_is_water_name(name) ==> spec_cell_for_name(name, e).spec_touch_kill() == Some(DeathKind::Water),
        !(name == "SPIKE"@ || is_thorn_name(name) || spec_is_lava_name(name) || spec_is_water_name(name))
            ==> spec_cell_for_name(name, e).spec_touch_kill() is None,
        name == "BASETREE"@ ==> spec_cell_for_name(name, e).spec_passthrough() && spec_cell_for_name(name, e).spec_climbable(),
        name == "FFLOOR"@ ==> spec_cell_for_name(name, e).spec_blocks_vertical(-1) && !spec_cell_for_name(name, e).spec_blocks_vertical(1),
        name == "FROOF"@ ==> spec_cell_for_name(name, e).spec_blocks_vertical(1) && !spec_cell_for_name(name, e).spec_blocks_vertical(-1),
        spec_cell_for_name(name, e).spec_tile_cell() == StdBackgroundEntity::for_map_code_spec(e),
{
    reveal_strlit("SPIKE");
    reveal_strlit("BASETREE");
    reveal_strlit("FFLOOR");
    reveal_strlit("FROOF");
    reveal_strlit("STALACBR");
    reveal_strlit("STALAGBR");
    reveal_strlit("WTHORN");
    reveal_strlit("WTHORN2");
    if spec_is_water_name(name) {
        assert(name != "SPIKE"@ && name != "BASETREE"@ && name != "FFLOOR"@ && name != "FROOF"@);
        assert(!is_thorn_name(name)) by {
            if name == "WTHORN2"@ {
                assert(name[1] == 'T');
            }
        }
        assert(!spec_is_lava_name(name));
    }
    if spec_is_lava_name(name) {
        assert(name != "BASETREE"@) by { assert("BASETREE"@.len() == 8); }
        assert(name != "FFLOOR"@) by { assert("FFLOOR"@.len() == 6); }
        assert(name != "FROOF"@) by { assert("FROOF"@[0] == 'F'); }
        assert(name != "SPIKE"@) by { assert("SPIKE"@[0] == 'S'); }
    }
    if is_thorn_name(name) {
        assert(name.len() != 5);
        assert(name[0] == 'S' || name[0] == 'W');
        assert(name != "BASETREE"@) by { assert("BASETREE"@[0] == 'B'); }
        assert(name != "FFLOOR"@) by { assert("FFLOOR"@[0] == 'F'); }
        assert(name != "FROOF"@) by { assert("FROOF"@[0] == 'F'); }
    }
}

/// The thorn cells: stalactites, stalagmites and wall thorns.
pub open spec fn is_thorn_name(name: Seq<char>) -> bool {
    name == "STALACBR"@ || name == "STALAGBR"@ || name == "WTHORN"@ || name == "WTHORN2"@
}

// ---------------------------------------------------------------------------
// Thrown knife
// ---------------------------------------------------------------------------

/// A returning knife turns toward the player: each tick its horizontal speed
/// moves one step toward the player's side (up to 8 either way) and its
/// vertical speed likewise (up to 4 either way); level with the player, a
/// speed is kept.
pub proof fn lemma_returning_knife_homes(b: BulletEntity, g: &BackgroundGrid)
    requires
        !b.removed,
        BULLET_LAUNCH_END < b.state_count <= BULLET_FOLLOW_MAX,
        -8 <= b.xd <= 8,
        -4 <= b.yd <= 4,
    ensures
        ({
            let n = b.spec_step(g).0;
            let px = b.player_bbox.x;
            let py = b.player_bbox.y;
            &&& b.x < px && b.xd < 8 ==> n.xd == b.xd + 1
            &&& b.x < px && b.xd == 8 ==> n.xd == 8
            &&& b.x > px && b.xd > -8 ==> n.xd == b.xd - 1
            &&& b.x > px && b.xd == -8 ==> n.xd == -8
            &&& b.x == px ==> n.xd == b.xd
            &&& b.y < py && b.yd < 4 ==> n.yd == b.yd + 1
            &&& b.y > py && b.yd > -4 ==> n.yd == b.yd - 1
            &&& b.y == py ==> n.yd == b.yd
            &&& -8 <= n.xd <= 8 && -4 <= n.yd <= 4
        }),
{
}

// ---------------------------------------------------------------------------
// Frog
// ---------------------------------------------------------------------------

/// A live frog on the floor waits without moving until its timer runs out,
/// then jumps up (its speed points up and it leaves the floor) toward the
/// player: to the right when the player is level or to its right, to the
/// left otherwise.
pub proof fn lemma_frog_jumps_toward_player(f: FrogEntity, g: &BackgroundGrid)
    requires
        !f.dead,
        f.on_floor,
        -0x8000 <= f.jump_counter <= 0x8000,
        -0x0800_0000 < f.y,
    ensures
        ({
            let n = f.spec_step(g).0;
            &&& f.jump_counter + 1 < 17 ==> n.x == f.x && n.y == f.y && n.on_floor && n.jump_counter == f.jump_counter + 1
            &&& f.jump_counter + 1 >= 17 ==> {
                &&& !n.on_floor
                &&& n.y_speed < 0
                &&& n.y < f.y
                &&& n.x == f.x
                &&& f.player_x >= f.x ==> n.x_speed == 4
                &&& f.player_x < f.x ==> n.x_speed == -4
            }
        }),
{
}

// ---------------------------------------------------------------------------
// Key bindings
// ---------------------------------------------------------------------------

/// The default key bindings: arrows move, look up and duck; Space and both
/// Shifts jump; both Alts and both Controls throw; Tab and Backspace step
/// through the inventory; Escape pauses; Q quits; N and T toggle sound and
/// slow motion; S saves and R restores; any other key does nothing.
pub proof fn lemma_default_bindings()
    ensures
        key_command(Key::ArrowLeft) == Some(InputCommand::MoveLeft),
        key_command(Key::ArrowRight) == Some(InputCommand::MoveRight),
        key_command(Key::ArrowUp) == Some(InputCommand::Up),
        key_command(Key::ArrowDown) == Some(InputCommand::Duck),
        key_command(Key::Space) == Some(InputCommand::Jump),
        key_command(Key::ShiftLeft) == Some(InputCommand::Jump),
        key_command(Key::ShiftRight) == Some(InputCommand::Jump),
        key_command(Key::AltLeft) == Some(InputCommand::ThrowItem),
        key_command(Key::AltRight) == Some(InputCommand::ThrowItem),
        key_command(Key::ControlLeft) == Some(InputCommand::ThrowItem),
        key_command(Key::ControlRight) == Some(InputCommand::ThrowItem),
        key_command(Key::Tab) == Some(InputCommand::NextInventory),
        key_command(Key::Backspace) == Some(InputCommand::PrevInventory),
        key_command(Key::Escape) == Some(InputCommand::Pause),
        key_command(Key::KeyQ) == Some(InputCommand::Quit),
        key_command(Key::KeyN) == Some(InputCommand::ToggleNoise),
        key_command(Key::KeyT) == Some(InputCommand::ToggleTurtle),
        key_command(Key::KeyS) == Some(InputCommand::Save),
        key_command(Key::KeyR) == Some(InputCommand::Restore),
        key_command(Key::Unbound) is None,
{
}

/// Holding a bound key makes its command active; a command is active only
/// while some key bound to it is held.
pub proof fn lemma_held_key_activates(held: Set<Key>, k: Key, c: InputCommand)
    ensures
        held.contains(k) && key_command(k) == Some(c) ==> commands_of(held).contains(c),
        commands_of(held).contains(c) ==> exists|j: Key| held.contains(j) && key_command(j) == Some(c),
{
}

// ---------------------------------------------------------------------------
// Patrolling walkers
// ---------------------------------------------------------------------------

/// A patrolling crab steps ahead by its speed when the way is open and
/// floored, and otherwise stays where it is and turns round: it never walks
/// into a wall or off a ledge.
pub proof fn lemma_crab_patrol(c: CrabEntity, g: &BackgroundGrid)
    requires
        c.wf(),
        !c.dead,
        !c.climbing,
    ensures
        ({
            let n = c.spec_step(g).0;
            let open = !spec_blocked_ahead(g, c.x as int, c.y as int, c.w as int, c.h as int, c.x_speed as int)
                && spec_floor_under_next(g, c.x as int, c.y as int, c.w as int, c.h as int, c.x_speed as int);
            &&& n.y == c.y
            &&& open ==> n.x == c.x + c.x_speed && n.x_speed == c.x_speed
            &&& !open ==> n.x == c.x && n.x_speed == -c.x_speed
        }),
{
}

/// A giant ant pauses after turning; otherwise it walks forward (never
/// backward, by at most its speed) when the way is open and floored, and
/// turns round in place when it is not.
pub proof fn lemma_ant_patrol(a: GiantAntEntity, g: &BackgroundGrid)
    requires
        a.wf(),
        !a.dead,
    ensures
        ({
            let n = a.spec_step(g).0;
            let open = !spec_blocked_ahead(g, a.x as int, a.y as int, a.w as int, a.h as int, a.x_speed as int)
                && spec_floor_under_next(g, a.x as int, a.y as int, a.w as int, a.h as int, a.x_speed as int);
            &&& n.y == a.y
            &&& a.turn_pause > 0 ==> n.x == a.x && n.x_speed == a.x_speed && n.turn_pause == a.turn_pause - 1
            &&& a.turn_pause <= 0 && open ==> n.x_speed == a.x_speed
                && (a.x_speed >= 0 ==> a.x <= n.x <= a.x + a.x_speed)
                && (a.x_speed <= 0 ==> a.x + a.x_speed <= n.x <= a.x)
            &&& a.turn_pause <= 0 && !open ==> n.x == a.x && n.x_speed == -a.x_speed && n.turn_pause == 2
        }),
{
    let step = sign(a.x_speed as int);
    if step != 0 {
        lemma_slide_x_bounds(g, a.x as int, a.y as int, a.w as int, a.h as int, step, dist(a.x_speed as int, 0));
    }
}

/// A rolling rock rolls on by its speed while the way ahead is clear and
/// floored, and otherwise stays and reverses.
pub proof fn lemma_rock_rolls_and_reverses(r: RollingRockEntity, g: &BackgroundGrid)
    requires
        r.wf(),
    ensures
        ({
            let n = r.spec_next(g);
            let open = !rock_blocked_ahead(g, r.x as int, r.y as int, r.w as int, r.h as int, r.x_speed as int)
                && rock_floor_under_next(g, r.x as int, r.y as int, r.w as int, r.h as int, r.x_speed as int);
            &&& n.y == r.y
            &&& open ==> n.x == r.x + r.x_speed && n.x_speed == r.x_speed
            &&& !open ==> n.x == r.x && n.x_speed == -r.x_speed
        }),
{
}

} // verus!
