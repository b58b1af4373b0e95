//! Properties of the library that span several calls or hold of every
//! input, proved from the functions' own specifications.

use vstd::prelude::*;

use crate::checkpoint::{decimal_digits, digit_char};
use crate::crab::{CrabEntity, CRAB_SCORE_VALUE};
use crate::enemies::{bee_spawn_message, score_message, BeesEntity, HiveEntity, BEES_OBJECT_TYPE, BEES_STATE_DIE, HIVE_SCORE_VALUE};
use crate::bullet::{catch_message, BulletEntity, BULLET_NO_MOVE_NO_HIT};
use crate::frog::{FrogEntity, FROG_SCORE_VALUE};
use crate::gator::{GatorEntity, GATOR_SCORE_VALUE};
use crate::ghost::{GhostEntity, GHOST_SCORE_VALUE};
use crate::giant_ant::{GiantAntEntity, ANT_SCORE_VALUE};
use crate::grid::BackgroundGrid;
use crate::collision::{dist, lemma_slide_up_stays_below, lemma_slide_y_bounds, max0, sign, spec_slide_y};
use crate::layout::{block_of, BLOCK_SIZE};
use crate::items::block_dim;
use crate::mechanisms::ToggleWallEntity;
use crate::player::{
    restart_message, spec_state_code, spec_state_from_code, PlayerEntity, PlayerStateKind, JUMP_FALLING_SPEED_LIMIT,
    STATECOUNT_MAX_TO_RESTART_GAME,
};
use crate::saves::{is_simple_filename, path_join, save_level_text, save_map_text};
use crate::session::decode_inventory;
use crate::snake::{SnakeEntity, SNAKE_SCORE_VALUE};
use crate::world::{ActiveInput, InventoryObject, Message, RuntimeState};

verus! {

// ---------------------------------------------------------------------------
// Scores
// ---------------------------------------------------------------------------

/// The state of a frog after `n` ticks from `f`, and every message
/// those ticks send, in order.
pub open spec fn frog_ticks(f: FrogEntity, g: &BackgroundGrid, n: nat) -> (FrogEntity, Seq<Message>)
    decreases n,
{
    if n == 0 {
        (f, seq![])
    } else {
        let first = f.spec_step(g);
        let rest = frog_ticks(first.0, g, (n - 1) as nat);
        (rest.0, first.1 + rest.1)
    }
}

proof fn lemma_paid_frog_rests(f: FrogEntity, g: &BackgroundGrid, n: nat)
    requires
        f.dead,
        f.score_dispatched,
    ensures
        frog_ticks(f, g, n) == (f, Seq::<Message>::empty()),
    decreases n,
{
    if n > 0 {
        lemma_paid_frog_rests(f, g, (n - 1) as nat);
        assert(Seq::<Message>::empty() + Seq::<Message>::empty() =~= Seq::<Message>::empty());
    }
}

/// A killed frog pays its score exactly once over any number of ticks, on the
/// first one, and otherwise stays as it was.
pub proof fn lemma_frog_score_paid_once(f: FrogEntity, g: &BackgroundGrid, n: nat)
    requires
        f.dead,
        !f.score_dispatched,
        n >= 1,
    ensures
        frog_ticks(f, g, n).1 == seq![score_message(FROG_SCORE_VALUE)],
        frog_ticks(f, g, n).0 == (FrogEntity { score_dispatched: true, ..f }),
{
    let paid = FrogEntity { score_dispatched: true, ..f };
    lemma_paid_frog_rests(paid, g, (n - 1) as nat);
    assert(seq![score_message(FROG_SCORE_VALUE)] + Seq::<Message>::empty() =~= seq![score_message(FROG_SCORE_VALUE)]);
}

/// The state of a crab after `n` ticks from `c`, and every message
/// those ticks send, in order.
pub open spec fn crab_ticks(c: CrabEntity, g: &BackgroundGrid, n: nat) -> (CrabEntity, Seq<Message>)
    decreases n,
{
    if n == 0 {
        (c, seq![])
    } else {
        let first = c.spec_step(g);
        let rest = crab_ticks(first.0, g, (n - 1) as nat);
        (rest.0, first.1 + rest.1)
    }
}

proof fn lemma_paid_crab_rests(c: CrabEntity, g: &BackgroundGrid, n: nat)
    requires
        c.dead,
        c.score_dispatched,
    ensures
        crab_ticks(c, g, n) == (c, Seq::<Message>::empty()),
    decreases n,
{
    if n > 0 {
        lemma_paid_crab_rests(c, g, (n - 1) as nat);
        assert(Seq::<Message>::empty() + Seq::<Message>::empty() =~= Seq::<Message>::empty());
    }
}

/// A killed crab pays its score exactly once over any number of ticks, on the
/// first one, and otherwise stays as it was.
pub proof fn lemma_crab_score_paid_once(c: CrabEntity, g: &BackgroundGrid, n: nat)
    requires
        c.dead,
        !c.score_dispatched,
        n >= 1,
    ensures
        crab_ticks(c, g, n).1 == seq![score_message(CRAB_SCORE_VALUE)],
        crab_ticks(c, g, n).0 == (CrabEntity { score_dispatched: true, ..c }),
{
    let paid = CrabEntity { score_dispatched: true, ..c };
    lemma_paid_crab_rests(paid, g, (n - 1) as nat);
    assert(seq![score_message(CRAB_SCORE_VALUE)] + Seq::<Message>::empty() =~= seq![score_message(CRAB_SCORE_VALUE)]);
}

/// The state of a giant ant after `n` ticks from `a`, and every message
/// those ticks send, in order.
pub open spec fn ant_ticks(a: GiantAntEntity, g: &BackgroundGrid, n: nat) -> (GiantAntEntity, Seq<Message>)
    decreases n,
{
    if n == 0 {
        (a, seq![])
    } else {
        let first = a.spec_step(g);
        let rest = ant_ticks(first.0, g, (n - 1) as nat);
        (rest.0, first.1 + rest.1)
    }
}

proof fn lemma_paid_ant_rests(a: GiantAntEntity, g: &BackgroundGrid, n: nat)
    requires
        a.dead,
        a.score_dispatched,
    ensures
        ant_ticks(a, g, n) == (a, Seq::<Message>::empty()),
    decreases n,
{
    if n > 0 {
        lemma_paid_ant_rests(a, g, (n - 1) as nat);
        assert(Seq::<Message>::empty() + Seq::<Message>::empty() =~= Seq::<Message>::empty());
    }
}

/// A killed giant ant pays its score exactly once over any number of ticks, on the
/// first one, and otherwise stays as it was.
pub proof fn lemma_ant_score_paid_once(a: GiantAntEntity, g: &BackgroundGrid, n: nat)
    requires
        a.dead,
        !a.score_dispatched,
        n >= 1,
    ensures
        ant_ticks(a, g, n).1 == seq![score_message(ANT_SCORE_VALUE)],
        ant_ticks(a, g, n).0 == (GiantAntEntity { score_dispatched: true, ..a }),
{
    let paid = GiantAntEntity { score_dispatched: true, ..a };
    lemma_paid_ant_rests(paid, g, (n - 1) as nat);
    assert(seq![score_message(ANT_SCORE_VALUE)] + Seq::<Message>::empty() =~= seq![score_message(ANT_SCORE_VALUE)]);
}

/// The state of a snake after `n` ticks from `s`, and every message
/// those ticks send, in order.
pub open spec fn snake_ticks(s: SnakeEntity, g: &BackgroundGrid, n: nat) -> (SnakeEntity, Seq<Message>)
    decreases n,
{
    if n == 0 {
        (s, seq![])
    } else {
        let first = s.spec_step(g);
        let rest = snake_ticks(first.0, g, (n - 1) as nat);
        (rest.0, first.1 + rest.1)
    }
}

proof fn lemma_paid_snake_rests(s: SnakeEntity, g: &BackgroundGrid, n: nat)
    requires
        s.dead,
        s.score_dispatched,
    ensures
        snake_ticks(s, g, n) == (s, Seq::<Message>::empty()),
    decreases n,
{
    if n > 0 {
        lemma_paid_snake_rests(s, g, (n - 1) as nat);
        assert(Seq::<Message>::empty() + Seq::<Message>::empty() =~= Seq::<Message>::empty());
    }
}

/// A killed snake pays its score exactly once over any number of ticks, on the
/// first one, and otherwise stays as it was.
pub proof fn lemma_snake_score_paid_once(s: SnakeEntity, g: &BackgroundGrid, n: nat)
    requires
        s.dead,
        !s.score_dispatched,
        n >= 1,
    ensures
        snake_ticks(s, g, n).1 == seq![score_message(SNAKE_SCORE_VALUE)],
        snake_ticks(s, g, n).0 == (SnakeEntity { score_dispatched: true, ..s }),
{
    let paid = SnakeEntity { score_dispatched: true, ..s };
    lemma_paid_snake_rests(paid, g, (n - 1) as nat);
    assert(seq![score_message(SNAKE_SCORE_VALUE)] + Seq::<Message>::empty() =~= seq![score_message(SNAKE_SCORE_VALUE)]);
}

/// The state of a gator after `n` ticks from `a`, and every message
/// those ticks send, in order.
pub open spec fn gator_ticks(a: GatorEntity, g: &BackgroundGrid, n: nat) -> (GatorEntity, Seq<Message>)
    decreases n,
{
    if n == 0 {
        (a, seq![])
    } else {
        let first = a.spec_step(g);
        let rest = gator_ticks(first.0, g, (n - 1) as nat);
        (rest.0, first.1 + rest.1)
    }
}

proof fn lemma_paid_gator_rests(a: GatorEntity, g: &BackgroundGrid, n: nat)
    requires
        a.dead,
        a.score_dispatched,
    ensures
        gator_ticks(a, g, n) == (a, Seq::<Message>::empty()),
    decreases n,
{
    if n > 0 {
        lemma_paid_gator_rests(a, g, (n - 1) as nat);
        assert(Seq::<Message>::empty() + Seq::<Message>::empty() =~= Seq::<Message>::empty());
    }
}

/// A killed gator pays its score exactly once over any number of ticks, on the
/// first one, and otherwise stays as it was.
pub proof fn lemma_gator_score_paid_once(a: GatorEntity, g: &BackgroundGrid, n: nat)
    requires
        a.dead,
        !a.score_dispatched,
        n >= 1,
    ensures
        gator_ticks(a, g, n).1 == seq![score_message(GATOR_SCORE_VALUE)],
        gator_ticks(a, g, n).0 == (GatorEntity { score_dispatched: true, ..a }),
{
    let paid = GatorEntity { score_dispatched: true, ..a };
    lemma_paid_gator_rests(paid, g, (n - 1) as nat);
    assert(seq![score_message(GATOR_SCORE_VALUE)] + Seq::<Message>::empty() =~= seq![score_message(GATOR_SCORE_VALUE)]);
}

/// The state of a ghost after `n` ticks from `a`, and every message
/// those ticks send, in order.
pub open spec fn ghost_ticks(a: GhostEntity, g: &BackgroundGrid, n: nat) -> (GhostEntity, Seq<Message>)
    decreases n,
{
    if n == 0 {
        (a, seq![])
    } else {
        let first = a.spec_step(g);
        let rest = ghost_ticks(first.0, g, (n - 1) as nat);
        (rest.0, first.1 + rest.1)
    }
}

proof fn lemma_paid_ghost_rests(a: GhostEntity, g: &BackgroundGrid, n: nat)
    requires
        a.dead,
        a.score_dispatched,
    ensures
        ghost_ticks(a, g, n) == (a, Seq::<Message>::empty()),
    decreases n,
{
    if n > 0 {
        lemma_paid_ghost_rests(a, g, (n - 1) as nat);
        assert(Seq::<Message>::empty() + Seq::<Message>::empty() =~= Seq::<Message>::empty());
    }
}

/// A killed ghost pays its score exactly once over any number of ticks, on the
/// first one, and otherwise stays as it was.
pub proof fn lemma_ghost_score_paid_once(a: GhostEntity, g: &BackgroundGrid, n: nat)
    requires
        a.dead,
        !a.score_dispatched,
        n >= 1,
    ensures
        ghost_ticks(a, g, n).1 == seq![score_message(GHOST_SCORE_VALUE)],
        ghost_ticks(a, g, n).0 == (GhostEntity { score_dispatched: true, ..a }),
{
    let paid = GhostEntity { score_dispatched: true, ..a };
    lemma_paid_ghost_rests(paid, g, (n - 1) as nat);
    assert(seq![score_message(GHOST_SCORE_VALUE)] + Seq::<Message>::empty() =~= seq![score_message(GHOST_SCORE_VALUE)]);
}

/// The state of a hive after `n` ticks from `h`, and every message
/// those ticks send, in order.
pub open spec fn hive_ticks(h: HiveEntity, n: nat) -> (HiveEntity, Seq<Message>)
    decreases n,
{
    if n == 0 {
        (h, seq![])
    } else {
        let first = h.spec_step();
        let rest = hive_ticks(first.0, (n - 1) as nat);
        (rest.0, first.1 + rest.1)
    }
}

proof fn lemma_paid_hive_rests(h: HiveEntity, n: nat)
    requires
        h.dead,
        h.score_dispatched,
    ensures
        hive_ticks(h, n) == (h, Seq::<Message>::empty()),
    decreases n,
{
    if n > 0 {
        lemma_paid_hive_rests(h, (n - 1) as nat);
        assert(Seq::<Message>::empty() + Seq::<Message>::empty() =~= Seq::<Message>::empty());
    }
}

/// A destroyed hive pays its score exactly once over any number of ticks, on the
/// first one, and otherwise stays as it was.
pub proof fn lemma_hive_score_paid_once(h: HiveEntity, n: nat)
    requires
        h.dead,
        !h.score_dispatched,
        n >= 1,
    ensures
        hive_ticks(h, n).1 == seq![score_message(HIVE_SCORE_VALUE)],
        hive_ticks(h, n).0 == (HiveEntity { score_dispatched: true, ..h }),
{
    let paid = HiveEntity { score_dispatched: true, ..h };
    lemma_paid_hive_rests(paid, (n - 1) as nat);
    assert(seq![score_message(HIVE_SCORE_VALUE)] + Seq::<Message>::empty() =~= seq![score_message(HIVE_SCORE_VALUE)]);
}

// ---------------------------------------------------------------------------
// Bees
// ---------------------------------------------------------------------------

/// A live bee ages by one tick per update and expires exactly when its age
/// reaches the limit: a fresh bee lives for that many ticks.
pub proof fn lemma_bee_lifetime(b: BeesEntity, g: &BackgroundGrid)
    requires
        b.wf(),
        !b.removed,
    ensures
        b.spec_next(g).state == b.state + 1,
        b.spec_next(g).removed <==> b.state + 1 >= BEES_STATE_DIE,
{
}

/// An expired bee stays as it is on every later tick.
pub proof fn lemma_expired_bee_is_inert(b: BeesEntity, g: &BackgroundGrid)
    requires
        b.removed,
    ensures
        b.spec_next(g) == b,
{
}

// ---------------------------------------------------------------------------
// Player
// ---------------------------------------------------------------------------

/// Every player state survives encoding to its record code and back, and
/// every known code (0 to 5) survives decoding and encoding.
pub proof fn lemma_state_code_round_trip(s: PlayerStateKind, code: i16)
    ensures
        spec_state_from_code(spec_state_code(s)) == s,
        0 <= code <= 5 ==> spec_state_code(spec_state_from_code(code)) == code,
{
}

/// Saving a player built from a record gives the record back, for every
/// record whose state code is a known one.
pub proof fn lemma_player_snapshot_round_trip(item: crate::record::JnObject)
    requires
        0 <= item.state <= 5,
    ensures
        PlayerEntity::spec_new(item).spec_snapshot() == item,
{
    let p = PlayerEntity::spec_new(item);
    assert(p.spec_snapshot() == item);
}

/// A dying player asks for the level restart on exactly one tick: while no
/// further kill is pending, a die tick only counts, and it sends the
/// restart request exactly when the counter stands at the restart value.
pub proof fn lemma_die_requests_restart_once(p: PlayerEntity, input: &ActiveInput, has_knife: bool, g: &BackgroundGrid)
    requires
        p.wf(),
        p.state == PlayerStateKind::Die,
        !p.die_pending,
    ensures
        p.spec_next(input, has_knife, g).state == PlayerStateKind::Die,
        p.spec_next(input, has_knife, g).state_count == (if p.state_count == i32::MAX { i32::MAX } else { (p.state_count + 1) as i32 }),
        p.spec_messages(input, has_knife) == (if p.state_count == STATECOUNT_MAX_TO_RESTART_GAME {
            seq![restart_message()]
        } else {
            Seq::<crate::world::Message>::empty()
        }),
{
    assert(p.spec_messages(input, has_knife) =~= (if p.state_count == STATECOUNT_MAX_TO_RESTART_GAME {
        seq![restart_message()]
    } else {
        Seq::<crate::world::Message>::empty()
    }));
}

/// A falling player never falls faster than the fall limit: a jump tick
/// keeps the vertical speed at or below it.
pub proof fn lemma_fall_speed_capped(p: PlayerEntity, input: &ActiveInput, g: &BackgroundGrid)
    requires
        p.state == PlayerStateKind::Jumping,
        p.y_speed <= JUMP_FALLING_SPEED_LIMIT,
    ensures
        p.jumping_next(input, g).y_speed <= JUMP_FALLING_SPEED_LIMIT,
{
    reveal(PlayerEntity::jumping_next);
}

/// A jump tick ends in one of three states: still jumping, with both
/// counters one further; landed standing, at rest with fresh counters; or
/// holding a vine. The vertical speed stays at or below the fall limit.
pub proof fn lemma_jump_tick_outcome(p: PlayerEntity, input: &ActiveInput, g: &BackgroundGrid)
    requires
        p.state == PlayerStateKind::Jumping,
        p.y_speed <= JUMP_FALLING_SPEED_LIMIT,
        p.sub_state < i32::MAX,
        p.state_count < i32::MAX,
    ensures
        ({
            let q = p.jumping_next(input, g);
            &&& q.y_speed <= JUMP_FALLING_SPEED_LIMIT
            &&& q.state == PlayerStateKind::Jumping || q.state == PlayerStateKind::Stand || q.state == PlayerStateKind::Climbing
            &&& q.state == PlayerStateKind::Jumping ==> q.sub_state == p.sub_state + 1 && q.state_count == p.state_count + 1
            &&& q.state == PlayerStateKind::Stand ==> q.y_speed == 0 && q.x_speed == 0 && q.sub_state == 0 && q.state_count == 0
        }),
{
    reveal(PlayerEntity::jumping_next);
}

/// The touch cooldown counts down by one per tick until it reaches zero,
/// whatever state the player is in.
pub proof fn lemma_zaphold_counts_down(p: PlayerEntity, input: &ActiveInput, has_knife: bool, g: &BackgroundGrid)
    ensures
        p.spec_next(input, has_knife, g).zaphold == (if p.zaphold > 0 { (p.zaphold - 1) as i32 } else { p.zaphold }),
{
    reveal(PlayerEntity::stand_next);
    reveal(PlayerEntity::jumping_next);
    reveal(PlayerEntity::climbing_next);
}

// ---------------------------------------------------------------------------
// Other entities
// ---------------------------------------------------------------------------

/// A climbing crab moves only vertically.
pub proof fn lemma_climbing_crab_keeps_column(c: CrabEntity, g: &BackgroundGrid)
    requires
        c.climbing,
    ensures
        c.spec_step(g).0.x == c.x,
{
}

/// A crab below a cell that stops rising bodies, above its left column,
/// never rises into that cell's row, whatever it does in a tick.
pub proof fn lemma_crab_stays_below_ceiling(c: CrabEntity, g: &BackgroundGrid, r: int)
    requires
        c.wf(),
        c.w >= 1,
        (r + 1) * (BLOCK_SIZE as int) <= c.y,
        g.in_bounds(max0(block_of(c.x as int)), r),
        g.cell(max0(block_of(c.x as int)), r).spec_blocks_vertical(-1),
    ensures
        (r + 1) * (BLOCK_SIZE as int) <= c.spec_step(g).0.y,
{
    if !c.dead && c.climbing {
        let step = sign(c.y_speed as int);
        let n = dist(c.y_speed as int, 0);
        let ny = crate::enemies::slid_y(g, c.x as int, c.y as int, c.w as int, c.h as int, c.y_speed as int);
        if c.y_speed < 0 {
            lemma_slide_up_stays_below(g, c.x as int, c.y as int, c.w as int, c.h as int, n, r);
            lemma_slide_y_bounds(g, c.x as int, c.y as int, c.w as int, c.h as int, step, n);
            assert(ny == spec_slide_y(g, c.x as int, c.y as int, c.w as int, c.h as int, -1, n));
        } else if c.y_speed > 0 {
            lemma_slide_y_bounds(g, c.x as int, c.y as int, c.w as int, c.h as int, step, n);
        }
        assert((r + 1) * (BLOCK_SIZE as int) <= ny);
    }
}

/// A knife at rest stays where it is until the player walks over it, and is
/// then picked up.
pub proof fn lemma_resting_knife_waits(b: BulletEntity, g: &BackgroundGrid)
    requires
        !b.removed,
        b.state_count == BULLET_NO_MOVE_NO_HIT,
    ensures
        b.spec_bbox().spec_intersects(b.player_bbox) ==> b.spec_step(g).0.removed && b.spec_step(g).1 == seq![catch_message()],
        !b.spec_bbox().spec_intersects(b.player_bbox) ==> b.spec_step(g).0 == b && b.spec_step(g).1 == Seq::<crate::world::Message>::empty(),
{
}

/// A hive spawns its bees on the player's side: with the player to its
/// right, a spawn request puts the bee half a hive-width right of it.
pub proof fn lemma_hive_spawns_toward_player(h: HiveEntity)
    requires
        h.wf(),
        !h.dead,
        h.player_x > h.x,
        h.spec_step().1.len() > 0,
    ensures
        h.spec_step().1 == seq![bee_spawn_message(h.x as int, h.y as int, h.w as int, 1)],
        bee_spawn_message(h.x as int, h.y as int, h.w as int, 1).payload == crate::world::MessagePayload::SpawnAt(
            crate::world::SpawnRequest { object_type: BEES_OBJECT_TYPE, x: (h.x + h.w / 2) as i32, y: h.y, xd: 0, yd: 0 },
        ),
{
}

// ---------------------------------------------------------------------------
// Saves
// ---------------------------------------------------------------------------

proof fn lemma_digit_char_injective(a: int, b: int)
    requires
        0 <= a < 10,
        0 <= b < 10,
        digit_char(a) == digit_char(b),
    ensures
        a == b,
{
}

proof fn lemma_decimal_digits_len(n: nat)
    ensures
        decimal_digits(n).len() >= 1,
        n >= 10 ==> decimal_digits(n).len() >= 2,
    decreases n,
{
    if n >= 10 {
        lemma_decimal_digits_len(n / 10);
    }
}

/// Decimal digits determine the number.
proof fn lemma_decimal_digits_injective(a: nat, b: nat)
    requires
        decimal_digits(a) == decimal_digits(b),
    ensures
        a == b,
    decreases a,
{
    lemma_decimal_digits_len(a);
    lemma_decimal_digits_len(b);
    if a < 10 && b < 10 {
        assert(decimal_digits(a)[0] == digit_char(a as int));
        assert(decimal_digits(b)[0] == digit_char(b as int));
        lemma_digit_char_injective(a as int, b as int);
    } else if a >= 10 && b >= 10 {
        let da = decimal_digits(a);
        let db = decimal_digits(b);
        assert(da[da.len() - 1] == digit_char((a % 10) as int));
        assert(db[db.len() - 1] == digit_char((b % 10) as int));
        lemma_digit_char_injective((a % 10) as int, (b % 10) as int);
        assert(decimal_digits(a / 10) =~= da.drop_last());
        assert(decimal_digits(b / 10) =~= db.drop_last());
        lemma_decimal_digits_injective(a / 10, b / 10);
    } else {
        lemma_decimal_digits_len(a / 10);
        lemma_decimal_digits_len(b / 10);
    }
}

/// Different slots keep their saves in different files, and a slot's map
/// and level files differ.
pub proof fn lemma_save_files_distinct(prefix: Seq<char>, s1: nat, s2: nat)
    ensures
        s1 != s2 ==> save_map_text(prefix, s1) != save_map_text(prefix, s2),
        s1 != s2 ==> save_level_text(prefix, s1) != save_level_text(prefix, s2),
        save_map_text(prefix, s1) != save_level_text(prefix, s2),
{
    let n: int = prefix.len() as int;
    if s1 != s2 {
        if save_map_text(prefix, s1) == save_map_text(prefix, s2) {
            let m1 = save_map_text(prefix, s1);
            assert(decimal_digits(s1) =~= m1.subrange(n + 6, m1.len() as int));
            assert(decimal_digits(s2) =~= m1.subrange(n + 6, m1.len() as int));
            lemma_decimal_digits_injective(s1, s2);
        }
        if save_level_text(prefix, s1) == save_level_text(prefix, s2) {
            let l1 = save_level_text(prefix, s1);
            assert(decimal_digits(s1) =~= l1.subrange(n + 5, l1.len() as int));
            assert(decimal_digits(s2) =~= l1.subrange(n + 5, l1.len() as int));
            lemma_decimal_digits_injective(s1, s2);
        }
    }
    assert(save_map_text(prefix, s1)[n + 4] == 'M');
    assert(save_level_text(prefix, s2)[n + 4] == '.');
}

/// A plain file name stays inside the runtime directory: the path it
/// resolves to is the directory, a separator, and the name.
pub proof fn lemma_simple_name_stays_inside(root: Seq<char>, file: Seq<char>)
    requires
        is_simple_filename(file),
        root.len() > 0,
    ensures
        path_join(root, file).subrange(0, root.len() as int) == root,
        root[root.len() - 1] != '/' ==> path_join(root, file) == root + seq!['/'] + file,
        root[root.len() - 1] == '/' ==> path_join(root, file) == root + file,
{
    assert(file[0] != '/');
    assert(path_join(root, file).subrange(0, root.len() as int) =~= root);
}

// ---------------------------------------------------------------------------
// Inventory
// ---------------------------------------------------------------------------

/// The save codes of an inventory.
pub open spec fn encode_inventory(items: Seq<InventoryObject>) -> Seq<u16> {
    items.map_values(|it: InventoryObject| it.spec_index())
}

/// Restoring a saved inventory gives back the inventory that was saved.
pub proof fn lemma_inventory_round_trip(items: Seq<InventoryObject>)
    ensures
        decode_inventory(encode_inventory(items)) == items,
    decreases items.len(),
{
    if items.len() > 0 {
        let rest = items.drop_last();
        lemma_inventory_round_trip(rest);
        assert(encode_inventory(items).drop_last() =~= encode_inventory(rest));
        crate::world::lemma_item_index_round_trip(items.last(), 0);
        assert(decode_inventory(encode_inventory(items)) =~= items);
    } else {
        assert(decode_inventory(encode_inventory(items)) =~= items);
    }
}


// ---------------------------------------------------------------------------
// Walls
// ---------------------------------------------------------------------------

/// A toggle wall rebuilt from its own save record stands or lies open as it
/// did when saved, with the same box and link, however often its switch was
/// used before.
pub proof fn lemma_toggle_wall_survives_save(w: ToggleWallEntity)
    requires
        0 <= w.x <= 0xFFFF,
        0 <= w.y <= 0xFFFF,
        w.w == block_dim(w.origin.width),
        w.h == block_dim(w.origin.height),
        w.link_id == w.origin.counter as i32,
    ensures
        ({
            let back = ToggleWallEntity::spec_new(w.spec_snapshot().unwrap());
            &&& back.active == w.active
            &&& back.x == w.x && back.y == w.y && back.w == w.w && back.h == w.h
            &&& back.link_id == w.link_id
        }),
{
}

} // verus!
