//! Background collision: probes of the cells a bounding box covers, and the
//! pixel-by-pixel moves that stop flush against walls, floors and ceilings.
//!
//! The player's probes (`has_floor_below`, `is_on_climbable`,
//! `collides_*`, `try_move_*`) and the enemies' probes (`blocked_ahead`,
//! `floor_under_next`, `is_on_vine`, `slide_*`) are all stated over one
//! primitive: whether some in-grid cell of a block rectangle satisfies a
//! [`Probe`].

use vstd::prelude::*;

use crate::background::BackgroundCell;
use crate::grid::BackgroundGrid;
use crate::layout::{block_index, block_of, BLOCK_SIZE};

verus! {

/// Largest absolute pixel coordinate an entity may hold. Records place
/// objects within 16 bits and a map is at most 4096 blocks of 16 pixels, so
/// this leaves ample room while keeping every sum of a coordinate, a size
/// and a speed inside `i32`.
pub const COORD_LIMIT: i32 = 0x1000_0000;

/// Largest bounding-box side, and largest speed, an entity may have: a
/// record's sizes and speeds are 16-bit values, which always fit.
pub const SIZE_LIMIT: i32 = 0x1_0000;

/// A pixel coordinate within the supported range.
pub open spec fn coord_ok(v: int) -> bool {
    -COORD_LIMIT <= v <= COORD_LIMIT
}

/// A bounding-box side or speed within the supported range.
pub open spec fn size_ok(v: int) -> bool {
    0 <= v <= SIZE_LIMIT
}

/// A signed speed within the supported range.
pub open spec fn speed_ok(v: int) -> bool {
    -SIZE_LIMIT <= v <= SIZE_LIMIT
}

/// `v` clamped below at zero.
pub open spec fn max0(v: int) -> int {
    if v < 0 {
        0
    } else {
        v
    }
}

/// Sign of `v`: -1, 0 or 1.
pub open spec fn sign(v: int) -> int {
    if v > 0 {
        1
    } else if v < 0 {
        -1
    } else {
        0
    }
}

/// What a probe looks for in a cell.
#[derive(Clone, Copy, Debug, PartialEq, Eq, Structural)]
pub enum Probe {
    /// A cell that is not passable.
    Solid,
    /// A cell that stops a body moving vertically with the given speed.
    BlocksVertical(i32),
    /// A vine cell.
    Climbable,
    /// A cell that is not passable or is a stair.
    SolidOrStair,
}

/// `cell` satisfies `probe`.
pub open spec fn probe_hits(cell: BackgroundCell, probe: Probe) -> bool {
    match probe {
        Probe::Solid => !cell.spec_passthrough(),
        Probe::BlocksVertical(yd) => cell.spec_blocks_vertical(yd as int),
        Probe::Climbable => cell.spec_climbable(),
        Probe::SolidOrStair => !cell.spec_passthrough() || cell.spec_stair(),
    }
}

/// Some in-grid cell with column in `[cx_lo, cx_hi]` and row in
/// `[cy_lo, cy_hi]` satisfies `probe`.
pub open spec fn region_hits(
    g: &BackgroundGrid,
    cx_lo: int,
    cx_hi: int,
    cy_lo: int,
    cy_hi: int,
    probe: Probe,
) -> bool {
    exists|cx: int, cy: int|
        #![trigger g.cell(cx, cy)]
        cx_lo <= cx <= cx_hi && cy_lo <= cy <= cy_hi && g.in_bounds(cx, cy) && probe_hits(
            g.cell(cx, cy),
            probe,
        )
}

fn probe_cell(cell: &BackgroundCell, probe: Probe) -> (r: bool)
    ensures
        r == probe_hits(*cell, probe),
{
    match probe {
        Probe::Solid => !cell.is_passthrough(),
        Probe::BlocksVertical(yd) => cell.blocks_vertical(yd),
        Probe::Climbable => cell.is_climbable(),
        Probe::SolidOrStair => !cell.is_passthrough() || cell.is_stair(),
    }
}

/// Scans the in-grid cells of a block rectangle for one satisfying `probe`.
pub fn region_hits_exec(
    g: &BackgroundGrid,
    cx_lo: i32,
    cx_hi: i32,
    cy_lo: i32,
    cy_hi: i32,
    probe: Probe,
) -> (r: bool)
    ensures
        r == region_hits(g, cx_lo as int, cx_hi as int, cy_lo as int, cy_hi as int, probe),
{
    let width = g.width();
    let height = g.height();
    if cx_hi < 0 || cy_hi < 0 {
        return false;
    }
    let x0: usize = if cx_lo < 0 {
        0
    } else {
        cx_lo as usize
    };
    let y0: usize = if cy_lo < 0 {
        0
    } else {
        cy_lo as usize
    };
    let x1: usize = if (cx_hi as usize) < width {
        cx_hi as usize + 1
    } else {
        width
    };
    let y1: usize = if (cy_hi as usize) < height {
        cy_hi as usize + 1
    } else {
        height
    };
    let mut cy = y0;
    while cy < y1
        invariant
            width == g.spec_width(),
            height == g.spec_height(),
            y0 <= cy,
            y1 <= height,
            x1 <= width,
            x0 == max0(cx_lo as int),
            y0 == max0(cy_lo as int),
            x1 as int == (if cx_hi < width { cx_hi + 1 } else { width as int }),
            y1 as int == (if cy_hi < height { cy_hi + 1 } else { height as int }),
            forall|px: int, py: int|
                #![trigger g.cell(px, py)]
                x0 <= px < x1 && y0 <= py < cy ==> !probe_hits(g.cell(px, py), probe),
        decreases y1 - cy,
    {
        let mut cx = x0;
        while cx < x1
            invariant
                width == g.spec_width(),
                height == g.spec_height(),
                y0 <= cy < y1,
                y1 <= height,
                x1 <= width,
                x0 <= cx,
                x0 == max0(cx_lo as int),
                y0 == max0(cy_lo as int),
                x1 as int == (if cx_hi < width { cx_hi + 1 } else { width as int }),
                y1 as int == (if cy_hi < height { cy_hi + 1 } else { height as int }),
                forall|px: int, py: int|
                    #![trigger g.cell(px, py)]
                    x0 <= px < x1 && y0 <= py < cy ==> !probe_hits(g.cell(px, py), probe),
                forall|px: int|
                    #![trigger g.cell(px, cy as int)]
                    x0 <= px < cx ==> !probe_hits(g.cell(px, cy as int), probe),
            decreases x1 - cx,
        {
            let cell = g.get(cx, cy);
            match cell {
                Some(c) => {
                    if probe_cell(&c, probe) {
                        assert(g.in_bounds(cx as int, cy as int));
                        assert(probe_hits(g.cell(cx as int, cy as int), probe));
                        assert(cx_lo <= cx <= cx_hi && cy_lo <= cy <= cy_hi);
                        return true;
                    }
                },
                None => {},
            }
            cx = cx + 1;
        }
        cy = cy + 1;
    }
    false
}

// ---------------------------------------------------------------------------
// Player probes
// ---------------------------------------------------------------------------

/// Bounds under which the probes of a box at `(x, y)` of size `w` by `h`
/// stay far from integer overflow.
pub open spec fn box_ok(x: int, y: int, w: int, h: int) -> bool {
    coord_ok(x) && coord_ok(y) && size_ok(w) && size_ok(h)
}

/// A solid cell under the box: the row just below its bottom edge holds,
/// within the box's columns, a cell that stops a falling body.
pub open spec fn spec_has_floor_below(g: &BackgroundGrid, x: int, y: int, w: int, h: int) -> bool {
    region_hits(
        g,
        max0(block_of(x)),
        block_of(x + w - 1),
        block_of(y + h),
        block_of(y + h),
        Probe::BlocksVertical(1),
    )
}

/// The box can grab a vine: its left edge is aligned to a block column and
/// one of the cells it covers is climbable.
pub open spec fn spec_is_on_climbable(g: &BackgroundGrid, x: int, y: int, w: int, h: int) -> bool {
    x % (BLOCK_SIZE as int) == 0 && region_hits(
        g,
        block_of(x),
        block_of(x + w - 1),
        block_of(y),
        block_of(y + h - 1),
        Probe::Climbable,
    )
}

/// The box overlaps a cell that stops vertical motion with speed `yd`
/// (block indices clamped below at zero).
pub open spec fn spec_collides_vertical(
    g: &BackgroundGrid,
    x: int,
    y: int,
    w: int,
    h: int,
    yd: i32,
) -> bool {
    region_hits(
        g,
        max0(block_of(x)),
        max0(block_of(x + w - 1)),
        max0(block_of(y)),
        max0(block_of(y + h - 1)),
        Probe::BlocksVertical(yd),
    )
}

/// The box overlaps a solid cell (block indices clamped below at zero).
pub open spec fn spec_collides_horizontal(
    g: &BackgroundGrid,
    x: int,
    y: int,
    w: int,
    h: int,
) -> bool {
    region_hits(
        g,
        max0(block_of(x)),
        max0(block_of(x + w - 1)),
        max0(block_of(y)),
        max0(block_of(y + h - 1)),
        Probe::Solid,
    )
}

/// Solid floor directly below the box.
pub fn has_floor_below(g: &BackgroundGrid, x: i32, y: i32, w: i32, h: i32) -> (r: bool)
    requires
        box_ok(x as int, y as int, w as int, h as int),
    ensures
        r == spec_has_floor_below(g, x as int, y as int, w as int, h as int),
{
    let cell_y = block_index(y + h);
    let bx = block_index(x);
    let left = if bx < 0 {
        0
    } else {
        bx
    };
    let right = block_index(x + w - 1);
    region_hits_exec(g, left, right, cell_y, cell_y, Probe::BlocksVertical(1))
}

/// The box can grab a vine at this position.
pub fn is_on_climbable(g: &BackgroundGrid, x: i32, y: i32, w: i32, h: i32) -> (r: bool)
    requires
        box_ok(x as int, y as int, w as int, h as int),
    ensures
        r == spec_is_on_climbable(g, x as int, y as int, w as int, h as int),
{
    let bx = block_index(x);
    if x - bx * BLOCK_SIZE != 0 {
        return false;
    }
    region_hits_exec(
        g,
        bx,
        block_index(x + w - 1),
        block_index(y),
        block_index(y + h - 1),
        Probe::Climbable,
    )
}

pub fn clamp0(v: i32) -> (r: i32)
    ensures
        r == max0(v as int),
{
    if v < 0 {
        0
    } else {
        v
    }
}

/// The box overlaps a cell that stops vertical motion with speed `yd`.
pub fn collides_vertical(g: &BackgroundGrid, x: i32, y: i32, w: i32, h: i32, yd: i32) -> (r: bool)
    requires
        box_ok(x as int, y as int, w as int, h as int),
    ensures
        r == spec_collides_vertical(g, x as int, y as int, w as int, h as int, yd),
{
    region_hits_exec(
        g,
        clamp0(block_index(x)),
        clamp0(block_index(x + w - 1)),
        clamp0(block_index(y)),
        clamp0(block_index(y + h - 1)),
        Probe::BlocksVertical(yd),
    )
}

/// The box overlaps a cell that blocks horizontal motion.
pub fn collides_horizontal(g: &BackgroundGrid, x: i32, y: i32, w: i32, h: i32) -> (r: bool)
    requires
        box_ok(x as int, y as int, w as int, h as int),
    ensures
        r == spec_collides_horizontal(g, x as int, y as int, w as int, h as int),
{
    region_hits_exec(
        g,
        clamp0(block_index(x)),
        clamp0(block_index(x + w - 1)),
        clamp0(block_index(y)),
        clamp0(block_index(y + h - 1)),
        Probe::Solid,
    )
}

// ---------------------------------------------------------------------------
// Player moves
// ---------------------------------------------------------------------------

/// Distance between two integers.
pub open spec fn dist(a: int, b: int) -> nat {
    if a >= b {
        (a - b) as nat
    } else {
        (b - a) as nat
    }
}

/// Where a box starting at column pixel `x` ends when it walks one pixel at a
/// time toward `target`, stopping just before the first position that
/// overlaps a solid cell.
pub open spec fn spec_slide_horizontal(
    g: &BackgroundGrid,
    x: int,
    target: int,
    y: int,
    w: int,
    h: int,
) -> int
    decreases dist(x, target),
{
    if x == target {
        x
    } else {
        let next = x + sign(target - x);
        if spec_collides_horizontal(g, next, y, w, h) {
            x
        } else {
            spec_slide_horizontal(g, next, target, y, w, h)
        }
    }
}

/// Where a box at height `y` ends when it rises one pixel at a time toward
/// `target`, stopping just below the first position that overlaps a cell
/// that stops motion with speed `yd`.
pub open spec fn spec_rise(
    g: &BackgroundGrid,
    x: int,
    y: int,
    target: int,
    w: int,
    h: int,
    yd: i32,
) -> int
    decreases y - target,
{
    if y <= target {
        y
    } else if spec_collides_vertical(g, x, y - 1, w, h, yd) {
        y
    } else {
        spec_rise(g, x, y - 1, target, w, h, yd)
    }
}

/// The first row in `[row, end]` whose cells in columns `[cx_l, cx_r]`
/// include one that stops motion with speed `yd`.
pub open spec fn spec_first_blocked_row(
    g: &BackgroundGrid,
    cx_l: int,
    cx_r: int,
    row: int,
    end: int,
    yd: i32,
) -> Option<int>
    decreases end + 1 - row,
{
    if row > end {
        None
    } else if region_hits(g, cx_l, cx_r, row, row, Probe::BlocksVertical(yd)) {
        Some(row)
    } else {
        spec_first_blocked_row(g, cx_l, cx_r, row + 1, end, yd)
    }
}

/// The horizontal target of a step of `dx` pixels: clamped to the map.
pub open spec fn spec_horizontal_target(g: &BackgroundGrid, x: int, w: int, dx: int) -> int {
    let max_x = max0(g.spec_width() * (BLOCK_SIZE as int) - w);
    if x + dx < 0 {
        0
    } else if x + dx > max_x {
        max_x
    } else {
        x + dx
    }
}

/// A rise ends between its target and where it started.
pub proof fn lemma_rise_bounds(g: &BackgroundGrid, x: int, y: int, target: int, w: int, h: int, yd: i32)
    ensures
        spec_rise(g, x, y, target, w, h, yd) <= y,
        y <= target ==> spec_rise(g, x, y, target, w, h, yd) == y,
        target <= y ==> target <= spec_rise(g, x, y, target, w, h, yd),
    decreases y - target,
{
    if y > target && !spec_collides_vertical(g, x, y - 1, w, h, yd) {
        lemma_rise_bounds(g, x, y - 1, target, w, h, yd);
    }
}

proof fn lemma_rows_beyond_grid(g: &BackgroundGrid, cx_l: int, cx_r: int, row: int, end: int, yd: i32)
    requires
        row >= g.spec_height(),
    ensures
        spec_first_blocked_row(g, cx_l, cx_r, row, end, yd) is None,
    decreases end + 1 - row,
{
    if row <= end {
        lemma_rows_beyond_grid(g, cx_l, cx_r, row + 1, end, yd);
    }
}

/// Rows scanned by a fall of `dy` pixels for a box whose bottom edge is at
/// `y + h`: from the row holding the bottom edge to the row holding the last
/// pixel reached.
pub open spec fn spec_fall_result(
    g: &BackgroundGrid,
    x: int,
    y: int,
    w: int,
    h: int,
    dy: i32,
) -> Option<int> {
    spec_first_blocked_row(
        g,
        max0(block_of(x)),
        max0(block_of(x + w - 1)),
        block_of(y + h),
        block_of(y + h + dy - 1),
        dy,
    )
}

/// Outcome `(new_y, moved)` of a vertical step of `dy` pixels: see
/// [`try_move_vertical`].
pub open spec fn spec_move_vertical(g: &BackgroundGrid, x: int, y: int, w: int, h: int, dy: i32) -> (int, bool) {
    if dy > 0 {
        match spec_fall_result(g, x, y, w, h, dy) {
            None => (y + dy, true),
            Some(row) => (row * BLOCK_SIZE - h, false),
        }
    } else {
        let ny = spec_rise(g, x, y, max0(y + dy), w, h, dy);
        (ny, ny != y)
    }
}

/// Outcome `(new_x, moved)` of a horizontal step of `dx` pixels: see
/// [`try_move_vertical_horizontal`].
pub open spec fn spec_move_horizontal(g: &BackgroundGrid, x: int, y: int, w: int, h: int, dx: int) -> (int, bool) {
    let nx = spec_slide_horizontal(g, x, spec_horizontal_target(g, x, w, dx), y, w, h);
    (nx, nx != x)
}

/// Vertical step of `dy` pixels. Falling (`dy > 0`): when some row between
/// the current bottom edge and the destination stops the fall, the box is
/// snapped to stand on the first such row and `false` is returned; otherwise
/// it moves the full `dy` and `true` is returned. Rising or standing
/// (`dy <= 0`): the box rises pixel by pixel toward `max(y + dy, 0)`,
/// stopping flush below a blocking cell; the result is whether it moved.
pub fn try_move_vertical(
    g: &BackgroundGrid,
    x: i32,
    y: &mut i32,
    w: i32,
    h: i32,
    dy: i32,
) -> (r: bool)
    requires
        box_ok(x as int, *old(y) as int, w as int, h as int),
        speed_ok(dy as int),
    ensures
        dy > 0 ==> match spec_fall_result(g, x as int, *old(y) as int, w as int, h as int, dy) {
            None => r && *final(y) == *old(y) + dy,
            Some(row) => !r && *final(y) == row * BLOCK_SIZE - h,
        },
        dy <= 0 ==> {
            &&& *final(y) == spec_rise(
                g,
                x as int,
                *old(y) as int,
                max0(*old(y) + dy),
                w as int,
                h as int,
                dy,
            )
            &&& r == (*final(y) != *old(y))
        },
        (*final(y) as int, r) == spec_move_vertical(g, x as int, *old(y) as int, w as int, h as int, dy),
        *old(y) + (if dy > 0 { 1 - BLOCK_SIZE } else { dy as int }) <= *final(y) <= *old(y) + (
        if dy > 0 {
            dy as int
        } else {
            0
        }),
{
    if dy > 0 {
        let cx_l = clamp0(block_index(x));
        let cx_r = clamp0(block_index(x + w - 1));
        let feet = *y + h;
        let start_row = block_index(feet);
        let end_row = block_index(feet + dy - 1);
        let height = g.height();
        let ghost y_start = *y;
        let mut row = start_row;
        while row <= end_row && (row < 0 || (row as usize) < height)
            invariant
                height == g.spec_height(),
                start_row <= row,
                row <= end_row + 1,
                start_row == block_of(*y + h),
                end_row == block_of(*y + h + dy - 1),
                cx_l == max0(block_of(x as int)),
                cx_r == max0(block_of(x + w - 1)),
                box_ok(x as int, *y as int, w as int, h as int),
                *y == y_start,
                y_start == *old(y),
                speed_ok(dy as int),
                dy > 0,
                spec_first_blocked_row(g, cx_l as int, cx_r as int, start_row as int, end_row as int, dy)
                    == spec_first_blocked_row(g, cx_l as int, cx_r as int, row as int, end_row as int, dy),
            decreases end_row + 1 - row,
        {
            if region_hits_exec(g, cx_l, cx_r, row, row, Probe::BlocksVertical(dy)) {
                assert(spec_first_blocked_row(g, cx_l as int, cx_r as int, row as int, end_row as int, dy) == Some(row as int));
                assert(row * BLOCK_SIZE <= *y + h + dy - 1);
                assert(row * BLOCK_SIZE > *y + h - BLOCK_SIZE);
                *y = row * BLOCK_SIZE - h;
                return false;
            }
            row = row + 1;
        }
        proof {
            if row <= end_row {
                lemma_rows_beyond_grid(g, cx_l as int, cx_r as int, row as int, end_row as int, dy);
            }
        }
        *y = *y + dy;
        true
    } else {
        let target = if *y + dy < 0 {
            0
        } else {
            *y + dy
        };
        let ghost y0 = *y;
        let mut moved = false;
        let mut blocked = false;
        while *y > target && !blocked
            invariant
                box_ok(x as int, *y as int, w as int, h as int),
                box_ok(x as int, y0 as int, w as int, h as int),
                target == max0(y0 + dy),
                dy <= 0,
                target <= *y <= y0 || *y == y0,
                moved == (*y != y0),
                blocked ==> spec_collides_vertical(g, x as int, *y - 1, w as int, h as int, dy),
                spec_rise(g, x as int, *y as int, target as int, w as int, h as int, dy)
                    == spec_rise(g, x as int, y0 as int, target as int, w as int, h as int, dy),
            decreases *y - target, (if blocked { 0int } else { 1int }),
        {
            let next = *y - 1;
            if collides_vertical(g, x, next, w, h, dy) {
                blocked = true;
            } else {
                *y = next;
                moved = true;
            }
        }
        moved
    }
}

/// Horizontal step of `dx` pixels: the box walks pixel by pixel toward
/// `x + dx` clamped to the map, stopping flush against a solid cell. The
/// result is whether it moved.
pub fn try_move_vertical_horizontal(
    g: &BackgroundGrid,
    x: &mut i32,
    y: i32,
    w: i32,
    h: i32,
    dx: i32,
) -> (r: bool)
    requires
        box_ok(*old(x) as int, y as int, w as int, h as int),
        speed_ok(dx as int),
    ensures
        *final(x) == spec_slide_horizontal(
            g,
            *old(x) as int,
            spec_horizontal_target(g, *old(x) as int, w as int, dx as int),
            y as int,
            w as int,
            h as int,
        ),
        r == (*final(x) != *old(x)),
        (*final(x) as int, r) == spec_move_horizontal(g, *old(x) as int, y as int, w as int, h as int, dx as int),
        box_ok(*final(x) as int, y as int, w as int, h as int),
        *final(x) >= 0 || *final(x) >= *old(x),
        *final(x) <= g.spec_width() * BLOCK_SIZE || *final(x) <= *old(x),
        *final(x) <= 0x1_0000 || *final(x) <= *old(x),
{
    let width = g.width();
    let max_x = (width as i32) * BLOCK_SIZE - w;
    let hi = if max_x < 0 {
        0
    } else {
        max_x
    };
    let target = if *x + dx < 0 {
        0
    } else if *x + dx > hi {
        hi
    } else {
        *x + dx
    };
    let step: i32 = if target > *x {
        1
    } else if target < *x {
        -1
    } else {
        0
    };
    let ghost x0 = *x;
    let mut moved = false;
    let mut blocked = false;
    while *x != target && !blocked
        invariant
            width == g.spec_width(),
            width <= 4096,
            target as int == spec_horizontal_target(g, x0 as int, w as int, dx as int),
            blocked ==> spec_collides_horizontal(g, *x + step, y as int, w as int, h as int),
            box_ok(*x as int, y as int, w as int, h as int),
            0 <= target <= 0x1000_0000,
            step == sign(target - x0),
            (step > 0 ==> x0 <= *x <= target),
            (step < 0 ==> target <= *x <= x0),
            (step == 0 ==> *x == target),
            moved == (*x != x0),
            spec_slide_horizontal(g, *x as int, target as int, y as int, w as int, h as int)
                == spec_slide_horizontal(g, x0 as int, target as int, y as int, w as int, h as int),
        decreases dist(*x as int, target as int), (if blocked { 0int } else { 1int }),
    {
        let next = *x + step;
        if collides_horizontal(g, next, y, w, h) {
            blocked = true;
        } else {
            *x = next;
            moved = true;
        }
    }
    moved
}

// ---------------------------------------------------------------------------
// Enemy probes and slides
// ---------------------------------------------------------------------------

/// The pixel column just ahead of a box moving with horizontal speed `xs`.
pub open spec fn ahead_x(x: int, w: int, xs: int) -> int {
    if xs > 0 {
        x + w
    } else {
        x - 1
    }
}

/// The column ahead of the box is off the map or holds a solid cell within
/// the box's rows.
pub open spec fn spec_blocked_ahead(g: &BackgroundGrid, x: int, y: int, w: int, h: int, xs: int) -> bool {
    let cx = block_of(ahead_x(x, w, xs));
    ||| cx < 0
    ||| cx >= g.spec_width()
    ||| region_hits(g, cx, cx, max0(block_of(y)), max0(block_of(y + h - 1)), Probe::Solid)
}

/// The cell below the column ahead of the box exists and stops a falling
/// body.
pub open spec fn spec_floor_under_next(
    g: &BackgroundGrid,
    x: int,
    y: int,
    w: int,
    h: int,
    xs: int,
) -> bool {
    let cx = block_of(ahead_x(x, w, xs));
    let cy = block_of(y + h);
    g.in_bounds(cx, cy) && g.cell(cx, cy).spec_blocks_vertical(1)
}

/// `true` when the column directly ahead (by the sign of `x_speed`) is off
/// the map or solid within the box's rows.
pub fn blocked_ahead(g: &BackgroundGrid, x: i32, y: i32, w: i32, h: i32, x_speed: i32) -> (r: bool)
    requires
        box_ok(x as int, y as int, w as int, h as int),
    ensures
        r == spec_blocked_ahead(g, x as int, y as int, w as int, h as int, x_speed as int),
{
    let probe_x = if x_speed > 0 {
        x + w
    } else {
        x - 1
    };
    let cell_x = block_index(probe_x);
    if cell_x < 0 || cell_x as usize >= g.width() {
        return true;
    }
    region_hits_exec(
        g,
        cell_x,
        cell_x,
        clamp0(block_index(y)),
        clamp0(block_index(y + h - 1)),
        Probe::Solid,
    )
}

/// `true` when there is floor below the box's next horizontal position.
pub fn floor_under_next(g: &BackgroundGrid, x: i32, y: i32, w: i32, h: i32, x_speed: i32) -> (r: bool)
    requires
        box_ok(x as int, y as int, w as int, h as int),
    ensures
        r == spec_floor_under_next(g, x as int, y as int, w as int, h as int, x_speed as int),
{
    let probe_x = if x_speed > 0 {
        x + w
    } else {
        x - 1
    };
    let cell_x = block_index(probe_x);
    let cell_y = block_index(y + h);
    if cell_x < 0 || cell_y < 0 {
        return false;
    }
    match g.get(cell_x as usize, cell_y as usize) {
        Some(c) => c.blocks_vertical(1),
        None => false,
    }
}

/// The box can grab a vine (same rule as the player's).
pub fn is_on_vine(g: &BackgroundGrid, x: i32, y: i32, w: i32, h: i32) -> (r: bool)
    requires
        box_ok(x as int, y as int, w as int, h as int),
    ensures
        r == spec_is_on_climbable(g, x as int, y as int, w as int, h as int),
{
    is_on_climbable(g, x, y, w, h)
}

/// A horizontal slide may advance the box to column pixel `nx` (moving with
/// sign `step`): it stays on the map and the column it enters holds no solid
/// cell within the box's rows.
pub open spec fn spec_slide_x_ok(g: &BackgroundGrid, nx: int, y: int, w: int, h: int, step: int) -> bool {
    let max_x = g.spec_width() * (BLOCK_SIZE as int) - w;
    let col = block_of(if step > 0 { nx + w - 1 } else { nx });
    &&& 0 <= nx <= max_x
    &&& 0 <= col < g.spec_width()
    &&& !region_hits(g, col, col, max0(block_of(y)), max0(block_of(y + h - 1)), Probe::Solid)
}

/// Where a box at `x` ends after up to `n` single-pixel horizontal steps of
/// sign `step`, stopping at the first step that is not allowed.
pub open spec fn spec_slide_x(g: &BackgroundGrid, x: int, y: int, w: int, h: int, step: int, n: nat) -> int
    decreases n,
{
    if n == 0 {
        x
    } else if spec_slide_x_ok(g, x + step, y, w, h, step) {
        spec_slide_x(g, x + step, y, w, h, step, (n - 1) as nat)
    } else {
        x
    }
}

/// A vertical slide may advance the box to row pixel `ny` (moving with sign
/// `step`): it stays on the map and the row it enters holds no cell, within
/// the box's columns, that stops motion in that direction.
pub open spec fn spec_slide_y_ok(g: &BackgroundGrid, x: int, ny: int, w: int, h: int, step: int) -> bool {
    let max_y = g.spec_height() * (BLOCK_SIZE as int) - h;
    let row = block_of(if step > 0 { ny + h - 1 } else { ny });
    &&& 0 <= ny <= max_y
    &&& 0 <= row < g.spec_height()
    &&& !region_hits(
        g,
        max0(block_of(x)),
        max0(block_of(x + w - 1)),
        row,
        row,
        Probe::BlocksVertical(step as i32),
    )
}

/// Where a box at `y` ends after up to `n` single-pixel vertical steps of
/// sign `step`, stopping at the first step that is not allowed.
pub open spec fn spec_slide_y(g: &BackgroundGrid, x: int, y: int, w: int, h: int, step: int, n: nat) -> int
    decreases n,
{
    if n == 0 {
        y
    } else if spec_slide_y_ok(g, x, y + step, w, h, step) {
        spec_slide_y(g, x, y + step, w, h, step, (n - 1) as nat)
    } else {
        y
    }
}

pub proof fn lemma_slide_x_bounds(g: &BackgroundGrid, x: int, y: int, w: int, h: int, step: int, n: nat)
    requires
        step == 1 || step == -1,
    ensures
        step > 0 ==> x <= spec_slide_x(g, x, y, w, h, step, n) <= x + n,
        step < 0 ==> x - n <= spec_slide_x(g, x, y, w, h, step, n) <= x,
    decreases n,
{
    if n > 0 && spec_slide_x_ok(g, x + step, y, w, h, step) {
        lemma_slide_x_bounds(g, x + step, y, w, h, step, (n - 1) as nat);
    }
}

pub proof fn lemma_slide_y_bounds(g: &BackgroundGrid, x: int, y: int, w: int, h: int, step: int, n: nat)
    requires
        step == 1 || step == -1,
    ensures
        step > 0 ==> y <= spec_slide_y(g, x, y, w, h, step, n) <= y + n,
        step < 0 ==> y - n <= spec_slide_y(g, x, y, w, h, step, n) <= y,
    decreases n,
{
    if n > 0 && spec_slide_y_ok(g, x, y + step, w, h, step) {
        lemma_slide_y_bounds(g, x, y + step, w, h, step, (n - 1) as nat);
    }
}

/// A horizontal slide either leaves the box where it was or ends with the
/// box inside the map.
pub proof fn lemma_slide_x_lands(g: &BackgroundGrid, x: int, y: int, w: int, h: int, step: int, n: nat)
    ensures
        spec_slide_x(g, x, y, w, h, step, n) == x
            || 0 <= spec_slide_x(g, x, y, w, h, step, n) <= g.spec_width() * (BLOCK_SIZE as int) - w,
    decreases n,
{
    if n > 0 && spec_slide_x_ok(g, x + step, y, w, h, step) {
        lemma_slide_x_lands(g, x + step, y, w, h, step, (n - 1) as nat);
    }
}

/// A vertical slide either leaves the box where it was or ends with the box
/// inside the map.
pub proof fn lemma_slide_y_lands(g: &BackgroundGrid, x: int, y: int, w: int, h: int, step: int, n: nat)
    ensures
        spec_slide_y(g, x, y, w, h, step, n) == y
            || 0 <= spec_slide_y(g, x, y, w, h, step, n) <= g.spec_height() * (BLOCK_SIZE as int) - h,
    decreases n,
{
    if n > 0 && spec_slide_y_ok(g, x, y + step, w, h, step) {
        lemma_slide_y_lands(g, x, y + step, w, h, step, (n - 1) as nat);
    }
}

/// A rising slide never takes the box's top into row `r` when the cell of
/// that row above the box's left column stops rising bodies.
pub proof fn lemma_slide_up_stays_below(g: &BackgroundGrid, x: int, y: int, w: int, h: int, n: nat, r: int)
    requires
        w >= 1,
        (r + 1) * (BLOCK_SIZE as int) <= y,
        g.in_bounds(max0(block_of(x)), r),
        g.cell(max0(block_of(x)), r).spec_blocks_vertical(-1),
    ensures
        (r + 1) * (BLOCK_SIZE as int) <= spec_slide_y(g, x, y, w, h, -1, n),
    decreases n,
{
    if n > 0 && spec_slide_y_ok(g, x, y - 1, w, h, -1) {
        if y - 1 < (r + 1) * (BLOCK_SIZE as int) {
            assert(block_of(y - 1) == r);
            assert(max0(block_of(x)) <= max0(block_of(x + w - 1)));
            assert(probe_hits(g.cell(max0(block_of(x)), r), Probe::BlocksVertical(-1i32)));
            assert(region_hits(g, max0(block_of(x)), max0(block_of(x + w - 1)), r, r, Probe::BlocksVertical(-1i32)));
        } else {
            lemma_slide_up_stays_below(g, x, y - 1, w, h, (n - 1) as nat, r);
        }
    }
}

/// Slides the box horizontally by up to `|dx|` pixels in the direction of
/// `dx`, one pixel at a time, stopping flush against a solid cell or the map
/// edge. Returns the signed number of pixels moved.
pub fn slide_x(g: &BackgroundGrid, x: &mut i32, y: i32, w: i32, h: i32, dx: i32) -> (moved: i32)
    requires
        box_ok(*old(x) as int, y as int, w as int, h as int),
        speed_ok(dx as int),
    ensures
        *final(x) == spec_slide_x(g, *old(x) as int, y as int, w as int, h as int, sign(dx as int), dist(dx as int, 0)),
        moved == *final(x) - *old(x),
        dist(moved as int, 0) <= dist(dx as int, 0),
        moved == 0 || sign(moved as int) == sign(dx as int),
        box_ok(*final(x) as int, y as int, w as int, h as int),
{
    let step: i32 = if dx > 0 {
        1
    } else if dx < 0 {
        -1
    } else {
        0
    };
    let n: i32 = if dx < 0 {
        -dx
    } else {
        dx
    };
    let width = g.width();
    let max_x = (width as i32) * BLOCK_SIZE - w;
    let cy_top = clamp0(block_index(y));
    let cy_bot = clamp0(block_index(y + h - 1));
    let ghost x0 = *x;
    proof {
        if step != 0 {
            lemma_slide_x_bounds(g, x0 as int, y as int, w as int, h as int, step as int, n as nat);
        }
    }
    let mut moved: i32 = 0;
    let mut i: i32 = 0;
    let mut stopped = false;
    while i < n && !stopped
        invariant
            width == g.spec_width(),
            width <= 4096,
            max_x == g.spec_width() * BLOCK_SIZE - w,
            cy_top == max0(block_of(y as int)),
            cy_bot == max0(block_of(y + h - 1)),
            box_ok(x0 as int, y as int, w as int, h as int),
            step == sign(dx as int),
            n == dist(dx as int, 0),
            0 <= i <= n,
            n <= SIZE_LIMIT,
            moved == *x - x0,
            moved == i * step,
            step > 0 ==> x0 <= spec_slide_x(g, x0 as int, y as int, w as int, h as int, step as int, n as nat) <= x0 + n,
            step < 0 ==> x0 - n <= spec_slide_x(g, x0 as int, y as int, w as int, h as int, step as int, n as nat) <= x0,
            stopped ==> !spec_slide_x_ok(g, *x + step, y as int, w as int, h as int, step as int),
            spec_slide_x(g, *x as int, y as int, w as int, h as int, step as int, (n - i) as nat)
                == spec_slide_x(g, x0 as int, y as int, w as int, h as int, step as int, n as nat),
        decreases n - i, (if stopped { 0int } else { 1int }),
    {
        let nx = *x + step;
        if nx < 0 || nx > max_x {
            stopped = true;
        } else {
            let probe_col = if step > 0 {
                nx + w - 1
            } else {
                nx
            };
            let cell_x = block_index(probe_col);
            if cell_x < 0 || cell_x as usize >= width {
                stopped = true;
            } else if region_hits_exec(g, cell_x, cell_x, cy_top, cy_bot, Probe::Solid) {
                stopped = true;
            } else {
                *x = nx;
                moved = moved + step;
                i = i + 1;
            }
        }
    }
    moved
}

/// Slides the box vertically by up to `|dy|` pixels in the direction of
/// `dy`, one pixel at a time, stopping flush against a cell that stops
/// motion in that direction or the map edge. Returns the signed number of
/// pixels moved (zero when fully blocked: a ceiling when rising, a landing
/// when falling).
pub fn slide_y(g: &BackgroundGrid, x: i32, y: &mut i32, w: i32, h: i32, dy: i32) -> (moved: i32)
    requires
        box_ok(x as int, *old(y) as int, w as int, h as int),
        speed_ok(dy as int),
    ensures
        *final(y) == spec_slide_y(g, x as int, *old(y) as int, w as int, h as int, sign(dy as int), dist(dy as int, 0)),
        moved == *final(y) - *old(y),
        dist(moved as int, 0) <= dist(dy as int, 0),
        moved == 0 || sign(moved as int) == sign(dy as int),
        box_ok(x as int, *final(y) as int, w as int, h as int),
{
    let step: i32 = if dy > 0 {
        1
    } else if dy < 0 {
        -1
    } else {
        0
    };
    let n: i32 = if dy < 0 {
        -dy
    } else {
        dy
    };
    let height = g.height();
    let max_y = (height as i32) * BLOCK_SIZE - h;
    let cx_left = clamp0(block_index(x));
    let cx_right = clamp0(block_index(x + w - 1));
    let ghost y0 = *y;
    proof {
        if step != 0 {
            lemma_slide_y_bounds(g, x as int, y0 as int, w as int, h as int, step as int, n as nat);
        }
    }
    let mut moved: i32 = 0;
    let mut i: i32 = 0;
    let mut stopped = false;
    while i < n && !stopped
        invariant
            height == g.spec_height(),
            height <= 4096,
            max_y == g.spec_height() * BLOCK_SIZE - h,
            cx_left == max0(block_of(x as int)),
            cx_right == max0(block_of(x + w - 1)),
            box_ok(x as int, y0 as int, w as int, h as int),
            step == sign(dy as int),
            n == dist(dy as int, 0),
            0 <= i <= n,
            n <= SIZE_LIMIT,
            moved == *y - y0,
            moved == i * step,
            step > 0 ==> y0 <= spec_slide_y(g, x as int, y0 as int, w as int, h as int, step as int, n as nat) <= y0 + n,
            step < 0 ==> y0 - n <= spec_slide_y(g, x as int, y0 as int, w as int, h as int, step as int, n as nat) <= y0,
            stopped ==> !spec_slide_y_ok(g, x as int, *y + step, w as int, h as int, step as int),
            spec_slide_y(g, x as int, *y as int, w as int, h as int, step as int, (n - i) as nat)
                == spec_slide_y(g, x as int, y0 as int, w as int, h as int, step as int, n as nat),
        decreases n - i, (if stopped { 0int } else { 1int }),
    {
        let ny = *y + step;
        if ny < 0 || ny > max_y {
            stopped = true;
        } else {
            let probe_row = if step > 0 {
                ny + h - 1
            } else {
                ny
            };
            let cell_y = block_index(probe_row);
            if cell_y < 0 || cell_y as usize >= height {
                stopped = true;
            } else if region_hits_exec(g, cx_left, cx_right, cell_y, cell_y, Probe::BlocksVertical(step)) {
                stopped = true;
            } else {
                *y = ny;
                moved = moved + step;
                i = i + 1;
            }
        }
    }
    moved
}

} // verus!
