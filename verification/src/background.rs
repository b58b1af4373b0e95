//! Background cells: the standard DMA-driven cell and the named specialised
//! cells (vines, fake floors and roofs, lava, water, spikes, thorns), and the
//! factory that picks one from a DMA name.

use vstd::prelude::*;

use crate::world::{DeathKind, Rect, RenderCommand};

verus! {

/// The fields of a DMA entry that a background cell reads.
#[derive(Clone, Copy, Debug, PartialEq, Eq, Structural)]
pub struct DmaEntry {
    pub tileset: u8,
    pub tile: u8,
    pub map_code: u16,
    /// The player passes through the cell.
    pub player_thru: bool,
    /// The cell behaves as a stair.
    pub stair: bool,
    /// The cell is a vine the player can climb.
    pub vine: bool,
}

/// Standard background cell handler: solidity, stair and vine flags come
/// straight from the DMA entry; a cell without an entry is transparent air.
#[derive(Clone, Copy, Debug, PartialEq, Eq, Structural)]
pub struct StdBackgroundEntity {
    pub tileset: Option<u8>,
    pub tile: Option<u16>,
    pub passthrough: bool,
    pub stair: bool,
    pub climbable: bool,
    pub map_code: Option<u16>,
}

impl StdBackgroundEntity {
    /// Builds the cell for a DMA lookup result: the entry's cell, or
    /// transparent air when the map code has no entry.
    pub fn for_map_code(entry: Option<DmaEntry>) -> (r: Self)
        ensures
            r == (match entry {
                Some(e) => Self::spec_from_dma_entry(e),
                None => Self::spec_transparent(),
            }),
    {
        match entry {
            Some(e) => Self::from_dma_entry(&e),
            None => Self::transparent(),
        }
    }

    pub open spec fn spec_from_dma_entry(entry: DmaEntry) -> Self {
        StdBackgroundEntity {
            tileset: Some(entry.tileset),
            tile: Some(entry.tile as u16),
            passthrough: entry.player_thru,
            stair: entry.stair,
            climbable: entry.vine,
            map_code: Some(entry.map_code),
        }
    }

    /// Builds a cell handler from a resolved DMA entry.
    pub fn from_dma_entry(entry: &DmaEntry) -> (r: Self)
        ensures
            r == Self::spec_from_dma_entry(*entry),
    {
        StdBackgroundEntity {
            tileset: Some(entry.tileset),
            tile: Some(entry.tile as u16),
            passthrough: entry.player_thru,
            stair: entry.stair,
            climbable: entry.vine,
            map_code: Some(entry.map_code),
        }
    }

    pub open spec fn spec_transparent() -> Self {
        StdBackgroundEntity {
            tileset: None,
            tile: None,
            passthrough: true,
            stair: false,
            climbable: false,
            map_code: None,
        }
    }

    /// A transparent cell: draws nothing and is fully passable.
    pub fn transparent() -> (r: Self)
        ensures
            r == Self::spec_transparent(),
    {
        StdBackgroundEntity {
            tileset: None,
            tile: None,
            passthrough: true,
            stair: false,
            climbable: false,
            map_code: None,
        }
    }
}

/// `BASETREE`: a passable vine cell.
#[derive(Clone, Copy, Debug, PartialEq, Eq, Structural)]
pub struct BaseTreeBackground {
    pub inner: StdBackgroundEntity,
}

impl BaseTreeBackground {
    pub fn for_map_code(entry: Option<DmaEntry>) -> (r: Self)
        ensures
            r.inner == StdBackgroundEntity::for_map_code_spec(entry),
    {
        BaseTreeBackground { inner: StdBackgroundEntity::for_map_code(entry) }
    }
}

/// `FFLOOR`: a fake floor, passable from above, solid for a rising player.
#[derive(Clone, Copy, Debug, PartialEq, Eq, Structural)]
pub struct FFloorBackground {
    pub inner: StdBackgroundEntity,
}

impl FFloorBackground {
    pub fn for_map_code(entry: Option<DmaEntry>) -> (r: Self)
        ensures
            r.inner == StdBackgroundEntity::for_map_code_spec(entry),
    {
        FFloorBackground { inner: StdBackgroundEntity::for_map_code(entry) }
    }
}

/// `FROOF`: a fake roof, passable from below, solid for a falling player.
#[derive(Clone, Copy, Debug, PartialEq, Eq, Structural)]
pub struct FroofBackground {
    pub inner: StdBackgroundEntity,
}

impl FroofBackground {
    pub fn for_map_code(entry: Option<DmaEntry>) -> (r: Self)
        ensures
            r.inner == StdBackgroundEntity::for_map_code_spec(entry),
    {
        FroofBackground { inner: StdBackgroundEntity::for_map_code(entry) }
    }
}

/// Thorn and stalactite cells (`STALACBR`, `STALAGBR`, `WTHORN`, `WTHORN2`).
#[derive(Clone, Copy, Debug, PartialEq, Eq, Structural)]
pub struct Kill2Background {
    pub inner: StdBackgroundEntity,
}

impl Kill2Background {
    pub fn for_map_code(entry: Option<DmaEntry>) -> (r: Self)
        ensures
            r.inner == StdBackgroundEntity::for_map_code_spec(entry),
    {
        Kill2Background { inner: StdBackgroundEntity::for_map_code(entry) }
    }
}

/// Lava cells (`LAVA1`-`LAVA5`).
#[derive(Clone, Copy, Debug, PartialEq, Eq, Structural)]
pub struct KillLavaBackground {
    pub inner: StdBackgroundEntity,
}

impl KillLavaBackground {
    pub fn for_map_code(entry: Option<DmaEntry>) -> (r: Self)
        ensures
            r.inner == StdBackgroundEntity::for_map_code_spec(entry),
    {
        KillLavaBackground { inner: StdBackgroundEntity::for_map_code(entry) }
    }
}

/// Killing water cells (`WATER*`).
#[derive(Clone, Copy, Debug, PartialEq, Eq, Structural)]
pub struct KillWaterBackground {
    pub inner: StdBackgroundEntity,
}

impl KillWaterBackground {
    pub fn for_map_code(entry: Option<DmaEntry>) -> (r: Self)
        ensures
            r.inner == StdBackgroundEntity::for_map_code_spec(entry),
    {
        KillWaterBackground { inner: StdBackgroundEntity::for_map_code(entry) }
    }
}

/// Spike cells (`SPIKE`).
#[derive(Clone, Copy, Debug, PartialEq, Eq, Structural)]
pub struct SpikeBackground {
    pub inner: StdBackgroundEntity,
}

impl SpikeBackground {
    pub fn for_map_code(entry: Option<DmaEntry>) -> (r: Self)
        ensures
            r.inner == StdBackgroundEntity::for_map_code_spec(entry),
    {
        SpikeBackground { inner: StdBackgroundEntity::for_map_code(entry) }
    }
}

impl StdBackgroundEntity {
    pub open spec fn for_map_code_spec(entry: Option<DmaEntry>) -> Self {
        match entry {
            Some(e) => Self::spec_from_dma_entry(e),
            None => Self::spec_transparent(),
        }
    }

    /// The cell's tile at screen position `(screen_x, screen_y)`, clipped to
    /// the game area `clip`; a cell without a tile draws nothing.
    pub open spec fn spec_draw(self, screen_x: i32, screen_y: i32, clip: Rect) -> Option<RenderCommand> {
        match (self.tileset, self.tile) {
            (Some(ts), Some(t)) => Some(RenderCommand::Blit { tileset: ts, tile: t, x: screen_x, y: screen_y, opaque: false, clip: Some(clip) }),
            _ => None,
        }
    }

    pub fn draw(&self, screen_x: i32, screen_y: i32, clip: Rect) -> (r: Option<RenderCommand>)
        ensures
            r == self.spec_draw(screen_x, screen_y, clip),
    {
        match (self.tileset, self.tile) {
            (Some(ts), Some(t)) => Some(RenderCommand::Blit { tileset: ts, tile: t, x: screen_x, y: screen_y, opaque: false, clip: Some(clip) }),
            _ => None,
        }
    }
}

/// One background cell of a level grid.
#[derive(Clone, Copy, Debug, PartialEq, Eq, Structural)]
pub enum BackgroundCell {
    Std(StdBackgroundEntity),
    BaseTree(BaseTreeBackground),
    FFloor(FFloorBackground),
    Froof(FroofBackground),
    Kill2(Kill2Background),
    KillLava(KillLavaBackground),
    KillWater(KillWaterBackground),
    Spike(SpikeBackground),
}

impl BackgroundCell {
    /// The player passes through the cell horizontally.
    pub open spec fn spec_passthrough(self) -> bool {
        match self {
            BackgroundCell::Std(c) => c.passthrough,
            BackgroundCell::BaseTree(_) => true,
            BackgroundCell::FFloor(_) => true,
            BackgroundCell::Froof(_) => true,
            BackgroundCell::Kill2(c) => c.inner.passthrough,
            BackgroundCell::KillLava(c) => c.inner.passthrough,
            BackgroundCell::KillWater(c) => c.inner.passthrough,
            BackgroundCell::Spike(c) => c.inner.passthrough,
        }
    }

    /// The cell is a vine the player can grab.
    pub open spec fn spec_climbable(self) -> bool {
        match self {
            BackgroundCell::Std(c) => c.climbable,
            BackgroundCell::BaseTree(_) => true,
            _ => false,
        }
    }

    /// The cell is a stair.
    pub open spec fn spec_stair(self) -> bool {
        match self {
            BackgroundCell::Std(c) => c.stair,
            BackgroundCell::Kill2(c) => c.inner.stair,
            BackgroundCell::KillLava(c) => c.inner.stair,
            BackgroundCell::KillWater(c) => c.inner.stair,
            BackgroundCell::Spike(c) => c.inner.stair,
            _ => false,
        }
    }

    /// The cell stops a body moving vertically with speed `yd` (positive is
    /// falling): a fake roof stops only falling bodies, a fake floor only
    /// rising ones, every other cell exactly when it is not passable.
    pub open spec fn spec_blocks_vertical(self, yd: int) -> bool {
        match self {
            BackgroundCell::Froof(_) => yd > 0,
            BackgroundCell::FFloor(_) => yd < 0,
            _ => !self.spec_passthrough(),
        }
    }

    /// The death a player touching the cell suffers, if any.
    pub open spec fn spec_touch_kill(self) -> Option<DeathKind> {
        match self {
            BackgroundCell::Kill2(_) => Some(DeathKind::OtherBackground),
            BackgroundCell::KillLava(_) => Some(DeathKind::OtherBackground),
            BackgroundCell::Spike(_) => Some(DeathKind::OtherBackground),
            BackgroundCell::KillWater(_) => Some(DeathKind::Water),
            _ => None,
        }
    }

    /// The DMA map code the cell was built from: only standard cells report
    /// one; the special handlers report none.
    pub open spec fn spec_dma_map_code(self) -> Option<u16> {
        match self {
            BackgroundCell::Std(c) => c.map_code,
            _ => None,
        }
    }

    /// The standard cell every handler draws through.
    pub open spec fn spec_tile_cell(self) -> StdBackgroundEntity {
        match self {
            BackgroundCell::Std(c) => c,
            BackgroundCell::BaseTree(c) => c.inner,
            BackgroundCell::FFloor(c) => c.inner,
            BackgroundCell::Froof(c) => c.inner,
            BackgroundCell::Kill2(c) => c.inner,
            BackgroundCell::KillLava(c) => c.inner,
            BackgroundCell::KillWater(c) => c.inner,
            BackgroundCell::Spike(c) => c.inner,
        }
    }

    /// Every cell draws as its standard cell: its tile, clipped to `clip`.
    pub fn draw(&self, screen_x: i32, screen_y: i32, clip: Rect) -> (r: Option<RenderCommand>)
        ensures
            r == self.spec_tile_cell().spec_draw(screen_x, screen_y, clip),
    {
        match self {
            BackgroundCell::Std(c) => c.draw(screen_x, screen_y, clip),
            BackgroundCell::BaseTree(c) => c.inner.draw(screen_x, screen_y, clip),
            BackgroundCell::FFloor(c) => c.inner.draw(screen_x, screen_y, clip),
            BackgroundCell::Froof(c) => c.inner.draw(screen_x, screen_y, clip),
            BackgroundCell::Kill2(c) => c.inner.draw(screen_x, screen_y, clip),
            BackgroundCell::KillLava(c) => c.inner.draw(screen_x, screen_y, clip),
            BackgroundCell::KillWater(c) => c.inner.draw(screen_x, screen_y, clip),
            BackgroundCell::Spike(c) => c.inner.draw(screen_x, screen_y, clip),
        }
    }

    pub fn dma_map_code(&self) -> (r: Option<u16>)
        ensures
            r == self.spec_dma_map_code(),
    {
        match self {
            BackgroundCell::Std(c) => c.map_code,
            _ => None,
        }
    }

    pub fn is_passthrough(&self) -> (r: bool)
        ensures
            r == self.spec_passthrough(),
    {
        match self {
            BackgroundCell::Std(c) => c.passthrough,
            BackgroundCell::BaseTree(_) => true,
            BackgroundCell::FFloor(_) => true,
            BackgroundCell::Froof(_) => true,
            BackgroundCell::Kill2(c) => c.inner.passthrough,
            BackgroundCell::KillLava(c) => c.inner.passthrough,
            BackgroundCell::KillWater(c) => c.inner.passthrough,
            BackgroundCell::Spike(c) => c.inner.passthrough,
        }
    }

    pub fn is_climbable(&self) -> (r: bool)
        ensures
            r == self.spec_climbable(),
    {
        match self {
            BackgroundCell::Std(c) => c.climbable,
            BackgroundCell::BaseTree(_) => true,
            _ => false,
        }
    }

    pub fn is_stair(&self) -> (r: bool)
        ensures
            r == self.spec_stair(),
    {
        match self {
            BackgroundCell::Std(c) => c.stair,
            BackgroundCell::Kill2(c) => c.inner.stair,
            BackgroundCell::KillLava(c) => c.inner.stair,
            BackgroundCell::KillWater(c) => c.inner.stair,
            BackgroundCell::Spike(c) => c.inner.stair,
            _ => false,
        }
    }

    pub fn blocks_vertical(&self, yd: i32) -> (r: bool)
        ensures
            r == self.spec_blocks_vertical(yd as int),
    {
        match self {
            BackgroundCell::Froof(_) => yd > 0,
            BackgroundCell::FFloor(_) => yd < 0,
            _ => !self.is_passthrough(),
        }
    }

    /// What touching the cell does to the player: the death it arms, if any.
    pub fn on_player_touch(&self) -> (r: Option<DeathKind>)
        ensures
            r == self.spec_touch_kill(),
    {
        match self {
            BackgroundCell::Kill2(_) => Some(DeathKind::OtherBackground),
            BackgroundCell::KillLava(_) => Some(DeathKind::OtherBackground),
            BackgroundCell::Spike(_) => Some(DeathKind::OtherBackground),
            BackgroundCell::KillWater(_) => Some(DeathKind::Water),
            _ => None,
        }
    }
}

// ---------------------------------------------------------------------------
// Name classification
// ---------------------------------------------------------------------------

/// Lava DMA names: `LAVA1` through `LAVA5`.
pub open spec fn spec_is_lava_name(name: Seq<char>) -> bool {
    &&& name.len() == 5
    &&& name[0] == 'L' && name[1] == 'A' && name[2] == 'V' && name[3] == 'A'
    &&& '1' <= name[4] <= '5'
}

/// Killing-water DMA names: `WATER` followed by one of the orientation tags
/// `TL`, `TR`, `RD`, `LD`, `ML`, `MR`, optionally followed by one animation
/// digit `2`, `3` or `4`.
pub open spec fn spec_is_water_name(name: Seq<char>) -> bool {
    &&& (name.len() == 7 || name.len() == 8)
    &&& name[0] == 'W' && name[1] == 'A' && name[2] == 'T' && name[3] == 'E' && name[4] == 'R'
    &&& is_water_tag(name[5], name[6])
    &&& name.len() == 8 ==> (name[7] == '2' || name[7] == '3' || name[7] == '4')
}

/// The two-letter water orientation tags.
pub open spec fn is_water_tag(a: char, b: char) -> bool {
    ||| a == 'T' && b == 'L'
    ||| a == 'T' && b == 'R'
    ||| a == 'R' && b == 'D'
    ||| a == 'L' && b == 'D'
    ||| a == 'M' && b == 'L'
    ||| a == 'M' && b == 'R'
}

/// `true` when `name` is one of the lava DMA names (`LAVA1`-`LAVA5`).
pub fn is_lava_name(name: &str) -> (r: bool)
    ensures
        r == spec_is_lava_name(name@),
{
    let n = name.unicode_len();
    if n != 5 {
        return false;
    }
    let d = name.get_char(4);
    name.get_char(0) == 'L' && name.get_char(1) == 'A' && name.get_char(2) == 'V'
        && name.get_char(3) == 'A' && '1' <= d && d <= '5'
}

/// `true` when `name` is one of the killing-water DMA names.
pub fn is_water_name(name: &str) -> (r: bool)
    ensures
        r == spec_is_water_name(name@),
{
    let n = name.unicode_len();
    if n != 7 && n != 8 {
        return false;
    }
    if !(name.get_char(0) == 'W' && name.get_char(1) == 'A' && name.get_char(2) == 'T'
        && name.get_char(3) == 'E' && name.get_char(4) == 'R') {
        return false;
    }
    let a = name.get_char(5);
    let b = name.get_char(6);
    let tag = (a == 'T' && b == 'L') || (a == 'T' && b == 'R') || (a == 'R' && b == 'D') || (a
        == 'L' && b == 'D') || (a == 'M' && b == 'L') || (a == 'M' && b == 'R');
    if !tag {
        return false;
    }
    if n == 8 {
        let c = name.get_char(7);
        c == '2' || c == '3' || c == '4'
    } else {
        true
    }
}

/// `name` equals the literal characters `lit`.
fn name_is(name: &str, lit: &str) -> (r: bool)
    ensures
        r == (name@ == lit@),
{
    let n = name.unicode_len();
    let m = lit.unicode_len();
    if n != m {
        return false;
    }
    let mut i: usize = 0;
    while i < n
        invariant
            n == name@.len(),
            m == lit@.len(),
            n == m,
            0 <= i <= n,
            forall|j: int| 0 <= j < i ==> name@[j] == lit@[j],
        decreases n - i,
    {
        if name.get_char(i) != lit.get_char(i) {
            return false;
        }
        i = i + 1;
    }
    assert(name@ =~= lit@);
    true
}

/// The kind of cell a DMA name selects.
pub open spec fn spec_cell_for_name(name: Seq<char>, entry: Option<DmaEntry>) -> BackgroundCell {
    let inner = StdBackgroundEntity::for_map_code_spec(entry);
    if name == "SPIKE"@ {
        BackgroundCell::Spike(SpikeBackground { inner })
    } else if name == "BASETREE"@ {
        BackgroundCell::BaseTree(BaseTreeBackground { inner })
    } else if name == "FFLOOR"@ {
        BackgroundCell::FFloor(FFloorBackground { inner })
    } else if name == "FROOF"@ {
        BackgroundCell::Froof(FroofBackground { inner })
    } else if name == "STALACBR"@ || name == "STALAGBR"@ || name == "WTHORN"@ || name
        == "WTHORN2"@ {
        BackgroundCell::Kill2(Kill2Background { inner })
    } else if spec_is_lava_name(name) {
        BackgroundCell::KillLava(KillLavaBackground { inner })
    } else if spec_is_water_name(name) {
        BackgroundCell::KillWater(KillWaterBackground { inner })
    } else {
        BackgroundCell::Std(inner)
    }
}

/// Builds the background cell for a DMA cell named `dma_name` whose map code
/// resolved to `entry` (`None` when the map code has no DMA entry).
pub fn make_background_entity(dma_name: &str, entry: Option<DmaEntry>) -> (r: BackgroundCell)
    ensures
        r == spec_cell_for_name(dma_name@, entry),
{
    if name_is(dma_name, "SPIKE") {
        BackgroundCell::Spike(SpikeBackground::for_map_code(entry))
    } else if name_is(dma_name, "BASETREE") {
        BackgroundCell::BaseTree(BaseTreeBackground::for_map_code(entry))
    } else if name_is(dma_name, "FFLOOR") {
        BackgroundCell::FFloor(FFloorBackground::for_map_code(entry))
    } else if name_is(dma_name, "FROOF") {
        BackgroundCell::Froof(FroofBackground::for_map_code(entry))
    } else if name_is(dma_name, "STALACBR") || name_is(dma_name, "STALAGBR") || name_is(
        dma_name,
        "WTHORN",
    ) || name_is(dma_name, "WTHORN2") {
        BackgroundCell::Kill2(Kill2Background::for_map_code(entry))
    } else if is_lava_name(dma_name) {
        BackgroundCell::KillLava(KillLavaBackground::for_map_code(entry))
    } else if is_water_name(dma_name) {
        BackgroundCell::KillWater(KillWaterBackground::for_map_code(entry))
    } else {
        BackgroundCell::Std(StdBackgroundEntity::for_map_code(entry))
    }
}

} // verus!
