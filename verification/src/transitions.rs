//! The session's bookkeeping across screen transitions: which map and level
//! bytes are kept in memory, when a transition can rebuild a screen from them
//! instead of reading the disk, and when the game is quitting. Building the
//! screens and reading files is the caller's work; this module decides.

use vstd::prelude::*;

use crate::checkpoint::MAP_LEVEL;
use crate::objects::{eq_ignore_ascii_case, str_eq_ignore_ascii_case};
use crate::session::{copy_state, decode_inventory, runtime_state_from, SaveError};
use crate::world::RuntimeState;

verus! {

/// A screen change requested by the active screen.
#[derive(Clone, Debug, PartialEq, Eq)]
pub enum ScreenTransition {
    StartMenu,
    Story,
    Credits,
    OrderingInfo,
    Noisemaker,
    Quit,
    /// Save the running game into a slot under a name; play goes on.
    PerformSave { slot: usize, name: String },
    /// Replace the running game by the one saved in a slot.
    PerformLoad { slot: usize },
    /// Go to the world map.
    WorldMap,
    /// Enter the level stored in `file`, numbered `number`.
    Level { file: String, number: i32 },
    /// Start the current level again after a death.
    RestartLevel,
}

/// What a screen is built with: its JN file (if it has one), its level
/// number (the map's for the world map), where Escape or Quit lead, the score
/// and gems carried in, and the map and level bytes kept for saving and
/// restarting.
#[derive(Clone, Debug)]
pub struct LevelConfig {
    pub jn_file: Option<String>,
    pub level_number: i32,
    pub start_screen: ScreenTransition,
    pub carry_score: i32,
    pub carry_gems: i32,
    pub map_jn_bytes: Option<Vec<u8>>,
    pub level_jn_bytes: Option<Vec<u8>>,
}

/// What the caller does to carry out a transition.
#[derive(Clone, Debug, PartialEq, Eq)]
pub enum TransitionAction {
    StartMenu,
    Story,
    Credits,
    OrderingInfo,
    Noisemaker,
    /// Keep the active screen.
    Stay,
    Save { slot: usize, name: String },
    Load { slot: usize },
    /// Build the world map from the bytes kept from the last visit.
    MapFromMemory(Vec<u8>),
    /// Read the world map from the data directory.
    MapFromDisk,
    /// Build the level from the bytes kept for it.
    LevelFromMemory { bytes: Vec<u8>, file: String, number: i32 },
    /// Read the level from the data directory.
    LevelFromDisk { file: String, number: i32 },
    /// Rebuild the current level from its kept bytes.
    RestartFromMemory { bytes: Vec<u8>, number: i32 },
    /// No level bytes are kept: fall back to the start menu.
    RestartUnavailable,
}

/// Bytes of an optional buffer, as a sequence.
pub open spec fn bytes_of(o: Option<Vec<u8>>) -> Option<Seq<u8>> {
    match o {
        Some(v) => Some(v@),
        None => None,
    }
}

/// Characters of an optional name, as a sequence.
pub open spec fn text_of(o: Option<String>) -> Option<Seq<char>> {
    match o {
        Some(s) => Some(s@),
        None => None,
    }
}

/// What the session keeps between screens.
#[derive(Clone, Debug)]
pub struct SessionCache {
    /// The world map as last left (or last restored).
    pub map_bytes: Option<Vec<u8>>,
    /// The current level as last entered.
    pub level_bytes: Option<Vec<u8>>,
    /// The file the current level came from.
    pub level_file: Option<String>,
    /// The current level's number.
    pub level_number: Option<i32>,
    /// A quit was requested.
    pub quitting: bool,
    /// The runtime state the current level was entered (or restored) with,
    /// which a restart goes back to.
    pub level_entry: Option<RuntimeState>,
}

/// A copy of an optional buffer with the same bytes.
fn copy_bytes(o: &Option<Vec<u8>>) -> (r: Option<Vec<u8>>)
    ensures
        bytes_of(r) == bytes_of(*o),
{
    match o {
        Some(v) => {
            let c = v.clone();
            proof { assert(c@ =~= v@); }
            Some(c)
        },
        None => None,
    }
}

impl SessionCache {
    /// Nothing kept yet, not quitting.
    pub fn new() -> (r: SessionCache)
        ensures
            r.map_bytes is None,
            r.level_bytes is None,
            r.level_file is None,
            r.level_number is None,
            !r.quitting,
            r.level_entry is None,
    {
        SessionCache { map_bytes: None, level_bytes: None, level_file: None, level_number: None, quitting: false, level_entry: None }
    }

    /// The kept level bytes serve `file` when they exist and were read from
    /// a file of the same name, ignoring ASCII case.
    pub open spec fn serves_level(&self, file: Seq<char>) -> bool {
        &&& self.level_bytes is Some
        &&& self.level_file is Some
        &&& eq_ignore_ascii_case(self.level_file.unwrap()@, file)
    }

    /// The action a transition calls for, given what is kept (after the
    /// outgoing screen's bytes were taken in).
    pub open spec fn spec_action_matches(&self, t: ScreenTransition, a: TransitionAction) -> bool {
        match t {
            ScreenTransition::StartMenu => a is StartMenu,
            ScreenTransition::Story => a is Story,
            ScreenTransition::Credits => a is Credits,
            ScreenTransition::OrderingInfo => a is OrderingInfo,
            ScreenTransition::Noisemaker => a is Noisemaker,
            ScreenTransition::Quit => a is Stay,
            ScreenTransition::PerformSave { slot, name } => a matches TransitionAction::Save { slot: s, name: n }
                && s == slot && n@ == name@,
            ScreenTransition::PerformLoad { slot } => a == TransitionAction::Load { slot },
            ScreenTransition::WorldMap => match self.map_bytes {
                Some(m) => a matches TransitionAction::MapFromMemory(v) && v@ == m@,
                None => a is MapFromDisk,
            },
            ScreenTransition::Level { file, number } => if self.serves_level(file@) {
                a matches TransitionAction::LevelFromMemory { bytes, file: f, number: n }
                    && bytes@ == self.level_bytes.unwrap()@ && f@ == file@ && n == number
            } else {
                a matches TransitionAction::LevelFromDisk { file: f, number: n } && f@ == file@ && n == number
            },
            ScreenTransition::RestartLevel => match self.level_bytes {
                Some(l) => a matches TransitionAction::RestartFromMemory { bytes, number }
                    && bytes@ == l@ && number == (match self.level_number { Some(n) => n, None => 0 }),
                None => a is RestartUnavailable,
            },
        }
    }

    /// Applies a transition: first keeps the map and level bytes the
    /// outgoing screen hands over (a screen without them leaves the kept
    /// bytes alone), then says what to do. A quit only raises the flag; a
    /// world-map or level transition reuses the kept bytes when it can.
    pub fn apply_transition(
        &mut self,
        outgoing_map: Option<Vec<u8>>,
        outgoing_level: Option<Vec<u8>>,
        t: ScreenTransition,
    ) -> (a: TransitionAction)
        ensures
            bytes_of(final(self).map_bytes) == (if outgoing_map is Some {
                bytes_of(outgoing_map)
            } else {
                bytes_of(old(self).map_bytes)
            }),
            bytes_of(final(self).level_bytes) == (if outgoing_level is Some {
                bytes_of(outgoing_level)
            } else {
                bytes_of(old(self).level_bytes)
            }),
            text_of(final(self).level_file) == text_of(old(self).level_file),
            final(self).level_number == old(self).level_number,
            final(self).quitting == (old(self).quitting || t is Quit),
            final(self).level_entry == old(self).level_entry,
            final(self).spec_action_matches(t, a),
    {
        if outgoing_map.is_some() {
            self.map_bytes = outgoing_map;
        }
        if outgoing_level.is_some() {
            self.level_bytes = outgoing_level;
        }
        match t {
            ScreenTransition::StartMenu => TransitionAction::StartMenu,
            ScreenTransition::Story => TransitionAction::Story,
            ScreenTransition::Credits => TransitionAction::Credits,
            ScreenTransition::OrderingInfo => TransitionAction::OrderingInfo,
            ScreenTransition::Noisemaker => TransitionAction::Noisemaker,
            ScreenTransition::Quit => {
                self.quitting = true;
                TransitionAction::Stay
            },
            ScreenTransition::PerformSave { slot, name } => TransitionAction::Save { slot, name },
            ScreenTransition::PerformLoad { slot } => TransitionAction::Load { slot },
            ScreenTransition::WorldMap => match copy_bytes(&self.map_bytes) {
                Some(m) => TransitionAction::MapFromMemory(m),
                None => TransitionAction::MapFromDisk,
            },
            ScreenTransition::Level { file, number } => {
                let cached = match (&self.level_bytes, &self.level_file) {
                    (Some(bytes), Some(name)) => {
                        if str_eq_ignore_ascii_case(name.as_str(), file.as_str()) {
                            let v = bytes.clone();
                            proof { assert(v@ =~= bytes@); }
                            Some(v)
                        } else {
                            None
                        }
                    },
                    _ => None,
                };
                match cached {
                    Some(bytes) => TransitionAction::LevelFromMemory { bytes, file, number },
                    None => TransitionAction::LevelFromDisk { file, number },
                }
            },
            ScreenTransition::RestartLevel => match copy_bytes(&self.level_bytes) {
                Some(bytes) => {
                    let number = match self.level_number {
                        Some(n) => n,
                        None => 0,
                    };
                    TransitionAction::RestartFromMemory { bytes, number }
                },
                None => TransitionAction::RestartUnavailable,
            },
        }
    }

    /// A level screen was built for `file` numbered `number`: its bytes (if
    /// it has them), name and number become the kept level.
    pub fn enter_level(&mut self, bytes: Option<Vec<u8>>, file: String, number: i32)
        ensures
            bytes_of(final(self).level_bytes) == bytes_of(bytes),
            text_of(final(self).level_file) == Some(file@),
            final(self).level_number == Some(number),
            bytes_of(final(self).map_bytes) == bytes_of(old(self).map_bytes),
            final(self).quitting == old(self).quitting,
            final(self).level_entry == old(self).level_entry,
    {
        self.level_bytes = bytes;
        self.level_file = Some(file);
        self.level_number = Some(number);
    }

    /// A save made on the world map was restored: its map is kept and no
    /// level is current.
    pub fn restore_on_world_map(&mut self, map: Vec<u8>)
        ensures
            bytes_of(final(self).map_bytes) == Some(map@),
            final(self).level_bytes is None,
            final(self).level_file is None,
            final(self).level_number is None,
            final(self).quitting == old(self).quitting,
    {
        self.map_bytes = Some(map);
        self.level_bytes = None;
        self.level_file = None;
        self.level_number = None;
    }

    /// A save made in a level was restored: its map is kept and the rebuilt
    /// level becomes the current one.
    pub fn restore_in_level(&mut self, map: Vec<u8>, level: Option<Vec<u8>>, file: String, number: i32)
        ensures
            bytes_of(final(self).map_bytes) == Some(map@),
            bytes_of(final(self).level_bytes) == bytes_of(level),
            text_of(final(self).level_file) == Some(file@),
            final(self).level_number == Some(number),
            final(self).quitting == old(self).quitting,
    {
        self.map_bytes = Some(map);
        self.level_bytes = level;
        self.level_file = Some(file);
        self.level_number = Some(number);
    }
}


/// `a` carries the same level, health, score, lives and inventory as `b`.
pub open spec fn same_state(a: RuntimeState, b: RuntimeState) -> bool {
    &&& a.level == b.level
    &&& a.health == b.health
    &&& a.score == b.score
    &&& a.lives == b.lives
    &&& a.inventory@ == b.inventory@
}

/// What reading a save and rebuilding its screen gave: the map half, the
/// save block of the half the game resumes in (its level code, health,
/// score and inventory codes), and, for a level, the rebuilt level's bytes
/// and the episode's file for it.
#[derive(Clone, Debug)]
pub struct RestoredGame {
    pub map: Vec<u8>,
    pub saved_level: u16,
    pub health: u16,
    pub score: u32,
    pub inventory: Vec<u16>,
    pub level_bytes: Option<Vec<u8>>,
    pub level_file: String,
}

/// The runtime state a restore resumes with: the save block's level,
/// health, score and inventory, the lives kept from `current`.
pub open spec fn restored_state(s: RuntimeState, current: RuntimeState, g: RestoredGame) -> bool {
    &&& s.level == (g.saved_level as i16) as i32
    &&& s.health == g.health as i32
    &&& s.score == g.score as i32
    &&& s.lives == current.lives
    &&& s.inventory@ == decode_inventory(g.inventory@)
}

impl SessionCache {
    /// The current level was entered with `state`: a restart goes back to
    /// it.
    pub fn note_level_entry(&mut self, state: &RuntimeState)
        ensures
            final(self).level_entry matches Some(e) && same_state(e, *state),
            bytes_of(final(self).map_bytes) == bytes_of(old(self).map_bytes),
            bytes_of(final(self).level_bytes) == bytes_of(old(self).level_bytes),
            text_of(final(self).level_file) == text_of(old(self).level_file),
            final(self).level_number == old(self).level_number,
            final(self).quitting == old(self).quitting,
    {
        self.level_entry = Some(copy_state(state));
    }

    /// Commits a restore all at once. When reading the save or rebuilding
    /// its screen failed, nothing changes and the failure is returned.
    /// Otherwise the runtime state becomes the save's, the map half is kept,
    /// the saved level (none for a save made on the world map) becomes the
    /// current one, and the restored state is what a restart goes back to.
    pub fn commit_restore(&mut self, state: &mut RuntimeState, outcome: Result<RestoredGame, SaveError>) -> (r: Result<(), SaveError>)
        ensures
            outcome matches Err(e) ==> r == Err::<(), SaveError>(e) && *final(state) == *old(state) && *final(self) == *old(self),
            outcome matches Ok(g) ==> {
                &&& r is Ok
                &&& restored_state(*final(state), *old(state), g)
                &&& bytes_of(final(self).map_bytes) == Some(g.map@)
                &&& if (g.saved_level as i16) as i32 == MAP_LEVEL {
                    &&& final(self).level_bytes is None
                    &&& final(self).level_file is None
                    &&& final(self).level_number is None
                } else {
                    &&& bytes_of(final(self).level_bytes) == bytes_of(g.level_bytes)
                    &&& text_of(final(self).level_file) == Some(g.level_file@)
                    &&& final(self).level_number == Some((g.saved_level as i16) as i32)
                }
                &&& final(self).level_entry matches Some(e) && same_state(e, *final(state))
                &&& final(self).quitting == old(self).quitting
            },
    {
        match outcome {
            Err(e) => Err(e),
            Ok(g) => {
                let restored = runtime_state_from(state, g.saved_level, g.health, g.score, &g.inventory);
                let number = (g.saved_level as i16) as i32;
                self.map_bytes = Some(g.map);
                if number == MAP_LEVEL {
                    self.level_bytes = None;
                    self.level_file = None;
                    self.level_number = None;
                } else {
                    self.level_bytes = g.level_bytes;
                    self.level_file = Some(g.level_file);
                    self.level_number = Some(number);
                }
                self.level_entry = Some(copy_state(&restored));
                *state = restored;
                Ok(())
            },
        }
    }
}

} // verus!
