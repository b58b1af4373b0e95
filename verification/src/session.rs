//! Decisions of the game session around level changes, deaths, saving and
//! restoring: which runtime state a restored save or a restarted level
//! carries, which bytes make up a save, and when the cached level can be
//! reused. The screens and the file system are the caller's.

use vstd::prelude::*;

use crate::checkpoint::MAP_LEVEL;
use crate::objects::{eq_ignore_ascii_case, str_eq_ignore_ascii_case};
use crate::world::{item_for_index, InventoryObject, RuntimeState};

verus! {

/// The items a saved inventory names, in order, skipping unknown codes.
pub open spec fn decode_inventory(codes: Seq<u16>) -> Seq<InventoryObject>
    decreases codes.len(),
{
    if codes.len() == 0 {
        seq![]
    } else {
        let rest = decode_inventory(codes.drop_last());
        match item_for_index(codes.last() as int) {
            Some(it) => rest.push(it),
            None => rest,
        }
    }
}

/// Decodes a saved inventory.
pub fn decode_inventory_codes(codes: &Vec<u16>) -> (r: Vec<InventoryObject>)
    ensures
        r@ == decode_inventory(codes@),
{
    let mut r: Vec<InventoryObject> = Vec::new();
    let mut i: usize = 0;
    while i < codes.len()
        invariant
            0 <= i <= codes.len(),
            r@ == decode_inventory(codes@.subrange(0, i as int)),
        decreases codes.len() - i,
    {
        proof {
            assert(codes@.subrange(0, i + 1).drop_last() =~= codes@.subrange(0, i as int));
        }
        match InventoryObject::from_index(codes[i]) {
            Some(it) => r.push(it),
            None => {},
        }
        i = i + 1;
    }
    proof {
        assert(codes@.subrange(0, codes@.len() as int) =~= codes@);
    }
    r
}

/// Field-by-field copy of a runtime state.
pub fn copy_state(s: &RuntimeState) -> (r: RuntimeState)
    ensures
        r.level == s.level,
        r.health == s.health,
        r.score == s.score,
        r.lives == s.lives,
        r.inventory@ == s.inventory@,
{
    let inv = s.inventory.clone();
    proof {
        assert(inv@ =~= s.inventory@);
    }
    RuntimeState { level: s.level, health: s.health, score: s.score, lives: s.lives, inventory: inv }
}

/// The runtime state a restored save carries: the saved level (a 16-bit
/// signed value), health, score and inventory; the lives, which a save does
/// not hold, are kept from the current state.
pub fn runtime_state_from(current: &RuntimeState, level: u16, health: u16, score: u32, inventory: &Vec<u16>) -> (r: RuntimeState)
    ensures
        r.level == (level as i16) as i32,
        r.health == health as i32,
        r.score == score as i32,
        r.lives == current.lives,
        r.inventory@ == decode_inventory(inventory@),
{
    RuntimeState {
        level: (level as i16) as i32,
        health: health as i32,
        score: score as i32,
        lives: current.lives,
        inventory: decode_inventory_codes(inventory),
    }
}

/// The state after restarting a level: when the level's entry state is
/// known, a life is lost (not below the smallest count) and health and
/// inventory go back to what they were on entry, while the score stays;
/// without an entry state nothing changes.
pub fn restart_state(current: &RuntimeState, entry: &Option<RuntimeState>) -> (r: RuntimeState)
    ensures
        r.level == current.level,
        r.score == current.score,
        entry matches Some(e) ==> r.lives == (if current.lives == i32::MIN { i32::MIN } else { (current.lives - 1) as i32 })
            && r.health == e.health && r.inventory@ == e.inventory@,
        entry is None ==> r.lives == current.lives && r.health == current.health && r.inventory@ == current.inventory@,
{
    match entry {
        Some(e) => {
            let inv = e.inventory.clone();
            proof { assert(inv@ =~= e.inventory@); }
            RuntimeState {
                level: current.level,
                health: e.health,
                score: current.score,
                lives: if current.lives == i32::MIN { i32::MIN } else { current.lives - 1 },
                inventory: inv,
            }
        },
        None => copy_state(current),
    }
}

/// Why a save could not be made.
#[derive(Clone, Copy, Debug, PartialEq, Eq)]
pub enum SaveError {
    /// No game is in progress, or one half of the save is not known yet.
    NothingToSave,
    /// A saved snapshot could not be read back or its screen rebuilt.
    Unreadable,
}

/// The `(map, level)` halves of a save: the live snapshot of the active
/// screen fills the half it owns (the map when on the world map, else the
/// level) and the cached bytes fill the other. Without a live snapshot, or
/// without the cached other half, there is nothing to save.
pub fn save_halves(
    is_world_map: bool,
    live: Option<Vec<u8>>,
    cached_map: &Option<Vec<u8>>,
    cached_level: &Option<Vec<u8>>,
) -> (r: Result<(Vec<u8>, Vec<u8>), SaveError>)
    ensures
        r is Ok <==> (live is Some && (if is_world_map { cached_level is Some } else { cached_map is Some })),
        r matches Ok(p) ==> (if is_world_map {
            p.0@ == live.unwrap()@ && p.1@ == cached_level.unwrap()@
        } else {
            p.0@ == cached_map.unwrap()@ && p.1@ == live.unwrap()@
        }),
        r is Err ==> r == Err::<(Vec<u8>, Vec<u8>), SaveError>(SaveError::NothingToSave),
{
    let live = match live {
        Some(l) => l,
        None => return Err(SaveError::NothingToSave),
    };
    if is_world_map {
        match cached_level {
            Some(level) => {
                let lv = level.clone();
                proof { assert(lv@ =~= level@); }
                Ok((live, lv))
            },
            None => Err(SaveError::NothingToSave),
        }
    } else {
        match cached_map {
            Some(map) => {
                let mv = map.clone();
                proof { assert(mv@ =~= map@); }
                Ok((mv, live))
            },
            None => Err(SaveError::NothingToSave),
        }
    }
}

/// Where a restored save resumes.
#[derive(Clone, Copy, Debug, PartialEq, Eq)]
pub enum RestoreTarget {
    /// The world map.
    WorldMap,
    /// The level with this number.
    Level(i32),
}

/// A save resumes on the world map when its saved level number is the
/// map's, and in that level otherwise.
pub fn restore_target(saved_level: u16) -> (r: RestoreTarget)
    ensures
        r == (if (saved_level as i16) as i32 == MAP_LEVEL {
            RestoreTarget::WorldMap
        } else {
            RestoreTarget::Level((saved_level as i16) as i32)
        }),
{
    let n = (saved_level as i16) as i32;
    if n == MAP_LEVEL {
        RestoreTarget::WorldMap
    } else {
        RestoreTarget::Level(n)
    }
}

/// The cached level bytes, when they belong to `file` (names compared
/// ignoring ASCII case), so entering that level again reuses them.
pub fn cached_level_for(cached_bytes: &Option<Vec<u8>>, cached_file: &Option<String>, file: &str) -> (r: Option<Vec<u8>>)
    ensures
        r is Some <==> (cached_bytes is Some && cached_file is Some && eq_ignore_ascii_case(cached_file.unwrap()@, file@)),
        r matches Some(v) ==> v@ == cached_bytes.unwrap()@,
{
    match (cached_bytes, cached_file) {
        (Some(bytes), Some(name)) => {
            if str_eq_ignore_ascii_case(name.as_str(), file) {
                let v = bytes.clone();
                proof { assert(v@ =~= bytes@); }
                Some(v)
            } else {
                None
            }
        },
        _ => None,
    }
}

} // verus!
