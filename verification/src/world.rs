//! Plain-value vocabulary shared by every entity: rectangles, input
//! commands, inventory items, death kinds, runtime state and the messages an
//! entity hands back to the level loop.

use vstd::prelude::*;

verus! {

/// Axis-aligned rectangle in world pixels (top-left corner plus size).
#[derive(Clone, Copy, Debug, PartialEq, Eq, Structural)]
pub struct Rect {
    pub x: i32,
    pub y: i32,
    pub w: i32,
    pub h: i32,
}

impl Rect {
    /// Builds a rectangle from its corner and size.
    pub fn new(x: i32, y: i32, w: i32, h: i32) -> (r: Rect)
        ensures
            r == (Rect { x, y, w, h }),
    {
        Rect { x, y, w, h }
    }

    /// `true` when the two rectangles share at least one pixel.
    pub open spec fn spec_intersects(self, other: Rect) -> bool {
        &&& self.x < other.x + other.w
        &&& other.x < self.x + self.w
        &&& self.y < other.y + other.h
        &&& other.y < self.y + self.h
    }

    /// Overlap test between two rectangles.
    pub fn intersects(&self, other: &Rect) -> (r: bool)
        ensures
            r == self.spec_intersects(*other),
    {
        (self.x as i64) < (other.x as i64) + (other.w as i64) && (other.x as i64) < (self.x as i64)
            + (self.w as i64) && (self.y as i64) < (other.y as i64) + (other.h as i64) && (
        other.y as i64) < (self.y as i64) + (self.h as i64)
    }
}

/// A drawing request: blit `tile` of `tileset` at `(x, y)`, optionally
/// clipped to a rectangle.
#[derive(Clone, Copy, Debug, PartialEq, Eq, Structural)]
pub enum RenderCommand {
    Blit { tileset: u8, tile: u16, x: i32, y: i32, opaque: bool, clip: Option<Rect> },
}

/// How the player died; selects the die animation.
#[derive(Clone, Copy, Debug, PartialEq, Eq, Structural)]
pub enum DeathKind {
    /// Killed by an enemy contact.
    Enemy,
    /// Drowned in a water cell.
    Water,
    /// Killed by another hazardous background (lava, spikes, thorns).
    OtherBackground,
}

/// Logical input commands derived from the held keys.
#[derive(Clone, Copy, Debug, PartialEq, Eq, Structural)]
pub enum InputCommand {
    MoveLeft,
    MoveRight,
    Up,
    Jump,
    ThrowItem,
    Duck,
    NextInventory,
    PrevInventory,
    Pause,
    Quit,
    ToggleNoise,
    ToggleTurtle,
    Save,
    Restore,
}

/// The set of commands active during one tick.
#[derive(Clone, Debug)]
pub struct ActiveInput {
    commands: Vec<InputCommand>,
}

impl ActiveInput {
    /// The commands held this tick, as a set.
    pub closed spec fn held(&self) -> Set<InputCommand> {
        self.commands@.to_set()
    }

    /// An empty command set.
    pub fn new() -> (r: ActiveInput)
        ensures
            r.held() == Set::<InputCommand>::empty(),
    {
        let r = ActiveInput { commands: Vec::new() };
        assert(r.commands@.to_set() =~= Set::<InputCommand>::empty()) by {
            assert forall|c: InputCommand| !r.commands@.to_set().contains(c) by {}
        }
        r
    }

    /// Adds `command` to the set.
    pub fn insert(&mut self, command: InputCommand)
        ensures
            final(self).held() == old(self).held().insert(command),
    {
        let ghost before = self.commands@;
        self.commands.push(command);
        assert(self.commands@.to_set() =~= before.to_set().insert(command)) by {
            assert forall|c: InputCommand| self.commands@.to_set().contains(c)
                <==> before.to_set().insert(command).contains(c) by {
                if c == command {
                    assert(self.commands@[before.len() as int] == c);
                } else if self.commands@.contains(c) {
                    let i = choose|i: int| 0 <= i < self.commands@.len() && self.commands@[i] == c;
                    assert(before[i] == c);
                } else if before.contains(c) {
                    let i = choose|i: int| 0 <= i < before.len() && before[i] == c;
                    assert(self.commands@[i] == c);
                }
            }
        }
    }

    /// `true` when `command` is held this tick.
    pub fn contains(&self, command: &InputCommand) -> (r: bool)
        ensures
            r == self.held().contains(*command),
    {
        let mut i: usize = 0;
        while i < self.commands.len()
            invariant
                0 <= i <= self.commands.len(),
                forall|j: int| 0 <= j < i ==> self.commands@[j] != *command,
            decreases self.commands.len() - i,
        {
            if self.commands[i] == *command {
                assert(self.commands@.contains(*command));
                return true;
            }
            i = i + 1;
        }
        proof {
            if self.commands@.contains(*command) {
                let j = choose|j: int| 0 <= j < self.commands@.len() && self.commands@[j] == *command;
                assert(self.commands@[j] != *command);
            }
        }
        false
    }
}

/// Inventory items the player can carry, in the order of their save-file
/// index (`Jill` is index 0, `Invincibility` index 10). The red key is the
/// key that opens locked doors.
#[derive(Clone, Copy, Debug, PartialEq, Eq, Structural)]
pub enum InventoryObject {
    Jill,
    RedKey,
    Knife,
    Gem,
    Frog,
    Firebird,
    BagOfCoin,
    Fish,
    Blade,
    HighJump,
    Invincibility,
}

/// The item with save-file index `i`, if any.
pub open spec fn item_for_index(i: int) -> Option<InventoryObject> {
    if i == 0 {
        Some(InventoryObject::Jill)
    } else if i == 1 {
        Some(InventoryObject::RedKey)
    } else if i == 2 {
        Some(InventoryObject::Knife)
    } else if i == 3 {
        Some(InventoryObject::Gem)
    } else if i == 4 {
        Some(InventoryObject::Frog)
    } else if i == 5 {
        Some(InventoryObject::Firebird)
    } else if i == 6 {
        Some(InventoryObject::BagOfCoin)
    } else if i == 7 {
        Some(InventoryObject::Fish)
    } else if i == 8 {
        Some(InventoryObject::Blade)
    } else if i == 9 {
        Some(InventoryObject::HighJump)
    } else if i == 10 {
        Some(InventoryObject::Invincibility)
    } else {
        None
    }
}

impl InventoryObject {
    /// The item's save-file index.
    pub open spec fn spec_index(self) -> u16 {
        match self {
            InventoryObject::Jill => 0,
            InventoryObject::RedKey => 1,
            InventoryObject::Knife => 2,
            InventoryObject::Gem => 3,
            InventoryObject::Frog => 4,
            InventoryObject::Firebird => 5,
            InventoryObject::BagOfCoin => 6,
            InventoryObject::Fish => 7,
            InventoryObject::Blade => 8,
            InventoryObject::HighJump => 9,
            InventoryObject::Invincibility => 10,
        }
    }

    /// The item with save-file index `i`; `None` past the last item.
    pub fn from_index(i: u16) -> (r: Option<InventoryObject>)
        ensures
            r == item_for_index(i as int),
    {
        if i == 0 {
            Some(InventoryObject::Jill)
        } else if i == 1 {
            Some(InventoryObject::RedKey)
        } else if i == 2 {
            Some(InventoryObject::Knife)
        } else if i == 3 {
            Some(InventoryObject::Gem)
        } else if i == 4 {
            Some(InventoryObject::Frog)
        } else if i == 5 {
            Some(InventoryObject::Firebird)
        } else if i == 6 {
            Some(InventoryObject::BagOfCoin)
        } else if i == 7 {
            Some(InventoryObject::Fish)
        } else if i == 8 {
            Some(InventoryObject::Blade)
        } else if i == 9 {
            Some(InventoryObject::HighJump)
        } else if i == 10 {
            Some(InventoryObject::Invincibility)
        } else {
            None
        }
    }

    /// The item's save-file index.
    pub fn index(&self) -> (r: u16)
        ensures
            r == self.spec_index(),
    {
        match self {
            InventoryObject::Jill => 0,
            InventoryObject::RedKey => 1,
            InventoryObject::Knife => 2,
            InventoryObject::Gem => 3,
            InventoryObject::Frog => 4,
            InventoryObject::Firebird => 5,
            InventoryObject::BagOfCoin => 6,
            InventoryObject::Fish => 7,
            InventoryObject::Blade => 8,
            InventoryObject::HighJump => 9,
            InventoryObject::Invincibility => 10,
        }
    }
}

/// Index and item determine each other: decoding an item's index gives the
/// item back, and an index that decodes names an item with that index.
pub proof fn lemma_item_index_round_trip(item: InventoryObject, i: u16)
    ensures
        item_for_index(item.spec_index() as int) == Some(item),
        item_for_index(i as int) matches Some(it) ==> it.spec_index() == i,
        item_for_index(i as int) is Some <==> i <= 10,
{
}

/// Game state carried across entity updates (score, health, inventory).
#[derive(Clone, Debug)]
pub struct RuntimeState {
    pub level: i32,
    pub health: i32,
    pub score: i32,
    pub lives: i32,
    pub inventory: Vec<InventoryObject>,
}

impl RuntimeState {
    /// `true` when the inventory holds `item`.
    pub open spec fn spec_has(&self, item: InventoryObject) -> bool {
        self.inventory@.contains(item)
    }

    /// Inventory lookup.
    pub fn has(&self, item: InventoryObject) -> (r: bool)
        ensures
            r == self.spec_has(item),
    {
        let mut i: usize = 0;
        while i < self.inventory.len()
            invariant
                0 <= i <= self.inventory.len(),
                forall|j: int| 0 <= j < i ==> self.inventory@[j] != item,
            decreases self.inventory.len() - i,
        {
            if self.inventory[i] == item {
                assert(self.inventory@.contains(item));
                return true;
            }
            i = i + 1;
        }
        proof {
            if self.inventory@.contains(item) {
                let j = choose|j: int| 0 <= j < self.inventory@.len() && self.inventory@[j] == item;
                assert(self.inventory@[j] != item);
            }
        }
        false
    }
}

/// Kind of a message handed to the level loop.
#[derive(Clone, Copy, Debug, PartialEq, Eq, Structural)]
pub enum MessageType {
    CreateObject,
    InventoryItem,
    InventoryPoint,
    DieRestartLevel,
    Trigger,
    PlayerMove,
    CheckpointChangeLevel,
}

/// Request to spawn an object of `object_type` at a position with a
/// velocity.
#[derive(Clone, Copy, Debug, PartialEq, Eq, Structural)]
pub struct SpawnRequest {
    pub object_type: u8,
    pub x: i32,
    pub y: i32,
    pub xd: i32,
    pub yd: i32,
}

/// Payload of a message.
#[derive(Clone, Debug, PartialEq, Eq)]
pub enum MessagePayload {
    Empty,
    Count(i32),
    SpawnAt(SpawnRequest),
    /// Inventory change: `add` is `true` to add the item, `false` to remove it.
    InventoryItem { add: bool, item: InventoryObject },
    Move { dx: i32, dy: i32 },
    ChangeLevel { level_file: String, level_number: i32 },
}

/// One message: its kind and its payload.
#[derive(Clone, Debug)]
pub struct Message {
    pub msg_type: MessageType,
    pub payload: MessagePayload,
}

} // verus!
