//! The default keyboard bindings and the held-key bookkeeping that turns
//! key presses and releases into the set of commands active in a tick.

use vstd::prelude::*;

use crate::world::{ActiveInput, InputCommand};

verus! {

/// The physical keys the game binds, plus any other key.
#[derive(Clone, Copy, Debug, PartialEq, Eq, Structural)]
pub enum Key {
    ArrowLeft,
    ArrowRight,
    ArrowUp,
    ArrowDown,
    Space,
    ShiftLeft,
    ShiftRight,
    AltLeft,
    AltRight,
    ControlLeft,
    ControlRight,
    Tab,
    Backspace,
    Escape,
    KeyQ,
    KeyN,
    KeyT,
    KeyS,
    KeyR,
    /// A key with no binding.
    Unbound,
}

/// The command a key is bound to: arrows move, look up and duck; Space and
/// both Shifts jump; both Alts and both Controls throw; Tab and Backspace
/// step through the inventory; Escape pauses; Q quits; N and T toggle noise
/// and turtle mode; S saves and R restores.
pub open spec fn key_command(k: Key) -> Option<InputCommand> {
    match k {
        Key::ArrowLeft => Some(InputCommand::MoveLeft),
        Key::ArrowRight => Some(InputCommand::MoveRight),
        Key::ArrowUp => Some(InputCommand::Up),
        Key::ArrowDown => Some(InputCommand::Duck),
        Key::Space => Some(InputCommand::Jump),
        Key::ShiftLeft => Some(InputCommand::Jump),
        Key::ShiftRight => Some(InputCommand::Jump),
        Key::AltLeft => Some(InputCommand::ThrowItem),
        Key::AltRight => Some(InputCommand::ThrowItem),
        Key::ControlLeft => Some(InputCommand::ThrowItem),
        Key::ControlRight => Some(InputCommand::ThrowItem),
        Key::Tab => Some(InputCommand::NextInventory),
        Key::Backspace => Some(InputCommand::PrevInventory),
        Key::Escape => Some(InputCommand::Pause),
        Key::KeyQ => Some(InputCommand::Quit),
        Key::KeyN => Some(InputCommand::ToggleNoise),
        Key::KeyT => Some(InputCommand::ToggleTurtle),
        Key::KeyS => Some(InputCommand::Save),
        Key::KeyR => Some(InputCommand::Restore),
        Key::Unbound => None,
    }
}

/// The command bound to `k`, if any.
pub fn map_key_to_input_command(k: Key) -> (r: Option<InputCommand>)
    ensures
        r == key_command(k),
{
    match k {
        Key::ArrowLeft => Some(InputCommand::MoveLeft),
        Key::ArrowRight => Some(InputCommand::MoveRight),
        Key::ArrowUp => Some(InputCommand::Up),
        Key::ArrowDown => Some(InputCommand::Duck),
        Key::Space => Some(InputCommand::Jump),
        Key::ShiftLeft => Some(InputCommand::Jump),
        Key::ShiftRight => Some(InputCommand::Jump),
        Key::AltLeft => Some(InputCommand::ThrowItem),
        Key::AltRight => Some(InputCommand::ThrowItem),
        Key::ControlLeft => Some(InputCommand::ThrowItem),
        Key::ControlRight => Some(InputCommand::ThrowItem),
        Key::Tab => Some(InputCommand::NextInventory),
        Key::Backspace => Some(InputCommand::PrevInventory),
        Key::Escape => Some(InputCommand::Pause),
        Key::KeyQ => Some(InputCommand::Quit),
        Key::KeyN => Some(InputCommand::ToggleNoise),
        Key::KeyT => Some(InputCommand::ToggleTurtle),
        Key::KeyS => Some(InputCommand::Save),
        Key::KeyR => Some(InputCommand::Restore),
        Key::Unbound => None,
    }
}

/// The commands active while the keys of `pressed` are held: those bound
/// to at least one of them.
pub open spec fn commands_of(pressed: Set<Key>) -> Set<InputCommand> {
    Set::new(|c: InputCommand| exists|k: Key| pressed.contains(k) && key_command(k) == Some(c))
}

/// The bound keys currently held.
#[derive(Clone, Debug)]
pub struct PressedKeys {
    keys: Vec<Key>,
}

impl PressedKeys {
    /// The held keys, as a set.
    pub closed spec fn held(&self) -> Set<Key> {
        self.keys@.to_set()
    }

    /// No key held.
    pub fn new() -> (r: PressedKeys)
        ensures
            r.held() == Set::<Key>::empty(),
    {
        let r = PressedKeys { keys: Vec::new() };
        assert(r.keys@.to_set() =~= Set::<Key>::empty());
        r
    }

    /// `true` when `k` is held.
    pub fn contains(&self, k: Key) -> (r: bool)
        ensures
            r == self.held().contains(k),
    {
        let mut i: usize = 0;
        while i < self.keys.len()
            invariant
                0 <= i <= self.keys.len(),
                forall|j: int| 0 <= j < i ==> self.keys@[j] != k,
            decreases self.keys.len() - i,
        {
            if self.keys[i] == k {
                assert(self.keys@.contains(k));
                return true;
            }
            i = i + 1;
        }
        proof {
            if self.keys@.contains(k) {
                let j = choose|j: int| 0 <= j < self.keys@.len() && self.keys@[j] == k;
                assert(self.keys@[j] != k);
            }
        }
        false
    }

    /// Releases every key (as when the window loses focus).
    pub fn clear(&mut self)
        ensures
            final(self).held() == Set::<Key>::empty(),
    {
        self.keys = Vec::new();
        assert(self.keys@.to_set() =~= Set::<Key>::empty());
    }

    fn insert(&mut self, k: Key)
        ensures
            final(self).held() == old(self).held().insert(k),
    {
        let ghost before = self.keys@;
        self.keys.push(k);
        assert(self.keys@.to_set() =~= before.to_set().insert(k)) by {
            assert forall|c: Key| self.keys@.to_set().contains(c) <==> before.to_set().insert(k).contains(c) by {
                if c == k {
                    assert(self.keys@[before.len() as int] == c);
                } else if self.keys@.contains(c) {
                    let i = choose|i: int| 0 <= i < self.keys@.len() && self.keys@[i] == c;
                    assert(before[i] == c);
                } else if before.contains(c) {
                    let i = choose|i: int| 0 <= i < before.len() && before[i] == c;
                    assert(self.keys@[i] == c);
                }
            }
        }
    }

    fn remove(&mut self, k: Key)
        ensures
            final(self).held() == old(self).held().remove(k),
    {
        let mut kept: Vec<Key> = Vec::new();
        let mut i: usize = 0;
        while i < self.keys.len()
            invariant
                0 <= i <= self.keys.len(),
                forall|c: Key| kept@.contains(c) <==> (c != k && exists|j: int| 0 <= j < i && self.keys@[j] == c),
            decreases self.keys.len() - i,
        {
            let c = self.keys[i];
            if c != k {
                let ghost before = kept@;
                kept.push(c);
                proof {
                    assert forall|d: Key| kept@.contains(d) <==> (d != k && exists|j: int| 0 <= j < i + 1 && self.keys@[j] == d) by {
                        if d == c {
                            assert(kept@[before.len() as int] == d);
                            assert(self.keys@[i as int] == d);
                        } else {
                            if kept@.contains(d) {
                                let m = choose|m: int| 0 <= m < kept@.len() && kept@[m] == d;
                                assert(before[m] == d);
                                assert(before.contains(d));
                            }
                            if d != k && exists|j: int| 0 <= j < i + 1 && self.keys@[j] == d {
                                let j = choose|j: int| 0 <= j < i + 1 && self.keys@[j] == d;
                                assert(j < i);
                                assert(before.contains(d));
                                let m = choose|m: int| 0 <= m < before.len() && before[m] == d;
                                assert(kept@[m] == d);
                            }
                        }
                    }
                }
            } else {
                proof {
                    assert forall|d: Key| kept@.contains(d) <==> (d != k && exists|j: int| 0 <= j < i + 1 && self.keys@[j] == d) by {
                        if d != k && exists|j: int| 0 <= j < i + 1 && self.keys@[j] == d {
                            let j = choose|j: int| 0 <= j < i + 1 && self.keys@[j] == d;
                            assert(j < i);
                        }
                    }
                }
            }
            i = i + 1;
        }
        proof {
            assert(kept@.to_set() =~= self.keys@.to_set().remove(k)) by {
                assert forall|d: Key| kept@.to_set().contains(d) <==> self.keys@.to_set().remove(k).contains(d) by {
                    if self.keys@.contains(d) {
                        let j = choose|j: int| 0 <= j < self.keys@.len() && self.keys@[j] == d;
                    }
                }
            }
        }
        self.keys = kept;
    }

    /// Applies one key press (`down`) or release: bound keys are added or
    /// removed; unbound keys leave the set unchanged.
    pub fn update(&mut self, k: Key, down: bool)
        ensures
            key_command(k) is None ==> final(self).held() == old(self).held(),
            key_command(k) is Some && down ==> final(self).held() == old(self).held().insert(k),
            key_command(k) is Some && !down ==> final(self).held() == old(self).held().remove(k),
    {
        if map_key_to_input_command(k).is_none() {
            return;
        }
        if down {
            if !self.contains(k) {
                self.insert(k);
            } else {
                assert(self.held().insert(k) =~= self.held());
            }
        } else {
            self.remove(k);
        }
    }

    /// The commands active this tick: each bound command of a held key,
    /// once.
    pub fn active_commands(&self) -> (r: ActiveInput)
        ensures
            r.held() == commands_of(self.held()),
    {
        let mut r = ActiveInput::new();
        let mut i: usize = 0;
        while i < self.keys.len()
            invariant
                0 <= i <= self.keys.len(),
                r.held() == Set::new(|c: InputCommand| exists|j: int| 0 <= j < i && key_command(self.keys@[j]) == Some(c)),
            decreases self.keys.len() - i,
        {
            let ghost before = r.held();
            match map_key_to_input_command(self.keys[i]) {
                Some(c) => {
                    r.insert(c);
                    proof {
                        assert(r.held() =~= Set::new(|d: InputCommand| exists|j: int| 0 <= j < i + 1 && key_command(self.keys@[j]) == Some(d))) by {
                            assert forall|d: InputCommand| r.held().contains(d) <==> (exists|j: int| 0 <= j < i + 1 && key_command(self.keys@[j]) == Some(d)) by {
                                if d == c {
                                    assert(key_command(self.keys@[i as int]) == Some(d));
                                } else if exists|j: int| 0 <= j < i + 1 && key_command(self.keys@[j]) == Some(d) {
                                    let j = choose|j: int| 0 <= j < i + 1 && key_command(self.keys@[j]) == Some(d);
                                    assert(j < i);
                                }
                            }
                        }
                    }
                },
                None => {
                    proof {
                        assert(r.held() =~= Set::new(|d: InputCommand| exists|j: int| 0 <= j < i + 1 && key_command(self.keys@[j]) == Some(d))) by {
                            assert forall|d: InputCommand| r.held().contains(d) <==> (exists|j: int| 0 <= j < i + 1 && key_command(self.keys@[j]) == Some(d)) by {
                                if exists|j: int| 0 <= j < i + 1 && key_command(self.keys@[j]) == Some(d) {
                                    let j = choose|j: int| 0 <= j < i + 1 && key_command(self.keys@[j]) == Some(d);
                                    assert(j < i);
                                }
                            }
                        }
                    }
                },
            }
            i = i + 1;
        }
        proof {
            assert(r.held() =~= commands_of(self.held())) by {
                assert forall|c: InputCommand| r.held().contains(c) <==> commands_of(self.held()).contains(c) by {
                    if r.held().contains(c) {
                        let j = choose|j: int| 0 <= j < self.keys@.len() && key_command(self.keys@[j]) == Some(c);
                        assert(self.keys@.to_set().contains(self.keys@[j]));
                    }
                    if commands_of(self.held()).contains(c) {
                        let k = choose|k: Key| self.held().contains(k) && key_command(k) == Some(c);
                        let j = choose|j: int| 0 <= j < self.keys@.len() && self.keys@[j] == k;
                    }
                }
            }
        }
        r
    }
}

/// A command stays active while any key bound to it is held: releasing one
/// of two held keys bound to the same command keeps the command.
pub proof fn lemma_command_survives_partial_release(held: Set<Key>, released: Key, other: Key)
    requires
        held.contains(other),
        other != released,
        key_command(other) is Some,
    ensures
        commands_of(held.remove(released)).contains(key_command(other).unwrap()),
{
    assert(held.remove(released).contains(other));
}

} // verus!
