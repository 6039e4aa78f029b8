//! Keyboard and mouse state: which keys are held, in the order in which
//! they were first pressed, whether the mouse steers the camera, and what
//! an event from the window does to both.

use vstd::prelude::*;
use indexmap::IndexMap;
use std::collections::hash_map::RandomState;
use crate::camera::Direction;

verus! {

/// The insertion-ordered map of another crate, opaque to the proofs.
#[verifier::external_type_specification]
#[verifier::external_body]
#[verifier::reject_recursive_types(K)]
#[verifier::reject_recursive_types(V)]
#[verifier::reject_recursive_types(S)]
pub struct ExIndexMap<K, V, S>(IndexMap<K, V, S>);

/// What a key map holds: its keys, each with whether it is held, in the
/// order in which the keys were first inserted.
pub uninterp spec fn key_entries(map: IndexMap<u32, bool, RandomState>) -> Seq<(u32, bool)>;

/// The code of the key that moves the camera to the left.
pub const KEY_A: u32 = 10;

/// The code of the key that moves the camera to the right.
pub const KEY_D: u32 = 13;

/// The code of the key that moves the camera up.
pub const KEY_E: u32 = 14;

/// The code of the key that moves the camera down.
pub const KEY_Q: u32 = 26;

/// The code of the key that moves the camera backward.
pub const KEY_S: u32 = 28;

/// The code of the key that moves the camera forward.
pub const KEY_W: u32 = 32;

/// Whether a key is among the entries.
pub open spec fn has_key(entries: Seq<(u32, bool)>, key: u32) -> bool {
    exists|i: int| 0 <= i < entries.len() && (#[trigger] entries[i]).0 == key
}

/// The entries after `key` was inserted with `pressed`: a key that is
/// there keeps its place and takes the new value, a key that is not comes
/// last.
pub open spec fn inserted(entries: Seq<(u32, bool)>, key: u32, pressed: bool) -> Seq<(u32, bool)> {
    if has_key(entries, key) {
        Seq::new(
            entries.len(),
            |i: int|
                if entries[i].0 == key {
                    (key, pressed)
                } else {
                    entries[i]
                },
        )
    } else {
        entries.push((key, pressed))
    }
}

/// `IndexMap::new`: a map without entries.
#[verifier::external_body]
fn new_key_map() -> (map: IndexMap<u32, bool, RandomState>)
    ensures
        key_entries(map) == Seq::<(u32, bool)>::empty(),
{
    IndexMap::new()
}

/// `IndexMap::insert`: a key that is in the map keeps its place in the
/// order and takes the new value; a key that is not is added last.
#[verifier::external_body]
fn insert_key(map: &mut IndexMap<u32, bool, RandomState>, key: u32, pressed: bool)
    ensures
        key_entries(*final(map)) == inserted(key_entries(*old(map)), key, pressed),
{
    map.insert(key, pressed);
}

/// `IndexMap::len`: the number of entries.
#[verifier::external_body]
fn key_count(map: &IndexMap<u32, bool, RandomState>) -> (n: usize)
    ensures
        n == key_entries(*map).len(),
{
    map.len()
}

/// `IndexMap::get_index`: the entry at a position in the order, if the map
/// has that many entries.
#[verifier::external_body]
fn key_at(map: &IndexMap<u32, bool, RandomState>, index: usize) -> (entry: Option<(u32, bool)>)
    ensures
        index < key_entries(*map).len() ==> entry == Some(key_entries(*map)[index as int]),
        index >= key_entries(*map).len() ==> entry is None,
{
    match map.get_index(index) {
        Some((key, pressed)) => Some((*key, *pressed)),
        None => None,
    }
}

/// The direction in which a key moves the camera, if it moves it at all.
pub open spec fn direction_of(key: u32) -> Option<Direction> {
    if key == KEY_W {
        Some(Direction::Forward)
    } else if key == KEY_S {
        Some(Direction::Backward)
    } else if key == KEY_A {
        Some(Direction::Left)
    } else if key == KEY_D {
        Some(Direction::Right)
    } else if key == KEY_Q {
        Some(Direction::Down)
    } else if key == KEY_E {
        Some(Direction::Up)
    } else {
        None
    }
}

/// Maps a key to the direction in which it moves the camera.
pub fn key_direction(key: u32) -> (direction: Option<Direction>)
    ensures
        direction == direction_of(key),
{
    if key == KEY_W {
        Some(Direction::Forward)
    } else if key == KEY_S {
        Some(Direction::Backward)
    } else if key == KEY_A {
        Some(Direction::Left)
    } else if key == KEY_D {
        Some(Direction::Right)
    } else if key == KEY_Q {
        Some(Direction::Down)
    } else if key == KEY_E {
        Some(Direction::Up)
    } else {
        None
    }
}

/// The moves that the first `n` entries ask for: one for every key that is
/// held and moves the camera, in the order of the entries.
pub open spec fn moves_of(entries: Seq<(u32, bool)>, n: int) -> Seq<Direction>
    decreases n,
{
    if n <= 0 {
        Seq::empty()
    } else {
        let entry = entries[n - 1];
        let before = moves_of(entries, n - 1);
        if entry.1 && direction_of(entry.0) is Some {
            before.push(direction_of(entry.0)->0)
        } else {
            before
        }
    }
}

/// What the window reports.
#[derive(Clone, Copy, Debug, PartialEq, Eq, Structural)]
pub enum InputEvent {
    /// A mouse button went down or up.
    MouseButton { right: bool, pressed: bool },
    /// The mouse moved.
    MouseMotion,
    /// A key went down or up; some keys have no code.
    Key { keycode: Option<u32>, pressed: bool },
    /// Anything else.
    Other,
}

/// What the caller is to do after an event.
#[derive(Clone, Copy, Debug, PartialEq, Eq, Structural)]
pub enum InputAction {
    /// Nothing.
    Ignore,
    /// Turn the camera by what the mouse moved.
    TurnCamera,
}

/// The state of keyboard and mouse. The speed is the bit pattern of a
/// single-precision number.
pub struct Input {
    pub command: String,
    pub move_speed: u32,
    pub in_control: bool,
    pub pressed_keys: IndexMap<u32, bool, RandomState>,
}

impl Input {
    /// The keys seen so far, each with whether it is held, in the order in
    /// which they were first seen.
    pub open spec fn keys(&self) -> Seq<(u32, bool)> {
        key_entries(self.pressed_keys)
    }

    /// The state before any event: no key seen, the mouse not in control,
    /// an empty command line.
    pub fn new(move_speed: u32) -> (input: Input)
        ensures
            input.keys() == Seq::<(u32, bool)>::empty(),
            !input.in_control,
            input.move_speed == move_speed,
            input.command@ == Seq::<char>::empty(),
    {
        Input {
            command: String::new(),
            move_speed,
            in_control: false,
            pressed_keys: new_key_map(),
        }
    }

    /// Notes that a key went down or up. A key without a code is ignored.
    pub fn process_key(&mut self, keycode: Option<u32>, pressed: bool)
        ensures
            final(self).in_control == old(self).in_control,
            final(self).move_speed == old(self).move_speed,
            final(self).command == old(self).command,
            final(self).keys() == match keycode {
                Some(key) => inserted(old(self).keys(), key, pressed),
                None => old(self).keys(),
            },
    {
        if let Some(key) = keycode {
            insert_key(&mut self.pressed_keys, key, pressed);
        }
    }

    /// The moves of the camera that the keys held ask for, in the order in
    /// which the keys were first pressed.
    pub fn process_move(&self) -> (moves: Vec<Direction>)
        ensures
            moves@ == moves_of(self.keys(), self.keys().len() as int),
    {
        let n: usize = key_count(&self.pressed_keys);
        let mut moves: Vec<Direction> = Vec::new();
        let mut i: usize = 0;
        while i < n
            invariant
                n == self.keys().len(),
                i <= n,
                moves@ == moves_of(self.keys(), i as int),
            decreases n - i,
        {
            if let Some((key, pressed)) = key_at(&self.pressed_keys, i) {
                if pressed {
                    if let Some(direction) = key_direction(key) {
                        moves.push(direction);
                    }
                }
            }
            i += 1;
        }
        moves
    }

    /// What an event does to the state, and what it asks of the caller.
    ///
    /// The right mouse button takes control while it is held. While the
    /// mouse is in control, its motion turns the camera and keys are noted;
    /// otherwise both are ignored. Nothing else changes anything.
    pub fn handle_event(&mut self, event: InputEvent) -> (action: InputAction)
        ensures
            final(self).move_speed == old(self).move_speed,
            final(self).command == old(self).command,
            final(self).in_control == match event {
                InputEvent::MouseButton { right: true, pressed } => pressed,
                _ => old(self).in_control,
            },
            final(self).keys() == match event {
                InputEvent::Key { keycode: Some(key), pressed } if old(self).in_control => inserted(
                    old(self).keys(),
                    key,
                    pressed,
                ),
                _ => old(self).keys(),
            },
            action == match event {
                InputEvent::MouseMotion if old(self).in_control => InputAction::TurnCamera,
                _ => InputAction::Ignore,
            },
    {
        match event {
            InputEvent::MouseButton { right, pressed } => {
                if right {
                    self.in_control = pressed;
                }
                InputAction::Ignore
            },
            InputEvent::MouseMotion => {
                if self.in_control {
                    InputAction::TurnCamera
                } else {
                    InputAction::Ignore
                }
            },
            InputEvent::Key { keycode, pressed } => {
                if self.in_control {
                    self.process_key(keycode, pressed);
                }
                InputAction::Ignore
            },
            InputEvent::Other => InputAction::Ignore,
        }
    }
}

} // verus!
