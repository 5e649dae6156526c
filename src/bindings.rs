//! The fixed set of global key combinations, one per command slot, and the
//! hotkeys that carry them to the registry.

use vstd::prelude::*;
use global_hotkey::hotkey::{Code, HotKey, Modifiers};
use crate::lookup::Slot;

verus! {

/// The keys that the binding set uses.
#[derive(Debug, Clone, Copy, PartialEq, Eq, Structural)]
pub enum Key {
    End,
    ArrowLeft,
    ArrowRight,
    ArrowUp,
    ArrowDown,
}

/// A key, pressed alone or together with the function modifier.
#[derive(Debug, Clone, Copy, PartialEq, Eq, Structural)]
pub struct Combination {
    pub with_fn: bool,
    pub key: Key,
}

#[verifier::external_type_specification]
#[verifier::external_body]
pub struct ExHotKey(HotKey);

/// The identifier that the hotkey registry gives to a combination.
pub uninterp spec fn hotkey_id(c: Combination) -> u32;

/// The combination bound to each slot: End alone closes, the function
/// modifier with an arrow key moves.
pub open spec fn combination_of(s: Slot) -> Combination {
    match s {
        Slot::Close => Combination { with_fn: false, key: Key::End },
        Slot::MoveLeft => Combination { with_fn: true, key: Key::ArrowLeft },
        Slot::MoveRight => Combination { with_fn: true, key: Key::ArrowRight },
        Slot::MoveUp => Combination { with_fn: true, key: Key::ArrowUp },
        Slot::MoveDown => Combination { with_fn: true, key: Key::ArrowDown },
    }
}

/// The combination bound to `s`.
pub fn combination_for(s: Slot) -> (r: Combination)
    ensures
        r == combination_of(s),
{
    match s {
        Slot::Close => Combination { with_fn: false, key: Key::End },
        Slot::MoveLeft => Combination { with_fn: true, key: Key::ArrowLeft },
        Slot::MoveRight => Combination { with_fn: true, key: Key::ArrowRight },
        Slot::MoveUp => Combination { with_fn: true, key: Key::ArrowUp },
        Slot::MoveDown => Combination { with_fn: true, key: Key::ArrowDown },
    }
}

/// Relies on global_hotkey's `HotKey::new`, which builds the hotkey and
/// derives its `id` from the modifiers and the key alone.
#[verifier::external_body]
fn new_hotkey(c: Combination) -> (r: (HotKey, u32))
    ensures
        r.1 == hotkey_id(c),
{
    let mods = if c.with_fn { Some(Modifiers::FN) } else { None };
    let key = match c.key {
        Key::End => Code::End,
        Key::ArrowLeft => Code::ArrowLeft,
        Key::ArrowRight => Code::ArrowRight,
        Key::ArrowUp => Code::ArrowUp,
        Key::ArrowDown => Code::ArrowDown,
    };
    let h = HotKey::new(mods, key);
    (h, h.id)
}

/// The hotkey to register for `s`, with the identifier that its
/// notifications will carry.
pub fn hotkey_for(s: Slot) -> (r: (HotKey, u32))
    ensures
        r.1 == hotkey_id(combination_of(s)),
{
    new_hotkey(combination_for(s))
}

} // verus!
