//! Decision logic for a keyboard-driven overlay window: the fixed hotkey
//! binding set, the lookup table that decodes hotkey identifiers, the window state controller, the overlay style computation and the
//! notification bridge's loop decisions. The surrounding program performs the
//! native calls that the returned actions describe.

pub mod geometry;
pub mod lookup;
pub mod controller;
pub mod styling;
pub mod bridge;
pub mod bindings;
