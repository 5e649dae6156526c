//! The table that turns an identifier handed out at hotkey registration back
//! into the logical command slot it was registered for.

use vstd::prelude::*;

verus! {

/// The logical command slots that a global hotkey can be bound to.
#[derive(Debug, Clone, Copy, PartialEq, Eq, Structural)]
pub enum Slot {
    Close,
    MoveLeft,
    MoveRight,
    MoveUp,
    MoveDown,
}

/// Identifiers of the registered bindings, one optional entry per slot.
///
/// Only successful registrations are recorded, so an unbound slot has no
/// identifier and can never be decoded.
pub struct KeyLookup {
    close: Option<u32>,
    move_left: Option<u32>,
    move_right: Option<u32>,
    move_up: Option<u32>,
    move_down: Option<u32>,
}

impl KeyLookup {
    /// The identifier bound to `s`, if any.
    pub closed spec fn id_of(&self, s: Slot) -> Option<u32> {
        match s {
            Slot::Close => self.close,
            Slot::MoveLeft => self.move_left,
            Slot::MoveRight => self.move_right,
            Slot::MoveUp => self.move_up,
            Slot::MoveDown => self.move_down,
        }
    }

    /// Well-formedness: no identifier is bound to two slots.
    pub open spec fn wf(&self) -> bool {
        forall|a: Slot, b: Slot|
            #[trigger] self.id_of(a) is Some && #[trigger] self.id_of(b) == self.id_of(a) ==> a == b
    }

    /// The slot that `id` decodes to: the one it is bound to, if any.
    pub open spec fn slot_of(&self, id: u32) -> Option<Slot> {
        if exists|s: Slot| #[trigger] self.id_of(s) == Some(id) {
            Some(choose|s: Slot| #[trigger] self.id_of(s) == Some(id))
        } else {
            None
        }
    }

    /// A table with no slot bound.
    pub fn new() -> (r: KeyLookup)
        ensures
            r.wf(),
            forall|s: Slot| #[trigger] r.id_of(s) is None,
    {
        KeyLookup { close: None, move_left: None, move_right: None, move_up: None, move_down: None }
    }

    /// The identifier bound to `s`, if any.
    pub fn id_for(&self, s: Slot) -> (r: Option<u32>)
        ensures
            r == self.id_of(s),
    {
        match s {
            Slot::Close => self.close,
            Slot::MoveLeft => self.move_left,
            Slot::MoveRight => self.move_right,
            Slot::MoveUp => self.move_up,
            Slot::MoveDown => self.move_down,
        }
    }

    /// Records that `id` was registered for slot `s`.
    ///
    /// Refused, leaving the table unchanged, when `id` is already bound to
    /// another slot; otherwise `s` is bound to `id`, replacing any earlier
    /// identifier of `s`, and every other slot keeps its binding.
    pub fn bind(&mut self, s: Slot, id: u32) -> (ok: bool)
        requires
            old(self).wf(),
        ensures
            final(self).wf(),
            ok == !(exists|o: Slot| o != s && #[trigger] old(self).id_of(o) == Some(id)),
            ok ==> final(self).id_of(s) == Some(id),
            ok ==> forall|o: Slot| o != s ==> #[trigger] final(self).id_of(o) == old(self).id_of(o),
            !ok ==> *final(self) == *old(self),
    {
        let found = self.slot_for(id);
        if found.is_some() && found != Some(s) {
            return false;
        }
        let ghost prev = *self;
        match s {
            Slot::Close => self.close = Some(id),
            Slot::MoveLeft => self.move_left = Some(id),
            Slot::MoveRight => self.move_right = Some(id),
            Slot::MoveUp => self.move_up = Some(id),
            Slot::MoveDown => self.move_down = Some(id),
        }
        assert forall|o: Slot| o != s implies #[trigger] self.id_of(o) == prev.id_of(o) by {
            match s {
                Slot::Close => {},
                Slot::MoveLeft => {},
                Slot::MoveRight => {},
                Slot::MoveUp => {},
                Slot::MoveDown => {},
            }
        }
        assert forall|a: Slot, b: Slot|
            #[trigger] self.id_of(a) is Some && #[trigger] self.id_of(b) == self.id_of(a) implies a
            == b by {
            if a != s && b != s {
                assert(prev.id_of(a) is Some && prev.id_of(b) == prev.id_of(a));
            } else if a == s && b != s {
                assert(prev.id_of(b) == Some(id));
            } else if a != s && b == s {
                assert(prev.id_of(a) == Some(id));
            }
        }
        true
    }

    /// The slot that `id` was registered for, or `None` for an identifier
    /// that this table does not hold.
    pub fn slot_for(&self, id: u32) -> (r: Option<Slot>)
        requires
            self.wf(),
        ensures
            r == self.slot_of(id),
            r matches Some(s) ==> self.id_of(s) == Some(id),
            r is None <==> forall|s: Slot| #[trigger] self.id_of(s) != Some(id),
    {
        let r = if self.close == Some(id) {
            Some(Slot::Close)
        } else if self.move_left == Some(id) {
            Some(Slot::MoveLeft)
        } else if self.move_right == Some(id) {
            Some(Slot::MoveRight)
        } else if self.move_up == Some(id) {
            Some(Slot::MoveUp)
        } else if self.move_down == Some(id) {
            Some(Slot::MoveDown)
        } else {
            None
        };
        proof {
            if let Some(s) = r {
                lemma_unique_slot(self, s, id);
            } else {
                assert forall|s: Slot| #[trigger] self.id_of(s) != Some(id) by {
                    match s {
                        Slot::Close => {},
                        Slot::MoveLeft => {},
                        Slot::MoveRight => {},
                        Slot::MoveUp => {},
                        Slot::MoveDown => {},
                    }
                }
            }
        }
        r
    }
}

/// In a well-formed table, the slot an identifier is bound to is the one it
/// decodes to.
proof fn lemma_unique_slot(t: &KeyLookup, s: Slot, id: u32)
    requires
        t.wf(),
        t.id_of(s) == Some(id),
    ensures
        t.slot_of(id) == Some(s),
{
    let c = choose|c: Slot| #[trigger] t.id_of(c) == Some(id);
    assert(t.id_of(c) == Some(id));
    assert(t.id_of(c) is Some && t.id_of(s) == t.id_of(c));
}

/// Decoding inverts registration: every slot with a binding decodes back
/// from its identifier.
pub proof fn lemma_lookup_round_trip(t: &KeyLookup, s: Slot)
    requires
        t.wf(),
        t.id_of(s) is Some,
    ensures
        t.slot_of(t.id_of(s)->Some_0) == Some(s),
{
    lemma_unique_slot(t, s, t.id_of(s)->Some_0);
}

/// An identifier that no slot is bound to decodes to nothing.
pub proof fn lemma_foreign_id_unrecognized(t: &KeyLookup, id: u32)
    requires
        forall|s: Slot| #[trigger] t.id_of(s) != Some(id),
    ensures
        t.slot_of(id) is None,
{
}

} // verus!
