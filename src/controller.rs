//! The overlay window's state machine: it decodes hotkey notifications,
//! tracks the window and its last known position, and decides which native
//! action the surrounding program performs next.

use vstd::prelude::*;
use crate::geometry::{can_shift, dx, dy, in_range, shift, shifted, MoveDirection, Position};
use crate::lookup::{KeyLookup, Slot};

verus! {

/// Whether a hotkey was pressed or released.
#[derive(Debug, Clone, Copy, PartialEq, Eq, Structural)]
pub enum Transition {
    Pressed,
    Released,
}

/// One global hotkey transition, as reported by the registry.
#[derive(Debug, Clone, Copy, PartialEq, Eq, Structural)]
pub struct Notification {
    pub id: u32,
    pub transition: Transition,
}

/// What a decoded hotkey asks for.
#[derive(Debug, Clone, Copy, PartialEq, Eq, Structural)]
pub enum Command {
    Close,
    Move(MoveDirection),
}

/// An input to the controller. `W` is the windowing framework's identifier
/// for a window.
#[derive(Debug)]
pub enum Event<W> {
    /// The window finished opening, at the reported position if known.
    Opened(W, Option<Position>),
    /// The native handle of the window, answering `Action::RequestNativeHandle`.
    NativeHandle(u64),
    /// A global hotkey transition.
    Hotkey(Notification),
    /// A move command issued directly.
    Move(MoveDirection),
    /// Any other message; it never changes the state.
    Other,
}

/// What the surrounding program is to do after an event.
#[derive(Debug)]
pub enum Action<W> {
    Nothing,
    /// Ask the framework for the window's native handle.
    RequestNativeHandle(W),
    /// Turn the window with this native handle into an overlay.
    ApplyOverlayStyle(u64),
    /// Move the window to this position.
    MoveTo(W, Position),
    /// Terminate the process.
    Exit,
}

/// The controller's state as a plain value.
pub struct OverlayView<W> {
    pub window: Option<W>,
    pub position: Option<Position>,
    pub styled: bool,
    pub closing: bool,
}

/// The overlay window controller, together with its hotkey table.
pub struct Overlay<W> {
    lookup: KeyLookup,
    window: Option<W>,
    position: Option<Position>,
    styled: bool,
    closing: bool,
}

impl<W> View for Overlay<W> {
    type V = OverlayView<W>;

    closed spec fn view(&self) -> OverlayView<W> {
        OverlayView {
            window: self.window,
            position: self.position,
            styled: self.styled,
            closing: self.closing,
        }
    }
}

/// The command bound to each slot.
pub open spec fn slot_command(s: Slot) -> Command {
    match s {
        Slot::Close => Command::Close,
        Slot::MoveLeft => Command::Move(MoveDirection::Left),
        Slot::MoveRight => Command::Move(MoveDirection::Right),
        Slot::MoveUp => Command::Move(MoveDirection::Up),
        Slot::MoveDown => Command::Move(MoveDirection::Down),
    }
}

/// The command that a notification carries: only presses of a bound
/// identifier carry one.
pub open spec fn decode(t: KeyLookup, n: Notification) -> Option<Command> {
    if n.transition == Transition::Pressed && t.slot_of(n.id) is Some {
        Some(slot_command(t.slot_of(n.id)->Some_0))
    } else {
        None
    }
}

/// Whether the window is known well enough to be moved.
pub open spec fn is_active<W>(v: OverlayView<W>) -> bool {
    v.window is Some && v.position is Some && !v.closing
}

/// One move in `d`: only an active window whose new position is
/// representable moves, and the position is recorded before the move is
/// requested.
pub open spec fn move_step<W>(v: OverlayView<W>, d: MoveDirection) -> (OverlayView<W>, Action<W>) {
    if is_active(v) && can_shift(v.position->Some_0, d) {
        let p = shift(v.position->Some_0, d);
        (OverlayView { position: Some(p), ..v }, Action::MoveTo(v.window->Some_0, p))
    } else {
        (v, Action::Nothing)
    }
}

/// The controller's transition on one event.
pub open spec fn step<W>(t: KeyLookup, v: OverlayView<W>, e: Event<W>) -> (OverlayView<W>, Action<W>) {
    if v.closing {
        (v, Action::Nothing)
    } else {
        match e {
            Event::Opened(w, p) => {
                if v.window is None {
                    (OverlayView { window: Some(w), position: p, ..v }, Action::RequestNativeHandle(w))
                } else {
                    (v, Action::Nothing)
                }
            },
            Event::NativeHandle(h) => {
                if v.window is Some && !v.styled {
                    (OverlayView { styled: true, ..v }, Action::ApplyOverlayStyle(h))
                } else {
                    (v, Action::Nothing)
                }
            },
            Event::Hotkey(n) => match decode(t, n) {
                Some(Command::Close) => (OverlayView { closing: true, ..v }, Action::Exit),
                Some(Command::Move(d)) => move_step(v, d),
                None => (v, Action::Nothing),
            },
            Event::Move(d) => move_step(v, d),
            Event::Other => (v, Action::Nothing),
        }
    }
}

/// The command bound to `s`.
pub fn command_of(s: Slot) -> (r: Command)
    ensures
        r == slot_command(s),
{
    match s {
        Slot::Close => Command::Close,
        Slot::MoveLeft => Command::Move(MoveDirection::Left),
        Slot::MoveRight => Command::Move(MoveDirection::Right),
        Slot::MoveUp => Command::Move(MoveDirection::Up),
        Slot::MoveDown => Command::Move(MoveDirection::Down),
    }
}

impl<W: Copy> Overlay<W> {
    /// The hotkey table the controller decodes with.
    pub closed spec fn table(&self) -> KeyLookup {
        self.lookup
    }

    /// Well-formedness: the hotkey table is well formed.
    pub closed spec fn wf(&self) -> bool {
        self.lookup.wf()
    }

    /// A controller for a window that has not opened yet, decoding hotkeys
    /// with `lookup`.
    pub fn new(lookup: KeyLookup) -> (r: Overlay<W>)
        requires
            lookup.wf(),
        ensures
            r.wf(),
            r.table() == lookup,
            r@.window is None,
            r@.position is None,
            !r@.styled,
            !r@.closing,
    {
        Overlay { lookup, window: None, position: None, styled: false, closing: false }
    }

    /// The window's last known position, if any.
    pub fn position(&self) -> (r: Option<Position>)
        ensures
            r == self@.position,
    {
        self.position
    }

    /// Whether the process is terminating.
    pub fn is_closing(&self) -> (r: bool)
        ensures
            r == self@.closing,
    {
        self.closing
    }

    /// The command carried by `n`, if any.
    pub fn decode(&self, n: Notification) -> (r: Option<Command>)
        requires
            self.wf(),
        ensures
            r == decode(self.table(), n),
    {
        if n.transition == Transition::Released {
            return None;
        }
        match self.lookup.slot_for(n.id) {
            Some(s) => Some(command_of(s)),
            None => None,
        }
    }

    /// Applies one move in `d`.
    fn apply_move(&mut self, d: MoveDirection) -> (r: Action<W>)
        requires
            !old(self).closing,
        ensures
            (final(self)@, r) == move_step(old(self)@, d),
            final(self).lookup == old(self).lookup,
    {
        match (self.window, self.position) {
            (Some(w), Some(p)) => match shifted(p, d) {
                Some(np) => {
                    self.position = Some(np);
                    Action::MoveTo(w, np)
                },
                None => Action::Nothing,
            },
            _ => Action::Nothing,
        }
    }

    /// Processes one event and returns the action it calls for.
    pub fn update(&mut self, e: Event<W>) -> (r: Action<W>)
        requires
            old(self).wf(),
        ensures
            final(self).wf(),
            final(self).table() == old(self).table(),
            (final(self)@, r) == step(old(self).table(), old(self)@, e),
    {
        if self.closing {
            return Action::Nothing;
        }
        match e {
            Event::Opened(w, p) => {
                if self.window.is_none() {
                    self.window = Some(w);
                    self.position = p;
                    Action::RequestNativeHandle(w)
                } else {
                    Action::Nothing
                }
            },
            Event::NativeHandle(h) => {
                if self.window.is_some() && !self.styled {
                    self.styled = true;
                    Action::ApplyOverlayStyle(h)
                } else {
                    Action::Nothing
                }
            },
            Event::Hotkey(n) => match self.decode(n) {
                Some(Command::Close) => {
                    self.closing = true;
                    Action::Exit
                },
                Some(Command::Move(d)) => self.apply_move(d),
                None => Action::Nothing,
            },
            Event::Move(d) => self.apply_move(d),
            Event::Other => Action::Nothing,
        }
    }
}

/// The state reached from `v` after the events `es`, in order.
pub open spec fn run<W>(t: KeyLookup, v: OverlayView<W>, es: Seq<Event<W>>) -> OverlayView<W>
    decreases es.len(),
{
    if es.len() == 0 {
        v
    } else {
        step(t, run(t, v, es.drop_last()), es.last()).0
    }
}

/// The move direction that `e` asks for, directly or through a hotkey.
pub open spec fn move_of<W>(t: KeyLookup, e: Event<W>) -> Option<MoveDirection> {
    match e {
        Event::Move(d) => Some(d),
        Event::Hotkey(n) => match decode(t, n) {
            Some(Command::Move(d)) => Some(d),
            _ => None,
        },
        _ => None,
    }
}

/// Whether `e` is a hotkey that closes the application.
pub open spec fn is_close<W>(t: KeyLookup, e: Event<W>) -> bool {
    match e {
        Event::Hotkey(n) => decode(t, n) == Some(Command::Close),
        _ => false,
    }
}

/// Horizontal distance asked for by the moves among `es`.
pub open spec fn total_dx<W>(t: KeyLookup, es: Seq<Event<W>>) -> int
    decreases es.len(),
{
    if es.len() == 0 {
        0
    } else {
        total_dx(t, es.drop_last()) + match move_of(t, es.last()) {
            Some(d) => dx(d),
            None => 0,
        }
    }
}

/// Vertical distance asked for by the moves among `es`.
pub open spec fn total_dy<W>(t: KeyLookup, es: Seq<Event<W>>) -> int
    decreases es.len(),
{
    if es.len() == 0 {
        0
    } else {
        total_dy(t, es.drop_last()) + match move_of(t, es.last()) {
            Some(d) => dy(d),
            None => 0,
        }
    }
}

/// Moves accumulate: from an active window, any sequence of events without
/// a close leaves the window where the sum of the moves' offsets takes it,
/// whatever other messages are interleaved, provided every intermediate
/// position is representable.
pub proof fn lemma_moves_accumulate<W>(t: KeyLookup, v: OverlayView<W>, es: Seq<Event<W>>)
    requires
        is_active(v),
        forall|i: int| 0 <= i < es.len() ==> !is_close(t, #[trigger] es[i]),
        forall|k: int|
            0 <= k <= es.len() ==> in_range(
                v.position->Some_0.x + total_dx(t, #[trigger] es.take(k)),
                v.position->Some_0.y + total_dy(t, es.take(k)),
            ),
    ensures
        is_active(run(t, v, es)),
        run(t, v, es).window == v.window,
        run(t, v, es).position == Some(
            Position {
                x: (v.position->Some_0.x + total_dx(t, es)) as i32,
                y: (v.position->Some_0.y + total_dy(t, es)) as i32,
            },
        ),
    decreases es.len(),
{
    if es.len() == 0 {
        assert(es.take(0) =~= es);
    } else {
        let n = es.len() - 1;
        let init = es.drop_last();
        assert forall|i: int| 0 <= i < init.len() implies !is_close(t, #[trigger] init[i]) by {
            assert(init[i] == es[i]);
        }
        assert forall|k: int| 0 <= k <= init.len() implies in_range(
            v.position->Some_0.x + total_dx(t, #[trigger] init.take(k)),
            v.position->Some_0.y + total_dy(t, init.take(k)),
        ) by {
            assert(init.take(k) =~= es.take(k));
        }
        lemma_moves_accumulate(t, v, init);
        assert(es.take(es.len() as int) =~= es);
        assert(!is_close(t, es[n]));
        assert(es.last() == es[n]);
    }
}

/// A move that arrives before the window's identifier and position are both
/// known changes nothing and asks for no native call.
pub proof fn lemma_early_move_is_noop<W>(t: KeyLookup, v: OverlayView<W>, e: Event<W>)
    requires
        v.window is None || v.position is None,
        move_of(t, e) is Some,
    ensures
        step(t, v, e) == (v, Action::<W>::Nothing),
{
}

/// A close hotkey terminates the process in every state that is not already
/// closing, whether or not the window is known.
pub proof fn lemma_close_always_exits<W>(t: KeyLookup, v: OverlayView<W>, e: Event<W>)
    requires
        !v.closing,
        is_close(t, e),
    ensures
        step(t, v, e).0.closing,
        step(t, v, e).1 == Action::<W>::Exit,
{
}

/// Overlay styling is requested at most once: after it has been requested,
/// no further native handle triggers it again.
pub proof fn lemma_style_applied_once<W>(t: KeyLookup, v: OverlayView<W>, h: u64)
    requires
        v.styled,
    ensures
        step(t, v, Event::NativeHandle(h)) == (v, Action::<W>::Nothing),
{
}

} // verus!
