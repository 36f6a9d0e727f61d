use vstd::prelude::*;

use crate::buttons::PointerButton;

verus! {

/// Identifying information about a pointer.
///
/// The dispatch loop that feeds events into this crate decides which
/// pointing device is the primary one and records its verdict here.
#[derive(Clone, Copy, Debug)]
pub struct PointerInfo {
    /// Whether the event originated from the primary pointing device.
    pub is_primary: bool,
}

/// An event representing a [`PointerButton`] that was pressed or released.
#[derive(Clone, Copy, Debug)]
pub struct PointerButtonEvent {
    /// The button that changed state, if the device reported one.
    ///
    /// `None` marks a device-level transition with no identifiable button.
    pub button: Option<PointerButton>,
    /// Identity of the pointer.
    pub pointer: PointerInfo,
}

/// A pointer event, reduced to what per-frame button bookkeeping observes:
/// a down/up/other discriminant, the optional button of a transition, and
/// the identity of the pointer.
#[derive(Clone, Copy, Debug)]
pub enum PointerEvent {
    /// A button was pressed.
    Down(PointerButtonEvent),
    /// A button was released.
    Up(PointerButtonEvent),
    /// Any other pointer activity (movement, scrolling, gestures, ...).
    Other(PointerInfo),
}

impl PointerEvent {
    /// Whether this event is attributed to the primary pointer.
    pub open spec fn from_primary(&self) -> bool {
        match self {
            PointerEvent::Down(be) => be.pointer.is_primary,
            PointerEvent::Up(be) => be.pointer.is_primary,
            PointerEvent::Other(info) => info.is_primary,
        }
    }

    /// Returns `true` if this event is for the primary pointer.
    pub fn is_primary_pointer(&self) -> (r: bool)
        ensures
            r == self.from_primary(),
    {
        match self {
            PointerEvent::Down(be) => be.pointer.is_primary,
            PointerEvent::Up(be) => be.pointer.is_primary,
            PointerEvent::Other(info) => info.is_primary,
        }
    }
}

/// Whether `e` presses exactly the button `b`.
pub open spec fn down_event_for(e: PointerEvent, b: PointerButton) -> bool {
    match e {
        PointerEvent::Down(be) => be.button == Some(b),
        _ => false,
    }
}

/// Whether `e` releases exactly the button `b`.
pub open spec fn up_event_for(e: PointerEvent, b: PointerButton) -> bool {
    match e {
        PointerEvent::Up(be) => be.button == Some(b),
        _ => false,
    }
}

/// Whether the frame log `events` records a press of `b`.
pub open spec fn pressed_in(events: Seq<PointerEvent>, b: PointerButton) -> bool {
    exists|i: int| 0 <= i < events.len() && down_event_for(#[trigger] events[i], b)
}

/// Whether the frame log `events` records a release of `b`.
pub open spec fn released_in(events: Seq<PointerEvent>, b: PointerButton) -> bool {
    exists|i: int| 0 <= i < events.len() && up_event_for(#[trigger] events[i], b)
}

/// The frame log after one event is processed against `log`.
///
/// A primary event is appended in arrival order; a non-primary event is
/// dropped and never enters the log.
pub open spec fn log_after(log: Seq<PointerEvent>, e: PointerEvent) -> Seq<PointerEvent> {
    if e.from_primary() {
        log.push(e)
    } else {
        log
    }
}

/// The held-button set after one event is processed against `held`.
///
/// Non-primary events and transitions without an identifiable button
/// leave the set unchanged; a primary down inserts its button and a
/// primary up removes it.
pub open spec fn held_after(held: Set<PointerButton>, e: PointerEvent) -> Set<PointerButton> {
    if !e.from_primary() {
        held
    } else {
        match e {
            PointerEvent::Down(be) => match be.button {
                Some(b) => held.insert(b),
                None => held,
            },
            PointerEvent::Up(be) => match be.button {
                Some(b) => held.remove(b),
                None => held,
            },
            PointerEvent::Other(_) => held,
        }
    }
}

} // verus!
