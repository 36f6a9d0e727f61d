use vstd::prelude::*;

use crate::buttons::PointerButton;
use crate::buttons::PointerButtons;
use crate::events::PointerEvent;
use crate::events::down_event_for;
use crate::events::held_after;
use crate::events::log_after;
use crate::events::pressed_in;
use crate::events::released_in;
use crate::events::up_event_for;

verus! {

/// A stateful view of the primary pointer.
///
/// Feed every incoming pointer event to [`Self::process_pointer_event`]
/// during a frame, poll the queries, then call [`Self::clear_frame`] once
/// at the frame boundary.  The frame log is reset at each boundary; the
/// held-button set persists across frames.
#[derive(Clone, Debug)]
pub struct PrimaryPointerState {
    events: Vec<PointerEvent>,
    /// The buttons currently held down on the primary pointer.
    pub down: PointerButtons,
}

impl PrimaryPointerState {
    /// The events recorded since the last frame boundary, in arrival order.
    pub closed spec fn frame_log(&self) -> Seq<PointerEvent> {
        self.events@
    }

    /// The set of buttons currently held down on the primary pointer.
    pub closed spec fn held_buttons(&self) -> Set<PointerButton> {
        self.down@
    }

    /// Return `true` if the `button` was pressed within the last frame.
    ///
    /// This corresponds to having received a [`PointerEvent::Down`] event
    /// for that button on the primary pointing device.
    pub fn just_pressed(&self, button: PointerButton) -> (r: bool)
        ensures
            r == pressed_in(self.frame_log(), button),
    {
        let mut i: usize = 0;
        while i < self.events.len()
            invariant
                0 <= i <= self.events.len(),
                forall|j: int| 0 <= j < i ==> !down_event_for(#[trigger] self.events@[j], button),
            decreases self.events.len() - i,
        {
            let e = self.events[i];
            match e {
                PointerEvent::Down(be) => {
                    if let Some(b) = be.button {
                        if b == button {
                            proof {
                                assert(down_event_for(self.events@[i as int], button));
                            }
                            return true;
                        }
                    }
                }
                _ => {}
            }
            i = i + 1;
        }
        false
    }

    /// Return `true` if the `button` was released within the last frame.
    ///
    /// This corresponds to having received a [`PointerEvent::Up`] event
    /// for that button on the primary pointing device.
    pub fn just_released(&self, button: PointerButton) -> (r: bool)
        ensures
            r == released_in(self.frame_log(), button),
    {
        let mut i: usize = 0;
        while i < self.events.len()
            invariant
                0 <= i <= self.events.len(),
                forall|j: int| 0 <= j < i ==> !up_event_for(#[trigger] self.events@[j], button),
            decreases self.events.len() - i,
        {
            let e = self.events[i];
            match e {
                PointerEvent::Up(be) => {
                    if let Some(b) = be.button {
                        if b == button {
                            proof {
                                assert(up_event_for(self.events@[i as int], button));
                            }
                            return true;
                        }
                    }
                }
                _ => {}
            }
            i = i + 1;
        }
        false
    }

    /// Return `true` if the auxiliary button was pressed within the last frame.
    pub fn auxiliary_just_pressed(&self) -> (r: bool)
        ensures
            r == pressed_in(self.frame_log(), PointerButton::Auxiliary),
    {
        self.just_pressed(PointerButton::Auxiliary)
    }

    /// Return `true` if the auxiliary button was released within the last frame.
    pub fn auxiliary_just_released(&self) -> (r: bool)
        ensures
            r == released_in(self.frame_log(), PointerButton::Auxiliary),
    {
        self.just_released(PointerButton::Auxiliary)
    }

    /// Return `true` if the primary button was pressed within the last frame.
    pub fn primary_just_pressed(&self) -> (r: bool)
        ensures
            r == pressed_in(self.frame_log(), PointerButton::Primary),
    {
        self.just_pressed(PointerButton::Primary)
    }

    /// Return `true` if the primary button was released within the last frame.
    pub fn primary_just_released(&self) -> (r: bool)
        ensures
            r == released_in(self.frame_log(), PointerButton::Primary),
    {
        self.just_released(PointerButton::Primary)
    }

    /// Return `true` if the secondary button was pressed within the last frame.
    pub fn secondary_just_pressed(&self) -> (r: bool)
        ensures
            r == pressed_in(self.frame_log(), PointerButton::Secondary),
    {
        self.just_pressed(PointerButton::Secondary)
    }

    /// Return `true` if the secondary button was released within the last frame.
    pub fn secondary_just_released(&self) -> (r: bool)
        ensures
            r == released_in(self.frame_log(), PointerButton::Secondary),
    {
        self.just_released(PointerButton::Secondary)
    }

    /// Return `true` if any button is currently held down: that is, iff
    /// there exists a button `b` with `is_down(b)`.
    pub fn any_down(&self) -> (r: bool)
        ensures
            r == (exists|b: PointerButton| self.held_buttons().contains(b)),
            r == (self.held_buttons() != Set::<PointerButton>::empty()),
    {
        let r = !self.down.is_empty();
        proof {
            if self.down@ != Set::<PointerButton>::empty() {
                assert(!(self.down@ =~= Set::<PointerButton>::empty()));
            }
            if r {
                let b = choose|b: PointerButton| self.down@.contains(b);
                assert(self.held_buttons().contains(b));
            }
        }
        r
    }

    /// Return `true` if the `button` is currently held down.
    pub fn is_down(&self, button: PointerButton) -> (r: bool)
        ensures
            r == self.held_buttons().contains(button),
    {
        self.down.contains(button)
    }
}

impl PrimaryPointerState {
    /// Clear the per-frame state to prepare for a new frame.
    ///
    /// The frame log is emptied; the held-button set is untouched.
    pub fn clear_frame(&mut self)
        ensures
            final(self).frame_log() == Seq::<PointerEvent>::empty(),
            final(self).held_buttons() == old(self).held_buttons(),
    {
        self.events.clear();
        proof {
            assert(self.events@ =~= Seq::<PointerEvent>::empty());
        }
    }

    /// Process one incoming pointer event.
    ///
    /// Events from a non-primary device are discarded without any effect.
    /// A primary event is appended to the frame log; if it is a down or up
    /// transition carrying a concrete button, that button is inserted into
    /// or removed from the held set.
    pub fn process_pointer_event(&mut self, event: PointerEvent)
        ensures
            final(self).held_buttons() == held_after(old(self).held_buttons(), event),
            final(self).frame_log() == log_after(old(self).frame_log(), event),
    {
        if !event.is_primary_pointer() {
            return;
        }

        match &event {
            PointerEvent::Down(be) => {
                if let Some(b) = be.button {
                    self.down.insert(b);
                }
            }
            PointerEvent::Up(be) => {
                if let Some(b) = be.button {
                    self.down.remove(b);
                }
            }
            PointerEvent::Other(_) => {}
        }
        self.events.push(event);
    }
}

impl Default for PrimaryPointerState {
    /// An empty frame log and no held buttons.
    fn default() -> (r: Self)
        ensures
            r.frame_log() == Seq::<PointerEvent>::empty(),
            r.held_buttons() == Set::<PointerButton>::empty(),
    {
        let r = PrimaryPointerState { events: Vec::new(), down: PointerButtons::new() };
        proof {
            assert(r.frame_log() =~= Seq::<PointerEvent>::empty());
        }
        r
    }
}

} // verus!
