use vstd::prelude::*;

use crate::buttons::PointerButton;
use crate::events::PointerEvent;
use crate::events::down_event_for;
use crate::events::held_after;
use crate::events::log_after;
use crate::events::pressed_in;
use crate::events::released_in;
use crate::events::up_event_for;

verus! {

/// Processing a primary-device down event for a button marks that button
/// held and records its press in the frame log.
pub proof fn lemma_primary_down_observed(
    log: Seq<PointerEvent>,
    held: Set<PointerButton>,
    e: PointerEvent,
    b: PointerButton,
)
    requires
        e.from_primary(),
        down_event_for(e, b),
    ensures
        held_after(held, e).contains(b),
        pressed_in(log_after(log, e), b),
{
    assert(log_after(log, e)[log.len() as int] == e);
}

/// Processing a primary-device up event for a button marks that button
/// no longer held and records its release in the frame log.
pub proof fn lemma_primary_up_observed(
    log: Seq<PointerEvent>,
    held: Set<PointerButton>,
    e: PointerEvent,
    b: PointerButton,
)
    requires
        e.from_primary(),
        up_event_for(e, b),
    ensures
        !held_after(held, e).contains(b),
        released_in(log_after(log, e), b),
{
    assert(log_after(log, e)[log.len() as int] == e);
}

/// A recorded press stays visible through any further processed event:
/// only `clear_frame` empties the log.
pub proof fn lemma_press_persists(log: Seq<PointerEvent>, e: PointerEvent, b: PointerButton)
    requires
        pressed_in(log, b),
    ensures
        pressed_in(log_after(log, e), b),
{
    let i = choose|i: int| 0 <= i < log.len() && down_event_for(#[trigger] log[i], b);
    assert(log_after(log, e)[i] == log[i]);
}

/// A recorded release stays visible through any further processed event:
/// only `clear_frame` empties the log.
pub proof fn lemma_release_persists(log: Seq<PointerEvent>, e: PointerEvent, b: PointerButton)
    requires
        released_in(log, b),
    ensures
        released_in(log_after(log, e), b),
{
    let i = choose|i: int| 0 <= i < log.len() && up_event_for(#[trigger] log[i], b);
    assert(log_after(log, e)[i] == log[i]);
}

/// An empty frame log reports no presses and no releases for any button:
/// immediately after `clear_frame`, every `just_pressed` and
/// `just_released` query returns false.
pub proof fn lemma_empty_log_reports_nothing(b: PointerButton)
    ensures
        !pressed_in(Seq::<PointerEvent>::empty(), b),
        !released_in(Seq::<PointerEvent>::empty(), b),
{
}

/// An event from a non-primary device changes neither the held-button set
/// nor the frame log, whatever its case or button.
pub proof fn lemma_non_primary_ignored(
    log: Seq<PointerEvent>,
    held: Set<PointerButton>,
    e: PointerEvent,
)
    requires
        !e.from_primary(),
    ensures
        held_after(held, e) == held,
        log_after(log, e) == log,
{
}

/// Processing the identical primary down event for a button twice in one
/// frame leaves the same held-button set as processing it once, and the
/// press is reported just the same: queries are existence checks, so the
/// duplicate log entry is not observable.
pub proof fn lemma_duplicate_down_idempotent(
    log: Seq<PointerEvent>,
    held: Set<PointerButton>,
    e: PointerEvent,
    b: PointerButton,
)
    requires
        e.from_primary(),
        down_event_for(e, b),
    ensures
        held_after(held_after(held, e), e) == held_after(held, e),
        pressed_in(log_after(log_after(log, e), e), b) == pressed_in(log_after(log, e), b),
{
    assert(held.insert(b).insert(b) =~= held.insert(b));
    lemma_primary_down_observed(log, held, e, b);
    lemma_press_persists(log_after(log, e), e, b);
}

} // verus!
