use ui_input_state::PointerButton;
use ui_input_state::PointerButtonEvent;
use ui_input_state::PointerEvent;
use ui_input_state::PointerInfo;
use ui_input_state::PrimaryPointerState;

fn down_event(button: Option<PointerButton>, is_primary: bool) -> PointerEvent {
    PointerEvent::Down(PointerButtonEvent {
        button,
        pointer: PointerInfo { is_primary },
    })
}

fn up_event(button: Option<PointerButton>, is_primary: bool) -> PointerEvent {
    PointerEvent::Up(PointerButtonEvent {
        button,
        pointer: PointerInfo { is_primary },
    })
}

#[test]
fn fresh_state_reports_nothing() {
    let s = PrimaryPointerState::default();
    assert!(!s.any_down());
    assert!(!s.primary_just_pressed());
    assert!(!s.primary_just_released());
    assert!(!s.secondary_just_pressed());
    assert!(!s.secondary_just_released());
    assert!(!s.auxiliary_just_pressed());
    assert!(!s.auxiliary_just_released());
    assert!(!s.is_down(PointerButton::Primary));
}

#[test]
fn primary_down_sets_held_and_pressed() {
    let mut s = PrimaryPointerState::default();
    s.process_pointer_event(down_event(Some(PointerButton::Primary), true));
    assert!(s.is_down(PointerButton::Primary));
    assert!(s.just_pressed(PointerButton::Primary));
    assert!(s.primary_just_pressed());
    assert!(!s.primary_just_released());
    assert!(s.any_down());
}

#[test]
fn press_stays_visible_until_clear_frame() {
    let mut s = PrimaryPointerState::default();
    s.process_pointer_event(down_event(Some(PointerButton::X1), true));
    s.process_pointer_event(down_event(Some(PointerButton::X2), true));
    s.process_pointer_event(up_event(Some(PointerButton::X1), true));
    assert!(s.just_pressed(PointerButton::X1));
    assert!(s.is_down(PointerButton::X2));
}

#[test]
fn clear_frame_resets_queries_but_not_held() {
    let mut s = PrimaryPointerState::default();
    s.process_pointer_event(down_event(Some(PointerButton::Primary), true));
    s.clear_frame();
    assert!(!s.primary_just_pressed());
    assert!(!s.primary_just_released());
    assert!(s.is_down(PointerButton::Primary));
    assert!(s.any_down());
}

#[test]
fn primary_up_clears_held_and_sets_released() {
    let mut s = PrimaryPointerState::default();
    s.process_pointer_event(down_event(Some(PointerButton::Primary), true));
    s.clear_frame();
    s.process_pointer_event(up_event(Some(PointerButton::Primary), true));
    assert!(!s.is_down(PointerButton::Primary));
    assert!(s.just_released(PointerButton::Primary));
    assert!(s.primary_just_released());
    assert!(!s.any_down());
}

#[test]
fn release_stays_visible_until_clear_frame() {
    let mut s = PrimaryPointerState::default();
    s.process_pointer_event(up_event(Some(PointerButton::Auxiliary), true));
    s.process_pointer_event(down_event(Some(PointerButton::Secondary), true));
    assert!(s.auxiliary_just_released());
    s.clear_frame();
    assert!(!s.auxiliary_just_released());
}

#[test]
fn non_primary_events_are_ignored() {
    let mut s = PrimaryPointerState::default();
    s.process_pointer_event(down_event(Some(PointerButton::Secondary), false));
    assert!(!s.is_down(PointerButton::Secondary));
    assert!(!s.secondary_just_pressed());
    assert!(!s.any_down());
    s.process_pointer_event(up_event(Some(PointerButton::Secondary), false));
    assert!(!s.secondary_just_released());
}

#[test]
fn non_primary_up_does_not_release_held_button() {
    let mut s = PrimaryPointerState::default();
    s.process_pointer_event(down_event(Some(PointerButton::Primary), true));
    s.process_pointer_event(up_event(Some(PointerButton::Primary), false));
    assert!(s.is_down(PointerButton::Primary));
    assert!(!s.primary_just_released());
}

#[test]
fn buttonless_transition_changes_nothing_held() {
    let mut s = PrimaryPointerState::default();
    s.process_pointer_event(down_event(None, true));
    assert!(!s.any_down());
    assert!(!s.primary_just_pressed());
    assert!(!s.secondary_just_pressed());
    assert!(!s.auxiliary_just_pressed());
    s.process_pointer_event(up_event(None, true));
    assert!(!s.primary_just_released());
}

#[test]
fn other_events_do_not_affect_queries() {
    let mut s = PrimaryPointerState::default();
    s.process_pointer_event(PointerEvent::Other(PointerInfo { is_primary: true }));
    assert!(!s.any_down());
    assert!(!s.primary_just_pressed());
    assert!(!s.primary_just_released());
}

#[test]
fn duplicate_down_is_idempotent() {
    let mut s = PrimaryPointerState::default();
    let e = down_event(Some(PointerButton::Primary), true);
    s.process_pointer_event(e);
    s.process_pointer_event(e);
    assert!(s.is_down(PointerButton::Primary));
    assert!(s.primary_just_pressed());
    s.process_pointer_event(up_event(Some(PointerButton::Primary), true));
    assert!(!s.is_down(PointerButton::Primary));
    assert!(!s.any_down());
}

#[test]
fn duplicate_up_is_idempotent() {
    let mut s = PrimaryPointerState::default();
    let e = up_event(Some(PointerButton::Primary), true);
    s.process_pointer_event(e);
    s.process_pointer_event(e);
    assert!(!s.is_down(PointerButton::Primary));
    assert!(s.primary_just_released());
}

#[test]
fn any_down_tracks_each_held_button() {
    let mut s = PrimaryPointerState::default();
    s.process_pointer_event(down_event(Some(PointerButton::Primary), true));
    s.process_pointer_event(down_event(Some(PointerButton::PenEraser), true));
    assert!(s.any_down());
    s.process_pointer_event(up_event(Some(PointerButton::Primary), true));
    assert!(s.any_down());
    assert!(s.is_down(PointerButton::PenEraser));
    s.process_pointer_event(up_event(Some(PointerButton::PenEraser), true));
    assert!(!s.any_down());
}

#[test]
fn queries_distinguish_buttons() {
    let mut s = PrimaryPointerState::default();
    s.process_pointer_event(down_event(Some(PointerButton::Auxiliary), true));
    assert!(s.auxiliary_just_pressed());
    assert!(!s.primary_just_pressed());
    assert!(!s.secondary_just_pressed());
    assert!(s.is_down(PointerButton::Auxiliary));
    assert!(!s.is_down(PointerButton::Primary));
}

#[test]
fn down_then_up_same_frame_reports_both() {
    let mut s = PrimaryPointerState::default();
    s.process_pointer_event(down_event(Some(PointerButton::Secondary), true));
    s.process_pointer_event(up_event(Some(PointerButton::Secondary), true));
    assert!(s.secondary_just_pressed());
    assert!(s.secondary_just_released());
    assert!(!s.is_down(PointerButton::Secondary));
}

#[test]
fn cloned_state_matches_its_source() {
    let mut s = PrimaryPointerState::default();
    s.process_pointer_event(down_event(Some(PointerButton::B7), true));
    let t = s.clone();
    assert!(t.is_down(PointerButton::B7));
    assert!(t.just_pressed(PointerButton::B7));
}
