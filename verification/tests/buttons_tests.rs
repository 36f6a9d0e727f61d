use ui_input_state::PointerButton;
use ui_input_state::PointerButtons;

#[test]
fn new_set_is_empty() {
    let p = PointerButtons::new();
    assert!(p.is_empty());
    assert!(!p.contains(PointerButton::Primary));
}

#[test]
fn default_set_is_empty() {
    let p = PointerButtons::default();
    assert!(p.is_empty());
}

#[test]
fn insert_then_contains() {
    let mut p = PointerButtons::new();
    p.insert(PointerButton::Auxiliary);
    assert!(p.contains(PointerButton::Auxiliary));
    assert!(!p.contains(PointerButton::Primary));
    assert!(!p.is_empty());
}

#[test]
fn insert_twice_then_remove_once_is_gone() {
    let mut p = PointerButtons::new();
    p.insert(PointerButton::B32);
    p.insert(PointerButton::B32);
    p.remove(PointerButton::B32);
    assert!(!p.contains(PointerButton::B32));
    assert!(p.is_empty());
}

#[test]
fn remove_keeps_other_buttons() {
    let mut p = PointerButtons::new();
    p.insert(PointerButton::X1);
    p.insert(PointerButton::X2);
    p.remove(PointerButton::X1);
    assert!(!p.contains(PointerButton::X1));
    assert!(p.contains(PointerButton::X2));
    assert!(!p.is_empty());
}

#[test]
fn remove_absent_button_is_noop() {
    let mut p = PointerButtons::new();
    p.insert(PointerButton::Secondary);
    p.remove(PointerButton::PenEraser);
    assert!(p.contains(PointerButton::Secondary));
}
