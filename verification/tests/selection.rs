use file_dialog::selection::{Activation, SelectionState};

#[test]
fn nothing_is_highlighted_at_first() {
    let s = SelectionState::new();
    assert_eq!(s.highlighted(), None);
    assert!(!s.is_highlighted(0));
}

#[test]
fn first_activation_highlights() {
    let mut s = SelectionState::new();
    assert_eq!(s.activate(2), Activation::Highlighted);
    assert_eq!(s.highlighted(), Some(2));
    assert!(s.is_highlighted(2));
    assert!(!s.is_highlighted(3));
}

#[test]
fn second_activation_of_the_same_entry_confirms() {
    let mut s = SelectionState::new();
    s.activate(2);
    assert_eq!(s.activate(2), Activation::Confirmed);
    assert_eq!(s.highlighted(), Some(2));
    assert_eq!(s.activate(2), Activation::Confirmed);
}

#[test]
fn activation_of_another_entry_moves_the_highlight() {
    let mut s = SelectionState::new();
    s.activate(2);
    assert_eq!(s.activate(5), Activation::Highlighted);
    assert_eq!(s.highlighted(), Some(5));
    assert_eq!(s.activate(2), Activation::Highlighted);
    assert_eq!(s.activate(2), Activation::Confirmed);
}

#[test]
fn clear_removes_the_highlight() {
    let mut s = SelectionState::new();
    s.activate(0);
    s.clear();
    assert_eq!(s.highlighted(), None);
    assert_eq!(s.activate(0), Activation::Highlighted);
}
