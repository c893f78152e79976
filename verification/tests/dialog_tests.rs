use price_monitor::dialog::{choice_step, dialog_layout, message_closes, ChoiceStep, DialogKind, DialogLayout};
use price_monitor::keys::{Key, KeyPress};

#[test]
fn message_box_layout() {
    let l = dialog_layout(DialogKind::Message, 80, 24, 9, 7);
    assert_eq!(l, DialogLayout { width: 50, height: 14, left: 15, top: 5, title_col: 36, first_item_row: 8 });
}

#[test]
fn choice_box_layout() {
    let l = dialog_layout(DialogKind::Choice, 120, 40, 3, 60);
    assert_eq!(l, DialogLayout { width: 50, height: 7, left: 35, top: 16, title_col: 35, first_item_row: 18 });
}

#[test]
fn small_terminal_puts_box_top_left() {
    let l = dialog_layout(DialogKind::Choice, 30, 5, 3, 4);
    assert_eq!(l.left, 0);
    assert_eq!(l.top, 0);
    assert_eq!(l.title_col, 23);
}

#[test]
fn choice_keys() {
    assert_eq!(choice_step(0, 3, Key::Up), ChoiceStep::Stay);
    assert_eq!(choice_step(1, 3, Key::Up), ChoiceStep::Move(0));
    assert_eq!(choice_step(1, 3, Key::Down), ChoiceStep::Move(2));
    assert_eq!(choice_step(2, 3, Key::Down), ChoiceStep::Stay);
    assert_eq!(choice_step(2, 3, Key::Enter), ChoiceStep::Chosen(2));
    assert_eq!(choice_step(2, 3, Key::Esc), ChoiceStep::Chosen(2));
    assert_eq!(choice_step(0, 3, Key::Esc), ChoiceStep::Chosen(0));
    assert_eq!(choice_step(2, 3, Key::Char('x')), ChoiceStep::Stay);
}

#[test]
fn empty_choice_box_closes_without_entry() {
    assert_eq!(choice_step(0, 0, Key::Enter), ChoiceStep::Stay);
    assert_eq!(choice_step(0, 0, Key::Down), ChoiceStep::Stay);
    assert_eq!(choice_step(0, 0, Key::Up), ChoiceStep::Stay);
    assert_eq!(choice_step(0, 0, Key::Esc), ChoiceStep::Cancelled);
    assert_eq!(choice_step(0, 1, Key::Enter), ChoiceStep::Chosen(0));
}

#[test]
fn message_box_closing_key() {
    assert!(message_closes(KeyPress { key: Key::F(1), is_press: true }, Key::F(1)));
    assert!(!message_closes(KeyPress { key: Key::F(1), is_press: false }, Key::F(1)));
    assert!(!message_closes(KeyPress { key: Key::F(2), is_press: true }, Key::F(1)));
}
