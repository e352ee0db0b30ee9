//! The text field of the password dialog. Editing is done by the `tui-input`
//! crate, which turns a key press into an edit of the field's text and cursor.
use vstd::prelude::*;
use ratatui::crossterm::event::{
    Event as TermEvent, KeyCode as TermKeyCode, KeyEvent as TermKeyEvent, KeyModifiers,
};
use tui_input::backend::crossterm::EventHandler;
use tui_input::Input;
use crate::app::{Key, KeyInput};

verus! {

#[verifier::external_type_specification]
#[verifier::external_body]
pub struct ExTermKeyCode(ratatui::crossterm::event::KeyCode);

/// Where the field puts a cursor given at `cursor`: at most at the end of the text.
pub open spec fn clamped_cursor(value: Seq<char>, cursor: nat) -> nat {
    if cursor <= value.len() {
        cursor
    } else {
        value.len()
    }
}

/// Typing `c` into the field: it goes in at the cursor, which moves past it.
pub open spec fn typed_into(value: Seq<char>, cursor: nat, c: char) -> (Seq<char>, nat) {
    let k = clamped_cursor(value, cursor);
    (value.take(k as int) + seq![c] + value.skip(k as int), k + 1)
}

/// Backspace in the field: the character before the cursor goes, and the
/// cursor moves back onto its place; at the start nothing changes.
pub open spec fn backspaced(value: Seq<char>, cursor: nat) -> (Seq<char>, nat) {
    let k = clamped_cursor(value, cursor);
    if k == 0 {
        (value, 0)
    } else {
        (value.remove(k - 1), (k - 1) as nat)
    }
}

/// The text and the cursor of a `tui-input` field that held `value` with its
/// cursor at `cursor` once it has handled a press of `key`.
pub uninterp spec fn field_after_key(value: Seq<char>, cursor: nat, key: KeyInput) -> (Seq<char>, nat);

/// crossterm's `KeyCode` for a key, variant for variant; `Other` becomes
/// `Null`, which the text field ignores as it ignores every key not listed
/// here. It calls nothing and only builds the code that `edit_password_field`
/// puts in its key event; nothing is stated of the result.
#[verifier::external_body]
fn terminal_key_code(code: Key) -> TermKeyCode {
    match code {
        Key::Char(c) => TermKeyCode::Char(c),
        Key::Up => TermKeyCode::Up,
        Key::Down => TermKeyCode::Down,
        Key::Left => TermKeyCode::Left,
        Key::Right => TermKeyCode::Right,
        Key::Home => TermKeyCode::Home,
        Key::End => TermKeyCode::End,
        Key::Enter => TermKeyCode::Enter,
        Key::Tab => TermKeyCode::Tab,
        Key::Esc => TermKeyCode::Esc,
        Key::Backspace => TermKeyCode::Backspace,
        Key::Delete => TermKeyCode::Delete,
        Key::Other => TermKeyCode::Null,
    }
}

/// Calls `tui_input::Input::handle_event` (the crossterm backend) on a field
/// made by `Input::new(value)` and `with_cursor(cursor)`, with a press of
/// `key` whose modifiers are exactly the Control, Alt and Shift that `key`
/// holds, and returns the field's text and cursor afterwards. The contract
/// names that pair `field_after_key` and states two cases that the crate's
/// source shows plainly: a character typed without Control or Alt is inserted
/// at the cursor, which then moves past it, and Backspace without modifiers
/// deletes the character before the cursor. What the other keys do (moving
/// and deleting by character and by word, clearing) is not stated.
#[verifier::external_body]
pub(crate) fn edit_password_field(value: &str, cursor: usize, key: KeyInput) -> (r: (String, usize))
    ensures
        (r.0@, r.1 as nat) == field_after_key(value@, cursor as nat, key),
        key.code matches Key::Char(c) ==> !key.ctrl && !key.alt ==> (r.0@, r.1 as nat)
            == typed_into(value@, cursor as nat, c),
        key.code == Key::Backspace && !key.ctrl && !key.alt && !key.shift ==> (r.0@, r.1 as nat)
            == backspaced(value@, cursor as nat),
{
    let mut modifiers = KeyModifiers::NONE;
    modifiers.set(KeyModifiers::CONTROL, key.ctrl);
    modifiers.set(KeyModifiers::ALT, key.alt);
    modifiers.set(KeyModifiers::SHIFT, key.shift);
    let event = TermEvent::Key(TermKeyEvent::new(terminal_key_code(key.code), modifiers));
    let mut input = Input::new(value.to_string()).with_cursor(cursor);
    input.handle_event(&event);
    (input.value().to_string(), input.cursor())
}

} // verus!
