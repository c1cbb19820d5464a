use vstd::prelude::*;
use crate::keys::{KeyCode, KeyEvent, MOD_NONE, MOD_SHIFT};
use crossterm::event::KeyCode as TermCode;
use tui_input::backend::crossterm::EventHandler as _;
use tui_input::Input;

verus! {

#[verifier::external_type_specification]
#[verifier::external_body]
pub struct ExInput(tui_input::Input);

/// The characters held by a line editor.
pub uninterp spec fn input_text(i: Input) -> Seq<char>;

/// The number of characters in front of a line editor's cursor.
pub uninterp spec fn input_cursor(i: Input) -> nat;

/// The text with `c` put in at position `at`.
pub open spec fn insert_at(text: Seq<char>, at: nat, c: char) -> Seq<char> {
    text.take(at as int) + seq![c] + text.skip(at as int)
}

/// A key that the line editor takes as "type this character".
pub open spec fn typed_char(key: KeyEvent, c: char) -> bool {
    &&& key.code == KeyCode::Char(c)
    &&& (key.modifiers == MOD_NONE || key.modifiers == MOD_SHIFT)
}

/// A key that moves the cursor and leaves the text alone.
pub open spec fn moves_cursor(key: KeyEvent) -> bool {
    &&& key.modifiers == MOD_NONE
    &&& (key.code == KeyCode::Left || key.code == KeyCode::Right || key.code == KeyCode::Home
        || key.code == KeyCode::End)
}

/// Relies on `Input::default`: empty text, cursor at the start.
#[verifier::external_body]
pub(crate) fn empty_input() -> (r: Input)
    ensures
        input_text(r) == Seq::<char>::empty(),
        input_cursor(r) == 0,
{
    Input::default()
}

/// Relies on `Input::value`: the text held, as it stands.
#[verifier::external_body]
pub(crate) fn input_value(input: &Input) -> (r: String)
    ensures
        r@ == input_text(*input),
{
    input.value().to_string()
}

/// Relies on `Input::reset`: the text is emptied and the cursor goes home.
#[verifier::external_body]
pub(crate) fn reset_input(input: &mut Input)
    ensures
        input_text(*final(input)) == Seq::<char>::empty(),
        input_cursor(*final(input)) == 0,
{
    input.reset()
}

/// Relies on tui_input's crossterm backend (`EventHandler::handle_event` on a
/// pressed key): a plain or shifted character goes in at the cursor, which
/// moves past it; the arrows, home and end keep the text and home and end
/// send the cursor to the start and the end; no edit moves the cursor beyond
/// the end of the text.
#[verifier::external_body]
pub(crate) fn edit_input(input: &mut Input, key: &KeyEvent)
    ensures
        input_cursor(*final(input)) <= input_text(*final(input)).len(),
        forall|c: char| #[trigger] typed_char(*key, c) ==> {
            &&& input_text(*final(input)) == insert_at(input_text(*old(input)), input_cursor(*old(input)), c)
            &&& input_cursor(*final(input)) == input_cursor(*old(input)) + 1
        },
        moves_cursor(*key) ==> input_text(*final(input)) == input_text(*old(input)),
        key.code == KeyCode::Home && key.modifiers == MOD_NONE ==> input_cursor(*final(input)) == 0,
        key.code == KeyCode::End && key.modifiers == MOD_NONE ==> input_cursor(*final(input))
            == input_text(*final(input)).len(),
{
    let code = match key.code {
        KeyCode::Char(c) => TermCode::Char(c), KeyCode::Backspace => TermCode::Backspace,
        KeyCode::Enter => TermCode::Enter, KeyCode::Left => TermCode::Left,
        KeyCode::Right => TermCode::Right, KeyCode::Up => TermCode::Up,
        KeyCode::Down => TermCode::Down, KeyCode::Home => TermCode::Home,
        KeyCode::End => TermCode::End, KeyCode::Delete => TermCode::Delete,
        KeyCode::Esc => TermCode::Esc, KeyCode::Other => TermCode::Null,
    };
    let mods = crossterm::event::KeyModifiers::from_bits_truncate(key.modifiers);
    let event = crossterm::event::Event::Key(crossterm::event::KeyEvent::new(code, mods));
    input.handle_event(&event);
}

} // verus!
