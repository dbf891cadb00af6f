//! The editing engine behind the input area: a `tui_textarea::TextArea`, and
//! what this crate relies on of it without proof.
//!
//! The area is only ever edited at the end of its text, with nothing
//! selected. Every contract here is stated for an editor in that position,
//! says that the editor is left in it, and takes it that the call returns.

use crate::text::{
    can_delete, empty_text, end_of, line_views, with_backspace, with_char, with_line_erased, with_new_line,
    with_text,
};
use tui_textarea::{Input, Key, TextArea};
use vstd::prelude::*;

verus! {

/// A key press as `tui_textarea` receives it: the key and its modifiers.
#[verifier::external_type_specification]
pub struct ExInput(Input);

/// The keys that `tui_textarea` tells apart.
#[verifier::external_type_specification]
pub struct ExKey(Key);

/// A multi-line editor of `tui_textarea`. Its inside is not reasoned about:
/// all that is known of an editor is what the functions below state of it.
#[verifier::external_body]
pub struct TextBuffer {
    inner: TextArea<'static>,
}

/// The lines of text that the editor holds, first line first.
pub uninterp spec fn text_lines(buffer: TextBuffer) -> Seq<Seq<char>>;

/// Whether the editor's cursor stands behind the last character of the last
/// line while no text is selected.
pub uninterp spec fn at_rest(buffer: TextBuffer) -> bool;

/// The characters that the editor would insert for one press of the Tab key,
/// as its tab settings and its text stand: none, a tab character, or spaces.
pub uninterp spec fn tab_padding(buffer: TextBuffer) -> Seq<char>;

/// Whether `c` makes the editor open a new line when typed.
pub open spec fn is_line_break(c: char) -> bool {
    c == '\n' || c == '\r'
}

/// Whether `input` is one of the two virtual mouse-wheel keys.
pub open spec fn is_scroll(input: Input) -> bool {
    input.key is MouseScrollDown || input.key is MouseScrollUp
}

/// The lines after `input` reached an editor at rest that held `lines`, where
/// a Tab would insert `padding`.
///
/// A character without Ctrl or Alt is typed, a line break among them opening
/// a new line as Enter does; Tab types the padding; Backspace deletes
/// backwards; every other key leaves the text alone.
pub open spec fn after_key(lines: Seq<Seq<char>>, input: Input, padding: Seq<char>) -> Seq<
    Seq<char>,
> {
    match input.key {
        Key::Char(c) => if input.ctrl || input.alt {
            lines
        } else if is_line_break(c) {
            with_new_line(lines)
        } else {
            with_char(lines, c)
        },
        Key::Tab => if input.ctrl || input.alt {
            lines
        } else {
            with_text(lines, padding)
        },
        Key::Backspace => with_backspace(lines),
        Key::Enter => with_new_line(lines),
        _ => lines,
    }
}

/// Whether the editor reports `input` as having changed its text.
pub open spec fn key_modifies(lines: Seq<Seq<char>>, input: Input, padding: Seq<char>) -> bool {
    match input.key {
        Key::Char(_) => !input.ctrl && !input.alt,
        Key::Tab => !input.ctrl && !input.alt && padding.len() > 0,
        Key::Backspace => can_delete(lines),
        Key::Enter => true,
        _ => false,
    }
}

impl TextBuffer {
    /// `TextArea::default`: an editor that holds one empty line, with the
    /// cursor at its start and nothing selected.
    #[verifier::external_body]
    pub(crate) fn new() -> (buffer: TextBuffer)
        ensures
            text_lines(buffer) == empty_text(),
            at_rest(buffer),
    {
        TextBuffer { inner: TextArea::default() }
    }

    /// `TextArea::lines`: a copy of the lines the editor holds.
    #[verifier::external_body]
    pub(crate) fn lines(&self) -> (lines: Vec<String>)
        ensures
            line_views(lines@) == text_lines(*self),
    {
        self.inner.lines().to_vec()
    }

    /// `TextArea::cursor`: the line and the column of the cursor, counted in
    /// characters from zero. At rest that is the end of the text.
    #[verifier::external_body]
    pub(crate) fn cursor(&self) -> (position: (usize, usize))
        requires
            at_rest(*self),
        ensures
            (position.0 as nat, position.1 as nat) == end_of(text_lines(*self)),
    {
        self.inner.cursor()
    }

    /// `TextArea::input_without_shortcuts`: hands one key press to the editor.
    /// At rest, the text becomes what `after_key` says and the result is what
    /// `key_modifies` says. The mouse-wheel keys move the cursor by what was
    /// last drawn and are left out.
    #[verifier::external_body]
    pub(crate) fn press(&mut self, input: Input) -> (modified: bool)
        requires
            at_rest(*old(self)),
            !is_scroll(input),
        ensures
            at_rest(*final(self)),
            text_lines(*final(self)) == after_key(
                text_lines(*old(self)),
                input,
                tab_padding(*old(self)),
            ),
            modified == key_modifies(text_lines(*old(self)), input, tab_padding(*old(self))),
        no_unwind
    {
        self.inner.input_without_shortcuts(input)
    }

    /// `TextArea::delete_char`: deletes the character before the cursor, or
    /// the line break before it where the cursor stands at the head of a
    /// line, and tells whether there was anything to delete.
    #[verifier::external_body]
    pub(crate) fn delete_char(&mut self) -> (deleted: bool)
        requires
            at_rest(*old(self)),
        ensures
            at_rest(*final(self)),
            text_lines(*final(self)) == with_backspace(text_lines(*old(self))),
            deleted == can_delete(text_lines(*old(self))),
        no_unwind
    {
        self.inner.delete_char()
    }

    /// `TextArea::insert_newline`: breaks the line at the cursor, which at
    /// rest opens an empty line behind the last one.
    #[verifier::external_body]
    pub(crate) fn insert_newline(&mut self)
        requires
            at_rest(*old(self)),
        ensures
            at_rest(*final(self)),
            text_lines(*final(self)) == with_new_line(text_lines(*old(self))),
        no_unwind
    {
        self.inner.insert_newline()
    }

    /// `TextArea::insert_str`: inserts a text at the cursor and tells whether
    /// it inserted anything. Stated for a text without line breaks, which
    /// stays on the cursor's line.
    #[verifier::external_body]
    pub(crate) fn insert_str(&mut self, text: &str) -> (inserted: bool)
        requires
            at_rest(*old(self)),
            forall|i: int| 0 <= i < text@.len() ==> !is_line_break(#[trigger] text@[i]),
        ensures
            at_rest(*final(self)),
            text_lines(*final(self)) == with_text(text_lines(*old(self)), text@),
            inserted == (text@.len() > 0),
        no_unwind
    {
        self.inner.insert_str(text)
    }

    /// `TextArea::delete_line_by_head`: deletes from the cursor back to the
    /// head of its line, or the line break before it where the cursor stands
    /// at the head already, and tells whether there was anything to delete.
    #[verifier::external_body]
    pub(crate) fn delete_line_by_head(&mut self) -> (deleted: bool)
        requires
            at_rest(*old(self)),
        ensures
            at_rest(*final(self)),
            text_lines(*final(self)) == with_line_erased(text_lines(*old(self))),
            deleted == can_delete(text_lines(*old(self))),
        no_unwind
    {
        self.inner.delete_line_by_head()
    }
}

} // verus!
