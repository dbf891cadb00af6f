//! The input area: an editable, auto-wrapping message buffer that reports how
//! many rows it wants and is drained when its text is sent.

use crate::style::WidgetStyle;
use crate::text::{
    content, content_of, empty_text, end_of, is_blank, last_word_len, lemma_trailing_word, line_views,
    only_white_space, trailing_word_len, with_last, with_new_line, with_text,
};
use crate::textarea::{
    after_key, at_rest, is_line_break, tab_padding, text_lines, TextBuffer,
};
use tui_textarea::{Input, Key};
use vstd::prelude::*;
use vstd::string::*;

verus! {

/// Columns of the area's width that borders and padding take up.
pub const MARGIN: u16 = 6;

/// The most rows that the area ever asks for.
pub const MAX_AREA_HEIGHT: u16 = 20;

/// The mathematical state of a [`StatefulArea`].
pub struct AreaState {
    /// The lines of text, first line first. The cursor stands at the end of
    /// the last one.
    pub lines: Seq<Seq<char>>,
    /// The rows asked for beyond the area's base height.
    pub height: u16,
    /// The width of the area as the layout last gave it.
    pub width: u16,
    /// The styles that the area is drawn with.
    pub style: WidgetStyle,
}

/// Whether the last line of `lines` has reached the room that `width` leaves
/// for text. A width below the margin leaves the question closed: nothing
/// overflows then.
pub open spec fn overflows(lines: Seq<Seq<char>>, width: u16) -> bool {
    width >= MARGIN && lines.last().len() >= width - MARGIN
}

/// `lines` after its overflowing last line is brought back into bounds.
///
/// A last line that is one unbroken word loses its last character. Any other
/// has its last word moved to a new line behind it; where the line ends in
/// white space that word is empty, and the new line with it.
pub open spec fn reflowed(lines: Seq<Seq<char>>) -> Seq<Seq<char>> {
    let line = lines.last();
    let word = trailing_word_len(line);
    if word == line.len() {
        if line.len() == 0 {
            lines
        } else {
            with_last(lines, line.drop_last())
        }
    } else {
        with_last(lines, line.take(line.len() - word)).push(line.skip(line.len() - word))
    }
}

/// The height after a reflow of `lines`: one row more, unless the overflowing
/// line ended in a space or the height is at its maximum already.
pub open spec fn grown(lines: Seq<Seq<char>>, height: u16) -> u16 {
    let line = lines.last();
    if height < MAX_AREA_HEIGHT && !(line.len() > 0 && line.last() == ' ') {
        (height + 1) as u16
    } else {
        height
    }
}

/// The state after a line grew: reflowed if the last line overflows, else
/// untouched.
pub open spec fn settled(s: AreaState) -> AreaState {
    if overflows(s.lines, s.width) {
        AreaState { lines: reflowed(s.lines), height: grown(s.lines, s.height), ..s }
    } else {
        s
    }
}

/// Whether `input` makes the last line longer: a typed character that is no
/// line break, or a Tab that inserts something.
pub open spec fn extends_line(input: Input, padding: Seq<char>) -> bool {
    !input.ctrl && !input.alt && match input.key {
        Key::Char(c) => !is_line_break(c),
        Key::Tab => padding.len() > 0,
        _ => false,
    }
}

/// The state after one key press, where a Tab would insert `padding`: the
/// key is applied, and where it made the last line longer, that line is
/// brought back into bounds if it overflows.
pub open spec fn after_input(s: AreaState, input: Input, padding: Seq<char>) -> AreaState {
    let typed = AreaState { lines: after_key(s.lines, input, padding), ..s };
    if extends_line(input, padding) {
        settled(typed)
    } else {
        typed
    }
}

/// What is sent for `lines`: nothing where they hold only white space, else
/// their content.
pub open spec fn submitted(lines: Seq<Seq<char>>) -> Option<Seq<char>> {
    if is_blank(lines) {
        None
    } else {
        Some(content(lines))
    }
}

/// The editable message buffer.
pub struct StatefulArea {
    textarea: TextBuffer,
    height: u16,
    width: u16,
    style: WidgetStyle,
}

impl View for StatefulArea {
    type V = AreaState;

    closed spec fn view(&self) -> AreaState {
        AreaState {
            lines: text_lines(self.textarea),
            height: self.height,
            width: self.width,
            style: self.style,
        }
    }
}

impl StatefulArea {
    #[verifier::type_invariant]
    spec fn valid(&self) -> bool {
        &&& at_rest(self.textarea)
        &&& text_lines(self.textarea).len() > 0
        &&& self.height <= MAX_AREA_HEIGHT
    }

    /// What one press of the Tab key would insert.
    pub closed spec fn padding(&self) -> Seq<char> {
        tab_padding(self.textarea)
    }

    /// Whether the cursor stands where text is typed next: behind the last
    /// character of the last line, at `end_of(self@.lines)`, with nothing
    /// selected. Every area is left so by all that is done to it.
    pub closed spec fn cursor_at_end(&self) -> bool {
        at_rest(self.textarea)
    }

    /// An empty area of no width that asks for no extra row, to be drawn
    /// with `style`. Its cursor stands at the start of its one line, which is
    /// also its end.
    pub fn new(style: WidgetStyle) -> (area: StatefulArea)
        ensures
            area@ == (AreaState { lines: empty_text(), height: 0, width: 0, style }),
            area.cursor_at_end(),
    {
        StatefulArea { textarea: TextBuffer::new(), height: 0, width: 0, style }
    }

    /// The styles that the area is drawn with.
    pub fn style(&self) -> (style: WidgetStyle)
        ensures
            style == self@.style,
    {
        self.style
    }

    /// Where the cursor stands, as line and column counted from zero: at
    /// the end of the text.
    pub fn cursor(&self) -> (position: (usize, usize))
        ensures
            self.cursor_at_end(),
            (position.0 as nat, position.1 as nat) == end_of(self@.lines),
    {
        proof {
            use_type_invariant(self);
        }
        self.textarea.cursor()
    }

    /// The rows asked for beyond the base height.
    pub fn height(&self) -> (height: u16)
        ensures
            height == self@.height,
            height <= MAX_AREA_HEIGHT,
    {
        proof {
            use_type_invariant(self);
        }
        self.height
    }

    /// The width that wrapping goes by.
    pub fn width(&self) -> (width: u16)
        ensures
            width == self@.width,
    {
        self.width
    }

    /// Takes over the width that the layout gives the area for this frame.
    pub fn set_width(&mut self, width: u16)
        ensures
            final(self)@ == (AreaState { width, ..old(self)@ }),
            final(self).padding() == old(self).padding(),
            final(self).cursor_at_end(),
    {
        proof {
            use_type_invariant(&*self);
        }
        self.width = width;
    }

    /// A copy of the lines, of which there is always at least one.
    pub fn lines(&self) -> (lines: Vec<String>)
        ensures
            line_views(lines@) == self@.lines,
            lines@.len() > 0,
    {
        proof {
            use_type_invariant(self);
        }
        let lines: Vec<String> = self.textarea.lines();
        assert(lines@.len() == line_views(lines@).len());
        lines
    }

    /// Applies one key press and then keeps the line it made longer in
    /// bounds. The cursor stands at the end of the text afterwards. The two
    /// mouse-wheel keys move nothing but the view, which is drawn elsewhere:
    /// they leave the area as it is.
    pub fn on_input_update(&mut self, input: Input)
        ensures
            final(self)@ == after_input(old(self)@, input, old(self).padding()),
            final(self).cursor_at_end(),
    {
        proof {
            use_type_invariant(&*self);
        }
        let extends: bool = !input.ctrl && !input.alt && match input.key {
            Key::Char(c) => !(c == '\n' || c == '\r'),
            Key::Tab => true,
            _ => false,
        };
        match input.key {
            Key::MouseScrollDown | Key::MouseScrollUp => {},
            _ => {
                let modified: bool = self.textarea.press(input);
                if modified && extends {
                    self.move_last_word_to_new_line();
                }
            },
        }
    }

    /// Brings an overflowing last line back into bounds and asks for one
    /// more row; an area whose last line does not overflow is left alone.
    /// The cursor stands at the end of the text afterwards.
    pub fn move_last_word_to_new_line(&mut self)
        ensures
            final(self)@ == settled(old(self)@),
            final(self).cursor_at_end(),
    {
        proof {
            use_type_invariant(&*self);
        }
        let lines: Vec<String> = self.textarea.lines();
        let ghost before = text_lines(self.textarea);
        assert(lines@.len() == before.len());
        let line: &str = lines[lines.len() - 1].as_str();
        assert(line@ == before.last());
        let len: usize = line.unicode_len();
        if self.width >= MARGIN && len >= (self.width - MARGIN) as usize {
            let word: usize = last_word_len(line);
            proof {
                lemma_trailing_word(line@);
            }
            if word == len {
                if len > 0 {
                    self.textarea.delete_char();
                }
            } else {
                let tail: &str = line.substring_char(len - word, len);
                let mut left: usize = word;
                proof {
                    assert(line@.take(len as int) == line@);
                    assert(with_last(before, line@) == before);
                }
                while left > 0
                    invariant
                        left <= word < len,
                        self.height <= MAX_AREA_HEIGHT,
                        len == line@.len(),
                        before.len() > 0,
                        before.last() == line@,
                        at_rest(self.textarea),
                        text_lines(self.textarea) == with_last(
                            before,
                            line@.take(len - word + left),
                        ),
                        self.height == old(self).height,
                        self.width == old(self).width,
                        self.style == old(self).style,
                    decreases left,
                {
                    let ghost shown = line@.take(len - word + left);
                    assert(with_last(before, shown).last() == shown);
                    self.textarea.delete_char();
                    left = left - 1;
                    proof {
                        assert(shown.drop_last() == line@.take(len - word + left));
                        assert(with_last(before, shown).drop_last() == before.drop_last());
                    }
                }
                self.textarea.insert_newline();
                self.textarea.insert_str(tail);
                proof {
                    let head = with_last(before, line@.take(len - word));
                    assert(tail@ == line@.skip(len - word));
                    assert(Seq::<char>::empty() + tail@ == tail@);
                    assert(with_text(with_new_line(head), tail@) == head.push(tail@));
                }
            }
            let ends_in_space: bool = len > 0 && line.get_char(len - 1) == ' ';
            if self.height < MAX_AREA_HEIGHT && !ends_in_space {
                self.height = self.height + 1;
            }
        }
    }

    /// Hands out the text for sending and empties the area.
    ///
    /// The area is emptied whether or not there is anything to send, and
    /// its cursor is back at the start of its one line; its height and width
    /// stay.
    pub fn get_text(&mut self) -> (text: Option<String>)
        ensures
            final(self)@ == (AreaState { lines: empty_text(), ..old(self)@ }),
            final(self).cursor_at_end(),
            match text {
                Some(t) => submitted(old(self)@.lines) == Some(t@),
                None => submitted(old(self)@.lines) is None,
            },
    {
        let buffer: Option<String> = self.get_buffer();
        self.clear_buffer();
        buffer
    }

    /// The text as it would be sent, if there is any.
    fn get_buffer(&self) -> (text: Option<String>)
        ensures
            match text {
                Some(t) => submitted(self@.lines) == Some(t@),
                None => submitted(self@.lines) is None,
            },
    {
        proof {
            use_type_invariant(self);
        }
        let lines: Vec<String> = self.textarea.lines();
        assert(lines@.len() == line_views(lines@).len());
        if only_white_space(&lines) {
            None
        } else {
            Some(content_of(&lines))
        }
    }

    /// Empties the area by deleting backwards, line by line, until a single
    /// empty line is left.
    fn clear_buffer(&mut self)
        ensures
            final(self)@ == (AreaState { lines: empty_text(), ..old(self)@ }),
            final(self).cursor_at_end(),
    {
        proof {
            use_type_invariant(&*self);
        }
        loop
            invariant
                at_rest(self.textarea),
                text_lines(self.textarea).len() > 0,
                self.height <= MAX_AREA_HEIGHT,
                self.height == old(self).height,
                self.width == old(self).width,
                self.style == old(self).style,
            ensures
                text_lines(self.textarea) == empty_text(),
                self.height == old(self).height,
                self.width == old(self).width,
                self.style == old(self).style,
            decreases
                2 * text_lines(self.textarea).len() + (if text_lines(self.textarea).last().len()
                    > 0 {
                    1nat
                } else {
                    0nat
                }),
        {
            let deleted: bool = self.textarea.delete_line_by_head();
            if !deleted {
                proof {
                    let left = text_lines(self.textarea);
                    assert(left.len() == 1 && left[0].len() == 0);
                    assert(left[0] =~= Seq::<char>::empty());
                    assert(left =~= empty_text());
                }
                break;
            }
        }
    }
}

} // verus!
