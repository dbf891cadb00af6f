//! Colours and text styles.

use crate::text::str_equal;
use ratatui::style::Style;
use vstd::prelude::*;

verus! {

/// A terminal style of `ratatui`: colours and modifiers, carried as given.
#[verifier::external_type_specification]
#[verifier::external_body]
pub struct ExStyle(Style);

/// The two styles that every widget is drawn with. They are supplied once
/// and handed on unchanged.
#[derive(Clone, Copy, Debug)]
pub struct WidgetStyle {
    /// Style of borders and backgrounds.
    pub block_style: Style,
    /// Style of text.
    pub font_style: Style,
}

impl WidgetStyle {
    /// Pairs a block style with a font style.
    pub fn new(block_style: Style, font_style: Style) -> (style: WidgetStyle)
        ensures
            style.block_style == block_style,
            style.font_style == font_style,
    {
        WidgetStyle { block_style, font_style }
    }
}

/// A colour of text or background.
#[derive(Clone, Copy, Debug, PartialEq, Eq)]
pub enum Color {
    Black,
    Red,
    Green,
    Yellow,
    Blue,
    Magenta,
    Cyan,
    Gray,
    White,
    /// A colour by its red, green and blue parts.
    Rgb(u8, u8, u8),
}

/// The colour that `name` names, if it names one: the colours go by their
/// names in lower case, and only those without parts have one.
pub open spec fn color_named(name: Seq<char>) -> Option<Color> {
    if name == "black"@ {
        Some(Color::Black)
    } else if name == "red"@ {
        Some(Color::Red)
    } else if name == "green"@ {
        Some(Color::Green)
    } else if name == "yellow"@ {
        Some(Color::Yellow)
    } else if name == "blue"@ {
        Some(Color::Blue)
    } else if name == "magenta"@ {
        Some(Color::Magenta)
    } else if name == "cyan"@ {
        Some(Color::Cyan)
    } else if name == "gray"@ {
        Some(Color::Gray)
    } else if name == "white"@ {
        Some(Color::White)
    } else {
        None
    }
}

impl Color {
    /// Reads a colour's name.
    pub fn from_name(name: &str) -> (color: Option<Color>)
        ensures
            color == color_named(name@),
    {
        if str_equal(name, "black") {
            Some(Color::Black)
        } else if str_equal(name, "red") {
            Some(Color::Red)
        } else if str_equal(name, "green") {
            Some(Color::Green)
        } else if str_equal(name, "yellow") {
            Some(Color::Yellow)
        } else if str_equal(name, "blue") {
            Some(Color::Blue)
        } else if str_equal(name, "magenta") {
            Some(Color::Magenta)
        } else if str_equal(name, "cyan") {
            Some(Color::Cyan)
        } else if str_equal(name, "gray") {
            Some(Color::Gray)
        } else if str_equal(name, "white") {
            Some(Color::White)
        } else {
            None
        }
    }
}

/// How a piece of text looks, as far as this crate decides it.
#[derive(Clone, Copy, Debug, PartialEq, Eq)]
pub struct TextStyle {
    /// Colour of the text, if it is not the surrounding one.
    pub fg: Option<Color>,
    /// Colour behind the text, if it is not the surrounding one.
    pub bg: Option<Color>,
    pub bold: bool,
    pub italic: bool,
}

/// Text that looks like its surroundings.
pub open spec fn plain_style() -> TextStyle {
    TextStyle { fg: None, bg: None, bold: false, italic: false }
}

/// The name of a message's sender: bold.
pub open spec fn sender_style() -> TextStyle {
    TextStyle { fg: None, bg: None, bold: true, italic: false }
}

/// The time of a message: a muted grey, italic.
pub open spec fn timestamp_style() -> TextStyle {
    TextStyle { fg: Some(Color::Rgb(50, 50, 50)), bg: None, bold: false, italic: true }
}

/// A mention in a message: inverted, black on white, and bold.
pub open spec fn mention_style() -> TextStyle {
    TextStyle { fg: Some(Color::Black), bg: Some(Color::White), bold: true, italic: false }
}

impl TextStyle {
    /// See [`plain_style`].
    pub fn plain() -> (style: TextStyle)
        ensures
            style == plain_style(),
    {
        TextStyle { fg: None, bg: None, bold: false, italic: false }
    }

    /// See [`sender_style`].
    pub fn sender() -> (style: TextStyle)
        ensures
            style == sender_style(),
    {
        TextStyle { fg: None, bg: None, bold: true, italic: false }
    }

    /// See [`timestamp_style`].
    pub fn timestamp() -> (style: TextStyle)
        ensures
            style == timestamp_style(),
    {
        TextStyle { fg: Some(Color::Rgb(50, 50, 50)), bg: None, bold: false, italic: true }
    }

    /// See [`mention_style`].
    pub fn mention() -> (style: TextStyle)
        ensures
            style == mention_style(),
    {
        TextStyle { fg: Some(Color::Black), bg: Some(Color::White), bold: true, italic: false }
    }
}

} // verus!
