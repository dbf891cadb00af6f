//! What one frame shows: how the screen is split between the message list and
//! the input area, and which popup lies over them.

use crate::area::StatefulArea;
use crate::popup::{Popup, PopupState};
use crate::style::{Color, WidgetStyle};
use crate::text::line_views;
use vstd::prelude::*;
use vstd::string::*;

verus! {

/// Share of the screen's height, in percent, that the message list has while
/// the input area asks for no extra row.
pub const MESSAGES_PERCENT: u16 = 90;

/// The whole of the screen's height, in percent.
pub const SCREEN_PERCENT: u16 = 100;

/// Width of the help and of the user list, in columns.
pub const POPUP_WIDTH: u16 = 21;

/// Height of the help and of the user list, in rows.
pub const POPUP_HEIGHT: u16 = 5;

/// The vertical split of the screen: the message list above, and the input
/// area below it with all that the list leaves.
#[derive(Clone, Copy, Debug, PartialEq, Eq)]
pub struct Split {
    /// Height of the message list, in percent of the screen.
    pub messages_percent: u16,
    /// Height of the input area, in percent of the screen: the remainder.
    pub input_percent: u16,
}

/// The split for an input area that asks for `height` extra rows: each row
/// it asks for is a percent that the message list gives up, and the input
/// area has the remainder.
pub open spec fn split_for(height: u16) -> Split {
    Split {
        messages_percent: (MESSAGES_PERCENT - height) as u16,
        input_percent: (SCREEN_PERCENT - (MESSAGES_PERCENT - height)) as u16,
    }
}

/// A popup as it is drawn, in the middle of the screen and with a rounded
/// border in the block style.
#[derive(Clone, Debug, PartialEq, Eq)]
pub struct PopupFrame {
    /// The title on its border, if it has one.
    pub title: Option<String>,
    /// Its text, line by line.
    pub lines: Vec<String>,
    /// Its width and height; where there is none, it is as large as its text.
    pub size: Option<(u16, u16)>,
    /// Whether its text is drawn in the font style.
    pub font_styled: bool,
}

/// The mathematical value of a [`PopupFrame`].
pub struct Overlay {
    pub title: Option<Seq<char>>,
    pub lines: Seq<Seq<char>>,
    pub size: Option<(u16, u16)>,
    pub font_styled: bool,
}

impl View for PopupFrame {
    type V = Overlay;

    open spec fn view(&self) -> Overlay {
        Overlay {
            title: match self.title {
                Some(title) => Some(title@),
                None => None,
            },
            lines: line_views(self.lines@),
            size: self.size,
            font_styled: self.font_styled,
        }
    }
}

/// The lines of the help.
pub open spec fn help_lines() -> Seq<Seq<char>> {
    seq![
        "[ctrl+l] user list"@,
        "[ctrl+j] scroll down"@,
        "[ctrl+j] scroll up"@,
        "[ctrl+q] exit"@,
    ]
}

/// How `popup` is drawn in a room with the given users; nothing where no
/// popup shows.
///
/// The help and the user list have a title and a fixed size. A notice is one
/// line about the user it names and as large as that line.
pub open spec fn overlay_of(popup: Popup, users: Seq<Seq<char>>) -> Option<Overlay> {
    match popup {
        Popup::Help => Some(
            Overlay {
                title: Some("help"@),
                lines: help_lines(),
                size: Some((POPUP_WIDTH, POPUP_HEIGHT)),
                font_styled: false,
            },
        ),
        Popup::List => Some(
            Overlay {
                title: Some("users list"@),
                lines: users,
                size: Some((POPUP_WIDTH, POPUP_HEIGHT)),
                font_styled: true,
            },
        ),
        Popup::Banned(user) => Some(
            Overlay {
                title: None,
                lines: seq![user + " has been banned!"@],
                size: None,
                font_styled: true,
            },
        ),
        Popup::JoinedLeft(user, joined) => Some(
            Overlay {
                title: None,
                lines: seq![user + if joined { " has joined"@ } else { " has left"@ }],
                size: None,
                font_styled: false,
            },
        ),
        Popup::Hidden => None,
    }
}

/// Everything that one frame shows besides the messages and the text of the
/// input area themselves.
#[derive(Clone, Debug)]
pub struct Frame {
    /// How the screen is split.
    pub split: Split,
    /// The title of the message list: the room.
    pub title: String,
    /// The colour that sets off the selected message, if it is set off.
    pub highlight: Option<Color>,
    /// The popup on show, if any.
    pub popup: Option<PopupFrame>,
    /// The styles to draw with.
    pub style: WidgetStyle,
}

/// The mathematical value of a [`Frame`].
pub struct Scene {
    pub split: Split,
    pub title: Seq<char>,
    pub highlight: Option<Color>,
    pub popup: Option<Overlay>,
    pub style: WidgetStyle,
}

impl View for Frame {
    type V = Scene;

    open spec fn view(&self) -> Scene {
        Scene {
            split: self.split,
            title: self.title@,
            highlight: self.highlight,
            popup: match self.popup {
                Some(popup) => Some(popup@),
                None => None,
            },
            style: self.style,
        }
    }
}

/// The frame for an input area that asks for `height` extra rows, in the room
/// `room` with the given users, while `popup` shows.
pub open spec fn scene_of(
    height: u16,
    room: Seq<char>,
    highlighted: bool,
    popup: Popup,
    users: Seq<Seq<char>>,
    style: WidgetStyle,
) -> Scene {
    Scene {
        split: split_for(height),
        title: room,
        highlight: if highlighted { Some(Color::Yellow) } else { None },
        popup: overlay_of(popup, users),
        style,
    }
}

/// A text made of `name` and `rest` behind it.
fn notice(name: &String, rest: &str) -> (text: String)
    ensures
        text@ == name@ + rest@,
{
    let mut text: String = name.clone();
    text.append(rest);
    text
}

/// A list that holds `line` alone.
fn single(line: String) -> (lines: Vec<String>)
    ensures
        line_views(lines@) == seq![line@],
{
    let mut lines: Vec<String> = Vec::new();
    lines.push(line);
    assert(line_views(lines@) =~= seq![line@]);
    lines
}

/// A copy of `lines`.
fn copied(lines: &Vec<String>) -> (copy: Vec<String>)
    ensures
        line_views(copy@) == line_views(lines@),
{
    let mut copy: Vec<String> = Vec::new();
    let mut i: usize = 0;
    while i < lines.len()
        invariant
            i <= lines.len(),
            copy@.len() == i,
            forall|k: int| 0 <= k < i ==> (#[trigger] copy@[k])@ == lines@[k]@,
        decreases lines.len() - i,
    {
        copy.push(lines[i].clone());
        i = i + 1;
    }
    assert(line_views(copy@) =~= line_views(lines@));
    copy
}

/// Lays out `popup`.
pub fn overlay(popup: &PopupState, users: &Vec<String>) -> (drawn: Option<PopupFrame>)
    ensures
        match drawn {
            Some(frame) => overlay_of(popup@, line_views(users@)) == Some(frame@),
            None => overlay_of(popup@, line_views(users@)) is None,
        },
{
    match popup {
        PopupState::Help => {
            let mut lines: Vec<String> = Vec::new();
            lines.push(String::from_str("[ctrl+l] user list"));
            lines.push(String::from_str("[ctrl+j] scroll down"));
            lines.push(String::from_str("[ctrl+j] scroll up"));
            lines.push(String::from_str("[ctrl+q] exit"));
            assert(line_views(lines@) =~= help_lines());
            Some(
                PopupFrame {
                    title: Some(String::from_str("help")),
                    lines,
                    size: Some((POPUP_WIDTH, POPUP_HEIGHT)),
                    font_styled: false,
                },
            )
        },
        PopupState::List => Some(
            PopupFrame {
                title: Some(String::from_str("users list")),
                lines: copied(users),
                size: Some((POPUP_WIDTH, POPUP_HEIGHT)),
                font_styled: true,
            },
        ),
        PopupState::Banned(user) => Some(
            PopupFrame {
                title: None,
                lines: single(notice(user, " has been banned!")),
                size: None,
                font_styled: true,
            },
        ),
        PopupState::JoinedLeft(user, joined) => Some(
            PopupFrame {
                title: None,
                lines: single(notice(user, if *joined { " has joined" } else { " has left" })),
                size: None,
                font_styled: false,
            },
        ),
        PopupState::Hidden => None,
    }
}

/// Composes the frame: the message list on top, the input area with the
/// remainder below it, and the popup over both. Nothing is changed by it:
/// what a frame leaves behind, a notice gone or a new width, is for the
/// caller to apply.
pub fn render(
    area: &StatefulArea,
    room: &String,
    highlighted: bool,
    popup: &PopupState,
    users: &Vec<String>,
    style: WidgetStyle,
) -> (frame: Frame)
    ensures
        frame@ == scene_of(area@.height, room@, highlighted, popup@, line_views(users@), style),
{
    let height: u16 = area.height();
    let messages_percent: u16 = MESSAGES_PERCENT - height;
    Frame {
        split: Split { messages_percent, input_percent: SCREEN_PERCENT - messages_percent },
        title: room.clone(),
        highlight: if highlighted { Some(Color::Yellow) } else { None },
        popup: overlay(popup, users),
        style,
    }
}

} // verus!
