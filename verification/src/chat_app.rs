//! One chat session: the input area, the message list and the popups, and
//! how each event of the loop reaches them.
//!
//! The loop applies an event, ticks, composes the frame, and after drawing
//! reports the width that the message list was given.

use crate::area::{after_input, submitted, AreaState, StatefulArea};
use crate::frame::{render, scene_of, Frame};
use crate::list::{selection_after_next, selection_after_previous, StatefulList};
use crate::message::{highlighted, item_of, Message, MessageItem, MENTION_PATTERN};
use crate::popup::{expired, notified, ticked, toggled, Popup, PopupController};
use crate::style::WidgetStyle;
use crate::text::{empty_text, line_views};
use tui_textarea::Input;
use vstd::prelude::*;

verus! {

/// What the loop hands to the session.
#[derive(Debug)]
pub enum Event {
    /// A key press that is meant for the input area.
    Key(Input),
    /// The user asks to send what is typed.
    Submit,
    /// The user moves the selection in the message list down.
    ScrollDown,
    /// The user moves the selection in the message list up.
    ScrollUp,
    /// The user asks for the help, or to close it.
    ToggleHelp,
    /// The user asks for the user list, or to close it.
    ToggleList,
    /// The user asks to leave.
    Quit,
    /// A message came in.
    MessageArrived(Message),
    /// The named user joined the room.
    UserJoined(String),
    /// The named user left the room.
    UserLeft(String),
    /// The named user was banned from the room.
    UserBanned(String),
}

/// What the session asks of the world around it.
#[derive(Debug, Clone, PartialEq, Eq)]
pub enum Outgoing {
    /// The text is to be sent to the room.
    Send(String),
    /// The session is to end.
    Quit,
}

/// The state of one session.
pub struct ChatApp {
    pub msg_area: StatefulArea,
    pub messages: StatefulList<MessageItem>,
    pub popups: PopupController,
    pub users: Vec<String>,
    pub room_id: String,
    pub style: WidgetStyle,
}

impl ChatApp {
    /// Whether everything but the input area is the same in `self` and `other`.
    pub open spec fn same_but_area(&self, other: &ChatApp) -> bool {
        &&& self.messages == other.messages
        &&& self.popups == other.popups
        &&& self.users == other.users
        &&& self.room_id == other.room_id
        &&& self.style == other.style
    }

    /// Whether everything but the message list is the same in `self` and `other`.
    pub open spec fn same_but_messages(&self, other: &ChatApp) -> bool {
        &&& self.msg_area == other.msg_area
        &&& self.popups == other.popups
        &&& self.users == other.users
        &&& self.room_id == other.room_id
        &&& self.style == other.style
    }

    /// Whether everything but the popups is the same in `self` and `other`.
    pub open spec fn same_but_popups(&self, other: &ChatApp) -> bool {
        &&& self.msg_area == other.msg_area
        &&& self.messages == other.messages
        &&& self.users == other.users
        &&& self.room_id == other.room_id
        &&& self.style == other.style
    }

    /// A session in the room `room_id` with the given users: nothing typed,
    /// no message, no popup, and a timer of threshold `notice_ticks` to take
    /// notices away.
    pub fn new(room_id: String, users: Vec<String>, style: WidgetStyle, notice_ticks: usize) -> (app:
        ChatApp)
        ensures
            app.msg_area@ == (AreaState { lines: empty_text(), height: 0, width: 0, style }),
            app.msg_area.cursor_at_end(),
            app.messages.items@.len() == 0,
            app.messages.selected() is None,
            !app.messages.is_highlighted,
            app.popups@ == PopupController::new_spec(notice_ticks),
            app.users == users,
            app.room_id == room_id,
            app.style == style,
    {
        ChatApp {
            msg_area: StatefulArea::new(style),
            messages: StatefulList::default(),
            popups: PopupController::new(notice_ticks),
            users,
            room_id,
            style,
        }
    }

    /// Applies one event and tells what it asks of the world, if anything.
    ///
    /// Key presses go to the input area. Sending drains the input area and
    /// asks for its text to be sent, if there is any. Scrolling moves the
    /// selection in the message list. Toggles and the comings and goings of
    /// users go to the popups. A message that came in is laid out and joins
    /// the list behind the others. Only sending and leaving ask anything of
    /// the world.
    pub fn on_event(&mut self, event: Event) -> (out: Option<Outgoing>)
        ensures
            match event {
                Event::Key(input) => {
                    &&& out is None
                    &&& final(self).same_but_area(old(self))
                    &&& final(self).msg_area@ == after_input(
                        old(self).msg_area@,
                        input,
                        old(self).msg_area.padding(),
                    )
                    &&& final(self).msg_area.cursor_at_end()
                },
                Event::Submit => {
                    &&& final(self).same_but_area(old(self))
                    &&& final(self).msg_area@ == (AreaState {
                        lines: empty_text(),
                        ..old(self).msg_area@
                    })
                    &&& final(self).msg_area.cursor_at_end()
                    &&& match out {
                        Some(Outgoing::Send(text)) => submitted(old(self).msg_area@.lines) == Some(
                            text@,
                        ),
                        Some(Outgoing::Quit) => false,
                        None => submitted(old(self).msg_area@.lines) is None,
                    }
                },
                Event::ScrollDown => {
                    &&& out is None
                    &&& final(self).same_but_messages(old(self))
                    &&& final(self).messages.items == old(self).messages.items
                    &&& final(self).messages.is_highlighted == old(self).messages.is_highlighted
                    &&& final(self).messages.selected() == selection_after_next(
                        old(self).messages.items@.len(),
                        old(self).messages.selected(),
                    )
                },
                Event::ScrollUp => {
                    &&& out is None
                    &&& final(self).same_but_messages(old(self))
                    &&& final(self).messages.items == old(self).messages.items
                    &&& final(self).messages.is_highlighted == old(self).messages.is_highlighted
                    &&& final(self).messages.selected() == selection_after_previous(
                        old(self).messages.items@.len(),
                        old(self).messages.selected(),
                    )
                },
                Event::ToggleHelp => {
                    &&& out is None
                    &&& final(self).same_but_popups(old(self))
                    &&& final(self).popups@ == toggled(old(self).popups@, Popup::Help)
                },
                Event::ToggleList => {
                    &&& out is None
                    &&& final(self).same_but_popups(old(self))
                    &&& final(self).popups@ == toggled(old(self).popups@, Popup::List)
                },
                Event::Quit => out == Some(Outgoing::Quit) && *final(self) == *old(self),
                Event::MessageArrived(message) => {
                    &&& out is None
                    &&& final(self).same_but_messages(old(self))
                    &&& final(self).messages.state == old(self).messages.state
                    &&& final(self).messages.is_highlighted == old(self).messages.is_highlighted
                    &&& final(self).messages.items@.len() == old(self).messages.items@.len() + 1
                    &&& final(self).messages.items@.drop_last() == old(self).messages.items@
                    &&& final(self).messages.items@.last()@ == item_of(
                        message,
                        highlighted(message.content@, MENTION_PATTERN@),
                    )
                },
                Event::UserJoined(user) => {
                    &&& out is None
                    &&& final(self).same_but_popups(old(self))
                    &&& final(self).popups@ == notified(
                        old(self).popups@,
                        Popup::JoinedLeft(user@, true),
                    )
                },
                Event::UserLeft(user) => {
                    &&& out is None
                    &&& final(self).same_but_popups(old(self))
                    &&& final(self).popups@ == notified(
                        old(self).popups@,
                        Popup::JoinedLeft(user@, false),
                    )
                },
                Event::UserBanned(user) => {
                    &&& out is None
                    &&& final(self).same_but_popups(old(self))
                    &&& final(self).popups@ == notified(old(self).popups@, Popup::Banned(user@))
                },
            },
    {
        match event {
            Event::Key(input) => {
                self.msg_area.on_input_update(input);
                None
            },
            Event::Submit => match self.msg_area.get_text() {
                Some(text) => Some(Outgoing::Send(text)),
                None => None,
            },
            Event::ScrollDown => {
                self.messages.next();
                None
            },
            Event::ScrollUp => {
                self.messages.previous();
                None
            },
            Event::ToggleHelp => {
                self.popups.toggle_help();
                None
            },
            Event::ToggleList => {
                self.popups.toggle_list();
                None
            },
            Event::Quit => Some(Outgoing::Quit),
            Event::MessageArrived(message) => {
                let item: MessageItem = MessageItem::from(message);
                self.messages.items.push(item);
                assert(self.messages.items@.drop_last() == old(self).messages.items@);
                None
            },
            Event::UserJoined(user) => {
                self.popups.user_joined(user);
                None
            },
            Event::UserLeft(user) => {
                self.popups.user_left(user);
                None
            },
            Event::UserBanned(user) => {
                self.popups.user_banned(user);
                None
            },
        }
    }

    /// Advances the session by one tick of the loop.
    pub fn tick(&mut self)
        ensures
            final(self).same_but_popups(old(self)),
            final(self).popups@ == ticked(old(self).popups@),
    {
        self.popups.tick();
    }

    /// Composes the frame that shows the session as it stands.
    pub fn render(&self) -> (frame: Frame)
        ensures
            frame@ == scene_of(
                self.msg_area@.height,
                self.room_id@,
                self.messages.is_highlighted,
                self.popups@.popup,
                line_views(self.users@),
                self.style,
            ),
    {
        render(
            &self.msg_area,
            &self.room_id,
            self.messages.is_highlighted,
            &self.popups.current_popup,
            &self.users,
            self.style,
        )
    }

    /// Takes note that a frame was drawn, in which the message list was
    /// `width` columns wide: the input area wraps by that width from now on,
    /// and a notice whose time has passed is gone.
    pub fn frame_drawn(&mut self, width: u16)
        ensures
            final(self).messages == old(self).messages,
            final(self).users == old(self).users,
            final(self).room_id == old(self).room_id,
            final(self).style == old(self).style,
            final(self).msg_area@ == (AreaState { width, ..old(self).msg_area@ }),
            final(self).msg_area.cursor_at_end(),
            final(self).popups@ == expired(old(self).popups@),
    {
        self.msg_area.set_width(width);
        self.popups.expire();
    }
}

} // verus!
