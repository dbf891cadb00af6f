use kioto::chat_app::{ChatApp, Event, Outgoing};
use kioto::message::Message;
use kioto::popup::PopupState;
use kioto::style::{Color, TextStyle, WidgetStyle};
use ratatui::style::Style;
use tui_textarea::{Input, Key};

fn app() -> ChatApp {
    ChatApp::new(
        "lobby".to_string(),
        vec!["alice".to_string()],
        WidgetStyle::new(Style::default(), Style::default()),
        2,
    )
}

fn typed(app: &mut ChatApp, text: &str) {
    for c in text.chars() {
        let input = Input { key: Key::Char(c), ctrl: false, alt: false, shift: false };
        assert_eq!(app.on_event(Event::Key(input)), None);
    }
}

#[test]
fn new_session_is_blank() {
    let app = app();
    assert_eq!(app.msg_area.lines(), vec![String::new()]);
    assert!(app.messages.items.is_empty());
    assert_eq!(app.messages.state.selected(), None);
    assert_eq!(app.popups.current_popup, PopupState::Hidden);
    assert_eq!(app.room_id, "lobby");
    assert_eq!(app.users, vec!["alice".to_string()]);
}

#[test]
fn submit_sends_what_was_typed() {
    let mut app = app();
    typed(&mut app, "hi all");
    assert_eq!(app.msg_area.cursor(), (0, 6));
    assert_eq!(app.on_event(Event::Submit), Some(Outgoing::Send("hi all".to_string())));
    assert_eq!(app.msg_area.cursor(), (0, 0));
    assert_eq!(app.on_event(Event::Submit), None);
}

#[test]
fn quit_asks_to_leave() {
    let mut app = app();
    assert_eq!(app.on_event(Event::Quit), Some(Outgoing::Quit));
}

#[test]
fn arriving_messages_join_the_list() {
    let mut app = app();
    for text in ["one", "two @alice"] {
        let message = Message {
            sender_id: "bob".to_string(),
            sender_color: Color::Green,
            timestamp: "now".to_string(),
            content: text.to_string(),
        };
        assert_eq!(app.on_event(Event::MessageArrived(message)), None);
    }
    assert_eq!(app.messages.items.len(), 2);
    assert_eq!(app.messages.items[0].lines[1][0].text, "one");
    assert_eq!(app.messages.items[1].lines[1][1].text, "@alice");
    assert_eq!(app.messages.items[1].lines[1][1].style, TextStyle::mention());
    assert_eq!(app.messages.state.selected(), None);
    app.on_event(Event::ScrollDown);
    assert_eq!(app.messages.state.selected(), Some(0));
    app.on_event(Event::ScrollDown);
    app.on_event(Event::ScrollDown);
    assert_eq!(app.messages.state.selected(), Some(1));
    app.on_event(Event::ScrollUp);
    assert_eq!(app.messages.state.selected(), Some(0));
}

#[test]
fn ban_notice_shows_for_its_ticks() {
    let mut app = app();
    app.on_event(Event::UserBanned("alice".to_string()));
    assert_eq!(app.popups.current_popup, PopupState::Banned("alice".to_string()));
    app.tick();
    let frame = app.render();
    assert_eq!(frame.popup.unwrap().lines, vec!["alice has been banned!".to_string()]);
    app.frame_drawn(40);
    assert_eq!(app.popups.current_popup, PopupState::Banned("alice".to_string()));
    app.tick();
    assert!(app.render().popup.is_some());
    app.frame_drawn(40);
    assert_eq!(app.popups.current_popup, PopupState::Banned("alice".to_string()));
    app.tick();
    assert!(app.render().popup.is_some());
    app.frame_drawn(40);
    assert_eq!(app.popups.current_popup, PopupState::Hidden);
    assert!(app.render().popup.is_none());
    assert_eq!(app.msg_area.width(), 40);
}

#[test]
fn toggles_and_comings_reach_the_popups() {
    let mut app = app();
    app.on_event(Event::ToggleHelp);
    assert_eq!(app.popups.current_popup, PopupState::Help);
    app.on_event(Event::ToggleList);
    assert_eq!(app.popups.current_popup, PopupState::List);
    app.on_event(Event::UserJoined("carol".to_string()));
    assert_eq!(app.popups.current_popup, PopupState::JoinedLeft("carol".to_string(), true));
    app.on_event(Event::UserLeft("carol".to_string()));
    assert_eq!(app.popups.current_popup, PopupState::JoinedLeft("carol".to_string(), false));
    app.on_event(Event::ToggleHelp);
    assert_eq!(app.popups.current_popup, PopupState::Help);
    app.on_event(Event::ToggleHelp);
    assert_eq!(app.popups.current_popup, PopupState::Hidden);
}

#[test]
fn frame_follows_the_width_it_is_told() {
    let mut app = app();
    app.frame_drawn(16);
    typed(&mut app, "abcdef ghij");
    assert_eq!(app.msg_area.lines(), vec!["abcdef ".to_string(), "ghij".to_string()]);
    assert_eq!(app.render().split.messages_percent, 89);
    assert_eq!(app.render().split.input_percent, 11);
    assert_eq!(app.msg_area.cursor(), (1, 4));
}
