use kioto::area::StatefulArea;
use kioto::frame::{
    overlay, render, PopupFrame, Split, MESSAGES_PERCENT, POPUP_HEIGHT, POPUP_WIDTH,
    SCREEN_PERCENT,
};
use kioto::popup::PopupState;
use kioto::style::{Color, WidgetStyle};
use ratatui::style::{Color as TerminalColor, Style};
use tui_textarea::{Input, Key};

fn style() -> WidgetStyle {
    WidgetStyle::new(Style::default().fg(TerminalColor::Blue), Style::default().fg(TerminalColor::Red))
}

fn users() -> Vec<String> {
    vec!["alice".to_string(), "bob".to_string()]
}

#[test]
fn sizes_are_fixed() {
    assert_eq!(MESSAGES_PERCENT, 90);
    assert_eq!(SCREEN_PERCENT, 100);
    assert_eq!(POPUP_WIDTH, 21);
    assert_eq!(POPUP_HEIGHT, 5);
}

#[test]
fn widget_style_keeps_what_it_was_given() {
    let style = style();
    assert_eq!(style.block_style, Style::default().fg(TerminalColor::Blue));
    assert_eq!(style.font_style, Style::default().fg(TerminalColor::Red));
}

#[test]
fn empty_area_leaves_the_list_ninety_percent() {
    let area = StatefulArea::new(style());
    let frame = render(&area, &"room".to_string(), false, &PopupState::Hidden, &users(), style());
    assert_eq!(frame.split, Split { messages_percent: 90, input_percent: 10 });
    assert_eq!(frame.title, "room");
    assert_eq!(frame.highlight, None);
    assert_eq!(frame.popup, None);
    assert_eq!(frame.style.font_style, style().font_style);
    assert_eq!(frame.style.block_style, style().block_style);
}

#[test]
fn list_shrinks_as_the_area_grows() {
    let mut area = StatefulArea::new(style());
    area.set_width(16);
    for c in "abcdef ghijkl mnopqr".chars() {
        area.on_input_update(Input { key: Key::Char(c), ctrl: false, alt: false, shift: false });
    }
    assert_eq!(area.height(), 2);
    let frame = render(&area, &"room".to_string(), true, &PopupState::Hidden, &users(), style());
    assert_eq!(frame.split, Split { messages_percent: 88, input_percent: 12 });
    assert_eq!(frame.highlight, Some(Color::Yellow));
}

#[test]
fn input_area_has_what_the_list_leaves() {
    let mut area = StatefulArea::new(style());
    area.set_width(7);
    for round in 0..=25u16 {
        let frame = render(&area, &"room".to_string(), false, &PopupState::Hidden, &users(), style());
        let height = round.min(20);
        assert_eq!(area.height(), height);
        assert_eq!(frame.split.messages_percent, 90 - height);
        assert_eq!(frame.split.messages_percent + frame.split.input_percent, 100);
        area.on_input_update(Input { key: Key::Char('x'), ctrl: false, alt: false, shift: false });
    }
}

#[test]
fn help_lists_the_keys() {
    assert_eq!(
        overlay(&PopupState::Help, &users()),
        Some(PopupFrame {
            title: Some("help".to_string()),
            lines: vec![
                "[ctrl+l] user list".to_string(),
                "[ctrl+j] scroll down".to_string(),
                "[ctrl+j] scroll up".to_string(),
                "[ctrl+q] exit".to_string(),
            ],
            size: Some((21, 5)),
            font_styled: false,
        })
    );
}

#[test]
fn user_list_names_the_users() {
    assert_eq!(
        overlay(&PopupState::List, &users()),
        Some(PopupFrame {
            title: Some("users list".to_string()),
            lines: users(),
            size: Some((21, 5)),
            font_styled: true,
        })
    );
}

#[test]
fn notices_are_one_line() {
    assert_eq!(
        overlay(&PopupState::Banned("alice".to_string()), &users()),
        Some(PopupFrame {
            title: None,
            lines: vec!["alice has been banned!".to_string()],
            size: None,
            font_styled: true,
        })
    );
    assert_eq!(
        overlay(&PopupState::JoinedLeft("bob".to_string(), true), &users()),
        Some(PopupFrame {
            title: None,
            lines: vec!["bob has joined".to_string()],
            size: None,
            font_styled: false,
        })
    );
    assert_eq!(
        overlay(&PopupState::JoinedLeft("bob".to_string(), false), &users()),
        Some(PopupFrame {
            title: None,
            lines: vec!["bob has left".to_string()],
            size: None,
            font_styled: false,
        })
    );
    assert_eq!(overlay(&PopupState::Hidden, &users()), None);
}
