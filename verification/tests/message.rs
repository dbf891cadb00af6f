use kioto::message::{Message, MessageItem, Span, MENTION_PATTERN};
use kioto::style::{Color, TextStyle};

fn message(content: &str) -> Message {
    Message {
        sender_id: "alice".to_string(),
        sender_color: Color::Cyan,
        timestamp: "12:30".to_string(),
        content: content.to_string(),
    }
}

fn span(text: &str, style: TextStyle) -> Span {
    Span { text: text.to_string(), style }
}

fn header() -> Vec<Span> {
    vec![span("alice", TextStyle::sender()), span(" 12:30", TextStyle::timestamp())]
}

#[test]
fn styles_are_as_described() {
    assert_eq!(TextStyle::plain(), TextStyle { fg: None, bg: None, bold: false, italic: false });
    assert_eq!(TextStyle::sender(), TextStyle { fg: None, bg: None, bold: true, italic: false });
    assert_eq!(
        TextStyle::timestamp(),
        TextStyle { fg: Some(Color::Rgb(50, 50, 50)), bg: None, bold: false, italic: true }
    );
    assert_eq!(
        TextStyle::mention(),
        TextStyle { fg: Some(Color::Black), bg: Some(Color::White), bold: true, italic: false }
    );
    assert_eq!(MENTION_PATTERN, r"@(\w+)");
}

#[test]
fn message_without_mention_is_one_plain_line() {
    let item = MessageItem::from(message("hello there"));
    assert_eq!(
        item.lines,
        vec![header(), vec![span("hello there", TextStyle::plain())], vec![]]
    );
    assert_eq!(item.color, Color::Cyan);
}

#[test]
fn mentions_are_set_off() {
    let item = MessageItem::from(message("Hi @buddy\n@stranger hello"));
    assert_eq!(
        item.lines,
        vec![
            header(),
            vec![span("Hi ", TextStyle::plain()), span("@buddy", TextStyle::mention())],
            vec![span("@stranger", TextStyle::mention()), span(" hello", TextStyle::plain())],
            vec![],
        ]
    );
}

#[test]
fn lone_at_sign_is_no_mention() {
    let item = MessageItem::from(message("mail me @ home, @bob!"));
    assert_eq!(
        item.lines[1],
        vec![
            span("mail me @ home, ", TextStyle::plain()),
            span("@bob", TextStyle::mention()),
            span("!", TextStyle::plain()),
        ]
    );
}

#[test]
fn empty_message_has_header_and_blank_line() {
    let item = MessageItem::from(message(""));
    assert_eq!(item.lines, vec![header(), vec![]]);
}

#[test]
fn given_cut_is_laid_out_as_given() {
    let body = vec![
        vec![("a".to_string(), false), ("b".to_string(), true)],
        vec![],
        vec![("c".to_string(), true)],
    ];
    let item = MessageItem::with_body(message("ignored"), Some(body));
    assert_eq!(
        item.lines,
        vec![
            header(),
            vec![span("a", TextStyle::plain()), span("b", TextStyle::mention())],
            vec![],
            vec![span("c", TextStyle::mention())],
            vec![],
        ]
    );
}

#[test]
fn message_without_a_cut_is_shown_whole() {
    let item = MessageItem::with_body(message("all @of it\nhere"), None);
    assert_eq!(
        item.lines,
        vec![header(), vec![span("all @of it\nhere", TextStyle::plain())], vec![]]
    );
    assert_eq!(item.color, Color::Cyan);
}
