//! A chat message as it is shown in the message list: styled pieces of text,
//! line by line.

use crate::style::{
    mention_style, plain_style, sender_style, timestamp_style, Color, TextStyle,
};
use ratatui::style::{Style, Stylize};
use regex::Regex;
use tui_pattern_highlighter::highlight_text;
use vstd::prelude::*;
use vstd::string::*;

verus! {

/// The pattern of a mention: an at sign and the word behind it.
pub const MENTION_PATTERN: &'static str = r"@(\w+)";

/// A chat message as it arrives.
#[derive(Clone, Debug)]
pub struct Message {
    /// Name of the sender.
    pub sender_id: String,
    /// The sender's colour.
    pub sender_color: Color,
    /// When the message was sent, as it is to be shown.
    pub timestamp: String,
    /// The text of the message.
    pub content: String,
}

/// A piece of text with one style.
#[derive(Clone, Debug, PartialEq, Eq)]
pub struct Span {
    pub text: String,
    pub style: TextStyle,
}

/// The mathematical value of a [`Span`].
pub struct Piece {
    pub text: Seq<char>,
    pub style: TextStyle,
}

impl View for Span {
    type V = Piece;

    open spec fn view(&self) -> Piece {
        Piece { text: self.text@, style: self.style }
    }
}

/// A message laid out for the list: its lines, each a row of spans, and the
/// colour that text without one of its own is drawn in.
#[derive(Clone, Debug, PartialEq, Eq)]
pub struct MessageItem {
    pub lines: Vec<Vec<Span>>,
    pub color: Color,
}

/// The mathematical value of a [`MessageItem`].
pub struct Item {
    pub lines: Seq<Seq<Piece>>,
    pub color: Color,
}

/// The values of a row of spans.
pub open spec fn row_view(row: Seq<Span>) -> Seq<Piece> {
    row.map_values(|span: Span| span@)
}

/// The values of rows of spans.
pub open spec fn rows_view(rows: Seq<Vec<Span>>) -> Seq<Seq<Piece>> {
    rows.map_values(|row: Vec<Span>| row_view(row@))
}

impl View for MessageItem {
    type V = Item;

    open spec fn view(&self) -> Item {
        Item { lines: rows_view(self.lines@), color: self.color }
    }
}

/// The lines of `content` cut into pieces, each marked as matching `pattern`
/// or not, as `tui_pattern_highlighter` cuts them; `None` where `regex` does
/// not take `pattern` for a regular expression.
pub uninterp spec fn highlighted(content: Seq<char>, pattern: Seq<char>) -> Option<
    Seq<Seq<(Seq<char>, bool)>>,
>;

/// `tui_pattern_highlighter::highlight_text` with a pattern that
/// `regex::Regex::new` compiled: the pieces of each line of `content`, with
/// those that the highlighter styled marked `true`. Nothing is claimed of the
/// cut but that the same text and pattern always give the same.
#[verifier::external_body]
fn highlight(content: &str, pattern: &str) -> (rows: Option<Vec<Vec<(String, bool)>>>)
    ensures
        rows.deep_view() == highlighted(content@, pattern@),
{
    let regex = Regex::new(pattern).ok()?;
    let mark = Style::new().bold();
    let text = highlight_text(content, &regex, mark);
    let pieces = |line: ratatui::text::Line| line.spans.into_iter().map(
        |span| (span.content.into_owned(), span.style == mark),
    ).collect();
    Some(text.lines.into_iter().map(pieces).collect())
}

/// The first line of a message: the sender's name, and the time behind a
/// space.
pub open spec fn header_row(sender: Seq<char>, timestamp: Seq<char>) -> Seq<Piece> {
    seq![
        Piece { text: sender, style: sender_style() },
        Piece { text: seq![' '] + timestamp, style: timestamp_style() },
    ]
}

/// One line of a message's text: its pieces in order, the marked ones styled
/// as mentions.
pub open spec fn body_row(pieces: Seq<(Seq<char>, bool)>) -> Seq<Piece> {
    pieces.map_values(
        |piece: (Seq<char>, bool)|
            Piece { text: piece.0, style: if piece.1 { mention_style() } else { plain_style() } },
    )
}

/// The lines of a message: the header, the lines of its text, and an empty
/// line that sets it off from the next message.
pub open spec fn item_rows(
    sender: Seq<char>,
    timestamp: Seq<char>,
    body: Seq<Seq<(Seq<char>, bool)>>,
) -> Seq<Seq<Piece>> {
    seq![header_row(sender, timestamp)] + body.map_values(
        |pieces: Seq<(Seq<char>, bool)>| body_row(pieces),
    ) + seq![Seq::<Piece>::empty()]
}

/// A text that was cut at nothing: a single unmarked piece, which stands in
/// where no cut can be had.
pub open spec fn uncut(content: Seq<char>) -> Seq<Seq<(Seq<char>, bool)>> {
    seq![seq![(content, false)]]
}

/// The item that shows a message whose text was cut into `body`.
pub open spec fn item_of(message: Message, body: Option<Seq<Seq<(Seq<char>, bool)>>>) -> Item {
    Item {
        lines: item_rows(
            message.sender_id@,
            message.timestamp@,
            match body {
                Some(rows) => rows,
                None => uncut(message.content@),
            },
        ),
        color: message.sender_color,
    }
}

/// Lays out one line of a message's text.
fn styled_row(pieces: &Vec<(String, bool)>) -> (row: Vec<Span>)
    ensures
        row_view(row@) == body_row(pieces.deep_view()),
{
    let mut row: Vec<Span> = Vec::new();
    let mut i: usize = 0;
    while i < pieces.len()
        invariant
            i <= pieces.len(),
            row@.len() == i,
            forall|k: int| 0 <= k < i ==> (#[trigger] row@[k])@ == body_row(pieces.deep_view())[k],
        decreases pieces.len() - i,
    {
        let style: TextStyle = if pieces[i].1 { TextStyle::mention() } else { TextStyle::plain() };
        let text: String = pieces[i].0.clone();
        proof {
            assert(pieces.deep_view()[i as int] == (pieces[i as int].0@, pieces[i as int].1));
        }
        row.push(Span { text, style });
        i = i + 1;
    }
    assert(row_view(row@) =~= body_row(pieces.deep_view()));
    row
}

impl MessageItem {
    /// Lays out `message` with its text cut into `body`, or uncut where
    /// there is no cut.
    pub fn with_body(message: Message, body: Option<Vec<Vec<(String, bool)>>>) -> (item:
        MessageItem)
        ensures
            item@ == item_of(message, body.deep_view()),
    {
        let ghost sender = message.sender_id@;
        let ghost timestamp = message.timestamp@;
        let color: Color = message.sender_color;
        let mut time: String = String::from_str(" ");
        proof {
            reveal_strlit(" ");
            assert(" "@ =~= seq![' ']);
        }
        time.append(message.timestamp.as_str());
        let mut header: Vec<Span> = Vec::new();
        header.push(Span { text: message.sender_id, style: TextStyle::sender() });
        header.push(Span { text: time, style: TextStyle::timestamp() });
        assert(row_view(header@) =~= header_row(sender, timestamp)) by {
            assert(header@[0]@ == header_row(sender, timestamp)[0]);
            assert(header@[1]@ == header_row(sender, timestamp)[1]);
        }
        let cut: Vec<Vec<(String, bool)>> = match body {
            Some(rows) => rows,
            None => {
                let mut piece: Vec<(String, bool)> = Vec::new();
                piece.push((message.content, false));
                let mut rows: Vec<Vec<(String, bool)>> = Vec::new();
                rows.push(piece);
                assert(rows.deep_view() =~= uncut(message.content@)) by {
                    assert(rows.deep_view()[0] =~= seq![(message.content@, false)]);
                }
                rows
            },
        };
        let ghost rows = cut.deep_view();
        let ghost wanted = item_rows(sender, timestamp, rows);
        let mut lines: Vec<Vec<Span>> = Vec::new();
        lines.push(header);
        let mut i: usize = 0;
        while i < cut.len()
            invariant
                i <= cut.len(),
                rows == cut.deep_view(),
                wanted == item_rows(sender, timestamp, rows),
                lines@.len() == i + 1,
                forall|k: int| 0 <= k < i + 1 ==> row_view((#[trigger] lines@[k])@) == wanted[k],
            decreases cut.len() - i,
        {
            let row: Vec<Span> = styled_row(&cut[i]);
            lines.push(row);
            i = i + 1;
        }
        lines.push(Vec::new());
        assert(rows_view(lines@) =~= wanted) by {
            assert(row_view(lines@[cut.len() + 1]@) =~= Seq::<Piece>::empty());
        }
        MessageItem { lines, color }
    }
}

impl vstd::std_specs::convert::FromSpecImpl<Message> for MessageItem {
    /// The conversion is specified by the value of its result, which does
    /// not single out one vector of spans.
    open spec fn obeys_from_spec() -> bool {
        false
    }

    open spec fn from_spec(v: Message) -> MessageItem {
        choose|item: MessageItem| #[trigger]
            item@ == item_of(v, highlighted(v.content@, MENTION_PATTERN@))
    }
}

impl From<Message> for MessageItem {
    /// Lays out `value`, its mentions marked.
    fn from(value: Message) -> (item: MessageItem)
        ensures
            item@ == item_of(value, highlighted(value.content@, MENTION_PATTERN@)),
    {
        let body: Option<Vec<Vec<(String, bool)>>> = highlight(
            value.content.as_str(),
            MENTION_PATTERN,
        );
        MessageItem::with_body(value, body)
    }
}

} // verus!
