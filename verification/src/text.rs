//! The text of the input area as plain lines of characters: what a word is,
//! how lines are edited at their end, and how they are joined for sending.

use vstd::prelude::*;
use vstd::string::*;

verus! {

/// Whether `c` is white space, as Unicode classes its characters
/// (`White_Space`).
pub open spec fn is_space(c: char) -> bool {
    let u = c as u32;
    ||| 0x09 <= u <= 0x0D
    ||| u == 0x20
    ||| u == 0x85
    ||| u == 0xA0
    ||| u == 0x1680
    ||| 0x2000 <= u <= 0x200A
    ||| u == 0x2028
    ||| u == 0x2029
    ||| u == 0x202F
    ||| u == 0x205F
    ||| u == 0x3000
}

/// Tells white space from everything else.
pub fn is_whitespace(c: char) -> (space: bool)
    ensures
        space == is_space(c),
{
    let u: u32 = c as u32;
    (0x09 <= u && u <= 0x0D) || u == 0x20 || u == 0x85 || u == 0xA0 || u == 0x1680 || (0x2000 <= u
        && u <= 0x200A) || u == 0x2028 || u == 0x2029 || u == 0x202F || u == 0x205F || u == 0x3000
}

/// The length of the last word of `line`: its longest suffix that holds no
/// white space. It is zero where the line is empty or ends in white space.
pub open spec fn trailing_word_len(line: Seq<char>) -> nat
    decreases line.len(),
{
    if line.len() == 0 || is_space(line.last()) {
        0
    } else {
        1 + trailing_word_len(line.drop_last())
    }
}

/// The last word of a line is a suffix of it, holds no white space, and is
/// preceded by white space unless it starts the line.
pub proof fn lemma_trailing_word(line: Seq<char>)
    ensures
        trailing_word_len(line) <= line.len(),
        forall|i: int|
            line.len() - trailing_word_len(line) <= i < line.len() ==> !is_space(#[trigger] line[i]),
        trailing_word_len(line) < line.len() ==> is_space(
            line[line.len() - trailing_word_len(line) - 1],
        ),
    decreases line.len(),
{
    if line.len() > 0 && !is_space(line.last()) {
        let head = line.drop_last();
        lemma_trailing_word(head);
        assert forall|i: int|
            line.len() - trailing_word_len(line) <= i < line.len() implies !is_space(
            #[trigger] line[i],
        ) by {
            if i < head.len() {
                assert(line[i] == head[i]);
            }
        }
    }
}

/// A line without white space is its own last word.
pub proof fn lemma_unbroken_word(line: Seq<char>)
    requires
        forall|i: int| 0 <= i < line.len() ==> !is_space(#[trigger] line[i]),
    ensures
        trailing_word_len(line) == line.len(),
    decreases line.len(),
{
    if line.len() > 0 {
        let head = line.drop_last();
        assert forall|i: int| 0 <= i < head.len() implies !is_space(#[trigger] head[i]) by {
            assert(head[i] == line[i]);
        }
        lemma_unbroken_word(head);
    }
}

/// Behind white space, a word without any is the last word of the line.
pub proof fn lemma_last_word_of(front: Seq<char>, word: Seq<char>)
    requires
        front.len() > 0,
        is_space(front.last()),
        forall|i: int| 0 <= i < word.len() ==> !is_space(#[trigger] word[i]),
    ensures
        trailing_word_len(front + word) == word.len(),
    decreases word.len(),
{
    let line = front + word;
    if word.len() == 0 {
        assert(line =~= front);
    } else {
        let head = word.drop_last();
        assert(line.last() == word[word.len() - 1]);
        assert(line.drop_last() =~= front + head);
        assert forall|i: int| 0 <= i < head.len() implies !is_space(#[trigger] head[i]) by {
            assert(head[i] == word[i]);
        }
        lemma_last_word_of(front, head);
    }
}

/// Measures the last word of `line`.
pub fn last_word_len(line: &str) -> (len: usize)
    ensures
        len == trailing_word_len(line@),
{
    let total: usize = line.unicode_len();
    let mut len: usize = 0;
    assert(line@.take(total as int) == line@);
    while len < total
        invariant
            total == line@.len(),
            len <= total,
            trailing_word_len(line@) == len + trailing_word_len(line@.take(total - len)),
        decreases total - len,
    {
        let c: char = line.get_char(total - len - 1);
        proof {
            let head = line@.take(total - len);
            assert(head.last() == c);
            assert(head.drop_last() == line@.take(total - len - 1));
        }
        if is_whitespace(c) {
            return len;
        }
        len = len + 1;
    }
    len
}

/// `lines` with its last line replaced by `line`.
pub open spec fn with_last(lines: Seq<Seq<char>>, line: Seq<char>) -> Seq<Seq<char>> {
    lines.drop_last().push(line)
}

/// `lines` after `c` is typed at the end of the last line.
pub open spec fn with_char(lines: Seq<Seq<char>>, c: char) -> Seq<Seq<char>> {
    with_last(lines, lines.last().push(c))
}

/// `lines` after `text` is typed at the end of the last line.
pub open spec fn with_text(lines: Seq<Seq<char>>, text: Seq<char>) -> Seq<Seq<char>> {
    with_last(lines, lines.last() + text)
}

/// `lines` after a new, empty last line is opened.
pub open spec fn with_new_line(lines: Seq<Seq<char>>) -> Seq<Seq<char>> {
    lines.push(Seq::empty())
}

/// `lines` after deleting backwards from the end of the text: the last
/// character of the last line goes, or the last line itself where it is empty
/// and not the only one. A single empty line stays as it is.
pub open spec fn with_backspace(lines: Seq<Seq<char>>) -> Seq<Seq<char>> {
    if lines.last().len() > 0 {
        with_last(lines, lines.last().drop_last())
    } else if lines.len() > 1 {
        lines.drop_last()
    } else {
        lines
    }
}

/// `lines` after deleting from the end of the text back to the head of the
/// last line: the last line is emptied, or removed where it is empty already
/// and not the only one. A single empty line stays as it is.
pub open spec fn with_line_erased(lines: Seq<Seq<char>>) -> Seq<Seq<char>> {
    if lines.last().len() > 0 {
        with_last(lines, Seq::empty())
    } else if lines.len() > 1 {
        lines.drop_last()
    } else {
        lines
    }
}

/// Whether deleting backwards from the end of `lines` finds anything to delete.
pub open spec fn can_delete(lines: Seq<Seq<char>>) -> bool {
    lines.last().len() > 0 || lines.len() > 1
}

/// The end of the text, as line and column counted from zero: behind the
/// last character of the last line.
pub open spec fn end_of(lines: Seq<Seq<char>>) -> (nat, nat) {
    ((lines.len() - 1) as nat, lines.last().len())
}

/// The characters of `lines` in their order, with nothing between the lines.
pub open spec fn poured(lines: Seq<Seq<char>>) -> Seq<char>
    decreases lines.len(),
{
    if lines.len() == 0 {
        Seq::empty()
    } else {
        poured(lines.drop_last()) + lines.last()
    }
}

/// A text of one empty line: what an input area holds before anything is typed.
pub open spec fn empty_text() -> Seq<Seq<char>> {
    seq![Seq::<char>::empty()]
}

/// The lines joined into one text, a line feed between each two.
pub open spec fn joined(lines: Seq<Seq<char>>) -> Seq<char>
    decreases lines.len(),
{
    if lines.len() == 0 {
        Seq::empty()
    } else if lines.len() == 1 {
        lines[0]
    } else {
        joined(lines.drop_last()) + seq!['\n'] + lines.last()
    }
}

/// The text that `lines` stand for when sent: the lines joined, but for an
/// empty last line, which is left out.
pub open spec fn content(lines: Seq<Seq<char>>) -> Seq<char> {
    if lines.len() > 1 && lines.last().len() == 0 {
        joined(lines.drop_last())
    } else {
        joined(lines)
    }
}

/// Whether `lines` hold nothing but white space.
pub open spec fn is_blank(lines: Seq<Seq<char>>) -> bool {
    forall|i: int, j: int|
        0 <= i < lines.len() && 0 <= j < lines[i].len() ==> is_space(#[trigger] lines[i][j])
}

/// The views of the given strings, line by line.
pub open spec fn line_views(lines: Seq<String>) -> Seq<Seq<char>> {
    lines.map_values(|line: String| line@)
}

/// Joins `lines` into the text that is sent.
pub fn content_of(lines: &Vec<String>) -> (text: String)
    ensures
        text@ == content(line_views(lines@)),
{
    let ghost views = line_views(lines@);
    let total: usize = lines.len();
    let kept: usize = if total > 1 && lines[total - 1].as_str().unicode_len() == 0 {
        total - 1
    } else {
        total
    };
    let mut text: String = String::new();
    let mut i: usize = 0;
    while i < kept
        invariant
            views == line_views(lines@),
            i <= kept <= lines.len(),
            text@ == joined(views.take(i as int)),
        decreases kept - i,
    {
        proof {
            reveal_strlit("\n");
            assert(views.take(i + 1).drop_last() == views.take(i as int));
            assert(views.take(i + 1).last() == lines[i as int]@);
        }
        if i > 0 {
            text.append("\n");
        }
        text.append(lines[i].as_str());
        i = i + 1;
    }
    proof {
        assert(views.take(total as int) == views);
        if total > 0 {
            assert(views.take(total - 1) == views.drop_last());
        }
    }
    text
}

/// Tells whether `lines` hold nothing but white space.
pub fn only_white_space(lines: &Vec<String>) -> (blank: bool)
    ensures
        blank == is_blank(line_views(lines@)),
{
    let ghost views = line_views(lines@);
    let mut i: usize = 0;
    while i < lines.len()
        invariant
            views == line_views(lines@),
            i <= lines.len(),
            forall|a: int, b: int|
                0 <= a < i && 0 <= b < views[a].len() ==> is_space(#[trigger] views[a][b]),
        decreases lines.len() - i,
    {
        let line: &str = lines[i].as_str();
        let len: usize = line.unicode_len();
        let mut j: usize = 0;
        while j < len
            invariant
                views == line_views(lines@),
                i < lines.len(),
                line@ == views[i as int],
                len == line@.len(),
                j <= len,
                forall|b: int| 0 <= b < j ==> is_space(#[trigger] views[i as int][b]),
            decreases len - j,
        {
            if !is_whitespace(line.get_char(j)) {
                assert(!is_space(views[i as int][j as int]));
                return false;
            }
            j = j + 1;
        }
        i = i + 1;
    }
    true
}

/// Whether two texts are the same.
pub fn str_equal(a: &str, b: &str) -> (same: bool)
    ensures
        same == (a@ == b@),
{
    let len: usize = a.unicode_len();
    if len != b.unicode_len() {
        return false;
    }
    let mut i: usize = 0;
    while i < len
        invariant
            len == a@.len(),
            len == b@.len(),
            i <= len,
            forall|k: int| 0 <= k < i ==> a@[k] == b@[k],
        decreases len - i,
    {
        if a.get_char(i) != b.get_char(i) {
            return false;
        }
        i = i + 1;
    }
    assert(a@ =~= b@);
    true
}

} // verus!
