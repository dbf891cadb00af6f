//! What holds of an input area while text is typed into it, one character at
//! a time.

use crate::area::{
    after_input, overflows, reflowed, settled, submitted, AreaState, MARGIN, MAX_AREA_HEIGHT,
};
use crate::text::{
    content, empty_text, end_of, is_blank, is_space, joined, lemma_last_word_of,
    lemma_trailing_word, lemma_unbroken_word, poured, trailing_word_len, with_char, with_last,
    with_new_line,
};
use crate::textarea::{after_key, is_line_break};
use tui_textarea::{Input, Key};
use vstd::prelude::*;

verus! {

/// The key press that types `c`: the character's key with no modifier held.
pub open spec fn char_key(c: char) -> Input {
    Input { key: Key::Char(c), ctrl: false, alt: false, shift: false }
}

/// `lines` after `text` is typed at their end with no regard to width: every
/// line break opens a new line, every other character joins the last line.
pub open spec fn typed(lines: Seq<Seq<char>>, text: Seq<char>) -> Seq<Seq<char>>
    decreases text.len(),
{
    if text.len() == 0 {
        lines
    } else if is_line_break(text.last()) {
        with_new_line(typed(lines, text.drop_last()))
    } else {
        with_char(typed(lines, text.drop_last()), text.last())
    }
}

/// The state of an area after the characters of `text` were typed into it in
/// turn.
pub open spec fn after_typing(s: AreaState, text: Seq<char>) -> AreaState
    decreases text.len(),
{
    if text.len() == 0 {
        s
    } else {
        after_input(after_typing(s, text.drop_last()), char_key(text.last()), Seq::empty())
    }
}

/// Whether every line of `s` fits the room its width leaves, the last line
/// with room to spare.
pub open spec fn within_bounds(s: AreaState) -> bool {
    &&& s.width > MARGIN
    &&& s.lines.len() > 0
    &&& forall|i: int| 0 <= i < s.lines.len() ==> (#[trigger] s.lines[i]).len() <= s.width - MARGIN
    &&& s.lines.last().len() < s.width - MARGIN
}

/// What a typed character does to an area does not depend on the tab
/// settings.
pub proof fn lemma_typing_ignores_padding(s: AreaState, c: char, padding: Seq<char>)
    ensures
        after_input(s, char_key(c), padding) == after_input(s, char_key(c), Seq::empty()),
{
}

/// Every key press leaves an area with at least one line and with a height
/// that has not shrunk and is no more than `MAX_AREA_HEIGHT`.
pub proof fn lemma_input_keeps_shape(s: AreaState, input: Input, padding: Seq<char>)
    requires
        s.lines.len() > 0,
        s.height <= MAX_AREA_HEIGHT,
    ensures
        after_input(s, input, padding).lines.len() > 0,
        s.height <= after_input(s, input, padding).height <= MAX_AREA_HEIGHT,
        after_input(s, input, padding).width == s.width,
{
}

/// Typing that never lets the last line reach the room left for text causes
/// no reflow: the area then holds exactly what was typed, and asks for no
/// further row.
pub proof fn lemma_typing_within_bounds(s: AreaState, text: Seq<char>)
    requires
        s.lines.len() > 0,
        forall|n: int| 1 <= n <= text.len() ==> !overflows(typed(s.lines, #[trigger] text.take(n)), s.width),
    ensures
        after_typing(s, text) == (AreaState { lines: typed(s.lines, text), ..s }),
    decreases text.len(),
{
    if text.len() > 0 {
        let head = text.drop_last();
        assert forall|n: int| 1 <= n <= head.len() implies !overflows(
            typed(s.lines, #[trigger] head.take(n)),
            s.width,
        ) by {
            assert(head.take(n) == text.take(n));
        }
        lemma_typing_within_bounds(s, head);
        assert(text.take(text.len() as int) == text);
    }
}

/// Typed text always has a last line.
pub proof fn lemma_typed_has_lines(lines: Seq<Seq<char>>, text: Seq<char>)
    requires
        lines.len() > 0,
    ensures
        typed(lines, text).len() > 0,
    decreases text.len(),
{
    if text.len() > 0 {
        lemma_typed_has_lines(lines, text.drop_last());
    }
}

/// Text typed into an empty area reads back as it was typed, line feeds
/// where new lines were opened. (A carriage return opens a new line too, and
/// so reads back as a line feed: it is left out here.)
pub proof fn lemma_typed_text_reads_back(text: Seq<char>)
    requires
        forall|i: int| 0 <= i < text.len() ==> text[i] != '\r',
    ensures
        joined(typed(empty_text(), text)) == text,
    decreases text.len(),
{
    if text.len() == 0 {
        assert(joined(empty_text()) =~= text);
    } else {
        let head = text.drop_last();
        let before = typed(empty_text(), head);
        lemma_typed_text_reads_back(head);
        lemma_typed_has_lines(empty_text(), head);
        let c = text.last();
        if is_line_break(c) {
            let after = with_new_line(before);
            assert(after.drop_last() == before);
            assert(joined(after) =~= head + seq!['\n'] + Seq::<char>::empty());
            assert(joined(after) =~= text);
        } else {
            let after = with_char(before, c);
            if before.len() == 1 {
                assert(joined(after) =~= joined(before).push(c));
            } else {
                assert(after.drop_last() == before.drop_last());
                assert(joined(after) =~= joined(before).push(c));
            }
            assert(joined(after) =~= text);
        }
    }
}

/// What is sent of text typed into an empty area is that text, less a line
/// feed that ends it.
pub proof fn lemma_typed_text_is_sent(text: Seq<char>)
    requires
        forall|i: int| 0 <= i < text.len() ==> text[i] != '\r',
    ensures
        content(typed(empty_text(), text)) == (if text.len() > 0 && text.last() == '\n' {
            text.drop_last()
        } else {
            text
        }),
{
    lemma_typed_text_reads_back(text);
    if text.len() > 0 {
        let head = text.drop_last();
        lemma_typed_has_lines(empty_text(), head);
        lemma_typed_text_reads_back(head);
        if text.last() == '\n' {
            assert(with_new_line(typed(empty_text(), head)).drop_last() == typed(
                empty_text(),
                head,
            ));
        }
    }
}

/// Text typed into an empty area is held back as blank exactly where all of
/// it is white space.
pub proof fn lemma_typed_text_is_blank(text: Seq<char>)
    ensures
        is_blank(typed(empty_text(), text)) <==> forall|i: int|
            0 <= i < text.len() ==> is_space(#[trigger] text[i]),
    decreases text.len(),
{
    if text.len() > 0 {
        let head = text.drop_last();
        let before = typed(empty_text(), head);
        let after = typed(empty_text(), text);
        let c = text.last();
        lemma_typed_text_is_blank(head);
        lemma_typed_has_lines(empty_text(), head);
        let last = before.len() - 1;
        if is_blank(after) {
            assert forall|i: int| 0 <= i < text.len() implies is_space(#[trigger] text[i]) by {
                assert forall|a: int, b: int|
                    0 <= a < before.len() && 0 <= b < before[a].len() implies is_space(
                    #[trigger] before[a][b],
                ) by {
                    assert(before[a][b] == after[a][b]);
                }
                if i < head.len() {
                    assert(text[i] == head[i]);
                } else if !is_line_break(c) {
                    assert(after[last][before[last].len() as int] == c);
                }
            }
        }
        if forall|i: int| 0 <= i < text.len() ==> is_space(#[trigger] text[i]) {
            assert forall|i: int| 0 <= i < head.len() implies is_space(#[trigger] head[i]) by {
                assert(head[i] == text[i]);
            }
            assert(is_space(text[text.len() - 1]));
            assert forall|a: int, b: int|
                0 <= a < after.len() && 0 <= b < after[a].len() implies is_space(
                #[trigger] after[a][b],
            ) by {
                if a < before.len() && b < before[a].len() {
                    assert(after[a][b] == before[a][b]);
                }
            }
        }
    }
}

/// A character typed behind one unbroken word that fills its line is cut
/// again: the word cannot grow past the room left for text.
pub proof fn lemma_long_word_is_cut(s: AreaState, c: char, padding: Seq<char>)
    requires
        s.lines.len() > 0,
        !is_space(c),
        trailing_word_len(s.lines.last()) == s.lines.last().len(),
        overflows(with_char(s.lines, c), s.width),
    ensures
        after_input(s, char_key(c), padding).lines == s.lines,
{
    let line = s.lines.last();
    let longer = line.push(c);
    assert(longer.drop_last() == line);
    assert(with_last(with_char(s.lines, c), line) =~= s.lines);
}

/// A reflow that finds white space in the line moves exactly the last word
/// to a new line: no earlier line changes, and the two lines that come of
/// the overflowing one hold its characters in their order, so that the text
/// as a whole keeps its characters.
pub proof fn lemma_wrap_moves_last_word(lines: Seq<Seq<char>>)
    requires
        lines.len() > 0,
        trailing_word_len(lines.last()) < lines.last().len(),
    ensures
        reflowed(lines).len() == lines.len() + 1,
        reflowed(lines).take(lines.len() - 1) == lines.drop_last(),
        reflowed(lines).last() == lines.last().skip(
            lines.last().len() - trailing_word_len(lines.last()),
        ),
        reflowed(lines)[lines.len() - 1] + reflowed(lines).last() == lines.last(),
        poured(reflowed(lines)) == poured(lines),
{
    let line = lines.last();
    let word = trailing_word_len(line);
    let front = line.take(line.len() - word);
    let back = line.skip(line.len() - word);
    let kept = with_last(lines, front);
    assert(front + back =~= line);
    assert(reflowed(lines).take(lines.len() - 1) =~= lines.drop_last());
    assert(reflowed(lines).drop_last() =~= kept);
    assert(kept.drop_last() =~= lines.drop_last());
    assert(poured(reflowed(lines)) == poured(kept) + back);
    assert(poured(kept) == poured(lines.drop_last()) + front);
    assert(poured(lines) == poured(lines.drop_last()) + line);
    assert(poured(lines.drop_last()) + front + back =~= poured(lines.drop_last()) + line);
}

/// An overflowing last line that holds no white space is one unbroken word:
/// it loses its last character, no line is added, and no other line changes.
pub proof fn lemma_unbroken_line_is_cut(s: AreaState)
    requires
        s.lines.len() > 0,
        s.lines.last().len() > 0,
        overflows(s.lines, s.width),
        forall|i: int| 0 <= i < s.lines.last().len() ==> !is_space(#[trigger] s.lines.last()[i]),
    ensures
        settled(s).lines == with_last(s.lines, s.lines.last().drop_last()),
        settled(s).lines.len() == s.lines.len(),
        settled(s).lines.drop_last() == s.lines.drop_last(),
        end_of(settled(s).lines) == (
            (s.lines.len() - 1) as nat,
            (s.lines.last().len() - 1) as nat,
        ),
{
    lemma_unbroken_word(s.lines.last());
    assert(settled(s).lines.drop_last() =~= s.lines.drop_last());
}

/// An overflowing last line that is a word behind white space has exactly
/// that word moved to a new line: what stood before the word stays, the
/// word is the new last line with the cursor behind it, no other line
/// changes, and the text as a whole keeps its characters.
pub proof fn lemma_last_word_moves(s: AreaState, front: Seq<char>, word: Seq<char>)
    requires
        s.lines.len() > 0,
        s.lines.last() == front + word,
        front.len() > 0,
        is_space(front.last()),
        forall|i: int| 0 <= i < word.len() ==> !is_space(#[trigger] word[i]),
        overflows(s.lines, s.width),
    ensures
        settled(s).lines == with_last(s.lines, front).push(word),
        settled(s).lines.len() == s.lines.len() + 1,
        settled(s).lines.take(s.lines.len() - 1) == s.lines.drop_last(),
        end_of(settled(s).lines) == (s.lines.len(), word.len()),
        poured(settled(s).lines) == poured(s.lines),
{
    let line = s.lines.last();
    lemma_last_word_of(front, word);
    lemma_wrap_moves_last_word(s.lines);
    assert(line.take(line.len() - word.len()) =~= front);
    assert(line.skip(line.len() - word.len()) =~= word);
}

/// While characters are typed, no line grows past the room left for text, and
/// the last line keeps room to spare.
pub proof fn lemma_typing_stays_within_bounds(s: AreaState, c: char, padding: Seq<char>)
    requires
        within_bounds(s),
    ensures
        within_bounds(after_input(s, char_key(c), padding)),
{
    let input = char_key(c);
    let keyed = after_key(s.lines, input, padding);
    let after = after_input(s, input, padding);
    let room = s.width - MARGIN;
    if is_line_break(c) {
        assert forall|i: int| 0 <= i < after.lines.len() implies (#[trigger] after.lines[i]).len()
            <= room by {
            if i < s.lines.len() {
                assert(after.lines[i] == s.lines[i]);
            }
        }
    } else {
        let line = keyed.last();
        assert(line == s.lines.last().push(c));
        lemma_trailing_word(line);
        assert forall|i: int| 0 <= i < after.lines.len() implies (#[trigger] after.lines[i]).len()
            <= room by {
            if i < s.lines.len() - 1 {
                assert(after.lines[i] == s.lines[i]);
            }
        }
    }
}

/// An area that was drained has nothing to send.
pub proof fn lemma_drained_area_sends_nothing(s: AreaState)
    ensures
        submitted((AreaState { lines: empty_text(), ..s }).lines) is None,
{
}

} // verus!
