//! Where the text cursor stands, as a page and the input method report it.
use crate::text;
use crate::text::{chars_of, parse_i32_characters, starts_with};
use vstd::prelude::*;
use vstd::string::*;

verus! {

/// The rectangle of the text cursor, in pixels of the page.
#[derive(Clone, Copy, Debug, PartialEq, Eq, Structural)]
pub struct Caret {
    pub x: i32,
    pub y: i32,
    pub width: i32,
    pub height: i32,
}

/// A text cut at its colons.
pub open spec fn pieces(text: Seq<char>) -> Seq<Seq<char>>
    decreases text.len(),
{
    if text.len() == 0 {
        seq![Seq::<char>::empty()]
    } else {
        let before = pieces(text.drop_last());
        if text.last() == ':' {
            before.push(Seq::<char>::empty())
        } else {
            before.update(before.len() - 1, before.last().push(text.last()))
        }
    }
}

/// The cursor that four texts spell, if each is a number.
pub open spec fn spelled(numbers: Seq<Seq<char>>) -> Option<Caret> {
    if numbers.len() != 4 {
        None
    } else {
        match (
            text::parsed_i32(numbers[0]),
            text::parsed_i32(numbers[1]),
            text::parsed_i32(numbers[2]),
            text::parsed_i32(numbers[3]),
        ) {
            (Some(x), Some(y), Some(width), Some(height)) => Some(Caret { x, y, width, height }),
            _ => None,
        }
    }
}

/// The cursor that a message on the page's console reports. Other messages report none.
pub open spec fn reported(message: Seq<char>) -> Option<Caret> {
    if text::begins_with(message, "__CARET__:"@) {
        spelled(pieces(message.skip(10)))
    } else {
        None
    }
}

/// The texts of lists of characters.
pub open spec fn views(lists: Seq<Vec<char>>) -> Seq<Seq<char>> {
    lists.map_values(|list: Vec<char>| list@)
}

/// Cuts characters at the colons, from the given one on.
fn cut(characters: &Vec<char>, from: usize) -> (parts: Vec<Vec<char>>)
    requires
        from <= characters.len(),
    ensures
        views(parts@) == pieces(characters@.skip(from as int)),
{
    let ghost all = characters@.skip(from as int);
    let mut parts: Vec<Vec<char>> = Vec::new();
    let mut current: Vec<char> = Vec::new();
    let mut index: usize = from;
    assert(all.take(0) =~= Seq::<char>::empty());
    assert(views(parts@).push(current@) =~= pieces(all.take(0)));
    while index < characters.len()
        invariant
            from <= index <= characters.len(),
            all == characters@.skip(from as int),
            views(parts@).push(current@) == pieces(all.take(index - from)),
        decreases characters.len() - index,
    {
        let character: char = characters[index];
        let ghost longer = all.take(index - from + 1);
        assert(longer.drop_last() =~= all.take(index - from));
        assert(longer.last() == character);
        let ghost before = pieces(all.take(index - from));
        let ghost part = current@;
        let ghost old_parts = parts@;
        if character == ':' {
            let mut finished: Vec<char> = Vec::new();
            std::mem::swap(&mut finished, &mut current);
            parts.push(finished);
            assert(views(parts@) =~= views(old_parts).push(part));
            assert(views(parts@).push(current@) =~= before.push(Seq::<char>::empty()));
        } else {
            current.push(character);
            assert(views(parts@).push(current@) =~= before.update(
                before.len() - 1,
                before.last().push(character),
            ));
        }
        index += 1;
    }
    assert(all.take(index - from) =~= all);
    let ghost old_parts = parts@;
    parts.push(current);
    assert(views(parts@) =~= views(old_parts).push(current@));
    parts
}

/// The cursor that a message on the page's console reports, if it reports one. Such a message is
/// kept from the console.
pub fn console_caret(message: &str) -> (caret: Option<Caret>)
    ensures
        caret == reported(message@),
{
    proof {
        reveal_strlit("__CARET__:");
    }
    if !starts_with(message, "__CARET__:") {
        return None;
    }
    let characters: Vec<char> = chars_of(message);
    let parts: Vec<Vec<char>> = cut(&characters, 10);
    if parts.len() != 4 {
        return None;
    }
    let x: Option<i32> = parse_i32_characters(&parts[0]);
    let y: Option<i32> = parse_i32_characters(&parts[1]);
    let width: Option<i32> = parse_i32_characters(&parts[2]);
    let height: Option<i32> = parse_i32_characters(&parts[3]);
    match (x, y, width, height) {
        (Some(x), Some(y), Some(width), Some(height)) => Some(Caret { x, y, width, height }),
        _ => None,
    }
}

/// The cursor behind the last of some characters.
pub open spec fn caret_behind(bounds: Seq<Caret>) -> Option<Caret> {
    if bounds.len() == 0 {
        None
    } else {
        let last = bounds.last();
        Some(Caret { x: (last.x + last.width) as i32, ..last })
    }
}

/// Where the cursor will stand once the composed text is committed: to the right of its last
/// character. `bounds` holds the rectangle of each character.
pub fn composition_caret(bounds: &[Caret]) -> (caret: Option<Caret>)
    requires
        bounds@.len() > 0 ==> i32::MIN <= bounds@.last().x + bounds@.last().width <= i32::MAX,
    ensures
        caret == caret_behind(bounds@),
{
    if bounds.len() == 0 {
        return None;
    }
    let last: Caret = bounds[bounds.len() - 1];
    Some(Caret { x: last.x + last.width, y: last.y, width: last.width, height: last.height })
}

/// A whole number in decimal, with a sign where it is negative.
pub open spec fn signed_decimal(value: i32) -> Seq<char> {
    if value < 0 {
        seq!['-'] + text::decimal((-value) as nat)
    } else {
        text::decimal(value as nat)
    }
}

/// The message with which a page reports the cursor.
pub open spec fn report(caret: Caret) -> Seq<char> {
    "__CARET__:"@ + (signed_decimal(caret.x) + seq![':'] + signed_decimal(caret.y) + seq![':']
        + signed_decimal(caret.width) + seq![':'] + signed_decimal(caret.height))
}

/// A text without a colon is one piece, and adds one behind a colon.
proof fn lemma_pieces_behind_colon(text: Seq<char>, tail: Seq<char>)
    requires
        forall|i: int| 0 <= i < tail.len() ==> #[trigger] tail[i] != ':',
    ensures
        pieces(text + seq![':'] + tail) == pieces(text).push(tail),
        pieces(tail) == seq![tail],
    decreases tail.len(),
{
    let whole = text + seq![':'] + tail;
    if tail.len() == 0 {
        assert(whole.drop_last() =~= text);
        assert(tail =~= Seq::<char>::empty());
    } else {
        let shorter = tail.drop_last();
        assert forall|i: int| 0 <= i < shorter.len() implies #[trigger] shorter[i] != ':' by {
            assert(shorter[i] == tail[i]);
        }
        lemma_pieces_behind_colon(text, shorter);
        assert(whole.drop_last() =~= text + seq![':'] + shorter);
        assert(whole.last() == tail.last());
        assert(tail[tail.len() - 1] != ':');
        assert(shorter.push(tail.last()) =~= tail);
        assert(pieces(whole) =~= pieces(text).push(tail));
        assert(pieces(tail) =~= seq![tail]);
    }
}

/// A whole number in decimal has no colon and is read back.
proof fn lemma_signed_decimal(value: i32)
    ensures
        forall|i: int|
            0 <= i < signed_decimal(value).len() ==> #[trigger] signed_decimal(value)[i] != ':',
        text::parsed_i32(signed_decimal(value)) == Some(value),
{
    let spelled = signed_decimal(value);
    if value < 0 {
        let digits = text::decimal((-value) as nat);
        text::lemma_decimal_is_number((-value) as nat);
        assert(spelled.skip(1) =~= digits);
        assert forall|i: int| 0 <= i < spelled.len() implies #[trigger] spelled[i] != ':' by {
            if i > 0 {
                assert(text::is_digit(digits[i - 1]));
            }
        }
    } else {
        text::lemma_decimal_is_number(value as nat);
        text::lemma_decimal_round_trip(value as u32);
        assert forall|i: int| 0 <= i < spelled.len() implies #[trigger] spelled[i] != ':' by {
            assert(text::is_digit(spelled[i]));
        }
    }
}

/// What a page reports of the cursor is what is read from its message.
pub proof fn law_reported_caret_is_read(caret: Caret)
    ensures
        reported(report(caret)) == Some(caret),
{
    reveal_strlit("__CARET__:");
    let (a, b, c, d) = (
        signed_decimal(caret.x),
        signed_decimal(caret.y),
        signed_decimal(caret.width),
        signed_decimal(caret.height),
    );
    let rest = a + seq![':'] + b + seq![':'] + c + seq![':'] + d;
    assert(report(caret).take(10) =~= "__CARET__:"@);
    assert(report(caret).skip(10) =~= rest);
    lemma_signed_decimal(caret.x);
    lemma_signed_decimal(caret.y);
    lemma_signed_decimal(caret.width);
    lemma_signed_decimal(caret.height);
    lemma_pieces_behind_colon(a, a);
    lemma_pieces_behind_colon(a, b);
    lemma_pieces_behind_colon(a + seq![':'] + b, c);
    lemma_pieces_behind_colon(a + seq![':'] + b + seq![':'] + c, d);
    assert(pieces(rest) =~= seq![a, b, c, d]);
}

/// The cursor stands where the last character ends, at its height and as large as it, whatever comes before
/// that; without characters it stands nowhere.
pub proof fn law_cursor_stands_behind_the_last_character(earlier: Seq<Caret>, last: Caret)
    requires
        i32::MIN <= last.x + last.width <= i32::MAX,
    ensures
        ({
            &&& caret_behind(earlier.push(last)) matches Some(caret)
            &&& caret.x == last.x + last.width
            &&& caret.y == last.y
            &&& caret.width == last.width
            &&& caret.height == last.height
        }),
        caret_behind(Seq::empty()) is None,
{
}

/// The number of colons in a text.
pub open spec fn colons(text: Seq<char>) -> nat
    decreases text.len(),
{
    if text.len() == 0 {
        0
    } else {
        colons(text.drop_last()) + if text.last() == ':' {
            1nat
        } else {
            0
        }
    }
}

/// A text has one piece more than it has colons.
proof fn lemma_pieces_and_colons(text: Seq<char>)
    ensures
        pieces(text).len() == colons(text) + 1,
    decreases text.len(),
{
    if text.len() > 0 {
        lemma_pieces_and_colons(text.drop_last());
    }
}

/// A message that does not begin with the mark reports no cursor, and neither does one with more or fewer
/// than four numbers.
pub proof fn law_other_messages_report_no_caret(message: Seq<char>, rest: Seq<char>)
    ensures
        message.len() < 10 || message.take(10) != "__CARET__:"@ ==> reported(message) is None,
        colons(rest) != 3 ==> reported("__CARET__:"@ + rest) is None,
{
    reveal_strlit("__CARET__:");
    assert(("__CARET__:"@ + rest).skip(10) =~= rest);
    lemma_pieces_and_colons(rest);
}

/// A message reports a cursor only if each of its four parts is a whole number.
pub proof fn law_cursor_is_made_of_numbers(
    first: Seq<char>,
    second: Seq<char>,
    third: Seq<char>,
    fourth: Seq<char>,
)
    requires
        colons(first) == 0,
        colons(second) == 0,
        colons(third) == 0,
        colons(fourth) == 0,
    ensures
        ({
            let message = "__CARET__:"@ + (first + seq![':'] + second + seq![':'] + third + seq![':']
                + fourth);
            &&& reported(message) is Some <==> text::parsed_i32(first) is Some
                && text::parsed_i32(second) is Some && text::parsed_i32(third) is Some
                && text::parsed_i32(fourth) is Some
            &&& reported(message) matches Some(caret) ==> text::parsed_i32(first) == Some(caret.x)
                && text::parsed_i32(second) == Some(caret.y) && text::parsed_i32(third) == Some(
                caret.width,
            ) && text::parsed_i32(fourth) == Some(caret.height)
        }),
{
    reveal_strlit("__CARET__:");
    let rest = first + seq![':'] + second + seq![':'] + third + seq![':'] + fourth;
    let message = "__CARET__:"@ + rest;
    assert(message.take(10) =~= "__CARET__:"@);
    assert(message.skip(10) =~= rest);
    lemma_no_colons(first);
    lemma_no_colons(second);
    lemma_no_colons(third);
    lemma_no_colons(fourth);
    lemma_pieces_behind_colon(first, first);
    lemma_pieces_behind_colon(first, second);
    lemma_pieces_behind_colon(first + seq![':'] + second, third);
    lemma_pieces_behind_colon(first + seq![':'] + second + seq![':'] + third, fourth);
    assert(pieces(rest) =~= seq![first, second, third, fourth]);
}

/// A text without colons has none anywhere.
proof fn lemma_no_colons(text: Seq<char>)
    requires
        colons(text) == 0,
    ensures
        forall|i: int| 0 <= i < text.len() ==> #[trigger] text[i] != ':',
    decreases text.len(),
{
    if text.len() > 0 {
        let shorter = text.drop_last();
        lemma_no_colons(shorter);
        assert forall|i: int| 0 <= i < text.len() implies #[trigger] text[i] != ':' by {
            if i < shorter.len() {
                assert(shorter[i] == text[i]);
            }
        }
    }
}

} // verus!
