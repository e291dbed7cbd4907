//! Text as sequences of characters: decimal numbers, prefixes, and UTF-8.
use vstd::prelude::*;
use vstd::utf8::*;

verus! {

/// The character of a decimal digit.
pub open spec fn digit(value: nat) -> char {
    (0x30 + value) as char
}

/// A number in decimal, without leading zeros.
pub open spec fn decimal(value: nat) -> Seq<char>
    decreases value,
{
    if value < 10 {
        seq![digit(value)]
    } else {
        decimal(value / 10).push(digit(value % 10))
    }
}

/// Whether a character is a decimal digit.
pub open spec fn is_digit(character: char) -> bool {
    0x30 <= character as u32 <= 0x39
}

/// Whether `text` consists of decimal digits, at least one.
pub open spec fn is_number(text: Seq<char>) -> bool {
    &&& text.len() > 0
    &&& forall|i: int| 0 <= i < text.len() ==> is_digit(#[trigger] text[i])
}

/// The number that a sequence of decimal digits spells.
pub open spec fn number(text: Seq<char>) -> nat
    decreases text.len(),
{
    if text.len() == 0 {
        0
    } else {
        (number(text.drop_last()) * 10 + (text.last() as u32 - 0x30)) as nat
    }
}

/// The value of `text` read as an `i32`: digits after an optional sign, within range.
pub open spec fn parsed_i32(text: Seq<char>) -> Option<i32> {
    if text.len() > 0 && text[0] == '-' {
        if is_number(text.skip(1)) && number(text.skip(1)) <= 0x8000_0000 {
            Some((-number(text.skip(1))) as i32)
        } else {
            None
        }
    } else {
        let digits = if text.len() > 0 && text[0] == '+' { text.skip(1) } else { text };
        if is_number(digits) && number(digits) <= i32::MAX {
            Some(number(digits) as i32)
        } else {
            None
        }
    }
}

/// The value of `text` read as a `u32`: digits after an optional plus sign, within range.
pub open spec fn parsed_u32(text: Seq<char>) -> Option<u32> {
    let digits = if text.len() > 0 && text[0] == '+' { text.skip(1) } else { text };
    if is_number(digits) && number(digits) <= u32::MAX {
        Some(number(digits) as u32)
    } else {
        None
    }
}

/// Whether `text` begins with `prefix`.
pub open spec fn begins_with(text: Seq<char>, prefix: Seq<char>) -> bool {
    prefix.len() <= text.len() && text.take(prefix.len() as int) == prefix
}

/// A decimal numeral consists of digits and spells the number it was made from.
pub proof fn lemma_decimal_is_number(value: nat)
    ensures
        is_number(decimal(value)),
        number(decimal(value)) == value,
    decreases value,
{
    let text = decimal(value);
    if value < 10 {
        assert(text.drop_last() =~= Seq::<char>::empty());
        assert(number(text.drop_last()) == 0);
        assert(text.last() == digit(value));
    } else {
        lemma_decimal_is_number(value / 10);
        assert(text.drop_last() =~= decimal(value / 10));
        assert(text.last() == digit(value % 10));
        assert forall|i: int| 0 <= i < text.len() implies is_digit(#[trigger] text[i]) by {
            if i < text.len() - 1 {
                assert(text[i] == decimal(value / 10)[i]);
            }
        }
    }
}

/// Reading back a number that was written in decimal gives that number.
pub proof fn lemma_decimal_round_trip(value: u32)
    ensures
        parsed_u32(decimal(value as nat)) == Some(value),
        value <= i32::MAX ==> parsed_i32(decimal(value as nat)) == Some(value as i32),
{
    lemma_decimal_is_number(value as nat);
    assert(is_digit(decimal(value as nat)[0]));
}

/// A longer numeral spells no smaller number.
proof fn lemma_number_monotonic(text: Seq<char>, length: int)
    requires
        0 <= length <= text.len(),
        forall|i: int| 0 <= i < text.len() ==> is_digit(#[trigger] text[i]),
    ensures
        number(text.take(length)) <= number(text),
    decreases text.len() - length,
{
    if length < text.len() {
        let longer = text.take(length + 1);
        assert(longer.drop_last() =~= text.take(length));
        assert(longer.last() == text[length]);
        assert(is_digit(text[length]));
        lemma_number_monotonic(text, length + 1);
    } else {
        assert(text.take(length) =~= text);
    }
}

/// The characters of a string.
pub fn chars_of(text: &str) -> (chars: Vec<char>)
    ensures
        chars@ == text@,
{
    let mut chars: Vec<char> = Vec::new();
    for character in iter: text.chars()
        invariant
            iter.seq() == text@,
            chars@ == text@.take(iter.index()),
    {
        chars.push(character);
        assert(text@.take(iter.index() + 1) =~= text@.take(iter.index()).push(character));
    }
    assert(text@.take(text@.len() as int) =~= text@);
    chars
}

/// Whether `text` begins with `prefix`.
pub fn starts_with(text: &str, prefix: &str) -> (found: bool)
    ensures
        found == begins_with(text@, prefix@),
{
    let characters: Vec<char> = chars_of(text);
    let wanted: Vec<char> = chars_of(prefix);
    if wanted.len() > characters.len() {
        return false;
    }
    let mut index: usize = 0;
    while index < wanted.len()
        invariant
            index <= wanted.len() <= characters.len(),
            characters@ == text@,
            wanted@ == prefix@,
            forall|i: int| 0 <= i < index ==> characters@[i] == wanted@[i],
        decreases wanted.len() - index,
    {
        if characters[index] != wanted[index] {
            assert(text@.take(prefix@.len() as int)[index as int] == characters@[index as int]);
            return false;
        }
        index += 1;
    }
    assert(text@.take(prefix@.len() as int) =~= prefix@);
    true
}

/// Appends one decimal digit.
fn push_digit(text: &mut String, value: u64)
    requires
        value < 10,
    ensures
        final(text)@ == old(text)@.push(digit(value as nat)),
{
    proof {
        reveal_strlit("0");
        reveal_strlit("1");
        reveal_strlit("2");
        reveal_strlit("3");
        reveal_strlit("4");
        reveal_strlit("5");
        reveal_strlit("6");
        reveal_strlit("7");
        reveal_strlit("8");
        reveal_strlit("9");
    }
    let literal: &str = match value {
        0 => "0",
        1 => "1",
        2 => "2",
        3 => "3",
        4 => "4",
        5 => "5",
        6 => "6",
        7 => "7",
        8 => "8",
        _ => "9",
    };
    text.append(literal);
    assert(text@ =~= old(text)@.push(digit(value as nat)));
}

/// Appends a number in decimal.
pub fn push_decimal(text: &mut String, value: u64)
    ensures
        final(text)@ == old(text)@ + decimal(value as nat),
    decreases value,
{
    if value < 10 {
        push_digit(text, value);
        assert(text@ =~= old(text)@ + decimal(value as nat));
    } else {
        push_decimal(text, value / 10);
        push_digit(text, value % 10);
        assert(text@ =~= old(text)@ + decimal(value as nat));
    }
}

/// The number that the characters from `from` on spell, if they are digits and it is not above
/// `limit`.
fn parse_digits(characters: &Vec<char>, from: usize, limit: u64) -> (value: Option<u64>)
    requires
        from <= characters.len(),
        limit <= u32::MAX,
    ensures
        ({
            let digits = characters@.skip(from as int);
            value == if is_number(digits) && number(digits) <= limit {
                Some(number(digits) as u64)
            } else {
                None
            }
        }),
{
    let ghost digits = characters@.skip(from as int);
    if from == characters.len() {
        return None;
    }
    let mut value: u64 = 0;
    let mut index: usize = from;
    while index < characters.len()
        invariant
            from <= index <= characters.len(),
            limit <= u32::MAX,
            digits == characters@.skip(from as int),
            forall|i: int| 0 <= i < index - from ==> is_digit(#[trigger] digits[i]),
            value == number(digits.take(index - from)),
            value <= limit,
        decreases characters.len() - index,
    {
        let character: char = characters[index];
        let code: u32 = character as u32;
        assert(digits[index - from] == character);
        if code < 0x30 || code > 0x39 {
            assert(!is_digit(digits[index - from]));
            return None;
        }
        value = value * 10 + (code - 0x30) as u64;
        proof {
            let longer = digits.take(index - from + 1);
            assert(longer.drop_last() =~= digits.take(index - from));
            assert(longer.last() == character);
        }
        index += 1;
        if value > limit {
            proof {
                if is_number(digits) {
                    lemma_number_monotonic(digits, index - from);
                }
            }
            return None;
        }
    }
    assert(digits.take(index - from) =~= digits);
    Some(value)
}

/// Reads characters as an `i32`.
pub fn parse_i32_characters(characters: &Vec<char>) -> (value: Option<i32>)
    ensures
        value == parsed_i32(characters@),
{
    assert(characters@.skip(0) =~= characters@);
    if characters.len() > 0 && characters[0] == '-' {
        match parse_digits(characters, 1, 0x8000_0000) {
            Some(magnitude) => Some((-(magnitude as i64)) as i32),
            None => None,
        }
    } else {
        let from: usize = if characters.len() > 0 && characters[0] == '+' {
            1
        } else {
            0
        };
        match parse_digits(characters, from, i32::MAX as u64) {
            Some(magnitude) => Some(magnitude as i32),
            None => None,
        }
    }
}

/// Reads `text` as an `i32`.
pub fn parse_i32(text: &str) -> (value: Option<i32>)
    ensures
        value == parsed_i32(text@),
{
    let characters: Vec<char> = chars_of(text);
    parse_i32_characters(&characters)
}

/// Reads `text` as a `u32`.
pub fn parse_u32(text: &str) -> (value: Option<u32>)
    ensures
        value == parsed_u32(text@),
{
    let characters: Vec<char> = chars_of(text);
    assert(characters@.skip(0) =~= characters@);
    let from: usize = if characters.len() > 0 && characters[0] == '+' {
        1
    } else {
        0
    };
    match parse_digits(&characters, from, u32::MAX as u64) {
        Some(magnitude) => Some(magnitude as u32),
        None => None,
    }
}

/// Calls `std::str::from_utf8`, which succeeds on valid UTF-8 and on nothing else, and then
/// yields the string whose encoding the bytes are.
#[verifier::external_body]
pub(crate) fn from_utf8(bytes: &[u8]) -> (text: Option<&str>)
    ensures
        text is Some <==> valid_utf8(bytes@),
        text matches Some(text) ==> text@ == decode_utf8(bytes@),
{
    std::str::from_utf8(bytes).ok()
}

/// Digits spell a number in the usual way: one more digit makes it ten times as large and adds what the digit
/// stands for.
pub proof fn law_each_place_counts_ten_times_the_next(text: Seq<char>, value: nat)
    requires
        value < 10,
    ensures
        number(Seq::empty()) == 0,
        number(text.push(digit(value))) == number(text) * 10 + value,
        is_digit(digit(value)),
{
    assert(text.push(digit(value)).drop_last() =~= text);
}

/// A number within range is read with and without a sign in front of it: a minus makes it negative, and a plus
/// changes nothing.
pub proof fn law_signs_are_read(value: u32)
    ensures
        value <= i32::MAX ==> parsed_i32(seq!['+'] + decimal(value as nat)) == Some(value as i32),
        value <= 0x8000_0000 ==> (parsed_i32(seq!['-'] + decimal(value as nat)) matches Some(number)
            && number == -value),
        parsed_u32(seq!['+'] + decimal(value as nat)) == Some(value),
        parsed_u32(seq!['-'] + decimal(value as nat)) is None,
{
    lemma_decimal_is_number(value as nat);
    let digits = decimal(value as nat);
    assert((seq!['+'] + digits).skip(1) =~= digits);
    assert((seq!['-'] + digits).skip(1) =~= digits);
    let negative = seq!['-'] + digits;
    assert(negative[0] == '-');
    assert(!is_digit(negative[0]));
}

/// A number beyond the range is not read as another one but refused.
pub proof fn law_numbers_out_of_range_are_refused(value: nat)
    ensures
        value > i32::MAX ==> parsed_i32(decimal(value)) is None,
        value > 0x8000_0000 ==> parsed_i32(seq!['-'] + decimal(value)) is None,
        value > u32::MAX ==> parsed_u32(decimal(value)) is None,
{
    lemma_decimal_is_number(value);
    assert((seq!['-'] + decimal(value)).skip(1) =~= decimal(value));
    assert(is_digit(decimal(value)[0]));
}

/// What holds anything but digits behind its sign is no number, and neither is a sign alone or nothing at all.
pub proof fn law_other_texts_are_no_numbers(text: Seq<char>, at: int)
    requires
        1 <= at < text.len(),
        !is_digit(text[at]),
    ensures
        parsed_i32(text) is None,
        parsed_u32(text) is None,
        parsed_i32(Seq::empty()) is None,
        parsed_u32(Seq::empty()) is None,
        parsed_i32(seq!['-']) is None,
        parsed_i32(seq!['+']) is None,
{
    assert(text.skip(1)[at - 1] == text[at]);
    assert(seq!['-'].skip(1) =~= Seq::<char>::empty());
    assert(seq!['+'].skip(1) =~= Seq::<char>::empty());
}

} // verus!
