//! Counts written out in decimal, and the titles that carry them.

use vstd::prelude::*;
use vstd::string::StringExecFns;

verus! {

/// The character that writes the digit `digit`.
pub open spec fn digit_char(digit: nat) -> char {
    seq!['0', '1', '2', '3', '4', '5', '6', '7', '8', '9'][digit as int]
}

/// `count` written in decimal, without leading zeros.
pub open spec fn decimal(count: nat) -> Seq<char>
    decreases count,
{
    if count < 10 {
        seq![digit_char(count)]
    } else {
        decimal(count / 10).push(digit_char(count % 10))
    }
}

/// The title of a panel that holds `count` entries: the name and the count in parentheses, with
/// a space on both sides.
pub open spec fn titled_count(name: Seq<char>, count: nat) -> Seq<char> {
    seq![' '] + name + seq![' ', '('] + decimal(count) + seq![')', ' ']
}

/// `String::push` appends the character to the end of the string.
pub assume_specification[ String::push ](text: &mut String, c: char)
    ensures
        final(text)@ == old(text)@.push(c),
;

/// The character that writes a digit.
fn digit(value: usize) -> (c: char)
    requires
        value < 10,
    ensures
        c == digit_char(value as nat),
{
    match value {
        0 => '0',
        1 => '1',
        2 => '2',
        3 => '3',
        4 => '4',
        5 => '5',
        6 => '6',
        7 => '7',
        8 => '8',
        _ => '9',
    }
}

/// Appends `count`, written in decimal, to `text`.
pub fn push_decimal(text: &mut String, count: usize)
    ensures
        final(text)@ == old(text)@ + decimal(count as nat),
    decreases count,
{
    if count >= 10 {
        push_decimal(text, count / 10);
    }
    text.push(digit(count % 10));
    assert(final(text)@ =~= old(text)@ + decimal(count as nat));
}

/// The title of a panel that holds `count` entries.
pub fn count_title(name: &str, count: usize) -> (title: String)
    ensures
        title@ == titled_count(name@, count as nat),
{
    let mut title = String::new();
    title.push(' ');
    title.append(name);
    title.push(' ');
    title.push('(');
    push_decimal(&mut title, count);
    title.push(')');
    title.push(' ');
    assert(title@ =~= titled_count(name@, count as nat));
    title
}

} // verus!
