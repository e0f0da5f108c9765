//! Pieces of text: how they are cut, joined and written.

use vstd::prelude::*;

verus! {

/// What an optional value stands for, where there is one.
pub open spec fn option_view<T: View>(value: Option<T>) -> Option<T::V> {
    match value {
        Some(v) => Some(v@),
        None => None,
    }
}

/// Whether some text ends with a slash.
pub open spec fn ends_with_slash(text: Seq<char>) -> bool {
    text.len() > 0 && text.last() == '/'
}

/// The text that is left when every slash at the end of `text` is taken away.
pub open spec fn without_trailing_slashes(text: Seq<char>) -> Seq<char>
    decreases text.len(),
{
    if ends_with_slash(text) {
        without_trailing_slashes(text.drop_last())
    } else {
        text
    }
}

/// Once its trailing slashes are taken away, no text ends with a slash.
pub(crate) proof fn lemma_stripped(text: Seq<char>)
    ensures
        !ends_with_slash(without_trailing_slashes(text)),
    decreases text.len(),
{
    if ends_with_slash(text) {
        lemma_stripped(text.drop_last());
    }
}

/// Takes every slash at the end of `text` away.
pub fn strip_trailing_slashes(text: &str) -> (stripped: String)
    ensures
        stripped@ == without_trailing_slashes(text@),
{
    let mut end: usize = text.unicode_len();
    assert(text@.take(end as int) =~= text@);
    while end > 0 && text.get_char(end - 1) == '/'
        invariant
            end <= text@.len(),
            without_trailing_slashes(text@.take(end as int)) == without_trailing_slashes(text@),
        decreases end,
    {
        assert(text@.take(end as int).drop_last() =~= text@.take(end - 1));
        end = end - 1;
    }
    text.substring_char(0, end).to_string()
}

/// `first` followed by `second`.
pub(crate) fn joined(first: &str, second: &str) -> (text: String)
    ensures
        text@ == first@ + second@,
{
    let mut text = first.to_string();
    text.append(second);
    text
}

/// The decimal digit of a number under ten.
pub open spec fn decimal_digit(digit: nat) -> char {
    (0x30 + digit) as char
}

/// A number in decimal digits, without leading zeros.
pub open spec fn decimal(number: nat) -> Seq<char>
    decreases number,
{
    if number < 10 {
        seq![decimal_digit(number)]
    } else {
        decimal(number / 10).push(decimal_digit(number % 10))
    }
}

fn digit_text(digit: u64) -> (text: &'static str)
    requires
        digit < 10,
    ensures
        text@ == seq![decimal_digit(digit as nat)],
{
    proof {
        reveal_strlit("0");
        reveal_strlit("1");
        reveal_strlit("2");
        reveal_strlit("3");
        reveal_strlit("4");
        reveal_strlit("5");
        reveal_strlit("6");
        reveal_strlit("7");
        reveal_strlit("8");
        reveal_strlit("9");
    }
    match digit {
        0 => "0",
        1 => "1",
        2 => "2",
        3 => "3",
        4 => "4",
        5 => "5",
        6 => "6",
        7 => "7",
        8 => "8",
        _ => "9",
    }
}

/// Writes a number in decimal digits.
pub(crate) fn decimal_text(number: u64) -> (text: String)
    ensures
        text@ == decimal(number as nat),
    decreases number,
{
    if number < 10 {
        digit_text(number).to_string()
    } else {
        let mut text = decimal_text(number / 10);
        text.append(digit_text(number % 10));
        text
    }
}

} // verus!
