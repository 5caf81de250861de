use crate::traits::render_line::lemma_no_line_feed_in_both;
use vstd::prelude::*;

verus! {

/// The digit `d` as text.
pub open spec fn digit(d: int) -> Seq<char> {
    if d == 0 {
        "0"@
    } else if d == 1 {
        "1"@
    } else if d == 2 {
        "2"@
    } else if d == 3 {
        "3"@
    } else if d == 4 {
        "4"@
    } else if d == 5 {
        "5"@
    } else if d == 6 {
        "6"@
    } else if d == 7 {
        "7"@
    } else if d == 8 {
        "8"@
    } else {
        "9"@
    }
}

/// The digits of `n` in base ten, the highest first, without leading zeros.
pub open spec fn digits(n: nat) -> Seq<char>
    decreases n,
{
    if n < 10 {
        digit(n as int)
    } else {
        digits(n / 10) + digit((n % 10) as int)
    }
}

/// The integer `n` in base ten, with a minus sign where it is negative.
pub open spec fn decimal_text(n: int) -> Seq<char> {
    if n < 0 {
        "-"@ + digits((-n) as nat)
    } else {
        digits(n as nat)
    }
}

/// A digit is one character, and no line feed.
pub proof fn lemma_digit_has_no_line_feed(d: int)
    ensures
        !digit(d).contains('\n'),
{
    reveal_strlit("0");
    reveal_strlit("1");
    reveal_strlit("2");
    reveal_strlit("3");
    reveal_strlit("4");
    reveal_strlit("5");
    reveal_strlit("6");
    reveal_strlit("7");
    reveal_strlit("8");
    reveal_strlit("9");
    if digit(d).contains('\n') {
        let i = choose|i: int| 0 <= i < digit(d).len() && digit(d)[i] == '\n';
        assert(digit(d)[0] != '\n');
    }
}

/// The digits of a number hold no line feed.
pub proof fn lemma_digits_have_no_line_feed(n: nat)
    ensures
        !digits(n).contains('\n'),
    decreases n,
{
    if n < 10 {
        lemma_digit_has_no_line_feed(n as int);
    } else {
        lemma_digits_have_no_line_feed(n / 10);
        lemma_digit_has_no_line_feed((n % 10) as int);
        lemma_no_line_feed_in_both(digits(n / 10), digit((n % 10) as int));
    }
}

/// An integer in base ten holds no line feed.
pub proof fn lemma_decimal_has_no_line_feed(n: int)
    ensures
        !decimal_text(n).contains('\n'),
{
    if n < 0 {
        reveal_strlit("-");
        if "-"@.contains('\n') {
            let i = choose|i: int| 0 <= i < "-"@.len() && "-"@[i] == '\n';
            assert("-"@[0] != '\n');
        }
        lemma_digits_have_no_line_feed((-n) as nat);
        lemma_no_line_feed_in_both("-"@, digits((-n) as nat));
    } else {
        lemma_digits_have_no_line_feed(n as nat);
    }
}

fn digit_of(d: u32) -> (text: &'static str)
    requires
        d < 10,
    ensures
        text@ == digit(d as int),
{
    if d == 0 {
        "0"
    } else if d == 1 {
        "1"
    } else if d == 2 {
        "2"
    } else if d == 3 {
        "3"
    } else if d == 4 {
        "4"
    } else if d == 5 {
        "5"
    } else if d == 6 {
        "6"
    } else if d == 7 {
        "7"
    } else if d == 8 {
        "8"
    } else {
        "9"
    }
}

fn digits_of(n: u32) -> (text: String)
    ensures
        text@ == digits(n as nat),
    decreases n,
{
    if n < 10 {
        digit_of(n).to_owned()
    } else {
        let mut text = digits_of(n / 10);
        text.append(digit_of(n % 10));
        text
    }
}

/// Writes `n` in base ten.
pub fn decimal(n: i32) -> (text: String)
    ensures
        text@ == decimal_text(n as int),
{
    if n < 0 {
        let mut text = "-".to_owned();
        let digits = digits_of((-(n as i64)) as u32);
        text.append(digits.as_str());
        text
    } else {
        digits_of(n as u32)
    }
}

} // verus!
