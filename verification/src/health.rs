//! The health check: a fixed message, a visit counter, and the text that
//! reports both.

use vstd::prelude::*;
use vstd::string::StringExecFns;

verus! {

/// The character of a decimal digit.
pub open spec fn digit(d: nat) -> char {
    if d == 0 {
        '0'
    } else if d == 1 {
        '1'
    } else if d == 2 {
        '2'
    } else if d == 3 {
        '3'
    } else if d == 4 {
        '4'
    } else if d == 5 {
        '5'
    } else if d == 6 {
        '6'
    } else if d == 7 {
        '7'
    } else if d == 8 {
        '8'
    } else {
        '9'
    }
}

/// The number that a decimal digit stands for; 0 for any other character.
pub open spec fn digit_value(c: char) -> nat {
    if c == '1' {
        1
    } else if c == '2' {
        2
    } else if c == '3' {
        3
    } else if c == '4' {
        4
    } else if c == '5' {
        5
    } else if c == '6' {
        6
    } else if c == '7' {
        7
    } else if c == '8' {
        8
    } else if c == '9' {
        9
    } else {
        0
    }
}

/// A number in decimal, most significant digit first, without leading
/// zeros: "0" for zero.
pub open spec fn decimal(n: nat) -> Seq<char>
    decreases n,
{
    if n < 10 {
        seq![digit(n)]
    } else {
        decimal(n / 10).push(digit(n % 10))
    }
}

/// The number that a sequence of decimal digits stands for.
pub open spec fn decimal_value(digits: Seq<char>) -> nat
    decreases digits.len(),
{
    if digits.len() == 0 {
        0
    } else {
        10 * decimal_value(digits.drop_last()) + digit_value(digits.last())
    }
}

/// The text of a health check: the message, the number of earlier visits
/// and the word "times", separated by single spaces.
pub open spec fn health_text(message: Seq<char>, visits: nat) -> Seq<char> {
    message + " "@ + decimal(visits) + " times"@
}

/// The counter after one more visit. It counts up by one and starts again
/// at zero after `u32::MAX`.
pub open spec fn next_visit(visits: u32) -> u32 {
    if visits == u32::MAX {
        0
    } else {
        (visits + 1) as u32
    }
}

/// The counter after `n` more visits.
pub open spec fn visits_after(start: u32, n: nat) -> u32
    decreases n,
{
    if n == 0 {
        start
    } else {
        next_visit(visits_after(start, (n - 1) as nat))
    }
}

/// The text of one decimal digit.
fn digit_text(d: u32) -> (text: &'static str)
    requires
        d < 10,
    ensures
        text@ == seq![digit(d as nat)],
{
    proof {
        reveal_strlit("0");
        reveal_strlit("1");
        reveal_strlit("2");
        reveal_strlit("3");
        reveal_strlit("4");
        reveal_strlit("5");
        reveal_strlit("6");
        reveal_strlit("7");
        reveal_strlit("8");
        reveal_strlit("9");
    }
    let text = if d == 0 {
        "0"
    } else if d == 1 {
        "1"
    } else if d == 2 {
        "2"
    } else if d == 3 {
        "3"
    } else if d == 4 {
        "4"
    } else if d == 5 {
        "5"
    } else if d == 6 {
        "6"
    } else if d == 7 {
        "7"
    } else if d == 8 {
        "8"
    } else {
        "9"
    };
    assert(text@ =~= seq![digit(d as nat)]);
    text
}

/// A number written in decimal.
pub fn decimal_text(n: u32) -> (text: String)
    ensures
        text@ == decimal(n as nat),
    decreases n,
{
    if n < 10 {
        String::from_str(digit_text(n))
    } else {
        let mut text = decimal_text(n / 10);
        text.append(digit_text(n % 10));
        assert(text@ =~= decimal(n as nat));
        text
    }
}

/// The text that a health check answers with.
pub fn health_message(message: &String, visits: u32) -> (text: String)
    ensures
        text@ == health_text(message@, visits as nat),
{
    let mut text = message.clone();
    text.append(" ");
    let number = decimal_text(visits);
    text.append(number.as_str());
    text.append(" times");
    text
}

/// Counts one visit and returns the number of visits before it.
pub fn count_visit(visit_count: &mut u32) -> (earlier: u32)
    ensures
        earlier == *old(visit_count),
        *final(visit_count) == next_visit(*old(visit_count)),
{
    let earlier: u32 = *visit_count;
    if earlier == u32::MAX {
        *visit_count = 0;
    } else {
        *visit_count = earlier + 1;
    }
    earlier
}

/// A counter that starts at zero shows, before its visit number `n + 1`,
/// exactly `n`: read again and again it yields 0, 1, 2, ... in order, as
/// long as `n` fits the counter.
pub proof fn lemma_visits_count_up(start: u32, n: nat)
    requires
        start + n <= u32::MAX,
    ensures
        visits_after(start, n) == start + n,
    decreases n,
{
    if n > 0 {
        lemma_visits_count_up(start, (n - 1) as nat);
    }
}

/// Reading a number's decimal text gives the number back.
pub proof fn lemma_decimal_value_of_decimal(n: nat)
    ensures
        decimal_value(decimal(n)) == n,
    decreases n,
{
    if n < 10 {
        assert(decimal(n).drop_last() =~= Seq::<char>::empty());
        assert(decimal_value(decimal(n).drop_last()) == 0);
    } else {
        lemma_decimal_value_of_decimal(n / 10);
        assert(decimal(n).drop_last() =~= decimal(n / 10));
    }
}

/// Different numbers have different decimal texts, so each answer of the
/// health check shows which visit it was.
pub proof fn lemma_decimal_is_injective(a: nat, b: nat)
    requires
        decimal(a) == decimal(b),
    ensures
        a == b,
{
    lemma_decimal_value_of_decimal(a);
    lemma_decimal_value_of_decimal(b);
}

/// For one message, the answers to different visit counts differ: the
/// count can be read off the text.
pub proof fn lemma_health_text_shows_the_count(message: Seq<char>, a: nat, b: nat)
    requires
        health_text(message, a) == health_text(message, b),
    ensures
        a == b,
{
    let head = message + " "@;
    let text_a = health_text(message, a);
    let text_b = health_text(message, b);
    assert(text_a.len() == head.len() + decimal(a).len() + " times"@.len());
    assert(text_b.len() == head.len() + decimal(b).len() + " times"@.len());
    assert forall|i: int| 0 <= i < decimal(a).len() implies decimal(a)[i] == decimal(b)[i] by {
        assert(text_a[head.len() + i] == decimal(a)[i]);
        assert(text_b[head.len() + i] == decimal(b)[i]);
    }
    assert(decimal(a) =~= decimal(b));
    lemma_decimal_is_injective(a, b);
}

} // verus!
