//! The text of the warning lines, and decimal numbers as text.

use vstd::prelude::*;

verus! {

/// The character that stands for the decimal digit `d`.
pub open spec fn digit(d: nat) -> char
    recommends
        d < 10,
{
    (('0' as nat) + d) as char
}

/// The decimal numeral of `n`: most significant digit first, no leading zero.
pub open spec fn decimal(n: nat) -> Seq<char>
    decreases n,
{
    if n < 10 {
        seq![digit(n)]
    } else {
        decimal(n / 10).push(digit(n % 10))
    }
}

/// The warning line for a failure that will be tried again: `remaining` is
/// the number of tries left before this retry is taken, `cause` describes the
/// innermost cause of the failure.
pub open spec fn warning_text(remaining: nat, cause: Seq<char>) -> Seq<char> {
    "spurious network error ("@ + decimal(remaining) + " tries remaining): "@ + cause
}

fn digit_text(d: u32) -> (text: &'static str)
    requires
        d < 10,
    ensures
        text@ == seq![digit(d as nat)],
{
    proof {
        reveal_strlit("0");
        reveal_strlit("1");
        reveal_strlit("2");
        reveal_strlit("3");
        reveal_strlit("4");
        reveal_strlit("5");
        reveal_strlit("6");
        reveal_strlit("7");
        reveal_strlit("8");
        reveal_strlit("9");
    }
    match d {
        0 => "0",
        1 => "1",
        2 => "2",
        3 => "3",
        4 => "4",
        5 => "5",
        6 => "6",
        7 => "7",
        8 => "8",
        _ => "9",
    }
}

/// Writes `n` in decimal.
pub fn decimal_string(n: u32) -> (text: String)
    ensures
        text@ == decimal(n as nat),
    decreases n,
{
    if n < 10 {
        String::from_str(digit_text(n))
    } else {
        let mut text: String = decimal_string(n / 10);
        text.append(digit_text(n % 10));
        text
    }
}

/// Builds the warning line for a failure that will be tried again.
pub fn warning_line(remaining: u32, cause: &str) -> (line: String)
    ensures
        line@ == warning_text(remaining as nat, cause@),
{
    let mut line: String = String::from_str("spurious network error (");
    let count: String = decimal_string(remaining);
    line.append(count.as_str());
    line.append(" tries remaining): ");
    line.append(cause);
    line
}

} // verus!
