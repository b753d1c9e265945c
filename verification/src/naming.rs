//! Default names of series: a fixed word followed by a number in decimal.
use vstd::prelude::*;

verus! {

/// The character for a single decimal digit.
pub open spec fn digit_char(d: nat) -> char {
    if d == 0 {
        '0'
    } else if d == 1 {
        '1'
    } else if d == 2 {
        '2'
    } else if d == 3 {
        '3'
    } else if d == 4 {
        '4'
    } else if d == 5 {
        '5'
    } else if d == 6 {
        '6'
    } else if d == 7 {
        '7'
    } else if d == 8 {
        '8'
    } else {
        '9'
    }
}

/// `n` in decimal, most significant digit first, without leading zeros.
pub open spec fn decimal(n: nat) -> Seq<char>
    decreases n,
{
    if n < 10 {
        seq![digit_char(n)]
    } else {
        decimal(n / 10).push(digit_char(n % 10))
    }
}

/// Default name of a series added on its own: `Line ` and the number of series that
/// were there before it.
pub open spec fn line_name(n: nat) -> Seq<char> {
    seq!['L', 'i', 'n', 'e', ' '] + decimal(n)
}

/// Default name of a series taken from a matrix: `Row ` and the row's number.
pub open spec fn row_name(n: nat) -> Seq<char> {
    seq!['R', 'o', 'w', ' '] + decimal(n)
}

/// The one-character string for the digit `d`.
fn digit_str(d: usize) -> (s: &'static str)
    requires
        d < 10,
    ensures
        s@ == seq![digit_char(d as nat)],
{
    proof {
        reveal_strlit("0");
        reveal_strlit("1");
        reveal_strlit("2");
        reveal_strlit("3");
        reveal_strlit("4");
        reveal_strlit("5");
        reveal_strlit("6");
        reveal_strlit("7");
        reveal_strlit("8");
        reveal_strlit("9");
    }
    let s = if d == 0 {
        "0"
    } else if d == 1 {
        "1"
    } else if d == 2 {
        "2"
    } else if d == 3 {
        "3"
    } else if d == 4 {
        "4"
    } else if d == 5 {
        "5"
    } else if d == 6 {
        "6"
    } else if d == 7 {
        "7"
    } else if d == 8 {
        "8"
    } else {
        "9"
    };
    assert(s@ =~= seq![digit_char(d as nat)]);
    s
}

/// Appends `n` in decimal to `out`.
fn push_decimal(out: &mut String, n: usize)
    ensures
        final(out)@ == old(out)@ + decimal(n as nat),
    decreases n,
{
    if n >= 10 {
        push_decimal(out, n / 10);
    }
    out.append(digit_str(n % 10));
    assert(final(out)@ =~= old(out)@ + decimal(n as nat));
}

/// The name `Line n`.
pub fn line_label(n: usize) -> (s: String)
    ensures
        s@ == line_name(n as nat),
{
    proof {
        reveal_strlit("Line ");
    }
    let mut s = "Line ".to_owned();
    assert(s@ =~= seq!['L', 'i', 'n', 'e', ' ']);
    push_decimal(&mut s, n);
    s
}

/// The name `Row n`.
pub fn row_label(n: usize) -> (s: String)
    ensures
        s@ == row_name(n as nat),
{
    proof {
        reveal_strlit("Row ");
    }
    let mut s = "Row ".to_owned();
    assert(s@ =~= seq!['R', 'o', 'w', ' ']);
    push_decimal(&mut s, n);
    s
}

} // verus!
