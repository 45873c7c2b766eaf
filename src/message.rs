use vstd::prelude::*;

use crate::task::{state_name, Task};

verus! {

/// The character of a decimal digit.
pub open spec fn digit_char(d: nat) -> char {
    if d == 0 {
        '0'
    } else if d == 1 {
        '1'
    } else if d == 2 {
        '2'
    } else if d == 3 {
        '3'
    } else if d == 4 {
        '4'
    } else if d == 5 {
        '5'
    } else if d == 6 {
        '6'
    } else if d == 7 {
        '7'
    } else if d == 8 {
        '8'
    } else {
        '9'
    }
}

/// The decimal digits of `m`, most significant first, without leading zeros.
pub open spec fn digits_of(m: nat) -> Seq<char>
    decreases m,
{
    if m < 10 {
        seq![digit_char(m)]
    } else {
        digits_of(m / 10) + seq![digit_char(m % 10)]
    }
}

/// `n` written in decimal, with a leading `-` when negative.
pub open spec fn decimal_text(n: int) -> Seq<char> {
    if n < 0 {
        seq!['-'] + digits_of((-n) as nat)
    } else {
        digits_of(n as nat)
    }
}

/// The one-character text of digit `d`.
fn digit_text(d: u64) -> (r: &'static str)
    requires
        d < 10,
    ensures
        r@ == seq![digit_char(d as nat)],
{
    proof {
        reveal_strlit("0");
        reveal_strlit("1");
        reveal_strlit("2");
        reveal_strlit("3");
        reveal_strlit("4");
        reveal_strlit("5");
        reveal_strlit("6");
        reveal_strlit("7");
        reveal_strlit("8");
        reveal_strlit("9");
    }
    if d == 0 {
        "0"
    } else if d == 1 {
        "1"
    } else if d == 2 {
        "2"
    } else if d == 3 {
        "3"
    } else if d == 4 {
        "4"
    } else if d == 5 {
        "5"
    } else if d == 6 {
        "6"
    } else if d == 7 {
        "7"
    } else if d == 8 {
        "8"
    } else {
        "9"
    }
}

/// Appends the decimal digits of `m`.
fn push_digits(out: &mut String, m: u64)
    ensures
        final(out)@ == old(out)@ + digits_of(m as nat),
    decreases m,
{
    if m >= 10 {
        push_digits(out, m / 10);
    }
    out.append(digit_text(m % 10));
    assert(out@ =~= old(out)@ + digits_of(m as nat));
}

/// Appends `n` written in decimal.
fn push_decimal(out: &mut String, n: i64)
    ensures
        final(out)@ == old(out)@ + decimal_text(n as int),
{
    proof {
        reveal_strlit("-");
    }
    if n < 0 {
        out.append("-");
        let m = (0 - (n as i128)) as u64;
        push_digits(out, m);
        assert(final(out)@ =~= old(out)@ + decimal_text(n as int));
    } else {
        push_digits(out, n as u64);
    }
}

/// Appends the text that closes a title and names the identifier: the
/// colour reset, ` (#`, the identifier in decimal, `)`.
fn push_reference(out: &mut String, id: i64)
    ensures
        final(out)@ == old(out)@ + "\u{1b}[0m (#"@ + decimal_text(id as int) + ")"@,
{
    out.append("\u{1b}[0m (#");
    push_decimal(out, id);
    out.append(")");
    assert(final(out)@ =~= old(out)@ + "\u{1b}[0m (#"@ + decimal_text(id as int) + ")"@);
}

/// The confirmation of an add, given the glyph text to show.
pub fn added_message(t: &Task, icon: &str) -> (r: String)
    ensures
        r@ == "Added new task:\n"@ + icon@ + "  \u{1b}[1;34m"@ + t.title@ + "\u{1b}[0m (#"@ + decimal_text(
            t.id as int,
        ) + ")"@,
{
    let mut out = String::from_str("Added new task:\n");
    out.append(icon);
    out.append("  \u{1b}[1;34m");
    out.append(t.title.as_str());
    push_reference(&mut out, t.id);
    assert(out@ =~= "Added new task:\n"@ + icon@ + "  \u{1b}[1;34m"@ + t.title@ + "\u{1b}[0m (#"@ + decimal_text(
        t.id as int,
    ) + ")"@);
    out
}

/// The confirmation of a state change: the new state's name, then the given
/// glyph text, the title and the identifier.
pub fn updated_message(t: &Task, icon: &str) -> (r: String)
    ensures
        r@ == state_name(t.state) + ":\n"@ + icon@ + "  \u{1b}[1;34m"@ + t.title@ + "\u{1b}[0m (#"@
            + decimal_text(t.id as int) + ")"@,
{
    let mut out = t.state.to_string();
    out.append(":\n");
    out.append(icon);
    out.append("  \u{1b}[1;34m");
    out.append(t.title.as_str());
    push_reference(&mut out, t.id);
    assert(out@ =~= state_name(t.state) + ":\n"@ + icon@ + "  \u{1b}[1;34m"@ + t.title@ + "\u{1b}[0m (#"@
        + decimal_text(t.id as int) + ")"@);
    out
}

/// The confirmation of a delete: the title and the identifier it had.
pub fn deleted_message(t: &Task) -> (r: String)
    ensures
        r@ == "Deleted:\n\u{1b}[34m"@ + t.title@ + "\u{1b}[0m (#"@ + decimal_text(t.id as int) + ")"@,
{
    let mut out = String::from_str("Deleted:\n\u{1b}[34m");
    out.append(t.title.as_str());
    push_reference(&mut out, t.id);
    assert(out@ =~= "Deleted:\n\u{1b}[34m"@ + t.title@ + "\u{1b}[0m (#"@ + decimal_text(t.id as int) + ")"@);
    out
}

} // verus!
