//! The day of a run, and the two ways it is written.

use vstd::prelude::*;
use vstd::string::StringExecFns;

verus! {

/// A day of the calendar, as the clock gives it. Whether the month has such
/// a day is not asked here.
#[derive(Clone, Copy, Debug, PartialEq, Eq, Structural)]
pub struct Day {
    pub year: u16,
    pub month: u8,
    pub day: u8,
}

/// The decimal digit of `n`, for `n` below ten.
pub open spec fn digit(n: nat) -> char {
    if n == 0 {
        '0'
    } else if n == 1 {
        '1'
    } else if n == 2 {
        '2'
    } else if n == 3 {
        '3'
    } else if n == 4 {
        '4'
    } else if n == 5 {
        '5'
    } else if n == 6 {
        '6'
    } else if n == 7 {
        '7'
    } else if n == 8 {
        '8'
    } else {
        '9'
    }
}

/// `n` in decimal digits, with zeros in front up to `width` digits.
pub open spec fn padded(n: nat, width: nat) -> Seq<char>
    decreases n + width,
{
    if n < 10 && width <= 1 {
        seq![digit(n)]
    } else {
        padded(
            n / 10,
            if width > 0 {
                (width - 1) as nat
            } else {
                0
            },
        ).push(digit(n % 10))
    }
}

/// The day as names hold it: year, month and day, with hyphens.
pub open spec fn iso_stamp(day: Day) -> Seq<char> {
    padded(day.year as nat, 4) + seq!['-'] + padded(day.month as nat, 2) + seq!['-'] + padded(
        day.day as nat,
        2,
    )
}

/// The day as the sheet shows it: month, day and year, with slashes.
pub open spec fn display_stamp(day: Day) -> Seq<char> {
    padded(day.month as nat, 2) + seq!['/'] + padded(day.day as nat, 2) + seq!['/'] + padded(
        day.year as nat,
        4,
    )
}

/// The text of one decimal digit.
fn digit_text(n: u16) -> (text: &'static str)
    requires
        n < 10,
    ensures
        text@ == seq![digit(n as nat)],
{
    proof {
        reveal_strlit("0");
        reveal_strlit("1");
        reveal_strlit("2");
        reveal_strlit("3");
        reveal_strlit("4");
        reveal_strlit("5");
        reveal_strlit("6");
        reveal_strlit("7");
        reveal_strlit("8");
        reveal_strlit("9");
    }
    let text = if n == 0 {
        "0"
    } else if n == 1 {
        "1"
    } else if n == 2 {
        "2"
    } else if n == 3 {
        "3"
    } else if n == 4 {
        "4"
    } else if n == 5 {
        "5"
    } else if n == 6 {
        "6"
    } else if n == 7 {
        "7"
    } else if n == 8 {
        "8"
    } else {
        "9"
    };
    assert(text@ =~= seq![digit(n as nat)]);
    text
}

/// Writes `n` behind `out`, in decimal digits, with zeros in front up to
/// `width` digits.
fn write_padded(out: &mut String, n: u16, width: u8)
    ensures
        final(out)@ == old(out)@ + padded(n as nat, width as nat),
    decreases n + width,
{
    if n < 10 && width <= 1 {
        out.append(digit_text(n));
    } else {
        let less = if width > 0 {
            width - 1
        } else {
            0
        };
        write_padded(out, n / 10, less);
        out.append(digit_text(n % 10));
        proof {
            let front = padded((n / 10) as nat, less as nat);
            assert(old(out)@ + front + seq![digit((n % 10) as nat)] =~= old(out)@ + front.push(
                digit((n % 10) as nat),
            ));
        }
    }
}

/// Writes `mark` behind `out`.
fn write_mark(out: &mut String, mark: &str)
    ensures
        final(out)@ == old(out)@ + mark@,
{
    out.append(mark);
}

impl Day {
    /// The day as names hold it: `2024-01-15`.
    pub fn iso(&self) -> (text: String)
        ensures
            text@ == iso_stamp(*self),
    {
        proof {
            reveal_strlit("-");
        }
        let mut text = String::new();
        write_padded(&mut text, self.year, 4);
        write_mark(&mut text, "-");
        write_padded(&mut text, self.month as u16, 2);
        write_mark(&mut text, "-");
        write_padded(&mut text, self.day as u16, 2);
        assert("-"@ =~= seq!['-']);
        assert(text@ =~= iso_stamp(*self));
        text
    }

    /// The day as the sheet shows it: `01/15/2024`.
    pub fn display(&self) -> (text: String)
        ensures
            text@ == display_stamp(*self),
    {
        proof {
            reveal_strlit("/");
        }
        let mut text = String::new();
        write_padded(&mut text, self.month as u16, 2);
        write_mark(&mut text, "/");
        write_padded(&mut text, self.day as u16, 2);
        write_mark(&mut text, "/");
        write_padded(&mut text, self.year, 4);
        assert("/"@ =~= seq!['/']);
        assert(text@ =~= display_stamp(*self));
        text
    }
}

} // verus!
