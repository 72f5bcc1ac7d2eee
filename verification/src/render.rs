//! Verified textual rendering for the payloads that a diagnostic can
//! mention: the `Render` trait and its implementations, including a
//! proved decimal rendering of integers.

use vstd::prelude::*;
use vstd::string::StringExecFns;

verus! {

/// A value with a specified textual form.  It stands where the
/// containers need a human-readable rendering of a payload: the
/// rendered detail that follows the caller's message on a fatal
/// diagnostic line.
pub trait Render {
    /// The character sequence that rendering the value produces.
    spec fn rendered(&self) -> Seq<char>;

    /// Produce the textual form of the value.
    fn render(&self) -> (s: String)
        ensures
            s@ == self.rendered(),
    ;
}

/// The character for one decimal digit.
pub open spec fn digit_char(d: int) -> char
    recommends
        0 <= d < 10,
{
    if d == 0 {
        '0'
    } else if d == 1 {
        '1'
    } else if d == 2 {
        '2'
    } else if d == 3 {
        '3'
    } else if d == 4 {
        '4'
    } else if d == 5 {
        '5'
    } else if d == 6 {
        '6'
    } else if d == 7 {
        '7'
    } else if d == 8 {
        '8'
    } else {
        '9'
    }
}

/// The decimal digits of a non-negative number, most significant first.
pub open spec fn decimal_digits(n: int) -> Seq<char>
    recommends
        n >= 0,
    decreases n,
{
    if n < 10 {
        seq![digit_char(n)]
    } else {
        decimal_digits(n / 10).push(digit_char(n % 10))
    }
}

/// The decimal rendering of an integer, with a leading `-` when negative.
pub open spec fn decimal(n: int) -> Seq<char> {
    if n < 0 {
        seq!['-'] + decimal_digits(-n)
    } else {
        decimal_digits(n)
    }
}

/// The one-character string for a decimal digit.
fn digit_str(d: u8) -> (s: &'static str)
    requires
        d < 10,
    ensures
        s@ == seq![digit_char(d as int)],
{
    let s: &'static str = if d == 0 {
        "0"
    } else if d == 1 {
        "1"
    } else if d == 2 {
        "2"
    } else if d == 3 {
        "3"
    } else if d == 4 {
        "4"
    } else if d == 5 {
        "5"
    } else if d == 6 {
        "6"
    } else if d == 7 {
        "7"
    } else if d == 8 {
        "8"
    } else {
        "9"
    };
    proof {
        reveal_strlit("0");
        reveal_strlit("1");
        reveal_strlit("2");
        reveal_strlit("3");
        reveal_strlit("4");
        reveal_strlit("5");
        reveal_strlit("6");
        reveal_strlit("7");
        reveal_strlit("8");
        reveal_strlit("9");
        assert(s@ =~= seq![digit_char(d as int)]);
    }
    s
}

/// Append the decimal digits of `m`, most significant first.
fn append_decimal_digits(s: &mut String, m: u128)
    ensures
        final(s)@ == old(s)@ + decimal_digits(m as int),
    decreases m,
{
    if m >= 10 {
        append_decimal_digits(s, m / 10);
    }
    let digit = digit_str((m % 10) as u8);
    s.append(digit);
    proof {
        assert(s@ =~= old(s)@ + decimal_digits(m as int));
    }
}

/// Render an integer in decimal: the digits of its magnitude behind a
/// `-` sign when it is negative.
pub fn render_int(n: i128) -> (s: String)
    requires
        -0x7fff_ffff_ffff_ffff_ffff_ffff_ffff_ffff <= n,
    ensures
        s@ == decimal(n as int),
{
    proof {
        reveal_strlit("-");
    }
    let mut s = String::new();
    let m: u128;
    if n < 0 {
        s.append("-");
        m = (-n) as u128;
    } else {
        m = n as u128;
    }
    append_decimal_digits(&mut s, m);
    proof {
        assert(s@ =~= decimal(n as int));
    }
    s
}

impl Render for isize {
    open spec fn rendered(&self) -> Seq<char> {
        decimal(*self as int)
    }

    fn render(&self) -> (s: String) {
        render_int(*self as i128)
    }
}

impl Render for String {
    open spec fn rendered(&self) -> Seq<char> {
        self@
    }

    fn render(&self) -> (s: String) {
        self.clone()
    }
}

impl Render for &str {
    open spec fn rendered(&self) -> Seq<char> {
        (*self)@
    }

    fn render(&self) -> (s: String) {
        (*self).to_owned()
    }
}

} // verus!
