//! Text building for listings: decimal numbers and fixed-width columns.

use vstd::prelude::*;
use vstd::string::*;

verus! {

/// The text of a decimal digit.
pub open spec fn digit_text(d: nat) -> Seq<char> {
    if d == 0 { "0"@ }
    else if d == 1 { "1"@ }
    else if d == 2 { "2"@ }
    else if d == 3 { "3"@ }
    else if d == 4 { "4"@ }
    else if d == 5 { "5"@ }
    else if d == 6 { "6"@ }
    else if d == 7 { "7"@ }
    else if d == 8 { "8"@ }
    else { "9"@ }
}

/// The decimal digits of a natural number, most significant first.
pub open spec fn digits_of(n: nat) -> Seq<char>
    decreases n,
{
    if n < 10 {
        digit_text(n)
    } else {
        digits_of(n / 10) + digit_text(n % 10)
    }
}

/// The decimal text of an integer, with a leading minus sign when negative.
pub open spec fn decimal_of(n: int) -> Seq<char> {
    if n < 0 {
        "-"@ + digits_of((-n) as nat)
    } else {
        digits_of(n as nat)
    }
}

/// `n` copies of the character `c`.
pub open spec fn repeated(c: char, n: nat) -> Seq<char> {
    Seq::new(n, |i: int| c)
}

/// `s` followed by spaces up to `width` characters; `s` itself when it is
/// already that long.
pub open spec fn padded(s: Seq<char>, width: nat) -> Seq<char> {
    if s.len() < width {
        s + repeated(' ', (width - s.len()) as nat)
    } else {
        s
    }
}

fn digit(d: u64) -> (s: &'static str)
    requires
        d < 10,
    ensures
        s@ == digit_text(d as nat),
{
    if d == 0 { "0" }
    else if d == 1 { "1" }
    else if d == 2 { "2" }
    else if d == 3 { "3" }
    else if d == 4 { "4" }
    else if d == 5 { "5" }
    else if d == 6 { "6" }
    else if d == 7 { "7" }
    else if d == 8 { "8" }
    else { "9" }
}

/// The decimal digits of `n`.
pub fn digits(n: u64) -> (s: String)
    ensures
        s@ == digits_of(n as nat),
{
    let mut acc = String::new();
    let mut m: u64 = n;
    loop
        invariant
            m > 0 || (m == 0 && n == 0 && acc@.len() == 0),
            digits_of(n as nat) == digits_of(m as nat) + acc@,
        decreases m,
    {
        let d = m % 10;
        acc = String::from_str(digit(d)).concat(acc.as_str());
        if m < 10 {
            assert(acc@ == digits_of(n as nat));
            return acc;
        }
        m = m / 10;
    }
}

/// The decimal text of `n`.
pub fn decimal(n: i64) -> (s: String)
    ensures
        s@ == decimal_of(n as int),
{
    if n < 0 {
        let magnitude: u64 = (-(n + 1)) as u64 + 1;
        String::from_str("-").concat(digits(magnitude).as_str())
    } else {
        digits(n as u64)
    }
}

/// `n` copies of a one-character text.
pub fn repeat_char(unit: &str, c: Ghost<char>, n: usize) -> (s: String)
    requires
        unit@ == seq![c@],
    ensures
        s@ == repeated(c@, n as nat),
{
    let mut s = String::new();
    let mut i: usize = 0;
    while i < n
        invariant
            0 <= i <= n,
            unit@ == seq![c@],
            s@ == repeated(c@, i as nat),
        decreases n - i,
    {
        s.append(unit);
        i = i + 1;
        assert(s@ =~= repeated(c@, i as nat));
    }
    s
}

/// `s` followed by spaces up to `width` characters.
pub fn pad(s: &str, width: usize) -> (r: String)
    ensures
        r@ == padded(s@, width as nat),
{
    let len = s.unicode_len();
    let mut r = String::from_str(s);
    if len < width {
        proof {
            reveal_strlit(" ");
            assert(" "@ =~= seq![' ']);
        }
        let spaces = repeat_char(" ", Ghost(' '), width - len);
        r.append(spaces.as_str());
    }
    r
}

} // verus!
