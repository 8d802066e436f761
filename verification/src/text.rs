//! Decimal rendering of grid indices and elements, for the textual
//! dump formats.

use vstd::prelude::*;
use vstd::string::*;

verus! {

/// The decimal digit character for `d` (clamped to `'9'`).
pub open spec fn digit_char(d: nat) -> char {
    if d == 0 {
        '0'
    } else if d == 1 {
        '1'
    } else if d == 2 {
        '2'
    } else if d == 3 {
        '3'
    } else if d == 4 {
        '4'
    } else if d == 5 {
        '5'
    } else if d == 6 {
        '6'
    } else if d == 7 {
        '7'
    } else if d == 8 {
        '8'
    } else {
        '9'
    }
}

/// The decimal digits of `n`, most significant first.
pub open spec fn dec_digits(n: nat) -> Seq<char>
    decreases n,
{
    if n < 10 {
        seq![digit_char(n)]
    } else {
        dec_digits(n / 10).push(digit_char(n % 10))
    }
}

/// A value that can render itself as text.
///
/// `text_spec` defaults to an arbitrary (unspecified) character
/// sequence; an implementation that wants the rendering pinned down
/// overrides it, as the `u64` and `usize` implementations here do.
pub trait Text {
    /// The characters `to_text` yields.
    open spec fn text_spec(&self) -> Seq<char> {
        vstd::pervasive::arbitrary()
    }

    fn to_text(&self) -> (r: String)
        ensures
            r@ == self.text_spec(),
    ;
}

/// The single-character string for decimal digit `d`.
fn digit_str(d: u64) -> (r: &'static str)
    requires
        d < 10,
    ensures
        r@ == seq![digit_char(d as nat)],
{
    let r: &'static str = if d == 0 {
        "0"
    } else if d == 1 {
        "1"
    } else if d == 2 {
        "2"
    } else if d == 3 {
        "3"
    } else if d == 4 {
        "4"
    } else if d == 5 {
        "5"
    } else if d == 6 {
        "6"
    } else if d == 7 {
        "7"
    } else if d == 8 {
        "8"
    } else {
        "9"
    };
    proof {
        reveal_strlit("0");
        reveal_strlit("1");
        reveal_strlit("2");
        reveal_strlit("3");
        reveal_strlit("4");
        reveal_strlit("5");
        reveal_strlit("6");
        reveal_strlit("7");
        reveal_strlit("8");
        reveal_strlit("9");
        assert(r@ =~= seq![digit_char(d as nat)]);
    }
    r
}

/// Renders `n` in decimal.
pub fn u64_to_string(n: u64) -> (r: String)
    ensures
        r@ == dec_digits(n as nat),
    decreases n,
{
    if n < 10 {
        String::from_str(digit_str(n))
    } else {
        let mut s = u64_to_string(n / 10);
        s.append(digit_str(n % 10));
        proof {
            assert(dec_digits((n / 10) as nat).push(digit_char((n % 10) as nat)) =~= dec_digits(
                (n / 10) as nat,
            ) + seq![digit_char((n % 10) as nat)]);
        }
        s
    }
}

/// Renders `n` in decimal.
pub fn usize_to_string(n: usize) -> (r: String)
    ensures
        r@ == dec_digits(n as nat),
{
    u64_to_string(n as u64)
}

/// `u64` values render as plain decimal.
impl Text for u64 {
    open spec fn text_spec(&self) -> Seq<char> {
        dec_digits(*self as nat)
    }

    fn to_text(&self) -> (r: String)
        ensures
            r@ == self.text_spec(),
    {
        u64_to_string(*self)
    }
}

/// `usize` values render as plain decimal.
impl Text for usize {
    open spec fn text_spec(&self) -> Seq<char> {
        dec_digits(*self as nat)
    }

    fn to_text(&self) -> (r: String)
        ensures
            r@ == self.text_spec(),
    {
        usize_to_string(*self)
    }
}

} // verus!
