use vstd::prelude::*;
use vstd::string::*;

verus! {

/// A value that has a written form.
pub trait Printable {
    /// The written form.
    spec fn text_spec(&self) -> String;

    /// The written form.
    fn to_text(&self) -> (s: String)
        ensures
            s@ == self.text_spec()@,
    ;
}

/// The character of the decimal digit `d`.
pub open spec fn digit_spec(d: int) -> char {
    if d == 0 {
        '0'
    } else if d == 1 {
        '1'
    } else if d == 2 {
        '2'
    } else if d == 3 {
        '3'
    } else if d == 4 {
        '4'
    } else if d == 5 {
        '5'
    } else if d == 6 {
        '6'
    } else if d == 7 {
        '7'
    } else if d == 8 {
        '8'
    } else {
        '9'
    }
}

/// The decimal digits of `n`, the leading one first and not zero, but for
/// zero itself.
pub open spec fn decimal_spec(n: nat) -> Seq<char>
    decreases n,
{
    if n < 10 {
        seq![digit_spec(n as int)]
    } else {
        decimal_spec(n / 10).push(digit_spec((n % 10) as int))
    }
}

/// The text of the decimal digit `d`.
pub fn digit_text(d: u32) -> (s: &'static str)
    requires
        d < 10,
    ensures
        s@ == seq![digit_spec(d as int)],
{
    proof {
        reveal_strlit("0");
        reveal_strlit("1");
        reveal_strlit("2");
        reveal_strlit("3");
        reveal_strlit("4");
        reveal_strlit("5");
        reveal_strlit("6");
        reveal_strlit("7");
        reveal_strlit("8");
        reveal_strlit("9");
    }
    let s = if d == 0 {
        "0"
    } else if d == 1 {
        "1"
    } else if d == 2 {
        "2"
    } else if d == 3 {
        "3"
    } else if d == 4 {
        "4"
    } else if d == 5 {
        "5"
    } else if d == 6 {
        "6"
    } else if d == 7 {
        "7"
    } else if d == 8 {
        "8"
    } else {
        "9"
    };
    assert(s@ =~= seq![digit_spec(d as int)]);
    s
}

impl Printable for u32 {
    /// The string of the decimal digits of the number.
    open spec fn text_spec(&self) -> String {
        choose|s: String| s@ == decimal_spec(*self as nat)
    }

    fn to_text(&self) -> (s: String)
        ensures
            s@ == decimal_spec(*self as nat),
    {
        decimal(*self)
    }
}

/// The string of the decimal digits of `n`.
pub fn decimal(n: u32) -> (s: String)
    ensures
        s@ == decimal_spec(n as nat),
    decreases n,
{
    if n < 10 {
        let mut s = String::new();
        s.append(digit_text(n));
        assert(s@ =~= seq![digit_spec(n as int)]);
        s
    } else {
        let mut s = decimal(n / 10);
        s.append(digit_text(n % 10));
        assert(s@ =~= decimal_spec((n / 10) as nat).push(digit_spec((n % 10) as int)));
        s
    }
}

} // verus!
