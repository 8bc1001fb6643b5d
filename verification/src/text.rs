//! Text that the parties write to one another: decimal numbers and local
//! addresses.

use vstd::prelude::*;
use vstd::string::StringExecFns;

verus! {

/// The character of a decimal digit.
pub open spec fn digit_char(d: nat) -> char {
    if d == 0 {
        '0'
    } else if d == 1 {
        '1'
    } else if d == 2 {
        '2'
    } else if d == 3 {
        '3'
    } else if d == 4 {
        '4'
    } else if d == 5 {
        '5'
    } else if d == 6 {
        '6'
    } else if d == 7 {
        '7'
    } else if d == 8 {
        '8'
    } else {
        '9'
    }
}

/// The decimal digits of a number, most significant first, without leading
/// zeros.
pub open spec fn decimal(n: nat) -> Seq<char>
    decreases n,
{
    if n < 10 {
        seq![digit_char(n)]
    } else {
        decimal(n / 10).push(digit_char(n % 10))
    }
}

/// The text of one decimal digit.
fn digit_text(d: usize) -> (r: &'static str)
    requires
        d < 10,
    ensures
        r@ == seq![digit_char(d as nat)],
{
    proof {
        reveal_strlit("0");
        reveal_strlit("1");
        reveal_strlit("2");
        reveal_strlit("3");
        reveal_strlit("4");
        reveal_strlit("5");
        reveal_strlit("6");
        reveal_strlit("7");
        reveal_strlit("8");
        reveal_strlit("9");
    }
    let r = if d == 0 {
        "0"
    } else if d == 1 {
        "1"
    } else if d == 2 {
        "2"
    } else if d == 3 {
        "3"
    } else if d == 4 {
        "4"
    } else if d == 5 {
        "5"
    } else if d == 6 {
        "6"
    } else if d == 7 {
        "7"
    } else if d == 8 {
        "8"
    } else {
        "9"
    };
    assert(r@ =~= seq![digit_char(d as nat)]);
    r
}

/// A number in decimal.
pub fn number_to_string(number: usize) -> (r: String)
    ensures
        r@ == decimal(number as nat),
{
    let mut text = digit_text(number % 10).to_owned();
    let mut rest: usize = number / 10;
    assert(decimal(number as nat) =~= if rest == 0 {
        text@
    } else {
        decimal(rest as nat) + text@
    });
    while rest > 0
        invariant
            decimal(number as nat) == if rest == 0 {
                text@
            } else {
                decimal(rest as nat) + text@
            },
        decreases rest,
    {
        let digit = digit_text(rest % 10).to_owned();
        let ghost before = text@;
        let ghost n = rest as nat;
        text = digit.concat(text.as_str());
        rest = rest / 10;
        assert(decimal(n) + before =~= if rest == 0 {
            text@
        } else {
            decimal(rest as nat) + text@
        });
    }
    text
}

/// A port number in decimal.
pub fn port_to_string(port: u16) -> (r: String)
    ensures
        r@ == decimal(port as nat),
{
    number_to_string(port as usize)
}

/// The text `prefix` followed by a number in decimal.
pub fn numbered(prefix: &str, number: usize) -> (r: String)
    ensures
        r@ == prefix@ + decimal(number as nat),
{
    let digits = number_to_string(number);
    prefix.to_owned().concat(digits.as_str())
}

/// The text `prefix` followed by the port number in decimal: the address
/// under which a party on this machine is reached.
pub fn local_address(prefix: &str, port: u16) -> (r: String)
    ensures
        r@ == prefix@ + decimal(port as nat),
{
    let number = port_to_string(port);
    prefix.to_owned().concat(number.as_str())
}

} // verus!
