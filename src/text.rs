//! Decimal rendering of numbers, and views of optional texts.
use vstd::prelude::*;

verus! {

/// An optional text as an optional sequence of characters.
pub open spec fn opt_seq(o: Option<String>) -> Option<Seq<char>> {
    match o {
        Some(s) => Some(s@),
        None => None,
    }
}

/// The character of a digit below ten.
pub open spec fn digit_char(d: nat) -> char {
    if d == 0 { '0' }
    else if d == 1 { '1' }
    else if d == 2 { '2' }
    else if d == 3 { '3' }
    else if d == 4 { '4' }
    else if d == 5 { '5' }
    else if d == 6 { '6' }
    else if d == 7 { '7' }
    else if d == 8 { '8' }
    else { '9' }
}

/// The decimal digits of `n`, without leading zeros.
pub open spec fn decimal_text(n: nat) -> Seq<char>
    decreases n,
{
    if n < 10 {
        seq![digit_char(n)]
    } else {
        decimal_text(n / 10).push(digit_char(n % 10))
    }
}

/// The text of one digit below ten.
fn digit_str(d: u64) -> (r: &'static str)
    requires
        d < 10,
    ensures
        r@ == seq![digit_char(d as nat)],
{
    proof {
        reveal_strlit("0");
        reveal_strlit("1");
        reveal_strlit("2");
        reveal_strlit("3");
        reveal_strlit("4");
        reveal_strlit("5");
        reveal_strlit("6");
        reveal_strlit("7");
        reveal_strlit("8");
        reveal_strlit("9");
    }
    let r = if d == 0 { "0" }
    else if d == 1 { "1" }
    else if d == 2 { "2" }
    else if d == 3 { "3" }
    else if d == 4 { "4" }
    else if d == 5 { "5" }
    else if d == 6 { "6" }
    else if d == 7 { "7" }
    else if d == 8 { "8" }
    else { "9" };
    assert(r@ =~= seq![digit_char(d as nat)]);
    r
}

/// `n` written in decimal.
pub fn decimal_string(n: u64) -> (r: String)
    ensures
        r@ == decimal_text(n as nat),
{
    let mut rest: u64 = n;
    let mut acc = String::from_str(digit_str(n % 10));
    rest = n / 10;
    while rest > 0
        invariant
            rest < n || rest == 0,
            decimal_text(n as nat) == if rest == 0 { acc@ } else { decimal_text(rest as nat) + acc@ },
            acc@.len() > 0,
        decreases rest,
    {
        let d = rest % 10;
        proof {
            assert(decimal_text(rest as nat) == (if rest < 10 { seq![digit_char(rest as nat)] }
                else { decimal_text((rest / 10) as nat).push(digit_char((rest % 10) as nat)) }));
            if rest >= 10 {
                assert(decimal_text((rest / 10) as nat).push(digit_char(d as nat)) + acc@
                    =~= decimal_text((rest / 10) as nat) + (seq![digit_char(d as nat)] + acc@));
            } else {
                assert(rest % 10 == rest);
            }
        }
        acc = String::from_str(digit_str(d)).concat(acc.as_str());
        rest = rest / 10;
    }
    acc
}

} // verus!
