//! Numbers as text.

use vstd::prelude::*;
use vstd::string::*;

verus! {

/// The texts of a sequence of strings.
pub open spec fn texts(strings: Seq<String>) -> Seq<Seq<char>> {
    Seq::new(strings.len(), |i: int| strings[i]@)
}

/// The ten decimal digits.
pub open spec fn spec_digits() -> Seq<char> {
    seq!['0', '1', '2', '3', '4', '5', '6', '7', '8', '9']
}

/// A number in decimal, without sign, padding or leading zeros.
pub open spec fn spec_decimal(n: nat) -> Seq<char>
    decreases n,
{
    if n < 10 {
        seq![spec_digits()[n as int]]
    } else {
        spec_decimal(n / 10).push(spec_digits()[(n % 10) as int])
    }
}

/// A number below one hundred as two decimal digits.
pub open spec fn spec_two_digits(n: nat) -> Seq<char> {
    seq![spec_digits()[(n / 10) as int], spec_digits()[(n % 10) as int]]
}

/// A number below ten thousand as four decimal digits.
pub open spec fn spec_four_digits(n: nat) -> Seq<char> {
    spec_two_digits(n / 100) + spec_two_digits(n % 100)
}

/// One decimal digit as text.
fn digit(d: u8) -> (text: &'static str)
    requires
        d < 10,
    ensures
        text@ == seq![spec_digits()[d as int]],
{
    proof {
        reveal_strlit("0");
        reveal_strlit("1");
        reveal_strlit("2");
        reveal_strlit("3");
        reveal_strlit("4");
        reveal_strlit("5");
        reveal_strlit("6");
        reveal_strlit("7");
        reveal_strlit("8");
        reveal_strlit("9");
    }
    let text = match d {
        0 => "0",
        1 => "1",
        2 => "2",
        3 => "3",
        4 => "4",
        5 => "5",
        6 => "6",
        7 => "7",
        8 => "8",
        _ => "9",
    };
    assert(text@ =~= seq![spec_digits()[d as int]]);
    text
}

/// Writes a number in decimal.
pub fn decimal(n: u128) -> (text: String)
    ensures
        text@ == spec_decimal(n as nat),
    decreases n,
{
    if n < 10 {
        digit(n as u8).to_string()
    } else {
        let mut text = decimal(n / 10);
        text.append(digit((n % 10) as u8));
        assert(text@ =~= spec_decimal(n as nat));
        text
    }
}

/// Decimal text has no leading zero and as many digits as the number needs.
pub proof fn decimal_is_canonical(n: nat)
    ensures
        spec_decimal(n).len() >= 1,
        n < 10 <==> spec_decimal(n).len() == 1,
        n > 0 ==> spec_decimal(n)[0] != '0',
        forall|i: int| 0 <= i < spec_decimal(n).len() ==> spec_digits().contains(#[trigger] spec_decimal(n)[i]),
    decreases n,
{
    if n >= 10 {
        decimal_is_canonical(n / 10);
        let front = spec_decimal(n / 10);
        let all = spec_decimal(n);
        assert(all == front.push(spec_digits()[(n % 10) as int]));
        assert(all[0] == front[0]);
        assert forall|i: int| 0 <= i < all.len() implies spec_digits().contains(#[trigger] all[i]) by {
            if i < front.len() {
                assert(all[i] == front[i]);
            } else {
                assert(all[i] == spec_digits()[(n % 10) as int]);
            }
        }
    } else {
        assert(spec_decimal(n)[0] == spec_digits()[n as int]);
    }
}

} // verus!
