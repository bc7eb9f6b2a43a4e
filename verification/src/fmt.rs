//! Building the HUD strings: decimal rendering of a score and the two
//! labeled text values, each proved equal to its specification.

use vstd::prelude::*;
use vstd::string::StringExecFns;

verus! {

/// The character for one decimal digit.
pub open spec fn dec_digit(d: nat) -> char {
    if d == 0 {
        '0'
    } else if d == 1 {
        '1'
    } else if d == 2 {
        '2'
    } else if d == 3 {
        '3'
    } else if d == 4 {
        '4'
    } else if d == 5 {
        '5'
    } else if d == 6 {
        '6'
    } else if d == 7 {
        '7'
    } else if d == 8 {
        '8'
    } else {
        '9'
    }
}

/// The usual decimal rendering of a number, most significant digit first,
/// with no sign and no leading zero except for the number zero itself.
pub open spec fn dec_spec(n: nat) -> Seq<char>
    decreases n,
{
    if n < 10 {
        seq![dec_digit(n)]
    } else {
        dec_spec(n / 10).push(dec_digit(n % 10))
    }
}

/// The score text for a given score.
pub open spec fn score_text_spec(n: nat) -> Seq<char> {
    "Score: "@ + dec_spec(n)
}

/// The high-score text for a given high score.
pub open spec fn high_score_text_spec(n: nat) -> Seq<char> {
    "High Score: "@ + dec_spec(n)
}

/// The one-character string for a digit.
fn digit_str(d: u32) -> (r: &'static str)
    requires
        d < 10,
    ensures
        r@ == seq![dec_digit(d as nat)],
{
    if d == 0 {
        proof {
            reveal_strlit("0");
        }
        assert("0"@ =~= seq![dec_digit(0)]);
        "0"
    } else if d == 1 {
        proof {
            reveal_strlit("1");
        }
        assert("1"@ =~= seq![dec_digit(1)]);
        "1"
    } else if d == 2 {
        proof {
            reveal_strlit("2");
        }
        assert("2"@ =~= seq![dec_digit(2)]);
        "2"
    } else if d == 3 {
        proof {
            reveal_strlit("3");
        }
        assert("3"@ =~= seq![dec_digit(3)]);
        "3"
    } else if d == 4 {
        proof {
            reveal_strlit("4");
        }
        assert("4"@ =~= seq![dec_digit(4)]);
        "4"
    } else if d == 5 {
        proof {
            reveal_strlit("5");
        }
        assert("5"@ =~= seq![dec_digit(5)]);
        "5"
    } else if d == 6 {
        proof {
            reveal_strlit("6");
        }
        assert("6"@ =~= seq![dec_digit(6)]);
        "6"
    } else if d == 7 {
        proof {
            reveal_strlit("7");
        }
        assert("7"@ =~= seq![dec_digit(7)]);
        "7"
    } else if d == 8 {
        proof {
            reveal_strlit("8");
        }
        assert("8"@ =~= seq![dec_digit(8)]);
        "8"
    } else {
        proof {
            reveal_strlit("9");
        }
        assert("9"@ =~= seq![dec_digit(9)]);
        "9"
    }
}

/// Render a number in decimal.
pub fn u32_dec(n: u32) -> (s: String)
    ensures
        s@ == dec_spec(n as nat),
    decreases n,
{
    if n < 10 {
        String::from_str(digit_str(n))
    } else {
        let mut s = u32_dec(n / 10);
        s.append(digit_str(n % 10));
        proof {
            assert(s@ =~= dec_spec(n as nat));
        }
        s
    }
}

/// The score text shown for score `n`.
pub fn score_text(n: u32) -> (s: String)
    ensures
        s@ == score_text_spec(n as nat),
{
    let mut s = String::from_str("Score: ");
    let d = u32_dec(n);
    s.append(d.as_str());
    s
}

/// The high-score text shown for high score `n`.
pub fn high_score_text(n: u32) -> (s: String)
    ensures
        s@ == high_score_text_spec(n as nat),
{
    let mut s = String::from_str("High Score: ");
    let d = u32_dec(n);
    s.append(d.as_str());
    s
}

} // verus!
