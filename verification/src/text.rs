//! Decimal rendering of machine integers, used to derive deterministic,
//! filesystem-safe identifiers from numeric parameters.
use vstd::prelude::*;

verus! {

use vstd::string::StringExecFns;

/// The character for one decimal digit.
pub open spec fn digit_char(d: nat) -> char
    recommends
        d < 10,
{
    if d == 0 {
        '0'
    } else if d == 1 {
        '1'
    } else if d == 2 {
        '2'
    } else if d == 3 {
        '3'
    } else if d == 4 {
        '4'
    } else if d == 5 {
        '5'
    } else if d == 6 {
        '6'
    } else if d == 7 {
        '7'
    } else if d == 8 {
        '8'
    } else {
        '9'
    }
}

/// The decimal digits of `n`, most significant first, without leading
/// zeros (a single `'0'` for zero itself).
pub open spec fn dec_digits(n: nat) -> Seq<char>
    decreases n,
{
    if n < 10 {
        seq![digit_char(n)]
    } else {
        dec_digits(n / 10) + seq![digit_char(n % 10)]
    }
}

/// The string for a single decimal digit.
fn digit_str(d: usize) -> (r: &'static str)
    requires
        d < 10,
    ensures
        r@ == seq![digit_char(d as nat)],
{
    let s: &'static str = if d == 0 {
        "0"
    } else if d == 1 {
        "1"
    } else if d == 2 {
        "2"
    } else if d == 3 {
        "3"
    } else if d == 4 {
        "4"
    } else if d == 5 {
        "5"
    } else if d == 6 {
        "6"
    } else if d == 7 {
        "7"
    } else if d == 8 {
        "8"
    } else {
        "9"
    };
    proof {
        reveal_strlit("0");
        reveal_strlit("1");
        reveal_strlit("2");
        reveal_strlit("3");
        reveal_strlit("4");
        reveal_strlit("5");
        reveal_strlit("6");
        reveal_strlit("7");
        reveal_strlit("8");
        reveal_strlit("9");
        assert(s@ =~= seq![digit_char(d as nat)]);
    }
    s
}

/// Characters allowed in a derived identifier: decimal digits, the
/// lower-case letters of its fixed markers, and the underscore that
/// joins its fields.
pub open spec fn identifier_char(c: char) -> bool {
    ||| c == '_'
    ||| c == 'z'
    ||| c == 'q'
    ||| c == 'k'
    ||| c == 's'
    ||| c == 'n'
    ||| c == 'o'
    ||| c == '0'
    ||| c == '1'
    ||| c == '2'
    ||| c == '3'
    ||| c == '4'
    ||| c == '5'
    ||| c == '6'
    ||| c == '7'
    ||| c == '8'
    ||| c == '9'
}

/// A decimal rendering consists of digit characters alone.
pub proof fn lemma_dec_digits_identifier_chars(n: nat)
    ensures
        forall|i: int|
            0 <= i < dec_digits(n).len() ==> identifier_char(#[trigger] dec_digits(n)[i]),
    decreases n,
{
    if n < 10 {
        assert forall|i: int| 0 <= i < dec_digits(n).len() implies identifier_char(
            dec_digits(n)[i],
        ) by {
            assert(dec_digits(n) == seq![digit_char(n)]);
            assert(i == 0);
        }
    } else {
        lemma_dec_digits_identifier_chars(n / 10);
        assert forall|i: int| 0 <= i < dec_digits(n).len() implies identifier_char(
            dec_digits(n)[i],
        ) by {
            let rec = dec_digits(n / 10);
            assert(dec_digits(n) == rec + seq![digit_char(n % 10)]);
            if i < rec.len() {
                assert(dec_digits(n)[i] == rec[i]);
            } else {
                assert(dec_digits(n)[i] == digit_char(n % 10));
            }
        }
    }
}

/// Renders `n` in decimal, matching `dec_digits`.
pub fn dec_string(n: usize) -> (r: String)
    ensures
        r@ == dec_digits(n as nat),
    decreases n,
{
    if n < 10 {
        String::from_str(digit_str(n))
    } else {
        assert(n / 10 < n) by (nonlinear_arith)
            requires
                n >= 10,
        ;
        let high = dec_string(n / 10);
        let low = digit_str(n % 10);
        high.concat(low)
    }
}

} // verus!
