//! Decimal text of integers, as `ToString` writes it, written digit by digit.

use vstd::prelude::*;
use vstd::string::{StrSliceExecFns, StringExecFns};

verus! {

/// The character of decimal digit `d`.
pub open spec fn decimal_digit(d: nat) -> char {
    (48 + d) as char
}

/// The decimal digits of `n`, most significant first, without leading zeros.
pub open spec fn nat_text(n: nat) -> Seq<char>
    decreases n,
{
    if n < 10 {
        seq![decimal_digit(n)]
    } else {
        nat_text(n / 10) + seq![decimal_digit(n % 10)]
    }
}

/// The decimal text of `v`: a minus sign for negative values, then the digits.
pub open spec fn int_text(v: int) -> Seq<char> {
    if v < 0 {
        seq!['-'] + nat_text((-v) as nat)
    } else {
        nat_text(v as nat)
    }
}

/// The decimal digits of `n`.
fn u64_text(n: u64) -> (s: String)
    ensures
        s@ == nat_text(n as nat),
    decreases n,
{
    let digits = "0123456789";
    proof {
        reveal_strlit("0123456789");
    }
    if n < 10 {
        let d: usize = n as usize;
        let s = digits.substring_char(d, d + 1).to_owned();
        assert(s@ =~= seq![decimal_digit(n as nat)]);
        s
    } else {
        let d: usize = (n % 10) as usize;
        let s = u64_text(n / 10).concat(digits.substring_char(d, d + 1));
        assert(s@ =~= nat_text((n / 10) as nat) + seq![decimal_digit((n % 10) as nat)]);
        s
    }
}

/// The decimal text of `v`, as `i64::to_string` writes it.
pub(crate) fn i64_text(v: i64) -> (s: String)
    ensures
        s@ == int_text(v as int),
{
    if v < 0 {
        let magnitude: u64 = if v == i64::MIN {
            9_223_372_036_854_775_808u64
        } else {
            (-v) as u64
        };
        proof {
            reveal_strlit("-");
        }
        let s = "-".to_owned().concat(u64_text(magnitude).as_str());
        assert(s@ =~= seq!['-'] + nat_text((-v) as nat));
        s
    } else {
        u64_text(v as u64)
    }
}

} // verus!
