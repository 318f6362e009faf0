//! Decimal rendering of score counters.
//!
//! Every label in these games that shows a number shows exactly the decimal
//! digits of that number; `spec_udec` and `spec_dec` say which characters
//! those are, and the executable formatters are proved to produce them.

use vstd::prelude::*;

verus! {

/// The character for a single decimal digit.
pub open spec fn digit_char(d: int) -> char {
    if d == 0 {
        '0'
    } else if d == 1 {
        '1'
    } else if d == 2 {
        '2'
    } else if d == 3 {
        '3'
    } else if d == 4 {
        '4'
    } else if d == 5 {
        '5'
    } else if d == 6 {
        '6'
    } else if d == 7 {
        '7'
    } else if d == 8 {
        '8'
    } else {
        '9'
    }
}

/// The decimal digits of a non-negative number, most significant first.
pub open spec fn spec_udec(n: int) -> Seq<char>
    decreases n,
{
    if n < 10 {
        seq![digit_char(n)]
    } else {
        spec_udec(n / 10) + seq![digit_char(n % 10)]
    }
}

/// The decimal rendering of a signed number: a minus sign before the
/// digits when it is negative.
pub open spec fn spec_dec(n: int) -> Seq<char> {
    if n < 0 {
        seq!['-'] + spec_udec(-n)
    } else {
        spec_udec(n)
    }
}

/// A decimal rendering is never empty.
proof fn lemma_udec_len(n: int)
    ensures
        spec_udec(n).len() >= 1,
    decreases n,
{
    if n >= 10 {
        lemma_udec_len(n / 10);
    }
}

/// Different numbers never display alike: the decimal rendering is
/// injective, so a counter's label always tells the exact count.
pub proof fn lemma_udec_injective(a: int, b: int)
    requires
        a >= 0,
        b >= 0,
        spec_udec(a) == spec_udec(b),
    ensures
        a == b,
    decreases a,
{
    lemma_udec_len(a / 10);
    lemma_udec_len(b / 10);
    if a < 10 && b < 10 {
        assert(spec_udec(a)[0] == digit_char(a));
        assert(spec_udec(b)[0] == digit_char(b));
    } else if a >= 10 && b >= 10 {
        let s1 = spec_udec(a / 10);
        let s2 = spec_udec(b / 10);
        assert(spec_udec(a).len() == s1.len() + 1);
        assert(spec_udec(b).len() == s2.len() + 1);
        assert(spec_udec(a)[s1.len() as int] == digit_char(a % 10));
        assert(spec_udec(b)[s2.len() as int] == digit_char(b % 10));
        assert(a % 10 == b % 10);
        assert forall|i: int| 0 <= i < s1.len() implies s1[i] == s2[i] by {
            assert(spec_udec(a)[i] == s1[i]);
            assert(spec_udec(b)[i] == s2[i]);
        }
        assert(s1 =~= s2);
        lemma_udec_injective(a / 10, b / 10);
        vstd::arithmetic::div_mod::lemma_fundamental_div_mod(a, 10);
        vstd::arithmetic::div_mod::lemma_fundamental_div_mod(b, 10);
    } else if a < 10 {
        // One digit against at least two: the lengths already differ.
        assert(spec_udec(b).len() >= 2);
    } else {
        assert(spec_udec(a).len() >= 2);
    }
}

/// The one-character string for a decimal digit.
fn digit_str(d: u64) -> (r: &'static str)
    requires
        d < 10,
    ensures
        r@ == seq![digit_char(d as int)],
{
    let r: &'static str = if d == 0 {
        "0"
    } else if d == 1 {
        "1"
    } else if d == 2 {
        "2"
    } else if d == 3 {
        "3"
    } else if d == 4 {
        "4"
    } else if d == 5 {
        "5"
    } else if d == 6 {
        "6"
    } else if d == 7 {
        "7"
    } else if d == 8 {
        "8"
    } else {
        "9"
    };
    proof {
        reveal_strlit("0");
        reveal_strlit("1");
        reveal_strlit("2");
        reveal_strlit("3");
        reveal_strlit("4");
        reveal_strlit("5");
        reveal_strlit("6");
        reveal_strlit("7");
        reveal_strlit("8");
        reveal_strlit("9");
        assert(r@ =~= seq![digit_char(d as int)]);
    }
    r
}

/// Render an unsigned number in decimal.
pub fn u64_to_string(n: u64) -> (s: String)
    ensures
        s@ == spec_udec(n as int),
    decreases n,
{
    if n < 10 {
        String::from_str(digit_str(n))
    } else {
        let mut s = u64_to_string(n / 10);
        s.append(digit_str(n % 10));
        s
    }
}

/// Render a signed number in decimal, with a minus sign when negative.
pub fn i64_to_string(v: i64) -> (s: String)
    ensures
        s@ == spec_dec(v as int),
{
    if v >= 0 {
        u64_to_string(v as u64)
    } else {
        let mag: u64 = if v == i64::MIN {
            9223372036854775808u64
        } else {
            (-v) as u64
        };
        assert(mag as int == -(v as int));
        let mut s = String::from_str("-");
        proof {
            reveal_strlit("-");
            assert(s@ =~= seq!['-']);
        }
        let tail = u64_to_string(mag);
        s.append(tail.as_str());
        proof {
            assert(s@ =~= spec_dec(v as int));
        }
        s
    }
}

} // verus!
