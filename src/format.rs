//! Decimal text of integers, both ways.

use vstd::prelude::*;
use vstd::string::{StrSliceExecFns, StringExecFns};

verus! {

/// The character of a decimal digit.
pub open spec fn digit_char(d: nat) -> char {
    seq!['0', '1', '2', '3', '4', '5', '6', '7', '8', '9'][d as int]
}

/// The decimal digits of `n`, without leading zeros.
pub open spec fn nat_digits(n: nat) -> Seq<char>
    decreases n,
{
    if n < 10 {
        seq![digit_char(n)]
    } else {
        nat_digits(n / 10) + seq![digit_char(n % 10)]
    }
}

/// The decimal text of an integer, with a leading `-` where it is negative.
pub open spec fn decimal_of(n: int) -> Seq<char> {
    if n < 0 {
        seq!['-'] + nat_digits((-n) as nat)
    } else {
        nat_digits(n as nat)
    }
}

fn digit_str(d: u64) -> (r: &'static str)
    requires
        d < 10,
    ensures
        r@ == seq![digit_char(d as nat)],
{
    proof {
        reveal_strlit("0");
        reveal_strlit("1");
        reveal_strlit("2");
        reveal_strlit("3");
        reveal_strlit("4");
        reveal_strlit("5");
        reveal_strlit("6");
        reveal_strlit("7");
        reveal_strlit("8");
        reveal_strlit("9");
    }
    let r = match d {
        0 => "0",
        1 => "1",
        2 => "2",
        3 => "3",
        4 => "4",
        5 => "5",
        6 => "6",
        7 => "7",
        8 => "8",
        _ => "9",
    };
    assert(r@ =~= seq![digit_char(d as nat)]);
    r
}

/// The decimal digits of `n`.
pub fn unsigned_decimal(n: u64) -> (r: String)
    ensures
        r@ == nat_digits(n as nat),
    decreases n,
{
    if n < 10 {
        String::from_str(digit_str(n))
    } else {
        let mut s = unsigned_decimal(n / 10);
        s.append(digit_str(n % 10));
        s
    }
}

/// The decimal text of `n`, as `i64`'s `Display` writes it.
pub fn decimal(n: i64) -> (r: String)
    ensures
        r@ == decimal_of(n as int),
{
    if n < 0 {
        let magnitude: u64 = (-(n + 1)) as u64 + 1;
        proof {
            reveal_strlit("-");
        }
        let mut s = String::from_str("-");
        let digits = unsigned_decimal(magnitude);
        s.append(digits.as_str());
        s
    } else {
        unsigned_decimal(n as u64)
    }
}

/// The character is a decimal digit.
pub open spec fn is_digit(c: char) -> bool {
    '0' <= c && c <= '9'
}

/// The value of a decimal digit.
pub open spec fn digit_value(c: char) -> nat {
    (c as u32 - '0' as u32) as nat
}

/// The value of a string of decimal digits.
pub open spec fn digits_value(s: Seq<char>) -> nat
    decreases s.len(),
{
    if s.len() == 0 {
        0
    } else {
        digits_value(s.drop_last()) * 10 + digit_value(s.last())
    }
}

/// The digits of an index as typed: an optional leading `+` removed.
pub open spec fn unsigned_body(s: Seq<char>) -> Seq<char> {
    if s.len() > 0 && s[0] == '+' {
        s.subrange(1, s.len() as int)
    } else {
        s
    }
}

/// The text is an unsigned decimal number that fits in `usize`, as
/// `usize::from_str` accepts it.
pub open spec fn is_unsigned_decimal(s: Seq<char>) -> bool {
    let body = unsigned_body(s);
    &&& body.len() > 0
    &&& forall|i: int| 0 <= i < body.len() ==> is_digit(#[trigger] body[i])
    &&& digits_value(body) <= usize::MAX
}

proof fn lemma_digits_value_grows(s: Seq<char>, k: int)
    requires
        0 <= k <= s.len(),
    ensures
        digits_value(s.subrange(0, k)) <= digits_value(s),
    decreases s.len() - k,
{
    if k < s.len() {
        lemma_digits_value_grows(s, k + 1);
        assert(s.subrange(0, k + 1).drop_last() =~= s.subrange(0, k));
    } else {
        assert(s.subrange(0, k) =~= s);
    }
}

/// Parses an unsigned decimal number: `None` where `text` is not one, or does
/// not fit in `usize`.
pub fn parse_unsigned(text: &str) -> (r: Option<usize>)
    ensures
        r.is_some() <==> is_unsigned_decimal(text@),
        r matches Some(n) ==> n == digits_value(unsigned_body(text@)),
{
    let len = text.unicode_len();
    let mut start: usize = 0;
    if len > 0 && text.get_char(0) == '+' {
        start = 1;
    }
    let ghost body = unsigned_body(text@);
    assert(body =~= text@.subrange(start as int, len as int));
    if start >= len {
        return None;
    }
    let mut value: usize = 0;
    let mut k: usize = start;
    while k < len
        invariant
            len == text@.len(),
            body == text@.subrange(start as int, len as int),
            body == unsigned_body(text@),
            start <= k <= len,
            forall|i: int| 0 <= i < k - start ==> is_digit(#[trigger] body[i]),
            value == digits_value(body.subrange(0, k - start)),
        decreases len - k,
    {
        let c = text.get_char(k);
        let ghost prefix = body.subrange(0, k - start + 1);
        assert(prefix.drop_last() =~= body.subrange(0, k - start));
        assert(body[k - start] == c);
        assert(prefix.last() == c);
        if c < '0' || c > '9' {
            assert(body.len() == len - start);
            assert(!is_digit(body[k - start]));
            return None;
        }
        let d: usize = ((c as u32) - ('0' as u32)) as usize;
        if value > (usize::MAX - d) / 10 {
            assert(value * 10 + d > usize::MAX) by (nonlinear_arith)
                requires
                    value > (usize::MAX - d) / 10,
                    d < 10,
            ;
            proof {
                assert(d == digit_value(c));
                assert(digits_value(prefix) == value * 10 + d);
                lemma_digits_value_grows(body, k - start + 1);
            }
            return None;
        }
        assert(value * 10 + d <= usize::MAX) by (nonlinear_arith)
            requires
                value <= (usize::MAX - d) / 10,
                d < 10,
        ;
        assert(d == digit_value(c));
        value = value * 10 + d;
        k = k + 1;
    }
    assert(body.subrange(0, len - start) =~= body);
    Some(value)
}

} // verus!
