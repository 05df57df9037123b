//! Decimal text: rendering an index as digits and reading one back.

use vstd::prelude::*;
use vstd::string::StringExecFns;
use vstd::string::StrSliceExecFns;

verus! {

/// The character that writes the digit `d`.
pub open spec fn digit_char(d: int) -> char {
    if d == 0 {
        '0'
    } else if d == 1 {
        '1'
    } else if d == 2 {
        '2'
    } else if d == 3 {
        '3'
    } else if d == 4 {
        '4'
    } else if d == 5 {
        '5'
    } else if d == 6 {
        '6'
    } else if d == 7 {
        '7'
    } else if d == 8 {
        '8'
    } else {
        '9'
    }
}

/// The digit that `c` writes, if it is one of `0` to `9`.
pub open spec fn digit_value(c: char) -> Option<int> {
    if c == '0' {
        Some(0)
    } else if c == '1' {
        Some(1)
    } else if c == '2' {
        Some(2)
    } else if c == '3' {
        Some(3)
    } else if c == '4' {
        Some(4)
    } else if c == '5' {
        Some(5)
    } else if c == '6' {
        Some(6)
    } else if c == '7' {
        Some(7)
    } else if c == '8' {
        Some(8)
    } else if c == '9' {
        Some(9)
    } else {
        None
    }
}

/// The decimal digits of `n`, most significant first, without leading zeros.
pub open spec fn decimal(n: nat) -> Seq<char>
    decreases n,
{
    if n < 10 {
        seq![digit_char(n as int)]
    } else {
        decimal(n / 10).push(digit_char((n % 10) as int))
    }
}

/// Whether every character of `s` is a decimal digit.
pub open spec fn all_digits(s: Seq<char>) -> bool {
    forall|i: int| 0 <= i < s.len() ==> (#[trigger] digit_value(s[i])) is Some
}

/// The number that the digits of `s` write; leading zeros count for nothing.
/// Meaningful where `all_digits(s)`.
pub open spec fn digits_number(s: Seq<char>) -> nat
    decreases s.len(),
{
    if s.len() == 0 {
        0
    } else {
        match digit_value(s.last()) {
            Some(d) => digits_number(s.drop_last()) * 10 + d as nat,
            None => digits_number(s.drop_last()) * 10,
        }
    }
}

/// The digits of a key after an optional leading plus sign.
pub open spec fn unsigned_part(s: Seq<char>) -> Seq<char> {
    if s.len() > 0 && s[0] == '+' {
        s.skip(1)
    } else {
        s
    }
}

/// The index that a key writes, if it is a decimal number that fits a
/// `usize`: an optional plus sign followed by at least one digit.
pub open spec fn parse_index(s: Seq<char>) -> Option<usize> {
    let digits = unsigned_part(s);
    if digits.len() > 0 && all_digits(digits) && digits_number(digits) <= usize::MAX {
        Some(digits_number(digits) as usize)
    } else {
        None
    }
}

fn digit_str(d: u64) -> (r: &'static str)
    requires
        d < 10,
    ensures
        r@ == seq![digit_char(d as int)],
{
    proof {
        reveal_strlit("0");
        reveal_strlit("1");
        reveal_strlit("2");
        reveal_strlit("3");
        reveal_strlit("4");
        reveal_strlit("5");
        reveal_strlit("6");
        reveal_strlit("7");
        reveal_strlit("8");
        reveal_strlit("9");
    }
    let r = if d == 0 {
        "0"
    } else if d == 1 {
        "1"
    } else if d == 2 {
        "2"
    } else if d == 3 {
        "3"
    } else if d == 4 {
        "4"
    } else if d == 5 {
        "5"
    } else if d == 6 {
        "6"
    } else if d == 7 {
        "7"
    } else if d == 8 {
        "8"
    } else {
        "9"
    };
    assert(r@ =~= seq![digit_char(d as int)]);
    r
}

/// Writes `n` in decimal.
pub fn u64_to_string(n: u64) -> (r: String)
    ensures
        r@ == decimal(n as nat),
    decreases n,
{
    if n < 10 {
        String::from_str(digit_str(n))
    } else {
        let mut s = u64_to_string(n / 10);
        s.append(digit_str(n % 10));
        assert(s@ =~= decimal(n as nat));
        s
    }
}

/// Writes `n` in decimal.
pub fn usize_to_string(n: usize) -> (r: String)
    ensures
        r@ == decimal(n as nat),
{
    u64_to_string(n as u64)
}

fn char_digit(c: char) -> (r: Option<usize>)
    ensures
        match r {
            Some(d) => digit_value(c) == Some(d as int) && d < 10,
            None => digit_value(c) is None,
        },
{
    if c == '0' {
        Some(0)
    } else if c == '1' {
        Some(1)
    } else if c == '2' {
        Some(2)
    } else if c == '3' {
        Some(3)
    } else if c == '4' {
        Some(4)
    } else if c == '5' {
        Some(5)
    } else if c == '6' {
        Some(6)
    } else if c == '7' {
        Some(7)
    } else if c == '8' {
        Some(8)
    } else if c == '9' {
        Some(9)
    } else {
        None
    }
}

proof fn lemma_digits_number_prefix(s: Seq<char>, n: int)
    requires
        0 <= n <= s.len(),
    ensures
        digits_number(s.take(n)) <= digits_number(s),
    decreases s.len() - n,
{
    if n < s.len() {
        lemma_digits_number_prefix(s, n + 1);
        let t = s.take(n + 1);
        assert(t.drop_last() =~= s.take(n));
        assert(digits_number(t) >= digits_number(t.drop_last()) * 10);
    } else {
        assert(s.take(n) =~= s);
    }
}

/// Reads a key as an index: `Some` exactly where `parse_index` is.
pub fn parse_usize(s: &str) -> (r: Option<usize>)
    ensures
        r == parse_index(s@),
{
    let len = s.unicode_len();
    let mut start: usize = 0;
    if len > 0 && s.get_char(0) == '+' {
        start = 1;
    }
    let ghost digits = unsigned_part(s@);
    assert(digits =~= s@.skip(start as int));
    if start == len {
        return None;
    }
    let mut acc: usize = 0;
    let mut i: usize = start;
    while i < len
        invariant
            start <= i <= len,
            len == s@.len(),
            digits == s@.skip(start as int),
            digits == unsigned_part(s@),
            all_digits(digits.take(i - start)),
            acc == digits_number(digits.take(i - start)),
        decreases len - i,
    {
        let c = s.get_char(i);
        let ghost prefix = digits.take(i - start);
        let ghost next = digits.take(i + 1 - start);
        proof {
            assert(next.drop_last() =~= prefix);
            assert(next.last() == c);
        }
        match char_digit(c) {
            None => {
                proof {
                    assert(digits[i - start] == c);
                    assert(digit_value(digits[i - start]) is None);
                }
                return None;
            },
            Some(d) => {
                if acc > (usize::MAX - d) / 10 {
                    proof {
                        assert(digits_number(next) == acc * 10 + d);
                        assert(digits_number(next) > usize::MAX);
                        lemma_digits_number_prefix(digits, i + 1 - start);
                    }
                    return None;
                }
                acc = acc * 10 + d;
                proof {
                    assert forall|j: int| 0 <= j < next.len() implies (#[trigger] digit_value(
                        next[j],
                    )) is Some by {
                        if j < prefix.len() {
                            assert(next[j] == prefix[j]);
                        }
                    }
                }
            },
        }
        i = i + 1;
    }
    proof {
        assert(digits.take(len - start) =~= digits);
    }
    Some(acc)
}

/// Reading back what `decimal` wrote gives the number again.
pub proof fn lemma_parse_decimal(n: nat)
    ensures
        all_digits(decimal(n)),
        decimal(n).len() > 0,
        decimal(n)[0] != '+',
        digits_number(decimal(n)) == n,
        n <= usize::MAX ==> parse_index(decimal(n)) == Some(n as usize),
    decreases n,
{
    if n < 10 {
        let s = decimal(n);
        assert(s.drop_last() =~= Seq::<char>::empty());
        assert(digits_number(s.drop_last()) == 0);
    } else {
        lemma_parse_decimal(n / 10);
        let s = decimal(n);
        let p = decimal(n / 10);
        assert(s.drop_last() =~= p);
        assert(s[0] == p[0]);
        assert forall|j: int| 0 <= j < s.len() implies (#[trigger] digit_value(s[j])) is Some by {
            if j < p.len() {
                assert(s[j] == p[j]);
            }
        }
    }
}

} // verus!
