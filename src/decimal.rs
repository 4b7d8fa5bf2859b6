//! Decimal text: parsing unsigned integers and printing them back.
use vstd::prelude::*;
use vstd::string::StrSliceExecFns;
use vstd::string::StringExecFns;

verus! {

pub open spec fn is_digit(c: char) -> bool {
    '0' <= c && c <= '9'
}

pub open spec fn digit_value(c: char) -> nat {
    (c as int - '0' as int) as nat
}

pub open spec fn all_digits(s: Seq<char>) -> bool {
    forall|i: int| 0 <= i < s.len() ==> #[trigger] is_digit(s[i])
}

/// The number that a string of decimal digits denotes.
pub open spec fn digits_value(s: Seq<char>) -> nat
    decreases s.len(),
{
    if s.len() == 0 {
        0
    } else {
        digits_value(s.drop_last()) * 10 + digit_value(s.last())
    }
}

/// The digits of an unsigned number's text, after an optional leading `+`.
pub open spec fn unsigned_digits(s: Seq<char>) -> Seq<char> {
    if s.len() > 0 && s[0] == '+' {
        s.skip(1)
    } else {
        s
    }
}

/// The text of an unsigned number: an optional `+`, then one digit or more.
pub open spec fn is_unsigned_text(s: Seq<char>) -> bool {
    unsigned_digits(s).len() > 0 && all_digits(unsigned_digits(s))
}

/// The value of `s` read as an unsigned number no greater than `max`, if it is one.
pub open spec fn parse_unsigned(s: Seq<char>, max: nat) -> Option<nat> {
    if is_unsigned_text(s) && digits_value(unsigned_digits(s)) <= max {
        Some(digits_value(unsigned_digits(s)))
    } else {
        None
    }
}

pub open spec fn digit_char(d: nat) -> char {
    if d == 0 {
        '0'
    } else if d == 1 {
        '1'
    } else if d == 2 {
        '2'
    } else if d == 3 {
        '3'
    } else if d == 4 {
        '4'
    } else if d == 5 {
        '5'
    } else if d == 6 {
        '6'
    } else if d == 7 {
        '7'
    } else if d == 8 {
        '8'
    } else {
        '9'
    }
}

/// The decimal text of `n`, without leading zeros.
pub open spec fn decimal_of(n: nat) -> Seq<char>
    decreases n,
{
    if n < 10 {
        seq![digit_char(n)]
    } else {
        decimal_of(n / 10) + seq![digit_char(n % 10)]
    }
}

proof fn lemma_digits_value_prefix(t: Seq<char>, k: int)
    requires
        all_digits(t),
        0 <= k <= t.len(),
    ensures
        digits_value(t.subrange(0, k)) <= digits_value(t),
    decreases t.len(),
{
    if k < t.len() {
        lemma_digits_value_prefix(t.drop_last(), k);
        assert(t.drop_last().subrange(0, k) =~= t.subrange(0, k));
    } else {
        assert(t.subrange(0, k) =~= t);
    }
}

/// Reads `s` as an unsigned number no greater than `max`.
fn parse_bounded(s: &str, max: u64) -> (r: Option<u64>)
    ensures
        match parse_unsigned(s@, max as nat) {
            Some(v) => r == Some(v as u64),
            None => r is None,
        },
{
    let n = s.unicode_len();
    let mut start: usize = 0;
    if n > 0 && s.get_char(0) == '+' {
        start = 1;
    }
    let ghost d = unsigned_digits(s@);
    assert(d =~= s@.subrange(start as int, n as int));
    if start == n {
        return None;
    }
    let mut acc: u64 = 0;
    let mut i: usize = start;
    while i < n
        invariant
            start <= i <= n,
            n == s@.len(),
            d == s@.subrange(start as int, n as int),
            d == unsigned_digits(s@),
            all_digits(s@.subrange(start as int, i as int)),
            acc as nat == digits_value(s@.subrange(start as int, i as int)),
            acc <= max,
        decreases n - i,
    {
        let c = s.get_char(i);
        let ghost prefix = s@.subrange(start as int, i as int);
        let ghost next = s@.subrange(start as int, i + 1);
        assert(next.drop_last() =~= prefix);
        if !('0' <= c && c <= '9') {
            assert(d[i - start] == c && !is_digit(d[i - start]));
            return None;
        }
        let v: u128 = acc as u128 * 10 + (c as u32 - '0' as u32) as u128;
        assert(v as nat == digits_value(next));
        if v > max as u128 {
            proof {
                if all_digits(d) {
                    assert(d.subrange(0, i + 1 - start) =~= next);
                    lemma_digits_value_prefix(d, i + 1 - start);
                }
            }
            return None;
        }
        acc = v as u64;
        i = i + 1;
    }
    assert(s@.subrange(start as int, i as int) =~= d);
    Some(acc)
}

/// Reads a user id: an unsigned 64-bit number in decimal.
pub fn parse_u64(s: &str) -> (r: Option<u64>)
    ensures
        match parse_unsigned(s@, u64::MAX as nat) {
            Some(v) => r == Some(v as u64),
            None => r is None,
        },
{
    parse_bounded(s, u64::MAX)
}

/// Reads a discriminator: an unsigned 16-bit number in decimal.
pub fn parse_u16(s: &str) -> (r: Option<u16>)
    ensures
        match parse_unsigned(s@, u16::MAX as nat) {
            Some(v) => r == Some(v as u16),
            None => r is None,
        },
{
    match parse_bounded(s, u16::MAX as u64) {
        Some(v) => Some(v as u16),
        None => None,
    }
}

fn digit_str(d: u64) -> (r: &'static str)
    requires
        d < 10,
    ensures
        r@ == seq![digit_char(d as nat)],
{
    if d == 0 {
        proof { reveal_strlit("0"); }
        "0"
    } else if d == 1 {
        proof { reveal_strlit("1"); }
        "1"
    } else if d == 2 {
        proof { reveal_strlit("2"); }
        "2"
    } else if d == 3 {
        proof { reveal_strlit("3"); }
        "3"
    } else if d == 4 {
        proof { reveal_strlit("4"); }
        "4"
    } else if d == 5 {
        proof { reveal_strlit("5"); }
        "5"
    } else if d == 6 {
        proof { reveal_strlit("6"); }
        "6"
    } else if d == 7 {
        proof { reveal_strlit("7"); }
        "7"
    } else if d == 8 {
        proof { reveal_strlit("8"); }
        "8"
    } else {
        proof { reveal_strlit("9"); }
        "9"
    }
}

/// The decimal text of `n`.
pub fn decimal_string(n: u64) -> (r: String)
    ensures
        r@ == decimal_of(n as nat),
    decreases n,
{
    if n < 10 {
        String::from_str(digit_str(n))
    } else {
        let head = decimal_string(n / 10);
        head.concat(digit_str(n % 10))
    }
}

} // verus!
