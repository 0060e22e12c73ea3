//! Decimal text for integers: rendering and parsing, with the grammar that
//! Rust's `to_string` and `str::parse` use for the integer types.
use vstd::prelude::*;
use vstd::string::*;

use crate::text::push_char;

verus! {

/// The character of the decimal digit `d` (0..=9).
pub open spec fn digit_char(d: int) -> char {
    (d + 48) as char
}

/// Whether `c` is one of the ASCII digits `0`..`9`.
pub open spec fn is_digit(c: char) -> bool {
    48 <= c as int && c as int <= 57
}

/// The numeric value of a digit character.
pub open spec fn digit_value(c: char) -> int {
    c as int - 48
}

/// Every character of `s` is an ASCII digit.
pub open spec fn all_digits(s: Seq<char>) -> bool {
    forall|i: int| 0 <= i < s.len() ==> is_digit(#[trigger] s[i])
}

/// The value of a string of digits, most significant first.
pub open spec fn digits_value(s: Seq<char>) -> int
    decreases s.len(),
{
    if s.len() == 0 {
        0
    } else {
        digits_value(s.drop_last()) * 10 + digit_value(s.last())
    }
}

/// The shortest decimal text of a natural number, without sign.
pub open spec fn nat_decimal(n: nat) -> Seq<char>
    decreases n,
{
    if n < 10 {
        seq![digit_char(n as int)]
    } else {
        nat_decimal(n / 10).push(digit_char((n % 10) as int))
    }
}

/// The decimal text of an integer: a `-` before the digits of a negative one.
pub open spec fn int_decimal(i: int) -> Seq<char> {
    if i < 0 {
        seq!['-'] + nat_decimal((-i) as nat)
    } else {
        nat_decimal(i as nat)
    }
}

/// The digits of an unsigned numeral: one leading `+` is allowed and dropped.
pub open spec fn unsigned_body(s: Seq<char>) -> Seq<char> {
    if s.len() > 0 && s[0] == '+' {
        s.drop_first()
    } else {
        s
    }
}

/// `s` is a non-empty run of digits whose value is at most `bound`.
pub open spec fn numeral_within(s: Seq<char>, bound: int) -> bool {
    s.len() > 0 && all_digits(s) && digits_value(s) <= bound
}

/// What `s.parse::<u16>()` accepts, and the value it gives.
pub open spec fn parse_u16_spec(s: Seq<char>) -> Option<u16> {
    let b = unsigned_body(s);
    if numeral_within(b, 65535) {
        Some(digits_value(b) as u16)
    } else {
        None
    }
}

/// What `s.parse::<i64>()` accepts, and the value it gives.
pub open spec fn parse_i64_spec(s: Seq<char>) -> Option<i64> {
    if s.len() > 0 && s[0] == '-' {
        let b = s.drop_first();
        if numeral_within(b, 9223372036854775808) {
            Some((-digits_value(b)) as i64)
        } else {
            None
        }
    } else {
        let b = unsigned_body(s);
        if numeral_within(b, 9223372036854775807) {
            Some(digits_value(b) as i64)
        } else {
            None
        }
    }
}

proof fn lemma_digit_char(d: int)
    requires
        0 <= d < 10,
    ensures
        is_digit(digit_char(d)),
        digit_value(digit_char(d)) == d,
        digit_char(d) != '-',
        digit_char(d) != '+',
{
}

/// The decimal text of `n` is a non-empty run of digits whose value is `n`.
pub proof fn lemma_nat_decimal(n: nat)
    ensures
        nat_decimal(n).len() > 0,
        all_digits(nat_decimal(n)),
        digits_value(nat_decimal(n)) == n,
    decreases n,
{
    if n < 10 {
        lemma_digit_char(n as int);
        let s = nat_decimal(n);
        assert(s.drop_last() =~= Seq::<char>::empty());
        assert(digits_value(s.drop_last()) == 0);
        assert(s.last() == digit_char(n as int));
    } else {
        lemma_nat_decimal(n / 10);
        lemma_digit_char((n % 10) as int);
        let s = nat_decimal(n);
        assert(s.drop_last() =~= nat_decimal(n / 10));
        assert forall|i: int| 0 <= i < s.len() implies is_digit(#[trigger] s[i]) by {
            if i < s.len() - 1 {
                assert(s[i] == nat_decimal(n / 10)[i]);
            }
        }
    }
}

/// A prefix of a run of digits never has a larger value than the whole run.
proof fn lemma_digits_prefix(s: Seq<char>, k: int)
    requires
        all_digits(s),
        0 <= k <= s.len(),
    ensures
        digits_value(s.take(k)) <= digits_value(s),
        digits_value(s) >= 0,
    decreases s.len(),
{
    if s.len() == 0 {
        assert(s.take(k) =~= s);
    } else {
        let d = s.drop_last();
        assert(is_digit(s[s.len() - 1]));
        assert(all_digits(d)) by {
            assert forall|i: int| 0 <= i < d.len() implies is_digit(#[trigger] d[i]) by {
                assert(d[i] == s[i]);
            }
        }
        if k == s.len() {
            assert(s.take(k) =~= s);
            lemma_digits_prefix(d, 0);
        } else {
            lemma_digits_prefix(d, k);
            assert(d.take(k) =~= s.take(k));
        }
    }
}

/// The character `d` (0..=9) as a `char`.
fn digit(d: u64) -> (c: char)
    requires
        d < 10,
    ensures
        c == digit_char(d as int),
{
    ((d as u8) + 48) as char
}

/// Appends the decimal text of `n` to `s`.
pub fn push_u64_decimal(s: &mut String, n: u64)
    ensures
        final(s)@ == old(s)@ + nat_decimal(n as nat),
    decreases n,
{
    if n >= 10 {
        push_u64_decimal(s, n / 10);
        let ghost mid = s@;
        push_char(s, digit(n % 10));
        assert(s@ =~= old(s)@ + nat_decimal(n as nat));
    } else {
        push_char(s, digit(n));
        assert(s@ =~= old(s)@ + nat_decimal(n as nat));
    }
}

/// The decimal text of an unsigned number, as `n.to_string()` gives it.
pub fn u64_to_decimal(n: u64) -> (s: String)
    ensures
        s@ == nat_decimal(n as nat),
{
    let mut s = String::new();
    push_u64_decimal(&mut s, n);
    assert(s@ =~= nat_decimal(n as nat));
    s
}

/// The decimal text of a signed number, as `n.to_string()` gives it.
pub fn i64_to_decimal(n: i64) -> (s: String)
    ensures
        s@ == int_decimal(n as int),
{
    let mut s = String::new();
    if n < 0 {
        push_char(&mut s, '-');
        let magnitude: u64 = ((-(n + 1)) as u64) + 1;
        push_u64_decimal(&mut s, magnitude);
        assert(s@ =~= int_decimal(n as int));
    } else {
        push_u64_decimal(&mut s, n as u64);
        assert(s@ =~= int_decimal(n as int));
    }
    s
}

/// Reads `s[start..]` as a run of digits of value at most `bound`.
fn parse_digits(s: &str, start: usize, bound: u64) -> (r: Option<u64>)
    requires
        start <= s@.len(),
    ensures
        r is Some <==> numeral_within(s@.skip(start as int), bound as int),
        r matches Some(v) ==> v <= bound && v as int == digits_value(s@.skip(start as int)),
{
    let len = s.unicode_len();
    let ghost body = s@.skip(start as int);
    if start >= len {
        return None;
    }
    let mut acc: u64 = 0;
    let mut i: usize = start;
    while i < len
        invariant
            start <= i <= len,
            len == s@.len(),
            body == s@.skip(start as int),
            all_digits(body.take(i - start)),
            acc as int == digits_value(body.take(i - start)),
            acc <= bound,
        decreases len - i,
    {
        let c = s.get_char(i);
        let u = c as u32;
        let ghost prefix = body.take(i - start);
        let ghost next = body.take(i + 1 - start);
        assert(next.drop_last() =~= prefix);
        assert(body[i - start] == c);
        if u < 48 || u > 57 {
            assert(!all_digits(body)) by {
                assert(!is_digit(body[i - start]));
            }
            return None;
        }
        assert(all_digits(next)) by {
            assert forall|j: int| 0 <= j < next.len() implies is_digit(#[trigger] next[j]) by {
                if j < next.len() - 1 {
                    assert(next[j] == prefix[j]);
                }
            }
        }
        let value: u128 = (acc as u128) * 10 + ((u - 48) as u128);
        assert(value as int == digits_value(next));
        if value > bound as u128 {
            proof {
                if all_digits(body) {
                    lemma_digits_prefix(body, i + 1 - start);
                }
            }
            return None;
        }
        acc = value as u64;
        i = i + 1;
    }
    assert(body.take(len - start) =~= body);
    Some(acc)
}

/// `s.parse::<u16>()`: `Some` exactly when Rust's parser accepts `s`.
pub fn parse_u16(s: &str) -> (r: Option<u16>)
    ensures
        r == parse_u16_spec(s@),
{
    let len = s.unicode_len();
    let start: usize = if len > 0 && s.get_char(0) == '+' { 1 } else { 0 };
    assert(s@.skip(start as int) =~= unsigned_body(s@));
    match parse_digits(s, start, 65535) {
        Some(v) => Some(v as u16),
        None => None,
    }
}

/// `s.parse::<i64>()`: `Some` exactly when Rust's parser accepts `s`.
pub fn parse_i64(s: &str) -> (r: Option<i64>)
    ensures
        r == parse_i64_spec(s@),
{
    let len = s.unicode_len();
    if len > 0 && s.get_char(0) == '-' {
        assert(s@.skip(1) =~= s@.drop_first());
        match parse_digits(s, 1, 9223372036854775808) {
            Some(v) => {
                if v == 9223372036854775808 {
                    Some(i64::MIN)
                } else {
                    Some(-(v as i64))
                }
            },
            None => None,
        }
    } else {
        let start: usize = if len > 0 && s.get_char(0) == '+' { 1 } else { 0 };
        assert(s@.skip(start as int) =~= unsigned_body(s@));
        match parse_digits(s, start, 9223372036854775807) {
            Some(v) => Some(v as i64),
            None => None,
        }
    }
}

/// Parsing the decimal text of any `i64` gives that number back.
pub proof fn law_i64_decimal_round_trip(x: i64)
    ensures
        parse_i64_spec(int_decimal(x as int)) == Some(x),
{
    if x < 0 {
        let n = (-(x as int)) as nat;
        lemma_nat_decimal(n);
        let s = int_decimal(x as int);
        assert(s.drop_first() =~= nat_decimal(n));
    } else {
        lemma_nat_decimal(x as nat);
        let s = nat_decimal(x as nat);
        assert(is_digit(s[0]));
        assert(unsigned_body(s) == s);
    }
}

/// Parsing the decimal text of any `u16` gives that number back.
pub proof fn law_u16_decimal_round_trip(x: u16)
    ensures
        parse_u16_spec(nat_decimal(x as nat)) == Some(x),
{
    lemma_nat_decimal(x as nat);
    let s = nat_decimal(x as nat);
    assert(is_digit(s[0]));
}

} // verus!
