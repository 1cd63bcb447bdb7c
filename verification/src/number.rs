//! Numbers as text: decimal and hexadecimal digits, written and read.
use vstd::prelude::*;

verus! {

/// The character of a decimal digit.
pub open spec fn digit(d: nat) -> char {
    (48 + d) as u8 as char
}

/// A natural number in decimal, without leading zeros.
pub open spec fn decimal(n: nat) -> Seq<char>
    decreases n,
{
    if n < 10 {
        seq![digit(n)]
    } else {
        decimal(n / 10).push(digit(n % 10))
    }
}

/// An integer in decimal, with a minus sign where it is negative.
pub open spec fn signed_decimal(n: int) -> Seq<char> {
    if n < 0 {
        seq!['-'] + decimal((-n) as nat)
    } else {
        decimal(n as nat)
    }
}

/// Appends a number in decimal.
pub fn push_decimal(out: &mut String, n: u128)
    ensures
        final(out)@ == old(out)@ + decimal(n as nat),
    decreases n,
{
    if n >= 10 {
        push_decimal(out, n / 10);
    }
    let d: u8 = (n % 10) as u8;
    out.push((48 + d) as char);
    proof {
        assert(out@ =~= old(out)@ + decimal(n as nat));
    }
}

/// Appends a signed number in decimal.
pub fn push_signed(out: &mut String, n: i32)
    ensures
        final(out)@ == old(out)@ + signed_decimal(n as int),
{
    if n < 0 {
        out.push('-');
        push_decimal(out, (-(n as i64)) as u128);
        proof {
            assert(out@ =~= old(out)@ + signed_decimal(n as int));
        }
    } else {
        push_decimal(out, n as u128);
    }
}

/// The character of a hexadecimal digit, with capital letters.
pub open spec fn hex_upper(d: int) -> char {
    if d < 10 {
        (48 + d) as u8 as char
    } else {
        (55 + d) as u8 as char
    }
}

/// The character of a hexadecimal digit, with small letters.
pub open spec fn hex_lower(d: int) -> char {
    if d < 10 {
        (48 + d) as u8 as char
    } else {
        (87 + d) as u8 as char
    }
}

/// The capital hexadecimal digit of a value below sixteen.
pub fn hex_upper_char(d: u8) -> (r: char)
    requires
        d < 16,
    ensures
        r == hex_upper(d as int),
{
    if d < 10 {
        (48 + d) as char
    } else {
        (55 + d) as char
    }
}

/// The small hexadecimal digit of a value below sixteen.
pub fn hex_lower_char(d: u8) -> (r: char)
    requires
        d < 16,
    ensures
        r == hex_lower(d as int),
{
    if d < 10 {
        (48 + d) as char
    } else {
        (87 + d) as char
    }
}

/// Whether every character is a decimal digit.
pub open spec fn all_digits(s: Seq<char>) -> bool {
    forall|i: int| 0 <= i < s.len() ==> '0' <= #[trigger] s[i] <= '9'
}

/// The number that a run of decimal digits stands for.
pub open spec fn value_of(s: Seq<char>) -> nat
    decreases s.len(),
{
    if s.len() == 0 {
        0
    } else {
        value_of(s.drop_last()) * 10 + (s.last() as nat - 48) as nat
    }
}

/// The number that a non-empty run of digits stands for, up to `max`.
pub open spec fn read_digits(s: Seq<char>, max: nat) -> Option<nat> {
    if s.len() > 0 && all_digits(s) && value_of(s) <= max {
        Some(value_of(s))
    } else {
        None
    }
}

/// An unsigned number: digits, after a plus sign or none, up to `max`.
pub open spec fn read_unsigned(s: Seq<char>, max: nat) -> Option<nat> {
    if s.len() > 0 && s[0] == '+' {
        read_digits(s.skip(1), max)
    } else {
        read_digits(s, max)
    }
}

/// A signed 32-bit number: digits, after a sign or none, within the range.
pub open spec fn read_signed(s: Seq<char>) -> Option<int> {
    if s.len() > 0 && s[0] == '-' {
        match read_digits(s.skip(1), 0x8000_0000) {
            Some(n) => Some(-n),
            None => None,
        }
    } else {
        match read_unsigned(s, 0x7fff_ffff) {
            Some(n) => Some(n as int),
            None => None,
        }
    }
}

/// A prefix of a run of digits stands for no larger a number.
proof fn value_of_prefix(s: Seq<char>, n: int)
    requires
        0 <= n <= s.len(),
        all_digits(s),
    ensures
        value_of(s.take(n)) <= value_of(s),
    decreases s.len(),
{
    if n == s.len() {
        assert(s.take(n) =~= s);
    } else {
        assert(s.take(n) =~= s.drop_last().take(n));
        assert(all_digits(s.drop_last()));
        value_of_prefix(s.drop_last(), n);
    }
}

/// Reads a run of digits.
fn parse_digits(s: &[char], max: u64) -> (r: Option<u64>)
    ensures
        match r {
            Some(n) => read_digits(s@, max as nat) == Some(n as nat),
            None => read_digits(s@, max as nat) is None,
        },
{
    if s.len() == 0 {
        return None;
    }
    let mut n: u64 = 0;
    let mut i: usize = 0;
    while i < s.len()
        invariant
            i <= s@.len(),
            n <= max,
            forall|j: int| 0 <= j < i ==> '0' <= #[trigger] s@[j] <= '9',
            n == value_of(s@.take(i as int)),
        decreases s@.len() - i,
    {
        let ch = s[i];
        if ch < '0' || '9' < ch {
            return None;
        }
        let d: u8 = ch as u8 - 48;
        let next: u128 = n as u128 * 10 + d as u128;
        proof {
            assert(s@.take(i + 1).drop_last() =~= s@.take(i as int));
            assert(next == value_of(s@.take(i + 1)));
        }
        if next > max as u128 {
            proof {
                if all_digits(s@) {
                    value_of_prefix(s@, i + 1);
                }
            }
            return None;
        }
        n = next as u64;
        i += 1;
    }
    proof {
        assert(s@.take(i as int) =~= s@);
    }
    Some(n)
}

/// Reads an unsigned number.
pub fn parse_unsigned(s: &[char], max: u64) -> (r: Option<u64>)
    ensures
        match r {
            Some(n) => read_unsigned(s@, max as nat) == Some(n as nat),
            None => read_unsigned(s@, max as nat) is None,
        },
{
    if s.len() > 0 && s[0] == '+' {
        parse_digits(vstd::slice::slice_subrange(s, 1, s.len()), max)
    } else {
        parse_digits(s, max)
    }
}

/// Reads a signed 32-bit number.
pub fn parse_signed(s: &[char]) -> (r: Option<i32>)
    ensures
        match r {
            Some(n) => read_signed(s@) == Some(n as int),
            None => read_signed(s@) is None,
        },
{
    if s.len() > 0 && s[0] == '-' {
        match parse_digits(vstd::slice::slice_subrange(s, 1, s.len()), 0x8000_0000) {
            Some(n) => Some((-(n as i64)) as i32),
            None => None,
        }
    } else {
        match parse_unsigned(s, 0x7fff_ffff) {
            Some(n) => Some(n as i32),
            None => None,
        }
    }
}

} // verus!
