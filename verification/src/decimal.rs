//! Decimal rendering of integers, used when building SQL statements and
//! user-facing messages without the help of the formatting machinery.

use vstd::prelude::*;

verus! {

/// The character for a single decimal digit.
pub open spec fn digit_char(d: nat) -> char {
    if d == 0 {
        '0'
    } else if d == 1 {
        '1'
    } else if d == 2 {
        '2'
    } else if d == 3 {
        '3'
    } else if d == 4 {
        '4'
    } else if d == 5 {
        '5'
    } else if d == 6 {
        '6'
    } else if d == 7 {
        '7'
    } else if d == 8 {
        '8'
    } else {
        '9'
    }
}

/// The usual decimal rendering of a natural number, most significant digit
/// first, with no leading zeros (except for the number zero itself).
pub open spec fn dec_rep(n: nat) -> Seq<char>
    decreases n,
{
    if n < 10 {
        seq![digit_char(n)]
    } else {
        dec_rep(n / 10) + seq![digit_char(n % 10)]
    }
}

/// The decimal rendering of an integer: a minus sign before the magnitude for
/// negative numbers.
pub open spec fn dec_int_rep(i: int) -> Seq<char> {
    if i >= 0 {
        dec_rep(i as nat)
    } else {
        seq!['-'] + dec_rep((-i) as nat)
    }
}

/// Appends the character for one digit to a string.
fn push_digit(s: &mut String, d: u64)
    requires
        d < 10,
    ensures
        final(s)@ == old(s)@ + seq![digit_char(d as nat)],
{
    proof {
        reveal_strlit("0");
        reveal_strlit("1");
        reveal_strlit("2");
        reveal_strlit("3");
        reveal_strlit("4");
        reveal_strlit("5");
        reveal_strlit("6");
        reveal_strlit("7");
        reveal_strlit("8");
        reveal_strlit("9");
    }
    match d {
        0 => s.append("0"),
        1 => s.append("1"),
        2 => s.append("2"),
        3 => s.append("3"),
        4 => s.append("4"),
        5 => s.append("5"),
        6 => s.append("6"),
        7 => s.append("7"),
        8 => s.append("8"),
        _ => s.append("9"),
    }
    proof {
        assert(final(s)@ =~= old(s)@ + seq![digit_char(d as nat)]);
    }
}

/// Appends the decimal rendering of `n` to `s`.
fn append_decimal(s: &mut String, n: u64)
    ensures
        final(s)@ == old(s)@ + dec_rep(n as nat),
    decreases n,
{
    if n >= 10 {
        append_decimal(s, n / 10);
        push_digit(s, n % 10);
        proof {
            assert(final(s)@ =~= old(s)@ + dec_rep(n as nat));
        }
    } else {
        push_digit(s, n);
    }
}

/// Renders an unsigned number in decimal.
pub fn u64_to_decimal(n: u64) -> (r: String)
    ensures
        r@ == dec_rep(n as nat),
{
    let mut s = String::new();
    append_decimal(&mut s, n);
    proof {
        assert(s@ =~= dec_rep(n as nat));
    }
    s
}

/// Renders a signed number in decimal, with a leading minus sign when
/// negative.
pub fn i64_to_decimal(n: i64) -> (r: String)
    ensures
        r@ == dec_int_rep(n as int),
{
    if n >= 0 {
        u64_to_decimal(n as u64)
    } else {
        proof {
            reveal_strlit("-");
        }
        let mut s = String::from_str("-");
        let magnitude: u64 = if n == i64::MIN {
            9223372036854775808u64
        } else {
            (-n) as u64
        };
        append_decimal(&mut s, magnitude);
        proof {
            assert(s@ =~= dec_int_rep(n as int));
        }
        s
    }
}

/// The decimal renderings of a sequence of integers, separated by commas.
pub open spec fn joined_decimals(items: Seq<i64>) -> Seq<char>
    decreases items.len(),
{
    if items.len() == 0 {
        Seq::empty()
    } else if items.len() == 1 {
        dec_int_rep(items[0] as int)
    } else {
        joined_decimals(items.drop_last()) + seq![','] + dec_int_rep(items.last() as int)
    }
}

/// Renders a list of numbers as a comma-separated decimal list.
pub fn join_decimals(items: &Vec<i64>) -> (r: String)
    ensures
        r@ == joined_decimals(items@),
{
    let mut s = String::new();
    let mut i: usize = 0;
    while i < items.len()
        invariant
            i <= items.len(),
            s@ == joined_decimals(items@.take(i as int)),
        decreases items.len() - i,
    {
        proof {
            reveal_strlit(",");
        }
        if i > 0 {
            s.append(",");
        }
        let ghost before: Seq<char> = s@;
        append_decimal_signed(&mut s, items[i]);
        i = i + 1;
        proof {
            assert(items@.take(i as int).drop_last() =~= items@.take(i - 1 as int));
            assert(items@.take(i as int).last() == items@[i - 1]);
            assert(s@ =~= joined_decimals(items@.take(i as int)));
        }
    }
    proof {
        assert(items@.take(items@.len() as int) =~= items@);
    }
    s
}

/// Appends the decimal rendering of a signed number to `s`.
fn append_decimal_signed(s: &mut String, n: i64)
    ensures
        final(s)@ == old(s)@ + dec_int_rep(n as int),
{
    if n >= 0 {
        append_decimal(s, n as u64);
    } else {
        proof {
            reveal_strlit("-");
        }
        s.append("-");
        let magnitude: u64 = if n == i64::MIN {
            9223372036854775808u64
        } else {
            (-n) as u64
        };
        append_decimal(s, magnitude);
        proof {
            assert(final(s)@ =~= old(s)@ + dec_int_rep(n as int));
        }
    }
}

/// Whether `c` is a decimal digit.
pub open spec fn is_dec_digit(c: char) -> bool {
    '0' as u32 <= c as u32 && c as u32 <= '9' as u32
}

/// The numeric value of a digit character.
pub open spec fn digit_val(c: char) -> nat {
    (c as u32 - '0' as u32) as nat
}

/// Whether `s` is a non-empty run of decimal digits.
pub open spec fn all_digits(s: Seq<char>) -> bool {
    s.len() > 0 && forall|i: int| 0 <= i < s.len() ==> is_dec_digit(#[trigger] s[i])
}

/// The number a run of decimal digits denotes.
pub open spec fn dec_value(s: Seq<char>) -> nat
    decreases s.len(),
{
    if s.len() == 0 {
        0
    } else {
        dec_value(s.drop_last()) * 10 + digit_val(s.last())
    }
}

/// Every prefix of a digit run denotes no more than the whole run.
proof fn lemma_dec_value_prefix_le(s: Seq<char>, i: int)
    requires
        0 <= i <= s.len(),
    ensures
        dec_value(s.take(i)) <= dec_value(s),
    decreases s.len() - i,
{
    if i < s.len() {
        assert(s.take(i + 1).drop_last() =~= s.take(i));
        lemma_dec_value_prefix_le(s, i + 1);
        assert(s.take(s.len() as int) =~= s);
    } else {
        assert(s.take(i) =~= s);
    }
}

/// Parses a run of decimal digits, refusing empty input, other characters,
/// and values above `cap`.
fn parse_decimal_capped(s: &str, cap: u32) -> (r: Option<u32>)
    requires
        cap <= 65535,
    ensures
        r is Some ==> all_digits(s@) && dec_value(s@) == r->Some_0 as nat && r->Some_0 <= cap,
        r is None ==> !(all_digits(s@) && dec_value(s@) <= cap),
{
    let n = s.unicode_len();
    if n == 0 {
        return None;
    }
    let mut acc: u32 = 0;
    let mut i: usize = 0;
    while i < n
        invariant
            i <= n,
            n == s@.len(),
            acc <= cap,
            cap <= 65535,
            acc as nat == dec_value(s@.take(i as int)),
            forall|k: int| 0 <= k < i ==> is_dec_digit(#[trigger] s@[k]),
        decreases n - i,
    {
        let c = s.get_char(i);
        let u = c as u32;
        if u < '0' as u32 || u > '9' as u32 {
            return None;
        }
        let d = u - '0' as u32;
        let next = acc * 10 + d;
        proof {
            assert(s@.take(i + 1).drop_last() =~= s@.take(i as int));
            assert(s@.take(i + 1).last() == s@[i as int]);
        }
        if next > cap {
            proof {
                lemma_dec_value_prefix_le(s@, i + 1);
            }
            return None;
        }
        acc = next;
        i = i + 1;
    }
    proof {
        assert(s@.take(n as int) =~= s@);
    }
    Some(acc)
}

/// Parses a decimal port number, the way the configuration file carries it.
pub fn parse_port(s: &str) -> (r: Option<u16>)
    ensures
        r is Some ==> all_digits(s@) && dec_value(s@) == r->Some_0 as nat,
        r is None ==> !(all_digits(s@) && dec_value(s@) <= u16::MAX),
{
    match parse_decimal_capped(s, 65535) {
        Some(v) => Some(v as u16),
        None => None,
    }
}

/// Parses one octet of a dotted-quad address.
pub fn parse_octet(s: &str) -> (r: Option<u8>)
    ensures
        r is Some ==> all_digits(s@) && dec_value(s@) == r->Some_0 as nat,
        r is None ==> !(all_digits(s@) && dec_value(s@) <= u8::MAX),
{
    match parse_decimal_capped(s, 255) {
        Some(v) => Some(v as u8),
        None => None,
    }
}

} // verus!
