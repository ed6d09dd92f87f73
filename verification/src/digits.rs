//! Decimal notation: printing integers and parsing decimal byte strings,
//! matching what std's formatting and `u64` parsing produce.

use vstd::prelude::*;
use vstd::string::StringExecFns;

verus! {

/// One decimal digit as a character.
pub open spec fn digit_char(d: nat) -> char {
    if d == 0 {
        '0'
    } else if d == 1 {
        '1'
    } else if d == 2 {
        '2'
    } else if d == 3 {
        '3'
    } else if d == 4 {
        '4'
    } else if d == 5 {
        '5'
    } else if d == 6 {
        '6'
    } else if d == 7 {
        '7'
    } else if d == 8 {
        '8'
    } else {
        '9'
    }
}

/// The decimal notation of a number, most significant digit first and
/// without leading zeros.
pub open spec fn dec_str(n: nat) -> Seq<char>
    decreases n,
{
    if n < 10 {
        seq![digit_char(n)]
    } else {
        dec_str(n / 10).push(digit_char(n % 10))
    }
}

fn digit_str(d: u64) -> (r: &'static str)
    requires
        d < 10,
    ensures
        r@ == seq![digit_char(d as nat)],
{
    let s = match d {
        0 => "0",
        1 => "1",
        2 => "2",
        3 => "3",
        4 => "4",
        5 => "5",
        6 => "6",
        7 => "7",
        8 => "8",
        _ => "9",
    };
    proof {
        reveal_strlit("0");
        reveal_strlit("1");
        reveal_strlit("2");
        reveal_strlit("3");
        reveal_strlit("4");
        reveal_strlit("5");
        reveal_strlit("6");
        reveal_strlit("7");
        reveal_strlit("8");
        reveal_strlit("9");
        assert(s@ =~= seq![digit_char(d as nat)]);
    }
    s
}

/// Prints a number in decimal, exactly as std's formatting does.
pub fn u64_to_string(n: u64) -> (r: String)
    ensures
        r@ == dec_str(n as nat),
    decreases n,
{
    if n < 10 {
        String::from_str(digit_str(n))
    } else {
        let front = u64_to_string(n / 10);
        let r = front.concat(digit_str(n % 10));
        proof {
            assert(r@ =~= dec_str(n as nat));
        }
        r
    }
}

/// An ASCII decimal digit.
pub open spec fn is_ascii_digit(b: u8) -> bool {
    48 <= b <= 57
}

pub open spec fn all_digits(s: Seq<u8>) -> bool {
    forall|i: int| 0 <= i < s.len() ==> is_ascii_digit(#[trigger] s[i])
}

/// The number written by a digit string, most significant digit first.
pub open spec fn digits_value(s: Seq<u8>) -> nat
    recommends
        all_digits(s),
    decreases s.len(),
{
    if s.len() == 0 {
        0
    } else {
        (digits_value(s.drop_last()) * 10 + (s.last() - 48)) as nat
    }
}

/// The digits of a decimal string, once an optional leading '+' is dropped.
pub open spec fn digits_part(s: Seq<u8>) -> Seq<u8> {
    if s.len() > 0 && s[0] == 43 {
        s.drop_first()
    } else {
        s
    }
}

/// The value that std's `u64` parser gives to a byte string: an optional
/// leading '+', then at least one ASCII digit, the value within `u64`'s range.
pub open spec fn dec_u64(s: Seq<u8>) -> Option<u64> {
    let t = digits_part(s);
    if t.len() > 0 && all_digits(t) && digits_value(t) <= u64::MAX {
        Some(digits_value(t) as u64)
    } else {
        None
    }
}

/// Reading one more digit multiplies the value by ten and adds it.
proof fn lemma_digits_value_step(t: Seq<u8>, j: int)
    requires
        0 <= j < t.len(),
    ensures
        digits_value(t.take(j + 1)) == (digits_value(t.take(j)) * 10 + (t[j] - 48)) as nat,
{
    assert(t.take(j + 1).drop_last() =~= t.take(j));
    assert(t.take(j + 1).last() == t[j]);
}

/// A digit string is worth at least as much as any of its prefixes.
proof fn lemma_digits_value_prefix(t: Seq<u8>, j: int)
    requires
        0 <= j <= t.len(),
        all_digits(t),
    ensures
        digits_value(t.take(j)) <= digits_value(t),
    decreases t.len() - j,
{
    if j < t.len() {
        lemma_digits_value_step(t, j);
        lemma_digits_value_prefix(t, j + 1);
    } else {
        assert(t.take(j) =~= t);
    }
}

/// Parses a decimal byte string as std's `u64` parser does.
pub fn parse_u64_bytes(s: &[u8]) -> (r: Option<u64>)
    ensures
        r == dec_u64(s@),
{
    let ghost t = digits_part(s@);
    let start: usize = if s.len() > 0 && s[0] == 43u8 {
        1
    } else {
        0
    };
    proof {
        assert(t =~= s@.skip(start as int));
    }
    if s.len() == start {
        return None;
    }
    let mut acc: u64 = 0;
    let mut i: usize = start;
    while i < s.len()
        invariant
            start <= i <= s@.len(),
            start < s@.len(),
            t == s@.skip(start as int),
            t == digits_part(s@),
            all_digits(t.take(i - start)),
            acc == digits_value(t.take(i - start)),
        decreases s@.len() - i,
    {
        let b = s[i];
        proof {
            assert(t[i - start] == s@[i as int]);
        }
        if b < 48 || b > 57 {
            proof {
                assert(!is_ascii_digit(t[i - start]));
                assert(!all_digits(t));
            }
            return None;
        }
        let d = (b - 48) as u64;
        if acc > (u64::MAX - d) / 10 {
            proof {
                let v = digits_value(t.take(i - start + 1));
                lemma_digits_value_step(t, i - start);
                assert(acc * 10 + d > u64::MAX) by (nonlinear_arith)
            requires
                    acc > (u64::MAX - d) / 10,
                    d <= 9,
                ;
                assert(v > u64::MAX);
                if all_digits(t) {
                    lemma_digits_value_prefix(t, i - start + 1);
                    assert(digits_value(t) > u64::MAX);
                }
            }
            return None;
        }
        proof {
            lemma_digits_value_step(t, i - start);
            assert(acc * 10 + d <= u64::MAX) by (nonlinear_arith)
        requires
                acc <= (u64::MAX - d) / 10,
                d <= 9,
            ;
        }
        acc = acc * 10 + d;
        i += 1;
    }
    proof {
        assert(t.take(i - start) =~= t);
    }
    Some(acc)
}

} // verus!
