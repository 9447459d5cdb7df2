//! Decimal rendering and parsing of unsigned integers.

use vstd::prelude::*;
use crate::text::{chars_of, string_of};

verus! {

/// The ASCII digit for `d < 10`.
pub open spec fn digit_char(d: nat) -> char {
    ((d + 48) as u8) as char
}

/// The value of an ASCII digit character.
pub open spec fn char_digit(c: char) -> nat {
    (c as nat - 48) as nat
}

/// `c` is one of `0`..`9`.
pub open spec fn is_digit(c: char) -> bool {
    '0' <= c && c <= '9'
}

/// Base-ten digits of `n`, most significant first, no leading zeros
/// (`0` renders as `"0"`).
pub open spec fn decimal(n: nat) -> Seq<char>
    decreases n,
{
    if n < 10 {
        seq![digit_char(n)]
    } else {
        decimal(n / 10).push(digit_char(n % 10))
    }
}

/// The value of a run of digits, most significant first.
pub open spec fn digits_value(s: Seq<char>) -> nat
    decreases s.len(),
{
    if s.len() == 0 {
        0
    } else {
        digits_value(s.drop_last()) * 10 + char_digit(s.last())
    }
}

/// The digits part of a `u64` literal: the text after an optional `+`.
pub open spec fn unsigned_body(s: Seq<char>) -> Seq<char> {
    if s.len() > 0 && s[0] == '+' {
        s.drop_first()
    } else {
        s
    }
}

/// Every character of `s` is an ASCII digit.
pub open spec fn all_digits(s: Seq<char>) -> bool {
    forall|i: int| 0 <= i < s.len() ==> is_digit(#[trigger] s[i])
}

/// What `str::parse::<u64>` accepts: an optional `+`, then one or more
/// ASCII digits whose value fits in `u64`.
pub open spec fn parse_u64_spec(s: Seq<char>) -> Option<u64> {
    let body = unsigned_body(s);
    if body.len() > 0 && all_digits(body) && digits_value(body) <= u64::MAX {
        Some(digits_value(body) as u64)
    } else {
        None
    }
}

proof fn lemma_digits_value_monotone(s: Seq<char>, k: int)
    requires
        0 <= k <= s.len(),
        all_digits(s),
    ensures
        digits_value(s.subrange(0, k)) <= digits_value(s),
    decreases s.len() - k,
{
    if k < s.len() {
        lemma_digits_value_monotone(s, k + 1);
        let t = s.subrange(0, k + 1);
        assert(t.drop_last() =~= s.subrange(0, k));
        assert(digits_value(t) == digits_value(t.drop_last()) * 10 + char_digit(t.last()));
        assert(digits_value(t.drop_last()) <= digits_value(t)) by (nonlinear_arith)
            requires
                digits_value(t) == digits_value(t.drop_last()) * 10 + char_digit(t.last()),
        ;
    } else {
        assert(s.subrange(0, k) =~= s);
    }
}

/// Renders `n` in base ten.
pub fn u64_decimal(n: u64) -> (s: String)
    ensures
        s@ == decimal(n as nat),
{
    let mut digits: Vec<char> = Vec::new();
    let mut m = n;
    // digits are collected least significant first
    while m >= 10
        invariant
            decimal(n as nat) == decimal(m as nat) + digits@.reverse(),
        decreases m,
    {
        let d = (m % 10) as u8;
        assert(d < 10);
        let c = (d + 48) as char;
        proof {
            assert(decimal(m as nat) == decimal((m / 10) as nat).push(digit_char((m % 10) as nat)));
            assert(digits@.push(c).reverse() =~= seq![c] + digits@.reverse());
        }
        digits.push(c);
        m = m / 10;
    }
    let d = m as u8;
    let c = (d + 48) as char;
    digits.push(c);
    proof {
        assert(decimal(m as nat) == seq![digit_char(m as nat)]);
        assert(digits@.reverse() =~= seq![c] + digits@.drop_last().reverse());
    }
    let mut out: Vec<char> = Vec::new();
    let mut i = digits.len();
    while i > 0
        invariant
            i <= digits@.len(),
            out@ == digits@.subrange(i as int, digits@.len() as int).reverse(),
        decreases i,
    {
        i = i - 1;
        out.push(digits[i]);
        proof {
            assert(out@ =~= digits@.subrange(i as int, digits@.len() as int).reverse());
        }
    }
    proof {
        assert(digits@.subrange(0, digits@.len() as int) =~= digits@);
    }
    string_of(&out)
}

/// `str::parse::<u64>` written out: an optional `+` and then digits.
pub fn parse_u64(raw: &str) -> (r: Option<u64>)
    ensures
        r == parse_u64_spec(raw@),
{
    let s = chars_of(raw);
    let start: usize = if s.len() > 0 && s[0] == '+' { 1 } else { 0 };
    let ghost body = unsigned_body(s@);
    proof {
        assert(body =~= s@.subrange(start as int, s@.len() as int));
    }
    if start >= s.len() {
        return None;
    }
    let mut acc: u64 = 0;
    let mut i = start;
    while i < s.len()
        invariant
            start <= i <= s@.len(),
            s@ == raw@,
            start == 0 || (start == 1 && s@.len() > 0 && s@[0] == '+'),
            start == 1 <==> (s@.len() > 0 && s@[0] == '+'),
            body == s@.subrange(start as int, s@.len() as int),
            body == unsigned_body(s@),
            forall|j: int| 0 <= j < i - start ==> is_digit(#[trigger] body[j]),
            acc == digits_value(body.subrange(0, i - start)),
        decreases s@.len() - i,
    {
        let c = s[i];
        if !('0' <= c && c <= '9') {
            proof {
                assert(body[i - start] == c);
                assert(!is_digit(body[i - start]));
                assert(!all_digits(body));
            }
            return None;
        }
        let d = (c as u32 - 48) as u64;
        let ghost prev = body.subrange(0, i - start);
        let ghost next = body.subrange(0, i + 1 - start);
        proof {
            assert(next.drop_last() =~= prev);
            assert(next.last() == c);
        }
        match acc.checked_mul(10) {
            Some(t) => match t.checked_add(d) {
                Some(v) => {
                    acc = v;
                },
                None => {
                    proof {
                        assert(forall|j: int| 0 <= j < i + 1 - start ==> is_digit(#[trigger] next[j]));
                        assert(digits_value(next) == acc * 10 + d);
                        assert(digits_value(next) > u64::MAX);
                        if all_digits(body) {
                            lemma_digits_value_monotone(body, i + 1 - start);
                        }
                    }
                    return None;
                },
            },
            None => {
                proof {
                    assert(digits_value(next) == acc * 10 + d);
                    assert(acc * 10 > u64::MAX);
                    if all_digits(body) {
                        lemma_digits_value_monotone(body, i + 1 - start);
                    }
                }
                return None;
            },
        }
        i = i + 1;
    }
    proof {
        assert(body.subrange(0, body.len() as int) =~= body);
    }
    Some(acc)
}

} // verus!
