//! Whole numbers written in decimal, as `to_string` writes them and as the
//! ledger's file names carry them.

use vstd::prelude::*;

verus! {

/// The character of a decimal digit.
pub open spec fn digit(d: int) -> char {
    if d == 0 {
        '0'
    } else if d == 1 {
        '1'
    } else if d == 2 {
        '2'
    } else if d == 3 {
        '3'
    } else if d == 4 {
        '4'
    } else if d == 5 {
        '5'
    } else if d == 6 {
        '6'
    } else if d == 7 {
        '7'
    } else if d == 8 {
        '8'
    } else {
        '9'
    }
}

/// The value of a decimal digit character.
pub open spec fn digit_value(c: char) -> int {
    (c as u32) - ('0' as u32)
}

/// The decimal text of `n`, with no sign and no leading zero.
pub open spec fn decimal(n: nat) -> Seq<char>
    decreases n,
{
    if n < 10 {
        seq![digit(n as int)]
    } else {
        decimal(n / 10).push(digit((n % 10) as int))
    }
}

/// The decimal text of a signed number: a minus sign before the magnitude.
pub open spec fn signed_decimal(n: int) -> Seq<char> {
    if n < 0 {
        seq!['-'] + decimal((-n) as nat)
    } else {
        decimal(n as nat)
    }
}

/// The number a run of digit characters spells.
pub open spec fn value(s: Seq<char>) -> nat
    decreases s.len(),
{
    if s.len() == 0 {
        0
    } else {
        (value(s.drop_last()) * 10 + digit_value(s.last())) as nat
    }
}

pub open spec fn all_digits(s: Seq<char>) -> bool {
    forall|i: int| 0 <= i < s.len() ==> '0' <= #[trigger] s[i] && s[i] <= '9'
}

/// Text that is how `to_string` writes a positive number: digits, the first
/// of them not zero.
pub open spec fn is_positive_decimal(s: Seq<char>) -> bool {
    s.len() > 0 && all_digits(s) && s[0] != '0'
}

proof fn lemma_digit(d: int)
    requires
        0 <= d < 10,
    ensures
        '0' <= digit(d) && digit(d) <= '9',
        digit_value(digit(d)) == d,
        d != 0 ==> digit(d) != '0',
{
}

/// Every number's decimal text is digits with no leading zero but for zero
/// itself, and reads back as the number.
pub proof fn lemma_decimal(n: nat)
    ensures
        all_digits(decimal(n)),
        decimal(n).len() > 0,
        value(decimal(n)) == n,
        n > 0 ==> decimal(n)[0] != '0',
        n > 0 ==> is_positive_decimal(decimal(n)),
        decimal(n).len() <= 1 || n >= 10,
    decreases n,
{
    if n < 10 {
        lemma_digit(n as int);
        let d = decimal(n);
        assert(d.drop_last() =~= Seq::<char>::empty());
        assert(value(d.drop_last()) == 0);
        assert(value(d) == value(d.drop_last()) * 10 + digit_value(d.last()));
    } else {
        lemma_decimal(n / 10);
        lemma_digit((n % 10) as int);
        let d = decimal(n);
        assert(d.drop_last() =~= decimal(n / 10));
        assert(value(d) == value(decimal(n / 10)) * 10 + (n % 10) as int);
        assert((n / 10) * 10 + n % 10 == n) by (nonlinear_arith);
        assert(d[0] == decimal(n / 10)[0]);
    }
}

/// A positive decimal text is the decimal text of its value.
pub proof fn lemma_value_decimal(s: Seq<char>)
    requires
        is_positive_decimal(s),
    ensures
        value(s) > 0,
        decimal(value(s)) == s,
    decreases s.len(),
{
    if s.len() == 1 {
        assert(digit_value(s[0]) >= 1);
        let d = digit_value(s[0]);
        assert(s.drop_last() =~= Seq::<char>::empty());
        assert(value(s.drop_last()) == 0);
        assert(value(s) == value(s.drop_last()) * 10 + digit_value(s.last()));
        assert(value(s) == d);
        assert(decimal(d as nat) =~= s);
    } else {
        let p = s.drop_last();
        assert(p[0] == s[0]);
        lemma_value_decimal(p);
        let d = digit_value(s.last());
        assert(0 <= d < 10);
        let v = value(p) * 10 + d;
        assert(value(s) == v);
        assert(v / 10 == value(p) && v % 10 == d) by (nonlinear_arith)
            requires
                v == value(p) * 10 + d,
                0 <= d < 10,
        ;
        assert(decimal(v as nat) =~= decimal(value(p)).push(digit(d)));
        assert(digit(d) == s.last());
        assert(s =~= p.push(s.last()));
    }
}

fn digit_char(d: u32) -> (c: char)
    requires
        d < 10,
    ensures
        c == digit(d as int),
{
    if d == 0 {
        '0'
    } else if d == 1 {
        '1'
    } else if d == 2 {
        '2'
    } else if d == 3 {
        '3'
    } else if d == 4 {
        '4'
    } else if d == 5 {
        '5'
    } else if d == 6 {
        '6'
    } else if d == 7 {
        '7'
    } else if d == 8 {
        '8'
    } else {
        '9'
    }
}

/// The decimal text of `n`.
pub fn decimal_of(n: u64) -> (r: Vec<char>)
    ensures
        r@ == decimal(n as nat),
    decreases n,
{
    if n < 10 {
        let mut v = Vec::new();
        v.push(digit_char(n as u32));
        assert(v@ =~= decimal(n as nat));
        v
    } else {
        let mut v = decimal_of(n / 10);
        v.push(digit_char((n % 10) as u32));
        v
    }
}

/// The decimal text of a signed `n`, as `i64::to_string` writes it.
pub fn signed_decimal_of(n: i64) -> (r: Vec<char>)
    ensures
        r@ == signed_decimal(n as int),
{
    if n < 0 {
        let magnitude: u64 = ((-(n + 1)) as u64) + 1;
        let digits = decimal_of(magnitude);
        let mut v = Vec::new();
        v.push('-');
        crate::text::append_chars(&mut v, digits.as_slice());
        assert(v@ =~= seq!['-'] + decimal((-n) as nat));
        v
    } else {
        decimal_of(n as u64)
    }
}

/// Reads text written as `to_string` writes a positive 32-bit number;
/// nothing for anything else (a sign, a leading zero, zero, too large).
pub fn positive_u32(s: &[char]) -> (r: Option<u32>)
    ensures
        r is Some <==> is_positive_decimal(s@) && value(s@) <= u32::MAX,
        r matches Some(n) ==> n == value(s@) && n >= 1,
{
    if s.len() == 0 || s.len() > 10 || s[0] == '0' {
        proof {
            if s.len() > 10 && is_positive_decimal(s@) {
                lemma_long_is_large(s@);
            }
        }
        return None;
    }
    let mut acc: u64 = 0;
    let mut i: usize = 0;
    while i < s.len()
        invariant
            0 < s.len() <= 10,
            i <= s.len(),
            acc == value(s@.take(i as int)),
            acc < pow10(i as nat),
            forall|j: int| 0 <= j < i ==> '0' <= #[trigger] s@[j] && s@[j] <= '9',
        decreases s.len() - i,
    {
        let c = s[i];
        if !('0' <= c && c <= '9') {
            proof {
                assert(!all_digits(s@));
            }
            return None;
        }
        let d = (c as u32 - '0' as u32) as u64;
        assert(s@.take(i + 1).drop_last() =~= s@.take(i as int));
        proof {
            assert(pow10((i + 1) as nat) == pow10(i as nat) * 10);
            assert(pow10(i as nat) <= 1000000000) by {
                lemma_pow10_bound(i as nat);
            }
            assert(acc * 10 + d < pow10(i as nat) * 10) by (nonlinear_arith)
                requires
                    acc < pow10(i as nat),
                    d < 10,
            ;
        }
        acc = acc * 10 + d;
        i = i + 1;
    }
    assert(s@.take(s.len() as int) =~= s@);
    proof {
        lemma_value_at_least(s@);
        lemma_pow10_positive((s.len() - 1) as nat);
    }
    if acc <= 4294967295 {
        Some(acc as u32)
    } else {
        None
    }
}

pub open spec fn pow10(n: nat) -> nat
    decreases n,
{
    if n == 0 {
        1
    } else {
        10 * pow10((n - 1) as nat)
    }
}

proof fn lemma_pow10_bound(n: nat)
    requires
        n <= 9,
    ensures
        pow10(n) <= 1000000000,
    decreases n,
{
    reveal_with_fuel(pow10, 10);
}

/// A value of more than ten digits with a nonzero lead is above `u32::MAX`.
proof fn lemma_long_is_large(s: Seq<char>)
    requires
        is_positive_decimal(s),
        s.len() > 10,
    ensures
        value(s) > u32::MAX,
{
    lemma_value_at_least(s);
    lemma_pow10_grows(10, (s.len() - 1) as nat);
    reveal_with_fuel(pow10, 11);
}

proof fn lemma_pow10_positive(n: nat)
    ensures
        pow10(n) >= 1,
    decreases n,
{
    if n > 0 {
        lemma_pow10_positive((n - 1) as nat);
    }
}

proof fn lemma_pow10_grows(a: nat, b: nat)
    requires
        a <= b,
    ensures
        pow10(a) <= pow10(b),
    decreases b,
{
    if a < b {
        lemma_pow10_grows(a, (b - 1) as nat);
    }
}

/// A positive decimal text of `k` digits is worth at least `10^(k-1)`.
proof fn lemma_value_at_least(s: Seq<char>)
    requires
        is_positive_decimal(s),
    ensures
        value(s) >= pow10((s.len() - 1) as nat),
    decreases s.len(),
{
    if s.len() > 1 {
        let p = s.drop_last();
        assert(p[0] == s[0]);
        lemma_value_at_least(p);
        assert(value(s) >= value(p) * 10);
    } else {
        assert(s.drop_last() =~= Seq::<char>::empty());
    }
}

/// A prefix of a run of digits is worth no more than the whole.
proof fn lemma_value_prefix_le(s: Seq<char>, k: int)
    requires
        0 <= k <= s.len(),
        all_digits(s),
    ensures
        value(s.take(k)) <= value(s),
    decreases s.len() - k,
{
    if k < s.len() {
        lemma_value_prefix_le(s, k + 1);
        let t = s.take(k + 1);
        assert(t.drop_last() =~= s.take(k));
        assert('0' <= t.last() && t.last() <= '9');
    } else {
        assert(s.take(k) =~= s);
    }
}

/// What `u64::from_str` reads: an optional `+`, then one or more digits,
/// worth no more than `u64::MAX`.
pub open spec fn u64_reading(s: Seq<char>) -> Option<nat> {
    let d = if s.len() > 0 && s[0] == '+' {
        s.skip(1)
    } else {
        s
    };
    if d.len() > 0 && all_digits(d) && value(d) <= u64::MAX {
        Some(value(d))
    } else {
        None
    }
}

/// Reads a number as `u64::from_str` does.
pub fn parse_u64(s: &[char]) -> (r: Option<u64>)
    ensures
        match u64_reading(s@) {
            Some(n) => r == Some(n as u64),
            None => r is None,
        },
{
    let start: usize = if s.len() > 0 && s[0] == '+' { 1 } else { 0 };
    let ghost d = if s@.len() > 0 && s@[0] == '+' { s@.skip(1) } else { s@ };
    assert(d =~= s@.skip(start as int));
    if start == s.len() {
        return None;
    }
    let mut acc: u64 = 0;
    let mut i: usize = start;
    while i < s.len()
        invariant
            start <= i <= s.len(),
            d == s@.skip(start as int),
            d == (if s@.len() > 0 && s@[0] == '+' {
                s@.skip(1)
            } else {
                s@
            }),
            acc == value(d.take(i - start)),
            forall|j: int| start <= j < i ==> '0' <= #[trigger] s@[j] && s@[j] <= '9',
        decreases s.len() - i,
    {
        let c = s[i];
        if !('0' <= c && c <= '9') {
            proof {
                assert(d[i - start] == c);
                assert(!all_digits(d));
            }
            return None;
        }
        let digit_now = (c as u32 - '0' as u32) as u64;
        assert(d.take(i - start + 1).drop_last() =~= d.take(i - start));
        assert(d.take(i - start + 1).last() == c);
        let next = match acc.checked_mul(10) {
            Some(m) => m.checked_add(digit_now),
            None => None,
        };
        match next {
            Some(n) => {
                acc = n;
            },
            None => {
                proof {
                    assert(value(d.take(i - start + 1)) > u64::MAX);
                    if all_digits(d) {
                        lemma_value_prefix_le(d, i - start + 1);
                    }
                }
                return None;
            },
        }
        i = i + 1;
    }
    assert(d.take(d.len() as int) =~= d);
    assert(all_digits(d)) by {
        assert forall|j: int| 0 <= j < d.len() implies '0' <= #[trigger] d[j] && d[j] <= '9' by {
            assert(d[j] == s@[j + start]);
        }
    }
    Some(acc)
}

} // verus!
