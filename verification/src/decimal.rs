//! Decimal notation of integers.
use crate::text::chars_of;
use vstd::prelude::*;
use vstd::string::*;

verus! {

/// The character for a digit.
pub open spec fn digit_char(d: nat) -> char {
    (d + 48) as char
}

/// `n` in decimal notation, without leading zeros.
pub open spec fn decimal(n: nat) -> Seq<char>
    decreases n,
{
    if n < 10 {
        seq![digit_char(n)]
    } else {
        decimal(n / 10).push(digit_char(n % 10))
    }
}

/// `n` in decimal notation, with a minus sign before a negative number.
pub open spec fn signed_decimal(n: int) -> Seq<char> {
    if n < 0 {
        seq!['-'] + decimal((-n) as nat)
    } else {
        decimal(n as nat)
    }
}

/// `s` holds nothing but digits.
pub open spec fn all_digits(s: Seq<char>) -> bool {
    forall|i: int| 0 <= i < s.len() ==> '0' <= #[trigger] s[i] <= '9'
}

/// The number that a row of digits stands for.
pub open spec fn digits_value(s: Seq<char>) -> nat
    decreases s.len(),
{
    if s.len() == 0 {
        0
    } else {
        (digits_value(s.drop_last()) * 10 + (s.last() as nat - 48)) as nat
    }
}

/// The `u64` that `s` denotes: an optional plus sign, then one or more digits.
pub open spec fn parsed_u64(s: Seq<char>) -> Option<u64> {
    let digits = if s.len() > 0 && s[0] == '+' {
        s.skip(1)
    } else {
        s
    };
    if digits.len() > 0 && all_digits(digits) && digits_value(digits) <= u64::MAX {
        Some(digits_value(digits) as u64)
    } else {
        None
    }
}

/// More digits never make the number smaller.
proof fn digits_value_grows(s: Seq<char>, k: int)
    requires
        all_digits(s),
        0 <= k <= s.len(),
    ensures
        digits_value(s.take(k)) <= digits_value(s),
    decreases s.len() - k,
{
    if k < s.len() {
        assert(s.take(k + 1).drop_last() =~= s.take(k));
        assert('0' <= s[k] <= '9');
        digits_value_grows(s, k + 1);
    } else {
        assert(s.take(k) =~= s);
    }
}

/// Reads a `u64` in decimal notation.
pub fn parse_u64(s: &str) -> (r: Option<u64>)
    ensures
        r == parsed_u64(s@),
{
    let chars = chars_of(s);
    let n = chars.len();
    let start: usize = if n > 0 && chars[0] == '+' {
        1
    } else {
        0
    };
    let ghost digits = s@.skip(start as int);
    assert(s@.skip(0) =~= s@);
    if start == n {
        return None;
    }
    let mut value: u64 = 0;
    let mut i: usize = start;
    while i < n
        invariant
            start <= i <= n,
            n == chars@.len(),
            chars@ == s@,
            digits == s@.skip(start as int),
            digits == (if s@.len() > 0 && s@[0] == '+' {
                s@.skip(1)
            } else {
                s@
            }),
            all_digits(digits.take(i - start)),
            value == digits_value(digits.take(i - start)),
        decreases n - i,
    {
        let c = chars[i];
        assert(digits[i - start] == c);
        if !('0' <= c && c <= '9') {
            return None;
        }
        let d: u64 = (c as u32 - 48) as u64;
        proof {
            assert(digits.take(i + 1 - start).drop_last() =~= digits.take(i - start));
            assert(digits_value(digits.take(i + 1 - start)) == value * 10 + d);
            assert forall|j: int| 0 <= j < i + 1 - start implies '0' <= #[trigger] digits.take(
                i + 1 - start,
            )[j] <= '9' by {
                if j < i - start {
                    assert(digits.take(i - start)[j] == digits[j]);
                }
            }
        }
        if value > (u64::MAX - d) / 10 {
            proof {
                if all_digits(digits) {
                    digits_value_grows(digits, i + 1 - start);
                }
            }
            return None;
        }
        value = value * 10 + d;
        i = i + 1;
    }
    assert(digits.take(n - start) =~= digits);
    Some(value)
}

/// Writes `n` in decimal notation.
pub fn u64_text(n: u64) -> (r: String)
    ensures
        r@ == decimal(n as nat),
    decreases n,
{
    let digits = "0123456789";
    proof {
        reveal_strlit("0123456789");
    }
    let d = (n % 10) as usize;
    let last = digits.substring_char(d, d + 1);
    assert(last@ =~= seq![digit_char((n % 10) as nat)]);
    if n < 10 {
        last.to_string()
    } else {
        let mut out = u64_text(n / 10);
        out.append(last);
        assert(out@ =~= decimal(n as nat));
        out
    }
}

/// Writes `n` in decimal notation.
pub fn i64_text(n: i64) -> (r: String)
    ensures
        r@ == signed_decimal(n as int),
{
    if n < 0 {
        proof {
            reveal_strlit("-");
            assert("-"@ =~= seq!['-']);
        }
        let mut out = "-".to_string();
        let size = (-(n as i128)) as u64;
        out.append(u64_text(size).as_str());
        out
    } else {
        u64_text(n as u64)
    }
}

/// Decimal notation is made of digits, and its value is the number written.
pub proof fn decimal_value(n: nat)
    ensures
        decimal(n).len() > 0,
        all_digits(decimal(n)),
        digits_value(decimal(n)) == n,
    decreases n,
{
    if n < 10 {
        let s = decimal(n);
        assert(s.drop_last() =~= seq![]);
        assert(digits_value(seq![]) == 0);
    } else {
        decimal_value(n / 10);
        let s = decimal(n);
        assert(s.drop_last() =~= decimal(n / 10));
    }
}

/// Reading back what was written gives the same number.
pub proof fn parsed_decimal(n: u64)
    ensures
        parsed_u64(decimal(n as nat)) == Some(n),
{
    decimal_value(n as nat);
    let s = decimal(n as nat);
    assert('0' <= s[0] <= '9');
}

/// A digit behind a number makes it ten times as large and adds the digit; there are no leading
/// zeros, and a negative number is its size behind a minus sign.
pub proof fn decimal_notation_grows_by_digits(n: nat, d: nat)
    requires
        d < 10,
    ensures
        decimal(d) == seq![(48 + d) as char],
        n > 0 ==> decimal(n * 10 + d) == decimal(n).push((48 + d) as char),
        n > 0 ==> decimal(n)[0] != '0',
        signed_decimal(n as int) == decimal(n),
        n > 0 ==> signed_decimal(-(n as int)) == seq!['-'] + decimal(n),
    decreases n,
{
    if n > 0 {
        assert((n * 10 + d) / 10 == n && (n * 10 + d) % 10 == d) by (nonlinear_arith)
            requires
                d < 10,
        ;
        if n >= 10 {
            decimal_notation_grows_by_digits(n / 10, n % 10);
            decimal_value(n / 10);
            assert(decimal(n)[0] == decimal(n / 10)[0]);
        }
    }
}

/// A number is read digit by digit, with or without a plus sign in front. One that does not fit,
/// that has no digit, or that holds any other character is none.
pub proof fn numbers_are_read_by_digits(s: Seq<char>, c: char)
    ensures
        parsed_u64(seq![]) is None,
        parsed_u64(seq!['+']) is None,
        '0' <= c <= '9' ==> parsed_u64(seq![c]) == Some((c as u32 - 48) as u64),
        (s.len() > 0 && s[0] != '+') ==> parsed_u64(seq!['+'] + s) == parsed_u64(s),
        (s.len() > 0 && s[0] == '+') ==> parsed_u64(seq!['+'] + s) is None,
        ('0' <= c <= '9' && parsed_u64(s) is Some) ==> parsed_u64(s.push(c)) == (
        if parsed_u64(s)->0 * 10 + (c as u32 - 48) <= u64::MAX {
            Some((parsed_u64(s)->0 * 10 + (c as u32 - 48)) as u64)
        } else {
            None
        }),
        !('0' <= c <= '9') && s.len() > 0 ==> parsed_u64(s.push(c)) is None,
{
    assert(seq!['+'].skip(1) =~= Seq::<char>::empty());
    assert(seq![c].drop_last() =~= Seq::<char>::empty());
    assert(digits_value(Seq::<char>::empty()) == 0);
    assert((seq!['+'] + s).skip(1) =~= s);
    if s.len() > 0 && s[0] == '+' {
        assert(!('0' <= s[0] <= '9'));
    }
    let t = s.push(c);
    if s.len() > 0 {
        let digits = if s[0] == '+' {
            s.skip(1)
        } else {
            s
        };
        let more = if t[0] == '+' {
            t.skip(1)
        } else {
            t
        };
        assert(t[0] == s[0]);
        assert(more =~= digits.push(c));
        assert(more[digits.len() as int] == c);
        assert(more.drop_last() =~= digits);
        if '0' <= c <= '9' && parsed_u64(s) is Some {
            assert forall|i: int| 0 <= i < more.len() implies '0' <= #[trigger] more[i] <= '9' by {
                if i < digits.len() {
                    assert(more[i] == digits[i]);
                }
            }
            assert(digits_value(more) == digits_value(digits) * 10 + (c as nat - 48));
        }
    }
}

/// Digits behind a number that does not fit do not make it fit, and neither do they mend another
/// character.
pub proof fn unreadable_numbers_stay_so(s: Seq<char>, c: char)
    requires
        s.len() > 0,
        s != seq!['+'],
        parsed_u64(s) is None,
    ensures
        parsed_u64(s.push(c)) is None,
{
    let t = s.push(c);
    let digits = if s[0] == '+' {
        s.skip(1)
    } else {
        s
    };
    let more = if t[0] == '+' {
        t.skip(1)
    } else {
        t
    };
    assert(t[0] == s[0]);
    assert(more =~= digits.push(c));
    assert(more.drop_last() =~= digits);
    if digits.len() == 0 {
        assert(s =~= seq!['+']);
    }
    if all_digits(more) {
        assert forall|i: int| 0 <= i < digits.len() implies '0' <= #[trigger] digits[i] <= '9' by {
            assert(more[i] == digits[i]);
        }
        assert(more.take(digits.len() as int) =~= digits);
        digits_value_grows(more, digits.len() as int);
    }
}

} // verus!
