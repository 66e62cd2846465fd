//! Decimal numbers as text: what a string of digits is worth, which strings
//! are numbers, and how a number is written.

use vstd::prelude::*;
use libc::pid_t;
use crate::text::join2;

verus! {

/// Whether `c` is one of the ten decimal digits.
pub open spec fn is_digit(c: char) -> bool {
    '0' <= c <= '9'
}

/// The worth of the digit `c`.
pub open spec fn digit_value(c: char) -> int {
    c as int - '0' as int
}

/// Whether `s` holds decimal digits only.
pub open spec fn all_digits(s: Seq<char>) -> bool {
    forall|i: int| 0 <= i < s.len() ==> is_digit(#[trigger] s[i])
}

/// The number that the digits `s` write in base ten.
pub open spec fn decimal_value(s: Seq<char>) -> int
    decreases s.len(),
{
    if s.len() == 0 {
        0
    } else {
        decimal_value(s.drop_last()) * 10 + digit_value(s.last())
    }
}

/// Whether `s` starts with a sign that a number may carry: `+` always, `-`
/// where `signed` allows it.
pub open spec fn has_sign(s: Seq<char>, signed: bool) -> bool {
    s.len() > 0 && (s[0] == '+' || (signed && s[0] == '-'))
}

/// The digits of `s`: what follows its sign, if it has one.
pub open spec fn unsigned_part(s: Seq<char>, signed: bool) -> Seq<char> {
    if has_sign(s, signed) {
        s.drop_first()
    } else {
        s
    }
}

/// The number that `s` writes: an optional sign followed by at least one
/// digit and nothing else, with a value from `min` to `max`. Anything else,
/// white space included, makes `s` no number.
pub open spec fn parse_decimal(s: Seq<char>, signed: bool, min: int, max: int) -> Option<int> {
    let digits = unsigned_part(s, signed);
    let value = if has_sign(s, signed) && s[0] == '-' {
        -decimal_value(digits)
    } else {
        decimal_value(digits)
    };
    if digits.len() > 0 && all_digits(digits) && min <= value <= max {
        Some(value)
    } else {
        None
    }
}

/// The process ID that `s` writes, if it writes one: a signed number of 32 bits.
pub open spec fn pid_of(s: Seq<char>) -> Option<pid_t> {
    match parse_decimal(s, true, i32::MIN as int, i32::MAX as int) {
        Some(value) => Some(value as pid_t),
        None => None,
    }
}

/// The process ID that `s` writes without a minus sign, if it writes one: a
/// number from zero up to the greatest that a process ID can hold. A
/// greater number is no process ID.
pub open spec fn unsigned_pid_of(s: Seq<char>) -> Option<pid_t> {
    match parse_decimal(s, false, 0, i32::MAX as int) {
        Some(value) => Some(value as pid_t),
        None => None,
    }
}

/// Digits are worth at least as much as any of their prefixes.
pub proof fn lemma_decimal_value_grows(s: Seq<char>, n: int)
    requires
        all_digits(s),
        0 <= n <= s.len(),
    ensures
        0 <= decimal_value(s.take(n)) <= decimal_value(s),
    decreases s.len(),
{
    if n == s.len() {
        assert(s.take(n) == s);
        if s.len() > 0 {
            let front = s.drop_last();
            assert(front.take(front.len() as int) == front);
            lemma_decimal_value_grows(front, front.len() as int);
            assert(is_digit(s[s.len() - 1]));
        }
    } else {
        let front = s.drop_last();
        assert(front.take(n) == s.take(n));
        lemma_decimal_value_grows(front, n);
        assert(front.take(front.len() as int) == front);
        lemma_decimal_value_grows(front, front.len() as int);
        assert(is_digit(s[s.len() - 1]));
    }
}

/// Reads `s` as a run of digits worth at most `limit`.
pub fn read_digits(s: &[char], limit: u64) -> (value: Option<u64>)
    ensures
        value is Some <==> s@.len() > 0 && all_digits(s@) && decimal_value(s@) <= limit,
        value is Some ==> value->0 == decimal_value(s@),
{
    if s.len() == 0 {
        return None;
    }
    let mut acc: u64 = 0;
    let mut i: usize = 0;
    while i < s.len()
        invariant
            i <= s.len(),
            all_digits(s@.take(i as int)),
            acc == decimal_value(s@.take(i as int)),
            acc <= limit,
        decreases s.len() - i,
    {
        let digit: char = s[i];
        if digit < '0' || digit > '9' {
            proof {
                assert(!is_digit(s@[i as int]));
            }
            return None;
        }
        let d: u64 = (digit as u32 - 48) as u64;
        proof {
            assert(s@.take(i + 1).drop_last() == s@.take(i as int));
            assert(s@.take(i + 1).last() == s@[i as int]);
            assert(digit_value(s@[i as int]) == d);
            assert(all_digits(s@.take(i + 1))) by {
                assert forall|k: int| 0 <= k < i + 1 implies is_digit(
                    #[trigger] s@.take(i + 1)[k],
                ) by {
                    if k < i {
                        assert(s@.take(i + 1)[k] == s@.take(i as int)[k]);
                    }
                }
            }
        }
        if limit < d || acc > (limit - d) / 10 {
            proof {
                assert(decimal_value(s@.take(i + 1)) > limit);
                if all_digits(s@) {
                    lemma_decimal_value_grows(s@, i + 1);
                }
            }
            return None;
        }
        acc = acc * 10 + d;
        i += 1;
    }
    proof {
        assert(s@.take(i as int) == s@);
    }
    Some(acc)
}

/// Reads `s` as a process ID.
pub fn parse_pid(s: &[char]) -> (pid: Option<pid_t>)
    ensures
        pid == pid_of(s@),
{
    if s.len() == 0 {
        return None;
    }
    let negative = s[0] == '-';
    let signed = negative || s[0] == '+';
    let digits = if signed {
        &s[1..s.len()]
    } else {
        s
    };
    proof {
        assert(has_sign(s@, true) == signed);
        assert(digits@ == unsigned_part(s@, true));
    }
    if negative {
        match read_digits(digits, 2147483648) {
            Some(v) => Some((-(v as i64)) as i32),
            None => None,
        }
    } else {
        match read_digits(digits, 2147483647) {
            Some(v) => Some(v as i32),
            None => None,
        }
    }
}

/// Reads `s` as a process ID that is written without a minus sign.
pub fn parse_unsigned_pid(s: &[char]) -> (pid: Option<pid_t>)
    ensures
        pid == unsigned_pid_of(s@),
{
    if s.len() == 0 {
        return None;
    }
    let signed = s[0] == '+';
    let digits = if signed {
        &s[1..s.len()]
    } else {
        s
    };
    proof {
        assert(has_sign(s@, false) == signed);
        assert(digits@ == unsigned_part(s@, false));
        if all_digits(digits@) {
            lemma_decimal_value_grows(digits@, 0);
        }
    }
    match read_digits(digits, 2147483647) {
        Some(v) => Some(v as i32),
        None => None,
    }
}

/// The digit that writes `d`.
pub open spec fn digit_char(d: int) -> char {
    (d + '0' as int) as char
}

/// The digits that write `n` in base ten, with no leading zero but for zero
/// itself.
pub open spec fn digits_of(n: nat) -> Seq<char>
    decreases n,
{
    if n < 10 {
        seq![digit_char(n as int)]
    } else {
        digits_of(n / 10).push(digit_char((n % 10) as int))
    }
}

/// How `n` is written in base ten: a minus sign before a negative number, no
/// sign before any other.
pub open spec fn decimal(n: int) -> Seq<char> {
    if n < 0 {
        seq!['-'] + digits_of((-n) as nat)
    } else {
        digits_of(n as nat)
    }
}

/// The digits that write a number are digits, and are worth the number.
pub proof fn lemma_digits_of(n: nat)
    ensures
        digits_of(n).len() >= 1,
        all_digits(digits_of(n)),
        decimal_value(digits_of(n)) == n,
    decreases n,
{
    let last = digit_char((n % 10) as int);
    assert(is_digit(last) && digit_value(last) == n % 10);
    if n >= 10 {
        let front = digits_of(n / 10);
        lemma_digits_of(n / 10);
        assert(digits_of(n).drop_last() == front);
        assert(digits_of(n).last() == last);
        assert forall|i: int| 0 <= i < digits_of(n).len() implies is_digit(
            #[trigger] digits_of(n)[i],
        ) by {
            if i < front.len() {
                assert(digits_of(n)[i] == front[i]);
            }
        }
    } else {
        assert(digits_of(n).drop_last() == Seq::<char>::empty());
        assert(digits_of(n).last() == last);
        assert(decimal_value(Seq::<char>::empty()) == 0);
    }
    assert(decimal_value(digits_of(n)) == decimal_value(digits_of(n).drop_last()) * 10
        + digit_value(digits_of(n).last()));
}

/// What is written is read back: the text that writes a process ID is read
/// as that process ID.
pub proof fn law_written_pid_is_read(pid: pid_t)
    ensures
        pid_of(decimal(pid as int)) == Some(pid),
{
    let text = decimal(pid as int);
    if pid < 0 {
        let digits = digits_of((-pid) as nat);
        lemma_digits_of((-pid) as nat);
        assert(text[0] == '-');
        assert(text.drop_first() == digits);
    } else {
        lemma_digits_of(pid as nat);
        assert(is_digit(text[0]));
    }
}

/// The digit `d` as text.
fn digit_text(d: u64) -> (text: &'static str)
    requires
        d < 10,
    ensures
        text@ == seq![digit_char(d as int)],
{
    proof {
        reveal_strlit("0");
        reveal_strlit("1");
        reveal_strlit("2");
        reveal_strlit("3");
        reveal_strlit("4");
        reveal_strlit("5");
        reveal_strlit("6");
        reveal_strlit("7");
        reveal_strlit("8");
        reveal_strlit("9");
    }
    let text = if d == 0 {
        "0"
    } else if d == 1 {
        "1"
    } else if d == 2 {
        "2"
    } else if d == 3 {
        "3"
    } else if d == 4 {
        "4"
    } else if d == 5 {
        "5"
    } else if d == 6 {
        "6"
    } else if d == 7 {
        "7"
    } else if d == 8 {
        "8"
    } else {
        "9"
    };
    assert(text@ =~= seq![digit_char(d as int)]);
    text
}

/// Writes `n` in base ten.
pub fn unsigned_text(n: u64) -> (text: String)
    ensures
        text@ == digits_of(n as nat),
    decreases n,
{
    if n < 10 {
        String::from_str(digit_text(n))
    } else {
        let mut text = unsigned_text(n / 10);
        text.append(digit_text(n % 10));
        assert(text@ =~= digits_of(n as nat));
        text
    }
}

/// Writes the process ID `pid` in base ten.
pub fn pid_text(pid: pid_t) -> (text: String)
    ensures
        text@ == decimal(pid as int),
{
    if pid < 0 {
        let magnitude: u64 = (-(pid as i64)) as u64;
        let digits = unsigned_text(magnitude);
        proof {
            reveal_strlit("-");
        }
        let text = join2("-", digits.as_str());
        assert(text@ =~= decimal(pid as int));
        text
    } else {
        unsigned_text(pid as u64)
    }
}

} // verus!
