//! Decimal numbers as text: the digits of a number, and the number of a
//! string of digits.

use crate::text::{chars_of, copy_range};
use vstd::prelude::*;

verus! {

/// Whether `c` is one of the ten ASCII decimal digits.
pub open spec fn is_digit(c: char) -> bool {
    '0' <= c <= '9'
}

/// The ASCII digit that stands for `d`.
pub open spec fn digit_char(d: nat) -> char
    recommends
        d < 10,
{
    (d + 48) as u8 as char
}

/// The number that the ASCII digit `c` stands for; zero for every other
/// character.
pub open spec fn digit_value(c: char) -> nat {
    if is_digit(c) {
        (c as u8 - 48) as nat
    } else {
        0
    }
}

/// Whether every character of `s` is an ASCII decimal digit.
pub open spec fn all_digits(s: Seq<char>) -> bool {
    forall|i: int| 0 <= i < s.len() ==> is_digit(#[trigger] s[i])
}

/// The decimal digit string of `n`, most significant digit first, without
/// leading zeros (a lone `0` for zero).
pub open spec fn decimal_digits(n: nat) -> Seq<char>
    decreases n,
{
    if n < 10 {
        seq![digit_char(n)]
    } else {
        decimal_digits(n / 10).push(digit_char(n % 10))
    }
}

/// The number that a string of decimal digits denotes; zero for the empty
/// string.
pub open spec fn decimal_value(s: Seq<char>) -> nat
    decreases s.len(),
{
    if s.len() == 0 {
        0
    } else {
        decimal_value(s.drop_last()) * 10 + digit_value(s.last())
    }
}

/// Whether `s` is the decimal text of a number that a `u64` can hold: one or
/// more ASCII digits, with a value of at most `u64::MAX`.
pub open spec fn is_u64_text(s: Seq<char>) -> bool {
    s.len() > 0 && all_digits(s) && decimal_value(s) <= u64::MAX
}

/// Whether the point of the decimal fraction `s` stands at index `k`.
pub open spec fn is_decimal_split(s: Seq<char>, k: int) -> bool {
    &&& 0 < k < s.len() - 1
    &&& s[k] == '.'
    &&& all_digits(s.take(k))
    &&& all_digits(s.skip(k + 1))
}

/// Whether `s` is a decimal fraction in ASCII: one or more digits, a point,
/// and one or more digits.
pub open spec fn is_decimal_text(s: Seq<char>) -> bool {
    exists|k: int| is_decimal_split(s, k)
}

/// The digits that `s` starts with.
pub open spec fn leading_digits(s: Seq<char>) -> Seq<char>
    decreases s.len(),
{
    if s.len() > 0 && is_digit(s.first()) {
        seq![s.first()] + leading_digits(s.drop_first())
    } else {
        Seq::empty()
    }
}

/// The whole part of a decimal text: the number that its leading digits
/// denote, which is what is left of a decimal fraction when it is truncated
/// toward zero.
pub open spec fn whole_part(s: Seq<char>) -> nat {
    decimal_value(leading_digits(s))
}

/// `v` as a `u64`, with `u64::MAX` for every number beyond it.
pub open spec fn saturated(v: nat) -> u64 {
    if v <= u64::MAX {
        v as u64
    } else {
        u64::MAX
    }
}

/// The ASCII digit that stands for `d`.
fn digit_of(d: u8) -> (c: char)
    requires
        d < 10,
    ensures
        c == digit_char(d as nat),
{
    (d + 48u8) as char
}

/// The number that `c` stands for, if `c` is an ASCII digit.
pub(crate) fn value_of(c: char) -> (d: Option<u8>)
    ensures
        d is Some <==> is_digit(c),
        d matches Some(v) ==> v == digit_value(c) && v < 10,
{
    if '0' <= c && c <= '9' {
        Some(c as u8 - 48u8)
    } else {
        None
    }
}

/// Appends the decimal digits of `n` to `out`.
pub(crate) fn push_decimal(n: u64, out: &mut Vec<char>)
    ensures
        final(out)@ == old(out)@ + decimal_digits(n as nat),
    decreases n,
{
    if n >= 10 {
        push_decimal(n / 10, out);
    }
    out.push(digit_of((n % 10) as u8));
}

/// A prefix of a digit string denotes no more than the whole string.
pub proof fn lemma_decimal_value_prefix(s: Seq<char>, k: int)
    requires
        0 <= k <= s.len(),
    ensures
        decimal_value(s.take(k)) <= decimal_value(s),
    decreases s.len(),
{
    if k < s.len() {
        lemma_decimal_value_prefix(s.drop_last(), k);
        assert(s.drop_last().take(k) =~= s.take(k));
    } else {
        assert(s.take(k) =~= s);
    }
}

/// The number that the characters `s` denote in decimal.
pub(crate) fn parse_u64_chars(s: &Vec<char>) -> (r: Option<u64>)
    ensures
        r == (if is_u64_text(s@) {
            Some(decimal_value(s@) as u64)
        } else {
            None
        }),
{
    let n = s.len();
    if n == 0 {
        return None;
    }
    let mut acc: u64 = 0;
    let mut i: usize = 0;
    while i < n
        invariant
            n == s.len(),
            i <= n,
            all_digits(s@.take(i as int)),
            acc == decimal_value(s@.take(i as int)),
        decreases n - i,
    {
        let d = match value_of(s[i]) {
            Some(d) => d,
            None => {
                return None;
            },
        };
        proof {
            assert(s@.take(i + 1).drop_last() =~= s@.take(i as int));
            lemma_decimal_value_prefix(s@, i + 1);
        }
        let tens = match acc.checked_mul(10) {
            Some(tens) => tens,
            None => {
                return None;
            },
        };
        acc =
        match tens.checked_add(d as u64) {
            Some(sum) => sum,
            None => {
                return None;
            },
        };
        i += 1;
    }
    proof {
        assert(s@.take(n as int) =~= s@);
    }
    Some(acc)
}

/// Reads a decimal number: `Some` of its value where `s` is made of one or
/// more ASCII digits and the value fits a `u64`, `None` for every other
/// text.
pub fn parse_u64(s: &str) -> (r: Option<u64>)
    ensures
        r == (if is_u64_text(s@) {
            Some(decimal_value(s@) as u64)
        } else {
            None
        }),
{
    let chars = chars_of(s);
    parse_u64_chars(&chars)
}

/// The index of the first character of `s`, at or behind `from`, that is no
/// digit; the length of `s` where digits only follow.
fn skip_digits(s: &Vec<char>, from: usize) -> (to: usize)
    requires
        from <= s.len(),
    ensures
        from <= to <= s.len(),
        forall|j: int| from <= j < to ==> is_digit(#[trigger] s@[j]),
        to < s.len() ==> !is_digit(s@[to as int]),
{
    let n = s.len();
    let mut i: usize = from;
    while i < n
        invariant
            n == s.len(),
            from <= i <= n,
            forall|j: int| from <= j < i ==> is_digit(#[trigger] s@[j]),
        decreases n - i,
    {
        if value_of(s[i]).is_none() {
            return i;
        }
        i += 1;
    }
    i
}

/// The point of a decimal fraction stands at its first character that is no
/// digit.
proof fn lemma_point_is_first_non_digit(s: Seq<char>, k: int, first: int)
    requires
        is_decimal_split(s, k),
        0 <= first <= s.len(),
        forall|j: int| 0 <= j < first ==> is_digit(#[trigger] s[j]),
        first < s.len() ==> !is_digit(s[first]),
    ensures
        k == first,
{
    if first < k {
        assert(s.take(k)[first] == s[first]);
    }
}

/// Whether the characters `s` are a decimal fraction in ASCII.
pub(crate) fn is_decimal_chars(s: &Vec<char>) -> (b: bool)
    ensures
        b == is_decimal_text(s@),
{
    let n = s.len();
    let point = skip_digits(s, 0);
    if point == 0 || point >= n || s[point] != '.' {
        proof {
            assert forall|k: int| !is_decimal_split(s@, k) by {
                if is_decimal_split(s@, k) {
                    lemma_point_is_first_non_digit(s@, k, point as int);
                }
            }
        }
        return false;
    }
    let end = skip_digits(s, point + 1);
    if end < n || point + 1 == n {
        proof {
            assert forall|k: int| !is_decimal_split(s@, k) by {
                if is_decimal_split(s@, k) {
                    lemma_point_is_first_non_digit(s@, k, point as int);
                    if end < n {
                        assert(s@.skip(k + 1)[end - (k + 1)] == s@[end as int]);
                    }
                }
            }
        }
        return false;
    }
    proof {
        assert(is_decimal_split(s@, point as int));
    }
    true
}

/// Whether `s` is a decimal fraction in ASCII: one or more digits, a point,
/// and one or more digits, and nothing else.
pub fn is_decimal(s: &str) -> (b: bool)
    ensures
        b == is_decimal_text(s@),
{
    let chars = chars_of(s);
    is_decimal_chars(&chars)
}

/// Where the first `k` characters of `s` are digits and the next is none, the
/// leading digits of `s` are these `k` characters.
pub proof fn lemma_leading_digits(s: Seq<char>, k: int)
    requires
        0 <= k <= s.len(),
        all_digits(s.take(k)),
        k < s.len() ==> !is_digit(s[k]),
    ensures
        leading_digits(s) == s.take(k),
    decreases k,
{
    if k > 0 {
        let rest = s.drop_first();
        assert(is_digit(s.take(k)[0]));
        assert forall|i: int| 0 <= i < k - 1 implies is_digit(#[trigger] rest.take(k - 1)[i]) by {
            assert(rest.take(k - 1)[i] == s.take(k)[i + 1]);
        }
        lemma_leading_digits(rest, k - 1);
    }
}

/// Truncates a decimal text toward zero: gives the number that the digits
/// before its point denote, and `u64::MAX` where that number is larger. A text
/// that starts with no digit has the whole part zero.
pub fn truncate_decimal(s: &str) -> (r: u64)
    ensures
        r == saturated(whole_part(s@)),
{
    let chars = chars_of(s);
    let end = skip_digits(&chars, 0);
    let digits = copy_range(&chars, 0, end);
    proof {
        lemma_leading_digits(chars@, end as int);
    }
    match parse_u64_chars(&digits) {
        Some(value) => value,
        None => {
            if end == 0 {
                0
            } else {
                u64::MAX
            }
        },
    }
}

/// The whole part of a decimal fraction is the number before its point.
pub proof fn lemma_whole_part_of_decimal(s: Seq<char>, k: int)
    requires
        is_decimal_split(s, k),
    ensures
        whole_part(s) == decimal_value(s.take(k)),
{
    lemma_leading_digits(s, k);
}

/// The decimal digit string of a number holds digits only, and at least one.
pub proof fn lemma_decimal_digits_are_digits(n: nat)
    ensures
        decimal_digits(n).len() > 0,
        all_digits(decimal_digits(n)),
    decreases n,
{
    if n >= 10 {
        lemma_decimal_digits_are_digits(n / 10);
    }
}

/// Reading the decimal digit string of a number gives the number back.
pub proof fn lemma_decimal_round_trip(n: nat)
    ensures
        decimal_value(decimal_digits(n)) == n,
    decreases n,
{
    if n < 10 {
        assert(seq![digit_char(n)].drop_last() =~= Seq::<char>::empty());
        assert(decimal_value(Seq::<char>::empty()) == 0);
    } else {
        lemma_decimal_round_trip(n / 10);
        assert(decimal_digits(n).drop_last() =~= decimal_digits(n / 10));
    }
}

/// The decimal digit string of every `u64` is read back as that number.
pub proof fn lemma_u64_digits_are_u64_text(n: u64)
    ensures
        is_u64_text(decimal_digits(n as nat)),
        decimal_value(decimal_digits(n as nat)) == n,
{
    lemma_decimal_digits_are_digits(n as nat);
    lemma_decimal_round_trip(n as nat);
}

/// How many decimal digits a number has, by its size, up to five digits.
pub proof fn lemma_decimal_digits_len(n: nat)
    ensures
        n < 10 ==> decimal_digits(n).len() == 1,
        10 <= n < 100 ==> decimal_digits(n).len() == 2,
        100 <= n < 1000 ==> decimal_digits(n).len() == 3,
        1000 <= n < 10000 ==> decimal_digits(n).len() == 4,
        10000 <= n ==> decimal_digits(n).len() >= 5,
    decreases n,
{
    if n >= 10 {
        lemma_decimal_digits_len(n / 10);
    }
}

} // verus!
