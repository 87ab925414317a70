//! The display of numbers with a separator between groups of three digits.

use crate::number::{
    all_digits, decimal_digits, decimal_value, is_digit, lemma_decimal_digits_are_digits,
    lemma_decimal_digits_len, lemma_decimal_round_trip, push_decimal, value_of,
};
use crate::text::{chars_of, string_of};
use vstd::prelude::*;

verus! {

/// `s` with a comma between every two groups of three characters, the groups
/// counted from the end of `s`.
pub open spec fn grouped(s: Seq<char>) -> Seq<char>
    decreases s.len(),
{
    if s.len() <= 3 {
        s
    } else {
        grouped(s.take(s.len() - 3)) + seq![','] + s.skip(s.len() - 3)
    }
}

/// `s` without its characters that are no ASCII decimal digits.
pub open spec fn ungrouped(s: Seq<char>) -> Seq<char> {
    s.filter(|c: char| is_digit(c))
}

/// How many separators grouping puts into a string of `len` characters.
pub open spec fn separator_count(len: nat) -> nat {
    if len == 0 {
        0
    } else {
        ((len - 1) / 3) as nat
    }
}

/// The separator that stands before a tail of `tail_len` characters when more
/// characters precede it: a comma where the tail is a whole number of groups,
/// and nothing where it is not.
pub open spec fn joint(tail_len: nat) -> Seq<char> {
    if tail_len > 0 && tail_len % 3 == 0 {
        seq![',']
    } else {
        Seq::empty()
    }
}

/// Grouping a string that starts with `c` groups the rest and puts `c`, and a
/// separator where the rest is a whole number of groups, in front.
pub proof fn lemma_grouped_cons(c: char, t: Seq<char>)
    ensures
        grouped(seq![c] + t) == seq![c] + joint(t.len()) + grouped(t),
    decreases t.len(),
{
    let s = seq![c] + t;
    if t.len() == 3 {
        assert(s.take(s.len() - 3) =~= seq![c]);
        assert(grouped(seq![c]) == seq![c]);
    } else if t.len() > 3 {
        let head = t.take(t.len() - 3);
        lemma_grouped_cons(c, head);
        assert(s.take(s.len() - 3) =~= seq![c] + head);
    }
}

/// The separator that is due before the character at index `i` of a string
/// of `len` characters.
pub open spec fn separator_before(len: nat, i: nat) -> Seq<char> {
    if i > 0 {
        joint((len - i) as nat)
    } else {
        Seq::empty()
    }
}

/// Puts the grouping separators into `s`.
fn group_chars(s: &Vec<char>) -> (out: Vec<char>)
    ensures
        out@ == grouped(s@),
{
    let len = s.len();
    let mut out: Vec<char> = Vec::new();
    let mut i: usize = 0;
    proof {
        assert(s@.skip(0) =~= s@);
    }
    while i < len
        invariant
            len == s.len(),
            i <= len,
            grouped(s@) == out@ + separator_before(len as nat, i as nat) + grouped(
                s@.skip(i as int),
            ),
        decreases len - i,
    {
        let ghost done = out@;
        let ghost rest = s@.skip(i + 1);
        let c = s[i];
        proof {
            lemma_grouped_cons(c, rest);
            assert(s@.skip(i as int) =~= seq![c] + rest);
        }
        if i > 0 && (len - i) % 3 == 0 {
            out.push(',');
        }
        out.push(c);
        proof {
            assert(done + separator_before(len as nat, i as nat) + (seq![c] + joint(rest.len())
                + grouped(rest)) =~= out@ + joint(rest.len()) + grouped(rest));
        }
        i += 1;
    }
    out
}

/// Puts a comma between every two groups of three characters of `s`, the
/// groups counted from the end: no comma stands before the first group, and
/// a string of at most three characters is returned as it is.
pub fn format_str_with_commas(s: String) -> (r: String)
    ensures
        r@ == grouped(s@),
{
    let chars = chars_of(s.as_str());
    let out = group_chars(&chars);
    string_of(&out)
}

/// Renders `n` in decimal with a comma every three digits, counted from the
/// least significant digit.
pub fn format_u64_with_commas(n: u64) -> (r: String)
    ensures
        r@ == grouped(decimal_digits(n as nat)),
{
    let mut digits: Vec<char> = Vec::new();
    push_decimal(n, &mut digits);
    let out = group_chars(&digits);
    string_of(&out)
}

/// What stripping does to a string that ends in `c`.
pub proof fn lemma_ungrouped_push(s: Seq<char>, c: char)
    ensures
        ungrouped(s.push(c)) == if is_digit(c) {
            ungrouped(s).push(c)
        } else {
            ungrouped(s)
        },
{
    reveal(Seq::filter);
    assert(s.push(c).drop_last() =~= s);
}

/// Strips every character that is no ASCII decimal digit from `s`; the digits
/// that stay keep their order.
pub fn ungroup(s: &str) -> (r: String)
    ensures
        r@ == ungrouped(s@),
{
    let chars = chars_of(s);
    let n = chars.len();
    let mut out: Vec<char> = Vec::new();
    let mut i: usize = 0;
    proof {
        reveal(Seq::filter);
    }
    while i < n
        invariant
            n == chars.len(),
            i <= n,
            out@ == ungrouped(chars@.take(i as int)),
        decreases n - i,
    {
        let c = chars[i];
        proof {
            lemma_ungrouped_push(chars@.take(i as int), c);
            assert(chars@.take(i + 1) =~= chars@.take(i as int).push(c));
        }
        if value_of(c).is_some() {
            out.push(c);
        }
        i += 1;
    }
    proof {
        assert(chars@.take(n as int) =~= chars@);
    }
    string_of(&out)
}

/// Stripping distributes over concatenation.
pub proof fn lemma_ungrouped_concat(a: Seq<char>, b: Seq<char>)
    ensures
        ungrouped(a + b) == ungrouped(a) + ungrouped(b),
{
    Seq::filter_distributes_over_add(a, b, |c: char| is_digit(c));
}

/// Stripping leaves a string of digits as it is.
pub proof fn lemma_ungrouped_digits(d: Seq<char>)
    requires
        all_digits(d),
    ensures
        ungrouped(d) == d,
    decreases d.len(),
{
    if d.len() == 0 {
        reveal(Seq::filter);
    } else {
        lemma_ungrouped_digits(d.drop_last());
        lemma_ungrouped_push(d.drop_last(), d.last());
        assert(d.drop_last().push(d.last()) =~= d);
    }
}

/// Grouping and then stripping is the identity on strings of digits: the
/// separators, and nothing else, are taken out again.
pub proof fn lemma_ungroup_inverts_grouping(d: Seq<char>)
    requires
        all_digits(d),
    ensures
        ungrouped(grouped(d)) == d,
    decreases d.len(),
{
    if d.len() <= 3 {
        lemma_ungrouped_digits(d);
    } else {
        let head = d.take(d.len() - 3);
        let tail = d.skip(d.len() - 3);
        let front = grouped(head).push(',');
        assert(grouped(head) + seq![','] =~= front);
        lemma_ungroup_inverts_grouping(head);
        lemma_ungrouped_push(grouped(head), ',');
        lemma_ungrouped_digits(tail);
        lemma_ungrouped_concat(front, tail);
    }
}

/// For every `u64`, stripping the separators from its rendering gives its
/// plain decimal digits back, and these denote the number.
pub proof fn lemma_format_round_trip(n: u64)
    ensures
        ungrouped(grouped(decimal_digits(n as nat))) == decimal_digits(n as nat),
        decimal_value(ungrouped(grouped(decimal_digits(n as nat)))) == n,
{
    lemma_decimal_digits_are_digits(n as nat);
    lemma_ungroup_inverts_grouping(decimal_digits(n as nat));
    lemma_decimal_round_trip(n as nat);
}

/// Rendering is idempotent across stripping: to strip a grouped string of
/// digits and group it again changes nothing.
pub proof fn lemma_grouping_idempotent(d: Seq<char>)
    requires
        all_digits(d),
    ensures
        grouped(ungrouped(grouped(d))) == grouped(d),
{
    lemma_ungroup_inverts_grouping(d);
}

/// Grouping adds one character for every full group of three that has a
/// character before it, and nothing else.
pub proof fn lemma_grouped_len(s: Seq<char>)
    ensures
        grouped(s).len() == s.len() + separator_count(s.len()),
    decreases s.len(),
{
    if s.len() > 3 {
        lemma_grouped_len(s.take(s.len() - 3));
    }
}

/// A string of up to three characters is grouped without a separator, and
/// one of exactly four with one, behind its first character.
pub proof fn lemma_grouped_at_the_boundary(s: Seq<char>)
    ensures
        s.len() <= 3 ==> grouped(s) == s,
        s.len() == 4 ==> grouped(s) == seq![s[0], ',', s[1], s[2], s[3]],
{
    if s.len() == 4 {
        assert(grouped(s.take(1)) == s.take(1));
    }
}

/// A number below one thousand is rendered without a separator, and a number
/// of four digits with exactly one, which stands behind its first digit.
pub proof fn lemma_separators_by_size(n: u64)
    ensures
        n < 1000 ==> grouped(decimal_digits(n as nat)) == decimal_digits(n as nat),
        1000 <= n < 10000 ==> grouped(decimal_digits(n as nat)) == decimal_digits(n as nat).take(1)
            + seq![','] + decimal_digits(n as nat).skip(1),
{
    let d = decimal_digits(n as nat);
    lemma_decimal_digits_len(n as nat);
    lemma_grouped_at_the_boundary(d);
}

} // verus!
