//! Character-level text utilities shared by the report parser: conversion
//! between strings and character vectors, substring search, trimming and
//! line splitting.

use vstd::prelude::*;

verus! {

/// The characters of `s`, in order.
pub fn chars_of(s: &str) -> (v: Vec<char>)
    ensures
        v@ == s@,
{
    broadcast use vstd::string::axiom_spec_iter;

    let mut v: Vec<char> = Vec::new();
    let chars = s.chars();
    for c in it: chars
        invariant
            it.seq() == s@,
            v@ == it.seq().take(it.index()),
    {
        v.push(c);
    }
    v
}

/// Collects characters into a `String` with std's `String::from_iter`: the
/// string holds exactly the given characters, in the given order.
#[verifier::external_body]
pub(crate) fn string_of(chars: &Vec<char>) -> (s: String)
    ensures
        s@ == chars@,
{
    String::from_iter(chars.iter())
}

/// Whether `pattern` stands in `text` at index `i`.
pub open spec fn occurs_at(text: Seq<char>, pattern: Seq<char>, i: int) -> bool {
    0 <= i && i + pattern.len() <= text.len() && text.subrange(i, i + pattern.len()) == pattern
}

/// Whether `i` is the least index at which `pattern` stands in `text`.
pub open spec fn is_first_occurrence(text: Seq<char>, pattern: Seq<char>, i: int) -> bool {
    occurs_at(text, pattern, i) && forall|j: int| 0 <= j < i ==> !occurs_at(text, pattern, j)
}

/// The least index at which `pattern` stands in `text`, if it stands
/// anywhere.
pub open spec fn first_occurrence(text: Seq<char>, pattern: Seq<char>) -> Option<int> {
    if exists|i: int| is_first_occurrence(text, pattern, i) {
        Some(choose|i: int| is_first_occurrence(text, pattern, i))
    } else {
        None
    }
}

/// A least index of occurrence is the first occurrence.
pub proof fn lemma_first_occurrence_found(text: Seq<char>, pattern: Seq<char>, i: int)
    requires
        is_first_occurrence(text, pattern, i),
    ensures
        first_occurrence(text, pattern) == Some(i),
{
}

/// The first occurrence is an occurrence, and no occurrence comes before it.
pub proof fn lemma_first_occurrence_is_least(text: Seq<char>, pattern: Seq<char>)
    ensures
        first_occurrence(text, pattern) matches Some(i) ==> is_first_occurrence(text, pattern, i),
        first_occurrence(text, pattern) is None ==> forall|j: int| !occurs_at(text, pattern, j),
{
    if first_occurrence(text, pattern) is None {
        assert forall|j: int| !occurs_at(text, pattern, j) by {
            if occurs_at(text, pattern, j) {
                lemma_least_occurrence_exists(text, pattern, j);
            }
        }
    }
}

/// Where `pattern` stands at `j`, it has a least index of occurrence.
proof fn lemma_least_occurrence_exists(text: Seq<char>, pattern: Seq<char>, j: int)
    requires
        occurs_at(text, pattern, j),
    ensures
        exists|i: int| is_first_occurrence(text, pattern, i),
    decreases j,
{
    if exists|k: int| 0 <= k < j && occurs_at(text, pattern, k) {
        let k = choose|k: int| 0 <= k < j && occurs_at(text, pattern, k);
        lemma_least_occurrence_exists(text, pattern, k);
    } else {
        assert(is_first_occurrence(text, pattern, j));
    }
}

/// Where `pattern` stands nowhere, there is no first occurrence.
pub proof fn lemma_first_occurrence_absent(text: Seq<char>, pattern: Seq<char>)
    requires
        forall|j: int| !occurs_at(text, pattern, j),
    ensures
        first_occurrence(text, pattern) is None,
{
}

/// Whether `pattern` stands in `text` at index `at`.
fn matches_at(text: &Vec<char>, pattern: &Vec<char>, at: usize) -> (b: bool)
    requires
        at + pattern.len() <= text.len(),
    ensures
        b == occurs_at(text@, pattern@, at as int),
{
    let m = pattern.len();
    let mut k: usize = 0;
    while k < m
        invariant
            m == pattern.len(),
            at + m <= text.len(),
            k <= m,
            forall|j: int| 0 <= j < k ==> text@[at + j] == pattern@[j],
        decreases m - k,
    {
        if text[at + k] != pattern[k] {
            return false;
        }
        k += 1;
    }
    proof {
        assert(text@.subrange(at as int, at + m) =~= pattern@);
    }
    true
}

/// The index of the first occurrence of `pattern` in `text`.
pub fn find_first(text: &Vec<char>, pattern: &Vec<char>) -> (r: Option<usize>)
    ensures
        match r {
            Some(i) => first_occurrence(text@, pattern@) == Some(i as int),
            None => first_occurrence(text@, pattern@) is None,
        },
        r matches Some(i) ==> i + pattern.len() <= text.len(),
{
    let n = text.len();
    let m = pattern.len();
    if m > n {
        proof {
            lemma_first_occurrence_absent(text@, pattern@);
        }
        return None;
    }
    let last = n - m;
    let mut i: usize = 0;
    while i < last
        invariant
            n == text.len(),
            m == pattern.len(),
            last == n - m,
            i <= last,
            forall|j: int| 0 <= j < i ==> !occurs_at(text@, pattern@, j),
        decreases last - i,
    {
        if matches_at(text, pattern, i) {
            proof {
                lemma_first_occurrence_found(text@, pattern@, i as int);
            }
            return Some(i);
        }
        i += 1;
    }
    if matches_at(text, pattern, last) {
        proof {
            lemma_first_occurrence_found(text@, pattern@, last as int);
        }
        return Some(last);
    }
    proof {
        lemma_first_occurrence_absent(text@, pattern@);
    }
    None
}

/// The characters of `text` from index `from` up to, not including, `to`.
pub(crate) fn copy_range(text: &Vec<char>, from: usize, to: usize) -> (r: Vec<char>)
    requires
        from <= to <= text.len(),
    ensures
        r@ == text@.subrange(from as int, to as int),
{
    let mut r: Vec<char> = Vec::new();
    let mut i: usize = from;
    while i < to
        invariant
            from <= i <= to <= text.len(),
            r@ == text@.subrange(from as int, i as int),
        decreases to - i,
    {
        r.push(text[i]);
        i += 1;
    }
    r
}

/// Whether `c` has the Unicode property White_Space.
pub open spec fn is_space(c: char) -> bool {
    let u = c as u32;
    ||| 0x09 <= u <= 0x0D
    ||| u == 0x20
    ||| u == 0x85
    ||| u == 0xA0
    ||| u == 0x1680
    ||| 0x2000 <= u <= 0x200A
    ||| u == 0x2028
    ||| u == 0x2029
    ||| u == 0x202F
    ||| u == 0x205F
    ||| u == 0x3000
}

/// Whether `c` is a whitespace character.
pub fn is_whitespace(c: char) -> (b: bool)
    ensures
        b == is_space(c),
{
    let u: u32 = c as u32;
    (0x09 <= u && u <= 0x0D) || u == 0x20 || u == 0x85 || u == 0xA0 || u == 0x1680 || (0x2000 <= u
        && u <= 0x200A) || u == 0x2028 || u == 0x2029 || u == 0x202F || u == 0x205F || u == 0x3000
}

/// `s` without its leading whitespace.
pub open spec fn trim_start(s: Seq<char>) -> Seq<char>
    decreases s.len(),
{
    if s.len() > 0 && is_space(s.first()) {
        trim_start(s.drop_first())
    } else {
        s
    }
}

/// `s` without its trailing whitespace.
pub open spec fn trim_end(s: Seq<char>) -> Seq<char>
    decreases s.len(),
{
    if s.len() > 0 && is_space(s.last()) {
        trim_end(s.drop_last())
    } else {
        s
    }
}

/// `s` without its leading and trailing whitespace.
pub open spec fn trimmed(s: Seq<char>) -> Seq<char> {
    trim_end(trim_start(s))
}

/// Whether every character of `s` is whitespace.
pub open spec fn all_space(s: Seq<char>) -> bool {
    forall|i: int| 0 <= i < s.len() ==> is_space(#[trigger] s[i])
}

/// Trimming leaves nothing of a text of whitespace.
pub proof fn lemma_trim_of_whitespace(s: Seq<char>)
    requires
        all_space(s),
    ensures
        trimmed(s).len() == 0,
    decreases s.len(),
{
    if s.len() > 0 {
        lemma_trim_of_whitespace(s.drop_first());
    }
}

/// What trimming leaves neither starts nor ends with whitespace.
pub proof fn lemma_trimmed_ends(s: Seq<char>)
    ensures
        trimmed(s).len() > 0 ==> !is_space(trimmed(s).first()) && !is_space(trimmed(s).last()),
{
    lemma_trim_start_first(s);
    lemma_trim_end_keeps_first(trim_start(s));
}

/// What stays behind the leading whitespace does not start with whitespace.
proof fn lemma_trim_start_first(s: Seq<char>)
    ensures
        trim_start(s).len() > 0 ==> !is_space(trim_start(s).first()),
    decreases s.len(),
{
    if s.len() > 0 && is_space(s.first()) {
        lemma_trim_start_first(s.drop_first());
    }
}

/// To strip the trailing whitespace of a text that starts with none keeps its
/// first character, and leaves no whitespace at the end.
proof fn lemma_trim_end_keeps_first(s: Seq<char>)
    ensures
        trim_end(s).len() > 0 ==> !is_space(trim_end(s).last()),
        s.len() > 0 && !is_space(s.first()) ==> trim_end(s).len() > 0 && trim_end(s).first()
            == s.first(),
    decreases s.len(),
{
    if s.len() > 0 && is_space(s.last()) {
        lemma_trim_end_keeps_first(s.drop_last());
    }
}

/// `line` without its leading and trailing whitespace.
pub fn trim(line: &Vec<char>) -> (r: Vec<char>)
    ensures
        r@ == trimmed(line@),
{
    let n = line.len();
    let mut a: usize = 0;
    proof {
        assert(line@.skip(0) =~= line@);
    }
    while a < n && is_whitespace(line[a])
        invariant
            n == line.len(),
            a <= n,
            trim_start(line@) == trim_start(line@.skip(a as int)),
        decreases n - a,
    {
        proof {
            assert(line@.skip(a as int).drop_first() =~= line@.skip(a + 1));
        }
        a += 1;
    }
    let mut b: usize = n;
    while b > a && is_whitespace(line[b - 1])
        invariant
            n == line.len(),
            a <= b <= n,
            trimmed(line@) == trim_end(line@.subrange(a as int, b as int)),
        decreases b,
    {
        proof {
            assert(line@.subrange(a as int, b as int).drop_last() =~= line@.subrange(
                a as int,
                b - 1,
            ));
        }
        b -= 1;
    }
    copy_range(line, a, b)
}

/// The lines of `s`: the runs of characters between its line feeds. A text of
/// `k` line feeds has `k + 1` lines, some of which may be empty.
pub open spec fn lines_of(s: Seq<char>) -> Seq<Seq<char>>
    decreases s.len(),
{
    if s.len() == 0 {
        seq![Seq::empty()]
    } else if s.last() == '\n' {
        lines_of(s.drop_last()).push(Seq::empty())
    } else {
        let before = lines_of(s.drop_last());
        before.drop_last().push(before.last().push(s.last()))
    }
}

/// A text has at least one line.
pub proof fn lemma_lines_nonempty(s: Seq<char>)
    ensures
        lines_of(s).len() >= 1,
    decreases s.len(),
{
    if s.len() > 0 {
        lemma_lines_nonempty(s.drop_last());
    }
}

/// The lines of a text of whitespace are texts of whitespace.
pub proof fn lemma_lines_of_whitespace(s: Seq<char>)
    requires
        all_space(s),
    ensures
        forall|i: int| 0 <= i < lines_of(s).len() ==> all_space(#[trigger] lines_of(s)[i]),
    decreases s.len(),
{
    if s.len() > 0 {
        lemma_lines_of_whitespace(s.drop_last());
        lemma_lines_nonempty(s.drop_last());
    }
}

/// A text without a line feed is its own single line.
pub proof fn lemma_single_line(s: Seq<char>)
    requires
        !s.contains('\n'),
    ensures
        lines_of(s) == seq![s],
    decreases s.len(),
{
    if s.len() > 0 {
        let front = s.drop_last();
        lemma_single_line(front);
        assert(front.push(s.last()) =~= s);
    } else {
        assert(s =~= Seq::<char>::empty());
    }
}

/// A line feed parts the lines before it from the lines behind it: the lines
/// of two texts joined by a line feed are the lines of the first and then
/// those of the second.
pub proof fn lemma_lines_concat(a: Seq<char>, b: Seq<char>)
    ensures
        lines_of(a + seq!['\n'] + b) == lines_of(a) + lines_of(b),
    decreases b.len(),
{
    let joined = a + seq!['\n'] + b;
    if b.len() == 0 {
        assert(joined.drop_last() =~= a);
    } else {
        let front = b.drop_last();
        lemma_lines_concat(a, front);
        lemma_lines_nonempty(front);
        assert(joined.drop_last() =~= a + seq!['\n'] + front);
    }
}

/// The character sequences that the vectors of `lines` hold.
pub open spec fn line_views(lines: Seq<Vec<char>>) -> Seq<Seq<char>> {
    Seq::new(lines.len(), |i: int| lines[i]@)
}

/// Splits `text` at its line feeds.
pub fn split_lines(text: &Vec<char>) -> (lines: Vec<Vec<char>>)
    ensures
        line_views(lines@) == lines_of(text@),
{
    let n = text.len();
    let mut done: Vec<Vec<char>> = Vec::new();
    let mut current: Vec<char> = Vec::new();
    let mut i: usize = 0;
    while i < n
        invariant
            n == text.len(),
            i <= n,
            line_views(done@).push(current@) == lines_of(text@.take(i as int)),
        decreases n - i,
    {
        let c = text[i];
        proof {
            assert(text@.take(i + 1).drop_last() =~= text@.take(i as int));
        }
        if c == '\n' {
            done.push(current);
            current = Vec::new();
        } else {
            current.push(c);
        }
        i += 1;
    }
    proof {
        assert(text@.take(n as int) =~= text@);
    }
    done.push(current);
    done
}

} // verus!
