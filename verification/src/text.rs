//! Text as sequences of characters: containment, prefixes, equality and
//! counting of occurrences.
//!
//! The contracts speak of `Seq<char>`, the view of `str`. The executable
//! functions work on slices of characters, which `chars_of` produces once per
//! text.

use vstd::prelude::*;

verus! {

/// `pattern` occurs in `text` at position `at`.
pub open spec fn occurs_at(text: Seq<char>, pattern: Seq<char>, at: int) -> bool {
    &&& 0 <= at
    &&& at + pattern.len() <= text.len()
    &&& text.subrange(at, at + pattern.len()) == pattern
}

/// `pattern` occurs somewhere in `text`. The empty pattern occurs in every text.
pub open spec fn contains(text: Seq<char>, pattern: Seq<char>) -> bool {
    exists|at: int| occurs_at(text, pattern, at)
}

/// `text` begins with `pattern`.
pub open spec fn starts_with(text: Seq<char>, pattern: Seq<char>) -> bool {
    occurs_at(text, pattern, 0)
}

/// The number of occurrences of `pattern` in `text` that a scan from position
/// `from` to the right finds, where the scan resumes behind each occurrence it
/// has found: the occurrences counted do not overlap. An empty pattern is not
/// counted.
pub open spec fn occurrences_from(text: Seq<char>, pattern: Seq<char>, from: int) -> nat
    decreases text.len() - from,
{
    if pattern.len() == 0 || from < 0 || from + pattern.len() > text.len() {
        0
    } else if occurs_at(text, pattern, from) {
        1 + occurrences_from(text, pattern, from + pattern.len())
    } else {
        occurrences_from(text, pattern, from + 1)
    }
}

/// The number of disjoint occurrences of `pattern` in `text`, scanning from the
/// left.
pub open spec fn occurrences(text: Seq<char>, pattern: Seq<char>) -> nat {
    occurrences_from(text, pattern, 0)
}

/// `c` is one of the ten decimal digits `0` to `9`.
pub open spec fn is_decimal_digit(c: char) -> bool {
    '0' <= c <= '9'
}

/// Every character of `text` is a decimal digit. This holds of the empty text.
pub open spec fn all_decimal_digits(text: Seq<char>) -> bool {
    forall|i: int| 0 <= i < text.len() ==> is_decimal_digit(#[trigger] text[i])
}

/// A scan that starts at `from` never counts more occurrences than there are
/// positions left.
pub proof fn lemma_occurrences_bounded(text: Seq<char>, pattern: Seq<char>, from: int)
    requires
        0 <= from <= text.len(),
    ensures
        occurrences_from(text, pattern, from) <= text.len() - from,
    decreases text.len() - from,
{
    if pattern.len() == 0 || from + pattern.len() > text.len() {
    } else if occurs_at(text, pattern, from) {
        lemma_occurrences_bounded(text, pattern, from + pattern.len());
    } else {
        lemma_occurrences_bounded(text, pattern, from + 1);
    }
}

/// A pattern with a character that `text` lacks occurs nowhere in `text`.
pub proof fn lemma_missing_char_excludes(text: Seq<char>, pattern: Seq<char>, k: int)
    requires
        0 <= k < pattern.len(),
        forall|i: int| 0 <= i < text.len() ==> text[i] != pattern[k],
    ensures
        !contains(text, pattern),
{
    assert forall|at: int| !occurs_at(text, pattern, at) by {
        if occurs_at(text, pattern, at) {
            assert(text.subrange(at, at + pattern.len())[k] == text[at + k]);
        }
    }
}

/// A pattern that occurs nowhere in `text` is counted zero times.
pub proof fn lemma_absent_pattern_counts_zero(text: Seq<char>, pattern: Seq<char>, from: int)
    requires
        !contains(text, pattern),
    ensures
        occurrences_from(text, pattern, from) == 0,
    decreases text.len() - from,
{
    if !(pattern.len() == 0 || from < 0 || from + pattern.len() > text.len()) {
        assert(!occurs_at(text, pattern, from));
        lemma_absent_pattern_counts_zero(text, pattern, from + 1);
    }
}

/// The characters of `s`, in order.
pub fn chars_of(s: &str) -> (chars: Vec<char>)
    ensures
        chars@ == s@,
{
    broadcast use vstd::string::group_string_axioms;

    let mut chars: Vec<char> = Vec::new();
    let letters = s.chars();
    for c in it: letters
        invariant
            it.seq() == s@,
            chars@ == s@.take(it.index() as int),
    {
        chars.push(c);
    }
    chars
}

/// Whether `pattern` occurs in `text` at position `at`.
pub fn occurs_here(text: &[char], pattern: &[char], at: usize) -> (found: bool)
    requires
        at + pattern@.len() <= text@.len(),
    ensures
        found == occurs_at(text@, pattern@, at as int),
{
    let ghost window = text@.subrange(at as int, at + pattern@.len());
    let width: usize = pattern.len();
    let size: usize = text.len();
    let mut k: usize = 0;
    while k < width
        invariant
            k <= width == pattern@.len(),
            at + width <= size == text@.len(),
            window == text@.subrange(at as int, at + width),
            forall|j: int| 0 <= j < k ==> text@[at + j] == pattern@[j],
        decreases width - k,
    {
        if text[at + k] != pattern[k] {
            assert(window[k as int] != pattern@[k as int]);
            return false;
        }
        k += 1;
    }
    assert(window =~= pattern@);
    true
}

/// Whether `pattern` occurs somewhere in `text`.
pub fn contains_pattern(text: &[char], pattern: &[char]) -> (found: bool)
    ensures
        found == contains(text@, pattern@),
{
    if pattern.len() > text.len() {
        return false;
    }
    let last: usize = text.len() - pattern.len();
    let mut at: usize = 0;
    loop
        invariant
            last == text@.len() - pattern@.len(),
            at <= last,
            forall|j: int| 0 <= j < at ==> !occurs_at(text@, pattern@, j),
        decreases last - at,
    {
        if occurs_here(text, pattern, at) {
            return true;
        }
        if at == last {
            return false;
        }
        at += 1;
    }
}

/// Whether `text` begins with `pattern`.
pub fn has_prefix(text: &[char], pattern: &[char]) -> (found: bool)
    ensures
        found == starts_with(text@, pattern@),
{
    pattern.len() <= text.len() && occurs_here(text, pattern, 0)
}

/// Whether `left` and `right` are the same text.
pub fn same_text(left: &[char], right: &[char]) -> (same: bool)
    ensures
        same == (left@ == right@),
{
    if left.len() != right.len() {
        return false;
    }
    let same = occurs_here(left, right, 0);
    assert(left@.subrange(0, left@.len() as int) =~= left@);
    same
}

/// The number of disjoint occurrences of `pattern` in `text`.
pub fn count_occurrences(text: &[char], pattern: &[char]) -> (count: usize)
    ensures
        count == occurrences(text@, pattern@),
        count <= text@.len(),
{
    if pattern.len() == 0 || pattern.len() > text.len() {
        return 0;
    }
    let width: usize = pattern.len();
    let size: usize = text.len();
    let mut count: usize = 0;
    let mut at: usize = 0;
    while at <= size - width
        invariant
            0 < width == pattern@.len(),
            width <= size == text@.len(),
            count <= at <= size,
            count + occurrences_from(text@, pattern@, at as int) == occurrences(text@, pattern@),
        decreases size - at,
    {
        if occurs_here(text, pattern, at) {
            count += 1;
            at += width;
        } else {
            at += 1;
        }
    }
    count
}

/// Whether every character of `text` is a decimal digit.
pub fn only_decimal_digits(text: &[char]) -> (all: bool)
    ensures
        all == all_decimal_digits(text@),
{
    let mut i: usize = 0;
    while i < text.len()
        invariant
            i <= text@.len(),
            forall|j: int| 0 <= j < i ==> is_decimal_digit(#[trigger] text@[j]),
        decreases text@.len() - i,
    {
        let c: char = text[i];
        if c < '0' || c > '9' {
            assert(!is_decimal_digit(text@[i as int]));
            return false;
        }
        i += 1;
    }
    true
}

} // verus!
