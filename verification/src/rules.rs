//! Rule tables: ordered sequences of weighted patterns, and the two ways of
//! evaluating one against a text.
//!
//! A table is data. How its patterns are held against a text (`Matching`) and
//! whether the first rule that matches decides or all that match add up is
//! chosen by the field checker that evaluates it.

use vstd::prelude::*;
use crate::text::{
    chars_of, contains, contains_pattern, has_prefix, same_text, starts_with,
};

verus! {

/// One rule: a pattern and the weight it contributes where it matches.
#[derive(Clone, Copy, Debug, PartialEq, Eq)]
pub struct Rule {
    pub pattern: &'static str,
    pub weight: i32,
}

/// The mathematical content of a rule.
pub struct Weighted {
    pub pattern: Seq<char>,
    pub weight: int,
}

impl View for Rule {
    type V = Weighted;

    open spec fn view(&self) -> Weighted {
        Weighted { pattern: self.pattern@, weight: self.weight as int }
    }
}

/// How a pattern is held against a text.
#[derive(Clone, Copy, Debug, PartialEq, Eq, Structural)]
pub enum Matching {
    /// The pattern occurs somewhere in the text.
    Contains,
    /// The pattern is the whole text.
    Equals,
    /// The text begins with the pattern.
    StartsWith,
}

/// The table that a sequence of rules stands for.
pub open spec fn table_of(rules: Seq<Rule>) -> Seq<Weighted> {
    rules.map_values(|rule: Rule| rule@)
}

/// Whether `pattern` matches `text` under `how`.
pub open spec fn matches(how: Matching, text: Seq<char>, pattern: Seq<char>) -> bool {
    match how {
        Matching::Contains => contains(text, pattern),
        Matching::Equals => text == pattern,
        Matching::StartsWith => starts_with(text, pattern),
    }
}

/// First-match-wins: the weight of the first rule of `table`, in table order,
/// whose pattern matches `text`; `None` where no rule matches.
pub open spec fn first_match(how: Matching, text: Seq<char>, table: Seq<Weighted>) -> Option<int>
    decreases table.len(),
{
    if table.len() == 0 {
        None
    } else if matches(how, text, table[0].pattern) {
        Some(table[0].weight)
    } else {
        first_match(how, text, table.drop_first())
    }
}

/// Sum-all-matches: the sum of the weights of all rules of `table` whose
/// pattern matches `text`.
pub open spec fn sum_matches(how: Matching, text: Seq<char>, table: Seq<Weighted>) -> int
    decreases table.len(),
{
    if table.len() == 0 {
        0
    } else {
        sum_matches(how, text, table.drop_last()) + if matches(how, text, table.last().pattern) {
            table.last().weight
        } else {
            0
        }
    }
}

/// First match wins: where a rule matches and none before it does, its weight
/// is the result, whatever follows it in the table.
pub proof fn lemma_first_match_wins(how: Matching, text: Seq<char>, table: Seq<Weighted>, at: int)
    requires
        0 <= at < table.len(),
        matches(how, text, table[at].pattern),
        forall|i: int| 0 <= i < at ==> !matches(how, text, (#[trigger] table[i]).pattern),
    ensures
        first_match(how, text, table) == Some(table[at].weight),
    decreases at,
{
    if at > 0 {
        let rest = table.drop_first();
        assert(!matches(how, text, table[0].pattern));
        assert forall|i: int| 0 <= i < at - 1 implies !matches(
            how,
            text,
            (#[trigger] rest[i]).pattern,
        ) by {
            assert(rest[i] == table[i + 1]);
        }
        assert(rest[at - 1] == table[at]);
        lemma_first_match_wins(how, text, rest, at - 1);
    }
}

/// The first match is `None` exactly where no rule of the table matches.
pub proof fn lemma_first_match_none(how: Matching, text: Seq<char>, table: Seq<Weighted>)
    ensures
        first_match(how, text, table) is None <==> forall|i: int|
            0 <= i < table.len() ==> !matches(how, text, (#[trigger] table[i]).pattern),
    decreases table.len(),
{
    if table.len() > 0 {
        let rest = table.drop_first();
        lemma_first_match_none(how, text, rest);
        if first_match(how, text, table) is None {
            assert forall|i: int| 0 <= i < table.len() implies !matches(
                how,
                text,
                (#[trigger] table[i]).pattern,
            ) by {
                if i > 0 {
                    assert(rest[i - 1] == table[i]);
                }
            }
        } else if !matches(how, text, table[0].pattern) {
            let i = choose|i: int| 0 <= i < rest.len() && matches(how, text, (#[trigger] rest[i]).pattern);
            assert(rest[i] == table[i + 1]);
        }
    }
}

/// All matches add up: the sum over two tables put together is the sum of
/// their sums, so that every rule contributes by itself.
pub proof fn lemma_sum_matches_concat(
    how: Matching,
    text: Seq<char>,
    front: Seq<Weighted>,
    back: Seq<Weighted>,
)
    ensures
        sum_matches(how, text, front + back) == sum_matches(how, text, front) + sum_matches(
            how,
            text,
            back,
        ),
    decreases back.len(),
{
    if back.len() == 0 {
        assert(front + back =~= front);
    } else {
        assert((front + back).drop_last() =~= front + back.drop_last());
        assert((front + back).last() == back.last());
        lemma_sum_matches_concat(how, text, front, back.drop_last());
    }
}

/// Where every weight of `table` lies between `low` and `high`, so does the
/// weight of the first match.
pub proof fn lemma_first_match_bounds(
    how: Matching,
    text: Seq<char>,
    table: Seq<Weighted>,
    low: int,
    high: int,
)
    requires
        forall|i: int| 0 <= i < table.len() ==> low <= (#[trigger] table[i]).weight <= high,
    ensures
        first_match(how, text, table) matches Some(weight) ==> low <= weight <= high,
    decreases table.len(),
{
    if table.len() > 0 && !matches(how, text, table[0].pattern) {
        let rest = table.drop_first();
        assert forall|i: int| 0 <= i < rest.len() implies low <= (#[trigger] rest[i]).weight
            <= high by {
            assert(rest[i] == table[i + 1]);
        }
        lemma_first_match_bounds(how, text, rest, low, high);
    }
}

/// Whether `pattern` matches `text` under `how`.
pub fn pattern_matches(how: Matching, text: &[char], pattern: &str) -> (matched: bool)
    ensures
        matched == matches(how, text@, pattern@),
{
    let pattern = chars_of(pattern);
    match how {
        Matching::Contains => contains_pattern(text, pattern.as_slice()),
        Matching::Equals => same_text(text, pattern.as_slice()),
        Matching::StartsWith => has_prefix(text, pattern.as_slice()),
    }
}

/// Evaluates `rules` against `text`, first match wins.
pub fn first_matching(how: Matching, text: &[char], rules: &[Rule]) -> (weight: Option<i32>)
    ensures
        match weight {
            Some(w) => first_match(how, text@, table_of(rules@)) == Some(w as int),
            None => first_match(how, text@, table_of(rules@)) is None,
        },
{
    let ghost table = table_of(rules@);
    assert(table.skip(0) =~= table);
    let mut i: usize = 0;
    while i < rules.len()
        invariant
            i <= rules@.len(),
            table == table_of(rules@),
            first_match(how, text@, table) == first_match(how, text@, table.skip(i as int)),
        decreases rules@.len() - i,
    {
        let rule = &rules[i];
        assert(table.skip(i as int)[0] == rule@);
        assert(table.skip(i as int).drop_first() =~= table.skip(i + 1));
        if pattern_matches(how, text, rule.pattern) {
            return Some(rule.weight);
        }
        i += 1;
    }
    None
}

/// Evaluates `rules` against `text`, all matches add up.
pub fn sum_matching(how: Matching, text: &[char], rules: &[Rule]) -> (total: i128)
    ensures
        total == sum_matches(how, text@, table_of(rules@)),
{
    let ghost table = table_of(rules@);
    let count: usize = rules.len();
    let mut total: i128 = 0;
    let mut i: usize = 0;
    while i < count
        invariant
            i <= count == rules@.len(),
            table == table_of(rules@),
            total == sum_matches(how, text@, table.take(i as int)),
            -0x8000_0000 * i <= total <= 0x8000_0000 * i,
        decreases count - i,
    {
        let rule = &rules[i];
        assert(table.take(i + 1).last() == rule@);
        assert(table.take(i + 1).drop_last() =~= table.take(i as int));
        if pattern_matches(how, text, rule.pattern) {
            total += rule.weight as i128;
        }
        i += 1;
    }
    assert(table.take(rules@.len() as int) =~= table);
    total
}

} // verus!
