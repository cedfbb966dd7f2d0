//! The file detector: field checkers for the path and the operation of a file
//! event, and their aggregation.

use vstd::prelude::*;
use crate::rules::{
    first_match, first_matching, lemma_first_match_bounds, lemma_first_match_wins, table_of,
    Matching, Rule, Weighted,
};
use crate::level::{cap, capped};
use crate::text::{chars_of, contains, contains_pattern};

verus! {

/// The paths looked for in the path of a file, in the order in which they are
/// tried: account and privilege files, the home of root, key directories, and
/// then the directories for temporary files and shared memory. The first that
/// occurs decides, so that a key directory counts as one wherever it lies.
pub open spec fn file_path_table() -> Seq<Weighted> {
    seq![
        Weighted { pattern: "/etc/passwd"@, weight: 8 },
        Weighted { pattern: "/etc/shadow"@, weight: 8 },
        Weighted { pattern: "/etc/sudoers"@, weight: 9 },
        Weighted { pattern: "/root/"@, weight: 7 },
        Weighted { pattern: "/.ssh/"@, weight: 6 },
        Weighted { pattern: "/tmp/"@, weight: 4 },
        Weighted { pattern: "/var/tmp/"@, weight: 4 },
        Weighted { pattern: "/dev/shm/"@, weight: 4 },
        Weighted { pattern: "/home/*/.ssh/"@, weight: 4 },
    ]
}

/// The mark of a hidden file or directory in a path.
pub open spec fn hidden_segment() -> Seq<char> {
    "/."@
}

/// What a path with a hidden segment contributes.
pub const HIDDEN_PATH_WEIGHT: i32 = 2;

/// The contribution of a file path: the weight of the first pattern of
/// `file_path_table` that occurs in it; where none does, 2 for a path with a
/// hidden segment, else 0.
pub open spec fn file_path_weight(text: Seq<char>) -> int {
    match first_match(Matching::Contains, text, file_path_table()) {
        Some(weight) => weight,
        None => if contains(text, hidden_segment()) {
            HIDDEN_PATH_WEIGHT as int
        } else {
            0
        },
    }
}

/// The file operations that count. An operation counts only where it is the
/// whole text.
pub open spec fn file_operation_table() -> Seq<Weighted> {
    seq![
        Weighted { pattern: "write"@, weight: 3 },
        Weighted { pattern: "create"@, weight: 3 },
        Weighted { pattern: "delete"@, weight: 5 },
        Weighted { pattern: "unlink"@, weight: 5 },
        Weighted { pattern: "chmod"@, weight: 4 },
        Weighted { pattern: "chown"@, weight: 4 },
        Weighted { pattern: "rename"@, weight: 2 },
        Weighted { pattern: "move"@, weight: 2 },
    ]
}

/// The contribution of a file operation: the weight of the entry of
/// `file_operation_table` that it equals, 0 where it equals none.
pub open spec fn file_operation_weight(text: Seq<char>) -> int {
    match first_match(Matching::Equals, text, file_operation_table()) {
        Some(weight) => weight,
        None => 0,
    }
}

/// `file_path_table` as rules.
pub fn file_path_rules() -> (rules: Vec<Rule>)
    ensures
        table_of(rules@) == file_path_table(),
{
    let rules = vec![
        Rule { pattern: "/etc/passwd", weight: 8 },
        Rule { pattern: "/etc/shadow", weight: 8 },
        Rule { pattern: "/etc/sudoers", weight: 9 },
        Rule { pattern: "/root/", weight: 7 },
        Rule { pattern: "/.ssh/", weight: 6 },
        Rule { pattern: "/tmp/", weight: 4 },
        Rule { pattern: "/var/tmp/", weight: 4 },
        Rule { pattern: "/dev/shm/", weight: 4 },
        Rule { pattern: "/home/*/.ssh/", weight: 4 },
    ];
    assert(table_of(rules@) =~= file_path_table());
    rules
}

/// `file_operation_table` as rules.
pub fn file_operation_rules() -> (rules: Vec<Rule>)
    ensures
        table_of(rules@) == file_operation_table(),
{
    let rules = vec![
        Rule { pattern: "write", weight: 3 },
        Rule { pattern: "create", weight: 3 },
        Rule { pattern: "delete", weight: 5 },
        Rule { pattern: "unlink", weight: 5 },
        Rule { pattern: "chmod", weight: 4 },
        Rule { pattern: "chown", weight: 4 },
        Rule { pattern: "rename", weight: 2 },
        Rule { pattern: "move", weight: 2 },
    ];
    assert(table_of(rules@) =~= file_operation_table());
    rules
}

/// Scores the path of a file.
pub fn check_suspicious_file_path(path: &str) -> (weight: i32)
    ensures
        weight == file_path_weight(path@),
{
    let text = chars_of(path);
    let rules = file_path_rules();
    match first_matching(Matching::Contains, text.as_slice(), rules.as_slice()) {
        Some(weight) => weight,
        None => {
            let hidden = chars_of("/.");
            if contains_pattern(text.as_slice(), hidden.as_slice()) {
                HIDDEN_PATH_WEIGHT
            } else {
                0
            }
        },
    }
}

/// Scores a file operation.
pub fn check_suspicious_file_operation(operation: &str) -> (weight: i32)
    ensures
        weight == file_operation_weight(operation@),
{
    let text = chars_of(operation);
    let rules = file_operation_rules();
    match first_matching(Matching::Equals, text.as_slice(), rules.as_slice()) {
        Some(weight) => weight,
        None => 0,
    }
}

/// A file event: the fields of a file operation that the detector reads. A
/// field that the event does not carry is `None`.
#[derive(Clone, Copy, Debug, PartialEq, Eq)]
pub struct FileEvent<'a> {
    pub path: Option<&'a str>,
    pub operation: Option<&'a str>,
}

/// The mathematical content of a file event.
pub struct FileFacts {
    pub path: Option<Seq<char>>,
    pub operation: Option<Seq<char>>,
}

impl<'a> View for FileEvent<'a> {
    type V = FileFacts;

    open spec fn view(&self) -> FileFacts {
        FileFacts { path: self.path.deep_view(), operation: self.operation.deep_view() }
    }
}

/// The sum of the contributions of the fields of a file event. An absent
/// field contributes 0.
pub open spec fn file_raw_score(facts: FileFacts) -> int {
    (match facts.path {
        Some(text) => file_path_weight(text),
        None => 0,
    }) + (match facts.operation {
        Some(text) => file_operation_weight(text),
        None => 0,
    })
}

/// The threat level of a file event: its raw score, capped at 10.
pub open spec fn file_threat(facts: FileFacts) -> int {
    capped(file_raw_score(facts))
}

/// The contributions of the fields of a file event are never negative.
pub proof fn lemma_file_weights_bounded(text: Seq<char>)
    ensures
        0 <= file_path_weight(text) <= 9,
        0 <= file_operation_weight(text) <= 5,
{
    lemma_first_match_bounds(Matching::Contains, text, file_path_table(), 0, 9);
    lemma_first_match_bounds(Matching::Equals, text, file_operation_table(), 0, 5);
}

/// A path through a key directory scores 6 where none of the four patterns
/// that stand before `/.ssh/` in `file_path_table` occurs in it, also where the
/// key directory lies in a directory for temporary files.
pub proof fn lemma_key_directory_scores_six(text: Seq<char>)
    requires
        contains(text, "/.ssh/"@),
        forall|i: int| 0 <= i < 4 ==> !contains(text, (#[trigger] file_path_table()[i]).pattern),
    ensures
        file_path_weight(text) == 6,
{
    lemma_first_match_wins(Matching::Contains, text, file_path_table(), 4);
}

/// The threat level of a file event lies between 0 and 10.
pub proof fn lemma_file_threat_bounded(facts: FileFacts)
    ensures
        0 <= file_threat(facts) <= 10,
{
    if let Some(text) = facts.path {
        lemma_file_weights_bounded(text);
    }
    if let Some(text) = facts.operation {
        lemma_file_weights_bounded(text);
    }
}

/// Scores a file event.
pub fn detect_file_threat(event: &FileEvent) -> (level: i32)
    ensures
        level == file_threat(event@),
        0 <= level <= 10,
{
    proof {
        lemma_file_threat_bounded(event@);
    }
    let mut raw: i128 = 0;
    if let Some(path) = event.path {
        raw += check_suspicious_file_path(path) as i128;
    }
    if let Some(operation) = event.operation {
        raw += check_suspicious_file_operation(operation) as i128;
    }
    cap(raw)
}

} // verus!
