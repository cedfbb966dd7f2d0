//! The process detector: field checkers for the executable path, the process
//! name, the command line and the user of a process event, and their
//! aggregation.

use vstd::prelude::*;
use crate::rules::{
    first_match, first_matching, lemma_first_match_bounds, lemma_first_match_wins, sum_matches,
    sum_matching, table_of, Matching, Rule, Weighted,
};
use crate::level::{cap, capped, saturate, saturated};
use crate::text::{
    all_decimal_digits, chars_of, contains, count_occurrences, lemma_absent_pattern_counts_zero,
    lemma_missing_char_excludes, lemma_occurrences_bounded, occurrences, occurs_at,
    only_decimal_digits, same_text,
};

verus! {

/// The paths looked for in the path of an executable, in the order in which
/// they are tried: shells, other interpreters and network tools, directories
/// for temporary files. The first that occurs decides.
pub open spec fn executable_table() -> Seq<Weighted> {
    seq![
        Weighted { pattern: "/bin/sh"@, weight: 6 },
        Weighted { pattern: "/bin/bash"@, weight: 6 },
        Weighted { pattern: "/bin/zsh"@, weight: 4 },
        Weighted { pattern: "/bin/dash"@, weight: 4 },
        Weighted { pattern: "/usr/bin/python"@, weight: 4 },
        Weighted { pattern: "/usr/bin/perl"@, weight: 4 },
        Weighted { pattern: "/usr/bin/ruby"@, weight: 4 },
        Weighted { pattern: "/usr/bin/nc"@, weight: 4 },
        Weighted { pattern: "/usr/bin/netcat"@, weight: 4 },
        Weighted { pattern: "/usr/bin/ncat"@, weight: 4 },
        Weighted { pattern: "/usr/bin/socat"@, weight: 4 },
        Weighted { pattern: "/usr/bin/wget"@, weight: 4 },
        Weighted { pattern: "/usr/bin/curl"@, weight: 4 },
        Weighted { pattern: "/tmp/"@, weight: 8 },
        Weighted { pattern: "/var/tmp/"@, weight: 8 },
    ]
}

/// The contribution of an executable path: the weight of the first pattern of
/// `executable_table` that occurs in it, 0 where none does.
pub open spec fn executable_weight(text: Seq<char>) -> int {
    match first_match(Matching::Contains, text, executable_table()) {
        Some(weight) => weight,
        None => 0,
    }
}

/// The process names that count: shells, the netcat family, and other
/// interpreters and transfer tools. A name counts only where it is the whole
/// text.
pub open spec fn process_name_table() -> Seq<Weighted> {
    seq![
        Weighted { pattern: "sh"@, weight: 5 },
        Weighted { pattern: "bash"@, weight: 5 },
        Weighted { pattern: "zsh"@, weight: 5 },
        Weighted { pattern: "dash"@, weight: 3 },
        Weighted { pattern: "python"@, weight: 3 },
        Weighted { pattern: "perl"@, weight: 3 },
        Weighted { pattern: "ruby"@, weight: 3 },
        Weighted { pattern: "php"@, weight: 3 },
        Weighted { pattern: "nc"@, weight: 7 },
        Weighted { pattern: "netcat"@, weight: 7 },
        Weighted { pattern: "ncat"@, weight: 7 },
        Weighted { pattern: "socat"@, weight: 7 },
        Weighted { pattern: "wget"@, weight: 3 },
        Weighted { pattern: "curl"@, weight: 3 },
        Weighted { pattern: "ftp"@, weight: 3 },
        Weighted { pattern: "tftp"@, weight: 3 },
        Weighted { pattern: "ssh"@, weight: 3 },
        Weighted { pattern: "scp"@, weight: 3 },
        Weighted { pattern: "rsync"@, weight: 3 },
    ]
}

/// The contribution of a process name: the weight of the entry of
/// `process_name_table` that it equals, 0 where it equals none.
pub open spec fn process_name_weight(text: Seq<char>) -> int {
    match first_match(Matching::Equals, text, process_name_table()) {
        Some(weight) => weight,
        None => 0,
    }
}

/// The user names that count.
pub open spec fn user_table() -> Seq<Weighted> {
    seq![
        Weighted { pattern: "root"@, weight: 3 },
        Weighted { pattern: "nobody"@, weight: 2 },
        Weighted { pattern: "www-data"@, weight: 2 },
    ]
}

/// What a user contributes whose name is made of decimal digits only.
pub const NUMERIC_USER_WEIGHT: i32 = 4;

/// The contribution of a user: the weight of the entry of `user_table` that
/// it equals; for any other user 4 where every character is a decimal digit
/// (the empty name among them), else 0.
pub open spec fn user_weight(text: Seq<char>) -> int {
    match first_match(Matching::Equals, text, user_table()) {
        Some(weight) => weight,
        None => if all_decimal_digits(text) {
            NUMERIC_USER_WEIGHT as int
        } else {
            0
        },
    }
}

/// The action that counts against a process event.
pub open spec fn suspicious_action() -> Seq<char> {
    "suspicious_activity"@
}

/// What the suspicious action contributes.
pub const SUSPICIOUS_ACTION_WEIGHT: i32 = 3;

/// The contribution of the action of a process event.
pub open spec fn action_weight(text: Seq<char>) -> int {
    if text == suspicious_action() {
        SUSPICIOUS_ACTION_WEIGHT as int
    } else {
        0
    }
}

/// The patterns looked for in a command line, each with its weight. Every
/// pattern that occurs contributes.
pub open spec fn command_line_table() -> Seq<Weighted> {
    seq![
        Weighted { pattern: "-c"@, weight: 4 },
        Weighted { pattern: "--help"@, weight: -2 },
        Weighted { pattern: "rm -rf"@, weight: 8 },
        Weighted { pattern: "chmod +x"@, weight: 6 },
        Weighted { pattern: "wget http"@, weight: 5 },
        Weighted { pattern: "curl http"@, weight: 5 },
        Weighted { pattern: "/dev/tcp/"@, weight: 7 },
        Weighted { pattern: "base64"@, weight: 4 },
        Weighted { pattern: "eval"@, weight: 6 },
        Weighted { pattern: "exec"@, weight: 5 },
        Weighted { pattern: "nohup"@, weight: 4 },
        Weighted { pattern: "&"@, weight: 3 },
        Weighted { pattern: "|"@, weight: 2 },
        Weighted { pattern: ">>"@, weight: 3 },
    ]
}

/// A command line longer than this many characters counts as long.
pub const LONG_COMMAND_LINE: usize = 200;

/// What a long command line contributes.
pub const LONG_COMMAND_LINE_WEIGHT: i32 = 3;

/// The contribution of a command line: the weights of all patterns of
/// `command_line_table` that occur in it, 3 more if it is longer than 200
/// characters, and 1 for each disjoint occurrence of `;`, of `&&` and of `||`.
pub open spec fn command_line_weight(text: Seq<char>) -> int {
    sum_matches(Matching::Contains, text, command_line_table())
        + (if text.len() > LONG_COMMAND_LINE { LONG_COMMAND_LINE_WEIGHT as int } else { 0 })
        + occurrences(text, ";"@)
        + occurrences(text, "&&"@)
        + occurrences(text, "||"@)
}

/// `command_line_table` as rules.
pub fn command_line_rules() -> (rules: Vec<Rule>)
    ensures
        table_of(rules@) == command_line_table(),
{
    let rules = vec![
        Rule { pattern: "-c", weight: 4 },
        Rule { pattern: "--help", weight: -2 },
        Rule { pattern: "rm -rf", weight: 8 },
        Rule { pattern: "chmod +x", weight: 6 },
        Rule { pattern: "wget http", weight: 5 },
        Rule { pattern: "curl http", weight: 5 },
        Rule { pattern: "/dev/tcp/", weight: 7 },
        Rule { pattern: "base64", weight: 4 },
        Rule { pattern: "eval", weight: 6 },
        Rule { pattern: "exec", weight: 5 },
        Rule { pattern: "nohup", weight: 4 },
        Rule { pattern: "&", weight: 3 },
        Rule { pattern: "|", weight: 2 },
        Rule { pattern: ">>", weight: 3 },
    ];
    assert(table_of(rules@) =~= command_line_table());
    rules
}

/// `executable_table` as rules.
pub fn executable_rules() -> (rules: Vec<Rule>)
    ensures
        table_of(rules@) == executable_table(),
{
    let rules = vec![
        Rule { pattern: "/bin/sh", weight: 6 },
        Rule { pattern: "/bin/bash", weight: 6 },
        Rule { pattern: "/bin/zsh", weight: 4 },
        Rule { pattern: "/bin/dash", weight: 4 },
        Rule { pattern: "/usr/bin/python", weight: 4 },
        Rule { pattern: "/usr/bin/perl", weight: 4 },
        Rule { pattern: "/usr/bin/ruby", weight: 4 },
        Rule { pattern: "/usr/bin/nc", weight: 4 },
        Rule { pattern: "/usr/bin/netcat", weight: 4 },
        Rule { pattern: "/usr/bin/ncat", weight: 4 },
        Rule { pattern: "/usr/bin/socat", weight: 4 },
        Rule { pattern: "/usr/bin/wget", weight: 4 },
        Rule { pattern: "/usr/bin/curl", weight: 4 },
        Rule { pattern: "/tmp/", weight: 8 },
        Rule { pattern: "/var/tmp/", weight: 8 },
    ];
    assert(table_of(rules@) =~= executable_table());
    rules
}

/// `process_name_table` as rules.
pub fn process_name_rules() -> (rules: Vec<Rule>)
    ensures
        table_of(rules@) == process_name_table(),
{
    let rules = vec![
        Rule { pattern: "sh", weight: 5 },
        Rule { pattern: "bash", weight: 5 },
        Rule { pattern: "zsh", weight: 5 },
        Rule { pattern: "dash", weight: 3 },
        Rule { pattern: "python", weight: 3 },
        Rule { pattern: "perl", weight: 3 },
        Rule { pattern: "ruby", weight: 3 },
        Rule { pattern: "php", weight: 3 },
        Rule { pattern: "nc", weight: 7 },
        Rule { pattern: "netcat", weight: 7 },
        Rule { pattern: "ncat", weight: 7 },
        Rule { pattern: "socat", weight: 7 },
        Rule { pattern: "wget", weight: 3 },
        Rule { pattern: "curl", weight: 3 },
        Rule { pattern: "ftp", weight: 3 },
        Rule { pattern: "tftp", weight: 3 },
        Rule { pattern: "ssh", weight: 3 },
        Rule { pattern: "scp", weight: 3 },
        Rule { pattern: "rsync", weight: 3 },
    ];
    assert(table_of(rules@) =~= process_name_table());
    rules
}

/// `user_table` as rules.
pub fn user_rules() -> (rules: Vec<Rule>)
    ensures
        table_of(rules@) == user_table(),
{
    let rules = vec![
        Rule { pattern: "root", weight: 3 },
        Rule { pattern: "nobody", weight: 2 },
        Rule { pattern: "www-data", weight: 2 },
    ];
    assert(table_of(rules@) =~= user_table());
    rules
}

/// Scores the path of an executable.
pub fn check_suspicious_executable(executable: &str) -> (weight: i32)
    ensures
        weight == executable_weight(executable@),
{
    let text = chars_of(executable);
    let rules = executable_rules();
    match first_matching(Matching::Contains, text.as_slice(), rules.as_slice()) {
        Some(weight) => weight,
        None => 0,
    }
}

/// Scores a process name.
pub fn check_suspicious_process_name(name: &str) -> (weight: i32)
    ensures
        weight == process_name_weight(name@),
{
    let text = chars_of(name);
    let rules = process_name_rules();
    match first_matching(Matching::Equals, text.as_slice(), rules.as_slice()) {
        Some(weight) => weight,
        None => 0,
    }
}

/// Scores the user that runs a process.
pub fn check_suspicious_user(user: &str) -> (weight: i32)
    ensures
        weight == user_weight(user@),
{
    let text = chars_of(user);
    let rules = user_rules();
    match first_matching(Matching::Equals, text.as_slice(), rules.as_slice()) {
        Some(weight) => weight,
        None => if only_decimal_digits(text.as_slice()) {
            NUMERIC_USER_WEIGHT
        } else {
            0
        },
    }
}

/// Scores the action of a process event.
pub fn check_suspicious_action(action: &str) -> (weight: i32)
    ensures
        weight == action_weight(action@),
{
    let text = chars_of(action);
    let suspicious = chars_of("suspicious_activity");
    if same_text(text.as_slice(), suspicious.as_slice()) {
        SUSPICIOUS_ACTION_WEIGHT
    } else {
        0
    }
}

/// Scores a command line: `command_line_weight`, held to the range of `i32`.
/// Only a command line of more than two thousand million separators reaches
/// that limit; for every command line of up to 700 million characters the
/// result is `command_line_weight` itself.
pub fn check_suspicious_cmdline(cmdline: &str) -> (weight: i32)
    ensures
        weight == saturated(command_line_weight(cmdline@)),
        cmdline@.len() <= 700_000_000 ==> weight == command_line_weight(cmdline@),
{
    let text = chars_of(cmdline);
    let rules = command_line_rules();
    proof {
        lemma_process_weights_bounded(text@);
    }
    let mut total: i128 = sum_matching(Matching::Contains, text.as_slice(), rules.as_slice());
    if text.len() > LONG_COMMAND_LINE {
        total += LONG_COMMAND_LINE_WEIGHT as i128;
    }
    let semicolon = chars_of(";");
    let both = chars_of("&&");
    let either = chars_of("||");
    total += count_occurrences(text.as_slice(), semicolon.as_slice()) as i128;
    total += count_occurrences(text.as_slice(), both.as_slice()) as i128;
    total += count_occurrences(text.as_slice(), either.as_slice()) as i128;
    saturate(total)
}

/// A process event: the fields of a process launch that the detector reads.
/// A field that the event does not carry is `None`.
#[derive(Clone, Copy, Debug, PartialEq, Eq)]
pub struct ProcessEvent<'a> {
    pub executable: Option<&'a str>,
    pub name: Option<&'a str>,
    pub command_line: Option<&'a str>,
    pub user: Option<&'a str>,
    pub action: Option<&'a str>,
}

/// The mathematical content of a process event.
pub struct ProcessFacts {
    pub executable: Option<Seq<char>>,
    pub name: Option<Seq<char>>,
    pub command_line: Option<Seq<char>>,
    pub user: Option<Seq<char>>,
    pub action: Option<Seq<char>>,
}

impl<'a> View for ProcessEvent<'a> {
    type V = ProcessFacts;

    open spec fn view(&self) -> ProcessFacts {
        ProcessFacts {
            executable: self.executable.deep_view(),
            name: self.name.deep_view(),
            command_line: self.command_line.deep_view(),
            user: self.user.deep_view(),
            action: self.action.deep_view(),
        }
    }
}

/// The sum of the contributions of the fields of a process event. An absent
/// field contributes 0.
pub open spec fn process_raw_score(facts: ProcessFacts) -> int {
    (match facts.executable {
        Some(text) => executable_weight(text),
        None => 0,
    }) + (match facts.name {
        Some(text) => process_name_weight(text),
        None => 0,
    }) + (match facts.command_line {
        Some(text) => command_line_weight(text),
        None => 0,
    }) + (match facts.user {
        Some(text) => user_weight(text),
        None => 0,
    }) + (match facts.action {
        Some(text) => action_weight(text),
        None => 0,
    })
}

/// The threat level of a process event: its raw score, capped at 10. It is
/// negative where negative weights outweigh the others.
pub open spec fn process_threat(facts: ProcessFacts) -> int {
    capped(process_raw_score(facts))
}

/// The contributions of the fields of a process event lie in fixed ranges;
/// only the command line can contribute less than nothing.
pub proof fn lemma_process_weights_bounded(text: Seq<char>)
    ensures
        0 <= executable_weight(text) <= 8,
        0 <= process_name_weight(text) <= 7,
        -2 <= command_line_weight(text) <= 65 + 3 * text.len(),
        0 <= user_weight(text) <= 4,
        0 <= action_weight(text) <= 3,
{
    lemma_first_match_bounds(Matching::Contains, text, executable_table(), 0, 8);
    lemma_first_match_bounds(Matching::Equals, text, process_name_table(), 0, 7);
    lemma_first_match_bounds(Matching::Equals, text, user_table(), 0, 4);
    assert(-2 <= sum_matches(Matching::Contains, text, command_line_table()) <= 62) by {
        reveal_with_fuel(sum_matches, 15);
    }
    lemma_occurrences_bounded(text, ";"@, 0);
    lemma_occurrences_bounded(text, "&&"@, 0);
    lemma_occurrences_bounded(text, "||"@, 0);
}

/// The threat level of a process event is at most 10. It can be negative, but
/// not below -2: only one pattern of the command line has a negative weight.
pub proof fn lemma_process_threat_bounded(facts: ProcessFacts)
    ensures
        -2 <= process_threat(facts) <= 10,
{
    if let Some(text) = facts.executable {
        lemma_process_weights_bounded(text);
    }
    if let Some(text) = facts.name {
        lemma_process_weights_bounded(text);
    }
    if let Some(text) = facts.command_line {
        lemma_process_weights_bounded(text);
    }
    if let Some(text) = facts.user {
        lemma_process_weights_bounded(text);
    }
    if let Some(text) = facts.action {
        lemma_process_weights_bounded(text);
    }
}

/// Scores a process event.
pub fn detect_process_threat(event: &ProcessEvent) -> (level: i32)
    ensures
        level == process_threat(event@),
        -2 <= level <= 10,
{
    proof {
        lemma_process_threat_bounded(event@);
        lemma_process_weights_bounded(event@.executable.unwrap_or(Seq::empty()));
        lemma_process_weights_bounded(event@.name.unwrap_or(Seq::empty()));
        lemma_process_weights_bounded(event@.command_line.unwrap_or(Seq::empty()));
        lemma_process_weights_bounded(event@.user.unwrap_or(Seq::empty()));
        lemma_process_weights_bounded(event@.action.unwrap_or(Seq::empty()));
    }
    let mut raw: i128 = 0;
    if let Some(executable) = event.executable {
        raw += check_suspicious_executable(executable) as i128;
    }
    if let Some(name) = event.name {
        raw += check_suspicious_process_name(name) as i128;
    }
    if let Some(command_line) = event.command_line {
        raw += check_suspicious_cmdline(command_line) as i128;
    }
    if let Some(user) = event.user {
        raw += check_suspicious_user(user) as i128;
    }
    if let Some(action) = event.action {
        raw += check_suspicious_action(action) as i128;
    }
    cap(raw)
}

/// A process event that carries nothing but its executable.
pub open spec fn only_executable(text: Seq<char>) -> ProcessFacts {
    ProcessFacts {
        executable: Some(text),
        name: None,
        command_line: None,
        user: None,
        action: None,
    }
}

/// An executable in `/tmp/` scores 8 where none of the patterns that stand
/// before `/tmp/` in `executable_table` occurs in its path: the first match
/// decides, whatever else the path holds.
pub proof fn lemma_executable_in_tmp_scores_eight(text: Seq<char>)
    requires
        contains(text, "/tmp/"@),
        forall|i: int| 0 <= i < 13 ==> !contains(text, (#[trigger] executable_table()[i]).pattern),
    ensures
        executable_weight(text) == 8,
        process_threat(only_executable(text)) == 8,
{
    lemma_first_match_wins(Matching::Contains, text, executable_table(), 13);
}

/// A process event that carries nothing but its command line.
pub open spec fn only_command_line(text: Seq<char>) -> ProcessFacts {
    ProcessFacts {
        executable: None,
        name: None,
        command_line: Some(text),
        user: None,
        action: None,
    }
}

/// A pattern that holds a character which `--help` lacks does not occur in
/// `--help`.
proof fn lemma_help_lacks(pattern: Seq<char>, k: int, c: char)
    requires
        0 <= k < pattern.len(),
        pattern[k] == c,
        c != '-' && c != 'h' && c != 'e' && c != 'l' && c != 'p',
    ensures
        !contains("--help"@, pattern),
        occurrences("--help"@, pattern) == 0,
{
    reveal_strlit("--help");
    lemma_missing_char_excludes("--help"@, pattern, k);
    lemma_absent_pattern_counts_zero("--help"@, pattern, 0);
}

/// Of the patterns of `command_line_table`, only `--help` occurs in the
/// command line `--help`.
proof fn lemma_help_matches_itself_only()
    ensures
        forall|i: int|
            0 <= i < 14 ==> (contains("--help"@, (#[trigger] command_line_table()[i]).pattern) <==> i
                == 1),
{
    let text = "--help"@;
    assert(contains(text, "--help"@)) by {
        reveal_strlit("--help");
        assert(text.subrange(0, 6) =~= text);
        assert(occurs_at(text, text, 0));
    }
    assert(!contains(text, "-c"@)) by {
        reveal_strlit("-c");
        lemma_help_lacks("-c"@, 1, 'c');
    }
    assert(!contains(text, "rm -rf"@)) by {
        reveal_strlit("rm -rf");
        lemma_help_lacks("rm -rf"@, 0, 'r');
    }
    assert(!contains(text, "chmod +x"@)) by {
        reveal_strlit("chmod +x");
        lemma_help_lacks("chmod +x"@, 0, 'c');
    }
    assert(!contains(text, "wget http"@)) by {
        reveal_strlit("wget http");
        lemma_help_lacks("wget http"@, 0, 'w');
    }
    assert(!contains(text, "curl http"@)) by {
        reveal_strlit("curl http");
        lemma_help_lacks("curl http"@, 0, 'c');
    }
    assert(!contains(text, "/dev/tcp/"@)) by {
        reveal_strlit("/dev/tcp/");
        lemma_help_lacks("/dev/tcp/"@, 0, '/');
    }
    assert(!contains(text, "base64"@)) by {
        reveal_strlit("base64");
        lemma_help_lacks("base64"@, 0, 'b');
    }
    assert(!contains(text, "eval"@)) by {
        reveal_strlit("eval");
        lemma_help_lacks("eval"@, 1, 'v');
    }
    assert(!contains(text, "exec"@)) by {
        reveal_strlit("exec");
        lemma_help_lacks("exec"@, 1, 'x');
    }
    assert(!contains(text, "nohup"@)) by {
        reveal_strlit("nohup");
        lemma_help_lacks("nohup"@, 0, 'n');
    }
    assert(!contains(text, "&"@)) by {
        reveal_strlit("&");
        lemma_help_lacks("&"@, 0, '&');
    }
    assert(!contains(text, "|"@)) by {
        reveal_strlit("|");
        lemma_help_lacks("|"@, 0, '|');
    }
    assert(!contains(text, ">>"@)) by {
        reveal_strlit(">>");
        lemma_help_lacks(">>"@, 0, '>');
    }
}

/// The command line `--help` contributes -2, and a process event that carries
/// nothing else has that threat level: the lower bound of
/// `lemma_process_threat_bounded` is reached.
pub proof fn lemma_help_scores_minus_two()
    ensures
        command_line_weight("--help"@) == -2,
        process_threat(only_command_line("--help"@)) == -2,
{
    let text = "--help"@;
    assert(sum_matches(Matching::Contains, text, command_line_table()) == -2) by {
        lemma_help_matches_itself_only();
        reveal_with_fuel(sum_matches, 15);
    }
    assert(text.len() == 6) by {
        reveal_strlit("--help");
    }
    assert(occurrences(text, ";"@) == 0) by {
        reveal_strlit(";");
        lemma_help_lacks(";"@, 0, ';');
    }
    assert(occurrences(text, "&&"@) == 0) by {
        reveal_strlit("&&");
        lemma_help_lacks("&&"@, 0, '&');
    }
    assert(occurrences(text, "||"@) == 0) by {
        reveal_strlit("||");
        lemma_help_lacks("||"@, 0, '|');
    }
}

/// The threat level of a process event can be negative.
pub proof fn lemma_process_threat_can_be_negative()
    ensures
        exists|facts: ProcessFacts| process_threat(facts) < 0,
{
    lemma_help_scores_minus_two();
    assert(process_threat(only_command_line("--help"@)) < 0);
}

/// A process event that carries none of its fields has threat level 0.
pub proof fn lemma_bare_process_event_scores_zero(facts: ProcessFacts)
    requires
        facts.executable is None,
        facts.name is None,
        facts.command_line is None,
        facts.user is None,
        facts.action is None,
    ensures
        process_threat(facts) == 0,
{
}

} // verus!
