use suspicious_shell::level::{cap, saturate};
use suspicious_shell::rules::{first_matching, pattern_matches, sum_matching, Matching, Rule};
use suspicious_shell::text::{
    chars_of, contains_pattern, count_occurrences, has_prefix, occurs_here, only_decimal_digits,
    same_text,
};

#[test]
fn chars_of_gives_the_characters() {
    assert_eq!(chars_of("abc"), vec!['a', 'b', 'c']);
    assert_eq!(chars_of(""), Vec::<char>::new());
    assert_eq!(chars_of("\u{e9}t\u{e9}"), vec!['\u{e9}', 't', '\u{e9}']);
    assert_eq!(chars_of("\u{1f600}").len(), 1);
}

#[test]
fn occurs_here_looks_at_one_position() {
    let text = chars_of("abcabc");
    let pattern = chars_of("bc");
    assert!(!occurs_here(&text, &pattern, 0));
    assert!(occurs_here(&text, &pattern, 1));
    assert!(!occurs_here(&text, &pattern, 3));
    assert!(occurs_here(&text, &pattern, 4));
    assert!(occurs_here(&text, &[], 6));
}

#[test]
fn contains_pattern_finds_occurrences() {
    let text = chars_of("the quick brown fox");
    assert!(contains_pattern(&text, &chars_of("quick")));
    assert!(contains_pattern(&text, &chars_of("the")));
    assert!(contains_pattern(&text, &chars_of("fox")));
    assert!(contains_pattern(&text, &chars_of("the quick brown fox")));
    assert!(contains_pattern(&text, &chars_of("")));
    assert!(!contains_pattern(&text, &chars_of("quack")));
    assert!(!contains_pattern(&text, &chars_of("foxy")));
    assert!(!contains_pattern(&text, &chars_of("the quick brown fox ")));
    assert!(contains_pattern(&[], &[]));
    assert!(!contains_pattern(&[], &chars_of("a")));
    assert!(contains_pattern(&chars_of("aaab"), &chars_of("aab")));
}

#[test]
fn has_prefix_looks_at_the_start() {
    let text = chars_of("192.168.1.1");
    assert!(has_prefix(&text, &chars_of("192.168.")));
    assert!(has_prefix(&text, &chars_of("")));
    assert!(has_prefix(&text, &chars_of("192.168.1.1")));
    assert!(!has_prefix(&text, &chars_of("168.")));
    assert!(!has_prefix(&text, &chars_of("192.168.1.1.")));
}

#[test]
fn same_text_compares_whole_texts() {
    assert!(same_text(&chars_of("tcp"), &chars_of("tcp")));
    assert!(same_text(&[], &[]));
    assert!(!same_text(&chars_of("tcp"), &chars_of("tcp ")));
    assert!(!same_text(&chars_of("tcp"), &chars_of("udp")));
    assert!(!same_text(&chars_of("tcp"), &[]));
}

#[test]
fn count_occurrences_counts_disjoint_occurrences() {
    assert_eq!(count_occurrences(&chars_of("a;b;c"), &chars_of(";")), 2);
    assert_eq!(count_occurrences(&chars_of("&&&&"), &chars_of("&&")), 2);
    assert_eq!(count_occurrences(&chars_of("&&&"), &chars_of("&&")), 1);
    assert_eq!(count_occurrences(&chars_of("aaaaa"), &chars_of("aa")), 2);
    assert_eq!(count_occurrences(&chars_of("abab"), &chars_of("aba")), 1);
    assert_eq!(count_occurrences(&chars_of("abc"), &chars_of("abc")), 1);
    assert_eq!(count_occurrences(&chars_of("abc"), &chars_of("abcd")), 0);
    assert_eq!(count_occurrences(&chars_of("abc"), &chars_of("x")), 0);
    assert_eq!(count_occurrences(&chars_of("abc"), &[]), 0);
    assert_eq!(count_occurrences(&[], &chars_of("x")), 0);
}

#[test]
fn count_occurrences_agrees_with_std() {
    for text in ["", "a||b||c", "|||", "||||", "x;;y;", "&& && &", "a&&&b"] {
        for pattern in [";", "&&", "||"] {
            assert_eq!(
                count_occurrences(&chars_of(text), &chars_of(pattern)),
                text.matches(pattern).count()
            );
        }
    }
}

#[test]
fn only_decimal_digits_accepts_0_to_9() {
    assert!(only_decimal_digits(&chars_of("0123456789")));
    assert!(only_decimal_digits(&[]));
    assert!(!only_decimal_digits(&chars_of("12a")));
    assert!(!only_decimal_digits(&chars_of("/")));
    assert!(!only_decimal_digits(&chars_of(":")));
    assert!(!only_decimal_digits(&chars_of("\u{bd}")));
    assert!(!only_decimal_digits(&chars_of("\u{663}")));
}

#[test]
fn pattern_matches_under_each_matching() {
    let text = chars_of("/usr/bin/curl");
    assert!(pattern_matches(Matching::Contains, &text, "/bin/"));
    assert!(!pattern_matches(Matching::Contains, &text, "/sbin/"));
    assert!(pattern_matches(Matching::Equals, &text, "/usr/bin/curl"));
    assert!(!pattern_matches(Matching::Equals, &text, "/usr/bin/"));
    assert!(pattern_matches(Matching::StartsWith, &text, "/usr/"));
    assert!(!pattern_matches(Matching::StartsWith, &text, "/bin/"));
}

#[test]
fn first_matching_stops_at_the_first_rule_that_matches() {
    let rules = [
        Rule { pattern: "b", weight: 1 },
        Rule { pattern: "a", weight: 2 },
        Rule { pattern: "ab", weight: 3 },
    ];
    assert_eq!(first_matching(Matching::Contains, &chars_of("ab"), &rules), Some(1));
    assert_eq!(first_matching(Matching::Contains, &chars_of("a"), &rules), Some(2));
    assert_eq!(first_matching(Matching::Contains, &chars_of("c"), &rules), None);
    assert_eq!(first_matching(Matching::Equals, &chars_of("ab"), &rules), Some(3));
    assert_eq!(first_matching(Matching::StartsWith, &chars_of("ab"), &rules), Some(2));
    assert_eq!(first_matching(Matching::Contains, &chars_of("ab"), &[]), None);
}

#[test]
fn sum_matching_adds_every_rule_that_matches() {
    let rules = [
        Rule { pattern: "b", weight: 1 },
        Rule { pattern: "a", weight: 2 },
        Rule { pattern: "ab", weight: 3 },
        Rule { pattern: "ba", weight: -10 },
    ];
    assert_eq!(sum_matching(Matching::Contains, &chars_of("ab"), &rules), 6);
    assert_eq!(sum_matching(Matching::Contains, &chars_of("ba"), &rules), -7);
    assert_eq!(sum_matching(Matching::Contains, &chars_of("aba"), &rules), -4);
    assert_eq!(sum_matching(Matching::Contains, &chars_of("c"), &rules), 0);
    assert_eq!(sum_matching(Matching::Equals, &chars_of("ab"), &rules), 3);
    assert_eq!(sum_matching(Matching::Contains, &chars_of("ab"), &[]), 0);
    let extreme = [Rule { pattern: "", weight: i32::MAX }, Rule { pattern: "", weight: i32::MAX }];
    assert_eq!(sum_matching(Matching::Contains, &[], &extreme), 2 * (i32::MAX as i128));
}

#[test]
fn cap_holds_a_sum_to_at_most_ten() {
    assert_eq!(cap(17), 10);
    assert_eq!(cap(11), 10);
    assert_eq!(cap(10), 10);
    assert_eq!(cap(9), 9);
    assert_eq!(cap(0), 0);
    assert_eq!(cap(-2), -2);
    assert_eq!(cap(i32::MIN as i128), i32::MIN);
    assert_eq!(cap(i128::MAX), 10);
}

#[test]
fn saturate_holds_a_number_to_32_bits() {
    assert_eq!(saturate(0), 0);
    assert_eq!(saturate(-2), -2);
    assert_eq!(saturate(i32::MAX as i128), i32::MAX);
    assert_eq!(saturate(i32::MAX as i128 + 1), i32::MAX);
    assert_eq!(saturate(i128::MAX), i32::MAX);
    assert_eq!(saturate(i32::MIN as i128), i32::MIN);
    assert_eq!(saturate(i32::MIN as i128 - 1), i32::MIN);
}
