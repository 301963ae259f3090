use rcz::supervisor::{next_action, ChildStatus, SupervisorAction};
use rcz::table::{commands_from_lines, config_file_for, generate_aliases_for_shell, parse_table_line, shell_kind};
use rcz::text::{contains, split_at_char, starts_with, text_eq};

fn lines(text: &[&str]) -> Vec<String> {
    text.iter().map(|s| s.to_string()).collect()
}

#[test]
fn table_commands_skip_comments_and_odd_lines() {
    let table = lines(&["# comment", "", "ls=conf.ls", "a=b=c", "  ping = conf.ping  ", "noequals"]);
    assert_eq!(commands_from_lines(&table), vec!["ls", "ping"]);
}

#[test]
fn table_line_is_trimmed() {
    assert_eq!(parse_table_line("  df = conf.df "), Some(("df".to_string(), "conf.df".to_string())));
    assert_eq!(parse_table_line("#df=conf.df"), None);
    assert_eq!(parse_table_line("x=y=z"), None);
}

#[test]
fn config_file_for_first_matching_entry() {
    let table = lines(&["^ls$=conf.ls", "ping=conf.ping", "p=conf.other"]);
    assert_eq!(config_file_for(&table, "ping").unwrap(), "conf.ping");
    assert_eq!(config_file_for(&table, "ls").unwrap(), "conf.ls");
    assert_eq!(config_file_for(&table, "lsblk").unwrap(), "");
}

#[test]
fn config_file_for_bad_pattern() {
    let table = lines(&["[=conf.bad", "ping=conf.ping"]);
    assert_eq!(config_file_for(&table, "ping"), Err("[".to_string()));
    let later = lines(&["ping=conf.ping", "[=conf.bad"]);
    assert_eq!(config_file_for(&later, "ping").unwrap(), "conf.ping");
}

#[test]
fn aliases_per_shell() {
    let cmds = lines(&["ls", "ping"]);
    assert_eq!(generate_aliases_for_shell(&cmds, "bash"), vec!["alias ls='rcz ls'", "alias ping='rcz ping'"]);
    assert_eq!(generate_aliases_for_shell(&cmds, "zsh"), vec!["alias ls='rcz ls'", "alias ping='rcz ping'"]);
    assert_eq!(generate_aliases_for_shell(&cmds, "fish"), vec!["alias ls 'rcz ls'", "alias ping 'rcz ping'"]);
    assert!(generate_aliases_for_shell(&[], "fish").is_empty());
}

#[test]
fn shell_kind_from_path() {
    assert_eq!(shell_kind(Some("/usr/bin/zsh")), "zsh");
    assert_eq!(shell_kind(Some("/usr/local/bin/fish")), "fish");
    assert_eq!(shell_kind(Some("/bin/bash")), "bash");
    assert_eq!(shell_kind(Some("")), "bash");
    assert_eq!(shell_kind(None), "bash");
}

#[test]
fn supervisor_decisions() {
    assert_eq!(next_action(true, ChildStatus::Exited(Some(3))), SupervisorAction::Kill);
    assert_eq!(next_action(false, ChildStatus::Exited(Some(3))), SupervisorAction::Finish(3));
    assert_eq!(next_action(false, ChildStatus::Exited(None)), SupervisorAction::Finish(1));
    assert_eq!(next_action(false, ChildStatus::Running), SupervisorAction::Sleep);
    assert_eq!(next_action(false, ChildStatus::WaitFailed), SupervisorAction::Finish(1));
}

#[test]
fn text_helpers() {
    assert_eq!(split_at_char("a,,b", ','), vec!["a", "", "b"]);
    assert_eq!(split_at_char("", ','), vec![""]);
    assert_eq!(split_at_char("x,", ','), vec!["x", ""]);
    assert!(starts_with("regexp=x", "regexp="));
    assert!(!starts_with("reg", "regexp="));
    assert!(text_eq("é", "é"));
    assert!(!text_eq("ab", "abc"));
    assert!(contains("abcabd", "abd"));
    assert!(contains("abc", ""));
    assert!(!contains("ab", "abc"));
}
