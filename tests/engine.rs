use rcz::matcher::{apply_colors, pick_color, process_line};
use rcz::rules::{parse_colors, parse_config, CgrcConf, ConfigError};

const RED: &str = "\u{1b}[31;49m";
const GREEN: &str = "\u{1b}[32;49m";
const YELLOW: &str = "\u{1b}[33;49m";
const CLEAR: &str = "\u{1b}[39;49m";

fn lines(text: &[&str]) -> Vec<String> {
    text.iter().map(|s| s.to_string()).collect()
}

fn load(text: &[&str]) -> CgrcConf {
    match parse_config(&lines(text)) {
        Ok(conf) => conf,
        Err(e) => panic!("config refused: {:?}", e),
    }
}

fn patterns(conf: &CgrcConf) -> Vec<String> {
    conf.items
        .iter()
        .map(|i| i.regex.as_ref().map(|p| p.as_str().to_string()).unwrap_or_default())
        .collect()
}

#[test]
fn stop_rule_colors_error_and_ends_search() {
    let conf = load(&["regexp=ERROR", "colours=red", "skip=yes", "-", "regexp=disk", "colours=green", "-"]);
    let out = process_line(&conf, "ERROR: disk full");
    assert_eq!(out, format!("{}ERROR{}: disk full", RED, CLEAR));
}

#[test]
fn two_rules_color_both_words() {
    let conf = load(&[
        "regexp=WARN",
        "colours=yellow",
        "skip=no",
        "-",
        "regexp=disk",
        "colours=red",
        "skip=no",
        "-",
    ]);
    let out = process_line(&conf, "WARN: disk full");
    assert_eq!(out, format!("{}WARN{}: {}disk{} full", YELLOW, CLEAR, RED, CLEAR));
}

#[test]
fn empty_config_is_refused() {
    assert!(matches!(parse_config(&lines(&[])), Err(ConfigError::EmptyRuleSet)));
    assert!(matches!(
        parse_config(&lines(&["# only a comment", "", "colours=red"])),
        Err(ConfigError::EmptyRuleSet)
    ));
}

#[test]
fn malformed_pattern_is_refused() {
    match parse_config(&lines(&["regexp=ok", "-", "  regexp=[  ", "colours=red"])) {
        Err(ConfigError::InvalidPattern { line, message }) => {
            assert_eq!(line, "regexp=[");
            assert!(!message.is_empty());
        }
        other => panic!("unexpected: {:?}", other.is_ok()),
    }
}

#[test]
fn rules_keep_declaration_order() {
    let conf = load(&["regexp=one", "regexp=two", "colours=red", "-", "# regexp=no", "regexp=three"]);
    assert_eq!(patterns(&conf), vec!["one", "two", "three"]);
    assert!(conf.description.is_none());
}

#[test]
fn trailing_rule_without_terminator_is_kept() {
    let conf = load(&["regexp=a", "colours=red", "skip=yes"]);
    assert_eq!(conf.items.len(), 1);
    assert_eq!(conf.items[0].skip, Some(true));
    assert_eq!(conf.items[0].colors.len(), 1);
}

#[test]
fn separator_alone_pushes_a_rule_without_pattern() {
    let conf = load(&["-"]);
    assert_eq!(conf.items.len(), 1);
    assert!(conf.items[0].regex.is_none());
}

#[test]
fn skip_is_true_only_for_yes() {
    let conf = load(&["regexp=a", "skip=Yes", "-", "regexp=b", "skip=yes", "-", "regexp=c", "-"]);
    assert_eq!(conf.items[0].skip, Some(false));
    assert_eq!(conf.items[1].skip, Some(true));
    assert_eq!(conf.items[2].skip, None);
}

#[test]
fn unmatched_line_is_unchanged() {
    let conf = load(&["regexp=ERROR", "colours=red", "-"]);
    assert_eq!(process_line(&conf, "all good here"), "all good here");
    assert_eq!(process_line(&conf, ""), "");
}

#[test]
fn rule_without_colors_leaves_line_unchanged() {
    let conf = load(&["regexp=ERROR", "-"]);
    assert_eq!(process_line(&conf, "ERROR x"), "ERROR x");
}

#[test]
fn later_rules_apply_when_skip_unset() {
    let conf = load(&["regexp=a", "colours=red", "-", "regexp=z", "colours=green", "-"]);
    assert_eq!(process_line(&conf, "a z"), format!("{}a{} {}z{}", RED, CLEAR, GREEN, CLEAR));
}

#[test]
fn stop_rule_that_does_not_match_does_not_stop() {
    let conf = load(&["regexp=q", "colours=red", "skip=yes", "-", "regexp=z", "colours=green", "-"]);
    assert_eq!(process_line(&conf, "a z"), format!("a {}z{}", GREEN, CLEAR));
}

#[test]
fn extra_groups_use_first_color() {
    let conf = load(&[r"regexp=(\d+)-(\d+)", "colours=red,green", "-"]);
    let out = process_line(&conf, "x 12-34 y");
    let expected = format!("x {}{}12{}-{}34{}{} y", RED, GREEN, CLEAR, RED, CLEAR, CLEAR);
    assert_eq!(out, expected);
}

#[test]
fn every_occurrence_is_replaced() {
    let conf = load(&["regexp=ab", "colours=red", "-"]);
    assert_eq!(process_line(&conf, "ab-ab"), format!("{r}ab{c}-{r}ab{c}", r = RED, c = CLEAR));
}

#[test]
fn apply_colors_skips_empty_and_missing_groups() {
    let colors = parse_colors("red,green");
    let groups = vec![Some("ab".to_string()), None, Some(String::new())];
    assert_eq!(apply_colors("ab ab", &groups, &colors), format!("{r}ab{c} {r}ab{c}", r = RED, c = CLEAR));
    assert_eq!(apply_colors("ab", &groups, &Vec::new()), "ab");
}

#[test]
fn pick_color_falls_back_to_first() {
    let colors = parse_colors("red,green");
    assert_eq!(pick_color(&colors, 1).escape_seq, GREEN);
    assert_eq!(pick_color(&colors, 5).escape_seq, RED);
}

#[test]
fn color_names_resolve_the_same_every_time() {
    let a = parse_colors("red");
    let b = parse_colors("red");
    assert_eq!(a[0].escape_seq, b[0].escape_seq);
    assert_eq!(a[0].clear_seq, b[0].clear_seq);
    assert_eq!(a[0].escape_seq, RED);
    assert_eq!(a[0].clear_seq, CLEAR);
}

#[test]
fn color_list_trims_and_defaults_unknown_names() {
    let colors = parse_colors(" bright_blue , nonsense,,Red");
    assert_eq!(colors.len(), 4);
    assert_eq!(colors[0].escape_seq, "\u{1b}[94;49m");
    assert_eq!(colors[1].escape_seq, "\u{1b}[39;49m");
    assert_eq!(colors[2].escape_seq, "\u{1b}[39;49m");
    assert_eq!(colors[3].escape_seq, "\u{1b}[39;49m");
    assert!(colors.iter().all(|c| c.attrs.is_empty()));
}

#[test]
fn rules_compare_by_pattern_text() {
    let a = load(&["regexp=x+", "colours=red", "-", "regexp=x+", "-", "regexp=y", "-"]);
    assert!(a.items[0] == a.items[1]);
    assert!(a.items[0] != a.items[2]);
    let b = load(&["-"]);
    assert!(b.items[0] != a.items[0]);
}
