use clitheme::rules::{
    apply_replacements, compile_rules, default_locale, ReplacementConfig, ReplacementRule,
    RuleError,
};

fn config(pattern: &str, replacement: &str, locale: &str, commands: &[&str]) -> ReplacementConfig {
    ReplacementConfig {
        pattern: pattern.to_string(),
        replacement: replacement.to_string(),
        locale: locale.to_string(),
        commands: commands.iter().map(|c| c.to_string()).collect(),
    }
}

fn rule(pattern: &str, replacement: &str, locale: &str, commands: &[&str]) -> ReplacementRule {
    match ReplacementRule::from_config(&config(pattern, replacement, locale, commands)) {
        Ok(r) => r,
        Err(_) => panic!("pattern should compile: {}", pattern),
    }
}

#[test]
fn single_rule_replaces_every_match() {
    let rules = vec![rule("foo", "bar", "default", &[])];
    assert_eq!(apply_replacements("foo baz foo", "echo", &rules, "default"), "bar baz bar");
}

#[test]
fn empty_rule_set_is_identity() {
    let rules: Vec<ReplacementRule> = Vec::new();
    assert_eq!(apply_replacements("hello world", "echo", &rules, "default"), "hello world");
    assert_eq!(apply_replacements("", "echo", &rules, "default"), "");
}

#[test]
fn inapplicable_rules_are_identity() {
    let rules = vec![
        rule("hello", "bye", "ja", &[]),
        rule("world", "earth", "default", &["python3"]),
    ];
    assert_eq!(apply_replacements("hello world", "bash", &rules, "default"), "hello world");
}

#[test]
fn locale_isolation_both_ways() {
    let ja = vec![rule("error", "エラー", "ja", &[])];
    assert_eq!(apply_replacements("error here", "ls", &ja, "default"), "error here");
    assert_eq!(apply_replacements("error here", "ls", &ja, "ja"), "エラー here");
    let def = vec![rule("error", "oops", "default", &[])];
    assert_eq!(apply_replacements("error here", "ls", &def, "ja"), "error here");
    assert_eq!(apply_replacements("error here", "ls", &def, "default"), "oops here");
}

#[test]
fn command_filter_excludes_other_commands() {
    let rules = vec![rule("Traceback", "TB", "default", &["python3"])];
    assert_eq!(apply_replacements("Traceback x", "bash", &rules, "default"), "Traceback x");
}

#[test]
fn command_filter_ignores_case() {
    let rules = vec![rule("Traceback", "TB", "default", &["python3"])];
    assert_eq!(apply_replacements("Traceback x", "python3", &rules, "default"), "TB x");
    assert_eq!(apply_replacements("Traceback x", "Python3", &rules, "default"), "TB x");
    let upper = vec![rule("Traceback", "TB", "default", &["PYTHON3"])];
    assert_eq!(apply_replacements("Traceback x", "python3", &upper, "default"), "TB x");
}

#[test]
fn rules_chain_in_order() {
    let rules = vec![rule("a", "b", "default", &[]), rule("b", "c", "default", &[])];
    assert_eq!(apply_replacements("ab", "echo", &rules, "default"), "cc");
    let reversed = vec![rule("b", "c", "default", &[]), rule("a", "b", "default", &[])];
    assert_eq!(apply_replacements("ab", "echo", &reversed, "default"), "bc");
}

#[test]
fn disjoint_rules_commute() {
    let one = vec![rule("foo", "bar", "default", &[]), rule("baz", "qux", "default", &[])];
    let two = vec![rule("baz", "qux", "default", &[]), rule("foo", "bar", "default", &[])];
    let line = "foo baz foo baz";
    assert_eq!(apply_replacements(line, "echo", &one, "default"), "bar qux bar qux");
    assert_eq!(
        apply_replacements(line, "echo", &one, "default"),
        apply_replacements(line, "echo", &two, "default")
    );
}

#[test]
fn capture_groups_and_deletion() {
    let rules = vec![rule(r"(\w+)@(\w+)", "$2 at $1", "default", &[])];
    assert_eq!(apply_replacements("me@home", "echo", &rules, "default"), "home at me");
    let delete = vec![rule("secret ", "", "default", &[])];
    assert_eq!(apply_replacements("a secret b", "echo", &delete, "default"), "a b");
}

#[test]
fn empty_match_pattern_terminates() {
    let rules = vec![rule("x*", "-", "default", &[])];
    assert_eq!(apply_replacements("abc", "echo", &rules, "default"), "-a-b-c-");
}

#[test]
fn invalid_pattern_is_rejected() {
    match ReplacementRule::from_config(&config("(", "x", "default", &[])) {
        Err(RuleError::InvalidPattern(p)) => assert_eq!(p, "("),
        Ok(_) => panic!("an unbalanced group must not compile"),
    }
}

#[test]
fn from_config_lowercases_filters() {
    let r = rule("a", "b", "ja", &["Python3", "BASH"]);
    assert_eq!(r.commands, vec!["python3".to_string(), "bash".to_string()]);
    assert_eq!(r.pattern.as_str(), "a");
    assert_eq!(r.replacement, "b");
    assert_eq!(r.locale, "ja");
}

#[test]
fn compile_rules_skips_invalid_ones() {
    let configs = vec![
        config("foo", "bar", "default", &[]),
        config("[", "x", "default", &[]),
        config("baz", "qux", "default", &[]),
    ];
    let (rules, skipped) = compile_rules(&configs);
    assert_eq!(rules.len(), 2);
    assert_eq!(rules[0].pattern.as_str(), "foo");
    assert_eq!(rules[1].pattern.as_str(), "baz");
    assert_eq!(skipped, vec!["[".to_string()]);
    assert_eq!(apply_replacements("foo baz", "echo", &rules, "default"), "bar qux");
}

#[test]
fn default_locale_is_default() {
    assert_eq!(default_locale(), "default");
}
