use fmrl::error_rule::{
    apply_error_rules, contains_only_digits, error_code_from_text, remove_no_match_rules,
    ErrorRule, ErrorRuleAction,
};
use fmrl::log_line::ImportLogLine;

#[test]
fn error_rule_get_action_works() {
    let rule = ErrorRule {
        error_code: Some("123".to_string()),
        message_contains: vec!["abc".to_string()],
        action: ErrorRuleAction::Quiet,
        location_contains: None,
        ..ErrorRule::default()
    };

    let line = ImportLogLine {
        code: "123".to_string(),
        message: "HELLO_abc_WORLD".to_string(),
        ..ImportLogLine::default()
    };
    assert_eq!(rule.get_action(&line), Some(ErrorRuleAction::Quiet));

    let line = ImportLogLine {
        code: "123".to_string(),
        message: "does not match".to_string(),
        ..ImportLogLine::default()
    };
    assert_eq!(rule.get_action(&line), None);
}

#[test]
fn get_action_message_contains_works() {
    // one element
    let rule = ErrorRule {
        message_contains: vec!["abc".to_string()],
        ..ErrorRule::default()
    };
    let line = ImportLogLine {
        message: "HELLO_abc_WORLD".to_string(),
        ..ImportLogLine::default()
    };
    assert_eq!(rule.get_action(&line), Some(ErrorRuleAction::default()));

    let line = ImportLogLine {
        message: "HELLO_def_WORLD".to_string(),
        ..ImportLogLine::default()
    };
    assert_eq!(rule.get_action(&line), None);

    // two elements. line.message must contain both elements to match
    let rule = ErrorRule {
        action: ErrorRuleAction::Quiet,
        message_contains: vec!["abc".to_string(), "def".to_string()],
        ..ErrorRule::default()
    };
    let mut line = ImportLogLine {
        message: "HELLO_abc_WORLD".to_string(),
        ..ImportLogLine::default()
    };
    assert_eq!(rule.get_action(&line), None);
    line.message = "HELLO_def_WORLD".to_string();
    assert_eq!(rule.get_action(&line), None);
    line.message = "HELLO_abc_def_WORLD".to_string();
    assert_eq!(rule.get_action(&line), Some(ErrorRuleAction::default()));
}

#[test]
fn error_rule_get_action_matches_any_error_if_error_code_is_none() {
    let rule = ErrorRule {
        error_code: None,
        message_contains: vec!["abc".to_string()],
        action: ErrorRuleAction::Quiet,
        ..ErrorRule::default()
    };

    let line = ImportLogLine {
        code: "123".to_string(),
        message: "HELLO_abc_WORLD".to_string(),
        ..ImportLogLine::default()
    };
    assert_eq!(rule.get_action(&line), Some(ErrorRuleAction::Quiet));

    let line = ImportLogLine {
        code: "456".to_string(),
        message: "HELLO_abc_WORLD".to_string(),
        ..ImportLogLine::default()
    };
    assert_eq!(rule.get_action(&line), Some(ErrorRuleAction::Quiet));
}

#[test]
fn error_rule_get_action_returns_none_for_non_error_lines() {
    let rule = ErrorRule {
        error_code: Some("123".to_string()),
        message_contains: vec!["abc".to_string()],
        action: ErrorRuleAction::Quiet,
        ..ErrorRule::default()
    };
    let line = ImportLogLine {
        code: "0".to_string(),
        message: "HELLO_abc_WORLD".to_string(),
        ..ImportLogLine::default()
    };
    assert_eq!(rule.get_action(&line), None);
}

#[test]
fn error_rule_apply_error_rules_works() {
    let rules = vec![
        ErrorRule {
            error_code: Some("123".to_string()),
            message_contains: vec!["abc".to_string()],
            action: ErrorRuleAction::Quiet,
            ..ErrorRule::default()
        },
        ErrorRule {
            error_code: Some("456".to_string()),
            message_contains: vec!["def".to_string()],
            action: ErrorRuleAction::Ignore,
            ..ErrorRule::default()
        },
    ];

    let line = ImportLogLine {
        code: "123".to_string(),
        message: "HELLO_abc_WORLD".to_string(),
        ..ImportLogLine::default()
    };
    let res = apply_error_rules(&rules, &line);
    assert_eq!(res, Some(ErrorRuleAction::Quiet));

    let line = ImportLogLine {
        code: "456".to_string(),
        message: "HELLO_def_WORLD".to_string(),
        ..ImportLogLine::default()
    };
    let res = apply_error_rules(&rules, &line);
    assert_eq!(res, Some(ErrorRuleAction::Ignore));
}

#[test]
fn no_match_logic_works() {
    let rule = ErrorRule::default();
    assert!(rule.no_match_logic());

    let rule = ErrorRule {
        error_code: Some("123".to_string()),
        ..ErrorRule::default()
    };
    assert!(!rule.no_match_logic());
}

// Rules that require a single message fragment.

#[test]
fn config_error_rule_get_action_works() {
    let rule = ErrorRule {
        error_code: Some("123".to_string()),
        message_contains: vec!["abc".to_string()],
        action: ErrorRuleAction::Quiet,
        location_contains: None,
        ..ErrorRule::default()
    };

    let line = ImportLogLine {
        code: "123".to_string(),
        message: "HELLO_abc_WORLD".to_string(),
        ..ImportLogLine::default()
    };
    assert_eq!(rule.get_action(&line), Some(ErrorRuleAction::Quiet));

    let line = ImportLogLine {
        code: "123".to_string(),
        message: "does not match".to_string(),
        ..ImportLogLine::default()
    };
    assert_eq!(rule.get_action(&line), None);
}

#[test]
fn config_error_rule_get_action_matches_any_error_if_error_code_is_none() {
    let rule = ErrorRule {
        error_code: None,
        message_contains: vec!["abc".to_string()],
        action: ErrorRuleAction::Quiet,
        ..ErrorRule::default()
    };

    let line = ImportLogLine {
        code: "123".to_string(),
        message: "HELLO_abc_WORLD".to_string(),
        ..ImportLogLine::default()
    };
    assert_eq!(rule.get_action(&line), Some(ErrorRuleAction::Quiet));

    let line = ImportLogLine {
        code: "456".to_string(),
        message: "HELLO_abc_WORLD".to_string(),
        ..ImportLogLine::default()
    };
    assert_eq!(rule.get_action(&line), Some(ErrorRuleAction::Quiet));
}

#[test]
fn config_error_rule_get_action_returns_none_for_non_error_lines() {
    let rule = ErrorRule {
        error_code: Some("123".to_string()),
        message_contains: vec!["abc".to_string()],
        action: ErrorRuleAction::Quiet,
        ..ErrorRule::default()
    };
    let line = ImportLogLine {
        code: "0".to_string(),
        message: "HELLO_abc_WORLD".to_string(),
        ..ImportLogLine::default()
    };
    assert_eq!(rule.get_action(&line), None);
}

#[test]
fn config_error_rule_apply_error_rules_works() {
    let rules: Vec<ErrorRule> = Vec::new();
    let line = ImportLogLine {
        code: "123".to_string(),
        message: "HELLO_abc_WORLD".to_string(),
        ..ImportLogLine::default()
    };
    assert_eq!(apply_error_rules(&rules, &line), None);
}

fn line(code: &str, message: &str) -> ImportLogLine {
    ImportLogLine {
        code: code.to_string(),
        message: message.to_string(),
        ..ImportLogLine::default()
    }
}

fn rule(code: &str, contains: &str, action: ErrorRuleAction) -> ErrorRule {
    ErrorRule {
        error_code: Some(code.to_string()),
        message_contains: if contains.is_empty() {
            vec![]
        } else {
            vec![contains.to_string()]
        },
        action,
        ..ErrorRule::default()
    }
}

#[test]
fn rules_on_quiet_ignore_and_non_error_lines() {
    let rules = vec![
        rule("123", "abc", ErrorRuleAction::Quiet),
        rule("456", "def", ErrorRuleAction::Ignore),
    ];
    assert_eq!(
        apply_error_rules(&rules, &line("123", "HELLO_abc_WORLD")),
        Some(ErrorRuleAction::Quiet)
    );
    assert_eq!(
        apply_error_rules(&rules, &line("456", "HELLO_def_WORLD")),
        Some(ErrorRuleAction::Ignore)
    );
    assert_eq!(apply_error_rules(&rules, &line("0", "HELLO_abc_WORLD")), None);
    assert_eq!(apply_error_rules(&rules, &line("0", "HELLO_def_WORLD")), None);
}

#[test]
fn action_only_rule_is_discarded_before_evaluation() {
    let mut rules = vec![ErrorRule {
        action: ErrorRuleAction::Ignore,
        ..ErrorRule::default()
    }];
    remove_no_match_rules(&mut rules);
    assert!(rules.is_empty());
    assert_eq!(apply_error_rules(&rules, &line("999", "anything")), None);
}

#[test]
fn remove_no_match_rules_keeps_order_of_the_rest() {
    let mut rules = vec![
        rule("1", "", ErrorRuleAction::Quiet),
        ErrorRule::default(),
        rule("2", "", ErrorRuleAction::Ignore),
        ErrorRule {
            location_ends_with: Some(".fmp12".to_string()),
            ..ErrorRule::default()
        },
    ];
    remove_no_match_rules(&mut rules);
    assert_eq!(rules.len(), 3);
    assert_eq!(rules[0].error_code, Some("1".to_string()));
    assert_eq!(rules[1].error_code, Some("2".to_string()));
    assert_eq!(rules[2].location_ends_with, Some(".fmp12".to_string()));
}

#[test]
fn ignore_wins_over_an_earlier_quiet() {
    let rules = vec![
        rule("1", "", ErrorRuleAction::Quiet),
        rule("1", "", ErrorRuleAction::Ignore),
    ];
    assert_eq!(apply_error_rules(&rules, &line("1", "")), Some(ErrorRuleAction::Ignore));
    let rules = vec![
        rule("1", "", ErrorRuleAction::Ignore),
        rule("1", "", ErrorRuleAction::Quiet),
    ];
    assert_eq!(apply_error_rules(&rules, &line("1", "")), Some(ErrorRuleAction::Ignore));
}

#[test]
fn anchored_conditions() {
    let base = ImportLogLine {
        timestamp: "2020-05-01 12:00:00.000".to_string(),
        filename: "/Users/me/Import.log".to_string(),
        code: "718".to_string(),
        message: "Field missing in table".to_string(),
    };
    let check = |r: ErrorRule| r.get_action(&base);
    let quiet = Some(ErrorRuleAction::Quiet);
    let only = |f: fn(&mut ErrorRule)| {
        let mut r = ErrorRule::default();
        f(&mut r);
        r
    };
    assert_eq!(check(only(|r| r.message_starts_with = Some("Field".to_string()))), quiet);
    assert_eq!(check(only(|r| r.message_starts_with = Some("table".to_string()))), None);
    assert_eq!(check(only(|r| r.message_ends_with = Some("table".to_string()))), quiet);
    assert_eq!(check(only(|r| r.message_ends_with = Some("Field".to_string()))), None);
    assert_eq!(check(only(|r| r.location_contains = Some("/me/".to_string()))), quiet);
    assert_eq!(check(only(|r| r.location_contains = Some("/you/".to_string()))), None);
    assert_eq!(check(only(|r| r.location_starts_with = Some("/Users".to_string()))), quiet);
    assert_eq!(check(only(|r| r.location_starts_with = Some("Import".to_string()))), None);
    assert_eq!(check(only(|r| r.location_ends_with = Some("Import.log".to_string()))), quiet);
    assert_eq!(check(only(|r| r.location_ends_with = Some("/Users".to_string()))), None);
    assert_eq!(check(only(|r| r.error_code = Some("71".to_string()))), None);
}

#[test]
fn deserialize_error_rule_action() {
    assert_eq!(ErrorRuleAction::from_str("quiet"), Ok(ErrorRuleAction::Quiet));
    assert_eq!(ErrorRuleAction::from_str("ignore"), Ok(ErrorRuleAction::Ignore));
    let res = ErrorRuleAction::from_str("INVALID_VARIANT");
    assert!(res.is_err());
    assert_eq!(res, Err("unknown error rule action: INVALID_VARIANT".to_string()));
}

#[test]
fn empty_error_code_deserializes_to_none() {
    assert_eq!(error_code_from_text(String::new()), Ok(None));
}

#[test]
fn error_code_deserializer_fails_on_non_digits() {
    assert!(error_code_from_text("LETTERS".to_string()).is_err());
    assert!(error_code_from_text("123LETTERS".to_string()).is_err());
    // spaces are not allowed
    assert!(error_code_from_text("123 234 345".to_string()).is_err());
}

#[test]
fn error_codes_from_text() {
    assert_eq!(error_code_from_text("123".to_string()), Ok(Some("123".to_string())));
    for bad in ["LETTERS", "123LETTERS", "123 234 345"] {
        assert_eq!(
            error_code_from_text(bad.to_string()),
            Err(format!(
                "Expected a number or a string containing only digits, got: {bad}"
            ))
        );
    }
    assert!(contains_only_digits("0123456789"));
    assert!(contains_only_digits(""));
    assert!(!contains_only_digits("１２"));
}
