use fmrl::error_rule::{ErrorRule, ErrorRuleAction};
use fmrl::log_line::{parse_line, ImportLogLine};
use fmrl::session::{
    error_notification_allowed, get_path_type, parse_key_command, should_show_line,
    DisplayOptions, KeyCommand, PathType, SeparatorQueue,
};

fn opts(errors_only: bool, warnings_only: bool) -> DisplayOptions {
    DisplayOptions { errors_only, warnings_only, separator: true }
}

#[test]
fn line_filters() {
    let error = parse_line("2021-01-01 00:00:00.000\tf\t5\tbad");
    let warning = parse_line("2021-01-01 00:00:00.000\tf\t0\tTable already exists.");
    let success = parse_line("2021-01-01 00:00:00.000\tf\t0\tfine");
    let header = parse_line("Timestamp\tFilename\tError\tMessage");
    for l in [&error, &warning, &success, &header] {
        assert!(should_show_line(&opts(false, false), l));
    }
    assert!(should_show_line(&opts(true, false), &error));
    assert!(!should_show_line(&opts(true, false), &warning));
    assert!(!should_show_line(&opts(true, false), &success));
    assert!(should_show_line(&opts(true, false), &header));
    assert!(should_show_line(&opts(false, true), &warning));
    assert!(!should_show_line(&opts(false, true), &error));
    assert!(should_show_line(&opts(true, true), &error));
    assert!(should_show_line(&opts(true, true), &warning));
    assert!(!should_show_line(&opts(true, true), &success));
}

#[test]
fn separators_wait_for_a_shown_line() {
    let mut q = SeparatorQueue::new();
    assert!(!q.take());
    q.on_hidden_line(&opts(false, false));
    assert!(!q.take());
    q.on_hidden_line(&opts(true, false));
    q.on_hidden_line(&opts(true, false));
    assert!(q.take());
    assert!(!q.take());
    q.on_hidden_line(&DisplayOptions { errors_only: true, warnings_only: false, separator: false });
    assert!(!q.take());
}

#[test]
fn error_notifications_respect_quiet_codes_and_rules() {
    let line = ImportLogLine {
        code: "401".to_string(),
        message: "No records match".to_string(),
        ..ImportLogLine::default()
    };
    assert!(error_notification_allowed(&vec![], &[], &line));
    assert!(!error_notification_allowed(&vec!["12".to_string(), "401".to_string()], &[], &line));
    assert!(error_notification_allowed(&vec!["40".to_string()], &[], &line));
    let quiet = ErrorRule {
        message_contains: vec!["records".to_string()],
        action: ErrorRuleAction::Quiet,
        ..ErrorRule::default()
    };
    assert!(!error_notification_allowed(&vec![], &[quiet], &line));
}

#[test]
fn path_choice() {
    let s = |x: &str| Some(x.to_string());
    assert_eq!(
        get_path_type(s("a.log"), s("b.log"), true, s("d"), s("c")),
        Ok(PathType::CustomPath("a.log".to_string()))
    );
    assert_eq!(
        get_path_type(None, s("b.log"), true, s("d"), s("c")),
        Ok(PathType::CustomPath("b.log".to_string()))
    );
    assert_eq!(
        get_path_type(None, None, true, s("d"), s("c")),
        Ok(PathType::DocsDir("d".to_string()))
    );
    assert_eq!(
        get_path_type(None, None, true, None, s("c")),
        Err("couldn't find documents directory".to_string())
    );
    assert_eq!(
        get_path_type(None, None, false, s("d"), s("c")),
        Ok(PathType::CurrentDir("c".to_string()))
    );
    assert_eq!(
        get_path_type(None, None, false, s("d"), None),
        Err("couldn't find current directory".to_string())
    );
    assert_eq!(PathType::CurrentDir("/x/Import.log".to_string()).message(), "Using current directory: /x/Import.log");
    assert_eq!(PathType::DocsDir("/d/Import.log".to_string()).message(), "Using documents directory: /d/Import.log");
    assert_eq!(PathType::CustomPath("p".to_string()).message(), "");
    assert_eq!(PathType::DocsDir("/d".to_string()).path(), "/d");
}

#[test]
fn typed_commands() {
    assert_eq!(parse_key_command("q"), KeyCommand::Quit);
    assert_eq!(parse_key_command("quit"), KeyCommand::Quit);
    assert_eq!(parse_key_command("exit"), KeyCommand::Quit);
    assert_eq!(parse_key_command("clear"), KeyCommand::Clear);
    assert_eq!(parse_key_command("clear "), KeyCommand::Nothing);
    assert_eq!(parse_key_command(""), KeyCommand::Nothing);
}
