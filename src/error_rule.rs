//! User-configured rules that quiet or ignore notifications for error lines
//! of a given shape.

use vstd::prelude::*;

use crate::log_line::{success_code, ImportLogLine, LogLineView};
use crate::text::{
    chars_of, contains, contains_exec, ends_with, ends_with_exec, starts_with, starts_with_exec,
    str_eq,
};

verus! {

/// What a matching rule does to an error line's notification.
#[derive(Clone, Copy, Debug, PartialEq, Eq, Structural)]
pub enum ErrorRuleAction {
    /// No notification or beep for the line.
    Quiet,
    /// No notification or beep, and later rules are not consulted.
    Ignore,
}

impl Default for ErrorRuleAction {
    fn default() -> (r: Self)
        ensures
            r == ErrorRuleAction::Quiet,
    {
        ErrorRuleAction::Quiet
    }
}

impl ErrorRuleAction {
    /// Reads an action from its configuration name: `quiet` or `ignore`.
    pub fn from_str(s: &str) -> (r: Result<ErrorRuleAction, String>)
        ensures
            s@ == "quiet"@ ==> r == Ok::<ErrorRuleAction, String>(ErrorRuleAction::Quiet),
            s@ == "ignore"@ ==> r == Ok::<ErrorRuleAction, String>(ErrorRuleAction::Ignore),
            s@ != "quiet"@ && s@ != "ignore"@ ==> r is Err && r->Err_0@ == "unknown error rule action: "@
                + s@,
    {
        proof {
            reveal_strlit("quiet");
            reveal_strlit("ignore");
            assert("quiet"@.len() == 5);
            assert("ignore"@.len() == 6);
            assert("quiet"@ != "ignore"@);
        }
        if str_eq(s, "quiet") {
            Ok(ErrorRuleAction::Quiet)
        } else if str_eq(s, "ignore") {
            Ok(ErrorRuleAction::Ignore)
        } else {
            let mut msg = "unknown error rule action: ".to_owned();
            msg.append(s);
            Err(msg)
        }
    }
}

/// An AND-filter over error lines: every condition that is set must hold
/// for the rule to yield its action.
#[derive(Clone, Debug, PartialEq, Eq)]
pub struct ErrorRule {
    /// Must equal the line's code exactly; any error code when absent.
    pub error_code: Option<String>,
    /// Each entry must occur in the message.
    pub message_contains: Vec<String>,
    pub message_starts_with: Option<String>,
    pub message_ends_with: Option<String>,
    /// Conditions on the line's filename column.
    pub location_contains: Option<String>,
    pub location_starts_with: Option<String>,
    pub location_ends_with: Option<String>,
    pub action: ErrorRuleAction,
}

impl Default for ErrorRule {
    fn default() -> (r: Self)
        ensures
            r.spec_no_match_logic(),
            r.action == ErrorRuleAction::Quiet,
    {
        ErrorRule {
            error_code: None,
            message_contains: Vec::new(),
            message_starts_with: None,
            message_ends_with: None,
            location_contains: None,
            location_starts_with: None,
            location_ends_with: None,
            action: ErrorRuleAction::Quiet,
        }
    }
}

/// The condition that an optional pattern puts on `s` under `test`: none
/// when the pattern is absent.
pub open spec fn optional_condition(
    pat: Option<String>,
    s: Seq<char>,
    test: spec_fn(Seq<char>, Seq<char>) -> bool,
) -> bool {
    match pat {
        Some(p) => test(s, p@),
        None => true,
    }
}

impl ErrorRule {
    /// Every condition that this rule sets holds of `line`.
    pub open spec fn spec_conditions_hold(&self, line: LogLineView) -> bool {
        &&& optional_condition(self.error_code, line.code, |s: Seq<char>, p: Seq<char>| s == p)
        &&& forall|i: int|
            0 <= i < self.message_contains@.len() ==> contains(
                line.message,
                #[trigger] self.message_contains@[i]@,
            )
        &&& optional_condition(self.message_starts_with, line.message, |s, p| starts_with(s, p))
        &&& optional_condition(self.message_ends_with, line.message, |s, p| ends_with(s, p))
        &&& optional_condition(self.location_contains, line.filename, |s, p| contains(s, p))
        &&& optional_condition(
            self.location_starts_with,
            line.filename,
            |s, p| starts_with(s, p),
        )
        &&& optional_condition(self.location_ends_with, line.filename, |s, p| ends_with(s, p))
    }

    /// The action this rule yields for `line`: none for non-error lines or
    /// when some condition fails.
    pub open spec fn spec_get_action(&self, line: LogLineView) -> Option<ErrorRuleAction> {
        if line.code == success_code() {
            None
        } else if self.spec_conditions_hold(line) {
            Some(self.action)
        } else {
            None
        }
    }

    /// No condition is set: only the action is.
    pub open spec fn spec_no_match_logic(&self) -> bool {
        &&& self.error_code is None
        &&& self.message_contains@.len() == 0
        &&& self.message_starts_with is None
        &&& self.message_ends_with is None
        &&& self.location_contains is None
        &&& self.location_starts_with is None
        &&& self.location_ends_with is None
    }

    /// Checks `line` against this rule and returns the rule's action when
    /// `line` is an error line that meets every condition set.
    pub fn get_action(&self, line: &ImportLogLine) -> (r: Option<ErrorRuleAction>)
        ensures
            r == self.spec_get_action(line@),
    {
        if !line.is_error() {
            return None;
        }
        if let Some(error_code) = &self.error_code {
            if !str_eq(error_code.as_str(), line.code.as_str()) {
                return None;
            }
        }
        let message = chars_of(line.message.as_str());
        let filename = chars_of(line.filename.as_str());
        for i in 0..self.message_contains.len()
            invariant
                message@ == line.message@,
                forall|j: int|
                    0 <= j < i ==> contains(line.message@, #[trigger] self.message_contains@[j]@),
        {
            if !contains_exec(&message, self.message_contains[i].as_str()) {
                return None;
            }
        }
        if let Some(p) = &self.message_starts_with {
            if !starts_with_exec(&message, p.as_str()) {
                return None;
            }
        }
        if let Some(p) = &self.message_ends_with {
            if !ends_with_exec(&message, p.as_str()) {
                return None;
            }
        }
        if let Some(p) = &self.location_contains {
            if !contains_exec(&filename, p.as_str()) {
                return None;
            }
        }
        if let Some(p) = &self.location_starts_with {
            if !starts_with_exec(&filename, p.as_str()) {
                return None;
            }
        }
        if let Some(p) = &self.location_ends_with {
            if !ends_with_exec(&filename, p.as_str()) {
                return None;
            }
        }
        Some(self.action)
    }

    /// Whether only the action is set on this rule, so that it has nothing
    /// to match on.
    pub fn no_match_logic(&self) -> (r: bool)
        ensures
            r == self.spec_no_match_logic(),
    {
        self.error_code.is_none() && self.message_contains.len() == 0
            && self.message_starts_with.is_none() && self.message_ends_with.is_none()
            && self.location_contains.is_none() && self.location_starts_with.is_none()
            && self.location_ends_with.is_none()
    }
}

/// The verdict of a list of rules on `line`: `Ignore` when some rule yields
/// `Ignore`, otherwise `Quiet` when some rule yields `Quiet`, otherwise none.
pub open spec fn spec_apply_error_rules(rules: Seq<ErrorRule>, line: LogLineView) -> Option<
    ErrorRuleAction,
> {
    if exists|i: int|
        0 <= i < rules.len() && #[trigger] rules[i].spec_get_action(line) == Some(
            ErrorRuleAction::Ignore,
        ) {
        Some(ErrorRuleAction::Ignore)
    } else if exists|i: int|
        0 <= i < rules.len() && #[trigger] rules[i].spec_get_action(line) == Some(
            ErrorRuleAction::Quiet,
        ) {
        Some(ErrorRuleAction::Quiet)
    } else {
        None
    }
}

/// Runs the rules in order: the first rule that yields `Ignore` decides
/// outright; otherwise a rule that yields `Quiet` makes the verdict `Quiet`.
pub fn apply_error_rules(rules: &[ErrorRule], line: &ImportLogLine) -> (r: Option<ErrorRuleAction>)
    ensures
        r == spec_apply_error_rules(rules@, line@),
{
    let mut action: Option<ErrorRuleAction> = None;
    for i in 0..rules.len()
        invariant
            forall|j: int|
                0 <= j < i ==> #[trigger] rules@[j].spec_get_action(line@) != Some(
                    ErrorRuleAction::Ignore,
                ),
            action is None || action == Some(ErrorRuleAction::Quiet),
            (action == Some(ErrorRuleAction::Quiet)) == exists|j: int|
                0 <= j < i && #[trigger] rules@[j].spec_get_action(line@) == Some(
                    ErrorRuleAction::Quiet,
                ),
    {
        match rules[i].get_action(line) {
            Some(ErrorRuleAction::Quiet) => {
                action = Some(ErrorRuleAction::Quiet);
            },
            Some(ErrorRuleAction::Ignore) => {
                return Some(ErrorRuleAction::Ignore);
            },
            None => {},
        }
    }
    action
}

/// Drops every rule that sets no condition, keeping the others in order.
pub fn remove_no_match_rules(rules: &mut Vec<ErrorRule>)
    ensures
        final(rules)@ == old(rules)@.filter(|r: ErrorRule| !r.spec_no_match_logic()),
{
    let mut src: Vec<ErrorRule> = Vec::new();
    core::mem::swap(rules, &mut src);
    let ghost all = src@;
    let mut kept: Vec<ErrorRule> = Vec::new();
    for rule in it: src.into_iter()
        invariant
            it.seq() == all,
            kept@ == all.subrange(0, it.index() as int).filter(
                |r: ErrorRule| !r.spec_no_match_logic(),
            ),
    {
        let ghost k = it.index() as int;
        assert(rule == all[k]);
        if !rule.no_match_logic() {
            kept.push(rule);
        }
        proof {
            reveal(Seq::filter);
            let prefix = all.subrange(0, k + 1);
            assert(prefix.drop_last() =~= all.subrange(0, k));
            assert(prefix.last() == all[k]);
            assert(kept@ =~= prefix.filter(|r: ErrorRule| !r.spec_no_match_logic()));
        }
    }
    assert(all.subrange(0, all.len() as int) =~= all);
    *rules = kept;
}

/// Rules only ever act on error lines: whatever the rules, a line whose
/// code is `"0"` gets no action.
pub proof fn non_error_lines_get_no_action(rules: Seq<ErrorRule>, line: LogLineView)
    requires
        line.code == success_code(),
    ensures
        spec_apply_error_rules(rules, line) is None,
{
}

/// `Ignore` takes precedence: as soon as one rule yields `Ignore` for a
/// line, the verdict is `Ignore`, whichever rules yield `Quiet` before or
/// after it.
pub proof fn ignore_takes_precedence(rules: Seq<ErrorRule>, line: LogLineView, i: int)
    requires
        0 <= i < rules.len(),
        rules[i].spec_get_action(line) == Some(ErrorRuleAction::Ignore),
    ensures
        spec_apply_error_rules(rules, line) == Some(ErrorRuleAction::Ignore),
{
}

/// A rule that sets nothing but its action never acts: once such rules
/// are removed, a list made only of them gives no action on any line.
pub proof fn action_only_rules_never_act(rules: Seq<ErrorRule>, line: LogLineView)
    requires
        forall|i: int| 0 <= i < rules.len() ==> (#[trigger] rules[i]).spec_no_match_logic(),
    ensures
        spec_apply_error_rules(rules.filter(|r: ErrorRule| !r.spec_no_match_logic()), line) is None,
{
    rules.lemma_all_neg_filter_empty(|r: ErrorRule| !r.spec_no_match_logic());
}

/// Reads an error code written as text in the configuration: empty text
/// sets no constraint, digits are kept as they are, and anything else is
/// refused.
pub fn error_code_from_text(s: String) -> (r: Result<Option<String>, String>)
    ensures
        s@.len() == 0 ==> r == Ok::<Option<String>, String>(None),
        s@.len() > 0 && (forall|i: int| 0 <= i < s@.len() ==> '0' <= #[trigger] s@[i] <= '9')
            ==> r == Ok::<Option<String>, String>(Some(s)),
        s@.len() > 0 && !(forall|i: int| 0 <= i < s@.len() ==> '0' <= #[trigger] s@[i] <= '9')
            ==> r is Err && r->Err_0@ == "Expected a number or a string containing only digits, got: "@
            + s@,
{
    if s.as_str().is_empty() {
        Ok(None)
    } else if contains_only_digits(s.as_str()) {
        Ok(Some(s))
    } else {
        let mut msg = "Expected a number or a string containing only digits, got: ".to_owned();
        msg.append(s.as_str());
        Err(msg)
    }
}

/// Whether every character of `input` is an ASCII decimal digit.
pub fn contains_only_digits(input: &str) -> (r: bool)
    ensures
        r == forall|i: int| 0 <= i < input@.len() ==> '0' <= #[trigger] input@[i] <= '9',
{
    let c = chars_of(input);
    for i in 0..c.len()
        invariant
            c@ == input@,
            forall|j: int| 0 <= j < i ==> '0' <= #[trigger] input@[j] <= '9',
    {
        if !('0' <= c[i] && c[i] <= '9') {
            return false;
        }
    }
    true
}

} // verus!
