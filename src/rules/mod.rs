//! The locale rule tables and the queries that combine them.
//!
//! Each locale's export strings live in a module of their own; [`Locale`]
//! names them, and the aggregate queries answer "does any locale match".

pub mod en;
pub mod de;
pub mod es;
pub mod fr;
pub mod it;
pub mod ja;
pub mod ko;
pub mod nl;
pub mod pt;
pub mod sv;
pub mod zh;

use vstd::prelude::*;

use crate::log_line::ImportLogLine;
use crate::text::chars_of;

verus! {

/// One of the languages whose export strings the classifier knows.
#[derive(Clone, Copy, Debug, PartialEq, Eq, Structural)]
pub enum Locale {
    En,
    De,
    Es,
    Fr,
    It,
    Ja,
    Ko,
    Nl,
    Pt,
    Sv,
    Zh,
}

impl Locale {
    /// This locale's `warning_already_exists` rule.
    pub open spec fn spec_warning_already_exists(self, msg: Seq<char>) -> bool {
        match self {
            Locale::En => en::spec_warning_already_exists(msg),
            Locale::De => de::spec_warning_already_exists(msg),
            Locale::Es => es::spec_warning_already_exists(msg),
            Locale::Fr => fr::spec_warning_already_exists(msg),
            Locale::It => it::spec_warning_already_exists(msg),
            Locale::Ja => ja::spec_warning_already_exists(msg),
            Locale::Ko => ko::spec_warning_already_exists(msg),
            Locale::Nl => nl::spec_warning_already_exists(msg),
            Locale::Pt => pt::spec_warning_already_exists(msg),
            Locale::Sv => sv::spec_warning_already_exists(msg),
            Locale::Zh => zh::spec_warning_already_exists(msg),
        }
    }

    /// Evaluates this locale's `warning_already_exists` rule.
    pub fn warning_already_exists(&self, msg: &Vec<char>) -> (r: bool)
        ensures
            r == self.spec_warning_already_exists(msg@),
    {
        match self {
            Locale::En => en::warning_already_exists(msg),
            Locale::De => de::warning_already_exists(msg),
            Locale::Es => es::warning_already_exists(msg),
            Locale::Fr => fr::warning_already_exists(msg),
            Locale::It => it::warning_already_exists(msg),
            Locale::Ja => ja::warning_already_exists(msg),
            Locale::Ko => ko::warning_already_exists(msg),
            Locale::Nl => nl::warning_already_exists(msg),
            Locale::Pt => pt::warning_already_exists(msg),
            Locale::Sv => sv::warning_already_exists(msg),
            Locale::Zh => zh::warning_already_exists(msg),
        }
    }

    /// This locale's `warning_eds_created_and_imported_automatically` rule.
    pub open spec fn spec_warning_eds_created_and_imported_automatically(self, msg: Seq<char>) -> bool {
        match self {
            Locale::En => en::spec_warning_eds_created_and_imported_automatically(msg),
            Locale::De => de::spec_warning_eds_created_and_imported_automatically(msg),
            Locale::Es => es::spec_warning_eds_created_and_imported_automatically(msg),
            Locale::Fr => fr::spec_warning_eds_created_and_imported_automatically(msg),
            Locale::It => it::spec_warning_eds_created_and_imported_automatically(msg),
            Locale::Ja => ja::spec_warning_eds_created_and_imported_automatically(msg),
            Locale::Ko => ko::spec_warning_eds_created_and_imported_automatically(msg),
            Locale::Nl => nl::spec_warning_eds_created_and_imported_automatically(msg),
            Locale::Pt => pt::spec_warning_eds_created_and_imported_automatically(msg),
            Locale::Sv => sv::spec_warning_eds_created_and_imported_automatically(msg),
            Locale::Zh => zh::spec_warning_eds_created_and_imported_automatically(msg),
        }
    }

    /// Evaluates this locale's `warning_eds_created_and_imported_automatically` rule.
    pub fn warning_eds_created_and_imported_automatically(&self, msg: &Vec<char>) -> (r: bool)
        ensures
            r == self.spec_warning_eds_created_and_imported_automatically(msg@),
    {
        match self {
            Locale::En => en::warning_eds_created_and_imported_automatically(msg),
            Locale::De => de::warning_eds_created_and_imported_automatically(msg),
            Locale::Es => es::warning_eds_created_and_imported_automatically(msg),
            Locale::Fr => fr::warning_eds_created_and_imported_automatically(msg),
            Locale::It => it::warning_eds_created_and_imported_automatically(msg),
            Locale::Ja => ja::warning_eds_created_and_imported_automatically(msg),
            Locale::Ko => ko::warning_eds_created_and_imported_automatically(msg),
            Locale::Nl => nl::warning_eds_created_and_imported_automatically(msg),
            Locale::Pt => pt::warning_eds_created_and_imported_automatically(msg),
            Locale::Sv => sv::warning_eds_created_and_imported_automatically(msg),
            Locale::Zh => zh::warning_eds_created_and_imported_automatically(msg),
        }
    }

    /// This locale's `warning_eds_used_instead` rule.
    pub open spec fn spec_warning_eds_used_instead(self, msg: Seq<char>) -> bool {
        match self {
            Locale::En => en::spec_warning_eds_used_instead(msg),
            Locale::De => de::spec_warning_eds_used_instead(msg),
            Locale::Es => es::spec_warning_eds_used_instead(msg),
            Locale::Fr => fr::spec_warning_eds_used_instead(msg),
            Locale::It => it::spec_warning_eds_used_instead(msg),
            Locale::Ja => ja::spec_warning_eds_used_instead(msg),
            Locale::Ko => ko::spec_warning_eds_used_instead(msg),
            Locale::Nl => nl::spec_warning_eds_used_instead(msg),
            Locale::Pt => pt::spec_warning_eds_used_instead(msg),
            Locale::Sv => sv::spec_warning_eds_used_instead(msg),
            Locale::Zh => zh::spec_warning_eds_used_instead(msg),
        }
    }

    /// Evaluates this locale's `warning_eds_used_instead` rule.
    pub fn warning_eds_used_instead(&self, msg: &Vec<char>) -> (r: bool)
        ensures
            r == self.spec_warning_eds_used_instead(msg@),
    {
        match self {
            Locale::En => en::warning_eds_used_instead(msg),
            Locale::De => de::warning_eds_used_instead(msg),
            Locale::Es => es::warning_eds_used_instead(msg),
            Locale::Fr => fr::warning_eds_used_instead(msg),
            Locale::It => it::warning_eds_used_instead(msg),
            Locale::Ja => ja::warning_eds_used_instead(msg),
            Locale::Ko => ko::warning_eds_used_instead(msg),
            Locale::Nl => nl::warning_eds_used_instead(msg),
            Locale::Pt => pt::warning_eds_used_instead(msg),
            Locale::Sv => sv::warning_eds_used_instead(msg),
            Locale::Zh => zh::warning_eds_used_instead(msg),
        }
    }

    /// This locale's `is_header` rule.
    pub open spec fn spec_is_header(self, line: Seq<char>) -> bool {
        match self {
            Locale::En => en::spec_is_header(line),
            Locale::De => de::spec_is_header(line),
            Locale::Es => es::spec_is_header(line),
            Locale::Fr => fr::spec_is_header(line),
            Locale::It => it::spec_is_header(line),
            Locale::Ja => ja::spec_is_header(line),
            Locale::Ko => ko::spec_is_header(line),
            Locale::Nl => nl::spec_is_header(line),
            Locale::Pt => pt::spec_is_header(line),
            Locale::Sv => sv::spec_is_header(line),
            Locale::Zh => zh::spec_is_header(line),
        }
    }

    /// Evaluates this locale's `is_header` rule.
    pub fn is_header(&self, line: &Vec<char>) -> (r: bool)
        ensures
            r == self.spec_is_header(line@),
    {
        match self {
            Locale::En => en::is_header(line),
            Locale::De => de::is_header(line),
            Locale::Es => es::is_header(line),
            Locale::Fr => fr::is_header(line),
            Locale::It => it::is_header(line),
            Locale::Ja => ja::is_header(line),
            Locale::Ko => ko::is_header(line),
            Locale::Nl => nl::is_header(line),
            Locale::Pt => pt::is_header(line),
            Locale::Sv => sv::is_header(line),
            Locale::Zh => zh::is_header(line),
        }
    }

    /// This locale's `is_operation_start` rule.
    pub open spec fn spec_is_operation_start(self, msg: Seq<char>) -> bool {
        match self {
            Locale::En => en::spec_is_operation_start(msg),
            Locale::De => de::spec_is_operation_start(msg),
            Locale::Es => es::spec_is_operation_start(msg),
            Locale::Fr => fr::spec_is_operation_start(msg),
            Locale::It => it::spec_is_operation_start(msg),
            Locale::Ja => ja::spec_is_operation_start(msg),
            Locale::Ko => ko::spec_is_operation_start(msg),
            Locale::Nl => nl::spec_is_operation_start(msg),
            Locale::Pt => pt::spec_is_operation_start(msg),
            Locale::Sv => sv::spec_is_operation_start(msg),
            Locale::Zh => zh::spec_is_operation_start(msg),
        }
    }

    /// Evaluates this locale's `is_operation_start` rule.
    pub fn is_operation_start(&self, msg: &Vec<char>) -> (r: bool)
        ensures
            r == self.spec_is_operation_start(msg@),
    {
        match self {
            Locale::En => en::is_operation_start(msg),
            Locale::De => de::is_operation_start(msg),
            Locale::Es => es::is_operation_start(msg),
            Locale::Fr => fr::is_operation_start(msg),
            Locale::It => it::is_operation_start(msg),
            Locale::Ja => ja::is_operation_start(msg),
            Locale::Ko => ko::is_operation_start(msg),
            Locale::Nl => nl::is_operation_start(msg),
            Locale::Pt => pt::is_operation_start(msg),
            Locale::Sv => sv::is_operation_start(msg),
            Locale::Zh => zh::is_operation_start(msg),
        }
    }

    /// Whether any of this locale's three warning rules matches.
    pub open spec fn spec_contains_warning_text(self, msg: Seq<char>) -> bool {
        self.spec_warning_already_exists(msg)
            || self.spec_warning_eds_created_and_imported_automatically(msg)
            || self.spec_warning_eds_used_instead(msg)
    }

    /// Evaluates this locale's three warning rules.
    pub fn contains_warning_text(&self, msg: &Vec<char>) -> (r: bool)
        ensures
            r == self.spec_contains_warning_text(msg@),
    {
        self.warning_already_exists(msg) || self.warning_eds_created_and_imported_automatically(msg)
            || self.warning_eds_used_instead(msg)
    }
}

/// Some locale's warning rules match the message.
pub open spec fn any_locale_warning(msg: Seq<char>) -> bool {
    exists|l: Locale| l.spec_contains_warning_text(msg)
}

/// Some locale's operation-start rule matches the message.
pub open spec fn any_locale_operation_start(msg: Seq<char>) -> bool {
    exists|l: Locale| l.spec_is_operation_start(msg)
}

/// Some locale's header rule matches the raw line.
pub open spec fn any_locale_header(line: Seq<char>) -> bool {
    exists|l: Locale| l.spec_is_header(line)
}

/// Every locale, each once.
pub fn get_rules_impls() -> (r: Vec<Locale>)
    ensures
        r.len() == 11,
        r@ == seq![
            Locale::En,
            Locale::De,
            Locale::Es,
            Locale::Fr,
            Locale::It,
            Locale::Ja,
            Locale::Ko,
            Locale::Nl,
            Locale::Pt,
            Locale::Sv,
            Locale::Zh,
        ],
        forall|l: Locale| #[trigger] r@.contains(l),
{
    let r = vec![
        Locale::En,
        Locale::De,
        Locale::Es,
        Locale::Fr,
        Locale::It,
        Locale::Ja,
        Locale::Ko,
        Locale::Nl,
        Locale::Pt,
        Locale::Sv,
        Locale::Zh,
    ];
    assert forall|l: Locale| #[trigger] r@.contains(l) by {
        match l {
            Locale::En => assert(r@[0] == l),
            Locale::De => assert(r@[1] == l),
            Locale::Es => assert(r@[2] == l),
            Locale::Fr => assert(r@[3] == l),
            Locale::It => assert(r@[4] == l),
            Locale::Ja => assert(r@[5] == l),
            Locale::Ko => assert(r@[6] == l),
            Locale::Nl => assert(r@[7] == l),
            Locale::Pt => assert(r@[8] == l),
            Locale::Sv => assert(r@[9] == l),
            Locale::Zh => assert(r@[10] == l),
        }
    }
    r
}

/// Whether any warning rule of some locale matches.
fn any_warning(locales: &Vec<Locale>, msg: &Vec<char>) -> (r: bool)
    requires
        forall|l: Locale| #[trigger] locales@.contains(l),
    ensures
        r == any_locale_warning(msg@),
{
    for i in 0..locales.len()
        invariant
            forall|j: int| 0 <= j < i ==> !(#[trigger] locales@[j]).spec_contains_warning_text(msg@),
    {
        if locales[i].contains_warning_text(msg) {
            return true;
        }
    }
    assert forall|l: Locale| !l.spec_contains_warning_text(msg@) by {
        assert(locales@.contains(l));
        let j = choose|j: int| 0 <= j < locales@.len() && locales@[j] == l;
    }
    false
}

/// Whether the operation-start rule of some locale matches.
fn any_operation_start(locales: &Vec<Locale>, msg: &Vec<char>) -> (r: bool)
    requires
        forall|l: Locale| #[trigger] locales@.contains(l),
    ensures
        r == any_locale_operation_start(msg@),
{
    for i in 0..locales.len()
        invariant
            forall|j: int| 0 <= j < i ==> !(#[trigger] locales@[j]).spec_is_operation_start(msg@),
    {
        if locales[i].is_operation_start(msg) {
            return true;
        }
    }
    assert forall|l: Locale| !l.spec_is_operation_start(msg@) by {
        assert(locales@.contains(l));
        let j = choose|j: int| 0 <= j < locales@.len() && locales@[j] == l;
    }
    false
}

/// Whether the header rule of some locale matches.
fn any_header(locales: &Vec<Locale>, line: &Vec<char>) -> (r: bool)
    requires
        forall|l: Locale| #[trigger] locales@.contains(l),
    ensures
        r == any_locale_header(line@),
{
    for i in 0..locales.len()
        invariant
            forall|j: int| 0 <= j < i ==> !(#[trigger] locales@[j]).spec_is_header(line@),
    {
        if locales[i].is_header(line) {
            return true;
        }
    }
    assert forall|l: Locale| !l.spec_is_header(line@) by {
        assert(locales@.contains(l));
        let j = choose|j: int| 0 <= j < locales@.len() && locales@[j] == l;
    }
    false
}

/// Whether the line is a non-error line whose message carries some
/// locale's warning text.
pub fn contains_warning_text(line: &ImportLogLine) -> (r: bool)
    ensures
        r == (!line.spec_is_error() && any_locale_warning(line.message@)),
{
    if line.is_error() {
        return false;
    }
    any_warning(&get_rules_impls(), &chars_of(line.message.as_str()))
}

/// Whether the line is a non-error line whose message announces the start
/// of an import operation in some locale.
pub fn is_operation_start(line: &ImportLogLine) -> (r: bool)
    ensures
        r == (!line.spec_is_error() && any_locale_operation_start(line.message@)),
{
    if line.is_error() {
        return false;
    }
    any_operation_start(&get_rules_impls(), &chars_of(line.message.as_str()))
}

/// Whether the raw line ends with some locale's column header row.
pub fn is_header(line: &str) -> (r: bool)
    ensures
        r == any_locale_header(line@),
{
    any_header(&get_rules_impls(), &chars_of(line))
}

} // verus!
