//! Import log lines: splitting a raw line into its four columns and deciding
//! which category it belongs to.

use vstd::prelude::*;

use crate::rules::{any_locale_header, any_locale_warning, contains_warning_text, is_header};
use crate::text::{chars_of, find_char, piece, rest_from, split_three, string_of_range};
use crate::utils::{
    iso_datetime_prefix, is_timestamp, lone_cr_to_crlf, replace_trailing_cr_with_crlf,
    spaces_to_t,
};

verus! {

/// The four columns of a data or header line, as character sequences.
pub struct LogLineView {
    pub timestamp: Seq<char>,
    pub filename: Seq<char>,
    pub code: Seq<char>,
    pub message: Seq<char>,
}

/// A line of the import log split into its four tab-separated columns.
/// A code of `"0"` marks a non-error line; any other code is an error code.
#[derive(Clone, Debug, PartialEq, Eq)]
pub struct ImportLogLine {
    pub timestamp: String,
    pub filename: String,
    pub code: String,
    pub message: String,
}

impl View for ImportLogLine {
    type V = LogLineView;

    open spec fn view(&self) -> LogLineView {
        LogLineView {
            timestamp: self.timestamp@,
            filename: self.filename@,
            code: self.code@,
            message: self.message@,
        }
    }
}

/// The code that marks a non-error line.
pub open spec fn success_code() -> Seq<char> {
    seq!['0']
}

/// Whether `code` is exactly `"0"`.
pub fn is_success_code(code: &String) -> (r: bool)
    ensures
        r == (code@ == success_code()),
{
    let c = chars_of(code.as_str());
    let r = c.len() == 1 && c[0] == '0';
    proof {
        if c@.len() == 1 && c@[0] == '0' {
            assert(c@ =~= success_code());
        }
    }
    r
}

impl ImportLogLine {
    /// Whether the line carries an error code.
    pub open spec fn spec_is_error(&self) -> bool {
        self.code@ != success_code()
    }

    /// Whether the line carries an error code, i.e. a code other than `"0"`.
    pub fn is_error(&self) -> (r: bool)
        ensures
            r == self.spec_is_error(),
    {
        !is_success_code(&self.code)
    }

    /// The line as the log writes it: the four columns joined by tabs.
    pub fn to_string(&self) -> (r: String)
        ensures
            r@ == self.timestamp@ + seq!['\t'] + self.filename@ + seq!['\t'] + self.code@ + seq![
                '\t',
            ] + self.message@,
    {
        let mut r = self.timestamp.clone();
        r.push('\t');
        r.append(self.filename.as_str());
        r.push('\t');
        r.append(self.code.as_str());
        r.push('\t');
        r.append(self.message.as_str());
        r
    }
}

impl Default for ImportLogLine {
    fn default() -> (r: Self)
        ensures
            r.timestamp@.len() == 0,
            r.filename@.len() == 0,
            r.code@.len() == 0,
            r.message@.len() == 0,
    {
        ImportLogLine {
            timestamp: String::new(),
            filename: String::new(),
            code: String::new(),
            message: String::new(),
        }
    }
}

/// The category of a raw log line, carrying its columns, or the raw text
/// when it is not a log line at all.
#[derive(Clone, Debug, PartialEq, Eq)]
pub enum LineType {
    Success(ImportLogLine),
    Error(ImportLogLine),
    Warning(ImportLogLine),
    Header(ImportLogLine),
    Other(String),
}

/// The model of a [`LineType`].
pub enum LineView {
    Success(LogLineView),
    Error(LogLineView),
    Warning(LogLineView),
    Header(LogLineView),
    Other(Seq<char>),
}

impl View for LineType {
    type V = LineView;

    open spec fn view(&self) -> LineView {
        match self {
            LineType::Success(l) => LineView::Success(l@),
            LineType::Error(l) => LineView::Error(l@),
            LineType::Warning(l) => LineView::Warning(l@),
            LineType::Header(l) => LineView::Header(l@),
            LineType::Other(s) => LineView::Other(s@),
        }
    }
}

impl LineType {
    /// Whether the line is a header row.
    pub fn is_header(&self) -> (r: bool)
        ensures
            r == (self@ is Header),
    {
        matches!(self, LineType::Header(_))
    }

    /// Whether the line is an error line.
    pub fn is_error(&self) -> (r: bool)
        ensures
            r == (self@ is Error),
    {
        matches!(self, LineType::Error(_))
    }

    /// Whether the line is a warning line.
    pub fn is_warning(&self) -> (r: bool)
        ensures
            r == (self@ is Warning),
    {
        matches!(self, LineType::Warning(_))
    }

    /// Whether the line is a success line.
    pub fn is_success(&self) -> (r: bool)
        ensures
            r == (self@ is Success),
    {
        matches!(self, LineType::Success(_))
    }

    /// Whether the line is not a log line.
    pub fn is_other(&self) -> (r: bool)
        ensures
            r == (self@ is Other),
    {
        matches!(self, LineType::Other(_))
    }

    /// The line's text: the columns joined by tabs, or the raw text.
    pub fn to_string(&self) -> (r: String)
        ensures
            self matches LineType::Other(s) ==> r@ == s@,
            !(self matches LineType::Other(_)) ==> (r@ == {
                let l = self.line_spec();
                l.timestamp + seq!['\t'] + l.filename + seq!['\t'] + l.code + seq!['\t'] + l.message
            }),
    {
        match self {
            LineType::Error(line) => line.to_string(),
            LineType::Header(line) => line.to_string(),
            LineType::Other(line) => line.clone(),
            LineType::Success(line) => line.to_string(),
            LineType::Warning(line) => line.to_string(),
        }
    }

    /// The columns of a data or header line.
    pub open spec fn line_spec(&self) -> LogLineView {
        match self {
            LineType::Success(l) => l@,
            LineType::Error(l) => l@,
            LineType::Warning(l) => l@,
            LineType::Header(l) => l@,
            LineType::Other(_) => arbitrary(),
        }
    }
}

/// Column `k` (one of the first three) of `s`: the text up to the next
/// tab, or empty when the line has no such column.
pub open spec fn field(s: Seq<char>, k: nat) -> Seq<char> {
    piece(s, k, '\t')
}

/// The fourth column of `s`: everything after the third tab, tabs
/// included, or empty when the line has fewer than three tabs.
pub open spec fn last_field(s: Seq<char>) -> Seq<char> {
    rest_from(s, 3, '\t')
}

/// The four columns of `s`, split at its first three tabs.
pub open spec fn fields_of(s: Seq<char>) -> LogLineView {
    LogLineView {
        timestamp: field(s, 0),
        filename: field(s, 1),
        code: field(s, 2),
        message: last_field(s),
    }
}

/// The category of the raw line `s`, given whether its first column is a
/// timestamp.
pub open spec fn line_model(s: Seq<char>, found_timestamp: bool) -> LineView {
    let l = fields_of(s);
    if found_timestamp {
        if l.code != success_code() {
            LineView::Error(LogLineView { message: lone_cr_to_crlf(l.message), ..l })
        } else if any_locale_warning(l.message) {
            LineView::Warning(l)
        } else {
            LineView::Success(l)
        }
    } else if any_locale_header(s) {
        LineView::Header(l)
    } else {
        LineView::Other(s)
    }
}

/// Whether the first column of `s` reads as a timestamp.
pub open spec fn spec_starts_with_timestamp(s: Seq<char>) -> bool {
    iso_datetime_prefix(spaces_to_t(field(s, 0)))
}

/// The category of the raw line `s`.
pub open spec fn spec_parse_line(s: Seq<char>) -> LineView {
    line_model(s, spec_starts_with_timestamp(s))
}

/// Splits `line` at its first three tabs into its four columns; missing
/// columns are empty.
fn split_fields(line: &Vec<char>) -> (r: ImportLogLine)
    ensures
        r@ == fields_of(line@),
{
    let (timestamp, filename, code, message) = split_three(line, '\t');
    let r = ImportLogLine {
        timestamp: timestamp.unwrap_or(String::new()),
        filename: filename.unwrap_or(String::new()),
        code: code.unwrap_or(String::new()),
        message,
    };
    assert(r@.filename =~= field(line@, 1));
    assert(r@.code =~= field(line@, 2));
    r
}

/// Classifies `line` given whether its first column is a timestamp, which
/// the caller has decided.
///
/// A timestamped line is an error when its code is not `"0"` (and its
/// message has each lone carriage return that a character follows turned
/// into CR LF), a warning when some locale's warning text ends or appears in
/// its message, and a success otherwise. A line without a timestamp is a
/// header when it ends with some locale's header row, and otherwise is kept
/// verbatim as `Other`.
pub fn classify_line(line: &str, found_timestamp: bool) -> (r: LineType)
    ensures
        r@ == line_model(line@, found_timestamp),
        !found_timestamp && !any_locale_header(line@) ==> r@ == LineView::Other(line@),
        found_timestamp && fields_of(line@).code == success_code() ==> {
            if any_locale_warning(fields_of(line@).message) {
                r@ == LineView::Warning(fields_of(line@))
            } else {
                r@ == LineView::Success(fields_of(line@))
            }
        },
        found_timestamp && fields_of(line@).code != success_code() ==> r@ is Error && r@->Error_0
            == (LogLineView {
            message: lone_cr_to_crlf(fields_of(line@).message),
            ..fields_of(line@)
        }),
{
    let found_header = !found_timestamp && is_header(line);
    if !found_timestamp && !found_header {
        return LineType::Other(line.to_owned());
    }
    let chars = chars_of(line);
    let mut parsed = split_fields(&chars);
    if found_header {
        LineType::Header(parsed)
    } else if parsed.is_error() {
        replace_trailing_cr_with_crlf(&mut parsed.message);
        LineType::Error(parsed)
    } else if contains_warning_text(&parsed) {
        LineType::Warning(parsed)
    } else {
        LineType::Success(parsed)
    }
}

/// The first column of `line`, up to its first tab.
fn first_field(line: &str) -> (r: String)
    ensures
        r@ == field(line@, 0),
{
    let chars = chars_of(line);
    let e0 = find_char(&chars, 0, '\t');
    string_of_range(&chars, 0, e0)
}

/// Classifies a raw line of the import log. Its first column decides
/// whether it is a data line: see [`is_timestamp`] and [`classify_line`].
pub fn parse_line(line: &str) -> (r: LineType)
    ensures
        r@ == spec_parse_line(line@),
        !spec_starts_with_timestamp(line@) && !any_locale_header(line@) ==> r@ == LineView::Other(
            line@,
        ),
        spec_starts_with_timestamp(line@) && fields_of(line@).code == success_code() ==> {
            if any_locale_warning(fields_of(line@).message) {
                r@ == LineView::Warning(fields_of(line@))
            } else {
                r@ == LineView::Success(fields_of(line@))
            }
        },
        spec_starts_with_timestamp(line@) && fields_of(line@).code != success_code() ==> r@ is Error
            && r@->Error_0 == (LogLineView {
            message: lone_cr_to_crlf(fields_of(line@).message),
            ..fields_of(line@)
        }),
{
    let timestamp = first_field(line);
    let found_timestamp = is_timestamp(timestamp.as_str());
    classify_line(line, found_timestamp)
}

/// Classification is a function of the raw line alone: two classifications
/// of the same line agree in category and in every column.
pub proof fn parse_line_is_deterministic(line: Seq<char>, first: LineType, second: LineType)
    requires
        first@ == spec_parse_line(line),
        second@ == spec_parse_line(line),
    ensures
        first@ == second@,
{
}

} // verus!
