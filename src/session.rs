//! The decisions a watch session makes around its I/O: which lines to show,
//! when to print a separator, when an error may notify, which log to open,
//! and what typed commands mean.

use vstd::prelude::*;

use crate::error_rule::{apply_error_rules, spec_apply_error_rules, ErrorRule};
use crate::log_line::{ImportLogLine, LineType};
use crate::text::str_eq;

verus! {

/// The filters a session prints under.
#[derive(Clone, Copy, Debug, PartialEq, Eq, Structural)]
pub struct DisplayOptions {
    /// Print only errors (and headers); may be combined with `warnings_only`.
    pub errors_only: bool,
    /// Print only warnings (and headers); may be combined with `errors_only`.
    pub warnings_only: bool,
    /// Print a separator between import operations.
    pub separator: bool,
}

/// Whether a classified line is printed: headers always are; otherwise
/// what the filters select, or everything when no filter is set.
pub fn should_show_line(opts: &DisplayOptions, line: &LineType) -> (r: bool)
    ensures
        r == (line@ is Header || (opts.errors_only && line@ is Error) || (opts.warnings_only
            && line@ is Warning) || (!opts.errors_only && !opts.warnings_only)),
{
    line.is_header() || (opts.errors_only && line.is_error()) || (opts.warnings_only
        && line.is_warning()) || (!opts.errors_only && !opts.warnings_only)
}

/// A separator owed to the output, printed only once a filtered line is
/// shown, so that hidden lines leave no run of empty separators.
#[derive(Clone, Copy, Debug, PartialEq, Eq, Structural)]
pub struct SeparatorQueue {
    pub pending: bool,
}

impl SeparatorQueue {
    /// Nothing owed.
    pub fn new() -> (r: Self)
        ensures
            !r.pending,
    {
        SeparatorQueue { pending: false }
    }

    /// A line was hidden by a filter: with separators on, one is owed.
    pub fn on_hidden_line(&mut self, opts: &DisplayOptions)
        ensures
            final(self).pending == (old(self).pending || (opts.separator && (opts.errors_only
                || opts.warnings_only))),
    {
        if opts.separator && (opts.errors_only || opts.warnings_only) {
            self.pending = true;
        }
    }

    /// An error or warning is about to be printed: whether the owed
    /// separator goes first. Nothing is owed afterwards.
    pub fn take(&mut self) -> (r: bool)
        ensures
            r == old(self).pending,
            !final(self).pending,
    {
        let r = self.pending;
        self.pending = false;
        r
    }
}

/// Whether an error line may raise a notification: its code is not among
/// the quiet codes, and no rule quiets or ignores it.
pub fn error_notification_allowed(
    quiet_errors: &Vec<String>,
    rules: &[ErrorRule],
    line: &ImportLogLine,
) -> (r: bool)
    ensures
        r == (!(exists|i: int|
            0 <= i < quiet_errors@.len() && (#[trigger] quiet_errors@[i])@ == line.code@)
            && spec_apply_error_rules(rules@, line@) is None),
{
    for i in 0..quiet_errors.len()
        invariant
            forall|j: int| 0 <= j < i ==> (#[trigger] quiet_errors@[j])@ != line.code@,
    {
        if str_eq(quiet_errors[i].as_str(), line.code.as_str()) {
            return false;
        }
    }
    apply_error_rules(rules, line).is_none()
}

/// Where the log to watch comes from.
#[derive(Clone, Debug, PartialEq, Eq)]
pub enum PathType {
    /// A path given on the command line.
    CustomPath(String),
    /// The log in the working directory.
    CurrentDir(String),
    /// The log in the user's documents directory.
    DocsDir(String),
}

impl PathType {
    /// The line announcing which log is watched; empty for a given path.
    pub fn message(&self) -> (r: String)
        ensures
            self matches PathType::CurrentDir(p) ==> r@ == "Using current directory: "@ + p@,
            self matches PathType::DocsDir(p) ==> r@ == "Using documents directory: "@ + p@,
            self matches PathType::CustomPath(_) ==> r@ == ""@,
    {
        match self {
            PathType::CurrentDir(path) => {
                let mut m = "Using current directory: ".to_owned();
                m.append(path.as_str());
                m
            },
            PathType::DocsDir(path) => {
                let mut m = "Using documents directory: ".to_owned();
                m.append(path.as_str());
                m
            },
            PathType::CustomPath(_) => "".to_owned(),
        }
    }

    /// The path of the log.
    pub fn path(&self) -> (r: &String)
        ensures
            self matches PathType::CustomPath(p) ==> r == p,
            self matches PathType::CurrentDir(p) ==> r == p,
            self matches PathType::DocsDir(p) ==> r == p,
    {
        match self {
            PathType::CustomPath(path) => path,
            PathType::CurrentDir(path) => path,
            PathType::DocsDir(path) => path,
        }
    }
}

/// Picks the log to watch: the `--path` option, else the positional path,
/// else the documents directory when asked for, else the working
/// directory. The two directories are the log paths inside them, when the
/// system could name them.
pub fn get_path_type(
    path: Option<String>,
    path_unnamed: Option<String>,
    use_docs_dir: bool,
    docs_dir_log: Option<String>,
    current_dir_log: Option<String>,
) -> (r: Result<PathType, String>)
    ensures
        path matches Some(p) ==> r == Ok::<PathType, String>(PathType::CustomPath(p)),
        path is None ==> (path_unnamed matches Some(p) ==> r == Ok::<PathType, String>(
            PathType::CustomPath(p),
        )),
        path is None && path_unnamed is None && use_docs_dir ==> match docs_dir_log {
            Some(p) => r == Ok::<PathType, String>(PathType::DocsDir(p)),
            None => r is Err && r->Err_0@ == "couldn't find documents directory"@,
        },
        path is None && path_unnamed is None && !use_docs_dir ==> match current_dir_log {
            Some(p) => r == Ok::<PathType, String>(PathType::CurrentDir(p)),
            None => r is Err && r->Err_0@ == "couldn't find current directory"@,
        },
{
    match (path, path_unnamed) {
        (Some(p), _) => Ok(PathType::CustomPath(p)),
        (None, Some(p)) => Ok(PathType::CustomPath(p)),
        (None, None) => {
            if use_docs_dir {
                match docs_dir_log {
                    Some(p) => Ok(PathType::DocsDir(p)),
                    None => Err("couldn't find documents directory".to_owned()),
                }
            } else {
                match current_dir_log {
                    Some(p) => Ok(PathType::CurrentDir(p)),
                    None => Err("couldn't find current directory".to_owned()),
                }
            }
        },
    }
}

/// A command typed while the log is watched.
#[derive(Clone, Copy, Debug, PartialEq, Eq, Structural)]
pub enum KeyCommand {
    Quit,
    Clear,
    Nothing,
}

/// Reads a typed line: `q`, `quit` or `exit` quit, `clear` clears the
/// terminal, anything else does nothing.
pub fn parse_key_command(line: &str) -> (r: KeyCommand)
    ensures
        (line@ == "q"@ || line@ == "quit"@ || line@ == "exit"@) ==> r == KeyCommand::Quit,
        line@ == "clear"@ ==> r == KeyCommand::Clear,
        !(line@ == "q"@ || line@ == "quit"@ || line@ == "exit"@ || line@ == "clear"@) ==> r
            == KeyCommand::Nothing,
{
    proof {
        reveal_strlit("q");
        reveal_strlit("quit");
        reveal_strlit("exit");
        reveal_strlit("clear");
        assert("clear"@.len() == 5);
        assert("q"@.len() == 1 && "quit"@.len() == 4 && "exit"@.len() == 4);
    }
    if str_eq(line, "q") || str_eq(line, "quit") || str_eq(line, "exit") {
        KeyCommand::Quit
    } else if str_eq(line, "clear") {
        KeyCommand::Clear
    } else {
        KeyCommand::Nothing
    }
}

} // verus!
