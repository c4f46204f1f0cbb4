//! French export phrases.

use vstd::prelude::*;

use crate::text::{ends_with, ends_with_exec};

verus! {

/// Whether the message reports that an item already exists.
pub open spec fn spec_warning_already_exists(msg: Seq<char>) -> bool {
    ends_with(msg, "existe déjà."@)
}

/// Whether the message reports that an item already exists.
pub fn warning_already_exists(msg: &Vec<char>) -> (r: bool)
    ensures
        r == spec_warning_already_exists(msg@),
{
    ends_with_exec(msg, "existe déjà.")
}

/// Whether the message reports a file reference that was created and imported automatically.
pub open spec fn spec_warning_eds_created_and_imported_automatically(msg: Seq<char>) -> bool {
    ends_with(msg, "créée et importée automatiquement."@)
}

/// Whether the message reports a file reference that was created and imported automatically.
pub fn warning_eds_created_and_imported_automatically(msg: &Vec<char>) -> (r: bool)
    ensures
        r == spec_warning_eds_created_and_imported_automatically(msg@),
{
    ends_with_exec(msg, "créée et importée automatiquement.")
}

/// Whether the message reports a file reference used instead of another one for the same file.
pub open spec fn spec_warning_eds_used_instead(msg: Seq<char>) -> bool {
    ends_with(msg, "utilisée en remplacement, car elle fait référence au même fichier."@)
}

/// Whether the message reports a file reference used instead of another one for the same file.
pub fn warning_eds_used_instead(msg: &Vec<char>) -> (r: bool)
    ensures
        r == spec_warning_eds_used_instead(msg@),
{
    ends_with_exec(msg, "utilisée en remplacement, car elle fait référence au même fichier.")
}

/// Whether the raw line ends with the column header row.
pub open spec fn spec_is_header(line: Seq<char>) -> bool {
    ends_with(line, "Horodatage\tNomFichier\tErreur\tMessage"@)
}

/// Whether the raw line ends with the column header row.
pub fn is_header(line: &Vec<char>) -> (r: bool)
    ensures
        r == spec_is_header(line@),
{
    ends_with_exec(line, "Horodatage\tNomFichier\tErreur\tMessage")
}

/// Whether the message announces the start of an import operation.
pub open spec fn spec_is_operation_start(msg: Seq<char>) -> bool {
    ends_with(msg, " démarrée"@)
        || ends_with(msg, " démarrées"@)
}

/// Whether the message announces the start of an import operation.
pub fn is_operation_start(msg: &Vec<char>) -> (r: bool)
    ensures
        r == spec_is_operation_start(msg@),
{
    ends_with_exec(msg, " démarrée")
        || ends_with_exec(msg, " démarrées")
}

} // verus!
