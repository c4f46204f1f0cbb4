//! Spanish export phrases.

use vstd::prelude::*;

use crate::text::{contains, contains_exec, ends_with, ends_with_exec};

verus! {

/// Whether the message reports that an item already exists.
pub open spec fn spec_warning_already_exists(msg: Seq<char>) -> bool {
    ends_with(msg, "ya existe."@)
        || contains(msg, "” pues ya existe un"@)
        || contains(msg, "” porque ya existe un"@)
}

/// Whether the message reports that an item already exists.
pub fn warning_already_exists(msg: &Vec<char>) -> (r: bool)
    ensures
        r == spec_warning_already_exists(msg@),
{
    ends_with_exec(msg, "ya existe.")
        || contains_exec(msg, "” pues ya existe un")
        || contains_exec(msg, "” porque ya existe un")
}

/// Whether the message reports a file reference that was created and imported automatically.
pub open spec fn spec_warning_eds_created_and_imported_automatically(msg: Seq<char>) -> bool {
    ends_with(msg, "creada e importada automáticamente."@)
}

/// Whether the message reports a file reference that was created and imported automatically.
pub fn warning_eds_created_and_imported_automatically(msg: &Vec<char>) -> (r: bool)
    ensures
        r == spec_warning_eds_created_and_imported_automatically(msg@),
{
    ends_with_exec(msg, "creada e importada automáticamente.")
}

/// Whether the message reports a file reference used instead of another one for the same file.
pub open spec fn spec_warning_eds_used_instead(msg: Seq<char>) -> bool {
    ends_with(msg, "ya que se refiere al mismo archivo."@)
}

/// Whether the message reports a file reference used instead of another one for the same file.
pub fn warning_eds_used_instead(msg: &Vec<char>) -> (r: bool)
    ensures
        r == spec_warning_eds_used_instead(msg@),
{
    ends_with_exec(msg, "ya que se refiere al mismo archivo.")
}

/// Whether the raw line ends with the column header row.
pub open spec fn spec_is_header(line: Seq<char>) -> bool {
    ends_with(line, "Fecha y hora\tNombre de archivo\tError\tMensaje"@)
}

/// Whether the raw line ends with the column header row.
pub fn is_header(line: &Vec<char>) -> (r: bool)
    ensures
        r == spec_is_header(line@),
{
    ends_with_exec(line, "Fecha y hora\tNombre de archivo\tError\tMensaje")
}

/// Whether the message announces the start of an import operation.
pub open spec fn spec_is_operation_start(msg: Seq<char>) -> bool {
    ends_with(msg, " iniciada"@)
}

/// Whether the message announces the start of an import operation.
pub fn is_operation_start(msg: &Vec<char>) -> (r: bool)
    ensures
        r == spec_is_operation_start(msg@),
{
    ends_with_exec(msg, " iniciada")
}

} // verus!
