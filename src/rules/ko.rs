//! Korean export phrases.

use vstd::prelude::*;

use crate::text::{contains, contains_exec, ends_with, ends_with_exec};

verus! {

/// Whether the message reports that an item already exists.
pub open spec fn spec_warning_already_exists(msg: Seq<char>) -> bool {
    ends_with(msg, "이미 존재합니다."@)
        || ends_with(msg, "이미 존재합니다.."@)
        || ends_with(msg, "”인 값 목록이 이미 존재함)."@)
        || ends_with(msg, "”은(는) 이미 존재합니다)."@)
}

/// Whether the message reports that an item already exists.
pub fn warning_already_exists(msg: &Vec<char>) -> (r: bool)
    ensures
        r == spec_warning_already_exists(msg@),
{
    ends_with_exec(msg, "이미 존재합니다.")
        || ends_with_exec(msg, "이미 존재합니다..")
        || ends_with_exec(msg, "”인 값 목록이 이미 존재함).")
        || ends_with_exec(msg, "”은(는) 이미 존재합니다).")
}

/// Whether the message reports a file reference that was created and imported automatically.
pub open spec fn spec_warning_eds_created_and_imported_automatically(msg: Seq<char>) -> bool {
    contains(msg, "자동으로 생성되고 가져왔습니다."@)
}

/// Whether the message reports a file reference that was created and imported automatically.
pub fn warning_eds_created_and_imported_automatically(msg: &Vec<char>) -> (r: bool)
    ensures
        r == spec_warning_eds_created_and_imported_automatically(msg@),
{
    contains_exec(msg, "자동으로 생성되고 가져왔습니다.")
}

/// Whether the message reports a file reference used instead of another one for the same file.
pub open spec fn spec_warning_eds_used_instead(msg: Seq<char>) -> bool {
    contains(msg, "같은 파일을 참조하므로 대신 파일 참조"@)
}

/// Whether the message reports a file reference used instead of another one for the same file.
pub fn warning_eds_used_instead(msg: &Vec<char>) -> (r: bool)
    ensures
        r == spec_warning_eds_used_instead(msg@),
{
    contains_exec(msg, "같은 파일을 참조하므로 대신 파일 참조")
}

/// Whether the raw line ends with the column header row.
pub open spec fn spec_is_header(line: Seq<char>) -> bool {
    ends_with(line, "타임 스탬프\t파일 이름\t오류\t메시지"@)
}

/// Whether the raw line ends with the column header row.
pub fn is_header(line: &Vec<char>) -> (r: bool)
    ensures
        r == spec_is_header(line@),
{
    ends_with_exec(line, "타임 스탬프\t파일 이름\t오류\t메시지")
}

/// Whether the message announces the start of an import operation.
pub open spec fn spec_is_operation_start(msg: Seq<char>) -> bool {
    ends_with(msg, " 가져오기가 시작됨"@)
        || ends_with(msg, "가져오기 작업 시작됨"@)
}

/// Whether the message announces the start of an import operation.
pub fn is_operation_start(msg: &Vec<char>) -> (r: bool)
    ensures
        r == spec_is_operation_start(msg@),
{
    ends_with_exec(msg, " 가져오기가 시작됨")
        || ends_with_exec(msg, "가져오기 작업 시작됨")
}

} // verus!
