//! Dispatch for the file-parsing operation: which of the two parsing routes
//! a file takes, decided by its extension alone.

use vstd::prelude::*;
use crate::errors::HostError;
use crate::text::eq_ignore_case;
use crate::validate::{extension_of, missing_file_message, spec_extension};
use crate::text::str_eq_ignore_case;

verus! {

/// How a file is to be parsed.
#[derive(Clone, Copy, Debug, PartialEq, Eq, Structural)]
pub enum ParseAction {
    /// A structured-text file: read it and hand the content back as it is.
    ReadJson,
    /// A spreadsheet: run the bundled parse script against it.
    RunParseScript,
}

/// The extension takes the direct reading route.
pub open spec fn is_json_extension(e: Seq<char>) -> bool {
    eq_ignore_case(e, "json"@)
}

/// The extension takes the spreadsheet route.
pub open spec fn is_spreadsheet_extension(e: Seq<char>) -> bool {
    eq_ignore_case(e, "xlsx"@) || eq_ignore_case(e, "xls"@)
}

/// The message given when a file's kind has no parsing route.
pub open spec fn unsupported_parse_message(p: Seq<char>) -> Seq<char> {
    "Unsupported file type for parsing: "@ + (match spec_extension(p) {
        Some(e) => e,
        None => Seq::empty(),
    })
}

/// Decide the parsing route for a path, given whether the file exists. A
/// missing file or an unrecognised extension is rejected here, before any
/// reading or spawning.
pub fn parse_dispatch(path: &str, exists: bool) -> (r: Result<ParseAction, HostError>)
    ensures
        !exists ==> (r matches Err(e) && e matches HostError::Validation(d) && d@
            == missing_file_message(path@)),
        exists && (spec_extension(path@) matches Some(e) && is_json_extension(e)) ==> (r matches Ok(a) && a == ParseAction::ReadJson),
        exists && (spec_extension(path@) matches Some(e) && !is_json_extension(e)
            && is_spreadsheet_extension(e)) ==> (r matches Ok(a) && a == ParseAction::RunParseScript),
        exists && (match spec_extension(path@) {
            Some(e) => !is_json_extension(e) && !is_spreadsheet_extension(e),
            None => true,
        }) ==> (r matches Err(e) && e matches HostError::Validation(d) && d@
            == unsupported_parse_message(path@)),
{
    if !exists {
        let mut d = String::from_str("File does not exist: ");
        d.append(path);
        return Err(HostError::Validation(d));
    }
    match extension_of(path) {
        Some(e) => {
            if str_eq_ignore_case(e, "json") {
                Ok(ParseAction::ReadJson)
            } else if str_eq_ignore_case(e, "xlsx") || str_eq_ignore_case(e, "xls") {
                Ok(ParseAction::RunParseScript)
            } else {
                let mut d = String::from_str("Unsupported file type for parsing: ");
                d.append(e);
                Err(HostError::Validation(d))
            }
        },
        None => {
            let d = String::from_str("Unsupported file type for parsing: ");
            Err(HostError::Validation(d))
        },
    }
}

/// The message naming a missing parse script.
pub fn parse_script_missing_message(script_path: &str) -> (r: String)
    ensures
        r@ == "Parse script not found at: "@ + script_path@,
{
    let mut r = String::from_str("Parse script not found at: ");
    r.append(script_path);
    r
}

/// The message wrapped around the parse script's diagnostics on failure.
pub fn excel_parse_failure_message(stderr: &str) -> (r: String)
    ensures
        r@ == "Failed to parse Excel file: "@ + stderr@,
{
    let mut r = String::from_str("Failed to parse Excel file: ");
    r.append(stderr);
    r
}

} // verus!
