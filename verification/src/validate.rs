//! Validation of a generation request: the input file must exist and carry a
//! recognised data extension. Nothing else about the request is interpreted.

use vstd::prelude::*;
use crate::errors::HostError;
use crate::events::GenerateOptions;
use crate::text::{eq_ignore_case, str_eq_ignore_case};

verus! {

/// A path separator on any of the supported operating systems.
pub open spec fn is_sep(c: char) -> bool {
    c == '/' || c == '\\'
}

/// The index where the file name begins: just after the last separator, or 0
/// when the path holds none.
pub open spec fn name_start(p: Seq<char>) -> int
    decreases p.len(),
{
    if p.len() == 0 {
        0
    } else if is_sep(p.last()) {
        p.len() as int
    } else {
        name_start(p.drop_last())
    }
}

/// The index just after the last dot, or 0 when the path holds none.
pub open spec fn dot_start(p: Seq<char>) -> int
    decreases p.len(),
{
    if p.len() == 0 {
        0
    } else if p.last() == '.' {
        p.len() as int
    } else {
        dot_start(p.drop_last())
    }
}

/// The extension of a path: what follows the last dot of the file name,
/// provided that dot is not the name's first character. A name without a dot,
/// or one that only starts with a dot, has no extension.
pub open spec fn spec_extension(p: Seq<char>) -> Option<Seq<char>> {
    if dot_start(p) >= name_start(p) + 2 {
        Some(p.subrange(dot_start(p), p.len() as int))
    } else {
        None
    }
}

proof fn lemma_name_start_at(p: Seq<char>, e: int)
    requires
        0 <= e <= p.len(),
        forall|k: int| e <= k < p.len() ==> !is_sep(p[k]),
        e == 0 || is_sep(p[e - 1]),
    ensures
        name_start(p) == e,
    decreases p.len(),
{
    if e == p.len() {
        if p.len() > 0 {
            assert(is_sep(p.last()));
        }
    } else {
        assert(!is_sep(p.last()));
        let d = p.drop_last();
        assert(forall|k: int| e <= k < d.len() ==> !is_sep(d[k]));
        lemma_name_start_at(d, e);
    }
}

proof fn lemma_dot_start_at(p: Seq<char>, e: int)
    requires
        0 <= e <= p.len(),
        forall|k: int| e <= k < p.len() ==> p[k] != '.',
        e == 0 || p[e - 1] == '.',
    ensures
        dot_start(p) == e,
    decreases p.len(),
{
    if e == p.len() {
        if p.len() > 0 {
            assert(p.last() == '.');
        }
    } else {
        assert(p.last() != '.');
        let d = p.drop_last();
        assert(forall|k: int| e <= k < d.len() ==> d[k] != '.');
        lemma_dot_start_at(d, e);
    }
}

/// The extension of `p`, as [`spec_extension`] defines it.
pub fn extension_of(p: &str) -> (r: Option<&str>)
    ensures
        r is Some <==> spec_extension(p@) is Some,
        r matches Some(e) ==> Some(e@) == spec_extension(p@),
{
    let n = p.unicode_len();
    let mut ns: usize = n;
    while ns > 0 && !is_sep_char(p.get_char(ns - 1))
        invariant
            ns <= n,
            n == p@.len(),
            forall|k: int| ns <= k < n ==> !is_sep(p@[k]),
        decreases ns,
    {
        ns -= 1;
    }
    let mut ds: usize = n;
    while ds > 0 && p.get_char(ds - 1) != '.'
        invariant
            ds <= n,
            n == p@.len(),
            forall|k: int| ds <= k < n ==> p@[k] != '.',
        decreases ds,
    {
        ds -= 1;
    }
    proof {
        lemma_name_start_at(p@, ns as int);
        lemma_dot_start_at(p@, ds as int);
    }
    if ds >= 2 && ds - 2 >= ns {
        Some(p.substring_char(ds, n))
    } else {
        None
    }
}

/// Executable counterpart of [`is_sep`].
pub fn is_sep_char(c: char) -> (b: bool)
    ensures
        b == is_sep(c),
{
    c == '/' || c == '\\'
}

/// The extensions a generation input may carry.
pub open spec fn is_accepted_extension(e: Seq<char>) -> bool {
    ||| eq_ignore_case(e, "json"@)
    ||| eq_ignore_case(e, "xlsx"@)
    ||| eq_ignore_case(e, "xls"@)
}

/// A path names an acceptable input file when its extension is one of the
/// recognised data formats, compared without regard to ASCII case.
pub open spec fn spec_input_path_ok(p: Seq<char>) -> bool {
    spec_extension(p) matches Some(e) && is_accepted_extension(e)
}

/// Whether the path's extension is an accepted input format.
pub fn input_path_ok(p: &str) -> (b: bool)
    ensures
        b == spec_input_path_ok(p@),
{
    match extension_of(p) {
        Some(e) => {
            str_eq_ignore_case(e, "json") || str_eq_ignore_case(e, "xlsx") || str_eq_ignore_case(
                e,
                "xls",
            )
        },
        None => false,
    }
}

/// The message given when the input file is missing.
pub open spec fn missing_file_message(p: Seq<char>) -> Seq<char> {
    "File does not exist: "@ + p
}

/// The message given when the input file is of the wrong kind.
pub open spec fn bad_extension_message(p: Seq<char>) -> Seq<char> {
    "Invalid file type: ."@ + (match spec_extension(p) {
        Some(e) => e,
        None => Seq::empty(),
    }) + ". Expected .json or .xlsx"@
}

/// Validate a request's input path against the one filesystem fact the caller
/// supplies: whether the file exists. Rejection happens before any process is
/// spawned; a rejected request reaches no further stage.
pub fn validate_input(path: &str, exists: bool) -> (r: Result<(), HostError>)
    ensures
        r is Ok <==> exists && spec_input_path_ok(path@),
        !exists ==> (r matches Err(e) && e matches HostError::Validation(d) && d@
            == missing_file_message(path@)),
        exists && !spec_input_path_ok(path@) ==> (r matches Err(e) && e
            matches HostError::Validation(d) && d@ == bad_extension_message(path@)),
{
    if !exists {
        let mut d = String::from_str("File does not exist: ");
        d.append(path);
        return Err(HostError::Validation(d));
    }
    if input_path_ok(path) {
        Ok(())
    } else {
        let mut d = String::from_str("Invalid file type: .");
        match extension_of(path) {
            Some(e) => d.append(e),
            None => (),
        }
        d.append(". Expected .json or .xlsx");
        Err(HostError::Validation(d))
    }
}

/// The corrective message given when PNG export is asked for without the
/// browser runtime.
pub open spec fn png_unavailable_message() -> Seq<char> {
    "PNG export requires the internal browser runtime. Please install it from the Setup panel before exporting PNG."@
}

/// PNG export needs the headless-browser runtime: a request that asks for it
/// while the browser root does not resolve is rejected with the corrective
/// message, rather than degrading silently to HTML-only output.
pub fn validate_png_export(export_png: bool, browser_available: bool) -> (r: Result<
    (),
    HostError,
>)
    ensures
        r is Ok <==> (!export_png || browser_available),
        r matches Err(e) ==> (e matches HostError::Precondition(d) && d@
            == png_unavailable_message()),
{
    if export_png && !browser_available {
        Err(
            HostError::Precondition(
                String::from_str(
                    "PNG export requires the internal browser runtime. Please install it from the Setup panel before exporting PNG.",
                ),
            ),
        )
    } else {
        Ok(())
    }
}

/// Validate a whole generation request. Only the input path is checked; the
/// palette and view-mode identifiers pass through uninterpreted.
pub fn validate_request(opts: &GenerateOptions, input_exists: bool) -> (r: Result<(), HostError>)
    ensures
        r is Ok <==> input_exists && spec_input_path_ok(opts.input_path@),
        !input_exists ==> (r matches Err(e) && e matches HostError::Validation(d) && d@
            == missing_file_message(opts.input_path@)),
        input_exists && !spec_input_path_ok(opts.input_path@) ==> (r matches Err(e) && e
            matches HostError::Validation(d) && d@ == bad_extension_message(opts.input_path@)),
{
    validate_input(opts.input_path.as_str(), input_exists)
}

} // verus!
