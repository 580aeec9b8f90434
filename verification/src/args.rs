//! Building the generation job's argument vector and environment: the exact
//! protocol the spawned script is invoked with.

use vstd::prelude::*;
use crate::events::GenerateOptions;
use crate::text::{has_segment, str_has_segment};

verus! {

/// The search-path separator of the platform.
pub open spec fn spec_path_sep(windows: bool) -> char {
    if windows {
        ';'
    } else {
        ':'
    }
}

/// The argument vector handed to the runtime: entry script, the required
/// options in fixed order, then the optional output path, the PNG flag and
/// the drop-shadow flag.
pub fn build_generation_args(build_script: &str, opts: &GenerateOptions) -> (r: Vec<String>)
    ensures
        r@.len() == 7 + (if opts.output_path is Some {
            2int
        } else {
            0int
        }) + 1 + (if opts.png_drop_shadow {
            1int
        } else {
            0int
        }),
        r@[0]@ == build_script@,
        r@[1]@ == "--input"@,
        r@[2]@ == opts.input_path@,
        r@[3]@ == "--palette"@,
        r@[4]@ == opts.palette@,
        r@[5]@ == "--view-mode"@,
        r@[6]@ == opts.view_mode@,
        opts.output_path matches Some(o) ==> r@[7]@ == "--output"@ && r@[8]@ == o@,
        ({
            let f = if opts.output_path is Some {
                9int
            } else {
                7int
            };
            &&& r@[f]@ == (if opts.export_png {
                "--png"@
            } else {
                "--no-png"@
            })
            &&& (opts.png_drop_shadow ==> r@[f + 1]@ == "--drop-shadow"@)
        }),
{
    let mut r: Vec<String> = Vec::new();
    r.push(String::from_str(build_script));
    r.push(String::from_str("--input"));
    r.push(opts.input_path.clone());
    r.push(String::from_str("--palette"));
    r.push(opts.palette.clone());
    r.push(String::from_str("--view-mode"));
    r.push(opts.view_mode.clone());
    match &opts.output_path {
        Some(o) => {
            r.push(String::from_str("--output"));
            r.push(o.clone());
        },
        None => {},
    }
    if opts.export_png {
        r.push(String::from_str("--png"));
    } else {
        r.push(String::from_str("--no-png"));
    }
    if opts.png_drop_shadow {
        r.push(String::from_str("--drop-shadow"));
    }
    r
}

/// The environment handed to the generation job: the resolved dependency
/// root's parent through the module search-path variable, and the resolved
/// browser-runtime root through its own variable — exactly the installers'
/// state, nothing more.
pub fn build_generation_env(deps_parent: Option<String>, browser_root: Option<String>) -> (r: Vec<
    (String, String),
>)
    ensures
        r@.len() == (if deps_parent is Some {
            1int
        } else {
            0int
        }) + (if browser_root is Some {
            1int
        } else {
            0int
        }),
        deps_parent matches Some(d) ==> r@[0].0@ == "NODE_PATH"@ && r@[0].1@ == d@,
        browser_root matches Some(b) ==> {
            let i = if deps_parent is Some {
                1int
            } else {
                0int
            };
            r@[i].0@ == "PLAYWRIGHT_BROWSERS_PATH"@ && r@[i].1@ == b@
        },
{
    let mut r: Vec<(String, String)> = Vec::new();
    match deps_parent {
        Some(d) => {
            r.push((String::from_str("NODE_PATH"), d));
        },
        None => {},
    }
    match browser_root {
        Some(b) => {
            r.push((String::from_str("PLAYWRIGHT_BROWSERS_PATH"), b));
        },
        None => {},
    }
    r
}

/// Prepend a directory to a search-path variable, idempotently: an empty
/// variable becomes the directory alone, a variable already naming the
/// directory as one of its segments is left as it is, and otherwise the
/// directory is put in front with the platform's separator.
pub fn prepend_search_path(dir: &str, existing: &str, windows: bool) -> (r: String)
    requires
        dir@.len() >= 1,
    ensures
        existing@.len() == 0 ==> r@ == dir@,
        existing@.len() > 0 && has_segment(existing@, spec_path_sep(windows), dir@) ==> r@
            == existing@,
        existing@.len() > 0 && !has_segment(existing@, spec_path_sep(windows), dir@) ==> r@
            == dir@.push(spec_path_sep(windows)) + existing@,
{
    let sep = if windows {
        ';'
    } else {
        ':'
    };
    if existing.unicode_len() == 0 {
        return String::from_str(dir);
    }
    if str_has_segment(existing, sep, dir) {
        return String::from_str(existing);
    }
    let mut r = String::from_str(dir);
    if windows {
        r.append(";");
        proof {
            reveal_strlit(";");
            assert(dir@ + ";"@ =~= dir@.push(';'));
        }
    } else {
        r.append(":");
        proof {
            reveal_strlit(":");
            assert(dir@ + ":"@ =~= dir@.push(':'));
        }
    }
    r.append(existing);
    r
}

} // verus!
