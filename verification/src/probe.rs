//! The decisions behind probing host tools: which arguments test a hash
//! tool, when a probed tool counts as usable, and what the SDK-path and
//! tool-lookup probes report from a command's output.

use vstd::prelude::*;

use crate::doctor::ToolStatus;
use crate::parse::{trim_chars, trimmed};
use crate::text::{chars_vec, str_eq, string_of};

verus! {

/// The arguments that make a hash tool digest an empty input (`null_path`
/// is the system's empty device): `sha256sum FILE`, `shasum -a 256 FILE`,
/// `openssl dgst -sha256 FILE`; none for another tool.
pub open spec fn hash_probe_arguments(name: Seq<char>, null_path: Seq<char>) -> Option<Seq<Seq<char>>> {
    if name == "sha256sum"@ {
        Some(seq![null_path])
    } else if name == "shasum"@ {
        Some(seq!["-a"@, "256"@, null_path])
    } else if name == "openssl"@ {
        Some(seq!["dgst"@, "-sha256"@, null_path])
    } else {
        None
    }
}

/// The arguments of a hash tool's probe (see `hash_probe_arguments`).
pub fn hash_probe_args(name: &str, null_path: &str) -> (r: Option<Vec<String>>)
    ensures
        match hash_probe_arguments(name@, null_path@) {
            Some(args) => r matches Some(v) && v@.map_values(|s: String| s@) == args,
            None => r is None,
        },
{
    let mut args: Vec<String> = Vec::new();
    if str_eq(name, "sha256sum") {
        args.push(string_of(null_path));
    } else if str_eq(name, "shasum") {
        args.push(string_of("-a"));
        args.push(string_of("256"));
        args.push(string_of(null_path));
    } else if str_eq(name, "openssl") {
        args.push(string_of("dgst"));
        args.push(string_of("-sha256"));
        args.push(string_of(null_path));
    } else {
        return None;
    }
    assert(args@.map_values(|s: String| s@) =~= hash_probe_arguments(name@, null_path@)->0);
    Some(args)
}

/// A tool found at an executable path is usable when its probe succeeds;
/// `strip`, whose probe may exit with an error, only has to start.
pub fn tool_usable_from_probes(name: &str, executable: bool, probe_succeeded: bool, probe_started: bool) -> (r:
    bool)
    ensures
        r == (executable && (probe_succeeded || (name@ == "strip"@ && probe_started))),
{
    if !executable {
        return false;
    }
    if probe_succeeded {
        return true;
    }
    str_eq(name, "strip") && probe_started
}

/// What a successful command printed, trimmed; nothing when it printed
/// only white space or did not succeed.
pub open spec fn printed_path(output: Option<Seq<char>>) -> Option<Seq<char>> {
    match output {
        Some(text) => if trimmed(text).len() == 0 {
            None
        } else {
            Some(trimmed(text))
        },
        None => None,
    }
}

/// The trimmed output of a successful command, when it is not empty.
pub fn printed_path_of(output: Option<String>) -> (r: Option<String>)
    ensures
        match r {
            Some(p) => printed_path(
                match output {
                    Some(o) => Some(o@),
                    None => None,
                },
            ) == Some(p@),
            None => printed_path(
                match output {
                    Some(o) => Some(o@),
                    None => None,
                },
            ) is None,
        },
{
    match output {
        Some(text) => {
            let chars = chars_vec(text.as_str());
            let t = trim_chars(&chars);
            if t.len() == 0 {
                None
            } else {
                let mut out = String::new();
                crate::text::push_chars(&mut out, &t);
                Some(out)
            }
        },
        None => None,
    }
}

/// The SDK-path probe's report: not found when `xcrun` is not usable;
/// found but unusable when `xcrun` has no path, the command failed or
/// printed nothing; else found, at the printed path, usable when that path
/// exists.
pub fn sdk_path_status(xcrun: &ToolStatus, printed: Option<String>, path_exists: bool) -> (r: ToolStatus)
    ensures
        !xcrun.usable ==> !r.detected && !r.usable && r.path is None,
        xcrun.usable && xcrun.path is None ==> r.detected && !r.usable && r.path is None,
        xcrun.usable && xcrun.path is Some ==> match printed {
            None => r.detected && !r.usable && r.path is None,
            Some(p) => r.detected && r.usable == path_exists && r.path == Some(p),
        },
{
    if !xcrun.usable {
        return ToolStatus { detected: false, usable: false, path: None };
    }
    if xcrun.path.is_none() {
        return ToolStatus { detected: true, usable: false, path: None };
    }
    match printed {
        Some(path) => ToolStatus { detected: true, usable: path_exists, path: Some(path) },
        None => ToolStatus { detected: true, usable: false, path: None },
    }
}

} // verus!
