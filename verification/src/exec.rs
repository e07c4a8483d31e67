//! The process runner's decisions: which command line probes a tool's
//! availability, how a program name resolves against a working
//! directory, and how a requested invocation becomes a concrete plan.
//!
//! Launching the process itself is left to unverified code, which
//! takes an `ExecPlan` and runs it; everything decided before the
//! launch is verified here.

use vstd::prelude::*;

verus! {

use crate::text::{
    str_chars,
    chars_to_string,
    eq_chars,
    subrange_chars,
    starts_with_chars,
    trim_spaces,
    trim_spec,
    trim_end_str_chars,
    trim_end_str_spec,
    seq_starts_with,
};
use crate::sys::{
    filename,
    filename_spec,
    join_path,
    is_path_sep,
    path_exists,
    path_is_dir,
    canonicalize_str,
};

/// The base name of a command: the part after the last path separator,
/// with trailing Windows launcher suffixes removed.
pub open spec fn base_command_spec(c: Seq<char>) -> Seq<char> {
    let last = filename_spec(c);
    if seq_ends_with_exe(last) {
        trim_end_str_spec(last, ".exe"@)
    } else if seq_ends_with_cmd(last) {
        trim_end_str_spec(last, ".cmd"@)
    } else if seq_ends_with_ps1(last) {
        trim_end_str_spec(last, ".ps1"@)
    } else {
        last
    }
}

/// Whether a name ends in the Windows executable suffix.
pub open spec fn seq_ends_with_exe(s: Seq<char>) -> bool {
    crate::text::seq_ends_with(s, ".exe"@)
}

/// Whether a name ends in the Windows batch suffix.
pub open spec fn seq_ends_with_cmd(s: Seq<char>) -> bool {
    crate::text::seq_ends_with(s, ".cmd"@)
}

/// Whether a name ends in the PowerShell suffix.
pub open spec fn seq_ends_with_ps1(s: Seq<char>) -> bool {
    crate::text::seq_ends_with(s, ".ps1"@)
}

/// The base name of `command`: its last path component without a
/// launcher suffix.
pub fn extract_base_command(command: &str) -> (r: String)
    ensures
        r@ == base_command_spec(command@),
{
    let last = filename(command);
    let v = str_chars(last.as_str());
    if crate::text::ends_with_chars(&v, &str_chars(".exe")) {
        chars_to_string(&trim_end_str_chars(&v, &str_chars(".exe")))
    } else if crate::text::ends_with_chars(&v, &str_chars(".cmd")) {
        chars_to_string(&trim_end_str_chars(&v, &str_chars(".cmd")))
    } else if crate::text::ends_with_chars(&v, &str_chars(".ps1")) {
        chars_to_string(&trim_end_str_chars(&v, &str_chars(".ps1")))
    } else {
        last
    }
}

/// The flag with which a tool of this base name answers a version
/// query, or nothing when the tool is not recognised.
pub open spec fn check_flag_spec(base: Seq<char>) -> Option<Seq<char>> {
    if base == "python"@ || base == "python3"@ || base == "py"@ || base == "git"@ || base == "pip"@
        || base == "pip3"@ || base == "node"@ || base == "cargo"@ || base == "npx tsc"@ || base
        == "tsc"@ || base == "npx tsc-alias"@ || base == "tsc-alias"@ {
        Some("--version"@)
    } else if base == "npm"@ || base == "npx"@ {
        Some("-v"@)
    } else if base == "go"@ {
        Some("version"@)
    } else {
        None
    }
}

/// The command line that probes whether `command` is usable: the
/// command itself with its version-query flag, or nothing for a tool
/// this runner does not know how to probe.
pub fn get_command_check_args(command: &str) -> (r: Option<Vec<String>>)
    ensures
        match r {
            Some(args) => check_flag_spec(base_command_spec(command@)) is Some
                && args.deep_view() == seq![
                command@,
                check_flag_spec(base_command_spec(command@))->0,
            ],
            None => check_flag_spec(base_command_spec(command@)) is None,
        },
{
    let base = extract_base_command(command);
    let b = str_chars(base.as_str());
    let flag: Option<&str> = if eq_chars(&b, &str_chars("python")) || eq_chars(
        &b,
        &str_chars("python3"),
    ) || eq_chars(&b, &str_chars("py")) || eq_chars(&b, &str_chars("git")) || eq_chars(
        &b,
        &str_chars("pip"),
    ) || eq_chars(&b, &str_chars("pip3")) || eq_chars(&b, &str_chars("node")) || eq_chars(
        &b,
        &str_chars("cargo"),
    ) || eq_chars(&b, &str_chars("npx tsc")) || eq_chars(&b, &str_chars("tsc")) || eq_chars(
        &b,
        &str_chars("npx tsc-alias"),
    ) || eq_chars(&b, &str_chars("tsc-alias")) {
        Some("--version")
    } else if eq_chars(&b, &str_chars("npm")) || eq_chars(&b, &str_chars("npx")) {
        Some("-v")
    } else if eq_chars(&b, &str_chars("go")) {
        Some("version")
    } else {
        None
    };
    match flag {
        None => None,
        Some(f) => {
            let mut args: Vec<String> = Vec::new();
            args.push(command.to_owned());
            args.push(f.to_owned());
            proof {
                assert(args.deep_view() =~= seq![
                    command@,
                    check_flag_spec(base_command_spec(command@))->0,
                ]);
            }
            Some(args)
        }
    }
}

/// Whether a path is taken verbatim as a program name: it starts with
/// a separator, or names a drive in front.
pub open spec fn is_absolute_spec(p: Seq<char>) -> bool {
    (p.len() > 0 && is_path_sep(p[0])) || (p.len() >= 3 && p[1] == ':' && is_path_sep(p[2]))
}

/// Whether `v` names an absolute path.
fn is_absolute_chars(v: &Vec<char>) -> (r: bool)
    ensures
        r == is_absolute_spec(v@),
{
    if v.len() > 0 && (v[0] == '/' || v[0] == '\\') {
        return true;
    }
    v.len() >= 3 && v[1] == ':' && (v[2] == '/' || v[2] == '\\')
}

/// Whether `v` holds more than one path component: some separator
/// occurs in it.
fn has_path_sep(v: &Vec<char>) -> (r: bool)
    ensures
        r == exists|i: int| 0 <= i < v@.len() && is_path_sep(v@[i]),
{
    let mut i: usize = 0;
    while i < v.len()
        invariant
            0 <= i <= v@.len(),
            forall|j: int| 0 <= j < i ==> !is_path_sep(v@[j]),
        decreases v@.len() - i,
    {
        if v[i] == '/' || v[i] == '\\' {
            return true;
        }
        i += 1;
    }
    false
}

/// The program name to hand the operating system: an absolute path
/// verbatim; a relative path with separators against the working
/// directory, when the file so named exists; anything else untouched,
/// for the system's own search to resolve.
pub fn resolve_command_path(current_dir: &str, cmd_name: &str) -> (r: String)
    ensures
        is_absolute_spec(cmd_name@) ==> r@ == cmd_name@,
        !is_absolute_spec(cmd_name@) && !(exists|i: int|
            0 <= i < cmd_name@.len() && is_path_sep(cmd_name@[i])) ==> r@ == cmd_name@,
        !is_absolute_spec(cmd_name@) ==> r@ == cmd_name@ || r@ == current_dir@ + seq!['/']
            + cmd_name@,
{
    let v = str_chars(cmd_name);
    if is_absolute_chars(&v) {
        return cmd_name.to_owned();
    }
    if has_path_sep(&v) {
        let full = join_path(current_dir, cmd_name);
        if path_exists(full.as_str()) {
            return full;
        }
    }
    cmd_name.to_owned()
}

/// A process launch, decided and ready: the resolved program, its
/// arguments, and the directory it runs in.
pub struct ExecPlan {
    pub program: String,
    pub args: Vec<String>,
    pub dir: String,
}

/// The launch plan for `command` against the requested directory, with
/// `cwd` as the fallback when that directory does not exist: an empty
/// command line and a blank program name are refused, each with its
/// own message; otherwise the working directory is normalised
/// (canonicalised when the system can, a Windows verbatim prefix
/// dropped), the program resolved against it, and the remaining
/// arguments passed through unchanged.
pub fn prepare_command(current_dir: &str, cwd: &str, command: &Vec<String>) -> (r: Result<
    ExecPlan,
    String,
>)
    ensures
        match r {
            Err(m) => (command@.len() == 0 && m@ == "The command array is empty"@) || (
            command@.len() > 0 && trim_spec(command.deep_view()[0]).len() == 0 && m@
                == "The command name is empty"@),
            Ok(plan) => command@.len() > 0 && trim_spec(command.deep_view()[0]).len() > 0
                && plan.args.deep_view() == command.deep_view().skip(1) && (is_absolute_spec(
                trim_spec(command.deep_view()[0]),
            ) ==> plan.program@ == trim_spec(command.deep_view()[0])) && (!is_absolute_spec(
                trim_spec(command.deep_view()[0]),
            ) && !(exists|i: int|
                0 <= i < trim_spec(command.deep_view()[0]).len() && is_path_sep(
                    trim_spec(command.deep_view()[0])[i],
                )) ==> plan.program@ == trim_spec(command.deep_view()[0])),
        },
{
    if command.len() == 0 {
        return Err(("The command array is empty").to_owned());
    }
    let raw = trim_spaces(&str_chars(command[0].as_str()));
    if raw.len() == 0 {
        return Err(("The command name is empty").to_owned());
    }
    let raw_cmd = chars_to_string(&raw);
    let command_dir: String = if path_is_dir(current_dir) {
        current_dir.to_owned()
    } else {
        cwd.to_owned()
    };
    let canonical: String = match canonicalize_str(command_dir.as_str()) {
        Some(c) => c,
        None => command_dir,
    };
    let cv = str_chars(canonical.as_str());
    let verbatim = str_chars("\\\\?\\");
    proof {
        reveal_strlit("\\\\?\\");
    }
    let final_dir: String = if starts_with_chars(&cv, &verbatim) {
        chars_to_string(&subrange_chars(&cv, 4, cv.len()))
    } else {
        canonical
    };
    let program = resolve_command_path(final_dir.as_str(), raw_cmd.as_str());
    let mut args: Vec<String> = Vec::new();
    let mut i: usize = 1;
    while i < command.len()
        invariant
            1 <= i <= command@.len(),
            args@.len() == i - 1,
            forall|k: int| 0 <= k < i - 1 ==> args@[k]@ == command@[k + 1]@,
        decreases command@.len() - i,
    {
        args.push(command[i].clone());
        i += 1;
    }
    proof {
        assert forall|k: int| 0 <= k < args@.len() implies args.deep_view()[k]
            == command.deep_view().skip(1)[k] by {
            assert(args@[k]@ == command@[k + 1]@);
        }
        assert(args.deep_view() =~= command.deep_view().skip(1));
    }
    Ok(ExecPlan { program, args, dir: final_dir })
}

} // verus!
