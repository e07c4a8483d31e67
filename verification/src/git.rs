//! Version-control acquisition: classifying repository locators and
//! planning the archive-first download with its clone fallback.
//!
//! The plans computed here are carried out by unverified code, which
//! runs the external client and the downloads; every decision — which
//! locators are valid, which archive addresses to try and in which
//! order, what the client is told to run, and when the outcome counts
//! as success — is fixed by the contracts in this file.

use vstd::prelude::*;

verus! {

use crate::text::{
    str_chars,
    chars_to_string,
    concat_chars,
    concat_strs,
    starts_with_chars,
    ends_with_chars,
    contains_chars,
    subrange_chars,
    trim_end_matches,
    trim_end_str_chars,
    trim_end_str_spec,
    seq_starts_with,
    seq_ends_with,
    seq_contains,
    trim_end_set_spec,
};
use crate::sys::{dirname, filename_spec};

/// A hosted repository address reached over the web: an HTTP(S) scheme
/// in front and the VCS suffix at the end.
pub open spec fn is_git_common_url_spec(u: Seq<char>) -> bool {
    (seq_starts_with(u, "https://"@) || seq_starts_with(u, "http://"@)) && seq_ends_with(
        u,
        ".git"@,
    )
}

/// A repository address reached over SSH: the `git@` user in front and
/// the VCS suffix at the end.
pub open spec fn is_git_ssh_url_spec(u: Seq<char>) -> bool {
    seq_starts_with(u, "git@"@) && seq_ends_with(u, ".git"@)
}

/// Whether `url` is a web repository address.
pub fn is_git_common_url(url: &str) -> (r: bool)
    ensures
        r == is_git_common_url_spec(url@),
{
    let v = str_chars(url);
    (starts_with_chars(&v, &str_chars("https://")) || starts_with_chars(&v, &str_chars("http://")))
        && ends_with_chars(&v, &str_chars(".git"))
}

/// Whether `url` is an SSH repository address.
pub fn is_git_ssh_url(url: &str) -> (r: bool)
    ensures
        r == is_git_ssh_url_spec(url@),
{
    let v = str_chars(url);
    starts_with_chars(&v, &str_chars("git@")) && ends_with_chars(&v, &str_chars(".git"))
}

/// Whether `url` is a repository address of either form.
pub fn is_valid_git_url(url: &str) -> (r: bool)
    ensures
        r == (is_git_common_url_spec(url@) || is_git_ssh_url_spec(url@)),
{
    is_git_common_url(url) || is_git_ssh_url(url)
}

/// The archive address for one branch of a hosted repository: the
/// locator without trailing slashes and VCS suffixes, then the fixed
/// archive route and the branch name.  Empty when the locator does not
/// name the supported archive host.
pub open spec fn github_archive_url_spec(u: Seq<char>, branch: Seq<char>) -> Seq<char> {
    if !seq_contains(u, "github.com"@) {
        Seq::empty()
    } else {
        trim_end_str_spec(trim_end_set_spec(u, seq!['/']), ".git"@) + "/archive/refs/heads/"@
            + branch + ".zip"@
    }
}

/// The archive address for one branch of `git_url`, empty when that
/// host is not supported.
pub fn format_github_archive_url(git_url: &str, branch: &str) -> (r: String)
    ensures
        r@ == github_archive_url_spec(git_url@, branch@),
{
    let v = str_chars(git_url);
    if !contains_chars(&v, &str_chars("github.com")) {
        let empty: Vec<char> = Vec::new();
        return chars_to_string(&empty);
    }
    let mut slash: Vec<char> = Vec::new();
    slash.push('/');
    proof {
        assert(slash@ =~= seq!['/']);
    }
    let no_slash = trim_end_matches(git_url, slash.as_slice());
    let base = trim_end_str_chars(&str_chars(no_slash), &str_chars(".git"));
    let with_route = concat_chars(&base, &str_chars("/archive/refs/heads/"));
    let with_branch = concat_chars(&with_route, &str_chars(branch));
    let full = concat_chars(&with_branch, &str_chars(".zip"));
    chars_to_string(&full)
}

/// The branch names tried for an archive download, in order of
/// preference.
pub fn default_branches() -> (r: Vec<String>)
    ensures
        r.deep_view() == seq!["master"@, "main"@],
{
    let mut r: Vec<String> = Vec::new();
    r.push(("master").to_owned());
    r.push(("main").to_owned());
    proof {
        assert(r.deep_view() =~= seq!["master"@, "main"@]);
    }
    r
}

/// The archive addresses to try for `url`, preferred branch first;
/// empty when the host does not serve branch archives, in which case
/// only a full clone can satisfy the acquisition.
pub fn github_archive_urls(url: &str) -> (r: Vec<String>)
    ensures
        seq_contains(url@, "github.com"@) ==> r.deep_view() == seq![
            github_archive_url_spec(url@, "master"@),
            github_archive_url_spec(url@, "main"@),
        ],
        !seq_contains(url@, "github.com"@) ==> r@.len() == 0,
{
    let v = str_chars(url);
    if !contains_chars(&v, &str_chars("github.com")) {
        let r: Vec<String> = Vec::new();
        return r;
    }
    let mut r: Vec<String> = Vec::new();
    r.push(format_github_archive_url(url, "master"));
    r.push(format_github_archive_url(url, "main"));
    proof {
        assert(r.deep_view() =~= seq![
            github_archive_url_spec(url@, "master"@),
            github_archive_url_spec(url@, "main"@),
        ]);
    }
    r
}

/// The private name under which a branch archive is saved inside the
/// output directory before extraction.
pub fn archive_temp_filename() -> (r: String)
    ensures
        r@ == ".uwais-tmp-downloaded-repo.zip"@,
{
    (".uwais-tmp-downloaded-repo.zip").to_owned()
}

/// The command line for a full clone of `url` into the directory named
/// by the last component of `output_dir`, or the error that rules the
/// clone out: a locator of neither recognised form, or an output path
/// whose last component is empty.
pub fn git_clone_plan(url: &str, output_dir: &str) -> (r: Result<Vec<String>, String>)
    ensures
        match r {
            Ok(args) => (is_git_common_url_spec(url@) || is_git_ssh_url_spec(url@))
                && filename_spec(output_dir@).len() > 0 && args.deep_view() == seq![
                "git"@,
                "clone"@,
                url@,
                filename_spec(output_dir@),
            ],
            Err(e) => (!(is_git_common_url_spec(url@) || is_git_ssh_url_spec(url@)) && e@
                == "Invalid Git URL: "@ + url@) || ((is_git_common_url_spec(url@)
                || is_git_ssh_url_spec(url@)) && filename_spec(output_dir@).len() == 0 && e@
                == "Git repository output path cannot be empty"@),
        },
{
    if !is_valid_git_url(url) {
        return Err(concat_strs("Invalid Git URL: ", url));
    }
    let output_dir_name = dirname(output_dir);
    if output_dir_name.as_str().is_empty() {
        return Err(("Git repository output path cannot be empty").to_owned());
    }
    let mut args: Vec<String> = Vec::new();
    args.push(("git").to_owned());
    args.push(("clone").to_owned());
    args.push(url.to_owned());
    args.push(output_dir_name);
    proof {
        assert(args.deep_view() =~= seq!["git"@, "clone"@, url@, filename_spec(output_dir@)]);
    }
    Ok(args)
}

/// Whether a clone may proceed, judged from the availability probe of
/// the external client: its absence is its own user-actionable error,
/// distinct from a clone that fails for another reason.
pub fn git_availability(git_usable: bool) -> (r: Result<(), String>)
    ensures
        r is Ok <==> git_usable,
        match r {
            Ok(_) => git_usable,
            Err(e) => !git_usable && e@ == "Git is not installed or is not available in PATH"@,
        },
{
    if git_usable {
        Ok(())
    } else {
        Err(("Git is not installed or is not available in PATH").to_owned())
    }
}

/// Whether the clone left a directory behind, judged from the observed
/// state of the output path: success exactly when the directory is
/// there, so a run of the external client that reports success but
/// leaves no directory still counts as failure.
pub fn git_clone_outcome(output_dir: &str, dir_present: bool) -> (r: Result<(), String>)
    ensures
        r is Ok <==> dir_present,
        match r {
            Ok(_) => dir_present,
            Err(e) => !dir_present && e@ == "Git repository was not cloned successfully to "@
                + output_dir@,
        },
{
    if dir_present {
        Ok(())
    } else {
        Err(concat_strs("Git repository was not cloned successfully to ", output_dir))
    }
}

} // verus!
