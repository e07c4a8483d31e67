//! The self-update handshake: three cooperating processes — the
//! initiator, the staged copy acting as updater task, and the updated
//! original clearing the staged file — chained by detached spawning.
//!
//! Each role is decided here from two facts alone: whether the
//! process's own name carries the staged prefix, and which internal
//! flag invoked it.  The copies, spawns and deletions themselves are
//! carried out by unverified code, which follows the plans these
//! functions hand out; the guard clauses that keep a mis-invoked
//! process from acting are all verified.

use vstd::prelude::*;

verus! {

use crate::os::{OS, Kind as OsKind, staged_path_spec, original_path_spec};
use crate::sys::path_is_file;
use crate::text::{str_chars, starts_with_chars, seq_starts_with};

/// Whether the operating-system error code reported for a failed copy
/// means that elevated privileges are required: access denied on
/// Windows, permission denied on the Unix families.  Anything else —
/// another code, no code, or an unsupported family — is an ordinary
/// failure.
pub open spec fn permission_code_spec(k: OsKind, code: Option<i32>) -> bool {
    match code {
        Some(c) => (k == OsKind::Windows && c == 5) || ((k == OsKind::Linux || k == OsKind::MacOS)
            && c == 13),
        None => false,
    }
}

/// Whether a failed copy's error code calls for elevated privileges on
/// this platform.
pub fn is_permission_error(k: OsKind, code: Option<i32>) -> (r: bool)
    ensures
        r == permission_code_spec(k, code),
{
    match code {
        Some(c) => match k {
            OsKind::Windows => c == 5,
            OsKind::Linux | OsKind::MacOS => c == 13,
            OsKind::Unknown => false,
        },
        None => false,
    }
}

/// Whether this process's own name carries the staged prefix — the
/// mark of a staged copy.  A process only ever acts as updater task
/// when this holds.
pub fn has_staged_name(os: &OS) -> (r: bool)
    ensures
        r == seq_starts_with(os.app_name@, os.app_updater_task_filename_prefix@),
{
    let name = str_chars(os.app_name.as_str());
    let prefix = str_chars(os.app_updater_task_filename_prefix.as_str());
    starts_with_chars(&name, &prefix)
}

/// What the staging phase decided, after the freshly acquired
/// executable was copied (or failed to copy) to the staged path.
pub enum StagingDecision {
    /// The copy was refused for want of privileges: print the
    /// platform's remediation and abort.
    ElevationRequired,
    /// The copy failed for another reason, reported verbatim: abort.
    Failed(String),
    /// The copy reported success but no staged file is present: there
    /// is no update to hand over, and the run ends cleanly.
    NoUpdate,
    /// The staged file is in place: spawn it, detached, with the
    /// updater-task flag, and let this process exit.
    Handoff(String),
}

impl OS {
    /// The staging decision for this platform from the outcome of the
    /// copy: a permission code becomes the elevation case, any other
    /// error is carried verbatim, and on success the staged file's
    /// presence decides between handoff and "no update available".
    pub fn decide_staging(&self, copy_result: Result<(), (Option<i32>, String)>) -> (r:
        StagingDecision)
        ensures
            match copy_result {
                Err((code, msg)) => if permission_code_spec(self.kind, code) {
                    r == StagingDecision::ElevationRequired
                } else {
                    match r {
                        StagingDecision::Failed(m) => m@ == msg@,
                        _ => false,
                    }
                },
                Ok(_) => match r {
                    StagingDecision::NoUpdate => true,
                    StagingDecision::Handoff(p) => p@ == staged_path_spec(*self),
                    _ => false,
                },
            },
    {
        match copy_result {
            Err((code, msg)) => {
                if is_permission_error(self.kind, code) {
                    StagingDecision::ElevationRequired
                } else {
                    StagingDecision::Failed(msg)
                }
            }
            Ok(_) => {
                let staged = self.get_app_updater_task_filepath_from_main_process();
                if path_is_file(staged.as_str()) {
                    StagingDecision::Handoff(staged)
                } else {
                    StagingDecision::NoUpdate
                }
            }
        }
    }
}

/// The command line that hands control to the staged copy: the staged
/// executable itself, invoked with the internal updater-task flag.
pub fn handoff_command(staged_path: &str) -> (r: Vec<String>)
    ensures
        r.deep_view() == seq![staged_path@, "--updater-task"@],
{
    let mut r: Vec<String> = Vec::new();
    r.push(staged_path.to_owned());
    r.push(("--updater-task").to_owned());
    proof {
        assert(r.deep_view() =~= seq![staged_path@, "--updater-task"@]);
    }
    r
}

/// What a process invoked with the updater-task flag must do.
pub enum UpdaterTaskStep {
    /// Its own name lacks the staged prefix: it is not the staged
    /// copy, and it exits as a no-op.
    NotStaged,
    /// The platform is unsupported: stop.
    Unsupported,
    /// Attempt to copy itself (`from`) over the original executable
    /// (`to`); on failure, sleep and ask again, without bound.
    Copy { from: String, to: String },
}

/// The updater task's plan: act only as the staged copy on a supported
/// platform, and then keep trying to overwrite the original executable
/// with itself.
pub fn updater_task_plan(os: &OS) -> (r: UpdaterTaskStep)
    ensures
        !seq_starts_with(os.app_name@, os.app_updater_task_filename_prefix@) ==> r
            == UpdaterTaskStep::NotStaged,
        seq_starts_with(os.app_name@, os.app_updater_task_filename_prefix@) && os.kind
            == OsKind::Unknown ==> r == UpdaterTaskStep::Unsupported,
        seq_starts_with(os.app_name@, os.app_updater_task_filename_prefix@) && os.kind
            != OsKind::Unknown ==> match r {
            UpdaterTaskStep::Copy { from, to } => from@ == os.app_path@ && to@
                == original_path_spec(*os),
            _ => false,
        },
{
    if !has_staged_name(os) {
        return UpdaterTaskStep::NotStaged;
    }
    match os.kind {
        OsKind::Unknown => UpdaterTaskStep::Unsupported,
        _ => {
            let target = os.get_app_filepath_from_updater_task_child_process();
            UpdaterTaskStep::Copy { from: os.app_path.clone(), to: target }
        }
    }
}

/// How long the updater task sleeps after a failed overwrite before
/// trying again.
pub fn updater_task_retry_delay_ms() -> (r: u64)
    ensures
        r == 100,
{
    100
}

/// The command line spawned once the original executable has been
/// overwritten: the updated original, invoked with the internal
/// clearance flag.
pub fn clearance_command(target_path: &str) -> (r: Vec<String>)
    ensures
        r.deep_view() == seq![target_path@, "--updater-task-clearance"@],
{
    let mut r: Vec<String> = Vec::new();
    r.push(target_path.to_owned());
    r.push(("--updater-task-clearance").to_owned());
    proof {
        assert(r.deep_view() =~= seq![target_path@, "--updater-task-clearance"@]);
    }
    r
}

/// What a process invoked with the clearance flag must do.
pub enum ClearanceStep {
    /// Its own name carries the staged prefix: it is not the updated
    /// original, and it exits as a no-op.
    NotOwner,
    /// The platform is unsupported: stop.
    Unsupported,
    /// Nothing is staged beside it: the handshake is already over.
    Done,
    /// The staged file is still there: remove it, best-effort.
    Remove(String),
}

/// The clearance owner's plan: act only as the un-prefixed original on
/// a supported platform, and then remove the staged file if it is
/// still present.
pub fn clearance_plan(os: &OS) -> (r: ClearanceStep)
    ensures
        seq_starts_with(os.app_name@, os.app_updater_task_filename_prefix@) ==> r
            == ClearanceStep::NotOwner,
        !seq_starts_with(os.app_name@, os.app_updater_task_filename_prefix@) && os.kind
            == OsKind::Unknown ==> r == ClearanceStep::Unsupported,
        !seq_starts_with(os.app_name@, os.app_updater_task_filename_prefix@) && os.kind
            != OsKind::Unknown ==> match r {
            ClearanceStep::Done => true,
            ClearanceStep::Remove(p) => p@ == staged_path_spec(*os),
            _ => false,
        },
{
    if has_staged_name(os) {
        return ClearanceStep::NotOwner;
    }
    match os.kind {
        OsKind::Unknown => ClearanceStep::Unsupported,
        _ => {
            let staged = os.get_app_updater_task_filepath_from_main_process();
            if path_is_file(staged.as_str()) {
                ClearanceStep::Remove(staged)
            } else {
                ClearanceStep::Done
            }
        }
    }
}

} // verus!
