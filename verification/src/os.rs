//! The platform descriptor: which operating-system family the process
//! runs on, where its executable lives, and the naming convention for
//! the staged copy used by the self-update handshake.

use vstd::prelude::*;

verus! {

use crate::text::{
    str_chars,
    chars_to_string,
    concat_chars,
    subrange_chars,
    eq_chars,
    starts_with_chars,
    seq_starts_with,
};
use crate::sys::{filename, parent_dir, filename_spec, parent_spec, path_exists};

/// The operating-system families the tool runs on; anything else is
/// unsupported and treated as fatal by callers.
#[derive(Debug, Clone, Copy, PartialEq, Eq, Hash, Structural)]
pub enum Kind {
    Windows,
    Linux,
    MacOS,
    Unknown,
}

impl Default for Kind {
    fn default() -> (r: Self)
        ensures
            r == Kind::Unknown,
    {
        Kind::Unknown
    }
}

/// The family a target-system name stands for; unrecognised names fall
/// closed to `Unknown`.
pub open spec fn detect_spec(name: Seq<char>) -> Kind {
    if name == "windows"@ {
        Kind::Windows
    } else if name == "linux"@ {
        Kind::Linux
    } else if name == "macos"@ {
        Kind::MacOS
    } else {
        Kind::Unknown
    }
}

impl Kind {
    /// The family named by `target_os` (as the compiler's target names
    /// it: `windows`, `linux`, `macos`); anything else is `Unknown`.
    pub fn detect(target_os: &str) -> (r: Kind)
        ensures
            r == detect_spec(target_os@),
    {
        let v = str_chars(target_os);
        if eq_chars(&v, &str_chars("windows")) {
            Kind::Windows
        } else if eq_chars(&v, &str_chars("linux")) {
            Kind::Linux
        } else if eq_chars(&v, &str_chars("macos")) {
            Kind::MacOS
        } else {
            Kind::Unknown
        }
    }

    /// Whether this family is one the tool supports.
    pub fn is_supported(self) -> (r: bool)
        ensures
            r == (self != Kind::Unknown),
    {
        !matches!(self, Kind::Unknown)
    }
}

/// Where the running executable lives, under which name, and with which
/// prefix a staged replacement beside it is marked.
#[derive(Debug, Clone)]
pub struct OS {
    pub kind: Kind,
    pub app_name: String,
    pub app_path: String,
    pub app_dir: String,
    pub app_updater_task_filename_prefix: String,
}

/// The path of the staged replacement executable: the prefix put before
/// the executable's own name, inside its own directory.  Empty when the
/// name or the directory is unknown; callers must treat an empty path
/// as "nothing to do".
pub open spec fn staged_path_spec(os: OS) -> Seq<char> {
    if os.app_name@.len() == 0 || os.app_dir@.len() == 0 {
        Seq::empty()
    } else {
        os.app_dir@ + seq!['/'] + os.app_updater_task_filename_prefix@ + os.app_name@
    }
}

/// The path of the executable a staged copy replaces: the staged
/// prefix, if present, stripped from the current process's own name,
/// inside its own directory.  Empty when the name or the directory is
/// unknown.
pub open spec fn original_path_spec(os: OS) -> Seq<char> {
    if os.app_name@.len() == 0 || os.app_dir@.len() == 0 {
        Seq::empty()
    } else {
        let stripped = if seq_starts_with(os.app_name@, os.app_updater_task_filename_prefix@) {
            os.app_name@.skip(os.app_updater_task_filename_prefix@.len() as int)
        } else {
            os.app_name@
        };
        os.app_dir@ + seq!['/'] + stripped
    }
}

/// Staging and recovery are inverse: when a descriptor's own name is
/// the staged prefix in front of a base name, the path recovered for
/// the original executable is that base name inside the same
/// directory.
pub proof fn lemma_staged_name_round_trip(os: OS, base: Seq<char>)
    requires
        os.app_name@ == os.app_updater_task_filename_prefix@ + base,
        os.app_name@.len() > 0,
        os.app_dir@.len() > 0,
    ensures
        original_path_spec(os) == os.app_dir@ + seq!['/'] + base,
{
    let prefix = os.app_updater_task_filename_prefix@;
    assert((prefix + base).subrange(0, prefix.len() as int) =~= prefix);
    assert(seq_starts_with(os.app_name@, prefix));
    assert(os.app_name@.skip(prefix.len() as int) =~= base);
}

impl OS {
    /// The descriptor for a process of family `kind` whose executable
    /// lives at `app_path`; the name and directory are read off the
    /// path, and the staged-copy prefix is fixed.
    pub fn new(kind: Kind, app_path: &str) -> (r: OS)
        ensures
            r.kind == kind,
            r.app_path@ == app_path@,
            r.app_name@ == filename_spec(app_path@),
            r.app_dir@ == parent_spec(app_path@),
            r.app_updater_task_filename_prefix@ == "latest-"@,
    {
        let app_name = filename(app_path);
        let app_dir = parent_dir(app_path);
        OS {
            kind,
            app_name,
            app_path: app_path.to_owned(),
            app_dir,
            app_updater_task_filename_prefix: ("latest-").to_owned(),
        }
    }

    /// Whether the descriptor can be acted on: a supported family, a
    /// named executable, and a path and directory that exist on disk at
    /// the moment of the call.
    pub fn is_valid(&self) -> (r: bool)
        ensures
            r ==> self.kind != Kind::Unknown && self.app_name@.len() > 0,
            self.kind == Kind::Unknown || self.app_name@.len() == 0 ==> !r,
    {
        self.kind.is_supported() && !self.app_name.as_str().is_empty() && path_exists(
            self.app_path.as_str(),
        ) && path_exists(self.app_dir.as_str())
    }

    /// The path at which the main process stages a freshly downloaded
    /// executable, next to its own.
    pub fn get_app_updater_task_filepath_from_main_process(&self) -> (r: String)
        ensures
            r@ == staged_path_spec(*self),
    {
        if self.app_name.as_str().is_empty() || self.app_dir.as_str().is_empty() {
            let empty: Vec<char> = Vec::new();
            return chars_to_string(&empty);
        }
        let dir = str_chars(self.app_dir.as_str());
        let mut sep: Vec<char> = Vec::new();
        sep.push('/');
        let prefix = str_chars(self.app_updater_task_filename_prefix.as_str());
        let name = str_chars(self.app_name.as_str());
        let r = concat_chars(&concat_chars(&concat_chars(&dir, &sep), &prefix), &name);
        proof {
            assert(sep@ =~= seq!['/']);
            assert(((self.app_dir@ + seq!['/']) + self.app_updater_task_filename_prefix@)
                + self.app_name@ =~= staged_path_spec(*self));
        }
        chars_to_string(&r)
    }

    /// The path of the executable that a staged copy must replace: the
    /// staged prefix stripped from this process's own name, in its own
    /// directory.  Only meaningful in a process that is itself the
    /// staged copy.
    pub fn get_app_filepath_from_updater_task_child_process(&self) -> (r: String)
        ensures
            r@ == original_path_spec(*self),
    {
        if self.app_name.as_str().is_empty() || self.app_dir.as_str().is_empty() {
            let empty: Vec<char> = Vec::new();
            return chars_to_string(&empty);
        }
        let name = str_chars(self.app_name.as_str());
        let prefix = str_chars(self.app_updater_task_filename_prefix.as_str());
        let stripped = if starts_with_chars(&name, &prefix) {
            subrange_chars(&name, prefix.len(), name.len())
        } else {
            subrange_chars(&name, 0, name.len())
        };
        let dir = str_chars(self.app_dir.as_str());
        let mut sep: Vec<char> = Vec::new();
        sep.push('/');
        let r = concat_chars(&concat_chars(&dir, &sep), &stripped);
        proof {
            assert(sep@ =~= seq!['/']);
            assert(name@.subrange(0, name@.len() as int) =~= name@);
            if seq_starts_with(self.app_name@, self.app_updater_task_filename_prefix@) {
                assert(stripped@ =~= self.app_name@.skip(
                    self.app_updater_task_filename_prefix@.len() as int,
                ));
            }
            assert((self.app_dir@ + seq!['/']) + stripped@ =~= self.app_dir@ + seq!['/']
                + stripped@);
        }
        chars_to_string(&r)
    }
}

} // verus!
