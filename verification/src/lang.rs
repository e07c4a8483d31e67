//! The language vocabulary shared with the project generator: which
//! language a project is in, and the properties gathered about it.
//!
//! The generator itself — probing directories, reading manifests,
//! asking the user — is interactive filesystem work outside this
//! library's scope; these types carry its data.

use vstd::prelude::*;

verus! {

/// The project languages the generator knows; `Unknown` marks a
/// directory or name that matched none of them.
#[derive(Debug, Clone, Copy, PartialEq, Eq, Structural)]
pub enum Kind {
    Go,
    Python,
    TypeScript,
    NodeJS,
    Rust,
    SvelteKit,
    Unknown,
}

impl Default for Kind {
    fn default() -> (r: Self)
        ensures
            r == Kind::Unknown,
    {
        Kind::Unknown
    }
}

impl Kind {
    /// Whether this is a language the generator can work with.
    pub fn is_valid(self) -> (r: bool)
        ensures
            r == (self != Kind::Unknown),
    {
        !matches!(self, Kind::Unknown)
    }
}

/// The properties gathered about a project: its name, its module name
/// where the language has one, and whether dependencies are vendored.
#[derive(Debug, Clone)]
pub struct Prop {
    pub project_name: String,
    pub module_name: String,
    pub is_use_vendoring: bool,
    pub project_dir: String,
}

impl Prop {
    /// An empty property set, nothing gathered yet.
    pub fn new() -> (r: Prop)
        ensures
            r.project_name@.len() == 0,
            r.module_name@.len() == 0,
            !r.is_use_vendoring,
            r.project_dir@.len() == 0,
    {
        Prop {
            project_name: String::new(),
            module_name: String::new(),
            is_use_vendoring: false,
            project_dir: String::new(),
        }
    }
}

} // verus!
