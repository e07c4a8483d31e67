//! The project-structure vocabulary: which structure versions exist,
//! which parts a structure is made of, and the partial view used by
//! the import feature.
//!
//! Walking the embedded template tree and reading dependency files is
//! filesystem work left outside; the names, keys and paths decided
//! here are verified.

use vstd::prelude::*;

verus! {

use crate::text::{str_chars, trim_spaces, trim_spec, concat_strs};
use crate::sys::join_path;

/// The structure layout versions this tool knows.
#[derive(Debug, Clone, Copy, PartialEq, Eq, Hash, Structural)]
pub enum Version {
    V4,
}

impl Default for Version {
    fn default() -> (r: Self)
        ensures
            r == Version::V4,
    {
        Version::V4
    }
}

impl Version {
    /// Whether this version is one the tool can generate.
    pub fn is_valid(self) -> (r: bool)
        ensures
            r == (self == Version::V4),
    {
        matches!(self, Version::V4)
    }

    /// The version's name as written in structure paths and templates.
    pub fn as_str(self) -> (r: &'static str)
        ensures
            r@ == "v4"@,
    {
        match self {
            Version::V4 => "v4",
        }
    }

    /// The version's display name.
    pub fn name(self) -> (r: &'static str)
        ensures
            r@ == "v4"@,
    {
        self.as_str()
    }

    /// The directory the version's structures live under.
    pub fn dir_name(self) -> (r: &'static str)
        ensures
            r@ == "v4"@,
    {
        self.as_str()
    }
}

/// The parts a generated structure is made of; `Unknown` marks a part
/// name that was not recognised.
#[derive(Debug, Clone, Copy, PartialEq, Eq, Hash, Structural)]
pub enum Part {
    Common,
    Domain,
    Feature,
    Unknown,
}

impl Default for Part {
    fn default() -> (r: Self)
        ensures
            r == Part::Unknown,
    {
        Part::Unknown
    }
}

/// The directory name a part's pieces live under.
pub open spec fn part_dir_name_spec(p: Part) -> Seq<char> {
    match p {
        Part::Common => "common"@,
        Part::Domain => "domain"@,
        Part::Feature => "features"@,
        Part::Unknown => "unknown"@,
    }
}

/// The key under which a dependency file lists pieces of a part.
pub open spec fn part_json_key_spec(p: Part) -> Seq<char> {
    match p {
        Part::Common => "commons"@,
        Part::Domain => "domains"@,
        Part::Feature => "features"@,
        Part::Unknown => ""@,
    }
}

impl Part {
    /// Whether this part is one the tool can work with.
    pub fn is_valid(self) -> (r: bool)
        ensures
            r == (self != Part::Unknown),
    {
        !matches!(self, Part::Unknown)
    }

    /// The directory name the part's pieces live under.
    pub fn dir_name(self) -> (r: &'static str)
        ensures
            r@ == part_dir_name_spec(self),
    {
        match self {
            Part::Common => "common",
            Part::Domain => "domain",
            Part::Feature => "features",
            Part::Unknown => "unknown",
        }
    }

    /// The key under which a dependency file lists pieces of this part.
    pub fn json_key(self) -> (r: &'static str)
        ensures
            r@ == part_json_key_spec(self),
    {
        match self {
            Part::Common => "commons",
            Part::Domain => "domains",
            Part::Feature => "features",
            Part::Unknown => "",
        }
    }
}

/// One part of one structure version: what the import feature moves.
#[derive(Debug, Clone, Copy, PartialEq, Eq, Structural)]
pub struct Partial {
    pub version: Version,
    pub part: Part,
}

impl Partial {
    /// The partial for this version and part.
    pub fn new(version: Version, part: Part) -> (r: Self)
        ensures
            r.version == version && r.part == part,
    {
        Partial { version, part }
    }

    /// Whether both the version and the part are recognised.
    pub fn is_valid(self) -> (r: bool)
        ensures
            r == (self.version == Version::V4 && self.part != Part::Unknown),
    {
        self.version.is_valid() && self.part.is_valid()
    }

    /// The directory this partial's pieces live under.
    pub fn get_dir(self) -> (r: String)
        ensures
            r@ == part_dir_name_spec(self.part),
    {
        self.part.dir_name().to_owned()
    }

    /// Where a feature's dependency file must stand inside a source
    /// tree, or the refusal of a blank feature name.  Reading the file
    /// and chasing what it lists is filesystem work for the caller.
    pub fn feature_dependency_file(self, base_dir: &str, feature_name: &str) -> (r: Result<
        String,
        String,
    >)
        ensures
            match r {
                Err(m) => trim_spec(feature_name@).len() == 0 && m@
                    == "Feature name cannot be empty"@,
                Ok(p) => trim_spec(feature_name@).len() > 0 && p@ == base_dir@ + seq!['/']
                    + part_dir_name_spec(self.part) + seq!['/'] + feature_name@ + seq!['/']
                    + "dependency.json"@,
            },
    {
        let t = trim_spaces(&str_chars(feature_name));
        if t.len() == 0 {
            return Err(("Feature name cannot be empty").to_owned());
        }
        let under_part = join_path(base_dir, self.part.dir_name());
        let under_feature = join_path(under_part.as_str(), feature_name);
        Ok(join_path(under_feature.as_str(), "dependency.json"))
    }
}

} // verus!
