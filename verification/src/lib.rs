//! Verified core of a project-scaffolding command-line tool: the
//! self-update handshake and the source-acquisition pipeline that
//! feeds it, together with the pure helpers both are built from.

pub mod exec;
pub mod git;
pub mod http;
pub mod lang;
pub mod os;
pub mod print;
pub mod source;
pub mod structure;
pub mod sys;
pub mod text;
pub mod update;
