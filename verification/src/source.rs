//! The source abstraction: where acquirable content comes from — a
//! local directory, a version-control address, or the latest published
//! release of the tool itself — and how it is materialised into a
//! directory, retried, and cleaned up again.
//!
//! Everything that can be decided without touching the network or
//! writing to disk is verified here: classification of a locator, the
//! retry schedule and its bound, the choice of release asset, the
//! naming of temporary directories, the exact error for each refusal,
//! and the cleanup rule that never deletes twice and never deletes a
//! local directory.  The downloads and deletions themselves are carried
//! out by unverified code, which reports each outcome back into the
//! completion functions of this module.

use vstd::prelude::*;

verus! {

use crate::text::{
    str_chars,
    chars_to_string,
    concat_chars,
    concat_strs,
    trim_spaces,
    trim_spec,
    u64_dec_chars,
    dec_spec,
    ends_with_chars,
    seq_ends_with,
    seq_starts_with,
};
use crate::git::{is_git_common_url, is_git_ssh_url, is_git_common_url_spec, is_git_ssh_url_spec};
use crate::http::{ReleaseInfo, fetch_release_info};
use crate::os::OS;
use crate::os::Kind as OsKind;
use crate::sys::{
    filename,
    filename_spec,
    join_path,
    path_exists,
    path_is_dir,
    path_is_file,
    ls,
    is_dir_empty,
    unix_timestamp,
};

/// How many times a version-control download is attempted before the
/// acquisition gives up.
pub const MAX_RETRIES: u8 = 3;

/// Where a source's content comes from; `Unknown` marks an input that
/// matched no recognised shape and is rejected upstream.
#[derive(Debug, Clone, Copy, PartialEq, Eq, Structural)]
pub enum Kind {
    LocalPath,
    GitUrl,
    GitSSH,
    LatestAppRelease,
    Unknown,
}

impl Default for Kind {
    fn default() -> (r: Self)
        ensures
            r == Kind::Unknown,
    {
        Kind::Unknown
    }
}

/// Whether a source of this kind reaches over the network, and so owns
/// (and must clean up) whatever directory it materialises.
pub open spec fn requires_network_spec(k: Kind) -> bool {
    k == Kind::GitUrl || k == Kind::GitSSH || k == Kind::LatestAppRelease
}

/// The short name of a source kind, as it appears in messages.
pub open spec fn kind_name_spec(k: Kind) -> Seq<char> {
    match k {
        Kind::LocalPath => "local-path"@,
        Kind::GitUrl => "git-url"@,
        Kind::GitSSH => "git-ssh"@,
        Kind::LatestAppRelease => "latest-release"@,
        Kind::Unknown => "unknown"@,
    }
}

impl Kind {
    /// Whether this kind admits acquisition at all.
    pub fn is_valid(&self) -> (r: bool)
        ensures
            r == (*self != Kind::Unknown),
    {
        !matches!(self, Kind::Unknown)
    }

    /// Whether a source of this kind reaches over the network.
    pub fn requires_network(&self) -> (r: bool)
        ensures
            r == requires_network_spec(*self),
    {
        matches!(self, Kind::GitUrl | Kind::GitSSH | Kind::LatestAppRelease)
    }

    /// The short name of this kind.
    pub fn name(&self) -> (r: &'static str)
        ensures
            r@ == kind_name_spec(*self),
    {
        match self {
            Kind::LocalPath => "local-path",
            Kind::GitUrl => "git-url",
            Kind::GitSSH => "git-ssh",
            Kind::LatestAppRelease => "latest-release",
            Kind::Unknown => "unknown",
        }
    }
}

/// Whether a source can be acquired: a recognised kind and a locator
/// that is not blank.
pub open spec fn is_valid_spec(s: Source) -> bool {
    s.kind != Kind::Unknown && trim_spec(s.url@).len() > 0
}

/// The kind a bare locator string falls under: a web VCS address, an
/// SSH VCS address, a path-like string (`/`, `.` or `~` in front), or
/// nothing recognised.
pub open spec fn detect_kind_spec(u: Seq<char>) -> Kind {
    if is_git_common_url_spec(u) {
        Kind::GitUrl
    } else if is_git_ssh_url_spec(u) {
        Kind::GitSSH
    } else if u.len() > 0 && (u[0] == '/' || u[0] == '.' || u[0] == '~') {
        Kind::LocalPath
    } else {
        Kind::Unknown
    }
}

/// Classification of a bare locator: a web VCS address always becomes
/// `GitUrl`; an SSH VCS address always becomes `GitSSH`; a string led
/// by a path mark (`/`, `.`, `~`) always becomes `LocalPath`; and only
/// what matches none of these becomes `Unknown`.  A source of kind
/// `Unknown` is never valid.
pub proof fn lemma_classification(u: Seq<char>, s: Source)
    ensures
        is_git_common_url_spec(u) ==> detect_kind_spec(u) == Kind::GitUrl,
        is_git_ssh_url_spec(u) ==> detect_kind_spec(u) == Kind::GitSSH,
        u.len() > 0 && (u[0] == '/' || u[0] == '.' || u[0] == '~') ==> detect_kind_spec(u)
            == Kind::LocalPath,
        detect_kind_spec(u) == Kind::Unknown ==> !is_git_common_url_spec(u)
            && !is_git_ssh_url_spec(u) && !(u.len() > 0 && (u[0] == '/' || u[0] == '.' || u[0]
            == '~')),
        s.kind == Kind::Unknown ==> !is_valid_spec(s),
{
    reveal_strlit("https://");
    reveal_strlit("http://");
    reveal_strlit("git@");
    if seq_starts_with(u, "https://"@) {
        assert(u.subrange(0, "https://"@.len() as int)[0] == u[0]);
        assert(u[0] == 'h');
    }
    if seq_starts_with(u, "http://"@) {
        assert(u.subrange(0, "http://"@.len() as int)[0] == u[0]);
        assert(u[0] == 'h');
    }
    if seq_starts_with(u, "git@"@) {
        assert(u.subrange(0, "git@"@.len() as int)[0] == u[0]);
        assert(u[0] == 'g');
    }
}

/// Whether the file name of a release asset is the one built for the
/// given platform family: the name ends in that family's archive
/// suffix.  An unsupported family matches nothing.
pub open spec fn asset_matches_spec(k: OsKind, name: Seq<char>) -> bool {
    match k {
        OsKind::Windows => seq_ends_with(name, "windows.zip"@),
        OsKind::Linux => seq_ends_with(name, "linux.zip"@),
        OsKind::MacOS => seq_ends_with(name, "macos.zip"@),
        OsKind::Unknown => false,
    }
}

/// The name of the private temporary directory for one acquisition:
/// the fixed prefix, the purpose tag, and the moment of creation, so
/// that rapid successive invocations do not collide.
pub open spec fn temp_dir_name_spec(purpose: Seq<char>, now: u64) -> Seq<char> {
    ".uwais-tmp-"@ + purpose + "-"@ + dec_spec(now as int)
}

/// The delay, in milliseconds, slept after the numbered attempt fails:
/// one second after the first, doubling with each further attempt.
pub open spec fn retry_delay_spec(attempt: int) -> int
    decreases attempt,
{
    if attempt <= 1 {
        1000
    } else {
        2 * retry_delay_spec(attempt - 1)
    }
}

/// The retry schedule is bounded: the third attempt is the last one —
/// a schedule never gives up earlier nor orders a fourth attempt — and
/// the two delays slept before the retries add up to three full
/// seconds.
pub proof fn lemma_retry_schedule()
    ensures
        MAX_RETRIES == 3,
        retry_delay_spec(1) + retry_delay_spec(2) == 3000,
        forall|a: u8| #[trigger] retry_gives_up(a) <==> a >= 3,
{
}

/// The delay slept after the numbered failed attempt.
pub fn retry_delay_ms(attempt: u8) -> (r: u64)
    requires
        1 <= attempt <= MAX_RETRIES,
    ensures
        r == retry_delay_spec(attempt as int),
{
    proof {
        assert(retry_delay_spec(1) == 1000);
        assert(retry_delay_spec(2) == 2000);
        assert(retry_delay_spec(3) == 4000);
    }
    if attempt <= 1 {
        1000
    } else if attempt == 2 {
        2000
    } else {
        4000
    }
}

/// The message reported when every attempt of the retry schedule has
/// failed, carrying the error of the last attempt.
pub fn retry_exhausted_message(last_error: &str) -> (r: String)
    ensures
        r@ == "Failed after 3 attempts: "@ + last_error@,
{
    concat_strs("Failed after 3 attempts: ", last_error)
}

/// Whether the numbered attempt is the schedule's last: once it has
/// failed, the acquisition gives up.
pub open spec fn retry_gives_up(attempt: u8) -> bool {
    attempt >= MAX_RETRIES
}

/// The bookkeeping of one bounded version-control acquisition: the
/// number of the attempt currently running, starting at one.
pub struct GitRetry {
    pub attempt: u8,
}

/// What the schedule orders after a failed attempt: sleep and try
/// again, or stop with the final error.
pub enum RetryStep {
    /// Sleep this many milliseconds, then run the next attempt.
    SleepThenRetry(u64),
    /// Every attempt is spent: stop, reporting this error.
    GiveUp(String),
}

impl GitRetry {
    /// A fresh schedule, about to run its first attempt.
    pub fn new() -> (r: GitRetry)
        ensures
            r.attempt == 1,
    {
        GitRetry { attempt: 1 }
    }

    /// What to do after the running attempt failed with `error`: the
    /// next attempt is ordered, after the attempt's scheduled delay,
    /// only while attempts remain; once `MAX_RETRIES` attempts have
    /// failed the schedule gives up with the message naming the last
    /// error.  The attempt number only ever moves forward, so a caller
    /// that follows the steps runs at most `MAX_RETRIES` attempts and
    /// sleeps exactly the scheduled delays before the final failure.
    pub fn record_failure(&mut self, error: &str) -> (r: RetryStep)
        ensures
            match r {
                RetryStep::SleepThenRetry(ms) => !retry_gives_up(old(self).attempt) && ms
                    == retry_delay_spec(old(self).attempt as int) && final(self).attempt == old(
                    self,
                ).attempt + 1,
                RetryStep::GiveUp(m) => retry_gives_up(old(self).attempt) && m@
                    == "Failed after 3 attempts: "@ + error@ && *final(self) == *old(self),
            },
    {
        if self.attempt >= MAX_RETRIES {
            RetryStep::GiveUp(retry_exhausted_message(error))
        } else {
            let numbered: u8 = if self.attempt < 1 {
                1
            } else {
                self.attempt
            };
            let delay = retry_delay_ms(numbered);
            proof {
                assert(retry_delay_spec(0) == 1000);
            }
            self.attempt = self.attempt + 1;
            RetryStep::SleepThenRetry(delay)
        }
    }
}

/// What a source, asked to provide its directory, needs next: the
/// directory is ready; the request is refused with an error; or an
/// unverified download must be run before completion.
pub enum ProvideStep {
    /// The directory is materialised and recorded.
    Ready(String),
    /// Acquisition is impossible or failed before any download.
    Refused(String),
    /// A version-control download into `tmp_dir` must be run (with
    /// retries), then reported to `complete_git_download`.
    GitDownload { url: String, tmp_dir: String },
    /// The named release asset must be downloaded from `asset_url` to
    /// `tmp_dir`/`asset_name`, then reported to
    /// `complete_release_download`.
    ReleaseDownload { tmp_dir: String, asset_name: String, asset_url: String },
}

/// Whether a `clear` of source `s`, seeing the recorded directory
/// exist or not, decides to delete it: only an uncleaned source of a
/// network kind whose directory is still there is ever deleted.
pub open spec fn clear_would_delete(s: Source, dir_exists: bool) -> bool {
    !s.cleaned_up && requires_network_spec(s.kind) && dir_exists
}

/// The source after a `clear` that saw the recorded directory exist or
/// not: marked clean exactly when a deletion was decided.
pub open spec fn clear_next_spec(s: Source, dir_exists: bool) -> Source {
    if clear_would_delete(s, dir_exists) {
        Source { cleaned_up: true, ..s }
    } else {
        s
    }
}

/// Clearing never deletes twice: once a clear has decided to delete,
/// every later clear decides against it, whatever the disk then shows.
pub proof fn lemma_clear_idempotent(s: Source, e1: bool, e2: bool)
    ensures
        clear_would_delete(s, e1) ==> !clear_would_delete(clear_next_spec(s, e1), e2),
{
}

/// A local-path source is never deleted by clearing, whatever its
/// state and whatever the disk shows: the caller owns that directory.
pub proof fn lemma_clear_keeps_local(s: Source, e: bool)
    requires
        s.kind == Kind::LocalPath,
    ensures
        !clear_would_delete(s, e),
{
}

/// Where content comes from, the platform it is fetched for, and —
/// once materialised — which directory holds it and whether that
/// directory has been cleaned up again.
#[derive(Debug, Clone)]
pub struct Source {
    pub kind: Kind,
    pub url: String,
    pub os: OS,
    pub source_dir: String,
    pub cleaned_up: bool,
}

impl Source {
    /// A source classified from a bare locator: the locator is trimmed
    /// and its shape decides the kind; a blank locator is `Unknown`.
    pub fn new(os: OS, url: &str) -> (r: Source)
        ensures
            r.os == os,
            r.url@ == trim_spec(url@),
            r.kind == if trim_spec(url@).len() == 0 {
                Kind::Unknown
            } else {
                detect_kind_spec(trim_spec(url@))
            },
            r.source_dir@.len() == 0,
            !r.cleaned_up,
    {
        let t = trim_spaces(&str_chars(url));
        let trimmed = chars_to_string(&t);
        let kind = if trimmed.as_str().is_empty() {
            Kind::Unknown
        } else {
            Self::detect_kind(trimmed.as_str())
        };
        let empty: Vec<char> = Vec::new();
        Source { os, kind, url: trimmed, source_dir: chars_to_string(&empty), cleaned_up: false }
    }

    /// The synthesized source for the tool's own latest release: its
    /// fixed release-metadata endpoint.
    pub fn new_latest_app_release(os: OS) -> (r: Source)
        ensures
            r.os == os,
            r.kind == Kind::LatestAppRelease,
            r.url@ == "https://api.github.com/repos/dalikewara/uwais/releases/latest"@,
            r.source_dir@.len() == 0,
            !r.cleaned_up,
    {
        let empty: Vec<char> = Vec::new();
        Source {
            os,
            kind: Kind::LatestAppRelease,
            url: ("https://api.github.com/repos/dalikewara/uwais/releases/latest").to_owned(),
            source_dir: chars_to_string(&empty),
            cleaned_up: false,
        }
    }

    /// The kind a locator falls under.
    pub fn detect_kind(url: &str) -> (r: Kind)
        ensures
            r == detect_kind_spec(url@),
    {
        if is_git_common_url(url) {
            Kind::GitUrl
        } else if is_git_ssh_url(url) {
            Kind::GitSSH
        } else {
            let v = str_chars(url);
            if v.len() > 0 && (v[0] == '/' || v[0] == '.' || v[0] == '~') {
                Kind::LocalPath
            } else {
                Kind::Unknown
            }
        }
    }

    /// Whether this source can be acquired at all: a recognised kind
    /// and a locator that is not blank.
    pub fn is_valid(&self) -> (r: bool)
        ensures
            r == is_valid_spec(*self),
    {
        let t = trim_spaces(&str_chars(self.url.as_str()));
        self.kind.is_valid() && t.len() > 0
    }

    /// Whether this source's content comes over the network, so that
    /// the directory it materialises is owned and cleaned up here.
    pub fn is_from_external(&self) -> (r: bool)
        ensures
            r == requires_network_spec(self.kind),
    {
        self.kind.requires_network()
    }

    /// Whether a release asset of this name is the one built for this
    /// source's platform.
    pub fn matches_current_os(&self, filename: &str) -> (r: bool)
        ensures
            r == asset_matches_spec(self.os.kind, filename@),
    {
        let v = str_chars(filename);
        match self.os.kind {
            OsKind::Windows => ends_with_chars(&v, &str_chars("windows.zip")),
            OsKind::Linux => ends_with_chars(&v, &str_chars("linux.zip")),
            OsKind::MacOS => ends_with_chars(&v, &str_chars("macos.zip")),
            OsKind::Unknown => false,
        }
    }

    /// The name of the private temporary directory for one acquisition
    /// begun at `now`.
    pub fn create_temp_dir(&self, purpose: &str, now: u64) -> (r: String)
        ensures
            r@ == temp_dir_name_spec(purpose@, now),
    {
        let head = concat_chars(&str_chars(".uwais-tmp-"), &str_chars(purpose));
        let with_dash = concat_chars(&head, &str_chars("-"));
        let full = concat_chars(&with_dash, &u64_dec_chars(now));
        proof {
            assert(full@ =~= temp_dir_name_spec(purpose@, now));
        }
        chars_to_string(&full)
    }

    /// A local directory is provided as it stands: it must exist and be
    /// a directory, and it is recorded without ever being owned for
    /// cleanup.  On failure nothing about the source changes — in
    /// particular no directory is recorded.
    pub fn provide_local(&mut self) -> (r: Result<String, String>)
        ensures
            match r {
                Ok(d) => d@ == old(self).url@ && final(self).source_dir@ == old(self).url@
                    && final(self).kind == old(self).kind && final(self).url == old(self).url
                    && final(self).os == old(self).os && final(self).cleaned_up == old(self).cleaned_up,
                Err(m) => *final(self) == *old(self) && (m@ == "Local source does not exist: "@
                    + old(self).url@ || m@ == "Local source must be a directory: "@ + old(self).url@),
            },
    {
        if !path_exists(self.url.as_str()) {
            return Err(concat_strs("Local source does not exist: ", self.url.as_str()));
        }
        if !path_is_dir(self.url.as_str()) {
            return Err(concat_strs("Local source must be a directory: ", self.url.as_str()));
        }
        self.source_dir = self.url.clone();
        Ok(self.url.clone())
    }

    /// The plan for a version-control acquisition begun at `now`: a
    /// download of this source's locator into a fresh private
    /// temporary directory, to be run by the caller with the retry
    /// schedule and reported to `complete_git_download`.
    pub fn provide_git(&self, now: u64) -> (r: ProvideStep)
        ensures
            match r {
                ProvideStep::GitDownload { url, tmp_dir } => url@ == self.url@ && tmp_dir@
                    == temp_dir_name_spec("source-git"@, now),
                _ => false,
            },
    {
        ProvideStep::GitDownload {
            url: self.url.clone(),
            tmp_dir: self.create_temp_dir("source-git", now),
        }
    }

    /// The first listed asset built for this source's platform, if the
    /// release carries one.
    pub fn select_release_asset(&self, release: &ReleaseInfo) -> (r: Option<usize>)
        ensures
            match r {
                Some(i) => i < release.assets@.len() && asset_matches_spec(
                    self.os.kind,
                    release.assets@[i as int].name@,
                ) && (forall|j: int|
                    0 <= j < i ==> !asset_matches_spec(
                        self.os.kind,
                        release.assets@[j].name@,
                    )),
                None => forall|i: int|
                    0 <= i < release.assets@.len() ==> !asset_matches_spec(
                        self.os.kind,
                        release.assets@[i].name@,
                    ),
            },
    {
        let mut i: usize = 0;
        while i < release.assets.len()
            invariant
                0 <= i <= release.assets@.len(),
                forall|j: int|
                    0 <= j < i ==> !asset_matches_spec(self.os.kind, release.assets@[j].name@),
            decreases release.assets@.len() - i,
        {
            if self.matches_current_os(release.assets[i].name.as_str()) {
                return Some(i);
            }
            i += 1;
        }
        None
    }

    /// What a latest-release acquisition begun at `now` needs, given
    /// the fetched release document: nothing if the release lists no
    /// assets or none for this platform (each refusal with its own
    /// message, and no temporary directory ever named), else the
    /// download of the first matching asset into a fresh temporary
    /// directory.
    pub fn provide_latest_release_plan(&self, release: &ReleaseInfo, now: u64) -> (r: ProvideStep)
        ensures
            match r {
                ProvideStep::Refused(m) => (release.assets@.len() == 0 && m@
                    == "No release assets were found"@) || (release.assets@.len() > 0 && (forall|
                    i: int,
                |
                    0 <= i < release.assets@.len() ==> !asset_matches_spec(
                        self.os.kind,
                        release.assets@[i].name@,
                    )) && m@ == "No matching asset found for the current OS"@),
                ProvideStep::ReleaseDownload { tmp_dir, asset_name, asset_url } => tmp_dir@
                    == temp_dir_name_spec("source-latest-app-release"@, now) && exists|i: int|
                    0 <= i < release.assets@.len() && asset_matches_spec(
                        self.os.kind,
                        release.assets@[i].name@,
                    ) && (forall|j: int|
                        0 <= j < i ==> !asset_matches_spec(
                            self.os.kind,
                            release.assets@[j].name@,
                        )) && asset_name@ == release.assets@[i].name@ && asset_url@
                        == release.assets@[i].browser_download_url@,
                _ => false,
            },
    {
        if release.assets.len() == 0 {
            return ProvideStep::Refused(("No release assets were found").to_owned());
        }
        match self.select_release_asset(release) {
            None => ProvideStep::Refused(("No matching asset found for the current OS").to_owned()),
            Some(i) => {
                let step = ProvideStep::ReleaseDownload {
                    tmp_dir: self.create_temp_dir("source-latest-app-release", now),
                    asset_name: release.assets[i].name.clone(),
                    asset_url: release.assets[i].browser_download_url.clone(),
                };
                proof {
                    assert(release.assets@[i as int].name@ == release.assets@[i as int].name@);
                }
                step
            }
        }
    }

    /// What a latest-release acquisition needs next: the release
    /// document is fetched from this source's endpoint and, when it
    /// lists an asset for this platform, the download of that asset
    /// into a fresh temporary directory is handed out; a fetch that
    /// fails, an empty release, or a release without a matching asset
    /// is refused, each with its own message, before any directory is
    /// named.
    pub fn provide_latest_release_dir(&self) -> (r: ProvideStep)
        ensures
            match r {
                ProvideStep::Refused(m) => seq_starts_with(
                    m@,
                    "Failed to fetch release info: "@,
                ) || m@ == "No release assets were found"@ || m@
                    == "No matching asset found for the current OS"@,
                ProvideStep::ReleaseDownload { tmp_dir, asset_name, asset_url } => exists|now: u64|
                    tmp_dir@ == temp_dir_name_spec("source-latest-app-release"@, now),
                _ => false,
            },
    {
        match fetch_release_info(self.url.as_str()) {
            Err(e) => {
                let text = e.to_string();
                let m = concat_strs("Failed to fetch release info: ", text.as_str());
                proof {
                    assert(m@.subrange(0, "Failed to fetch release info: "@.len() as int)
                        =~= "Failed to fetch release info: "@);
                }
                ProvideStep::Refused(m)
            }
            Ok(release) => {
                let now = unix_timestamp();
                self.provide_latest_release_plan(&release, now)
            }
        }
    }

    /// What providing this source's directory needs next.  A local path
    /// completes (or fails) here; an unrecognised source is refused
    /// outright; the network kinds come back as download instructions,
    /// the release kind after its document has been fetched and an
    /// asset for this platform chosen.  Whenever the result is not
    /// `Ready`, nothing about the source has changed.
    pub fn provide_dir(&mut self) -> (r: ProvideStep)
        ensures
            old(self).kind == Kind::Unknown ==> match r {
                ProvideStep::Refused(m) => m@ == "Invalid source type: unknown"@ && *final(self)
                    == *old(self),
                _ => false,
            },
            old(self).kind == Kind::LocalPath ==> match r {
                ProvideStep::Ready(d) => d@ == old(self).url@ && final(self).source_dir@ == old(self).url@ && final(self).kind == old(self).kind && final(self).url == old(self).url
                    && final(self).os == old(self).os && final(self).cleaned_up == old(self).cleaned_up,
                ProvideStep::Refused(m) => *final(self) == *old(self) && (m@
                    == "Local source does not exist: "@ + old(self).url@ || m@
                    == "Local source must be a directory: "@ + old(self).url@),
                _ => false,
            },
            old(self).kind == Kind::GitUrl || old(self).kind == Kind::GitSSH ==> match r {
                ProvideStep::GitDownload { url, tmp_dir } => url@ == old(self).url@ && (exists|
                    now: u64,
                |
                    tmp_dir@ == temp_dir_name_spec("source-git"@, now)) && *final(self) == *old(self),
                _ => false,
            },
            old(self).kind == Kind::LatestAppRelease ==> *final(self) == *old(self) && match r {
                ProvideStep::Refused(m) => seq_starts_with(
                    m@,
                    "Failed to fetch release info: "@,
                ) || m@ == "No release assets were found"@ || m@
                    == "No matching asset found for the current OS"@,
                ProvideStep::ReleaseDownload { tmp_dir, asset_name, asset_url } => exists|now: u64|
                    tmp_dir@ == temp_dir_name_spec("source-latest-app-release"@, now),
                _ => false,
            },
    {
        match self.kind {
            Kind::LocalPath => match self.provide_local() {
                Ok(d) => ProvideStep::Ready(d),
                Err(m) => ProvideStep::Refused(m),
            },
            Kind::GitUrl | Kind::GitSSH => {
                let now = unix_timestamp();
                self.provide_git(now)
            }
            Kind::LatestAppRelease => self.provide_latest_release_dir(),
            Kind::Unknown => {
                let m = concat_strs("Invalid source type: ", self.kind.name());
                proof {
                    reveal_strlit("Invalid source type: ");
                    reveal_strlit("unknown");
                    reveal_strlit("Invalid source type: unknown");
                    assert(m@ =~= "Invalid source type: unknown"@);
                }
                ProvideStep::Refused(m)
            }
        }
    }

    /// Records that the given temporary directory is being abandoned:
    /// if it is the recorded directory, the source counts as cleaned.
    /// The caller must then remove the returned path from disk,
    /// best-effort.
    pub fn cleanup_temp_dir(&mut self, dir: &str) -> (r: String)
        ensures
            r@ == dir@,
            final(self).cleaned_up == (old(self).cleaned_up || old(self).source_dir@ == dir@),
            final(self).kind == old(self).kind && final(self).url == old(self).url && final(self).os == old(self).os && final(self).source_dir == old(self).source_dir,
    {
        let sv = str_chars(self.source_dir.as_str());
        let dv = str_chars(dir);
        if crate::text::eq_chars(&sv, &dv) {
            self.cleaned_up = true;
        }
        dir.to_owned()
    }

    /// Settles a version-control acquisition from the reported outcome
    /// of the downloads: on success the temporary directory must now be
    /// a directory and is recorded; otherwise the error is wrapped and
    /// the first component of the result carries it, while the second
    /// names the directory the caller must remove — no partial state is
    /// left behind.
    pub fn complete_git_download(&mut self, tmp_dir: &str, outcome: Result<(), String>) -> (r: (
        Result<String, String>,
        Option<String>,
    ))
        ensures
            match outcome {
                Err(e) => match r.0 {
                    Err(m) => m@ == "Failed to download Git source: "@ + e@,
                    Ok(_) => false,
                },
                Ok(_) => match r.0 {
                    Ok(d) => d@ == tmp_dir@ && final(self).source_dir@ == tmp_dir@ && final(self).cleaned_up == old(self).cleaned_up && r.1 is None,
                    Err(m) => m@ == "Git source was not downloaded successfully"@,
                },
            },
            r.0 is Err ==> match r.1 {
                Some(d) => d@ == tmp_dir@,
                None => false,
            } && final(self).source_dir == old(self).source_dir && final(self).cleaned_up == (old(self).cleaned_up || old(self).source_dir@ == tmp_dir@),
            final(self).kind == old(self).kind && final(self).url == old(self).url && final(self).os == old(self).os,
    {
        match outcome {
            Ok(_) => {
                if !path_is_dir(tmp_dir) {
                    let to_remove = self.cleanup_temp_dir(tmp_dir);
                    (
                        Err(("Git source was not downloaded successfully").to_owned()),
                        Some(to_remove),
                    )
                } else {
                    self.source_dir = tmp_dir.to_owned();
                    (Ok(tmp_dir.to_owned()), None)
                }
            }
            Err(e) => {
                let to_remove = self.cleanup_temp_dir(tmp_dir);
                (
                    Err(concat_strs("Failed to download Git source: ", e.as_str())),
                    Some(to_remove),
                )
            }
        }
    }

    /// Settles a latest-release acquisition from the reported outcome
    /// of the asset download: the downloaded file must be present and
    /// the temporary directory not empty, and the directory is then
    /// recorded; every failure wraps its error and names the directory
    /// the caller must remove.
    pub fn complete_release_download(
        &mut self,
        tmp_dir: &str,
        asset_name: &str,
        outcome: Result<(), String>,
    ) -> (r: (Result<String, String>, Option<String>))
        ensures
            match outcome {
                Err(e) => match r.0 {
                    Err(m) => m@ == "Failed to download release asset: "@ + e@,
                    Ok(_) => false,
                },
                Ok(_) => match r.0 {
                    Ok(d) => d@ == tmp_dir@ && final(self).source_dir@ == tmp_dir@ && final(self).cleaned_up == old(self).cleaned_up && r.1 is None,
                    Err(m) => m@ == "Downloaded asset not found: "@ + tmp_dir@ + seq!['/']
                        + asset_name@ || m@
                        == "No matching release asset found for the current OS"@,
                },
            },
            r.0 is Err ==> match r.1 {
                Some(d) => d@ == tmp_dir@,
                None => false,
            } && final(self).source_dir == old(self).source_dir && final(self).cleaned_up == (old(self).cleaned_up || old(self).source_dir@ == tmp_dir@),
            final(self).kind == old(self).kind && final(self).url == old(self).url && final(self).os == old(self).os,
    {
        match outcome {
            Err(e) => {
                let to_remove = self.cleanup_temp_dir(tmp_dir);
                (
                    Err(concat_strs("Failed to download release asset: ", e.as_str())),
                    Some(to_remove),
                )
            }
            Ok(_) => {
                let asset_path = join_path(tmp_dir, asset_name);
                if !path_is_file(asset_path.as_str()) {
                    let to_remove = self.cleanup_temp_dir(tmp_dir);
                    (
                        Err(concat_strs("Downloaded asset not found: ", asset_path.as_str())),
                        Some(to_remove),
                    )
                } else if is_dir_empty(tmp_dir) {
                    let to_remove = self.cleanup_temp_dir(tmp_dir);
                    (
                        Err(("No matching release asset found for the current OS").to_owned()),
                        Some(to_remove),
                    )
                } else {
                    self.source_dir = tmp_dir.to_owned();
                    (Ok(tmp_dir.to_owned()), None)
                }
            }
        }
    }

    /// Whether this source may be asked for the latest release of the
    /// tool itself; any other kind is refused.
    pub fn latest_release_guard(&self) -> (r: Result<(), String>)
        ensures
            match r {
                Ok(_) => self.kind == Kind::LatestAppRelease,
                Err(m) => self.kind != Kind::LatestAppRelease && m@
                    == "Invalid source type for latest app release"@,
            },
    {
        if matches!(self.kind, Kind::LatestAppRelease) {
            Ok(())
        } else {
            Err(("Invalid source type for latest app release").to_owned())
        }
    }

    /// The first of the listed entries that both is a file and bears a
    /// name built for this platform; `names` and `is_file` describe the
    /// entries in step.  `None` exactly when no entry qualifies.
    pub fn select_matching_archive(&self, names: &Vec<String>, is_file: &Vec<bool>) -> (r: Option<
        usize,
    >)
        requires
            names@.len() == is_file@.len(),
        ensures
            match r {
                Some(i) => i < names@.len() && is_file@[i as int] && asset_matches_spec(
                    self.os.kind,
                    names@[i as int]@,
                ) && (forall|j: int|
                    0 <= j < i ==> !(is_file@[j] && asset_matches_spec(
                        self.os.kind,
                        names@[j]@,
                    ))),
                None => forall|i: int|
                    0 <= i < names@.len() ==> !(is_file@[i] && asset_matches_spec(
                        self.os.kind,
                        names@[i]@,
                    )),
            },
    {
        let mut i: usize = 0;
        while i < names.len()
            invariant
                names@.len() == is_file@.len(),
                0 <= i <= names@.len(),
                forall|j: int|
                    0 <= j < i ==> !(is_file@[j] && asset_matches_spec(
                        self.os.kind,
                        names@[j]@,
                    )),
            decreases names@.len() - i,
        {
            if is_file[i] && self.matches_current_os(names[i].as_str()) {
                return Some(i);
            }
            i += 1;
        }
        None
    }

    /// The downloaded archive for this platform inside `dir`: the
    /// directory is listed and probed, and `select_matching_archive`
    /// picks the first entry that is a file and carries the platform's
    /// archive suffix; the error comes exactly when the selection over
    /// the probed listing found nothing.
    pub fn find_matching_archive(&self, dir: &str) -> (r: Result<String, String>)
        ensures
            match r {
                Ok(p) => asset_matches_spec(self.os.kind, filename_spec(p@)),
                Err(m) => m@ == "No matching archive found for the current OS"@,
            },
    {
        let entries = ls(dir);
        let mut full_paths: Vec<String> = Vec::new();
        let mut name_parts: Vec<String> = Vec::new();
        let mut files: Vec<bool> = Vec::new();
        let mut i: usize = 0;
        while i < entries.len()
            invariant
                full_paths@.len() == i,
                name_parts@.len() == i,
                files@.len() == i,
                0 <= i <= entries@.len(),
                forall|k: int| 0 <= k < i ==> name_parts@[k]@ == filename_spec(full_paths@[k]@),
            decreases entries@.len() - i,
        {
            let full = join_path(dir, entries[i].as_str());
            let name_part = filename(full.as_str());
            files.push(path_is_file(full.as_str()));
            full_paths.push(full);
            name_parts.push(name_part);
            i += 1;
        }
        match self.select_matching_archive(&name_parts, &files) {
            Some(k) => Ok(full_paths[k].clone()),
            None => Err(("No matching archive found for the current OS").to_owned()),
        }
    }

    /// Where the platform's executable must stand after the archive has
    /// been extracted into the temporary directory, or the error that
    /// it is not there.
    pub fn locate_binary_after_extract(&self, tmp_dir: &str) -> (r: Result<String, String>)
        ensures
            match r {
                Ok(p) => p@ == tmp_dir@ + seq!['/'] + self.os.app_name@,
                Err(m) => m@ == "Binary not found after extraction: "@ + tmp_dir@ + seq!['/']
                    + self.os.app_name@,
            },
    {
        let binary_path = join_path(tmp_dir, self.os.app_name.as_str());
        if path_is_file(binary_path.as_str()) {
            Ok(binary_path)
        } else {
            Err(concat_strs("Binary not found after extraction: ", binary_path.as_str()))
        }
    }

    /// Gives the acquired directory up: decides for deletion only when
    /// this source owns a network-acquired directory, has not been
    /// cleaned before, and the directory still exists — and marks the
    /// source clean the moment it so decides, so that no later call
    /// ever decides a second deletion.  A local directory is never
    /// returned for deletion.  The caller removes the returned path,
    /// best-effort.
    pub fn clear(&mut self) -> (r: Option<String>)
        ensures
            old(self).cleaned_up ==> r is None && *final(self) == *old(self),
            old(self).kind == Kind::LocalPath ==> r is None && *final(self) == *old(self),
            !requires_network_spec(old(self).kind) ==> r is None && *final(self) == *old(self),
            match r {
                Some(d) => d@ == old(self).source_dir@ && !old(self).cleaned_up
                    && requires_network_spec(old(self).kind) && final(self).cleaned_up && final(self).kind == old(self).kind && final(self).url == old(self).url && final(self).os
                    == old(self).os && final(self).source_dir == old(self).source_dir,
                None => *final(self) == *old(self),
            },
            exists|e: bool|
                #[trigger] clear_would_delete(*old(self), e) == (r is Some) && *final(self)
                    == clear_next_spec(*old(self), e),
    {
        if self.cleaned_up || !self.is_from_external() || !path_exists(self.source_dir.as_str()) {
            proof {
                assert(clear_would_delete(*old(self), false) == false);
                assert(*self == clear_next_spec(*old(self), false));
            }
            return None;
        }
        self.cleaned_up = true;
        proof {
            assert(clear_would_delete(*old(self), true));
            assert(*self == clear_next_spec(*old(self), true));
        }
        Some(self.source_dir.clone())
    }
}

} // verus!
