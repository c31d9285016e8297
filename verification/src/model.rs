//! Mathematical model of the resolver: its states, the events the host
//! reports, the steps it asks the host to perform, and the transition
//! relation `next` that the executable resolver is proved to implement.
//!
//! A resolution session is driven by the host: it sends [`EventView::Start`]
//! with the configured settings and the current platform, performs whatever
//! step `next` asks for, and feeds the outcome back as the following event,
//! until the step is a `Finish` or a `Fail`.

use vstd::prelude::*;

use crate::platform::{Arch, ArchiveKind, Os};
use crate::platform::{spec_archive_kind, spec_asset_name, spec_binary_path, spec_version_dir};
use crate::release::{ReleaseView, find_named};

verus! {

/// The resolver's answer: the path of the binary to launch and the
/// configured argument list, if any was configured.
pub struct ResolvedBinaryView {
    pub path: Seq<char>,
    pub args: Option<Seq<Seq<char>>>,
}

/// A failed resolution attempt.
pub enum ResolveErrorView {
    /// The remote index was unreachable or offered no qualifying release.
    ReleaseLookup { message: Seq<char> },
    /// The release carries no asset with the expected name.
    AssetNotFound { expected: Seq<char> },
    /// Fetching or unpacking the selected asset failed.
    Download { message: Seq<char> },
}

/// Where a resolution session stands: which outcome the resolver awaits.
pub enum PhaseView {
    /// No session has started yet.
    Idle,
    /// Awaiting the file check on the cached binary path.
    AwaitCacheCheck { args: Option<Seq<Seq<char>>>, os: Os, arch: Arch, path: Seq<char> },
    /// Awaiting the release index's answer.
    AwaitRelease { args: Option<Seq<Seq<char>>>, os: Os, arch: Arch },
    /// Awaiting the file check on the expected binary path of the release.
    AwaitBinaryCheck {
        args: Option<Seq<Seq<char>>>,
        kind: ArchiveKind,
        url: Seq<char>,
        version_dir: Seq<char>,
        binary_path: Seq<char>,
    },
    /// Awaiting the download's outcome.
    AwaitDownload { args: Option<Seq<Seq<char>>>, version_dir: Seq<char>, binary_path: Seq<char> },
    /// Awaiting the listing of the working directory, for pruning.
    AwaitDirList { args: Option<Seq<Seq<char>>>, version_dir: Seq<char>, binary_path: Seq<char> },
    /// The session ended in a `Finish` or `Fail` step.
    Finished,
}

/// Model of the resolver: the process-lifetime cache and the session phase.
pub struct ResolverView {
    pub cached_binary_path: Option<Seq<char>>,
    pub phase: PhaseView,
}

/// What the host reports to the resolver.
pub enum EventView {
    /// A new session: the configured binary path and arguments, if any, and
    /// the platform probed from the runtime environment.
    Start {
        config_path: Option<Seq<char>>,
        config_args: Option<Seq<Seq<char>>>,
        os: Os,
        arch: Arch,
    },
    /// Whether the path of the pending `CheckFile` step names a regular file.
    FileChecked { is_file: bool },
    /// The release index's answer to the pending `FetchRelease` step.
    ReleaseFetched { result: Result<ReleaseView, Seq<char>> },
    /// The outcome of the pending `Download` step.
    Downloaded { result: Result<(), Seq<char>> },
    /// The entries of the working directory, for the pending `ListDir` step.
    DirListed { result: Result<Seq<Seq<char>>, Seq<char>> },
}

/// What the resolver asks the host to do next.
pub enum StepView {
    /// Check whether `path` names a regular file; answer with `FileChecked`.
    CheckFile { path: Seq<char> },
    /// Signal that an update check is starting, then ask the release index
    /// for the latest stable release of `repo` that has assets; answer with
    /// `ReleaseFetched`.
    FetchRelease { repo: Seq<char> },
    /// Signal that a download is starting, then fetch `url` into `dest`,
    /// unpacking as `kind`; answer with `Downloaded`.
    Download { url: Seq<char>, dest: Seq<char>, kind: ArchiveKind },
    /// List the working directory's immediate entries; answer with
    /// `DirListed`.
    ListDir,
    /// The session succeeded. Best-effort delete each entry in `delete`,
    /// then launch `binary`.
    Finish { binary: ResolvedBinaryView, delete: Seq<Seq<char>> },
    /// The session failed.
    Fail { error: ResolveErrorView },
}

/// The repository queried for releases.
pub open spec fn repo_token() -> Seq<char> {
    "BoundaryML/baml"@
}

/// Whether `event` is the answer that `phase` awaits. A `Start` event opens
/// a session whenever none is in flight.
pub open spec fn expects(phase: PhaseView, event: EventView) -> bool {
    match (phase, event) {
        (PhaseView::Idle, EventView::Start { .. }) => true,
        (PhaseView::Finished, EventView::Start { .. }) => true,
        (PhaseView::AwaitCacheCheck { .. }, EventView::FileChecked { .. }) => true,
        (PhaseView::AwaitRelease { .. }, EventView::ReleaseFetched { .. }) => true,
        (PhaseView::AwaitBinaryCheck { .. }, EventView::FileChecked { .. }) => true,
        (PhaseView::AwaitDownload { .. }, EventView::Downloaded { .. }) => true,
        (PhaseView::AwaitDirList { .. }, EventView::DirListed { .. }) => true,
        _ => false,
    }
}

/// The entries that pruning removes: every listed entry except `keep`, in
/// listing order.
pub open spec fn prune_selection(entries: Seq<Seq<char>>, keep: Seq<char>) -> Seq<Seq<char>>
    decreases entries.len(),
{
    if entries.len() == 0 {
        Seq::empty()
    } else if entries[0] == keep {
        prune_selection(entries.drop_first(), keep)
    } else {
        seq![entries[0]] + prune_selection(entries.drop_first(), keep)
    }
}

/// The transition relation: from the resolver's state and the host's event
/// to the state after the transition and the step the host performs next.
/// Meaningful only when `expects(r.phase, event)` holds.
pub open spec fn next(r: ResolverView, event: EventView) -> (ResolverView, StepView) {
    match event {
        EventView::Start { config_path, config_args, os, arch } => match config_path {
            // An explicitly configured path wins outright: it is returned
            // unchecked, and neither the cache nor the network is consulted.
            Some(p) => (
                ResolverView { cached_binary_path: r.cached_binary_path, phase: PhaseView::Finished },
                StepView::Finish {
                    binary: ResolvedBinaryView { path: p, args: config_args },
                    delete: Seq::empty(),
                },
            ),
            None => match r.cached_binary_path {
                Some(c) => (
                    ResolverView {
                        cached_binary_path: r.cached_binary_path,
                        phase: PhaseView::AwaitCacheCheck { args: config_args, os, arch, path: c },
                    },
                    StepView::CheckFile { path: c },
                ),
                None => (
                    ResolverView {
                        cached_binary_path: r.cached_binary_path,
                        phase: PhaseView::AwaitRelease { args: config_args, os, arch },
                    },
                    StepView::FetchRelease { repo: repo_token() },
                ),
            },
        },
        EventView::FileChecked { is_file } => match r.phase {
            PhaseView::AwaitCacheCheck { args, os, arch, path } => if is_file {
                // The cached binary is still present: reuse it.
                (
                    ResolverView {
                        cached_binary_path: r.cached_binary_path,
                        phase: PhaseView::Finished,
                    },
                    StepView::Finish {
                        binary: ResolvedBinaryView { path, args },
                        delete: Seq::empty(),
                    },
                )
            } else {
                // The cached path went stale: fall through to the remote
                // index, silently.
                (
                    ResolverView {
                        cached_binary_path: r.cached_binary_path,
                        phase: PhaseView::AwaitRelease { args, os, arch },
                    },
                    StepView::FetchRelease { repo: repo_token() },
                )
            },
            PhaseView::AwaitBinaryCheck { args, kind, url, version_dir, binary_path } => if is_file {
                // Short-circuit: this release's binary is already on disk.
                // Commit it to the cache and finish without downloading or
                // pruning.
                (
                    ResolverView {
                        cached_binary_path: Some(binary_path),
                        phase: PhaseView::Finished,
                    },
                    StepView::Finish {
                        binary: ResolvedBinaryView { path: binary_path, args },
                        delete: Seq::empty(),
                    },
                )
            } else {
                (
                    ResolverView {
                        cached_binary_path: r.cached_binary_path,
                        phase: PhaseView::AwaitDownload { args, version_dir, binary_path },
                    },
                    StepView::Download { url, dest: version_dir, kind },
                )
            },
            _ => (r, StepView::ListDir),
        },
        EventView::ReleaseFetched { result } => match r.phase {
            PhaseView::AwaitRelease { args, os, arch } => match result {
                Err(message) => (
                    ResolverView { cached_binary_path: r.cached_binary_path, phase: PhaseView::Finished },
                    StepView::Fail { error: ResolveErrorView::ReleaseLookup { message } },
                ),
                Ok(release) => {
                    let name = spec_asset_name(release.version, os, arch);
                    match find_named(release.assets, name) {
                        None => (
                            ResolverView {
                                cached_binary_path: r.cached_binary_path,
                                phase: PhaseView::Finished,
                            },
                            StepView::Fail {
                                error: ResolveErrorView::AssetNotFound { expected: name },
                            },
                        ),
                        Some(asset) => {
                            let binary_path = spec_binary_path(release.version);
                            (
                                ResolverView {
                                    cached_binary_path: r.cached_binary_path,
                                    phase: PhaseView::AwaitBinaryCheck {
                                        args,
                                        kind: spec_archive_kind(os),
                                        url: asset.download_url,
                                        version_dir: spec_version_dir(release.version),
                                        binary_path,
                                    },
                                },
                                StepView::CheckFile { path: binary_path },
                            )
                        },
                    }
                },
            },
            _ => (r, StepView::ListDir),
        },
        EventView::Downloaded { result } => match r.phase {
            PhaseView::AwaitDownload { args, version_dir, binary_path } => match result {
                Err(message) => (
                    ResolverView { cached_binary_path: r.cached_binary_path, phase: PhaseView::Finished },
                    StepView::Fail { error: ResolveErrorView::Download { message } },
                ),
                Ok(_) => (
                    ResolverView {
                        cached_binary_path: r.cached_binary_path,
                        phase: PhaseView::AwaitDirList { args, version_dir, binary_path },
                    },
                    StepView::ListDir,
                ),
            },
            _ => (r, StepView::ListDir),
        },
        EventView::DirListed { result } => match r.phase {
            PhaseView::AwaitDirList { args, version_dir, binary_path } => {
                // The download succeeded: commit the new binary to the cache
                // and hand the host the stale entries to delete. A failed
                // listing only skips pruning; it never fails the session.
                let delete = match result {
                    Ok(entries) => prune_selection(entries, version_dir),
                    Err(_) => Seq::empty(),
                };
                (
                    ResolverView {
                        cached_binary_path: Some(binary_path),
                        phase: PhaseView::Finished,
                    },
                    StepView::Finish {
                        binary: ResolvedBinaryView { path: binary_path, args },
                        delete,
                    },
                )
            },
            _ => (r, StepView::ListDir),
        },
    }
}

} // verus!
