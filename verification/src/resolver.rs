//! The executable resolver, proved to implement the transition relation
//! [`crate::model::next`].

use vstd::prelude::*;
use vstd::pervasive::unreached;
use vstd::string::StringExecFns;

use crate::model::{
    EventView, PhaseView, ResolveErrorView, ResolvedBinaryView, ResolverView, StepView, expects,
    next, prune_selection,
};
use crate::platform::{
    Arch, ArchiveKind, Os, archive_kind, asset_name, binary_path, version_dir,
};
use crate::release::{ReleaseInfo, find_asset};

verus! {

/// The resolver's answer: the path of the binary to launch and the
/// configured argument list, if any was configured.
#[derive(Debug, Clone, PartialEq)]
pub struct ResolvedBinary {
    pub path: String,
    pub args: Option<Vec<String>>,
}

impl View for ResolvedBinary {
    type V = ResolvedBinaryView;

    open spec fn view(&self) -> ResolvedBinaryView {
        ResolvedBinaryView { path: self.path@, args: self.args.deep_view() }
    }
}

/// A failed resolution attempt.
#[derive(Debug, Clone, PartialEq)]
pub enum ResolveError {
    /// The remote index was unreachable or offered no qualifying release.
    ReleaseLookup { message: String },
    /// The release carries no asset with the expected name.
    AssetNotFound { expected: String },
    /// Fetching or unpacking the selected asset failed.
    Download { message: String },
}

impl View for ResolveError {
    type V = ResolveErrorView;

    open spec fn view(&self) -> ResolveErrorView {
        match self {
            ResolveError::ReleaseLookup { message } => ResolveErrorView::ReleaseLookup {
                message: message@,
            },
            ResolveError::AssetNotFound { expected } => ResolveErrorView::AssetNotFound {
                expected: expected@,
            },
            ResolveError::Download { message } => ResolveErrorView::Download { message: message@ },
        }
    }
}

/// The descriptive text of each error, with the identifiers that were
/// computed for the failed attempt.
pub open spec fn spec_error_message(e: ResolveErrorView) -> Seq<char> {
    match e {
        ResolveErrorView::ReleaseLookup { message } => message,
        ResolveErrorView::AssetNotFound { expected } => "no asset found matching "@ + expected,
        ResolveErrorView::Download { message } => "failed to download file: "@ + message,
    }
}

impl ResolveError {
    /// Renders the error for the host.
    pub fn message(&self) -> (r: String)
        ensures
            r@ == spec_error_message(self@),
    {
        match self {
            ResolveError::ReleaseLookup { message } => message.clone(),
            ResolveError::AssetNotFound { expected } => {
                let mut s = String::from_str("no asset found matching ");
                s.append(expected.as_str());
                s
            },
            ResolveError::Download { message } => {
                let mut s = String::from_str("failed to download file: ");
                s.append(message.as_str());
                s
            },
        }
    }
}

/// Where a resolution session stands: which outcome the resolver awaits.
#[derive(Debug, Clone, PartialEq)]
pub enum Phase {
    Idle,
    AwaitCacheCheck { args: Option<Vec<String>>, os: Os, arch: Arch, path: String },
    AwaitRelease { args: Option<Vec<String>>, os: Os, arch: Arch },
    AwaitBinaryCheck {
        args: Option<Vec<String>>,
        kind: ArchiveKind,
        url: String,
        version_dir: String,
        binary_path: String,
    },
    AwaitDownload { args: Option<Vec<String>>, version_dir: String, binary_path: String },
    AwaitDirList { args: Option<Vec<String>>, version_dir: String, binary_path: String },
    Finished,
}

impl View for Phase {
    type V = PhaseView;

    open spec fn view(&self) -> PhaseView {
        match self {
            Phase::Idle => PhaseView::Idle,
            Phase::AwaitCacheCheck { args, os, arch, path } => PhaseView::AwaitCacheCheck {
                args: args.deep_view(),
                os: *os,
                arch: *arch,
                path: path@,
            },
            Phase::AwaitRelease { args, os, arch } => PhaseView::AwaitRelease {
                args: args.deep_view(),
                os: *os,
                arch: *arch,
            },
            Phase::AwaitBinaryCheck { args, kind, url, version_dir, binary_path } => {
                PhaseView::AwaitBinaryCheck {
                    args: args.deep_view(),
                    kind: *kind,
                    url: url@,
                    version_dir: version_dir@,
                    binary_path: binary_path@,
                }
            },
            Phase::AwaitDownload { args, version_dir, binary_path } => PhaseView::AwaitDownload {
                args: args.deep_view(),
                version_dir: version_dir@,
                binary_path: binary_path@,
            },
            Phase::AwaitDirList { args, version_dir, binary_path } => PhaseView::AwaitDirList {
                args: args.deep_view(),
                version_dir: version_dir@,
                binary_path: binary_path@,
            },
            Phase::Finished => PhaseView::Finished,
        }
    }
}

/// What the host reports to the resolver. See [`EventView`] for the meaning
/// of each variant.
#[derive(Debug, PartialEq)]
pub enum Event {
    Start {
        config_path: Option<String>,
        config_args: Option<Vec<String>>,
        os: Os,
        arch: Arch,
    },
    FileChecked { is_file: bool },
    ReleaseFetched { result: Result<ReleaseInfo, String> },
    Downloaded { result: Result<(), String> },
    DirListed { result: Result<Vec<String>, String> },
}

impl View for Event {
    type V = EventView;

    open spec fn view(&self) -> EventView {
        match self {
            Event::Start { config_path, config_args, os, arch } => EventView::Start {
                config_path: config_path.deep_view(),
                config_args: config_args.deep_view(),
                os: *os,
                arch: *arch,
            },
            Event::FileChecked { is_file } => EventView::FileChecked { is_file: *is_file },
            Event::ReleaseFetched { result } => EventView::ReleaseFetched {
                result: match result {
                    Ok(release) => Ok(release@),
                    Err(message) => Err(message@),
                },
            },
            Event::Downloaded { result } => EventView::Downloaded {
                result: match result {
                    Ok(_) => Ok(()),
                    Err(message) => Err(message@),
                },
            },
            Event::DirListed { result } => EventView::DirListed {
                result: match result {
                    Ok(entries) => Ok(entries.deep_view()),
                    Err(message) => Err(message@),
                },
            },
        }
    }
}

/// What the resolver asks the host to do next. See [`StepView`] for the
/// obligations each variant carries.
#[derive(Debug, Clone, PartialEq)]
pub enum Step {
    CheckFile { path: String },
    FetchRelease { repo: String },
    Download { url: String, dest: String, kind: ArchiveKind },
    ListDir,
    Finish { binary: ResolvedBinary, delete: Vec<String> },
    Fail { error: ResolveError },
}

impl View for Step {
    type V = StepView;

    open spec fn view(&self) -> StepView {
        match self {
            Step::CheckFile { path } => StepView::CheckFile { path: path@ },
            Step::FetchRelease { repo } => StepView::FetchRelease { repo: repo@ },
            Step::Download { url, dest, kind } => StepView::Download {
                url: url@,
                dest: dest@,
                kind: *kind,
            },
            Step::ListDir => StepView::ListDir,
            Step::Finish { binary, delete } => StepView::Finish {
                binary: binary@,
                delete: delete.deep_view(),
            },
            Step::Fail { error } => StepView::Fail { error: error@ },
        }
    }
}

/// The resolver: the process-lifetime cache of the last committed binary
/// path, and the phase of the session in flight.
#[derive(Debug, Clone, PartialEq)]
pub struct Resolver {
    pub cached_binary_path: Option<String>,
    pub phase: Phase,
}

impl View for Resolver {
    type V = ResolverView;

    open spec fn view(&self) -> ResolverView {
        ResolverView {
            cached_binary_path: self.cached_binary_path.deep_view(),
            phase: self.phase@,
        }
    }
}

fn empty_delete() -> (r: Vec<String>)
    ensures
        r.deep_view() == Seq::<Seq<char>>::empty(),
{
    let r: Vec<String> = Vec::new();
    proof {
        assert(r.deep_view() =~= Seq::<Seq<char>>::empty());
    }
    r
}

proof fn lemma_prune_selection_push(entries: Seq<Seq<char>>, keep: Seq<char>, x: Seq<char>)
    ensures
        prune_selection(entries.push(x), keep) == if x == keep {
            prune_selection(entries, keep)
        } else {
            prune_selection(entries, keep).push(x)
        },
    decreases entries.len(),
{
    reveal_with_fuel(prune_selection, 2);
    let pushed = entries.push(x);
    if entries.len() == 0 {
        assert(entries =~= Seq::<Seq<char>>::empty());
        assert(pushed.drop_first() =~= Seq::<Seq<char>>::empty());
        assert(pushed[0] == x);
        if x != keep {
            assert(seq![x] + Seq::<Seq<char>>::empty() =~= Seq::<Seq<char>>::empty().push(x));
        }
    } else {
        assert(pushed[0] == entries[0]);
        assert(pushed.drop_first() =~= entries.drop_first().push(x));
        lemma_prune_selection_push(entries.drop_first(), keep, x);
        if x != keep {
            assert(seq![entries[0]] + prune_selection(entries.drop_first(), keep).push(x) =~= (
            seq![entries[0]] + prune_selection(entries.drop_first(), keep)).push(x));
        }
    }
}

/// Keeps, in order, every entry that is not `keep`: the entries pruning
/// deletes after a fresh download into `keep`.
pub fn prune_list(entries: &Vec<String>, keep: &String) -> (r: Vec<String>)
    ensures
        r.deep_view() == prune_selection(entries.deep_view(), keep@),
{
    let ghost all = entries.deep_view();
    proof {
        assert(all.take(0) =~= Seq::<Seq<char>>::empty());
    }
    let mut out: Vec<String> = Vec::new();
    proof {
        assert(out.deep_view() =~= Seq::<Seq<char>>::empty());
    }
    let mut i: usize = 0;
    while i < entries.len()
        invariant
            i <= entries.len(),
            all == entries.deep_view(),
            all.len() == entries.len(),
            out.deep_view() == prune_selection(all.take(i as int), keep@),
        decreases entries.len() - i,
    {
        let ghost before = out.deep_view();
        if !(entries[i] == *keep) {
            out.push(entries[i].clone());
            proof {
                assert(out.deep_view() =~= before.push(all[i as int]));
            }
        }
        proof {
            assert(all.take(i as int + 1) =~= all.take(i as int).push(all[i as int]));
            lemma_prune_selection_push(all.take(i as int), keep@, all[i as int]);
        }
        i += 1;
    }
    proof {
        assert(all.take(all.len() as int) =~= all);
    }
    out
}

impl Resolver {
    /// A fresh resolver: nothing cached, no session in flight.
    pub fn new() -> (r: Resolver)
        ensures
            r@ == (ResolverView { cached_binary_path: None, phase: PhaseView::Idle }),
    {
        Resolver { cached_binary_path: None, phase: Phase::Idle }
    }

    /// Performs one transition: consumes the host's event and returns the
    /// step the host is to perform next, exactly as the transition relation
    /// [`next`] prescribes.
    pub fn step(&mut self, event: Event) -> (s: Step)
        requires
            expects(old(self)@.phase, event@),
        ensures
            ({
                let (r2, s2) = next(old(self)@, event@);
                final(self)@ == r2 && s@ == s2
            }),
    {
        let mut phase = Phase::Idle;
        core::mem::swap(&mut phase, &mut self.phase);
        match event {
            Event::Start { config_path, config_args, os, arch } => match config_path {
                Some(p) => {
                    self.phase = Phase::Finished;
                    Step::Finish {
                        binary: ResolvedBinary { path: p, args: config_args },
                        delete: empty_delete(),
                    }
                },
                None => {
                    let cached = match &self.cached_binary_path {
                        Some(c) => Some(c.clone()),
                        None => None,
                    };
                    match cached {
                        Some(c) => {
                            let path = c.clone();
                            self.phase = Phase::AwaitCacheCheck { args: config_args, os, arch, path };
                            Step::CheckFile { path: c }
                        },
                        None => {
                            self.phase = Phase::AwaitRelease { args: config_args, os, arch };
                            Step::FetchRelease { repo: String::from_str("BoundaryML/baml") }
                        },
                    }
                },
            },
            Event::FileChecked { is_file } => match phase {
                Phase::AwaitCacheCheck { args, os, arch, path } => if is_file {
                    self.phase = Phase::Finished;
                    Step::Finish {
                        binary: ResolvedBinary { path, args },
                        delete: empty_delete(),
                    }
                } else {
                    self.phase = Phase::AwaitRelease { args, os, arch };
                    Step::FetchRelease { repo: String::from_str("BoundaryML/baml") }
                },
                Phase::AwaitBinaryCheck { args, kind, url, version_dir, binary_path } => if is_file {
                    self.cached_binary_path = Some(binary_path.clone());
                    self.phase = Phase::Finished;
                    Step::Finish {
                        binary: ResolvedBinary { path: binary_path, args },
                        delete: empty_delete(),
                    }
                } else {
                    let dest = version_dir.clone();
                    self.phase = Phase::AwaitDownload { args, version_dir, binary_path };
                    Step::Download { url, dest, kind }
                },
                _ => unreached(),
            },
            Event::ReleaseFetched { result } => match phase {
                Phase::AwaitRelease { args, os, arch } => match result {
                    Err(message) => {
                        self.phase = Phase::Finished;
                        Step::Fail { error: ResolveError::ReleaseLookup { message } }
                    },
                    Ok(release) => {
                        let name = asset_name(release.version.as_str(), os, arch);
                        match find_asset(&release.assets, &name) {
                            None => {
                                self.phase = Phase::Finished;
                                Step::Fail { error: ResolveError::AssetNotFound { expected: name } }
                            },
                            Some(i) => {
                                let url = release.assets[i].download_url.clone();
                                let dir = version_dir(release.version.as_str());
                                let bin = binary_path(release.version.as_str());
                                let check = bin.clone();
                                self.phase = Phase::AwaitBinaryCheck {
                                    args,
                                    kind: archive_kind(os),
                                    url,
                                    version_dir: dir,
                                    binary_path: bin,
                                };
                                Step::CheckFile { path: check }
                            },
                        }
                    },
                },
                _ => unreached(),
            },
            Event::Downloaded { result } => match phase {
                Phase::AwaitDownload { args, version_dir, binary_path } => match result {
                    Err(message) => {
                        self.phase = Phase::Finished;
                        Step::Fail { error: ResolveError::Download { message } }
                    },
                    Ok(_) => {
                        self.phase = Phase::AwaitDirList { args, version_dir, binary_path };
                        Step::ListDir
                    },
                },
                _ => unreached(),
            },
            Event::DirListed { result } => match phase {
                Phase::AwaitDirList { args, version_dir, binary_path } => {
                    self.cached_binary_path = Some(binary_path.clone());
                    self.phase = Phase::Finished;
                    let delete = match result {
                        Ok(entries) => prune_list(&entries, &version_dir),
                        Err(_) => empty_delete(),
                    };
                    Step::Finish { binary: ResolvedBinary { path: binary_path, args }, delete }
                },
                _ => unreached(),
            },
        }
    }
}

} // verus!
