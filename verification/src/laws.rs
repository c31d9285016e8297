//! The resolver's governing properties, proved over the transition
//! relation [`next`] and the naming scheme.

use vstd::prelude::*;

use crate::model::{
    EventView, PhaseView, ResolvedBinaryView, ResolverView, StepView, expects, next,
    prune_selection, repo_token,
};
use crate::platform::{Arch, Os, spec_asset_name};

verus! {

/// Asset-name derivation follows the documented literal pattern
/// `baml-cli-{version}-{arch}-{os}{ext}` for every supported
/// platform/architecture pair.
pub proof fn lemma_asset_name_follows_pattern(version: Seq<char>)
    ensures
        spec_asset_name(version, Os::Mac, Arch::Aarch64) == "baml-cli-"@ + version
            + "-aarch64-apple-darwin.tar.gz"@,
        spec_asset_name(version, Os::Mac, Arch::X8664) == "baml-cli-"@ + version
            + "-x86_64-apple-darwin.tar.gz"@,
        spec_asset_name(version, Os::Linux, Arch::Aarch64) == "baml-cli-"@ + version
            + "-aarch64-unknown-linux-gnu.tar.gz"@,
        spec_asset_name(version, Os::Linux, Arch::X8664) == "baml-cli-"@ + version
            + "-x86_64-unknown-linux-gnu.tar.gz"@,
        spec_asset_name(version, Os::Windows, Arch::Aarch64) == "baml-cli-"@ + version
            + "-aarch64-pc-windows-msvc.exe"@,
        spec_asset_name(version, Os::Windows, Arch::X8664) == "baml-cli-"@ + version
            + "-x86_64-pc-windows-msvc.exe"@,
{
    reveal_strlit("-");
    reveal_strlit("aarch64");
    reveal_strlit("x86_64");
    reveal_strlit("apple-darwin");
    reveal_strlit("unknown-linux-gnu");
    reveal_strlit("pc-windows-msvc");
    reveal_strlit(".tar.gz");
    reveal_strlit(".exe");
    reveal_strlit("-aarch64-apple-darwin.tar.gz");
    reveal_strlit("-x86_64-apple-darwin.tar.gz");
    reveal_strlit("-aarch64-unknown-linux-gnu.tar.gz");
    reveal_strlit("-x86_64-unknown-linux-gnu.tar.gz");
    reveal_strlit("-aarch64-pc-windows-msvc.exe");
    reveal_strlit("-x86_64-pc-windows-msvc.exe");
    assert(spec_asset_name(version, Os::Mac, Arch::Aarch64) =~= "baml-cli-"@ + version
        + "-aarch64-apple-darwin.tar.gz"@);
    assert(spec_asset_name(version, Os::Mac, Arch::X8664) =~= "baml-cli-"@ + version
        + "-x86_64-apple-darwin.tar.gz"@);
    assert(spec_asset_name(version, Os::Linux, Arch::Aarch64) =~= "baml-cli-"@ + version
        + "-aarch64-unknown-linux-gnu.tar.gz"@);
    assert(spec_asset_name(version, Os::Linux, Arch::X8664) =~= "baml-cli-"@ + version
        + "-x86_64-unknown-linux-gnu.tar.gz"@);
    assert(spec_asset_name(version, Os::Windows, Arch::Aarch64) =~= "baml-cli-"@ + version
        + "-aarch64-pc-windows-msvc.exe"@);
    assert(spec_asset_name(version, Os::Windows, Arch::X8664) =~= "baml-cli-"@ + version
        + "-x86_64-pc-windows-msvc.exe"@);
}

/// On the unsupported 32-bit x86 architecture the derived name always
/// carries the token `unsupported` where the architecture stands, whatever
/// the version and platform: no published asset matches such a name.
pub proof fn lemma_x86_name_carries_unsupported(version: Seq<char>, os: Os)
    ensures
        spec_asset_name(version, os, Arch::X86).subrange(
            version.len() + 10 as int,
            version.len() + 21 as int,
        ) == "unsupported"@,
{
    reveal_strlit("baml-cli-");
    reveal_strlit("-");
    reveal_strlit("unsupported");
    assert(spec_asset_name(version, os, Arch::X86).subrange(version.len() + 10 as int, version.len() + 21 as int)
        =~= "unsupported"@);
}

/// Priority of explicit configuration: a session started with a configured
/// binary path finishes at once with exactly that path and the configured
/// arguments. No file check, release query or download is requested, and
/// the cache is left untouched.
pub proof fn lemma_configured_path_wins(
    r: ResolverView,
    path: Seq<char>,
    args: Option<Seq<Seq<char>>>,
    os: Os,
    arch: Arch,
)
    ensures
        ({
            let (r2, s) = next(
                r,
                EventView::Start { config_path: Some(path), config_args: args, os, arch },
            );
            &&& s == (StepView::Finish {
                binary: ResolvedBinaryView { path, args },
                delete: Seq::<Seq<char>>::empty(),
            })
            &&& r2.cached_binary_path == r.cached_binary_path
            &&& r2.phase == PhaseView::Finished
        }),
{
}

/// Cache fallthrough: when the cached path no longer names a regular file,
/// the session proceeds silently to remote acquisition instead of failing,
/// and the cache is not yet changed.
pub proof fn lemma_stale_cache_falls_through(
    r: ResolverView,
    args: Option<Seq<Seq<char>>>,
    os: Os,
    arch: Arch,
    path: Seq<char>,
)
    requires
        r.phase == (PhaseView::AwaitCacheCheck { args, os, arch, path }),
    ensures
        ({
            let (r2, s) = next(r, EventView::FileChecked { is_file: false });
            &&& s == (StepView::FetchRelease { repo: repo_token() })
            &&& r2.phase == (PhaseView::AwaitRelease { args, os, arch })
            &&& r2.cached_binary_path == r.cached_binary_path
        }),
{
}

/// Whenever remote acquisition finishes a session — through the on-disk
/// short-circuit or after a download — the finished binary path is exactly
/// what the cache now holds.
pub proof fn lemma_acquisition_commits_cache(r: ResolverView, e: EventView)
    requires
        expects(r.phase, e),
        r.phase matches PhaseView::AwaitBinaryCheck { .. } || r.phase
            matches PhaseView::AwaitDirList { .. },
    ensures
        ({
            let (r2, s) = next(r, e);
            s matches StepView::Finish { binary, .. } ==> r2.cached_binary_path == Some(
                binary.path,
            )
        }),
{
}

/// The cache is never cleared: a transition either leaves it as it was or
/// commits an acquired binary path, so once set it stays set for the rest of
/// the process lifetime.
pub proof fn lemma_cache_is_never_cleared(r: ResolverView, e: EventView)
    ensures
        ({
            let (r2, s) = next(r, e);
            r2.cached_binary_path == r.cached_binary_path || r2.cached_binary_path is Some
        }),
{
}

/// Idempotence of re-resolution: a resolver whose cache holds `p` — as it
/// does right after a session committed `p` — serves a new session without
/// a configured path by a single file check: while `p` is still on disk,
/// the session finishes with exactly `p` and the configured arguments, and
/// requests no release query and no download.
pub proof fn lemma_cached_resolution_is_idempotent(
    r: ResolverView,
    p: Seq<char>,
    args: Option<Seq<Seq<char>>>,
    os: Os,
    arch: Arch,
)
    requires
        r.phase == PhaseView::Finished,
        r.cached_binary_path == Some(p),
    ensures
        ({
            let (r1, s1) = next(
                r,
                EventView::Start { config_path: None, config_args: args, os, arch },
            );
            let (r2, s2) = next(r1, EventView::FileChecked { is_file: true });
            &&& s1 == (StepView::CheckFile { path: p })
            &&& s2 == (StepView::Finish {
                binary: ResolvedBinaryView { path: p, args },
                delete: Seq::<Seq<char>>::empty(),
            })
            &&& r2 == (ResolverView { cached_binary_path: Some(p), phase: PhaseView::Finished })
        }),
{
}

proof fn lemma_prune_selection_contains(entries: Seq<Seq<char>>, keep: Seq<char>, i: int)
    requires
        0 <= i < entries.len(),
        entries[i] != keep,
    ensures
        prune_selection(entries, keep).contains(entries[i]),
    decreases entries.len(),
{
    if i == 0 {
        assert(prune_selection(entries, keep)[0] == entries[0]);
    } else {
        lemma_prune_selection_contains(entries.drop_first(), keep, i - 1);
        let rest = prune_selection(entries.drop_first(), keep);
        let k = choose|k: int| 0 <= k < rest.len() && rest[k] == entries.drop_first()[i - 1];
        if entries[0] != keep {
            assert((seq![entries[0]] + rest)[k + 1] == rest[k]);
        }
    }
}

proof fn lemma_prune_selection_excludes_keep(entries: Seq<Seq<char>>, keep: Seq<char>, j: int)
    requires
        0 <= j < prune_selection(entries, keep).len(),
    ensures
        prune_selection(entries, keep)[j] != keep,
    decreases entries.len(),
{
    if entries.len() == 0 {
    } else if entries[0] == keep {
        lemma_prune_selection_excludes_keep(entries.drop_first(), keep, j);
    } else if j > 0 {
        lemma_prune_selection_excludes_keep(entries.drop_first(), keep, j - 1);
        assert((seq![entries[0]] + prune_selection(entries.drop_first(), keep))[j]
            == prune_selection(entries.drop_first(), keep)[j - 1]);
    }
}

/// Pruning after a fresh download spares exactly the new version directory:
/// every listed entry other than `vd` is in the delete set, the delete set
/// never holds `vd`, and the session finishes with the downloaded binary
/// committed to the cache.
pub proof fn lemma_pruning_spares_only_version_dir(
    r: ResolverView,
    args: Option<Seq<Seq<char>>>,
    vd: Seq<char>,
    bp: Seq<char>,
    entries: Seq<Seq<char>>,
)
    requires
        r.phase == (PhaseView::AwaitDirList { args, version_dir: vd, binary_path: bp }),
    ensures
        ({
            let (r2, s) = next(r, EventView::DirListed { result: Ok(entries) });
            &&& s == (StepView::Finish {
                binary: ResolvedBinaryView { path: bp, args },
                delete: prune_selection(entries, vd),
            })
            &&& forall|i: int|
                0 <= i < entries.len() && entries[i] != vd ==> prune_selection(
                    entries,
                    vd,
                ).contains(entries[i])
            &&& forall|j: int|
                0 <= j < prune_selection(entries, vd).len() ==> prune_selection(entries, vd)[j]
                    != vd
            &&& r2.cached_binary_path == Some(bp)
            &&& r2.phase == PhaseView::Finished
        }),
{
    assert forall|i: int| 0 <= i < entries.len() && entries[i] != vd implies prune_selection(
        entries,
        vd,
    ).contains(entries[i]) by {
        lemma_prune_selection_contains(entries, vd, i);
    }
    assert forall|j: int| 0 <= j < prune_selection(entries, vd).len() implies prune_selection(
        entries,
        vd,
    )[j] != vd by {
        lemma_prune_selection_excludes_keep(entries, vd, j);
    }
}

} // verus!
