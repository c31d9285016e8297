//! Releases and their downloadable assets, and exact-name asset selection.

use vstd::prelude::*;

verus! {

/// One downloadable file attached to a release.
#[derive(Debug, Clone, PartialEq)]
pub struct Asset {
    pub name: String,
    pub download_url: String,
}

/// Mathematical model of an [`Asset`].
pub struct AssetView {
    pub name: Seq<char>,
    pub download_url: Seq<char>,
}

/// The latest release offered by the remote index: a version string and its
/// ordered list of assets.
#[derive(Debug, Clone, PartialEq)]
pub struct ReleaseInfo {
    pub version: String,
    pub assets: Vec<Asset>,
}

/// Mathematical model of a [`ReleaseInfo`].
pub struct ReleaseView {
    pub version: Seq<char>,
    pub assets: Seq<AssetView>,
}

impl View for Asset {
    type V = AssetView;

    open spec fn view(&self) -> AssetView {
        AssetView { name: self.name@, download_url: self.download_url@ }
    }
}

impl DeepView for Asset {
    type V = AssetView;

    open spec fn deep_view(&self) -> AssetView {
        self.view()
    }
}

impl View for ReleaseInfo {
    type V = ReleaseView;

    open spec fn view(&self) -> ReleaseView {
        ReleaseView { version: self.version@, assets: self.assets.deep_view() }
    }
}

impl DeepView for ReleaseInfo {
    type V = ReleaseView;

    open spec fn deep_view(&self) -> ReleaseView {
        self.view()
    }
}

/// The first asset whose name equals `name` exactly, if any.
pub open spec fn find_named(assets: Seq<AssetView>, name: Seq<char>) -> Option<AssetView>
    decreases assets.len(),
{
    if assets.len() == 0 {
        None
    } else if assets[0].name == name {
        Some(assets[0])
    } else {
        find_named(assets.drop_first(), name)
    }
}

proof fn lemma_find_named_step(assets: Seq<AssetView>, name: Seq<char>)
    requires
        assets.len() > 0,
    ensures
        assets[0].name == name ==> find_named(assets, name) == Some(assets[0]),
        assets[0].name != name ==> find_named(assets, name) == find_named(
            assets.drop_first(),
            name,
        ),
{
}

/// Selects the asset whose name equals `name`, by exact, case-sensitive
/// comparison; returns the index of the first match.
pub fn find_asset(assets: &Vec<Asset>, name: &String) -> (r: Option<usize>)
    ensures
        match r {
            Some(i) => i < assets.len() && find_named(assets.deep_view(), name@) == Some(
                assets[i as int]@,
            ),
            None => find_named(assets.deep_view(), name@) is None,
        },
{
    let ghost all = assets.deep_view();
    proof {
        assert(all.skip(0) =~= all);
    }
    let mut i: usize = 0;
    while i < assets.len()
        invariant
            i <= assets.len(),
            all == assets.deep_view(),
            all.len() == assets.len(),
            find_named(all, name@) == find_named(all.skip(i as int), name@),
        decreases assets.len() - i,
    {
        proof {
            assert(all.skip(i as int)[0] == all[i as int]);
            lemma_find_named_step(all.skip(i as int), name@);
            assert(all.skip(i as int).drop_first() =~= all.skip(i as int + 1));
        }
        if assets[i].name == *name {
            return Some(i);
        }
        i += 1;
    }
    proof {
        assert(all.skip(all.len() as int) =~= Seq::<AssetView>::empty());
    }
    None
}

} // verus!
