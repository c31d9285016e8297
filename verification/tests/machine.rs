use baml_resolver::platform::{Arch, ArchiveKind, Os};
use baml_resolver::release::{Asset, ReleaseInfo, find_asset};
use baml_resolver::resolver::{Event, ResolveError, ResolvedBinary, Resolver, Step};

fn start_event(path: Option<&str>, args: Option<Vec<&str>>, os: Os, arch: Arch) -> Event {
    Event::Start {
        config_path: path.map(|p| p.to_string()),
        config_args: args.map(|a| a.into_iter().map(|s| s.to_string()).collect()),
        os,
        arch,
    }
}

fn one_asset_release() -> ReleaseInfo {
    ReleaseInfo {
        version: "1.2.0".to_string(),
        assets: vec![Asset {
            name: "baml-cli-1.2.0-x86_64-apple-darwin.tar.gz".to_string(),
            download_url: "https://example.invalid/baml-cli.tar.gz".to_string(),
        }],
    }
}

#[test]
fn configured_path_finishes_without_any_other_step() {
    let mut r = Resolver::new();
    let s = r.step(start_event(
        Some("/opt/baml/bin/baml-cli"),
        Some(vec!["serve"]),
        Os::Linux,
        Arch::Aarch64,
    ));
    assert_eq!(
        s,
        Step::Finish {
            binary: ResolvedBinary {
                path: "/opt/baml/bin/baml-cli".to_string(),
                args: Some(vec!["serve".to_string()]),
            },
            delete: vec![],
        }
    );
    assert_eq!(r.cached_binary_path, None);
}

#[test]
fn full_remote_acquisition_selects_asset_and_prunes() {
    let mut r = Resolver::new();

    let s = r.step(start_event(None, None, Os::Mac, Arch::X8664));
    assert_eq!(s, Step::FetchRelease { repo: "BoundaryML/baml".to_string() });

    let s = r.step(Event::ReleaseFetched { result: Ok(one_asset_release()) });
    assert_eq!(s, Step::CheckFile { path: "baml-cli-1.2.0/baml-cli".to_string() });

    let s = r.step(Event::FileChecked { is_file: false });
    assert_eq!(
        s,
        Step::Download {
            url: "https://example.invalid/baml-cli.tar.gz".to_string(),
            dest: "baml-cli-1.2.0".to_string(),
            kind: ArchiveKind::GzipTar,
        }
    );

    let s = r.step(Event::Downloaded { result: Ok(()) });
    assert_eq!(s, Step::ListDir);

    let entries = vec![
        "baml-cli-1.1.9".to_string(),
        "baml-cli-1.2.0".to_string(),
        "stray-file".to_string(),
    ];
    let s = r.step(Event::DirListed { result: Ok(entries) });
    assert_eq!(
        s,
        Step::Finish {
            binary: ResolvedBinary { path: "baml-cli-1.2.0/baml-cli".to_string(), args: None },
            delete: vec!["baml-cli-1.1.9".to_string(), "stray-file".to_string()],
        }
    );
    assert_eq!(r.cached_binary_path, Some("baml-cli-1.2.0/baml-cli".to_string()));
}

#[test]
fn second_resolution_reuses_cache_without_downloading() {
    let mut r = Resolver::new();
    r.step(start_event(None, None, Os::Mac, Arch::X8664));
    r.step(Event::ReleaseFetched { result: Ok(one_asset_release()) });
    r.step(Event::FileChecked { is_file: true });
    let first = ResolvedBinary { path: "baml-cli-1.2.0/baml-cli".to_string(), args: None };
    assert_eq!(r.cached_binary_path, Some("baml-cli-1.2.0/baml-cli".to_string()));

    // Second session: the cached path is checked and, present, reused as-is.
    let s = r.step(start_event(None, None, Os::Mac, Arch::X8664));
    assert_eq!(s, Step::CheckFile { path: "baml-cli-1.2.0/baml-cli".to_string() });
    let s = r.step(Event::FileChecked { is_file: true });
    assert_eq!(s, Step::Finish { binary: first, delete: vec![] });
}

#[test]
fn stale_cache_falls_through_to_remote() {
    let mut r = Resolver::new();
    r.step(start_event(None, None, Os::Mac, Arch::X8664));
    r.step(Event::ReleaseFetched { result: Ok(one_asset_release()) });
    r.step(Event::FileChecked { is_file: true });

    let s = r.step(start_event(None, None, Os::Mac, Arch::X8664));
    assert_eq!(s, Step::CheckFile { path: "baml-cli-1.2.0/baml-cli".to_string() });
    // The cached file is gone: resolution proceeds to the release index.
    let s = r.step(Event::FileChecked { is_file: false });
    assert_eq!(s, Step::FetchRelease { repo: "BoundaryML/baml".to_string() });
}

#[test]
fn release_lookup_failure_is_fatal() {
    let mut r = Resolver::new();
    r.step(start_event(None, None, Os::Linux, Arch::X8664));
    let s = r.step(Event::ReleaseFetched { result: Err("release index unreachable".to_string()) });
    let error = ResolveError::ReleaseLookup { message: "release index unreachable".to_string() };
    assert_eq!(s, Step::Fail { error: error.clone() });
    assert_eq!(error.message(), "release index unreachable");
}

#[test]
fn missing_asset_reports_the_expected_name() {
    let mut r = Resolver::new();
    r.step(start_event(None, None, Os::Linux, Arch::Aarch64));
    // The release only publishes a Mac artifact.
    let s = r.step(Event::ReleaseFetched { result: Ok(one_asset_release()) });
    let error = ResolveError::AssetNotFound {
        expected: "baml-cli-1.2.0-aarch64-unknown-linux-gnu.tar.gz".to_string(),
    };
    assert_eq!(s, Step::Fail { error: error.clone() });
    assert_eq!(
        error.message(),
        "no asset found matching baml-cli-1.2.0-aarch64-unknown-linux-gnu.tar.gz"
    );
}

#[test]
fn x86_resolution_never_finds_an_asset() {
    let mut r = Resolver::new();
    r.step(start_event(None, None, Os::Mac, Arch::X86));
    let s = r.step(Event::ReleaseFetched { result: Ok(one_asset_release()) });
    assert_eq!(
        s,
        Step::Fail {
            error: ResolveError::AssetNotFound {
                expected: "baml-cli-1.2.0-unsupported-apple-darwin.tar.gz".to_string(),
            }
        }
    );
}

#[test]
fn download_failure_is_fatal() {
    let mut r = Resolver::new();
    r.step(start_event(None, None, Os::Mac, Arch::X8664));
    r.step(Event::ReleaseFetched { result: Ok(one_asset_release()) });
    r.step(Event::FileChecked { is_file: false });
    let s = r.step(Event::Downloaded { result: Err("connection reset".to_string()) });
    let error = ResolveError::Download { message: "connection reset".to_string() };
    assert_eq!(s, Step::Fail { error: error.clone() });
    assert_eq!(error.message(), "failed to download file: connection reset");
    assert_eq!(r.cached_binary_path, None);
}

#[test]
fn listing_failure_skips_pruning_but_succeeds() {
    let mut r = Resolver::new();
    r.step(start_event(None, None, Os::Mac, Arch::X8664));
    r.step(Event::ReleaseFetched { result: Ok(one_asset_release()) });
    r.step(Event::FileChecked { is_file: false });
    r.step(Event::Downloaded { result: Ok(()) });
    let s = r.step(Event::DirListed { result: Err("permission denied".to_string()) });
    assert_eq!(
        s,
        Step::Finish {
            binary: ResolvedBinary { path: "baml-cli-1.2.0/baml-cli".to_string(), args: None },
            delete: vec![],
        }
    );
    assert_eq!(r.cached_binary_path, Some("baml-cli-1.2.0/baml-cli".to_string()));
}

#[test]
fn short_circuit_skips_download_and_pruning() {
    let mut r = Resolver::new();
    r.step(start_event(None, Some(vec!["lsp", "--debug"]), Os::Windows, Arch::Aarch64));
    let release = ReleaseInfo {
        version: "2.0.1".to_string(),
        assets: vec![Asset {
            name: "baml-cli-2.0.1-aarch64-pc-windows-msvc.exe".to_string(),
            download_url: "https://example.invalid/baml-cli.zip".to_string(),
        }],
    };
    let s = r.step(Event::ReleaseFetched { result: Ok(release) });
    assert_eq!(s, Step::CheckFile { path: "baml-cli-2.0.1/baml-cli".to_string() });
    let s = r.step(Event::FileChecked { is_file: true });
    assert_eq!(
        s,
        Step::Finish {
            binary: ResolvedBinary {
                path: "baml-cli-2.0.1/baml-cli".to_string(),
                args: Some(vec!["lsp".to_string(), "--debug".to_string()]),
            },
            delete: vec![],
        }
    );
    assert_eq!(r.cached_binary_path, Some("baml-cli-2.0.1/baml-cli".to_string()));
}

#[test]
fn find_asset_matches_exactly_and_first() {
    let assets = vec![
        Asset { name: "a".to_string(), download_url: "u0".to_string() },
        Asset { name: "b".to_string(), download_url: "u1".to_string() },
        Asset { name: "b".to_string(), download_url: "u2".to_string() },
    ];
    assert_eq!(find_asset(&assets, &"b".to_string()), Some(1));
    assert_eq!(find_asset(&assets, &"a".to_string()), Some(0));
    assert_eq!(find_asset(&assets, &"B".to_string()), None);
    assert_eq!(find_asset(&assets, &"b ".to_string()), None);
}
