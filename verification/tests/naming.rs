use baml_resolver::platform::{Arch, ArchiveKind, Os, archive_kind, asset_name, binary_path, version_dir};

#[test]
fn asset_name_mac_aarch64() {
    let name = asset_name("1.2.0", Os::Mac, Arch::Aarch64);
    assert_eq!(name, "baml-cli-1.2.0-aarch64-apple-darwin.tar.gz");
}

#[test]
fn asset_name_mac_x86_64() {
    let name = asset_name("1.2.0", Os::Mac, Arch::X8664);
    assert_eq!(name, "baml-cli-1.2.0-x86_64-apple-darwin.tar.gz");
}

#[test]
fn asset_name_linux_aarch64() {
    let name = asset_name("0.55.3", Os::Linux, Arch::Aarch64);
    assert_eq!(name, "baml-cli-0.55.3-aarch64-unknown-linux-gnu.tar.gz");
}

#[test]
fn asset_name_linux_x86_64() {
    let name = asset_name("0.55.3", Os::Linux, Arch::X8664);
    assert_eq!(name, "baml-cli-0.55.3-x86_64-unknown-linux-gnu.tar.gz");
}

#[test]
fn asset_name_windows_aarch64() {
    let name = asset_name("2.0.1", Os::Windows, Arch::Aarch64);
    assert_eq!(name, "baml-cli-2.0.1-aarch64-pc-windows-msvc.exe");
}

#[test]
fn asset_name_windows_x86_64() {
    let name = asset_name("2.0.1", Os::Windows, Arch::X8664);
    assert_eq!(name, "baml-cli-2.0.1-x86_64-pc-windows-msvc.exe");
}

#[test]
fn asset_name_x86_is_never_matchable() {
    for os in [Os::Mac, Os::Linux, Os::Windows] {
        let name = asset_name("1.2.0", os, Arch::X86);
        assert!(name.contains("unsupported"));
    }
    assert_eq!(
        asset_name("1.2.0", Os::Mac, Arch::X86),
        "baml-cli-1.2.0-unsupported-apple-darwin.tar.gz"
    );
}

#[test]
fn version_dir_and_binary_path() {
    assert_eq!(version_dir("1.2.0"), "baml-cli-1.2.0");
    assert_eq!(binary_path("1.2.0"), "baml-cli-1.2.0/baml-cli");
}

#[test]
fn windows_downloads_are_zip_despite_exe_name() {
    assert_eq!(archive_kind(Os::Windows), ArchiveKind::Zip);
    assert_eq!(archive_kind(Os::Mac), ArchiveKind::GzipTar);
    assert_eq!(archive_kind(Os::Linux), ArchiveKind::GzipTar);
    assert!(asset_name("1.0.0", Os::Windows, Arch::X8664).ends_with(".exe"));
}
