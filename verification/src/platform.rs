//! Platforms, architectures and the release-asset naming scheme.
//!
//! A release publishes one artifact per platform/architecture pair, named
//! `baml-cli-{version}-{arch}-{os}{ext}`. The functions here derive that
//! name, the version directory a download is unpacked into, and the path of
//! the binary inside it.

use vstd::prelude::*;
use vstd::string::StringExecFns;

verus! {

/// Operating system the host runs on.
#[derive(Clone, Copy, PartialEq, Eq, Structural, Debug)]
pub enum Os {
    Mac,
    Linux,
    Windows,
}

/// Processor architecture the host runs on.
#[derive(Clone, Copy, PartialEq, Eq, Structural, Debug)]
pub enum Arch {
    Aarch64,
    X86,
    X8664,
}

/// How a downloaded artifact is unpacked.
#[derive(Clone, Copy, PartialEq, Eq, Structural, Debug)]
pub enum ArchiveKind {
    GzipTar,
    Zip,
}

/// The target triple's vendor/os part for each platform.
pub open spec fn os_token(os: Os) -> Seq<char> {
    match os {
        Os::Mac => "apple-darwin"@,
        Os::Linux => "unknown-linux-gnu"@,
        Os::Windows => "pc-windows-msvc"@,
    }
}

/// The target triple's architecture part. `X86` is deliberately mapped to a
/// token that no published asset carries, so that resolution on that
/// architecture fails at asset selection.
pub open spec fn arch_token(arch: Arch) -> Seq<char> {
    match arch {
        Arch::Aarch64 => "aarch64"@,
        Arch::X86 => "unsupported"@,
        Arch::X8664 => "x86_64"@,
    }
}

/// The suffix of the published asset name for each platform.
pub open spec fn ext_token(os: Os) -> Seq<char> {
    match os {
        Os::Mac => ".tar.gz"@,
        Os::Linux => ".tar.gz"@,
        Os::Windows => ".exe"@,
    }
}

/// Archive format a platform's asset is unpacked as. Windows assets are
/// named with an `.exe` suffix but are nevertheless fetched as Zip archives.
pub open spec fn spec_archive_kind(os: Os) -> ArchiveKind {
    match os {
        Os::Mac => ArchiveKind::GzipTar,
        Os::Linux => ArchiveKind::GzipTar,
        Os::Windows => ArchiveKind::Zip,
    }
}

/// The expected asset name for a release version on a given platform:
/// `baml-cli-{version}-{arch}-{os}{ext}`.
pub open spec fn spec_asset_name(version: Seq<char>, os: Os, arch: Arch) -> Seq<char> {
    "baml-cli-"@ + version + "-"@ + arch_token(arch) + "-"@ + os_token(os) + ext_token(os)
}

/// The directory one release version is unpacked into: `baml-cli-{version}`.
pub open spec fn spec_version_dir(version: Seq<char>) -> Seq<char> {
    "baml-cli-"@ + version
}

/// The binary's path inside a version directory:
/// `baml-cli-{version}/baml-cli`.
pub open spec fn spec_binary_path(version: Seq<char>) -> Seq<char> {
    spec_version_dir(version) + "/baml-cli"@
}

pub fn os_str(os: Os) -> (r: &'static str)
    ensures
        r@ == os_token(os),
{
    match os {
        Os::Mac => "apple-darwin",
        Os::Linux => "unknown-linux-gnu",
        Os::Windows => "pc-windows-msvc",
    }
}

pub fn arch_str(arch: Arch) -> (r: &'static str)
    ensures
        r@ == arch_token(arch),
{
    match arch {
        Arch::Aarch64 => "aarch64",
        Arch::X86 => "unsupported",
        Arch::X8664 => "x86_64",
    }
}

pub fn ext_str(os: Os) -> (r: &'static str)
    ensures
        r@ == ext_token(os),
{
    match os {
        Os::Mac => ".tar.gz",
        Os::Linux => ".tar.gz",
        Os::Windows => ".exe",
    }
}

pub fn archive_kind(os: Os) -> (r: ArchiveKind)
    ensures
        r == spec_archive_kind(os),
{
    match os {
        Os::Mac => ArchiveKind::GzipTar,
        Os::Linux => ArchiveKind::GzipTar,
        Os::Windows => ArchiveKind::Zip,
    }
}

/// Derives the expected asset name for `version` on the given platform.
pub fn asset_name(version: &str, os: Os, arch: Arch) -> (r: String)
    ensures
        r@ == spec_asset_name(version@, os, arch),
{
    let mut s = String::from_str("baml-cli-");
    s.append(version);
    s.append("-");
    s.append(arch_str(arch));
    s.append("-");
    s.append(os_str(os));
    s.append(ext_str(os));
    s
}

/// Derives the version directory name for `version`.
pub fn version_dir(version: &str) -> (r: String)
    ensures
        r@ == spec_version_dir(version@),
{
    let mut s = String::from_str("baml-cli-");
    s.append(version);
    s
}

/// Derives the binary path for `version`.
pub fn binary_path(version: &str) -> (r: String)
    ensures
        r@ == spec_binary_path(version@),
{
    let mut s = version_dir(version);
    s.append("/baml-cli");
    s
}

} // verus!
