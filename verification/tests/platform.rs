use terracotta::error::TerracottaError;
use terracotta::platform::{
    binary_name, is_binary_entry, is_terracotta_executable, latest_release_api_url, non_blank,
    platform_key, release_asset, release_version,
};

#[test]
fn platform_keys() {
    assert_eq!(platform_key("windows", "x86_64"), "windows-x86_64");
    assert_eq!(platform_key("windows", "aarch64"), "windows-arm64");
    assert_eq!(platform_key("linux", "x86_64"), "linux-x86_64");
    assert_eq!(platform_key("linux", "aarch64"), "linux-arm64");
    assert_eq!(platform_key("macos", "x86_64"), "macos-x86_64");
    assert_eq!(platform_key("macos", "aarch64"), "macos-arm64");
    assert_eq!(platform_key("linux", "riscv64"), "unsupported");
    assert_eq!(platform_key("freebsd", "x86_64"), "unsupported");
}

#[test]
fn binary_names() {
    assert_eq!(binary_name(true), "terracotta.exe");
    assert_eq!(binary_name(false), "terracotta");
    assert!(is_binary_entry(true, "terracotta", false));
    assert!(!is_binary_entry(false, "terracotta", false));
    assert!(!is_binary_entry(true, "terracotta", true));
    assert!(is_binary_entry(true, "terracotta.exe", true));
}

#[test]
fn executable_magic() {
    assert!(is_terracotta_executable(&Some(b"MZ\x90\x00".to_vec()), true));
    assert!(!is_terracotta_executable(&Some(b"M".to_vec()), true));
    assert!(!is_terracotta_executable(&Some(b"\x7fELF".to_vec()), true));
    assert!(is_terracotta_executable(&Some(b"\x7fELF\x02\x01".to_vec()), false));
    assert!(is_terracotta_executable(&Some(vec![0xcf, 0xfa, 0xed, 0xfe]), false));
    assert!(is_terracotta_executable(&Some(vec![0xfe, 0xed, 0xfa, 0xcf, 0]), false));
    assert!(!is_terracotta_executable(&Some(vec![0xfe, 0xed, 0xfa]), false));
    assert!(!is_terracotta_executable(&Some(b"MZ\x90\x00".to_vec()), false));
    assert!(!is_terracotta_executable(&None, false));
    assert!(!is_terracotta_executable(&None, true));
}

#[test]
fn versions() {
    assert_eq!(release_version("v0.4.1"), "0.4.1");
    assert_eq!(release_version("vv1"), "1");
    assert_eq!(release_version("1.0"), "1.0");
    assert_eq!(release_version(""), "");
    assert_eq!(non_blank(Some("0.4.1\n".to_string())), Some("0.4.1\n".to_string()));
    assert_eq!(non_blank(Some(" \n\t".to_string())), None);
    assert_eq!(non_blank(None), None);
    assert_eq!(
        latest_release_api_url(),
        "https://api.github.com/repos/burningtnt/Terracotta/releases/latest"
    );
}

#[test]
fn release_assets() {
    let asset = release_asset("0.4.1", "linux-x86_64").unwrap();
    assert_eq!(asset.artifact, "terracotta-0.4.1-linux-x86_64-pkg.tar.gz");
    assert_eq!(
        asset.source_url,
        "https://github.com/burningtnt/Terracotta/releases/download/v0.4.1/terracotta-0.4.1-linux-x86_64-pkg.tar.gz"
    );
    assert_eq!(asset.archive_name, "terracotta-0.4.1.tar.gz");
    let err = release_asset("0.4.1", "unsupported").err().unwrap();
    assert!(matches!(err, TerracottaError::UnsupportedPlatform));
    assert_eq!(err.message(), "Unsupported platform");
}
