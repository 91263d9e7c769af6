//! Which helper build suits the machine, how the helper's executable is
//! named and recognised, and the names and addresses of its releases.

use vstd::prelude::*;

use crate::error::TerracottaError;
use crate::text::{chars_of, is_blank, same_text, string_of, trimmed};

verus! {

/// The release platform key for an operating system and architecture, as
/// Rust names them (`std::env::consts::OS` and `ARCH`).
pub open spec fn platform_key_of(os: Seq<char>, arch: Seq<char>) -> Seq<char> {
    if os == "windows"@ && arch == "x86_64"@ {
        "windows-x86_64"@
    } else if os == "windows"@ && arch == "aarch64"@ {
        "windows-arm64"@
    } else if os == "linux"@ && arch == "x86_64"@ {
        "linux-x86_64"@
    } else if os == "linux"@ && arch == "aarch64"@ {
        "linux-arm64"@
    } else if os == "macos"@ && arch == "x86_64"@ {
        "macos-x86_64"@
    } else if os == "macos"@ && arch == "aarch64"@ {
        "macos-arm64"@
    } else {
        "unsupported"@
    }
}

/// The release platform key for `os` and `arch`; `"unsupported"` where no
/// build exists.
pub fn platform_key(os: &str, arch: &str) -> (key: &'static str)
    ensures
        key@ == platform_key_of(os@, arch@),
{
    let windows = same_text(os, "windows");
    let linux = same_text(os, "linux");
    let macos = same_text(os, "macos");
    let x86_64 = same_text(arch, "x86_64");
    let aarch64 = same_text(arch, "aarch64");
    if windows && x86_64 {
        "windows-x86_64"
    } else if windows && aarch64 {
        "windows-arm64"
    } else if linux && x86_64 {
        "linux-x86_64"
    } else if linux && aarch64 {
        "linux-arm64"
    } else if macos && x86_64 {
        "macos-x86_64"
    } else if macos && aarch64 {
        "macos-arm64"
    } else {
        "unsupported"
    }
}

/// The helper executable's file name on a Windows or another target.
pub open spec fn binary_name_of(windows: bool) -> Seq<char> {
    if windows {
        "terracotta.exe"@
    } else {
        "terracotta"@
    }
}

/// The helper executable's file name; `windows` tells whether the target is
/// Windows.
pub fn binary_name(windows: bool) -> (name: &'static str)
    ensures
        name@ == binary_name_of(windows),
{
    if windows {
        "terracotta.exe"
    } else {
        "terracotta"
    }
}

/// Whether a directory entry found in an unpacked archive may be the helper:
/// a regular file with the helper's name.
pub fn is_binary_entry(is_file: bool, file_name: &str, windows: bool) -> (b: bool)
    ensures
        b == (is_file && file_name@ == binary_name_of(windows)),
{
    is_file && same_text(file_name, binary_name(windows))
}

/// The executable formats that the helper ships in: a PE image (`MZ`) on
/// Windows; elsewhere an ELF image or a 64-bit Mach-O image of either byte
/// order.
pub open spec fn has_executable_magic(bytes: Seq<u8>, windows: bool) -> bool {
    if windows {
        bytes.len() >= 2 && bytes[0] == 0x4d && bytes[1] == 0x5a
    } else {
        bytes.len() >= 4 && {
            let m = bytes.take(4);
            ||| m == seq![0x7fu8, 0x45u8, 0x4cu8, 0x46u8]
            ||| m == seq![0xcfu8, 0xfau8, 0xedu8, 0xfeu8]
            ||| m == seq![0xfeu8, 0xedu8, 0xfau8, 0xcfu8]
        }
    }
}

/// Whether a file is a helper executable, given its contents (`None` where
/// it could not be read).
pub fn is_terracotta_executable(contents: &Option<Vec<u8>>, windows: bool) -> (b: bool)
    ensures
        b == match contents {
            Some(bytes) => has_executable_magic(bytes@, windows),
            None => false,
        },
{
    match contents {
        None => false,
        Some(bytes) => {
            if windows {
                bytes.len() >= 2 && bytes[0] == 0x4d && bytes[1] == 0x5a
            } else if bytes.len() < 4 {
                false
            } else {
                let (b0, b1, b2, b3) = (bytes[0], bytes[1], bytes[2], bytes[3]);
                let elf = b0 == 0x7f && b1 == 0x45 && b2 == 0x4c && b3 == 0x46;
                let macho_le = b0 == 0xcf && b1 == 0xfa && b2 == 0xed && b3 == 0xfe;
                let macho_be = b0 == 0xfe && b1 == 0xed && b2 == 0xfa && b3 == 0xcf;
                assert(bytes@.take(4) == seq![b0, b1, b2, b3]);
                elf || macho_le || macho_be
            }
        },
    }
}

/// A version text where it holds more than whitespace, else `None`.
pub open spec fn non_blank_of(value: Option<Seq<char>>) -> Option<Seq<char>> {
    match value {
        Some(v) => if trimmed(v).len() > 0 {
            Some(v)
        } else {
            None
        },
        None => None,
    }
}

/// Keeps a version text only where it holds more than whitespace: an
/// installed version file's contents, or a requested version (where `None`
/// means that the latest release is to be used).
pub fn non_blank(value: Option<String>) -> (r: Option<String>)
    ensures
        match r {
            Some(v) => non_blank_of(crate::room::opt_view(value)) == Some(v@),
            None => non_blank_of(crate::room::opt_view(value)) is None,
        },
{
    match value {
        Some(v) => if is_blank(v.as_str()) {
            None
        } else {
            Some(v)
        },
        None => None,
    }
}

/// `s` without its leading `v` characters (`trim_start_matches('v')`).
pub open spec fn strip_leading_v(s: Seq<char>) -> Seq<char>
    decreases s.len(),
{
    if s.len() > 0 && s[0] == 'v' {
        strip_leading_v(s.drop_first())
    } else {
        s
    }
}

/// The version of a release, from its tag name (`v1.2.3` gives `1.2.3`).
pub fn release_version(tag: &str) -> (version: String)
    ensures
        version@ == strip_leading_v(tag@),
{
    let chars = chars_of(tag);
    let n = chars.len();
    let mut i: usize = 0;
    assert(chars@.subrange(0, n as int) == chars@);
    while i < n && chars[i] == 'v'
        invariant
            i <= n == chars@.len(),
            strip_leading_v(chars@) == strip_leading_v(chars@.subrange(i as int, n as int)),
        decreases n - i,
    {
        assert(chars@.subrange(i as int, n as int).drop_first() == chars@.subrange(
            i + 1,
            n as int,
        ));
        i = i + 1;
    }
    string_of(&chars, i, n)
}

/// The GitHub API address of the helper's latest release.
pub fn latest_release_api_url() -> (url: String)
    ensures
        url@ == "https://api.github.com/repos/burningtnt/Terracotta/releases/latest"@,
{
    String::from_str("https://api.github.com/repos/burningtnt/Terracotta/releases/latest")
}

/// A release package of the helper: its file name, where to download it
/// from, and the name under which the download is cached.
pub struct ReleaseAsset {
    pub artifact: String,
    pub source_url: String,
    pub archive_name: String,
}

/// The package file name for a version and platform key.
pub open spec fn artifact_name(version: Seq<char>, platform: Seq<char>) -> Seq<char> {
    "terracotta-"@ + version + "-"@ + platform + "-pkg.tar.gz"@
}

/// The download address of a package.
pub open spec fn artifact_url(version: Seq<char>, artifact: Seq<char>) -> Seq<char> {
    "https://github.com/burningtnt/Terracotta/releases/download/v"@ + version + "/"@ + artifact
}

/// The cache file name of a version's package.
pub open spec fn archive_name_of(version: Seq<char>) -> Seq<char> {
    "terracotta-"@ + version + ".tar.gz"@
}

/// The package to download for `version` on the platform `platform`
/// (a key that `platform_key` gave); refused on an unsupported platform.
pub fn release_asset(version: &str, platform: &str) -> (r: Result<ReleaseAsset, TerracottaError>)
    ensures
        match r {
            Ok(a) => {
                &&& platform@ != "unsupported"@
                &&& a.artifact@ == artifact_name(version@, platform@)
                &&& a.source_url@ == artifact_url(version@, a.artifact@)
                &&& a.archive_name@ == archive_name_of(version@)
            },
            Err(e) => platform@ == "unsupported"@ && e is UnsupportedPlatform,
        },
{
    if same_text(platform, "unsupported") {
        return Err(TerracottaError::UnsupportedPlatform);
    }
    let mut artifact = String::from_str("terracotta-");
    artifact.append(version);
    artifact.append("-");
    artifact.append(platform);
    artifact.append("-pkg.tar.gz");
    let mut source_url = String::from_str(
        "https://github.com/burningtnt/Terracotta/releases/download/v",
    );
    source_url.append(version);
    source_url.append("/");
    source_url.append(artifact.as_str());
    let mut archive_name = String::from_str("terracotta-");
    archive_name.append(version);
    archive_name.append(".tar.gz");
    Ok(ReleaseAsset { artifact, source_url, archive_name })
}

} // verus!
