//! Classification of a path by what the file system reports of it.

use crate::text::{chars_of, option_view, same_chars, string_of};
use vstd::prelude::*;

verus! {

/// Host family whose conventions a command line, a path or a listing follows.
#[derive(Clone, Copy, Debug, PartialEq, Eq, Structural)]
pub enum Platform {
    /// Linux, macOS and their kin.
    Unix,
    /// Windows.
    Windows,
}

/// The operating system of the host.
#[derive(Clone, Copy, Debug, PartialEq, Eq, Structural)]
pub enum Host {
    Linux,
    MacOs,
    Windows,
    /// Any other system.
    Other,
}

/// The family of a host: Windows, or else Unix.
pub open spec fn platform_of(host: Host) -> Platform {
    if host == Host::Windows {
        Platform::Windows
    } else {
        Platform::Unix
    }
}

/// Whether commands can be run with elevated rights on a host: on Linux and
/// on macOS, and nowhere else.
pub open spec fn elevation_supported(host: Host) -> bool {
    host == Host::Linux || host == Host::MacOs
}

/// The name of a host's operating system.
pub open spec fn host_name(host: Host) -> Seq<char> {
    match host {
        Host::Windows => "Windows"@,
        Host::MacOs => "macOS"@,
        Host::Linux => "Linux"@,
        Host::Other => "Unknown OS"@,
    }
}

impl Host {
    /// The family of this host.
    pub fn platform(self) -> (p: Platform)
        ensures
            p == platform_of(self),
    {
        match self {
            Host::Windows => Platform::Windows,
            _ => Platform::Unix,
        }
    }

    /// Whether commands can be run with elevated rights on this host.
    pub fn supports_elevation(self) -> (b: bool)
        ensures
            b == elevation_supported(self),
    {
        match self {
            Host::Linux | Host::MacOs => true,
            _ => false,
        }
    }

    /// The name of this host's operating system.
    pub fn os_name(self) -> (r: String)
        ensures
            r@ == host_name(self),
    {
        match self {
            Host::Windows => string_of(&chars_of("Windows")),
            Host::MacOs => string_of(&chars_of("macOS")),
            Host::Linux => string_of(&chars_of("Linux")),
            Host::Other => string_of(&chars_of("Unknown OS")),
        }
    }
}

/// The four kinds an entry of a listing is told apart by.
#[derive(Clone, Copy, Debug, PartialEq, Eq, Structural)]
pub enum FileType {
    Directory,
    Symlink,
    Executable,
    Regular,
}

/// What the metadata of a path says when read without following links.
#[derive(Clone, Copy, Debug, PartialEq, Eq, Structural)]
pub struct LinkMetadata {
    /// The path is itself a symbolic link.
    pub is_symlink: bool,
    /// The path is itself a directory.
    pub is_dir: bool,
    /// Permission bits; zero where the host has none.
    pub mode: u32,
}

/// Everything the classification of one path reads.
#[derive(Clone, Debug, PartialEq, Eq)]
pub struct PathFacts {
    /// Metadata of the path itself; `None` where it could not be read.
    pub link: Option<LinkMetadata>,
    /// Whether the path is a directory once links are followed; false where
    /// that could not be found out.
    pub target_is_dir: bool,
    /// The extension of the path's last component, without the dot.
    pub extension: Option<String>,
}

/// What `str::to_lowercase` makes of a text.
pub uninterp spec fn lowercase(s: Seq<char>) -> Seq<char>;

/// `str::to_lowercase`: the lowercase equivalent of `s` as Unicode defines it,
/// a function of the characters of `s` alone.
#[verifier::external_body]
pub(crate) fn to_lowercase(s: &str) -> (r: String)
    ensures
        r@ == lowercase(s@),
{
    s.to_lowercase()
}

/// Whether `ext`, already in lower case, is an extension that Windows runs.
pub open spec fn is_program_extension(ext: Seq<char>) -> bool {
    ext == "exe"@ || ext == "bat"@ || ext == "cmd"@ || ext == "com"@ || ext == "ps1"@
}

/// The executable rule: on Unix any of the three execute bits, on Windows an
/// extension that in lower case is one the host runs.
pub open spec fn executable(platform: Platform, mode: u32, extension: Option<Seq<char>>) -> bool {
    match platform {
        Platform::Unix => mode & 0o111 != 0,
        Platform::Windows => match extension {
            Some(ext) => is_program_extension(lowercase(ext)),
            None => false,
        },
    }
}

/// The type of a path: a symbolic link before a directory, a directory before
/// an executable, an executable before a regular file. Without metadata the
/// guess is a directory where the followed path is one, else a regular file.
pub open spec fn file_type_of(platform: Platform, facts: PathFacts) -> FileType {
    match facts.link {
        Some(meta) => if meta.is_symlink {
            FileType::Symlink
        } else if meta.is_dir {
            FileType::Directory
        } else if executable(platform, meta.mode, option_view(facts.extension)) {
            FileType::Executable
        } else {
            FileType::Regular
        },
        None => if facts.target_is_dir {
            FileType::Directory
        } else {
            FileType::Regular
        },
    }
}

/// Whether the lower-case extension `ext` is one that Windows runs.
pub fn is_program_extension_name(ext: &str) -> (b: bool)
    ensures
        b == is_program_extension(ext@),
{
    let e = chars_of(ext);
    same_chars(&e, &chars_of("exe")) || same_chars(&e, &chars_of("bat")) || same_chars(
        &e,
        &chars_of("cmd"),
    ) || same_chars(&e, &chars_of("com")) || same_chars(&e, &chars_of("ps1"))
}

/// Whether a file with these permission bits and this extension counts as
/// executable on `platform`.
pub fn is_executable(mode: u32, extension: &Option<String>, platform: Platform) -> (b: bool)
    ensures
        b == executable(platform, mode, option_view(*extension)),
{
    match platform {
        Platform::Unix => mode & 0o111 != 0,
        Platform::Windows => match extension {
            Some(ext) => {
                let lower = to_lowercase(ext.as_str());
                is_program_extension_name(lower.as_str())
            },
            None => false,
        },
    }
}

/// Classifies a path from the facts read of it. Never fails: where the
/// metadata is missing it falls back to a guess.
pub fn get_file_type_robust(facts: &PathFacts, platform: Platform) -> (t: FileType)
    ensures
        t == file_type_of(platform, *facts),
        facts.link matches Some(meta) && meta.is_symlink ==> t == FileType::Symlink,
{
    match facts.link {
        Some(meta) => {
            if meta.is_symlink {
                FileType::Symlink
            } else if meta.is_dir {
                FileType::Directory
            } else if is_executable(meta.mode, &facts.extension, platform) {
                FileType::Executable
            } else {
                FileType::Regular
            }
        },
        None => {
            if facts.target_is_dir {
                FileType::Directory
            } else {
                FileType::Regular
            }
        },
    }
}

/// A symbolic link is reported as one whatever it points at, whatever its
/// permission bits and whatever its name.
pub proof fn lemma_symlink_reported(platform: Platform, facts: PathFacts)
    requires
        facts.link matches Some(meta) && meta.is_symlink,
    ensures
        file_type_of(platform, facts) == FileType::Symlink,
{
}

} // verus!
