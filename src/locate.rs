//! Finding the game's song directory for the running operating system.
use vstd::prelude::*;
use crate::text::{join_path, path_join, same_text};

verus! {

/// The operating systems that the game's directory is known for.
#[derive(Clone, Copy, Debug, PartialEq, Eq, Structural)]
pub enum Platform {
    Windows,
    Linux,
    MacOs,
    Unsupported,
}

/// The platform named by an operating-system identity such as `"linux"`.
pub open spec fn platform_of(os: Seq<char>) -> Platform {
    if os == "windows"@ {
        Platform::Windows
    } else if os == "linux"@ {
        Platform::Linux
    } else if os == "macos"@ {
        Platform::MacOs
    } else {
        Platform::Unsupported
    }
}

/// Maps an operating-system identity to a platform.
pub fn platform_from_name(os: &str) -> (r: Platform)
    ensures
        r == platform_of(os@),
{
    if same_text(os, "windows") {
        Platform::Windows
    } else if same_text(os, "linux") {
        Platform::Linux
    } else if same_text(os, "macos") {
        Platform::MacOs
    } else {
        Platform::Unsupported
    }
}

/// Where the songs live below the local application data directory on Windows.
pub open spec fn windows_subpath() -> Seq<char> {
    "GeometryDash"@
}

/// Where the songs live below the home directory on Linux, inside the
/// compatibility layer's simulated Windows profile.
pub open spec fn linux_subpath() -> Seq<char> {
    ".local/share/Steam/steamapps/compatdata/322170/pfx/drive_c/users/steamuser/AppData/Local/GeometryDash"@
}

/// Where the songs live below the home directory on macOS.
pub open spec fn macos_subpath() -> Seq<char> {
    "Library/Caches"@
}

/// The directory that would hold the songs, before checking the disk.
pub open spec fn candidate_of(
    platform: Platform,
    local_app_data: Option<Seq<char>>,
    home: Option<Seq<char>>,
) -> Option<Seq<char>> {
    match platform {
        Platform::Windows => match local_app_data {
            Some(b) => Some(path_join(b, windows_subpath())),
            None => None,
        },
        Platform::Linux => match home {
            Some(h) => Some(path_join(h, linux_subpath())),
            None => None,
        },
        Platform::MacOs => match home {
            Some(h) => Some(path_join(h, macos_subpath())),
            None => None,
        },
        Platform::Unsupported => None,
    }
}

/// The characters held by an optional string.
pub open spec fn opt_text(o: Option<String>) -> Option<Seq<char>> {
    match o {
        Some(s) => Some(s@),
        None => None,
    }
}

/// Builds the candidate songs directory from the platform, the local
/// application data directory (Windows) and the home directory (Linux, macOS).
pub fn candidate_dir(platform: Platform, local_app_data: Option<String>, home: Option<String>) -> (r:
    Option<String>)
    ensures
        opt_text(r) == candidate_of(platform, opt_text(local_app_data), opt_text(home)),
{
    match platform {
        Platform::Windows => match local_app_data {
            Some(b) => {
                let r = join_path(b.as_str(), "GeometryDash");
                Some(r)
            },
            None => None,
        },
        Platform::Linux => match home {
            Some(h) => Some(
                join_path(
                    h.as_str(),
                    ".local/share/Steam/steamapps/compatdata/322170/pfx/drive_c/users/steamuser/AppData/Local/GeometryDash",
                ),
            ),
            None => None,
        },
        Platform::MacOs => match home {
            Some(h) => Some(join_path(h.as_str(), "Library/Caches")),
            None => None,
        },
        Platform::Unsupported => None,
    }
}

/// Relies on `directories::BaseDirs::new` and `BaseDirs::home_dir`: the
/// user's home directory, if the platform reports one (on Linux `$HOME`, else
/// the password database; no configuration file is parsed). What comes back
/// depends on the environment, so nothing is promised of it. A home path that
/// is not valid UTF-8 cannot be held as a `String` and is reported as absent.
#[verifier::external_body]
fn user_home_dir() -> (r: Option<String>) {
    directories::BaseDirs::new().and_then(|d| d.home_dir().to_str().map(String::from))
}

/// Builds the candidate songs directory, asking the platform for the home
/// directory where one is needed.
pub fn find_candidate_dir(platform: Platform, local_app_data: Option<String>) -> (r: Option<
    String,
>)
    ensures
        platform == Platform::Unsupported ==> r is None,
        platform == Platform::Windows ==> opt_text(r) == candidate_of(
            platform,
            opt_text(local_app_data),
            None,
        ),
        exists|home: Option<Seq<char>>|
            opt_text(r) == candidate_of(platform, opt_text(local_app_data), home),
{
    let home = match platform {
        Platform::Linux | Platform::MacOs => user_home_dir(),
        _ => None,
    };
    let r = candidate_dir(platform, local_app_data, home);
    assert(opt_text(r) == candidate_of(platform, opt_text(local_app_data), opt_text(home)));
    r
}

/// What the disk says of a candidate directory.
#[derive(Clone, Copy, Debug, PartialEq, Eq, Structural)]
pub struct DirProbe {
    pub exists: bool,
    pub is_dir: bool,
    pub has_entry: bool,
}

/// A candidate is usable when it exists, is a directory and is not empty.
pub open spec fn usable(probe: DirProbe) -> bool {
    probe.exists && probe.is_dir && probe.has_entry
}

/// Keeps the candidate only if the probe shows a non-empty directory.
pub fn accept_dir(candidate: String, probe: DirProbe) -> (r: Option<String>)
    ensures
        r is Some <==> usable(probe),
        r matches Some(d) ==> d@ == candidate@,
{
    if probe.exists && probe.is_dir && probe.has_entry {
        Some(candidate)
    } else {
        None
    }
}

/// The directory the locator settles on: the candidate, when the disk shows
/// it to be a non-empty directory.
pub open spec fn located_dir(
    platform: Platform,
    local_app_data: Option<Seq<char>>,
    home: Option<Seq<char>>,
    probe: DirProbe,
) -> Option<Seq<char>> {
    match candidate_of(platform, local_app_data, home) {
        Some(c) => if usable(probe) {
            Some(c)
        } else {
            None
        },
        None => None,
    }
}

/// An operating system other than Windows, Linux and macOS has no songs
/// directory, whatever the environment and the disk say.
pub proof fn lemma_unsupported_os_locates_nothing(
    os: Seq<char>,
    local_app_data: Option<Seq<char>>,
    home: Option<Seq<char>>,
    probe: DirProbe,
)
    requires
        os != "windows"@,
        os != "linux"@,
        os != "macos"@,
    ensures
        located_dir(platform_of(os), local_app_data, home, probe) is None,
{
}

/// A candidate that is missing, is not a directory, or is empty is never
/// used, even where its path could be built.
pub proof fn lemma_unusable_dir_locates_nothing(
    platform: Platform,
    local_app_data: Option<Seq<char>>,
    home: Option<Seq<char>>,
    probe: DirProbe,
)
    requires
        !probe.exists || !probe.is_dir || !probe.has_entry,
    ensures
        located_dir(platform, local_app_data, home, probe) is None,
{
}

} // verus!
