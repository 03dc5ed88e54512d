//! Host platform detection.
//!
//! The rest of the library branches on a closed set of platforms; an
//! unrecognized target yields `Unknown`, and every downstream operation
//! refuses `Unknown` rather than guessing a default.

use vstd::prelude::*;
use crate::text::str_equal;

verus! {

/// The host operating system category, used to select installer
/// commands and conventional installation paths.
#[derive(Debug, Clone, Copy, PartialEq, Eq, Structural)]
pub enum OS {
    Windows,
    Linux,
    MacOS,
    Unknown,
}

/// The platform that a target-identification string names.
pub open spec fn spec_os_of(target: Seq<char>) -> OS {
    if target == "windows"@ {
        OS::Windows
    } else if target == "linux"@ {
        OS::Linux
    } else if target == "macos"@ {
        OS::MacOS
    } else {
        OS::Unknown
    }
}

/// Maps a target-identification string (as the build or runtime names the
/// host system) to the closed set of platforms. Always yields exactly one
/// of the four variants; anything unrecognized maps to `Unknown`.
pub fn get_os(target: &str) -> (r: OS)
    ensures
        r == spec_os_of(target@),
{
    if str_equal(target, "windows") {
        OS::Windows
    } else if str_equal(target, "linux") {
        OS::Linux
    } else if str_equal(target, "macos") {
        OS::MacOS
    } else {
        OS::Unknown
    }
}

} // verus!
