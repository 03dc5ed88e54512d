//! The closed failure taxonomy of the toolchain manager.

use vstd::prelude::*;

verus! {

/// Every failure a toolchain operation can report.
///
/// `NotFound` is a valid state of a probe, not a fault of the probe itself;
/// it is an error only for an operation that needs the executable.
#[derive(Debug, Clone, Copy, PartialEq, Eq, Structural)]
pub enum ToolchainError {
    /// The toolchain's executable is absent from the search path.
    NotFound,
    /// The executable was found but exited non-zero when queried.
    ExecutionFailed,
    /// The release-metadata fetch failed, or its body did not parse.
    NetworkError,
    /// The metadata parsed but no entry satisfies the selection rule.
    VersionNotFound,
    /// The platform is `Unknown`, and the operation needs a platform.
    UnsupportedPlatform,
    /// A download, extract, symlink, or uninstall subprocess exited non-zero.
    InstallerFailed,
    /// No candidate installation path exists on the host to remove.
    PathNotFound,
}

/// The human-readable description of each failure.
pub open spec fn spec_message(e: ToolchainError) -> Seq<char> {
    match e {
        ToolchainError::NotFound => "executable not found in the search path"@,
        ToolchainError::ExecutionFailed => "executable found but failed to report its version"@,
        ToolchainError::NetworkError => "could not fetch or parse the release metadata"@,
        ToolchainError::VersionNotFound => "no release satisfies the selection rule"@,
        ToolchainError::UnsupportedPlatform => "unsupported platform"@,
        ToolchainError::InstallerFailed => "an installer subprocess exited with a failure"@,
        ToolchainError::PathNotFound => "no installation path found to remove"@,
    }
}

impl ToolchainError {
    /// A short description of the failure, for reporting to the operator.
    pub fn message(&self) -> (r: &'static str)
        ensures
            r@ == spec_message(*self),
    {
        match self {
            ToolchainError::NotFound => "executable not found in the search path",
            ToolchainError::ExecutionFailed => "executable found but failed to report its version",
            ToolchainError::NetworkError => "could not fetch or parse the release metadata",
            ToolchainError::VersionNotFound => "no release satisfies the selection rule",
            ToolchainError::UnsupportedPlatform => "unsupported platform",
            ToolchainError::InstallerFailed => "an installer subprocess exited with a failure",
            ToolchainError::PathNotFound => "no installation path found to remove",
        }
    }
}

} // verus!
