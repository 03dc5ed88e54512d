//! The per-invocation life cycle of one toolchain: interpreting a probe of
//! the search path, and deciding what an update has to do.

use vstd::prelude::*;
use core::cmp::Ordering;
use crate::version::{compare_versions, spec_compare_versions};
use crate::text::str_equal;

verus! {

/// The outcome of probing for a toolchain's executable.
#[derive(Debug, Clone, Copy, PartialEq, Eq, Structural)]
pub enum CheckStatus {
    /// The executable is absent from the search path: a valid state, never
    /// an exception.
    NotFound,
    /// The executable was found but exited non-zero when asked for its
    /// version.
    ExecutionFailed,
    /// The executable was found and reported its version.
    Installed,
}

/// What an update has decided to do.
#[derive(Debug, Clone, Copy, PartialEq, Eq, Structural)]
pub enum UpdateAction {
    /// The installed version equals the latest published one: do nothing.
    AlreadyUpToDate,
    /// Nothing is installed: install the latest version directly.
    InstallLatest,
    /// The installed version is older: remove it, then install the latest.
    UninstallThenInstall,
    /// The installed version is newer than the latest published one: an
    /// informational no-op, not a failure.
    KeepInstalled,
}

/// One step of an update, in execution order.
#[derive(Debug, Clone, Copy, PartialEq, Eq, Structural)]
pub enum UpdateStep {
    /// Remove the installed toolchain.
    Uninstall,
    /// Install the latest version.
    Install,
}

/// Classifies what a probe of the search path found. An absent executable
/// is reported as `NotFound`, never raised as an error; a present one that
/// cannot report its version is an execution failure, distinct from absence.
pub fn classify_check(executable_found: bool, version_query_ok: bool) -> (r: CheckStatus)
    ensures
        !executable_found ==> r is NotFound,
        executable_found && version_query_ok ==> r is Installed,
        executable_found && !version_query_ok ==> r is ExecutionFailed,
{
    if !executable_found {
        CheckStatus::NotFound
    } else if version_query_ok {
        CheckStatus::Installed
    } else {
        CheckStatus::ExecutionFailed
    }
}

/// Decides an update from the installed version (absent where the probe
/// found nothing) and the latest published version. "Not installed" is
/// treated as older than anything: it skips straight to an install.
pub fn plan_update(installed: &Option<String>, latest: &str) -> (a: UpdateAction)
    ensures
        installed is None ==> a is InstallLatest,
        installed matches Some(v) ==> {
            let c = spec_compare_versions(v@, latest@);
            &&& c == Ordering::Equal ==> a is AlreadyUpToDate
            &&& c == Ordering::Less ==> a is UninstallThenInstall
            &&& c == Ordering::Greater ==> a is KeepInstalled
        },
{
    match installed {
        None => UpdateAction::InstallLatest,
        Some(v) => match compare_versions(v.as_str(), latest) {
            Ordering::Equal => UpdateAction::AlreadyUpToDate,
            Ordering::Less => UpdateAction::UninstallThenInstall,
            Ordering::Greater => UpdateAction::KeepInstalled,
        },
    }
}

/// The steps an update performs, in order: nothing where the installed
/// version is current or newer; an uninstall followed by exactly one
/// install where it is older; a single install where nothing is installed.
pub fn update_steps(installed: &Option<String>, latest: &str) -> (steps: Vec<UpdateStep>)
    ensures
        installed is None ==> steps@ == seq![UpdateStep::Install],
        installed matches Some(v) ==> {
            let c = spec_compare_versions(v@, latest@);
            &&& c == Ordering::Equal ==> steps@ == Seq::<UpdateStep>::empty()
            &&& c == Ordering::Less ==> steps@ == seq![UpdateStep::Uninstall, UpdateStep::Install]
            &&& c == Ordering::Greater ==> steps@ == Seq::<UpdateStep>::empty()
        },
{
    let action = plan_update(installed, latest);
    let mut steps: Vec<UpdateStep> = Vec::new();
    match action {
        UpdateAction::AlreadyUpToDate => {},
        UpdateAction::KeepInstalled => {},
        UpdateAction::InstallLatest => {
            steps.push(UpdateStep::Install);
        },
        UpdateAction::UninstallThenInstall => {
            steps.push(UpdateStep::Uninstall);
            steps.push(UpdateStep::Install);
        },
    }
    proof {
        if installed is None {
            assert(steps@ =~= seq![UpdateStep::Install]);
        }
    }
    steps
}

/// What the toolchain that is managed through its own updater does: run the
/// updater unless the installed version string equals the active one.
#[derive(Debug, Clone, Copy, PartialEq, Eq, Structural)]
pub enum SelfUpdateAction {
    /// The two version strings match: report up to date.
    UpToDate,
    /// They differ, or nothing is installed: run the updater.
    RunUpdate,
}

/// Decides the updater-managed flow: the installed version string is
/// compared for plain equality with the latest one, and any difference,
/// including an absent installation, runs the updater.
pub fn plan_self_update(installed: &Option<String>, latest: &str) -> (a: SelfUpdateAction)
    ensures
        a is UpToDate <==> (installed matches Some(v) && v@ == latest@),
{
    match installed {
        None => SelfUpdateAction::RunUpdate,
        Some(v) => {
            if str_equal(v.as_str(), latest) {
                SelfUpdateAction::UpToDate
            } else {
                SelfUpdateAction::RunUpdate
            }
        },
    }
}

/// The index of the first candidate path that exists on the host, as an
/// uninstall probes its fixed list in order and removes the first match;
/// none existing surfaces configuration drift to the operator.
pub fn first_existing(exists: &Vec<bool>) -> (r: Option<usize>)
    ensures
        r matches Some(i) ==> i < exists@.len() && exists@[i as int] && (forall|j: int|
            0 <= j < i ==> !exists@[j]),
        r is None ==> forall|j: int| 0 <= j < exists@.len() ==> !exists@[j],
{
    let mut k: usize = 0;
    while k < exists.len()
        invariant
            k <= exists@.len(),
            forall|j: int| 0 <= j < k ==> !exists@[j],
        decreases exists@.len() - k,
    {
        if exists[k] {
            return Some(k);
        }
        k = k + 1;
    }
    None
}

} // verus!

