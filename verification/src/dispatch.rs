//! The top-level router: which operation a set of command-line flags
//! selects.

use vstd::prelude::*;

verus! {

/// The operations a toolchain manager offers.
#[derive(Debug, Clone, Copy, PartialEq, Eq, Structural)]
pub enum Action {
    /// Probe the search path and report the installed version.
    Check,
    /// Bring the installed toolchain to the latest published version.
    Update,
    /// Install the latest published version.
    Install,
}

/// Selects the operation from the given flags: only the first set flag in
/// the priority order check, update, install is honored; with none set,
/// nothing is selected and the caller prints a usage hint.
pub fn choose_action(check: bool, update: bool, install: bool) -> (r: Option<Action>)
    ensures
        check ==> r == Some(Action::Check),
        !check && update ==> r == Some(Action::Update),
        !check && !update && install ==> r == Some(Action::Install),
        !check && !update && !install ==> r is None,
{
    if check {
        Some(Action::Check)
    } else if update {
        Some(Action::Update)
    } else if install {
        Some(Action::Install)
    } else {
        None
    }
}

} // verus!
