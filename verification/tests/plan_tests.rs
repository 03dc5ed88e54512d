use language_revamp::dispatch::{choose_action, Action};
use language_revamp::nodejs::{node_strategy, NodeStrategy};
use language_revamp::plan::{
    classify_check, first_existing, plan_self_update, plan_update, update_steps, CheckStatus,
    SelfUpdateAction, UpdateAction, UpdateStep,
};

#[test]
fn absent_executable_is_not_found_never_an_error() {
    assert_eq!(classify_check(false, false), CheckStatus::NotFound);
    assert_eq!(classify_check(false, true), CheckStatus::NotFound);
}

#[test]
fn present_executable_classifies_by_its_exit() {
    assert_eq!(classify_check(true, true), CheckStatus::Installed);
    assert_eq!(classify_check(true, false), CheckStatus::ExecutionFailed);
}

#[test]
fn update_with_equal_versions_does_nothing() {
    let installed = Some("1.0.0".to_string());
    assert_eq!(plan_update(&installed, "1.0.0"), UpdateAction::AlreadyUpToDate);
    assert_eq!(update_steps(&installed, "1.0.0"), Vec::<UpdateStep>::new());
}

#[test]
fn update_with_older_installed_uninstalls_then_installs_once_each() {
    let installed = Some("1.0.0".to_string());
    assert_eq!(plan_update(&installed, "2.0.0"), UpdateAction::UninstallThenInstall);
    assert_eq!(update_steps(&installed, "2.0.0"), vec![
        UpdateStep::Uninstall,
        UpdateStep::Install
    ]);
}

#[test]
fn update_without_installation_skips_the_uninstall() {
    let installed: Option<String> = None;
    assert_eq!(plan_update(&installed, "2.0.0"), UpdateAction::InstallLatest);
    assert_eq!(update_steps(&installed, "2.0.0"), vec![UpdateStep::Install]);
}

#[test]
fn update_with_newer_installed_is_an_informational_no_op() {
    let installed = Some("2.0.0".to_string());
    assert_eq!(plan_update(&installed, "1.0.0"), UpdateAction::KeepInstalled);
    assert_eq!(update_steps(&installed, "1.0.0"), Vec::<UpdateStep>::new());
}

#[test]
fn self_update_runs_unless_strings_match() {
    assert_eq!(
        plan_self_update(&Some("1.75.0".to_string()), "1.75.0"),
        SelfUpdateAction::UpToDate
    );
    assert_eq!(
        plan_self_update(&Some("1.74.0".to_string()), "1.75.0"),
        SelfUpdateAction::RunUpdate
    );
    assert_eq!(plan_self_update(&None, "1.75.0"), SelfUpdateAction::RunUpdate);
}

#[test]
fn first_existing_probes_in_order() {
    assert_eq!(first_existing(&vec![false, true, true]), Some(1));
    assert_eq!(first_existing(&vec![true]), Some(0));
    assert_eq!(first_existing(&vec![false, false]), None);
    assert_eq!(first_existing(&vec![]), None);
}

#[test]
fn flags_are_honored_in_priority_order() {
    assert_eq!(choose_action(true, true, true), Some(Action::Check));
    assert_eq!(choose_action(false, true, true), Some(Action::Update));
    assert_eq!(choose_action(false, false, true), Some(Action::Install));
    assert_eq!(choose_action(false, false, false), None);
}

#[test]
fn version_manager_strategy_prefers_a_present_manager() {
    assert_eq!(node_strategy(false, true), NodeStrategy::UseVersionManager);
    assert_eq!(node_strategy(true, true), NodeStrategy::UseVersionManager);
    assert_eq!(node_strategy(true, false), NodeStrategy::VersionManagerMissing);
    assert_eq!(node_strategy(false, false), NodeStrategy::Direct);
}
