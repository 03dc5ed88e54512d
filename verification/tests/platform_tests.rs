use language_revamp::{get_os, OS};

#[test]
fn known_targets_map_to_their_platform() {
    assert_eq!(get_os("windows"), OS::Windows);
    assert_eq!(get_os("linux"), OS::Linux);
    assert_eq!(get_os("macos"), OS::MacOS);
}

#[test]
fn unrecognized_target_maps_to_unknown() {
    assert_eq!(get_os("freebsd"), OS::Unknown);
    assert_eq!(get_os(""), OS::Unknown);
    assert_eq!(get_os("Windows"), OS::Unknown);
}

#[test]
fn detection_always_yields_one_of_the_four_variants() {
    for target in ["windows", "linux", "macos", "plan9", ""] {
        let os = get_os(target);
        assert!(matches!(os, OS::Windows | OS::Linux | OS::MacOS | OS::Unknown));
    }
}
