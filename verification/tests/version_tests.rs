use std::cmp::Ordering;

use language_revamp::compare_versions;
use language_revamp::version::{parse_version, u64_to_decimal};

#[test]
fn equal_version_compares_equal() {
    assert_eq!(compare_versions("1.2.3", "1.2.3"), Ordering::Equal);
    assert_eq!(compare_versions("go1.21.0", "go1.21.0"), Ordering::Equal);
    assert_eq!(compare_versions("0", "0"), Ordering::Equal);
}

#[test]
fn ordered_versions_compare_both_ways() {
    assert_eq!(compare_versions("1.20.3", "1.21.0"), Ordering::Less);
    assert_eq!(compare_versions("1.21.0", "1.20.3"), Ordering::Greater);
}

#[test]
fn shorter_with_shared_prefix_sorts_first() {
    assert_eq!(compare_versions("go1.20", "go1.20.0"), Ordering::Less);
    assert_eq!(compare_versions("go1.20.0", "go1.20"), Ordering::Greater);
}

#[test]
fn non_numeric_component_is_dropped() {
    assert_eq!(compare_versions("1.2.x", "1.3"), Ordering::Less);
    assert_eq!(compare_versions("1.2.x", "1.2"), Ordering::Equal);
}

#[test]
fn go_prefix_is_stripped_from_both_sides() {
    assert_eq!(compare_versions("go1.21.0", "1.21.0"), Ordering::Equal);
    assert_eq!(compare_versions("1.20.3", "go1.21.0"), Ordering::Less);
}

#[test]
fn empty_strings_compare_equal() {
    assert_eq!(compare_versions("", ""), Ordering::Equal);
    assert_eq!(compare_versions("", "1.0"), Ordering::Less);
    assert_eq!(compare_versions("1.0", ""), Ordering::Greater);
}

#[test]
fn leading_zeros_do_not_matter() {
    assert_eq!(compare_versions("01.002.0", "1.2.0"), Ordering::Equal);
}

#[test]
fn oversized_component_is_dropped() {
    // 4294967296 does not fit the 32-bit range, so the lenient parsing
    // drops the component entirely rather than failing.
    assert_eq!(compare_versions("1.4294967296.2", "1.2"), Ordering::Equal);
    assert_eq!(compare_versions("1.4294967295.2", "1.2"), Ordering::Greater);
}

#[test]
fn plus_signed_component_parses() {
    assert_eq!(compare_versions("1.+2", "1.2"), Ordering::Equal);
}

#[test]
fn parse_version_extracts_numeric_components() {
    assert_eq!(parse_version("go1.21.0"), vec![1, 21, 0]);
    assert_eq!(parse_version("1.2.x"), vec![1, 2]);
    assert_eq!(parse_version(""), Vec::<u32>::new());
    assert_eq!(parse_version("..7.."), vec![7]);
    assert_eq!(parse_version("gogo1.2"), vec![1, 2]);
}

#[test]
fn decimal_rendering_is_exact() {
    assert_eq!(u64_to_decimal(0), "0");
    assert_eq!(u64_to_decimal(21), "21");
    assert_eq!(u64_to_decimal(100), "100");
    assert_eq!(u64_to_decimal(4294967295), "4294967295");
}
