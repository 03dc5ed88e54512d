use language_revamp::outputs::{
    active_toolchain_version, go_version_token, java_major_version, nth_whitespace_token,
    rustc_version_token, strip_first_char, whitespace_tokens,
};

#[test]
fn whitespace_tokens_are_cut_and_ordered() {
    assert_eq!(whitespace_tokens("go version go1.21.0 linux/amd64"), vec![
        "go", "version", "go1.21.0", "linux/amd64"
    ]);
    assert_eq!(whitespace_tokens("  spaced \t out \n"), vec!["spaced", "out"]);
    assert_eq!(whitespace_tokens(""), Vec::<String>::new());
    assert_eq!(whitespace_tokens(" \t\r\n"), Vec::<String>::new());
}

#[test]
fn nth_token_is_positional() {
    assert_eq!(nth_whitespace_token("a b c", 0), Some("a".to_string()));
    assert_eq!(nth_whitespace_token("a b c", 2), Some("c".to_string()));
    assert_eq!(nth_whitespace_token("a b c", 3), None);
}

#[test]
fn go_report_yields_third_token() {
    assert_eq!(
        go_version_token("go version go1.21.0 linux/amd64"),
        Some("go1.21.0".to_string())
    );
    assert_eq!(go_version_token("go version"), None);
}

#[test]
fn rustc_report_yields_second_token() {
    assert_eq!(
        rustc_version_token("rustc 1.75.0 (82e1608df 2023-12-21)"),
        Some("1.75.0".to_string())
    );
    assert_eq!(rustc_version_token("rustc"), None);
}

#[test]
fn active_toolchain_report_is_cut_at_the_dash() {
    assert_eq!(
        active_toolchain_version("stable-x86_64-unknown-linux-gnu (default)"),
        Some("stable".to_string())
    );
    assert_eq!(
        active_toolchain_version("1.75.0-x86_64-unknown-linux-gnu"),
        Some("1.75.0".to_string())
    );
    assert_eq!(active_toolchain_version("  "), None);
}

#[test]
fn leading_tag_character_is_stripped() {
    assert_eq!(strip_first_char("v18.17.0"), "18.17.0");
    assert_eq!(strip_first_char("x"), "");
    assert_eq!(strip_first_char(""), "");
}

#[test]
fn java_report_yields_quoted_major() {
    let report = "openjdk version \"17.0.1\" 2021-10-19\nOpenJDK Runtime Environment";
    assert_eq!(java_major_version(report), "17");
}

#[test]
fn java_report_without_quotes_yields_zero() {
    assert_eq!(java_major_version("no quoted version here\nsecond line"), "0");
    assert_eq!(java_major_version(""), "0");
}

#[test]
fn java_report_reads_only_the_first_line() {
    let report = "nothing here\njava version \"17.0.1\"";
    assert_eq!(java_major_version(report), "0");
}

#[test]
fn java_report_tolerates_carriage_return_and_open_quote() {
    assert_eq!(java_major_version("java version \"21\"\r\nrest"), "21");
    assert_eq!(java_major_version("java version \"9"), "9");
}
