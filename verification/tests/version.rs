use geos::version::{normalize_geos_version, replace_all_occurrences, trim_white_space};
use geos::{parse_geos_version, try_parse_geos_version};

#[test]
fn trims_white_space() {
    assert_eq!(trim_white_space("  3.9.1\n"), "3.9.1");
    assert_eq!(trim_white_space("\t \u{3000}"), "");
    assert_eq!(trim_white_space("a b"), "a b");
}

#[test]
fn replaces_all_occurrences() {
    assert_eq!(replace_all_occurrences("aXbXXc", "X", "-"), "a-b--c");
    assert_eq!(replace_all_occurrences("aaaa", "aa", "b"), "bb");
    assert_eq!(replace_all_occurrences("abc", "zz", "y"), "abc");
    assert_eq!(replace_all_occurrences("", "a", "b"), "");
}

#[test]
fn normalizes_geos_versions() {
    assert_eq!(normalize_geos_version(" 3.10.0beta1\n"), "3.10.0-beta1");
    assert_eq!(normalize_geos_version("3.12.0dev"), "3.12.0-dev");
    assert_eq!(normalize_geos_version("3.8.0alpha2"), "3.8.0-alpha2");
    assert_eq!(normalize_geos_version("3.11.2"), "3.11.2");
}

#[test]
fn parses_geos_versions() {
    let v = parse_geos_version("3.10.0beta1");
    assert_eq!((v.major, v.minor, v.patch), (3, 10, 0));
    assert_eq!(v.pre, "beta1");
    assert_eq!(v.build, "");
    let w = parse_geos_version(" 3.9.4 ");
    assert_eq!((w.major, w.minor, w.patch), (3, 9, 4));
    assert_eq!(w.pre, "");
    assert!(try_parse_geos_version("not a version").is_none());
    assert!(try_parse_geos_version("").is_none());
    assert_eq!(try_parse_geos_version("3.6.0").map(|v| v.minor), Some(6));
}

#[test]
fn bindings_paths() {
    assert_eq!(
        parse_geos_version("3.10.2").bindings_path(),
        "../sys/prebuilt-bindings/geos_3.10.rs"
    );
    assert_eq!(
        parse_geos_version("0.0.1").bindings_path(),
        "../sys/prebuilt-bindings/geos_0.0.rs"
    );
    assert_eq!(
        parse_geos_version("18446744073709551615.120.0").bindings_path(),
        "../sys/prebuilt-bindings/geos_18446744073709551615.120.rs"
    );
}

#[test]
fn minimum_supported_version() {
    assert!(parse_geos_version("3.6.0").is_supported());
    assert!(parse_geos_version("3.11.2").is_supported());
    assert!(parse_geos_version("4.0.0").is_supported());
    assert!(parse_geos_version("3.6.0+build").is_supported());
    assert!(!parse_geos_version("3.6.0beta1").is_supported());
    assert!(!parse_geos_version("3.5.9").is_supported());
    assert!(!parse_geos_version("2.9.0").is_supported());
}
