use mcserver::java::{
    dedup_paths, find_java_candidates, java_version_from_release_file, select_java_paths,
    sort_java_candidates, JavaCandidate, PathProbe,
};
use mcserver::java_version::ParsedJavaVersion;
use std::cmp::Ordering;

fn v(s: &str) -> ParsedJavaVersion {
    ParsedJavaVersion::parse(s).unwrap()
}

fn parts(p: &ParsedJavaVersion) -> (u32, u32, u32, String) {
    (p.major, p.minor, p.security, p.prerelease.clone())
}

#[test]
fn parse_legacy_version() {
    assert_eq!(parts(&v("1.8.0_372")), (8, 0, 372, String::new()));
    assert_eq!(parts(&v("1.7.0_80-b15")), (7, 0, 80, "b15".to_string()));
    assert_eq!(parts(&v("1.8")), (8, 0, 0, String::new()));
}

#[test]
fn parse_modern_version() {
    assert_eq!(parts(&v("17.0.2")), (17, 0, 2, String::new()));
    assert_eq!(parts(&v("21")), (21, 0, 0, String::new()));
    assert_eq!(parts(&v("11.0.1-ea")), (11, 0, 1, "ea".to_string()));
    assert_eq!(parts(&v("17-ea")), (17, 0, 0, "ea".to_string()));
}

#[test]
fn parse_rejects_malformed_versions() {
    for s in ["", "abc", "17.", "17..1", "17.0.x", "1.8.0_", "17.0.2+8", "17 ", "1.", "-1"] {
        assert!(ParsedJavaVersion::parse(s).is_err(), "{s}");
    }
    let e = ParsedJavaVersion::parse("17.0.x").unwrap_err();
    assert_eq!(e.text, "17.0.x");
}

#[test]
fn parse_number_range() {
    assert_eq!(v("4294967295").major, u32::MAX);
    assert!(ParsedJavaVersion::parse("4294967296").is_err());
}

#[test]
fn format_round_trips_canonical_text() {
    for s in ["1.8.0_372", "17.0.2", "11.0.1-ea", "1.8", "17", "21.0.1", "1.7.0_80-b15", "17.1", "9.0.0-ea"] {
        assert_eq!(v(s).to_string(), s);
    }
}

#[test]
fn format_canonicalizes_other_text() {
    assert_eq!(v("8.0.1").to_string(), "1.8.0_1");
    assert_eq!(v("17.0.0").to_string(), "17");
    assert_eq!(v("1.17.0_2").to_string(), "17.0.2");
}

#[test]
fn ordering_of_versions() {
    let a = v("1.8.0_372");
    let b = v("11.0.1");
    let c = v("17.0.2");
    let d = v("17.0.10");
    assert_eq!(a.cmp(&b), Ordering::Less);
    assert_eq!(b.cmp(&c), Ordering::Less);
    assert_eq!(c.cmp(&d), Ordering::Less);
    assert_eq!(d.cmp(&a), Ordering::Greater);
}

#[test]
fn ordering_ignores_prerelease() {
    assert_eq!(v("17.0.2-ea").cmp(&v("17.0.2")), Ordering::Equal);
}

fn cand(path: &str, version: &str) -> JavaCandidate {
    JavaCandidate { path: path.to_string(), version: v(version) }
}

fn paths(cs: &[JavaCandidate]) -> Vec<&str> {
    cs.iter().map(|c| c.path.as_str()).collect()
}

#[test]
fn selection_order_with_requirement() {
    let cs = vec![
        cand("j7", "1.7.0_80"),
        cand("j17a", "17.0.2"),
        cand("j8", "1.8.0_372"),
        cand("j11a", "11.0.1"),
        cand("j17b", "17.0.10"),
        cand("j11b", "11.0.20"),
    ];
    let sorted = sort_java_candidates(cs, 11, true);
    assert_eq!(paths(&sorted), vec!["j11b", "j11a", "j17b", "j17a", "j7", "j8"]);
}

#[test]
fn selection_drops_incompatible_unless_skipped() {
    let cs = vec![cand("j8", "1.8.0_372"), cand("j17", "17.0.2"), cand("j11", "11.0.1")];
    let sorted = sort_java_candidates(cs, 11, false);
    assert_eq!(paths(&sorted), vec!["j11", "j17"]);
    let none = sort_java_candidates(vec![cand("j8", "1.8.0_372")], 17, false);
    assert!(none.is_empty());
}

#[test]
fn dedup_keeps_first_occurrence() {
    let ps: Vec<String> = ["/a", "/b", "/a", "/c", "/b"].iter().map(|s| s.to_string()).collect();
    assert_eq!(dedup_paths(ps), vec!["/a", "/b", "/c"]);
}

#[test]
fn select_paths_skips_missing_and_dedups() {
    let probes = vec![
        PathProbe::Found("/x".to_string()),
        PathProbe::Missing,
        PathProbe::Found("/y".to_string()),
        PathProbe::Found("/x".to_string()),
    ];
    assert_eq!(select_java_paths(probes).unwrap(), vec!["/x", "/y"]);
}

#[test]
fn select_paths_reports_first_failure() {
    let probes = vec![
        PathProbe::Found("/x".to_string()),
        PathProbe::Failed("permission denied".to_string()),
        PathProbe::Failed("later".to_string()),
    ];
    assert_eq!(select_java_paths(probes).unwrap_err(), "permission denied");
}

#[test]
fn candidates_with_unreadable_versions_are_left_out() {
    let found = vec![
        ("/a".to_string(), "17.0.2".to_string()),
        ("/b".to_string(), "garbage".to_string()),
        ("/c".to_string(), "1.8.0_372".to_string()),
    ];
    let cs = find_java_candidates(found);
    assert_eq!(paths(&cs), vec!["/a", "/c"]);
    assert_eq!(cs[1].version.major, 8);
    assert_eq!(cs[0].describe(), "/a (17.0.2)");
}

#[test]
fn release_file_version() {
    let text = "IMPLEMENTOR=\"Eclipse Adoptium\"\nJAVA_VERSION=\"17.0.2\"\nOS_NAME=\"Linux\"\n";
    assert_eq!(java_version_from_release_file(text), Some("17.0.2".to_string()));
    let crlf = "A=1\r\nJAVA_VERSION=\"1.8.0_372\"\r\n";
    assert_eq!(java_version_from_release_file(crlf), Some("1.8.0_372".to_string()));
    assert_eq!(java_version_from_release_file("JAVA_VERSION=\"21\""), Some("21".to_string()));
}

#[test]
fn release_file_without_version() {
    assert_eq!(java_version_from_release_file(""), None);
    assert_eq!(java_version_from_release_file("JAVA_VERSION=17\n"), None);
    assert_eq!(java_version_from_release_file("JAVA_VERSION=\"\n"), None);
}

#[test]
fn selection_keeps_order_of_equal_versions() {
    let cs = vec![cand("first", "17.0.2"), cand("other", "11.0.1"), cand("second", "17.0.2-ea")];
    let sorted = sort_java_candidates(cs, 8, false);
    assert_eq!(paths(&sorted), vec!["other", "first", "second"]);
}

#[test]
fn comparison_operators() {
    assert!(v("1.8.0_372") < v("11.0.1"));
    assert!(v("11.0.1") < v("17.0.2"));
    assert!(v("17.0.2") < v("17.0.10"));
    assert_eq!(v("17.0.2-ea").partial_cmp(&v("17.0.2")), Some(Ordering::Equal));
    assert!(v("17.0.2") == v("17.0.2"));
    assert!(v("17.0.2-ea") != v("17.0.2"));
}
