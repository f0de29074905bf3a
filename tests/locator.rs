use mcserver::commands::new::escape_executable_name;
use mcserver::locator::{
    env_java_candidates, get_cache_dir, macos_java_candidates, minecraft_runtime_dirs,
    unix_entry_candidates, unix_java_dirs, version_from_probe_output, windows_java_candidates,
    windows_registry_queries, wstr, BundleScan, DirEntryInfo,
};
use mcserver::platform::{is_not_found, join_path, ErrorKindClass, OsFamily};

fn strings(v: &[&str]) -> Vec<String> {
    v.iter().map(|s| s.to_string()).collect()
}

#[test]
fn join_paths() {
    assert_eq!(join_path("/usr", "bin", OsFamily::OtherUnix), "/usr/bin");
    assert_eq!(join_path("/usr/", "bin", OsFamily::OtherUnix), "/usr/bin");
    assert_eq!(join_path("", "bin", OsFamily::OtherUnix), "bin");
    assert_eq!(join_path("C:\\Java", "bin", OsFamily::Windows), "C:\\Java\\bin");
}

#[test]
fn not_found_classification() {
    assert!(is_not_found(ErrorKindClass::NotFound, None, OsFamily::OtherUnix));
    assert!(is_not_found(ErrorKindClass::Other, Some(20), OsFamily::OtherUnix));
    assert!(is_not_found(ErrorKindClass::Other, Some(267), OsFamily::Windows));
    assert!(!is_not_found(ErrorKindClass::Other, Some(267), OsFamily::OtherUnix));
    assert!(!is_not_found(ErrorKindClass::Other, Some(13), OsFamily::OtherUnix));
    assert!(!is_not_found(ErrorKindClass::Other, None, OsFamily::Windows));
}

#[test]
fn unix_dirs_without_snap() {
    let dirs = unix_java_dirs("/home/u", None);
    assert_eq!(
        dirs,
        strings(&[
            "/usr/java",
            "/usr/lib/jvm",
            "/usr/lib64/jvm",
            "/usr/lib32/jvm",
            "/opt/jdk",
            "/opt/jdks",
            "/app/jdk",
            "/home/u/.jdks",
            "/home/u/.sdkman/candidates/java",
            "/home/u/.gradle/jdks",
        ])
    );
}

#[test]
fn unix_dirs_with_snap_mirror() {
    let dirs = unix_java_dirs("/home/u", Some("/snap/x/1"));
    assert_eq!(dirs.len(), 20);
    assert_eq!(dirs[0], "/usr/java");
    assert_eq!(dirs[1], "/snap/x/1/usr/java");
    assert_eq!(dirs[19], "/snap/x/1/home/u/.gradle/jdks");
}

#[test]
fn unix_entries_expand_to_two_candidates() {
    let c = unix_entry_candidates(&strings(&["/usr/lib/jvm/java-17"]));
    assert_eq!(c, strings(&["/usr/lib/jvm/java-17/jre/bin/java", "/usr/lib/jvm/java-17/bin/java"]));
}

#[test]
fn macos_candidates() {
    let c = macos_java_candidates(&strings(&["/System/Library/Java/JavaVirtualMachines/a.jdk"]), "/Users/u");
    assert_eq!(c.len(), 6);
    assert_eq!(c[3], "/System/Library/Java/JavaVirtualMachines/a.jdk/Contents/Home/bin/java");
    assert_eq!(c[4], "/System/Library/Java/JavaVirtualMachines/a.jdk/Contents/Commands/java");
    assert_eq!(c[5], "/Users/u/.sdkman/candidates/java");
}

#[test]
fn env_candidates() {
    let c = env_java_candidates(&strings(&["/usr/bin", "/opt/bin"]), Some("/opt/jdk"), OsFamily::OtherUnix);
    assert_eq!(c, strings(&["/usr/bin/java", "/opt/bin/java", "/opt/jdk/bin/java"]));
    let w = env_java_candidates(&strings(&["C:\\bin"]), None, OsFamily::Windows);
    assert_eq!(w, strings(&["C:\\bin\\javaw.exe"]));
}

#[test]
fn windows_registry_order() {
    let q = windows_registry_queries();
    assert_eq!(q.len(), 23);
    assert!(q[0].wow64_64 && !q[12].wow64_64);
    assert_eq!(q[0].key, "SOFTWARE\\JavaSoft\\Java Runtime Environment");
    assert_eq!(q[2].sub_key_suffix, "\\hotspot\\MSI");
    assert_eq!(q[10].value_name, "InstallationPath");
}

#[test]
fn windows_candidates_list_64_bit_first() {
    let mut found: Vec<Vec<String>> = vec![Vec::new(); 23];
    found[0] = strings(&["C:\\jre64"]);
    found[4] = strings(&["C:\\jdk64"]);
    found[12] = strings(&["C:\\jre32"]);
    found[22] = strings(&["C:\\lib32"]);
    let c = windows_java_candidates(&found);
    assert_eq!(c.len(), 10);
    assert_eq!(c[0], "C:\\jre64\\bin\\javaw.exe");
    assert_eq!(c[1], "C:\\Program Files\\Java\\jre8\\bin\\javaw.exe");
    assert_eq!(c[4], "C:\\jdk64\\bin\\javaw.exe");
    assert_eq!(c[5], "C:\\jre32\\bin\\javaw.exe");
    assert_eq!(c[6], "C:\\Program Files (x86)\\Java\\jre8\\bin\\javaw.exe");
    assert_eq!(c[9], "C:\\lib32\\bin\\javaw.exe");
}

fn entry(name: &str, path: &str) -> DirEntryInfo {
    DirEntryInfo { name: name.to_string(), path: path.to_string() }
}

#[test]
fn bundle_scan_stops_at_bin() {
    let mut scan = BundleScan::new(strings(&["/r"]));
    assert_eq!(scan.next_dir(), Some("/r".to_string()));
    scan.visit(&vec![entry("a", "/r/a"), entry("b", "/r/b")], OsFamily::OtherUnix);
    assert_eq!(scan.next_dir(), Some("/r/a".to_string()));
    scan.visit(&vec![entry("lib", "/r/a/lib"), entry("bin", "/r/a/bin")], OsFamily::OtherUnix);
    assert_eq!(scan.next_dir(), Some("/r/b".to_string()));
    scan.visit(&vec![], OsFamily::OtherUnix);
    assert_eq!(scan.next_dir(), None);
    assert_eq!(scan.found, strings(&["/r/a/bin/java"]));
}

#[test]
fn runtime_dirs_and_cache_dir() {
    assert_eq!(minecraft_runtime_dirs(OsFamily::OtherUnix, "/home/u", "", ""), strings(&["/home/u/.minecraft/runtime"]));
    assert_eq!(get_cache_dir(OsFamily::OtherUnix, None, Some("/home/u")), "/home/u/.mcserver_cache");
    assert_eq!(get_cache_dir(OsFamily::Windows, Some("C:\\AppData"), Some("C:\\Users\\u")), "C:\\AppData\\.mcserver_cache");
    assert_eq!(get_cache_dir(OsFamily::OtherUnix, None, None), ".mcserver_cache");
}

#[test]
fn wide_strings() {
    assert_eq!(wstr("Ab"), vec![65u16, 98, 0]);
    assert_eq!(wstr(""), vec![0u16]);
}

#[test]
fn probe_output_is_trimmed() {
    assert_eq!(version_from_probe_output("  17.0.2\r\n"), "17.0.2");
    assert_eq!(version_from_probe_output(" \n"), "");
}

#[test]
fn unix_escaping() {
    assert_eq!(escape_executable_name("/usr/bin/java", OsFamily::OtherUnix), "/usr/bin/java");
    assert_eq!(escape_executable_name("~/jdk/bin/java", OsFamily::OtherUnix), "~/jdk/bin/java");
    assert_eq!(escape_executable_name("/opt/my java/bin/java", OsFamily::OtherUnix), "'/opt/my java/bin/java'");
    assert_eq!(escape_executable_name("/o/it's/java", OsFamily::OtherUnix), "'/o/it'\\''s/java'");
    assert_eq!(escape_executable_name("/a~b/java", OsFamily::OtherUnix), "'/a~b/java'");
}

#[test]
fn windows_escaping() {
    assert_eq!(
        escape_executable_name("C:\\Program Files\\Java\\bin\\javaw.exe", OsFamily::Windows),
        "\"C:\\Program Files\\Java\\bin\\javaw.exe\""
    );
    assert_eq!(escape_executable_name("a%b\"c", OsFamily::Windows), "\"a%%b\"\"c\"");
    assert_eq!(escape_executable_name("%^&", OsFamily::Windows), "%^&");
}
