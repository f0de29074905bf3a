use vstd::prelude::*;
use crate::java::path_views;
use crate::platform::{join_path, join_spec, OsFamily};
use crate::text::{push_str, trim, trimmed};

verus! {

/// Each entry twice, with `first` and then `second` joined below it.
pub open spec fn expand_spec(entries: Seq<Seq<char>>, first: Seq<char>, second: Seq<char>, sep: char) -> Seq<Seq<char>>
    decreases entries.len(),
{
    if entries.len() == 0 {
        Seq::empty()
    } else {
        expand_spec(entries.drop_last(), first, second, sep).push(
            join_spec(entries.last(), first, sep),
        ).push(join_spec(entries.last(), second, sep))
    }
}

/// The two executables to try below each entry of a directory of runtimes.
pub fn expand_entries(entries: &Vec<String>, first: &str, second: &str, os: OsFamily) -> (r: Vec<String>)
    ensures
        path_views(r@) == expand_spec(path_views(entries@), first@, second@, os.spec_separator()),
{
    let mut out: Vec<String> = Vec::new();
    let mut i: usize = 0;
    while i < entries.len()
        invariant
            i <= entries@.len(),
            path_views(out@) == expand_spec(path_views(entries@.subrange(0, i as int)), first@, second@, os.spec_separator()),
        decreases entries@.len() - i,
    {
        let a = join_path(entries[i].as_str(), first, os);
        let b = join_path(entries[i].as_str(), second, os);
        let ghost before = out@;
        out.push(a);
        out.push(b);
        proof {
            let e = path_views(entries@.subrange(0, i + 1));
            assert(e.drop_last() =~= path_views(entries@.subrange(0, i as int)));
            assert(e.last() == entries@[i as int]@);
            assert(path_views(out@) =~= path_views(before).push(a@).push(b@));
        }
        i = i + 1;
    }
    assert(entries@.subrange(0, entries@.len() as int) =~= entries@);
    out
}

/// Candidates below each entry of a Unix directory of runtimes.
pub fn unix_entry_candidates(entries: &Vec<String>) -> (r: Vec<String>)
    ensures
        path_views(r@) == expand_spec(path_views(entries@), "jre/bin/java"@, "bin/java"@, '/'),
{
    expand_entries(entries, "jre/bin/java", "bin/java", OsFamily::OtherUnix)
}

/// The directories of runtimes to scan on Unix systems other than macOS,
/// before each is mirrored under a snap root.
pub open spec fn unix_java_dir_bases(home: Seq<char>) -> Seq<Seq<char>> {
    seq![
        "/usr/java"@,
        "/usr/lib/jvm"@,
        "/usr/lib64/jvm"@,
        "/usr/lib32/jvm"@,
        "/opt/jdk"@,
        "/opt/jdks"@,
        "/app/jdk"@,
        join_spec(home, ".jdks"@, '/'),
        join_spec(home, ".sdkman/candidates/java"@, '/'),
        join_spec(home, ".gradle/jdks"@, '/'),
    ]
}

/// Each directory followed by its copy under the snap root, when there is one.
pub open spec fn with_mirrors(dirs: Seq<Seq<char>>, snap: Option<Seq<char>>) -> Seq<Seq<char>>
    decreases dirs.len(),
{
    if dirs.len() == 0 {
        Seq::empty()
    } else {
        let rest = with_mirrors(dirs.drop_last(), snap).push(dirs.last());
        match snap {
            Some(root) => rest.push(root + dirs.last()),
            None => rest,
        }
    }
}

/// The directories of runtimes to scan on Unix systems other than macOS, in
/// order; each is followed by its copy under `snap` when that is set.
pub fn unix_java_dirs(home: &str, snap: Option<&str>) -> (r: Vec<String>)
    ensures
        path_views(r@) == with_mirrors(unix_java_dir_bases(home@), match snap {
            Some(s) => Some(s@),
            None => None,
        }),
{
    let mut bases: Vec<String> = Vec::new();
    bases.push(String::from_str("/usr/java"));
    bases.push(String::from_str("/usr/lib/jvm"));
    bases.push(String::from_str("/usr/lib64/jvm"));
    bases.push(String::from_str("/usr/lib32/jvm"));
    bases.push(String::from_str("/opt/jdk"));
    bases.push(String::from_str("/opt/jdks"));
    bases.push(String::from_str("/app/jdk"));
    bases.push(join_path(home, ".jdks", OsFamily::OtherUnix));
    bases.push(join_path(home, ".sdkman/candidates/java", OsFamily::OtherUnix));
    bases.push(join_path(home, ".gradle/jdks", OsFamily::OtherUnix));
    let ghost want = unix_java_dir_bases(home@);
    assert(path_views(bases@) =~= want);
    let ghost snap_v = match snap {
        Some(s) => Some(s@),
        None => None::<Seq<char>>,
    };
    let mut out: Vec<String> = Vec::new();
    let mut i: usize = 0;
    while i < bases.len()
        invariant
            i <= bases@.len(),
            path_views(bases@) == want,
            snap_v == (match snap {
                Some(s) => Some(s@),
                None => None::<Seq<char>>,
            }),
            path_views(out@) == with_mirrors(want.subrange(0, i as int), snap_v),
        decreases bases@.len() - i,
    {
        let ghost before = out@;
        proof {
            let w = want.subrange(0, i + 1);
            assert(w.drop_last() =~= want.subrange(0, i as int));
            assert(w.last() == bases@[i as int]@);
        }
        out.push(bases[i].clone());
        match snap {
            Some(root) => {
                let mut m = String::from_str(root);
                push_str(&mut m, bases[i].as_str());
                out.push(m);
                assert(path_views(out@) =~= path_views(before).push(bases@[i as int]@).push(root@ + bases@[i as int]@));
            },
            None => {
                assert(path_views(out@) =~= path_views(before).push(bases@[i as int]@));
            },
        }
        i = i + 1;
    }
    assert(want.subrange(0, bases@.len() as int) =~= want);
    out
}

/// The fixed places of Java on macOS.
pub open spec fn macos_fixed_candidates() -> Seq<Seq<char>> {
    seq![
        "/Applications/Xcode.app/Contents/Applications/Application Loader.app/Contents/MacOS/itms/java/bin/java"@,
        "/Library/Internet Plug-Ins/JavaAppletPlugin.plugin/Contents/Home/bin/java"@,
        "/System/Library/Frameworks/JavaVM.framework/Versions/Current/Commands/java"@,
    ]
}

/// The macOS directory whose entries are system Java installations.
pub fn macos_jvms_dir() -> (r: &'static str)
    ensures
        r@ == "/System/Library/Java/JavaVirtualMachines/"@,
{
    "/System/Library/Java/JavaVirtualMachines/"
}

/// Java candidates on macOS: the fixed places, then two below each entry of
/// the system's directory of virtual machines, then sdkman's directory.
pub fn macos_java_candidates(jvm_entries: &Vec<String>, home: &str) -> (r: Vec<String>)
    ensures
        path_views(r@) == macos_fixed_candidates() + expand_spec(
            path_views(jvm_entries@),
            "Contents/Home/bin/java"@,
            "Contents/Commands/java"@,
            '/',
        ) + seq![join_spec(home@, ".sdkman/candidates/java"@, '/')],
{
    let mut out: Vec<String> = Vec::new();
    out.push(String::from_str("/Applications/Xcode.app/Contents/Applications/Application Loader.app/Contents/MacOS/itms/java/bin/java"));
    out.push(String::from_str("/Library/Internet Plug-Ins/JavaAppletPlugin.plugin/Contents/Home/bin/java"));
    out.push(String::from_str("/System/Library/Frameworks/JavaVM.framework/Versions/Current/Commands/java"));
    let ghost fixed = out@;
    assert(path_views(fixed) =~= macos_fixed_candidates());
    let mut more = expand_entries(jvm_entries, "Contents/Home/bin/java", "Contents/Commands/java", OsFamily::MacOs);
    let ghost mid = more@;
    out.append(&mut more);
    let sdk = join_path(home, ".sdkman/candidates/java", OsFamily::MacOs);
    out.push(sdk);
    assert(path_views(out@) =~= path_views(fixed) + path_views(mid) + seq![sdk@]);
    out
}

/// Candidates from the search path and from `JAVA_HOME`.
pub open spec fn env_candidates_spec(dirs: Seq<Seq<char>>, java_home: Option<Seq<char>>, os: OsFamily) -> Seq<Seq<char>> {
    dirs.map_values(|d: Seq<char>| join_spec(d, os.spec_java_exe_name(), os.spec_separator()))
        + match java_home {
        Some(h) => seq![join_spec(join_spec(h, "bin"@, os.spec_separator()), os.spec_java_exe_name(), os.spec_separator())],
        None => Seq::empty(),
    }
}

/// The Java executable in each directory of the search path, then the one
/// in `JAVA_HOME/bin` when that is set.
pub fn env_java_candidates(path_dirs: &Vec<String>, java_home: Option<&str>, os: OsFamily) -> (r: Vec<String>)
    ensures
        path_views(r@) == env_candidates_spec(path_views(path_dirs@), match java_home {
            Some(h) => Some(h@),
            None => None,
        }, os),
{
    let exe = os.java_exe_name();
    let mut out: Vec<String> = Vec::new();
    let mut i: usize = 0;
    while i < path_dirs.len()
        invariant
            i <= path_dirs@.len(),
            exe@ == os.spec_java_exe_name(),
            path_views(out@) == path_views(path_dirs@.subrange(0, i as int)).map_values(
                |d: Seq<char>| join_spec(d, os.spec_java_exe_name(), os.spec_separator()),
            ),
        decreases path_dirs@.len() - i,
    {
        let p = join_path(path_dirs[i].as_str(), exe, os);
        let ghost before = out@;
        out.push(p);
        proof {
            assert(path_views(out@) =~= path_views(before).push(p@));
            assert(path_views(path_dirs@.subrange(0, i + 1)) =~= path_views(path_dirs@.subrange(0, i as int)).push(path_dirs@[i as int]@));
        }
        i = i + 1;
        assert(path_views(out@) =~= path_views(path_dirs@.subrange(0, i as int)).map_values(
            |d: Seq<char>| join_spec(d, os.spec_java_exe_name(), os.spec_separator()),
        ));
    }
    assert(path_dirs@.subrange(0, path_dirs@.len() as int) =~= path_dirs@);
    match java_home {
        Some(h) => {
            let bin = join_path(h, "bin", os);
            let p = join_path(bin.as_str(), exe, os);
            let ghost before = out@;
            out.push(p);
            assert(path_views(out@) =~= path_views(before) + seq![p@]);
        },
        None => {
            assert(path_views(out@) =~= path_views(out@) + Seq::<Seq<char>>::empty());
        },
    }
    out
}


/// One place in the Windows registry where a vendor lists its Java
/// installations: the key whose subkeys are installations, in the 64-bit or
/// the 32-bit view, the value that holds an installation's directory, and
/// the path below each subkey where that value stands.
#[derive(Debug, Clone, Copy)]
pub struct RegistryQuery {
    pub wow64_64: bool,
    pub key: &'static str,
    pub value_name: &'static str,
    pub sub_key_suffix: &'static str,
}

pub open spec fn query_model(q: RegistryQuery) -> (bool, Seq<char>, Seq<char>, Seq<char>) {
    (q.wow64_64, q.key@, q.value_name@, q.sub_key_suffix@)
}

pub open spec fn registry_table() -> Seq<(bool, Seq<char>, Seq<char>, Seq<char>)> {
    let oracle_jre8 = "SOFTWARE\\JavaSoft\\Java Runtime Environment"@;
    let oracle_jdk8 = "SOFTWARE\\JavaSoft\\Java Development Kit"@;
    let oracle_jre = "SOFTWARE\\JavaSoft\\JRE"@;
    let oracle_jdk = "SOFTWARE\\JavaSoft\\JDK"@;
    let adopt_jre = "SOFTWARE\\AdoptOpenJDK\\JRE"@;
    let adopt_jdk = "SOFTWARE\\AdoptOpenJDK\\JDK"@;
    let eclipse_jdk = "SOFTWARE\\Eclipse Foundation\\JDK"@;
    let adoptium_jre = "SOFTWARE\\Eclipse Adoptium\\JRE"@;
    let adoptium_jdk = "SOFTWARE\\Eclipse Adoptium\\JDK"@;
    let microsoft_jdk = "SOFTWARE\\Microsoft\\JDK"@;
    let zulu = "SOFTWARE\\Azul Systems\\Zulu"@;
    let liberica = "SOFTWARE\\BellSoft\\Liberica"@;
    let java_home = "JavaHome"@;
    let path = "Path"@;
    let install_path = "InstallationPath"@;
    let msi = "\\hotspot\\MSI"@;
    let none = ""@;
    seq![
        (true, oracle_jre8, java_home, none),
        (true, oracle_jre, java_home, none),
        (true, adopt_jre, path, msi),
        (true, adoptium_jre, path, msi),
        (true, oracle_jdk8, java_home, none),
        (true, oracle_jdk, java_home, none),
        (true, adopt_jdk, path, msi),
        (true, eclipse_jdk, path, msi),
        (true, adoptium_jdk, path, msi),
        (true, microsoft_jdk, path, msi),
        (true, zulu, install_path, none),
        (true, liberica, install_path, none),
        (false, oracle_jre8, java_home, none),
        (false, oracle_jre, java_home, none),
        (false, adopt_jre, path, msi),
        (false, adoptium_jre, path, msi),
        (false, oracle_jdk8, java_home, none),
        (false, oracle_jdk, java_home, none),
        (false, adopt_jdk, path, msi),
        (false, eclipse_jdk, path, msi),
        (false, adoptium_jdk, path, msi),
        (false, zulu, install_path, none),
        (false, liberica, install_path, none),
    ]
}

fn query(wow64_64: bool, key: &'static str, value_name: &'static str, sub_key_suffix: &'static str) -> (r: RegistryQuery)
    ensures
        query_model(r) == (wow64_64, key@, value_name@, sub_key_suffix@),
{
    RegistryQuery { wow64_64, key, value_name, sub_key_suffix }
}

/// The registry places to read on Windows, in the order in which their
/// results are listed: 64-bit before 32-bit, runtimes before development kits.
pub fn windows_registry_queries() -> (r: Vec<RegistryQuery>)
    ensures
        r@.map_values(|q: RegistryQuery| query_model(q)) == registry_table(),
{
    let oracle_jre8 = "SOFTWARE\\JavaSoft\\Java Runtime Environment";
    let oracle_jdk8 = "SOFTWARE\\JavaSoft\\Java Development Kit";
    let oracle_jre = "SOFTWARE\\JavaSoft\\JRE";
    let oracle_jdk = "SOFTWARE\\JavaSoft\\JDK";
    let adopt_jre = "SOFTWARE\\AdoptOpenJDK\\JRE";
    let adopt_jdk = "SOFTWARE\\AdoptOpenJDK\\JDK";
    let eclipse_jdk = "SOFTWARE\\Eclipse Foundation\\JDK";
    let adoptium_jre = "SOFTWARE\\Eclipse Adoptium\\JRE";
    let adoptium_jdk = "SOFTWARE\\Eclipse Adoptium\\JDK";
    let microsoft_jdk = "SOFTWARE\\Microsoft\\JDK";
    let zulu = "SOFTWARE\\Azul Systems\\Zulu";
    let liberica = "SOFTWARE\\BellSoft\\Liberica";
    let java_home = "JavaHome";
    let path = "Path";
    let install_path = "InstallationPath";
    let msi = "\\hotspot\\MSI";
    let none = "";
    let mut r: Vec<RegistryQuery> = Vec::new();
    r.push(query(true, oracle_jre8, java_home, none));
    r.push(query(true, oracle_jre, java_home, none));
    r.push(query(true, adopt_jre, path, msi));
    r.push(query(true, adoptium_jre, path, msi));
    r.push(query(true, oracle_jdk8, java_home, none));
    r.push(query(true, oracle_jdk, java_home, none));
    r.push(query(true, adopt_jdk, path, msi));
    r.push(query(true, eclipse_jdk, path, msi));
    r.push(query(true, adoptium_jdk, path, msi));
    r.push(query(true, microsoft_jdk, path, msi));
    r.push(query(true, zulu, install_path, none));
    r.push(query(true, liberica, install_path, none));
    r.push(query(false, oracle_jre8, java_home, none));
    r.push(query(false, oracle_jre, java_home, none));
    r.push(query(false, adopt_jre, path, msi));
    r.push(query(false, adoptium_jre, path, msi));
    r.push(query(false, oracle_jdk8, java_home, none));
    r.push(query(false, oracle_jdk, java_home, none));
    r.push(query(false, adopt_jdk, path, msi));
    r.push(query(false, eclipse_jdk, path, msi));
    r.push(query(false, adoptium_jdk, path, msi));
    r.push(query(false, zulu, install_path, none));
    r.push(query(false, liberica, install_path, none));
    assert(r@.map_values(|q: RegistryQuery| query_model(q)) =~= registry_table());
    r
}

pub open spec fn registry_java_exe(dir: Seq<char>) -> Seq<char> {
    join_spec(join_spec(dir, "bin"@, '\\'), "javaw.exe"@, '\\')
}

/// The executables below the installation directories that queries `lo..hi`
/// returned, in order.
pub open spec fn registry_group(found: Seq<Seq<Seq<char>>>, lo: int, hi: int) -> Seq<Seq<char>>
    decreases hi - lo,
{
    if hi <= lo {
        Seq::empty()
    } else {
        registry_group(found, lo, hi - 1) + found[hi - 1].map_values(|d: Seq<char>| registry_java_exe(d))
    }
}

pub open spec fn windows_fixed_candidates(x86: bool) -> Seq<Seq<char>> {
    if x86 {
        seq![
            "C:\\Program Files (x86)\\Java\\jre8\\bin\\javaw.exe"@,
            "C:\\Program Files (x86)\\Java\\jre7\\bin\\javaw.exe"@,
            "C:\\Program Files (x86)\\Java\\jre6\\bin\\javaw.exe"@,
        ]
    } else {
        seq![
            "C:\\Program Files\\Java\\jre8\\bin\\javaw.exe"@,
            "C:\\Program Files\\Java\\jre7\\bin\\javaw.exe"@,
            "C:\\Program Files\\Java\\jre6\\bin\\javaw.exe"@,
        ]
    }
}

pub open spec fn found_views(found: Seq<Vec<String>>) -> Seq<Seq<Seq<char>>> {
    found.map_values(|v: Vec<String>| path_views(v@))
}

fn append_registry_group(out: &mut Vec<String>, found: &Vec<Vec<String>>, lo: usize, hi: usize)
    requires
        lo <= hi <= found@.len(),
    ensures
        path_views(final(out)@) == path_views(old(out)@) + registry_group(found_views(found@), lo as int, hi as int),
{
    let ghost f = found_views(found@);
    let mut g: usize = lo;
    while g < hi
        invariant
            lo <= g <= hi <= found@.len(),
            f == found_views(found@),
            path_views(out@) == path_views(old(out)@) + registry_group(f, lo as int, g as int),
        decreases hi - g,
    {
        let dirs = &found[g];
        let ghost start = out@;
        let mut i: usize = 0;
        while i < dirs.len()
            invariant
                i <= dirs@.len(),
                path_views(out@) == path_views(start) + path_views(dirs@.subrange(0, i as int)).map_values(|d: Seq<char>| registry_java_exe(d)),
            decreases dirs@.len() - i,
        {
            let bin = join_path(dirs[i].as_str(), "bin", OsFamily::Windows);
            let exe = join_path(bin.as_str(), "javaw.exe", OsFamily::Windows);
            let ghost before = out@;
            out.push(exe);
            proof {
                assert(path_views(out@) =~= path_views(before).push(exe@));
                assert(path_views(dirs@.subrange(0, i + 1)) =~= path_views(dirs@.subrange(0, i as int)).push(dirs@[i as int]@));
            }
            i = i + 1;
            assert(path_views(out@) =~= path_views(start) + path_views(dirs@.subrange(0, i as int)).map_values(|d: Seq<char>| registry_java_exe(d)));
        }
        assert(dirs@.subrange(0, dirs@.len() as int) =~= dirs@);
        assert(f[g as int] == path_views(dirs@));
        g = g + 1;
        assert(path_views(out@) =~= path_views(old(out)@) + registry_group(f, lo as int, g as int));
    }
}

fn push_fixed(out: &mut Vec<String>, x86: bool)
    ensures
        path_views(final(out)@) == path_views(old(out)@) + windows_fixed_candidates(x86),
{
    let ghost before = out@;
    if x86 {
        out.push(String::from_str("C:\\Program Files (x86)\\Java\\jre8\\bin\\javaw.exe"));
        out.push(String::from_str("C:\\Program Files (x86)\\Java\\jre7\\bin\\javaw.exe"));
        out.push(String::from_str("C:\\Program Files (x86)\\Java\\jre6\\bin\\javaw.exe"));
    } else {
        out.push(String::from_str("C:\\Program Files\\Java\\jre8\\bin\\javaw.exe"));
        out.push(String::from_str("C:\\Program Files\\Java\\jre7\\bin\\javaw.exe"));
        out.push(String::from_str("C:\\Program Files\\Java\\jre6\\bin\\javaw.exe"));
    }
    assert(path_views(out@) =~= path_views(before) + windows_fixed_candidates(x86));
}

/// Java candidates on Windows, from the installation directories that each
/// query of `windows_registry_queries` returned: the 64-bit runtimes, the
/// fixed 64-bit places, the 64-bit development kits, then the same for 32-bit.
pub fn windows_java_candidates(found: &Vec<Vec<String>>) -> (r: Vec<String>)
    requires
        found@.len() == registry_table().len(),
    ensures
        path_views(r@) == registry_group(found_views(found@), 0, 4) + windows_fixed_candidates(false)
            + registry_group(found_views(found@), 4, 12) + registry_group(found_views(found@), 12, 16)
            + windows_fixed_candidates(true) + registry_group(found_views(found@), 16, 23),
{
    let mut out: Vec<String> = Vec::new();
    append_registry_group(&mut out, found, 0, 4);
    push_fixed(&mut out, false);
    append_registry_group(&mut out, found, 4, 12);
    append_registry_group(&mut out, found, 12, 16);
    push_fixed(&mut out, true);
    append_registry_group(&mut out, found, 16, 23);
    assert(path_views(Seq::<String>::empty()) =~= Seq::<Seq<char>>::empty());
    out
}


/// An entry of a directory: its file name and its full path.
#[derive(Debug, Clone)]
pub struct DirEntryInfo {
    pub name: String,
    pub path: String,
}

pub open spec fn entry_paths(entries: Seq<DirEntryInfo>) -> Seq<Seq<char>> {
    entries.map_values(|e: DirEntryInfo| e.path@)
}

/// `k` is the first entry named `bin`.
pub open spec fn is_first_bin(entries: Seq<DirEntryInfo>, k: int) -> bool {
    0 <= k < entries.len() && entries[k].name@ == "bin"@ && forall|j: int|
        0 <= j < k ==> (#[trigger] entries[j]).name@ != "bin"@
}

/// The breadth-first walk of the game launcher's bundled runtimes: each
/// directory that holds a `bin` entry contributes the Java executable in it
/// and is not descended further; any other directory queues its entries.
#[derive(Debug)]
pub struct BundleScan {
    pub queue: Vec<String>,
    pub found: Vec<String>,
}

impl BundleScan {
    /// Starts the walk at the launcher's runtime directories.
    pub fn new(roots: Vec<String>) -> (r: BundleScan)
        ensures
            r.queue@ == roots@,
            r.found@.len() == 0,
    {
        BundleScan { queue: roots, found: Vec::new() }
    }

    /// The next directory to list, taken from the front of the queue.
    pub fn next_dir(&mut self) -> (r: Option<String>)
        ensures
            old(self).queue@.len() == 0 ==> r is None && *final(self) == *old(self),
            old(self).queue@.len() > 0 ==> r == Some(old(self).queue@[0]) && final(self).queue@
                == old(self).queue@.drop_first() && final(self).found == old(self).found,
    {
        if self.queue.len() == 0 {
            None
        } else {
            Some(self.queue.remove(0))
        }
    }

    /// Takes in the entries of the directory last handed out.
    pub fn visit(&mut self, entries: &Vec<DirEntryInfo>, os: OsFamily)
        ensures
            forall|k: int| is_first_bin(entries@, k) ==> path_views(final(self).found@)
                == path_views(old(self).found@).push(
                join_spec(entries@[k].path@, os.spec_java_exe_name(), os.spec_separator()),
            ) && final(self).queue == old(self).queue,
            (forall|k: int| !is_first_bin(entries@, k)) ==> path_views(final(self).queue@)
                == path_views(old(self).queue@) + entry_paths(entries@) && final(self).found
                == old(self).found,
    {
        let bin = String::from_str("bin");
        let mut i: usize = 0;
        while i < entries.len()
            invariant
                i <= entries@.len(),
                bin@ == "bin"@,
                self.found == old(self).found,
                self.queue == old(self).queue,
                forall|j: int| 0 <= j < i ==> (#[trigger] entries@[j]).name@ != "bin"@,
            decreases entries@.len() - i,
        {
            if entries[i].name == bin {
                let exe = join_path(entries[i].path.as_str(), os.java_exe_name(), os);
                self.found.push(exe);
                proof {
                    assert(is_first_bin(entries@, i as int));
                    assert forall|k: int| is_first_bin(entries@, k) implies k == i by {
                        if k < i {
                        } else if k > i {
                            assert(entries@[i as int].name@ != "bin"@);
                        }
                    }
                    assert(path_views(self.found@) =~= path_views(old(self).found@).push(exe@));
                }
                return;
            }
            i = i + 1;
        }
        let mut j: usize = 0;
        while j < entries.len()
            invariant
                j <= entries@.len(),
                self.found == old(self).found,
                path_views(self.queue@) == path_views(old(self).queue@) + entry_paths(entries@.subrange(0, j as int)),
            decreases entries@.len() - j,
        {
            let ghost before = self.queue@;
            self.queue.push(entries[j].path.clone());
            proof {
                assert(path_views(self.queue@) =~= path_views(before).push(entries@[j as int].path@));
                assert(entry_paths(entries@.subrange(0, j + 1)) =~= entry_paths(entries@.subrange(0, j as int)).push(entries@[j as int].path@));
            }
            j = j + 1;
        }
        assert(entries@.subrange(0, entries@.len() as int) =~= entries@);
    }
}

/// Converts ASCII text to the NUL-terminated UTF-16 form that the Windows
/// registry functions take.
pub fn wstr(s: &str) -> (r: Vec<u16>)
    requires
        forall|i: int| 0 <= i < s@.len() ==> (#[trigger] s@[i]) as u32 <= 127,
    ensures
        r@ == s@.map_values(|c: char| c as u16).push(0u16),
{
    let n = s.unicode_len();
    let mut r: Vec<u16> = Vec::new();
    let mut i: usize = 0;
    while i < n
        invariant
            n == s@.len(),
            i <= n,
            forall|k: int| 0 <= k < s@.len() ==> (#[trigger] s@[k]) as u32 <= 127,
            r@ == s@.subrange(0, i as int).map_values(|c: char| c as u16),
        decreases n - i,
    {
        let c = s.get_char(i);
        r.push(c as u16);
        assert(s@.subrange(0, i + 1).map_values(|c: char| c as u16) =~= s@.subrange(0, i as int).map_values(|c: char| c as u16).push(c as u16));
        i = i + 1;
    }
    assert(s@.subrange(0, n as int) =~= s@);
    r.push(0u16);
    r
}


/// The directories where the game launcher keeps its bundled runtimes.
pub open spec fn runtime_dirs_spec(os: OsFamily, home: Seq<char>, appdata: Seq<char>, local_appdata: Seq<char>) -> Seq<Seq<char>> {
    match os {
        OsFamily::Windows => seq![
            join_spec(appdata, ".minecraft\\runtime"@, '\\'),
            join_spec(local_appdata, "Packages\\Microsoft.4297127D64EC6_8wekyb3d8bbwe\\LocalCache\\Local\\runtime"@, '\\'),
        ],
        OsFamily::MacOs => seq![join_spec(home, "Library/Application Support/minecraft/runtime"@, '/')],
        OsFamily::OtherUnix => seq![join_spec(home, ".minecraft/runtime"@, '/')],
    }
}

/// Where the walk of bundled runtimes starts. Absent directories are given
/// as empty text.
pub fn minecraft_runtime_dirs(os: OsFamily, home: &str, appdata: &str, local_appdata: &str) -> (r: Vec<String>)
    ensures
        path_views(r@) == runtime_dirs_spec(os, home@, appdata@, local_appdata@),
{
    let mut r: Vec<String> = Vec::new();
    match os {
        OsFamily::Windows => {
            r.push(join_path(appdata, ".minecraft\\runtime", os));
            r.push(join_path(local_appdata, "Packages\\Microsoft.4297127D64EC6_8wekyb3d8bbwe\\LocalCache\\Local\\runtime", os));
        },
        OsFamily::MacOs => {
            r.push(join_path(home, "Library/Application Support/minecraft/runtime", os));
        },
        OsFamily::OtherUnix => {
            r.push(join_path(home, ".minecraft/runtime", os));
        },
    }
    assert(path_views(r@) =~= runtime_dirs_spec(os, home@, appdata@, local_appdata@));
    r
}

/// The name of the cache directory.
pub fn cache_dir_name() -> (r: &'static str)
    ensures
        r@ == ".mcserver_cache"@,
{
    ".mcserver_cache"
}

/// The cache directory: under `APPDATA` on Windows when that is set, else
/// under the home directory (the current directory when neither is known).
pub fn get_cache_dir(os: OsFamily, appdata: Option<&str>, home: Option<&str>) -> (r: String)
    ensures
        r@ == join_spec(
            match (os, appdata, home) {
                (OsFamily::Windows, Some(a), _) => a@,
                (_, _, Some(h)) => h@,
                _ => Seq::empty(),
            },
            ".mcserver_cache"@,
            os.spec_separator(),
        ),
{
    let base = match (os, appdata, home) {
        (OsFamily::Windows, Some(a), _) => a,
        (_, _, Some(h)) => h,
        _ => "",
    };
    proof {
        reveal_strlit("");
    }
    join_path(base, cache_dir_name(), os)
}

/// The version that the probe program printed, without surrounding white space.
pub fn version_from_probe_output(stdout: &str) -> (r: String)
    ensures
        r@ == trimmed(stdout@),
{
    trim(stdout)
}

} // verus!
