use vstd::prelude::*;
use vstd::string::StringSliceAdditionalSpecFns;
use crate::java_version::{decimal_text, push_decimal};
use crate::platform::OsFamily;
use crate::text::{chars_of, push_str, string_of, url_encode, url_encoded};

verus! {

/// What went wrong while installing Paper.
#[derive(Debug, Clone, Copy, PartialEq, Eq, Structural)]
pub enum PaperError {
    /// No build is listed for the game version.
    NoBuilds,
    /// Paperclip's download context could not be read.
    BadDownloadContext,
    /// The patch run of Paperclip ended with this exit code (none when it
    /// was stopped by a signal).
    PatchFailed(Option<i32>),
}

/// The newest build: the largest number listed.
pub fn latest_build(builds: &Vec<u32>) -> (r: Option<u32>)
    ensures
        builds@.len() == 0 <==> r is None,
        r matches Some(m) ==> builds@.contains(m) && forall|i: int| 0 <= i < builds@.len() ==> #[trigger] builds@[i] <= m,
{
    if builds.len() == 0 {
        return None;
    }
    let mut best = builds[0];
    let mut i: usize = 1;
    while i < builds.len()
        invariant
            1 <= i <= builds@.len(),
            builds@.contains(best),
            forall|j: int| 0 <= j < i ==> #[trigger] builds@[j] <= best,
        decreases builds@.len() - i,
    {
        if builds[i] > best {
            best = builds[i];
        }
        i = i + 1;
    }
    Some(best)
}

/// The build to install: the one asked for, else the newest listed.
pub fn choose_build(requested: Option<u32>, listed: &Vec<u32>) -> (r: Result<u32, PaperError>)
    ensures
        requested matches Some(b) ==> r == Ok::<u32, PaperError>(b),
        requested is None && listed@.len() == 0 ==> r == Err::<u32, PaperError>(PaperError::NoBuilds),
        requested is None && listed@.len() > 0 ==> (r matches Ok(m) && listed@.contains(m) && forall|i: int|
            0 <= i < listed@.len() ==> #[trigger] listed@[i] <= m),
{
    match requested {
        Some(b) => Ok(b),
        None => match latest_build(listed) {
            Some(m) => Ok(m),
            None => Err(PaperError::NoBuilds),
        },
    }
}

/// The next tab at or after `i`, or the end.
pub open spec fn next_tab(s: Seq<char>, i: int) -> int
    decreases s.len() - i,
{
    if 0 <= i < s.len() && s[i] != '\t' {
        next_tab(s, i + 1)
    } else {
        i
    }
}

/// The third tab-separated field and all that follows it.
pub open spec fn third_field(s: Seq<char>) -> Option<Seq<char>> {
    let a = next_tab(s, 0);
    let b = next_tab(s, a + 1);
    if a < s.len() && b < s.len() {
        Some(s.subrange(b + 1, s.len() as int))
    } else {
        None
    }
}

proof fn lemma_next_tab_bounds(s: Seq<char>, i: int)
    requires
        0 <= i <= s.len(),
    ensures
        i <= next_tab(s, i) <= s.len(),
    decreases s.len() - i,
{
    if i < s.len() && s[i] != '\t' {
        lemma_next_tab_bounds(s, i + 1);
    }
}

fn scan_tab(v: &Vec<char>, start: usize) -> (e: usize)
    requires
        start <= v@.len(),
    ensures
        e == next_tab(v@, start as int),
{
    let mut i = start;
    while i < v.len() && v[i] != '\t'
        invariant
            start <= i <= v@.len(),
            next_tab(v@, start as int) == next_tab(v@, i as int),
        decreases v@.len() - i,
    {
        i = i + 1;
    }
    i
}

/// The file name under which Paperclip expects the game's server jar in its
/// cache: the third field of its download context when it has one, else
/// `mojang_<version>.jar`.
pub fn mojang_jar_name(download_context: Option<&str>, game_version: &str) -> (r: Result<String, PaperError>)
    ensures
        download_context is None ==> (r matches Ok(n) && n@ == "mojang_"@ + game_version@ + ".jar"@),
        download_context matches Some(c) ==> match third_field(c@) {
            Some(f) => r matches Ok(n) && n@ == f,
            None => r == Err::<String, PaperError>(PaperError::BadDownloadContext),
        },
{
    match download_context {
        None => {
            let mut r = String::from_str("mojang_");
            push_str(&mut r, game_version);
            push_str(&mut r, ".jar");
            Ok(r)
        },
        Some(c) => {
            let v = chars_of(c);
            let a = scan_tab(&v, 0);
            proof {
                lemma_next_tab_bounds(v@, 0);
            }
            if a >= v.len() {
                return Err(PaperError::BadDownloadContext);
            }
            let b = scan_tab(&v, a + 1);
            proof {
                lemma_next_tab_bounds(v@, a + 1);
            }
            if b >= v.len() {
                return Err(PaperError::BadDownloadContext);
            }
            Ok(string_of(&v, b + 1, v.len()))
        },
    }
}

/// Where the builds of a game version are listed.
pub fn builds_url(game_version: &str) -> (r: String)
    ensures
        r@ == "https://api.papermc.io/v2/projects/paper/versions/"@ + url_encoded(game_version.spec_bytes()),
{
    let mut r = String::from_str("https://api.papermc.io/v2/projects/paper/versions/");
    let enc = url_encode(game_version);
    push_str(&mut r, enc.as_str());
    r
}

/// Where the metadata of a build is published.
pub fn build_metadata_url(game_version: &str, build: u32) -> (r: String)
    ensures
        r@ == "https://api.papermc.io/v2/projects/paper/versions/"@ + game_version@ + "/builds/"@
            + decimal_text(build as nat),
{
    let mut r = String::from_str("https://api.papermc.io/v2/projects/paper/versions/");
    push_str(&mut r, game_version);
    push_str(&mut r, "/builds/");
    push_decimal(&mut r, build);
    r
}

/// Where the Paperclip jar of a build is served.
pub fn paperclip_url(game_version: &str, build: u32, file_name: &str) -> (r: String)
    ensures
        r@ == "https://api.papermc.io/v2/projects/paper/versions/"@ + game_version@ + "/builds/"@
            + decimal_text(build as nat) + "/downloads/"@ + file_name@,
{
    let mut r = build_metadata_url(game_version, build);
    push_str(&mut r, "/downloads/");
    push_str(&mut r, file_name);
    r
}

/// The cache file of the build list of a game version.
pub fn version_info_file_name(game_version: &str) -> (r: String)
    ensures
        r@ == "version-info-"@ + game_version@ + ".json"@,
{
    let mut r = String::from_str("version-info-");
    push_str(&mut r, game_version);
    push_str(&mut r, ".json");
    r
}

/// The cache file of the metadata of a build.
pub fn build_metadata_file_name(game_version: &str, build: u32) -> (r: String)
    ensures
        r@ == "build-metadata-"@ + game_version@ + "-"@ + decimal_text(build as nat) + ".json"@,
{
    let mut r = String::from_str("build-metadata-");
    push_str(&mut r, game_version);
    push_str(&mut r, "-");
    push_decimal(&mut r, build);
    push_str(&mut r, ".json");
    r
}

/// The cache file of the Paperclip jar of a build.
pub fn paperclip_file_name(game_version: &str, build: u32) -> (r: String)
    ensures
        r@ == "paperclip-"@ + game_version@ + "-"@ + decimal_text(build as nat) + ".jar"@,
{
    let mut r = String::from_str("paperclip-");
    push_str(&mut r, game_version);
    push_str(&mut r, "-");
    push_decimal(&mut r, build);
    push_str(&mut r, ".jar");
    r
}

/// The Java option that makes Paperclip only patch and then exit.
pub fn patch_only_flag() -> (r: &'static str)
    ensures
        r@ == "-Dpaperclip.patchonly=true"@,
{
    "-Dpaperclip.patchonly=true"
}

/// The patch run must have exited with code 0.
pub fn check_patch_exit(exit_code: Option<i32>) -> (r: Result<(), PaperError>)
    ensures
        r is Ok <==> exit_code == Some(0i32),
        r is Err ==> r == Err::<(), PaperError>(PaperError::PatchFailed(exit_code)),
{
    match exit_code {
        Some(0) => Ok(()),
        _ => Err(PaperError::PatchFailed(exit_code)),
    }
}

/// The line of the run script of a Paper server, with the line ending of `os`.
pub fn paper_run_command(java_exe: &str, os: OsFamily) -> (r: String)
    ensures
        r@ == java_exe@ + " -jar paperclip.jar nogui"@ + os.spec_line_ending(),
{
    let mut r = String::from_str(java_exe);
    push_str(&mut r, " -jar paperclip.jar nogui");
    push_str(&mut r, os.line_ending());
    r
}

} // verus!
