use vstd::prelude::*;
use vstd::string::StringSliceAdditionalSpecFns;
use crate::platform::OsFamily;
use crate::text::{push_str, url_encode, url_encoded};

verus! {

/// One entry of a Fabric version list.
#[derive(Debug, Clone)]
pub struct FabricVersion {
    pub version: String,
    pub stable: bool,
}

/// The version to use from a list: the first one flagged stable, else the
/// first one; nothing when the list is empty.
pub fn first_stable(versions: &Vec<FabricVersion>) -> (r: Option<String>)
    ensures
        versions@.len() == 0 ==> r is None,
        (exists|k: int| 0 <= k < versions@.len() && (#[trigger] versions@[k]).stable) ==> (exists|k: int|
            0 <= k < versions@.len() && versions@[k].stable && (forall|j: int| 0 <= j < k ==> !(#[trigger] versions@[j]).stable)
                && (r matches Some(v) && v@ == versions@[k].version@)),
        versions@.len() > 0 && (forall|k: int| 0 <= k < versions@.len() ==> !(#[trigger] versions@[k]).stable) ==> (r matches Some(v)
            && v@ == versions@[0].version@),
{
    let mut i: usize = 0;
    while i < versions.len()
        invariant
            i <= versions@.len(),
            forall|j: int| 0 <= j < i ==> !(#[trigger] versions@[j]).stable,
        decreases versions@.len() - i,
    {
        if versions[i].stable {
            return Some(versions[i].version.clone());
        }
        i = i + 1;
    }
    if versions.len() == 0 {
        None
    } else {
        Some(versions[0].version.clone())
    }
}

/// Where the list of Fabric installer versions is published.
pub fn installer_versions_url() -> (r: &'static str)
    ensures
        r@ == "https://meta.fabricmc.net/v2/versions/installer"@,
{
    "https://meta.fabricmc.net/v2/versions/installer"
}

/// Where the Fabric loader versions for a game version are published.
pub fn loader_versions_url(game_version: &str) -> (r: String)
    ensures
        r@ == "https://meta.fabricmc.net/v2/versions/loader/"@ + url_encoded(game_version.spec_bytes()),
{
    let mut r = String::from_str("https://meta.fabricmc.net/v2/versions/loader/");
    let enc = url_encode(game_version);
    push_str(&mut r, enc.as_str());
    r
}

/// The cache file of the Fabric loader versions for a game version.
pub fn loader_versions_file_name(game_version: &str) -> (r: String)
    ensures
        r@ == "loader_versions_"@ + game_version@ + ".json"@,
{
    let mut r = String::from_str("loader_versions_");
    push_str(&mut r, game_version);
    push_str(&mut r, ".json");
    r
}

/// Where the ready-made Fabric server launcher for a combination is served.
pub fn server_launch_url(game_version: &str, loader_version: &str, installer_version: &str) -> (r: String)
    ensures
        r@ == "https://meta.fabricmc.net/v2/versions/loader/"@ + url_encoded(game_version.spec_bytes()) + "/"@
            + loader_version@ + "/"@ + installer_version@ + "/server/jar"@,
{
    let mut r = loader_versions_url(game_version);
    push_str(&mut r, "/");
    push_str(&mut r, loader_version);
    push_str(&mut r, "/");
    push_str(&mut r, installer_version);
    push_str(&mut r, "/server/jar");
    r
}

/// The cache file of the Fabric server launcher for a combination.
pub fn server_launch_file_name(game_version: &str, loader_version: &str, installer_version: &str) -> (r: String)
    ensures
        r@ == "fabric-server-launch-"@ + game_version@ + "-"@ + loader_version@ + "-"@
            + installer_version@ + ".jar"@,
{
    let mut r = String::from_str("fabric-server-launch-");
    push_str(&mut r, game_version);
    push_str(&mut r, "-");
    push_str(&mut r, loader_version);
    push_str(&mut r, "-");
    push_str(&mut r, installer_version);
    push_str(&mut r, ".jar");
    r
}

/// The line of the run script of a Fabric server, with the line ending of `os`.
pub fn fabric_run_command(java_exe: &str, os: OsFamily) -> (r: String)
    ensures
        r@ == java_exe@ + " -Dfabric.installer.server.gameJar=server.jar -jar fabric-server-launch.jar nogui"@
            + os.spec_line_ending(),
{
    let mut r = String::from_str(java_exe);
    push_str(&mut r, " -Dfabric.installer.server.gameJar=server.jar -jar fabric-server-launch.jar nogui");
    push_str(&mut r, os.line_ending());
    r
}

} // verus!
