use mcserver::hashing::HexString;
use mcserver::mod_loader::fabric::{
    fabric_run_command, first_stable, loader_versions_file_name, loader_versions_url,
    server_launch_file_name, server_launch_url, FabricVersion,
};
use mcserver::mod_loader::paper::{
    build_metadata_url, check_patch_exit, choose_build, latest_build, mojang_jar_name,
    paper_run_command, paperclip_file_name, paperclip_url, PaperError,
};
use mcserver::mod_loader::vanilla::{
    eula_agreed, eula_answer_agrees, eula_file_contents, log4j_fix, vanilla_run_command, Log4jFix,
};
use mcserver::mod_loader::{required_java_version, ModLoader};
use mcserver::mod_provider::ModProvider;
use mcserver::mojang::{
    JavaVersion, ManifestVersion, Timestamp, Version, VersionDownloads, VersionType,
};
use mcserver::platform::OsFamily;

fn at(seconds: i64) -> Timestamp {
    Timestamp::from_unix_seconds(seconds)
}

#[test]
fn vanilla_script_for_2016_uses_old_config() {
    let cmd = vanilla_run_command("java", at(1451606400), OsFamily::OtherUnix);
    assert!(cmd.contains("-Dlog4j.configurationFile=log4j2_17-111.xml"));
    assert_eq!(cmd, "java -Dlog4j.configurationFile=log4j2_17-111.xml -jar server.jar nogui\n");
}

#[test]
fn vanilla_script_for_2022_has_no_mitigation() {
    let cmd = vanilla_run_command("java", at(1640995200), OsFamily::OtherUnix);
    assert!(!cmd.contains("log4j"));
    assert_eq!(cmd, "java -jar server.jar nogui\n");
    let win = vanilla_run_command("javaw.exe", at(1640995200), OsFamily::Windows);
    assert_eq!(win, "javaw.exe -jar server.jar nogui\r\n");
}

#[test]
fn log4j_buckets() {
    assert_eq!(log4j_fix(at(1380208278)), Log4jFix::Unaffected);
    assert_eq!(log4j_fix(at(1380208279)), Log4jFix::Config17To111);
    assert_eq!(log4j_fix(at(1491989450)), Log4jFix::Config112To116);
    assert_eq!(log4j_fix(at(1622108361)), Log4jFix::NoLookups);
    assert_eq!(log4j_fix(at(1639107397)), Log4jFix::NoLookups);
    assert_eq!(log4j_fix(at(1639107398)), Log4jFix::Unaffected);
    assert_eq!(Log4jFix::Config112To116.config_file(), Some("log4j2_112-116.xml"));
    assert_eq!(Log4jFix::NoLookups.flag(), "-Dlog4j2.formatMsgNoLookups=true ");
    assert_eq!(Log4jFix::NoLookups.config_file(), None);
}

#[test]
fn eula_handling() {
    assert_eq!(eula_file_contents(OsFamily::OtherUnix), "eula=true\n");
    assert_eq!(eula_file_contents(OsFamily::Windows), "eula=true\r\n");
    assert!(eula_answer_agrees("yes\n"));
    assert!(eula_answer_agrees("Y"));
    assert!(!eula_answer_agrees("no"));
    assert!(!eula_answer_agrees(""));
    assert!(eula_agreed(true, None));
    assert!(!eula_agreed(false, Some("n")));
}

fn mv(seconds: i64) -> ManifestVersion {
    ManifestVersion {
        id: "x".to_string(),
        typ: VersionType::Release,
        url: String::new(),
        release_time: at(seconds),
        sha1: HexString { inner: [0; 20] },
    }
}

fn full(major: u32) -> Version {
    Version { downloads: VersionDownloads { server: None }, java_version: JavaVersion { major_version: major } }
}

#[test]
fn minimum_java_per_loader() {
    assert_eq!(ModLoader::Vanilla.minimum_java_version(&mv(0), &full(17)), 17);
    assert_eq!(ModLoader::Fabric.minimum_java_version(&mv(0), &full(7)), 8);
    assert_eq!(ModLoader::Fabric.minimum_java_version(&mv(0), &full(17)), 17);
    assert_eq!(ModLoader::Paper.minimum_java_version(&mv(1451606400), &full(8)), 8);
    assert_eq!(ModLoader::Paper.minimum_java_version(&mv(1496411427), &full(8)), 11);
    assert_eq!(ModLoader::Paper.minimum_java_version(&mv(1610640332), &full(8)), 16);
    assert_eq!(ModLoader::Paper.minimum_java_version(&mv(1623150040), &full(16)), 21);
    assert_eq!(ModLoader::Paper.minimum_java_version(&mv(1700000000), &full(25)), 25);
    assert_eq!(required_java_version(21, 17), 21);
    assert_eq!(required_java_version(8, 17), 17);
}

#[test]
fn loader_defaults() {
    assert_eq!(ModLoader::Vanilla.default_mod_provider(), None);
    assert_eq!(ModLoader::Fabric.default_mod_provider(), Some(ModProvider::Modrinth));
    assert_eq!(ModLoader::Paper.default_mod_provider(), Some(ModProvider::Hangar));
    assert_eq!(ModLoader::Vanilla.mods_folder(), None);
    assert_eq!(ModLoader::Fabric.mods_folder(), Some("mods"));
    assert_eq!(ModLoader::Paper.mods_folder(), Some("plugins"));
    assert_eq!(ModLoader::Paper.name(), "paper");
    assert_eq!(ModProvider::Modrinth.name(), "modrinth");
}

fn fv(version: &str, stable: bool) -> FabricVersion {
    FabricVersion { version: version.to_string(), stable }
}

#[test]
fn fabric_first_stable() {
    assert_eq!(first_stable(&vec![fv("0.3", false), fv("0.2", true), fv("0.1", true)]), Some("0.2".to_string()));
    assert_eq!(first_stable(&vec![fv("0.3", false), fv("0.2", false)]), Some("0.3".to_string()));
    assert_eq!(first_stable(&vec![]), None);
}

#[test]
fn fabric_names_and_urls() {
    assert_eq!(loader_versions_url("1.20.4"), "https://meta.fabricmc.net/v2/versions/loader/1.20.4");
    assert_eq!(loader_versions_url("1.20 pre/1"), "https://meta.fabricmc.net/v2/versions/loader/1.20%20pre%2F1");
    assert_eq!(loader_versions_file_name("1.20.4"), "loader_versions_1.20.4.json");
    assert_eq!(
        server_launch_url("1.20.4", "0.15.6", "1.0.0"),
        "https://meta.fabricmc.net/v2/versions/loader/1.20.4/0.15.6/1.0.0/server/jar"
    );
    assert_eq!(server_launch_file_name("1.20.4", "0.15.6", "1.0.0"), "fabric-server-launch-1.20.4-0.15.6-1.0.0.jar");
    assert_eq!(
        fabric_run_command("java", OsFamily::OtherUnix),
        "java -Dfabric.installer.server.gameJar=server.jar -jar fabric-server-launch.jar nogui\n"
    );
    assert!(fabric_run_command("javaw.exe", OsFamily::Windows).ends_with(" nogui\r\n"));
}

#[test]
fn paper_builds() {
    assert_eq!(latest_build(&vec![3, 17, 5]), Some(17));
    assert_eq!(latest_build(&vec![]), None);
    assert_eq!(choose_build(Some(4), &vec![3, 17]), Ok(4));
    assert_eq!(choose_build(None, &vec![3, 17]), Ok(17));
    assert_eq!(choose_build(None, &vec![]), Err(PaperError::NoBuilds));
}

#[test]
fn paper_download_context() {
    assert_eq!(mojang_jar_name(Some("abc\thttps://x/server.jar\tmojang_1.20.4.jar"), "1.20.4"), Ok("mojang_1.20.4.jar".to_string()));
    assert_eq!(mojang_jar_name(Some("a\tb\tc\td"), "v"), Ok("c\td".to_string()));
    assert_eq!(mojang_jar_name(Some("a\tb"), "v"), Err(PaperError::BadDownloadContext));
    assert_eq!(mojang_jar_name(None, "1.20.4"), Ok("mojang_1.20.4.jar".to_string()));
}

#[test]
fn paper_names_and_commands() {
    assert_eq!(build_metadata_url("1.20.4", 435), "https://api.papermc.io/v2/projects/paper/versions/1.20.4/builds/435");
    assert_eq!(
        paperclip_url("1.20.4", 435, "paper-1.20.4-435.jar"),
        "https://api.papermc.io/v2/projects/paper/versions/1.20.4/builds/435/downloads/paper-1.20.4-435.jar"
    );
    assert_eq!(paperclip_file_name("1.20.4", 0), "paperclip-1.20.4-0.jar");
    assert_eq!(paper_run_command("java", OsFamily::OtherUnix), "java -jar paperclip.jar nogui\n");
    assert_eq!(paper_run_command("java.exe", OsFamily::Windows), "java.exe -jar paperclip.jar nogui\r\n");
    assert_eq!(check_patch_exit(Some(0)), Ok(()));
    assert_eq!(check_patch_exit(Some(1)), Err(PaperError::PatchFailed(Some(1))));
    assert_eq!(check_patch_exit(None), Err(PaperError::PatchFailed(None)));
}
