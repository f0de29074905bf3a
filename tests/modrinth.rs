use mcserver::cli::{parse_selection, AddCommand, Cli, CliError, Command, NewCommand, Selection};
use mcserver::commands::add::{add_mod, choose_provider, ProviderError};
use mcserver::commands::new::{check_custom_java, newer_than_recommended, JavaCheckError};
use mcserver::hashing::{HashAlgorithm, HashWithAlgorithm, HexString};
use mcserver::instance::{instance_metadata_file_name, InstanceMetadata, ModMetadata};
use mcserver::mod_loader::ModLoader;
use mcserver::mod_provider::modrinth::{
    check_game_version, check_installed, choose_version_file, game_versions_query, installed_mod,
    is_valid_slug, loaders_query, members_url, preferred_hash, project_url, rank_hits,
    recorded_hash, search_facets, stale_mod_file, AddModError, ProjectFile, ProjectFileHashes,
    ProjectFileType, ProjectType, ProjectVersion, SearchHit, SideRequirement,
};
use mcserver::mod_provider::ModProvider;
use mcserver::mojang::Timestamp;

fn sha1_hex(data: &[u8]) -> HexString<20> {
    let mut inner = [0u8; 20];
    inner.copy_from_slice(&HashAlgorithm::Sha1.digest(data));
    HexString { inner }
}

fn file(name: &str, data: &[u8], kind: ProjectFileType) -> ProjectFile {
    ProjectFile {
        hashes: ProjectFileHashes { sha1: Some(sha1_hex(data)), sha512: None },
        url: format!("https://cdn.example.invalid/{name}"),
        filename: name.to_string(),
        size: data.len() as u64,
        file_type: kind,
    }
}

fn installed(id: &str, file_name: &str, data: &[u8]) -> ModMetadata {
    ModMetadata {
        id: id.to_string(),
        name: format!("{id}-slug"),
        file_name: file_name.to_string(),
        hash: HashWithAlgorithm::of_data(HashAlgorithm::Sha1, data),
        provider: ModProvider::Modrinth,
    }
}

#[test]
fn filename_conflict_with_other_mod() {
    let meta = InstanceMetadata {
        loader: ModLoader::Fabric,
        minecraft_version: "1.20.4".to_string(),
        mods: vec![installed("AAAA", "shared.jar", b"one")],
    };
    let f = file("shared.jar", b"two", ProjectFileType::Regular);
    match check_installed(&meta.mods, "BBBB", &f) {
        Err(AddModError::Conflict { id, name, file_name }) => {
            assert_eq!(id, "AAAA");
            assert_eq!(name, "AAAA-slug");
            assert_eq!(file_name, "shared.jar");
        }
        other => panic!("expected a conflict, got {other:?}"),
    }
    assert_eq!(meta.mods.len(), 1);
    assert_eq!(meta.mods[0].id, "AAAA");
}

#[test]
fn same_file_is_already_up_to_date() {
    let mods = vec![installed("AAAA", "a.jar", b"one")];
    let f = file("a.jar", b"one", ProjectFileType::Regular);
    assert!(matches!(check_installed(&mods, "AAAA", &f), Err(AddModError::AlreadyUpToDate)));
}

#[test]
fn new_file_of_installed_mod_is_an_update() {
    let mods = vec![installed("CCCC", "c.jar", b"c"), installed("AAAA", "a-1.jar", b"one")];
    let f = file("a-2.jar", b"two", ProjectFileType::Regular);
    assert_eq!(check_installed(&mods, "AAAA", &f).unwrap(), Some(1));
    assert_eq!(stale_mod_file(Some(&mods[1]), "a-2.jar"), Some("a-1.jar".to_string()));
    assert_eq!(stale_mod_file(Some(&mods[1]), "a-1.jar"), None);
    assert_eq!(stale_mod_file(None, "a-2.jar"), None);
    assert_eq!(check_installed(&mods, "DDDD", &file("d.jar", b"d", ProjectFileType::Regular)).unwrap(), None);
}

#[test]
fn recording_a_mod_replaces_its_entry() {
    let mut meta = InstanceMetadata::new(ModLoader::Fabric, "1.20.4".to_string());
    assert!(meta.mods.is_empty());
    add_mod(&mut meta, installed("AAAA", "a-1.jar", b"one"));
    add_mod(&mut meta, installed("BBBB", "b.jar", b"b"));
    add_mod(&mut meta, installed("AAAA", "a-2.jar", b"two"));
    let ids: Vec<&str> = meta.mods.iter().map(|m| m.id.as_str()).collect();
    assert_eq!(ids, vec!["BBBB", "AAAA"]);
    assert_eq!(meta.mods[1].file_name, "a-2.jar");
    assert_eq!(instance_metadata_file_name(), ".mcserver_metadata.json");
}

#[test]
fn slug_gate() {
    assert!(is_valid_slug("sodium"));
    assert!(is_valid_slug("fabric-api"));
    assert!(!is_valid_slug("ab"));
    assert!(!is_valid_slug(&"a".repeat(65)));
    assert!(is_valid_slug(&"a".repeat(64)));
    assert!(!is_valid_slug("has space"));
    assert!(!is_valid_slug("über"));
}

fn hit(slug: &str, side: SideRequirement) -> SearchHit {
    SearchHit {
        slug: slug.to_string(),
        title: slug.to_string(),
        description: String::new(),
        server_side: side,
        project_type: ProjectType::Mod,
        project_id: slug.to_string(),
        author: "someone".to_string(),
    }
}

#[test]
fn client_only_hits_go_last() {
    let hits = vec![
        hit("a", SideRequirement::Unsupported),
        hit("b", SideRequirement::Required),
        hit("c", SideRequirement::Unsupported),
        hit("d", SideRequirement::Optional),
    ];
    let ranked: Vec<String> = rank_hits(hits).into_iter().map(|h| h.slug).collect();
    assert_eq!(ranked, vec!["b", "d", "a", "c"]);
}

fn version(name: &str, seconds: i64, files: Vec<ProjectFile>) -> ProjectVersion {
    ProjectVersion {
        name: name.to_string(),
        version_number: name.to_string(),
        date_published: Timestamp::from_unix_seconds(seconds),
        files,
    }
}

#[test]
fn newest_version_with_regular_file_is_chosen() {
    let vs = vec![
        version("old", 100, vec![file("old.jar", b"o", ProjectFileType::Regular)]),
        version("newest", 300, vec![file("pack.zip", b"p", ProjectFileType::RequiredResourcePack)]),
        version("new", 200, vec![
            file("res.zip", b"r", ProjectFileType::OptionalResourcePack),
            file("new.jar", b"n", ProjectFileType::Regular),
        ]),
        version("new-twin", 200, vec![file("twin.jar", b"t", ProjectFileType::Regular)]),
    ];
    assert_eq!(choose_version_file(&vs).unwrap(), (2, 1));
}

#[test]
fn no_version_or_no_file() {
    assert!(matches!(choose_version_file(&vec![]), Err(AddModError::NoMatchingVersions)));
    let vs = vec![version("v", 1, vec![file("x.zip", b"x", ProjectFileType::Unknown)])];
    assert!(matches!(choose_version_file(&vs), Err(AddModError::NoMatchingFiles)));
}

#[test]
fn hash_preference_and_recorded_hash() {
    let mut f = file("a.jar", b"data", ProjectFileType::Regular);
    let p = preferred_hash(&f.hashes).unwrap();
    assert_eq!(p.algorithm, HashAlgorithm::Sha1);
    let mut inner = [0u8; 64];
    inner.copy_from_slice(&HashAlgorithm::Sha512.digest(b"data"));
    f.hashes.sha512 = Some(HexString { inner });
    let p = preferred_hash(&f.hashes).unwrap();
    assert_eq!(p.algorithm, HashAlgorithm::Sha512);
    assert_eq!(p.hash, HashAlgorithm::Sha512.digest(b"data"));
    f.hashes = ProjectFileHashes { sha1: None, sha512: None };
    assert!(preferred_hash(&f.hashes).is_none());
    let r = recorded_hash(None, b"data");
    assert_eq!(r.algorithm, HashAlgorithm::Sha512);
    assert_eq!(r.hash, HashAlgorithm::Sha512.digest(b"data"));
    let pinned = HashWithAlgorithm::of_data(HashAlgorithm::Sha1, b"data");
    assert_eq!(recorded_hash(Some(pinned.clone()), b"other").hash, pinned.hash);
    let m = installed_mod("sodium".to_string(), "AANobbMI".to_string(), "sodium.jar".to_string(), r);
    assert_eq!(m.provider, ModProvider::Modrinth);
    assert_eq!(m.name, "sodium");
}

#[test]
fn game_version_support() {
    let listed = vec!["1.20.4".to_string(), "1.20.3".to_string()];
    assert!(matches!(check_game_version(&listed, "1.20.4", false), Ok(true)));
    assert!(matches!(check_game_version(&vec![], "1.20.4", false), Ok(true)));
    assert!(matches!(check_game_version(&listed, "1.19", true), Ok(false)));
    assert!(matches!(check_game_version(&listed, "1.19", false), Err(AddModError::UnsupportedGameVersion)));
}

#[test]
fn modrinth_queries() {
    assert_eq!(project_url("fabric-api"), "https://api.modrinth.com/v2/project/fabric-api");
    assert_eq!(members_url("a b"), "https://api.modrinth.com/v2/project/a%20b/members");
    assert_eq!(search_facets(ModLoader::Fabric), "[[\"categories:fabric\"],[\"project_type:mod\"]]");
    assert_eq!(loaders_query(ModLoader::Paper), "[\"paper\"]");
    assert_eq!(game_versions_query("1.20\"x\\"), "[\"1.20\\\"x\\\\\"]");
}

#[test]
fn provider_choice() {
    assert_eq!(choose_provider(Some(ModProvider::Modrinth), ModLoader::Vanilla), Ok(ModProvider::Modrinth));
    assert_eq!(choose_provider(None, ModLoader::Fabric), Ok(ModProvider::Modrinth));
    assert_eq!(choose_provider(None, ModLoader::Vanilla), Err(ProviderError::NoModsOnLoader(ModLoader::Vanilla)));
}

fn new_command(loader: ModLoader, fabric: Option<&str>, paper: Option<u32>) -> NewCommand {
    NewCommand {
        name: "srv".to_string(),
        version: None,
        custom_java_exe: None,
        skip_java_check: false,
        eula: false,
        config_template: "tpl".to_string(),
        loader,
        fabric_loader_version: fabric.map(|s| s.to_string()),
        paper_build: paper,
    }
}

#[test]
fn command_validation() {
    let ok = Cli { command: Command::New(new_command(ModLoader::Fabric, Some("0.15.6"), None)) };
    assert_eq!(ok.validate(), Ok(()));
    let bad = Cli { command: Command::New(new_command(ModLoader::Vanilla, Some("0.15.6"), None)) };
    assert_eq!(bad.validate(), Err(CliError::FabricVersionWithoutFabric));
    let bad = Cli { command: Command::New(new_command(ModLoader::Fabric, None, Some(3))) };
    assert_eq!(bad.validate(), Err(CliError::PaperBuildWithoutPaper));
    let add = Cli {
        command: Command::Add(AddCommand { name: "x".to_string(), provider: None, force_search: false, skip_version_check: false }),
    };
    assert_eq!(add.validate(), Ok(()));
}

#[test]
fn numbered_choice_answers() {
    assert_eq!(parse_selection("\n", 3), Selection::Default);
    assert_eq!(parse_selection(" 2 \n", 3), Selection::Pick(1));
    assert_eq!(parse_selection("+3", 3), Selection::Pick(2));
    assert_eq!(parse_selection("4", 3), Selection::Invalid);
    assert_eq!(parse_selection("0", 3), Selection::Invalid);
    assert_eq!(parse_selection("two", 3), Selection::Invalid);
    assert_eq!(parse_selection("99999999999999999999999", 3), Selection::Invalid);
}

#[test]
fn java_checks_for_new_instances() {
    assert_eq!(check_custom_java(17, 17, false), Ok(()));
    assert_eq!(check_custom_java(8, 17, false), Err(JavaCheckError::Incompatible { found: 8, required: 17 }));
    assert_eq!(check_custom_java(8, 17, true), Ok(()));
    assert!(newer_than_recommended(21, 17, false));
    assert!(!newer_than_recommended(21, 17, true));
}

#[test]
fn search_hit_text() {
    let mut h = hit("sodium", SideRequirement::Unsupported);
    h.description = "fast".to_string();
    assert_eq!(
        h.describe(mcserver::platform::OsFamily::OtherUnix),
        "sodium (sodium) by someone\n   fast\n   warning: client-side only"
    );
    let plain = hit("lithium", SideRequirement::Required);
    assert_eq!(plain.describe(mcserver::platform::OsFamily::Windows), "lithium (lithium) by someone");
}

fn ids_and_files(meta: &InstanceMetadata) -> Vec<(String, String)> {
    meta.mods.iter().map(|m| (m.id.clone(), m.file_name.clone())).collect()
}

#[test]
fn recording_a_conflicting_mod_fails_and_changes_nothing() {
    let mut meta = InstanceMetadata {
        loader: ModLoader::Fabric,
        minecraft_version: "1.20.4".to_string(),
        mods: vec![installed("AAAA", "shared.jar", b"one")],
    };
    let f = file("shared.jar", b"two", ProjectFileType::Regular);
    let hash = HashWithAlgorithm::of_data(HashAlgorithm::Sha1, b"two");
    let r = mcserver::mod_provider::modrinth::record_resolved_mod(&mut meta, "b".to_string(), "BBBB".to_string(), &f, hash);
    assert!(matches!(r, Err(AddModError::Conflict { ref id, .. }) if id == "AAAA"));
    assert_eq!(ids_and_files(&meta), vec![("AAAA".to_string(), "shared.jar".to_string())]);
    assert_eq!(meta.mods[0].hash.hash, HashAlgorithm::Sha1.digest(b"one"));
}

#[test]
fn recording_an_update_replaces_the_entry_and_names_the_old_file() {
    let mut meta = InstanceMetadata {
        loader: ModLoader::Fabric,
        minecraft_version: "1.20.4".to_string(),
        mods: vec![installed("AAAA", "a-1.jar", b"one"), installed("CCCC", "c.jar", b"c")],
    };
    let f = file("a-2.jar", b"two", ProjectFileType::Regular);
    let hash = HashWithAlgorithm::of_data(HashAlgorithm::Sha1, b"two");
    let r = mcserver::mod_provider::modrinth::record_resolved_mod(&mut meta, "a".to_string(), "AAAA".to_string(), &f, hash);
    assert_eq!(r.unwrap(), Some("a-1.jar".to_string()));
    assert_eq!(
        ids_and_files(&meta),
        vec![("CCCC".to_string(), "c.jar".to_string()), ("AAAA".to_string(), "a-2.jar".to_string())]
    );
    let same = file("a-2.jar", b"two", ProjectFileType::Regular);
    let hash = HashWithAlgorithm::of_data(HashAlgorithm::Sha1, b"two");
    let r = mcserver::mod_provider::modrinth::record_resolved_mod(&mut meta, "a".to_string(), "AAAA".to_string(), &same, hash);
    assert!(matches!(r, Err(AddModError::AlreadyUpToDate)));
    assert_eq!(meta.mods.len(), 2);
}
