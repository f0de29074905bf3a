use mcserver::hashing::{HashAlgorithm, HexString};
use mcserver::ioutil::{
    check_downloaded, etag_file_name, fetch_outcome, plan_verified_download, request_etag,
    CacheState, DownloadAction, DownloadProgress, FetchError, FetchOutcome, PersistStep,
};
use mcserver::mojang::{
    JavaVersion, LatestVersions, Manifest, ManifestVersion, Timestamp, VersionDownload, VersionType,
};

fn persist(state: &mut CacheState, outcome: FetchOutcome) -> Option<Vec<u8>> {
    match outcome {
        FetchOutcome::Persist(steps) => {
            let mut body = None;
            for s in steps {
                if let PersistStep::WriteBody(b) = &s {
                    body = Some(b.clone());
                }
                state.apply(s);
            }
            body
        }
        _ => None,
    }
}

#[test]
fn conditional_fetch_then_not_modified() {
    let mut cache = CacheState { body: None, etag: None };
    assert_eq!(request_etag(&cache), None);
    let first = fetch_outcome(200, false, b"{\"a\":1}".to_vec(), Some(b"\"v1\"".to_vec()));
    let body = persist(&mut cache, first).unwrap();
    assert_eq!(cache.body.as_deref(), Some(&b"{\"a\":1}"[..]));
    assert_eq!(cache.etag.as_deref(), Some(&b"\"v1\""[..]));
    assert_eq!(request_etag(&cache), Some(b"\"v1\"".to_vec()));
    let second = fetch_outcome(304, cache.body.is_some(), Vec::new(), None);
    assert!(matches!(second, FetchOutcome::UseCached));
    assert_eq!(cache.body.as_deref(), Some(&body[..]));
}

#[test]
fn persist_steps_write_the_etag_last() {
    match fetch_outcome(200, false, vec![1, 2], Some(vec![9])) {
        FetchOutcome::Persist(steps) => {
            assert_eq!(steps.len(), 4);
            assert!(matches!(&steps[0], PersistStep::WriteEtag(e) if e.is_empty()));
            assert!(matches!(&steps[1], PersistStep::WriteBody(b) if b == &vec![1, 2]));
            assert!(matches!(&steps[2], PersistStep::Decode));
            assert!(matches!(&steps[3], PersistStep::WriteEtag(e) if e == &vec![9]));
        }
        _ => panic!("expected the response to be stored"),
    }
    match fetch_outcome(200, true, vec![1], None) {
        FetchOutcome::Persist(steps) => assert_eq!(steps.len(), 3),
        _ => panic!("expected the response to be stored"),
    }
}

#[test]
fn failed_status_is_an_error() {
    assert!(matches!(fetch_outcome(404, true, vec![], None), FetchOutcome::Fail(FetchError::HttpStatus(404))));
    assert!(matches!(fetch_outcome(500, false, vec![], None), FetchOutcome::Fail(FetchError::HttpStatus(500))));
}

#[test]
fn not_modified_without_cached_file_is_stored() {
    assert!(matches!(fetch_outcome(304, false, vec![], None), FetchOutcome::Persist(_)));
}

#[test]
fn etag_sidecar_name() {
    assert_eq!(etag_file_name("versions.json"), "versions.json.etag");
}

#[test]
fn verified_download_skips_a_good_file() {
    let expected = HashAlgorithm::Sha1.digest(b"jar bytes");
    assert_eq!(plan_verified_download(HashAlgorithm::Sha1, Some(b"jar bytes"), &expected), DownloadAction::Skip);
}

#[test]
fn verified_download_fetches_over_a_bad_file() {
    let expected = HashAlgorithm::Sha1.digest(b"jar bytes");
    assert_eq!(plan_verified_download(HashAlgorithm::Sha1, Some(b"corrupt"), &expected), DownloadAction::Download);
    assert_eq!(plan_verified_download(HashAlgorithm::Sha1, None, &expected), DownloadAction::Download);
    assert_eq!(check_downloaded(HashAlgorithm::Sha1, b"still corrupt", &expected), Err(FetchError::HashMismatch));
    assert_eq!(check_downloaded(HashAlgorithm::Sha1, b"jar bytes", &expected), Ok(()));
}

#[test]
fn progress_counts_bytes() {
    let mut p = DownloadProgress::new();
    assert_eq!(p.add_chunk(8192), 8192);
    assert_eq!(p.add_chunk(100), 8292);
}

fn sha1_of(data: &[u8]) -> HexString<20> {
    let d = HashAlgorithm::Sha1.digest(data);
    let mut inner = [0u8; 20];
    inner.copy_from_slice(&d);
    HexString { inner }
}

fn manifest_version(id: &str, metadata: &[u8]) -> ManifestVersion {
    ManifestVersion {
        id: id.to_string(),
        typ: VersionType::Release,
        url: format!("https://example.invalid/{id}.json"),
        release_time: Timestamp::from_unix_seconds(1451606400),
        sha1: sha1_of(metadata),
    }
}

#[test]
fn manifest_lookup() {
    let m = Manifest {
        latest: LatestVersions { release: "1.20.4".to_string(), snapshot: "24w01a".to_string() },
        versions: vec![manifest_version("24w01a", b"x"), manifest_version("1.20.4", b"y")],
    };
    assert_eq!(m.find_version(None), Some(1));
    assert_eq!(m.find_version(Some("24w01a")), Some(0));
    assert_eq!(m.find_version(Some("0.0")), None);
}

#[test]
fn metadata_cache_and_fetch_checks() {
    let mv = manifest_version("1.20.4", b"metadata");
    assert!(mv.cached_metadata_valid(Some(b"metadata")));
    assert!(!mv.cached_metadata_valid(Some(b"other")));
    assert!(!mv.cached_metadata_valid(None));
    assert_eq!(mv.check_fetched_metadata(200, b"metadata"), Ok(()));
    assert_eq!(mv.check_fetched_metadata(200, b"other"), Err(FetchError::HashMismatch));
    assert_eq!(mv.check_fetched_metadata(503, b"metadata"), Err(FetchError::HttpStatus(503)));
}

#[test]
fn server_download_checks() {
    let d = VersionDownload { sha1: sha1_of(b"server"), size: 6, url: "https://example.invalid/s.jar".to_string() };
    assert_eq!(d.plan(Some(b"server")), DownloadAction::Skip);
    assert_eq!(d.plan(Some(b"serve")), DownloadAction::Download);
    assert_eq!(d.check(b"server"), Ok(()));
    assert_eq!(d.check(b"x"), Err(FetchError::HashMismatch));
    assert_eq!(JavaVersion { major_version: 17 }.major_version, 17);
}

#[test]
fn iso8601_instants() {
    assert_eq!(Timestamp::parse_iso8601("2016-01-01T00:00:00+00:00"), Some(Timestamp::from_unix_seconds(1451606400)));
    assert_eq!(Timestamp::parse_iso8601("2022-01-01T01:00:00+01:00"), Some(Timestamp::from_unix_seconds(1640995200)));
    assert_eq!(Timestamp::parse_iso8601("yesterday"), None);
}
