use vstd::prelude::*;
use crate::hashing::{digest_of, HashAlgorithm, HexString};
use crate::ioutil::{check_downloaded, is_success, plan_verified_download, DownloadAction, FetchError};

verus! {

/// An instant, as nanoseconds since the Unix epoch.
#[derive(Debug, Clone, Copy, PartialEq, Eq, Structural)]
pub struct Timestamp {
    pub unix_nanos: i128,
}

pub uninterp spec fn iso8601_unix_nanos(s: Seq<char>) -> Option<int>;

/// Relies on `time::OffsetDateTime::parse` with the ISO 8601 format
/// description, and on `unix_timestamp_nanos`: the instant that the text
/// names, or nothing when it is no ISO 8601 date and time.
#[verifier::external_body]
fn parse_iso8601_nanos(s: &str) -> (r: Option<i128>)
    ensures
        match r {
            Some(n) => iso8601_unix_nanos(s@) == Some(n as int),
            None => iso8601_unix_nanos(s@) is None,
        },
{
    time::OffsetDateTime::parse(s, &time::format_description::well_known::Iso8601::DEFAULT).ok().map(
        |t| t.unix_timestamp_nanos(),
    )
}

impl Timestamp {
    /// The instant at a whole number of seconds after the epoch.
    pub fn from_unix_seconds(seconds: i64) -> (r: Timestamp)
        ensures
            r.unix_nanos == seconds * 1_000_000_000,
    {
        Timestamp { unix_nanos: seconds as i128 * 1_000_000_000 }
    }

    /// Reads an ISO 8601 date and time, such as `2016-01-01T00:00:00+00:00`.
    pub fn parse_iso8601(s: &str) -> (r: Option<Timestamp>)
        ensures
            match r {
                Some(t) => iso8601_unix_nanos(s@) == Some(t.unix_nanos as int),
                None => iso8601_unix_nanos(s@) is None,
            },
    {
        match parse_iso8601_nanos(s) {
            Some(n) => Some(Timestamp { unix_nanos: n }),
            None => None,
        }
    }
}

/// The newest release and snapshot.
#[derive(Debug, Clone)]
pub struct LatestVersions {
    pub release: String,
    pub snapshot: String,
}

/// The kind of a game version.
#[derive(Debug, Clone, Copy, PartialEq, Eq, Structural)]
pub enum VersionType {
    Release,
    Snapshot,
    OldBeta,
    OldAlpha,
    Other,
}

/// One entry of the version manifest.
#[derive(Debug)]
pub struct ManifestVersion {
    pub id: String,
    pub typ: VersionType,
    pub url: String,
    pub release_time: Timestamp,
    pub sha1: HexString<20>,
}

/// The index of all game versions.
#[derive(Debug)]
pub struct Manifest {
    pub latest: LatestVersions,
    pub versions: Vec<ManifestVersion>,
}

/// The version that was asked for, or the latest release.
pub open spec fn wanted_version(m: Manifest, requested: Option<Seq<char>>) -> Seq<char> {
    match requested {
        Some(r) => r,
        None => m.latest.release@,
    }
}

impl Manifest {
    /// The index of the first entry whose id is the requested version (the
    /// latest release when none is requested), if there is one.
    pub fn find_version(&self, requested: Option<&str>) -> (r: Option<usize>)
        ensures
            match r {
                Some(k) => k < self.versions@.len() && self.versions@[k as int].id@ == wanted_version(
                    *self,
                    match requested {
                        Some(s) => Some(s@),
                        None => None,
                    },
                ) && forall|j: int| 0 <= j < k ==> (#[trigger] self.versions@[j]).id@ != wanted_version(
                    *self,
                    match requested {
                        Some(s) => Some(s@),
                        None => None,
                    },
                ),
                None => forall|j: int| 0 <= j < self.versions@.len() ==> (#[trigger] self.versions@[j]).id@
                    != wanted_version(
                    *self,
                    match requested {
                        Some(s) => Some(s@),
                        None => None,
                    },
                ),
            },
    {
        let wanted = match requested {
            Some(s) => String::from_str(s),
            None => self.latest.release.clone(),
        };
        let mut i: usize = 0;
        while i < self.versions.len()
            invariant
                i <= self.versions@.len(),
                wanted@ == wanted_version(
                    *self,
                    match requested {
                        Some(s) => Some(s@),
                        None => None,
                    },
                ),
                forall|j: int| 0 <= j < i ==> (#[trigger] self.versions@[j]).id@ != wanted@,
            decreases self.versions@.len() - i,
        {
            if self.versions[i].id == wanted {
                return Some(i);
            }
            i = i + 1;
        }
        None
    }
}

impl ManifestVersion {
    /// Whether the cached metadata file can be used: it exists and has the
    /// SHA-1 digest that the manifest lists.
    pub fn cached_metadata_valid(&self, cached: Option<&[u8]>) -> (r: bool)
        ensures
            r == (cached is Some && digest_of(HashAlgorithm::Sha1, cached->Some_0@) == self.sha1.inner@),
    {
        plan_verified_download(HashAlgorithm::Sha1, cached, self.sha1.inner.as_slice()) == DownloadAction::Skip
    }

    /// Checks a fetched metadata file: the status must be a success and the
    /// body must have the listed SHA-1 digest.
    pub fn check_fetched_metadata(&self, status: u16, body: &[u8]) -> (r: Result<(), FetchError>)
        ensures
            !is_success(status) ==> r == Err::<(), FetchError>(FetchError::HttpStatus(status)),
            is_success(status) ==> (r is Ok <==> digest_of(HashAlgorithm::Sha1, body@) == self.sha1.inner@),
            is_success(status) && r is Err ==> r == Err::<(), FetchError>(FetchError::HashMismatch),
    {
        if !(200 <= status && status <= 299) {
            return Err(FetchError::HttpStatus(status));
        }
        check_downloaded(HashAlgorithm::Sha1, body, self.sha1.inner.as_slice())
    }
}

/// The server download of a game version.
#[derive(Debug)]
pub struct VersionDownload {
    pub sha1: HexString<20>,
    pub size: u64,
    pub url: String,
}

impl VersionDownload {
    /// Whether the server jar must be fetched, given the file already on disk.
    pub fn plan(&self, existing: Option<&[u8]>) -> (r: DownloadAction)
        ensures
            r == DownloadAction::Skip <==> (existing is Some && digest_of(HashAlgorithm::Sha1, existing->Some_0@)
                == self.sha1.inner@),
    {
        plan_verified_download(HashAlgorithm::Sha1, existing, self.sha1.inner.as_slice())
    }

    /// Checks a downloaded server jar against its digest.
    pub fn check(&self, data: &[u8]) -> (r: Result<(), FetchError>)
        ensures
            r is Ok <==> digest_of(HashAlgorithm::Sha1, data@) == self.sha1.inner@,
            r is Err ==> r == Err::<(), FetchError>(FetchError::HashMismatch),
    {
        check_downloaded(HashAlgorithm::Sha1, data, self.sha1.inner.as_slice())
    }
}

/// The downloads of a game version.
#[derive(Debug)]
pub struct VersionDownloads {
    pub server: Option<VersionDownload>,
}

/// The Java that a game version needs.
#[derive(Debug, Clone, Copy, PartialEq, Eq, Structural)]
pub struct JavaVersion {
    pub major_version: u32,
}

/// The metadata of one game version.
#[derive(Debug)]
pub struct Version {
    pub downloads: VersionDownloads,
    pub java_version: JavaVersion,
}

} // verus!
