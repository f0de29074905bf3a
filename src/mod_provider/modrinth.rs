use vstd::prelude::*;
use vstd::string::StringSliceAdditionalSpecFns;
use crate::hashing::{bytes_equal, digest_of, HashAlgorithm, HashWithAlgorithm, HexString};
use crate::instance::{InstanceMetadata, ModMetadata};
use crate::commands::add::{add_mod, without_id};
use crate::mod_loader::ModLoader;
use crate::mod_provider::ModProvider;
use crate::mojang::Timestamp;
use crate::platform::OsFamily;
use crate::text::{push_char, push_str, url_encode, url_encoded};

verus! {

/// Why adding a mod stopped.
#[derive(Debug, Clone)]
pub enum AddModError {
    /// No project has that name, and a search found nothing to choose.
    NotFound,
    /// The project does not list the instance's game version.
    UnsupportedGameVersion,
    /// The project has no version for this loader and game version.
    NoMatchingVersions,
    /// No version has a regular file.
    NoMatchingFiles,
    /// The loader takes no mods.
    NoModsFolder,
    /// The same file is already installed.
    AlreadyUpToDate,
    /// Another installed mod already has the file name.
    Conflict { id: String, name: String, file_name: String },
}

pub open spec fn is_slug_char(c: char) -> bool {
    ('0' <= c && c <= '9') || ('a' <= c && c <= 'z') || ('A' <= c && c <= 'Z') || c == '!' || c
        == '@' || c == '$' || c == '(' || c == ')' || c == '`' || c == '.' || c == '+' || c == ','
        || c == '"' || c == '\\' || c == '-' || c == '\''
}

/// Whether a name can be a project slug: 3 to 64 characters, each a letter,
/// a digit or one of ``!@$()`.+,"\-'``.
pub fn is_valid_slug(slug: &str) -> (r: bool)
    ensures
        r == (3 <= slug@.len() <= 64 && forall|i: int| 0 <= i < slug@.len() ==> is_slug_char(#[trigger] slug@[i])),
{
    let n = slug.unicode_len();
    if n < 3 || n > 64 {
        return false;
    }
    let mut i: usize = 0;
    while i < n
        invariant
            n == slug@.len(),
            i <= n,
            forall|k: int| 0 <= k < i ==> is_slug_char(#[trigger] slug@[k]),
        decreases n - i,
    {
        let c = slug.get_char(i);
        if !(('0' <= c && c <= '9') || ('a' <= c && c <= 'z') || ('A' <= c && c <= 'Z') || c == '!'
            || c == '@' || c == '$' || c == '(' || c == ')' || c == '`' || c == '.' || c == '+' || c
            == ',' || c == '"' || c == '\\' || c == '-' || c == '\'') {
            return false;
        }
        i = i + 1;
    }
    true
}

/// Whether a project runs on servers.
#[derive(Debug, Clone, Copy, PartialEq, Eq, Structural)]
pub enum SideRequirement {
    Required,
    Optional,
    Unsupported,
    Unknown,
}

/// The kind of a project.
#[derive(Debug, Clone, Copy, PartialEq, Eq, Structural)]
pub enum ProjectType {
    Mod,
    Modpack,
    Resourcepack,
    Shader,
    Unknown,
}

/// One result of a search.
#[derive(Debug, Clone)]
pub struct SearchHit {
    pub slug: String,
    pub title: String,
    pub description: String,
    pub server_side: SideRequirement,
    pub project_type: ProjectType,
    pub project_id: String,
    pub author: String,
}

impl SearchHit {
    /// How the hit is shown when choosing: `<slug> (<title>) by <author>`,
    /// then the description and a warning for client-only mods, each on a
    /// line of its own.
    pub fn describe(&self, os: OsFamily) -> (r: String)
        ensures
            r@ == self.slug@ + " ("@ + self.title@ + ") by "@ + self.author@ + (if self.description@.len() > 0 {
                os.spec_line_ending() + "   "@ + self.description@
            } else {
                Seq::empty()
            }) + (if self.server_side == SideRequirement::Unsupported {
                os.spec_line_ending() + "   warning: client-side only"@
            } else {
                Seq::empty()
            }),
    {
        let mut r = self.slug.clone();
        push_str(&mut r, " (");
        push_str(&mut r, self.title.as_str());
        push_str(&mut r, ") by ");
        push_str(&mut r, self.author.as_str());
        let ghost head = r@;
        if self.description.as_str().unicode_len() > 0 {
            push_str(&mut r, os.line_ending());
            push_str(&mut r, "   ");
            push_str(&mut r, self.description.as_str());
        }
        let ghost mid = r@;
        if self.server_side == SideRequirement::Unsupported {
            push_str(&mut r, os.line_ending());
            push_str(&mut r, "   warning: client-side only");
        }
        assert(r@ =~= head + (if self.description@.len() > 0 {
            os.spec_line_ending() + "   "@ + self.description@
        } else {
            Seq::empty()
        }) + (if self.server_side == SideRequirement::Unsupported {
            os.spec_line_ending() + "   warning: client-side only"@
        } else {
            Seq::empty()
        }));
        r
    }
}

pub open spec fn hits_with(s: Seq<SearchHit>, unsupported: bool) -> Seq<SearchHit>
    decreases s.len(),
{
    if s.len() == 0 {
        s
    } else {
        let rest = hits_with(s.drop_last(), unsupported);
        if (s.last().server_side == SideRequirement::Unsupported) == unsupported {
            rest.push(s.last())
        } else {
            rest
        }
    }
}

/// Orders search results for choosing: those that can run on a server
/// first, the client-only ones last, each group in the order it came in.
pub fn rank_hits(hits: Vec<SearchHit>) -> (r: Vec<SearchHit>)
    ensures
        r@ == hits_with(hits@, false) + hits_with(hits@, true),
{
    let mut rest = hits;
    let ghost all = rest@;
    let n = rest.len();
    let mut first: Vec<SearchHit> = Vec::new();
    let mut last: Vec<SearchHit> = Vec::new();
    let mut i: usize = 0;
    while rest.len() > 0
        invariant
            n == all.len(),
            i <= n,
            rest@ == all.subrange(i as int, n as int),
            first@ == hits_with(all.subrange(0, i as int), false),
            last@ == hits_with(all.subrange(0, i as int), true),
        decreases rest@.len(),
    {
        assert(i < n);
        let h = rest.remove(0);
        proof {
            assert(rest@ =~= all.subrange(i + 1, n as int));
            assert(all.subrange(0, i + 1).drop_last() =~= all.subrange(0, i as int));
            assert(all.subrange(0, i + 1).last() == h);
        }
        if h.server_side == SideRequirement::Unsupported {
            last.push(h);
        } else {
            first.push(h);
        }
        i = i + 1;
    }
    assert(all.subrange(0, n as int) =~= all);
    first.append(&mut last);
    first
}

/// The kind of a file of a version.
#[derive(Debug, Clone, Copy, PartialEq, Eq, Structural)]
pub enum ProjectFileType {
    Regular,
    RequiredResourcePack,
    OptionalResourcePack,
    Unknown,
}

/// The digests that the provider lists for a file.
#[derive(Debug)]
pub struct ProjectFileHashes {
    pub sha1: Option<HexString<20>>,
    pub sha512: Option<HexString<64>>,
}

/// A downloadable file of a version.
#[derive(Debug)]
pub struct ProjectFile {
    pub hashes: ProjectFileHashes,
    pub url: String,
    pub filename: String,
    pub size: u64,
    pub file_type: ProjectFileType,
}

/// One published version of a project.
#[derive(Debug)]
pub struct ProjectVersion {
    pub name: String,
    pub version_number: String,
    pub date_published: Timestamp,
    pub files: Vec<ProjectFile>,
}

pub open spec fn has_regular_file(v: ProjectVersion) -> bool {
    exists|k: int| 0 <= k < v.files@.len() && (#[trigger] v.files@[k]).file_type == ProjectFileType::Regular
}

/// `k` is the first regular file of `v`.
pub open spec fn is_first_regular(v: ProjectVersion, k: int) -> bool {
    0 <= k < v.files@.len() && v.files@[k].file_type == ProjectFileType::Regular && forall|j: int|
        0 <= j < k ==> (#[trigger] v.files@[j]).file_type != ProjectFileType::Regular
}

/// `i` is the version to install: among those with a regular file, the
/// most recently published, and of equally recent ones the first listed.
pub open spec fn is_chosen_version(vs: Seq<ProjectVersion>, i: int) -> bool {
    &&& 0 <= i < vs.len()
    &&& has_regular_file(vs[i])
    &&& forall|j: int| 0 <= j < vs.len() && has_regular_file(#[trigger] vs[j]) ==> (vs[j].date_published.unix_nanos
        < vs[i].date_published.unix_nanos || (vs[j].date_published.unix_nanos == vs[i].date_published.unix_nanos
        && j >= i))
}

fn first_regular(v: &ProjectVersion) -> (r: Option<usize>)
    ensures
        match r {
            Some(k) => is_first_regular(*v, k as int),
            None => !has_regular_file(*v),
        },
{
    let mut k: usize = 0;
    while k < v.files.len()
        invariant
            k <= v.files@.len(),
            forall|j: int| 0 <= j < k ==> (#[trigger] v.files@[j]).file_type != ProjectFileType::Regular,
        decreases v.files@.len() - k,
    {
        if v.files[k].file_type == ProjectFileType::Regular {
            return Some(k);
        }
        k = k + 1;
    }
    None
}

/// The version and file to install: the newest version that has a regular
/// file (the first listed among equally new ones), and its first regular file.
pub fn choose_version_file(versions: &Vec<ProjectVersion>) -> (r: Result<(usize, usize), AddModError>)
    ensures
        versions@.len() == 0 ==> r matches Err(AddModError::NoMatchingVersions),
        versions@.len() > 0 && (forall|i: int| 0 <= i < versions@.len() ==> !has_regular_file(#[trigger] versions@[i]))
            ==> r matches Err(AddModError::NoMatchingFiles),
        r matches Ok((i, k)) ==> is_chosen_version(versions@, i as int) && is_first_regular(versions@[i as int], k as int),
        (exists|i: int| 0 <= i < versions@.len() && has_regular_file(#[trigger] versions@[i])) ==> r is Ok,
{
    if versions.len() == 0 {
        return Err(AddModError::NoMatchingVersions);
    }
    let mut best: Option<(usize, usize)> = None;
    let mut i: usize = 0;
    while i < versions.len()
        invariant
            i <= versions@.len(),
            match best {
                Some((b, k)) => b < i && is_first_regular(versions@[b as int], k as int) && forall|j: int|
                    0 <= j < i && has_regular_file(#[trigger] versions@[j]) ==> (versions@[j].date_published.unix_nanos
                    < versions@[b as int].date_published.unix_nanos || (versions@[j].date_published.unix_nanos
                    == versions@[b as int].date_published.unix_nanos && j >= b)),
                None => forall|j: int| 0 <= j < i ==> !has_regular_file(#[trigger] versions@[j]),
            },
        decreases versions@.len() - i,
    {
        match first_regular(&versions[i]) {
            Some(k) => {
                let replace = match best {
                    None => true,
                    Some((b, _)) => versions[i].date_published.unix_nanos > versions[b].date_published.unix_nanos,
                };
                if replace {
                    best = Some((i, k));
                }
            },
            None => {},
        }
        i = i + 1;
    }
    match best {
        Some(x) => Ok(x),
        None => Err(AddModError::NoMatchingFiles),
    }
}

/// The digest to pin a download to: SHA-512 when listed, else SHA-1.
pub fn preferred_hash(hashes: &ProjectFileHashes) -> (r: Option<HashWithAlgorithm>)
    ensures
        hashes.sha512 matches Some(h) ==> (r matches Some(p) && p.algorithm == HashAlgorithm::Sha512 && p.hash@ == h.inner@),
        hashes.sha512 is None ==> (hashes.sha1 matches Some(h) ==> (r matches Some(p) && p.algorithm == HashAlgorithm::Sha1
            && p.hash@ == h.inner@)),
        hashes.sha512 is None && hashes.sha1 is None ==> r is None,
        r matches Some(p) ==> p.wf(),
{
    match &hashes.sha512 {
        Some(h) => Some(HashWithAlgorithm { algorithm: HashAlgorithm::Sha512, hash: copy_bytes(h.inner.as_slice()) }),
        None => match &hashes.sha1 {
            Some(h) => Some(HashWithAlgorithm { algorithm: HashAlgorithm::Sha1, hash: copy_bytes(h.inner.as_slice()) }),
            None => None,
        },
    }
}

fn copy_bytes(b: &[u8]) -> (r: Vec<u8>)
    ensures
        r@ == b@,
{
    let mut r: Vec<u8> = Vec::new();
    let mut i: usize = 0;
    while i < b.len()
        invariant
            i <= b@.len(),
            r@ == b@.subrange(0, i as int),
        decreases b@.len() - i,
    {
        r.push(b[i]);
        i = i + 1;
    }
    r
}

/// The digest to record for a downloaded file: the pinned one when there
/// was one (the download was checked against it), else its SHA-512.
pub fn recorded_hash(pinned: Option<HashWithAlgorithm>, data: &[u8]) -> (r: HashWithAlgorithm)
    requires
        pinned matches Some(p) ==> p.wf(),
    ensures
        pinned matches Some(p) ==> r == p,
        pinned is None ==> r.algorithm == HashAlgorithm::Sha512 && r.hash@ == digest_of(HashAlgorithm::Sha512, data@),
        r.wf(),
{
    match pinned {
        Some(p) => p,
        None => HashWithAlgorithm::of_data(HashAlgorithm::Sha512, data),
    }
}

/// Whether a recorded digest is the one the provider lists for a file.
pub open spec fn same_hash(h: HashWithAlgorithm, f: ProjectFileHashes) -> bool {
    match h.algorithm {
        HashAlgorithm::Sha1 => f.sha1 matches Some(x) && x.inner@ == h.hash@,
        HashAlgorithm::Sha512 => f.sha512 matches Some(x) && x.inner@ == h.hash@,
        HashAlgorithm::Sha256 => false,
    }
}

fn same_hash_exec(h: &HashWithAlgorithm, f: &ProjectFileHashes) -> (r: bool)
    ensures
        r == same_hash(*h, *f),
{
    match h.algorithm {
        HashAlgorithm::Sha1 => match &f.sha1 {
            Some(x) => bytes_equal(x.inner.as_slice(), h.hash.as_slice()),
            None => false,
        },
        HashAlgorithm::Sha512 => match &f.sha512 {
            Some(x) => bytes_equal(x.inner.as_slice(), h.hash.as_slice()),
            None => false,
        },
        HashAlgorithm::Sha256 => false,
    }
}

/// `k` is the first installed entry of this project from this provider.
pub open spec fn is_existing(mods: Seq<ModMetadata>, project_id: Seq<char>, k: int) -> bool {
    0 <= k < mods.len() && mods[k].provider == ModProvider::Modrinth && mods[k].id@ == project_id
        && forall|j: int| 0 <= j < k ==> !((#[trigger] mods[j]).provider == ModProvider::Modrinth
        && mods[j].id@ == project_id)
}

/// `k` is the first installed mod of another project that has the file name.
pub open spec fn is_first_conflict(mods: Seq<ModMetadata>, project_id: Seq<char>, file_name: Seq<char>, k: int) -> bool {
    0 <= k < mods.len() && mods[k].id@ != project_id && mods[k].file_name@ == file_name && forall|j: int|
        0 <= j < k ==> !((#[trigger] mods[j]).id@ != project_id && mods[j].file_name@ == file_name)
}

pub open spec fn up_to_date(mods: Seq<ModMetadata>, project_id: Seq<char>, file: ProjectFile) -> bool {
    exists|k: int| is_existing(mods, project_id, k) && mods[k].file_name@ == file.filename@ && same_hash(mods[k].hash, file.hashes)
}

pub open spec fn has_conflict(mods: Seq<ModMetadata>, project_id: Seq<char>, file_name: Seq<char>) -> bool {
    exists|k: int| 0 <= k < mods.len() && (#[trigger] mods[k]).id@ != project_id && mods[k].file_name@ == file_name
}

/// Checks a resolved file against the installed mods. The same project with
/// the same file name and digest is already up to date; a file name held by
/// another project is a conflict; otherwise the index of the entry that the
/// new file updates, if any, is returned.
pub fn check_installed(mods: &Vec<ModMetadata>, project_id: &str, file: &ProjectFile) -> (r: Result<Option<usize>, AddModError>)
    ensures
        up_to_date(mods@, project_id@, *file) ==> r matches Err(AddModError::AlreadyUpToDate),
        !up_to_date(mods@, project_id@, *file) && has_conflict(mods@, project_id@, file.filename@) ==> (r matches Err(
            AddModError::Conflict { id, name, file_name },
        ) && exists|k: int| is_first_conflict(mods@, project_id@, file.filename@, k) && id@ == mods@[k].id@
            && name@ == mods@[k].name@ && file_name@ == mods@[k].file_name@),
        !up_to_date(mods@, project_id@, *file) && !has_conflict(mods@, project_id@, file.filename@) ==> (r matches Ok(e)
            && match e {
            Some(k) => is_existing(mods@, project_id@, k as int),
            None => forall|k: int| !is_existing(mods@, project_id@, k),
        }),
{
    let pid = String::from_str(project_id);
    let mut existing: Option<usize> = None;
    let mut i: usize = 0;
    while i < mods.len()
        invariant
            i <= mods@.len(),
            pid@ == project_id@,
            existing is None ==> forall|j: int| 0 <= j < i ==> !((#[trigger] mods@[j]).provider == ModProvider::Modrinth
                && mods@[j].id@ == project_id@),
            existing matches Some(k) ==> is_existing(mods@, project_id@, k as int),
        decreases mods@.len() - i,
    {
        if existing.is_none() && mods[i].provider == ModProvider::Modrinth && mods[i].id == pid {
            existing = Some(i);
        }
        i = i + 1;
    }
    proof {
        if existing is None {
            assert forall|k: int| !is_existing(mods@, project_id@, k) by {
                if is_existing(mods@, project_id@, k) {
                    assert(!((mods@[k]).provider == ModProvider::Modrinth && mods@[k].id@ == project_id@));
                }
            }
        }
    }
    match existing {
        Some(k) => {
            if mods[k].file_name == file.filename && same_hash_exec(&mods[k].hash, &file.hashes) {
                return Err(AddModError::AlreadyUpToDate);
            }
            proof {
                assert forall|k2: int| is_existing(mods@, project_id@, k2) implies k2 == k by {
                    if k2 < k {
                        assert(!((mods@[k2]).provider == ModProvider::Modrinth && mods@[k2].id@ == project_id@));
                    } else if k2 > k {
                        assert(!((mods@[k as int]).provider == ModProvider::Modrinth && mods@[k as int].id@ == project_id@));
                    }
                }
                assert(!up_to_date(mods@, project_id@, *file));
            }
        },
        None => {
            assert(!up_to_date(mods@, project_id@, *file));
        },
    }
    let mut j: usize = 0;
    while j < mods.len()
        invariant
            j <= mods@.len(),
            pid@ == project_id@,
            forall|m: int| 0 <= m < j ==> !((#[trigger] mods@[m]).id@ != project_id@ && mods@[m].file_name@ == file.filename@),
            !up_to_date(mods@, project_id@, *file),
            existing matches Some(k) ==> is_existing(mods@, project_id@, k as int),
            existing is None ==> forall|k: int| !is_existing(mods@, project_id@, k),
        decreases mods@.len() - j,
    {
        if mods[j].id != pid && mods[j].file_name == file.filename {
            assert(is_first_conflict(mods@, project_id@, file.filename@, j as int));
            return Err(AddModError::Conflict {
                id: mods[j].id.clone(),
                name: mods[j].name.clone(),
                file_name: mods[j].file_name.clone(),
            });
        }
        j = j + 1;
    }
    Ok(existing)
}

/// The installed file to delete after an update: the old one when the
/// file name changed.
pub fn stale_mod_file(existing: Option<&ModMetadata>, new_file_name: &str) -> (r: Option<String>)
    ensures
        match existing {
            Some(m) => if m.file_name@ != new_file_name@ {
                r matches Some(f) && f@ == m.file_name@
            } else {
                r is None
            },
            None => r is None,
        },
{
    match existing {
        Some(m) => {
            let n = String::from_str(new_file_name);
            if m.file_name != n {
                Some(m.file_name.clone())
            } else {
                None
            }
        },
        None => None,
    }
}

/// Whether a project fits the instance's game version: it lists none, or
/// lists that one. When it does not fit, the check fails unless skipped.
pub fn check_game_version(game_versions: &Vec<String>, minecraft_version: &str, skip_check: bool) -> (r: Result<bool, AddModError>)
    ensures
        ({
            let fits = game_versions@.len() == 0 || exists|i: int| 0 <= i < game_versions@.len()
                && (#[trigger] game_versions@[i])@ == minecraft_version@;
            &&& fits ==> r == Ok::<bool, AddModError>(true)
            &&& !fits && skip_check ==> r == Ok::<bool, AddModError>(false)
            &&& !fits && !skip_check ==> r matches Err(AddModError::UnsupportedGameVersion)
        }),
{
    if game_versions.len() == 0 {
        return Ok(true);
    }
    let mc = String::from_str(minecraft_version);
    let mut i: usize = 0;
    while i < game_versions.len()
        invariant
            i <= game_versions@.len(),
            mc@ == minecraft_version@,
            forall|j: int| 0 <= j < i ==> (#[trigger] game_versions@[j])@ != minecraft_version@,
        decreases game_versions@.len() - i,
    {
        if game_versions[i] == mc {
            return Ok(true);
        }
        i = i + 1;
    }
    if skip_check {
        Ok(false)
    } else {
        Err(AddModError::UnsupportedGameVersion)
    }
}

/// The record of a freshly installed mod.
pub fn installed_mod(project_slug: String, project_id: String, file_name: String, hash: HashWithAlgorithm) -> (r: ModMetadata)
    ensures
        r.id == project_id,
        r.name == project_slug,
        r.file_name == file_name,
        r.hash == hash,
        r.provider == ModProvider::Modrinth,
{
    ModMetadata { id: project_id, name: project_slug, file_name, hash, provider: ModProvider::Modrinth }
}

/// Records a resolved and downloaded file of a project into the instance
/// metadata. A file name that an installed mod of another project holds is
/// a conflict, and an identical installed file is already up to date: both
/// fail and leave the metadata exactly as it was. Otherwise the entry of the
/// project is replaced by the new one, which goes last, and the installed
/// file that the update leaves behind (when its name changed) is returned.
pub fn record_resolved_mod(
    metadata: &mut InstanceMetadata,
    project_slug: String,
    project_id: String,
    file: &ProjectFile,
    hash: HashWithAlgorithm,
) -> (r: Result<Option<String>, AddModError>)
    requires
        old(metadata).wf(),
        hash.wf(),
    ensures
        up_to_date(old(metadata).mods@, project_id@, *file) ==> (r matches Err(AddModError::AlreadyUpToDate)
            && *final(metadata) == *old(metadata)),
        !up_to_date(old(metadata).mods@, project_id@, *file) && has_conflict(old(metadata).mods@, project_id@, file.filename@)
            ==> (r matches Err(AddModError::Conflict { id, name, file_name }) && (exists|k: int|
            is_first_conflict(old(metadata).mods@, project_id@, file.filename@, k) && id@ == old(metadata).mods@[k].id@
                && name@ == old(metadata).mods@[k].name@ && file_name@ == old(metadata).mods@[k].file_name@)
            && *final(metadata) == *old(metadata)),
        !up_to_date(old(metadata).mods@, project_id@, *file) && !has_conflict(old(metadata).mods@, project_id@, file.filename@)
            ==> (r is Ok && final(metadata).mods@.len() > 0
            && final(metadata).mods@ == without_id(old(metadata).mods@, project_id@).push(final(metadata).mods@.last())
            && final(metadata).mods@.last().id == project_id && final(metadata).mods@.last().name == project_slug
            && final(metadata).mods@.last().file_name@ == file.filename@ && final(metadata).mods@.last().hash == hash
            && final(metadata).mods@.last().provider == ModProvider::Modrinth
            && final(metadata).loader == old(metadata).loader
            && final(metadata).minecraft_version == old(metadata).minecraft_version
            && final(metadata).wf()
            && (forall|k: int| is_existing(old(metadata).mods@, project_id@, k) && old(metadata).mods@[k].file_name@ != file.filename@
                ==> (r matches Ok(Some(f)) && f@ == old(metadata).mods@[k].file_name@))
            && ((forall|k: int| !(is_existing(old(metadata).mods@, project_id@, k) && old(metadata).mods@[k].file_name@
                != file.filename@)) ==> r == Ok::<Option<String>, AddModError>(None))),
{
    let existing = match check_installed(&metadata.mods, project_id.as_str(), file) {
        Ok(e) => e,
        Err(e) => {
            return Err(e);
        },
    };
    let stale = match existing {
        Some(k) => stale_mod_file(Some(&metadata.mods[k]), file.filename.as_str()),
        None => None,
    };
    proof {
        match existing {
            Some(k) => {
                assert forall|j: int| is_existing(old(metadata).mods@, project_id@, j) implies j == k by {
                    if j < k {
                        assert(!((old(metadata).mods@[j]).provider == ModProvider::Modrinth && old(metadata).mods@[j].id@ == project_id@));
                    } else if j > k {
                        assert(!((old(metadata).mods@[k as int]).provider == ModProvider::Modrinth
                            && old(metadata).mods@[k as int].id@ == project_id@));
                    }
                }
            },
            None => {},
        }
    }
    let m = installed_mod(project_slug, project_id, file.filename.clone(), hash);
    add_mod(metadata, m);
    Ok(stale)
}

/// Where a project is looked up by slug.
pub fn project_url(slug: &str) -> (r: String)
    ensures
        r@ == "https://api.modrinth.com/v2/project/"@ + url_encoded(slug.spec_bytes()),
{
    let mut r = String::from_str("https://api.modrinth.com/v2/project/");
    let e = url_encode(slug);
    push_str(&mut r, e.as_str());
    r
}

/// Where the team of a project is listed.
pub fn members_url(slug: &str) -> (r: String)
    ensures
        r@ == "https://api.modrinth.com/v2/project/"@ + url_encoded(slug.spec_bytes()) + "/members"@,
{
    let mut r = project_url(slug);
    push_str(&mut r, "/members");
    r
}

/// Where the versions of a project are listed.
pub fn versions_url(slug: &str) -> (r: String)
    ensures
        r@ == "https://api.modrinth.com/v2/project/"@ + url_encoded(slug.spec_bytes()) + "/version"@,
{
    let mut r = project_url(slug);
    push_str(&mut r, "/version");
    r
}

/// The search endpoint.
pub fn search_url() -> (r: &'static str)
    ensures
        r@ == "https://api.modrinth.com/v2/search"@,
{
    "https://api.modrinth.com/v2/search"
}

/// The search facets that keep mods for the loader.
pub fn search_facets(loader: ModLoader) -> (r: String)
    ensures
        r@ == "[[\"categories:"@ + loader.spec_name() + "\"],[\"project_type:mod\"]]"@,
{
    let mut r = String::from_str("[[\"categories:");
    push_str(&mut r, loader.name());
    push_str(&mut r, "\"],[\"project_type:mod\"]]");
    r
}

/// The `loaders` query value: a JSON list holding the loader's name.
pub fn loaders_query(loader: ModLoader) -> (r: String)
    ensures
        r@ == "[\""@ + loader.spec_name() + "\"]"@,
{
    let mut r = String::from_str("[\"");
    push_str(&mut r, loader.name());
    push_str(&mut r, "\"]");
    r
}

/// The text with `\` and `"` escaped by a backslash.
pub open spec fn json_escaped(s: Seq<char>) -> Seq<char>
    decreases s.len(),
{
    if s.len() == 0 {
        s
    } else {
        json_escaped(s.drop_last()) + if s.last() == '\\' || s.last() == '"' {
            seq!['\\', s.last()]
        } else {
            seq![s.last()]
        }
    }
}

/// The `game_versions` query value: a JSON list holding the game version.
pub fn game_versions_query(minecraft_version: &str) -> (r: String)
    ensures
        r@ == "[\""@ + json_escaped(minecraft_version@) + "\"]"@,
{
    let mut r = String::from_str("[\"");
    let ghost start = r@;
    let n = minecraft_version.unicode_len();
    let mut i: usize = 0;
    while i < n
        invariant
            n == minecraft_version@.len(),
            i <= n,
            r@ == start + json_escaped(minecraft_version@.subrange(0, i as int)),
        decreases n - i,
    {
        let c = minecraft_version.get_char(i);
        proof {
            let p = minecraft_version@.subrange(0, i + 1);
            assert(p.drop_last() =~= minecraft_version@.subrange(0, i as int));
            assert(p.last() == c);
        }
        if c == '\\' || c == '"' {
            push_char(&mut r, '\\');
        }
        push_char(&mut r, c);
        i = i + 1;
        assert(r@ =~= start + json_escaped(minecraft_version@.subrange(0, i as int)));
    }
    assert(minecraft_version@.subrange(0, n as int) =~= minecraft_version@);
    push_str(&mut r, "\"]");
    r
}

} // verus!
