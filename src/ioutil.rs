use vstd::prelude::*;
use crate::hashing::{digest_of, HashAlgorithm};
use crate::text::push_str;

verus! {

/// A failed fetch.
#[derive(Debug, Clone, Copy, PartialEq, Eq, Structural)]
pub enum FetchError {
    /// The server answered with a status that is no success.
    HttpStatus(u16),
    /// The bytes do not have the digest that was expected.
    HashMismatch,
}

pub open spec fn is_success(status: u16) -> bool {
    200 <= status <= 299
}

pub const NOT_MODIFIED: u16 = 304;

/// The name of the file that keeps the ETag beside a cached file.
pub fn etag_file_name(file_name: &str) -> (r: String)
    ensures
        r@ == file_name@ + ".etag"@,
{
    let mut r = String::from_str(file_name);
    push_str(&mut r, ".etag");
    r
}

/// What is on disk for one cached fetch: the body file and its ETag file.
#[derive(Debug, Clone)]
pub struct CacheState {
    pub body: Option<Vec<u8>>,
    pub etag: Option<Vec<u8>>,
}

/// One step of storing a fresh response, to be carried out in order.
#[derive(Debug, Clone)]
pub enum PersistStep {
    /// Replace the ETag file with these bytes.
    WriteEtag(Vec<u8>),
    /// Replace the cached file with these bytes.
    WriteBody(Vec<u8>),
    /// Decode the body; when that fails, stop here.
    Decode,
}

/// What to do with the answer to a conditional request.
#[derive(Debug, Clone)]
pub enum FetchOutcome {
    /// The cached file is current: decode it, write nothing.
    UseCached,
    /// Fail with this error.
    Fail(FetchError),
    /// Store the response with these steps, then hand back its body.
    Persist(Vec<PersistStep>),
}

/// The ETag to send as `If-None-Match`: the stored one, if any.
pub open spec fn request_etag_spec(cache: CacheState) -> Option<Seq<u8>> {
    match cache.etag {
        Some(e) => Some(e@),
        None => None,
    }
}

pub fn request_etag(cache: &CacheState) -> (r: Option<Vec<u8>>)
    ensures
        match r {
            Some(e) => request_etag_spec(*cache) == Some(e@),
            None => request_etag_spec(*cache) is None,
        },
{
    match &cache.etag {
        Some(e) => Some(e.clone()),
        None => None,
    }
}

/// The steps that store a fresh body: an empty ETag first, then the body,
/// then decoding, and the real ETag only after all of that succeeded, so that
/// a crash never leaves an ETag beside a missing or partial body.
pub open spec fn persist_steps_spec(body: Seq<u8>, etag: Option<Seq<u8>>) -> Seq<PersistStepModel> {
    let head = seq![
        PersistStepModel::WriteEtag(Seq::empty()),
        PersistStepModel::WriteBody(body),
        PersistStepModel::Decode,
    ];
    match etag {
        Some(e) => head.push(PersistStepModel::WriteEtag(e)),
        None => head,
    }
}

/// A persist step as plain values.
pub enum PersistStepModel {
    WriteEtag(Seq<u8>),
    WriteBody(Seq<u8>),
    Decode,
}

pub open spec fn step_model(s: PersistStep) -> PersistStepModel {
    match s {
        PersistStep::WriteEtag(e) => PersistStepModel::WriteEtag(e@),
        PersistStep::WriteBody(b) => PersistStepModel::WriteBody(b@),
        PersistStep::Decode => PersistStepModel::Decode,
    }
}

pub open spec fn steps_model(s: Seq<PersistStep>) -> Seq<PersistStepModel> {
    s.map_values(|x: PersistStep| step_model(x))
}

/// The outcome of an answer, as plain values.
pub enum OutcomeModel {
    UseCached,
    Fail(FetchError),
    Persist(Seq<PersistStepModel>),
}

pub open spec fn outcome_model(o: FetchOutcome) -> OutcomeModel {
    match o {
        FetchOutcome::UseCached => OutcomeModel::UseCached,
        FetchOutcome::Fail(e) => OutcomeModel::Fail(e),
        FetchOutcome::Persist(s) => OutcomeModel::Persist(steps_model(s@)),
    }
}

/// A `304 Not Modified` answer with a cached file uses that file; any other
/// status that is no success fails; otherwise the response is stored. (A
/// `304` whose cached file has gone is stored like a fresh response.)
pub open spec fn fetch_outcome_spec(status: u16, cache_has_body: bool, body: Seq<u8>, etag: Option<Seq<u8>>) -> OutcomeModel {
    if status == NOT_MODIFIED && cache_has_body {
        OutcomeModel::UseCached
    } else if status != NOT_MODIFIED && !is_success(status) {
        OutcomeModel::Fail(FetchError::HttpStatus(status))
    } else {
        OutcomeModel::Persist(persist_steps_spec(body, etag))
    }
}

/// Decides what to do with the answer to a conditional request.
pub fn fetch_outcome(status: u16, cache_has_body: bool, body: Vec<u8>, etag: Option<Vec<u8>>) -> (r: FetchOutcome)
    ensures
        outcome_model(r) == fetch_outcome_spec(status, cache_has_body, body@, match etag {
            Some(e) => Some(e@),
            None => None,
        }),
{
    if status == NOT_MODIFIED && cache_has_body {
        return FetchOutcome::UseCached;
    }
    if status != NOT_MODIFIED && !(200 <= status && status <= 299) {
        return FetchOutcome::Fail(FetchError::HttpStatus(status));
    }
    let mut steps: Vec<PersistStep> = Vec::new();
    steps.push(PersistStep::WriteEtag(Vec::new()));
    steps.push(PersistStep::WriteBody(body));
    steps.push(PersistStep::Decode);
    match etag {
        Some(e) => {
            steps.push(PersistStep::WriteEtag(e));
        },
        None => {},
    }
    assert(steps_model(steps@) =~= persist_steps_spec(body@, match etag {
        Some(e) => Some(e@),
        None => None,
    }));
    FetchOutcome::Persist(steps)
}

/// The cache as plain values.
pub struct CacheModel {
    pub body: Option<Seq<u8>>,
    pub etag: Option<Seq<u8>>,
}

pub open spec fn cache_model(c: CacheState) -> CacheModel {
    CacheModel {
        body: match c.body {
            Some(b) => Some(b@),
            None => None,
        },
        etag: match c.etag {
            Some(e) => Some(e@),
            None => None,
        },
    }
}

/// The cache after carrying out `steps` in order.
pub open spec fn apply_steps(c: CacheModel, steps: Seq<PersistStepModel>) -> CacheModel
    decreases steps.len(),
{
    if steps.len() == 0 {
        c
    } else {
        let d = apply_steps(c, steps.drop_last());
        match steps.last() {
            PersistStepModel::WriteEtag(e) => CacheModel { etag: Some(e), ..d },
            PersistStepModel::WriteBody(b) => CacheModel { body: Some(b), ..d },
            PersistStepModel::Decode => d,
        }
    }
}

impl CacheState {
    /// Carries out one step of storing a response.
    pub fn apply(&mut self, step: PersistStep)
        ensures
            cache_model(*final(self)) == apply_steps(cache_model(*old(self)), seq![step_model(step)]),
    {
        let ghost before = cache_model(*self);
        let ghost st = seq![step_model(step)];
        proof {
            assert(st.drop_last() =~= Seq::<PersistStepModel>::empty());
            assert(apply_steps(before, st.drop_last()) == before);
        }
        match step {
            PersistStep::WriteEtag(e) => {
                self.etag = Some(e);
            },
            PersistStep::WriteBody(b) => {
                self.body = Some(b);
            },
            PersistStep::Decode => {},
        }
    }
}

/// Fetching into an empty cache stores the body and the answer's ETag, which
/// the next request sends; a `304` answer to that request uses the stored
/// body and writes nothing.
pub proof fn lemma_conditional_fetch(body: Seq<u8>, etag: Seq<u8>, status: u16, later_body: Seq<u8>)
    requires
        is_success(status),
    ensures
        ({
            let empty = CacheModel { body: None, etag: None };
            let first = fetch_outcome_spec(status, false, body, Some(etag));
            &&& first matches OutcomeModel::Persist(steps)
            &&& apply_steps(empty, steps) == (CacheModel { body: Some(body), etag: Some(etag) })
            &&& fetch_outcome_spec(NOT_MODIFIED, true, later_body, None) == OutcomeModel::UseCached
        }),
{
    let empty = CacheModel { body: None, etag: None };
    let steps = persist_steps_spec(body, Some(etag));
    let s0 = steps.subrange(0, 0);
    let s1 = steps.subrange(0, 1);
    let s2 = steps.subrange(0, 2);
    let s3 = steps.subrange(0, 3);
    assert(s1.drop_last() =~= s0);
    assert(s2.drop_last() =~= s1);
    assert(s3.drop_last() =~= s2);
    assert(steps.drop_last() =~= s3);
    assert(apply_steps(empty, s0) == empty);
    assert(apply_steps(empty, s1) == CacheModel { body: None, etag: Some(Seq::<u8>::empty()) });
    assert(apply_steps(empty, s2) == CacheModel { body: Some(body), etag: Some(Seq::<u8>::empty()) });
    assert(apply_steps(empty, s3) == CacheModel { body: Some(body), etag: Some(Seq::<u8>::empty()) });
    assert(apply_steps(empty, steps) == CacheModel { body: Some(body), etag: Some(etag) });
}

/// Storing a fresh response writes the real ETag only after the body was
/// written and decoded: every step before the last `WriteEtag` that carries a
/// value, and the first step clears the ETag.
pub proof fn lemma_etag_written_last(body: Seq<u8>, etag: Option<Seq<u8>>)
    ensures
        persist_steps_spec(body, etag)[0] == PersistStepModel::WriteEtag(Seq::empty()),
        persist_steps_spec(body, etag)[1] == PersistStepModel::WriteBody(body),
        persist_steps_spec(body, etag)[2] == PersistStepModel::Decode,
        etag is Some ==> persist_steps_spec(body, etag).len() == 4 && persist_steps_spec(body, etag)[3]
            == PersistStepModel::WriteEtag(etag->Some_0),
        etag is None ==> persist_steps_spec(body, etag).len() == 3,
{
}

/// Whether a file already on disk can stand for a download: it exists and
/// has the expected digest.
pub fn existing_file_matches(algorithm: HashAlgorithm, existing: Option<&[u8]>, expected: &[u8]) -> (r: bool)
    ensures
        r == (existing is Some && digest_of(algorithm, existing->Some_0@) == expected@),
{
    match existing {
        Some(data) => algorithm.matches(data, expected),
        None => false,
    }
}

/// Checks freshly downloaded bytes against the expected digest.
pub fn check_downloaded(algorithm: HashAlgorithm, data: &[u8], expected: &[u8]) -> (r: Result<(), FetchError>)
    ensures
        r is Ok <==> digest_of(algorithm, data@) == expected@,
        r is Err ==> r == Err::<(), FetchError>(FetchError::HashMismatch),
{
    if algorithm.matches(data, expected) {
        Ok(())
    } else {
        Err(FetchError::HashMismatch)
    }
}

/// A step of a verified download.
#[derive(Debug, Clone, Copy, PartialEq, Eq, Structural)]
pub enum DownloadAction {
    /// The file on disk is already right: no request is made.
    Skip,
    /// Download the file, then check it.
    Download,
}

/// Decides whether a verified download needs the network.
pub fn plan_verified_download(algorithm: HashAlgorithm, existing: Option<&[u8]>, expected: &[u8]) -> (r: DownloadAction)
    ensures
        r == DownloadAction::Skip <==> (existing is Some && digest_of(algorithm, existing->Some_0@)
            == expected@),
{
    if existing_file_matches(algorithm, existing, expected) {
        DownloadAction::Skip
    } else {
        DownloadAction::Download
    }
}

/// Counts the bytes of a download as its chunks arrive.
#[derive(Debug, Clone, Copy)]
pub struct DownloadProgress {
    pub downloaded: u64,
}

impl DownloadProgress {
    pub fn new() -> (r: DownloadProgress)
        ensures
            r.downloaded == 0,
    {
        DownloadProgress { downloaded: 0 }
    }

    /// Records a chunk and returns the bytes received so far.
    pub fn add_chunk(&mut self, n: u64) -> (r: u64)
        requires
            old(self).downloaded + n <= u64::MAX,
        ensures
            final(self).downloaded == old(self).downloaded + n,
            r == final(self).downloaded,
    {
        self.downloaded = self.downloaded + n;
        self.downloaded
    }
}

} // verus!
