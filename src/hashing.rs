use vstd::prelude::*;
use crate::text::push_char;

verus! {

/// The digest algorithms that artifacts are pinned with.
#[derive(Debug, Clone, Copy, PartialEq, Eq, Structural)]
pub enum HashAlgorithm {
    Sha1,
    Sha256,
    Sha512,
}

/// What went wrong while reading a digest from its hex text.
#[derive(Debug, Clone, Copy, PartialEq, Eq, Structural)]
pub enum HexError {
    /// The text has an odd number of characters.
    OddLength,
    /// The text holds a character that is no hex digit.
    InvalidDigit(char),
    /// The text does not have the length that the algorithm asks for.
    WrongLength { found: usize, expected: usize },
}

impl HashAlgorithm {
    pub open spec fn spec_hash_size(self) -> nat {
        match self {
            HashAlgorithm::Sha1 => 20,
            HashAlgorithm::Sha256 => 32,
            HashAlgorithm::Sha512 => 64,
        }
    }

    /// The number of bytes in a digest of this algorithm.
    pub fn hash_size(&self) -> (r: usize)
        ensures
            r == self.spec_hash_size(),
    {
        match self {
            HashAlgorithm::Sha1 => 20,
            HashAlgorithm::Sha256 => 32,
            HashAlgorithm::Sha512 => 64,
        }
    }

    pub open spec fn spec_name(self) -> Seq<char> {
        match self {
            HashAlgorithm::Sha1 => "sha1"@,
            HashAlgorithm::Sha256 => "sha256"@,
            HashAlgorithm::Sha512 => "sha512"@,
        }
    }

    /// The lowercase name of the algorithm, as it is written in metadata files.
    pub fn name(&self) -> (r: &'static str)
        ensures
            r@ == self.spec_name(),
    {
        match self {
            HashAlgorithm::Sha1 => "sha1",
            HashAlgorithm::Sha256 => "sha256",
            HashAlgorithm::Sha512 => "sha512",
        }
    }
}

/// The lowercase hex digit of a value below 16.
pub open spec fn hex_digit(d: int) -> char
    recommends
        0 <= d < 16,
{
    if d < 10 {
        (d + 48) as char
    } else {
        (d - 10 + 97) as char
    }
}

/// Each byte as two lowercase hex digits, high nibble first.
pub open spec fn hex_encode(b: Seq<u8>) -> Seq<char>
    decreases b.len(),
{
    if b.len() == 0 {
        Seq::empty()
    } else {
        hex_encode(b.drop_last()) + seq![hex_digit(b.last() as int / 16), hex_digit(b.last() as int % 16)]
    }
}

pub open spec fn is_hex_char(c: char) -> bool {
    ('0' <= c && c <= '9') || ('a' <= c && c <= 'f') || ('A' <= c && c <= 'F')
}

/// The value of a hex digit of either case.
pub open spec fn hex_value(c: char) -> int {
    if '0' <= c && c <= '9' {
        c as int - 48
    } else if 'a' <= c && c <= 'f' {
        c as int - 97 + 10
    } else {
        c as int - 65 + 10
    }
}

pub open spec fn is_hex_text(s: Seq<char>) -> bool {
    s.len() % 2 == 0 && forall|i: int| 0 <= i < s.len() ==> is_hex_char(#[trigger] s[i])
}

/// The bytes that a hex text spells, two digits to a byte.
pub open spec fn hex_decode(s: Seq<char>) -> Seq<u8> {
    Seq::new(s.len() / 2, |i: int| (16 * hex_value(s[2 * i]) + hex_value(s[2 * i + 1])) as u8)
}

/// The index of the first character of `s` that is no hex digit.
pub open spec fn first_non_hex(s: Seq<char>, k: int) -> bool {
    0 <= k < s.len() && !is_hex_char(s[k]) && forall|j: int| 0 <= j < k ==> is_hex_char(#[trigger] s[j])
}

fn hex_digit_char(d: u8) -> (c: char)
    requires
        d < 16,
    ensures
        c == hex_digit(d as int),
{
    if d < 10 {
        (d + 48) as char
    } else {
        (d - 10 + 97) as char
    }
}

fn hex_char_value(c: char) -> (r: Option<u8>)
    ensures
        is_hex_char(c) <==> r.is_some(),
        r.is_some() ==> r.unwrap() as int == hex_value(c) && r.unwrap() < 16,
{
    if '0' <= c && c <= '9' {
        Some((c as u32 - 48) as u8)
    } else if 'a' <= c && c <= 'f' {
        Some((c as u32 - 97 + 10) as u8)
    } else if 'A' <= c && c <= 'F' {
        Some((c as u32 - 65 + 10) as u8)
    } else {
        None
    }
}

/// Writes bytes as lowercase hex, two digits per byte.
pub fn to_hex_string(bytes: &[u8]) -> (r: String)
    ensures
        r@ == hex_encode(bytes@),
{
    let mut r = String::new();
    let mut i: usize = 0;
    while i < bytes.len()
        invariant
            i <= bytes@.len(),
            r@ == hex_encode(bytes@.subrange(0, i as int)),
        decreases bytes.len() - i,
    {
        let b = bytes[i];
        push_char(&mut r, hex_digit_char(b / 16));
        push_char(&mut r, hex_digit_char(b % 16));
        i = i + 1;
        assert(bytes@.subrange(0, i as int).drop_last() =~= bytes@.subrange(0, i - 1));
    }
    assert(bytes@.subrange(0, bytes@.len() as int) =~= bytes@);
    r
}

/// Reads hex text of either case into bytes.
pub fn parse_hex_string(s: &str) -> (r: Result<Vec<u8>, HexError>)
    ensures
        r is Ok <==> is_hex_text(s@),
        r is Ok ==> r->Ok_0@ == hex_decode(s@),
        r == Err::<Vec<u8>, HexError>(HexError::OddLength) <==> s@.len() % 2 == 1,
        forall|c: char| r == Err::<Vec<u8>, HexError>(HexError::InvalidDigit(c)) <==> (s@.len() % 2 == 0
            && exists|k: int| first_non_hex(s@, k) && s@[k] == c),
        !(r matches Err(HexError::WrongLength { .. })),
{
    let n = s.unicode_len();
    if n % 2 == 1 {
        return Err(HexError::OddLength);
    }
    let mut out: Vec<u8> = Vec::new();
    let mut i: usize = 0;
    while i < n
        invariant
            n == s@.len(),
            n % 2 == 0,
            i % 2 == 0,
            i <= n,
            out@.len() == i / 2,
            forall|j: int| 0 <= j < i ==> is_hex_char(#[trigger] s@[j]),
            forall|j: int| 0 <= j < i / 2 ==> #[trigger] out@[j] == hex_decode(s@)[j],
        decreases n - i,
    {
        let hi_c = s.get_char(i);
        let hi = match hex_char_value(hi_c) {
            Some(v) => v,
            None => {
                assert(first_non_hex(s@, i as int));
                return Err(HexError::InvalidDigit(hi_c));
            },
        };
        let lo_c = s.get_char(i + 1);
        let lo = match hex_char_value(lo_c) {
            Some(v) => v,
            None => {
                assert(first_non_hex(s@, i + 1));
                return Err(HexError::InvalidDigit(lo_c));
            },
        };
        proof {
            let k = i / 2;
            assert(2 * k == i);
        }
        out.push(16 * hi + lo);
        i = i + 2;
    }
    assert(out@ =~= hex_decode(s@));
    Ok(out)
}


/// The round trip through text gives back the bytes: reading what
/// `to_hex_string` wrote yields the same bytes.
pub proof fn lemma_hex_decode_encode(b: Seq<u8>)
    ensures
        is_hex_text(hex_encode(b)),
        hex_decode(hex_encode(b)) == b,
        hex_encode(b).len() == 2 * b.len(),
    decreases b.len(),
{
    if b.len() > 0 {
        lemma_hex_decode_encode(b.drop_last());
        let e = hex_encode(b);
        let p = hex_encode(b.drop_last());
        assert(e.len() == 2 * b.len());
        assert forall|i: int| 0 <= i < e.len() implies is_hex_char(#[trigger] e[i]) by {
            if i >= p.len() {
                let v = b.last() as int;
                assert(0 <= v / 16 < 16 && 0 <= v % 16 < 16);
            }
        }
        assert forall|i: int| 0 <= i < b.len() implies #[trigger] hex_decode(e)[i] == b[i] by {
            if i < b.len() - 1 {
                assert(hex_decode(p)[i] == b.drop_last()[i]);
            } else {
                let v = b.last() as int;
                assert(v == 16 * (v / 16) + v % 16);
            }
        }
        assert(hex_decode(e) =~= b);
    }
}

pub open spec fn is_lower_hex_char(c: char) -> bool {
    ('0' <= c && c <= '9') || ('a' <= c && c <= 'f')
}

/// Writing the bytes that a lowercase hex text spells gives back that text.
/// (Uppercase digits are read too, but always written in lowercase.)
pub proof fn lemma_hex_encode_decode(s: Seq<char>)
    requires
        s.len() % 2 == 0,
        forall|i: int| 0 <= i < s.len() ==> is_lower_hex_char(#[trigger] s[i]),
    ensures
        hex_encode(hex_decode(s)) == s,
    decreases s.len(),
{
    if s.len() > 0 {
        let t = s.subrange(0, s.len() - 2);
        assert forall|i: int| 0 <= i < t.len() implies is_lower_hex_char(#[trigger] t[i]) by {
            assert(t[i] == s[i]);
        }
        lemma_hex_encode_decode(t);
        let d = hex_decode(s);
        assert(d.drop_last() =~= hex_decode(t));
        let k = s.len() - 2;
        let hi = s[k];
        let lo = s[k + 1];
        assert(is_lower_hex_char(hi) && is_lower_hex_char(lo));
        let v = 16 * hex_value(hi) + hex_value(lo);
        assert(0 <= hex_value(hi) < 16 && 0 <= hex_value(lo) < 16);
        assert(d.last() as int == v);
        assert(v / 16 == hex_value(hi) && v % 16 == hex_value(lo));
        assert(hex_digit(hex_value(hi)) == hi);
        assert(hex_digit(hex_value(lo)) == lo);
        assert(hex_encode(d) =~= s);
    }
}


pub uninterp spec fn sha1_of(data: Seq<u8>) -> Seq<u8>;

pub uninterp spec fn sha256_of(data: Seq<u8>) -> Seq<u8>;

pub uninterp spec fn sha512_of(data: Seq<u8>) -> Seq<u8>;

/// Relies on `sha1::Sha1::digest`: the SHA-1 digest of the data, whose output size is 20 bytes.
#[verifier::external_body]
fn sha1_digest(data: &[u8]) -> (r: Vec<u8>)
    ensures
        r@ == sha1_of(data@),
        r@.len() == 20,
{
    <sha1::Sha1 as sha1::Digest>::digest(data).to_vec()
}

/// Relies on `sha2::Sha256::digest`: the SHA-256 digest of the data, whose output size is 32 bytes.
#[verifier::external_body]
fn sha256_digest(data: &[u8]) -> (r: Vec<u8>)
    ensures
        r@ == sha256_of(data@),
        r@.len() == 32,
{
    <sha2::Sha256 as sha2::Digest>::digest(data).to_vec()
}

/// Relies on `sha2::Sha512::digest`: the SHA-512 digest of the data, whose output size is 64 bytes.
#[verifier::external_body]
fn sha512_digest(data: &[u8]) -> (r: Vec<u8>)
    ensures
        r@ == sha512_of(data@),
        r@.len() == 64,
{
    <sha2::Sha512 as sha2::Digest>::digest(data).to_vec()
}

/// The digest of `data` under `algorithm`.
pub open spec fn digest_of(algorithm: HashAlgorithm, data: Seq<u8>) -> Seq<u8> {
    match algorithm {
        HashAlgorithm::Sha1 => sha1_of(data),
        HashAlgorithm::Sha256 => sha256_of(data),
        HashAlgorithm::Sha512 => sha512_of(data),
    }
}

impl HashAlgorithm {
    /// Computes the digest of `data` with this algorithm.
    pub fn digest(&self, data: &[u8]) -> (r: Vec<u8>)
        ensures
            r@ == digest_of(*self, data@),
            r@.len() == self.spec_hash_size(),
    {
        match self {
            HashAlgorithm::Sha1 => sha1_digest(data),
            HashAlgorithm::Sha256 => sha256_digest(data),
            HashAlgorithm::Sha512 => sha512_digest(data),
        }
    }

    /// Whether `data` has exactly the digest `expected` under this algorithm.
    pub fn matches(&self, data: &[u8], expected: &[u8]) -> (r: bool)
        ensures
            r == (digest_of(*self, data@) == expected@),
    {
        let d = self.digest(data);
        bytes_equal(d.as_slice(), expected)
    }
}

/// Compares two byte strings.
pub fn bytes_equal(a: &[u8], b: &[u8]) -> (r: bool)
    ensures
        r == (a@ == b@),
{
    if a.len() != b.len() {
        return false;
    }
    let mut i: usize = 0;
    while i < a.len()
        invariant
            a@.len() == b@.len(),
            i <= a@.len(),
            forall|j: int| 0 <= j < i ==> a@[j] == b@[j],
        decreases a.len() - i,
    {
        if a[i] != b[i] {
            return false;
        }
        i = i + 1;
    }
    assert(a@ =~= b@);
    true
}

/// A fixed-size digest that is written as `2 * N` lowercase hex digits.
#[derive(Debug)]
pub struct HexString<const N: usize> {
    pub inner: [u8; N],
}

impl<const N: usize> HexString<N> {
    /// Reads exactly `2 * N` hex digits.
    pub fn parse(s: &str) -> (r: Result<HexString<N>, HexError>)
        ensures
            r is Ok <==> s@.len() == 2 * N && is_hex_text(s@),
            r is Ok ==> r->Ok_0.inner@ == hex_decode(s@),
            s@.len() != 2 * N ==> r == Err::<HexString<N>, HexError>(
                HexError::WrongLength { found: s@.len() as usize, expected: (2 * N) as usize },
            ),
            forall|c: char| s@.len() == 2 * N ==> (r == Err::<HexString<N>, HexError>(HexError::InvalidDigit(c))
                <==> exists|k: int| first_non_hex(s@, k) && s@[k] == c),
    {
        let n = s.unicode_len();
        if N > usize::MAX / 2 || n != 2 * N {
            return Err(HexError::WrongLength { found: n, expected: (2 * N as u128) as usize });
        }
        let bytes = match parse_hex_string(s) {
            Ok(v) => v,
            Err(e) => {
                return Err(e);
            },
        };
        let mut inner: [u8; N] = vstd::array::array_fill_for_copy_types(0u8);
        let mut i: usize = 0;
        while i < N
            invariant
                bytes@.len() == N,
                inner@.len() == N,
                i <= N,
                forall|j: int| 0 <= j < i ==> inner@[j] == bytes@[j],
            decreases N - i,
        {
            inner.set(i, bytes[i]);
            i = i + 1;
        }
        assert(inner@ =~= bytes@);
        Ok(HexString { inner })
    }

    /// The digest as lowercase hex.
    pub fn to_hex(&self) -> (r: String)
        ensures
            r@ == hex_encode(self.inner@),
    {
        to_hex_string(self.inner.as_slice())
    }
}

/// A digest together with the algorithm that produced it.
#[derive(Debug, Clone)]
pub struct HashWithAlgorithm {
    pub algorithm: HashAlgorithm,
    pub hash: Vec<u8>,
}

impl HashWithAlgorithm {
    /// The digest has the size that its algorithm gives.
    pub open spec fn wf(&self) -> bool {
        self.hash@.len() == self.algorithm.spec_hash_size()
    }

    /// Reads a digest from hex text, which must have two digits per byte of
    /// the algorithm's digest size.
    pub fn from_hex(algorithm: HashAlgorithm, s: &str) -> (r: Result<HashWithAlgorithm, HexError>)
        ensures
            r is Ok <==> s@.len() == 2 * algorithm.spec_hash_size() && is_hex_text(s@),
            r is Ok ==> r->Ok_0.algorithm == algorithm && r->Ok_0.hash@ == hex_decode(s@)
                && r->Ok_0.wf(),
            s@.len() != 2 * algorithm.spec_hash_size() ==> r == Err::<HashWithAlgorithm, HexError>(
                HexError::WrongLength {
                    found: s@.len() as usize,
                    expected: (2 * algorithm.spec_hash_size()) as usize,
                },
            ),
            forall|c: char| s@.len() == 2 * algorithm.spec_hash_size() ==> (r == Err::<HashWithAlgorithm, HexError>(
                HexError::InvalidDigit(c),
            ) <==> exists|k: int| first_non_hex(s@, k) && s@[k] == c),
    {
        let n = s.unicode_len();
        let expected = algorithm.hash_size() * 2;
        if n != expected {
            return Err(HexError::WrongLength { found: n, expected });
        }
        match parse_hex_string(s) {
            Ok(hash) => Ok(HashWithAlgorithm { algorithm, hash }),
            Err(e) => Err(e),
        }
    }

    /// The digest as lowercase hex.
    pub fn hex(&self) -> (r: String)
        ensures
            r@ == hex_encode(self.hash@),
    {
        to_hex_string(self.hash.as_slice())
    }

    /// The digest of `data` under `algorithm`.
    pub fn of_data(algorithm: HashAlgorithm, data: &[u8]) -> (r: HashWithAlgorithm)
        ensures
            r.algorithm == algorithm,
            r.hash@ == digest_of(algorithm, data@),
            r.wf(),
    {
        HashWithAlgorithm { algorithm, hash: algorithm.digest(data) }
    }
}

} // verus!
