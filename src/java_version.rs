use vstd::prelude::*;
use crate::text::{chars_of, push_char, push_str, string_of};
use std::cmp::Ordering;

verus! {

pub open spec fn is_ascii_digit(c: char) -> bool {
    '0' <= c && c <= '9'
}

pub open spec fn is_ascii_alnum(c: char) -> bool {
    ('0' <= c && c <= '9') || ('a' <= c && c <= 'z') || ('A' <= c && c <= 'Z')
}

/// The end of the run of ASCII digits that starts at `i`.
pub open spec fn digit_run_end(s: Seq<char>, i: int) -> int
    decreases s.len() - i,
{
    if 0 <= i < s.len() && is_ascii_digit(s[i]) {
        digit_run_end(s, i + 1)
    } else {
        i
    }
}

/// The end of the run of ASCII letters and digits that starts at `i`.
pub open spec fn alnum_run_end(s: Seq<char>, i: int) -> int
    decreases s.len() - i,
{
    if 0 <= i < s.len() && is_ascii_alnum(s[i]) {
        alnum_run_end(s, i + 1)
    } else {
        i
    }
}

/// The number that a string of decimal digits spells.
pub open spec fn decimal_value(d: Seq<char>) -> nat
    decreases d.len(),
{
    if d.len() == 0 {
        0
    } else {
        decimal_value(d.drop_last()) * 10 + (d.last() as nat - 48) as nat
    }
}

/// A decimal field that starts at `p`: its value and where it ends. It must
/// hold at least one digit and fit in a `u32`.
pub open spec fn number_field(s: Seq<char>, p: int) -> Option<(u32, int)> {
    let e = digit_run_end(s, p);
    if e > p && decimal_value(s.subrange(p, e)) <= u32::MAX {
        Some((decimal_value(s.subrange(p, e)) as u32, e))
    } else {
        None
    }
}

/// A field that is present when `marker` stands at `p`, else 0.
pub open spec fn marked_field(s: Seq<char>, p: int, marker: char) -> Option<(u32, int)> {
    if 0 <= p < s.len() && s[p] == marker {
        number_field(s, p + 1)
    } else {
        Some((0, p))
    }
}

/// A version as plain values.
pub struct VersionModel {
    pub major: u32,
    pub minor: u32,
    pub security: u32,
    pub prerelease: Seq<char>,
}

pub open spec fn is_legacy_text(s: Seq<char>) -> bool {
    s.len() >= 2 && s[0] == '1' && s[1] == '.'
}

/// The grammar of Java version strings: legacy
/// `1.<major>[.<minor>[_<security>]][-<prerelease>]` and modern
/// `<major>[.<minor>[.<security>]][-<prerelease>]`, where absent numbers are 0
/// and nothing may follow the last part.
pub open spec fn parse_version_text(s: Seq<char>) -> Option<VersionModel> {
    let legacy = is_legacy_text(s);
    let start: int = if legacy { 2 } else { 0 };
    let sep = if legacy { '_' } else { '.' };
    match number_field(s, start) {
        None => None,
        Some((major, pos1)) => match marked_field(s, pos1, '.') {
            None => None,
            Some((minor, pos2)) => match marked_field(s, pos2, sep) {
                None => None,
                Some((security, pos3)) => {
                    let has_pre = 0 <= pos3 < s.len() && s[pos3] == '-';
                    let pos4 = if has_pre { alnum_run_end(s, pos3 + 1) } else { pos3 };
                    let pre = if has_pre { s.subrange(pos3 + 1, pos4) } else { Seq::empty() };
                    if pos4 == s.len() {
                        Some(VersionModel { major, minor, security, prerelease: pre })
                    } else {
                        None
                    }
                },
            },
        },
    }
}

pub open spec fn digit_char(d: nat) -> char {
    (d + 48) as char
}

/// A number in decimal, without leading zeros.
pub open spec fn decimal_text(n: nat) -> Seq<char>
    decreases n,
{
    if n < 10 {
        seq![digit_char(n)]
    } else {
        decimal_text(n / 10).push(digit_char(n % 10))
    }
}

/// The canonical text of a version: legacy form up to major 8, modern form
/// above, with trailing zero parts left out.
pub open spec fn format_version(v: VersionModel) -> Seq<char> {
    let legacy = v.major <= 8;
    let head = if legacy { "1."@ } else { Seq::empty() };
    let has_pre = v.prerelease.len() > 0;
    let tail = if v.minor != 0 || v.security != 0 || has_pre {
        seq!['.'] + decimal_text(v.minor as nat) + if v.security != 0 || has_pre {
            seq![if legacy { '_' } else { '.' }] + decimal_text(v.security as nat) + if has_pre {
                seq!['-'] + v.prerelease
            } else {
                Seq::empty()
            }
        } else {
            Seq::empty()
        }
    } else {
        Seq::empty()
    };
    head + decimal_text(v.major as nat) + tail
}

/// A parsed Java version. Ordering looks at `(major, minor, security)` only.
#[derive(Debug, Clone)]
pub struct ParsedJavaVersion {
    pub major: u32,
    pub minor: u32,
    pub security: u32,
    pub prerelease: String,
}

/// The version text could not be read.
#[derive(Debug, Clone)]
pub struct InvalidVersion {
    pub text: String,
}

impl ParsedJavaVersion {
    pub open spec fn model(&self) -> VersionModel {
        VersionModel {
            major: self.major,
            minor: self.minor,
            security: self.security,
            prerelease: self.prerelease@,
        }
    }
}


pub(crate) proof fn lemma_decimal_prefix_le(d: Seq<char>, j: int)
    requires
        0 <= j <= d.len(),
        forall|i: int| 0 <= i < d.len() ==> is_ascii_digit(#[trigger] d[i]),
    ensures
        decimal_value(d.subrange(0, j)) <= decimal_value(d),
    decreases d.len() - j,
{
    if j < d.len() {
        let e = d.subrange(0, j + 1);
        assert(e.drop_last() =~= d.subrange(0, j));
        assert(is_ascii_digit(e.last()));
        lemma_decimal_prefix_le(d, j + 1);
    } else {
        assert(d.subrange(0, j) =~= d);
    }
}

proof fn lemma_digit_run_bounds(s: Seq<char>, i: int)
    requires
        0 <= i <= s.len(),
    ensures
        i <= digit_run_end(s, i) <= s.len(),
        forall|k: int| i <= k < digit_run_end(s, i) ==> is_ascii_digit(#[trigger] s[k]),
        digit_run_end(s, i) < s.len() ==> !is_ascii_digit(s[digit_run_end(s, i)]),
    decreases s.len() - i,
{
    if i < s.len() && is_ascii_digit(s[i]) {
        lemma_digit_run_bounds(s, i + 1);
    }
}

proof fn lemma_alnum_run_bounds(s: Seq<char>, i: int)
    requires
        0 <= i <= s.len(),
    ensures
        i <= alnum_run_end(s, i) <= s.len(),
        forall|k: int| i <= k < alnum_run_end(s, i) ==> is_ascii_alnum(#[trigger] s[k]),
        alnum_run_end(s, i) < s.len() ==> !is_ascii_alnum(s[alnum_run_end(s, i)]),
    decreases s.len() - i,
{
    if i < s.len() && is_ascii_alnum(s[i]) {
        lemma_alnum_run_bounds(s, i + 1);
    }
}

fn scan_digits(v: &Vec<char>, start: usize) -> (e: usize)
    requires
        start <= v@.len(),
    ensures
        e == digit_run_end(v@, start as int),
{
    let mut i = start;
    while i < v.len() && '0' <= v[i] && v[i] <= '9'
        invariant
            start <= i <= v@.len(),
            digit_run_end(v@, start as int) == digit_run_end(v@, i as int),
        decreases v@.len() - i,
    {
        i = i + 1;
    }
    i
}

fn scan_alnum(v: &Vec<char>, start: usize) -> (e: usize)
    requires
        start <= v@.len(),
    ensures
        e == alnum_run_end(v@, start as int),
{
    let mut i = start;
    while i < v.len() && (('0' <= v[i] && v[i] <= '9') || ('a' <= v[i] && v[i] <= 'z') || ('A'
        <= v[i] && v[i] <= 'Z'))
        invariant
            start <= i <= v@.len(),
            alnum_run_end(v@, start as int) == alnum_run_end(v@, i as int),
        decreases v@.len() - i,
    {
        i = i + 1;
    }
    i
}

/// Reads the decimal field at `start`.
fn read_number(v: &Vec<char>, start: usize) -> (r: Option<(u32, usize)>)
    requires
        start <= v@.len(),
    ensures
        match r {
            None => number_field(v@, start as int) is None,
            Some((n, e)) => number_field(v@, start as int) == Some((n, e as int)),
        },
{
    let e = scan_digits(v, start);
    proof {
        lemma_digit_run_bounds(v@, start as int);
    }
    if e == start {
        return None;
    }
    let ghost d = v@.subrange(start as int, e as int);
    let mut acc: u32 = 0;
    let mut i = start;
    while i < e
        invariant
            start <= i <= e <= v@.len(),
            e == digit_run_end(v@, start as int),
            d == v@.subrange(start as int, e as int),
            forall|k: int| 0 <= k < d.len() ==> is_ascii_digit(#[trigger] d[k]),
            acc as nat == decimal_value(d.subrange(0, i - start)),
        decreases e - i,
    {
        assert(d[i - start] == v@[i as int]);
        assert(is_ascii_digit(d[i - start]));
        let digit = (v[i] as u32) - 48;
        proof {
            let p = d.subrange(0, i - start + 1);
            assert(p.drop_last() =~= d.subrange(0, i - start));
            assert(p.last() == v@[i as int]);
            assert(decimal_value(p) == acc * 10 + digit);
        }
        if acc > (u32::MAX - digit) / 10 {
            proof {
                let m = u32::MAX - digit;
                assert(acc * 10 + digit > u32::MAX) by (nonlinear_arith)
                    requires
                        acc > m / 10,
                        m == u32::MAX - digit,
                        0 <= digit <= 9,
                ;
                lemma_decimal_prefix_le(d, i - start + 1);
            }
            return None;
        }
        acc = acc * 10 + digit;
        i = i + 1;
    }
    assert(d.subrange(0, e - start) =~= d);
    Some((acc, e))
}

/// Reads the field that `marker` at `p` opens, if it stands there.
fn read_marked(v: &Vec<char>, p: usize, marker: char) -> (r: Option<(u32, usize)>)
    requires
        p <= v@.len(),
    ensures
        match r {
            None => marked_field(v@, p as int, marker) is None,
            Some((n, e)) => marked_field(v@, p as int, marker) == Some((n, e as int)) && e
                <= v@.len(),
        },
{
    if p < v.len() && v[p] == marker {
        let r = read_number(v, p + 1);
        proof {
            lemma_digit_run_bounds(v@, p + 1);
        }
        r
    } else {
        Some((0, p))
    }
}

impl ParsedJavaVersion {
    /// Reads a Java version string in legacy (`1.8.0_372`) or modern
    /// (`17.0.2`) form.
    pub fn parse(s: &str) -> (r: Result<ParsedJavaVersion, InvalidVersion>)
        ensures
            match r {
                Ok(v) => parse_version_text(s@) == Some(v.model()),
                Err(e) => parse_version_text(s@) is None && e.text@ == s@,
            },
    {
        let v = chars_of(s);
        let legacy = v.len() >= 2 && v[0] == '1' && v[1] == '.';
        let start: usize = if legacy { 2 } else { 0 };
        let sep = if legacy { '_' } else { '.' };
        let invalid = InvalidVersion { text: string_of(&v, 0, v.len()) };
        proof {
            assert(v@.subrange(0, v@.len() as int) =~= v@);
        }
        let (major, pos1) = match read_number(&v, start) {
            Some(x) => x,
            None => return Err(invalid),
        };
        proof {
            lemma_digit_run_bounds(v@, start as int);
        }
        let (minor, pos2) = match read_marked(&v, pos1, '.') {
            Some(x) => x,
            None => return Err(invalid),
        };
        let (security, pos3) = match read_marked(&v, pos2, sep) {
            Some(x) => x,
            None => return Err(invalid),
        };
        let mut pos4 = pos3;
        let mut prerelease = String::new();
        if pos3 < v.len() && v[pos3] == '-' {
            pos4 = scan_alnum(&v, pos3 + 1);
            proof {
                lemma_alnum_run_bounds(v@, pos3 + 1);
            }
            prerelease = string_of(&v, pos3 + 1, pos4);
        }
        if pos4 != v.len() {
            return Err(invalid);
        }
        let r = ParsedJavaVersion { major, minor, security, prerelease };
        assert(r.prerelease@ =~= r.model().prerelease);
        Ok(r)
    }
}


/// Appends `n` in decimal.
pub(crate) fn push_decimal(s: &mut String, n: u32)
    ensures
        final(s)@ == old(s)@ + decimal_text(n as nat),
    decreases n,
{
    if n >= 10 {
        push_decimal(s, n / 10);
    }
    push_char(s, ((n % 10) as u8 + 48) as char);
    assert(((n % 10) as u8 + 48) as char == digit_char((n % 10) as nat));
}

/// Strict order on `(major, minor, security)`.
pub open spec fn version_lt(a: VersionModel, b: VersionModel) -> bool {
    a.major < b.major || (a.major == b.major && (a.minor < b.minor || (a.minor == b.minor
        && a.security < b.security)))
}

pub open spec fn version_cmp(a: VersionModel, b: VersionModel) -> Ordering {
    if version_lt(a, b) {
        Ordering::Less
    } else if version_lt(b, a) {
        Ordering::Greater
    } else {
        Ordering::Equal
    }
}

fn cmp_u32(a: u32, b: u32) -> (r: Ordering)
    ensures
        r == (if a < b {
            Ordering::Less
        } else if a > b {
            Ordering::Greater
        } else {
            Ordering::Equal
        }),
{
    if a < b {
        Ordering::Less
    } else if a > b {
        Ordering::Greater
    } else {
        Ordering::Equal
    }
}

impl ParsedJavaVersion {
    /// The canonical text of this version.
    pub fn to_string(&self) -> (r: String)
        ensures
            r@ == format_version(self.model()),
    {
        let legacy = self.major <= 8;
        let mut r = String::new();
        if legacy {
            push_str(&mut r, "1.");
        }
        push_decimal(&mut r, self.major);
        let has_pre = self.prerelease.as_str().unicode_len() > 0;
        if self.minor != 0 || self.security != 0 || has_pre {
            push_char(&mut r, '.');
            push_decimal(&mut r, self.minor);
            if self.security != 0 || has_pre {
                push_char(&mut r, if legacy { '_' } else { '.' });
                push_decimal(&mut r, self.security);
                if has_pre {
                    push_char(&mut r, '-');
                    push_str(&mut r, self.prerelease.as_str());
                }
            }
        }
        let ghost v = self.model();
        assert(r@ =~= format_version(v));
        r
    }

    /// Compares `(major, minor, security)` in that order; the prerelease
    /// tag takes no part.
    pub fn cmp(&self, other: &ParsedJavaVersion) -> (r: Ordering)
        ensures
            r == version_cmp(self.model(), other.model()),
    {
        match cmp_u32(self.major, other.major) {
            Ordering::Equal => match cmp_u32(self.minor, other.minor) {
                Ordering::Equal => cmp_u32(self.security, other.security),
                o => o,
            },
            o => o,
        }
    }
}


proof fn lemma_decimal_text(n: nat)
    ensures
        decimal_text(n).len() >= 1,
        n >= 10 ==> decimal_text(n).len() >= 2,
        n < 10 ==> decimal_text(n) == seq![digit_char(n)],
        forall|i: int| 0 <= i < decimal_text(n).len() ==> is_ascii_digit(#[trigger] decimal_text(n)[i]),
        decimal_value(decimal_text(n)) == n,
    decreases n,
{
    if n >= 10 {
        lemma_decimal_text(n / 10);
        let t = decimal_text(n);
        assert(t.drop_last() =~= decimal_text(n / 10));
        assert(digit_char(n % 10) as nat == n % 10 + 48);
        assert(n == (n / 10) * 10 + n % 10);
        assert(t.last() == digit_char(n % 10));
        assert(decimal_value(t) == decimal_value(t.drop_last()) * 10 + (t.last() as nat - 48) as nat);
        assert forall|i: int| 0 <= i < t.len() implies is_ascii_digit(#[trigger] t[i]) by {
            if i < t.len() - 1 {
                assert(t[i] == decimal_text(n / 10)[i]);
            }
        }
    } else {
        let t = decimal_text(n);
        assert(t.drop_last() =~= Seq::<char>::empty());
        assert(digit_char(n) as nat == n + 48);
        assert(decimal_value(t) == decimal_value(t.drop_last()) * 10 + (t.last() as nat - 48) as nat);
    }
}

proof fn lemma_digit_run_to(s: Seq<char>, k: int, e: int)
    requires
        0 <= k <= e <= s.len(),
        forall|i: int| k <= i < e ==> is_ascii_digit(#[trigger] s[i]),
        e == s.len() || !is_ascii_digit(s[e]),
    ensures
        digit_run_end(s, k) == e,
    decreases e - k,
{
    if k < e {
        lemma_digit_run_to(s, k + 1, e);
    }
}

proof fn lemma_alnum_run_to(s: Seq<char>, k: int)
    requires
        0 <= k <= s.len(),
        forall|i: int| k <= i < s.len() ==> is_ascii_alnum(#[trigger] s[i]),
    ensures
        alnum_run_end(s, k) == s.len(),
    decreases s.len() - k,
{
    if k < s.len() {
        lemma_alnum_run_to(s, k + 1);
    }
}

/// A number written in decimal at `a.len()`, followed by no digit, is read back.
proof fn lemma_number_field_of_text(a: Seq<char>, n: u32, b: Seq<char>)
    requires
        b.len() == 0 || !is_ascii_digit(b[0]),
    ensures
        number_field(a + decimal_text(n as nat) + b, a.len() as int) == Some(
            (n, (a.len() + decimal_text(n as nat).len()) as int),
        ),
{
    let d = decimal_text(n as nat);
    let s = a + d + b;
    lemma_decimal_text(n as nat);
    let e: int = (a.len() + d.len()) as int;
    assert forall|i: int| a.len() <= i < e implies is_ascii_digit(#[trigger] s[i]) by {
        assert(s[i] == d[i - a.len()]);
    }
    if b.len() > 0 {
        assert(s[e] == b[0]);
    }
    lemma_digit_run_to(s, a.len() as int, e);
    assert(s.subrange(a.len() as int, e) =~= d);
}

proof fn lemma_head(v: VersionModel)
    ensures
        is_legacy_text(format_version(v)) == (v.major <= 8),
{
    let s = format_version(v);
    let dm = decimal_text(v.major as nat);
    lemma_decimal_text(v.major as nat);
    reveal_strlit("1.");
    if v.major <= 8 {
        assert(s[0] == '1' && s[1] == '.');
    } else {
        assert(s[0] == dm[0]);
        if v.major >= 10 {
            assert(s[1] == dm[1]);
        } else {
            assert(dm == seq![digit_char(v.major as nat)]);
        }
    }
}

pub open spec fn version_head(v: VersionModel) -> Seq<char> {
    if v.major <= 8 {
        "1."@
    } else {
        Seq::empty()
    }
}

pub open spec fn version_sep(v: VersionModel) -> char {
    if v.major <= 8 {
        '_'
    } else {
        '.'
    }
}

proof fn lemma_round_trip_short(v: VersionModel)
    requires
        v.minor == 0 && v.security == 0 && v.prerelease.len() == 0,
    ensures
        parse_version_text(format_version(v)) == Some(v),
{
    let s = format_version(v);
    let head = version_head(v);
    let dm = decimal_text(v.major as nat);
    lemma_head(v);
    reveal_strlit("1.");
    assert(s =~= head + dm + Seq::empty());
    lemma_number_field_of_text(head, v.major, Seq::empty());
    assert(v.prerelease =~= Seq::<char>::empty());
}

proof fn lemma_round_trip_minor(v: VersionModel)
    requires
        v.minor != 0 && v.security == 0 && v.prerelease.len() == 0,
    ensures
        parse_version_text(format_version(v)) == Some(v),
{
    let s = format_version(v);
    let head = version_head(v);
    let dm = decimal_text(v.major as nat);
    let dn = decimal_text(v.minor as nat);
    lemma_head(v);
    reveal_strlit("1.");
    let b1 = seq!['.'] + dn;
    assert(s =~= head + dm + b1);
    lemma_number_field_of_text(head, v.major, b1);
    let a2 = head + dm + seq!['.'];
    assert(s =~= a2 + dn + Seq::empty());
    lemma_number_field_of_text(a2, v.minor, Seq::empty());
    assert(v.prerelease =~= Seq::<char>::empty());
}

proof fn lemma_round_trip_long(v: VersionModel)
    requires
        v.security != 0 || v.prerelease.len() > 0,
        forall|i: int| 0 <= i < v.prerelease.len() ==> is_ascii_alnum(#[trigger] v.prerelease[i]),
    ensures
        parse_version_text(format_version(v)) == Some(v),
{
    let s = format_version(v);
    let head = version_head(v);
    let sep = version_sep(v);
    let has_pre = v.prerelease.len() > 0;
    let dm = decimal_text(v.major as nat);
    let dn = decimal_text(v.minor as nat);
    let ds = decimal_text(v.security as nat);
    lemma_head(v);
    reveal_strlit("1.");
    let tail3 = if has_pre { seq!['-'] + v.prerelease } else { Seq::empty() };
    let tail2 = seq![sep] + ds + tail3;
    let b1 = seq!['.'] + dn + tail2;
    assert(s =~= head + dm + b1);
    lemma_number_field_of_text(head, v.major, b1);
    let a2 = head + dm + seq!['.'];
    assert(s =~= a2 + dn + tail2);
    lemma_number_field_of_text(a2, v.minor, tail2);
    let a3 = a2 + dn + seq![sep];
    assert(s =~= a3 + ds + tail3);
    lemma_number_field_of_text(a3, v.security, tail3);
    let pos3: int = (a3.len() + ds.len()) as int;
    if has_pre {
        assert(s[pos3 as int] == '-');
        assert forall|i: int| pos3 + 1 <= i < s.len() implies is_ascii_alnum(#[trigger] s[i]) by {
            assert(s[i] == v.prerelease[i - pos3 - 1]);
        }
        lemma_alnum_run_to(s, pos3 + 1);
        assert(s.subrange(pos3 + 1, s.len() as int) =~= v.prerelease);
    } else {
        assert(v.prerelease =~= Seq::<char>::empty());
    }
}

/// The text that `to_string` writes reads back as the same version, and so
/// writing what was read from canonical text reproduces that text.
pub proof fn lemma_format_parse_round_trip(v: VersionModel)
    requires
        forall|i: int| 0 <= i < v.prerelease.len() ==> is_ascii_alnum(#[trigger] v.prerelease[i]),
    ensures
        parse_version_text(format_version(v)) == Some(v),
        format_version(parse_version_text(format_version(v))->Some_0) == format_version(v),
{
    if v.security != 0 || v.prerelease.len() > 0 {
        lemma_round_trip_long(v);
    } else if v.minor != 0 {
        lemma_round_trip_minor(v);
    } else {
        lemma_round_trip_short(v);
    }
}


/// Two versions are equal when all four parts are.
impl PartialEq for ParsedJavaVersion {
    fn eq(&self, other: &ParsedJavaVersion) -> (r: bool) {
        self.major == other.major && self.minor == other.minor && self.security == other.security
            && self.prerelease == other.prerelease
    }
}

impl vstd::std_specs::cmp::PartialEqSpecImpl for ParsedJavaVersion {
    open spec fn obeys_eq_spec() -> bool {
        true
    }

    open spec fn eq_spec(&self, other: &ParsedJavaVersion) -> bool {
        self.model() == other.model()
    }
}

/// Versions compare as `cmp` does: by `(major, minor, security)`.
impl PartialOrd for ParsedJavaVersion {
    fn partial_cmp(&self, other: &ParsedJavaVersion) -> (r: Option<Ordering>) {
        Some(self.cmp(other))
    }
}

impl vstd::std_specs::cmp::PartialOrdSpecImpl for ParsedJavaVersion {
    open spec fn obeys_partial_cmp_spec() -> bool {
        true
    }

    open spec fn partial_cmp_spec(&self, other: &ParsedJavaVersion) -> Option<Ordering> {
        Some(version_cmp(self.model(), other.model()))
    }
}

} // verus!
