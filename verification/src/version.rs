//! Semantic versions for database servers: parsing of version strings (with
//! an optional leading run of `v` stripped) and the major.minor.patch order.

use vstd::prelude::*;
use vstd::string::StrSliceExecFns;

verus! {

/// A semantic version, reduced to what the adapter orders by: the numeric
/// major.minor.patch triple.
#[derive(Debug, Clone, Copy, PartialEq, Eq, Structural)]
pub struct Version {
    pub major: u64,
    pub minor: u64,
    pub patch: u64,
}

/// Lexicographic order on major, then minor, then patch.
pub open spec fn version_le(a: Version, b: Version) -> bool {
    if a.major != b.major {
        a.major < b.major
    } else if a.minor != b.minor {
        a.minor < b.minor
    } else {
        a.patch <= b.patch
    }
}

impl Version {
    pub fn new(major: u64, minor: u64, patch: u64) -> (r: Version)
        ensures
            r == (Version { major, minor, patch }),
    {
        Version { major, minor, patch }
    }

    /// Decides the version order.
    pub fn le(&self, other: &Version) -> (r: bool)
        ensures
            r == version_le(*self, *other),
    {
        if self.major != other.major {
            self.major < other.major
        } else if self.minor != other.minor {
            self.minor < other.minor
        } else {
            self.patch <= other.patch
        }
    }
}

/// The order is total: any two versions compare one way or the other.
pub proof fn lemma_version_order_total(a: Version, b: Version)
    ensures
        version_le(a, b) || version_le(b, a),
        version_le(a, b) && version_le(b, a) ==> a == b,
{
}

/// A version string with every leading `v` removed.
pub open spec fn strip_leading_v(s: Seq<char>) -> Seq<char>
    decreases s.len(),
{
    if s.len() > 0 && s[0] == 'v' {
        strip_leading_v(s.subrange(1, s.len() as int))
    } else {
        s
    }
}

/// The numeric major.minor.patch of a semantic-version string, or `None`
/// where the string is not a valid semantic version.
pub uninterp spec fn semver_triple(s: Seq<char>) -> Option<(u64, u64, u64)>;

/// Relies on `semver::Version::parse`: the numeric components of a valid
/// semantic-version string, `None` on a parse failure. The result depends on
/// the characters of the string alone.
#[verifier::external_body]
fn parse_semver(s: &str) -> (r: Option<(u64, u64, u64)>)
    ensures
        r == semver_triple(s@),
{
    match semver::Version::parse(s) {
        Ok(v) => Some((v.major, v.minor, v.patch)),
        Err(_) => None,
    }
}

/// What parsing a version string yields: strip the leading `v` run, then
/// read the string as a semantic version.
pub open spec fn parsed_version(s: Seq<char>) -> Option<Version> {
    match semver_triple(strip_leading_v(s)) {
        Some(t) => Some(Version { major: t.0, minor: t.1, patch: t.2 }),
        None => None,
    }
}

/// Stripping a run of `k` leading `v` characters reaches the stripped form
/// as soon as the character after the run is not a `v`.
proof fn lemma_strip_at(s: Seq<char>, k: int)
    requires
        0 <= k <= s.len(),
        forall|j: int| 0 <= j < k ==> s[j] == 'v',
        k == s.len() || s[k] != 'v',
    ensures
        strip_leading_v(s) == s.subrange(k, s.len() as int),
    decreases k,
{
    if k == 0 {
        assert(s.subrange(0, s.len() as int) =~= s);
    } else {
        let t = s.subrange(1, s.len() as int);
        lemma_strip_at(t, k - 1);
        assert(t.subrange(k - 1, t.len() as int) =~= s.subrange(k, s.len() as int));
    }
}

/// Parses a database-server version string. A leading run of `v` is
/// stripped; what remains must be a valid semantic version.
pub fn parse_version(s: &str) -> (r: Option<Version>)
    ensures
        r == parsed_version(s@),
{
    let len: usize = s.unicode_len();
    let mut i: usize = 0;
    while i < len && s.get_char(i) == 'v'
        invariant
            0 <= i <= len,
            len == s@.len(),
            forall|j: int| 0 <= j < i ==> s@[j] == 'v',
        decreases len - i,
    {
        i = i + 1;
    }
    proof {
        lemma_strip_at(s@, i as int);
    }
    let tail = s.substring_char(i, len);
    match parse_semver(tail) {
        Some(t) => Some(Version { major: t.0, minor: t.1, patch: t.2 }),
        None => None,
    }
}

} // verus!
