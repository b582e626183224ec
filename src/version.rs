//! Semantic versions and the derivation of the next version from commits.
use vstd::prelude::*;
use vstd::string::*;
use crate::text::{append_decimal, decimal, owned, str_eq};

verus! {

/// A semantic version: `major.minor.patch`, an optional pre-release tag and
/// optional build metadata (each empty when absent).
#[derive(Clone, Debug)]
pub struct Version {
    pub major: u64,
    pub minor: u64,
    pub patch: u64,
    pub pre: String,
    pub build: String,
}

/// What `semver::Version::parse` makes of a text: major, minor, patch,
/// pre-release and build text, or nothing when the text is no semantic version.
pub uninterp spec fn semver_parse(text: Seq<char>) -> Option<(u64, u64, u64, Seq<char>, Seq<char>)>;

/// Relies on `semver::Version::parse`, read back through the fields of the
/// parsed version and `Prerelease::as_str` / `BuildMetadata::as_str`.
#[verifier::external_body]
fn semver_parse_parts(text: &str) -> (r: Option<(u64, u64, u64, String, String)>)
    ensures
        match r {
            Some((a, b, c, p, m)) => semver_parse(text@) == Some((a, b, c, p@, m@)),
            None => semver_parse(text@) is None,
        },
{
    semver::Version::parse(text).ok().map(
        |v| (v.major, v.minor, v.patch, v.pre.as_str().to_string(), v.build.as_str().to_string()),
    )
}

/// The text of a version: `major.minor.patch`, then `-pre` and `+build` when present.
pub open spec fn version_text(v: Version) -> Seq<char> {
    let core = decimal(v.major as nat) + seq!['.'] + decimal(v.minor as nat) + seq!['.'] + decimal(
        v.patch as nat,
    );
    let with_pre = if v.pre@.len() > 0 {
        core + seq!['-'] + v.pre@
    } else {
        core
    };
    if v.build@.len() > 0 {
        with_pre + seq!['+'] + v.build@
    } else {
        with_pre
    }
}

impl Version {
    /// `major.minor.patch`, without pre-release or build.
    pub fn new(major: u64, minor: u64, patch: u64) -> (r: Version)
        ensures
            r.major == major && r.minor == minor && r.patch == patch,
            r.pre@.len() == 0 && r.build@.len() == 0,
    {
        let pre = String::new();
        let build = String::new();
        Version { major, minor, patch, pre, build }
    }

    /// Parses a semantic version.
    pub fn parse(text: &str) -> (r: Option<Version>)
        ensures
            match r {
                Some(v) => semver_parse(text@) == Some((v.major, v.minor, v.patch, v.pre@, v.build@)),
                None => semver_parse(text@) is None,
            },
    {
        match semver_parse_parts(text) {
            Some((major, minor, patch, pre, build)) => Some(Version { major, minor, patch, pre, build }),
            None => None,
        }
    }

    /// A copy of the version.
    pub fn copy(&self) -> (r: Version)
        ensures
            r == *self,
    {
        Version {
            major: self.major,
            minor: self.minor,
            patch: self.patch,
            pre: self.pre.clone(),
            build: self.build.clone(),
        }
    }

    /// Whether the version carries a pre-release tag.
    pub fn is_prerelease(&self) -> (r: bool)
        ensures
            r == (self.pre@.len() > 0),
    {
        self.pre.unicode_len() > 0
    }

    /// The text of the version (see [`version_text`]).
    pub fn to_string(&self) -> (r: String)
        ensures
            r@ == version_text(*self),
    {
        let dot = ".";
        let dash = "-";
        let plus = "+";
        proof {
            reveal_strlit(".");
            reveal_strlit("-");
            reveal_strlit("+");
            assert(dot@ =~= seq!['.']);
            assert(dash@ =~= seq!['-']);
            assert(plus@ =~= seq!['+']);
        }
        let mut r = String::new();
        append_decimal(&mut r, self.major);
        r.append(dot);
        append_decimal(&mut r, self.minor);
        r.append(dot);
        append_decimal(&mut r, self.patch);
        if self.pre.unicode_len() > 0 {
            r.append(dash);
            r.append(self.pre.as_str());
        }
        if self.build.unicode_len() > 0 {
            r.append(plus);
            r.append(self.build.as_str());
        }
        assert(r@ =~= version_text(*self));
        r
    }

    /// Same version, pre-release and build.
    pub fn same_as(&self, other: &Version) -> (r: bool)
        ensures
            r == (self.major == other.major && self.minor == other.minor && self.patch
                == other.patch && self.pre@ == other.pre@ && self.build@ == other.build@),
    {
        self.major == other.major && self.minor == other.minor && self.patch == other.patch
            && str_eq(self.pre.as_str(), other.pre.as_str()) && str_eq(
            self.build.as_str(),
            other.build.as_str(),
        )
    }
}

/// The part of a version to increment.
#[derive(Clone, Copy, Debug, PartialEq, Eq, Structural)]
pub enum VersionIncrement {
    Major,
    Minor,
    Patch,
    Prerelease,
}

/// The value of a string of decimal digits.
pub open spec fn digits_value(s: Seq<char>) -> nat
    decreases s.len(),
{
    if s.len() == 0 {
        0
    } else {
        digits_value(s.drop_last()) * 10 + (s.last() as nat - '0' as nat) as nat
    }
}

/// Every character of `s` is an ASCII digit.
pub open spec fn all_digits(s: Seq<char>) -> bool {
    forall|i: int| 0 <= i < s.len() ==> '0' <= #[trigger] s[i] <= '9'
}

/// Index of the last `.` in `s`.
pub open spec fn last_dot(s: Seq<char>) -> Option<int> {
    if exists|i: int| 0 <= i < s.len() && s[i] == '.' {
        Some(choose|i: int| 0 <= i < s.len() && s[i] == '.' && forall|j: int| i < j < s.len() ==> s[j] != '.')
    } else {
        None
    }
}

/// The next pre-release tag: a trailing `.N` (N a number below 2^32 - 1)
/// becomes `.N+1`; any other tag gets `.1` appended.
pub open spec fn next_prerelease(pre: Seq<char>) -> Seq<char> {
    match last_dot(pre) {
        Some(i) => {
            let right = pre.subrange(i + 1, pre.len() as int);
            if right.len() > 0 && all_digits(right) && digits_value(right) < u32::MAX {
                pre.subrange(0, i + 1) + decimal(digits_value(right) + 1)
            } else {
                pre + seq!['.', '1']
            }
        },
        None => pre + seq!['.', '1'],
    }
}

/// The version after applying an increment.
pub open spec fn bumped(inc: VersionIncrement, v: Version) -> (u64, u64, u64, Seq<char>, Seq<char>) {
    match inc {
        VersionIncrement::Major => ((v.major + 1) as u64, 0, 0, Seq::empty(), Seq::empty()),
        VersionIncrement::Minor => (v.major, (v.minor + 1) as u64, 0, Seq::empty(), Seq::empty()),
        VersionIncrement::Patch => (v.major, v.minor, (v.patch + 1) as u64, Seq::empty(), Seq::empty()),
        VersionIncrement::Prerelease => (v.major, v.minor, v.patch, next_prerelease(v.pre@), v.build@),
    }
}

/// The version fields as a tuple of plain values.
pub open spec fn parts(v: Version) -> (u64, u64, u64, Seq<char>, Seq<char>) {
    (v.major, v.minor, v.patch, v.pre@, v.build@)
}

/// The number that an increment raises is below the largest one.
pub open spec fn bump_fits(inc: VersionIncrement, v: Version) -> bool {
    match inc {
        VersionIncrement::Major => v.major < u64::MAX,
        VersionIncrement::Minor => v.minor < u64::MAX,
        VersionIncrement::Patch => v.patch < u64::MAX,
        VersionIncrement::Prerelease => true,
    }
}

/// The numbers of a version leave room for any increment.
pub open spec fn can_bump(v: Version) -> bool {
    v.major < u64::MAX && v.minor < u64::MAX && v.patch < u64::MAX
}

fn next_prerelease_text(pre: &str) -> (r: String)
    ensures
        r@ == next_prerelease(pre@),
{
    let n = pre.unicode_len();
    let suffix = ".1";
    proof {
        reveal_strlit(".1");
        assert(suffix@ =~= seq!['.', '1']);
    }
    let mut i: usize = n;
    while i > 0 && pre.get_char(i - 1) != '.'
        invariant
            n == pre@.len(),
            i <= n,
            forall|j: int| i <= j < n ==> pre@[j] != '.',
        decreases i,
    {
        i = i - 1;
    }
    if i == 0 {
        proof {
            if exists|k: int| 0 <= k < pre@.len() && pre@[k] == '.' {
                let k = choose|k: int| 0 <= k < pre@.len() && pre@[k] == '.';
                assert(pre@[k] != '.');
            }
        }
        let mut r = owned(pre);
        r.append(suffix);
        return r;
    }
    let dot = i - 1;
    proof {
        let w = choose|w: int| 0 <= w < pre@.len() && pre@[w] == '.' && forall|j: int| w < j < pre@.len() ==> pre@[j] != '.';
        assert(pre@[dot as int] == '.');
        if w < dot {
            assert(pre@[dot as int] != '.');
        }
        if dot < w {
            assert(pre@[w] != '.');
        }
        assert(last_dot(pre@) == Some(dot as int));
    }
    let right = pre.substring_char(i, n);
    let m = right.unicode_len();
    let mut value: u64 = 0;
    let mut k: usize = 0;
    let mut ok = m > 0;
    while ok && k < m
        invariant
            m == right@.len(),
            k <= m,
            ok ==> all_digits(right@.subrange(0, k as int)),
            ok ==> value == digits_value(right@.subrange(0, k as int)),
            ok ==> value < u32::MAX,
            ok ==> m > 0,
            !ok ==> !(right@.len() > 0 && all_digits(right@) && digits_value(right@) < u32::MAX),
        decreases m - k,
    {
        let c = right.get_char(k);
        assert(right@.subrange(0, k as int + 1).drop_last() =~= right@.subrange(0, k as int));
        if c < '0' || c > '9' {
            ok = false;
            assert(!all_digits(right@)) by {
                assert(!('0' <= right@[k as int] <= '9'));
            }
        } else {
            let d = (c as u32 - '0' as u32) as u64;
            let next = value * 10 + d;
            if next >= 4294967295 {
                ok = false;
                proof {
                    lemma_digits_value_prefix_mono(right@, k as int + 1);
                }
            } else {
                value = next;
            }
        }
        k = k + 1;
    }
    if ok {
        assert(right@.subrange(0, m as int) =~= right@);
        assert(right@ == pre@.subrange(dot + 1, pre@.len() as int));
        let mut r = owned(pre.substring_char(0, i));
        append_decimal(&mut r, value + 1);
        r
    } else {
        let mut r = owned(pre);
        r.append(suffix);
        r
    }
}

proof fn lemma_digits_value_prefix_mono(s: Seq<char>, k: int)
    requires
        0 <= k <= s.len(),
    ensures
        all_digits(s) ==> digits_value(s.subrange(0, k)) <= digits_value(s),
    decreases s.len() - k,
{
    if k < s.len() && all_digits(s) {
        lemma_digits_value_prefix_mono(s, k + 1);
        let a = s.subrange(0, k);
        let b = s.subrange(0, k + 1);
        assert(b.drop_last() =~= a);
        assert('0' <= b.last() <= '9');
    } else if k == s.len() {
        assert(s.subrange(0, k) =~= s);
    }
}

impl VersionIncrement {
    /// The increment for a breaking change: the pre-release counter when there
    /// is a pre-release tag, else patch for `0.0.x`, minor for `0.x`, major above.
    pub fn breaking(current_version: &Version) -> (r: Self)
        ensures
            r == (if current_version.pre@.len() > 0 {
                VersionIncrement::Prerelease
            } else if current_version.major == 0 && current_version.minor == 0 {
                VersionIncrement::Patch
            } else if current_version.major == 0 {
                VersionIncrement::Minor
            } else {
                VersionIncrement::Major
            }),
    {
        if current_version.is_prerelease() {
            VersionIncrement::Prerelease
        } else if current_version.major == 0 && current_version.minor == 0 {
            VersionIncrement::Patch
        } else if current_version.major == 0 {
            VersionIncrement::Minor
        } else {
            VersionIncrement::Major
        }
    }

    /// Whether the number this increment raises has room for it.
    pub fn fits(&self, version: &Version) -> (r: bool)
        ensures
            r == bump_fits(*self, *version),
    {
        match self {
            VersionIncrement::Major => version.major < u64::MAX,
            VersionIncrement::Minor => version.minor < u64::MAX,
            VersionIncrement::Patch => version.patch < u64::MAX,
            VersionIncrement::Prerelease => true,
        }
    }

    /// The version after this increment (see [`bumped`]).
    pub fn bump(&self, version: &Version) -> (r: Version)
        requires
            bump_fits(*self, *version),
        ensures
            parts(r) == bumped(*self, *version),
    {
        match self {
            VersionIncrement::Major => Version::new(version.major + 1, 0, 0),
            VersionIncrement::Minor => Version::new(version.major, version.minor + 1, 0),
            VersionIncrement::Patch => Version::new(version.major, version.minor, version.patch + 1),
            VersionIncrement::Prerelease => Version {
                major: version.major,
                minor: version.minor,
                patch: version.patch,
                pre: next_prerelease_text(version.pre.as_str()),
                build: version.build.clone(),
            },
        }
    }
}

} // verus!
