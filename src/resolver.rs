//! The next version of a package, from the messages of its commits.
use vstd::prelude::*;
use vstd::string::*;
use crate::text::str_eq;
use crate::version::{bump_fits, bumped, can_bump, parts, Version, VersionIncrement};

verus! {

/// What `git_conventional::Commit::parse` makes of a commit message: the
/// commit type's text and whether the commit is breaking; nothing when the
/// message is no conventional commit.
pub uninterp spec fn conventional_of(message: Seq<char>) -> Option<(Seq<char>, bool)>;

/// Whether two commit types are equal as `git_conventional::Type` compares them.
pub uninterp spec fn commit_type_eq(a: Seq<char>, b: Seq<char>) -> bool;

/// What `regex::Regex::new(pattern)` and then `is_match(text)` give: whether
/// the pattern matches, or nothing when the pattern does not compile.
pub uninterp spec fn regex_match(pattern: Seq<char>, text: Seq<char>) -> Option<bool>;

/// Relies on `git_conventional::Commit::parse`, read back through
/// `Commit::type_` (its text) and `Commit::breaking`.
#[verifier::external_body]
fn parse_conventional(message: &str) -> (r: Option<(String, bool)>)
    ensures
        match r {
            Some((t, b)) => conventional_of(message@) == Some((t@, b)),
            None => conventional_of(message@) is None,
        },
{
    git_conventional::Commit::parse(message).ok().map(|c| (c.type_().as_str().to_string(), c.breaking()))
}

/// Every character is ASCII.
pub open spec fn all_ascii(s: Seq<char>) -> bool {
    forall|i: int| 0 <= i < s.len() ==> (#[trigger] s[i] as u32) < 128
}

/// An ASCII letter in lower case; any other character as it is.
pub open spec fn ascii_lower(c: char) -> u32 {
    let u = c as u32;
    if 65 <= u <= 90 {
        (u + 32) as u32
    } else {
        u
    }
}

/// Equal texts when ASCII case is ignored.
pub open spec fn ascii_ci_eq(a: Seq<char>, b: Seq<char>) -> bool {
    a.len() == b.len() && forall|i: int| 0 <= i < a.len() ==> ascii_lower(#[trigger] a[i]) == ascii_lower(b[i])
}

/// Relies on the equality of `git_conventional::Type`: `UniCase::unicode`
/// compares the case-folded characters, which is reflexive and, on ASCII
/// text, equality with ASCII case ignored.
#[verifier::external_body]
fn same_commit_type(a: &str, b: &str) -> (r: bool)
    ensures
        r == commit_type_eq(a@, b@),
        a@ == b@ ==> r,
        all_ascii(a@) && all_ascii(b@) ==> (r == ascii_ci_eq(a@, b@)),
{
    git_conventional::Type::new_unchecked(a) == git_conventional::Type::new_unchecked(b)
}

/// Relies on `regex::Regex::new` and `regex::Regex::is_match`. Whether the
/// pattern compiles depends on the pattern alone.
#[verifier::external_body]
pub(crate) fn regex_is_match(pattern: &str, text: &str) -> (r: Option<bool>)
    ensures
        r == regex_match(pattern@, text@),
        forall|t: Seq<char>| (#[trigger] regex_match(pattern@, t) is Some) == (r is Some),
{
    regex::Regex::new(pattern).ok().map(|re| re.is_match(text))
}

/// A custom increment pattern does not compile.
#[derive(Clone, Copy, Debug, PartialEq, Eq, Structural)]
pub struct InvalidPattern;

/// Settings of the version derivation.
#[derive(Clone, Debug)]
pub struct VersionUpdater {
    pub features_always_increment_minor: bool,
    pub breaking_always_increment_major: bool,
    /// Commit types matching it count as breaking.
    pub custom_major_increment_regex: Option<String>,
    /// Commit types matching it count as features.
    pub custom_minor_increment_regex: Option<String>,
}

pub open spec fn type_docs() -> Seq<char> {
    seq!['d', 'o', 'c', 's']
}

pub open spec fn type_style() -> Seq<char> {
    seq!['s', 't', 'y', 'l', 'e']
}

pub open spec fn type_refactor() -> Seq<char> {
    seq!['r', 'e', 'f', 'a', 'c', 't', 'o', 'r']
}

pub open spec fn type_perf() -> Seq<char> {
    seq!['p', 'e', 'r', 'f']
}

pub open spec fn type_test() -> Seq<char> {
    seq!['t', 'e', 's', 't']
}

pub open spec fn type_chore() -> Seq<char> {
    seq!['c', 'h', 'o', 'r', 'e']
}

pub open spec fn type_feat() -> Seq<char> {
    seq!['f', 'e', 'a', 't']
}

/// Commit types that do not move the version unless breaking: docs, style,
/// refactor, perf, test, chore (compared as commit types) and `ci` (exactly).
pub open spec fn is_excluded_type(t: Seq<char>) -> bool {
    commit_type_eq(t, type_docs()) || commit_type_eq(t, type_style()) || commit_type_eq(
        t,
        type_refactor(),
    ) || commit_type_eq(t, type_perf()) || commit_type_eq(t, type_test()) || commit_type_eq(
        t,
        type_chore(),
    ) || t == seq!['c', 'i']
}

/// A commit as the version derivation sees it: its conventional type, or
/// `None` for a message that is no conventional commit, and whether it is
/// breaking.
pub type Entry = (Option<Seq<char>>, bool);

/// A parsed commit that bears on the version.
pub open spec fn is_relevant(c: (Seq<char>, bool)) -> bool {
    c.1 || !is_excluded_type(c.0)
}

/// The commits among the first `n` messages that bear on the version, in
/// order: relevant conventional commits, and uncategorized ones (messages
/// that do not parse), which carry patch weight.
pub open spec fn relevant_upto(messages: Seq<Seq<char>>, n: int) -> Seq<Entry>
    decreases n,
{
    if n <= 0 {
        Seq::empty()
    } else {
        let prev = relevant_upto(messages, n - 1);
        match conventional_of(messages[n - 1]) {
            Some(c) => if is_relevant(c) {
                prev.push((Some(c.0), c.1))
            } else {
                prev
            },
            None => prev.push((None, false)),
        }
    }
}

/// The commits of a stream of messages that bear on the version.
pub open spec fn relevant_commits(messages: Seq<Seq<char>>) -> Seq<Entry> {
    relevant_upto(messages, messages.len() as int)
}

/// The entry has a conventional type that the pattern matches.
pub open spec fn type_matches(e: Entry, pattern: Seq<char>) -> bool {
    match e.0 {
        Some(t) => regex_match(pattern, t) == Some(true),
        None => false,
    }
}

/// The entry is a feature commit.
pub open spec fn is_feat(e: Entry) -> bool {
    match e.0 {
        Some(t) => commit_type_eq(t, type_feat()),
        None => false,
    }
}

/// Some conventional commit type matches the pattern, when there is one.
pub open spec fn custom_match(pattern: Option<String>, cs: Seq<Entry>) -> bool {
    match pattern {
        Some(p) => exists|i: int| 0 <= i < cs.len() && type_matches(#[trigger] cs[i], p@),
        None => false,
    }
}

pub open spec fn has_feature(cs: Seq<Entry>) -> bool {
    exists|i: int|
        0 <= i < cs.len() && is_feat(#[trigger] cs[i])
}

pub open spec fn has_breaking(cs: Seq<Entry>) -> bool {
    exists|i: int| 0 <= i < cs.len() && (#[trigger] cs[i]).1
}

/// The increment that relevant commits call for, on a version without
/// pre-release tag. A breaking commit, or a type matching the custom major
/// pattern, bumps the major version from 1.0 on (or always, when so set),
/// else the minor version on `0.y` with y > 0, else the patch. Otherwise a
/// feature, or a type matching the custom minor pattern, bumps the minor
/// version from 1.0 on (or always, when so set), else the patch. Anything
/// else bumps the patch.
pub open spec fn conventional_increment(u: VersionUpdater, v: Version, cs: Seq<Entry>) -> VersionIncrement {
    let breaking = has_breaking(cs) || custom_match(u.custom_major_increment_regex, cs);
    let feature = has_feature(cs) || custom_match(u.custom_minor_increment_regex, cs);
    if breaking {
        if v.major != 0 || u.breaking_always_increment_major {
            VersionIncrement::Major
        } else if v.minor != 0 {
            VersionIncrement::Minor
        } else {
            VersionIncrement::Patch
        }
    } else if feature {
        if v.major != 0 || u.features_always_increment_minor {
            VersionIncrement::Minor
        } else {
            VersionIncrement::Patch
        }
    } else {
        VersionIncrement::Patch
    }
}

/// The increment for a commit stream: none without relevant commits, the
/// pre-release counter on a pre-release, else by the conventional rules.
pub open spec fn increment_spec(u: VersionUpdater, v: Version, messages: Seq<Seq<char>>) -> Option<
    VersionIncrement,
> {
    let cs = relevant_commits(messages);
    if cs.len() == 0 {
        None
    } else if v.pre@.len() > 0 {
        Some(VersionIncrement::Prerelease)
    } else {
        Some(conventional_increment(u, v, cs))
    }
}

/// The views of a sequence of strings.
pub open spec fn message_views(v: Seq<String>) -> Seq<Seq<char>> {
    v.map_values(|s: String| s@)
}

/// The view of an optional type.
pub open spec fn type_view(o: Option<String>) -> Option<Seq<char>> {
    match o {
        Some(t) => Some(t@),
        None => None,
    }
}

/// The views of entries.
pub open spec fn entry_views(v: Seq<(Option<String>, bool)>) -> Seq<Entry> {
    v.map_values(|c: (Option<String>, bool)| (type_view(c.0), c.1))
}

/// Every text is tested by the pattern without error: it compiles.
pub open spec fn compiles(pattern: Seq<char>) -> bool {
    forall|t: Seq<char>| #[trigger] regex_match(pattern, t) is Some
}

fn is_excluded(t: &str) -> (r: bool)
    ensures
        r == is_excluded_type(t@),
{
    proof {
        reveal_strlit("docs");
        reveal_strlit("style");
        reveal_strlit("refactor");
        reveal_strlit("perf");
        reveal_strlit("test");
        reveal_strlit("chore");
        reveal_strlit("ci");
        assert("docs"@ =~= type_docs());
        assert("style"@ =~= type_style());
        assert("refactor"@ =~= type_refactor());
        assert("perf"@ =~= type_perf());
        assert("test"@ =~= type_test());
        assert("chore"@ =~= type_chore());
        assert("ci"@ =~= seq!['c', 'i']);
    }
    same_commit_type(t, "docs") || same_commit_type(t, "style") || same_commit_type(t, "refactor")
        || same_commit_type(t, "perf") || same_commit_type(t, "test") || same_commit_type(t, "chore")
        || str_eq(t, "ci")
}

/// The commits of the messages that bear on the version.
fn relevant_of(commits: &[String]) -> (r: Vec<(Option<String>, bool)>)
    ensures
        entry_views(r@) == relevant_commits(message_views(commits@)),
{
    let ghost ms = message_views(commits@);
    let mut r: Vec<(Option<String>, bool)> = Vec::new();
    let mut i: usize = 0;
    while i < commits.len()
        invariant
            i <= commits@.len(),
            ms == message_views(commits@),
            entry_views(r@) == relevant_upto(ms, i as int),
        decreases commits@.len() - i,
    {
        assert(ms[i as int] == commits@[i as int]@);
        let ghost before = entry_views(r@);
        match parse_conventional(commits[i].as_str()) {
            Some((t, b)) => {
                if b || !is_excluded(t.as_str()) {
                    let ghost tv = t@;
                    r.push((Some(t), b));
                    assert(entry_views(r@) =~= before.push((Some(tv), b)));
                }
            },
            None => {
                r.push((None, false));
                assert(entry_views(r@) =~= before.push((None, false)));
            },
        }
        i = i + 1;
    }
    assert(ms.len() == commits@.len());
    r
}

fn any_custom_match(pattern: &Option<String>, cs: &Vec<(Option<String>, bool)>) -> (r: bool)
    ensures
        r == custom_match(*pattern, entry_views(cs@)),
{
    let ghost view = entry_views(cs@);
    match pattern {
        Some(p) => {
            let mut i: usize = 0;
            while i < cs.len()
                invariant
                    i <= cs@.len(),
                    *pattern == Some(*p),
                    view == entry_views(cs@),
                    forall|k: int|
                        0 <= k < i ==> !type_matches(#[trigger] view[k], p@),
                decreases cs@.len() - i,
            {
                assert(view[i as int] == (type_view(cs@[i as int].0), cs@[i as int].1));
                if let Some(t) = &cs[i].0 {
                    if regex_is_match(p.as_str(), t.as_str()) == Some(true) {
                        assert(custom_match(*pattern, view));
                        return true;
                    }
                }
                i = i + 1;
            }
            false
        },
        None => false,
    }
}

impl VersionUpdater {
    /// Default settings: no forced increments, no custom patterns.
    pub fn new() -> (r: Self)
        ensures
            !r.features_always_increment_minor,
            !r.breaking_always_increment_major,
            r.custom_major_increment_regex is None,
            r.custom_minor_increment_regex is None,
    {
        VersionUpdater {
            features_always_increment_minor: false,
            breaking_always_increment_major: false,
            custom_major_increment_regex: None,
            custom_minor_increment_regex: None,
        }
    }

    pub fn with_features_always_increment_minor(self, value: bool) -> (r: Self)
        ensures
            r == (VersionUpdater { features_always_increment_minor: value, ..self }),
    {
        VersionUpdater { features_always_increment_minor: value, ..self }
    }

    pub fn with_breaking_always_increment_major(self, value: bool) -> (r: Self)
        ensures
            r == (VersionUpdater { breaking_always_increment_major: value, ..self }),
    {
        VersionUpdater { breaking_always_increment_major: value, ..self }
    }

    /// Sets the custom major pattern; fails when it does not compile.
    pub fn with_custom_major_increment_regex(self, pattern: String) -> (r: Result<Self, InvalidPattern>)
        ensures
            match r {
                Ok(u) => u == (VersionUpdater { custom_major_increment_regex: Some(pattern), ..self })
                    && compiles(pattern@),
                Err(_) => !compiles(pattern@),
            },
    {
        if regex_is_match(pattern.as_str(), "").is_none() {
            return Err(InvalidPattern);
        }
        Ok(VersionUpdater { custom_major_increment_regex: Some(pattern), ..self })
    }

    /// Sets the custom minor pattern; fails when it does not compile.
    pub fn with_custom_minor_increment_regex(self, pattern: String) -> (r: Result<Self, InvalidPattern>)
        ensures
            match r {
                Ok(u) => u == (VersionUpdater { custom_minor_increment_regex: Some(pattern), ..self })
                    && compiles(pattern@),
                Err(_) => !compiles(pattern@),
            },
    {
        if regex_is_match(pattern.as_str(), "").is_none() {
            return Err(InvalidPattern);
        }
        Ok(VersionUpdater { custom_minor_increment_regex: Some(pattern), ..self })
    }

    /// The next version: the current one bumped by the increment the commits
    /// call for, or unchanged when they call for none; `None` when the number
    /// to increment is already the largest one.
    pub fn increment(&self, version: &Version, commits: &[String]) -> (r: Option<Version>)
        ensures
            match increment_spec(*self, *version, message_views(commits@)) {
                Some(inc) => if bump_fits(inc, *version) {
                    r matches Some(v) && parts(v) == bumped(inc, *version)
                } else {
                    r is None
                },
                None => r matches Some(v) && parts(v) == parts(*version),
            },
    {
        match VersionIncrement::from_commits_with_updater(self, version, commits) {
            Some(inc) => {
                if inc.fits(version) {
                    Some(inc.bump(version))
                } else {
                    None
                }
            },
            None => Some(
                Version {
                    major: version.major,
                    minor: version.minor,
                    patch: version.patch,
                    pre: version.pre.clone(),
                    build: version.build.clone(),
                },
            ),
        }
    }
}

impl VersionIncrement {
    /// The increment for the commit messages under default settings.
    pub fn from_commits(current_version: &Version, commits: &[String]) -> (r: Option<Self>)
        ensures
            r == increment_spec(VersionUpdater::new_spec(), *current_version, message_views(commits@)),
    {
        let updater = VersionUpdater::new();
        Self::from_commits_with_updater(&updater, current_version, commits)
    }

    /// The increment for the commit messages (see [`increment_spec`]).
    pub fn from_commits_with_updater(
        updater: &VersionUpdater,
        current_version: &Version,
        commits: &[String],
    ) -> (r: Option<Self>)
        ensures
            r == increment_spec(*updater, *current_version, message_views(commits@)),
    {
        let relevant = relevant_of(commits);
        if relevant.len() == 0 {
            return None;
        }
        if current_version.is_prerelease() {
            return Some(VersionIncrement::Prerelease);
        }
        Some(Self::from_conventional_commits(current_version, &relevant, updater))
    }

    fn from_conventional_commits(
        current: &Version,
        commits: &Vec<(Option<String>, bool)>,
        updater: &VersionUpdater,
    ) -> (r: Self)
        ensures
            r == conventional_increment(*updater, *current, entry_views(commits@)),
    {
        let ghost cs = entry_views(commits@);
        let feat = "feat";
        proof {
            reveal_strlit("feat");
            assert(feat@ =~= type_feat());
        }
        let mut feature = false;
        let mut breaking = false;
        let mut i: usize = 0;
        while i < commits.len()
            invariant
                i <= commits@.len(),
                cs == entry_views(commits@),
                feat@ == type_feat(),
                feature == exists|k: int|
                    0 <= k < i && is_feat(#[trigger] cs[k]),
                breaking == exists|k: int| 0 <= k < i && (#[trigger] cs[k]).1,
            decreases commits@.len() - i,
        {
            assert(cs[i as int] == (type_view(commits@[i as int].0), commits@[i as int].1));
            if let Some(t) = &commits[i].0 {
                if same_commit_type(t.as_str(), feat) {
                    feature = true;
                }
            }
            if commits[i].1 {
                breaking = true;
            }
            i = i + 1;
        }
        let b = breaking || any_custom_match(&updater.custom_major_increment_regex, commits);
        let f = feature || any_custom_match(&updater.custom_minor_increment_regex, commits);
        if b {
            if current.major != 0 || updater.breaking_always_increment_major {
                VersionIncrement::Major
            } else if current.minor != 0 {
                VersionIncrement::Minor
            } else {
                VersionIncrement::Patch
            }
        } else if f {
            if current.major != 0 || updater.features_always_increment_minor {
                VersionIncrement::Minor
            } else {
                VersionIncrement::Patch
            }
        } else {
            VersionIncrement::Patch
        }
    }
}

impl VersionUpdater {
    /// The default settings, as a value.
    pub open spec fn new_spec() -> VersionUpdater {
        VersionUpdater {
            features_always_increment_minor: false,
            breaking_always_increment_major: false,
            custom_major_increment_regex: None,
            custom_minor_increment_regex: None,
        }
    }
}

/// A commit stream without relevant commits leaves the version unchanged.
pub proof fn lemma_no_relevant_commits_keep_version(
    u: VersionUpdater,
    v: Version,
    messages: Seq<Seq<char>>,
)
    requires
        relevant_commits(messages).len() == 0,
    ensures
        increment_spec(u, v, messages) is None,
{
}

/// A relevant breaking commit on a version without pre-release tag moves
/// `(major, minor, patch)` strictly up.
pub proof fn lemma_breaking_commit_increases_version(
    u: VersionUpdater,
    v: Version,
    messages: Seq<Seq<char>>,
)
    requires
        has_breaking(relevant_commits(messages)),
        v.pre@.len() == 0,
        can_bump(v),
    ensures
        increment_spec(u, v, messages) is Some,
        ({
            let b = bumped(increment_spec(u, v, messages)->Some_0, v);
            b.0 > v.major || (b.0 == v.major && b.1 > v.minor) || (b.0 == v.major && b.1 == v.minor
                && b.2 > v.patch)
        }),
{
    let cs = relevant_commits(messages);
    let i = choose|i: int| 0 <= i < cs.len() && (#[trigger] cs[i]).1;
    assert(cs.len() > 0);
}

} // verus!
