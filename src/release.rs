//! Decisions of the release command: whether to release, what to name it.
use vstd::prelude::*;
use vstd::string::*;
use crate::forge::{is_release_branch, GitPr};
use crate::release_config::{GitReleaseConfig, GitReleaseInfo};
use crate::changelog::{changelog_from_pr_body, extract_changelog_from_pr_body, last_changes, last_changes_spec};
use crate::text::{owned, starts_with, str_eq};
use crate::version::{version_text, Version};

verus! {

/// Whether the current commit is to be released, and from which commit.
#[derive(Clone, Debug)]
pub enum ShouldRelease {
    /// Release the current commit.
    Yes,
    /// Release from this commit: the last commit of the release PR.
    YesWithCommit(String),
    No,
}

/// The first pull request on a release branch, if any.
pub open spec fn first_release_pr(prs: Seq<GitPr>, prefix: Seq<char>) -> Option<int> {
    if exists|i: int| 0 <= i < prs.len() && is_release_branch(prs[i].head.ref_field@, prefix) {
        Some(
            choose|i: int|
                0 <= i < prs.len() && is_release_branch(prs[i].head.ref_field@, prefix) && forall|
                    j: int,
                | 0 <= j < i ==> !is_release_branch(prs[j].head.ref_field@, prefix),
        )
    } else {
        None
    }
}

/// Position of the first pull request whose head branch begins with the prefix.
pub fn find_release_pr(prs: &[GitPr], branch_prefix: &str) -> (r: Option<usize>)
    ensures
        r matches Some(i) ==> i < prs@.len(),
        match r {
            Some(i) => first_release_pr(prs@, branch_prefix@) == Some(i as int),
            None => first_release_pr(prs@, branch_prefix@) is None,
        },
{
    let mut i: usize = 0;
    while i < prs.len()
        invariant
            i <= prs@.len(),
            forall|j: int| 0 <= j < i ==> !is_release_branch(prs@[j].head.ref_field@, branch_prefix@),
        decreases prs@.len() - i,
    {
        if starts_with(prs[i].head.ref_field.as_str(), branch_prefix) {
            proof {
                let w = choose|w: int|
                    0 <= w < prs@.len() && is_release_branch(prs@[w].head.ref_field@, branch_prefix@)
                        && forall|j: int|
                        0 <= j < w ==> !is_release_branch(prs@[j].head.ref_field@, branch_prefix@);
                assert(is_release_branch(prs@[i as int].head.ref_field@, branch_prefix@));
                if w < i {
                } else if i < w {
                }
            }
            return Some(i);
        }
        i = i + 1;
    }
    None
}

/// Whether to release. With a release PR merged into the current commit:
/// from the PR's last commit when that commit differs from the current one
/// and is still on the checked-out branch, else from the current commit. Without
/// one: only when releases are made on every commit.
pub fn release_decision(
    release_pr_found: bool,
    last_pr_commit: Option<&str>,
    current_commit: &str,
    last_commit_on_checked_out_branch: bool,
    release_always: bool,
) -> (r: ShouldRelease)
    ensures
        match r {
            ShouldRelease::YesWithCommit(s) => release_pr_found && last_pr_commit.is_some()
                && s@ == last_pr_commit.unwrap()@ && s@ != current_commit@
                && last_commit_on_checked_out_branch,
            ShouldRelease::Yes => (release_pr_found && (last_pr_commit.is_none() || last_pr_commit.unwrap()@
                == current_commit@ || !last_commit_on_checked_out_branch)) || (!release_pr_found
                && release_always),
            ShouldRelease::No => !release_pr_found && !release_always,
        },
{
    if release_pr_found {
        match last_pr_commit {
            Some(c) => {
                if !str_eq(c, current_commit) && last_commit_on_checked_out_branch {
                    ShouldRelease::YesWithCommit(owned(c))
                } else {
                    ShouldRelease::Yes
                }
            },
            None => ShouldRelease::Yes,
        }
    } else if release_always {
        ShouldRelease::Yes
    } else {
        ShouldRelease::No
    }
}

/// `Version ` followed by the version: the release name of a unified
/// workspace without a name template.
pub fn default_unified_release_name(version: &Version) -> (r: String)
    ensures
        r@ == seq!['V', 'e', 'r', 's', 'i', 'o', 'n', ' '] + version_text(*version),
{
    let mut r = owned("Version ");
    proof {
        reveal_strlit("Version ");
    }
    let v = version.to_string();
    r.append(v.as_str());
    r
}

/// The annotated message of a release tag:
/// `chore: Release package {name} version {version}`.
pub fn tag_message(package: &str, version: &Version) -> (r: String)
    ensures
        r@ == seq!['c', 'h', 'o', 'r', 'e', ':', ' ', 'R', 'e', 'l', 'e', 'a', 's', 'e', ' ', 'p', 'a', 'c', 'k', 'a', 'g', 'e', ' ']
            + package@ + seq![' ', 'v', 'e', 'r', 's', 'i', 'o', 'n', ' '] + version_text(*version),
{
    proof {
        reveal_strlit("chore: Release package ");
        reveal_strlit(" version ");
    }
    let mut r = owned("chore: Release package ");
    r.append(package);
    r.append(" version ");
    let v = version.to_string();
    r.append(v.as_str());
    r
}

/// The default tag name: `v{version}` in a unified workspace, else
/// `{package}-v{version}`.
pub fn default_tag_name(package: &str, version: &Version, unified: bool) -> (r: String)
    ensures
        unified ==> r@ == seq!['v'] + version_text(*version),
        !unified ==> r@ == package@ + seq!['-', 'v'] + version_text(*version),
{
    proof {
        reveal_strlit("v");
        reveal_strlit("-v");
    }
    let v = version.to_string();
    if unified {
        let mut r = owned("v");
        r.append(v.as_str());
        r
    } else {
        let mut r = owned(package);
        r.append("-v");
        r.append(v.as_str());
        r
    }
}

/// What a forge release of `version` is created with, under `config`.
pub fn git_release_info(
    config: &GitReleaseConfig,
    version: &Version,
    git_tag: String,
    release_name: String,
    release_body: String,
) -> (r: GitReleaseInfo)
    ensures
        r.git_tag == git_tag && r.release_name == release_name && r.release_body == release_body,
        r.latest == config.latest && r.draft == config.draft,
        r.pre_release == match config.release_type {
            crate::release_config::ReleaseType::Pre => true,
            crate::release_config::ReleaseType::Auto => version.pre@.len() > 0,
            crate::release_config::ReleaseType::Prod => false,
        },
{
    GitReleaseInfo {
        git_tag,
        release_name,
        release_body,
        latest: config.latest,
        draft: config.draft,
        pre_release: config.is_pre_release(version),
    }
}

/// The views of strings, each once, in the order first seen.
pub open spec fn unique_upto(v: Seq<Seq<char>>, n: int) -> Seq<Seq<char>>
    decreases n,
{
    if n <= 0 {
        Seq::empty()
    } else {
        let prev = unique_upto(v, n - 1);
        if prev.contains(v[n - 1]) {
            prev
        } else {
            prev.push(v[n - 1])
        }
    }
}

/// The logins of PR authors without repeats, in the order first seen.
pub fn unique_logins(logins: &[String]) -> (r: Vec<String>)
    ensures
        crate::forge::views(r@) == unique_upto(crate::forge::views(logins@), logins@.len() as int),
{
    let ghost lv = crate::forge::views(logins@);
    let mut r: Vec<String> = Vec::new();
    let mut i: usize = 0;
    while i < logins.len()
        invariant
            i <= logins@.len(),
            lv == crate::forge::views(logins@),
            crate::forge::views(r@) == unique_upto(lv, i as int),
        decreases logins@.len() - i,
    {
        assert(lv[i as int] == logins@[i as int]@);
        let mut seen = false;
        let mut k: usize = 0;
        while k < r.len()
            invariant
                k <= r@.len(),
                i < logins@.len(),
                seen == exists|t: int| 0 <= t < k && r@[t]@ == logins@[i as int]@,
            decreases r@.len() - k,
        {
            if str_eq(r[k].as_str(), logins[i].as_str()) {
                seen = true;
            }
            k = k + 1;
        }
        proof {
            let rv = crate::forge::views(r@);
            if rv.contains(lv[i as int]) {
                let t = choose|t: int| 0 <= t < rv.len() && rv[t] == lv[i as int];
                assert(r@[t]@ == logins@[i as int]@);
            }
            if seen {
                let t = choose|t: int| 0 <= t < k && r@[t]@ == logins@[i as int]@;
                assert(rv[t] == lv[i as int]);
            }
        }
        if !seen {
            r.push(owned(logins[i].as_str()));
            assert(crate::forge::views(r@) =~= unique_upto(lv, i as int).push(lv[i as int]));
        }
        i = i + 1;
    }
    r
}

/// What a dry run skips for a package.
pub fn dry_run_skipped(git_tag: &str, tag_enabled: bool, release_enabled: bool) -> (r: Vec<String>)
    ensures
        r@.len() == (if tag_enabled { 1int } else { 0 }) + (if release_enabled { 1int } else { 0 }),
        tag_enabled ==> r@[0]@ == seq!['c', 'r', 'e', 'a', 't', 'i', 'o', 'n', ' ', 'o', 'f', ' ', 't', 'a', 'g', ' ', '\'']
            + git_tag@ + seq!['\''],
        release_enabled ==> r@[r@.len() - 1]@ == "creation of git release"@,
{
    proof {
        reveal_strlit("creation of tag '");
        reveal_strlit("'");
    }
    let mut r: Vec<String> = Vec::new();
    if tag_enabled {
        let mut s = owned("creation of tag '");
        s.append(git_tag);
        s.append("'");
        r.push(s);
    }
    if release_enabled {
        r.push(owned("creation of git release"));
    }
    r
}

/// What releasing one package does.
#[derive(Clone, Copy, Debug, PartialEq, Eq, Structural)]
pub enum TagAction {
    /// No tag is created.
    NoTag,
    /// The tag is created and pushed locally, so that it is signed.
    Local,
    /// The tag is created through the forge.
    Forge,
}

/// The steps of the release of one package.
#[derive(Clone, Copy, Debug, PartialEq, Eq, Structural)]
pub struct ReleaseSteps {
    /// Nothing is done: the tag exists already.
    pub skip: bool,
    pub tag: TagAction,
    pub create_release: bool,
    /// A dry run only reports what it would do.
    pub report_only: bool,
}

/// The steps of releasing a package: nothing when its tag exists; in a dry
/// run only a report; else the tag (signed locally when tag signing is
/// configured, through the forge otherwise) when tags are enabled, and the
/// forge release when releases are enabled.
pub fn release_steps(
    tag_exists: bool,
    dry_run: bool,
    tag_enabled: bool,
    release_enabled: bool,
    sign_tags: bool,
) -> (r: ReleaseSteps)
    ensures
        r.skip == tag_exists,
        r.report_only == (!tag_exists && dry_run),
        r.tag == (if tag_exists || dry_run || !tag_enabled {
            TagAction::NoTag
        } else if sign_tags {
            TagAction::Local
        } else {
            TagAction::Forge
        }),
        r.create_release == (!tag_exists && !dry_run && release_enabled),
{
    if tag_exists {
        return ReleaseSteps { skip: true, tag: TagAction::NoTag, create_release: false, report_only: false };
    }
    if dry_run {
        return ReleaseSteps { skip: false, tag: TagAction::NoTag, create_release: false, report_only: true };
    }
    let tag = if !tag_enabled {
        TagAction::NoTag
    } else if sign_tags {
        TagAction::Local
    } else {
        TagAction::Forge
    };
    ReleaseSteps { skip: false, tag, create_release: release_enabled, report_only: false }
}

/// The release notes of a package: the last entry of its changelog file when
/// the package keeps one and it has an entry, else nothing.
pub fn last_changelog_entry(changelog_update: bool, changelog: Option<&str>) -> (r: String)
    ensures
        r@ == (if !changelog_update {
            Seq::<char>::empty()
        } else {
            match changelog {
                Some(t) => match last_changes_spec(t@) {
                    Some(e) => e,
                    None => Seq::<char>::empty(),
                },
                None => Seq::<char>::empty(),
            }
        }),
{
    let empty = String::new();
    assert(empty@ =~= Seq::<char>::empty());
    if !changelog_update {
        return empty;
    }
    match changelog {
        Some(t) => match last_changes(t) {
            Some(e) => e,
            None => empty,
        },
        None => empty,
    }
}

/// The release notes of a unified workspace: the changelog carried by the
/// body of the first associated release PR, or nothing.
pub fn workspace_changelog_entry(prs: &[GitPr], branch_prefix: &str) -> (r: String)
    ensures
        r@ == match first_release_pr(prs@, branch_prefix@) {
            Some(i) => match prs@[i].body {
                Some(b) => changelog_from_pr_body(b@),
                None => Seq::<char>::empty(),
            },
            None => Seq::<char>::empty(),
        },
{
    let empty = String::new();
    assert(empty@ =~= Seq::<char>::empty());
    match find_release_pr(prs, branch_prefix) {
        Some(i) => {
            proof {
                let w = choose|w: int|
                    0 <= w < prs@.len() && is_release_branch(prs@[w].head.ref_field@, branch_prefix@)
                        && forall|j: int|
                        0 <= j < w ==> !is_release_branch(prs@[j].head.ref_field@, branch_prefix@);
                assert(w == i);
            }
            match &prs[i].body {
                Some(b) => extract_changelog_from_pr_body(b.as_str()),
                None => empty,
            }
        },
        None => empty,
    }
}

/// A released package in the command's report.
#[derive(Debug)]
pub struct PackageRelease {
    pub package_name: String,
    /// Numbers of the pull requests the release notes mention.
    pub prs: Vec<u64>,
    /// Tag name, reported also when no tag was created.
    pub tag: String,
    pub version: Version,
}

/// What the release command reports.
#[derive(Debug)]
pub struct Release {
    pub releases: Vec<PackageRelease>,
}

/// The report of a unified workspace release: nothing when the tag exists
/// already or this is a dry run; else one release, named `workspace`, with
/// the workspace version, its tag and the pull requests of its notes.
pub fn unified_release(
    tag_exists: bool,
    dry_run: bool,
    version: Version,
    tag: String,
    prs: Vec<u64>,
) -> (r: Option<Release>)
    ensures
        (tag_exists || dry_run) ==> r is None,
        !(tag_exists || dry_run) ==> r is Some && r->Some_0.releases@.len() == 1 && ({
            let p = r->Some_0.releases@[0];
            p.package_name@ == "workspace"@ && p.tag == tag && p.version == version && p.prs == prs
        }),
{
    if tag_exists || dry_run {
        return None;
    }
    let mut releases: Vec<PackageRelease> = Vec::new();
    releases.push(PackageRelease { package_name: owned("workspace"), prs, tag, version });
    Some(Release { releases })
}

} // verus!
