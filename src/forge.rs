//! Values exchanged with a git forge, and the decisions taken on them.
use vstd::prelude::*;
use vstd::string::*;
use crate::text::{ends_with, owned, starts_with, str_eq, trim, trimmed};

verus! {

/// The three forge dialects.
#[derive(Clone, Copy, Debug, PartialEq, Eq, Structural)]
pub enum ForgeType {
    Github,
    Gitea,
    Gitlab,
}

/// Author of a commit or a pull request.
#[derive(Clone, Debug)]
pub struct Author {
    pub id: i32,
    pub login: String,
}

/// A commit of a pull request.
#[derive(Debug)]
pub struct PrCommit {
    pub author: Option<Author>,
    pub sha: String,
}

/// A commit of a GitLab merge request.
#[derive(Clone, Debug)]
pub struct GitLabMrCommit {
    pub id: String,
}

/// Head of a pull request: its branch and commit.
#[derive(Clone, Debug)]
pub struct Commit {
    pub ref_field: String,
    pub sha: String,
}

/// A label of a repository or of a pull request.
#[derive(Clone, Debug)]
pub struct Label {
    pub name: String,
    /// Used by Gitea and GitHub; GitLab responses have none.
    pub id: Option<u64>,
}

/// A pull request as the forge reports it.
#[derive(Clone, Debug)]
pub struct GitPr {
    pub user: Author,
    pub number: u64,
    pub html_url: String,
    pub head: Commit,
    pub title: String,
    pub body: Option<String>,
    pub labels: Vec<Label>,
}

/// Author of a GitLab merge request.
#[derive(Clone, Debug)]
pub struct GitLabAuthor {
    pub id: i32,
    pub username: String,
}

/// A GitLab merge request.
#[derive(Clone, Debug)]
pub struct GitLabMr {
    pub author: GitLabAuthor,
    pub iid: u64,
    pub web_url: String,
    pub sha: String,
    pub source_branch: String,
    pub title: String,
    pub description: String,
    pub labels: Vec<String>,
}

/// A remote contributor.
#[derive(Clone, Debug, Default)]
pub struct RemoteCommit {
    /// Username of the author.
    pub username: Option<String>,
}

/// A commit as GitHub reports it.
#[derive(Clone, Debug, Default)]
pub struct GitHubCommit {
    pub sha: String,
    pub author: Option<GitHubCommitAuthor>,
}

/// Author of a GitHub commit.
#[derive(Clone, Debug, Default)]
pub struct GitHubCommitAuthor {
    pub login: Option<String>,
}

/// Edit of a GitLab merge request.
#[derive(Debug)]
pub struct GitLabMrEdit {
    pub title: Option<String>,
    pub description: Option<String>,
    pub state_event: Option<String>,
}

/// Edit of a pull request: the fields to change.
#[derive(Debug)]
pub struct PrEdit {
    pub title: Option<String>,
    pub body: Option<String>,
    pub state: Option<String>,
}

/// Options of a forge release.
#[derive(Debug)]
pub struct CreateReleaseOption {
    pub tag_name: String,
    pub body: String,
    pub name: String,
    pub draft: bool,
    pub prerelease: bool,
    /// Only GitHub honours it.
    pub make_latest: Option<String>,
}

/// Owner, repository and API base of a forge remote.
#[derive(Clone, Debug)]
pub struct Remote {
    pub owner: String,
    pub repo: String,
    pub base_url: String,
}

/// The forge a repository is on, with its remote.
#[derive(Clone, Debug)]
pub enum GitForge {
    Github(Remote),
    Gitea(Remote),
    Gitlab(Remote),
}

impl GitForge {
    /// The dialect and the remote.
    pub fn into_parts(self) -> (r: (ForgeType, Remote))
        ensures
            match self {
                GitForge::Github(rem) => r == (ForgeType::Github, rem),
                GitForge::Gitea(rem) => r == (ForgeType::Gitea, rem),
                GitForge::Gitlab(rem) => r == (ForgeType::Gitlab, rem),
            },
    {
        match self {
            GitForge::Github(rem) => (ForgeType::Github, rem),
            GitForge::Gitea(rem) => (ForgeType::Gitea, rem),
            GitForge::Gitlab(rem) => (ForgeType::Gitlab, rem),
        }
    }
}

/// Where forge releases are made.
#[derive(Clone, Debug)]
pub struct GitRelease {
    pub forge: GitForge,
}

impl Remote {
    /// `owner/repo`.
    pub fn owner_slash_repo(&self) -> (r: String)
        ensures
            r@ == self.owner@ + seq!['/'] + self.repo@,
    {
        let slash = "/";
        proof {
            reveal_strlit("/");
            assert(slash@ =~= seq!['/']);
        }
        let mut r = owned(self.owner.as_str());
        r.append(slash);
        r.append(self.repo.as_str());
        r
    }
}

impl GitPr {
    /// The head branch of the pull request.
    pub fn branch(&self) -> (r: &str)
        ensures
            r@ == self.head.ref_field@,
    {
        self.head.ref_field.as_str()
    }

    /// The names of its labels, in order.
    pub fn label_names(&self) -> (r: Vec<String>)
        ensures
            r@.len() == self.labels@.len(),
            forall|i: int| 0 <= i < r@.len() ==> r@[i]@ == self.labels@[i].name@,
    {
        let mut r: Vec<String> = Vec::new();
        let mut i: usize = 0;
        while i < self.labels.len()
            invariant
                i <= self.labels@.len(),
                r@.len() == i,
                forall|k: int| 0 <= k < i ==> r@[k]@ == self.labels@[k].name@,
            decreases self.labels@.len() - i,
        {
            r.push(owned(self.labels[i].name.as_str()));
            i = i + 1;
        }
        r
    }
}

impl PrEdit {
    /// An edit that changes nothing.
    pub fn new() -> (r: Self)
        ensures
            r.title is None && r.body is None && r.state is None,
    {
        PrEdit { title: None, body: None, state: None }
    }

    pub fn with_title(self, title: String) -> (r: Self)
        ensures
            r.title == Some(title),
            r.body == self.body,
            r.state == self.state,
    {
        PrEdit { title: Some(title), ..self }
    }

    pub fn with_body(self, body: String) -> (r: Self)
        ensures
            r.body == Some(body),
            r.title == self.title,
            r.state == self.state,
    {
        PrEdit { body: Some(body), ..self }
    }

    pub fn with_state(self, state: String) -> (r: Self)
        ensures
            r.state == Some(state),
            r.title == self.title,
            r.body == self.body,
    {
        PrEdit { state: Some(state), ..self }
    }

    /// Whether the edit changes anything.
    pub fn contains_edit(&self) -> (r: bool)
        ensures
            r == (self.title is Some || self.body is Some || self.state is Some),
    {
        self.title.is_some() || self.body.is_some() || self.state.is_some()
    }

    /// The same edit in GitLab's words.
    pub fn into_gitlab(self) -> (r: GitLabMrEdit)
        ensures
            r.title == self.title,
            r.description == self.body,
            r.state_event == self.state,
    {
        GitLabMrEdit { title: self.title, description: self.body, state_event: self.state }
    }
}

impl GitLabMrCommit {
    /// The commit as a pull-request commit, without author.
    pub fn into_pr_commit(self) -> (r: PrCommit)
        ensures
            r.author is None,
            r.sha == self.id,
    {
        PrCommit { author: None, sha: self.id }
    }
}

impl ForgeType {
    /// Query key of the page size.
    pub fn per_page(&self) -> (r: &'static str)
        ensures
            *self == ForgeType::Gitea ==> r@ == seq!['l', 'i', 'm', 'i', 't'],
            *self != ForgeType::Gitea ==> r@ == seq!['p', 'e', 'r', '_', 'p', 'a', 'g', 'e'],
    {
        proof {
            reveal_strlit("limit");
            reveal_strlit("per_page");
        }
        match self {
            ForgeType::Github | ForgeType::Gitlab => "per_page",
            ForgeType::Gitea => "limit",
        }
    }

    /// State token of an open pull request.
    pub fn param_value_pr_state_open(&self) -> (r: &'static str)
        ensures
            *self == ForgeType::Gitlab ==> r@ == seq!['o', 'p', 'e', 'n', 'e', 'd'],
            *self != ForgeType::Gitlab ==> r@ == seq!['o', 'p', 'e', 'n'],
    {
        proof {
            reveal_strlit("open");
            reveal_strlit("opened");
        }
        match self {
            ForgeType::Github | ForgeType::Gitea => "open",
            ForgeType::Gitlab => "opened",
        }
    }

    /// Verb that closes a pull request.
    pub fn closed_pr_state(&self) -> (r: &'static str)
        ensures
            *self == ForgeType::Gitlab ==> r@ == seq!['c', 'l', 'o', 's', 'e'],
            *self != ForgeType::Gitlab ==> r@ == seq!['c', 'l', 'o', 's', 'e', 'd'],
    {
        proof {
            reveal_strlit("closed");
            reveal_strlit("close");
        }
        match self {
            ForgeType::Github | ForgeType::Gitea => "closed",
            ForgeType::Gitlab => "close",
        }
    }
}

/// `[bot]`
pub open spec fn bot_suffix() -> Seq<char> {
    seq!['[', 'b', 'o', 't', ']']
}

/// A bot account: a login ending in `[bot]`, or Gitea's actions account (id -2).
pub open spec fn is_bot(a: Author, forge: ForgeType) -> bool {
    (bot_suffix().len() <= a.login@.len() && a.login@.subrange(
        a.login@.len() - bot_suffix().len(),
        a.login@.len() as int,
    ) == bot_suffix()) || (forge == ForgeType::Gitea && a.id == -2)
}

/// The contributors among the first `n` commits: the logins of the authors of
/// every commit but the first (the PR author), bots left out, each once, in
/// the order first seen.
pub open spec fn contributors_upto(commits: Seq<PrCommit>, forge: ForgeType, n: int) -> Seq<
    Seq<char>,
>
    decreases n,
{
    if n <= 1 {
        Seq::empty()
    } else {
        let prev = contributors_upto(commits, forge, n - 1);
        match commits[n - 1].author {
            Some(a) => if !is_bot(a, forge) && !prev.contains(a.login@) {
                prev.push(a.login@)
            } else {
                prev
            },
            None => prev,
        }
    }
}

/// The views of a vector of strings.
pub open spec fn views(v: Seq<String>) -> Seq<Seq<char>> {
    v.map_values(|s: String| s@)
}

fn contains_str(v: &Vec<String>, s: &str) -> (r: bool)
    ensures
        r == views(v@).contains(s@),
{
    let mut i: usize = 0;
    while i < v.len()
        invariant
            i <= v@.len(),
            forall|k: int| 0 <= k < i ==> v@[k]@ != s@,
        decreases v@.len() - i,
    {
        if str_eq(v[i].as_str(), s) {
            assert(views(v@)[i as int] == s@);
            return true;
        }
        i = i + 1;
    }
    proof {
        if views(v@).contains(s@) {
            let k = choose|k: int| 0 <= k < views(v@).len() && views(v@)[k] == s@;
            assert(v@[k]@ == s@);
        }
    }
    false
}

/// The contributors of a pull request's commits (see [`contributors_upto`]).
pub fn contributors_from_commits(commits: &[PrCommit], forge: ForgeType) -> (r: Vec<String>)
    ensures
        views(r@) == contributors_upto(commits@, forge, commits@.len() as int),
{
    let bot = "[bot]";
    proof {
        reveal_strlit("[bot]");
        assert(bot@ =~= bot_suffix());
    }
    let mut r: Vec<String> = Vec::new();
    let n = commits.len();
    if n == 0 {
        assert(views(r@) =~= Seq::<Seq<char>>::empty());
        return r;
    }
    let mut i: usize = 1;
    assert(views(r@) =~= contributors_upto(commits@, forge, 1));
    while i < n
        invariant
            n == commits@.len(),
            1 <= i <= n,
            bot@ == bot_suffix(),
            views(r@) == contributors_upto(commits@, forge, i as int),
        decreases n - i,
    {
        match &commits[i].author {
            Some(a) => {
                let gitea_actions = forge == ForgeType::Gitea && a.id == -2;
                let bot_account = ends_with(a.login.as_str(), bot) || gitea_actions;
                if !bot_account && !contains_str(&r, a.login.as_str()) {
                    r.push(owned(a.login.as_str()));
                    assert(views(r@) =~= contributors_upto(commits@, forge, i as int).push(
                        a.login@,
                    ));
                }
            },
            None => {},
        }
        i = i + 1;
    }
    r
}

/// What is wrong with a label.
#[derive(Clone, Copy, Debug, PartialEq, Eq, Structural)]
pub enum LabelProblem {
    TooLong,
    Whitespace,
    Empty,
    Duplicate,
}

/// A label that cannot be added, and why.
#[derive(Debug)]
pub struct LabelError {
    pub label: String,
    pub problem: LabelProblem,
}

/// The number of bytes of a character in UTF-8.
pub open spec fn char_utf8_len(c: char) -> nat {
    let u = c as u32;
    if u < 0x80 {
        1
    } else if u < 0x800 {
        2
    } else if u < 0x10000 {
        3
    } else {
        4
    }
}

/// The number of bytes of a text in UTF-8.
pub open spec fn utf8_len(s: Seq<char>) -> nat
    decreases s.len(),
{
    if s.len() == 0 {
        0
    } else {
        utf8_len(s.drop_last()) + char_utf8_len(s.last())
    }
}

proof fn lemma_utf8_len_prefix(s: Seq<char>, k: int)
    requires
        0 <= k <= s.len(),
    ensures
        utf8_len(s.subrange(0, k)) <= utf8_len(s),
    decreases s.len() - k,
{
    if k < s.len() {
        lemma_utf8_len_prefix(s, k + 1);
        assert(s.subrange(0, k + 1).drop_last() =~= s.subrange(0, k));
    } else {
        assert(s.subrange(0, k) =~= s);
    }
}

/// Whether the UTF-8 length of `s` exceeds `limit`.
pub fn utf8_len_over(s: &str, limit: u64) -> (r: bool)
    requires
        limit <= u64::MAX / 2,
    ensures
        r == (utf8_len(s@) > limit),
{
    let n = s.unicode_len();
    let mut total: u64 = 0;
    let mut k: usize = 0;
    while k < n
        invariant
            n == s@.len(),
            k <= n,
            limit <= u64::MAX / 2,
            total == utf8_len(s@.subrange(0, k as int)),
            total <= limit,
        decreases n - k,
    {
        let u = s.get_char(k) as u32;
        let w: u64 = if u < 0x80 {
            1
        } else if u < 0x800 {
            2
        } else if u < 0x10000 {
            3
        } else {
            4
        };
        assert(s@.subrange(0, k as int + 1).drop_last() =~= s@.subrange(0, k as int));
        total = total + w;
        k = k + 1;
        if total > limit {
            proof {
                lemma_utf8_len_prefix(s@, k as int);
            }
            return true;
        }
    }
    assert(s@.subrange(0, n as int) =~= s@);
    false
}

/// What is wrong with a label on its own, checked in this order.
pub open spec fn label_problem(l: Seq<char>) -> Option<LabelProblem> {
    if utf8_len(l) > 50 {
        Some(LabelProblem::TooLong)
    } else if trimmed(l) != l {
        Some(LabelProblem::Whitespace)
    } else if l.len() == 0 {
        Some(LabelProblem::Empty)
    } else {
        None
    }
}

/// What is wrong with the `i`-th label of a list.
pub open spec fn label_error_at(ls: Seq<Seq<char>>, i: int) -> Option<LabelProblem> {
    match label_problem(ls[i]) {
        Some(p) => Some(p),
        None => if ls.subrange(0, i).contains(ls[i]) {
            Some(LabelProblem::Duplicate)
        } else {
            None
        },
    }
}

impl LabelError {
    /// The error message.
    pub fn message(&self) -> (r: String)
        ensures
            r@ == "Failed to add label `"@ + self.label@ + match self.problem {
                LabelProblem::TooLong => "`: it exceeds maximum length of 50 characters."@,
                LabelProblem::Whitespace => "`: leading or trailing whitespace is not allowed."@,
                LabelProblem::Empty => "`: empty labels are not allowed."@,
                LabelProblem::Duplicate => "`: duplicate labels are not allowed."@,
            },
    {
        let mut r = owned("Failed to add label `");
        r.append(self.label.as_str());
        let reason = match self.problem {
            LabelProblem::TooLong => "`: it exceeds maximum length of 50 characters.",
            LabelProblem::Whitespace => "`: leading or trailing whitespace is not allowed.",
            LabelProblem::Empty => "`: empty labels are not allowed.",
            LabelProblem::Duplicate => "`: duplicate labels are not allowed.",
        };
        proof {
            reveal_strlit("Failed to add label `");
        }
        r.append(reason);
        r
    }
}

/// Checks PR labels: each at most 50 bytes in UTF-8, without surrounding
/// whitespace, non-empty, and no label twice. Reports the first bad label.
pub fn validate_labels(labels: &[String]) -> (r: Result<(), LabelError>)
    ensures
        r is Ok <==> forall|i: int| 0 <= i < labels@.len() ==> label_error_at(views(labels@), i) is None,
        r matches Err(e) ==> exists|i: int|
            0 <= i < labels@.len() && label_error_at(views(labels@), i) == Some(e.problem)
                && e.label@ == labels@[i]@ && forall|j: int|
                0 <= j < i ==> label_error_at(views(labels@), j) is None,
{
    let ghost ls = views(labels@);
    let n = labels.len();
    let mut i: usize = 0;
    while i < n
        invariant
            n == labels@.len(),
            ls == views(labels@),
            i <= n,
            forall|j: int| 0 <= j < i ==> label_error_at(ls, j) is None,
        decreases n - i,
    {
        let l = labels[i].as_str();
        assert(ls[i as int] == l@);
        let problem = if utf8_len_over(l, 50) {
            Some(LabelProblem::TooLong)
        } else if !str_eq(trim(l), l) {
            Some(LabelProblem::Whitespace)
        } else if l.unicode_len() == 0 {
            Some(LabelProblem::Empty)
        } else {
            let mut k: usize = 0;
            let mut dup = false;
            while k < i
                invariant
                    i < n,
                    n == labels@.len(),
                    ls == views(labels@),
                    l@ == ls[i as int],
                    k <= i,
                    !dup ==> forall|t: int| 0 <= t < k ==> ls[t] != l@,
                    dup ==> ls.subrange(0, i as int).contains(l@),
                decreases i - k,
            {
                if !dup && str_eq(labels[k].as_str(), l) {
                    dup = true;
                    assert(ls.subrange(0, i as int)[k as int] == l@);
                }
                k = k + 1;
            }
            proof {
                if !dup && ls.subrange(0, i as int).contains(l@) {
                    let t = choose|t: int|
                        0 <= t < i && ls.subrange(0, i as int)[t] == l@;
                    assert(ls[t] == l@);
                }
            }
            if dup {
                Some(LabelProblem::Duplicate)
            } else {
                None
            }
        };
        assert(problem == label_error_at(ls, i as int));
        if let Some(p) = problem {
            return Err(LabelError { label: owned(l), problem: p });
        }
        i = i + 1;
    }
    Ok(())
}

/// A head branch that begins with the release branch prefix.
pub open spec fn is_release_branch(branch: Seq<char>, prefix: Seq<char>) -> bool {
    prefix.len() <= branch.len() && branch.subrange(0, prefix.len() as int) == prefix
}

/// Positions, among the first `n` pull requests, of those on a release branch.
pub open spec fn release_positions(prs: Seq<GitPr>, prefix: Seq<char>, n: int) -> Seq<usize>
    decreases n,
{
    if n <= 0 {
        Seq::empty()
    } else {
        let prev = release_positions(prs, prefix, n - 1);
        if is_release_branch(prs[n - 1].head.ref_field@, prefix) {
            prev.push((n - 1) as usize)
        } else {
            prev
        }
    }
}

proof fn lemma_release_positions(prs: Seq<GitPr>, prefix: Seq<char>, n: int)
    requires
        0 <= n <= prs.len(),
        n <= usize::MAX,
    ensures
        forall|k: int|
            0 <= k < release_positions(prs, prefix, n).len() ==> {
                let p = #[trigger] release_positions(prs, prefix, n)[k] as int;
                0 <= p < n && is_release_branch(prs[p].head.ref_field@, prefix)
            },
        forall|p: int|
            0 <= p < n && is_release_branch(prs[p].head.ref_field@, prefix) ==> exists|k: int|
                0 <= k < release_positions(prs, prefix, n).len() && release_positions(
                    prs,
                    prefix,
                    n,
                )[k] == p,
        forall|a: int, b: int|
            0 <= a < b < release_positions(prs, prefix, n).len() ==> release_positions(
                prs,
                prefix,
                n,
            )[a] < release_positions(prs, prefix, n)[b],
    decreases n,
{
    if n > 0 {
        lemma_release_positions(prs, prefix, n - 1);
        let prev = release_positions(prs, prefix, n - 1);
        if is_release_branch(prs[n - 1].head.ref_field@, prefix) {
            let cur = prev.push((n - 1) as usize);
            assert forall|p: int|
                0 <= p < n && is_release_branch(prs[p].head.ref_field@, prefix) implies exists|k: int|
                0 <= k < cur.len() && cur[k] == p by {
                if p == n - 1 {
                    assert(cur[prev.len() as int] == p);
                } else {
                    let k = choose|k: int| 0 <= k < prev.len() && prev[k] == p;
                    assert(cur[k] == p);
                }
            }
        }
    }
}

/// Positions of the pull requests whose head branch begins with `branch_prefix`.
pub fn release_pr_positions(prs: &[GitPr], branch_prefix: &str) -> (r: Vec<usize>)
    ensures
        r@ == release_positions(prs@, branch_prefix@, prs@.len() as int),
{
    let mut r: Vec<usize> = Vec::new();
    let n = prs.len();
    let mut i: usize = 0;
    while i < n
        invariant
            n == prs@.len(),
            i <= n,
            r@ == release_positions(prs@, branch_prefix@, i as int),
        decreases n - i,
    {
        if starts_with(prs[i].head.ref_field.as_str(), branch_prefix) {
            r.push(i);
        }
        i = i + 1;
    }
    r
}

/// Errors of release-PR detection.
#[derive(Debug)]
pub enum DetectError {
    /// More than one open release PR: the positions of two of them.
    MultipleReleasePrs(usize, usize),
}

/// Finds the open release PR among the open pull requests: `None` when there is
/// none, its position when there is exactly one, an error when there are more.
pub fn detect_release_pr(open_prs: &[GitPr], branch_prefix: &str) -> (r: Result<
    Option<usize>,
    DetectError,
>)
    ensures
        ({
            let pos = release_positions(open_prs@, branch_prefix@, open_prs@.len() as int);
            &&& (r == Ok::<Option<usize>, DetectError>(None)) <==> pos.len() == 0
            &&& forall|i: usize|
                (r == Ok::<Option<usize>, DetectError>(Some(i))) <==> (pos.len() == 1 && pos[0] == i)
            &&& (r is Err) <==> pos.len() > 1
        }),
{
    let pos = release_pr_positions(open_prs, branch_prefix);
    if pos.len() == 0 {
        Ok(None)
    } else if pos.len() == 1 {
        Ok(Some(pos[0]))
    } else {
        Err(DetectError::MultipleReleasePrs(pos[0], pos[1]))
    }
}

/// Whenever detection succeeds, at most one open pull request is on a release
/// branch, and the one it names is that pull request.
pub proof fn lemma_release_pr_at_most_one(prs: Seq<GitPr>, prefix: Seq<char>, i: usize)
    requires
        prs.len() <= usize::MAX,
        ({
            let pos = release_positions(prs, prefix, prs.len() as int);
            pos.len() == 1 && pos[0] == i
        }),
    ensures
        i < prs.len(),
        is_release_branch(prs[i as int].head.ref_field@, prefix),
        forall|p: int|
            0 <= p < prs.len() && is_release_branch(prs[p].head.ref_field@, prefix) ==> p == i,
{
    lemma_release_positions(prs, prefix, prs.len() as int);
    let pos = release_positions(prs, prefix, prs.len() as int);
    assert(0 <= pos[0] < prs.len());
    assert forall|p: int|
        0 <= p < prs.len() && is_release_branch(prs[p].head.ref_field@, prefix) implies p == i by {
        let k = choose|k: int| 0 <= k < pos.len() && pos[k] == p;
        assert(k == 0);
    }
}

/// When there is no release pull request among them, detection says so.
pub proof fn lemma_no_release_pr(prs: Seq<GitPr>, prefix: Seq<char>)
    requires
        prs.len() <= usize::MAX,
        forall|p: int| 0 <= p < prs.len() ==> !is_release_branch(prs[p].head.ref_field@, prefix),
    ensures
        release_positions(prs, prefix, prs.len() as int).len() == 0,
{
    lemma_release_positions(prs, prefix, prs.len() as int);
    let pos = release_positions(prs, prefix, prs.len() as int);
    if pos.len() > 0 {
        assert(0 <= pos[0] < prs.len());
    }
}

} // verus!
