//! Endpoints of the three forge dialects and the label bookkeeping of a PR.
use vstd::prelude::*;
use vstd::string::*;
use crate::forge::{
    views, Author, Commit, CreateReleaseOption, ForgeType, GitLabAuthor, GitLabMr, GitPr, Label, Remote,
};
use crate::release_config::GitReleaseInfo;
use crate::text::{append_decimal, decimal, owned, str_eq};

verus! {

/// The repository's API base: `{base}repos/{owner}/{repo}` on GitHub and
/// Gitea, the base itself on GitLab.
pub open spec fn repo_api_spec(forge: ForgeType, remote: Remote) -> Seq<char> {
    if forge == ForgeType::Gitlab {
        remote.base_url@
    } else {
        remote.base_url@ + "repos/"@ + remote.owner@ + seq!['/'] + remote.repo@
    }
}

/// The repository's API base (see [`repo_api_spec`]).
pub fn repo_api_url(forge: ForgeType, remote: &Remote) -> (r: String)
    ensures
        r@ == repo_api_spec(forge, *remote),
{
    match forge {
        ForgeType::Gitlab => owned(remote.base_url.as_str()),
        _ => {
            let mut r = owned(remote.base_url.as_str());
            r.append("repos/");
            let owner_repo = remote.owner_slash_repo();
            r.append(owner_repo.as_str());
            r
        },
    }
}

/// The pull requests endpoint: `/pulls`, or `/merge_requests` on GitLab.
pub fn pulls_url(forge: ForgeType, remote: &Remote) -> (r: String)
    ensures
        r@ == repo_api_spec(forge, *remote) + (if forge == ForgeType::Gitlab {
            "/merge_requests"@
        } else {
            "/pulls"@
        }),
{
    let mut r = repo_api_url(forge, remote);
    match forge {
        ForgeType::Gitlab => r.append("/merge_requests"),
        _ => r.append("/pulls"),
    }
    r
}

/// The issues endpoint.
pub fn issues_url(forge: ForgeType, remote: &Remote) -> (r: String)
    ensures
        r@ == repo_api_spec(forge, *remote) + "/issues"@,
{
    let mut r = repo_api_url(forge, remote);
    r.append("/issues");
    r
}

/// The labels endpoint of a pull request.
pub fn pr_labels_url(forge: ForgeType, remote: &Remote, pr_number: u64) -> (r: String)
    ensures
        r@ == repo_api_spec(forge, *remote) + "/issues"@ + seq!['/'] + decimal(pr_number as nat)
            + "/labels"@,
{
    let mut r = issues_url(forge, remote);
    r.append("/");
    proof {
        reveal_strlit("/");
    }
    append_decimal(&mut r, pr_number);
    r.append("/labels");
    r
}

/// The endpoint of the pull requests associated with a commit.
pub fn associated_prs_url(forge: ForgeType, remote: &Remote, commit: &str) -> (r: String)
    ensures
        r@ == repo_api_spec(forge, *remote) + match forge {
            ForgeType::Github => "/commits/"@ + commit@ + "/pulls"@,
            ForgeType::Gitea => "/commits/"@ + commit@ + "/pull"@,
            ForgeType::Gitlab => "/repository/commits/"@ + commit@ + "/merge_requests"@,
        },
{
    let mut r = repo_api_url(forge, remote);
    let ghost base = r@;
    match forge {
        ForgeType::Github => {
            r.append("/commits/");
            r.append(commit);
            r.append("/pulls");
        },
        ForgeType::Gitea => {
            r.append("/commits/");
            r.append(commit);
            r.append("/pull");
        },
        ForgeType::Gitlab => {
            r.append("/repository/commits/");
            r.append(commit);
            r.append("/merge_requests");
        },
    }
    assert(r@ =~= base + match forge {
        ForgeType::Github => "/commits/"@ + commit@ + "/pulls"@,
        ForgeType::Gitea => "/commits/"@ + commit@ + "/pull"@,
        ForgeType::Gitlab => "/repository/commits/"@ + commit@ + "/merge_requests"@,
    });
    r
}

/// The endpoint of one commit: `/commits/{sha}` on GitHub, `/git/commits/{sha}`
/// on Gitea; GitLab has none here.
pub fn commits_api_path(forge: ForgeType, remote: &Remote, commit: &str) -> (r: Option<String>)
    ensures
        match forge {
            ForgeType::Github => r matches Some(s) && s@ == repo_api_spec(forge, *remote) + "/commits/"@
                + commit@,
            ForgeType::Gitea => r matches Some(s) && s@ == repo_api_spec(forge, *remote)
                + "/git/commits/"@ + commit@,
            ForgeType::Gitlab => r is None,
        },
{
    match forge {
        ForgeType::Github => {
            let mut r = repo_api_url(forge, remote);
            r.append("/commits/");
            r.append(commit);
            Some(r)
        },
        ForgeType::Gitea => {
            let mut r = repo_api_url(forge, remote);
            r.append("/git/commits/");
            r.append(commit);
            Some(r)
        },
        ForgeType::Gitlab => None,
    }
}

/// Pages of open pull requests are read until one comes back short: the
/// next page to read, if any.
pub fn next_page(page: u32, page_len: usize, page_size: usize) -> (r: Option<u32>)
    ensures
        r == (if page_len < page_size || page == u32::MAX {
            None::<u32>
        } else {
            Some((page + 1) as u32)
        }),
{
    if page_len < page_size || page == u32::MAX {
        None
    } else {
        Some(page + 1)
    }
}

impl GitPr {
    /// A GitLab merge request as a pull request: an empty description is no
    /// body, labels carry no id.
    pub fn from_gitlab(mr: GitLabMr) -> (r: GitPr)
        ensures
            r.number == mr.iid,
            r.html_url == mr.web_url,
            r.head.ref_field == mr.source_branch && r.head.sha == mr.sha,
            r.title == mr.title,
            mr.description@.len() == 0 ==> r.body is None,
            mr.description@.len() > 0 ==> r.body == Some(mr.description),
            r.user.id == mr.author.id && r.user.login == mr.author.username,
            r.labels@.len() == mr.labels@.len(),
            forall|i: int|
                0 <= i < r.labels@.len() ==> r.labels@[i].name@ == mr.labels@[i]@
                    && r.labels@[i].id == None::<u64>,
    {
        let body = if mr.description.unicode_len() == 0 {
            None
        } else {
            Some(mr.description)
        };
        let mut labels: Vec<Label> = Vec::new();
        let mut i: usize = 0;
        while i < mr.labels.len()
            invariant
                i <= mr.labels@.len(),
                labels@.len() == i,
                forall|k: int|
                    0 <= k < i ==> labels@[k].name@ == mr.labels@[k]@ && labels@[k].id == None::<u64>,
            decreases mr.labels@.len() - i,
        {
            labels.push(Label { name: owned(mr.labels[i].as_str()), id: None });
            i = i + 1;
        }
        let ghost label_view = labels@;
        let r = GitPr {
            number: mr.iid,
            html_url: mr.web_url,
            head: Commit { ref_field: mr.source_branch, sha: mr.sha },
            title: mr.title,
            body,
            user: Author { id: mr.author.id, login: mr.author.username },
            labels,
        };
        assert(r.labels@ == label_view);
        r
    }

    /// The pull request as a GitLab merge request: no body is an empty description.
    pub fn into_gitlab(self) -> (r: GitLabMr)
        ensures
            r.iid == self.number,
            r.web_url == self.html_url,
            r.source_branch == self.head.ref_field && r.sha == self.head.sha,
            r.title == self.title,
            match self.body {
                Some(b) => r.description == b,
                None => r.description@.len() == 0,
            },
            r.author.id == self.user.id && r.author.username == self.user.login,
            views(r.labels@) == self.labels@.map_values(|l: Label| l.name@),
    {
        let description = match self.body {
            Some(b) => b,
            None => String::new(),
        };
        let mut labels: Vec<String> = Vec::new();
        let mut i: usize = 0;
        while i < self.labels.len()
            invariant
                i <= self.labels@.len(),
                views(labels@) == self.labels@.subrange(0, i as int).map_values(|l: Label| l.name@),
            decreases self.labels@.len() - i,
        {
            let ghost before = views(labels@);
            labels.push(owned(self.labels[i].name.as_str()));
            assert(views(labels@) =~= before.push(self.labels@[i as int].name@));
            assert(self.labels@.subrange(0, i as int + 1) =~= self.labels@.subrange(0, i as int).push(
                self.labels@[i as int],
            ));
            i = i + 1;
            assert(views(labels@) =~= self.labels@.subrange(0, i as int).map_values(|l: Label| l.name@));
        }
        assert(self.labels@.subrange(0, i as int) =~= self.labels@);
        GitLabMr {
            author: GitLabAuthor { id: self.user.id, username: self.user.login },
            iid: self.number,
            web_url: self.html_url,
            sha: self.head.sha,
            source_branch: self.head.ref_field,
            title: self.title,
            description,
            labels,
        }
    }
}

/// The first repository label with this name.
pub open spec fn label_named(existing: Seq<Label>, name: Seq<char>) -> Option<int> {
    if exists|j: int| 0 <= j < existing.len() && existing[j].name@ == name {
        Some(
            choose|j: int|
                0 <= j < existing.len() && existing[j].name@ == name && forall|k: int|
                    0 <= k < j ==> existing[k].name@ != name,
        )
    } else {
        None
    }
}

/// The labels to create in the repository and the ids of existing labels to
/// add to the PR, after the first `n` requested labels; or the name of an
/// existing label that has no id.
pub open spec fn categorized_upto(
    labels: Seq<Seq<char>>,
    existing: Seq<Label>,
    pr_labels: Seq<Seq<char>>,
    n: int,
) -> Result<(Seq<Seq<char>>, Seq<u64>), Seq<char>>
    decreases n,
{
    if n <= 0 {
        Ok((Seq::empty(), Seq::empty()))
    } else {
        match categorized_upto(labels, existing, pr_labels, n - 1) {
            Err(e) => Err(e),
            Ok((create, ids)) => {
                let l = labels[n - 1];
                match label_named(existing, l) {
                    Some(j) => if pr_labels.contains(l) {
                        Ok((create, ids))
                    } else {
                        match existing[j].id {
                            Some(id) => Ok((create, ids.push(id))),
                            None => Err(existing[j].name@),
                        }
                    },
                    None => if create.contains(l) {
                        Ok((create, ids))
                    } else {
                        Ok((create.push(l), ids))
                    },
                }
            },
        }
    }
}

proof fn lemma_categorized_error_stays(
    labels: Seq<Seq<char>>,
    existing: Seq<Label>,
    pr_labels: Seq<Seq<char>>,
    k: int,
    m: int,
)
    requires
        0 <= k <= m,
        categorized_upto(labels, existing, pr_labels, k) is Err,
    ensures
        categorized_upto(labels, existing, pr_labels, m) == categorized_upto(labels, existing, pr_labels, k),
    decreases m - k,
{
    if k < m {
        lemma_categorized_error_stays(labels, existing, pr_labels, k, m - 1);
    }
}

/// A repository label without id.
#[derive(Debug)]
pub struct MissingLabelId {
    pub label: String,
}

fn find_label(existing: &[Label], name: &str) -> (r: Option<usize>)
    ensures
        r matches Some(j) ==> j < existing@.len(),
        match r {
            Some(j) => label_named(existing@, name@) == Some(j as int),
            None => label_named(existing@, name@) is None,
        },
{
    let mut j: usize = 0;
    while j < existing.len()
        invariant
            j <= existing@.len(),
            forall|k: int| 0 <= k < j ==> existing@[k].name@ != name@,
        decreases existing@.len() - j,
    {
        if str_eq(existing[j].name.as_str(), name) {
            proof {
                let w = choose|w: int|
                    0 <= w < existing@.len() && existing@[w].name@ == name@ && forall|k: int|
                        0 <= k < w ==> existing@[k].name@ != name@;
                if w < j {
                } else if j < w {
                }
            }
            return Some(j);
        }
        j = j + 1;
    }
    None
}

fn contains_name(v: &Vec<String>, name: &str) -> (r: bool)
    ensures
        r == views(v@).contains(name@),
{
    let mut i: usize = 0;
    while i < v.len()
        invariant
            i <= v@.len(),
            forall|k: int| 0 <= k < i ==> v@[k]@ != name@,
        decreases v@.len() - i,
    {
        if str_eq(v[i].as_str(), name) {
            assert(views(v@)[i as int] == name@);
            return true;
        }
        i = i + 1;
    }
    proof {
        if views(v@).contains(name@) {
            let k = choose|k: int| 0 <= k < views(v@).len() && views(v@)[k] == name@;
            assert(v@[k]@ == name@);
        }
    }
    false
}

/// Splits the labels requested for a PR into those to create in the
/// repository (each once) and the ids of existing labels the PR lacks.
pub fn categorize_labels(labels: &[String], existing: &[Label], pr_labels: &Vec<String>) -> (r: Result<
    (Vec<String>, Vec<u64>),
    MissingLabelId,
>)
    ensures
        match (r, categorized_upto(views(labels@), existing@, views(pr_labels@), labels@.len() as int)) {
            (Ok((c, ids)), Ok((sc, sids))) => views(c@) == sc && ids@ == sids,
            (Err(e), Err(name)) => e.label@ == name,
            _ => false,
        },
{
    let ghost lv = views(labels@);
    let mut create: Vec<String> = Vec::new();
    let mut ids: Vec<u64> = Vec::new();
    assert(views(create@) =~= Seq::<Seq<char>>::empty());
    assert(ids@ =~= Seq::<u64>::empty());
    let mut i: usize = 0;
    while i < labels.len()
        invariant
            i <= labels@.len(),
            lv == views(labels@),
            categorized_upto(lv, existing@, views(pr_labels@), i as int) == Ok::<
                (Seq<Seq<char>>, Seq<u64>),
                Seq<char>,
            >((views(create@), ids@)),
        decreases labels@.len() - i,
    {
        let l = labels[i].as_str();
        assert(lv[i as int] == l@);
        match find_label(existing, l) {
            Some(j) => {
                if !contains_name(pr_labels, l) {
                    match existing[j].id {
                        Some(id) => {
                            ids.push(id);
                        },
                        None => {
                            proof {
                                lemma_categorized_error_stays(
                                    lv,
                                    existing@,
                                    views(pr_labels@),
                                    i as int + 1,
                                    labels@.len() as int,
                                );
                            }
                            return Err(MissingLabelId { label: owned(existing[j].name.as_str()) });
                        },
                    }
                }
            },
            None => {
                if !contains_name(&create, l) {
                    let ghost before = views(create@);
                    create.push(owned(l));
                    assert(views(create@) =~= before.push(l@));
                }
            },
        }
        i = i + 1;
    }
    Ok((create, ids))
}

/// The body of the request that opens a pull request.
#[derive(Debug)]
pub enum OpenPrBody {
    /// GitHub and Gitea.
    Pull { title: String, body: String, base: String, head: String, draft: bool },
    /// GitLab: the source branch is removed on merge by default.
    MergeRequest {
        title: String,
        description: String,
        target_branch: String,
        source_branch: String,
        draft: bool,
        remove_source_branch: bool,
    },
}

/// The request body that opens a pull request from `head` into `base`.
pub fn open_pr_request(
    forge: ForgeType,
    title: String,
    body: String,
    base: String,
    head: String,
    draft: bool,
) -> (r: OpenPrBody)
    ensures
        forge == ForgeType::Gitlab ==> r == (OpenPrBody::MergeRequest {
            title,
            description: body,
            target_branch: base,
            source_branch: head,
            draft,
            remove_source_branch: true,
        }),
        forge != ForgeType::Gitlab ==> r == (OpenPrBody::Pull { title, body, base, head, draft }),
{
    match forge {
        ForgeType::Gitlab => OpenPrBody::MergeRequest {
            title,
            description: body,
            target_branch: base,
            source_branch: head,
            draft,
            remove_source_branch: true,
        },
        _ => OpenPrBody::Pull { title, body, base, head, draft },
    }
}

/// The body of the request that creates a forge release.
#[derive(Debug)]
pub enum ReleaseBody {
    /// GitHub and Gitea.
    Release(CreateReleaseOption),
    /// GitLab.
    GitlabRelease { name: String, tag_name: String, description: String },
}

/// Only GitHub honours the `latest` setting of a release.
#[derive(Clone, Copy, Debug, PartialEq, Eq, Structural)]
pub struct LatestNotSupported;

/// The release options that carry a release's settings; `make_latest` is
/// the text of `latest` when set.
pub open spec fn release_options_of(o: CreateReleaseOption, info: GitReleaseInfo) -> bool {
    &&& o.tag_name == info.git_tag
    &&& o.body == info.release_body
    &&& o.name == info.release_name
    &&& o.draft == info.draft
    &&& o.prerelease == info.pre_release
    &&& match info.latest {
        Some(true) => o.make_latest is Some && o.make_latest->Some_0@ == "true"@,
        Some(false) => o.make_latest is Some && o.make_latest->Some_0@ == "false"@,
        None => o.make_latest is None,
    }
}

/// The request body that creates a forge release. Setting `latest` on a
/// forge other than GitHub is an error.
pub fn release_request(forge: ForgeType, info: GitReleaseInfo) -> (r: Result<ReleaseBody, LatestNotSupported>)
    ensures
        r is Err <==> (forge != ForgeType::Github && info.latest is Some),
        match r {
            Ok(ReleaseBody::Release(o)) => forge != ForgeType::Gitlab && release_options_of(o, info),
            Ok(ReleaseBody::GitlabRelease { name, tag_name, description }) => forge
                == ForgeType::Gitlab && name == info.release_name && tag_name == info.git_tag
                && description == info.release_body,
            Err(_) => true,
        },
{
    if forge != ForgeType::Github && info.latest.is_some() {
        return Err(LatestNotSupported);
    }
    match forge {
        ForgeType::Gitlab => Ok(
            ReleaseBody::GitlabRelease {
                name: info.release_name,
                tag_name: info.git_tag,
                description: info.release_body,
            },
        ),
        _ => {
            let make_latest = match info.latest {
                Some(true) => Some(owned("true")),
                Some(false) => Some(owned("false")),
                None => None,
            };
            Ok(
                ReleaseBody::Release(
                    CreateReleaseOption {
                        tag_name: info.git_tag,
                        body: info.release_body,
                        name: info.release_name,
                        draft: info.draft,
                        prerelease: info.pre_release,
                        make_latest,
                    },
                ),
            )
        },
    }
}

/// The releases endpoint.
pub fn releases_url(forge: ForgeType, remote: &Remote) -> (r: String)
    ensures
        r@ == repo_api_spec(forge, *remote) + "/releases"@,
{
    let mut r = repo_api_url(forge, remote);
    r.append("/releases");
    r
}

/// A commit without associated pull requests is answered with 404, or on
/// GitHub with 422 when the commit is not on the remote: both mean "no
/// associated pull request", not an error.
pub fn no_association(forge: ForgeType, status: u16) -> (r: bool)
    ensures
        r == (status == 404 || (status == 422 && forge == ForgeType::Github)),
{
    status == 404 || (status == 422 && forge == ForgeType::Github)
}

} // verus!
