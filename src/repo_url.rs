//! The URL of the repository on its forge.
use vstd::prelude::*;
use vstd::string::*;
use crate::text::{contains, contains_seq, find, find_spec, owned, starts_with};

verus! {

/// Scheme, host, owner and name of a forge repository.
#[derive(Clone, Debug)]
pub struct RepoUrl {
    pub scheme: String,
    pub host: String,
    pub owner: String,
    pub name: String,
}

/// The URL is not of a forge repository.
#[derive(Clone, Copy, Debug, PartialEq, Eq, Structural)]
pub struct RepoUrlError;

/// The path part without one trailing `/` and then without one `.git` suffix.
pub open spec fn normalized_path(p: Seq<char>) -> Seq<char> {
    let a = if p.len() > 0 && p.last() == '/' {
        p.drop_last()
    } else {
        p
    };
    if a.len() >= 4 && a.subrange(a.len() - 4, a.len() as int) == ".git"@ {
        a.subrange(0, a.len() - 4)
    } else {
        a
    }
}

/// Owner and name of a repository path `owner/name`: split at the first `/`,
/// both parts non-empty.
pub open spec fn owner_and_name(path: Seq<char>) -> Option<(Seq<char>, Seq<char>)> {
    let p = normalized_path(path);
    match find_spec(p, seq!['/'], 0) {
        Some(i) => if i > 0 && i + 1 < p.len() {
            Some((p.subrange(0, i), p.subrange(i + 1, p.len() as int)))
        } else {
            None
        },
        None => None,
    }
}

/// What a repository URL names: `git@host:owner/name(.git)` over ssh, or
/// `scheme://host/owner/name(.git)(/)`.
pub open spec fn repo_url_spec(u: Seq<char>) -> Option<(Seq<char>, Seq<char>, Seq<char>, Seq<char>)> {
    if u.len() >= 4 && u.subrange(0, 4) == "git@"@ {
        let rest = u.subrange(4, u.len() as int);
        match find_spec(rest, seq![':'], 0) {
            Some(c) => if c > 0 {
                match owner_and_name(rest.subrange(c + 1, rest.len() as int)) {
                    Some((o, n)) => Some(("ssh"@, rest.subrange(0, c), o, n)),
                    None => None,
                }
            } else {
                None
            },
            None => None,
        }
    } else {
        match find_spec(u, "://"@, 0) {
            Some(s) => if s > 0 {
                let rest = u.subrange(s + 3, u.len() as int);
                match find_spec(rest, seq!['/'], 0) {
                    Some(h) => if h > 0 {
                        match owner_and_name(rest.subrange(h + 1, rest.len() as int)) {
                            Some((o, n)) => Some((u.subrange(0, s), rest.subrange(0, h), o, n)),
                            None => None,
                        }
                    } else {
                        None
                    },
                    None => None,
                }
            } else {
                None
            },
            None => None,
        }
    }
}

fn split_owner_name(path: &str) -> (r: Option<(String, String)>)
    ensures
        match r {
            Some((o, n)) => owner_and_name(path@) == Some((o@, n@)),
            None => owner_and_name(path@) is None,
        },
{
    proof {
        reveal_strlit(".git");
        reveal_strlit("/");
        assert("/"@ =~= seq!['/']);
    }
    let m = path.unicode_len();
    let a = if m > 0 && path.get_char(m - 1) == '/' {
        path.substring_char(0, m - 1)
    } else {
        path
    };
    assert(a@ =~= (if path@.len() > 0 && path@.last() == '/' {
        path@.drop_last()
    } else {
        path@
    }));
    let k = a.unicode_len();
    let p = if k >= 4 && crate::text::ends_with(a, ".git") {
        a.substring_char(0, k - 4)
    } else {
        a
    };
    assert(p@ =~= normalized_path(path@));
    match find(p, "/") {
        Some(i) => {
            let n = p.unicode_len();
            if i > 0 && i + 1 < n {
                Some((owned(p.substring_char(0, i)), owned(p.substring_char(i + 1, n))))
            } else {
                None
            }
        },
        None => None,
    }
}

impl RepoUrl {
    /// Parses a repository URL (see [`repo_url_spec`]).
    pub fn new(url: &str) -> (r: Result<RepoUrl, RepoUrlError>)
        ensures
            match r {
                Ok(u) => repo_url_spec(url@) == Some((u.scheme@, u.host@, u.owner@, u.name@)),
                Err(_) => repo_url_spec(url@) is None,
            },
    {
        proof {
            reveal_strlit("git@");
            reveal_strlit("ssh");
            reveal_strlit(":");
            reveal_strlit("/");
            reveal_strlit("://");
            assert(":"@ =~= seq![':']);
            assert("/"@ =~= seq!['/']);
        }
        let n = url.unicode_len();
        if starts_with(url, "git@") {
            let rest = url.substring_char(4, n);
            match find(rest, ":") {
                Some(c) => {
                    if c == 0 {
                        return Err(RepoUrlError);
                    }
                    let rn = rest.unicode_len();
                    match split_owner_name(rest.substring_char(c + 1, rn)) {
                        Some((owner, name)) => Ok(
                            RepoUrl { scheme: owned("ssh"), host: owned(rest.substring_char(0, c)), owner, name },
                        ),
                        None => Err(RepoUrlError),
                    }
                },
                None => Err(RepoUrlError),
            }
        } else {
            match find(url, "://") {
                Some(s) => {
                    if s == 0 {
                        return Err(RepoUrlError);
                    }
                    let rest = url.substring_char(s + 3, n);
                    match find(rest, "/") {
                        Some(h) => {
                            if h == 0 {
                                return Err(RepoUrlError);
                            }
                            let rn = rest.unicode_len();
                            match split_owner_name(rest.substring_char(h + 1, rn)) {
                                Some((owner, name)) => Ok(
                                    RepoUrl {
                                        scheme: owned(url.substring_char(0, s)),
                                        host: owned(rest.substring_char(0, h)),
                                        owner,
                                        name,
                                    },
                                ),
                                None => Err(RepoUrlError),
                            }
                        },
                        None => Err(RepoUrlError),
                    }
                },
                None => Err(RepoUrlError),
            }
        }
    }

    /// Whether the repository is on GitHub: its host names `github`.
    pub fn is_on_github(&self) -> (r: bool)
        ensures
            r == contains_seq(self.host@, "github"@),
    {
        contains(self.host.as_str(), "github")
    }

    /// `{scheme}://{host}`
    pub fn full_host(&self) -> (r: String)
        ensures
            r@ == self.scheme@ + "://"@ + self.host@,
    {
        let mut r = owned(self.scheme.as_str());
        r.append("://");
        r.append(self.host.as_str());
        r
    }

    /// The API base of a Gitea forge: `{scheme}://{host}/api/v1/`.
    pub fn gitea_api_url(&self) -> (r: String)
        ensures
            r@ == self.scheme@ + "://"@ + self.host@ + "/api/v1/"@,
    {
        let mut r = self.full_host();
        r.append("/api/v1/");
        r
    }

    /// The base of PR links: `.../pull` on GitHub, `.../pulls` elsewhere.
    pub fn git_pr_link(&self) -> (r: String)
        ensures
            r@ == self.scheme@ + "://"@ + self.host@ + "/"@ + self.owner@ + "/"@ + self.name@ + (
            if contains_seq(self.host@, "github"@) {
                "/pull"@
            } else {
                "/pulls"@
            }),
    {
        let mut r = self.full_host();
        r.append("/");
        r.append(self.owner.as_str());
        r.append("/");
        r.append(self.name.as_str());
        if self.is_on_github() {
            r.append("/pull");
        } else {
            r.append("/pulls");
        }
        r
    }

    /// The link comparing two tags: `.../compare/{prev}...{next}`.
    pub fn git_release_link(&self, prev_tag: &str, new_tag: &str) -> (r: String)
        ensures
            r@ == self.scheme@ + "://"@ + self.host@ + "/"@ + self.owner@ + "/"@ + self.name@
                + "/compare/"@ + prev_tag@ + "..."@ + new_tag@,
    {
        let mut r = self.full_host();
        r.append("/");
        r.append(self.owner.as_str());
        r.append("/");
        r.append(self.name.as_str());
        r.append("/compare/");
        r.append(prev_tag);
        r.append("...");
        r.append(new_tag);
        r
    }
}

} // verus!
