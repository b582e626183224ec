//! The commit stream: commits read from the repository history, and the
//! filter that keeps the ones a release is made of.
use vstd::prelude::*;
use vstd::string::*;
use crate::resolver::{
    increment_spec, message_views, regex_is_match, regex_match, InvalidPattern, VersionUpdater,
};
use crate::version::{bump_fits, bumped, parts, Version};
use crate::text::{find, find_from, find_spec, first_occurrence_from, owned};

verus! {

/// A commit: its id and its full message (subject, blank line, body).
#[derive(Clone, Debug)]
pub struct Commit {
    pub id: String,
    pub message: String,
}

/// The line that ends each commit in the history listing.
pub open spec fn end_marker() -> Seq<char> {
    seq!['-', '-', 'E', 'N', 'D', '-', 'C', 'O', 'M', 'M', 'I', 'T', '-', '-']
}

/// A text without the newlines it starts with.
pub open spec fn strip_newlines(s: Seq<char>) -> Seq<char>
    decreases s.len(),
{
    if s.len() > 0 && s[0] == '\n' {
        strip_newlines(s.drop_first())
    } else {
        s
    }
}

/// The message of a record: what follows the id line, without the one
/// newline that ends the record.
pub open spec fn record_message(rest: Seq<char>) -> Seq<char> {
    if rest.len() > 0 && rest.last() == '\n' {
        rest.drop_last()
    } else {
        rest
    }
}

/// The commit one record of the listing holds. The listing writes, for each
/// commit, its id, a newline, its raw message and a newline before the end
/// marker; a record may start with the newline that ended the marker line.
/// The id is the first line after those newlines, and the message is kept
/// as it was, blank lines and trailing newline included. A record with
/// nothing but newlines holds no commit.
pub open spec fn record_commit(record: Seq<char>) -> Seq<(Seq<char>, Seq<char>)> {
    let t = strip_newlines(record);
    if t.len() == 0 {
        Seq::empty()
    } else {
        match find_spec(t, seq!['\n'], 0) {
            Some(k) => seq![(t.subrange(0, k), record_message(t.subrange(k + 1, t.len() as int)))],
            None => seq![(t, Seq::empty())],
        }
    }
}

/// The commits of the listing from character `from` on, in order: the
/// records between end markers.
pub open spec fn log_commits_from(s: Seq<char>, from: int) -> Seq<(Seq<char>, Seq<char>)>
    decreases s.len() - from,
{
    if from < 0 || from > s.len() {
        Seq::empty()
    } else if exists|i: int| first_occurrence_from(s, end_marker(), from, i) {
        let i = choose|i: int| first_occurrence_from(s, end_marker(), from, i);
        record_commit(s.subrange(from, i)) + log_commits_from(s, i + end_marker().len())
    } else {
        record_commit(s.subrange(from, s.len() as int))
    }
}

/// The views of commits.
pub open spec fn commit_views(v: Seq<Commit>) -> Seq<(Seq<char>, Seq<char>)> {
    v.map_values(|c: Commit| (c.id@, c.message@))
}

fn commit_of_record(record: &str, out: &mut Vec<Commit>)
    ensures
        commit_views(final(out)@) == commit_views(old(out)@) + record_commit(record@),
{
    let n = record.unicode_len();
    let mut k: usize = 0;
    assert(record@.subrange(0, n as int) =~= record@);
    while k < n && record.get_char(k) == '\n'
        invariant
            n == record@.len(),
            k <= n,
            strip_newlines(record@.subrange(k as int, n as int)) == strip_newlines(record@),
        decreases n - k,
    {
        assert(record@.subrange(k as int, n as int).drop_first() =~= record@.subrange(k + 1, n as int));
        k = k + 1;
    }
    let t = record.substring_char(k, n);
    assert(strip_newlines(t@) == t@);
    if t.unicode_len() == 0 {
        assert(commit_views(out@) =~= commit_views(old(out)@) + record_commit(record@));
        return;
    }
    let newline = "\n";
    proof {
        reveal_strlit("\n");
        assert(newline@ =~= seq!['\n']);
    }
    let m = t.unicode_len();
    let c = match find(t, newline) {
        Some(j) => {
            let end = if m > j + 1 && t.get_char(m - 1) == '\n' {
                m - 1
            } else {
                m
            };
            let rest = t.substring_char(j + 1, m);
            assert(t@.subrange(j + 1, end as int) =~= record_message(rest@));
            Commit { id: owned(t.substring_char(0, j)), message: owned(t.substring_char(j + 1, end)) }
        },
        None => {
            let empty = String::new();
            assert(empty@ =~= Seq::<char>::empty());
            Commit { id: owned(t), message: empty }
        },
    };
    out.push(c);
    assert(commit_views(out@) =~= commit_views(old(out)@) + record_commit(record@));
}

/// Reads the history listing: records of an id line and the message lines,
/// each record ended by `--END-COMMIT--` (see [`log_commits_from`]).
pub fn parse_git_log(output: &str) -> (r: Vec<Commit>)
    ensures
        commit_views(r@) == log_commits_from(output@, 0),
{
    let marker = "--END-COMMIT--";
    proof {
        reveal_strlit("--END-COMMIT--");
        assert(marker@ =~= end_marker());
    }
    let n = output.unicode_len();
    let mut out: Vec<Commit> = Vec::new();
    let mut pos: usize = 0;
    loop
        invariant
            n == output@.len(),
            marker@ == end_marker(),
            pos <= n,
            commit_views(out@) + log_commits_from(output@, pos as int) == log_commits_from(output@, 0),
        decreases n - pos,
    {
        match find_from(output, marker, pos) {
            Some(i) => {
                let ghost before = commit_views(out@);
                assert(end_marker().len() == 14);
                commit_of_record(output.substring_char(pos, i), &mut out);
                proof {
                    crate::text::lemma_find_spec_some(output@, end_marker(), pos as int, i as int);
                    assert(log_commits_from(output@, pos as int) == record_commit(
                        output@.subrange(pos as int, i as int),
                    ) + log_commits_from(output@, i + 14));
                    assert(commit_views(out@) + log_commits_from(output@, i + 14) =~= before
                        + log_commits_from(output@, pos as int));
                }
                pos = i + 14;
            },
            None => {
                let ghost before = commit_views(out@);
                commit_of_record(output.substring_char(pos, n), &mut out);
                proof {
                    if exists|i: int| first_occurrence_from(output@, end_marker(), pos as int, i) {
                        let i = choose|i: int| first_occurrence_from(output@, end_marker(), pos as int, i);
                        assert(crate::text::occurs_at(output@, end_marker(), i));
                    }
                    assert(commit_views(out@) =~= before + log_commits_from(output@, pos as int));
                }
                return out;
            },
        }
    }
}

/// The subject of a message: its first line.
pub open spec fn subject_of(message: Seq<char>) -> Seq<char> {
    match find_spec(message, seq!['\n'], 0) {
        Some(k) => message.subrange(0, k),
        None => message,
    }
}

/// The first line of a message.
pub fn subject(message: &str) -> (r: &str)
    ensures
        r@ == subject_of(message@),
{
    let newline = "\n";
    proof {
        reveal_strlit("\n");
        assert(newline@ =~= seq!['\n']);
    }
    match find(message, newline) {
        Some(k) => message.substring_char(0, k),
        None => message,
    }
}

/// The commits among the first `n` whose subject the pattern matches.
pub open spec fn matching_upto(commits: Seq<Commit>, pattern: Seq<char>, n: int) -> Seq<(Seq<char>, Seq<char>)>
    decreases n,
{
    if n <= 0 {
        Seq::empty()
    } else {
        let prev = matching_upto(commits, pattern, n - 1);
        let c = commits[n - 1];
        if regex_match(pattern, subject_of(c.message@)) == Some(true) {
            prev.push((c.id@, c.message@))
        } else {
            prev
        }
    }
}

/// Keeps the commits whose subject line the release-commits pattern matches,
/// in order. Fails when the pattern does not compile and there is a commit
/// to test it on.
pub fn filter_release_commits(commits: &[Commit], pattern: &str) -> (r: Result<Vec<Commit>, InvalidPattern>)
    ensures
        match r {
            Ok(kept) => commit_views(kept@) == matching_upto(commits@, pattern@, commits@.len() as int)
                && forall|i: int|
                0 <= i < commits@.len() ==> regex_match(pattern@, subject_of(commits@[i].message@))
                    is Some,
            Err(_) => exists|i: int|
                0 <= i < commits@.len() && regex_match(pattern@, subject_of(commits@[i].message@))
                    is None,
        },
{
    let mut kept: Vec<Commit> = Vec::new();
    let mut i: usize = 0;
    while i < commits.len()
        invariant
            i <= commits@.len(),
            commit_views(kept@) == matching_upto(commits@, pattern@, i as int),
            forall|j: int|
                0 <= j < i ==> regex_match(pattern@, subject_of(commits@[j].message@)) is Some,
        decreases commits@.len() - i,
    {
        let c = &commits[i];
        match regex_is_match(pattern, subject(c.message.as_str())) {
            Some(true) => {
                kept.push(Commit { id: owned(c.id.as_str()), message: owned(c.message.as_str()) });
                assert(commit_views(kept@) =~= matching_upto(commits@, pattern@, i as int).push(
                    (c.id@, c.message@),
                ));
            },
            Some(false) => {},
            None => {
                return Err(InvalidPattern);
            },
        }
        i = i + 1;
    }
    Ok(kept)
}

/// The commit messages, in order.
pub fn messages(commits: &[Commit]) -> (r: Vec<String>)
    ensures
        r@.len() == commits@.len(),
        forall|i: int| 0 <= i < r@.len() ==> r@[i]@ == commits@[i].message@,
{
    let mut r: Vec<String> = Vec::new();
    let mut i: usize = 0;
    while i < commits.len()
        invariant
            i <= commits@.len(),
            r@.len() == i,
            forall|j: int| 0 <= j < i ==> r@[j]@ == commits@[j].message@,
        decreases commits@.len() - i,
    {
        r.push(owned(commits[i].message.as_str()));
        i = i + 1;
    }
    r
}

/// Why the next workspace version cannot be had.
#[derive(Clone, Copy, Debug, PartialEq, Eq, Structural)]
pub enum NextVersionError {
    /// The release-commits pattern does not compile.
    InvalidPattern,
    /// The number to increment is already the largest one.
    TooLarge,
}

/// The version that the increment of `messages` gives, or the error when
/// the number to increment has no room.
pub open spec fn next_version_spec(
    u: VersionUpdater,
    current: Version,
    messages: Seq<Seq<char>>,
    r: Result<Version, NextVersionError>,
) -> bool {
    match increment_spec(u, current, messages) {
        Some(inc) => if bump_fits(inc, current) {
            r matches Ok(v) && parts(v) == bumped(inc, current)
        } else {
            r == Err::<Version, NextVersionError>(NextVersionError::TooLarge)
        },
        None => r matches Ok(v) && parts(v) == parts(current),
    }
}

/// The next workspace version: the commits, kept by the release-commits
/// pattern when there is one, decide the increment of the current version.
pub fn next_workspace_version(
    current: &Version,
    commits: &[Commit],
    release_commits: Option<&str>,
    updater: &VersionUpdater,
) -> (r: Result<Version, NextVersionError>)
    ensures
        match release_commits {
            None => next_version_spec(*updater, *current, message_views_of(commits@), r),
            Some(p) => if exists|i: int|
                0 <= i < commits@.len() && regex_match(p@, subject_of(commits@[i].message@)) is None {
                r == Err::<Version, NextVersionError>(NextVersionError::InvalidPattern)
            } else {
                next_version_spec(
                    *updater,
                    *current,
                    matching_upto(commits@, p@, commits@.len() as int).map_values(
                        |c: (Seq<char>, Seq<char>)| c.1,
                    ),
                    r,
                )
            },
        },
{
    let msgs = match release_commits {
        Some(p) => {
            let kept = match filter_release_commits(commits, p) {
                Ok(k) => k,
                Err(_) => return Err(NextVersionError::InvalidPattern),
            };
            let msgs = messages(&kept);
            assert(message_views(msgs@) =~= commit_views(kept@).map_values(
                |c: (Seq<char>, Seq<char>)| c.1,
            ));
            msgs
        },
        None => {
            let msgs = messages(commits);
            assert(message_views(msgs@) =~= message_views_of(commits@));
            msgs
        },
    };
    match updater.increment(current, &msgs) {
        Some(v) => Ok(v),
        None => Err(NextVersionError::TooLarge),
    }
}

/// Whether the update command changes anything: some commit is left after
/// the release-commits filter and the next version differs from the current one.
pub fn should_update(current: &Version, next: &Version, commits_left: usize) -> (r: bool)
    ensures
        r == (commits_left > 0 && !(current.major == next.major && current.minor == next.minor
            && current.patch == next.patch && current.pre@ == next.pre@ && current.build@
            == next.build@)),
{
    commits_left > 0 && !current.same_as(next)
}

/// The messages of commits.
pub open spec fn message_views_of(v: Seq<Commit>) -> Seq<Seq<char>> {
    v.map_values(|c: Commit| c.message@)
}

} // verus!
