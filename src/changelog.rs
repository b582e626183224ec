//! Changelog text carried in release PR bodies and changelog files.
use vstd::prelude::*;
use vstd::string::*;
use crate::text::{
    contains_seq, find, find_from, find_spec, first_occurrence_from, is_trimmed,
    lemma_find_spec_some, lemma_trimmed_padded, matches_at, str_eq, occurs_at, opt_index, owned, trim,
    trimmed,
};

use crate::version::{version_text, Version};

verus! {

/// `<details>`
pub open spec fn details_open() -> Seq<char> {
    seq!['<', 'd', 'e', 't', 'a', 'i', 'l', 's', '>']
}

/// `</details>`
pub open spec fn details_close() -> Seq<char> {
    seq!['<', '/', 'd', 'e', 't', 'a', 'i', 'l', 's', '>']
}

/// `</summary>`
pub open spec fn summary_close() -> Seq<char> {
    seq!['<', '/', 's', 'u', 'm', 'm', 'a', 'r', 'y', '>']
}

/// What a release PR body holds before the changelog:
/// `<details><summary>Changelog</summary>` and a blank line.
pub open spec fn pr_body_head() -> Seq<char> {
    seq![
        '<', 'd', 'e', 't', 'a', 'i', 'l', 's', '>',
        '<', 's', 'u', 'm', 'm', 'a', 'r', 'y', '>',
        'C', 'h', 'a', 'n', 'g', 'e', 'l', 'o', 'g',
        '<', '/', 's', 'u', 'm', 'm', 'a', 'r', 'y', '>',
        '\n', '\n',
    ]
}

/// What a release PR body holds after the changelog.
pub open spec fn pr_body_tail() -> Seq<char> {
    seq!['\n', '<', '/', 'd', 'e', 't', 'a', 'i', 'l', 's', '>', '\n']
}

/// The release PR body that carries `changelog`.
pub open spec fn pr_body_of(changelog: Seq<char>) -> Seq<char> {
    pr_body_head() + changelog + pr_body_tail()
}

/// The changelog recovered from a PR body: the trimmed text between the first
/// `</summary>` inside the first `<details>` ... `</details>` block and the end of
/// that block; the whole body when there is no such block or no `</summary>` in it.
pub open spec fn changelog_from_pr_body(body: Seq<char>) -> Seq<char> {
    match find_spec(body, details_open(), 0) {
        Some(st) => match find_spec(body, details_close(), st) {
            Some(e) => {
                let d = body.subrange(st, e);
                match find_spec(d, summary_close(), 0) {
                    Some(q) => trimmed(d.subrange(q + 10, d.len() as int)),
                    None => body,
                }
            },
            None => body,
        },
        None => body,
    }
}

/// Renders the body of a release PR: the changelog inside a collapsible
/// `<details><summary>Changelog</summary> ... </details>` block.
pub fn render_pr_body(changelog: &str) -> (r: String)
    ensures
        r@ == pr_body_of(changelog@),
{
    let head = "<details><summary>Changelog</summary>\n\n";
    let tail = "\n</details>\n";
    proof {
        reveal_strlit("<details><summary>Changelog</summary>\n\n");
        reveal_strlit("\n</details>\n");
        assert(head@ =~= pr_body_head());
        assert(tail@ =~= pr_body_tail());
    }
    let mut r = String::from_str(head);
    r.append(changelog);
    r.append(tail);
    r
}

/// Extracts the changelog from a release PR body (see [`changelog_from_pr_body`]).
pub fn extract_changelog_from_pr_body(pr_body: &str) -> (r: String)
    ensures
        r@ == changelog_from_pr_body(pr_body@),
{
    let open_tag = "<details>";
    let close_tag = "</details>";
    let summary_tag = "</summary>";
    proof {
        reveal_strlit("<details>");
        reveal_strlit("</details>");
        reveal_strlit("</summary>");
        assert(open_tag@ =~= details_open());
        assert(close_tag@ =~= details_close());
        assert(summary_tag@ =~= summary_close());
    }
    if let Some(start) = find(pr_body, open_tag) {
        if let Some(end) = find_from(pr_body, close_tag, start) {
            let details = pr_body.substring_char(start, end);
            if let Some(summary_end) = find(details, summary_tag) {
                let n = details.unicode_len();
                let changelog = details.substring_char(summary_end + 10, n);
                return owned(trim(changelog));
            }
        }
    }
    owned(pr_body)
}

proof fn lemma_window(s: Seq<char>, p: Seq<char>, j: int, k: int)
    requires
        occurs_at(s, p, j),
        0 <= k < p.len(),
    ensures
        s[j + k] == p[k],
{
    assert(s.subrange(j, j + p.len())[k] == s[j + k]);
}

/// Recovering the changelog from the PR body rendered for it gives it back, for
/// every changelog without a `</details>` tag and without surrounding whitespace.
pub proof fn lemma_pr_body_round_trip(x: Seq<char>)
    requires
        !contains_seq(x, details_close()),
        is_trimmed(x),
    ensures
        changelog_from_pr_body(pr_body_of(x)) == x,
{
    let h = pr_body_head();
    let t = pr_body_tail();
    let b = pr_body_of(x);
    let e = (h.len() + x.len()) as int;
    assert(h.len() == 39);
    assert(t.len() == 12);
    assert((h + x).len() == e);
    assert(b.subrange(0, 9) =~= details_open());
    assert(first_occurrence_from(b, details_open(), 0, 0));
    lemma_find_spec_some(b, details_open(), 0, 0);
    assert(b.subrange(e + 1, e + 11) =~= details_close()) by {
        assert forall|k: int| 0 <= k < 10 implies b[e + 1 + k] == details_close()[k] by {
            assert(b[e + k + 1] == t[k + 1]);
        }
    }
    assert forall|j: int| 0 <= j < e + 1 implies !occurs_at(b, details_close(), j) by {
        if occurs_at(b, details_close(), j) {
            if j + 10 <= 39 {
                lemma_window(b, details_close(), j, 0);
                lemma_window(b, details_close(), j, 1);
                lemma_window(b, details_close(), j, 2);
                assert(b[j] == h[j]);
                assert(b[j + 1] == h[j + 1]);
                assert(b[j + 2] == h[j + 2]);
            } else if j < 39 {
                lemma_window(b, details_close(), j, 38 - j);
                assert(b[38] == h[38]);
            } else if j + 10 <= e {
                assert(occurs_at(x, details_close(), j - 39)) by {
                    assert(x.subrange(j - 39, j - 39 + 10) =~= b.subrange(j, j + 10));
                }
            } else {
                lemma_window(b, details_close(), j, e - j);
                assert(b[e] == t[0]);
            }
        }
    }
    assert(first_occurrence_from(b, details_close(), 0, e + 1));
    lemma_find_spec_some(b, details_close(), 0, e + 1);
    let nl: Seq<char> = seq!['\n'];
    let d = b.subrange(0, e + 1);
    assert(d =~= h + x + nl);
    assert(d.subrange(27, 37) =~= summary_close());
    assert forall|j: int| 0 <= j < 27 implies !occurs_at(d, summary_close(), j) by {
        if occurs_at(d, summary_close(), j) {
            lemma_window(d, summary_close(), j, 0);
            lemma_window(d, summary_close(), j, 1);
            lemma_window(d, summary_close(), j, 2);
            assert(d[j] == h[j]);
            assert(d[j + 1] == h[j + 1]);
            assert(d[j + 2] == h[j + 2]);
        }
    }
    assert(first_occurrence_from(d, summary_close(), 0, 27));
    lemma_find_spec_some(d, summary_close(), 0, 27);
    let w: Seq<char> = seq!['\n', '\n'];
    assert(d.subrange(37, d.len() as int) =~= w + x + nl);
    lemma_trimmed_padded(w, x, nl);
}

/// `## [`, the start of a version header line.
pub open spec fn header_mark() -> Seq<char> {
    seq!['#', '#', ' ', '[']
}

/// A version header line starts at character `i` of `s`.
pub open spec fn header_at(s: Seq<char>, i: int) -> bool {
    occurs_at(s, header_mark(), i) && (i == 0 || s[i - 1] == '\n')
}

/// `i` is the first version header of `s` at or after `from`.
pub open spec fn first_header_from(s: Seq<char>, from: int, i: int) -> bool {
    from <= i && header_at(s, i) && forall|j: int| from <= j < i ==> !header_at(s, j)
}

/// The first version header of `s` at or after `from`, if any.
pub open spec fn header_spec(s: Seq<char>, from: int) -> Option<int> {
    if exists|i: int| first_header_from(s, from, i) {
        Some(choose|i: int| first_header_from(s, from, i))
    } else {
        None
    }
}

proof fn lemma_header_spec_some(s: Seq<char>, from: int, i: int)
    requires
        first_header_from(s, from, i),
    ensures
        header_spec(s, from) == Some(i),
{
    let j = choose|j: int| first_header_from(s, from, j);
    assert(first_header_from(s, from, j));
    if j < i {
        assert(!header_at(s, j));
    }
    if i < j {
        assert(!header_at(s, i));
    }
}

/// The version named by the first header of a changelog (`## [1.2.3] - ...` gives `1.2.3`).
pub open spec fn last_version_spec(s: Seq<char>) -> Option<Seq<char>> {
    match header_spec(s, 0) {
        Some(i) => match find_spec(s, seq![']'], i + 4) {
            Some(k) => Some(s.subrange(i + 4, k)),
            None => None,
        },
        None => None,
    }
}

/// The body of the most recent changelog section, trimmed: the text after the
/// first header line and before the next header.
pub open spec fn last_changes_spec(s: Seq<char>) -> Option<Seq<char>> {
    match header_spec(s, 0) {
        Some(i) => match find_spec(s, seq!['\n'], i) {
            Some(l) => match header_spec(s, l + 1) {
                Some(j) => Some(trimmed(s.subrange(l + 1, j))),
                None => Some(trimmed(s.subrange(l + 1, s.len() as int))),
            },
            None => Some(Seq::empty()),
        },
        None => None,
    }
}

/// The existing changelog with `section` spliced in before its most recent
/// section, after its header; appended when it has no section yet.
pub open spec fn spliced(old: Seq<char>, section: Seq<char>) -> Seq<char> {
    match header_spec(old, 0) {
        Some(i) => old.subrange(0, i) + section + old.subrange(i, old.len() as int),
        None => old + section,
    }
}

/// The full changelog and the new entry alone, for the next version.
pub open spec fn synthesized(old: Option<Seq<char>>, next_version: Seq<char>, section: Seq<char>) -> (
    Seq<char>,
    Seq<char>,
) {
    match old {
        Some(o) => if last_version_spec(o) == Some(next_version) {
            (o, Seq::empty())
        } else {
            (spliced(o, section), trimmed(section))
        },
        None => (section, trimmed(section)),
    }
}

fn is_header_at(s: &str, i: usize) -> (r: bool)
    requires
        i <= s@.len(),
    ensures
        r == header_at(s@, i as int),
{
    let mark = "## [";
    proof {
        reveal_strlit("## [");
        assert(mark@ =~= header_mark());
    }
    matches_at(s, mark, i) && (i == 0 || s.get_char(i - 1) == '\n')
}

/// Character index of the first version header at or after `from`.
fn find_header_from(s: &str, from: usize) -> (r: Option<usize>)
    requires
        from <= s@.len(),
    ensures
        opt_index(r) == header_spec(s@, from as int),
        r matches Some(i) ==> first_header_from(s@, from as int, i as int),
{
    let n = s.unicode_len();
    let mut i: usize = from;
    while i < n
        invariant
            n == s@.len(),
            from <= i <= n,
            forall|j: int| from <= j < i ==> !header_at(s@, j),
        decreases n - i,
    {
        if is_header_at(s, i) {
            proof {
                lemma_header_spec_some(s@, from as int, i as int);
            }
            return Some(i);
        }
        i = i + 1;
    }
    proof {
        assert forall|j: int| from <= j implies !header_at(s@, j) by {
            if j >= n {
                assert(!(j + 4 <= s@.len()));
            }
        }
        if exists|k: int| first_header_from(s@, from as int, k) {
            let k = choose|k: int| first_header_from(s@, from as int, k);
            assert(header_at(s@, k));
        }
    }
    None
}

/// The version of the most recent section of a changelog, if it has one.
pub fn last_version_from_str(changelog: &str) -> (r: Option<String>)
    ensures
        r matches Some(v) ==> last_version_spec(changelog@) == Some(v@),
        r is None ==> last_version_spec(changelog@) is None,
{
    let close = "]";
    proof {
        reveal_strlit("]");
        assert(close@ =~= seq![']']);
    }
    match find_header_from(changelog, 0) {
        Some(i) => {
            let _n = changelog.unicode_len();
            assert(header_mark().len() == 4);
            match find_from(changelog, close, i + 4) {
                Some(k) => Some(owned(changelog.substring_char(i + 4, k))),
                None => None,
            }
        },
        None => None,
    }
}

/// The body of the most recent section of a changelog, trimmed.
pub fn last_changes(changelog: &str) -> (r: Option<String>)
    ensures
        r matches Some(v) ==> last_changes_spec(changelog@) == Some(v@),
        r is None ==> last_changes_spec(changelog@) is None,
{
    let newline = "\n";
    proof {
        reveal_strlit("\n");
        assert(newline@ =~= seq!['\n']);
    }
    let n = changelog.unicode_len();
    match find_header_from(changelog, 0) {
        Some(i) => match find_from(changelog, newline, i) {
            Some(l) => {
                let body = match find_header_from(changelog, l + 1) {
                    Some(j) => changelog.substring_char(l + 1, j),
                    None => changelog.substring_char(l + 1, n),
                };
                Some(owned(trim(body)))
            },
            None => {
                let empty = String::new();
                assert(empty@ =~= Seq::<char>::empty());
                Some(empty)
            },
        },
        None => None,
    }
}

/// Builds the changelog for `next_version` from the existing one and the rendered
/// `section` for the new version. Returns the full changelog and the new entry.
/// When the existing changelog already records `next_version` as its most recent
/// version it is returned unchanged, with an empty entry.
pub fn synthesize_changelog(old_changelog: Option<&str>, next_version: &str, section: &str) -> (r: (
    String,
    String,
))
    ensures
        (r.0@, r.1@) == synthesized(
            match old_changelog {
                Some(o) => Some(o@),
                None => None,
            },
            next_version@,
            section@,
        ),
{
    match old_changelog {
        Some(old) => {
            let last = last_version_from_str(old);
            let same = match &last {
                Some(v) => str_eq(v.as_str(), next_version),
                None => false,
            };
            if same {
                let empty = String::new();
                assert(empty@ =~= Seq::<char>::empty());
                return (owned(old), empty);
            }
            let full = match find_header_from(old, 0) {
                Some(i) => {
                    let n = old.unicode_len();
                    let mut full = owned(old.substring_char(0, i));
                    full.append(section);
                    full.append(old.substring_char(i, n));
                    full
                },
                None => {
                    let mut full = owned(old);
                    full.append(section);
                    full
                },
            };
            (full, owned(trim(section)))
        },
        None => (owned(section), owned(trim(section))),
    }
}

/// A changelog whose most recent section is already the next version is left
/// byte-for-byte unchanged, whatever section is offered for it.
pub proof fn lemma_same_version_keeps_changelog(
    old: Seq<char>,
    next_version: Seq<char>,
    section: Seq<char>,
)
    requires
        last_version_spec(old) == Some(next_version),
    ensures
        synthesized(Some(old), next_version, section).0 == old,
        synthesized(Some(old), next_version, section).1 == Seq::<char>::empty(),
{
}

/// The version a new changelog section follows: the last version the
/// existing changelog records, else the current version.
pub fn previous_version(old_changelog: Option<&str>, current: &Version) -> (r: String)
    ensures
        r@ == match old_changelog {
            Some(o) => match last_version_spec(o@) {
                Some(v) => v,
                None => version_text(*current),
            },
            None => version_text(*current),
        },
{
    match old_changelog {
        Some(o) => match last_version_from_str(o) {
            Some(v) => v,
            None => current.to_string(),
        },
        None => current.to_string(),
    }
}

} // verus!
