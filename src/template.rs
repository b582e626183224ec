//! Tag and release names: templates over `{{ package }}` and `{{ version }}`.
use vstd::prelude::*;
use vstd::string::*;
use crate::text::{find_from, find_spec, first_occurrence_from, owned, str_eq, trim, trimmed};
use crate::version::{version_text, Version};

verus! {

/// `{{`
pub open spec fn open_mark() -> Seq<char> {
    seq!['{', '{']
}

/// `}}`
pub open spec fn close_mark() -> Seq<char> {
    seq!['}', '}']
}

/// The value of a template variable, if it is a known one.
pub open spec fn variable_value(name: Seq<char>, package: Seq<char>, version: Seq<char>) -> Option<
    Seq<char>,
> {
    if name == "package"@ {
        Some(package)
    } else if name == "version"@ {
        Some(version)
    } else {
        None
    }
}

/// The rendering of the template from character `from` on: text is copied,
/// each `{{ name }}` is replaced by the variable's value. An unknown variable
/// or a `{{` without `}}` makes the rendering fail.
pub open spec fn render_from(t: Seq<char>, package: Seq<char>, version: Seq<char>, from: int) -> Option<
    Seq<char>,
>
    decreases t.len() - from,
{
    if from < 0 || from > t.len() {
        None
    } else if exists|i: int| first_occurrence_from(t, open_mark(), from, i) {
        let i = choose|i: int| first_occurrence_from(t, open_mark(), from, i);
        match find_spec(t, close_mark(), i + 2) {
            Some(j) => match variable_value(trimmed(t.subrange(i + 2, j)), package, version) {
                Some(v) => match render_from(t, package, version, j + 2) {
                    Some(rest) => Some(t.subrange(from, i) + v + rest),
                    None => None,
                },
                None => None,
            },
            None => None,
        }
    } else {
        Some(t.subrange(from, t.len() as int))
    }
}

/// Why a template cannot be rendered.
#[derive(Debug)]
pub enum TemplateError {
    /// A variable that is neither `package` nor `version`.
    UnknownVariable(String),
    /// A `{{` without its `}}`.
    Unclosed,
}

proof fn lemma_render_prefix(
    t: Seq<char>,
    package: Seq<char>,
    version: Seq<char>,
    from: int,
    i: int,
    j: int,
    v: Seq<char>,
)
    requires
        first_occurrence_from(t, open_mark(), from, i),
        find_spec(t, close_mark(), i + 2) == Some(j),
        variable_value(trimmed(t.subrange(i + 2, j)), package, version) == Some(v),
        0 <= from <= t.len(),
    ensures
        render_from(t, package, version, from) == match render_from(t, package, version, j + 2) {
            Some(rest) => Some(t.subrange(from, i) + v + rest),
            None => None::<Seq<char>>,
        },
{
    crate::text::lemma_find_spec_some(t, open_mark(), from, i);
}

/// Renders a name template (see [`render_from`]).
pub fn render_template(template: &str, package: &str, version: &str) -> (r: Result<String, TemplateError>)
    ensures
        match (r, render_from(template@, package@, version@, 0)) {
            (Ok(s), Some(x)) => s@ == x,
            (Err(_), None) => true,
            _ => false,
        },
{
    let open = "{{";
    let close = "}}";
    proof {
        reveal_strlit("{{");
        reveal_strlit("}}");
        reveal_strlit("package");
        reveal_strlit("version");
        assert(open@ =~= open_mark());
        assert(close@ =~= close_mark());
    }
    let n = template.unicode_len();
    let mut out = String::new();
    let mut pos: usize = 0;
    loop
        invariant
            n == template@.len(),
            pos <= n,
            open@ == open_mark(),
            close@ == close_mark(),
            match render_from(template@, package@, version@, pos as int) {
                Some(rest) => render_from(template@, package@, version@, 0) == Some(out@ + rest),
                None => render_from(template@, package@, version@, 0) is None,
            },
        decreases n - pos,
    {
        match find_from(template, open, pos) {
            Some(i) => {
                match find_from(template, close, i + 2) {
                    Some(j) => {
                        let name = trim(template.substring_char(i + 2, j));
                        let value = if str_eq(name, "package") {
                            package
                        } else if str_eq(name, "version") {
                            version
                        } else {
                            proof {
                                crate::text::lemma_find_spec_some(template@, open_mark(), pos as int, i as int);
                            }
                            return Err(TemplateError::UnknownVariable(owned(name)));
                        };
                        proof {
                            lemma_render_prefix(template@, package@, version@, pos as int, i as int, j as int, value@);
                        }
                        let ghost before = out@;
                        let ghost p0 = pos as int;
                        out.append(template.substring_char(pos, i));
                        out.append(value);
                        pos = j + 2;
                        proof {
                            match render_from(template@, package@, version@, pos as int) {
                                Some(rest) => {
                                    assert(before + (template@.subrange(p0, i as int) + value@ + rest)
                                        =~= out@ + rest);
                                },
                                None => {},
                            }
                        }
                    },
                    None => {
                        proof {
                            crate::text::lemma_find_spec_some(template@, open_mark(), pos as int, i as int);
                        }
                        return Err(TemplateError::Unclosed);
                    },
                }
            },
            None => {
                proof {
                    if exists|i: int| first_occurrence_from(template@, open_mark(), pos as int, i) {
                        let i = choose|i: int| first_occurrence_from(template@, open_mark(), pos as int, i);
                        assert(crate::text::occurs_at(template@, open_mark(), i));
                    }
                }
                out.append(template.substring_char(pos, n));
                return Ok(out);
            },
        }
    }
}

/// The tag name of a package version: the template rendered when there is
/// one, else `{package}-v{version}`, or `v{version}` in a unified workspace.
pub fn tag_name(template: Option<&str>, package: &str, version: &Version, unified: bool) -> (r: Result<
    String,
    TemplateError,
>)
    ensures
        match template {
            Some(t) => match (r, render_from(t@, package@, version_text(*version), 0)) {
                (Ok(s), Some(x)) => s@ == x,
                (Err(_), None) => true,
                _ => false,
            },
            None => r matches Ok(s) && (unified ==> s@ == seq!['v'] + version_text(*version)) && (
            !unified ==> s@ == package@ + seq!['-', 'v'] + version_text(*version)),
        },
{
    match template {
        Some(t) => {
            let v = version.to_string();
            render_template(t, package, v.as_str())
        },
        None => Ok(crate::release::default_tag_name(package, version, unified)),
    }
}

/// The release name of a package version: the template rendered when there
/// is one (with `workspace` as the package in a unified workspace); else
/// `Version {version}` in a unified workspace and the default tag name
/// otherwise.
pub fn release_name(template: Option<&str>, package: &str, version: &Version, unified: bool) -> (r:
    Result<String, TemplateError>)
    ensures
        match template {
            Some(t) => match (
                r,
                render_from(t@, if unified { "workspace"@ } else { package@ }, version_text(*version), 0),
            ) {
                (Ok(s), Some(x)) => s@ == x,
                (Err(_), None) => true,
                _ => false,
            },
            None => r matches Ok(s) && (unified ==> s@ == "Version "@ + version_text(*version)) && (
            !unified ==> s@ == package@ + seq!['-', 'v'] + version_text(*version)),
        },
{
    proof {
        reveal_strlit("Version ");
    }
    match template {
        Some(t) => {
            let v = version.to_string();
            let name = if unified {
                "workspace"
            } else {
                package
            };
            render_template(t, name, v.as_str())
        },
        None => if unified {
            Ok(crate::release::default_unified_release_name(version))
        } else {
            Ok(crate::release::default_tag_name(package, version, false))
        },
    }
}

} // verus!
