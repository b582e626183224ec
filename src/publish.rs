//! Decisions of the publish command: registries, index checks, outcomes.
use vstd::prelude::*;
use vstd::string::*;
use crate::release_config::PublishPackageConfig;
use crate::text::{append_decimal, contains, contains_seq, decimal, owned, str_eq};
use crate::version::{version_text, Version};

verus! {

/// The registries a package goes to. `None` stands for the default public
/// registry. With a registry named on the command line: that registry, when
/// the manifest does not restrict the package to a list that leaves it out.
/// Without one: the manifest's registries, or the default registry when the
/// manifest names none.
pub open spec fn registries_spec(manifest: Option<Seq<Seq<char>>>, cli: Option<Seq<char>>) -> Seq<
    Option<Seq<char>>,
> {
    match cli {
        Some(r) => match manifest {
            Some(list) => if list.contains(r) {
                seq![Some(r)]
            } else {
                Seq::empty()
            },
            None => seq![Some(r)],
        },
        None => match manifest {
            Some(list) => if list.len() > 0 {
                list.map_values(|x: Seq<char>| Some(x))
            } else {
                seq![None]
            },
            None => seq![None],
        },
    }
}

/// The views of optional strings.
pub open spec fn opt_views(v: Seq<Option<String>>) -> Seq<Option<Seq<char>>> {
    v.map_values(|o: Option<String>| match o {
        Some(s) => Some(s@),
        None => None,
    })
}

/// The registries a package goes to (see [`registries_spec`]).
pub fn registries_for(manifest: Option<&Vec<String>>, cli: Option<&str>) -> (r: Vec<Option<String>>)
    ensures
        opt_views(r@) == registries_spec(
            match manifest {
                Some(l) => Some(crate::forge::views(l@)),
                None => None,
            },
            match cli {
                Some(c) => Some(c@),
                None => None,
            },
        ),
{
    let mut r: Vec<Option<String>> = Vec::new();
    match cli {
        Some(c) => match manifest {
            Some(list) => {
                let ghost lv = crate::forge::views(list@);
                let mut found = false;
                let mut i: usize = 0;
                while i < list.len()
                    invariant
                        i <= list@.len(),
                        lv == crate::forge::views(list@),
                        found == exists|t: int| 0 <= t < i && lv[t] == c@,
                    decreases list@.len() - i,
                {
                    assert(lv[i as int] == list@[i as int]@);
                    if str_eq(list[i].as_str(), c) {
                        found = true;
                    }
                    i = i + 1;
                }
                if found {
                    r.push(Some(owned(c)));
                    assert(opt_views(r@) =~= seq![Some(c@)]);
                } else {
                    assert(opt_views(r@) =~= Seq::<Option<Seq<char>>>::empty());
                }
            },
            None => {
                r.push(Some(owned(c)));
                assert(opt_views(r@) =~= seq![Some(c@)]);
            },
        },
        None => match manifest {
            Some(list) => {
                if list.len() > 0 {
                    let mut i: usize = 0;
                    while i < list.len()
                        invariant
                            i <= list@.len(),
                            opt_views(r@) == crate::forge::views(list@).subrange(0, i as int).map_values(
                                |x: Seq<char>| Some(x),
                            ),
                        decreases list@.len() - i,
                    {
                        let ghost before = opt_views(r@);
                        r.push(Some(owned(list[i].as_str())));
                        assert(opt_views(r@) =~= before.push(Some(list@[i as int]@)));
                        assert(crate::forge::views(list@).subrange(0, i as int + 1) =~= crate::forge::views(
                            list@,
                        ).subrange(0, i as int).push(list@[i as int]@));
                        i = i + 1;
                        assert(opt_views(r@) =~= crate::forge::views(list@).subrange(0, i as int).map_values(
                            |x: Seq<char>| Some(x),
                        ));
                    }
                    assert(crate::forge::views(list@).subrange(0, i as int) =~= crate::forge::views(list@));
                } else {
                    r.push(None);
                    assert(opt_views(r@) =~= seq![None]);
                }
            },
            None => {
                r.push(None);
                assert(opt_views(r@) =~= seq![None]);
            },
        },
    }
    r
}

/// The index that answered whether a package is published.
#[derive(Clone, Copy, Debug, PartialEq, Eq, Structural)]
pub enum IndexChoice {
    Primary,
    Fallback,
}

/// Neither the primary nor the fallback index could answer.
#[derive(Clone, Copy, Debug, PartialEq, Eq, Structural)]
pub struct IndexError;

/// Whether a package is published, from the answer of the primary index and,
/// when the primary failed and a fallback exists, the fallback's answer. On a
/// fallback answer, later work uses the fallback index.
pub fn published_check(primary: Result<bool, ()>, fallback: Option<Result<bool, ()>>) -> (r: Result<
    (bool, IndexChoice),
    IndexError,
>)
    ensures
        match primary {
            Ok(p) => r == Ok::<(bool, IndexChoice), IndexError>((p, IndexChoice::Primary)),
            Err(_) => match fallback {
                Some(Ok(f)) => r == Ok::<(bool, IndexChoice), IndexError>((f, IndexChoice::Fallback)),
                _ => r == Err::<(bool, IndexChoice), IndexError>(IndexError),
            },
        },
{
    match primary {
        Ok(p) => Ok((p, IndexChoice::Primary)),
        Err(_) => match fallback {
            Some(Ok(f)) => Ok((f, IndexChoice::Fallback)),
            _ => Err(IndexError),
        },
    }
}

/// What the publish subprocess achieved.
#[derive(Clone, Copy, Debug, PartialEq, Eq, Structural)]
pub enum PublishOutcome {
    Published,
    /// Another publisher uploaded the same version meanwhile.
    AlreadyUploaded,
    Failed,
}

pub open spec fn uploading_mark() -> Seq<char> {
    seq!['U', 'p', 'l', 'o', 'a', 'd', 'i', 'n', 'g']
}

pub open spec fn error_mark() -> Seq<char> {
    seq!['e', 'r', 'r', 'o', 'r', ':']
}

/// `crate version `{version}` is already uploaded`
pub open spec fn already_uploaded_mark(version: Version) -> Seq<char> {
    seq!['c', 'r', 'a', 't', 'e', ' ', 'v', 'e', 'r', 's', 'i', 'o', 'n', ' ', '`'] + version_text(
        version,
    ) + seq!['`', ' ', 'i', 's', ' ', 'a', 'l', 'r', 'e', 'a', 'd', 'y', ' ', 'u', 'p', 'l', 'o', 'a', 'd', 'e', 'd']
}

/// The outcome of a publish run: a success needs a zero exit status, an
/// `Uploading` line and no `error:`; a failure whose output says the version is
/// already uploaded is a race lost to another publisher.
pub open spec fn publish_outcome_spec(success: bool, stderr: Seq<char>, version: Version) -> PublishOutcome {
    if !success || !contains_seq(stderr, uploading_mark()) || contains_seq(stderr, error_mark()) {
        if contains_seq(stderr, already_uploaded_mark(version)) {
            PublishOutcome::AlreadyUploaded
        } else {
            PublishOutcome::Failed
        }
    } else {
        PublishOutcome::Published
    }
}

/// The outcome of a publish run (see [`publish_outcome_spec`]).
pub fn publish_outcome(success: bool, stderr: &str, version: &Version) -> (r: PublishOutcome)
    ensures
        r == publish_outcome_spec(success, stderr@, *version),
{
    proof {
        reveal_strlit("Uploading");
        reveal_strlit("error:");
        reveal_strlit("crate version `");
        reveal_strlit("` is already uploaded");
        assert("Uploading"@ =~= uploading_mark());
        assert("error:"@ =~= error_mark());
    }
    if !success || !contains(stderr, "Uploading") || contains(stderr, "error:") {
        let mut mark = owned("crate version `");
        let v = version.to_string();
        mark.append(v.as_str());
        mark.append("` is already uploaded");
        assert(mark@ =~= already_uploaded_mark(*version));
        if contains(stderr, mark.as_str()) {
            PublishOutcome::AlreadyUploaded
        } else {
            PublishOutcome::Failed
        }
    } else {
        PublishOutcome::Published
    }
}

/// Trusted publishing is tried for the default public registry, from CI, when
/// no token is at hand and this is no dry run.
pub fn should_use_trusted_publishing(
    registry_token_found: bool,
    cli_token_given: bool,
    is_default_registry: bool,
    dry_run: bool,
    in_ci: bool,
) -> (r: bool)
    ensures
        r == (!registry_token_found && !cli_token_given && is_default_registry && !dry_run && in_ci),
{
    !registry_token_found && !cli_token_given && is_default_registry && !dry_run && in_ci
}

/// A package that its manifest keeps from publishing but the configuration
/// asks to publish.
#[derive(Debug)]
pub struct PublishFieldError {
    pub package: String,
}

impl PublishFieldError {
    /// The error message, naming the package.
    pub fn message(&self) -> (r: String)
        ensures
            r@ == "Package `"@ + self.package@
                + "` has `publish = false` or `publish = []` in the Cargo.toml, but it has `publish = true` in the k-releaser configuration."@,
    {
        let mut r = owned("Package `");
        proof {
            reveal_strlit("Package `");
        }
        r.append(self.package.as_str());
        r.append(
            "` has `publish = false` or `publish = []` in the Cargo.toml, but it has `publish = true` in the k-releaser configuration.",
        );
        r
    }
}

/// The configuration of `name` sets `publish = true` although its manifest
/// forbids publishing.
pub open spec fn publish_conflict(
    name: Seq<char>,
    publishable: bool,
    overrides: Seq<(Seq<char>, bool)>,
) -> bool {
    !publishable && exists|j: int| 0 <= j < overrides.len() && overrides[j].0 == name && overrides[j].1
}

/// The views of (name, flag) pairs.
pub open spec fn pair_views(v: Seq<(String, bool)>) -> Seq<(Seq<char>, bool)> {
    v.map_values(|p: (String, bool)| (p.0@, p.1))
}

/// Pre-flight check: fails on the first package (manifest order) whose
/// manifest forbids publishing while its configuration sets `publish = true`.
pub fn check_publish_fields(packages: &[(String, bool)], publish_overrides: &[(String, bool)]) -> (r:
    Result<(), PublishFieldError>)
    ensures
        r is Ok <==> forall|i: int|
            0 <= i < packages@.len() ==> !publish_conflict(
                #[trigger] packages@[i].0@,
                packages@[i].1,
                pair_views(publish_overrides@),
            ),
        r matches Err(e) ==> exists|i: int|
            0 <= i < packages@.len() && e.package@ == packages@[i].0@ && publish_conflict(
                packages@[i].0@,
                packages@[i].1,
                pair_views(publish_overrides@),
            ) && forall|j: int|
                0 <= j < i ==> !publish_conflict(
                    #[trigger] packages@[j].0@,
                    packages@[j].1,
                    pair_views(publish_overrides@),
                ),
{
    let ghost ov = pair_views(publish_overrides@);
    let mut i: usize = 0;
    while i < packages.len()
        invariant
            i <= packages@.len(),
            ov == pair_views(publish_overrides@),
            forall|t: int|
                0 <= t < i ==> !publish_conflict(#[trigger] packages@[t].0@, packages@[t].1, ov),
        decreases packages@.len() - i,
    {
        if !packages[i].1 {
            let mut j: usize = 0;
            let mut conflict = false;
            while j < publish_overrides.len()
                invariant
                    i < packages@.len(),
                    j <= publish_overrides@.len(),
                    ov == pair_views(publish_overrides@),
                    conflict == exists|t: int|
                        0 <= t < j && ov[t].0 == packages@[i as int].0@ && ov[t].1,
                decreases publish_overrides@.len() - j,
            {
                assert(ov[j as int] == (publish_overrides@[j as int].0@, publish_overrides@[j as int].1));
                if publish_overrides[j].1 && str_eq(
                    publish_overrides[j].0.as_str(),
                    packages[i].0.as_str(),
                ) {
                    conflict = true;
                }
                j = j + 1;
            }
            if conflict {
                return Err(PublishFieldError { package: owned(packages[i].0.as_str()) });
            }
        }
        i = i + 1;
    }
    Ok(())
}

/// Whether a publish flag holds: the package's settings when it has its own,
/// else the defaults.
pub fn package_publish_config<'a>(
    overrides: &'a [(String, PublishPackageConfig)],
    default: &'a PublishPackageConfig,
    package: &str,
) -> (r: &'a PublishPackageConfig)
    ensures
        (exists|i: int| 0 <= i < overrides@.len() && overrides@[i].0@ == package@) ==> exists|i: int|
            0 <= i < overrides@.len() && overrides@[i].0@ == package@ && *r == overrides@[i].1
                && forall|j: int| 0 <= j < i ==> overrides@[j].0@ != package@,
        (forall|i: int| 0 <= i < overrides@.len() ==> overrides@[i].0@ != package@) ==> *r == *default,
{
    let mut i: usize = 0;
    while i < overrides.len()
        invariant
            i <= overrides@.len(),
            forall|j: int| 0 <= j < i ==> overrides@[j].0@ != package@,
        decreases overrides@.len() - i,
    {
        if str_eq(overrides[i].0.as_str(), package) {
            return &overrides[i].1;
        }
        i = i + 1;
    }
    default
}

/// `flag` followed by the value, when there is one.
pub open spec fn opt_pair(flag: Seq<char>, v: Option<Seq<char>>) -> Seq<Seq<char>> {
    match v {
        Some(x) => seq![flag, x],
        None => Seq::empty(),
    }
}

/// `flag` when `b` holds.
pub open spec fn flag_if(b: bool, flag: Seq<char>) -> Seq<Seq<char>> {
    if b {
        seq![flag]
    } else {
        Seq::empty()
    }
}

/// The arguments of the build tool's publish subcommand.
pub open spec fn publish_args_spec(
    manifest_path: Seq<char>,
    package: Seq<char>,
    registry: Option<Seq<char>>,
    token: Option<Seq<char>>,
    dry_run: bool,
    config: PublishPackageConfig,
    features_joined: Seq<char>,
) -> Seq<Seq<char>> {
    seq![
        seq!['p', 'u', 'b', 'l', 'i', 's', 'h'],
        seq!['-', '-', 'c', 'o', 'l', 'o', 'r'],
        seq!['a', 'l', 'w', 'a', 'y', 's'],
        seq!['-', '-', 'm', 'a', 'n', 'i', 'f', 'e', 's', 't', '-', 'p', 'a', 't', 'h'],
        manifest_path,
        seq!['-', '-', 'p', 'a', 'c', 'k', 'a', 'g', 'e'],
        package,
    ] + opt_pair(seq!['-', '-', 'r', 'e', 'g', 'i', 's', 't', 'r', 'y'], registry) + opt_pair(
        seq!['-', '-', 't', 'o', 'k', 'e', 'n'],
        token,
    ) + flag_if(dry_run, seq!['-', '-', 'd', 'r', 'y', '-', 'r', 'u', 'n']) + flag_if(
        config.allow_dirty,
        seq!['-', '-', 'a', 'l', 'l', 'o', 'w', '-', 'd', 'i', 'r', 't', 'y'],
    ) + flag_if(config.skip_build_check, seq!['-', '-', 'n', 'o', '-', 'v', 'e', 'r', 'i', 'f', 'y'])
        + opt_pair(
        seq!['-', '-', 'f', 'e', 'a', 't', 'u', 'r', 'e', 's'],
        if features_joined.len() > 0 {
            Some(features_joined)
        } else {
            None
        },
    ) + flag_if(config.all_features, seq!['-', '-', 'a', 'l', 'l', '-', 'f', 'e', 'a', 't', 'u', 'r', 'e', 's'])
}

/// The features joined by commas.
pub open spec fn joined(v: Seq<Seq<char>>) -> Seq<char>
    decreases v.len(),
{
    if v.len() == 0 {
        Seq::empty()
    } else if v.len() == 1 {
        v[0]
    } else {
        joined(v.drop_last()) + seq![','] + v.last()
    }
}

/// The features of a package joined by commas.
pub fn join_features(features: &Vec<String>) -> (r: String)
    ensures
        r@ == joined(crate::forge::views(features@)),
{
    let ghost fv = crate::forge::views(features@);
    let mut r = String::new();
    let mut i: usize = 0;
    while i < features.len()
        invariant
            i <= features@.len(),
            fv == crate::forge::views(features@),
            r@ == joined(fv.subrange(0, i as int)),
        decreases features@.len() - i,
    {
        assert(fv.subrange(0, i as int + 1).drop_last() =~= fv.subrange(0, i as int));
        if i > 0 {
            r.append(",");
            proof {
                reveal_strlit(",");
            }
        }
        r.append(features[i].as_str());
        i = i + 1;
        proof {
            if i == 1 {
                assert(fv.subrange(0, 0) =~= Seq::<Seq<char>>::empty());
            }
        }
        assert(r@ =~= joined(fv.subrange(0, i as int)));
    }
    assert(fv.subrange(0, i as int) =~= fv);
    r
}

fn push_str(args: &mut Vec<String>, s: &str)
    ensures
        crate::forge::views(final(args)@) == crate::forge::views(old(args)@).push(s@),
{
    args.push(owned(s));
    assert(crate::forge::views(args@) =~= crate::forge::views(old(args)@).push(s@));
}

fn push_opt_pair(args: &mut Vec<String>, flag: &str, v: Option<&str>)
    ensures
        crate::forge::views(final(args)@) == crate::forge::views(old(args)@) + opt_pair(
            flag@,
            match v {
                Some(x) => Some(x@),
                None => None,
            },
        ),
{
    if let Some(x) = v {
        push_str(args, flag);
        push_str(args, x);
    }
    assert(crate::forge::views(args@) =~= crate::forge::views(old(args)@) + opt_pair(
        flag@,
        match v {
            Some(x) => Some(x@),
            None => None,
        },
    ));
}

fn push_flag_if(args: &mut Vec<String>, b: bool, flag: &str)
    ensures
        crate::forge::views(final(args)@) == crate::forge::views(old(args)@) + flag_if(b, flag@),
{
    if b {
        push_str(args, flag);
    }
    assert(crate::forge::views(args@) =~= crate::forge::views(old(args)@) + flag_if(b, flag@));
}

/// The arguments of the publish subcommand (see [`publish_args_spec`]).
#[verifier::rlimit(40)]
pub fn publish_args(
    manifest_path: &str,
    package: &str,
    registry: Option<&str>,
    token: Option<&str>,
    dry_run: bool,
    config: &PublishPackageConfig,
) -> (r: Vec<String>)
    ensures
        crate::forge::views(r@) == publish_args_spec(
            manifest_path@,
            package@,
            match registry {
                Some(x) => Some(x@),
                None => None,
            },
            match token {
                Some(x) => Some(x@),
                None => None,
            },
            dry_run,
            *config,
            joined(crate::forge::views(config.features@)),
        ),
{
    proof {
        reveal_strlit("publish");
        reveal_strlit("--color");
        reveal_strlit("always");
        reveal_strlit("--manifest-path");
        reveal_strlit("--package");
        reveal_strlit("--registry");
        reveal_strlit("--token");
        reveal_strlit("--dry-run");
        reveal_strlit("--allow-dirty");
        reveal_strlit("--no-verify");
        reveal_strlit("--features");
        reveal_strlit("--all-features");
        assert("publish"@ =~= seq!['p', 'u', 'b', 'l', 'i', 's', 'h']);
        assert("--color"@ =~= seq!['-', '-', 'c', 'o', 'l', 'o', 'r']);
        assert("always"@ =~= seq!['a', 'l', 'w', 'a', 'y', 's']);
        assert("--manifest-path"@ =~= seq!['-', '-', 'm', 'a', 'n', 'i', 'f', 'e', 's', 't', '-', 'p', 'a', 't', 'h']);
        assert("--package"@ =~= seq!['-', '-', 'p', 'a', 'c', 'k', 'a', 'g', 'e']);
        assert("--registry"@ =~= seq!['-', '-', 'r', 'e', 'g', 'i', 's', 't', 'r', 'y']);
        assert("--token"@ =~= seq!['-', '-', 't', 'o', 'k', 'e', 'n']);
        assert("--dry-run"@ =~= seq!['-', '-', 'd', 'r', 'y', '-', 'r', 'u', 'n']);
        assert("--allow-dirty"@ =~= seq!['-', '-', 'a', 'l', 'l', 'o', 'w', '-', 'd', 'i', 'r', 't', 'y']);
        assert("--no-verify"@ =~= seq!['-', '-', 'n', 'o', '-', 'v', 'e', 'r', 'i', 'f', 'y']);
        assert("--features"@ =~= seq!['-', '-', 'f', 'e', 'a', 't', 'u', 'r', 'e', 's']);
        assert("--all-features"@ =~= seq!['-', '-', 'a', 'l', 'l', '-', 'f', 'e', 'a', 't', 'u', 'r', 'e', 's']);
    }
    let mut args: Vec<String> = Vec::new();
    push_str(&mut args, "publish");
    push_str(&mut args, "--color");
    push_str(&mut args, "always");
    push_str(&mut args, "--manifest-path");
    push_str(&mut args, manifest_path);
    push_str(&mut args, "--package");
    push_str(&mut args, package);
    assert(crate::forge::views(args@) =~= seq![
        seq!['p', 'u', 'b', 'l', 'i', 's', 'h'],
        seq!['-', '-', 'c', 'o', 'l', 'o', 'r'],
        seq!['a', 'l', 'w', 'a', 'y', 's'],
        seq!['-', '-', 'm', 'a', 'n', 'i', 'f', 'e', 's', 't', '-', 'p', 'a', 't', 'h'],
        manifest_path@,
        seq!['-', '-', 'p', 'a', 'c', 'k', 'a', 'g', 'e'],
        package@,
    ]);
    push_opt_pair(&mut args, "--registry", registry);
    push_opt_pair(&mut args, "--token", token);
    push_flag_if(&mut args, dry_run, "--dry-run");
    push_flag_if(&mut args, config.allow_dirty, "--allow-dirty");
    push_flag_if(&mut args, config.skip_build_check, "--no-verify");
    let features = join_features(&config.features);
    let f = if features.unicode_len() > 0 {
        Some(features.as_str())
    } else {
        None
    };
    push_opt_pair(&mut args, "--features", f);
    push_flag_if(&mut args, config.all_features, "--all-features");
    args
}

/// A package published by the command.
#[derive(Debug)]
pub struct PackagePublish {
    pub package_name: String,
    pub version: String,
    /// Git tag name.
    pub tag: String,
}

/// What the publish command reports.
#[derive(Debug)]
pub struct PublishOutput {
    pub published: Vec<PackagePublish>,
}

/// A package in the publish order.
#[derive(Debug)]
pub struct PackageOrderInfo {
    pub name: String,
    pub path: String,
}

/// The order in which packages would be published.
#[derive(Debug)]
pub struct PublishOrderOutput {
    pub publish_order: Vec<PackageOrderInfo>,
}

/// The line of the `k`-th package (from 0): `{k+1}. {name} ({path})`.
pub open spec fn order_line(k: nat, info: PackageOrderInfo) -> Seq<char> {
    decimal(k + 1) + seq!['.', ' '] + info.name@ + seq![' ', '('] + info.path@ + seq![')', '\n']
}

/// The lines of the first `n` packages.
pub open spec fn order_lines(v: Seq<PackageOrderInfo>, n: int) -> Seq<char>
    decreases n,
{
    if n <= 0 {
        Seq::empty()
    } else {
        order_lines(v, n - 1) + order_line((n - 1) as nat, v[n - 1])
    }
}

/// `Packages will be published in this order:`
pub open spec fn order_heading() -> Seq<char> {
    seq![
        'P', 'a', 'c', 'k', 'a', 'g', 'e', 's', ' ', 'w', 'i', 'l', 'l', ' ', 'b', 'e', ' ',
        'p', 'u', 'b', 'l', 'i', 's', 'h', 'e', 'd', ' ', 'i', 'n', ' ', 't', 'h', 'i', 's', ' ',
        'o', 'r', 'd', 'e', 'r', ':', '\n',
    ]
}

impl PublishOrderOutput {
    /// The human-readable publish order: a heading, one numbered line per
    /// package, and the total.
    pub fn display(&self) -> (r: String)
        ensures
            r@ == order_heading() + order_lines(self.publish_order@, self.publish_order@.len() as int)
                + seq!['\n', 'T', 'o', 't', 'a', 'l', ':', ' '] + decimal(self.publish_order@.len() as nat)
                + seq![' ', 'p', 'a', 'c', 'k', 'a', 'g', 'e', 's'],
    {
        proof {
            reveal_strlit("Packages will be published in this order:\n");
            reveal_strlit(". ");
            reveal_strlit(" (");
            reveal_strlit(")\n");
            reveal_strlit("\nTotal: ");
            reveal_strlit(" packages");
        }
        let mut out = owned("Packages will be published in this order:\n");
        assert(out@ =~= order_heading());
        let n = self.publish_order.len();
        let mut k: usize = 0;
        while k < n
            invariant
                n == self.publish_order@.len(),
                k <= n,
                out@ == order_heading() + order_lines(self.publish_order@, k as int),
            decreases n - k,
        {
            proof {
                reveal_strlit(". ");
                reveal_strlit(" (");
                reveal_strlit(")\n");
            }
            let info = &self.publish_order[k];
            let ghost before = out@;
            append_decimal(&mut out, k as u64 + 1);
            out.append(". ");
            out.append(info.name.as_str());
            out.append(" (");
            out.append(info.path.as_str());
            out.append(")\n");
            assert(out@ =~= before + order_line(k as nat, self.publish_order@[k as int]));
            assert(order_lines(self.publish_order@, k as int + 1) == order_lines(self.publish_order@, k as int)
                + order_line(k as nat, self.publish_order@[k as int]));
            assert(out@ =~= order_heading() + order_lines(self.publish_order@, k as int + 1));
            k = k + 1;
        }
        out.append("\nTotal: ");
        append_decimal(&mut out, n as u64);
        out.append(" packages");
        out
    }
}

/// What follows a publish run.
#[derive(Clone, Copy, Debug, PartialEq, Eq, Structural)]
pub enum AfterPublish {
    /// Wait until the index shows the version; the package counts as published.
    WaitForIndex,
    /// Nothing more; the package does not count as published here.
    Done,
    /// The publish failed.
    Fail,
}

/// What follows a publish run: a real upload is awaited in the index; a dry
/// run, or a version another publisher uploaded meanwhile, ends the package;
/// any other failure is fatal.
pub fn after_publish(outcome: PublishOutcome, dry_run: bool) -> (r: AfterPublish)
    ensures
        r == match outcome {
            PublishOutcome::Published => if dry_run {
                AfterPublish::Done
            } else {
                AfterPublish::WaitForIndex
            },
            PublishOutcome::AlreadyUploaded => AfterPublish::Done,
            PublishOutcome::Failed => AfterPublish::Fail,
        },
{
    match outcome {
        PublishOutcome::Published => if dry_run {
            AfterPublish::Done
        } else {
            AfterPublish::WaitForIndex
        },
        PublishOutcome::AlreadyUploaded => AfterPublish::Done,
        PublishOutcome::Failed => AfterPublish::Fail,
    }
}

/// How a registry index is reached.
#[derive(Debug)]
pub enum IndexUrl {
    /// A sparse index, at this URL.
    Sparse(String),
    /// A git index, at this `registry+` URL.
    Git(String),
}

/// The index of a registry URL: sparse when the URL says so, else git.
pub fn index_url(url: &str) -> (r: IndexUrl)
    ensures
        match r {
            IndexUrl::Sparse(u) => u@ == url@ && url@.len() >= 7 && url@.subrange(0, 7) == "sparse+"@,
            IndexUrl::Git(u) => u@ == "registry+"@ + url@ && !(url@.len() >= 7 && url@.subrange(0, 7)
                == "sparse+"@),
        },
{
    proof {
        reveal_strlit("sparse+");
    }
    if crate::text::starts_with(url, "sparse+") {
        IndexUrl::Sparse(owned(url))
    } else {
        let mut u = owned("registry+");
        u.append(url);
        IndexUrl::Git(u)
    }
}

/// In CI, a registry token variable set to an empty string is an error: the
/// secret was probably forgotten.
pub fn empty_ci_token_is_error(in_ci: bool, token_is_set_and_empty: bool) -> (r: bool)
    ensures
        r == (in_ci && token_is_set_and_empty),
{
    in_ci && token_is_set_and_empty
}

/// The path of a package directory relative to the workspace root, by whole
/// components; `.` when it is not below the root.
pub fn relative_package_path(package_dir: &str, workspace_root: &str) -> (r: String)
    ensures
        package_dir@ == workspace_root@ ==> r@.len() == 0,
        package_dir@ != workspace_root@ && package_dir@.len() > workspace_root@.len()
            && package_dir@.subrange(0, workspace_root@.len() as int) == workspace_root@
            && package_dir@[workspace_root@.len() as int] == '/' ==> r@ == package_dir@.subrange(
            workspace_root@.len() as int + 1,
            package_dir@.len() as int,
        ),
        !(package_dir@ == workspace_root@) && !(package_dir@.len() > workspace_root@.len()
            && package_dir@.subrange(0, workspace_root@.len() as int) == workspace_root@
            && package_dir@[workspace_root@.len() as int] == '/') ==> r@ == seq!['.'],
{
    proof {
        reveal_strlit(".");
    }
    if str_eq(package_dir, workspace_root) {
        let empty = String::new();
        assert(empty@ =~= Seq::<char>::empty());
        return empty;
    }
    let n = package_dir.unicode_len();
    let m = workspace_root.unicode_len();
    if n > m && crate::text::starts_with(package_dir, workspace_root) && package_dir.get_char(m) == '/' {
        owned(package_dir.substring_char(m + 1, n))
    } else {
        owned(".")
    }
}

/// The workspace has no package that can be published.
#[derive(Clone, Copy, Debug, PartialEq, Eq, Structural)]
pub struct NoPublishablePackages;

impl NoPublishablePackages {
    /// The error message.
    pub fn message(&self) -> (r: &'static str)
        ensures
            r@ == "No publishable packages found in workspace"@,
    {
        "No publishable packages found in workspace"
    }
}

/// The publish order of the publishable packages `order` (indices into
/// `names` and `paths`, in release order); an error when there is none.
pub fn publish_order(names: &[String], paths: &[String], order: &[usize]) -> (r: Result<
    PublishOrderOutput,
    NoPublishablePackages,
>)
    requires
        names@.len() == paths@.len(),
        forall|k: int| 0 <= k < order@.len() ==> (#[trigger] order@[k] as int) < names@.len(),
    ensures
        r is Err <==> order@.len() == 0,
        r matches Ok(o) ==> o.publish_order@.len() == order@.len() && forall|k: int|
            0 <= k < order@.len() ==> (#[trigger] o.publish_order@[k]).name@ == names@[order@[k] as int]@
                && o.publish_order@[k].path@ == paths@[order@[k] as int]@,
{
    if order.len() == 0 {
        return Err(NoPublishablePackages);
    }
    let mut infos: Vec<PackageOrderInfo> = Vec::new();
    let mut k: usize = 0;
    while k < order.len()
        invariant
            k <= order@.len(),
            names@.len() == paths@.len(),
            forall|j: int| 0 <= j < order@.len() ==> (#[trigger] order@[j] as int) < names@.len(),
            infos@.len() == k,
            forall|j: int|
                0 <= j < k ==> (#[trigger] infos@[j]).name@ == names@[order@[j] as int]@
                    && infos@[j].path@ == paths@[order@[j] as int]@,
        decreases order@.len() - k,
    {
        let i = order[k];
        infos.push(PackageOrderInfo { name: owned(names[i].as_str()), path: owned(paths[i].as_str()) });
        k = k + 1;
    }
    Ok(PublishOrderOutput { publish_order: infos })
}

} // verus!
