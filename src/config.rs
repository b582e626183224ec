//! The user's configuration: workspace defaults, per-package overrides, durations.
use vstd::prelude::*;
use vstd::string::*;
use crate::release_config::{
    GitReleaseConfig, GitTagConfig, PublishConfig, PublishPackageConfig, ReleaseConfig, ReleaseType,
};
use crate::text::{clone_opt, clone_opt_strings};

verus! {

/// Default bound on the commits analysed when a package has no release yet.
pub const DEFAULT_MAX_ANALYZE_COMMITS: u32 = 1000;

/// Settings that can stand both at the workspace and at the package level.
/// `None` means "not set here".
#[derive(Clone, Debug)]
pub struct PackageConfig {
    pub changelog_path: Option<String>,
    pub changelog_update: Option<bool>,
    pub features_always_increment_minor: Option<bool>,
    pub git_release_enable: Option<bool>,
    pub git_release_body: Option<String>,
    pub git_release_type: Option<ReleaseType>,
    pub git_release_draft: Option<bool>,
    pub git_release_latest: Option<bool>,
    pub git_release_name: Option<String>,
    pub git_tag_enable: Option<bool>,
    pub git_tag_name: Option<String>,
    pub publish_allow_dirty: Option<bool>,
    pub publish_skip_build_check: Option<bool>,
    pub publish_features: Option<Vec<String>>,
    pub publish_all_features: Option<bool>,
    /// Whether the package is published; set only where the configuration says so.
    pub publish: Option<bool>,
    pub semver_check: Option<bool>,
}

impl Default for PackageConfig {
    fn default() -> (r: Self)
        ensures
            r.changelog_path is None && r.changelog_update is None,
            r.features_always_increment_minor is None && r.git_release_enable is None,
            r.git_release_body is None && r.git_release_type is None,
            r.git_release_draft is None && r.git_release_latest is None,
            r.git_release_name is None && r.git_tag_enable is None && r.git_tag_name is None,
            r.publish_allow_dirty is None && r.publish_skip_build_check is None,
            r.publish_features is None && r.publish_all_features is None,
            r.publish is None,
            r.semver_check is None,
    {
        PackageConfig {
            changelog_path: None,
            changelog_update: None,
            features_always_increment_minor: None,
            git_release_enable: None,
            git_release_body: None,
            git_release_type: None,
            git_release_draft: None,
            git_release_latest: None,
            git_release_name: None,
            git_tag_enable: None,
            git_tag_name: None,
            publish_allow_dirty: None,
            publish_skip_build_check: None,
            publish_features: None,
            publish_all_features: None,
            publish: None,
            semver_check: None,
        }
    }
}

/// `a` when it is set, else `b`.
pub open spec fn or_spec<T>(a: Option<T>, b: Option<T>) -> Option<T> {
    if a is Some {
        a
    } else {
        b
    }
}

fn or_value<T>(a: Option<T>, b: Option<T>) -> (r: Option<T>)
    ensures
        r == or_spec(a, b),
{
    match a {
        Some(x) => Some(x),
        None => b,
    }
}

/// Every setting of `p` where it is set, else that of `d`.
pub open spec fn merged(p: PackageConfig, d: PackageConfig) -> PackageConfig {
    PackageConfig {
        changelog_path: or_spec(p.changelog_path, d.changelog_path),
        changelog_update: or_spec(p.changelog_update, d.changelog_update),
        features_always_increment_minor: or_spec(
            p.features_always_increment_minor,
            d.features_always_increment_minor,
        ),
        git_release_enable: or_spec(p.git_release_enable, d.git_release_enable),
        git_release_body: or_spec(p.git_release_body, d.git_release_body),
        git_release_type: or_spec(p.git_release_type, d.git_release_type),
        git_release_draft: or_spec(p.git_release_draft, d.git_release_draft),
        git_release_latest: or_spec(p.git_release_latest, d.git_release_latest),
        git_release_name: or_spec(p.git_release_name, d.git_release_name),
        git_tag_enable: or_spec(p.git_tag_enable, d.git_tag_enable),
        git_tag_name: or_spec(p.git_tag_name, d.git_tag_name),
        publish_allow_dirty: or_spec(p.publish_allow_dirty, d.publish_allow_dirty),
        publish_skip_build_check: or_spec(p.publish_skip_build_check, d.publish_skip_build_check),
        publish_features: or_spec(p.publish_features, d.publish_features),
        publish_all_features: or_spec(p.publish_all_features, d.publish_all_features),
        publish: or_spec(p.publish, d.publish),
        semver_check: or_spec(p.semver_check, d.semver_check),
    }
}

impl PackageConfig {
    /// Merges package settings over the workspace defaults: the package wins
    /// where it sets a value.
    pub fn merge(self, default: Self) -> (r: Self)
        ensures
            r == merged(self, default),
    {
        PackageConfig {
            changelog_path: or_value(self.changelog_path, default.changelog_path),
            changelog_update: or_value(self.changelog_update, default.changelog_update),
            features_always_increment_minor: or_value(
                self.features_always_increment_minor,
                default.features_always_increment_minor,
            ),
            git_release_enable: or_value(self.git_release_enable, default.git_release_enable),
            git_release_body: or_value(self.git_release_body, default.git_release_body),
            git_release_type: or_value(self.git_release_type, default.git_release_type),
            git_release_draft: or_value(self.git_release_draft, default.git_release_draft),
            git_release_latest: or_value(self.git_release_latest, default.git_release_latest),
            git_release_name: or_value(self.git_release_name, default.git_release_name),
            git_tag_enable: or_value(self.git_tag_enable, default.git_tag_enable),
            git_tag_name: or_value(self.git_tag_name, default.git_tag_name),
            publish_allow_dirty: or_value(self.publish_allow_dirty, default.publish_allow_dirty),
            publish_skip_build_check: or_value(
                self.publish_skip_build_check,
                default.publish_skip_build_check,
            ),
            publish_features: or_value(self.publish_features, default.publish_features),
            publish_all_features: or_value(self.publish_all_features, default.publish_all_features),
            publish: or_value(self.publish, default.publish),
            semver_check: or_value(self.semver_check, default.semver_check),
        }
    }

    /// The changelog path, when set.
    pub fn changelog_path(&self) -> (r: Option<&str>)
        ensures
            match (r, self.changelog_path) {
                (Some(a), Some(b)) => a@ == b@,
                (None, None) => true,
                _ => false,
            },
    {
        match &self.changelog_path {
            Some(p) => Some(p.as_str()),
            None => None,
        }
    }

    /// The publish settings these settings give.
    pub fn publish_package_config(&self) -> (r: PublishPackageConfig)
        ensures
            r.publish.enabled == (self.publish != Some(false)),
            r.skip_build_check == (self.publish_skip_build_check == Some(true)),
            r.allow_dirty == (self.publish_allow_dirty == Some(true)),
            r.all_features == (self.publish_all_features == Some(true)),
            match self.publish_features {
                Some(f) => r.features@ == f@,
                None => r.features@.len() == 0,
            },
    {
        let mut cfg = PublishPackageConfig::default().with_publish(
            PublishConfig::enabled(self.publish != Some(false)),
        );
        if let Some(v) = self.publish_skip_build_check {
            cfg = cfg.with_skip_build_check(v);
        }
        if let Some(f) = clone_opt_strings(&self.publish_features) {
            cfg = cfg.with_features(f);
        }
        if let Some(v) = self.publish_all_features {
            cfg = cfg.with_all_features(v);
        }
        if let Some(v) = self.publish_allow_dirty {
            cfg = cfg.with_allow_dirty(v);
        }
        cfg
    }

    /// The release settings these settings give.
    pub fn release_config(&self) -> (r: ReleaseConfig)
        ensures
            r.publish.enabled == (self.publish != Some(false)),
            r.git_release == git_release_spec(*self),
            r.git_tag.enabled == (self.git_tag_enable != Some(false)),
            r.git_tag.name_template == self.git_tag_name,
            r.changelog_update == (self.changelog_update != Some(false)),
            r.changelog_path == self.changelog_path,
            r.skip_build_check == (self.publish_skip_build_check == Some(true)),
            r.allow_dirty == (self.publish_allow_dirty == Some(true)),
            r.all_features == (self.publish_all_features == Some(true)),
            match self.publish_features {
                Some(f) => r.features@ == f@,
                None => r.features@.len() == 0,
            },
    {
        let tag = GitTagConfig::enabled(self.git_tag_enable != Some(false)).set_name_template(
            clone_opt(&self.git_tag_name),
        );
        let mut cfg = ReleaseConfig::default().with_git_release(git_release(self)).with_git_tag(tag).with_publish(
            PublishConfig::enabled(self.publish != Some(false)),
        );
        if let Some(v) = self.changelog_update {
            cfg = cfg.with_changelog_update(v);
        }
        if let Some(p) = clone_opt(&self.changelog_path) {
            cfg = cfg.with_changelog_path(p);
        }
        if let Some(v) = self.publish_skip_build_check {
            cfg = cfg.with_skip_build_check(v);
        }
        if let Some(f) = clone_opt_strings(&self.publish_features) {
            cfg = cfg.with_features(f);
        }
        if let Some(v) = self.publish_all_features {
            cfg = cfg.with_all_features(v);
        }
        if let Some(v) = self.publish_allow_dirty {
            cfg = cfg.with_allow_dirty(v);
        }
        cfg
    }
}

/// The forge release settings that package settings give: enabled unless
/// disabled, a draft only when asked, `latest` only when set to false.
pub open spec fn git_release_spec(c: PackageConfig) -> GitReleaseConfig {
    GitReleaseConfig {
        enabled: c.git_release_enable != Some(false),
        draft: c.git_release_draft == Some(true),
        latest: if c.git_release_latest == Some(false) {
            Some(false)
        } else {
            None
        },
        release_type: match c.git_release_type {
            Some(t) => t,
            None => ReleaseType::Prod,
        },
        name_template: c.git_release_name,
        body_template: c.git_release_body,
    }
}

/// The forge release settings of package settings (see [`git_release_spec`]).
pub fn git_release(config: &PackageConfig) -> (r: GitReleaseConfig)
    ensures
        r == git_release_spec(*config),
{
    let release_type = match config.git_release_type {
        Some(t) => t,
        None => ReleaseType::Prod,
    };
    let mut g = GitReleaseConfig::enabled(config.git_release_enable != Some(false)).set_draft(
        config.git_release_draft == Some(true),
    ).set_release_type(release_type).set_name_template(clone_opt(&config.git_release_name)).set_body_template(
    clone_opt(&config.git_release_body));
    if config.git_release_latest == Some(false) {
        g = g.set_latest(false);
    }
    g
}

/// Settings of one package: the common ones and those only a package has.
#[derive(Clone, Debug)]
pub struct PackageSpecificConfig {
    pub common: PackageConfig,
    /// Packages whose changelogs are included in this package's changelog.
    pub changelog_include: Option<Vec<String>>,
    /// Packages of one group share their version.
    pub version_group: Option<String>,
}

impl PackageSpecificConfig {
    /// Merges the common settings over the workspace defaults.
    pub fn merge(self, default: PackageConfig) -> (r: Self)
        ensures
            r.common == merged(self.common, default),
            r.changelog_include == self.changelog_include,
            r.version_group == self.version_group,
    {
        PackageSpecificConfig {
            common: self.common.merge(default),
            changelog_include: self.changelog_include,
            version_group: self.version_group,
        }
    }

    /// The common settings.
    pub fn common(&self) -> (r: &PackageConfig)
        ensures
            *r == self.common,
    {
        &self.common
    }
}

/// Settings of a named package.
#[derive(Clone, Debug)]
pub struct PackageSpecificConfigWithName {
    pub name: String,
    pub config: PackageSpecificConfig,
}

/// The default bound on analysed commits.
pub fn default_max_analyze_commits() -> (r: Option<u32>)
    ensures
        r == Some(1000u32),
{
    Some(DEFAULT_MAX_ANALYZE_COMMITS)
}

/// Unit of a duration.
#[derive(Clone, Copy, Debug, PartialEq, Eq, Structural)]
pub enum DurationUnit {
    Seconds,
    Minutes,
    Hours,
}

/// Why a duration cannot be read.
#[derive(Clone, Copy, Debug, PartialEq, Eq, Structural)]
pub enum DurationError {
    /// The input is empty.
    Empty,
    /// The input ends in a letter that is no unit.
    InvalidUnit(char),
    /// What precedes the unit is no number of `u64`.
    InvalidNumber,
    /// The duration in seconds does not fit in `u64`.
    TooLarge,
}

impl DurationError {
    /// The error message.
    pub fn message(&self) -> (r: String)
        ensures
            *self == DurationError::Empty ==> r@ == "input cannot be empty"@,
            *self == DurationError::InvalidNumber ==> r@ == "invalid duration number"@,
            *self == DurationError::TooLarge ==> r@ == "duration is too large"@,
            forall|c: char|
                *self == DurationError::InvalidUnit(c) && is_ascii_letter(c) ==> r@ == "'"@ + seq![c]
                    + "' is not a valid time unit. Valid units are: 's', 'm' and 'h'"@,
    {
        proof {
            reveal_strlit("input cannot be empty");
            reveal_strlit("invalid duration number");
            reveal_strlit("duration is too large");
            reveal_strlit("' is not a valid time unit. Valid units are: 's', 'm' and 'h'");
        }
        match self {
            DurationError::Empty => String::from_str("input cannot be empty"),
            DurationError::InvalidNumber => String::from_str("invalid duration number"),
            DurationError::TooLarge => String::from_str("duration is too large"),
            DurationError::InvalidUnit(c) => {
                proof {
                    reveal_strlit("'");
                }
                let mut r = String::from_str("'");
                r.append(char_text(*c));
                r.append("' is not a valid time unit. Valid units are: 's', 'm' and 'h'");
                r
            },
        }
    }
}

/// The text of one ASCII letter; `?` for anything else.
fn char_text(c: char) -> (r: &'static str)
    ensures
        is_ascii_letter(c) ==> r@ == seq![c],
{
    let lower = "abcdefghijklmnopqrstuvwxyz";
    let upper = "ABCDEFGHIJKLMNOPQRSTUVWXYZ";
    proof {
        reveal_strlit("abcdefghijklmnopqrstuvwxyz");
        reveal_strlit("ABCDEFGHIJKLMNOPQRSTUVWXYZ");
    }
    if 'a' <= c && c <= 'z' {
        let i = (c as u32 - 'a' as u32) as usize;
        let r = lower.substring_char(i, i + 1);
        assert(r@[0] == lower@[i as int]);
        assert(lower@[i as int] as u32 == c as u32);
        assert(r@ =~= seq![c]);
        r
    } else if 'A' <= c && c <= 'Z' {
        let i = (c as u32 - 'A' as u32) as usize;
        let r = upper.substring_char(i, i + 1);
        assert(r@[0] == upper@[i as int]);
        assert(upper@[i as int] as u32 == c as u32);
        assert(r@ =~= seq![c]);
        r
    } else {
        "?"
    }
}

/// An ASCII letter.
pub open spec fn is_ascii_letter(c: char) -> bool {
    ('a' <= c <= 'z') || ('A' <= c <= 'Z')
}

/// The unit a duration text ends in and the text before it: a trailing `s`,
/// `m` or `h` names the unit; no trailing letter means seconds.
pub open spec fn duration_unit_spec(input: Seq<char>) -> Result<(Seq<char>, DurationUnit), DurationError> {
    if input.len() == 0 {
        Err(DurationError::Empty)
    } else {
        let last = input.last();
        let front = input.drop_last();
        if last == 's' {
            Ok((front, DurationUnit::Seconds))
        } else if last == 'm' {
            Ok((front, DurationUnit::Minutes))
        } else if last == 'h' {
            Ok((front, DurationUnit::Hours))
        } else if is_ascii_letter(last) {
            Err(DurationError::InvalidUnit(last))
        } else {
            Ok((input, DurationUnit::Seconds))
        }
    }
}

/// Splits a duration text into its number text and its unit.
pub fn parse_duration_unit(input: &str) -> (r: Result<(&str, DurationUnit), DurationError>)
    ensures
        match (r, duration_unit_spec(input@)) {
            (Ok((a, u)), Ok((b, w))) => a@ == b && u == w,
            (Err(e), Err(f)) => e == f,
            _ => false,
        },
{
    let n = input.unicode_len();
    if n == 0 {
        return Err(DurationError::Empty);
    }
    let last = input.get_char(n - 1);
    let front = input.substring_char(0, n - 1);
    assert(front@ =~= input@.drop_last());
    if last == 's' {
        Ok((front, DurationUnit::Seconds))
    } else if last == 'm' {
        Ok((front, DurationUnit::Minutes))
    } else if last == 'h' {
        Ok((front, DurationUnit::Hours))
    } else if ('a' <= last && last <= 'z') || ('A' <= last && last <= 'Z') {
        Err(DurationError::InvalidUnit(last))
    } else {
        Ok((input, DurationUnit::Seconds))
    }
}

/// The value of a decimal text as `u64::from_str` reads it: an optional `+`,
/// then at least one digit, the value at most `u64::MAX`.
pub open spec fn u64_text_value(s: Seq<char>) -> Option<u64> {
    let digits = if s.len() > 0 && s[0] == '+' {
        s.drop_first()
    } else {
        s
    };
    if digits.len() > 0 && crate::version::all_digits(digits) && crate::version::digits_value(digits)
        <= u64::MAX {
        Some(crate::version::digits_value(digits) as u64)
    } else {
        None
    }
}

proof fn lemma_digits_value_grows(s: Seq<char>, k: int)
    requires
        0 <= k <= s.len(),
        crate::version::all_digits(s),
    ensures
        crate::version::digits_value(s.subrange(0, k)) <= crate::version::digits_value(s),
    decreases s.len() - k,
{
    if k < s.len() {
        lemma_digits_value_grows(s, k + 1);
        assert(s.subrange(0, k + 1).drop_last() =~= s.subrange(0, k));
        assert('0' <= s.subrange(0, k + 1).last() <= '9');
    } else {
        assert(s.subrange(0, k) =~= s);
    }
}

/// Reads a decimal number (see [`u64_text_value`]).
pub fn parse_u64(s: &str) -> (r: Option<u64>)
    ensures
        r == u64_text_value(s@),
{
    let n = s.unicode_len();
    let start: usize = if n > 0 && s.get_char(0) == '+' {
        1
    } else {
        0
    };
    let digits = s.substring_char(start, n);
    assert(digits@ =~= (if s@.len() > 0 && s@[0] == '+' {
        s@.drop_first()
    } else {
        s@
    }));
    let m = digits.unicode_len();
    if m == 0 {
        return None;
    }
    let mut value: u64 = 0;
    let mut k: usize = 0;
    while k < m
        invariant
            m == digits@.len(),
            k <= m,
            digits@ == (if s@.len() > 0 && s@[0] == '+' {
                s@.drop_first()
            } else {
                s@
            }),
            crate::version::all_digits(digits@.subrange(0, k as int)),
            value == crate::version::digits_value(digits@.subrange(0, k as int)),
        decreases m - k,
    {
        let c = digits.get_char(k);
        assert(digits@.subrange(0, k as int + 1).drop_last() =~= digits@.subrange(0, k as int));
        if c < '0' || c > '9' {
            assert(!crate::version::all_digits(digits@)) by {
                assert(!('0' <= digits@[k as int] <= '9'));
            }
            return None;
        }
        let d = (c as u32 - '0' as u32) as u64;
        if value > (u64::MAX - d) / 10 {
            proof {
                if crate::version::all_digits(digits@) {
                    lemma_digits_value_grows(digits@, k as int + 1);
                }
                assert(crate::version::digits_value(digits@.subrange(0, k as int + 1)) == value
                    * 10 + d) by (nonlinear_arith)
                    requires
                        crate::version::digits_value(digits@.subrange(0, k as int + 1))
                            == crate::version::digits_value(digits@.subrange(0, k as int)) * 10 + d,
                        value == crate::version::digits_value(digits@.subrange(0, k as int)),
                ;
                assert(value * 10 + d > u64::MAX) by (nonlinear_arith)
                    requires
                        value > (u64::MAX - d) / 10,
                        d <= 9,
                ;
            }
            return None;
        }
        proof {
            assert(value * 10 + d <= u64::MAX) by (nonlinear_arith)
                requires
                    value <= (u64::MAX - d) / 10,
                    d <= 9,
            ;
        }
        value = value * 10 + d;
        k = k + 1;
    }
    assert(digits@.subrange(0, m as int) =~= digits@);
    Some(value)
}

/// The number of seconds a duration text stands for.
pub open spec fn duration_spec(input: Seq<char>) -> Result<u64, DurationError> {
    match duration_unit_spec(input) {
        Err(e) => Err(e),
        Ok((number, unit)) => match u64_text_value(number) {
            None => Err(DurationError::InvalidNumber),
            Some(v) => {
                let factor: int = match unit {
                    DurationUnit::Seconds => 1,
                    DurationUnit::Minutes => 60,
                    DurationUnit::Hours => 3600,
                };
                if v * factor > u64::MAX {
                    Err(DurationError::TooLarge)
                } else {
                    Ok((v * factor) as u64)
                }
            },
        },
    }
}

/// Reads a duration in seconds: a number with an optional unit `s`, `m` or `h`.
pub fn parse_duration(input: &str) -> (r: Result<u64, DurationError>)
    ensures
        r == duration_spec(input@),
{
    let (number, unit) = match parse_duration_unit(input) {
        Ok(p) => p,
        Err(e) => return Err(e),
    };
    let v = match parse_u64(number) {
        Some(v) => v,
        None => return Err(DurationError::InvalidNumber),
    };
    let factor: u64 = match unit {
        DurationUnit::Seconds => 1,
        DurationUnit::Minutes => 60,
        DurationUnit::Hours => 3600,
    };
    match v.checked_mul(factor) {
        Some(s) => Ok(s),
        None => Err(DurationError::TooLarge),
    }
}

} // verus!
