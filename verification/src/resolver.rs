//! Choosing the configuration root among the candidate sources.
//!
//! There are three sources, in falling precedence: an explicit override, an
//! override taken from the environment, and the built-in default. An override
//! that is missing or blank does not count. The caller gathers the candidates;
//! nothing here performs I/O.

use crate::blank::{is_blank, str_is_blank};
use crate::config::{default_path, default_path_chars};
use vstd::prelude::*;

verus! {

/// The source that a resolved path was taken from.
#[derive(Clone, Copy, Debug, PartialEq, Eq, Hash, Structural)]
pub enum ConfigSource {
    /// The built-in default path.
    Default,
    /// The override found in the environment.
    EnvironmentOverride,
    /// The override that the caller gave explicitly.
    ExplicitOverride,
}

impl ConfigSource {
    /// The rank of a source in the order of precedence: of two sources that
    /// both offer a path, the one of higher rank is preferred.
    pub open spec fn precedence(self) -> nat {
        match self {
            ConfigSource::Default => 0,
            ConfigSource::EnvironmentOverride => 1,
            ConfigSource::ExplicitOverride => 2,
        }
    }
}

/// The path that was chosen, and the source that gave it.
#[derive(Debug, PartialEq, Eq)]
pub struct ResolvedConfigPath {
    pub path: String,
    pub source: ConfigSource,
}

/// The mathematical value of a [`ResolvedConfigPath`].
pub struct Resolution {
    pub path: Seq<char>,
    pub source: ConfigSource,
}

impl View for ResolvedConfigPath {
    type V = Resolution;

    open spec fn view(&self) -> Resolution {
        Resolution { path: self.path@, source: self.source }
    }
}

impl Clone for ResolvedConfigPath {
    fn clone(&self) -> (copy: Self)
        ensures
            copy@ == self@,
    {
        ResolvedConfigPath { path: self.path.clone(), source: self.source }
    }
}

/// Whether a candidate override counts: it is present and not blank.
pub open spec fn counts(candidate: Option<Seq<char>>) -> bool {
    candidate matches Some(path) && !is_blank(path)
}

/// A candidate override with a blank one taken for a missing one.
pub open spec fn effective(candidate: Option<Seq<char>>) -> Option<Seq<char>> {
    if counts(candidate) {
        candidate
    } else {
        None
    }
}

/// The path that a source offers, if it offers one. The overrides offer
/// theirs if it counts; the default source always offers the default path.
pub open spec fn offered(
    source: ConfigSource,
    explicit: Option<Seq<char>>,
    env: Option<Seq<char>>,
) -> Option<Seq<char>> {
    match source {
        ConfigSource::Default => Some(default_path_chars()),
        ConfigSource::EnvironmentOverride => effective(env),
        ConfigSource::ExplicitOverride => effective(explicit),
    }
}

/// The outcome of resolution: the first of explicit override, environment
/// override and default path that counts. The default path always does.
pub open spec fn resolution(explicit: Option<Seq<char>>, env: Option<Seq<char>>) -> Resolution {
    if counts(explicit) {
        Resolution { path: explicit.unwrap(), source: ConfigSource::ExplicitOverride }
    } else if counts(env) {
        Resolution { path: env.unwrap(), source: ConfigSource::EnvironmentOverride }
    } else {
        Resolution { path: default_path_chars(), source: ConfigSource::Default }
    }
}

/// Drops an override that is blank, and keeps any other as it is.
pub fn effective_override(candidate: Option<String>) -> (kept: Option<String>)
    ensures
        kept.deep_view() == effective(candidate.deep_view()),
{
    match candidate {
        Some(path) => if str_is_blank(path.as_str()) {
            None
        } else {
            Some(path)
        },
        None => None,
    }
}

/// Resolves the configuration root.
///
/// The explicit override wins if it counts, whatever the environment holds;
/// then comes the environment override; if neither counts, the result is the
/// default path. The chosen override is returned unchanged, with the
/// whitespace around it if it has any. The resolved path is never blank.
pub fn resolve(explicit_override: Option<String>, env_override: Option<String>) -> (resolved:
    ResolvedConfigPath)
    ensures
        resolved@ == resolution(explicit_override.deep_view(), env_override.deep_view()),
        counts(explicit_override.deep_view()) ==> (
            resolved.path@ == explicit_override.unwrap()@
            && resolved.source == ConfigSource::ExplicitOverride),
        !counts(explicit_override.deep_view()) && counts(env_override.deep_view()) ==> (
            resolved.path@ == env_override.unwrap()@
            && resolved.source == ConfigSource::EnvironmentOverride),
        !counts(explicit_override.deep_view()) && !counts(env_override.deep_view()) ==> (
            resolved.path@ == default_path_chars()
            && resolved.source == ConfigSource::Default),
        !is_blank(resolved.path@),
{
    match effective_override(explicit_override) {
        Some(path) => ResolvedConfigPath { path, source: ConfigSource::ExplicitOverride },
        None => match effective_override(env_override) {
            Some(path) => ResolvedConfigPath { path, source: ConfigSource::EnvironmentOverride },
            None => ResolvedConfigPath {
                path: default_path().to_owned(),
                source: ConfigSource::Default,
            },
        },
    }
}

/// No two sources tie: sources of the same precedence are the same source.
pub proof fn lemma_precedence_is_strict(a: ConfigSource, b: ConfigSource)
    ensures
        a.precedence() == b.precedence() <==> a == b,
{
}

/// Resolution gives the path that its source offers, and no source that
/// offers a path has a higher precedence than that source.
pub proof fn lemma_highest_precedence_wins(
    explicit: Option<Seq<char>>,
    env: Option<Seq<char>>,
    other: ConfigSource,
)
    ensures
        offered(resolution(explicit, env).source, explicit, env) == Some(
            resolution(explicit, env).path,
        ),
        offered(other, explicit, env) is Some ==> other.precedence() <= resolution(
            explicit,
            env,
        ).source.precedence(),
{
}

/// Whatever the candidates are, the path that resolution gives is not blank.
pub proof fn lemma_resolution_not_blank(explicit: Option<Seq<char>>, env: Option<Seq<char>>)
    ensures
        !is_blank(resolution(explicit, env).path),
{
}

/// Resolution has no hidden state: two results that were obtained from
/// candidates with the same contents are the same.
pub proof fn lemma_resolve_repeatable(
    explicit: Option<String>,
    env: Option<String>,
    first: ResolvedConfigPath,
    again_explicit: Option<String>,
    again_env: Option<String>,
    second: ResolvedConfigPath,
)
    requires
        explicit.deep_view() == again_explicit.deep_view(),
        env.deep_view() == again_env.deep_view(),
        first@ == resolution(explicit.deep_view(), env.deep_view()),
        second@ == resolution(again_explicit.deep_view(), again_env.deep_view()),
    ensures
        first@ == second@,
        first.path@ == second.path@,
        first.source == second.source,
{
}

} // verus!
