//! Path resolution: which single file, out of four ordered sources, is the
//! authoritative configuration file.
//!
//! The four tiers, highest priority first:
//! 1. the explicit `-c`/`--config` argument — must exist, never falls through;
//! 2. the `UP_CONFIG` override variable — must exist, never falls through;
//! 3. `<XDG_CONFIG_HOME>/up/up.toml` when the XDG variable is set;
//! 4. `<HOME>/.config/up/up.toml` otherwise; with `HOME` also unset no
//!    default can be constructed and resolution fails.
//!
//! Tiers 3 and 4 yield their path whether or not the file exists; the caller
//! treats a missing default as "run with zero configuration".

use vstd::prelude::*;

use crate::snapshot::EnvSnapshot;
use crate::snapshot::FsView;

verus! {

/// The config-path command-line argument as a three-state value: either the
/// user supplied a path, or the argument was left at its default. This
/// replaces the sentinel-string convention of the surrounding CLI layer, so
/// a real path that happens to equal the sentinel text cannot be mistaken
/// for "unset".
pub enum ConfigArg {
    NotProvided,
    Provided(String),
}

/// The sentinel text by which the CLI layer marks "the user did not pass
/// `-c`/`--config`".
pub open spec fn spec_sentinel() -> Seq<char> {
    "$XDG_CONFIG_HOME/up/up.toml"@
}

impl ConfigArg {
    /// Classifies the raw argument string as handed over by the CLI layer:
    /// the sentinel default means "not provided", anything else is an
    /// authoritative user-supplied path.
    pub fn from_cli(s: String) -> (r: ConfigArg)
        ensures
            s@ == spec_sentinel() ==> r is NotProvided,
            s@ != spec_sentinel() ==> r == ConfigArg::Provided(s),
    {
        let sentinel = String::from_str("$XDG_CONFIG_HOME/up/up.toml");
        if s == sentinel {
            ConfigArg::NotProvided
        } else {
            ConfigArg::Provided(s)
        }
    }
}

/// Why resolution failed.
#[derive(Debug)]
pub enum ResolutionError {
    /// The `-c`/`--config` argument names a path that does not exist.
    ExplicitPathMissing(String),
    /// The `UP_CONFIG` variable names a path that does not exist.
    EnvPathMissing(String),
    /// No tier matched and the home-directory variable is unset, so no
    /// default path can be constructed.
    NoHome,
}

/// Mathematical image of a [`ResolutionError`]: the same variants over
/// character sequences.
pub enum ResolutionErrorV {
    ExplicitPathMissing(Seq<char>),
    EnvPathMissing(Seq<char>),
    NoHome,
}

impl View for ResolutionError {
    type V = ResolutionErrorV;

    open spec fn view(&self) -> ResolutionErrorV {
        match self {
            ResolutionError::ExplicitPathMissing(p) => ResolutionErrorV::ExplicitPathMissing(p@),
            ResolutionError::EnvPathMissing(p) => ResolutionErrorV::EnvPathMissing(p@),
            ResolutionError::NoHome => ResolutionErrorV::NoHome,
        }
    }
}

impl ResolutionError {
    /// A human-readable description of the failure, for the CLI layer to
    /// print.
    pub fn message(&self) -> (r: String)
        ensures
            match self {
                ResolutionError::ExplicitPathMissing(p) => r@
                    == "Config path specified in -c/--config arg doesn't exist.\n  config_path: "@
                    + p@,
                ResolutionError::EnvPathMissing(p) => r@
                    == "Config path specified in UP_CONFIG env var doesn't exist.\n  config_path: "@
                    + p@,
                ResolutionError::NoHome => r@ == "HOME environment variable not set."@,
            },
    {
        match self {
            ResolutionError::ExplicitPathMissing(p) => {
                let mut m = String::from_str(
                    "Config path specified in -c/--config arg doesn't exist.\n  config_path: ",
                );
                m.append(p.as_str());
                m
            },
            ResolutionError::EnvPathMissing(p) => {
                let mut m = String::from_str(
                    "Config path specified in UP_CONFIG env var doesn't exist.\n  config_path: ",
                );
                m.append(p.as_str());
                m
            },
            ResolutionError::NoHome => String::from_str("HOME environment variable not set."),
        }
    }
}

/// The default config path that tiers 3 and 4 construct from the
/// environment: `<XDG_CONFIG_HOME>/up/up.toml` when the XDG variable is
/// set, else `<HOME>/.config/up/up.toml`; `None` when neither variable is
/// set.
pub open spec fn spec_default_path(env: EnvSnapshot) -> Option<Seq<char>> {
    match env.xdg_config_home {
        Some(x) => Some(x@ + "/up/up.toml"@),
        None => match env.home {
            Some(h) => Some(h@ + "/.config/up/up.toml"@),
            None => None,
        },
    }
}

/// The single path that resolution will consult, before any existence
/// check: the explicit argument, else the override variable, else the
/// constructed default; `Err(NoHome)` when no default can be constructed.
pub open spec fn spec_candidate(arg: ConfigArg, env: EnvSnapshot) -> Result<
    Seq<char>,
    ResolutionErrorV,
> {
    match arg {
        ConfigArg::Provided(p) => Ok(p@),
        ConfigArg::NotProvided => match env.up_config {
            Some(u) => Ok(u@),
            None => match spec_default_path(env) {
                Some(d) => Ok(d),
                None => Err(ResolutionErrorV::NoHome),
            },
        },
    }
}

/// The resolved path once existence enters: the explicit argument and the
/// override variable must name an existing path (tier-specific error when
/// they do not), while the constructed default is returned whether or not
/// it exists.
pub open spec fn spec_resolved_path(arg: ConfigArg, env: EnvSnapshot, fs: FsView) -> Result<
    Seq<char>,
    ResolutionErrorV,
> {
    match arg {
        ConfigArg::Provided(p) => if fs.spec_contains(p@) {
            Ok(p@)
        } else {
            Err(ResolutionErrorV::ExplicitPathMissing(p@))
        },
        ConfigArg::NotProvided => match env.up_config {
            Some(u) => if fs.spec_contains(u@) {
                Ok(u@)
            } else {
                Err(ResolutionErrorV::EnvPathMissing(u@))
            },
            None => match spec_default_path(env) {
                Some(d) => Ok(d),
                None => Err(ResolutionErrorV::NoHome),
            },
        },
    }
}

/// The single path that resolution will consult, before any existence
/// check. The caller can stat and read exactly this path and hand the
/// outcome back as a one-entry [`FsView`].
pub fn candidate_path(arg: &ConfigArg, env: &EnvSnapshot) -> (r: Result<String, ResolutionError>)
    ensures
        match r {
            Ok(p) => spec_candidate(*arg, *env) == Ok::<Seq<char>, ResolutionErrorV>(p@),
            Err(e) => spec_candidate(*arg, *env) == Err::<Seq<char>, ResolutionErrorV>(e@),
        },
{
    match arg {
        ConfigArg::Provided(p) => Ok(p.clone()),
        ConfigArg::NotProvided => match &env.up_config {
            Some(u) => Ok(u.clone()),
            None => default_path(env),
        },
    }
}

/// Tier precedence: a user-supplied `--config` path settles resolution by
/// itself — the outcome is the same whatever the environment holds — and
/// when the path exists it is the result.
pub proof fn lemma_explicit_arg_wins(p: String, env1: EnvSnapshot, env2: EnvSnapshot, fs: FsView)
    ensures
        spec_resolved_path(ConfigArg::Provided(p), env1, fs) == spec_resolved_path(
            ConfigArg::Provided(p),
            env2,
            fs,
        ),
        fs.spec_contains(p@) ==> spec_resolved_path(ConfigArg::Provided(p), env1, fs) == Ok::<
            Seq<char>,
            ResolutionErrorV,
        >(p@),
{
}

/// A user-supplied path that does not exist is fatal, even where the
/// override variable or the constructed default would have succeeded.
pub proof fn lemma_explicit_arg_missing_is_fatal(p: String, env: EnvSnapshot, fs: FsView)
    requires
        !fs.spec_contains(p@),
    ensures
        spec_resolved_path(ConfigArg::Provided(p), env, fs) == Err::<Seq<char>, ResolutionErrorV>(
            ResolutionErrorV::ExplicitPathMissing(p@),
        ),
{
}

/// With the argument unset and the override variable set, the override
/// settles resolution: any two environments with the same override agree
/// — the XDG and home variables are never consulted — and when the
/// override's path exists it is the result; when it does not, resolution
/// fails even where the defaults would have succeeded.
pub proof fn lemma_env_override_wins(env1: EnvSnapshot, env2: EnvSnapshot, fs: FsView, u: String)
    requires
        env1.up_config == Some(u),
        env2.up_config == Some(u),
    ensures
        spec_resolved_path(ConfigArg::NotProvided, env1, fs) == spec_resolved_path(
            ConfigArg::NotProvided,
            env2,
            fs,
        ),
        fs.spec_contains(u@) ==> spec_resolved_path(ConfigArg::NotProvided, env1, fs) == Ok::<
            Seq<char>,
            ResolutionErrorV,
        >(u@),
        !fs.spec_contains(u@) ==> spec_resolved_path(ConfigArg::NotProvided, env1, fs) == Err::<
            Seq<char>,
            ResolutionErrorV,
        >(ResolutionErrorV::EnvPathMissing(u@)),
{
}

/// With no higher tier applicable and the XDG variable set, the default
/// is `<XDG_CONFIG_HOME>/up/up.toml`, whether or not the home variable is
/// set and whatever it holds.
pub proof fn lemma_xdg_shadows_home(env: EnvSnapshot, fs: FsView, x: String)
    requires
        env.up_config is None,
        env.xdg_config_home == Some(x),
    ensures
        spec_resolved_path(ConfigArg::NotProvided, env, fs) == Ok::<Seq<char>, ResolutionErrorV>(
            x@ + "/up/up.toml"@,
        ),
{
}

/// With the argument unset and no override, XDG or home variable set,
/// resolution fails with the home-missing error.
pub proof fn lemma_no_home_is_fatal(env: EnvSnapshot, fs: FsView)
    requires
        env.up_config is None,
        env.xdg_config_home is None,
        env.home is None,
    ensures
        spec_resolved_path(ConfigArg::NotProvided, env, fs) == Err::<Seq<char>, ResolutionErrorV>(
            ResolutionErrorV::NoHome,
        ),
{
}

/// Builds the tier-3/4 default path from the environment snapshot;
/// `Err(NoHome)` when neither the XDG nor the home variable is set.
pub(crate) fn default_path(env: &EnvSnapshot) -> (r: Result<String, ResolutionError>)
    ensures
        match r {
            Ok(p) => spec_default_path(*env) == Some(p@),
            Err(e) => spec_default_path(*env) is None && e@ == ResolutionErrorV::NoHome,
        },
{
    match &env.xdg_config_home {
        Some(x) => {
            let mut p = x.clone();
            p.append("/up/up.toml");
            Ok(p)
        },
        None => match &env.home {
            Some(h) => {
                let mut p = h.clone();
                p.append("/.config/up/up.toml");
                Ok(p)
            },
            None => Err(ResolutionError::NoHome),
        },
    }
}

} // verus!
