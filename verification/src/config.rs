//! The resolved configuration: one path-resolution pass followed by one
//! load-and-validate pass, combined into a single immutable value.

use vstd::prelude::*;

use crate::resolve::ConfigArg;
use crate::resolve::ResolutionError;
use crate::resolve::ResolutionErrorV;
use crate::resolve::spec_candidate;
use crate::resolve::spec_resolved_path;
use crate::schema::ConfigToml;
use crate::schema::ConfigTomlV;
use crate::schema::LoadError;
use crate::schema::LoadErrorV;
use crate::schema::spec_config_default;
use crate::schema::spec_validate_doc;
use crate::snapshot::EnvSnapshot;
use crate::snapshot::FsView;
use crate::toml_text::lossy_of;
use crate::toml_text::toml_flat;

verus! {

/// The output of this library: the file that was identified as the
/// authoritative config file, if any, and the typed configuration value.
#[derive(Debug)]
pub struct Config {
    /// The config file's path; `None` when resolution legitimately ended
    /// without a file (default tier, file absent).
    pub up_toml_path: Option<String>,
    /// The typed configuration; the all-absent default when no file was
    /// found or the file could not be read.
    pub config_toml: ConfigToml,
}

/// Mathematical image of a [`Config`].
pub struct ConfigV {
    pub up_toml_path: Option<Seq<char>>,
    pub config_toml: ConfigTomlV,
}

impl View for Config {
    type V = ConfigV;

    open spec fn view(&self) -> ConfigV {
        ConfigV {
            up_toml_path: match self.up_toml_path {
                Some(p) => Some(p@),
                None => None,
            },
            config_toml: self.config_toml@,
        }
    }
}

/// Why construction of a [`Config`] failed.
#[derive(Debug)]
pub enum ConfigError {
    /// Path resolution failed.
    Resolution(ResolutionError),
    /// A file was found and read, but could not be parsed.
    Load(LoadError),
}

/// What construction must come to, stated over the snapshots. The
/// syntax-error outcome carries no payload: the parser's message is not
/// pinned by [`toml_flat`].
pub enum ConfigOutcomeV {
    /// Construction succeeds with this value.
    Value(ConfigV),
    /// Resolution fails with this error.
    ResolutionFailed(ResolutionErrorV),
    /// The file was read but its text is not well-formed TOML.
    SyntaxFailed,
    /// The file parsed but broke the schema: this key-level error.
    SchemaFailed(LoadErrorV),
}

/// The outcome that [`Config::from`] is bound to: resolve a path, then —
/// when the path exists — load it, degrading to the default configuration
/// when the file cannot be read, and failing only on resolution errors
/// and malformed content.
pub open spec fn spec_config_from(arg: ConfigArg, env: EnvSnapshot, fs: FsView) -> ConfigOutcomeV {
    match spec_resolved_path(arg, env, fs) {
        Err(e) => ConfigOutcomeV::ResolutionFailed(e),
        Ok(p) => match fs.spec_lookup(p) {
            None => ConfigOutcomeV::Value(
                ConfigV { up_toml_path: None, config_toml: spec_config_default() },
            ),
            Some(None) => ConfigOutcomeV::Value(
                ConfigV { up_toml_path: Some(p), config_toml: spec_config_default() },
            ),
            Some(Some(bytes)) => match toml_flat(lossy_of(bytes)) {
                None => ConfigOutcomeV::SyntaxFailed,
                Some(d) => match spec_validate_doc(d, spec_config_default()) {
                    Ok(c) => ConfigOutcomeV::Value(
                        ConfigV { up_toml_path: Some(p), config_toml: c },
                    ),
                    Err(e) => ConfigOutcomeV::SchemaFailed(e),
                },
            },
        },
    }
}

/// Construction consults the filesystem only at the candidate path: two
/// snapshots that agree there — same existence, same read outcome — yield
/// the same outcome. This is what lets a caller stat and read just the
/// one path named by [`crate::resolve::candidate_path`] and hand the
/// result over as a one-entry snapshot.
pub proof fn lemma_only_candidate_consulted(
    arg: ConfigArg,
    env: EnvSnapshot,
    fs1: FsView,
    fs2: FsView,
)
    requires
        spec_candidate(arg, env) matches Ok(p) ==> fs1.spec_lookup(p) == fs2.spec_lookup(p),
    ensures
        spec_config_from(arg, env, fs1) == spec_config_from(arg, env, fs2),
{
}

/// A constructed default path that does not exist is not an error: with
/// the argument unset, no override variable, and the XDG variable set,
/// when `<XDG_CONFIG_HOME>/up/up.toml` is absent, construction succeeds
/// with no file and the all-absent configuration.
pub proof fn lemma_absent_default_yields_defaults(env: EnvSnapshot, fs: FsView, x: String)
    requires
        env.up_config is None,
        env.xdg_config_home == Some(x),
        !fs.spec_contains(x@ + "/up/up.toml"@),
    ensures
        spec_config_from(ConfigArg::NotProvided, env, fs) == ConfigOutcomeV::Value(
            ConfigV { up_toml_path: None, config_toml: spec_config_default() },
        ),
{
}

/// With the XDG variable unset but home set, `<HOME>/.config/up/up.toml`
/// is the resolved path, and when it exists, it — and no other file — is
/// the one construction loads.
pub proof fn lemma_home_fallback_is_loaded(env: EnvSnapshot, fs: FsView, h: String)
    requires
        env.up_config is None,
        env.xdg_config_home is None,
        env.home == Some(h),
    ensures
        spec_resolved_path(ConfigArg::NotProvided, env, fs) == Ok::<Seq<char>, ResolutionErrorV>(
            h@ + "/.config/up/up.toml"@,
        ),
        fs.spec_contains(h@ + "/.config/up/up.toml"@) ==> (spec_config_from(
            ConfigArg::NotProvided,
            env,
            fs,
        ) matches ConfigOutcomeV::Value(cv) ==> cv.up_toml_path == Some(
            h@ + "/.config/up/up.toml"@,
        )),
{
}

impl Config {
    /// Picks the path to the `up.toml` file. Precedence:
    /// 1. the explicit `-c`/`--config` argument, which must exist;
    /// 2. the `UP_CONFIG` variable, which must exist;
    /// 3. `<XDG_CONFIG_HOME>/up/up.toml`;
    /// 4. `<HOME>/.config/up/up.toml`.
    /// Tiers 3 and 4 return their path whether or not it exists; the
    /// caller decides what a missing default means.
    pub fn get_up_toml_path(arg: &ConfigArg, env: &EnvSnapshot, fs: &FsView) -> (r: Result<
        String,
        ResolutionError,
    >)
        ensures
            match r {
                Ok(p) => spec_resolved_path(*arg, *env, *fs) == Ok::<Seq<char>, ResolutionErrorV>(
                    p@,
                ),
                Err(e) => spec_resolved_path(*arg, *env, *fs) == Err::<Seq<char>, ResolutionErrorV>(
                    e@,
                ),
            },
    {
        match arg {
            ConfigArg::Provided(p) => {
                if fs.contains(p) {
                    Ok(p.clone())
                } else {
                    Err(ResolutionError::ExplicitPathMissing(p.clone()))
                }
            },
            ConfigArg::NotProvided => match &env.up_config {
                Some(u) => {
                    if fs.contains(u) {
                        Ok(u.clone())
                    } else {
                        Err(ResolutionError::EnvPathMissing(u.clone()))
                    }
                },
                None => crate::resolve::default_path(env),
            },
        }
    }

    /// Builds the [`Config`]: resolves the path against the snapshots,
    /// then loads and strictly validates the file behind it. A default
    /// path that does not exist, and a file that exists but cannot be
    /// read, both degrade to the all-absent configuration; a file that
    /// exists and reads but does not parse is fatal.
    pub fn from(arg: &ConfigArg, env: &EnvSnapshot, fs: &FsView) -> (r: Result<Config, ConfigError>)
        ensures
            match spec_config_from(*arg, *env, *fs) {
                ConfigOutcomeV::Value(cv) => r matches Ok(c) && c@ == cv,
                ConfigOutcomeV::ResolutionFailed(ev) => r matches Err(
                    ConfigError::Resolution(e),
                ) && e@ == ev,
                ConfigOutcomeV::SyntaxFailed => r matches Err(ConfigError::Load(e)) && e@
                    is Syntax,
                ConfigOutcomeV::SchemaFailed(ev) => r matches Err(ConfigError::Load(e)) && e@ == ev,
            },
    {
        let path = match Self::get_up_toml_path(arg, env, fs) {
            Ok(p) => p,
            Err(e) => {
                return Err(ConfigError::Resolution(e));
            },
        };
        match fs.find(&path) {
            None => Ok(Config { up_toml_path: None, config_toml: ConfigToml::default() }),
            Some(i) => match &fs.entries[i].content {
                None => Ok(Config { up_toml_path: Some(path), config_toml: ConfigToml::default() }),
                Some(bytes) => match ConfigToml::from_toml_bytes(bytes) {
                    Ok(c) => Ok(Config { up_toml_path: Some(path), config_toml: c }),
                    Err(e) => Err(ConfigError::Load(e)),
                },
            },
        }
    }
}

} // verus!
