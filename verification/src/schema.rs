//! The typed configuration value and its strict, schema-checked parse.
//!
//! The schema has two levels: a top-level `link` table with the optional
//! string fields `from_dir`, `to_dir` and `backup_dir`, and a top-level
//! optional string `tasks_path`. Validation is strict at every nesting
//! level: a key outside the schema, or a recognized key whose value has
//! the wrong type, fails the whole parse — typos surface instead of being
//! silently dropped.

use vstd::prelude::*;

use crate::raw::RawDoc;
use crate::raw::RawInner;
use crate::raw::RawInnerV;
use crate::raw::RawVal;
use crate::raw::RawValV;
use crate::toml_text::lossy_of;
use crate::toml_text::parse_toml_flat;
use crate::toml_text::toml_flat;
use crate::toml_text::utf8_lossy;

verus! {

/// Link options, as read from the `link` table of the config file.
#[derive(Debug)]
pub struct LinkConfigToml {
    pub from_dir: Option<String>,
    pub to_dir: Option<String>,
    pub backup_dir: Option<String>,
}

/// Basic config: the typed, validated contents of an `up.toml` file.
/// Every field is optional; an absent field stays `None`.
#[derive(Debug)]
pub struct ConfigToml {
    /// Link options.
    pub link: Option<LinkConfigToml>,
    /// Path to tasks directory.
    pub tasks_path: Option<String>,
}

/// Mathematical image of a [`LinkConfigToml`].
pub struct LinkConfigTomlV {
    pub from_dir: Option<Seq<char>>,
    pub to_dir: Option<Seq<char>>,
    pub backup_dir: Option<Seq<char>>,
}

/// Mathematical image of a [`ConfigToml`].
pub struct ConfigTomlV {
    pub link: Option<LinkConfigTomlV>,
    pub tasks_path: Option<Seq<char>>,
}

/// The image of an optional string.
pub open spec fn opt_view(o: Option<String>) -> Option<Seq<char>> {
    match o {
        Some(s) => Some(s@),
        None => None,
    }
}

impl View for LinkConfigToml {
    type V = LinkConfigTomlV;

    open spec fn view(&self) -> LinkConfigTomlV {
        LinkConfigTomlV {
            from_dir: opt_view(self.from_dir),
            to_dir: opt_view(self.to_dir),
            backup_dir: opt_view(self.backup_dir),
        }
    }
}

impl View for ConfigToml {
    type V = ConfigTomlV;

    open spec fn view(&self) -> ConfigTomlV {
        ConfigTomlV {
            link: match self.link {
                Some(l) => Some(l@),
                None => None,
            },
            tasks_path: opt_view(self.tasks_path),
        }
    }
}

/// The all-absent link table.
pub open spec fn spec_link_default() -> LinkConfigTomlV {
    LinkConfigTomlV { from_dir: None, to_dir: None, backup_dir: None }
}

/// The all-absent configuration: what zero configuration means.
pub open spec fn spec_config_default() -> ConfigTomlV {
    ConfigTomlV { link: None, tasks_path: None }
}

impl Default for ConfigToml {
    /// The all-absent configuration value.
    fn default() -> (r: ConfigToml)
        ensures
            r@ == spec_config_default(),
    {
        ConfigToml { link: None, tasks_path: None }
    }
}

impl PartialEq for LinkConfigToml {
    fn eq(&self, other: &LinkConfigToml) -> (r: bool) {
        opt_str_eq(&self.from_dir, &other.from_dir) && opt_str_eq(&self.to_dir, &other.to_dir)
            && opt_str_eq(&self.backup_dir, &other.backup_dir)
    }
}

impl vstd::std_specs::cmp::PartialEqSpecImpl for LinkConfigToml {
    open spec fn obeys_eq_spec() -> bool {
        true
    }

    open spec fn eq_spec(&self, other: &LinkConfigToml) -> bool {
        self@ == other@
    }
}

impl PartialEq for ConfigToml {
    fn eq(&self, other: &ConfigToml) -> (r: bool) {
        let links_eq = match (&self.link, &other.link) {
            (Some(a), Some(b)) => *a == *b,
            (None, None) => true,
            _ => false,
        };
        links_eq && opt_str_eq(&self.tasks_path, &other.tasks_path)
    }
}

impl vstd::std_specs::cmp::PartialEqSpecImpl for ConfigToml {
    open spec fn obeys_eq_spec() -> bool {
        true
    }

    open spec fn eq_spec(&self, other: &ConfigToml) -> bool {
        self@ == other@
    }
}

/// Equality of optional strings, by contents.
fn opt_str_eq(a: &Option<String>, b: &Option<String>) -> (r: bool)
    ensures
        r == (opt_view(*a) == opt_view(*b)),
{
    match (a, b) {
        (Some(x), Some(y)) => *x == *y,
        (None, None) => true,
        _ => false,
    }
}

/// Why loading a present, readable file failed. Every variant is fatal:
/// the user did provide a file, and a file this library cannot make sense
/// of must not be silently ignored.
#[derive(Debug)]
pub enum LoadError {
    /// The text is not well-formed TOML; the payload is the parser's
    /// message.
    Syntax(String),
    /// A key outside the schema; the payload is the offending key.
    UnknownKey(String),
    /// A recognized key whose value has the wrong type; the payload is the
    /// offending key.
    WrongType(String),
}

/// Mathematical image of a [`LoadError`].
pub enum LoadErrorV {
    Syntax(Seq<char>),
    UnknownKey(Seq<char>),
    WrongType(Seq<char>),
}

impl View for LoadError {
    type V = LoadErrorV;

    open spec fn view(&self) -> LoadErrorV {
        match self {
            LoadError::Syntax(m) => LoadErrorV::Syntax(m@),
            LoadError::UnknownKey(k) => LoadErrorV::UnknownKey(k@),
            LoadError::WrongType(k) => LoadErrorV::WrongType(k@),
        }
    }
}

impl LoadError {
    /// A human-readable description of the failure, for the CLI layer to
    /// print.
    pub fn message(&self) -> (r: String)
        ensures
            match self {
                LoadError::Syntax(m) => r@ == "invalid TOML in config file: "@ + m@,
                LoadError::UnknownKey(k) => r@ == "unknown key in config file: "@ + k@,
                LoadError::WrongType(k) => r@ == "wrong value type for config key: "@ + k@,
            },
    {
        match self {
            LoadError::Syntax(m) => {
                let mut r = String::from_str("invalid TOML in config file: ");
                r.append(m.as_str());
                r
            },
            LoadError::UnknownKey(k) => {
                let mut r = String::from_str("unknown key in config file: ");
                r.append(k.as_str());
                r
            },
            LoadError::WrongType(k) => {
                let mut r = String::from_str("wrong value type for config key: ");
                r.append(k.as_str());
                r
            },
        }
    }
}

/// Validation of the `link` table, one entry at a time from the left:
/// a recognized key with a string value lands in its field (a repeated
/// key keeps the later value), an unrecognized key or a non-string value
/// fails.
pub open spec fn spec_validate_link(
    entries: Seq<(Seq<char>, RawInnerV)>,
    acc: LinkConfigTomlV,
) -> Result<LinkConfigTomlV, LoadErrorV>
    decreases entries.len(),
{
    if entries.len() == 0 {
        Ok(acc)
    } else {
        let k = entries[0].0;
        let v = entries[0].1;
        if k == "from_dir"@ {
            match v {
                RawInnerV::Str(s) => spec_validate_link(
                    entries.drop_first(),
                    LinkConfigTomlV { from_dir: Some(s), ..acc },
                ),
                _ => Err(LoadErrorV::WrongType(k)),
            }
        } else if k == "to_dir"@ {
            match v {
                RawInnerV::Str(s) => spec_validate_link(
                    entries.drop_first(),
                    LinkConfigTomlV { to_dir: Some(s), ..acc },
                ),
                _ => Err(LoadErrorV::WrongType(k)),
            }
        } else if k == "backup_dir"@ {
            match v {
                RawInnerV::Str(s) => spec_validate_link(
                    entries.drop_first(),
                    LinkConfigTomlV { backup_dir: Some(s), ..acc },
                ),
                _ => Err(LoadErrorV::WrongType(k)),
            }
        } else {
            Err(LoadErrorV::UnknownKey(k))
        }
    }
}

/// Validation of the whole document, one top-level entry at a time from
/// the left: `link` must be a table that validates, `tasks_path` must be
/// a string, anything else fails.
pub open spec fn spec_validate_doc(
    entries: Seq<(Seq<char>, RawValV)>,
    acc: ConfigTomlV,
) -> Result<ConfigTomlV, LoadErrorV>
    decreases entries.len(),
{
    if entries.len() == 0 {
        Ok(acc)
    } else {
        let k = entries[0].0;
        let v = entries[0].1;
        if k == "link"@ {
            match v {
                RawValV::Table(t) => match spec_validate_link(t, spec_link_default()) {
                    Ok(l) => spec_validate_doc(
                        entries.drop_first(),
                        ConfigTomlV { link: Some(l), ..acc },
                    ),
                    Err(e) => Err(e),
                },
                _ => Err(LoadErrorV::WrongType(k)),
            }
        } else if k == "tasks_path"@ {
            match v {
                RawValV::Str(s) => spec_validate_doc(
                    entries.drop_first(),
                    ConfigTomlV { tasks_path: Some(s), ..acc },
                ),
                _ => Err(LoadErrorV::WrongType(k)),
            }
        } else {
            Err(LoadErrorV::UnknownKey(k))
        }
    }
}

/// Validates the `link` table of a flattened document.
fn validate_link(entries: &Vec<(String, RawInner)>) -> (r: Result<LinkConfigToml, LoadError>)
    ensures
        ({
            let ev = entries@.map_values(|e: (String, RawInner)| (e.0@, e.1@));
            match r {
                Ok(l) => spec_validate_link(ev, spec_link_default()) == Ok::<
                    LinkConfigTomlV,
                    LoadErrorV,
                >(l@),
                Err(e) => spec_validate_link(ev, spec_link_default()) == Err::<
                    LinkConfigTomlV,
                    LoadErrorV,
                >(e@),
            }
        }),
{
    let ghost ev = entries@.map_values(|e: (String, RawInner)| (e.0@, e.1@));
    let key_from_dir = String::from_str("from_dir");
    let key_to_dir = String::from_str("to_dir");
    let key_backup_dir = String::from_str("backup_dir");
    let mut acc = LinkConfigToml { from_dir: None, to_dir: None, backup_dir: None };
    let n = entries.len();
    let mut i: usize = 0;
    proof {
        assert(ev.skip(0) =~= ev);
    }
    while i < n
        invariant
            n == entries@.len(),
            i <= n,
            ev == entries@.map_values(|e: (String, RawInner)| (e.0@, e.1@)),
            key_from_dir@ == "from_dir"@,
            key_to_dir@ == "to_dir"@,
            key_backup_dir@ == "backup_dir"@,
            spec_validate_link(ev, spec_link_default()) == spec_validate_link(
                ev.skip(i as int),
                acc@,
            ),
        decreases n - i,
    {
        proof {
            assert(ev[i as int] == (entries@[i as int].0@, entries@[i as int].1@));
            assert(ev.skip(i as int)[0] == ev[i as int]);
            assert(ev.skip(i as int).drop_first() =~= ev.skip(i as int + 1));
        }
        let kv = &entries[i];
        if kv.0 == key_from_dir {
            match &kv.1 {
                RawInner::Str(s) => {
                    acc.from_dir = Some(s.clone());
                },
                RawInner::Other => {
                    return Err(LoadError::WrongType(kv.0.clone()));
                },
            }
        } else if kv.0 == key_to_dir {
            match &kv.1 {
                RawInner::Str(s) => {
                    acc.to_dir = Some(s.clone());
                },
                RawInner::Other => {
                    return Err(LoadError::WrongType(kv.0.clone()));
                },
            }
        } else if kv.0 == key_backup_dir {
            match &kv.1 {
                RawInner::Str(s) => {
                    acc.backup_dir = Some(s.clone());
                },
                RawInner::Other => {
                    return Err(LoadError::WrongType(kv.0.clone()));
                },
            }
        } else {
            return Err(LoadError::UnknownKey(kv.0.clone()));
        }
        i = i + 1;
    }
    proof {
        assert(ev.skip(n as int).len() == 0);
    }
    Ok(acc)
}

/// Validates a flattened document against the schema, strictly: the
/// result is exactly what the left-to-right fold [`spec_validate_doc`]
/// says, so every key outside the schema and every wrongly-typed value is
/// fatal.
pub fn validate_doc(doc: &RawDoc) -> (r: Result<ConfigToml, LoadError>)
    ensures
        match r {
            Ok(c) => spec_validate_doc(doc@, spec_config_default()) == Ok::<
                ConfigTomlV,
                LoadErrorV,
            >(c@),
            Err(e) => spec_validate_doc(doc@, spec_config_default()) == Err::<
                ConfigTomlV,
                LoadErrorV,
            >(e@),
        },
{
    let key_link = String::from_str("link");
    let key_tasks_path = String::from_str("tasks_path");
    let mut acc = ConfigToml { link: None, tasks_path: None };
    let n = doc.entries.len();
    let mut i: usize = 0;
    proof {
        assert(doc@.skip(0) =~= doc@);
    }
    while i < n
        invariant
            n == doc.entries@.len(),
            i <= n,
            key_link@ == "link"@,
            key_tasks_path@ == "tasks_path"@,
            spec_validate_doc(doc@, spec_config_default()) == spec_validate_doc(
                doc@.skip(i as int),
                acc@,
            ),
        decreases n - i,
    {
        proof {
            assert(doc@[i as int] == (doc.entries@[i as int].0@, doc.entries@[i as int].1@));
            assert(doc@.skip(i as int)[0] == doc@[i as int]);
            assert(doc@.skip(i as int).drop_first() =~= doc@.skip(i as int + 1));
        }
        let kv = &doc.entries[i];
        if kv.0 == key_link {
            match &kv.1 {
                RawVal::Table(t) => match validate_link(t) {
                    Ok(l) => {
                        acc.link = Some(l);
                    },
                    Err(e) => {
                        return Err(e);
                    },
                },
                _ => {
                    return Err(LoadError::WrongType(kv.0.clone()));
                },
            }
        } else if kv.0 == key_tasks_path {
            match &kv.1 {
                RawVal::Str(s) => {
                    acc.tasks_path = Some(s.clone());
                },
                _ => {
                    return Err(LoadError::WrongType(kv.0.clone()));
                },
            }
        } else {
            return Err(LoadError::UnknownKey(kv.0.clone()));
        }
        i = i + 1;
    }
    proof {
        assert(doc@.skip(n as int).len() == 0);
    }
    Ok(acc)
}

/// What loading promises of its result for text `s`: a syntax error
/// exactly when `s` is not well-formed TOML, else exactly the outcome of
/// the strict validation fold. Only the syntax error's message is left
/// open, since [`toml_flat`] does not pin the parser's wording.
pub open spec fn spec_load_outcome(s: Seq<char>, r: Result<ConfigToml, LoadError>) -> bool {
    match toml_flat(s) {
        None => r matches Err(e) && e@ is Syntax,
        Some(d) => match r {
            Ok(c) => spec_validate_doc(d, spec_config_default()) == Ok::<ConfigTomlV, LoadErrorV>(
                c@,
            ),
            Err(e) => spec_validate_doc(d, spec_config_default()) == Err::<ConfigTomlV, LoadErrorV>(
                e@,
            ),
        },
    }
}

impl ConfigToml {
    /// Parses configuration text in strict mode: well-formed TOML whose
    /// every key the schema recognizes, with string values, yields the
    /// typed configuration; anything else is a fatal [`LoadError`].
    pub fn from_toml_str(s: &str) -> (r: Result<ConfigToml, LoadError>)
        ensures
            spec_load_outcome(s@, r),
    {
        match parse_toml_flat(s) {
            Err(m) => Err(LoadError::Syntax(m)),
            Ok(doc) => validate_doc(&doc),
        }
    }

    /// Parses raw file bytes: lossy UTF-8 decoding (which never fails)
    /// followed by the strict parse of [`ConfigToml::from_toml_str`].
    pub fn from_toml_bytes(b: &Vec<u8>) -> (r: Result<ConfigToml, LoadError>)
        ensures
            spec_load_outcome(lossy_of(b@), r),
    {
        let text = utf8_lossy(b);
        ConfigToml::from_toml_str(text.as_str())
    }
}

/// Loading is deterministic: whatever two runs over the same well-formed
/// text return, they agree — both succeed with equal configuration
/// values, or both fail with the same schema error.
pub proof fn lemma_load_deterministic(
    s: Seq<char>,
    r1: Result<ConfigToml, LoadError>,
    r2: Result<ConfigToml, LoadError>,
)
    requires
        toml_flat(s) is Some,
        spec_load_outcome(s, r1),
        spec_load_outcome(s, r2),
    ensures
        r1 is Ok <==> r2 is Ok,
        r1 matches Ok(c1) ==> (r2 matches Ok(c2) && c1@ == c2@),
        r1 matches Err(e1) ==> (r2 matches Err(e2) && e1@ == e2@),
{
}

/// The top-level keys the schema recognizes.
pub open spec fn top_key_ok(k: Seq<char>) -> bool {
    k == "link"@ || k == "tasks_path"@
}

/// The keys the `link` table recognizes.
pub open spec fn link_key_ok(k: Seq<char>) -> bool {
    k == "from_dir"@ || k == "to_dir"@ || k == "backup_dir"@
}

/// A `link` table with a key outside the schema never validates, however
/// valid its recognized keys are.
pub proof fn lemma_unknown_link_key_is_fatal(
    entries: Seq<(Seq<char>, RawInnerV)>,
    acc: LinkConfigTomlV,
    i: int,
)
    requires
        0 <= i < entries.len(),
        !link_key_ok(entries[i].0),
    ensures
        spec_validate_link(entries, acc) is Err,
    decreases entries.len(),
{
    if i > 0 {
        let k = entries[0].0;
        let v = entries[0].1;
        assert(entries.drop_first()[i - 1] == entries[i]);
        if k == "from_dir"@ {
            match v {
                RawInnerV::Str(s) => lemma_unknown_link_key_is_fatal(
                    entries.drop_first(),
                    LinkConfigTomlV { from_dir: Some(s), ..acc },
                    i - 1,
                ),
                RawInnerV::Other => {},
            }
        } else if k == "to_dir"@ {
            match v {
                RawInnerV::Str(s) => lemma_unknown_link_key_is_fatal(
                    entries.drop_first(),
                    LinkConfigTomlV { to_dir: Some(s), ..acc },
                    i - 1,
                ),
                RawInnerV::Other => {},
            }
        } else if k == "backup_dir"@ {
            match v {
                RawInnerV::Str(s) => lemma_unknown_link_key_is_fatal(
                    entries.drop_first(),
                    LinkConfigTomlV { backup_dir: Some(s), ..acc },
                    i - 1,
                ),
                RawInnerV::Other => {},
            }
        }
    }
}

/// A document with a top-level key outside the schema never validates,
/// however valid its recognized keys are.
pub proof fn lemma_unknown_top_key_is_fatal(
    entries: Seq<(Seq<char>, RawValV)>,
    acc: ConfigTomlV,
    i: int,
)
    requires
        0 <= i < entries.len(),
        !top_key_ok(entries[i].0),
    ensures
        spec_validate_doc(entries, acc) is Err,
    decreases entries.len(),
{
    if i > 0 {
        let k = entries[0].0;
        let v = entries[0].1;
        assert(entries.drop_first()[i - 1] == entries[i]);
        if k == "link"@ {
            match v {
                RawValV::Table(t) => match spec_validate_link(t, spec_link_default()) {
                    Ok(l) => lemma_unknown_top_key_is_fatal(
                        entries.drop_first(),
                        ConfigTomlV { link: Some(l), ..acc },
                        i - 1,
                    ),
                    Err(_) => {},
                },
                _ => {},
            }
        } else if k == "tasks_path"@ {
            match v {
                RawValV::Str(s) => lemma_unknown_top_key_is_fatal(
                    entries.drop_first(),
                    ConfigTomlV { tasks_path: Some(s), ..acc },
                    i - 1,
                ),
                _ => {},
            }
        }
    }
}

/// Strictness reaches every nesting level: a document whose `link` table
/// holds a key outside the schema never validates.
pub proof fn lemma_nested_unknown_key_is_fatal(
    entries: Seq<(Seq<char>, RawValV)>,
    acc: ConfigTomlV,
    j: int,
    i: int,
)
    requires
        0 <= j < entries.len(),
        entries[j].0 == "link"@,
        entries[j].1 matches RawValV::Table(t) && 0 <= i < t.len() && !link_key_ok(t[i].0),
    ensures
        spec_validate_doc(entries, acc) is Err,
    decreases entries.len(),
{
    let k = entries[0].0;
    let v = entries[0].1;
    if j == 0 {
        match v {
            RawValV::Table(t) => lemma_unknown_link_key_is_fatal(t, spec_link_default(), i),
            _ => {},
        }
    } else {
        assert(entries.drop_first()[j - 1] == entries[j]);
        if k == "link"@ {
            match v {
                RawValV::Table(t) => match spec_validate_link(t, spec_link_default()) {
                    Ok(l) => lemma_nested_unknown_key_is_fatal(
                        entries.drop_first(),
                        ConfigTomlV { link: Some(l), ..acc },
                        j - 1,
                        i,
                    ),
                    Err(_) => {},
                },
                _ => {},
            }
        } else if k == "tasks_path"@ {
            match v {
                RawValV::Str(s) => lemma_nested_unknown_key_is_fatal(
                    entries.drop_first(),
                    ConfigTomlV { tasks_path: Some(s), ..acc },
                    j - 1,
                    i,
                ),
                _ => {},
            }
        }
    }
}

/// A `link` table all of whose keys the schema recognizes, with string
/// values.
pub open spec fn link_table_ok(t: Seq<(Seq<char>, RawInnerV)>) -> bool {
    forall|i: int|
        0 <= i < t.len() ==> link_key_ok((#[trigger] t[i]).0) && t[i].1 is Str
}

/// A document all of whose keys the schema recognizes, with the right
/// value shapes at both levels.
pub open spec fn doc_ok(d: Seq<(Seq<char>, RawValV)>) -> bool {
    forall|i: int|
        0 <= i < d.len() ==> (((#[trigger] d[i]).0 == "link"@ && (d[i].1 matches RawValV::Table(t)
            && link_table_ok(t))) || (d[i].0 == "tasks_path"@ && d[i].1 is Str))
}

/// A `link` table with only recognized keys and string values validates.
pub proof fn lemma_recognized_link_validates(t: Seq<(Seq<char>, RawInnerV)>, acc: LinkConfigTomlV)
    requires
        link_table_ok(t),
    ensures
        spec_validate_link(t, acc) is Ok,
    decreases t.len(),
{
    if t.len() > 0 {
        let rest = t.drop_first();
        assert forall|i: int| 0 <= i < rest.len() implies link_key_ok((#[trigger] rest[i]).0)
            && rest[i].1 is Str by {
            assert(rest[i] == t[i + 1]);
        }
        let k = t[0].0;
        match t[0].1 {
            RawInnerV::Str(s) => {
                if k == "from_dir"@ {
                    lemma_recognized_link_validates(
                        rest,
                        LinkConfigTomlV { from_dir: Some(s), ..acc },
                    );
                } else if k == "to_dir"@ {
                    lemma_recognized_link_validates(rest, LinkConfigTomlV { to_dir: Some(s), ..acc });
                } else {
                    lemma_recognized_link_validates(
                        rest,
                        LinkConfigTomlV { backup_dir: Some(s), ..acc },
                    );
                }
            },
            RawInnerV::Other => {},
        }
    }
}

/// Loading succeeds on every document with only recognized (or zero)
/// keys: strictness rejects nothing the schema allows.
pub proof fn lemma_recognized_doc_validates(d: Seq<(Seq<char>, RawValV)>, acc: ConfigTomlV)
    requires
        doc_ok(d),
    ensures
        spec_validate_doc(d, acc) is Ok,
    decreases d.len(),
{
    reveal_strlit("link");
    reveal_strlit("tasks_path");
    if d.len() > 0 {
        let rest = d.drop_first();
        assert forall|i: int|
            0 <= i < rest.len() implies (((#[trigger] rest[i]).0 == "link"@ && (
        rest[i].1 matches RawValV::Table(t) && link_table_ok(t))) || (rest[i].0 == "tasks_path"@
            && rest[i].1 is Str)) by {
            assert(rest[i] == d[i + 1]);
        }
        let k = d[0].0;
        assert("link"@.len() == 4);
        assert("tasks_path"@.len() == 10);
        match d[0].1 {
            RawValV::Table(t) => {
                lemma_recognized_link_validates(t, spec_link_default());
                match spec_validate_link(t, spec_link_default()) {
                    Ok(l) => lemma_recognized_doc_validates(
                        rest,
                        ConfigTomlV { link: Some(l), ..acc },
                    ),
                    Err(_) => {},
                }
            },
            RawValV::Str(s) => {
                lemma_recognized_doc_validates(rest, ConfigTomlV { tasks_path: Some(s), ..acc });
            },
            RawValV::Other => {},
        }
    }
}

/// A field never named in the document is reported absent: without a
/// `tasks_path` entry the result keeps the accumulator's `tasks_path`.
pub proof fn lemma_no_tasks_path_entry(d: Seq<(Seq<char>, RawValV)>, acc: ConfigTomlV)
    requires
        forall|i: int| 0 <= i < d.len() ==> (#[trigger] d[i]).0 != "tasks_path"@,
    ensures
        spec_validate_doc(d, acc) matches Ok(c) ==> c.tasks_path == acc.tasks_path,
    decreases d.len(),
{
    if d.len() > 0 {
        let rest = d.drop_first();
        assert forall|i: int| 0 <= i < rest.len() implies (#[trigger] rest[i]).0 != "tasks_path"@ by {
            assert(rest[i] == d[i + 1]);
        }
        if d[0].0 == "link"@ {
            match d[0].1 {
                RawValV::Table(t) => match spec_validate_link(t, spec_link_default()) {
                    Ok(l) => lemma_no_tasks_path_entry(rest, ConfigTomlV { link: Some(l), ..acc }),
                    Err(_) => {},
                },
                _ => {},
            }
        }
    }
}

/// A field never named in the document is reported absent: without a
/// `link` entry the result keeps the accumulator's `link`.
pub proof fn lemma_no_link_entry(d: Seq<(Seq<char>, RawValV)>, acc: ConfigTomlV)
    requires
        forall|i: int| 0 <= i < d.len() ==> (#[trigger] d[i]).0 != "link"@,
    ensures
        spec_validate_doc(d, acc) matches Ok(c) ==> c.link == acc.link,
    decreases d.len(),
{
    if d.len() > 0 {
        let rest = d.drop_first();
        assert forall|i: int| 0 <= i < rest.len() implies (#[trigger] rest[i]).0 != "link"@ by {
            assert(rest[i] == d[i + 1]);
        }
        if d[0].0 == "tasks_path"@ {
            match d[0].1 {
                RawValV::Str(s) => lemma_no_link_entry(rest, ConfigTomlV { tasks_path: Some(s), ..acc }),
                _ => {},
            }
        }
    }
}

} // verus!
