//! Process-wide git configuration access: the one place the facade touches
//! a store outside the project directory. The store handle is passed in
//! explicitly so that the dependency stays visible and testable, and the
//! store is described by its contents — the visible value of each key —
//! under the assumption that no concurrent writer alters it between calls.

use vstd::prelude::*;

use crate::error::{Error, ErrorKind};
use crate::facade::App;

verus! {

#[verifier::external_type_specification]
#[verifier::external_body]
pub struct ExConfig(git2::Config);

/// The key-value contents a configuration handle exposes: the visible value
/// of each stored key, keyed by git's canonical form of the key.
pub uninterp spec fn config_map(c: git2::Config) -> Map<Seq<char>, Seq<char>>;

/// git's canonical form of a configuration key: the section and variable
/// parts of a key are case-insensitive, and libgit2 canonicalizes them the
/// same way on every read and write.
pub uninterp spec fn config_key(key: Seq<char>) -> Seq<char>;

/// The outcome of one configuration lookup, as the store reports it.
#[derive(Debug)]
pub enum ConfigLookup {
    /// The key is set; its exact value.
    Present(String),
    /// The key is unset; this is not an error.
    Absent,
    /// The lookup itself failed; the store's message.
    Failed(String),
}

/// Relies on git2::Config::set_str: on success the value is written under
/// the key in the highest-priority writable configuration file, so the
/// handle thereafter exposes it as that key's visible value and every other
/// key is untouched.
#[verifier::external_body]
fn config_set(c: &mut git2::Config, key: &str, value: &str) -> (r: Result<(), String>)
    ensures
        r matches Ok(_) ==> config_map(*final(c)) == config_map(*old(c)).insert(
            config_key(key@),
            value@,
        ),
{
    match c.set_str(key, value) {
        Ok(()) => Ok(()),
        Err(e) => Err(e.message().to_string()),
    }
}

/// Relies on git2::Config::get_string and git2::Error::code: the lookup
/// returns the key's visible value when the key is set, and reports
/// `ErrorCode::NotFound` exactly when the key is unset.
#[verifier::external_body]
fn config_get(c: &git2::Config, key: &str) -> (r: ConfigLookup)
    ensures
        r matches ConfigLookup::Present(v) ==> config_map(*c).contains_key(config_key(key@))
            && v@ == config_map(*c)[config_key(key@)],
        r is Absent ==> !config_map(*c).contains_key(config_key(key@)),
{
    match c.get_string(key) {
        Ok(v) => ConfigLookup::Present(v),
        Err(e) => {
            if e.code() == git2::ErrorCode::NotFound {
                ConfigLookup::Absent
            } else {
                ConfigLookup::Failed(e.message().to_string())
            }
        },
    }
}

/// Normalize one lookup outcome: a present value is returned as such, an
/// absent key is an explicit "unset" result and never an error, and a
/// failed lookup is a `ConfigError` carrying the store's message.
pub fn interpret_lookup(l: ConfigLookup) -> (r: Result<Option<String>, Error>)
    ensures
        l matches ConfigLookup::Present(v) ==> r == Ok::<Option<String>, Error>(Some(v)),
        l is Absent ==> r == Ok::<Option<String>, Error>(None::<String>),
        l matches ConfigLookup::Failed(m) ==> (r matches Err(e) && e.kind == ErrorKind::ConfigError
            && e.context == m),
{
    match l {
        ConfigLookup::Present(v) => Ok(Some(v)),
        ConfigLookup::Absent => Ok(None),
        ConfigLookup::Failed(m) => Err(Error { kind: ErrorKind::ConfigError, context: m }),
    }
}

impl App {
    /// Write a value under a key in the user's global (process-wide, not
    /// per-project) git configuration store, and return the written value.
    pub fn git_set_global_config(config: &mut git2::Config, key: &str, value: &str) -> (r: Result<
        String,
        Error,
    >)
        ensures
            r matches Ok(v) ==> v@ == value@ && config_map(*final(config)) == config_map(
                *old(config),
            ).insert(config_key(key@), value@),
            r matches Err(e) ==> e.kind == ErrorKind::ConfigError,
    {
        match config_set(config, key, value) {
            Ok(()) => Ok(value.to_string()),
            Err(m) => Err(Error { kind: ErrorKind::ConfigError, context: m }),
        }
    }

    /// Read a key from the user's global git configuration store: the exact
    /// stored value if the key is set, an explicit `None` — never an error —
    /// if it is unset.
    pub fn git_get_global_config(config: &git2::Config, key: &str) -> (r: Result<
        Option<String>,
        Error,
    >)
        ensures
            r matches Ok(v) ==> (v matches Some(s) ==> config_map(*config).contains_key(
                config_key(key@),
            ) && s@ == config_map(*config)[config_key(key@)]),
            r matches Ok(v) ==> (v is None ==> !config_map(*config).contains_key(
                config_key(key@),
            )),
            r matches Err(e) ==> e.kind == ErrorKind::ConfigError,
    {
        interpret_lookup(config_get(config, key))
    }
}

/// Law: setting a key and then getting the same key round-trips the exact
/// string value. After a successful write the store's contents hold the
/// written value under the key's canonical form, so by the contracts of the
/// two operations any later lookup of that key that does not itself fail
/// returns precisely the written string.
pub proof fn lemma_set_then_get_round_trip(
    m: Map<Seq<char>, Seq<char>>,
    key: Seq<char>,
    value: Seq<char>,
)
    ensures
        m.insert(config_key(key), value).contains_key(config_key(key)),
        m.insert(config_key(key), value)[config_key(key)] == value,
{
}

} // verus!
