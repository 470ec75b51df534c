//! Application configuration.

use vstd::prelude::*;

use crate::dir::spec_app_dir;
use crate::text::{join, spec_join};

verus! {

/// Application configuration data.
#[derive(Debug)]
pub struct Config {
    /// Server bind address.
    pub host: Option<String>,
    /// Server bind port.
    pub port: Option<u16>,
    /// Bearer token required for write operations.
    pub token: Option<String>,
    /// URL prefix when served behind a reverse proxy.
    pub prefix: Option<String>,
}

impl Default for Config {
    fn default() -> (r: Config)
        ensures
            r.host is None,
            r.port is None,
            r.token is None,
            r.prefix is None,
    {
        Config { host: None, port: None, token: None, prefix: None }
    }
}

/// An option after a merge: the value already set, else the other one.
pub open spec fn spec_keep_set<T>(set: Option<T>, other: Option<T>) -> Option<T> {
    match set {
        Some(v) => Some(v),
        None => other,
    }
}

impl Config {
    /// The configuration after merging `other` in: each option already set
    /// is kept, each unset one is taken from `other`.
    pub open spec fn spec_merge(self, other: Config) -> Config {
        Config {
            host: spec_keep_set(self.host, other.host),
            port: spec_keep_set(self.port, other.port),
            token: spec_keep_set(self.token, other.token),
            prefix: spec_keep_set(self.prefix, other.prefix),
        }
    }

    /// Fills the unset options from `other`; options already set, such as
    /// those given on the command line, take priority.
    pub fn merge(&mut self, other: Config)
        ensures
            *final(self) == old(self).spec_merge(other),
    {
        if self.host.is_none() {
            self.host = other.host;
        }
        if self.port.is_none() {
            self.port = other.port;
        }
        if self.token.is_none() {
            self.token = other.token;
        }
        if self.prefix.is_none() {
            self.prefix = other.prefix;
        }
    }
}

/// Merging is associative: merging `b` then `c` into `a` is merging into `a`
/// the result of merging `c` into `b`.
pub proof fn lemma_merge_associative(a: Config, b: Config, c: Config)
    ensures
        a.spec_merge(b).spec_merge(c) == a.spec_merge(b.spec_merge(c)),
{
}

/// Merging the same configuration a second time changes nothing.
pub proof fn lemma_merge_idempotent(a: Config, b: Config)
    ensures
        a.spec_merge(b).spec_merge(b) == a.spec_merge(b),
{
}

/// An option set before a merge keeps its value.
pub proof fn lemma_merge_keeps_set(a: Config, b: Config)
    ensures
        a.host is Some ==> a.spec_merge(b).host == a.host,
        a.port is Some ==> a.spec_merge(b).port == a.port,
        a.token is Some ==> a.spec_merge(b).token == a.token,
        a.prefix is Some ==> a.spec_merge(b).prefix == a.prefix,
{
}

/// Path of the configuration file under the configuration directory.
pub open spec fn spec_config_file(dir: Seq<char>) -> Seq<char> {
    spec_join(dir, "config.toml"@)
}

/// Path of the configuration file under a configuration directory.
pub fn config_file(dir: &str) -> (r: String)
    ensures
        r@ == spec_config_file(dir@),
{
    join(dir, "config.toml")
}

/// Returns the path to the application's configuration file:
/// `config.toml` in the application's configuration directory.
pub fn path() -> (r: String)
    ensures
        exists|b: Option<Seq<char>>| r@ == spec_config_file(spec_app_dir(b)),
{
    let dir = crate::dir::config();
    let ghost b = choose|b: Option<Seq<char>>| dir@ == spec_app_dir(b);
    let r = config_file(dir.as_str());
    assert(r@ == spec_config_file(spec_app_dir(b)));
    r
}

/// An option unset before a merge takes the other configuration's value.
pub proof fn lemma_merge_fills_unset(a: Config, b: Config)
    ensures
        a.host is None ==> a.spec_merge(b).host == b.host,
        a.port is None ==> a.spec_merge(b).port == b.port,
        a.token is None ==> a.spec_merge(b).token == b.token,
        a.prefix is None ==> a.spec_merge(b).prefix == b.prefix,
{
}

/// The configuration file is `config.toml` directly in the configuration
/// directory: after a `/` unless the directory already ends with one, and
/// alone when the directory is empty.
pub proof fn lemma_config_file_in_dir(dir: Seq<char>)
    ensures
        dir.len() > 0 && dir.last() != '/' ==> spec_config_file(dir) == dir + "/config.toml"@,
        dir.len() > 0 && dir.last() == '/' ==> spec_config_file(dir) == dir + "config.toml"@,
        dir.len() == 0 ==> spec_config_file(dir) == "config.toml"@,
{
    reveal_strlit("/");
    reveal_strlit("config.toml");
    reveal_strlit("/config.toml");
    assert(dir + "/"@ + "config.toml"@ =~= dir + "/config.toml"@);
    assert(Seq::<char>::empty() + "config.toml"@ =~= "config.toml"@);
}

} // verus!
