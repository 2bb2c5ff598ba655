//! Settling on the endpoint: from the command line, or from the
//! configuration file.
//!
//! A URL on the command line wins over everything else and the
//! configuration file is then not looked at, a name along with it is
//! ignored. Otherwise the file is read; a name selects from its table of
//! named webhooks, and without a name its default webhook is taken.

use crate::config::Config;
use crate::endpoint::Endpoint;
use crate::error::ResolveError;
use crate::line::has_prefix;
use vstd::prelude::*;

verus! {

/// Where the configuration is looked for when the command line does not
/// say.
pub const DEFAULT_CONFIG: &'static str = "~/.config/slacker.conf";

/// What the command line asks for.
#[derive(Debug)]
pub struct Options {
    /// Path to the configuration file.
    pub config: String,
    /// Webhook URL; overrides the configuration.
    pub url: Option<Endpoint>,
    /// Name of the webhook to take from the configuration.
    pub name: Option<String>,
    /// Ignore the rate limit and send as fast as possible.
    pub no_rate_limit: bool,
}

/// Where the endpoint comes from.
#[derive(Debug)]
pub enum Source {
    /// From the command line: nothing is to be read.
    Direct { endpoint: Endpoint },
    /// From the configuration file at `path`, which is to be read.
    ConfigFile { path: String },
}

/// A path below the home directory: one that begins with `~/`.
pub open spec fn has_home_prefix(path: Seq<char>) -> bool {
    "~/"@.is_prefix_of(path)
}

/// The path `rest` below the directory `home`.
pub open spec fn under_home(home: Seq<char>, rest: Seq<char>) -> Seq<char> {
    home + "/"@ + rest
}

/// The path with a leading `~/` replaced by the home directory. Any other
/// path, `~` alone too, stands as it is. `None` where the home directory is
/// needed and there is none.
pub open spec fn expanded(path: Seq<char>, home: Option<Seq<char>>) -> Option<Seq<char>> {
    if has_home_prefix(path) {
        match home {
            Some(home) => Some(under_home(home, path.skip(2))),
            None => None,
        }
    } else {
        Some(path)
    }
}

/// A path that does not begin with `~/` is taken as it is, whatever the
/// home directory is and whether there is one. Absolute paths are among
/// them.
pub proof fn lemma_other_paths_unchanged(path: Seq<char>, home: Option<Seq<char>>)
    requires
        !has_home_prefix(path) || (path.len() > 0 && path[0] == '/'),
    ensures
        expanded(path, home) == Some(path),
{
    reveal_strlit("~/");
    if path.len() > 0 && path[0] == '/' {
        if has_home_prefix(path) {
            assert(path.subrange(0, 2)[0] == '~');
        }
    }
}

/// Calls `dirs::home_dir` and hands the directory back as a string, or
/// nothing where the user has no home directory or its path is not valid
/// Unicode. The answer depends on the environment, so nothing is claimed
/// of it.
#[verifier::external_body]
fn home_dir() -> Option<String> {
    match dirs::home_dir() {
        Some(path) => path.into_os_string().into_string().ok(),
        None => None,
    }
}

/// Expands `path` against the home directory `home`.
pub fn expand_home(path: &str, home: Option<&str>) -> (full: Result<String, ResolveError>)
    ensures
        match full {
            Ok(full) => expanded(path@, option_text(home)) == Some(full@),
            Err(error) => error is NoHome && expanded(path@, option_text(home)) is None,
        },
{
    if has_prefix(path, "~/") {
        match home {
            Some(home) => {
                proof {
                    reveal_strlit("~/");
                }
                let rest = path.substring_char(2, path.unicode_len());
                let mut full = String::from_str(home);
                full.append("/");
                full.append(rest);
                Ok(full)
            },
            None => Err(ResolveError::NoHome),
        }
    } else {
        Ok(String::from_str(path))
    }
}

/// The text of an optional string.
pub open spec fn option_text(text: Option<&str>) -> Option<Seq<char>> {
    match text {
        Some(text) => Some(text@),
        None => None,
    }
}

/// Expands `path` against the home directory of the user, which is looked
/// up only where the path asks for it.
pub fn expand_config_path(path: &str) -> (full: Result<String, ResolveError>)
    ensures
        !has_home_prefix(path@) ==> (full matches Ok(full) && full@ == path@),
        has_home_prefix(path@) ==> match full {
            Ok(full) => exists|home: Seq<char>| full@ == under_home(home, path@.skip(2)),
            Err(error) => error is NoHome,
        },
{
    if has_prefix(path, "~/") {
        match home_dir() {
            Some(home) => expand_home(path, Some(home.as_str())),
            None => expand_home(path, None),
        }
    } else {
        expand_home(path, None)
    }
}

impl Options {
    /// Where the endpoint comes from: from the command line where it gives a
    /// URL, and only otherwise from the configuration file, whose path is
    /// expanded.
    pub fn source(&self) -> (source: Result<Source, ResolveError>)
        ensures
            self.url matches Some(url) ==> (source matches Ok(Source::Direct { endpoint })
                && endpoint@ == url@),
            self.url is None && !has_home_prefix(self.config@) ==> (source matches Ok(
                Source::ConfigFile { path },
            ) && path@ == self.config@),
            self.url is None && has_home_prefix(self.config@) ==> match source {
                Ok(Source::ConfigFile { path }) => exists|home: Seq<char>|
                    path@ == under_home(home, self.config@.skip(2)),
                Ok(Source::Direct { .. }) => false,
                Err(error) => error is NoHome,
            },
    {
        match &self.url {
            Some(url) => Ok(Source::Direct { endpoint: url.clone() }),
            None => match expand_config_path(self.config.as_str()) {
                Ok(path) => Ok(Source::ConfigFile { path }),
                Err(error) => Err(error),
            },
        }
    }
}

/// Picks the endpoint from a configuration: the webhook that `name` stands
/// for where a name is given, the default webhook where none is.
pub fn select(config: &Config, name: Option<&str>) -> (selected: Result<Endpoint, ResolveError>)
    ensures
        match selected {
            Ok(endpoint) => match name {
                Some(name) => config@.hooks.contains_key(name@) && endpoint@ == config@.hooks[name@],
                None => config@.slack_hook == Some(endpoint@),
            },
            Err(ResolveError::UnknownHook { name: missing }) => (name matches Some(name)
                && missing@ == name@ && !config@.hooks.contains_key(name@)),
            Err(ResolveError::MissingDefault) => name is None && config@.slack_hook is None,
            Err(_) => false,
        },
{
    match name {
        Some(name) => match config.hook(name) {
            Some(endpoint) => Ok(endpoint.clone()),
            None => Err(ResolveError::UnknownHook { name: String::from_str(name) }),
        },
        None => match config.default_hook() {
            Some(endpoint) => Ok(endpoint.clone()),
            None => Err(ResolveError::MissingDefault),
        },
    }
}

} // verus!
