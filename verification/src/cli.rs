//! The parsed command line, the environment handed in by the surrounding
//! program, and the verified resolution itself.

use vstd::prelude::*;
use vstd::string::StringExecFns;

use crate::alias::parse_alias_table;
use crate::errors::ResolveError;
use crate::resolver::Action;
use crate::resolver::action_result_view;
use crate::resolver::chosen_domain;
use crate::resolver::spec_config_path;
use crate::resolver::spec_default_domain;
use crate::resolver::spec_like_run;
use crate::resolver::spec_open_url;
use crate::resolver::spec_resolve;
use crate::resolver::spec_short_url;
use crate::resolver::url_chars;
use crate::resolver::url_result_view;

verus! {

/// A direct-shorten request: open `https://<domain>/<path>`, where the domain
/// flag may be overridden by a shortener flag or the environment.
pub struct Shorten {
    /// The domain flag's value; the surrounding program fills in the default
    /// host when the flag is absent.
    pub domain: String,
    /// The URL path to open.
    pub path: String,
    /// Use the bit.ly host, overriding everything else.
    pub bitly: bool,
    /// Use the oreil.ly host, overriding the environment and the domain flag.
    pub oreil: bool,
}

/// An alias-mode request: open the URL stored under an alias in the
/// configuration file, or list that file's entries.
pub struct Like {
    /// The config-file flag's value, if given.
    pub config: Option<String>,
    /// The alias to look up, if given.
    pub alias: Option<String>,
    /// List the aliases instead of opening one.
    pub list: bool,
}

/// Which mode this invocation runs in.
pub enum SubCommand {
    Shorten(Shorten),
    Like(Like),
}

/// The whole parsed command line.
pub struct Cli {
    pub subcmd: SubCommand,
}

/// What the resolution reads from outside the process arguments. The
/// surrounding program fills this in once per invocation; resolution itself
/// is a pure function of it.
pub struct Env {
    /// The domain-override environment variable's value, if it is set.
    pub default_domain: Option<String>,
    /// The alias configuration file's text, or `None` when it could not be
    /// read.
    pub alias_file: Option<String>,
}

/// The hard-coded default host, used when no flag and no environment
/// variable picks a domain.
pub fn default_domain() -> (r: String)
    ensures
        r@ == spec_default_domain(),
{
    String::from_str("oreil.ly")
}

impl Cli {
    /// Build the destination URL `https://<domain>/<path>`, with exactly one
    /// slash between the two and nothing encoded or validated.
    pub fn make_url(&self, domain: &str, path: &str) -> (r: String)
        ensures
            r@ == url_chars(domain@, path@),
    {
        let mut url = String::from_str("https://");
        url.append(domain);
        url.append("/");
        url.append(path);
        url
    }

    /// Resolve a shorten request to its URL: the bitly flag beats the oreil
    /// flag, which beats the environment override, which beats the domain
    /// flag.
    pub fn short_url(&self, sh: &Shorten, env_domain: &Option<String>) -> (r: String)
        ensures
            r@ == spec_short_url(*sh, env_domain.deep_view()),
    {
        if sh.bitly {
            return self.make_url("bit.ly", sh.path.as_str());
        }
        if sh.oreil {
            return self.make_url("oreil.ly", sh.path.as_str());
        }
        match env_domain {
            Some(val) => self.make_url(val.as_str(), sh.path.as_str()),
            None => self.make_url(sh.domain.as_str(), sh.path.as_str()),
        }
    }

    /// Resolve one whole invocation to the action it asks for, or the error
    /// that ends it. The outcome is a function of the request and the
    /// environment alone.
    pub fn run(&self, env: &Env) -> (r: Result<Action, ResolveError>)
        ensures
            action_result_view(r) == spec_resolve(*self, *env),
    {
        match &self.subcmd {
            SubCommand::Shorten(sh) => Ok(Action::Open(self.short_url(sh, &env.default_domain))),
            SubCommand::Like(lk) => lk.run(&env.alias_file),
        }
    }
}

impl Like {
    /// The path of the alias configuration file: the config flag's value, or
    /// `<home>/.ourl-likes.json` by default.
    pub fn config_path(&self, home: &str) -> (r: String)
        ensures
            r@ == spec_config_path(*self, home@),
    {
        match &self.config {
            Some(c) => c.clone(),
            None => {
                let mut p = String::from_str(home);
                p.append("/.ourl-likes.json");
                p
            },
        }
    }

    /// Run alias mode: list the table's entries when the list flag is set,
    /// otherwise resolve the requested alias to its stored URL.
    pub fn run(&self, alias_file: &Option<String>) -> (r: Result<Action, ResolveError>)
        ensures
            action_result_view(r) == spec_like_run(*self, *alias_file),
    {
        if self.list {
            let text = match alias_file {
                Some(t) => t,
                None => {
                    return Err(ResolveError::AliasFileUnreadable);
                },
            };
            match parse_alias_table(text.as_str()) {
                Ok(table) => Ok(Action::List(table)),
                Err(e) => Err(e),
            }
        } else {
            match self.open_url(alias_file) {
                Ok(url) => Ok(Action::Open(url)),
                Err(e) => Err(e),
            }
        }
    }

    /// Resolve the requested alias to the URL stored under it, verbatim:
    /// the lookup is exact-match and case-sensitive and no templating is
    /// applied. Each error names exactly what went wrong.
    pub fn open_url(&self, alias_file: &Option<String>) -> (r: Result<String, ResolveError>)
        ensures
            url_result_view(r) == spec_open_url(*self, *alias_file),
    {
        let alias = match &self.alias {
            Some(a) => a,
            None => {
                return Err(ResolveError::MissingAliasArgument);
            },
        };
        let text = match alias_file {
            Some(t) => t,
            None => {
                return Err(ResolveError::AliasFileUnreadable);
            },
        };
        let table = match parse_alias_table(text.as_str()) {
            Ok(t) => t,
            Err(e) => {
                return Err(e);
            },
        };
        match table.get(alias) {
            Some(url) => Ok(url.clone()),
            None => Err(ResolveError::AliasNotFound),
        }
    }
}

} // verus!
