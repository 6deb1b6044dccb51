//! The mathematical model of resolution: which domain is chosen, what URL is
//! built, and what outcome one whole invocation has.

use vstd::prelude::*;

use crate::alias::AliasTable;
use crate::alias::parsed_aliases;
use crate::alias::spec_lookup;
use crate::cli::Cli;
use crate::cli::Env;
use crate::cli::Like;
use crate::cli::Shorten;
use crate::cli::SubCommand;
use crate::errors::ResolveError;

verus! {

/// The default host used when neither a flag nor the environment picks one.
pub open spec fn spec_default_domain() -> Seq<char> {
    "oreil.ly"@
}

/// The fixed host selected by the bitly flag.
pub open spec fn spec_bitly_domain() -> Seq<char> {
    "bit.ly"@
}

/// The destination URL: `https://<domain>/<path>`, with exactly one slash
/// between domain and path and no encoding or validation of either.
pub open spec fn url_chars(domain: Seq<char>, path: Seq<char>) -> Seq<char> {
    "https://"@ + domain + "/"@ + path
}

/// The domain a shorten request selects, by fixed precedence: the bitly flag,
/// then the oreil flag, then the environment override, then the domain flag.
pub open spec fn chosen_domain(sh: Shorten, env_domain: Option<Seq<char>>) -> Seq<char> {
    if sh.bitly {
        spec_bitly_domain()
    } else if sh.oreil {
        spec_default_domain()
    } else {
        match env_domain {
            Some(d) => d,
            None => sh.domain@,
        }
    }
}

/// The URL a shorten request resolves to.
pub open spec fn spec_short_url(sh: Shorten, env_domain: Option<Seq<char>>) -> Seq<char> {
    url_chars(chosen_domain(sh, env_domain), sh.path@)
}

/// The path of the alias configuration file a request reads: the config
/// flag's value, or a fixed file under the user's home directory.
pub open spec fn spec_config_path(lk: Like, home: Seq<char>) -> Seq<char> {
    match lk.config {
        Some(c) => c@,
        None => home + "/.ourl-likes.json"@,
    }
}

/// What a successful invocation asks the surrounding program to do: open one
/// URL in the browser, or display the alias table's entries.
pub enum Action {
    /// Open this URL in the default browser.
    Open(String),
    /// Display these aliases; nothing is opened.
    List(AliasTable),
}

/// The model of an `Action`, over character sequences.
pub enum SpecAction {
    Open(Seq<char>),
    List(Seq<(Seq<char>, Seq<char>)>),
}

impl View for Action {
    type V = SpecAction;

    open spec fn view(&self) -> SpecAction {
        match self {
            Action::Open(url) => SpecAction::Open(url@),
            Action::List(table) => SpecAction::List(table@),
        }
    }
}

/// The model of a URL-or-error outcome.
pub open spec fn url_result_view(r: Result<String, ResolveError>) -> Result<
    Seq<char>,
    ResolveError,
> {
    match r {
        Ok(u) => Ok(u@),
        Err(e) => Err(e),
    }
}

/// The model of an action-or-error outcome.
pub open spec fn action_result_view(r: Result<Action, ResolveError>) -> Result<
    SpecAction,
    ResolveError,
> {
    match r {
        Ok(a) => Ok(a@),
        Err(e) => Err(e),
    }
}

/// The outcome of alias mode without the list flag: the URL stored under the
/// requested alias, or the error naming exactly what went wrong.
pub open spec fn spec_open_url(lk: Like, alias_file: Option<String>) -> Result<
    Seq<char>,
    ResolveError,
> {
    match lk.alias {
        None => Err(ResolveError::MissingAliasArgument),
        Some(name) => match alias_file {
            None => Err(ResolveError::AliasFileUnreadable),
            Some(text) => match parsed_aliases(text@) {
                None => Err(ResolveError::AliasFileMalformed),
                Some(entries) => match spec_lookup(entries, name@) {
                    None => Err(ResolveError::AliasNotFound),
                    Some(url) => Ok(url),
                },
            },
        },
    }
}

/// The outcome of alias mode: list the table when the list flag is set,
/// otherwise open the URL stored under the requested alias.
pub open spec fn spec_like_run(lk: Like, alias_file: Option<String>) -> Result<
    SpecAction,
    ResolveError,
> {
    if lk.list {
        match alias_file {
            None => Err(ResolveError::AliasFileUnreadable),
            Some(text) => match parsed_aliases(text@) {
                None => Err(ResolveError::AliasFileMalformed),
                Some(entries) => Ok(SpecAction::List(entries)),
            },
        }
    } else {
        match spec_open_url(lk, alias_file) {
            Ok(url) => Ok(SpecAction::Open(url)),
            Err(e) => Err(e),
        }
    }
}

/// The outcome of one whole invocation, as a function of the parsed request
/// and the environment alone.
pub open spec fn spec_resolve(cli: Cli, env: Env) -> Result<SpecAction, ResolveError> {
    match cli.subcmd {
        SubCommand::Shorten(sh) => Ok(
            SpecAction::Open(spec_short_url(sh, env.default_domain.deep_view())),
        ),
        SubCommand::Like(lk) => spec_like_run(lk, env.alias_file),
    }
}

/// With no shortener flag, no environment override, and the domain flag at
/// the default host, every path resolves to exactly
/// `https://oreil.ly/<path>`.
pub proof fn lemma_default_resolution(sh: Shorten)
    requires
        !sh.bitly,
        !sh.oreil,
        sh.domain@ == spec_default_domain(),
    ensures
        spec_short_url(sh, None::<Seq<char>>) == "https://oreil.ly/"@ + sh.path@,
{
    reveal_strlit("https://");
    reveal_strlit("oreil.ly");
    reveal_strlit("/");
    reveal_strlit("https://oreil.ly/");
    assert(spec_short_url(sh, None::<Seq<char>>) =~= "https://oreil.ly/"@ + sh.path@);
}

/// When no shortener flag is set, the environment override takes precedence
/// over the domain flag: the chosen domain is the environment's value,
/// whatever the flag holds.
pub proof fn lemma_env_overrides_default(sh: Shorten, env_domain: Seq<char>)
    requires
        !sh.bitly,
        !sh.oreil,
    ensures
        chosen_domain(sh, Some(env_domain)) == env_domain,
{
}

/// A shortener flag yields its fixed host regardless of the domain flag's
/// value and of the environment override.
pub proof fn lemma_shortener_flag_wins(sh: Shorten, env_domain: Option<Seq<char>>)
    requires
        sh.bitly || sh.oreil,
    ensures
        chosen_domain(sh, env_domain) == chosen_domain(sh, None::<Seq<char>>),
        sh.bitly ==> chosen_domain(sh, env_domain) == spec_bitly_domain(),
        !sh.bitly ==> chosen_domain(sh, env_domain) == spec_default_domain(),
        forall|d: String| #[trigger] chosen_domain(
            Shorten { domain: d, ..sh },
            env_domain,
        ) == chosen_domain(sh, env_domain),
{
}

/// Listing aliases yields the table's entries verbatim, with no resolution
/// or templating applied, and never asks for a browser launch: the outcome
/// is a List action or an error, never an Open one.
pub proof fn lemma_list_never_opens(lk: Like, alias_file: Option<String>)
    requires
        lk.list,
    ensures
        match spec_like_run(lk, alias_file) {
            Ok(a) => a matches SpecAction::List(entries) && alias_file matches Some(text)
                && parsed_aliases(text@) == Some(entries),
            Err(e) => e == ResolveError::AliasFileUnreadable || e
                == ResolveError::AliasFileMalformed,
        },
{
}

/// Resolution is pure: the outcome is a function of the parsed request and
/// the environment alone, so two invocations with identical requests,
/// identical environments and an unchanged alias file agree.
pub proof fn lemma_resolve_idempotent(cli1: Cli, env1: Env, cli2: Cli, env2: Env)
    requires
        cli1 == cli2,
        env1 == env2,
    ensures
        spec_resolve(cli1, env1) == spec_resolve(cli2, env2),
{
}

} // verus!
