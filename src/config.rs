//! The settings a command starts from, and the order in which the token and
//! the defaults are chosen among their sources.

use vstd::prelude::*;
use vstd::string::StrSliceExecFns;
use vstd::string::StringExecFns;
use crate::error::GrooveError;
use crate::operations::DEFAULT_CONVERSATION_PAGE;

verus! {

/// The endpoint used when the configuration names none.
pub open spec fn default_endpoint() -> Seq<char> {
    "https://api.groovehq.com/v2/graphql"@
}

/// Defaults for options that a command may leave out.
#[derive(Debug, Clone)]
pub struct DefaultSettings {
    pub format: Option<String>,
    pub limit: Option<u32>,
    pub folder: Option<String>,
}

/// The persisted settings; `aliases` maps a short name to a command line.
#[derive(Debug, Clone)]
pub struct Config {
    pub api_token: Option<String>,
    pub api_endpoint: Option<String>,
    pub defaults: DefaultSettings,
    pub aliases: Vec<(String, String)>,
}

impl Default for DefaultSettings {
    fn default() -> (r: DefaultSettings)
        ensures
            r.format is None,
            r.limit is None,
            r.folder is None,
    {
        DefaultSettings { format: None, limit: None, folder: None }
    }
}

impl Default for Config {
    fn default() -> (r: Config)
        ensures
            r.api_token is None,
            r.api_endpoint is None,
            r.defaults.format is None,
            r.defaults.limit is None,
            r.defaults.folder is None,
            r.aliases@.len() == 0,
    {
        Config {
            api_token: None,
            api_endpoint: None,
            defaults: DefaultSettings { format: None, limit: None, folder: None },
            aliases: Vec::new(),
        }
    }
}

impl Config {
    /// Replaces the stored token; every other setting is kept.
    pub fn set_token(&mut self, token: String)
        ensures
            final(self).api_token == Some(token),
            final(self).api_endpoint == old(self).api_endpoint,
            final(self).defaults == old(self).defaults,
            final(self).aliases == old(self).aliases,
    {
        self.api_token = Some(token);
    }
}

/// The token chosen among its sources: the command-line flag, then a
/// non-empty environment value, then the configuration.
pub open spec fn chosen_token(
    cli_token: Option<Seq<char>>,
    env_token: Option<Seq<char>>,
    config_token: Option<Seq<char>>,
) -> Option<Seq<char>> {
    if cli_token is Some {
        cli_token
    } else if env_token is Some && env_token->0.len() > 0 {
        env_token
    } else {
        config_token
    }
}

/// Picks the API token: flag over environment (when non-empty) over the
/// configuration; none of them is a `TokenNotFound` failure.
pub fn resolve_token(cli_token: Option<&str>, env_token: Option<&str>, config: &Config) -> (r: Result<String, GrooveError>)
    ensures
        chosen_token(
            match cli_token { Some(t) => Some(t@), None => None },
            match env_token { Some(t) => Some(t@), None => None },
            match config.api_token { Some(t) => Some(t@), None => None },
        ) matches Some(t) ==> (r matches Ok(s) && s@ == t),
        chosen_token(
            match cli_token { Some(t) => Some(t@), None => None },
            match env_token { Some(t) => Some(t@), None => None },
            match config.api_token { Some(t) => Some(t@), None => None },
        ) is None ==> r == Err::<String, GrooveError>(GrooveError::TokenNotFound),
{
    if let Some(t) = cli_token {
        return Ok(String::from_str(t));
    }
    if let Some(t) = env_token {
        if t.unicode_len() > 0 {
            return Ok(String::from_str(t));
        }
    }
    match &config.api_token {
        Some(t) => Ok(t.clone()),
        None => Err(GrooveError::TokenNotFound),
    }
}

/// The endpoint to talk to: the configured one, or the service's own.
pub fn endpoint_or_default(endpoint: Option<&str>) -> (r: String)
    ensures
        r@ == (match endpoint { Some(e) => e@, None => default_endpoint() }),
{
    match endpoint {
        Some(e) => String::from_str(e),
        None => String::from_str("https://api.groovehq.com/v2/graphql"),
    }
}

/// The page size of a listing: the flag, else the configured default, else 25.
pub fn conversation_limit(cli_limit: Option<u32>, config: &Config) -> (r: u32)
    ensures
        r == (match cli_limit {
            Some(l) => l,
            None => match config.defaults.limit {
                Some(l) => l,
                None => DEFAULT_CONVERSATION_PAGE,
            },
        }),
{
    match cli_limit {
        Some(l) => l,
        None => match config.defaults.limit {
            Some(l) => l,
            None => DEFAULT_CONVERSATION_PAGE,
        },
    }
}

/// The folder of a listing: the flag, else the configured default.
pub fn listing_folder(cli_folder: &Option<String>, config: &Config) -> (r: Option<String>)
    ensures
        cli_folder is Some ==> r == *cli_folder,
        cli_folder is None ==> r == config.defaults.folder,
{
    match cli_folder {
        Some(f) => Some(f.clone()),
        None => match &config.defaults.folder {
            Some(f) => Some(f.clone()),
            None => None,
        },
    }
}

/// How a stored token is shown: its first and last four characters around
/// "..." when it is longer than eight, else eight stars.
pub open spec fn masked(token: Seq<char>) -> Seq<char> {
    if token.len() > 8 {
        token.take(4) + "..."@ + token.skip(token.len() - 4)
    } else {
        "********"@
    }
}

/// Masks a token for display.
pub fn mask_token(token: &str) -> (r: String)
    ensures
        r@ == masked(token@),
{
    let n = token.unicode_len();
    if n > 8 {
        let head = String::from_str(token.substring_char(0, 4));
        let r = head.concat("...").concat(token.substring_char(n - 4, n));
        assert(token@.subrange(n - 4, n as int) =~= token@.skip(n - 4));
        r
    } else {
        String::from_str("********")
    }
}

} // verus!
