//! The closed set of failures a request or a lookup can end in.

use vstd::prelude::*;

verus! {

/// Every way an API call or an identifier lookup fails. All are terminal for
/// the command that met them.
#[derive(Debug, Clone, PartialEq, Eq)]
pub enum GrooveError {
    /// The service rejected the credentials (HTTP 401).
    AuthError(String),
    /// No token came from the flag, the environment or the configuration.
    TokenNotFound,
    /// No conversation carries this number.
    ConversationNotFound(i64),
    /// No tag carries this name.
    TagNotFound(String),
    /// No agent has this email or name.
    AgentNotFound(String),
    /// No canned reply has this name or ID.
    CannedReplyNotFound(String),
    /// The service answered with errors, or with no data.
    GraphQL(String),
    /// The request could not be sent or its answer not read.
    Network(String),
    /// The configuration could not be located or written.
    Config(String),
    /// Reading or writing a local file failed.
    Io(String),
    /// A JSON document could not be read or written.
    Json(String),
    /// The configuration file is not valid TOML.
    TomlParse(String),
    /// The service asks the client to slow down (HTTP 429).
    RateLimited { retry_after: Option<u64> },
}

} // verus!
