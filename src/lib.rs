//! Verified request/response mediation for a GraphQL helpdesk client:
//! response classification, name-to-ID resolution, input validation and the
//! sequencing of the conversation commands.

pub mod types;
pub mod cli;
pub mod config;
pub mod error;
pub mod flow;
pub mod input;
pub mod text;
pub mod transport;
pub mod operations;
pub mod resolve;
