//! The policy of each API operation that is more than a fixed document:
//! paging defaults, the conversation filter, and how answers are read.

use vstd::prelude::*;
use vstd::string::StringExecFns;
use crate::error::GrooveError;
use crate::text::{upper_of, uppercase};
use crate::types::{opt_view, Conversation, Message};

verus! {

/// Conversations fetched per page when the caller names no size.
pub const DEFAULT_CONVERSATION_PAGE: u32 = 25;

/// Messages fetched per conversation when the caller names no size.
pub const DEFAULT_MESSAGE_PAGE: i32 = 50;

/// The page size of the list-all operations; the service returns no more.
pub const MAX_ITEMS_PER_PAGE: usize = 100;

/// The optional filter of a conversation listing; an absent field is left
/// out of the request, never sent as null.
#[derive(Debug, Clone, PartialEq, Eq)]
pub struct ConversationFilter {
    pub state: Option<String>,
    pub folder_id: Option<String>,
    pub keywords: Option<String>,
}

/// The variables of a conversation listing.
#[derive(Debug, Clone, PartialEq, Eq)]
pub struct ConversationsQuery {
    pub first: u32,
    pub after: Option<String>,
    pub filter: Option<ConversationFilter>,
}

/// The view of an optional text.
pub open spec fn opt_text(s: Option<&str>) -> Option<Seq<char>> {
    match s {
        Some(t) => Some(t@),
        None => None,
    }
}

fn copy_text(s: Option<&str>) -> (r: Option<String>)
    ensures
        opt_view(r) == opt_text(s),
{
    match s {
        Some(t) => Some(String::from_str(t)),
        None => None,
    }
}

/// Builds the variables of a conversation listing: the page size defaults to
/// 25; the state is sent upper-cased; the filter is left out entirely when it
/// would be empty.
pub fn conversations_query(
    first: Option<u32>,
    after: Option<String>,
    state: Option<&str>,
    folder_id: Option<&str>,
    search: Option<&str>,
) -> (r: ConversationsQuery)
    ensures
        r.first == (match first { Some(f) => f, None => DEFAULT_CONVERSATION_PAGE }),
        r.after == after,
        (state is None && folder_id is None && search is None) <==> r.filter is None,
        r.filter matches Some(f) ==> {
            &&& opt_view(f.state) == (match state { Some(s) => Some(upper_of(s@)), None => None })
            &&& opt_view(f.folder_id) == opt_text(folder_id)
            &&& opt_view(f.keywords) == opt_text(search)
        },
{
    let first = match first {
        Some(f) => f,
        None => DEFAULT_CONVERSATION_PAGE,
    };
    let filter = if state.is_none() && folder_id.is_none() && search.is_none() {
        None
    } else {
        let state = match state {
            Some(s) => Some(uppercase(s)),
            None => None,
        };
        Some(ConversationFilter { state, folder_id: copy_text(folder_id), keywords: copy_text(search) })
    };
    ConversationsQuery { first, after, filter }
}

/// The message page size: the caller's, or 50.
pub fn messages_first(first: Option<i32>) -> (r: i32)
    ensures
        r == (match first { Some(f) => f, None => DEFAULT_MESSAGE_PAGE }),
{
    match first {
        Some(f) => f,
        None => DEFAULT_MESSAGE_PAGE,
    }
}

/// The messages of a conversation node: none when the node is absent.
pub fn messages_of(node: Option<Vec<Message>>) -> (r: Vec<Message>)
    ensures
        node matches Some(m) ==> r == m,
        node is None ==> r@.len() == 0,
{
    match node {
        Some(m) => m,
        None => Vec::new(),
    }
}

/// The conversation a lookup by number found, or a not-found failure that
/// names the number.
pub fn found_conversation(number: i64, found: Option<Conversation>) -> (r: Result<Conversation, GrooveError>)
    ensures
        found matches Some(c) ==> r == Ok::<Conversation, GrooveError>(c),
        found is None ==> r == Err::<Conversation, GrooveError>(GrooveError::ConversationNotFound(number)),
{
    match found {
        Some(c) => Ok(c),
        None => Err(GrooveError::ConversationNotFound(number)),
    }
}

/// Whether a list-all answer may have been cut at the page size, which
/// deserves a warning.
pub fn may_be_truncated(count: usize) -> (r: bool)
    ensures
        r == (count >= MAX_ITEMS_PER_PAGE),
{
    count >= MAX_ITEMS_PER_PAGE
}

} // verus!
