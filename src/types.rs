//! Value snapshots of the helpdesk entities, as plain data.

use vstd::prelude::*;
use vstd::string::StringExecFns;

verus! {

/// The closed set of conversation states.
#[derive(Debug, Clone, Copy, PartialEq, Eq, Structural)]
pub enum ConversationState {
    Unread,
    Opened,
    Closed,
    Snoozed,
    Spam,
    Deleted,
}

/// The short lowercase form shown to people.
pub open spec fn state_display(s: ConversationState) -> Seq<char> {
    match s {
        ConversationState::Unread => "unread"@,
        ConversationState::Opened => "open"@,
        ConversationState::Closed => "closed"@,
        ConversationState::Snoozed => "snoozed"@,
        ConversationState::Spam => "spam"@,
        ConversationState::Deleted => "deleted"@,
    }
}

/// The upper-snake form used on the wire.
pub open spec fn state_wire(s: ConversationState) -> Seq<char> {
    match s {
        ConversationState::Unread => "UNREAD"@,
        ConversationState::Opened => "OPENED"@,
        ConversationState::Closed => "CLOSED"@,
        ConversationState::Snoozed => "SNOOZED"@,
        ConversationState::Spam => "SPAM"@,
        ConversationState::Deleted => "DELETED"@,
    }
}

impl ConversationState {
    /// The display name of the state (`Opened` shows as "open").
    pub fn display_name(&self) -> (r: String)
        ensures
            r@ == state_display(*self),
    {
        match self {
            ConversationState::Unread => String::from_str("unread"),
            ConversationState::Opened => String::from_str("open"),
            ConversationState::Closed => String::from_str("closed"),
            ConversationState::Snoozed => String::from_str("snoozed"),
            ConversationState::Spam => String::from_str("spam"),
            ConversationState::Deleted => String::from_str("deleted"),
        }
    }

    /// The wire name of the state.
    pub fn wire_name(&self) -> (r: String)
        ensures
            r@ == state_wire(*self),
    {
        match self {
            ConversationState::Unread => String::from_str("UNREAD"),
            ConversationState::Opened => String::from_str("OPENED"),
            ConversationState::Closed => String::from_str("CLOSED"),
            ConversationState::Snoozed => String::from_str("SNOOZED"),
            ConversationState::Spam => String::from_str("SPAM"),
            ConversationState::Deleted => String::from_str("DELETED"),
        }
    }
}

} // verus!

verus! {

/// An agent of the helpdesk, as an assignee.
#[derive(Debug, Clone)]
pub struct Agent {
    pub id: String,
    pub email: String,
    pub name: Option<String>,
}

/// The customer side of a conversation.
#[derive(Debug, Clone)]
pub struct Contact {
    pub id: String,
    pub email: Option<String>,
    pub name: Option<String>,
}

/// The channel a conversation came in through.
#[derive(Debug, Clone)]
pub struct Channel {
    pub id: String,
    pub name: Option<String>,
}

/// A label that conversations carry.
#[derive(Debug, Clone)]
pub struct Tag {
    pub id: String,
    pub name: String,
    pub color: Option<String>,
}

/// A folder of the inbox.
#[derive(Debug, Clone)]
pub struct Folder {
    pub id: String,
    pub name: String,
}

/// The assignment of a conversation, which may name an agent.
#[derive(Debug, Clone)]
pub struct Assignment {
    pub agent: Option<Agent>,
}

/// A list of tags as the service nests it.
#[derive(Debug, Clone)]
pub struct TagConnection {
    pub nodes: Vec<Tag>,
}

/// A conversation; `number` is what people type, `id` what mutations take.
/// Times are seconds since the Unix epoch, UTC.
#[derive(Debug, Clone)]
pub struct Conversation {
    pub id: String,
    pub number: i64,
    pub subject: Option<String>,
    pub state: ConversationState,
    pub created_at: i64,
    pub updated_at: i64,
    pub assigned: Option<Agent>,
    pub channel: Option<Channel>,
    pub contact: Option<Contact>,
    pub tags: Vec<Tag>,
}

/// The author of a message: an agent or a contact, told apart by `typename`.
#[derive(Debug, Clone)]
pub struct MessageAuthor {
    pub typename: Option<String>,
    pub id: String,
    pub email: Option<String>,
    pub name: Option<String>,
}

/// What kind of party wrote a message.
#[derive(Debug, Clone, Copy, PartialEq, Eq, Structural)]
pub enum AuthorKind {
    Agent,
    Contact,
    Unknown,
}

/// The kind a type tag names; an absent or unrecognised tag is `Unknown`.
pub open spec fn author_kind_of(typename: Option<Seq<char>>) -> AuthorKind {
    match typename {
        Some(t) => if t == "Agent"@ {
            AuthorKind::Agent
        } else if t == "Contact"@ {
            AuthorKind::Contact
        } else {
            AuthorKind::Unknown
        },
        None => AuthorKind::Unknown,
    }
}

/// The view of an optional string.
pub open spec fn opt_view(s: Option<String>) -> Option<Seq<char>> {
    match s {
        Some(t) => Some(t@),
        None => None,
    }
}

impl MessageAuthor {
    /// Which party this is, from the type tag.
    pub fn kind(&self) -> (r: AuthorKind)
        ensures
            r == author_kind_of(opt_view(self.typename)),
    {
        match &self.typename {
            Some(t) => {
                if *t == String::from_str("Agent") {
                    AuthorKind::Agent
                } else if *t == String::from_str("Contact") {
                    AuthorKind::Contact
                } else {
                    AuthorKind::Unknown
                }
            },
            None => AuthorKind::Unknown,
        }
    }
}

/// One message of a conversation; `created_at` in seconds since the epoch.
#[derive(Debug, Clone)]
pub struct Message {
    pub id: String,
    pub created_at: i64,
    pub body_text: Option<String>,
    pub body_html: Option<String>,
    pub author: Option<MessageAuthor>,
}

/// A stored reply template.
#[derive(Debug, Clone)]
pub struct CannedReply {
    pub id: String,
    pub name: String,
    pub subject: Option<String>,
    pub body: Option<String>,
}

/// The agent the token belongs to.
#[derive(Debug, Clone)]
pub struct CurrentAgent {
    pub id: String,
    pub email: String,
    pub name: Option<String>,
    pub role: Option<String>,
}

/// Where a page of a list ends and whether another follows.
#[derive(Debug, Clone)]
pub struct PageInfo {
    pub has_next_page: bool,
    pub end_cursor: Option<String>,
}

/// One page of conversations with the total that match.
#[derive(Debug, Clone)]
pub struct ConversationsResponse {
    pub nodes: Vec<Conversation>,
    pub page_info: PageInfo,
    pub total_count: i32,
}

} // verus!
