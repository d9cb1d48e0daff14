//! The commands a person can give, as plain data, and the small decisions
//! of how results are shown.

use vstd::prelude::*;
use vstd::string::StringExecFns;
use crate::text::{decimal_text, int_text, lower_of, lowercase, truncate, truncated};
use crate::types::{opt_view, Conversation, ConversationState};

verus! {

/// What can be done to conversations.
#[derive(Debug, Clone, PartialEq, Eq)]
pub enum ConversationAction {
    List {
        status: Option<String>,
        folder: Option<String>,
        search: Option<String>,
        limit: Option<u32>,
        after: Option<String>,
    },
    View { number: i64, full: bool },
    Reply { number: i64, body: Option<String>, canned: Option<String> },
    Close { numbers: Vec<i64> },
    Open { numbers: Vec<i64> },
    Snooze { number: i64, duration: String },
    Assign { number: i64, agent: String },
    Unassign { numbers: Vec<i64> },
    AddTag { number: i64, tags: Vec<String> },
    RemoveTag { number: i64, tags: Vec<String> },
    Note { number: i64, body: Option<String> },
}

/// What can be done to folders.
#[derive(Debug, Clone, Copy, PartialEq, Eq)]
pub enum FolderAction {
    List,
}

/// What can be done to tags.
#[derive(Debug, Clone, Copy, PartialEq, Eq)]
pub enum TagAction {
    List,
}

/// What can be done to canned replies.
#[derive(Debug, Clone, PartialEq, Eq)]
pub enum CannedRepliesAction {
    List,
    Show { name: String },
}

/// What can be done to the configuration.
#[derive(Debug, Clone, PartialEq, Eq)]
pub enum ConfigAction {
    Init,
    Show,
    SetToken { token: String },
    Path,
}

/// How results are printed.
#[derive(Debug, Clone, Copy, PartialEq, Eq, Structural)]
pub enum OutputFormat {
    Table,
    Json,
    Compact,
}

impl Default for OutputFormat {
    fn default() -> (r: OutputFormat)
        ensures
            r == OutputFormat::Table,
    {
        OutputFormat::Table
    }
}

/// The format a name denotes once lower-cased, if any.
pub open spec fn format_named(lowered: Seq<char>) -> Option<OutputFormat> {
    if lowered == "table"@ {
        Some(OutputFormat::Table)
    } else if lowered == "json"@ {
        Some(OutputFormat::Json)
    } else if lowered == "compact"@ {
        Some(OutputFormat::Compact)
    } else {
        None
    }
}

impl OutputFormat {
    /// Reads a format from a lower-cased name.
    pub fn from_lowered(lowered: &String) -> (r: Option<OutputFormat>)
        ensures
            r == format_named(lowered@),
    {
        if *lowered == String::from_str("table") {
            Some(OutputFormat::Table)
        } else if *lowered == String::from_str("json") {
            Some(OutputFormat::Json)
        } else if *lowered == String::from_str("compact") {
            Some(OutputFormat::Compact)
        } else {
            None
        }
    }

    /// Reads a format name in any letter case.
    pub fn from_str(s: &str) -> (r: Result<OutputFormat, String>)
        ensures
            format_named(lower_of(s@)) matches Some(f) ==> r == Ok::<OutputFormat, String>(f),
            format_named(lower_of(s@)) is None ==> (r matches Err(m)
                && m@ == "Invalid format: "@ + s@ + ". Use table, json, or compact"@),
    {
        let lowered = lowercase(s);
        match OutputFormat::from_lowered(&lowered) {
            Some(f) => Ok(f),
            None => Err(String::from_str("Invalid format: ").concat(s).concat(". Use table, json, or compact")),
        }
    }
}

/// The format in force: the flag, else the configured name when it names a
/// format, else a table.
pub fn effective_format(flag: Option<OutputFormat>, configured: Option<&str>) -> (r: OutputFormat)
    ensures
        flag matches Some(f) ==> r == f,
        flag is None ==> r == (match configured {
            Some(c) => match format_named(lower_of(c@)) {
                Some(f) => f,
                None => OutputFormat::Table,
            },
            None => OutputFormat::Table,
        }),
{
    match flag {
        Some(f) => f,
        None => match configured {
            Some(c) => match OutputFormat::from_str(c) {
                Ok(f) => f,
                Err(_) => OutputFormat::Table,
            },
            None => OutputFormat::Table,
        },
    }
}

/// The display name of a state.
pub fn format_state(state: &ConversationState) -> (r: String)
    ensures
        r@ == crate::types::state_display(*state),
{
    state.display_name()
}

/// The colour a state is shown in.
pub open spec fn state_color(state: ConversationState) -> Seq<char> {
    match state {
        ConversationState::Unread => "yellow"@,
        ConversationState::Opened => "green"@,
        ConversationState::Closed => "white"@,
        ConversationState::Snoozed => "blue"@,
        ConversationState::Spam => "red"@,
        ConversationState::Deleted => "white"@,
    }
}

/// Names the colour a state is shown in.
pub fn state_color_str(state: &ConversationState) -> (r: &'static str)
    ensures
        r@ == state_color(*state),
{
    match state {
        ConversationState::Unread => "yellow",
        ConversationState::Opened => "green",
        ConversationState::Closed => "white",
        ConversationState::Snoozed => "blue",
        ConversationState::Spam => "red",
        ConversationState::Deleted => "white",
    }
}

/// How long ago something happened, in the largest whole unit below a week.
#[derive(Debug, Clone, Copy, PartialEq, Eq, Structural)]
pub enum RelativeTime {
    /// Less than a minute ago, or in the future.
    JustNow,
    MinutesAgo(i64),
    HoursAgo(i64),
    DaysAgo(i64),
    /// A week or more ago: shown as a calendar date.
    OnDate,
}

/// The label for `elapsed` seconds: whole minutes under an hour, whole hours
/// under a day, whole days under a week.
pub open spec fn relative_time_of(elapsed: int) -> RelativeTime {
    if elapsed < 60 {
        RelativeTime::JustNow
    } else if elapsed < 3600 {
        RelativeTime::MinutesAgo((elapsed / 60) as i64)
    } else if elapsed < 86400 {
        RelativeTime::HoursAgo((elapsed / 3600) as i64)
    } else if elapsed < 604800 {
        RelativeTime::DaysAgo((elapsed / 86400) as i64)
    } else {
        RelativeTime::OnDate
    }
}

/// Labels a time that lies `elapsed` seconds in the past.
pub fn relative_time(elapsed: i64) -> (r: RelativeTime)
    ensures
        r == relative_time_of(elapsed as int),
{
    if elapsed < 60 {
        RelativeTime::JustNow
    } else if elapsed < 3600 {
        RelativeTime::MinutesAgo(elapsed / 60)
    } else if elapsed < 86400 {
        RelativeTime::HoursAgo(elapsed / 3600)
    } else if elapsed < 604800 {
        RelativeTime::DaysAgo(elapsed / 86400)
    } else {
        RelativeTime::OnDate
    }
}

/// The words for a relative time; a date is written by the caller.
pub open spec fn relative_label(r: RelativeTime) -> Option<Seq<char>> {
    match r {
        RelativeTime::JustNow => Some("just now"@),
        RelativeTime::MinutesAgo(n) => Some(decimal_text(n as int) + "m ago"@),
        RelativeTime::HoursAgo(n) => Some(decimal_text(n as int) + "h ago"@),
        RelativeTime::DaysAgo(n) => Some(decimal_text(n as int) + "d ago"@),
        RelativeTime::OnDate => None,
    }
}

/// Words for a time `elapsed` seconds ago ("just now", "5m ago", "3h ago",
/// "2d ago"); none from a week on, where a calendar date is shown instead.
pub fn relative_time_label(elapsed: i64) -> (r: Option<String>)
    ensures
        opt_view(r) == relative_label(relative_time_of(elapsed as int)),
{
    match relative_time(elapsed) {
        RelativeTime::JustNow => Some(String::from_str("just now")),
        RelativeTime::MinutesAgo(n) => Some(int_text(n).concat("m ago")),
        RelativeTime::HoursAgo(n) => Some(int_text(n).concat("h ago")),
        RelativeTime::DaysAgo(n) => Some(int_text(n).concat("d ago")),
        RelativeTime::OnDate => None,
    }
}

/// The subject cell of a listing row: the subject, or "(no subject)", cut
/// to 40 characters.
pub fn subject_cell(conv: &Conversation) -> (r: String)
    ensures
        r@ == truncated(match conv.subject { Some(s) => s@, None => "(no subject)"@ }, 40),
{
    match &conv.subject {
        Some(s) => truncate(s.as_str(), 40),
        None => truncate("(no subject)", 40),
    }
}

/// Who a conversation is from: the contact's email, else its name, else
/// "unknown".
pub open spec fn contact_label(conv: Conversation) -> Seq<char> {
    match conv.contact {
        Some(c) => match c.email {
            Some(e) => e@,
            None => match c.name {
                Some(n) => n@,
                None => "unknown"@,
            },
        },
        None => "unknown"@,
    }
}

/// The sender cell of a listing row, cut to 25 characters.
pub fn contact_cell(conv: &Conversation) -> (r: String)
    ensures
        r@ == truncated(contact_label(*conv), 25),
{
    match &conv.contact {
        Some(c) => match &c.email {
            Some(e) => truncate(e.as_str(), 25),
            None => match &c.name {
                Some(n) => truncate(n.as_str(), 25),
                None => truncate("unknown", 25),
            },
        },
        None => truncate("unknown", 25),
    }
}

} // verus!
