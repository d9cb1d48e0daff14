//! Turning the names people type (tags, agents, canned replies) into the IDs
//! that mutations take.

use vstd::prelude::*;
use vstd::string::StringExecFns;
use crate::error::GrooveError;
use crate::text::{ascii_lower, eq_ascii_folded, eq_ignore_ascii_case};
use crate::types::{Agent, CannedReply, Tag};

verus! {

/// Whether a tag answers to a name, ignoring ASCII case.
pub open spec fn tag_matches(t: Tag, name: Seq<char>) -> bool {
    eq_ascii_folded(t.name@, name)
}

/// The first tag at or after `start` that answers to `name`.
pub open spec fn first_tag_from(tags: Seq<Tag>, name: Seq<char>, start: int) -> Option<int>
    decreases tags.len() - start,
{
    if start < 0 || start >= tags.len() {
        None
    } else if tag_matches(tags[start], name) {
        Some(start)
    } else {
        first_tag_from(tags, name, start + 1)
    }
}

/// The first tag that answers to `name`.
pub open spec fn first_tag(tags: Seq<Tag>, name: Seq<char>) -> Option<int> {
    first_tag_from(tags, name, 0)
}

/// Whether an agent answers to an identifier: its exact email or its name.
pub open spec fn agent_matches(a: Agent, ident: Seq<char>) -> bool {
    a.email@ == ident || (a.name is Some && a.name->0@ == ident)
}

/// The first agent at or after `start` that answers to `ident`.
pub open spec fn first_agent_from(agents: Seq<Agent>, ident: Seq<char>, start: int) -> Option<int>
    decreases agents.len() - start,
{
    if start < 0 || start >= agents.len() {
        None
    } else if agent_matches(agents[start], ident) {
        Some(start)
    } else {
        first_agent_from(agents, ident, start + 1)
    }
}

/// The first agent that answers to `ident`.
pub open spec fn first_agent(agents: Seq<Agent>, ident: Seq<char>) -> Option<int> {
    first_agent_from(agents, ident, 0)
}

/// Whether a canned reply answers to a key: its name ignoring ASCII case, or
/// its exact ID.
pub open spec fn canned_matches(c: CannedReply, key: Seq<char>) -> bool {
    eq_ascii_folded(c.name@, key) || c.id@ == key
}

/// The first canned reply at or after `start` that answers to `key`.
pub open spec fn first_canned_from(replies: Seq<CannedReply>, key: Seq<char>, start: int) -> Option<int>
    decreases replies.len() - start,
{
    if start < 0 || start >= replies.len() {
        None
    } else if canned_matches(replies[start], key) {
        Some(start)
    } else {
        first_canned_from(replies, key, start + 1)
    }
}

/// The first canned reply that answers to `key`.
pub open spec fn first_canned(replies: Seq<CannedReply>, key: Seq<char>) -> Option<int> {
    first_canned_from(replies, key, 0)
}

/// Whether every name has a tag that answers to it.
pub open spec fn all_tags_known(names: Seq<String>, tags: Seq<Tag>) -> bool {
    forall|k: int| 0 <= k < names.len() ==> (#[trigger] first_tag(tags, names[k]@)) is Some
}

proof fn lemma_first_from_bounds_agent(agents: Seq<Agent>, ident: Seq<char>, start: int)
    requires
        0 <= start,
    ensures
        first_agent_from(agents, ident, start) matches Some(i) ==> start <= i < agents.len(),
    decreases agents.len() - start,
{
    if start < agents.len() && !agent_matches(agents[start], ident) {
        lemma_first_from_bounds_agent(agents, ident, start + 1);
    }
}

proof fn lemma_first_from_bounds_canned(replies: Seq<CannedReply>, key: Seq<char>, start: int)
    requires
        0 <= start,
    ensures
        first_canned_from(replies, key, start) matches Some(i) ==> start <= i < replies.len(),
    decreases replies.len() - start,
{
    if start < replies.len() && !canned_matches(replies[start], key) {
        lemma_first_from_bounds_canned(replies, key, start + 1);
    }
}

proof fn lemma_first_from_bounds_tag(tags: Seq<Tag>, name: Seq<char>, start: int)
    requires
        0 <= start,
    ensures
        first_tag_from(tags, name, start) matches Some(i) ==> start <= i < tags.len()
            && tag_matches(tags[i], name),
    decreases tags.len() - start,
{
    if start < tags.len() && !tag_matches(tags[start], name) {
        lemma_first_from_bounds_tag(tags, name, start + 1);
    }
}

proof fn lemma_first_tag_from_folded(tags: Seq<Tag>, a: Seq<char>, b: Seq<char>, start: int)
    requires
        eq_ascii_folded(a, b),
    ensures
        first_tag_from(tags, a, start) == first_tag_from(tags, b, start),
    decreases tags.len() - start,
{
    if 0 <= start < tags.len() {
        let t = tags[start].name@;
        if tag_matches(tags[start], a) {
            assert forall|i: int| 0 <= i < t.len() implies ascii_lower(#[trigger] t[i]) == ascii_lower(b[i]) by {
                assert(ascii_lower(t[i]) == ascii_lower(a[i]));
                assert(ascii_lower(a[i]) == ascii_lower(b[i]));
            }
        } else if tag_matches(tags[start], b) {
            assert forall|i: int| 0 <= i < t.len() implies ascii_lower(#[trigger] t[i]) == ascii_lower(a[i]) by {
                assert(ascii_lower(t[i]) == ascii_lower(b[i]));
                assert(ascii_lower(a[i]) == ascii_lower(b[i]));
            }
        } else {
            lemma_first_tag_from_folded(tags, a, b, start + 1);
        }
    }
}

/// Tag lookup ignores letter case: two names that differ only in the case
/// of ASCII letters find the same tag, or both find none. So resolving
/// "urgent" and "URGENT" yields the same ID twice.
pub proof fn lemma_tag_lookup_ignores_case(tags: Seq<Tag>, a: Seq<char>, b: Seq<char>)
    requires
        eq_ascii_folded(a, b),
    ensures
        first_tag(tags, a) == first_tag(tags, b),
{
    lemma_first_tag_from_folded(tags, a, b, 0);
}

/// Finds the first tag that answers to `name`, ignoring ASCII case.
pub fn find_tag(tags: &Vec<Tag>, name: &str) -> (r: Option<usize>)
    ensures
        r matches Some(i) ==> first_tag(tags@, name@) == Some(i as int),
        r is None ==> first_tag(tags@, name@) is None,
        r matches Some(i) ==> i < tags@.len() && tag_matches(tags@[i as int], name@),
{
    let mut i: usize = 0;
    while i < tags.len()
        invariant
            i <= tags.len(),
            first_tag(tags@, name@) == first_tag_from(tags@, name@, i as int),
        decreases tags.len() - i,
    {
        if eq_ignore_ascii_case(tags[i].name.as_str(), name) {
            return Some(i);
        }
        i = i + 1;
    }
    None
}

/// Resolves every tag name to the ID of the first tag that answers to it,
/// ignoring ASCII case. All or nothing: the first name that no tag answers
/// to fails the whole list.
pub fn resolve_tag_ids(tag_names: &Vec<String>, all_tags: &Vec<Tag>) -> (r: Result<Vec<String>, GrooveError>)
    ensures
        r is Ok <==> all_tags_known(tag_names@, all_tags@),
        r matches Ok(ids) ==> ids@.len() == tag_names@.len() && forall|k: int| 0 <= k < ids@.len()
            ==> (#[trigger] ids@[k])@ == all_tags@[first_tag(all_tags@, tag_names@[k]@)->0].id@,
        r matches Err(e) ==> exists|k: int| 0 <= k < tag_names@.len()
            && first_tag(all_tags@, (#[trigger] tag_names@[k])@) is None
            && (forall|j: int| 0 <= j < k ==> (#[trigger] first_tag(all_tags@, tag_names@[j]@)) is Some)
            && (e matches GrooveError::TagNotFound(n) && n@ == tag_names@[k]@),
{
    let mut ids: Vec<String> = Vec::new();
    let mut k: usize = 0;
    while k < tag_names.len()
        invariant
            k <= tag_names.len(),
            ids@.len() == k,
            forall|j: int| 0 <= j < k ==> (#[trigger] first_tag(all_tags@, tag_names@[j]@)) is Some,
            forall|j: int| 0 <= j < k
                ==> (#[trigger] ids@[j])@ == all_tags@[first_tag(all_tags@, tag_names@[j]@)->0].id@,
        decreases tag_names.len() - k,
    {
        proof {
            lemma_first_from_bounds_tag(all_tags@, tag_names@[k as int]@, 0);
        }
        match find_tag(all_tags, tag_names[k].as_str()) {
            Some(i) => {
                let id = all_tags[i].id.clone();
                let ghost before = ids@;
                ids.push(id);
                assert(ids@[k as int] == id);
                assert forall|j: int| 0 <= j < k + 1
                    implies (#[trigger] ids@[j])@ == all_tags@[first_tag(all_tags@, tag_names@[j]@)->0].id@ by {
                    if j < k {
                        assert(ids@[j] == before[j]);
                    }
                }
            },
            None => {
                return Err(GrooveError::TagNotFound(tag_names[k].clone()));
            },
        }
        k = k + 1;
    }
    Ok(ids)
}

/// Finds the first agent whose email equals `ident` or whose name does.
pub fn find_agent(agents: &Vec<Agent>, ident: &str) -> (r: Option<usize>)
    ensures
        r matches Some(i) ==> first_agent(agents@, ident@) == Some(i as int),
        r is None ==> first_agent(agents@, ident@) is None,
        r matches Some(i) ==> i < agents@.len(),
{
    let key = String::from_str(ident);
    let mut i: usize = 0;
    while i < agents.len()
        invariant
            i <= agents.len(),
            key@ == ident@,
            first_agent(agents@, ident@) == first_agent_from(agents@, ident@, i as int),
        decreases agents.len() - i,
    {
        let a = &agents[i];
        let by_name = match &a.name {
            Some(n) => *n == key,
            None => false,
        };
        if a.email == key || by_name {
            return Some(i);
        }
        i = i + 1;
    }
    None
}

/// The ID of the first agent whose email or name equals `ident`.
pub fn resolve_agent_id(agents: &Vec<Agent>, ident: &str) -> (r: Result<String, GrooveError>)
    ensures
        first_agent(agents@, ident@) matches Some(i) ==> (r matches Ok(id) && id@ == agents@[i].id@),
        first_agent(agents@, ident@) is None ==> (r matches Err(GrooveError::AgentNotFound(n)) && n@ == ident@),
{
    proof {
        lemma_first_from_bounds_agent(agents@, ident@, 0);
    }
    match find_agent(agents, ident) {
        Some(i) => Ok(agents[i].id.clone()),
        None => Err(GrooveError::AgentNotFound(String::from_str(ident))),
    }
}

/// Finds the first canned reply whose name equals `key` ignoring ASCII case,
/// or whose ID equals it exactly.
pub fn find_canned_reply(replies: &Vec<CannedReply>, key: &str) -> (r: Option<usize>)
    ensures
        r matches Some(i) ==> first_canned(replies@, key@) == Some(i as int),
        r is None ==> first_canned(replies@, key@) is None,
        r matches Some(i) ==> i < replies@.len(),
{
    let k = String::from_str(key);
    let mut i: usize = 0;
    while i < replies.len()
        invariant
            i <= replies.len(),
            k@ == key@,
            first_canned(replies@, key@) == first_canned_from(replies@, key@, i as int),
        decreases replies.len() - i,
    {
        if eq_ignore_ascii_case(replies[i].name.as_str(), key) || replies[i].id == k {
            return Some(i);
        }
        i = i + 1;
    }
    None
}

/// The body a reply sends when it starts from a canned reply: the canned body
/// (empty when it has none), then a blank line and the extra text if any.
pub open spec fn merged_body(canned: Option<Seq<char>>, extra: Option<Seq<char>>) -> Seq<char> {
    let base = match canned {
        Some(b) => b,
        None => Seq::empty(),
    };
    match extra {
        Some(x) => base + "\n\n"@ + x,
        None => base,
    }
}

/// Puts a canned body and optional extra text together.
pub fn merge_canned_body(canned: &Option<String>, extra: &Option<String>) -> (r: String)
    ensures
        r@ == merged_body(
            match canned { Some(b) => Some(b@), None => None },
            match extra { Some(x) => Some(x@), None => None },
        ),
{
    let mut body = match canned {
        Some(b) => b.clone(),
        None => String::new(),
    };
    if let Some(x) = extra {
        body.append("\n\n");
        body.append(x.as_str());
    }
    body
}

/// The body of a reply built on the canned reply named `key`, with the extra
/// text appended; fails when no canned reply answers to `key`.
pub fn canned_reply_body(replies: &Vec<CannedReply>, key: &str, extra: &Option<String>) -> (r: Result<String, GrooveError>)
    ensures
        first_canned(replies@, key@) matches Some(i) ==> (r matches Ok(b) && b@ == merged_body(
            match replies@[i].body { Some(b) => Some(b@), None => None },
            match extra { Some(x) => Some(x@), None => None },
        )),
        first_canned(replies@, key@) is None ==> (r matches Err(GrooveError::CannedReplyNotFound(n)) && n@ == key@),
{
    proof {
        lemma_first_from_bounds_canned(replies@, key@, 0);
    }
    match find_canned_reply(replies, key) {
        Some(i) => Ok(merge_canned_body(&replies[i].body, extra)),
        None => Err(GrooveError::CannedReplyNotFound(String::from_str(key))),
    }
}

} // verus!
