//! How an answer of the GraphQL endpoint becomes a typed result: status
//! codes first, then the top-level error list, then the data; and how the
//! error list that each mutation carries is read.

use vstd::prelude::*;
use vstd::string::StringExecFns;
use crate::error::GrooveError;
use crate::text::{joined, unsigned_decimal_value, parse_u64};

verus! {

/// The status with which the service asks a client to slow down.
pub const STATUS_TOO_MANY_REQUESTS: u16 = 429;

/// The status with which the service rejects a token.
pub const STATUS_UNAUTHORIZED: u16 = 401;

/// One entry of an `errors` list: the service's message.
#[derive(Debug, Clone)]
pub struct GraphQLError {
    pub message: String,
}

/// The decoded body of an answer: `data` and the top-level `errors`.
#[derive(Debug, Clone)]
pub struct GraphQLResponse<T> {
    pub data: Option<T>,
    pub errors: Option<Vec<GraphQLError>>,
}

/// The `errors` list that a mutation's own payload carries.
#[derive(Debug, Clone)]
pub struct MutationResult {
    pub errors: Vec<GraphQLError>,
}

/// The messages of an error list, in order.
pub open spec fn messages(errs: Seq<GraphQLError>) -> Seq<Seq<char>> {
    errs.map_values(|e: GraphQLError| e.message@)
}

/// The messages of an error list joined with "; ".
pub open spec fn joined_messages(errs: Seq<GraphQLError>) -> Seq<char> {
    joined(messages(errs), "; "@)
}

/// The message given when an answer holds neither errors nor data.
pub open spec fn no_data_message() -> Seq<char> {
    "No data in response"@
}

/// The message given when the service rejects the token.
pub open spec fn auth_message() -> Seq<char> {
    "Invalid or expired token"@
}

/// The seconds a `Retry-After` header asks for: its text read as a `u64`,
/// or nothing when it is absent or not such a number.
pub open spec fn retry_after_of(header: Option<Seq<char>>) -> Option<u64> {
    match header {
        Some(h) => match unsigned_decimal_value(h) {
            Some(v) => if v <= u64::MAX { Some(v as u64) } else { None },
            None => None,
        },
        None => None,
    }
}

/// Whether a top-level error list is present and holds an entry.
pub open spec fn has_errors(errors: Option<Vec<GraphQLError>>) -> bool {
    match errors {
        Some(e) => e@.len() > 0,
        None => false,
    }
}

/// Joins the messages of an error list with "; ", in list order.
pub fn join_messages(errs: &Vec<GraphQLError>) -> (r: String)
    ensures
        r@ == joined_messages(errs@),
{
    let mut r = String::new();
    let mut i: usize = 0;
    while i < errs.len()
        invariant
            i <= errs.len(),
            r@ == joined(messages(errs@).take(i as int), "; "@),
        decreases errs.len() - i,
    {
        proof {
            assert(messages(errs@).take(i + 1).drop_last() =~= messages(errs@).take(i as int));
        }
        if i > 0 {
            r.append("; ");
        }
        r.append(errs[i].message.as_str());
        i = i + 1;
        proof {
            if i == 1 {
                assert(r@ =~= messages(errs@).take(1)[0]);
            }
        }
    }
    assert(messages(errs@).take(errs.len() as int) =~= messages(errs@));
    r
}

/// Reads the seconds of a `Retry-After` header.
pub fn retry_after(header: Option<&str>) -> (r: Option<u64>)
    ensures
        r == retry_after_of(match header { Some(h) => Some(h@), None => None }),
{
    match header {
        Some(h) => parse_u64(h),
        None => None,
    }
}

/// The failure that the status code alone decides: a rate limit for 429,
/// a rejected token for 401, nothing for any other status.
pub fn status_failure(status: u16, retry_after_header: Option<&str>) -> (r: Option<GrooveError>)
    ensures
        status == STATUS_TOO_MANY_REQUESTS ==> r == Some(GrooveError::RateLimited {
            retry_after: retry_after_of(match retry_after_header { Some(h) => Some(h@), None => None }),
        }),
        status == STATUS_UNAUTHORIZED ==> (r matches Some(GrooveError::AuthError(m)) && m@ == auth_message()),
        status != STATUS_TOO_MANY_REQUESTS && status != STATUS_UNAUTHORIZED ==> r is None,
{
    if status == STATUS_TOO_MANY_REQUESTS {
        Some(GrooveError::RateLimited { retry_after: retry_after(retry_after_header) })
    } else if status == STATUS_UNAUTHORIZED {
        Some(GrooveError::AuthError(String::from_str("Invalid or expired token")))
    } else {
        None
    }
}

/// Reads a decoded body: its joined error messages when the error list holds
/// any, else its data, else a "no data" failure.
pub fn envelope_result<T>(body: GraphQLResponse<T>) -> (r: Result<T, GrooveError>)
    ensures
        has_errors(body.errors) ==> (r matches Err(GrooveError::GraphQL(m))
            && m@ == joined_messages(body.errors->0@)),
        !has_errors(body.errors) && body.data is Some ==> r == Ok::<T, GrooveError>(body.data->0),
        !has_errors(body.errors) && body.data is None ==> (r matches Err(GrooveError::GraphQL(m))
            && m@ == no_data_message()),
{
    if let Some(errs) = &body.errors {
        if errs.len() > 0 {
            return Err(GrooveError::GraphQL(join_messages(errs)));
        }
    }
    match body.data {
        Some(d) => Ok(d),
        None => Err(GrooveError::GraphQL(String::from_str("No data in response"))),
    }
}

/// The outcome of one request from the status, the `Retry-After` header and
/// the decoded body: 429 and 401 decide whatever the body holds; otherwise
/// the body's errors, data or lack of data do.
pub fn classify_response<T>(status: u16, retry_after_header: Option<&str>, body: GraphQLResponse<T>) -> (r: Result<T, GrooveError>)
    ensures
        status == STATUS_TOO_MANY_REQUESTS ==> r == Err::<T, GrooveError>(GrooveError::RateLimited {
            retry_after: retry_after_of(match retry_after_header { Some(h) => Some(h@), None => None }),
        }),
        status == STATUS_UNAUTHORIZED ==> (r matches Err(GrooveError::AuthError(m)) && m@ == auth_message()),
        status != STATUS_TOO_MANY_REQUESTS && status != STATUS_UNAUTHORIZED ==> {
            &&& has_errors(body.errors) ==> (r matches Err(GrooveError::GraphQL(m))
                && m@ == joined_messages(body.errors->0@))
            &&& !has_errors(body.errors) && body.data is Some ==> r == Ok::<T, GrooveError>(body.data->0)
            &&& !has_errors(body.errors) && body.data is None ==> (r matches Err(GrooveError::GraphQL(m))
                && m@ == no_data_message())
        },
{
    match status_failure(status, retry_after_header) {
        Some(e) => Err(e),
        None => envelope_result(body),
    }
}

impl MutationResult {
    /// Success when the mutation's own error list is empty; otherwise its
    /// messages joined with "; ".
    pub fn into_result(self) -> (r: Result<(), GrooveError>)
        ensures
            self.errors@.len() == 0 ==> r is Ok,
            self.errors@.len() > 0 ==> (r matches Err(GrooveError::GraphQL(m))
                && m@ == joined_messages(self.errors@)),
    {
        if self.errors.len() == 0 {
            Ok(())
        } else {
            Err(GrooveError::GraphQL(join_messages(&self.errors)))
        }
    }
}

/// The outcome of several mutation payloads read in turn: the first that
/// carries errors decides, else success.
pub fn mutations_result(results: Vec<MutationResult>) -> (r: Result<(), GrooveError>)
    ensures
        (forall|i: int| 0 <= i < results@.len() ==> (#[trigger] results@[i]).errors@.len() == 0) <==> r is Ok,
        r is Err ==> exists|i: int| 0 <= i < results@.len()
            && (#[trigger] results@[i]).errors@.len() > 0
            && (forall|j: int| 0 <= j < i ==> (#[trigger] results@[j]).errors@.len() == 0)
            && (r matches Err(GrooveError::GraphQL(m)) && m@ == joined_messages(results@[i].errors@)),
{
    let mut i: usize = 0;
    while i < results.len()
        invariant
            i <= results.len(),
            forall|j: int| 0 <= j < i ==> (#[trigger] results@[j]).errors@.len() == 0,
        decreases results.len() - i,
    {
        if results[i].errors.len() > 0 {
            return Err(GrooveError::GraphQL(join_messages(&results[i].errors)));
        }
        i = i + 1;
    }
    Ok(())
}

} // verus!
