use crate::events::network::{Request, RequestView};
use chrono::{DateTime, Utc};
use vstd::prelude::*;
use vstd::string::StringExecFns;

verus! {

/// The text of the instant that lies `seconds` seconds and `nanoseconds`
/// nanoseconds after the start of 1970 in UTC, written as date, `T`, time of
/// day, fraction of the second and `Z`; None for an instant that has no
/// calendar date or no such nanosecond.
pub uninterp spec fn timestamp_text(seconds: i64, nanoseconds: u32) -> Option<Seq<char>>;

/// Writes an instant as text, with `DateTime::<Utc>::from_timestamp` and
/// `DateTime::format` of chrono. The contract claims that the text depends on
/// the two numbers alone, and gives it the name `timestamp_text`; it claims
/// nothing of what the text holds.
#[verifier::external_body]
fn format_timestamp(seconds: i64, nanoseconds: u32) -> (res: Option<String>)
    ensures
        res.deep_view() == timestamp_text(seconds, nanoseconds),
{
    match DateTime::<Utc>::from_timestamp(seconds, nanoseconds) {
        Some(instant) => Some(instant.format("%Y-%m-%dT%H:%M:%S%.fZ").to_string()),
        None => None,
    }
}

/// The query parameters that narrow a request: none for the current user,
/// the workspace for its projects, the project for its tasks, and for the
/// tasks of a user the assignee, the workspace and the instant since which a
/// task may be completed and still be listed.
pub open spec fn query_of(request: RequestView, completed_since: Seq<char>) -> Seq<
    (Seq<char>, Seq<char>),
> {
    match request {
        RequestView::Me => Seq::empty(),
        RequestView::Projects { workspace_gid } => seq![("workspace"@, workspace_gid)],
        RequestView::MyTasks { user_gid, workspace_gid } => seq![
            ("assignee"@, user_gid),
            ("workspace"@, workspace_gid),
            ("completed_since"@, completed_since),
        ],
        RequestView::ProjectTasks { project_gid } => seq![("project"@, project_gid)],
    }
}

/// The query parameters of a request made at the given instant: those of
/// `query_of` with the instant's text, and none at all where the request is
/// for the tasks of a user and the instant cannot be written.
pub open spec fn query_at_of(request: RequestView, seconds: i64, nanoseconds: u32) -> Option<
    Seq<(Seq<char>, Seq<char>)>,
> {
    match request {
        RequestView::MyTasks { user_gid, workspace_gid } => match timestamp_text(
            seconds,
            nanoseconds,
        ) {
            Some(text) => Some(query_of(request, text)),
            None => None,
        },
        _ => Some(query_of(request, Seq::empty())),
    }
}

/// A query parameter.
fn param(key: &str, value: &str) -> (res: (String, String))
    ensures
        res.deep_view() == (key@, value@),
{
    (String::from_str(key), String::from_str(value))
}

/// Returns the query parameters of a request, given the text of the instant
/// since which a task may be completed and still be listed.
pub fn query(request: &Request, completed_since: &str) -> (res: Vec<(String, String)>)
    ensures
        res.deep_view() == query_of(request@, completed_since@),
{
    let mut params: Vec<(String, String)> = Vec::new();
    match request {
        Request::Me => {},
        Request::Projects { workspace_gid } => {
            params.push(param("workspace", workspace_gid.as_str()));
        },
        Request::MyTasks { user_gid, workspace_gid } => {
            params.push(param("assignee", user_gid.as_str()));
            params.push(param("workspace", workspace_gid.as_str()));
            params.push(param("completed_since", completed_since));
        },
        Request::ProjectTasks { project_gid } => {
            params.push(param("project", project_gid.as_str()));
        },
    }
    assert(params.deep_view() =~= query_of(request@, completed_since@));
    params
}

/// Returns the query parameters of a request made at the instant that lies
/// `seconds` seconds and `nanoseconds` nanoseconds after the start of 1970 in
/// UTC, so that the tasks of a user are those not completed before the
/// request. Returns None where the instant is needed and cannot be written.
pub fn query_at(request: &Request, seconds: i64, nanoseconds: u32) -> (res: Option<
    Vec<(String, String)>,
>)
    ensures
        res.deep_view() == query_at_of(request@, seconds, nanoseconds),
{
    match request {
        Request::MyTasks { .. } => match format_timestamp(seconds, nanoseconds) {
            Some(text) => Some(query(request, text.as_str())),
            None => None,
        },
        _ => Some(query(request, "")),
    }
}

} // verus!
