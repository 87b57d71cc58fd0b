//! The text of a notification.

use crate::event::{GitlabEvent, GitlabEventView};
use vstd::prelude::*;
use vstd::string::StringExecFns;

verus! {

/// What stands between the project and the branch.
pub open spec fn project_separator() -> Seq<char> {
    seq![' ', ':', ' ']
}

/// What stands between the branch, the commit's message and its URL.
pub open spec fn field_separator() -> Seq<char> {
    seq![' ', '-', ' ']
}

/// The one line of a notification: project, branch, message and URL of a
/// commit, in this order.
pub open spec fn summary_line(
    project: Seq<char>,
    branch: Seq<char>,
    message: Seq<char>,
    url: Seq<char>,
) -> Seq<char> {
    project + project_separator() + branch + field_separator() + message + field_separator() + url
}

/// The notification for `event`: the summary line of its project, its branch
/// and its first commit. An event without commits has none.
pub open spec fn notification(event: GitlabEventView) -> Option<Seq<char>> {
    if event.commits.len() == 0 {
        None
    } else {
        Some(
            summary_line(
                event.project.name,
                event.branch_name(),
                event.commits[0].message,
                event.commits[0].url,
            ),
        )
    }
}

/// Why an event has no notification.
#[derive(Debug, Clone, Copy, PartialEq, Eq, Structural)]
pub enum ComposeError {
    /// The event holds no commit.
    NoCommits,
}

/// Composes the notification for `event`: the summary line of its project,
/// its branch and its first commit. It fails on an event without commits,
/// and on no other.
pub fn compose(event: &GitlabEvent) -> (composed: Result<String, ComposeError>)
    ensures
        composed is Err <==> event@.commits.len() == 0,
        composed is Err ==> composed == Err::<String, ComposeError>(ComposeError::NoCommits),
        composed is Ok ==> composed->Ok_0@ == summary_line(
            event@.project.name,
            event@.branch_name(),
            event@.commits[0].message,
            event@.commits[0].url,
        ),
        match composed {
            Ok(text) => notification(event@) == Some(text@),
            Err(_) => notification(event@) is None,
        },
{
    match event.first_commit() {
        None => Err(ComposeError::NoCommits),
        Some(commit) => {
            proof {
                reveal_strlit(" : ");
                reveal_strlit(" - ");
                assert(" : "@ =~= project_separator());
                assert(" - "@ =~= field_separator());
            }
            let mut text: String = String::new();
            text.append(event.project.name.as_str());
            text.append(" : ");
            text.append(event.branch_name());
            text.append(" - ");
            text.append(commit.message.as_str());
            text.append(" - ");
            text.append(commit.url.as_str());
            assert(text@ =~= summary_line(
                event@.project.name,
                event@.branch_name(),
                commit@.message,
                commit@.url,
            ));
            Ok(text)
        },
    }
}

} // verus!
