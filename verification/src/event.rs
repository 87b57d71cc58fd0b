//! The push event as GitLab posts it, and its mathematical view.
//!
//! The notification reads the ref, the project's name and the first commit.
//! The other fields are carried as they came.

use crate::text::{final_segment, final_segment_of};
use vstd::prelude::*;

verus! {

/// One commit of a push.
#[derive(Debug, Clone, PartialEq, Eq)]
pub struct Commit {
    pub id: String,
    pub message: String,
    pub timestamp: String,
    pub url: String,
}

/// A commit, each text as the sequence of its characters.
pub struct CommitView {
    pub id: Seq<char>,
    pub message: Seq<char>,
    pub timestamp: Seq<char>,
    pub url: Seq<char>,
}

impl View for Commit {
    type V = CommitView;

    open spec fn view(&self) -> CommitView {
        CommitView {
            id: self.id@,
            message: self.message@,
            timestamp: self.timestamp@,
            url: self.url@,
        }
    }
}

/// The project that was pushed to.
#[derive(Debug, Clone, PartialEq, Eq)]
pub struct Project {
    pub id: u32,
    pub name: String,
    pub description: String,
    pub web_url: String,
    pub avatar_url: Option<String>,
    pub git_ssh_url: String,
    pub git_http_url: String,
    pub namespace: String,
    pub visibility_level: u32,
    pub path_with_namespace: String,
    pub default_branch: String,
    pub ci_config_path: Option<String>,
    pub homepage: String,
    pub url: String,
    pub ssh_url: String,
    pub http_url: String,
}

/// A project, each text as the sequence of its characters.
pub struct ProjectView {
    pub id: u32,
    pub name: Seq<char>,
    pub description: Seq<char>,
    pub web_url: Seq<char>,
    pub avatar_url: Option<Seq<char>>,
    pub git_ssh_url: Seq<char>,
    pub git_http_url: Seq<char>,
    pub namespace: Seq<char>,
    pub visibility_level: u32,
    pub path_with_namespace: Seq<char>,
    pub default_branch: Seq<char>,
    pub ci_config_path: Option<Seq<char>>,
    pub homepage: Seq<char>,
    pub url: Seq<char>,
    pub ssh_url: Seq<char>,
    pub http_url: Seq<char>,
}

/// The characters of a text that may be absent.
pub open spec fn optional_text(text: Option<String>) -> Option<Seq<char>> {
    match text {
        Some(t) => Some(t@),
        None => None,
    }
}

impl View for Project {
    type V = ProjectView;

    open spec fn view(&self) -> ProjectView {
        ProjectView {
            id: self.id,
            name: self.name@,
            description: self.description@,
            web_url: self.web_url@,
            avatar_url: optional_text(self.avatar_url),
            git_ssh_url: self.git_ssh_url@,
            git_http_url: self.git_http_url@,
            namespace: self.namespace@,
            visibility_level: self.visibility_level,
            path_with_namespace: self.path_with_namespace@,
            default_branch: self.default_branch@,
            ci_config_path: optional_text(self.ci_config_path),
            homepage: self.homepage@,
            url: self.url@,
            ssh_url: self.ssh_url@,
            http_url: self.http_url@,
        }
    }
}

/// The repository that was pushed to.
#[derive(Debug, Clone, PartialEq, Eq)]
pub struct Repository {
    pub name: String,
    pub url: String,
    pub description: String,
    pub homepage: String,
}

/// A repository, each text as the sequence of its characters.
pub struct RepositoryView {
    pub name: Seq<char>,
    pub url: Seq<char>,
    pub description: Seq<char>,
    pub homepage: Seq<char>,
}

impl View for Repository {
    type V = RepositoryView;

    open spec fn view(&self) -> RepositoryView {
        RepositoryView {
            name: self.name@,
            url: self.url@,
            description: self.description@,
            homepage: self.homepage@,
        }
    }
}

/// One push event. Nothing is asked of its content here: an event without
/// commits is an event, and is turned down where a notification is composed.
#[derive(Debug, Clone, PartialEq, Eq)]
pub struct GitlabEvent {
    pub object_kind: String,
    pub event_name: String,
    pub before: String,
    pub after: String,
    /// The full ref that was pushed to, such as `refs/heads/main`.
    pub ref_name: String,
    pub checkout_sha: String,
    pub message: Option<String>,
    pub user_id: u32,
    pub user_name: String,
    pub user_username: String,
    pub user_email: String,
    pub user_avatar: String,
    pub project_id: u32,
    pub project: Project,
    pub repository: Repository,
    /// The commits of the push, in the order in which they came.
    pub commits: Vec<Commit>,
    pub total_commits_count: u32,
}

/// A push event, each text as the sequence of its characters and the commits
/// as a sequence of views.
pub struct GitlabEventView {
    pub object_kind: Seq<char>,
    pub event_name: Seq<char>,
    pub before: Seq<char>,
    pub after: Seq<char>,
    pub ref_name: Seq<char>,
    pub checkout_sha: Seq<char>,
    pub message: Option<Seq<char>>,
    pub user_id: u32,
    pub user_name: Seq<char>,
    pub user_username: Seq<char>,
    pub user_email: Seq<char>,
    pub user_avatar: Seq<char>,
    pub project_id: u32,
    pub project: ProjectView,
    pub repository: RepositoryView,
    pub commits: Seq<CommitView>,
    pub total_commits_count: u32,
}

impl View for GitlabEvent {
    type V = GitlabEventView;

    open spec fn view(&self) -> GitlabEventView {
        GitlabEventView {
            object_kind: self.object_kind@,
            event_name: self.event_name@,
            before: self.before@,
            after: self.after@,
            ref_name: self.ref_name@,
            checkout_sha: self.checkout_sha@,
            message: optional_text(self.message),
            user_id: self.user_id,
            user_name: self.user_name@,
            user_username: self.user_username@,
            user_email: self.user_email@,
            user_avatar: self.user_avatar@,
            project_id: self.project_id,
            project: self.project@,
            repository: self.repository@,
            commits: self.commits@.map_values(|c: Commit| c@),
            total_commits_count: self.total_commits_count,
        }
    }
}

impl GitlabEventView {
    /// The branch that was pushed to: the final segment of the ref.
    pub open spec fn branch_name(self) -> Seq<char> {
        final_segment(self.ref_name)
    }
}

impl GitlabEvent {
    /// The branch that was pushed to: the final segment of the ref.
    pub fn branch_name(&self) -> (branch: &str)
        ensures
            branch@ == self@.branch_name(),
    {
        final_segment_of(self.ref_name.as_str())
    }

    /// The first commit of the push, where it has one.
    pub fn first_commit(&self) -> (first: Option<&Commit>)
        ensures
            self@.commits.len() == 0 ==> first is None,
            self@.commits.len() > 0 ==> first is Some && first->0@ == self@.commits[0],
    {
        if self.commits.len() == 0 {
            None
        } else {
            Some(&self.commits[0])
        }
    }
}

} // verus!
