//! Errors of the library: what went wrong, and the context it went wrong in.
use vstd::prelude::*;

use crate::text::chars_of;
use crate::text::decimal;
use crate::text::decimal_chars;
use crate::text::push_all;
use crate::text::join;
use crate::text::join_chars;
use crate::text::push_str;
use crate::text::string_of;
use crate::text::views;

verus! {

/// What went wrong.
#[derive(Debug)]
pub enum ErrorKind {
    /// git could not be started for `git {command}`; `cause` says why.
    GitSpawn { command: String, cause: String },
    /// `git {command}` exited unsuccessfully, writing `stderr`.
    GitFailed { command: String, stderr: String },
    /// git's output was not UTF-8.
    InvalidUtf8,
    /// The count of unpushed commits could not be read from `text`.
    CommitCountParse { text: String },
    /// Counting unpushed commits failed for another reason than a missing upstream.
    UnpushedCheckFailed { stderr: String },
    /// No default branch could be found for the remote `origin`.
    NoDefaultBranch,
    /// A protocol other than `ssh` or `https` was asked for.
    InvalidProtocol { value: String },
    /// The source string does not name GitHub.
    NotGitHubSource { source: String },
    /// The account in the source string is empty.
    InvalidAccountFormat { source: String },
    /// The source string has no closing parenthesis.
    MalformedSource { source: String },
    /// Local configuration was asked for without a repository path.
    LocalConfigNeedsPath,
    /// The repository directory has no `.git`.
    NotAGitRepository { name: String },
    /// The repository directory does not exist.
    RepositoryMissing { name: String, path: String },
    /// The repository path is not a directory.
    NotADirectory { name: String, path: String },
    /// An operating-system operation failed; `cause` says why.
    Io { cause: String },
    /// An operation was given a reply of another kind than it asked for.
    UnexpectedReply,
    /// A rebase was refused because the working tree has uncommitted changes.
    RebaseWithChanges,
    /// A rebase stopped on conflicts.
    RebaseConflict,
    /// At least one repository of the view failed to rebase.
    RebasesFailed,
    /// Committing failed in `repo`.
    CommitFailed { repo: String },
    /// Pushing failed in `repo`.
    PushFailed { repo: String },
    /// The current directory is not a view of a viewset.
    NotInView,
    /// Some repository could not be checked for its branch.
    BranchSyncErrors,
    /// Some repository is not on the view's branch.
    BranchSyncFailed,
    /// The repository at `index` of the configuration `file` has an empty name.
    EmptyRepoName { index: usize, file: String },
    /// The repository at `index` of the configuration `file` has an empty URL.
    EmptyRepoUrl { index: usize, name: String, file: String },
    /// The GitHub CLI is not authenticated.
    GhAuthFailed,
    /// The GitHub API rate limit was exceeded.
    GhRateLimited,
    /// GitHub could not be reached.
    GhNetwork,
    /// Listing the repositories of `account` failed.
    GhListFailed { account: String, stderr: String },
    /// Switching the GitHub CLI to `account` failed.
    GhSwitchFailed { account: String, stderr: String },
    /// The current GitHub account could not be read.
    GhCurrentAccountFailed,
    /// The GitHub CLI knows no account.
    NoGitHubAccounts,
    /// A JSON text could not be read; `detail` says why.
    InvalidJson { detail: String },
    /// The current directory is not a viewset or one of its views.
    NotInViewset,
    /// The view to create already exists.
    ViewExists,
    /// The view to update does not exist.
    ViewMissing,
    /// No view was named and the current directory names none.
    NoViewName,
    /// The viewset lists no repositories.
    NoRepositoriesInViewset,
    /// The GitHub CLI is missing or not authenticated.
    GhUnavailable,
    /// Discovery found no repository.
    NoRepositoriesFound,
    /// The directory of the viewset to create already exists.
    DirectoryExists,
    /// Cloning `repo` was refused for want of SSH authentication.
    SshAuthFailed { repo: String },
    /// The repository `repo` to clone was not found.
    RepoNotFound { repo: String },
    /// Cloning `repo` failed, writing `stderr`.
    CloneFailed { repo: String, stderr: String },
    /// Creating the branch `branch` failed, writing `stderr`.
    BranchCreateFailed { branch: String, stderr: String },
}

pub enum ErrorKindView {
    GitSpawn { command: Seq<char>, cause: Seq<char> },
    GitFailed { command: Seq<char>, stderr: Seq<char> },
    InvalidUtf8,
    CommitCountParse { text: Seq<char> },
    UnpushedCheckFailed { stderr: Seq<char> },
    NoDefaultBranch,
    InvalidProtocol { value: Seq<char> },
    NotGitHubSource { source: Seq<char> },
    InvalidAccountFormat { source: Seq<char> },
    MalformedSource { source: Seq<char> },
    LocalConfigNeedsPath,
    NotAGitRepository { name: Seq<char> },
    RepositoryMissing { name: Seq<char>, path: Seq<char> },
    NotADirectory { name: Seq<char>, path: Seq<char> },
    Io { cause: Seq<char> },
    UnexpectedReply,
    RebaseWithChanges,
    RebaseConflict,
    RebasesFailed,
    CommitFailed { repo: Seq<char> },
    PushFailed { repo: Seq<char> },
    NotInView,
    BranchSyncErrors,
    BranchSyncFailed,
    EmptyRepoName { index: nat, file: Seq<char> },
    EmptyRepoUrl { index: nat, name: Seq<char>, file: Seq<char> },
    GhAuthFailed,
    GhRateLimited,
    GhNetwork,
    GhListFailed { account: Seq<char>, stderr: Seq<char> },
    GhSwitchFailed { account: Seq<char>, stderr: Seq<char> },
    GhCurrentAccountFailed,
    NoGitHubAccounts,
    InvalidJson { detail: Seq<char> },
    NotInViewset,
    ViewExists,
    ViewMissing,
    NoViewName,
    NoRepositoriesInViewset,
    GhUnavailable,
    NoRepositoriesFound,
    DirectoryExists,
    SshAuthFailed { repo: Seq<char> },
    RepoNotFound { repo: Seq<char> },
    CloneFailed { repo: Seq<char>, stderr: Seq<char> },
    BranchCreateFailed { branch: Seq<char>, stderr: Seq<char> },
}

impl View for ErrorKind {
    type V = ErrorKindView;

    open spec fn view(&self) -> ErrorKindView {
        match self {
            ErrorKind::GitSpawn { command, cause } => ErrorKindView::GitSpawn {
                command: command@,
                cause: cause@,
            },
            ErrorKind::GitFailed { command, stderr } => ErrorKindView::GitFailed {
                command: command@,
                stderr: stderr@,
            },
            ErrorKind::InvalidUtf8 => ErrorKindView::InvalidUtf8,
            ErrorKind::CommitCountParse { text } => ErrorKindView::CommitCountParse { text: text@ },
            ErrorKind::UnpushedCheckFailed { stderr } => ErrorKindView::UnpushedCheckFailed {
                stderr: stderr@,
            },
            ErrorKind::NoDefaultBranch => ErrorKindView::NoDefaultBranch,
            ErrorKind::InvalidProtocol { value } => ErrorKindView::InvalidProtocol {
                value: value@,
            },
            ErrorKind::NotGitHubSource { source } => ErrorKindView::NotGitHubSource {
                source: source@,
            },
            ErrorKind::InvalidAccountFormat { source } => ErrorKindView::InvalidAccountFormat {
                source: source@,
            },
            ErrorKind::MalformedSource { source } => ErrorKindView::MalformedSource {
                source: source@,
            },
            ErrorKind::LocalConfigNeedsPath => ErrorKindView::LocalConfigNeedsPath,
            ErrorKind::NotAGitRepository { name } => ErrorKindView::NotAGitRepository {
                name: name@,
            },
            ErrorKind::RepositoryMissing { name, path } => ErrorKindView::RepositoryMissing {
                name: name@,
                path: path@,
            },
            ErrorKind::NotADirectory { name, path } => ErrorKindView::NotADirectory {
                name: name@,
                path: path@,
            },
            ErrorKind::Io { cause } => ErrorKindView::Io { cause: cause@ },
            ErrorKind::UnexpectedReply => ErrorKindView::UnexpectedReply,
            ErrorKind::RebaseWithChanges => ErrorKindView::RebaseWithChanges,
            ErrorKind::RebaseConflict => ErrorKindView::RebaseConflict,
            ErrorKind::RebasesFailed => ErrorKindView::RebasesFailed,
            ErrorKind::CommitFailed { repo } => ErrorKindView::CommitFailed { repo: repo@ },
            ErrorKind::PushFailed { repo } => ErrorKindView::PushFailed { repo: repo@ },
            ErrorKind::NotInView => ErrorKindView::NotInView,
            ErrorKind::BranchSyncErrors => ErrorKindView::BranchSyncErrors,
            ErrorKind::BranchSyncFailed => ErrorKindView::BranchSyncFailed,
            ErrorKind::EmptyRepoName { index, file } => ErrorKindView::EmptyRepoName { index: *index as nat, file: file@ },
            ErrorKind::EmptyRepoUrl { index, name, file } => ErrorKindView::EmptyRepoUrl { index: *index as nat, name: name@, file: file@ },
            ErrorKind::GhAuthFailed => ErrorKindView::GhAuthFailed,
            ErrorKind::GhRateLimited => ErrorKindView::GhRateLimited,
            ErrorKind::GhNetwork => ErrorKindView::GhNetwork,
            ErrorKind::GhListFailed { account, stderr } => ErrorKindView::GhListFailed { account: account@, stderr: stderr@ },
            ErrorKind::GhSwitchFailed { account, stderr } => ErrorKindView::GhSwitchFailed { account: account@, stderr: stderr@ },
            ErrorKind::GhCurrentAccountFailed => ErrorKindView::GhCurrentAccountFailed,
            ErrorKind::NoGitHubAccounts => ErrorKindView::NoGitHubAccounts,
            ErrorKind::InvalidJson { detail } => ErrorKindView::InvalidJson { detail: detail@ },
            ErrorKind::NotInViewset => ErrorKindView::NotInViewset,
            ErrorKind::ViewExists => ErrorKindView::ViewExists,
            ErrorKind::ViewMissing => ErrorKindView::ViewMissing,
            ErrorKind::NoViewName => ErrorKindView::NoViewName,
            ErrorKind::NoRepositoriesInViewset => ErrorKindView::NoRepositoriesInViewset,
            ErrorKind::GhUnavailable => ErrorKindView::GhUnavailable,
            ErrorKind::NoRepositoriesFound => ErrorKindView::NoRepositoriesFound,
            ErrorKind::DirectoryExists => ErrorKindView::DirectoryExists,
            ErrorKind::SshAuthFailed { repo } => ErrorKindView::SshAuthFailed { repo: repo@ },
            ErrorKind::RepoNotFound { repo } => ErrorKindView::RepoNotFound { repo: repo@ },
            ErrorKind::CloneFailed { repo, stderr } => ErrorKindView::CloneFailed { repo: repo@, stderr: stderr@ },
            ErrorKind::BranchCreateFailed { branch, stderr } => ErrorKindView::BranchCreateFailed { branch: branch@, stderr: stderr@ },
        }
    }
}

/// The text shown for an error of this kind.
pub open spec fn kind_message(k: ErrorKindView) -> Seq<char> {
    match k {
        ErrorKindView::GitSpawn { command, cause } => "Failed to execute git command: git "@
            + command,
        ErrorKindView::GitFailed { command, stderr } => "Git command failed: git "@ + command
            + "\n"@ + stderr,
        ErrorKindView::InvalidUtf8 => "Git command output is not valid UTF-8"@,
        ErrorKindView::CommitCountParse { text } => "Failed to parse commit count: '"@ + text
            + "'"@,
        ErrorKindView::UnpushedCheckFailed { stderr } => "Failed to check for unpushed commits: "@
            + stderr,
        ErrorKindView::NoDefaultBranch => "Could not determine default branch for repository"@,
        ErrorKindView::InvalidProtocol { value } => "Invalid protocol '"@ + value
            + "': expected 'ssh' or 'https'"@,
        ErrorKindView::NotGitHubSource { source } => "Source is not a GitHub repository: "@
            + source,
        ErrorKindView::InvalidAccountFormat { source } => "Invalid account format in source: "@
            + source,
        ErrorKindView::MalformedSource { source } => "Malformed source format: "@ + source,
        ErrorKindView::LocalConfigNeedsPath => "Repository path required for local config"@,
        ErrorKindView::NotAGitRepository { name } => "Directory '"@ + name
            + "' is not a git repository (missing .git directory)"@,
        ErrorKindView::RepositoryMissing { name, path } => "Repository directory '"@ + name
            + "' does not exist: "@ + path,
        ErrorKindView::NotADirectory { name, path } => "Repository path '"@ + name
            + "' is not a directory: "@ + path,
        ErrorKindView::Io { cause } => cause,
        ErrorKindView::UnexpectedReply => "unexpected reply to a request"@,
        ErrorKindView::RebaseWithChanges => "Cannot rebase with uncommitted changes. Please commit or stash your changes first."@,
        ErrorKindView::RebaseConflict => "Rebase conflict requires manual resolution"@,
        ErrorKindView::RebasesFailed => "Some repositories failed to rebase"@,
        ErrorKindView::CommitFailed { repo } => "Commit failed for repository: "@ + repo,
        ErrorKindView::PushFailed { repo } => "Push failed for repository: "@ + repo,
        ErrorKindView::NotInView => "Not in a view directory"@,
        ErrorKindView::BranchSyncErrors => "Cannot validate branch synchronization due to repository errors"@,
        ErrorKindView::BranchSyncFailed => "Branch synchronization failed"@,
        ErrorKindView::EmptyRepoName { index, file } => "Invalid repository at index "@ + decimal(index) + ": 'name' field cannot be empty\nFile: "@ + file,
        ErrorKindView::EmptyRepoUrl { index, name, file } => "Invalid repository at index "@ + decimal(index) + ": 'url' field cannot be empty\nRepository: "@ + name + "\nFile: "@ + file,
        ErrorKindView::GhAuthFailed => "GitHub CLI authentication failed"@,
        ErrorKindView::GhRateLimited => "GitHub API rate limit exceeded"@,
        ErrorKindView::GhNetwork => "Network error accessing GitHub"@,
        ErrorKindView::GhListFailed { account, stderr } => "Failed to list repositories for account '"@ + account + "': "@ + stderr,
        ErrorKindView::GhSwitchFailed { account, stderr } => "Failed to switch to account '"@ + account + "': "@ + stderr,
        ErrorKindView::GhCurrentAccountFailed => "Failed to get current account"@,
        ErrorKindView::NoGitHubAccounts => "No GitHub accounts found. Please run 'gh auth login' first."@,
        ErrorKindView::InvalidJson { detail } => detail,
        ErrorKindView::NotInViewset => "Not in a viewset directory"@,
        ErrorKindView::ViewExists => "View already exists"@,
        ErrorKindView::ViewMissing => "View does not exist"@,
        ErrorKindView::NoViewName => "Could not determine view name from current directory"@,
        ErrorKindView::NoRepositoriesInViewset => "No repositories in viewset"@,
        ErrorKindView::GhUnavailable => "GitHub CLI not available"@,
        ErrorKindView::NoRepositoriesFound => "No repositories found"@,
        ErrorKindView::DirectoryExists => "Directory already exists"@,
        ErrorKindView::SshAuthFailed { repo } => "SSH authentication failed for repository '"@ + repo + "'"@,
        ErrorKindView::RepoNotFound { repo } => "Repository '"@ + repo + "' not found or inaccessible"@,
        ErrorKindView::CloneFailed { repo, stderr } => "Failed to clone repository '"@ + repo + "': "@ + stderr,
        ErrorKindView::BranchCreateFailed { branch, stderr } => "Failed to create branch '"@ + branch + "': "@ + stderr,
    }
}

/// An error together with the contexts it was reported in, innermost first.
#[derive(Debug)]
pub struct ViewyardError {
    pub kind: ErrorKind,
    pub context: Vec<String>,
}

pub struct ViewyardErrorView {
    pub kind: ErrorKindView,
    pub context: Seq<Seq<char>>,
}

pub open spec fn string_views(v: Seq<String>) -> Seq<Seq<char>> {
    v.map_values(|s: String| s@)
}

impl View for ViewyardError {
    type V = ViewyardErrorView;

    open spec fn view(&self) -> ViewyardErrorView {
        ViewyardErrorView { kind: self.kind@, context: string_views(self.context@) }
    }
}

/// An error of kind `k` with no context.
pub open spec fn plain(k: ErrorKindView) -> ViewyardErrorView {
    ViewyardErrorView { kind: k, context: seq![] }
}

/// `e` reported within the context `c`.
pub open spec fn within(e: ViewyardErrorView, c: Seq<char>) -> ViewyardErrorView {
    ViewyardErrorView { kind: e.kind, context: e.context.push(c) }
}

/// The text shown for an error: its outermost context, or what went wrong.
pub open spec fn error_message(e: ViewyardErrorView) -> Seq<char> {
    if e.context.len() > 0 {
        e.context.last()
    } else {
        kind_message(e.kind)
    }
}

/// The whole chain: each context, outermost first, then what went wrong, joined by `": "`.
pub open spec fn error_chain(e: ViewyardErrorView) -> Seq<char> {
    join(e.context.reverse().push(kind_message(e.kind)), ": "@)
}

pub fn lit(s: &str) -> (res: String)
    ensures
        res@ == s@,
{
    let v = chars_of(s);
    string_of(&v)
}

impl ErrorKind {
    pub fn message(&self) -> (res: String)
        ensures
            res@ == kind_message(self@),
    {
        let mut v: Vec<char> = Vec::new();
        match self {
            ErrorKind::GitSpawn { command, cause } => {
                push_str(&mut v, "Failed to execute git command: git ");
                push_str(&mut v, command.as_str());
            },
            ErrorKind::GitFailed { command, stderr } => {
                push_str(&mut v, "Git command failed: git ");
                push_str(&mut v, command.as_str());
                push_str(&mut v, "\n");
                push_str(&mut v, stderr.as_str());
            },
            ErrorKind::InvalidUtf8 => {
                push_str(&mut v, "Git command output is not valid UTF-8");
            },
            ErrorKind::CommitCountParse { text } => {
                push_str(&mut v, "Failed to parse commit count: '");
                push_str(&mut v, text.as_str());
                push_str(&mut v, "'");
            },
            ErrorKind::UnpushedCheckFailed { stderr } => {
                push_str(&mut v, "Failed to check for unpushed commits: ");
                push_str(&mut v, stderr.as_str());
            },
            ErrorKind::NoDefaultBranch => {
                push_str(&mut v, "Could not determine default branch for repository");
            },
            ErrorKind::InvalidProtocol { value } => {
                push_str(&mut v, "Invalid protocol '");
                push_str(&mut v, value.as_str());
                push_str(&mut v, "': expected 'ssh' or 'https'");
            },
            ErrorKind::NotGitHubSource { source } => {
                push_str(&mut v, "Source is not a GitHub repository: ");
                push_str(&mut v, source.as_str());
            },
            ErrorKind::InvalidAccountFormat { source } => {
                push_str(&mut v, "Invalid account format in source: ");
                push_str(&mut v, source.as_str());
            },
            ErrorKind::MalformedSource { source } => {
                push_str(&mut v, "Malformed source format: ");
                push_str(&mut v, source.as_str());
            },
            ErrorKind::LocalConfigNeedsPath => {
                push_str(&mut v, "Repository path required for local config");
            },
            ErrorKind::NotAGitRepository { name } => {
                push_str(&mut v, "Directory '");
                push_str(&mut v, name.as_str());
                push_str(&mut v, "' is not a git repository (missing .git directory)");
            },
            ErrorKind::RepositoryMissing { name, path } => {
                push_str(&mut v, "Repository directory '");
                push_str(&mut v, name.as_str());
                push_str(&mut v, "' does not exist: ");
                push_str(&mut v, path.as_str());
            },
            ErrorKind::NotADirectory { name, path } => {
                push_str(&mut v, "Repository path '");
                push_str(&mut v, name.as_str());
                push_str(&mut v, "' is not a directory: ");
                push_str(&mut v, path.as_str());
            },
            ErrorKind::Io { cause } => {
                push_str(&mut v, cause.as_str());
            },
            ErrorKind::UnexpectedReply => {
                push_str(&mut v, "unexpected reply to a request");
            },
            ErrorKind::RebaseWithChanges => {
                push_str(&mut v, "Cannot rebase with uncommitted changes. Please commit or stash your changes first.");
            },
            ErrorKind::RebaseConflict => {
                push_str(&mut v, "Rebase conflict requires manual resolution");
            },
            ErrorKind::RebasesFailed => {
                push_str(&mut v, "Some repositories failed to rebase");
            },
            ErrorKind::CommitFailed { repo } => {
                push_str(&mut v, "Commit failed for repository: ");
                push_str(&mut v, repo.as_str());
            },
            ErrorKind::PushFailed { repo } => {
                push_str(&mut v, "Push failed for repository: ");
                push_str(&mut v, repo.as_str());
            },
            ErrorKind::NotInView => {
                push_str(&mut v, "Not in a view directory");
            },
            ErrorKind::BranchSyncErrors => {
                push_str(&mut v, "Cannot validate branch synchronization due to repository errors");
            },
            ErrorKind::BranchSyncFailed => {
                push_str(&mut v, "Branch synchronization failed");
            },
            ErrorKind::EmptyRepoName { index, file } => {
                push_str(&mut v, "Invalid repository at index ");
                push_all(&mut v, &decimal_chars(*index as u64));
                push_str(&mut v, ": 'name' field cannot be empty\nFile: ");
                push_str(&mut v, file.as_str());
            },
            ErrorKind::EmptyRepoUrl { index, name, file } => {
                push_str(&mut v, "Invalid repository at index ");
                push_all(&mut v, &decimal_chars(*index as u64));
                push_str(&mut v, ": 'url' field cannot be empty\nRepository: ");
                push_str(&mut v, name.as_str());
                push_str(&mut v, "\nFile: ");
                push_str(&mut v, file.as_str());
            },
            ErrorKind::GhAuthFailed => {
                push_str(&mut v, "GitHub CLI authentication failed");
            },
            ErrorKind::GhRateLimited => {
                push_str(&mut v, "GitHub API rate limit exceeded");
            },
            ErrorKind::GhNetwork => {
                push_str(&mut v, "Network error accessing GitHub");
            },
            ErrorKind::GhListFailed { account, stderr } => {
                push_str(&mut v, "Failed to list repositories for account '");
                push_str(&mut v, account.as_str());
                push_str(&mut v, "': ");
                push_str(&mut v, stderr.as_str());
            },
            ErrorKind::GhSwitchFailed { account, stderr } => {
                push_str(&mut v, "Failed to switch to account '");
                push_str(&mut v, account.as_str());
                push_str(&mut v, "': ");
                push_str(&mut v, stderr.as_str());
            },
            ErrorKind::GhCurrentAccountFailed => {
                push_str(&mut v, "Failed to get current account");
            },
            ErrorKind::NoGitHubAccounts => {
                push_str(&mut v, "No GitHub accounts found. Please run 'gh auth login' first.");
            },
            ErrorKind::InvalidJson { detail } => {
                push_str(&mut v, detail.as_str());
            },
            ErrorKind::NotInViewset => {
                push_str(&mut v, "Not in a viewset directory");
            },
            ErrorKind::ViewExists => {
                push_str(&mut v, "View already exists");
            },
            ErrorKind::ViewMissing => {
                push_str(&mut v, "View does not exist");
            },
            ErrorKind::NoViewName => {
                push_str(&mut v, "Could not determine view name from current directory");
            },
            ErrorKind::NoRepositoriesInViewset => {
                push_str(&mut v, "No repositories in viewset");
            },
            ErrorKind::GhUnavailable => {
                push_str(&mut v, "GitHub CLI not available");
            },
            ErrorKind::NoRepositoriesFound => {
                push_str(&mut v, "No repositories found");
            },
            ErrorKind::DirectoryExists => {
                push_str(&mut v, "Directory already exists");
            },
            ErrorKind::SshAuthFailed { repo } => {
                push_str(&mut v, "SSH authentication failed for repository '");
                push_str(&mut v, repo.as_str());
                push_str(&mut v, "'");
            },
            ErrorKind::RepoNotFound { repo } => {
                push_str(&mut v, "Repository '");
                push_str(&mut v, repo.as_str());
                push_str(&mut v, "' not found or inaccessible");
            },
            ErrorKind::CloneFailed { repo, stderr } => {
                push_str(&mut v, "Failed to clone repository '");
                push_str(&mut v, repo.as_str());
                push_str(&mut v, "': ");
                push_str(&mut v, stderr.as_str());
            },
            ErrorKind::BranchCreateFailed { branch, stderr } => {
                push_str(&mut v, "Failed to create branch '");
                push_str(&mut v, branch.as_str());
                push_str(&mut v, "': ");
                push_str(&mut v, stderr.as_str());
            },
        }
        string_of(&v)
    }
}

impl ViewyardError {
    /// An error with no context yet.
    pub fn new(kind: ErrorKind) -> (res: ViewyardError)
        ensures
            res@ == plain(kind@),
    {
        let res = ViewyardError { kind, context: Vec::new() };
        assert(string_views(res.context@) =~= seq![]);
        res
    }

    /// The same error, reported within `context`.
    pub fn context(self, context: String) -> (res: ViewyardError)
        ensures
            res@ == within(self@, context@),
    {
        let mut ctx = self.context;
        let ghost before = ctx@;
        ctx.push(context);
        assert(string_views(ctx@) =~= string_views(before).push(context@));
        ViewyardError { kind: self.kind, context: ctx }
    }

    /// The text shown for the error.
    pub fn message(&self) -> (res: String)
        ensures
            res@ == error_message(self@),
    {
        if self.context.len() > 0 {
            self.context[self.context.len() - 1].clone()
        } else {
            self.kind.message()
        }
    }

    /// The contexts, outermost first, followed by what went wrong, joined by `": "`.
    pub fn chain(&self) -> (res: String)
        ensures
            res@ == error_chain(self@),
    {
        let mut parts: Vec<Vec<char>> = Vec::new();
        let n = self.context.len();
        let mut i: usize = 0;
        while i < n
            invariant
                n == self.context.len(),
                i <= n,
                views(parts@) == string_views(self.context@).reverse().take(i as int),
            decreases n - i,
        {
            let c = chars_of(self.context[n - 1 - i].as_str());
            proof {
                let r = string_views(self.context@).reverse();
                assert(r[i as int] == self.context@[n - 1 - i]@);
                assert(views(parts@.push(c)) =~= views(parts@).push(c@));
                assert(r.take(i + 1) =~= r.take(i as int).push(r[i as int]));
            }
            parts.push(c);
            i = i + 1;
        }
        let k = self.kind.message();
        let kc = chars_of(k.as_str());
        proof {
            let r = string_views(self.context@).reverse();
            assert(r.take(n as int) =~= r);
            assert(views(parts@.push(kc)) =~= views(parts@).push(kc@));
            assert(views(parts@.push(kc)) =~= string_views(self.context@).reverse().push(
                kind_message(self.kind@),
            ));
        }
        parts.push(kc);
        let sep = chars_of(": ");
        let joined = join_chars(&parts, &sep);
        string_of(&joined)
    }
}

} // verus!
