//! The workspace commands as one: which command, and running it.
use vstd::prelude::*;

use crate::error::ViewyardError;
use crate::git::SshHostAliases;
use crate::rebase::rebase_run_next;
use crate::rebase::rebase_run_request;
use crate::rebase::rebase_start;
use crate::rebase::RebaseRun;
use crate::rebase::RebaseRunView;
use crate::session::notice_views;
use crate::session::NoticeView;
use crate::session::Reply;
use crate::session::Step;
use crate::status::status_run_next;
use crate::status::status_run_request;
use crate::status::status_start;
use crate::status::StatusRun;
use crate::status::StatusRunView;
use crate::batch::commit_next;
use crate::batch::commit_request;
use crate::batch::commit_start;
use crate::batch::push_next;
use crate::batch::push_request;
use crate::batch::push_start;
use crate::command::unit_result_view;
use crate::batch::CommitRun;
use crate::batch::CommitRunView;
use crate::batch::PushRun;
use crate::batch::PushRunView;
use crate::batch::RunNext;

verus! {

/// The commands that work on every repository of the current view.
#[derive(Debug)]
pub enum WorkspaceCommand {
    /// Show status of all repos in current view.
    Status,
    /// Rebase repos against their default branch.
    Rebase,
    /// Commit to all dirty repos (only repos with changes).
    CommitAll { message: String },
    /// Push repos with commits ahead (only repos with unpushed commits).
    PushAll,
}

/// A workspace command under way.
#[derive(Debug)]
pub enum WorkspaceRun {
    Status(StatusRun),
    Rebase(RebaseRun),
    CommitAll(CommitRun),
    PushAll(PushRun),
}

impl WorkspaceRun {
    pub open spec fn wf(&self) -> bool {
        match self {
            WorkspaceRun::Status(s) => s.wf(),
            WorkspaceRun::Rebase(r) => r.wf(),
            WorkspaceRun::CommitAll(c) => c.wf(),
            WorkspaceRun::PushAll(p) => p.wf(),
        }
    }
}

/// `step` is `next` of `status`, carried in a `WorkspaceRun`.
pub open spec fn as_status(step: Step<WorkspaceRun, Result<(), ViewyardError>>, next: (Seq<NoticeView>, RunNext<StatusRunView>)) -> bool {
    match next.1 {
        RunNext::Continue(v) => step matches Step::Ask(ns, req, WorkspaceRun::Status(s)) && notice_views(ns@) == next.0 && s@ == v
            && s.wf() && req@ == status_run_request(v),
        RunNext::Finished(r) => step matches Step::Done(ns, x) && notice_views(ns@) == next.0 && unit_result_view(x) == r,
    }
}

/// `step` is `next` of `rebase`, carried in a `WorkspaceRun`.
pub open spec fn as_rebase(step: Step<WorkspaceRun, Result<(), ViewyardError>>, next: (Seq<NoticeView>, RunNext<RebaseRunView>)) -> bool {
    match next.1 {
        RunNext::Continue(v) => step matches Step::Ask(ns, req, WorkspaceRun::Rebase(s)) && notice_views(ns@) == next.0 && s@ == v
            && s.wf() && req@ == rebase_run_request(v),
        RunNext::Finished(r) => step matches Step::Done(ns, x) && notice_views(ns@) == next.0 && unit_result_view(x) == r,
    }
}

/// `step` is `next` of `commit-all`, carried in a `WorkspaceRun`.
pub open spec fn as_commit(step: Step<WorkspaceRun, Result<(), ViewyardError>>, next: (Seq<NoticeView>, RunNext<CommitRunView>)) -> bool {
    match next.1 {
        RunNext::Continue(v) => step matches Step::Ask(ns, req, WorkspaceRun::CommitAll(s)) && notice_views(ns@) == next.0 && s@ == v
            && s.wf() && req@ == commit_request(v),
        RunNext::Finished(r) => step matches Step::Done(ns, x) && notice_views(ns@) == next.0 && unit_result_view(x) == r,
    }
}

/// `step` is `next` of `push-all`, carried in a `WorkspaceRun`.
pub open spec fn as_push(step: Step<WorkspaceRun, Result<(), ViewyardError>>, next: (Seq<NoticeView>, RunNext<PushRunView>)) -> bool {
    match next.1 {
        RunNext::Continue(v) => step matches Step::Ask(ns, req, WorkspaceRun::PushAll(s)) && notice_views(ns@) == next.0 && s@ == v
            && s.wf() && req@ == push_request(v),
        RunNext::Finished(r) => step matches Step::Done(ns, x) && notice_views(ns@) == next.0 && unit_result_view(x) == r,
    }
}

/// Starts a workspace command in the directory `current_dir`, whose parent is `parent`
/// (none for a root), the repositories' URLs being pointed at the SSH host `aliases`.
/// The command must be run from within a view, whose repositories it then works on.
/// Each command first checks that every repository of the view is on the view's branch;
/// when the check fails it says so and goes on.
pub fn handle_command(command: WorkspaceCommand, current_dir: &str, parent: Option<&str>, aliases: SshHostAliases) -> (res: Step<
    WorkspaceRun,
    Result<(), ViewyardError>,
>)
    ensures
        match command {
            WorkspaceCommand::Status => as_status(res, status_start(current_dir@, crate::github::opt_str(parent), aliases@)),
            WorkspaceCommand::Rebase => as_rebase(res, rebase_start(current_dir@, crate::github::opt_str(parent), aliases@)),
            WorkspaceCommand::CommitAll { message } => as_commit(
                res,
                commit_start(message@, current_dir@, crate::github::opt_str(parent), aliases@),
            ),
            WorkspaceCommand::PushAll => as_push(res, push_start(current_dir@, crate::github::opt_str(parent), aliases@)),
        },
{
    match command {
        WorkspaceCommand::Status => match StatusRun::start(current_dir, parent, aliases) {
            Step::Ask(ns, req, s) => Step::Ask(ns, req, WorkspaceRun::Status(s)),
            Step::Done(ns, r) => Step::Done(ns, r),
        },
        WorkspaceCommand::Rebase => match RebaseRun::start(current_dir, parent, aliases) {
            Step::Ask(ns, req, s) => Step::Ask(ns, req, WorkspaceRun::Rebase(s)),
            Step::Done(ns, r) => Step::Done(ns, r),
        },
        WorkspaceCommand::CommitAll { message } => match CommitRun::start(message.as_str(), current_dir, parent, aliases) {
            Step::Ask(ns, req, s) => Step::Ask(ns, req, WorkspaceRun::CommitAll(s)),
            Step::Done(ns, r) => Step::Done(ns, r),
        },
        WorkspaceCommand::PushAll => match PushRun::start(current_dir, parent, aliases) {
            Step::Ask(ns, req, s) => Step::Ask(ns, req, WorkspaceRun::PushAll(s)),
            Step::Done(ns, r) => Step::Done(ns, r),
        },
    }
}

impl WorkspaceRun {
    /// The command's next step once its request was answered with `reply`.
    pub fn resume(self, reply: Reply) -> (res: Step<WorkspaceRun, Result<(), ViewyardError>>)
        requires
            self.wf(),
        ensures
            match self {
                WorkspaceRun::Status(s) => as_status(res, status_run_next(s@, reply)),
                WorkspaceRun::Rebase(r) => as_rebase(res, rebase_run_next(r@, reply)),
                WorkspaceRun::CommitAll(c) => as_commit(res, commit_next(c@, reply)),
                WorkspaceRun::PushAll(p) => as_push(res, push_next(p@, reply)),
            },
    {
        match self {
            WorkspaceRun::Status(s) => match s.resume(reply) {
                Step::Ask(ns, req, s) => Step::Ask(ns, req, WorkspaceRun::Status(s)),
                Step::Done(ns, r) => Step::Done(ns, r),
            },
            WorkspaceRun::Rebase(s) => match s.resume(reply) {
                Step::Ask(ns, req, s) => Step::Ask(ns, req, WorkspaceRun::Rebase(s)),
                Step::Done(ns, r) => Step::Done(ns, r),
            },
            WorkspaceRun::CommitAll(s) => match s.resume(reply) {
                Step::Ask(ns, req, s) => Step::Ask(ns, req, WorkspaceRun::CommitAll(s)),
                Step::Done(ns, r) => Step::Done(ns, r),
            },
            WorkspaceRun::PushAll(s) => match s.resume(reply) {
                Step::Ask(ns, req, s) => Step::Ask(ns, req, WorkspaceRun::PushAll(s)),
                Step::Done(ns, r) => Step::Done(ns, r),
            },
        }
    }
}

} // verus!
