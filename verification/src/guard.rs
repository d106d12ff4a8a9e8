//! Checking that a repository of a view can be worked on: its directory exists, is a git
//! repository, and has its git user configured for its account.
use vstd::prelude::*;
use crate::command::unit_result_view;

use crate::error::lit;
use crate::error::plain;
use crate::error::within;
use crate::error::ErrorKind;
use crate::error::ErrorKindView;
use crate::error::ViewyardError;
use crate::error::ViewyardErrorView;
use crate::git::directory_check;
use crate::git::extract_account_from_source;
use crate::git::initial_setup;
use crate::git::source_account;
use crate::git::user_setup_command;
use crate::git::user_setup_next;
use crate::git::GitUserSetup;
use crate::git::GitUserSetupView;
use crate::git::UserSetupNext;
use crate::models::Repository;
use crate::models::RepositoryView;
use crate::session::joined_path;
use crate::session::join_path;
use crate::session::notice;
use crate::session::notice_views;
use crate::session::quiet;
use crate::session::tell_chars;
use crate::session::NoticeLevel;
use crate::session::NoticeView;
use crate::session::Reply;
use crate::session::Request;
use crate::session::RequestView;
use crate::session::Step;
use crate::text::chars_of;
use crate::text::push_str;

verus! {

/// Whether a directory is a git repository: the request asking whether its `.git` exists.
pub fn is_git_repo(path: &str) -> (res: Request)
    ensures
        res@ == RequestView::PathExists(joined_path(path@, ".git"@)),
{
    Request::PathExists(join_path(path, ".git"))
}

// ---------------------------------------------------------------------------
// A repository ready for git operations
// ---------------------------------------------------------------------------

/// The account a repository's git user is configured for: the explicit one, else the one
/// in its source, whose error is reported in the context of that source.
pub open spec fn operations_account(r: RepositoryView) -> Result<Seq<char>, ViewyardErrorView> {
    match r.account {
        Some(a) => Ok(a),
        None => match source_account(r.source) {
            Ok(a) => Ok(a),
            Err(k) => Err(within(plain(k), "Failed to extract GitHub account from source: "@ + r.source)),
        },
    }
}

pub open spec fn setup_context(name: Seq<char>) -> Seq<char> {
    "Failed to configure git user for repository: "@ + name
}

#[derive(Debug, Clone, Copy, PartialEq, Eq, Structural)]
pub enum ValidationStage {
    /// Asking whether the directory holds `.git`.
    GitDirectory,
    /// Configuring the git user.
    Setup,
}

/// The check that a repository can be worked on: it is a git repository, and its git user
/// is set up for its account.
#[derive(Debug)]
pub struct RepoValidation {
    pub repo_path: String,
    pub repo: Repository,
    pub stage: ValidationStage,
    pub setup: Option<GitUserSetup>,
}

pub struct RepoValidationView {
    pub repo_path: Seq<char>,
    pub repo: RepositoryView,
    pub stage: ValidationStage,
    pub setup: Option<GitUserSetupView>,
}

impl View for RepoValidation {
    type V = RepoValidationView;

    open spec fn view(&self) -> RepoValidationView {
        RepoValidationView {
            repo_path: self.repo_path@,
            repo: self.repo@,
            stage: self.stage,
            setup: match self.setup {
                Some(s) => Some(s@),
                None => None,
            },
        }
    }
}

pub open spec fn validation_wf(v: RepoValidationView) -> bool {
    v.stage == ValidationStage::Setup ==> v.setup is Some
}

impl RepoValidation {
    pub open spec fn wf(&self) -> bool {
        validation_wf(self@)
    }
}

pub open spec fn validation_request(v: RepoValidationView) -> RequestView {
    match v.stage {
        ValidationStage::GitDirectory => RequestView::PathExists(joined_path(v.repo_path, ".git"@)),
        ValidationStage::Setup => RequestView::Run(user_setup_command(v.setup->0)),
    }
}

pub enum ValidationNext {
    Continue(RepoValidationView),
    Finished(Result<(), ViewyardErrorView>),
}

/// The check's next move once `reply` came: a repository without `.git` fails, else its
/// git user is set up, whose notice is passed on.
pub open spec fn validation_next(v: RepoValidationView, reply: Reply) -> (Seq<NoticeView>, ValidationNext) {
    match v.stage {
        ValidationStage::GitDirectory => match reply {
            Reply::Flag(false) => (seq![], ValidationNext::Finished(Err(plain(ErrorKindView::NotAGitRepository { name: v.repo.name })))),
            Reply::Flag(true) => match operations_account(v.repo) {
                Err(e) => (seq![], ValidationNext::Finished(Err(e))),
                Ok(a) => (
                    seq![],
                    ValidationNext::Continue(
                        RepoValidationView {
                            stage: ValidationStage::Setup,
                            setup: Some(initial_setup(v.repo_path, a, Some(setup_context(v.repo.name)))),
                            ..v
                        },
                    ),
                ),
            },
            _ => (seq![], ValidationNext::Finished(Err(plain(ErrorKindView::UnexpectedReply)))),
        },
        ValidationStage::Setup => match reply {
            Reply::Ran(o) => match user_setup_next(v.setup->0, o) {
                UserSetupNext::Ask(st) => (seq![], ValidationNext::Continue(RepoValidationView { setup: Some(st), ..v })),
                UserSetupNext::Done(Ok(Some(n))) => (seq![notice(NoticeLevel::Info, n)], ValidationNext::Finished(Ok(()))),
                UserSetupNext::Done(Ok(None)) => (seq![], ValidationNext::Finished(Ok(()))),
                UserSetupNext::Done(Err(e)) => (seq![], ValidationNext::Finished(Err(e))),
            },
            _ => (seq![], ValidationNext::Finished(Err(plain(ErrorKindView::UnexpectedReply)))),
        },
    }
}

pub open spec fn validation_step_is(step: Step<RepoValidation, Result<(), ViewyardError>>, next: (Seq<NoticeView>, ValidationNext)) -> bool {
    match next.1 {
        ValidationNext::Continue(v) => step matches Step::Ask(ns, req, s) && notice_views(ns@) == next.0 && s@ == v && s.wf()
            && req@ == validation_request(v),
        ValidationNext::Finished(r) => step matches Step::Done(ns, x) && notice_views(ns@) == next.0 && unit_result_view(x) == r,
    }
}

pub open spec fn initial_validation(repo_path: Seq<char>, repo: RepositoryView) -> RepoValidationView {
    RepoValidationView { repo_path, repo, stage: ValidationStage::GitDirectory, setup: None }
}

/// Starts checking that the repository `repo` at `repo_path` can be worked on: asks
/// whether it is a git repository first.
pub fn validate_repository_for_operations(repo_path: &str, repo: &Repository) -> (res: (Request, RepoValidation))
    ensures
        res.1@ == initial_validation(repo_path@, repo@),
        res.1.wf(),
        res.0@ == validation_request(res.1@),
{
    let v = RepoValidation { repo_path: lit(repo_path), repo: repo.clone(), stage: ValidationStage::GitDirectory, setup: None };
    (is_git_repo(repo_path), v)
}

fn operations_account_of(r: &Repository) -> (res: Result<String, ViewyardError>)
    ensures
        crate::command::text_result_view(res) == operations_account(r@),
{
    match &r.account {
        Some(a) => Ok(a.clone()),
        None => match extract_account_from_source(r.source.as_str()) {
            Ok(a) => Ok(a),
            Err(e) => {
                let mut c = chars_of("Failed to extract GitHub account from source: ");
                push_str(&mut c, r.source.as_str());
                Err(e.context(crate::text::string_of(&c)))
            },
        },
    }
}

impl RepoValidation {
    /// The request the check is waiting on.
    pub fn request(&self) -> (res: Request)
        requires
            self.wf(),
        ensures
            res@ == validation_request(self@),
    {
        match self.stage {
            ValidationStage::GitDirectory => is_git_repo(self.repo_path.as_str()),
            ValidationStage::Setup => match &self.setup {
                Some(s) => Request::Run(s.command()),
                None => is_git_repo(self.repo_path.as_str()),
            },
        }
    }

    /// The check's next step once its request was answered with `reply`.
    pub fn resume(self, reply: Reply) -> (res: Step<RepoValidation, Result<(), ViewyardError>>)
        requires
            self.wf(),
        ensures
            validation_step_is(res, validation_next(self@, reply)),
    {
        let mut v = self;
        match v.stage {
            ValidationStage::GitDirectory => match reply {
                Reply::Flag(false) => Step::Done(quiet(), Err(ViewyardError::new(ErrorKind::NotAGitRepository { name: v.repo.name.clone() }))),
                Reply::Flag(true) => match operations_account_of(&v.repo) {
                    Err(e) => Step::Done(quiet(), Err(e)),
                    Ok(a) => {
                        let mut c = chars_of("Failed to configure git user for repository: ");
                        push_str(&mut c, v.repo.name.as_str());
                        let setup = GitUserSetup::start(v.repo_path.clone(), a, Some(crate::text::string_of(&c)));
                        v.setup = Some(setup);
                        v.stage = ValidationStage::Setup;
                        let req = v.request();
                        Step::Ask(quiet(), req, v)
                    },
                },
                _ => Step::Done(quiet(), Err(ViewyardError::new(ErrorKind::UnexpectedReply))),
            },
            ValidationStage::Setup => match reply {
                Reply::Ran(o) => {
                    let s = v.setup.take();
                    match s {
                        None => Step::Done(quiet(), Err(ViewyardError::new(ErrorKind::UnexpectedReply))),
                        Some(s) => match s.resume(&o) {
                            Step::Ask(_, _, s2) => {
                                v.setup = Some(s2);
                                let req = v.request();
                                Step::Ask(quiet(), req, v)
                            },
                            Step::Done(_, r) => match r {
                                Ok(Some(n)) => {
                                    let mut ns = quiet();
                                    tell_chars(&mut ns, NoticeLevel::Info, chars_of(n.as_str()));
                                    Step::Done(ns, Ok(()))
                                },
                                Ok(None) => Step::Done(quiet(), Ok(())),
                                Err(e) => Step::Done(quiet(), Err(e)),
                            },
                        },
                    }
                },
                _ => Step::Done(quiet(), Err(ViewyardError::new(ErrorKind::UnexpectedReply))),
            },
        }
    }
}

// ---------------------------------------------------------------------------
// A repository of a view, checked before an operation
// ---------------------------------------------------------------------------

#[derive(Debug, Clone, Copy, PartialEq, Eq, Structural)]
pub enum GuardStage {
    /// Asking whether the directory exists.
    Exists,
    /// Asking whether it is a directory.
    IsDirectory,
    /// Checking it can be worked on.
    Validate,
}

/// How the check of a repository came out.
pub enum GuardOutcome {
    /// Its directory is missing or is not a directory.
    DirectoryProblem(ViewyardErrorView),
    /// It cannot be worked on.
    OperationsProblem(ViewyardErrorView),
    Passed,
}

/// The checks a workspace command makes of a repository before working on it: its
/// directory (`validate_repository_directory`), then `validate_repository_for_operations`.
#[derive(Debug)]
pub struct RepoGuard {
    pub repo_path: String,
    pub repo: Repository,
    pub stage: GuardStage,
    pub validation: Option<RepoValidation>,
}

pub struct RepoGuardView {
    pub repo_path: Seq<char>,
    pub repo: RepositoryView,
    pub stage: GuardStage,
    pub validation: Option<RepoValidationView>,
}

impl View for RepoGuard {
    type V = RepoGuardView;

    open spec fn view(&self) -> RepoGuardView {
        RepoGuardView {
            repo_path: self.repo_path@,
            repo: self.repo@,
            stage: self.stage,
            validation: match self.validation {
                Some(v) => Some(v@),
                None => None,
            },
        }
    }
}

pub open spec fn guard_wf(v: RepoGuardView) -> bool {
    v.stage == GuardStage::Validate ==> (v.validation is Some && validation_wf(v.validation->0))
}

impl RepoGuard {
    pub open spec fn wf(&self) -> bool {
        guard_wf(self@)
    }
}

pub open spec fn guard_request(v: RepoGuardView) -> RequestView {
    match v.stage {
        GuardStage::Exists => RequestView::PathExists(v.repo_path),
        GuardStage::IsDirectory => RequestView::IsDirectory(v.repo_path),
        GuardStage::Validate => validation_request(v.validation->0),
    }
}

pub enum GuardNext {
    Continue(RepoGuardView),
    Finished(GuardOutcome),
}

pub open spec fn directory_problem(v: RepoGuardView, exists: bool, is_dir: bool) -> GuardOutcome {
    match directory_check(v.repo_path, v.repo.name, exists, is_dir) {
        Err(e) => GuardOutcome::DirectoryProblem(e),
        Ok(_) => GuardOutcome::Passed,
    }
}

/// The guard's next move once `reply` came.
pub open spec fn guard_next(v: RepoGuardView, reply: Reply) -> (Seq<NoticeView>, GuardNext) {
    match v.stage {
        GuardStage::Exists => match reply {
            Reply::Flag(true) => (seq![], GuardNext::Continue(RepoGuardView { stage: GuardStage::IsDirectory, ..v })),
            Reply::Flag(false) => (seq![], GuardNext::Finished(directory_problem(v, false, false))),
            _ => (seq![], GuardNext::Finished(GuardOutcome::DirectoryProblem(plain(ErrorKindView::UnexpectedReply)))),
        },
        GuardStage::IsDirectory => match reply {
            Reply::Flag(true) => (
                seq![],
                GuardNext::Continue(
                    RepoGuardView {
                        stage: GuardStage::Validate,
                        validation: Some(initial_validation(v.repo_path, v.repo)),
                        ..v
                    },
                ),
            ),
            Reply::Flag(false) => (seq![], GuardNext::Finished(directory_problem(v, true, false))),
            _ => (seq![], GuardNext::Finished(GuardOutcome::DirectoryProblem(plain(ErrorKindView::UnexpectedReply)))),
        },
        GuardStage::Validate => {
            let (ns, nx) = validation_next(v.validation->0, reply);
            match nx {
                ValidationNext::Continue(w) => (ns, GuardNext::Continue(RepoGuardView { validation: Some(w), ..v })),
                ValidationNext::Finished(Ok(_)) => (ns, GuardNext::Finished(GuardOutcome::Passed)),
                ValidationNext::Finished(Err(e)) => (ns, GuardNext::Finished(GuardOutcome::OperationsProblem(e))),
            }
        },
    }
}

/// What a finished guard hands back.
#[derive(Debug)]
pub enum GuardResult {
    DirectoryProblem(ViewyardError),
    OperationsProblem(ViewyardError),
    Passed,
}

pub open spec fn guard_result_view(r: GuardResult) -> GuardOutcome {
    match r {
        GuardResult::DirectoryProblem(e) => GuardOutcome::DirectoryProblem(e@),
        GuardResult::OperationsProblem(e) => GuardOutcome::OperationsProblem(e@),
        GuardResult::Passed => GuardOutcome::Passed,
    }
}

pub open spec fn guard_step_is(step: Step<RepoGuard, GuardResult>, next: (Seq<NoticeView>, GuardNext)) -> bool {
    match next.1 {
        GuardNext::Continue(v) => step matches Step::Ask(ns, req, s) && notice_views(ns@) == next.0 && s@ == v && s.wf()
            && req@ == guard_request(v),
        GuardNext::Finished(r) => step matches Step::Done(ns, x) && notice_views(ns@) == next.0 && guard_result_view(x) == r,
    }
}

pub open spec fn initial_guard(repo_path: Seq<char>, repo: RepositoryView) -> RepoGuardView {
    RepoGuardView { repo_path, repo, stage: GuardStage::Exists, validation: None }
}

impl RepoGuard {
    /// Starts checking the repository `repo` at `repo_path`.
    pub fn start(repo_path: String, repo: Repository) -> (res: (Request, RepoGuard))
        ensures
            res.1@ == initial_guard(repo_path@, repo@),
            res.1.wf(),
            res.0@ == guard_request(res.1@),
    {
        let req = Request::PathExists(repo_path.clone());
        (req, RepoGuard { repo_path, repo, stage: GuardStage::Exists, validation: None })
    }

    /// The request the guard is waiting on.
    pub fn request(&self) -> (res: Request)
        requires
            self.wf(),
        ensures
            res@ == guard_request(self@),
    {
        match self.stage {
            GuardStage::Exists => Request::PathExists(self.repo_path.clone()),
            GuardStage::IsDirectory => Request::IsDirectory(self.repo_path.clone()),
            GuardStage::Validate => match &self.validation {
                Some(v) => v.request(),
                None => Request::PathExists(self.repo_path.clone()),
            },
        }
    }

    fn directory_result(&self, exists: bool, is_dir: bool) -> (res: GuardResult)
        ensures
            guard_result_view(res) == directory_problem(self@, exists, is_dir),
    {
        match crate::git::validate_repository_directory(self.repo_path.as_str(), self.repo.name.as_str(), exists, is_dir) {
            Err(e) => GuardResult::DirectoryProblem(e),
            Ok(()) => GuardResult::Passed,
        }
    }

    /// The guard's next step once its request was answered with `reply`.
    pub fn resume(self, reply: Reply) -> (res: Step<RepoGuard, GuardResult>)
        requires
            self.wf(),
        ensures
            guard_step_is(res, guard_next(self@, reply)),
    {
        let mut g = self;
        match g.stage {
            GuardStage::Exists => match reply {
                Reply::Flag(true) => {
                    g.stage = GuardStage::IsDirectory;
                    let req = g.request();
                    Step::Ask(quiet(), req, g)
                },
                Reply::Flag(false) => {
                    let r = g.directory_result(false, false);
                    Step::Done(quiet(), r)
                },
                _ => Step::Done(quiet(), GuardResult::DirectoryProblem(ViewyardError::new(ErrorKind::UnexpectedReply))),
            },
            GuardStage::IsDirectory => match reply {
                Reply::Flag(true) => {
                    let (_, v) = validate_repository_for_operations(g.repo_path.as_str(), &g.repo);
                    g.validation = Some(v);
                    g.stage = GuardStage::Validate;
                    let req = g.request();
                    Step::Ask(quiet(), req, g)
                },
                Reply::Flag(false) => {
                    let r = g.directory_result(true, false);
                    Step::Done(quiet(), r)
                },
                _ => Step::Done(quiet(), GuardResult::DirectoryProblem(ViewyardError::new(ErrorKind::UnexpectedReply))),
            },
            GuardStage::Validate => {
                let v = g.validation.take();
                match v {
                    None => Step::Done(quiet(), GuardResult::Passed),
                    Some(v) => match v.resume(reply) {
                        Step::Ask(ns, req, w) => {
                            g.validation = Some(w);
                            Step::Ask(ns, req, g)
                        },
                        Step::Done(ns, Ok(())) => Step::Done(ns, GuardResult::Passed),
                        Step::Done(ns, Err(e)) => Step::Done(ns, GuardResult::OperationsProblem(e)),
                    },
                }
            },
        }
    }
}

} // verus!
