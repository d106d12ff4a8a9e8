//! Setting a repository up in a view: cloning it, configuring its git user, and putting
//! it on the view's branch.
use vstd::prelude::*;
pub use crate::session::info;

use crate::command::invocation_of;
use crate::command::utf8_lossy;
use crate::command::InvocationView;
use crate::command::ProcessOutcome;
use crate::error::lit;
use crate::error::plain;
use crate::error::within;
use crate::error::ErrorKind;
use crate::error::ErrorKindView;
use crate::error::ViewyardError;
use crate::error::ViewyardErrorView;
use crate::git::initial_setup;
use crate::git::user_setup_command;
use crate::git::user_setup_next;
use crate::git::GitUserSetup;
use crate::git::GitUserSetupView;
use crate::git::UserSetupNext;
use crate::github::io_error;
use crate::guard::initial_validation;
use crate::guard::validation_next;
use crate::guard::validation_request;
use crate::guard::validation_wf;
use crate::guard::RepoValidation;
use crate::guard::RepoValidationView;
use crate::guard::ValidationNext;
use crate::models::Repository;
use crate::models::RepositoryView;
use crate::session::joined_path;
use crate::session::join_path;
use crate::session::notice;
use crate::session::notice_views;
use crate::session::quiet;
use crate::session::tell;
use crate::session::tell_chars;
use crate::session::Notice;
use crate::session::NoticeLevel;
use crate::session::NoticeView;
use crate::session::Reply;
use crate::session::Request;
use crate::session::RequestView;
use crate::session::Step;
use crate::text::chars_of;
use crate::text::contains;
use crate::text::contains_chars;
use crate::text::push_str;
use crate::view::repo_account_of;

verus! {

/// How a repository is set up.
#[derive(Debug, Clone, Copy, PartialEq, Eq, Structural)]
pub enum SetupMode {
    /// In a new view: the clone is checked like any repository worked on.
    Fresh,
    /// Added to an existing view: nothing is done when it is already there.
    InView,
}

#[derive(Debug, Clone, Copy, PartialEq, Eq, Structural)]
pub enum SetupStage {
    /// Asking whether the repository is already there.
    Exists,
    /// Cloning it.
    Clone,
    /// Checking it (`validate_repository_for_operations`).
    Validate,
    /// Configuring its git user.
    Configure,
    /// Checking out the view's branch.
    Checkout,
    /// Creating the branch.
    Create,
}

/// Setting the repository `repo` up in the directory `dir` on `branch`.
#[derive(Debug)]
pub struct RepoSetup {
    pub mode: SetupMode,
    pub dir: String,
    pub repo: Repository,
    pub branch: String,
    pub stage: SetupStage,
    pub validation: Option<RepoValidation>,
    pub user: Option<GitUserSetup>,
}

pub struct RepoSetupView {
    pub mode: SetupMode,
    pub dir: Seq<char>,
    pub repo: RepositoryView,
    pub branch: Seq<char>,
    pub stage: SetupStage,
    pub validation: Option<RepoValidationView>,
    pub user: Option<GitUserSetupView>,
}

impl View for RepoSetup {
    type V = RepoSetupView;

    open spec fn view(&self) -> RepoSetupView {
        RepoSetupView {
            mode: self.mode,
            dir: self.dir@,
            repo: self.repo@,
            branch: self.branch@,
            stage: self.stage,
            validation: match self.validation {
                Some(v) => Some(v@),
                None => None,
            },
            user: match self.user {
                Some(u) => Some(u@),
                None => None,
            },
        }
    }
}

pub open spec fn setup_wf(v: RepoSetupView) -> bool {
    &&& (v.stage == SetupStage::Validate ==> v.validation is Some && validation_wf(v.validation->0))
    &&& (v.stage == SetupStage::Configure ==> v.user is Some)
}

impl RepoSetup {
    pub open spec fn wf(&self) -> bool {
        setup_wf(self@)
    }
}

/// Where the repository is cloned to.
pub open spec fn clone_path(v: RepoSetupView) -> Seq<char> {
    joined_path(v.dir, v.repo.name)
}

pub open spec fn clone_command(v: RepoSetupView) -> InvocationView {
    invocation_of(seq!["clone"@, v.repo.url, v.repo.name], Some(v.dir))
}

pub open spec fn setup_request(v: RepoSetupView) -> RequestView {
    let path = clone_path(v);
    match v.stage {
        SetupStage::Exists => RequestView::PathExists(path),
        SetupStage::Clone => RequestView::Run(clone_command(v)),
        SetupStage::Validate => validation_request(v.validation->0),
        SetupStage::Configure => RequestView::Run(user_setup_command(v.user->0)),
        SetupStage::Checkout => RequestView::Run(invocation_of(seq!["checkout"@, v.branch], Some(path))),
        SetupStage::Create => RequestView::Run(invocation_of(seq!["checkout"@, "-b"@, v.branch], Some(path))),
    }
}

/// How a failed clone into an existing view is reported, by what its error output says.
pub open spec fn clone_failure(name: Seq<char>, stderr: Seq<char>) -> (Seq<NoticeView>, ErrorKindView) {
    if contains(stderr, "Permission denied"@) || contains(stderr, "publickey"@) {
        (
            seq![
                notice(NoticeLevel::Error, "SSH authentication failed for "@ + name),
                info("SSH key issues detected:"@),
                info("   • Test SSH connection: ssh -T git@github.com"@),
                info("   • Add SSH key to GitHub: gh auth refresh -h github.com -s admin:public_key"@),
            ],
            ErrorKindView::SshAuthFailed { repo: name },
        )
    } else if contains(stderr, "not found"@) || contains(stderr, "does not exist"@) {
        (
            seq![
                notice(NoticeLevel::Error, "Repository not found: "@ + name),
                info("Repository access issues:"@),
                info("   • Verify repository exists: gh repo view "@ + name),
                info("   • Check repository URL in .viewyard-repos.json"@),
                info("   • Ensure you have access to this repository"@),
            ],
            ErrorKindView::RepoNotFound { repo: name },
        )
    } else {
        (seq![], ErrorKindView::CloneFailed { repo: name, stderr })
    }
}

pub enum SetupNext {
    Continue(RepoSetupView),
    Finished(Result<(), ViewyardErrorView>),
}

pub open spec fn at_stage(v: RepoSetupView, stage: SetupStage) -> RepoSetupView {
    RepoSetupView { stage, ..v }
}

/// After a successful clone: a new view's repository is checked, an added one has its git
/// user configured when its account is known.
pub open spec fn after_clone(v: RepoSetupView) -> (Seq<NoticeView>, SetupNext) {
    match v.mode {
        SetupMode::Fresh => (
            seq![info("  Cloned "@ + v.repo.name)],
            SetupNext::Continue(
                RepoSetupView {
                    stage: SetupStage::Validate,
                    validation: Some(initial_validation(clone_path(v), v.repo)),
                    ..v
                },
            ),
        ),
        SetupMode::InView => match repo_account_of(v.repo) {
            Some(a) => (
                seq![],
                SetupNext::Continue(
                    RepoSetupView {
                        stage: SetupStage::Configure,
                        user: Some(initial_setup(clone_path(v), a, None)),
                        ..v
                    },
                ),
            ),
            None => (seq![], SetupNext::Continue(at_stage(v, SetupStage::Checkout))),
        },
    }
}

/// The next move of setting up once `reply` came.
pub open spec fn setup_next(v: RepoSetupView, reply: Reply) -> (Seq<NoticeView>, SetupNext) {
    let unexpected = plain(ErrorKindView::UnexpectedReply);
    match v.stage {
        SetupStage::Exists => match reply {
            Reply::Flag(true) => (seq![], SetupNext::Finished(Ok(()))),
            Reply::Flag(false) => (seq![], SetupNext::Continue(at_stage(v, SetupStage::Clone))),
            _ => (seq![], SetupNext::Finished(Err(unexpected))),
        },
        SetupStage::Clone => match reply {
            Reply::Ran(ProcessOutcome::SpawnFailed(c)) => (seq![], SetupNext::Finished(Err(io_error(c@, "Failed to execute git clone"@)))),
            Reply::Ran(ProcessOutcome::Finished(out)) => if out.success {
                after_clone(v)
            } else {
                let stderr = utf8_lossy(out.stderr@);
                match v.mode {
                    SetupMode::Fresh => (
                        seq![],
                        SetupNext::Finished(Err(plain(ErrorKindView::CloneFailed { repo: v.repo.name, stderr }))),
                    ),
                    SetupMode::InView => {
                        let (ns, k) = clone_failure(v.repo.name, stderr);
                        (ns, SetupNext::Finished(Err(plain(k))))
                    },
                }
            },
            _ => (seq![], SetupNext::Finished(Err(unexpected))),
        },
        SetupStage::Validate => {
            let (ns, nx) = validation_next(v.validation->0, reply);
            match nx {
                ValidationNext::Continue(w) => (ns, SetupNext::Continue(RepoSetupView { validation: Some(w), ..v })),
                ValidationNext::Finished(Err(e)) => (
                    ns,
                    SetupNext::Finished(Err(within(e, "Failed to configure git user for repository: "@ + v.repo.name))),
                ),
                ValidationNext::Finished(Ok(_)) => (ns, SetupNext::Continue(RepoSetupView { validation: None, ..at_stage(v, SetupStage::Checkout) })),
            }
        },
        SetupStage::Configure => match reply {
            Reply::Ran(o) => match user_setup_next(v.user->0, o) {
                UserSetupNext::Ask(st) => (seq![], SetupNext::Continue(RepoSetupView { user: Some(st), ..v })),
                UserSetupNext::Done(Err(e)) => (seq![], SetupNext::Finished(Err(e))),
                UserSetupNext::Done(Ok(n)) => (
                    match n {
                        Some(t) => seq![info(t)],
                        None => seq![],
                    },
                    SetupNext::Continue(RepoSetupView { user: None, ..at_stage(v, SetupStage::Checkout) }),
                ),
            },
            _ => (seq![], SetupNext::Finished(Err(unexpected))),
        },
        SetupStage::Checkout => match reply {
            Reply::Ran(ProcessOutcome::SpawnFailed(c)) => (seq![], SetupNext::Finished(Err(io_error(c@, "Failed to execute git checkout"@)))),
            Reply::Ran(ProcessOutcome::Finished(out)) => if out.success {
                (seq![info("    Checked out branch '"@ + v.branch + "'"@)], SetupNext::Finished(Ok(())))
            } else {
                (seq![], SetupNext::Continue(at_stage(v, SetupStage::Create)))
            },
            _ => (seq![], SetupNext::Finished(Err(unexpected))),
        },
        SetupStage::Create => match reply {
            Reply::Ran(ProcessOutcome::SpawnFailed(c)) => (seq![], SetupNext::Finished(Err(io_error(c@, "Failed to create new branch"@)))),
            Reply::Ran(ProcessOutcome::Finished(out)) => if out.success {
                (seq![info("    Created new branch '"@ + v.branch + "'"@)], SetupNext::Finished(Ok(())))
            } else {
                (
                    seq![],
                    SetupNext::Finished(
                        Err(plain(ErrorKindView::BranchCreateFailed { branch: v.branch, stderr: utf8_lossy(out.stderr@) })),
                    ),
                )
            },
            _ => (seq![], SetupNext::Finished(Err(unexpected))),
        },
    }
}

pub open spec fn setup_step_is(step: Step<RepoSetup, Result<(), ViewyardError>>, next: (Seq<NoticeView>, SetupNext)) -> bool {
    match next.1 {
        SetupNext::Continue(v) => step matches Step::Ask(ns, req, s) && notice_views(ns@) == next.0 && s@ == v && s.wf()
            && req@ == setup_request(v),
        SetupNext::Finished(r) => step matches Step::Done(ns, x) && notice_views(ns@) == next.0
            && crate::command::unit_result_view(x) == r,
    }
}

pub open spec fn initial_repo_setup(mode: SetupMode, dir: Seq<char>, repo: RepositoryView, branch: Seq<char>) -> RepoSetupView {
    RepoSetupView {
        mode,
        dir,
        repo,
        branch,
        stage: match mode {
            SetupMode::Fresh => SetupStage::Clone,
            SetupMode::InView => SetupStage::Exists,
        },
        validation: None,
        user: None,
    }
}

fn clone_failure_of(name: &str, stderr: &String) -> (res: (Vec<Notice>, ErrorKind))
    ensures
        notice_views(res.0@) == clone_failure(name@, stderr@).0,
        res.1@ == clone_failure(name@, stderr@).1,
{
    let t = chars_of(stderr.as_str());
    let mut ns = quiet();
    if contains_chars(&t, &chars_of("Permission denied")) || contains_chars(&t, &chars_of("publickey")) {
        let mut a = chars_of("SSH authentication failed for ");
        push_str(&mut a, name);
        tell_chars(&mut ns, NoticeLevel::Error, a);
        tell(&mut ns, NoticeLevel::Info, "SSH key issues detected:");
        tell(&mut ns, NoticeLevel::Info, "   • Test SSH connection: ssh -T git@github.com");
        tell(&mut ns, NoticeLevel::Info, "   • Add SSH key to GitHub: gh auth refresh -h github.com -s admin:public_key");
        assert(notice_views(ns@) =~= clone_failure(name@, stderr@).0);
        (ns, ErrorKind::SshAuthFailed { repo: lit(name) })
    } else if contains_chars(&t, &chars_of("not found")) || contains_chars(&t, &chars_of("does not exist")) {
        let mut a = chars_of("Repository not found: ");
        push_str(&mut a, name);
        tell_chars(&mut ns, NoticeLevel::Error, a);
        tell(&mut ns, NoticeLevel::Info, "Repository access issues:");
        let mut b = chars_of("   • Verify repository exists: gh repo view ");
        push_str(&mut b, name);
        tell_chars(&mut ns, NoticeLevel::Info, b);
        tell(&mut ns, NoticeLevel::Info, "   • Check repository URL in .viewyard-repos.json");
        tell(&mut ns, NoticeLevel::Info, "   • Ensure you have access to this repository");
        assert(notice_views(ns@) =~= clone_failure(name@, stderr@).0);
        (ns, ErrorKind::RepoNotFound { repo: lit(name) })
    } else {
        (ns, ErrorKind::CloneFailed { repo: lit(name), stderr: stderr.clone() })
    }
}

fn io_failure(cause: &String, context: &str) -> (res: ViewyardError)
    ensures
        res@ == io_error(cause@, context@),
{
    ViewyardError::new(ErrorKind::Io { cause: cause.clone() }).context(lit(context))
}

fn say_branch(before: &str, branch: &str) -> (res: Vec<Notice>)
    ensures
        notice_views(res@) == seq![info(before@ + branch@ + "'"@)],
{
    let mut t = chars_of(before);
    push_str(&mut t, branch);
    push_str(&mut t, "'");
    let mut ns = quiet();
    tell_chars(&mut ns, NoticeLevel::Info, t);
    assert(notice_views(ns@) =~= seq![info(before@ + branch@ + "'"@)]);
    ns
}

impl RepoSetup {
    /// Starts setting `repo` up in `dir` on `branch`.
    pub fn start(mode: SetupMode, dir: String, repo: Repository, branch: String) -> (res: RepoSetup)
        ensures
            res@ == initial_repo_setup(mode, dir@, repo@, branch@),
            res.wf(),
    {
        let stage = match mode {
            SetupMode::Fresh => SetupStage::Clone,
            SetupMode::InView => SetupStage::Exists,
        };
        RepoSetup { mode, dir, repo, branch, stage, validation: None, user: None }
    }

    /// The request setting up is waiting on.
    pub fn request(&self) -> (res: Request)
        requires
            self.wf(),
        ensures
            res@ == setup_request(self@),
    {
        let path = join_path(self.dir.as_str(), self.repo.name.as_str());
        match self.stage {
            SetupStage::Exists => Request::PathExists(path),
            SetupStage::Clone => {
                let args = [self.repo.url.as_str(), self.repo.name.as_str()];
                let inv = crate::command::git_invocation(&["clone", args[0], args[1]], Some(self.dir.as_str()));
                assert(crate::command::str_views(seq!["clone", args[0], args[1]]) =~= seq!["clone"@, self.repo.url@, self.repo.name@]);
                Request::Run(inv)
            },
            SetupStage::Validate => match &self.validation {
                Some(v) => v.request(),
                None => Request::PathExists(path),
            },
            SetupStage::Configure => match &self.user {
                Some(u) => Request::Run(u.command()),
                None => Request::PathExists(path),
            },
            SetupStage::Checkout => {
                let b = self.branch.as_str();
                let inv = crate::command::git_invocation(&["checkout", b], Some(path.as_str()));
                assert(crate::command::str_views(seq!["checkout", b]) =~= seq!["checkout"@, self.branch@]);
                Request::Run(inv)
            },
            SetupStage::Create => {
                let b = self.branch.as_str();
                let inv = crate::command::git_invocation(&["checkout", "-b", b], Some(path.as_str()));
                assert(crate::command::str_views(seq!["checkout", "-b", b]) =~= seq!["checkout"@, "-b"@, self.branch@]);
                Request::Run(inv)
            },
        }
    }

    fn ask(self, ns: Vec<Notice>) -> (res: Step<RepoSetup, Result<(), ViewyardError>>)
        requires
            self.wf(),
        ensures
            res matches Step::Ask(ns2, req, s) && ns2@ == ns@ && s@ == self@ && s.wf() && req@ == setup_request(self@),
    {
        let req = self.request();
        Step::Ask(ns, req, self)
    }

    fn cloned(self) -> (res: Step<RepoSetup, Result<(), ViewyardError>>)
        ensures
            setup_step_is(res, after_clone(self@)),
    {
        let mut s = self;
        let path = join_path(s.dir.as_str(), s.repo.name.as_str());
        match s.mode {
            SetupMode::Fresh => {
                let mut t = chars_of("  Cloned ");
                push_str(&mut t, s.repo.name.as_str());
                let mut ns = quiet();
                tell_chars(&mut ns, NoticeLevel::Info, t);
                let (_, v) = crate::guard::validate_repository_for_operations(path.as_str(), &s.repo);
                s.validation = Some(v);
                s.stage = SetupStage::Validate;
                assert(notice_views(ns@) =~= after_clone(self@).0);
                s.ask(ns)
            },
            SetupMode::InView => {
                let account: Option<String> = match &s.repo.account {
                    Some(a) => Some(a.clone()),
                    None => match crate::git::extract_account_from_source(s.repo.source.as_str()) {
                        Ok(a) => Some(a),
                        Err(_) => None,
                    },
                };
                assert(crate::models::opt_view(account) == repo_account_of(s@.repo));
                match account {
                    Some(a) => {
                        s.user = Some(GitUserSetup::start(path, a, None));
                        s.stage = SetupStage::Configure;
                        s.ask(quiet())
                    },
                    None => {
                        s.stage = SetupStage::Checkout;
                        s.ask(quiet())
                    },
                }
            },
        }
    }

    /// Setting up's next step once its request was answered with `reply`.
    pub fn resume(self, reply: Reply) -> (res: Step<RepoSetup, Result<(), ViewyardError>>)
        requires
            self.wf(),
        ensures
            setup_step_is(res, setup_next(self@, reply)),
    {
        let mut s = self;
        match s.stage {
            SetupStage::Exists => match reply {
                Reply::Flag(true) => Step::Done(quiet(), Ok(())),
                Reply::Flag(false) => {
                    s.stage = SetupStage::Clone;
                    s.ask(quiet())
                },
                _ => Step::Done(quiet(), Err(ViewyardError::new(ErrorKind::UnexpectedReply))),
            },
            SetupStage::Clone => match reply {
                Reply::Ran(ProcessOutcome::SpawnFailed(c)) => Step::Done(quiet(), Err(io_failure(&c, "Failed to execute git clone"))),
                Reply::Ran(ProcessOutcome::Finished(out)) => {
                    if out.success {
                        s.cloned()
                    } else {
                        let stderr = crate::command::lossy_text(&out.stderr);
                        match s.mode {
                            SetupMode::Fresh => Step::Done(
                                quiet(),
                                Err(ViewyardError::new(ErrorKind::CloneFailed { repo: s.repo.name.clone(), stderr })),
                            ),
                            SetupMode::InView => {
                                let (ns, k) = clone_failure_of(s.repo.name.as_str(), &stderr);
                                Step::Done(ns, Err(ViewyardError::new(k)))
                            },
                        }
                    }
                },
                _ => Step::Done(quiet(), Err(ViewyardError::new(ErrorKind::UnexpectedReply))),
            },
            SetupStage::Validate => {
                let v = s.validation.take();
                match v {
                    None => Step::Done(quiet(), Ok(())),
                    Some(v) => match v.resume(reply) {
                        Step::Ask(ns, req, w) => {
                            s.validation = Some(w);
                            Step::Ask(ns, req, s)
                        },
                        Step::Done(ns, Err(e)) => {
                            let mut c = chars_of("Failed to configure git user for repository: ");
                            push_str(&mut c, s.repo.name.as_str());
                            Step::Done(ns, Err(e.context(crate::text::string_of(&c))))
                        },
                        Step::Done(ns, Ok(())) => {
                            s.stage = SetupStage::Checkout;
                            s.ask(ns)
                        },
                    },
                }
            },
            SetupStage::Configure => match reply {
                Reply::Ran(o) => {
                    let u = s.user.take();
                    match u {
                        None => Step::Done(quiet(), Ok(())),
                        Some(u) => match u.resume(&o) {
                            Step::Ask(_, _, u2) => {
                                s.user = Some(u2);
                                s.ask(quiet())
                            },
                            Step::Done(_, Err(e)) => Step::Done(quiet(), Err(e)),
                            Step::Done(_, Ok(n)) => {
                                let mut ns = quiet();
                                match n {
                                    Some(t) => tell_chars(&mut ns, NoticeLevel::Info, chars_of(t.as_str())),
                                    None => {},
                                }
                                s.stage = SetupStage::Checkout;
                                s.ask(ns)
                            },
                        },
                    }
                },
                _ => Step::Done(quiet(), Err(ViewyardError::new(ErrorKind::UnexpectedReply))),
            },
            SetupStage::Checkout => match reply {
                Reply::Ran(ProcessOutcome::SpawnFailed(c)) => Step::Done(quiet(), Err(io_failure(&c, "Failed to execute git checkout"))),
                Reply::Ran(ProcessOutcome::Finished(out)) => {
                    if out.success {
                        Step::Done(say_branch("    Checked out branch '", s.branch.as_str()), Ok(()))
                    } else {
                        s.stage = SetupStage::Create;
                        s.ask(quiet())
                    }
                },
                _ => Step::Done(quiet(), Err(ViewyardError::new(ErrorKind::UnexpectedReply))),
            },
            SetupStage::Create => match reply {
                Reply::Ran(ProcessOutcome::SpawnFailed(c)) => Step::Done(quiet(), Err(io_failure(&c, "Failed to create new branch"))),
                Reply::Ran(ProcessOutcome::Finished(out)) => {
                    if out.success {
                        Step::Done(say_branch("    Created new branch '", s.branch.as_str()), Ok(()))
                    } else {
                        let stderr = crate::command::lossy_text(&out.stderr);
                        Step::Done(quiet(), Err(ViewyardError::new(ErrorKind::BranchCreateFailed { branch: s.branch.clone(), stderr })))
                    }
                },
                _ => Step::Done(quiet(), Err(ViewyardError::new(ErrorKind::UnexpectedReply))),
            },
        }
    }
}

} // verus!
