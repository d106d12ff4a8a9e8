//! The first pass of the workspace commands over the repositories of a view: each is
//! checked, then asked whether it needs the command.
use vstd::prelude::*;
pub use crate::session::warning;

use crate::command::git_text;
use crate::command::invocation_of;
use crate::command::InvocationView;
use crate::command::ProcessOutcome;
use crate::error::error_message;
use crate::error::plain;
use crate::error::ErrorKind;
use crate::error::ErrorKindView;
use crate::error::ViewyardError;
use crate::error::ViewyardErrorView;
use crate::git::unpushed;
use crate::git::STATUS_ARGS;
use crate::git::UNPUSHED_ARGS;
use crate::guard::guard_next;
use crate::guard::guard_request;
use crate::guard::guard_wf;
use crate::guard::initial_guard;
use crate::guard::GuardNext;
use crate::guard::GuardOutcome;
use crate::guard::GuardResult;
use crate::guard::RepoGuard;
use crate::guard::RepoGuardView;
use crate::models::repo_views;
use crate::models::Repository;
use crate::models::RepositoryView;
use crate::session::joined_path;
use crate::session::join_path;
use crate::session::notice_views;
use crate::session::quiet;
use crate::session::tell_chars;
use crate::session::Notice;
use crate::session::NoticeLevel;
use crate::session::NoticeView;
use crate::session::Reply;
use crate::session::Request;
use crate::session::RequestView;
use crate::session::Step;
use crate::text::chars_of;
use crate::text::push_str;

verus! {

/// The directory of the repository named `name` in the view at `root`.
pub open spec fn repo_dir(root: Seq<char>, name: Seq<char>) -> Seq<char> {
    joined_path(root, name)
}

/// Whether `git status --porcelain` shows any change.
pub open spec fn changes(o: ProcessOutcome) -> Result<bool, ViewyardErrorView> {
    match git_text(invocation_of(STATUS_ARGS(), None), o) {
        Ok(s) => Ok(s.len() > 0),
        Err(e) => Err(e),
    }
}

/// What a command asks of each checked repository before choosing it.
#[derive(Debug, Clone, Copy, PartialEq, Eq, Structural)]
pub enum SurveyQuery {
    /// Nothing: every checked repository is chosen.
    Nothing,
    /// Whether it has uncommitted changes.
    Changes,
    /// Whether it has commits not pushed.
    Unpushed,
}

pub open spec fn query_command(q: SurveyQuery, dir: Seq<char>) -> InvocationView {
    match q {
        SurveyQuery::Unpushed => invocation_of(UNPUSHED_ARGS(), Some(dir)),
        _ => invocation_of(STATUS_ARGS(), Some(dir)),
    }
}

/// The answer to the query, from the reply to its command.
pub open spec fn query_answer(q: SurveyQuery, reply: Reply) -> Result<bool, ViewyardErrorView> {
    match reply {
        Reply::Ran(o) => match q {
            SurveyQuery::Unpushed => unpushed(o),
            _ => changes(o),
        },
        _ => Err(plain(ErrorKindView::UnexpectedReply)),
    }
}

pub open spec fn query_failure_text(q: SurveyQuery, name: Seq<char>, e: ViewyardErrorView) -> Seq<char> {
    match q {
        SurveyQuery::Unpushed => name + ": Error checking push status - "@ + error_message(e),
        _ => name + ": Error checking status - "@ + error_message(e),
    }
}

#[derive(Debug, Clone, Copy, PartialEq, Eq, Structural)]
pub enum SurveyStage {
    Guard,
    Query,
}

/// The first pass over the repositories of a view: a repository whose checks fail is
/// warned about and left out; the others are chosen when the query says so.
#[derive(Debug)]
pub struct Survey {
    pub root: String,
    pub repos: Vec<Repository>,
    pub query: SurveyQuery,
    pub index: usize,
    pub stage: SurveyStage,
    pub guard: Option<RepoGuard>,
    pub chosen: Vec<String>,
}

pub struct SurveyView {
    pub root: Seq<char>,
    pub repos: Seq<RepositoryView>,
    pub query: SurveyQuery,
    pub index: nat,
    pub stage: SurveyStage,
    pub guard: Option<RepoGuardView>,
    pub chosen: Seq<Seq<char>>,
}

impl View for Survey {
    type V = SurveyView;

    open spec fn view(&self) -> SurveyView {
        SurveyView {
            root: self.root@,
            repos: repo_views(self.repos@),
            query: self.query,
            index: self.index as nat,
            stage: self.stage,
            guard: match self.guard {
                Some(g) => Some(g@),
                None => None,
            },
            chosen: crate::error::string_views(self.chosen@),
        }
    }
}

pub open spec fn survey_wf(v: SurveyView) -> bool {
    &&& v.index < v.repos.len()
    &&& (v.stage == SurveyStage::Guard ==> (v.guard is Some && guard_wf(v.guard->0)))
    &&& (v.stage == SurveyStage::Query ==> v.query != SurveyQuery::Nothing)
}

impl Survey {
    pub open spec fn wf(&self) -> bool {
        survey_wf(self@)
    }
}

pub open spec fn current_dir_of(v: SurveyView) -> Seq<char> {
    repo_dir(v.root, v.repos[v.index as int].name)
}

pub open spec fn survey_request(v: SurveyView) -> RequestView {
    match v.stage {
        SurveyStage::Guard => guard_request(v.guard->0),
        SurveyStage::Query => RequestView::Run(query_command(v.query, current_dir_of(v))),
    }
}

pub enum SurveyNext {
    Continue(SurveyView),
    Finished(Seq<Seq<char>>),
}

/// The pass from the repository at `i` on: its guard starts, or, past the last
/// repository, the pass ends with the repositories chosen.
pub open spec fn survey_from(v: SurveyView, i: nat, ns: Seq<NoticeView>) -> (Seq<NoticeView>, SurveyNext) {
    if i < v.repos.len() {
        (
            ns,
            SurveyNext::Continue(
                SurveyView {
                    index: i,
                    stage: SurveyStage::Guard,
                    guard: Some(initial_guard(repo_dir(v.root, v.repos[i as int].name), v.repos[i as int])),
                    ..v
                },
            ),
        )
    } else {
        (ns, SurveyNext::Finished(v.chosen))
    }
}

pub open spec fn choose_current(v: SurveyView) -> SurveyView {
    SurveyView { chosen: v.chosen.push(v.repos[v.index as int].name), ..v }
}

/// The pass's next move once `reply` came.
pub open spec fn survey_next(v: SurveyView, reply: Reply) -> (Seq<NoticeView>, SurveyNext) {
    let name = v.repos[v.index as int].name;
    match v.stage {
        SurveyStage::Guard => {
            let (ns, gx) = guard_next(v.guard->0, reply);
            match gx {
                GuardNext::Continue(g) => (ns, SurveyNext::Continue(SurveyView { guard: Some(g), ..v })),
                GuardNext::Finished(GuardOutcome::DirectoryProblem(e)) => survey_from(
                    v,
                    v.index + 1,
                    ns.push(warning(name + ": "@ + error_message(e))),
                ),
                GuardNext::Finished(GuardOutcome::OperationsProblem(e)) => survey_from(
                    v,
                    v.index + 1,
                    ns.push(warning(name + ": "@ + error_message(e))),
                ),
                GuardNext::Finished(GuardOutcome::Passed) => if v.query == SurveyQuery::Nothing {
                    survey_from(choose_current(v), v.index + 1, ns)
                } else {
                    (ns, SurveyNext::Continue(SurveyView { stage: SurveyStage::Query, guard: None, ..v }))
                },
            }
        },
        SurveyStage::Query => match query_answer(v.query, reply) {
            Ok(true) => survey_from(choose_current(v), v.index + 1, seq![]),
            Ok(false) => survey_from(v, v.index + 1, seq![]),
            Err(e) => survey_from(v, v.index + 1, seq![warning(query_failure_text(v.query, name, e))]),
        },
    }
}

pub open spec fn initial_survey(root: Seq<char>, repos: Seq<RepositoryView>, query: SurveyQuery) -> SurveyView {
    SurveyView { root, repos, query, index: 0, stage: SurveyStage::Guard, guard: None, chosen: seq![] }
}

pub open spec fn survey_step_is(step: Step<Survey, Vec<String>>, next: (Seq<NoticeView>, SurveyNext)) -> bool {
    match next.1 {
        SurveyNext::Continue(v) => step matches Step::Ask(ns, req, s) && notice_views(ns@) == next.0 && s@ == v && s.wf()
            && req@ == survey_request(v),
        SurveyNext::Finished(c) => step matches Step::Done(ns, x) && notice_views(ns@) == next.0
            && crate::error::string_views(x@) == c,
    }
}

fn text_after_name(name: &str, middle: &str, e: &ViewyardError) -> (res: Vec<char>)
    ensures
        res@ == name@ + middle@ + error_message(e@),
{
    let mut t = chars_of(name);
    push_str(&mut t, middle);
    push_str(&mut t, e.message().as_str());
    t
}

impl Survey {
    /// Starts the pass over `repos`, the repositories of the view at `root`.
    pub fn start(root: String, repos: Vec<Repository>, query: SurveyQuery) -> (res: Step<Survey, Vec<String>>)
        ensures
            survey_step_is(res, survey_from(initial_survey(root@, repo_views(repos@), query), 0, seq![])),
    {
        let s = Survey { root, repos, query, index: 0, stage: SurveyStage::Guard, guard: None, chosen: Vec::new() };
        assert(crate::error::string_views(s.chosen@) =~= seq![]);
        s.from(0, quiet())
    }

    /// The request the pass is waiting on.
    pub fn request(&self) -> (res: Request)
        requires
            self.wf(),
        ensures
            res@ == survey_request(self@),
    {
        match self.stage {
            SurveyStage::Guard => match &self.guard {
                Some(g) => g.request(),
                None => Request::PathExists(self.root.clone()),
            },
            SurveyStage::Query => {
                let dir = join_path(self.root.as_str(), self.repos[self.index].name.as_str());
                match self.query {
                    SurveyQuery::Unpushed => Request::Run(crate::git::count_unpushed_commits(dir.as_str())),
                    _ => Request::Run(crate::git::get_status(dir.as_str())),
                }
            },
        }
    }

    fn from(self, i: usize, ns: Vec<Notice>) -> (res: Step<Survey, Vec<String>>)
        requires
            i <= self.repos.len(),
        ensures
            survey_step_is(res, survey_from(self@, i as nat, notice_views(ns@))),
    {
        let mut s = self;
        if i < s.repos.len() {
            let dir = join_path(s.root.as_str(), s.repos[i].name.as_str());
            let (_, g) = RepoGuard::start(dir, s.repos[i].clone());
            s.index = i;
            s.stage = SurveyStage::Guard;
            s.guard = Some(g);
            let req = s.request();
            Step::Ask(ns, req, s)
        } else {
            Step::Done(ns, s.chosen)
        }
    }

    fn take_current(&mut self)
        requires
            old(self).index < old(self).repos.len(),
        ensures
            final(self)@ == choose_current(old(self)@),
    {
        let name = self.repos[self.index].name.clone();
        let ghost before = self.chosen@;
        self.chosen.push(name);
        assert(crate::error::string_views(self.chosen@) =~= crate::error::string_views(before).push(name@));
    }

    /// The pass's next step once its request was answered with `reply`.
    pub fn resume(self, reply: Reply) -> (res: Step<Survey, Vec<String>>)
        requires
            self.wf(),
        ensures
            survey_step_is(res, survey_next(self@, reply)),
    {
        let mut s = self;
        let i = s.index;
        assert(i < s.repos.len());
        match s.stage {
            SurveyStage::Guard => {
                let g = s.guard.take();
                match g {
                    None => Step::Done(quiet(), s.chosen),
                    Some(g) => match g.resume(reply) {
                        Step::Ask(ns, req, g2) => {
                            s.guard = Some(g2);
                            Step::Ask(ns, req, s)
                        },
                        Step::Done(mut ns, r) => match r {
                            GuardResult::DirectoryProblem(e) => {
                                let t = text_after_name(s.repos[i].name.as_str(), ": ", &e);
                                tell_chars(&mut ns, NoticeLevel::Warning, t);
                                s.from(i + 1, ns)
                            },
                            GuardResult::OperationsProblem(e) => {
                                let t = text_after_name(s.repos[i].name.as_str(), ": ", &e);
                                tell_chars(&mut ns, NoticeLevel::Warning, t);
                                s.from(i + 1, ns)
                            },
                            GuardResult::Passed => {
                                if s.query == SurveyQuery::Nothing {
                                    s.take_current();
                                    s.from(i + 1, ns)
                                } else {
                                    s.stage = SurveyStage::Query;
                                    let req = s.request();
                                    Step::Ask(ns, req, s)
                                }
                            },
                        },
                    },
                }
            },
            SurveyStage::Query => {
                let answer: Result<bool, ViewyardError> = match reply {
                    Reply::Ran(o) => match s.query {
                        SurveyQuery::Unpushed => crate::git::has_unpushed_commits(&o),
                        _ => match crate::git::has_uncommitted_changes(&o) {
                            Ok(b) => Ok(b),
                            Err(e) => Err(e),
                        },
                    },
                    _ => Err(ViewyardError::new(ErrorKind::UnexpectedReply)),
                };
                assert(crate::command::bool_result_view(answer) == query_answer(s@.query, reply));
                match answer {
                    Ok(true) => {
                        s.take_current();
                        s.from(i + 1, quiet())
                    },
                    Ok(false) => s.from(i + 1, quiet()),
                    Err(e) => {
                        let middle = match s.query {
                            SurveyQuery::Unpushed => ": Error checking push status - ",
                            _ => ": Error checking status - ",
                        };
                        let t = text_after_name(s.repos[i].name.as_str(), middle, &e);
                        let mut ns = quiet();
                        tell_chars(&mut ns, NoticeLevel::Warning, t);
                        assert(notice_views(ns@) =~= seq![warning(query_failure_text(s@.query, s@.repos[i as int].name, e@))]);
                        s.from(i + 1, ns)
                    },
                }
            },
        }
    }
}

} // verus!
