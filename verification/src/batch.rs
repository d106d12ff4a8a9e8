//! `commit-all` and `push-all`: each works on the repositories of the view that need it, stopping at the first failure.
use vstd::prelude::*;
use crate::command::unit_result_view;
pub use crate::session::info;
pub use crate::session::success;
pub use crate::session::failure;

use crate::command::git_ok;
use crate::command::invocation_of;
use crate::command::InvocationView;
use crate::error::error_message;
use crate::error::lit;
use crate::error::plain;
use crate::error::string_views;
use crate::error::within;
use crate::error::ErrorKind;
use crate::error::ErrorKindView;
use crate::error::ViewyardError;
use crate::error::ViewyardErrorView;
use crate::git::SshHostAliases;
use crate::session::join_path;
use crate::session::notice;
use crate::session::notice_views;
use crate::session::quiet;
use crate::session::tell;
use crate::session::tell_all;
use crate::session::tell_chars;
use crate::session::Notice;
use crate::session::NoticeLevel;
use crate::session::NoticeView;
use crate::session::Reply;
use crate::session::Request;
use crate::session::RequestView;
use crate::session::Step;
use crate::survey::initial_survey;
use crate::survey::repo_dir;
use crate::survey::survey_from;
use crate::survey::survey_next;
use crate::survey::survey_request;
use crate::survey::survey_wf;
use crate::survey::warning;
use crate::survey::Survey;
use crate::survey::SurveyNext;
use crate::survey::SurveyQuery;
use crate::survey::SurveyView;
use crate::text::chars_of;
use crate::text::decimal;
use crate::text::decimal_chars;
use crate::text::join;
use crate::text::join_chars;
use crate::text::push_all;
use crate::text::push_str;
use crate::text::views;
use crate::view::ViewContext;
use crate::checked_view::checked_next;
use crate::checked_view::checked_request;
use crate::checked_view::checked_start;
use crate::checked_view::checked_wf;
use crate::checked_view::CheckedLoad;
use crate::checked_view::CheckedLoadView;
use crate::checked_view::CheckedNext;

verus! {

/// Whether the command answered by `reply` ran and succeeded.
pub open spec fn ran_ok(inv: InvocationView, reply: Reply) -> Result<(), ViewyardErrorView> {
    match reply {
        Reply::Ran(o) => git_ok(inv, o),
        _ => Err(plain(ErrorKindView::UnexpectedReply)),
    }
}

/// The names joined by `, `, or `none`.
pub open spec fn names_or_none(names: Seq<Seq<char>>) -> Seq<char> {
    if names.len() == 0 {
        "none"@
    } else {
        join(names, ", "@)
    }
}

/// A command's next move: on, in a state, or done with its result.
pub enum RunNext<V> {
    Continue(V),
    Finished(Result<(), ViewyardErrorView>),
}

pub fn join_names(names: &Vec<String>) -> (res: Vec<char>)
    ensures
        res@ == join(string_views(names@), ", "@),
{
    let mut parts: Vec<Vec<char>> = Vec::new();
    let mut i: usize = 0;
    while i < names.len()
        invariant
            i <= names.len(),
            views(parts@) == string_views(names@).take(i as int),
        decreases names.len() - i,
    {
        let c = chars_of(names[i].as_str());
        proof {
            assert(views(parts@.push(c)) =~= views(parts@).push(c@));
            assert(string_views(names@).take(i + 1) =~= string_views(names@).take(i as int).push(names@[i as int]@));
        }
        parts.push(c);
        i = i + 1;
    }
    assert(string_views(names@).take(i as int) =~= string_views(names@));
    join_chars(&parts, &chars_of(", "))
}

pub(crate) fn names_or_none_of(names: &Vec<String>) -> (res: Vec<char>)
    ensures
        res@ == names_or_none(string_views(names@)),
{
    if names.len() == 0 {
        chars_of("none")
    } else {
        join_names(names)
    }
}

pub(crate) fn say_with(ns: &mut Vec<Notice>, level: NoticeLevel, before: &str, middle: &str)
    ensures
        notice_views(final(ns)@) == notice_views(old(ns)@).push(notice(level, before@ + middle@)),
{
    let mut t = chars_of(before);
    push_str(&mut t, middle);
    tell_chars(ns, level, t);
}

pub(crate) fn say_count(ns: &mut Vec<Notice>, level: NoticeLevel, before: &str, n: usize, after: &str)
    ensures
        notice_views(final(ns)@) == notice_views(old(ns)@).push(notice(level, before@ + decimal(n as nat) + after@)),
{
    let mut t = chars_of(before);
    push_all(&mut t, &decimal_chars(n as u64));
    push_str(&mut t, after);
    tell_chars(ns, level, t);
}

pub(crate) fn say_error(ns: &mut Vec<Notice>, level: NoticeLevel, before: &str, name: &str, e: &ViewyardError)
    ensures
        notice_views(final(ns)@) == notice_views(old(ns)@).push(notice(level, before@ + name@ + ": "@ + error_message(e@))),
{
    let mut t = chars_of(before);
    push_str(&mut t, name);
    push_str(&mut t, ": ");
    push_str(&mut t, e.message().as_str());
    tell_chars(ns, level, t);
}

/// Whether the command `inv` ran and succeeded, from the reply to it.
pub(crate) fn ran_ok_of(inv: &crate::command::Invocation, reply: &Reply) -> (res: Result<(), ViewyardError>)
    ensures
        unit_result_view(res) == ran_ok(inv@, *reply),
{
    match reply {
        Reply::Ran(o) => crate::command::run_git_command(inv, o),
        _ => Err(ViewyardError::new(ErrorKind::UnexpectedReply)),
    }
}

// ---------------------------------------------------------------------------
// commit-all
// ---------------------------------------------------------------------------

#[derive(Debug, Clone, Copy, PartialEq, Eq, Structural)]
pub enum CommitStage {
    /// Finding the view and checking the branches of its repositories.
    Loading,
    /// Finding the repositories with changes.
    Surveying,
    /// Staging every change of the current repository.
    Add,
    /// Committing it.
    Commit,
    /// Unstaging after a failed commit.
    Reset,
}

/// `commit-all`: commits every repository of the view that has uncommitted changes, with
/// one message, stopping at the first failure.
#[derive(Debug)]
pub struct CommitRun {
    pub message: String,
    pub stage: CommitStage,
    pub load: Option<CheckedLoad>,
    pub survey: Option<Survey>,
    pub root: String,
    pub targets: Vec<String>,
    pub index: usize,
    pub committed: Vec<String>,
}

pub struct CommitRunView {
    pub message: Seq<char>,
    pub stage: CommitStage,
    pub load: Option<CheckedLoadView>,
    pub survey: Option<SurveyView>,
    pub root: Seq<char>,
    pub targets: Seq<Seq<char>>,
    pub index: nat,
    pub committed: Seq<Seq<char>>,
}

impl View for CommitRun {
    type V = CommitRunView;

    open spec fn view(&self) -> CommitRunView {
        CommitRunView {
            message: self.message@,
            stage: self.stage,
            load: match self.load {
                Some(l) => Some(l@),
                None => None,
            },
            survey: match self.survey {
                Some(s) => Some(s@),
                None => None,
            },
            root: self.root@,
            targets: string_views(self.targets@),
            index: self.index as nat,
            committed: string_views(self.committed@),
        }
    }
}

pub open spec fn commit_wf(v: CommitRunView) -> bool {
    match v.stage {
        CommitStage::Loading => v.load is Some && checked_wf(v.load->0),
        CommitStage::Surveying => v.survey is Some && survey_wf(v.survey->0),
        _ => v.index < v.targets.len(),
    }
}

impl CommitRun {
    pub open spec fn wf(&self) -> bool {
        commit_wf(self@)
    }
}

pub open spec fn current_target_dir(root: Seq<char>, targets: Seq<Seq<char>>, index: nat) -> Seq<char> {
    repo_dir(root, targets[index as int])
}

pub open spec fn add_command(dir: Seq<char>) -> InvocationView {
    invocation_of(seq!["add"@, "."@], Some(dir))
}

pub open spec fn commit_command(message: Seq<char>, dir: Seq<char>) -> InvocationView {
    invocation_of(seq!["commit"@, "-m"@, message], Some(dir))
}

pub open spec fn reset_command(dir: Seq<char>) -> InvocationView {
    invocation_of(seq!["reset"@, "HEAD"@], Some(dir))
}

pub open spec fn commit_request(v: CommitRunView) -> RequestView {
    let dir = current_target_dir(v.root, v.targets, v.index);
    match v.stage {
        CommitStage::Loading => checked_request(v.load->0),
        CommitStage::Surveying => survey_request(v.survey->0),
        CommitStage::Add => RequestView::Run(add_command(dir)),
        CommitStage::Commit => RequestView::Run(commit_command(v.message, dir)),
        CommitStage::Reset => RequestView::Run(reset_command(dir)),
    }
}

/// Committing from the target at `j` on: its staging starts, or, past the last one, the
/// command ends with a summary of what was committed.
pub open spec fn commit_from(v: CommitRunView, j: nat, ns: Seq<NoticeView>) -> (Seq<NoticeView>, RunNext<CommitRunView>) {
    if j < v.targets.len() {
        (
            ns.push(info("Committing changes in "@ + v.targets[j as int])),
            RunNext::Continue(CommitRunView { stage: CommitStage::Add, index: j, ..v }),
        )
    } else if v.committed.len() > 0 {
        (
            ns.push(success("Successfully committed "@ + decimal(v.committed.len()) + " repositories: "@ + join(v.committed, ", "@))),
            RunNext::Finished(Ok(())),
        )
    } else {
        (ns, RunNext::Finished(Ok(())))
    }
}

/// Once the repositories with changes are known.
pub open spec fn commit_after_survey(v: CommitRunView, chosen: Seq<Seq<char>>, ns: Seq<NoticeView>) -> (Seq<NoticeView>, RunNext<CommitRunView>) {
    if chosen.len() == 0 {
        (ns.push(info("No repositories have uncommitted changes"@)), RunNext::Finished(Ok(())))
    } else {
        commit_from(
            CommitRunView { stage: CommitStage::Add, survey: None, targets: chosen, index: 0, committed: seq![], ..v },
            0,
            ns.push(info("Found "@ + decimal(chosen.len()) + " repositories with changes"@)),
        )
    }
}

pub open spec fn commit_surveyed(v: CommitRunView, ns: Seq<NoticeView>, sx: SurveyNext) -> (Seq<NoticeView>, RunNext<CommitRunView>) {
    match sx {
        SurveyNext::Continue(s) => (ns, RunNext::Continue(CommitRunView { stage: CommitStage::Surveying, load: None, survey: Some(s), ..v })),
        SurveyNext::Finished(chosen) => commit_after_survey(v, chosen, ns),
    }
}

pub open spec fn commit_loaded(v: CommitRunView, ns: Seq<NoticeView>, lx: CheckedNext) -> (Seq<NoticeView>, RunNext<CommitRunView>) {
    match lx {
        CheckedNext::Continue(l) => (ns, RunNext::Continue(CommitRunView { stage: CommitStage::Loading, load: Some(l), ..v })),
        CheckedNext::Finished(Err(e)) => (ns, RunNext::Finished(Err(within(e, "Failed to run 'viewyard commit-all'"@)))),
        CheckedNext::Finished(Ok(ctx)) => {
            let (sns, sx) = survey_from(initial_survey(ctx.view_root, ctx.active_repos, SurveyQuery::Changes), 0, seq![]);
            commit_surveyed(CommitRunView { root: ctx.view_root, load: None, ..v }, ns + sns, sx)
        },
    }
}

/// A commit that could not be made: it is reported and what was staged is unstaged.
pub open spec fn commit_failed(v: CommitRunView, e: ViewyardErrorView) -> (Seq<NoticeView>, RunNext<CommitRunView>) {
    (
        seq![failure("Failed to commit "@ + v.targets[v.index as int] + ": "@ + error_message(e))],
        RunNext::Continue(CommitRunView { stage: CommitStage::Reset, ..v }),
    )
}

/// The command's next move once `reply` came.
pub open spec fn commit_next(v: CommitRunView, reply: Reply) -> (Seq<NoticeView>, RunNext<CommitRunView>) {
    let dir = current_target_dir(v.root, v.targets, v.index);
    let target = v.targets[v.index as int];
    match v.stage {
        CommitStage::Loading => {
            let (ns, lx) = checked_next(v.load->0, reply);
            commit_loaded(v, ns, lx)
        },
        CommitStage::Surveying => {
            let (ns, sx) = survey_next(v.survey->0, reply);
            commit_surveyed(v, ns, sx)
        },
        CommitStage::Add => match ran_ok(add_command(dir), reply) {
            Ok(_) => (seq![], RunNext::Continue(CommitRunView { stage: CommitStage::Commit, ..v })),
            Err(e) => commit_failed(v, e),
        },
        CommitStage::Commit => match ran_ok(commit_command(v.message, dir), reply) {
            Ok(_) => commit_from(CommitRunView { committed: v.committed.push(target), ..v }, v.index + 1, seq![]),
            Err(e) => commit_failed(v, e),
        },
        CommitStage::Reset => {
            let w = match ran_ok(reset_command(dir), reply) {
                Err(re) => seq![warning("Failed to rollback staged changes in "@ + target + ": "@ + error_message(re))],
                Ok(_) => seq![],
            };
            (
                w + seq![
                    failure("Commit operation stopped due to failure"@),
                    info("Fix the issue in the failed repository and run the command again"@),
                    info("Successfully committed repositories: "@ + names_or_none(v.committed)),
                ],
                RunNext::Finished(Err(plain(ErrorKindView::CommitFailed { repo: target }))),
            )
        },
    }
}

pub open spec fn commit_header(message: Seq<char>) -> NoticeView {
    notice(NoticeLevel::Header, "Committing repositories with changes: "@ + message)
}

pub open spec fn initial_commit_run(message: Seq<char>) -> CommitRunView {
    CommitRunView {
        message,
        stage: CommitStage::Loading,
        load: None,
        survey: None,
        root: seq![],
        targets: seq![],
        index: 0,
        committed: seq![],
    }
}

/// How `commit-all` starts: its header, then finding the view.
pub open spec fn commit_start(message: Seq<char>, current_dir: Seq<char>, parent: Option<Seq<char>>, aliases: Map<Seq<char>, Seq<char>>) -> (Seq<NoticeView>, RunNext<CommitRunView>) {
    let (ns, lx) = checked_start("commit-all"@, current_dir, parent, aliases);
    commit_loaded(initial_commit_run(message), seq![commit_header(message)] + ns, lx)
}

pub open spec fn commit_step_is(step: Step<CommitRun, Result<(), ViewyardError>>, next: (Seq<NoticeView>, RunNext<CommitRunView>)) -> bool {
    match next.1 {
        RunNext::Continue(v) => step matches Step::Ask(ns, req, s) && notice_views(ns@) == next.0 && s@ == v && s.wf()
            && req@ == commit_request(v),
        RunNext::Finished(r) => step matches Step::Done(ns, x) && notice_views(ns@) == next.0 && unit_result_view(x) == r,
    }
}

impl CommitRun {
    /// The request the command is waiting on.
    pub fn request(&self) -> (res: Request)
        requires
            self.wf(),
        ensures
            res@ == commit_request(self@),
    {
        match self.stage {
            CommitStage::Loading => match &self.load {
                Some(l) => l.request(),
                None => Request::PathExists(self.root.clone()),
            },
            CommitStage::Surveying => match &self.survey {
                Some(s) => s.request(),
                None => Request::PathExists(self.root.clone()),
            },
            _ => {
                let dir = join_path(self.root.as_str(), self.targets[self.index].as_str());
                match self.stage {
                    CommitStage::Add => Request::Run(crate::git::add_all(dir.as_str())),
                    CommitStage::Commit => Request::Run(crate::git::commit(self.message.as_str(), dir.as_str())),
                    _ => Request::Run(crate::git::reset_staged(dir.as_str())),
                }
            },
        }
    }

    fn ask(self, ns: Vec<Notice>) -> (res: Step<CommitRun, Result<(), ViewyardError>>)
        requires
            self.wf(),
        ensures
            res matches Step::Ask(ns2, req, s) && ns2@ == ns@ && s@ == self@ && s.wf() && req@ == commit_request(self@),
    {
        let req = self.request();
        Step::Ask(ns, req, self)
    }

    fn from(self, j: usize, ns: Vec<Notice>) -> (res: Step<CommitRun, Result<(), ViewyardError>>)
        requires
            j <= self.targets.len(),
        ensures
            commit_step_is(res, commit_from(self@, j as nat, notice_views(ns@))),
    {
        let mut c = self;
        let mut ns = ns;
        if j < c.targets.len() {
            say_with(&mut ns, NoticeLevel::Info, "Committing changes in ", c.targets[j].as_str());
            c.stage = CommitStage::Add;
            c.index = j;
            c.ask(ns)
        } else if c.committed.len() > 0 {
            let mut t = chars_of("Successfully committed ");
            push_all(&mut t, &decimal_chars(c.committed.len() as u64));
            push_str(&mut t, " repositories: ");
            push_all(&mut t, &join_names(&c.committed));
            tell_chars(&mut ns, NoticeLevel::Success, t);
            Step::Done(ns, Ok(()))
        } else {
            Step::Done(ns, Ok(()))
        }
    }

    fn after_survey(self, chosen: Vec<String>, ns: Vec<Notice>) -> (res: Step<CommitRun, Result<(), ViewyardError>>)
        ensures
            commit_step_is(res, commit_after_survey(self@, string_views(chosen@), notice_views(ns@))),
    {
        let mut c = self;
        let mut ns = ns;
        if chosen.len() == 0 {
            tell(&mut ns, NoticeLevel::Info, "No repositories have uncommitted changes");
            Step::Done(ns, Ok(()))
        } else {
            say_count(&mut ns, NoticeLevel::Info, "Found ", chosen.len(), " repositories with changes");
            c.stage = CommitStage::Add;
            c.survey = None;
            c.targets = chosen;
            c.index = 0;
            c.committed = Vec::new();
            assert(string_views(c.committed@) =~= seq![]);
            c.from(0, ns)
        }
    }

    fn surveyed(self, step: Step<Survey, Vec<String>>) -> (res: Step<CommitRun, Result<(), ViewyardError>>)
        requires
            step matches Step::Ask(_, req, s) ==> s.wf() && req@ == survey_request(s@),
        ensures
            match step {
                Step::Ask(ns, _, s) => commit_step_is(res, commit_surveyed(self@, notice_views(ns@), SurveyNext::Continue(s@))),
                Step::Done(ns, chosen) => commit_step_is(res, commit_surveyed(self@, notice_views(ns@), SurveyNext::Finished(string_views(chosen@)))),
            },
    {
        let mut c = self;
        match step {
            Step::Ask(ns, req, s) => {
                c.stage = CommitStage::Surveying;
                c.load = None;
                c.survey = Some(s);
                Step::Ask(ns, req, c)
            },
            Step::Done(ns, chosen) => c.after_survey(chosen, ns),
        }
    }

    fn loaded(self, step: Step<CheckedLoad, Result<ViewContext, ViewyardError>>) -> (res: Step<CommitRun, Result<(), ViewyardError>>)
        requires
            step matches Step::Ask(_, req, l) ==> l.wf() && req@ == checked_request(l@),
        ensures
            match step {
                Step::Ask(ns, _, l) => commit_step_is(res, commit_loaded(self@, notice_views(ns@), CheckedNext::Continue(l@))),
                Step::Done(ns, r) => commit_step_is(res, commit_loaded(self@, notice_views(ns@), CheckedNext::Finished(crate::view::context_result_view(r)))),
            },
    {
        let mut c = self;
        match step {
            Step::Ask(ns, req, l) => {
                c.stage = CommitStage::Loading;
                c.load = Some(l);
                Step::Ask(ns, req, c)
            },
            Step::Done(ns, Err(e)) => Step::Done(ns, Err(e.context(lit("Failed to run 'viewyard commit-all'")))),
            Step::Done(mut ns, Ok(ctx)) => {
                c.root = ctx.view_root.clone();
                c.load = None;
                let s = Survey::start(ctx.view_root, ctx.active_repos, SurveyQuery::Changes);
                let (first, s) = match s {
                    Step::Ask(sns, req, s) => (sns, Step::Ask(quiet(), req, s)),
                    Step::Done(sns, chosen) => (sns, Step::Done(quiet(), chosen)),
                };
                let ghost ns0 = notice_views(ns@);
                tell_all(&mut ns, first);
                match s {
                    Step::Ask(_, req, s) => {
                        c.stage = CommitStage::Surveying;
                        c.survey = Some(s);
                        Step::Ask(ns, req, c)
                    },
                    Step::Done(_, chosen) => c.after_survey(chosen, ns),
                }
            },
        }
    }

    /// Starts `commit-all` with `message` in the directory `current_dir`, whose parent is
    /// `parent`.
    pub fn start(message: &str, current_dir: &str, parent: Option<&str>, aliases: SshHostAliases) -> (res: Step<CommitRun, Result<(), ViewyardError>>)
        ensures
            commit_step_is(res, commit_start(message@, current_dir@, crate::github::opt_str(parent), aliases@)),
    {
        let c = CommitRun {
            message: lit(message),
            stage: CommitStage::Loading,
            load: None,
            survey: None,
            root: lit(""),
            targets: Vec::new(),
            index: 0,
            committed: Vec::new(),
        };
        proof {
            reveal_strlit("");
        }
        assert(string_views(c.targets@) =~= seq![]);
        assert(string_views(c.committed@) =~= seq![]);
        let mut ns = quiet();
        say_with(&mut ns, NoticeLevel::Header, "Committing repositories with changes: ", message);
        let ghost header = notice_views(ns@);
        assert(header =~= seq![commit_header(message@)]);
        assert(c.root@ =~= Seq::<char>::empty());
        assert(c@ == initial_commit_run(message@));
        let step = CheckedLoad::start("commit-all", current_dir, parent, aliases);
        let step = match step {
            Step::Ask(lns, req, l) => {
                let ghost lv = notice_views(lns@);
                tell_all(&mut ns, lns);
                assert(notice_views(ns@) == header + lv);
                Step::Ask(ns, req, l)
            },
            Step::Done(lns, r) => {
                let ghost lv = notice_views(lns@);
                tell_all(&mut ns, lns);
                assert(notice_views(ns@) == header + lv);
                Step::Done(ns, r)
            },
        };
        c.loaded(step)
    }

    fn failed(self, e: &ViewyardError) -> (res: Step<CommitRun, Result<(), ViewyardError>>)
        requires
            self.wf(),
            self.stage == CommitStage::Add || self.stage == CommitStage::Commit,
        ensures
            commit_step_is(res, commit_failed(self@, e@)),
    {
        let mut c = self;
        let mut ns = quiet();
        say_error(&mut ns, NoticeLevel::Error, "Failed to commit ", c.targets[c.index].as_str(), e);
        c.stage = CommitStage::Reset;
        c.ask(ns)
    }

    /// The command's next step once its request was answered with `reply`.
    pub fn resume(self, reply: Reply) -> (res: Step<CommitRun, Result<(), ViewyardError>>)
        requires
            self.wf(),
        ensures
            commit_step_is(res, commit_next(self@, reply)),
    {
        let mut c = self;
        match c.stage {
            CommitStage::Loading => {
                let l = c.load.take();
                match l {
                    None => Step::Done(quiet(), Ok(())),
                    Some(l) => c.loaded(l.resume(reply)),
                }
            },
            CommitStage::Surveying => {
                let s = c.survey.take();
                match s {
                    None => Step::Done(quiet(), Ok(())),
                    Some(s) => c.surveyed(s.resume(reply)),
                }
            },
            CommitStage::Add => {
                let dir = join_path(c.root.as_str(), c.targets[c.index].as_str());
                match ran_ok_of(&crate::git::add_all(dir.as_str()), &reply) {
                    Ok(()) => {
                        c.stage = CommitStage::Commit;
                        c.ask(quiet())
                    },
                    Err(e) => c.failed(&e),
                }
            },
            CommitStage::Commit => {
                assert(c.index < c.targets.len());
                let dir = join_path(c.root.as_str(), c.targets[c.index].as_str());
                match ran_ok_of(&crate::git::commit(c.message.as_str(), dir.as_str()), &reply) {
                    Ok(()) => {
                        let t = c.targets[c.index].clone();
                        let ghost before = c.committed@;
                        c.committed.push(t);
                        assert(string_views(c.committed@) =~= string_views(before).push(t@));
                        let j = c.index + 1;
                        c.from(j, quiet())
                    },
                    Err(e) => c.failed(&e),
                }
            },
            CommitStage::Reset => {
                let dir = join_path(c.root.as_str(), c.targets[c.index].as_str());
                let target = c.targets[c.index].as_str();
                let mut ns = quiet();
                match ran_ok_of(&crate::git::reset_staged(dir.as_str()), &reply) {
                    Err(re) => say_error(&mut ns, NoticeLevel::Warning, "Failed to rollback staged changes in ", target, &re),
                    Ok(()) => {},
                }
                tell(&mut ns, NoticeLevel::Error, "Commit operation stopped due to failure");
                tell(&mut ns, NoticeLevel::Info, "Fix the issue in the failed repository and run the command again");
                let mut t = chars_of("Successfully committed repositories: ");
                push_all(&mut t, &names_or_none_of(&c.committed));
                tell_chars(&mut ns, NoticeLevel::Info, t);
                assert(notice_views(ns@) =~= commit_next(self@, reply).0);
                Step::Done(ns, Err(ViewyardError::new(ErrorKind::CommitFailed { repo: lit(target) })))
            },
        }
    }
}


// ---------------------------------------------------------------------------
// push-all
// ---------------------------------------------------------------------------

#[derive(Debug, Clone, Copy, PartialEq, Eq, Structural)]
pub enum PushStage {
    /// Finding the view and checking the branches of its repositories.
    Loading,
    /// Finding the repositories with unpushed commits.
    Surveying,
    /// Pushing the current repository.
    Push,
}

/// `push-all`: pushes every repository of the view that has unpushed commits, stopping at
/// the first failure.
#[derive(Debug)]
pub struct PushRun {
    pub stage: PushStage,
    pub load: Option<CheckedLoad>,
    pub survey: Option<Survey>,
    pub root: String,
    pub targets: Vec<String>,
    pub index: usize,
    pub pushed: Vec<String>,
}

pub struct PushRunView {
    pub stage: PushStage,
    pub load: Option<CheckedLoadView>,
    pub survey: Option<SurveyView>,
    pub root: Seq<char>,
    pub targets: Seq<Seq<char>>,
    pub index: nat,
    pub pushed: Seq<Seq<char>>,
}

impl View for PushRun {
    type V = PushRunView;

    open spec fn view(&self) -> PushRunView {
        PushRunView {
            stage: self.stage,
            load: match self.load {
                Some(l) => Some(l@),
                None => None,
            },
            survey: match self.survey {
                Some(s) => Some(s@),
                None => None,
            },
            root: self.root@,
            targets: string_views(self.targets@),
            index: self.index as nat,
            pushed: string_views(self.pushed@),
        }
    }
}

pub open spec fn push_wf(v: PushRunView) -> bool {
    match v.stage {
        PushStage::Loading => v.load is Some && checked_wf(v.load->0),
        PushStage::Surveying => v.survey is Some && survey_wf(v.survey->0),
        PushStage::Push => v.index < v.targets.len(),
    }
}

impl PushRun {
    pub open spec fn wf(&self) -> bool {
        push_wf(self@)
    }
}

pub open spec fn push_command(dir: Seq<char>) -> InvocationView {
    invocation_of(seq!["push"@], Some(dir))
}

pub open spec fn push_request(v: PushRunView) -> RequestView {
    match v.stage {
        PushStage::Loading => checked_request(v.load->0),
        PushStage::Surveying => survey_request(v.survey->0),
        PushStage::Push => RequestView::Run(push_command(current_target_dir(v.root, v.targets, v.index))),
    }
}

/// Pushing from the target at `j` on, or, past the last one, the summary.
pub open spec fn push_from(v: PushRunView, j: nat, ns: Seq<NoticeView>) -> (Seq<NoticeView>, RunNext<PushRunView>) {
    if j < v.targets.len() {
        (
            ns.push(info("Pushing commits in "@ + v.targets[j as int])),
            RunNext::Continue(PushRunView { stage: PushStage::Push, index: j, ..v }),
        )
    } else if v.pushed.len() > 0 {
        (
            ns.push(success("Successfully pushed "@ + decimal(v.pushed.len()) + " repositories: "@ + join(v.pushed, ", "@))),
            RunNext::Finished(Ok(())),
        )
    } else {
        (ns, RunNext::Finished(Ok(())))
    }
}

pub open spec fn push_after_survey(v: PushRunView, chosen: Seq<Seq<char>>, ns: Seq<NoticeView>) -> (Seq<NoticeView>, RunNext<PushRunView>) {
    if chosen.len() == 0 {
        (ns.push(info("No repositories have unpushed commits"@)), RunNext::Finished(Ok(())))
    } else {
        push_from(
            PushRunView { stage: PushStage::Push, survey: None, targets: chosen, index: 0, pushed: seq![], ..v },
            0,
            ns.push(info("Found "@ + decimal(chosen.len()) + " repositories with unpushed commits"@)),
        )
    }
}

pub open spec fn push_surveyed(v: PushRunView, ns: Seq<NoticeView>, sx: SurveyNext) -> (Seq<NoticeView>, RunNext<PushRunView>) {
    match sx {
        SurveyNext::Continue(s) => (ns, RunNext::Continue(PushRunView { stage: PushStage::Surveying, load: None, survey: Some(s), ..v })),
        SurveyNext::Finished(chosen) => push_after_survey(v, chosen, ns),
    }
}

pub open spec fn push_loaded(v: PushRunView, ns: Seq<NoticeView>, lx: CheckedNext) -> (Seq<NoticeView>, RunNext<PushRunView>) {
    match lx {
        CheckedNext::Continue(l) => (ns, RunNext::Continue(PushRunView { stage: PushStage::Loading, load: Some(l), ..v })),
        CheckedNext::Finished(Err(e)) => (ns, RunNext::Finished(Err(within(e, "Failed to run 'viewyard push-all'"@)))),
        CheckedNext::Finished(Ok(ctx)) => {
            let (sns, sx) = survey_from(initial_survey(ctx.view_root, ctx.active_repos, SurveyQuery::Unpushed), 0, seq![]);
            push_surveyed(PushRunView { root: ctx.view_root, load: None, ..v }, ns + sns, sx)
        },
    }
}

/// The command's next move once `reply` came. A failed push stops the command: pushes
/// cannot be undone, so the user is told what to do.
pub open spec fn push_next(v: PushRunView, reply: Reply) -> (Seq<NoticeView>, RunNext<PushRunView>) {
    let target = v.targets[v.index as int];
    match v.stage {
        PushStage::Loading => {
            let (ns, lx) = checked_next(v.load->0, reply);
            push_loaded(v, ns, lx)
        },
        PushStage::Surveying => {
            let (ns, sx) = survey_next(v.survey->0, reply);
            push_surveyed(v, ns, sx)
        },
        PushStage::Push => match ran_ok(push_command(current_target_dir(v.root, v.targets, v.index)), reply) {
            Ok(_) => push_from(PushRunView { pushed: v.pushed.push(target), ..v }, v.index + 1, seq![]),
            Err(e) => (
                seq![
                    failure("Failed to push "@ + target + ": "@ + error_message(e)),
                    failure("Push operation stopped due to failure"@),
                    info("Common solutions:"@),
                    info("   • Pull latest changes: git pull"@),
                    info("   • Check remote permissions"@),
                    info("   • Verify network connection"@),
                    info("Successfully pushed repositories: "@ + names_or_none(v.pushed)),
                ],
                RunNext::Finished(Err(plain(ErrorKindView::PushFailed { repo: target }))),
            ),
        },
    }
}

pub open spec fn push_header() -> NoticeView {
    notice(NoticeLevel::Header, "Pushing repositories with unpushed commits"@)
}

pub open spec fn initial_push_run() -> PushRunView {
    PushRunView { stage: PushStage::Loading, load: None, survey: None, root: seq![], targets: seq![], index: 0, pushed: seq![] }
}

/// How `push-all` starts: its header, then finding the view.
pub open spec fn push_start(current_dir: Seq<char>, parent: Option<Seq<char>>, aliases: Map<Seq<char>, Seq<char>>) -> (Seq<NoticeView>, RunNext<PushRunView>) {
    let (ns, lx) = checked_start("push-all"@, current_dir, parent, aliases);
    push_loaded(initial_push_run(), seq![push_header()] + ns, lx)
}

pub open spec fn push_step_is(step: Step<PushRun, Result<(), ViewyardError>>, next: (Seq<NoticeView>, RunNext<PushRunView>)) -> bool {
    match next.1 {
        RunNext::Continue(v) => step matches Step::Ask(ns, req, s) && notice_views(ns@) == next.0 && s@ == v && s.wf()
            && req@ == push_request(v),
        RunNext::Finished(r) => step matches Step::Done(ns, x) && notice_views(ns@) == next.0 && unit_result_view(x) == r,
    }
}

impl PushRun {
    /// The request the command is waiting on.
    pub fn request(&self) -> (res: Request)
        requires
            self.wf(),
        ensures
            res@ == push_request(self@),
    {
        match self.stage {
            PushStage::Loading => match &self.load {
                Some(l) => l.request(),
                None => Request::PathExists(self.root.clone()),
            },
            PushStage::Surveying => match &self.survey {
                Some(s) => s.request(),
                None => Request::PathExists(self.root.clone()),
            },
            PushStage::Push => {
                let dir = join_path(self.root.as_str(), self.targets[self.index].as_str());
                Request::Run(crate::git::push(dir.as_str()))
            },
        }
    }

    fn from(self, j: usize, ns: Vec<Notice>) -> (res: Step<PushRun, Result<(), ViewyardError>>)
        requires
            j <= self.targets.len(),
        ensures
            push_step_is(res, push_from(self@, j as nat, notice_views(ns@))),
    {
        let mut p = self;
        let mut ns = ns;
        if j < p.targets.len() {
            say_with(&mut ns, NoticeLevel::Info, "Pushing commits in ", p.targets[j].as_str());
            p.stage = PushStage::Push;
            p.index = j;
            let req = p.request();
            Step::Ask(ns, req, p)
        } else if p.pushed.len() > 0 {
            let mut t = chars_of("Successfully pushed ");
            push_all(&mut t, &decimal_chars(p.pushed.len() as u64));
            push_str(&mut t, " repositories: ");
            push_all(&mut t, &join_names(&p.pushed));
            tell_chars(&mut ns, NoticeLevel::Success, t);
            Step::Done(ns, Ok(()))
        } else {
            Step::Done(ns, Ok(()))
        }
    }

    fn after_survey(self, chosen: Vec<String>, ns: Vec<Notice>) -> (res: Step<PushRun, Result<(), ViewyardError>>)
        ensures
            push_step_is(res, push_after_survey(self@, string_views(chosen@), notice_views(ns@))),
    {
        let mut p = self;
        let mut ns = ns;
        if chosen.len() == 0 {
            tell(&mut ns, NoticeLevel::Info, "No repositories have unpushed commits");
            Step::Done(ns, Ok(()))
        } else {
            say_count(&mut ns, NoticeLevel::Info, "Found ", chosen.len(), " repositories with unpushed commits");
            p.stage = PushStage::Push;
            p.survey = None;
            p.targets = chosen;
            p.index = 0;
            p.pushed = Vec::new();
            assert(string_views(p.pushed@) =~= seq![]);
            p.from(0, ns)
        }
    }

    fn surveyed(self, step: Step<Survey, Vec<String>>) -> (res: Step<PushRun, Result<(), ViewyardError>>)
        requires
            step matches Step::Ask(_, req, s) ==> s.wf() && req@ == survey_request(s@),
        ensures
            match step {
                Step::Ask(ns, _, s) => push_step_is(res, push_surveyed(self@, notice_views(ns@), SurveyNext::Continue(s@))),
                Step::Done(ns, chosen) => push_step_is(res, push_surveyed(self@, notice_views(ns@), SurveyNext::Finished(string_views(chosen@)))),
            },
    {
        let mut p = self;
        match step {
            Step::Ask(ns, req, s) => {
                p.stage = PushStage::Surveying;
                p.load = None;
                p.survey = Some(s);
                Step::Ask(ns, req, p)
            },
            Step::Done(ns, chosen) => p.after_survey(chosen, ns),
        }
    }

    fn loaded(self, step: Step<CheckedLoad, Result<ViewContext, ViewyardError>>) -> (res: Step<PushRun, Result<(), ViewyardError>>)
        requires
            step matches Step::Ask(_, req, l) ==> l.wf() && req@ == checked_request(l@),
        ensures
            match step {
                Step::Ask(ns, _, l) => push_step_is(res, push_loaded(self@, notice_views(ns@), CheckedNext::Continue(l@))),
                Step::Done(ns, r) => push_step_is(res, push_loaded(self@, notice_views(ns@), CheckedNext::Finished(crate::view::context_result_view(r)))),
            },
    {
        let mut p = self;
        match step {
            Step::Ask(ns, req, l) => {
                p.stage = PushStage::Loading;
                p.load = Some(l);
                Step::Ask(ns, req, p)
            },
            Step::Done(ns, Err(e)) => Step::Done(ns, Err(e.context(lit("Failed to run 'viewyard push-all'")))),
            Step::Done(mut ns, Ok(ctx)) => {
                p.root = ctx.view_root.clone();
                p.load = None;
                let s = Survey::start(ctx.view_root, ctx.active_repos, SurveyQuery::Unpushed);
                let (first, s) = match s {
                    Step::Ask(sns, req, s) => (sns, Step::Ask(quiet(), req, s)),
                    Step::Done(sns, chosen) => (sns, Step::Done(quiet(), chosen)),
                };
                tell_all(&mut ns, first);
                match s {
                    Step::Ask(_, req, s) => {
                        p.stage = PushStage::Surveying;
                        p.survey = Some(s);
                        Step::Ask(ns, req, p)
                    },
                    Step::Done(_, chosen) => p.after_survey(chosen, ns),
                }
            },
        }
    }

    /// Starts `push-all` in the directory `current_dir`, whose parent is `parent`.
    pub fn start(current_dir: &str, parent: Option<&str>, aliases: SshHostAliases) -> (res: Step<PushRun, Result<(), ViewyardError>>)
        ensures
            push_step_is(res, push_start(current_dir@, crate::github::opt_str(parent), aliases@)),
    {
        let p = PushRun {
            stage: PushStage::Loading,
            load: None,
            survey: None,
            root: lit(""),
            targets: Vec::new(),
            index: 0,
            pushed: Vec::new(),
        };
        proof {
            reveal_strlit("");
        }
        assert(string_views(p.targets@) =~= seq![]);
        assert(string_views(p.pushed@) =~= seq![]);
        assert(p.root@ =~= Seq::<char>::empty());
        let mut ns = quiet();
        tell(&mut ns, NoticeLevel::Header, "Pushing repositories with unpushed commits");
        let ghost header = notice_views(ns@);
        assert(header =~= seq![push_header()]);
        let step = CheckedLoad::start("push-all", current_dir, parent, aliases);
        let step = match step {
            Step::Ask(lns, req, l) => {
                let ghost lv = notice_views(lns@);
                tell_all(&mut ns, lns);
                assert(notice_views(ns@) == header + lv);
                Step::Ask(ns, req, l)
            },
            Step::Done(lns, r) => {
                let ghost lv = notice_views(lns@);
                tell_all(&mut ns, lns);
                assert(notice_views(ns@) == header + lv);
                Step::Done(ns, r)
            },
        };
        p.loaded(step)
    }

    /// The command's next step once its request was answered with `reply`.
    pub fn resume(self, reply: Reply) -> (res: Step<PushRun, Result<(), ViewyardError>>)
        requires
            self.wf(),
        ensures
            push_step_is(res, push_next(self@, reply)),
    {
        let mut p = self;
        match p.stage {
            PushStage::Loading => {
                let l = p.load.take();
                match l {
                    None => Step::Done(quiet(), Ok(())),
                    Some(l) => p.loaded(l.resume(reply)),
                }
            },
            PushStage::Surveying => {
                let s = p.survey.take();
                match s {
                    None => Step::Done(quiet(), Ok(())),
                    Some(s) => p.surveyed(s.resume(reply)),
                }
            },
            PushStage::Push => {
                assert(p.index < p.targets.len());
                let dir = join_path(p.root.as_str(), p.targets[p.index].as_str());
                match ran_ok_of(&crate::git::push(dir.as_str()), &reply) {
                    Ok(()) => {
                        let t = p.targets[p.index].clone();
                        let ghost before = p.pushed@;
                        p.pushed.push(t);
                        assert(string_views(p.pushed@) =~= string_views(before).push(t@));
                        let j = p.index + 1;
                        p.from(j, quiet())
                    },
                    Err(e) => {
                        let target = p.targets[p.index].as_str();
                        let mut ns = quiet();
                        say_error(&mut ns, NoticeLevel::Error, "Failed to push ", target, &e);
                        tell(&mut ns, NoticeLevel::Error, "Push operation stopped due to failure");
                        tell(&mut ns, NoticeLevel::Info, "Common solutions:");
                        tell(&mut ns, NoticeLevel::Info, "   • Pull latest changes: git pull");
                        tell(&mut ns, NoticeLevel::Info, "   • Check remote permissions");
                        tell(&mut ns, NoticeLevel::Info, "   • Verify network connection");
                        let mut t = chars_of("Successfully pushed repositories: ");
                        push_all(&mut t, &names_or_none_of(&p.pushed));
                        tell_chars(&mut ns, NoticeLevel::Info, t);
                        assert(notice_views(ns@) =~= push_next(self@, reply).0);
                        Step::Done(ns, Err(ViewyardError::new(ErrorKind::PushFailed { repo: lit(target) })))
                    },
                }
            },
        }
    }
}

} // verus!
