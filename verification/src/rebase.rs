//! `rebase`: brings every repository of a view up to date with its remote's default
//! branch.
use vstd::prelude::*;
pub use crate::session::unexpected;

use crate::command::git_text;
use crate::command::invocation_of;
use crate::error::error_message;
use crate::error::lit;
use crate::error::plain;
use crate::error::string_views;
use crate::error::within;
use crate::error::ErrorKind;
use crate::error::ErrorKindView;
use crate::error::ViewyardError;
use crate::error::ViewyardErrorView;
use crate::git::default_branch_command;
use crate::git::default_branch_next;
use crate::git::search_at;
use crate::git::DefaultBranchNext;
use crate::git::DefaultBranchSearch;
use crate::git::DefaultBranchSearchView;
use crate::git::DefaultBranchStage;
use crate::git::STATUS_ARGS;
use crate::git::SshHostAliases;
use crate::session::joined_path;
use crate::session::join_path;
use crate::session::notice;
use crate::session::notice_views;
use crate::session::quiet;
use crate::session::tell;
use crate::session::tell_all;
use crate::session::tell_chars;
use crate::session::Notice;
use crate::session::NoticeLevel;
use crate::session::NoticeView;
use crate::session::Reply;
use crate::session::Request;
use crate::session::RequestView;
use crate::session::Step;
use crate::survey::changes;
use crate::survey::initial_survey;
use crate::survey::repo_dir;
use crate::survey::survey_from;
use crate::survey::survey_next;
use crate::survey::survey_request;
use crate::survey::survey_wf;
use crate::survey::Survey;
use crate::survey::SurveyNext;
use crate::survey::SurveyQuery;
use crate::survey::SurveyView;
use crate::text::chars_of;
use crate::text::decimal;
use crate::text::decimal_chars;
use crate::text::join;
use crate::text::push_all;
use crate::text::push_str;
use crate::text::strip_prefix;
use crate::text::strip_prefix_chars;
use crate::view::ViewContext;
use crate::checked_view::checked_next;
use crate::checked_view::checked_request;
use crate::checked_view::checked_start;
use crate::checked_view::checked_wf;
use crate::checked_view::CheckedLoad;
use crate::checked_view::CheckedLoadView;
use crate::checked_view::CheckedNext;
use crate::batch::failure;
use crate::batch::info;
use crate::batch::join_names;
use crate::batch::ran_ok;
use crate::batch::ran_ok_of;
use crate::batch::say_count;
use crate::batch::say_with;
use crate::batch::success;
use crate::command::unit_result_view;
use crate::batch::RunNext;

verus! {

// ---------------------------------------------------------------------------
// Rebasing one repository
// ---------------------------------------------------------------------------

#[derive(Debug, Clone, Copy, PartialEq, Eq, Structural)]
pub enum RebaseStage {
    /// Asking whether the working tree is clean.
    Changes,
    /// Fetching.
    Fetch,
    /// Asking for the current branch.
    Branch,
    /// Finding the remote's default branch.
    Default,
    /// Fast-forwarding the default branch itself.
    Merge,
    /// Rebasing onto the default branch.
    Rebase,
    /// After a failed rebase: is a merge-style rebase in progress?
    ConflictMerge,
    /// After a failed rebase: is an apply-style rebase in progress?
    ConflictApply,
}

/// Rebasing the repository at `dir` onto its remote's default branch: a repository on
/// that branch is fast-forwarded instead; one with uncommitted changes is refused.
#[derive(Debug)]
pub struct RebaseRepo {
    pub dir: String,
    pub stage: RebaseStage,
    pub branch: String,
    pub search: Option<DefaultBranchSearch>,
    pub target: String,
    pub pending: Option<ViewyardError>,
}

pub struct RebaseRepoView {
    pub dir: Seq<char>,
    pub stage: RebaseStage,
    pub branch: Seq<char>,
    pub search: Option<DefaultBranchSearchView>,
    pub target: Seq<char>,
    pub pending: Option<ViewyardErrorView>,
}

impl View for RebaseRepo {
    type V = RebaseRepoView;

    open spec fn view(&self) -> RebaseRepoView {
        RebaseRepoView {
            dir: self.dir@,
            stage: self.stage,
            branch: self.branch@,
            search: match self.search {
                Some(s) => Some(s@),
                None => None,
            },
            target: self.target@,
            pending: match self.pending {
                Some(e) => Some(e@),
                None => None,
            },
        }
    }
}

pub open spec fn rebase_repo_wf(v: RebaseRepoView) -> bool {
    &&& (v.stage == RebaseStage::Default ==> v.search is Some)
    &&& (v.stage == RebaseStage::ConflictMerge || v.stage == RebaseStage::ConflictApply ==> v.pending is Some)
}

impl RebaseRepo {
    pub open spec fn wf(&self) -> bool {
        rebase_repo_wf(self@)
    }
}

pub open spec fn BRANCH_ARGS() -> Seq<Seq<char>> {
    seq!["branch"@, "--show-current"@]
}

pub open spec fn rebase_repo_request(v: RebaseRepoView) -> RequestView {
    let cwd = Some(v.dir);
    match v.stage {
        RebaseStage::Changes => RequestView::Run(invocation_of(STATUS_ARGS(), cwd)),
        RebaseStage::Fetch => RequestView::Run(invocation_of(seq!["fetch"@], cwd)),
        RebaseStage::Branch => RequestView::Run(invocation_of(BRANCH_ARGS(), cwd)),
        RebaseStage::Default => RequestView::Run(default_branch_command(v.search->0.cwd, v.search->0.stage)),
        RebaseStage::Merge => RequestView::Run(invocation_of(seq!["merge"@, "--ff-only"@, v.target], cwd)),
        RebaseStage::Rebase => RequestView::Run(invocation_of(seq!["rebase"@, v.target], cwd)),
        RebaseStage::ConflictMerge => RequestView::PathExists(joined_path(v.dir, ".git/rebase-merge"@)),
        RebaseStage::ConflictApply => RequestView::PathExists(joined_path(v.dir, ".git/rebase-apply"@)),
    }
}

/// The branch name of a remote branch: `origin/` taken off when it starts with it.
pub open spec fn local_name(target: Seq<char>) -> Seq<char> {
    match strip_prefix(target, "origin/"@) {
        Some(n) => n,
        None => target,
    }
}

/// What the user is told when a rebase stopped on conflicts.
pub open spec fn conflict_notices(dir: Seq<char>) -> Seq<NoticeView> {
    seq![
        failure("Rebase conflict detected!"@),
        info("Manual resolution required:"@),
        info("   1. Navigate to the repository:"@),
        info("      cd "@ + dir),
        info("   2. Resolve conflicts in the affected files"@),
        info("   3. Stage resolved files: git add <file>"@),
        info("   4. Continue rebase: git rebase --continue"@),
        info("   5. Or abort rebase: git rebase --abort"@),
        info(""@),
        info("Common conflict resolution:"@),
        info("   • Edit files to resolve <<<< ==== >>>> markers"@),
        info("   • Use 'git status' to see conflicted files"@),
        info("   • Use 'git diff' to see conflict details"@),
    ]
}

pub enum RebaseRepoNext {
    Continue(RebaseRepoView),
    Finished(Result<(), ViewyardErrorView>),
}

pub open spec fn with_rebase_stage(v: RebaseRepoView, stage: RebaseStage) -> RebaseRepoView {
    RebaseRepoView { stage, ..v }
}

/// Rebasing's next move once `reply` came.
pub open spec fn rebase_repo_next(v: RebaseRepoView, reply: Reply) -> (Seq<NoticeView>, RebaseRepoNext) {
    match v.stage {
        RebaseStage::Changes => match reply {
            Reply::Ran(o) => match changes(o) {
                Err(e) => (seq![], RebaseRepoNext::Finished(Err(e))),
                Ok(true) => (seq![], RebaseRepoNext::Finished(Err(plain(ErrorKindView::RebaseWithChanges)))),
                Ok(false) => (seq![], RebaseRepoNext::Continue(with_rebase_stage(v, RebaseStage::Fetch))),
            },
            _ => (seq![], RebaseRepoNext::Finished(Err(unexpected()))),
        },
        RebaseStage::Fetch => match ran_ok(invocation_of(seq!["fetch"@], Some(v.dir)), reply) {
            Err(e) => (seq![], RebaseRepoNext::Finished(Err(e))),
            Ok(_) => (seq![], RebaseRepoNext::Continue(with_rebase_stage(v, RebaseStage::Branch))),
        },
        RebaseStage::Branch => match reply {
            Reply::Ran(o) => match git_text(invocation_of(BRANCH_ARGS(), None), o) {
                Err(e) => (seq![], RebaseRepoNext::Finished(Err(e))),
                Ok(b) => (
                    seq![],
                    RebaseRepoNext::Continue(
                        RebaseRepoView {
                            stage: RebaseStage::Default,
                            branch: b,
                            search: Some(search_at(v.dir, DefaultBranchStage::SymbolicRef)),
                            ..v
                        },
                    ),
                ),
            },
            _ => (seq![], RebaseRepoNext::Finished(Err(unexpected()))),
        },
        RebaseStage::Default => match reply {
            Reply::Ran(o) => match default_branch_next(v.search->0.stage, o) {
                DefaultBranchNext::Continue(st) => (
                    seq![],
                    RebaseRepoNext::Continue(RebaseRepoView { search: Some(search_at(v.search->0.cwd, st)), ..v }),
                ),
                DefaultBranchNext::Found(t) => (
                    seq![],
                    RebaseRepoNext::Continue(
                        RebaseRepoView {
                            stage: if v.branch == local_name(t) {
                                RebaseStage::Merge
                            } else {
                                RebaseStage::Rebase
                            },
                            search: None,
                            target: t,
                            ..v
                        },
                    ),
                ),
                DefaultBranchNext::NotFound => (
                    seq![],
                    RebaseRepoNext::Finished(
                        Err(within(plain(ErrorKindView::NoDefaultBranch), "Failed to detect default branch for repository"@)),
                    ),
                ),
            },
            _ => (seq![], RebaseRepoNext::Finished(Err(unexpected()))),
        },
        RebaseStage::Merge => (
            seq![],
            RebaseRepoNext::Finished(ran_ok(invocation_of(seq!["merge"@, "--ff-only"@, v.target], Some(v.dir)), reply)),
        ),
        RebaseStage::Rebase => match ran_ok(invocation_of(seq!["rebase"@, v.target], Some(v.dir)), reply) {
            Ok(_) => (seq![], RebaseRepoNext::Finished(Ok(()))),
            Err(e) => (
                seq![],
                RebaseRepoNext::Continue(RebaseRepoView { stage: RebaseStage::ConflictMerge, pending: Some(e), ..v }),
            ),
        },
        RebaseStage::ConflictMerge => match reply {
            Reply::Flag(true) => (conflict_notices(v.dir), RebaseRepoNext::Finished(Err(plain(ErrorKindView::RebaseConflict)))),
            _ => (seq![], RebaseRepoNext::Continue(with_rebase_stage(v, RebaseStage::ConflictApply))),
        },
        RebaseStage::ConflictApply => match reply {
            Reply::Flag(true) => (conflict_notices(v.dir), RebaseRepoNext::Finished(Err(plain(ErrorKindView::RebaseConflict)))),
            _ => (seq![], RebaseRepoNext::Finished(Err(within(v.pending->0, "Rebase failed"@)))),
        },
    }
}

pub open spec fn rebase_repo_step_is(step: Step<RebaseRepo, Result<(), ViewyardError>>, next: (Seq<NoticeView>, RebaseRepoNext)) -> bool {
    match next.1 {
        RebaseRepoNext::Continue(v) => step matches Step::Ask(ns, req, s) && notice_views(ns@) == next.0 && s@ == v && s.wf()
            && req@ == rebase_repo_request(v),
        RebaseRepoNext::Finished(r) => step matches Step::Done(ns, x) && notice_views(ns@) == next.0 && unit_result_view(x) == r,
    }
}

pub open spec fn initial_rebase_repo(dir: Seq<char>) -> RebaseRepoView {
    RebaseRepoView { dir, stage: RebaseStage::Changes, branch: seq![], search: None, target: seq![], pending: None }
}

fn conflict_advice(dir: &str) -> (res: Vec<Notice>)
    ensures
        notice_views(res@) == conflict_notices(dir@),
{
    let mut ns = quiet();
    tell(&mut ns, NoticeLevel::Error, "Rebase conflict detected!");
    tell(&mut ns, NoticeLevel::Info, "Manual resolution required:");
    tell(&mut ns, NoticeLevel::Info, "   1. Navigate to the repository:");
    say_with(&mut ns, NoticeLevel::Info, "      cd ", dir);
    tell(&mut ns, NoticeLevel::Info, "   2. Resolve conflicts in the affected files");
    tell(&mut ns, NoticeLevel::Info, "   3. Stage resolved files: git add <file>");
    tell(&mut ns, NoticeLevel::Info, "   4. Continue rebase: git rebase --continue");
    tell(&mut ns, NoticeLevel::Info, "   5. Or abort rebase: git rebase --abort");
    tell(&mut ns, NoticeLevel::Info, "");
    tell(&mut ns, NoticeLevel::Info, "Common conflict resolution:");
    tell(&mut ns, NoticeLevel::Info, "   • Edit files to resolve <<<< ==== >>>> markers");
    tell(&mut ns, NoticeLevel::Info, "   • Use 'git status' to see conflicted files");
    tell(&mut ns, NoticeLevel::Info, "   • Use 'git diff' to see conflict details");
    assert(notice_views(ns@) =~= conflict_notices(dir@));
    ns
}

fn local_name_of(target: &String) -> (res: Vec<char>)
    ensures
        res@ == local_name(target@),
{
    let t = chars_of(target.as_str());
    match strip_prefix_chars(&t, &chars_of("origin/")) {
        Some(n) => n,
        None => t,
    }
}

impl RebaseRepo {
    /// Starts rebasing the repository at `dir`: asks whether its working tree is clean.
    pub fn start(dir: String) -> (res: RebaseRepo)
        ensures
            res@ == initial_rebase_repo(dir@),
            res.wf(),
    {
        let r = RebaseRepo { dir, stage: RebaseStage::Changes, branch: lit(""), search: None, target: lit(""), pending: None };
        proof {
            reveal_strlit("");
        }
        assert(r.branch@ =~= Seq::<char>::empty());
        assert(r.target@ =~= Seq::<char>::empty());
        r
    }

    /// The request rebasing is waiting on.
    pub fn request(&self) -> (res: Request)
        requires
            self.wf(),
        ensures
            res@ == rebase_repo_request(self@),
    {
        let cwd = self.dir.as_str();
        match self.stage {
            RebaseStage::Changes => Request::Run(crate::git::get_status(cwd)),
            RebaseStage::Fetch => Request::Run(crate::git::fetch(cwd)),
            RebaseStage::Branch => Request::Run(crate::git::get_current_branch(cwd)),
            RebaseStage::Default => match &self.search {
                Some(s) => Request::Run(s.command()),
                None => Request::Run(crate::git::fetch(cwd)),
            },
            RebaseStage::Merge => Request::Run(crate::git::merge_fast_forward(self.target.as_str(), cwd)),
            RebaseStage::Rebase => Request::Run(crate::git::rebase(self.target.as_str(), cwd)),
            RebaseStage::ConflictMerge => Request::PathExists(join_path(cwd, ".git/rebase-merge")),
            RebaseStage::ConflictApply => Request::PathExists(join_path(cwd, ".git/rebase-apply")),
        }
    }

    fn ask(self) -> (res: Step<RebaseRepo, Result<(), ViewyardError>>)
        requires
            self.wf(),
        ensures
            res matches Step::Ask(ns, req, s) && notice_views(ns@) == Seq::<NoticeView>::empty() && s@ == self@ && s.wf()
                && req@ == rebase_repo_request(self@),
    {
        let req = self.request();
        Step::Ask(quiet(), req, self)
    }

    /// Rebasing's next step once its request was answered with `reply`.
    pub fn resume(self, reply: Reply) -> (res: Step<RebaseRepo, Result<(), ViewyardError>>)
        requires
            self.wf(),
        ensures
            rebase_repo_step_is(res, rebase_repo_next(self@, reply)),
    {
        let mut r = self;
        match r.stage {
            RebaseStage::Changes => match reply {
                Reply::Ran(o) => match crate::git::has_uncommitted_changes(&o) {
                    Err(e) => Step::Done(quiet(), Err(e)),
                    Ok(true) => Step::Done(quiet(), Err(ViewyardError::new(ErrorKind::RebaseWithChanges))),
                    Ok(false) => {
                        r.stage = RebaseStage::Fetch;
                        r.ask()
                    },
                },
                _ => Step::Done(quiet(), Err(ViewyardError::new(ErrorKind::UnexpectedReply))),
            },
            RebaseStage::Fetch => match ran_ok_of(&crate::git::fetch(r.dir.as_str()), &reply) {
                Err(e) => Step::Done(quiet(), Err(e)),
                Ok(()) => {
                    r.stage = RebaseStage::Branch;
                    r.ask()
                },
            },
            RebaseStage::Branch => match reply {
                Reply::Ran(o) => {
                    let inv = crate::git::get_current_branch(r.dir.as_str());
                    let inv = crate::command::Invocation { program: inv.program, args: inv.args, cwd: None };
                    match crate::command::run_git_command_string(&inv, &o) {
                        Err(e) => Step::Done(quiet(), Err(e)),
                        Ok(b) => {
                            let (_, search) = crate::git::get_default_branch(r.dir.as_str());
                            r.branch = b;
                            r.search = Some(search);
                            r.stage = RebaseStage::Default;
                            r.ask()
                        },
                    }
                },
                _ => Step::Done(quiet(), Err(ViewyardError::new(ErrorKind::UnexpectedReply))),
            },
            RebaseStage::Default => match reply {
                Reply::Ran(o) => {
                    let s = r.search.take();
                    match s {
                        None => Step::Done(quiet(), Err(ViewyardError::new(ErrorKind::UnexpectedReply))),
                        Some(s) => match s.resume(&o) {
                            Step::Ask(_, _, s2) => {
                                r.search = Some(s2);
                                r.ask()
                            },
                            Step::Done(_, Ok(t)) => {
                                let same = crate::text::chars_eq(&chars_of(r.branch.as_str()), &local_name_of(&t));
                                r.stage = if same {
                                    RebaseStage::Merge
                                } else {
                                    RebaseStage::Rebase
                                };
                                r.target = t;
                                r.ask()
                            },
                            Step::Done(_, Err(e)) => Step::Done(quiet(), Err(e.context(lit("Failed to detect default branch for repository")))),
                        },
                    }
                },
                _ => Step::Done(quiet(), Err(ViewyardError::new(ErrorKind::UnexpectedReply))),
            },
            RebaseStage::Merge => {
                let res = ran_ok_of(&crate::git::merge_fast_forward(r.target.as_str(), r.dir.as_str()), &reply);
                Step::Done(quiet(), res)
            },
            RebaseStage::Rebase => match ran_ok_of(&crate::git::rebase(r.target.as_str(), r.dir.as_str()), &reply) {
                Ok(()) => Step::Done(quiet(), Ok(())),
                Err(e) => {
                    r.pending = Some(e);
                    r.stage = RebaseStage::ConflictMerge;
                    r.ask()
                },
            },
            RebaseStage::ConflictMerge => match reply {
                Reply::Flag(true) => Step::Done(conflict_advice(r.dir.as_str()), Err(ViewyardError::new(ErrorKind::RebaseConflict))),
                _ => {
                    r.stage = RebaseStage::ConflictApply;
                    r.ask()
                },
            },
            RebaseStage::ConflictApply => match reply {
                Reply::Flag(true) => Step::Done(conflict_advice(r.dir.as_str()), Err(ViewyardError::new(ErrorKind::RebaseConflict))),
                _ => match r.pending {
                    Some(e) => Step::Done(quiet(), Err(e.context(lit("Rebase failed")))),
                    None => Step::Done(quiet(), Err(ViewyardError::new(ErrorKind::UnexpectedReply))),
                },
            },
        }
    }
}


// ---------------------------------------------------------------------------
// rebase over the view
// ---------------------------------------------------------------------------

#[derive(Debug, Clone, Copy, PartialEq, Eq, Structural)]
pub enum RebaseRunStage {
    /// Finding the view and checking the branches of its repositories.
    Loading,
    Surveying,
    /// Rebasing the target at `index`.
    Repo,
}

/// `rebase`: rebases every repository of the view that passes its checks; a failure is
/// reported and the others go on, and the command fails when any failed.
#[derive(Debug)]
pub struct RebaseRun {
    pub stage: RebaseRunStage,
    pub load: Option<CheckedLoad>,
    pub survey: Option<Survey>,
    pub root: String,
    pub targets: Vec<String>,
    pub index: usize,
    pub repo: Option<RebaseRepo>,
    pub rebased: Vec<String>,
    /// Each failed repository with the message of its error.
    pub failed: Vec<(String, String)>,
}

pub struct RebaseRunView {
    pub stage: RebaseRunStage,
    pub load: Option<CheckedLoadView>,
    pub survey: Option<SurveyView>,
    pub root: Seq<char>,
    pub targets: Seq<Seq<char>>,
    pub index: nat,
    pub repo: Option<RebaseRepoView>,
    pub rebased: Seq<Seq<char>>,
    pub failed: Seq<(Seq<char>, Seq<char>)>,
}

pub open spec fn pair_views(v: Seq<(String, String)>) -> Seq<(Seq<char>, Seq<char>)> {
    v.map_values(|p: (String, String)| (p.0@, p.1@))
}

impl View for RebaseRun {
    type V = RebaseRunView;

    open spec fn view(&self) -> RebaseRunView {
        RebaseRunView {
            stage: self.stage,
            load: match self.load {
                Some(l) => Some(l@),
                None => None,
            },
            survey: match self.survey {
                Some(s) => Some(s@),
                None => None,
            },
            root: self.root@,
            targets: string_views(self.targets@),
            index: self.index as nat,
            repo: match self.repo {
                Some(r) => Some(r@),
                None => None,
            },
            rebased: string_views(self.rebased@),
            failed: pair_views(self.failed@),
        }
    }
}

pub open spec fn rebase_run_wf(v: RebaseRunView) -> bool {
    match v.stage {
        RebaseRunStage::Loading => v.load is Some && checked_wf(v.load->0),
        RebaseRunStage::Surveying => v.survey is Some && survey_wf(v.survey->0),
        RebaseRunStage::Repo => v.index < v.targets.len() && v.repo is Some && rebase_repo_wf(v.repo->0),
    }
}

impl RebaseRun {
    pub open spec fn wf(&self) -> bool {
        rebase_run_wf(self@)
    }
}

pub open spec fn rebase_run_request(v: RebaseRunView) -> RequestView {
    match v.stage {
        RebaseRunStage::Loading => checked_request(v.load->0),
        RebaseRunStage::Surveying => survey_request(v.survey->0),
        RebaseRunStage::Repo => rebase_repo_request(v.repo->0),
    }
}

/// The lines listing the failed repositories.
pub open spec fn failure_lines(fs: Seq<(Seq<char>, Seq<char>)>) -> Seq<NoticeView>
    decreases fs.len(),
{
    if fs.len() == 0 {
        seq![]
    } else {
        failure_lines(fs.drop_last()).push(failure("   "@ + fs.last().0 + ": "@ + fs.last().1))
    }
}

/// The end of the command: what was rebased, then what failed.
pub open spec fn rebase_summary(v: RebaseRunView, ns: Seq<NoticeView>) -> (Seq<NoticeView>, RunNext<RebaseRunView>) {
    let ns1 = if v.rebased.len() > 0 {
        ns.push(success("Successfully rebased "@ + decimal(v.rebased.len()) + " repositories: "@ + join(v.rebased, ", "@)))
    } else {
        ns
    };
    if v.failed.len() > 0 {
        (
            ns1.push(failure("Failed to rebase "@ + decimal(v.failed.len()) + " repositories"@)) + failure_lines(v.failed),
            RunNext::Finished(Err(plain(ErrorKindView::RebasesFailed))),
        )
    } else {
        (ns1, RunNext::Finished(Ok(())))
    }
}

/// Rebasing from the target at `j` on, or, past the last one, the summary.
pub open spec fn rebase_from(v: RebaseRunView, j: nat, ns: Seq<NoticeView>) -> (Seq<NoticeView>, RunNext<RebaseRunView>) {
    if j < v.targets.len() {
        (
            ns.push(info("Rebasing "@ + v.targets[j as int])),
            RunNext::Continue(
                RebaseRunView {
                    stage: RebaseRunStage::Repo,
                    index: j,
                    repo: Some(initial_rebase_repo(repo_dir(v.root, v.targets[j as int]))),
                    ..v
                },
            ),
        )
    } else {
        rebase_summary(v, ns)
    }
}

pub open spec fn rebase_after_survey(v: RebaseRunView, chosen: Seq<Seq<char>>, ns: Seq<NoticeView>) -> (Seq<NoticeView>, RunNext<RebaseRunView>) {
    if chosen.len() == 0 {
        (ns.push(info("No repositories found to rebase"@)), RunNext::Finished(Ok(())))
    } else {
        rebase_from(
            RebaseRunView { survey: None, targets: chosen, rebased: seq![], failed: seq![], ..v },
            0,
            ns.push(info("Found "@ + decimal(chosen.len()) + " repositories to rebase"@)),
        )
    }
}

pub open spec fn rebase_surveyed(v: RebaseRunView, ns: Seq<NoticeView>, sx: SurveyNext) -> (Seq<NoticeView>, RunNext<RebaseRunView>) {
    match sx {
        SurveyNext::Continue(s) => (ns, RunNext::Continue(RebaseRunView { stage: RebaseRunStage::Surveying, load: None, survey: Some(s), ..v })),
        SurveyNext::Finished(chosen) => rebase_after_survey(v, chosen, ns),
    }
}

pub open spec fn rebase_loaded(v: RebaseRunView, ns: Seq<NoticeView>, lx: CheckedNext) -> (Seq<NoticeView>, RunNext<RebaseRunView>) {
    match lx {
        CheckedNext::Continue(l) => (ns, RunNext::Continue(RebaseRunView { stage: RebaseRunStage::Loading, load: Some(l), ..v })),
        CheckedNext::Finished(Err(e)) => (ns, RunNext::Finished(Err(within(e, "Failed to run 'viewyard rebase'"@)))),
        CheckedNext::Finished(Ok(ctx)) => {
            let (sns, sx) = survey_from(initial_survey(ctx.view_root, ctx.active_repos, SurveyQuery::Nothing), 0, seq![]);
            rebase_surveyed(RebaseRunView { root: ctx.view_root, load: None, ..v }, ns + sns, sx)
        },
    }
}

/// The command's next move once `reply` came.
pub open spec fn rebase_run_next(v: RebaseRunView, reply: Reply) -> (Seq<NoticeView>, RunNext<RebaseRunView>) {
    match v.stage {
        RebaseRunStage::Loading => {
            let (ns, lx) = checked_next(v.load->0, reply);
            rebase_loaded(v, ns, lx)
        },
        RebaseRunStage::Surveying => {
            let (ns, sx) = survey_next(v.survey->0, reply);
            rebase_surveyed(v, ns, sx)
        },
        RebaseRunStage::Repo => {
            let target = v.targets[v.index as int];
            let (ns, rx) = rebase_repo_next(v.repo->0, reply);
            match rx {
                RebaseRepoNext::Continue(r) => (ns, RunNext::Continue(RebaseRunView { repo: Some(r), ..v })),
                RebaseRepoNext::Finished(Ok(_)) => rebase_from(
                    RebaseRunView { rebased: v.rebased.push(target), ..v },
                    v.index + 1,
                    ns.push(success(target + ": Rebased successfully"@)),
                ),
                RebaseRepoNext::Finished(Err(e)) => rebase_from(
                    RebaseRunView { failed: v.failed.push((target, error_message(e))), ..v },
                    v.index + 1,
                    ns.push(failure(target + ": Failed to rebase - "@ + error_message(e))),
                ),
            }
        },
    }
}

pub open spec fn rebase_header() -> NoticeView {
    notice(NoticeLevel::Header, "Rebasing repositories"@)
}

pub open spec fn initial_rebase_run() -> RebaseRunView {
    RebaseRunView {
        stage: RebaseRunStage::Loading,
        load: None,
        survey: None,
        root: seq![],
        targets: seq![],
        index: 0,
        repo: None,
        rebased: seq![],
        failed: seq![],
    }
}

/// How `rebase` starts: its header, then finding the view.
pub open spec fn rebase_start(current_dir: Seq<char>, parent: Option<Seq<char>>, aliases: Map<Seq<char>, Seq<char>>) -> (Seq<NoticeView>, RunNext<RebaseRunView>) {
    let (ns, lx) = checked_start("rebase"@, current_dir, parent, aliases);
    rebase_loaded(initial_rebase_run(), seq![rebase_header()] + ns, lx)
}

pub open spec fn rebase_run_step_is(step: Step<RebaseRun, Result<(), ViewyardError>>, next: (Seq<NoticeView>, RunNext<RebaseRunView>)) -> bool {
    match next.1 {
        RunNext::Continue(v) => step matches Step::Ask(ns, req, s) && notice_views(ns@) == next.0 && s@ == v && s.wf()
            && req@ == rebase_run_request(v),
        RunNext::Finished(r) => step matches Step::Done(ns, x) && notice_views(ns@) == next.0 && unit_result_view(x) == r,
    }
}

impl RebaseRun {
    /// The request the command is waiting on.
    pub fn request(&self) -> (res: Request)
        requires
            self.wf(),
        ensures
            res@ == rebase_run_request(self@),
    {
        match self.stage {
            RebaseRunStage::Loading => match &self.load {
                Some(l) => l.request(),
                None => Request::PathExists(self.root.clone()),
            },
            RebaseRunStage::Surveying => match &self.survey {
                Some(s) => s.request(),
                None => Request::PathExists(self.root.clone()),
            },
            RebaseRunStage::Repo => match &self.repo {
                Some(r) => r.request(),
                None => Request::PathExists(self.root.clone()),
            },
        }
    }

    fn summary(self, ns: Vec<Notice>) -> (res: Step<RebaseRun, Result<(), ViewyardError>>)
        ensures
            rebase_run_step_is(res, rebase_summary(self@, notice_views(ns@))),
    {
        let mut ns = ns;
        if self.rebased.len() > 0 {
            let mut t = chars_of("Successfully rebased ");
            push_all(&mut t, &decimal_chars(self.rebased.len() as u64));
            push_str(&mut t, " repositories: ");
            push_all(&mut t, &join_names(&self.rebased));
            tell_chars(&mut ns, NoticeLevel::Success, t);
        }
        if self.failed.len() > 0 {
            say_count(&mut ns, NoticeLevel::Error, "Failed to rebase ", self.failed.len(), " repositories");
            let ghost base = notice_views(ns@);
            let mut i: usize = 0;
            while i < self.failed.len()
                invariant
                    i <= self.failed.len(),
                    notice_views(ns@) == base + failure_lines(pair_views(self.failed@).take(i as int)),
                decreases self.failed.len() - i,
            {
                let mut t = chars_of("   ");
                push_str(&mut t, self.failed[i].0.as_str());
                push_str(&mut t, ": ");
                push_str(&mut t, self.failed[i].1.as_str());
                proof {
                    let fs = pair_views(self.failed@);
                    assert(fs.take(i + 1).drop_last() =~= fs.take(i as int));
                    assert(fs.take(i + 1).last() == fs[i as int]);
                }
                let ghost before = notice_views(ns@);
                tell_chars(&mut ns, NoticeLevel::Error, t);
                assert(notice_views(ns@) =~= base + failure_lines(pair_views(self.failed@).take(i + 1)));
                i = i + 1;
            }
            assert(pair_views(self.failed@).take(i as int) =~= pair_views(self.failed@));
            Step::Done(ns, Err(ViewyardError::new(ErrorKind::RebasesFailed)))
        } else {
            Step::Done(ns, Ok(()))
        }
    }

    fn from(self, j: usize, ns: Vec<Notice>) -> (res: Step<RebaseRun, Result<(), ViewyardError>>)
        requires
            j <= self.targets.len(),
        ensures
            rebase_run_step_is(res, rebase_from(self@, j as nat, notice_views(ns@))),
    {
        let mut r = self;
        let mut ns = ns;
        if j < r.targets.len() {
            say_with(&mut ns, NoticeLevel::Info, "Rebasing ", r.targets[j].as_str());
            let dir = join_path(r.root.as_str(), r.targets[j].as_str());
            r.repo = Some(RebaseRepo::start(dir));
            r.stage = RebaseRunStage::Repo;
            r.index = j;
            let req = r.request();
            Step::Ask(ns, req, r)
        } else {
            r.summary(ns)
        }
    }

    fn after_survey(self, chosen: Vec<String>, ns: Vec<Notice>) -> (res: Step<RebaseRun, Result<(), ViewyardError>>)
        ensures
            rebase_run_step_is(res, rebase_after_survey(self@, string_views(chosen@), notice_views(ns@))),
    {
        let mut r = self;
        let mut ns = ns;
        if chosen.len() == 0 {
            tell(&mut ns, NoticeLevel::Info, "No repositories found to rebase");
            Step::Done(ns, Ok(()))
        } else {
            say_count(&mut ns, NoticeLevel::Info, "Found ", chosen.len(), " repositories to rebase");
            r.survey = None;
            r.targets = chosen;
            r.rebased = Vec::new();
            r.failed = Vec::new();
            assert(string_views(r.rebased@) =~= seq![]);
            assert(pair_views(r.failed@) =~= seq![]);
            r.from(0, ns)
        }
    }

    fn surveyed(self, step: Step<Survey, Vec<String>>) -> (res: Step<RebaseRun, Result<(), ViewyardError>>)
        requires
            step matches Step::Ask(_, req, s) ==> s.wf() && req@ == survey_request(s@),
        ensures
            match step {
                Step::Ask(ns, _, s) => rebase_run_step_is(res, rebase_surveyed(self@, notice_views(ns@), SurveyNext::Continue(s@))),
                Step::Done(ns, chosen) => rebase_run_step_is(res, rebase_surveyed(self@, notice_views(ns@), SurveyNext::Finished(string_views(chosen@)))),
            },
    {
        let mut r = self;
        match step {
            Step::Ask(ns, req, s) => {
                r.stage = RebaseRunStage::Surveying;
                r.load = None;
                r.survey = Some(s);
                Step::Ask(ns, req, r)
            },
            Step::Done(ns, chosen) => r.after_survey(chosen, ns),
        }
    }

    fn loaded(self, step: Step<CheckedLoad, Result<ViewContext, ViewyardError>>) -> (res: Step<RebaseRun, Result<(), ViewyardError>>)
        requires
            step matches Step::Ask(_, req, l) ==> l.wf() && req@ == checked_request(l@),
        ensures
            match step {
                Step::Ask(ns, _, l) => rebase_run_step_is(res, rebase_loaded(self@, notice_views(ns@), CheckedNext::Continue(l@))),
                Step::Done(ns, r) => rebase_run_step_is(res, rebase_loaded(self@, notice_views(ns@), CheckedNext::Finished(crate::view::context_result_view(r)))),
            },
    {
        let mut r = self;
        match step {
            Step::Ask(ns, req, l) => {
                r.stage = RebaseRunStage::Loading;
                r.load = Some(l);
                Step::Ask(ns, req, r)
            },
            Step::Done(ns, Err(e)) => Step::Done(ns, Err(e.context(lit("Failed to run 'viewyard rebase'")))),
            Step::Done(mut ns, Ok(ctx)) => {
                r.root = ctx.view_root.clone();
                r.load = None;
                let s = Survey::start(ctx.view_root, ctx.active_repos, SurveyQuery::Nothing);
                let (first, s) = match s {
                    Step::Ask(sns, req, s) => (sns, Step::Ask(quiet(), req, s)),
                    Step::Done(sns, chosen) => (sns, Step::Done(quiet(), chosen)),
                };
                tell_all(&mut ns, first);
                match s {
                    Step::Ask(_, req, s) => {
                        r.stage = RebaseRunStage::Surveying;
                        r.survey = Some(s);
                        Step::Ask(ns, req, r)
                    },
                    Step::Done(_, chosen) => r.after_survey(chosen, ns),
                }
            },
        }
    }

    /// Starts `rebase` in the directory `current_dir`, whose parent is `parent`.
    pub fn start(current_dir: &str, parent: Option<&str>, aliases: SshHostAliases) -> (res: Step<RebaseRun, Result<(), ViewyardError>>)
        ensures
            rebase_run_step_is(res, rebase_start(current_dir@, crate::github::opt_str(parent), aliases@)),
    {
        let r = RebaseRun {
            stage: RebaseRunStage::Loading,
            load: None,
            survey: None,
            root: lit(""),
            targets: Vec::new(),
            index: 0,
            repo: None,
            rebased: Vec::new(),
            failed: Vec::new(),
        };
        proof {
            reveal_strlit("");
        }
        assert(string_views(r.targets@) =~= seq![]);
        assert(string_views(r.rebased@) =~= seq![]);
        assert(pair_views(r.failed@) =~= seq![]);
        assert(r.root@ =~= Seq::<char>::empty());
        let mut ns = quiet();
        tell(&mut ns, NoticeLevel::Header, "Rebasing repositories");
        let ghost header = notice_views(ns@);
        assert(header =~= seq![rebase_header()]);
        let step = CheckedLoad::start("rebase", current_dir, parent, aliases);
        let step = match step {
            Step::Ask(lns, req, l) => {
                let ghost lv = notice_views(lns@);
                tell_all(&mut ns, lns);
                assert(notice_views(ns@) == header + lv);
                Step::Ask(ns, req, l)
            },
            Step::Done(lns, res) => {
                let ghost lv = notice_views(lns@);
                tell_all(&mut ns, lns);
                assert(notice_views(ns@) == header + lv);
                Step::Done(ns, res)
            },
        };
        r.loaded(step)
    }

    /// The command's next step once its request was answered with `reply`.
    pub fn resume(self, reply: Reply) -> (res: Step<RebaseRun, Result<(), ViewyardError>>)
        requires
            self.wf(),
        ensures
            rebase_run_step_is(res, rebase_run_next(self@, reply)),
    {
        let mut r = self;
        match r.stage {
            RebaseRunStage::Loading => {
                let l = r.load.take();
                match l {
                    None => Step::Done(quiet(), Ok(())),
                    Some(l) => r.loaded(l.resume(reply)),
                }
            },
            RebaseRunStage::Surveying => {
                let s = r.survey.take();
                match s {
                    None => Step::Done(quiet(), Ok(())),
                    Some(s) => r.surveyed(s.resume(reply)),
                }
            },
            RebaseRunStage::Repo => {
                assert(r.index < r.targets.len());
                let one = r.repo.take();
                match one {
                    None => Step::Done(quiet(), Ok(())),
                    Some(one) => match one.resume(reply) {
                        Step::Ask(ns, req, one2) => {
                            r.repo = Some(one2);
                            Step::Ask(ns, req, r)
                        },
                        Step::Done(mut ns, Ok(())) => {
                            let t = r.targets[r.index].clone();
                            say_with(&mut ns, NoticeLevel::Success, t.as_str(), ": Rebased successfully");
                            let ghost before = r.rebased@;
                            r.rebased.push(t);
                            assert(string_views(r.rebased@) =~= string_views(before).push(t@));
                            let j = r.index + 1;
                            r.from(j, ns)
                        },
                        Step::Done(mut ns, Err(e)) => {
                            let t = r.targets[r.index].clone();
                            let m = e.message();
                            let mut line = chars_of(t.as_str());
                            push_str(&mut line, ": Failed to rebase - ");
                            push_str(&mut line, m.as_str());
                            tell_chars(&mut ns, NoticeLevel::Error, line);
                            let ghost before = r.failed@;
                            r.failed.push((t, m));
                            assert(pair_views(r.failed@) =~= pair_views(before).push((t@, m@)));
                            let j = r.index + 1;
                            r.from(j, ns)
                        },
                    },
                }
            },
        }
    }
}

} // verus!
