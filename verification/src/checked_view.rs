//! Finding the view a workspace command runs in, then checking that its repositories are
//! all on the view's branch; a failed check is warned about and the command goes on.
use vstd::prelude::*;

use crate::error::error_message;
use crate::error::lit;
use crate::error::ViewyardError;
use crate::error::ViewyardErrorView;
use crate::git::SshHostAliases;
use crate::session::notice;
use crate::session::notice_views;
use crate::session::quiet;
use crate::session::tell_all;
use crate::session::Notice;
use crate::session::NoticeLevel;
use crate::session::NoticeView;
use crate::session::Reply;
use crate::session::Request;
use crate::session::RequestView;
use crate::session::Step;
use crate::status::initial_sync;
use crate::status::sync_from;
use crate::status::sync_next;
use crate::status::sync_request;
use crate::status::sync_wf;
use crate::status::BranchSync;
use crate::status::BranchSyncView;
use crate::status::SyncNext;
use crate::view::context_result_view;
use crate::view::load_view_context;
use crate::view::view_load_next;
use crate::view::view_load_request;
use crate::view::view_load_start;
use crate::view::ViewContext;
use crate::view::ViewContextView;
use crate::view::ViewLoad;
use crate::view::ViewLoadNext;
use crate::view::ViewLoadView;

verus! {

#[derive(Debug, Clone, Copy, PartialEq, Eq, Structural)]
pub enum CheckedStage {
    /// Finding the view.
    Load,
    /// Checking the branches of its repositories.
    Sync,
}

/// Finding the view the workspace command `command` runs in, then checking that its
/// repositories are on the view's branch.
#[derive(Debug)]
pub struct CheckedLoad {
    pub command: String,
    pub stage: CheckedStage,
    pub load: Option<ViewLoad>,
    pub sync: Option<BranchSync>,
    pub context: Option<ViewContext>,
}

pub struct CheckedLoadView {
    pub command: Seq<char>,
    pub stage: CheckedStage,
    pub load: Option<ViewLoadView>,
    pub sync: Option<BranchSyncView>,
    pub context: Option<ViewContextView>,
}

impl View for CheckedLoad {
    type V = CheckedLoadView;

    open spec fn view(&self) -> CheckedLoadView {
        CheckedLoadView {
            command: self.command@,
            stage: self.stage,
            load: match self.load {
                Some(l) => Some(l@),
                None => None,
            },
            sync: match self.sync {
                Some(s) => Some(s@),
                None => None,
            },
            context: match self.context {
                Some(c) => Some(c@),
                None => None,
            },
        }
    }
}

pub open spec fn checked_wf(v: CheckedLoadView) -> bool {
    match v.stage {
        CheckedStage::Load => v.load is Some,
        CheckedStage::Sync => v.sync is Some && sync_wf(v.sync->0) && v.context is Some,
    }
}

impl CheckedLoad {
    pub open spec fn wf(&self) -> bool {
        checked_wf(self@)
    }
}

pub open spec fn checked_request(v: CheckedLoadView) -> RequestView {
    match v.stage {
        CheckedStage::Load => view_load_request(v.load->0),
        CheckedStage::Sync => sync_request(v.sync->0),
    }
}

pub enum CheckedNext {
    Continue(CheckedLoadView),
    Finished(Result<ViewContextView, ViewyardErrorView>),
}

/// Once the branch check ended with `r`: a failure is warned about, and the view found is
/// the result either way.
pub open spec fn checked_synced(v: CheckedLoadView, ns: Seq<NoticeView>, r: Result<(), ViewyardErrorView>) -> (
    Seq<NoticeView>,
    CheckedNext,
) {
    let w = match r {
        Err(e) => seq![
            notice(NoticeLevel::Warning, "Branch synchronization check failed: "@ + error_message(e)),
            notice(NoticeLevel::Info, "Continuing with "@ + v.command + "..."@),
        ],
        Ok(_) => seq![],
    };
    (ns + w, CheckedNext::Finished(Ok(v.context->0)))
}

pub open spec fn checked_sync_step(v: CheckedLoadView, ns: Seq<NoticeView>, sx: SyncNext) -> (Seq<NoticeView>, CheckedNext) {
    match sx {
        SyncNext::Continue(y) => (ns, CheckedNext::Continue(CheckedLoadView { stage: CheckedStage::Sync, sync: Some(y), ..v })),
        SyncNext::Finished(r) => checked_synced(v, ns, r),
    }
}

/// Once finding the view moved on: a view with repositories has their branches checked.
pub open spec fn checked_loaded(v: CheckedLoadView, ns: Seq<NoticeView>, lx: ViewLoadNext) -> (Seq<NoticeView>, CheckedNext) {
    match lx {
        ViewLoadNext::Continue(l) => (ns, CheckedNext::Continue(CheckedLoadView { stage: CheckedStage::Load, load: Some(l), ..v })),
        ViewLoadNext::Finished(Err(e)) => (ns, CheckedNext::Finished(Err(e))),
        ViewLoadNext::Finished(Ok(ctx)) => if ctx.active_repos.len() == 0 {
            (ns, CheckedNext::Finished(Ok(ctx)))
        } else {
            let (sns, sx) = sync_from(initial_sync(ctx.view_root, ctx.view_name, ctx.active_repos), 0);
            checked_sync_step(CheckedLoadView { load: None, context: Some(ctx), ..v }, ns + sns, sx)
        },
    }
}

/// The next move once `reply` came.
pub open spec fn checked_next(v: CheckedLoadView, reply: Reply) -> (Seq<NoticeView>, CheckedNext) {
    match v.stage {
        CheckedStage::Load => {
            let (ns, lx) = view_load_next(v.load->0, reply);
            checked_loaded(v, ns, lx)
        },
        CheckedStage::Sync => {
            let (ns, sx) = sync_next(v.sync->0, reply);
            checked_sync_step(v, ns, sx)
        },
    }
}

pub open spec fn initial_checked_load(command: Seq<char>) -> CheckedLoadView {
    CheckedLoadView { command, stage: CheckedStage::Load, load: None, sync: None, context: None }
}

/// How finding the view for `command` starts.
pub open spec fn checked_start(
    command: Seq<char>,
    current_dir: Seq<char>,
    parent: Option<Seq<char>>,
    aliases: Map<Seq<char>, Seq<char>>,
) -> (Seq<NoticeView>, CheckedNext) {
    let (ns, lx) = view_load_start(current_dir, parent, aliases);
    checked_loaded(initial_checked_load(command), ns, lx)
}

pub open spec fn checked_step_is(step: Step<CheckedLoad, Result<ViewContext, ViewyardError>>, next: (Seq<NoticeView>, CheckedNext)) -> bool {
    match next.1 {
        CheckedNext::Continue(v) => step matches Step::Ask(ns, req, s) && notice_views(ns@) == next.0 && s@ == v && s.wf()
            && req@ == checked_request(v),
        CheckedNext::Finished(r) => step matches Step::Done(ns, x) && notice_views(ns@) == next.0 && context_result_view(x) == r,
    }
}

impl CheckedLoad {
    /// Starts finding the view for `command` in the directory `current_dir`, whose parent
    /// is `parent` (none for a root).
    pub fn start(command: &str, current_dir: &str, parent: Option<&str>, aliases: SshHostAliases) -> (res: Step<
        CheckedLoad,
        Result<ViewContext, ViewyardError>,
    >)
        ensures
            checked_step_is(res, checked_start(command@, current_dir@, crate::github::opt_str(parent), aliases@)),
    {
        let c = CheckedLoad { command: lit(command), stage: CheckedStage::Load, load: None, sync: None, context: None };
        c.loaded(load_view_context(current_dir, parent, aliases))
    }

    /// The request finding and checking the view is waiting on.
    pub fn request(&self) -> (res: Request)
        requires
            self.wf(),
        ensures
            res@ == checked_request(self@),
    {
        match self.stage {
            CheckedStage::Load => match &self.load {
                Some(l) => l.request(),
                None => Request::PathExists(lit("")),
            },
            CheckedStage::Sync => match &self.sync {
                Some(s) => s.request(),
                None => Request::PathExists(lit("")),
            },
        }
    }

    fn synced(self, ns: Vec<Notice>, res: Result<(), ViewyardError>) -> (out: Step<CheckedLoad, Result<ViewContext, ViewyardError>>)
        requires
            self.context is Some,
        ensures
            checked_step_is(out, checked_synced(self@, notice_views(ns@), crate::command::unit_result_view(res))),
    {
        let ghost ns0 = notice_views(ns@);
        let ghost rv = crate::command::unit_result_view(res);
        let mut ns = ns;
        match res {
            Err(e) => {
                crate::batch::say_with(&mut ns, NoticeLevel::Warning, "Branch synchronization check failed: ", e.message().as_str());
                let mut t = crate::text::chars_of("Continuing with ");
                crate::text::push_str(&mut t, self.command.as_str());
                crate::text::push_str(&mut t, "...");
                crate::session::tell_chars(&mut ns, NoticeLevel::Info, t);
            },
            Ok(()) => {},
        }
        proof {
            let w = match rv {
                Err(e) => seq![
                    notice(NoticeLevel::Warning, "Branch synchronization check failed: "@ + error_message(e)),
                    notice(NoticeLevel::Info, "Continuing with "@ + self@.command + "..."@),
                ],
                Ok(_) => Seq::<NoticeView>::empty(),
            };
            assert(notice_views(ns@) =~= ns0 + w);
        }
        match self.context {
            Some(ctx) => Step::Done(ns, Ok(ctx)),
            None => Step::Done(ns, Err(ViewyardError::new(crate::error::ErrorKind::UnexpectedReply))),
        }
    }

    fn sync_step(self, step: Step<BranchSync, Result<(), ViewyardError>>) -> (res: Step<CheckedLoad, Result<ViewContext, ViewyardError>>)
        requires
            self.context is Some,
            step matches Step::Ask(_, req, y) ==> y.wf() && req@ == sync_request(y@),
        ensures
            match step {
                Step::Ask(ns, _, y) => checked_step_is(res, checked_sync_step(self@, notice_views(ns@), SyncNext::Continue(y@))),
                Step::Done(ns, r) => checked_step_is(res, checked_sync_step(self@, notice_views(ns@), SyncNext::Finished(crate::command::unit_result_view(r)))),
            },
    {
        let mut c = self;
        match step {
            Step::Ask(ns, req, y) => {
                c.stage = CheckedStage::Sync;
                c.sync = Some(y);
                Step::Ask(ns, req, c)
            },
            Step::Done(ns, res) => c.synced(ns, res),
        }
    }

    fn loaded(self, step: Step<ViewLoad, Result<ViewContext, ViewyardError>>) -> (res: Step<CheckedLoad, Result<ViewContext, ViewyardError>>)
        requires
            step matches Step::Ask(_, req, l) ==> req@ == view_load_request(l@),
        ensures
            match step {
                Step::Ask(ns, _, l) => checked_step_is(res, checked_loaded(self@, notice_views(ns@), ViewLoadNext::Continue(l@))),
                Step::Done(ns, r) => checked_step_is(res, checked_loaded(self@, notice_views(ns@), ViewLoadNext::Finished(context_result_view(r)))),
            },
    {
        let mut c = self;
        match step {
            Step::Ask(ns, req, l) => {
                c.stage = CheckedStage::Load;
                c.load = Some(l);
                Step::Ask(ns, req, c)
            },
            Step::Done(ns, Err(e)) => Step::Done(ns, Err(e)),
            Step::Done(mut ns, Ok(ctx)) => {
                if ctx.active_repos.len() == 0 {
                    return Step::Done(ns, Ok(ctx));
                }
                let y = BranchSync::start(ctx.view_root.clone(), ctx.view_name.clone(), crate::status::copy_repos(&ctx.active_repos));
                c.load = None;
                c.context = Some(ctx);
                let y = match y {
                    Step::Ask(yns, req, y) => {
                        tell_all(&mut ns, yns);
                        Step::Ask(ns, req, y)
                    },
                    Step::Done(yns, res) => {
                        tell_all(&mut ns, yns);
                        Step::Done(ns, res)
                    },
                };
                c.sync_step(y)
            },
        }
    }

    /// The next step once the current request was answered with `reply`.
    pub fn resume(self, reply: Reply) -> (res: Step<CheckedLoad, Result<ViewContext, ViewyardError>>)
        requires
            self.wf(),
        ensures
            checked_step_is(res, checked_next(self@, reply)),
    {
        let mut c = self;
        match c.stage {
            CheckedStage::Load => {
                let l = c.load.take();
                match l {
                    Some(l) => c.loaded(l.resume(reply)),
                    None => Step::Done(quiet(), Err(ViewyardError::new(crate::error::ErrorKind::UnexpectedReply))),
                }
            },
            CheckedStage::Sync => {
                let y = c.sync.take();
                match y {
                    Some(y) => c.sync_step(y.resume(reply)),
                    None => Step::Done(quiet(), Err(ViewyardError::new(crate::error::ErrorKind::UnexpectedReply))),
                }
            },
        }
    }
}

} // verus!
