//! The view commands: creating a view of a viewset, and adding to a view the
//! repositories the viewset gained since.
use vstd::prelude::*;
pub use crate::session::info;
pub use crate::session::hint;

use crate::command::invocation_of;
use crate::command::ProcessOutcome;
use crate::error::error_message;
use crate::error::lit;
use crate::error::plain;
use crate::error::within;
use crate::error::ErrorKind;
use crate::error::ErrorKindView;
use crate::error::ViewyardError;
use crate::error::ViewyardErrorView;
use crate::git::SshHostAliases;
use crate::git::GIT_MISSING;
use crate::github::file_name;
use crate::github::file_name_of;
use crate::github::io_error;
use crate::models::repo_views;
use crate::models::Repository;
use crate::models::RepositoryView;
use crate::session::joined_path;
use crate::session::join_path;
use crate::session::notice;
use crate::session::notice_views;
use crate::session::quiet;
use crate::session::tell;
use crate::session::tell_chars;
use crate::session::Notice;
use crate::session::NoticeLevel;
use crate::session::NoticeView;
use crate::session::Reply;
use crate::session::Request;
use crate::session::RequestView;
use crate::session::Step;
use crate::setup::initial_repo_setup;
use crate::setup::setup_next;
use crate::setup::setup_request;
use crate::setup::setup_wf;
use crate::setup::RepoSetup;
use crate::setup::RepoSetupView;
use crate::setup::SetupMode;
use crate::setup::SetupNext;
use crate::status::flag_of;
use crate::text::chars_of;
use crate::text::decimal;
use crate::text::decimal_chars;
use crate::text::join;
use crate::text::push_all;
use crate::text::push_str;
use crate::text::string_of;
use crate::view::REPOS_FILE;
use crate::viewset::initial_viewset_load;
use crate::viewset::missing;
use crate::viewset::repo_names;
use crate::viewset::viewset_load_next;
use crate::viewset::viewset_load_request;
use crate::viewset::ViewsetLoad;
use crate::viewset::ViewsetLoadNext;
use crate::viewset::ViewsetLoadView;

verus! {

/// The commands on views.
#[derive(Debug)]
pub enum ViewCommand {
    /// Create a new view/branch within the current viewset.
    Create { name: String },
    /// Update an existing view to include new repositories from the viewset (the current
    /// view when no name is given).
    Update { name: Option<String> },
}

/// Index of the last `c` in `s`, or -1.
pub open spec fn last_at(s: Seq<char>, c: char) -> int
    decreases s.len(),
{
    if s.len() == 0 {
        -1
    } else if s.last() == c {
        s.len() - 1
    } else {
        last_at(s.drop_last(), c)
    }
}

/// The path without the `/`s that end it, a lone `/` being kept.
pub open spec fn without_trailing_slashes(p: Seq<char>) -> Seq<char>
    decreases p.len(),
{
    if p.len() > 1 && p.last() == '/' {
        without_trailing_slashes(p.drop_last())
    } else {
        p
    }
}

/// The path with its extension set to `tmp` (`Path::with_extension`): the `/`s ending it
/// are dropped, then an extension of its last component is replaced, else `.tmp` is added.
pub open spec fn tmp_path(p: Seq<char>) -> Seq<char> {
    let q = without_trailing_slashes(p);
    let d = last_at(q, '.');
    if d > last_at(q, '/') + 1 {
        q.take(d) + ".tmp"@
    } else {
        q + ".tmp"@
    }
}

fn last_at_of(s: &Vec<char>, c: char) -> (res: Option<usize>)
    ensures
        match res {
            Some(d) => last_at(s@, c) == d as int && d < s.len(),
            None => last_at(s@, c) == -1,
        },
{
    let mut i: usize = s.len();
    assert(s@.take(i as int) =~= s@);
    while i > 0
        invariant
            i <= s.len(),
            last_at(s@.take(i as int), c) == last_at(s@, c),
        decreases i,
    {
        assert(s@.take(i as int).last() == s@[i - 1]);
        assert(s@.take(i as int).drop_last() =~= s@.take(i - 1));
        if s[i - 1] == c {
            return Some(i - 1);
        }
        i = i - 1;
    }
    None
}

fn without_trailing_slashes_of(p: &String) -> (res: Vec<char>)
    ensures
        res@ == without_trailing_slashes(p@),
{
    let v = chars_of(p.as_str());
    let mut n: usize = v.len();
    assert(v@.take(n as int) =~= v@);
    while n > 1 && v[n - 1] == '/'
        invariant
            n <= v.len(),
            without_trailing_slashes(v@.take(n as int)) == without_trailing_slashes(v@),
        decreases n,
    {
        assert(v@.take(n as int).drop_last() =~= v@.take(n - 1));
        n = n - 1;
    }
    let r = crate::text::slice_chars(&v, 0, n);
    assert(r@ =~= v@.take(n as int));
    r
}

fn tmp_path_of(p: &String) -> (res: String)
    ensures
        res@ == tmp_path(p@),
{
    let v = without_trailing_slashes_of(p);
    let ghost q = without_trailing_slashes(p@);
    let d = last_at_of(&v, '.');
    let sl = last_at_of(&v, '/');
    let cut = match d {
        None => None,
        Some(d) => match sl {
            None => if d > 0 {
                Some(d)
            } else {
                None
            },
            Some(s) => if d > s + 1 {
                Some(d)
            } else {
                None
            },
        },
    };
    let mut t = match cut {
        Some(d) => crate::text::slice_chars(&v, 0, d),
        None => v,
    };
    proof {
        match cut {
            Some(d) => assert(t@ =~= q.take(d as int)),
            None => {},
        }
    }
    push_str(&mut t, ".tmp");
    string_of(&t)
}

#[derive(Debug, Clone, Copy, PartialEq, Eq, Structural)]
pub enum ViewStage {
    /// Checking that git runs.
    GitCheck,
    /// Is the current directory a viewset?
    ProbeHere,
    /// Is its parent?
    ProbeParent,
    /// Does the view exist?
    ViewExists,
    /// Loading the viewset's repositories.
    Loading,
    /// Is a temporary view left from an earlier attempt?
    ProbeTemp,
    RemoveTemp,
    CreateTemp,
    /// Is the repository at `index` present in the view?
    Presence,
    /// Setting up the target at `index`.
    Setup,
    /// Removing the temporary view after a failure.
    Cleanup,
    /// Moving the temporary view into place.
    Finalize,
}

/// A view command under way. A new view is built in a temporary directory and moved into
/// place once every repository is set up; an updated view gains the repositories it lacks.
#[derive(Debug)]
pub struct ViewRun {
    pub creating: bool,
    pub name: Option<String>,
    pub current_dir: String,
    pub parent: Option<String>,
    pub aliases: SshHostAliases,
    pub stage: ViewStage,
    pub root: String,
    pub view_name: String,
    pub load: Option<ViewsetLoad>,
    pub repos: Vec<Repository>,
    pub present: Vec<bool>,
    pub targets: Vec<Repository>,
    pub index: usize,
    pub setup: Option<RepoSetup>,
    pub failure: Option<ViewyardError>,
}

pub struct ViewRunView {
    pub creating: bool,
    pub name: Option<Seq<char>>,
    pub current_dir: Seq<char>,
    pub parent: Option<Seq<char>>,
    pub aliases: Map<Seq<char>, Seq<char>>,
    pub stage: ViewStage,
    pub root: Seq<char>,
    pub view_name: Seq<char>,
    pub load: Option<ViewsetLoadView>,
    pub repos: Seq<RepositoryView>,
    pub present: Seq<bool>,
    pub targets: Seq<RepositoryView>,
    pub index: nat,
    pub setup: Option<RepoSetupView>,
    pub failure: Option<ViewyardErrorView>,
}

impl View for ViewRun {
    type V = ViewRunView;

    open spec fn view(&self) -> ViewRunView {
        ViewRunView {
            creating: self.creating,
            name: crate::models::opt_view(self.name),
            current_dir: self.current_dir@,
            parent: crate::models::opt_view(self.parent),
            aliases: self.aliases@,
            stage: self.stage,
            root: self.root@,
            view_name: self.view_name@,
            load: match self.load {
                Some(l) => Some(l@),
                None => None,
            },
            repos: repo_views(self.repos@),
            present: self.present@,
            targets: repo_views(self.targets@),
            index: self.index as nat,
            setup: match self.setup {
                Some(s) => Some(s@),
                None => None,
            },
            failure: match self.failure {
                Some(e) => Some(e@),
                None => None,
            },
        }
    }
}

pub open spec fn view_run_wf(v: ViewRunView) -> bool {
    match v.stage {
        ViewStage::ProbeParent => v.parent is Some,
        ViewStage::Loading => v.load is Some,
        ViewStage::Presence => v.index < v.repos.len() && v.present.len() == v.index,
        ViewStage::Setup => v.index < v.targets.len() && v.setup is Some && setup_wf(v.setup->0),
        ViewStage::Cleanup => v.failure is Some,
        _ => true,
    }
}

impl ViewRun {
    pub open spec fn wf(&self) -> bool {
        view_run_wf(self@)
    }
}

pub open spec fn view_path(v: ViewRunView) -> Seq<char> {
    joined_path(v.root, v.view_name)
}

/// Where repositories are cloned: the temporary view for a new view, else the view.
pub open spec fn work_dir(v: ViewRunView) -> Seq<char> {
    if v.creating {
        tmp_path(view_path(v))
    } else {
        view_path(v)
    }
}

pub open spec fn view_request(v: ViewRunView) -> RequestView {
    match v.stage {
        ViewStage::GitCheck => RequestView::Run(invocation_of(seq!["--version"@], None)),
        ViewStage::ProbeHere => RequestView::PathExists(joined_path(v.current_dir, REPOS_FILE())),
        ViewStage::ProbeParent => RequestView::PathExists(joined_path(v.parent->0, REPOS_FILE())),
        ViewStage::ViewExists => RequestView::PathExists(view_path(v)),
        ViewStage::Loading => viewset_load_request(v.load->0),
        ViewStage::ProbeTemp => RequestView::PathExists(tmp_path(view_path(v))),
        ViewStage::RemoveTemp => RequestView::RemoveDirAll(tmp_path(view_path(v))),
        ViewStage::CreateTemp => RequestView::CreateDirAll(tmp_path(view_path(v))),
        ViewStage::Presence => RequestView::PathExists(joined_path(view_path(v), v.repos[v.index as int].name)),
        ViewStage::Setup => setup_request(v.setup->0),
        ViewStage::Cleanup => RequestView::RemoveDirAll(tmp_path(view_path(v))),
        ViewStage::Finalize => RequestView::Rename(tmp_path(view_path(v)), view_path(v)),
    }
}

/// Why a view command cannot run outside a viewset, and what to do.
pub open spec fn not_in_viewset_notices(current_dir: Seq<char>) -> Seq<NoticeView> {
    seq![
        notice(NoticeLevel::Error, "Viewset commands must be run from within a viewset directory"@),
        hint("Current directory: "@ + current_dir),
        hint("Expected: directory containing .viewyard-repos.json"@),
        hint("Create a viewset: viewyard viewset create my-project"@),
        hint("Then navigate: cd my-project"@),
        hint("List existing viewsets: find . -maxdepth 2 -name '.viewyard-repos.json' -exec dirname {} \\;"@),
    ]
}

pub enum ViewNext {
    Continue(ViewRunView),
    Finished(Result<(), ViewyardErrorView>),
}

pub open spec fn at(v: ViewRunView, stage: ViewStage) -> ViewRunView {
    ViewRunView { stage, ..v }
}

/// Once the viewset is found at `root`: the view's name, then whether it exists.
pub open spec fn found_root(v: ViewRunView, root: Seq<char>) -> (Seq<NoticeView>, ViewNext) {
    let name = match v.name {
        Some(n) => Some(n),
        None => file_name(v.current_dir),
    };
    match name {
        None => (seq![], ViewNext::Finished(Err(plain(ErrorKindView::NoViewName)))),
        Some(n) => (seq![], ViewNext::Continue(ViewRunView { stage: ViewStage::ViewExists, root, view_name: n, ..v })),
    }
}

/// Setting up from the target at `j` on, or, past the last one, the end.
pub open spec fn setup_from(v: ViewRunView, j: nat, ns: Seq<NoticeView>) -> (Seq<NoticeView>, ViewNext) {
    if j < v.targets.len() {
        let t = v.targets[j as int];
        (
            ns.push(info("  Setting up "@ + t.name + " on branch '"@ + v.view_name + "'"@)),
            ViewNext::Continue(
                ViewRunView {
                    stage: ViewStage::Setup,
                    index: j,
                    setup: Some(initial_repo_setup(
                        if v.creating {
                            SetupMode::Fresh
                        } else {
                            SetupMode::InView
                        },
                        work_dir(v),
                        t,
                        v.view_name,
                    )),
                    ..v
                },
            ),
        )
    } else if v.creating {
        (ns, ViewNext::Continue(ViewRunView { setup: None, ..at(v, ViewStage::Finalize) }))
    } else {
        (
            ns.push(
                notice(
                    NoticeLevel::Success,
                    "View '"@ + v.view_name + "' updated successfully! Added "@ + decimal(v.targets.len()) + " repositories."@,
                ),
            ),
            ViewNext::Finished(Ok(())),
        )
    }
}

/// Asking, from the repository at `i` on, whether each is present in the view; then the
/// missing ones are set up.
pub open spec fn presence_from(v: ViewRunView, i: nat, ns: Seq<NoticeView>) -> (Seq<NoticeView>, ViewNext) {
    if i < v.repos.len() {
        (ns, ViewNext::Continue(ViewRunView { stage: ViewStage::Presence, index: i, ..v }))
    } else {
        let targets = missing(v.repos, v.present);
        if targets.len() == 0 {
            (
                ns.push(notice(NoticeLevel::Success, "View is already up to date - all repositories are present"@)),
                ViewNext::Finished(Ok(())),
            )
        } else {
            setup_from(
                ViewRunView { targets, ..v },
                0,
                ns + seq![
                    info("Found "@ + decimal(targets.len()) + " missing repositories to add: "@ + join(repo_names(targets), ", "@)),
                    info("Adding missing repositories..."@),
                ],
            )
        }
    }
}

/// The command's next move once `reply` came.
pub open spec fn view_next(v: ViewRunView, reply: Reply) -> (Seq<NoticeView>, ViewNext) {
    let unexpected = plain(ErrorKindView::UnexpectedReply);
    match v.stage {
        ViewStage::GitCheck => match reply {
            Reply::Ran(ProcessOutcome::SpawnFailed(c)) => (seq![], ViewNext::Finished(Err(io_error(c@, GIT_MISSING())))),
            Reply::Ran(_) => (seq![], ViewNext::Continue(at(v, ViewStage::ProbeHere))),
            _ => (seq![], ViewNext::Finished(Err(unexpected))),
        },
        ViewStage::ProbeHere => if flag_of(reply) {
            found_root(v, v.current_dir)
        } else if v.parent is Some {
            (seq![], ViewNext::Continue(at(v, ViewStage::ProbeParent)))
        } else {
            (not_in_viewset_notices(v.current_dir), ViewNext::Finished(Err(plain(ErrorKindView::NotInViewset))))
        },
        ViewStage::ProbeParent => if flag_of(reply) {
            found_root(v, v.parent->0)
        } else {
            (not_in_viewset_notices(v.current_dir), ViewNext::Finished(Err(plain(ErrorKindView::NotInViewset))))
        },
        ViewStage::ViewExists => {
            let exists = flag_of(reply);
            let load = ViewRunView {
                stage: ViewStage::Loading,
                load: Some(initial_viewset_load(v.root, v.aliases)),
                ..v
            };
            if v.creating {
                if exists {
                    (
                        seq![
                            notice(NoticeLevel::Error, "View '"@ + v.view_name + "' already exists"@),
                            hint("Choose a different view name or remove the existing view directory"@),
                        ],
                        ViewNext::Finished(Err(plain(ErrorKindView::ViewExists))),
                    )
                } else {
                    (seq![], ViewNext::Continue(load))
                }
            } else if !exists {
                (
                    seq![
                        notice(NoticeLevel::Error, "View '"@ + v.view_name + "' does not exist"@),
                        hint("Create the view first: viewyard view create <view-name>"@),
                        hint("Or specify an existing view: viewyard view update <existing-view-name>"@),
                    ],
                    ViewNext::Finished(Err(plain(ErrorKindView::ViewMissing))),
                )
            } else {
                (seq![info("Updating view: "@ + v.view_name)], ViewNext::Continue(load))
            }
        },
        ViewStage::Loading => {
            let (ns, lx) = viewset_load_next(v.load->0, reply);
            match lx {
                ViewsetLoadNext::Continue(l) => (ns, ViewNext::Continue(ViewRunView { load: Some(l), ..v })),
                ViewsetLoadNext::Finished(Err(e)) => if v.creating {
                    (ns, ViewNext::Finished(Err(e)))
                } else {
                    (ns.push(info("No repositories in viewset - nothing to update"@)), ViewNext::Finished(Ok(())))
                },
                ViewsetLoadNext::Finished(Ok(rs)) => {
                    let w = ViewRunView { load: None, repos: rs, present: seq![], ..v };
                    if v.creating {
                        (ns, ViewNext::Continue(at(w, ViewStage::ProbeTemp)))
                    } else {
                        presence_from(w, 0, ns)
                    }
                },
            }
        },
        ViewStage::ProbeTemp => if flag_of(reply) {
            (seq![], ViewNext::Continue(at(v, ViewStage::RemoveTemp)))
        } else {
            (seq![], ViewNext::Continue(at(v, ViewStage::CreateTemp)))
        },
        ViewStage::RemoveTemp => match reply {
            Reply::Io(Ok(_)) => (seq![], ViewNext::Continue(at(v, ViewStage::CreateTemp))),
            Reply::Io(Err(c)) => (seq![], ViewNext::Finished(Err(plain(ErrorKindView::Io { cause: c@ })))),
            _ => (seq![], ViewNext::Finished(Err(unexpected))),
        },
        ViewStage::CreateTemp => match reply {
            Reply::Io(Ok(_)) => setup_from(
                ViewRunView { targets: v.repos, ..v },
                0,
                seq![
                    info("✓ Created temporary view directory: "@ + tmp_path(view_path(v))),
                    info("Cloning repositories and setting up branches..."@),
                ],
            ),
            Reply::Io(Err(c)) => (seq![], ViewNext::Finished(Err(plain(ErrorKindView::Io { cause: c@ })))),
            _ => (seq![], ViewNext::Finished(Err(unexpected))),
        },
        ViewStage::Presence => presence_from(ViewRunView { present: v.present.push(flag_of(reply)), ..v }, v.index + 1, seq![]),
        ViewStage::Setup => {
            let t = v.targets[v.index as int];
            let (ns, sx) = setup_next(v.setup->0, reply);
            match sx {
                SetupNext::Continue(s) => (ns, ViewNext::Continue(ViewRunView { setup: Some(s), ..v })),
                SetupNext::Finished(Ok(_)) => if v.creating {
                    setup_from(v, v.index + 1, ns)
                } else {
                    setup_from(v, v.index + 1, ns.push(info("  ✓ Added "@ + t.name)))
                },
                SetupNext::Finished(Err(e)) => if v.creating {
                    (
                        ns + seq![
                            notice(NoticeLevel::Error, "Failed to setup "@ + t.name + ": "@ + error_message(e)),
                            info("Cleaning up temporary files..."@),
                        ],
                        ViewNext::Continue(
                            ViewRunView {
                                stage: ViewStage::Cleanup,
                                setup: None,
                                failure: Some(within(e, "Failed to setup repository '"@ + t.name + "'"@)),
                                ..v
                            },
                        ),
                    )
                } else {
                    (
                        ns.push(notice(NoticeLevel::Error, "Failed to add "@ + t.name + ": "@ + error_message(e))),
                        ViewNext::Finished(Err(within(e, "Failed to add repository '"@ + t.name + "'"@))),
                    )
                },
            }
        },
        ViewStage::Cleanup => (
            match reply {
                Reply::Io(Err(c)) => seq![notice(NoticeLevel::Warning, "Failed to cleanup temporary directory: "@ + c@)],
                _ => seq![],
            },
            ViewNext::Finished(Err(v.failure->0)),
        ),
        ViewStage::Finalize => match reply {
            Reply::Io(Ok(_)) => (
                seq![
                    notice(
                        NoticeLevel::Success,
                        "View '"@ + v.view_name + "' created successfully with "@ + decimal(v.repos.len()) + " repositories!"@,
                    ),
                    info("Navigate to: cd "@ + v.view_name),
                    info("All repositories are on the same branch for coordinated development"@),
                    info("Run 'viewyard status' to see repository status"@),
                ],
                ViewNext::Finished(Ok(())),
            ),
            Reply::Io(Err(c)) => (seq![], ViewNext::Finished(Err(io_error(c@, "Failed to finalize view creation"@)))),
            _ => (seq![], ViewNext::Finished(Err(unexpected))),
        },
    }
}

pub open spec fn view_step_is(step: Step<ViewRun, Result<(), ViewyardError>>, next: (Seq<NoticeView>, ViewNext)) -> bool {
    match next.1 {
        ViewNext::Continue(v) => step matches Step::Ask(ns, req, s) && notice_views(ns@) == next.0 && s@ == v && s.wf()
            && req@ == view_request(v),
        ViewNext::Finished(r) => step matches Step::Done(ns, x) && notice_views(ns@) == next.0
            && crate::command::unit_result_view(x) == r,
    }
}

pub open spec fn initial_view_run(
    creating: bool,
    name: Option<Seq<char>>,
    current_dir: Seq<char>,
    parent: Option<Seq<char>>,
    aliases: Map<Seq<char>, Seq<char>>,
) -> ViewRunView {
    ViewRunView {
        creating,
        name,
        current_dir,
        parent,
        aliases,
        stage: ViewStage::GitCheck,
        root: seq![],
        view_name: seq![],
        load: None,
        repos: seq![],
        present: seq![],
        targets: seq![],
        index: 0,
        setup: None,
        failure: None,
    }
}

/// How a view command starts: `view create` says what it creates; both check git first.
pub open spec fn view_start(command: ViewCommand, current_dir: Seq<char>, parent: Option<Seq<char>>, aliases: Map<Seq<char>, Seq<char>>) -> (Seq<NoticeView>, ViewNext) {
    match command {
        ViewCommand::Create { name } => (
            seq![info("Creating view: "@ + name@)],
            ViewNext::Continue(initial_view_run(true, Some(name@), current_dir, parent, aliases)),
        ),
        ViewCommand::Update { name } => (
            seq![],
            ViewNext::Continue(initial_view_run(false, crate::models::opt_view(name), current_dir, parent, aliases)),
        ),
    }
}

fn not_in_viewset(current_dir: &str) -> (res: Vec<Notice>)
    ensures
        notice_views(res@) == not_in_viewset_notices(current_dir@),
{
    let mut ns = quiet();
    tell(&mut ns, NoticeLevel::Error, "Viewset commands must be run from within a viewset directory");
    let mut t = chars_of("Current directory: ");
    push_str(&mut t, current_dir);
    tell_chars(&mut ns, NoticeLevel::Hint, t);
    tell(&mut ns, NoticeLevel::Hint, "Expected: directory containing .viewyard-repos.json");
    tell(&mut ns, NoticeLevel::Hint, "Create a viewset: viewyard viewset create my-project");
    tell(&mut ns, NoticeLevel::Hint, "Then navigate: cd my-project");
    tell(&mut ns, NoticeLevel::Hint, "List existing viewsets: find . -maxdepth 2 -name '.viewyard-repos.json' -exec dirname {} \\;");
    assert(notice_views(ns@) =~= not_in_viewset_notices(current_dir@));
    ns
}

fn quoted(ns: &mut Vec<Notice>, level: NoticeLevel, before: &str, name: &str, after: &str)
    ensures
        notice_views(final(ns)@) == notice_views(old(ns)@).push(notice(level, before@ + name@ + after@)),
{
    let mut t = chars_of(before);
    push_str(&mut t, name);
    push_str(&mut t, after);
    tell_chars(ns, level, t);
}

fn names_of(rs: &Vec<Repository>) -> (res: Vec<char>)
    ensures
        res@ == join(repo_names(repo_views(rs@)), ", "@),
{
    let mut names: Vec<String> = Vec::new();
    let mut i: usize = 0;
    while i < rs.len()
        invariant
            i <= rs.len(),
            crate::error::string_views(names@) == repo_names(repo_views(rs@)).take(i as int),
        decreases rs.len() - i,
    {
        let n = rs[i].name.clone();
        assert(crate::error::string_views(names@.push(n)) =~= crate::error::string_views(names@).push(n@));
        assert(repo_names(repo_views(rs@)).take(i + 1) =~= repo_names(repo_views(rs@)).take(i as int).push(rs@[i as int].name@));
        names.push(n);
        i = i + 1;
    }
    assert(repo_names(repo_views(rs@)).take(i as int) =~= repo_names(repo_views(rs@)));
    crate::batch::join_names(&names)
}

/// Starts a view command in the directory `current_dir`, whose parent is `parent` (none
/// for a root), the repositories' URLs being pointed at the SSH host `aliases`.
pub fn handle_view_command(action: ViewCommand, current_dir: &str, parent: Option<&str>, aliases: SshHostAliases) -> (res: Step<
    ViewRun,
    Result<(), ViewyardError>,
>)
    ensures
        view_step_is(res, view_start(action, current_dir@, crate::github::opt_str(parent), aliases@)),
{
    let ghost a = action;
    let (creating, name) = match action {
        ViewCommand::Create { name } => (true, Some(name)),
        ViewCommand::Update { name } => (false, name),
    };
    let mut ns = quiet();
    if creating {
        match &name {
            Some(n) => quoted(&mut ns, NoticeLevel::Info, "Creating view: ", n.as_str(), ""),
            None => {},
        }
    }
    proof {
        reveal_strlit("");
    }
    let r = ViewRun {
        creating,
        name,
        current_dir: lit(current_dir),
        parent: match parent {
            Some(p) => Some(lit(p)),
            None => None,
        },
        aliases,
        stage: ViewStage::GitCheck,
        root: lit(""),
        view_name: lit(""),
        load: None,
        repos: Vec::new(),
        present: Vec::new(),
        targets: Vec::new(),
        index: 0,
        setup: None,
        failure: None,
    };
    assert(r.root@ =~= Seq::<char>::empty());
    assert(r.view_name@ =~= Seq::<char>::empty());
    assert(repo_views(r.repos@) =~= seq![]);
    assert(repo_views(r.targets@) =~= seq![]);
    assert(r.present@ =~= seq![]);
    proof {
        match a {
            ViewCommand::Create { name } => {
                assert(name@ + ""@ =~= name@);
                assert(notice_views(ns@) =~= seq![info("Creating view: "@ + name@)]);
            },
            ViewCommand::Update { name } => {
                assert(notice_views(ns@) =~= Seq::<NoticeView>::empty());
            },
        }
    }
    let req = r.request();
    Step::Ask(ns, req, r)
}

impl ViewRun {
    /// The request the command is waiting on.
    pub fn request(&self) -> (res: Request)
        requires
            self.wf(),
        ensures
            res@ == view_request(self@),
    {
        let view_path = join_path(self.root.as_str(), self.view_name.as_str());
        match self.stage {
            ViewStage::GitCheck => Request::Run(crate::git::git_version_command()),
            ViewStage::ProbeHere => Request::PathExists(join_path(self.current_dir.as_str(), ".viewyard-repos.json")),
            ViewStage::ProbeParent => match &self.parent {
                Some(p) => Request::PathExists(join_path(p.as_str(), ".viewyard-repos.json")),
                None => Request::PathExists(view_path),
            },
            ViewStage::ViewExists => Request::PathExists(view_path),
            ViewStage::Loading => match &self.load {
                Some(l) => l.request(),
                None => Request::PathExists(view_path),
            },
            ViewStage::ProbeTemp => Request::PathExists(tmp_path_of(&view_path)),
            ViewStage::RemoveTemp => Request::RemoveDirAll(tmp_path_of(&view_path)),
            ViewStage::CreateTemp => Request::CreateDirAll(tmp_path_of(&view_path)),
            ViewStage::Presence => Request::PathExists(join_path(view_path.as_str(), self.repos[self.index].name.as_str())),
            ViewStage::Setup => match &self.setup {
                Some(s) => s.request(),
                None => Request::PathExists(view_path),
            },
            ViewStage::Cleanup => Request::RemoveDirAll(tmp_path_of(&view_path)),
            ViewStage::Finalize => Request::Rename(tmp_path_of(&view_path), view_path),
        }
    }

    fn ask(self, ns: Vec<Notice>) -> (res: Step<ViewRun, Result<(), ViewyardError>>)
        requires
            self.wf(),
        ensures
            res matches Step::Ask(ns2, req, s) && ns2@ == ns@ && s@ == self@ && s.wf() && req@ == view_request(self@),
    {
        let req = self.request();
        Step::Ask(ns, req, self)
    }

    fn found_root(self, root: String) -> (res: Step<ViewRun, Result<(), ViewyardError>>)
        ensures
            view_step_is(res, found_root(self@, root@)),
    {
        let mut r = self;
        let name: Option<String> = match &r.name {
            Some(n) => Some(n.clone()),
            None => match file_name_of(&chars_of(r.current_dir.as_str())) {
                Some(n) => Some(string_of(&n)),
                None => None,
            },
        };
        match name {
            None => Step::Done(quiet(), Err(ViewyardError::new(ErrorKind::NoViewName))),
            Some(n) => {
                r.root = root;
                r.view_name = n;
                r.stage = ViewStage::ViewExists;
                r.ask(quiet())
            },
        }
    }

    fn setup_from(self, j: usize, ns: Vec<Notice>) -> (res: Step<ViewRun, Result<(), ViewyardError>>)
        requires
            j <= self.targets.len(),
        ensures
            view_step_is(res, setup_from(self@, j as nat, notice_views(ns@))),
    {
        let mut r = self;
        let mut ns = ns;
        if j < r.targets.len() {
            let t = r.targets[j].clone();
            let mut line = chars_of("  Setting up ");
            push_str(&mut line, t.name.as_str());
            push_str(&mut line, " on branch '");
            push_str(&mut line, r.view_name.as_str());
            push_str(&mut line, "'");
            tell_chars(&mut ns, NoticeLevel::Info, line);
            let view_path = join_path(r.root.as_str(), r.view_name.as_str());
            let (mode, dir) = if r.creating {
                (SetupMode::Fresh, tmp_path_of(&view_path))
            } else {
                (SetupMode::InView, view_path)
            };
            r.setup = Some(RepoSetup::start(mode, dir, t, r.view_name.clone()));
            r.stage = ViewStage::Setup;
            r.index = j;
            r.ask(ns)
        } else if r.creating {
            r.setup = None;
            r.stage = ViewStage::Finalize;
            r.ask(ns)
        } else {
            let mut line = chars_of("View '");
            push_str(&mut line, r.view_name.as_str());
            push_str(&mut line, "' updated successfully! Added ");
            push_all(&mut line, &decimal_chars(r.targets.len() as u64));
            push_str(&mut line, " repositories.");
            tell_chars(&mut ns, NoticeLevel::Success, line);
            Step::Done(ns, Ok(()))
        }
    }

    fn presence_from(self, i: usize, ns: Vec<Notice>) -> (res: Step<ViewRun, Result<(), ViewyardError>>)
        requires
            i <= self.repos.len(),
            self.present.len() == i,
        ensures
            view_step_is(res, presence_from(self@, i as nat, notice_views(ns@))),
    {
        let mut r = self;
        let mut ns = ns;
        if i < r.repos.len() {
            r.stage = ViewStage::Presence;
            r.index = i;
            r.ask(ns)
        } else {
            let targets = crate::viewset::find_missing_repositories(&r.repos, &r.present);
            if targets.len() == 0 {
                tell(&mut ns, NoticeLevel::Success, "View is already up to date - all repositories are present");
                Step::Done(ns, Ok(()))
            } else {
                let ghost ns0 = notice_views(ns@);
                let mut line = chars_of("Found ");
                push_all(&mut line, &decimal_chars(targets.len() as u64));
                push_str(&mut line, " missing repositories to add: ");
                push_all(&mut line, &names_of(&targets));
                tell_chars(&mut ns, NoticeLevel::Info, line);
                tell(&mut ns, NoticeLevel::Info, "Adding missing repositories...");
                r.targets = targets;
                proof {
                    let t = missing(self@.repos, self@.present);
                    assert(notice_views(ns@) =~= ns0 + seq![
                        info("Found "@ + decimal(t.len()) + " missing repositories to add: "@ + join(repo_names(t), ", "@)),
                        info("Adding missing repositories..."@),
                    ]);
                }
                r.setup_from(0, ns)
            }
        }
    }

    /// The command's next step once its request was answered with `reply`.
    #[verifier::rlimit(40)]
    pub fn resume(self, reply: Reply) -> (res: Step<ViewRun, Result<(), ViewyardError>>)
        requires
            self.wf(),
        ensures
            view_step_is(res, view_next(self@, reply)),
    {
        let mut r = self;
        match r.stage {
            ViewStage::GitCheck => match reply {
                Reply::Ran(o) => match crate::git::check_git_availability(&o) {
                    Err(e) => Step::Done(quiet(), Err(e)),
                    Ok(()) => {
                        r.stage = ViewStage::ProbeHere;
                        r.ask(quiet())
                    },
                },
                _ => Step::Done(quiet(), Err(ViewyardError::new(ErrorKind::UnexpectedReply))),
            },
            ViewStage::ProbeHere => {
                if crate::status::flag_of_reply(&reply) {
                    let root = r.current_dir.clone();
                    r.found_root(root)
                } else if r.parent.is_some() {
                    r.stage = ViewStage::ProbeParent;
                    r.ask(quiet())
                } else {
                    Step::Done(not_in_viewset(r.current_dir.as_str()), Err(ViewyardError::new(ErrorKind::NotInViewset)))
                }
            },
            ViewStage::ProbeParent => {
                if crate::status::flag_of_reply(&reply) {
                    let root = match &r.parent {
                        Some(p) => p.clone(),
                        None => r.current_dir.clone(),
                    };
                    r.found_root(root)
                } else {
                    Step::Done(not_in_viewset(r.current_dir.as_str()), Err(ViewyardError::new(ErrorKind::NotInViewset)))
                }
            },
            ViewStage::ViewExists => {
                let exists = crate::status::flag_of_reply(&reply);
                let mut ns = quiet();
                if r.creating {
                    if exists {
                        quoted(&mut ns, NoticeLevel::Error, "View '", r.view_name.as_str(), "' already exists");
                        tell(&mut ns, NoticeLevel::Hint, "Choose a different view name or remove the existing view directory");
                        assert(notice_views(ns@) =~= view_next(self@, reply).0);
                        return Step::Done(ns, Err(ViewyardError::new(ErrorKind::ViewExists)));
                    }
                } else if !exists {
                    quoted(&mut ns, NoticeLevel::Error, "View '", r.view_name.as_str(), "' does not exist");
                    tell(&mut ns, NoticeLevel::Hint, "Create the view first: viewyard view create <view-name>");
                    tell(&mut ns, NoticeLevel::Hint, "Or specify an existing view: viewyard view update <existing-view-name>");
                    assert(notice_views(ns@) =~= view_next(self@, reply).0);
                    return Step::Done(ns, Err(ViewyardError::new(ErrorKind::ViewMissing)));
                } else {
                    crate::batch::say_with(&mut ns, NoticeLevel::Info, "Updating view: ", r.view_name.as_str());
                    assert(notice_views(ns@) =~= view_next(self@, reply).0);
                }
                let aliases = r.aliases.duplicate();
                r.load = Some(ViewsetLoad::start(r.root.clone(), aliases));
                r.stage = ViewStage::Loading;
                r.ask(ns)
            },
            ViewStage::Loading => {
                let l = r.load.take();
                match l {
                    None => Step::Done(quiet(), Ok(())),
                    Some(l) => match l.resume(reply) {
                        Step::Ask(ns, req, l2) => {
                            r.load = Some(l2);
                            Step::Ask(ns, req, r)
                        },
                        Step::Done(mut ns, Err(e)) => {
                            if r.creating {
                                Step::Done(ns, Err(e))
                            } else {
                                tell(&mut ns, NoticeLevel::Info, "No repositories in viewset - nothing to update");
                                Step::Done(ns, Ok(()))
                            }
                        },
                        Step::Done(ns, Ok(rs)) => {
                            r.repos = rs;
                            r.present = Vec::new();
                            assert(r.present@ =~= seq![]);
                            if r.creating {
                                r.stage = ViewStage::ProbeTemp;
                                r.ask(ns)
                            } else {
                                r.presence_from(0, ns)
                            }
                        },
                    },
                }
            },
            ViewStage::ProbeTemp => {
                r.stage = if crate::status::flag_of_reply(&reply) {
                    ViewStage::RemoveTemp
                } else {
                    ViewStage::CreateTemp
                };
                r.ask(quiet())
            },
            ViewStage::RemoveTemp => match reply {
                Reply::Io(Ok(())) => {
                    r.stage = ViewStage::CreateTemp;
                    r.ask(quiet())
                },
                Reply::Io(Err(c)) => Step::Done(quiet(), Err(ViewyardError::new(ErrorKind::Io { cause: c }))),
                _ => Step::Done(quiet(), Err(ViewyardError::new(ErrorKind::UnexpectedReply))),
            },
            ViewStage::CreateTemp => match reply {
                Reply::Io(Ok(())) => {
                    let vp = join_path(r.root.as_str(), r.view_name.as_str());
                    let temp = tmp_path_of(&vp);
                    let mut ns = quiet();
                    crate::batch::say_with(&mut ns, NoticeLevel::Info, "✓ Created temporary view directory: ", temp.as_str());
                    tell(&mut ns, NoticeLevel::Info, "Cloning repositories and setting up branches...");
                    r.targets = crate::status::copy_repos(&r.repos);
                    assert(notice_views(ns@) =~= seq![
                        info("✓ Created temporary view directory: "@ + tmp_path(view_path(self@))),
                        info("Cloning repositories and setting up branches..."@),
                    ]);
                    r.setup_from(0, ns)
                },
                Reply::Io(Err(c)) => Step::Done(quiet(), Err(ViewyardError::new(ErrorKind::Io { cause: c }))),
                _ => Step::Done(quiet(), Err(ViewyardError::new(ErrorKind::UnexpectedReply))),
            },
            ViewStage::Presence => {
                assert(r.index < r.repos.len());
                let ghost before = r.present@;
                r.present.push(crate::status::flag_of_reply(&reply));
                let i = r.index + 1;
                r.presence_from(i, quiet())
            },
            ViewStage::Setup => {
                assert(r.index < r.targets.len());
                let s = r.setup.take();
                match s {
                    None => Step::Done(quiet(), Ok(())),
                    Some(s) => match s.resume(reply) {
                        Step::Ask(ns, req, s2) => {
                            r.setup = Some(s2);
                            Step::Ask(ns, req, r)
                        },
                        Step::Done(mut ns, Ok(())) => {
                            if !r.creating {
                                crate::batch::say_with(&mut ns, NoticeLevel::Info, "  ✓ Added ", r.targets[r.index].name.as_str());
                            }
                            let j = r.index + 1;
                            r.setup_from(j, ns)
                        },
                        Step::Done(mut ns, Err(e)) => {
                            let name = r.targets[r.index].name.clone();
                            let ghost ns0 = notice_views(ns@);
                            if r.creating {
                                crate::batch::say_error(&mut ns, NoticeLevel::Error, "Failed to setup ", name.as_str(), &e);
                                tell(&mut ns, NoticeLevel::Info, "Cleaning up temporary files...");
                                let mut c = chars_of("Failed to setup repository '");
                                push_str(&mut c, name.as_str());
                                push_str(&mut c, "'");
                                r.failure = Some(e.context(string_of(&c)));
                                r.stage = ViewStage::Cleanup;
                                assert(notice_views(ns@) =~= ns0 + seq![
                                    notice(NoticeLevel::Error, "Failed to setup "@ + name@ + ": "@ + error_message(e@)),
                                    info("Cleaning up temporary files..."@),
                                ]);
                                r.ask(ns)
                            } else {
                                crate::batch::say_error(&mut ns, NoticeLevel::Error, "Failed to add ", name.as_str(), &e);
                                let mut c = chars_of("Failed to add repository '");
                                push_str(&mut c, name.as_str());
                                push_str(&mut c, "'");
                                Step::Done(ns, Err(e.context(string_of(&c))))
                            }
                        },
                    },
                }
            },
            ViewStage::Cleanup => {
                let mut ns = quiet();
                match &reply {
                    Reply::Io(Err(c)) => crate::batch::say_with(&mut ns, NoticeLevel::Warning, "Failed to cleanup temporary directory: ", c.as_str()),
                    _ => {},
                }
                match r.failure {
                    Some(e) => Step::Done(ns, Err(e)),
                    None => Step::Done(ns, Ok(())),
                }
            },
            ViewStage::Finalize => match reply {
                Reply::Io(Ok(())) => {
                    let mut ns = quiet();
                    let mut line = chars_of("View '");
                    push_str(&mut line, r.view_name.as_str());
                    push_str(&mut line, "' created successfully with ");
                    push_all(&mut line, &decimal_chars(r.repos.len() as u64));
                    push_str(&mut line, " repositories!");
                    tell_chars(&mut ns, NoticeLevel::Success, line);
                    crate::batch::say_with(&mut ns, NoticeLevel::Info, "Navigate to: cd ", r.view_name.as_str());
                    tell(&mut ns, NoticeLevel::Info, "All repositories are on the same branch for coordinated development");
                    tell(&mut ns, NoticeLevel::Info, "Run 'viewyard status' to see repository status");
                    assert(notice_views(ns@) =~= view_next(self@, reply).0);
                    Step::Done(ns, Ok(()))
                },
                Reply::Io(Err(c)) => Step::Done(
                    quiet(),
                    Err(ViewyardError::new(ErrorKind::Io { cause: c }).context(lit("Failed to finalize view creation"))),
                ),
                _ => Step::Done(quiet(), Err(ViewyardError::new(ErrorKind::UnexpectedReply))),
            },
        }
    }
}

} // verus!
