//! The viewset commands: creating a viewset from the repositories the user chooses among
//! those discovered on GitHub, and adding to a viewset the ones it does not hold yet.
use vstd::prelude::*;
pub use crate::session::info;

use crate::command::invocation_of;
use crate::command::ProcessOutcome;
use crate::error::lit;
use crate::error::plain;
use crate::error::ErrorKind;
use crate::error::ErrorKindView;
use crate::error::ViewyardError;
use crate::error::ViewyardErrorView;
use crate::git::chosen_protocol;
use crate::git::SshHostAliases;
use crate::github::io_error;
use crate::github::repos_result_view;
use crate::models::opt_view;
use crate::models::repo_views;
use crate::models::GitProtocol;
use crate::models::Repository;
use crate::models::RepositoryView;
use crate::session::joined_path;
use crate::session::join_path;
use crate::session::notice;
use crate::session::notice_views;
use crate::session::quiet;
use crate::session::tell;
use crate::session::tell_all;
use crate::session::Notice;
use crate::session::NoticeLevel;
use crate::session::NoticeView;
use crate::session::Reply;
use crate::session::Request;
use crate::session::RequestView;
use crate::session::Step;
use crate::status::flag_of;
use crate::view::loaded_repos;
use crate::view::load_and_validate_repos;
use crate::view::REPOS_FILE;
use crate::git::GIT_MISSING;
use crate::viewset::discover_repositories_for_viewset;
use crate::viewset::empty_viewset_notices;
use crate::viewset::initial_viewset_discovery;
use crate::viewset::not_existing;
use crate::viewset::not_viewset_root_notices;
use crate::viewset::update_protocol;
use crate::viewset::update_selection_intro;
use crate::viewset::viewset_created_notices;
use crate::viewset::viewset_discovery_next;
use crate::viewset::viewset_discovery_request;
use crate::viewset::viewset_discovery_wf;
use crate::viewset::viewset_exists_notices;
use crate::viewset::viewset_updated_notices;
use crate::viewset::FoundNext;
use crate::viewset::ViewsetDiscovery;
use crate::viewset::ViewsetDiscoveryView;
use crate::viewset::CONFIG_FILE;

verus! {

/// The commands on viewsets.
#[derive(Debug)]
pub enum ViewsetCommand {
    /// Create the viewset directory `name` with repositories chosen among those of
    /// `account` (of every account when none is given), cloned over `protocol`.
    Create { name: String, account: Option<String>, protocol: Option<String> },
    /// Add repositories of `account` to the viewset in the current directory, cloned over
    /// `protocol` (by default the one the viewset stores).
    Update { account: Option<String>, protocol: Option<String> },
}

#[derive(Debug, Clone, Copy, PartialEq, Eq, Structural)]
pub enum ViewsetStage {
    /// Checking that git runs.
    GitCheck,
    /// Does the directory of the viewset to create exist?
    ProbeTarget,
    /// Does the current directory list repositories?
    ProbeRepos,
    /// Reading the protocol the viewset stores.
    ReadConfig,
    /// Reading the repositories the viewset holds.
    ReadExisting,
    /// Discovering repositories on GitHub.
    Discovery,
    /// Creating a viewset directory without repositories.
    CreateEmpty,
    /// The user chooses repositories.
    Select,
    /// The user confirms the choice.
    Confirm,
    /// Creating the viewset directory.
    CreateDir,
    /// Writing the list of repositories.
    WriteRepos,
    /// Writing the viewset's settings.
    WriteConfig,
}

/// A viewset command under way.
#[derive(Debug)]
pub struct ViewsetRun {
    pub creating: bool,
    /// The viewset to create (empty for an update).
    pub name: String,
    pub account: Option<String>,
    /// The `--protocol` flag.
    pub flag: Option<String>,
    /// The `VIEWYARD_GIT_PROTOCOL` variable.
    pub env_protocol: Option<String>,
    pub current_dir: String,
    pub aliases: SshHostAliases,
    pub stage: ViewsetStage,
    /// The protocol repositories are discovered and stored with.
    pub protocol: GitProtocol,
    /// The protocol the viewset stores, when it has a configuration file.
    pub stored: Option<GitProtocol>,
    pub discovery: Option<ViewsetDiscovery>,
    /// The repositories the viewset holds already.
    pub existing: Vec<Repository>,
    /// Those the user may choose from.
    pub available: Vec<Repository>,
    /// Those the user chose.
    pub selected: Vec<Repository>,
    /// Whether an empty viewset is created because nothing was chosen (rather than for
    /// want of discovery).
    pub later: bool,
}

pub struct ViewsetRunView {
    pub creating: bool,
    pub name: Seq<char>,
    pub account: Option<Seq<char>>,
    pub flag: Option<Seq<char>>,
    pub env_protocol: Option<Seq<char>>,
    pub current_dir: Seq<char>,
    pub aliases: Map<Seq<char>, Seq<char>>,
    pub stage: ViewsetStage,
    pub protocol: GitProtocol,
    pub stored: Option<GitProtocol>,
    pub discovery: Option<ViewsetDiscoveryView>,
    pub existing: Seq<RepositoryView>,
    pub available: Seq<RepositoryView>,
    pub selected: Seq<RepositoryView>,
    pub later: bool,
}

impl View for ViewsetRun {
    type V = ViewsetRunView;

    open spec fn view(&self) -> ViewsetRunView {
        ViewsetRunView {
            creating: self.creating,
            name: self.name@,
            account: opt_view(self.account),
            flag: opt_view(self.flag),
            env_protocol: opt_view(self.env_protocol),
            current_dir: self.current_dir@,
            aliases: self.aliases@,
            stage: self.stage,
            protocol: self.protocol,
            stored: self.stored,
            discovery: match self.discovery {
                Some(d) => Some(d@),
                None => None,
            },
            existing: repo_views(self.existing@),
            available: repo_views(self.available@),
            selected: repo_views(self.selected@),
            later: self.later,
        }
    }
}

pub open spec fn viewset_run_wf(v: ViewsetRunView) -> bool {
    v.stage == ViewsetStage::Discovery ==> v.discovery is Some && viewset_discovery_wf(v.discovery->0)
}

impl ViewsetRun {
    pub open spec fn wf(&self) -> bool {
        viewset_run_wf(self@)
    }
}

/// The directory of the viewset to create.
pub open spec fn target_path(v: ViewsetRunView) -> Seq<char> {
    joined_path(v.current_dir, v.name)
}

/// The directory of the viewset the command works on.
pub open spec fn viewset_root(v: ViewsetRunView) -> Seq<char> {
    if v.creating {
        target_path(v)
    } else {
        v.current_dir
    }
}

pub open spec fn repos_file(v: ViewsetRunView) -> Seq<char> {
    joined_path(viewset_root(v), REPOS_FILE())
}

pub open spec fn config_file(v: ViewsetRunView) -> Seq<char> {
    joined_path(viewset_root(v), CONFIG_FILE())
}

/// The repositories the viewset lists once the choice is made: those chosen for a new
/// viewset, those it had followed by those chosen for an update.
pub open spec fn written_repos(v: ViewsetRunView) -> Seq<RepositoryView> {
    if v.creating {
        v.selected
    } else {
        v.existing + v.selected
    }
}

pub open spec fn viewset_run_request(v: ViewsetRunView) -> RequestView {
    match v.stage {
        ViewsetStage::GitCheck => RequestView::Run(invocation_of(seq!["--version"@], None)),
        ViewsetStage::ProbeTarget => RequestView::PathExists(target_path(v)),
        ViewsetStage::ProbeRepos => RequestView::PathExists(repos_file(v)),
        ViewsetStage::ReadConfig => RequestView::ReadViewsetConfig(config_file(v)),
        ViewsetStage::ReadExisting => RequestView::ReadRepositories(repos_file(v)),
        ViewsetStage::Discovery => viewset_discovery_request(v.discovery->0),
        ViewsetStage::CreateEmpty => RequestView::CreateDirAll(target_path(v)),
        ViewsetStage::Select => RequestView::SelectRepositories(v.available, v.existing),
        ViewsetStage::Confirm => RequestView::ConfirmSelection(v.selected),
        ViewsetStage::CreateDir => RequestView::CreateDirAll(target_path(v)),
        ViewsetStage::WriteRepos => RequestView::WriteRepositories(repos_file(v), written_repos(v)),
        ViewsetStage::WriteConfig => RequestView::WriteViewsetConfig(config_file(v), v.protocol),
    }
}

pub enum ViewsetNext {
    Continue(ViewsetRunView),
    Finished(Result<(), ViewyardErrorView>),
}

pub open spec fn at(v: ViewsetRunView, stage: ViewsetStage) -> ViewsetRunView {
    ViewsetRunView { stage, ..v }
}

pub open spec fn no_changes() -> NoticeView {
    notice(NoticeLevel::Success, "No changes made to viewset."@)
}

pub open spec fn cancelled() -> NoticeView {
    info("Repository selection cancelled."@)
}

/// What an update says when discovery fails.
pub open spec fn manual_fallback_notices() -> Seq<NoticeView> {
    seq![
        info("Falling back to manual repository management."@),
        info("Edit .viewyard-repos.json manually to add repositories."@),
    ]
}

/// When the user is told to add repositories to an empty viewset.
pub open spec fn empty_when(later: bool) -> Seq<char> {
    if later {
        "later"@
    } else {
        "when GitHub CLI is set up"@
    }
}

/// Discovery starts, after the notices `ns`.
pub open spec fn discovery_starts(v: ViewsetRunView, ns: Seq<NoticeView>) -> (Seq<NoticeView>, ViewsetNext) {
    (
        ns,
        ViewsetNext::Continue(
            ViewsetRunView {
                stage: ViewsetStage::Discovery,
                discovery: Some(initial_viewset_discovery(v.account, v.protocol, v.aliases)),
                ..v
            },
        ),
    )
}

/// What follows discovery, which found `r` after the notices `ns`. A new viewset is
/// created empty when discovery fails; an update falls back to manual editing. An update
/// offers only the repositories the viewset does not hold.
pub open spec fn discovered(v: ViewsetRunView, r: Result<Seq<RepositoryView>, ViewyardErrorView>, ns: Seq<NoticeView>) -> (
    Seq<NoticeView>,
    ViewsetNext,
) {
    let w = ViewsetRunView { discovery: None, ..v };
    match r {
        Err(_) => if v.creating {
            (ns, ViewsetNext::Continue(ViewsetRunView { stage: ViewsetStage::CreateEmpty, later: false, ..w }))
        } else {
            (ns + manual_fallback_notices(), ViewsetNext::Finished(Ok(())))
        },
        Ok(found) => if v.creating {
            (ns, ViewsetNext::Continue(ViewsetRunView { stage: ViewsetStage::Select, available: found, ..w }))
        } else {
            let available = not_existing(found, v.existing);
            let (intro, any) = update_selection_intro(available, v.existing);
            if any {
                (ns + intro, ViewsetNext::Continue(ViewsetRunView { stage: ViewsetStage::Select, available, ..w }))
            } else {
                (ns + intro + seq![no_changes()], ViewsetNext::Finished(Ok(())))
            }
        },
    }
}

pub open spec fn io_failure(c: Seq<char>) -> ViewsetNext {
    ViewsetNext::Finished(Err(plain(ErrorKindView::Io { cause: c })))
}

pub open spec fn unexpected_reply() -> ViewsetNext {
    ViewsetNext::Finished(Err(plain(ErrorKindView::UnexpectedReply)))
}

/// The protocol a viewset stores: SSH when it has no configuration file.
pub open spec fn stored_protocol(p: Option<GitProtocol>) -> GitProtocol {
    match p {
        Some(p) => p,
        None => GitProtocol::Ssh,
    }
}

/// The command's next move once `reply` came.
pub open spec fn viewset_run_next(v: ViewsetRunView, reply: Reply) -> (Seq<NoticeView>, ViewsetNext) {
    match v.stage {
        ViewsetStage::GitCheck => match reply {
            Reply::Ran(ProcessOutcome::SpawnFailed(c)) => (seq![], ViewsetNext::Finished(Err(io_error(c@, GIT_MISSING())))),
            Reply::Ran(_) => (
                seq![],
                ViewsetNext::Continue(
                    at(
                        v,
                        if v.creating {
                            ViewsetStage::ProbeTarget
                        } else {
                            ViewsetStage::ProbeRepos
                        },
                    ),
                ),
            ),
            _ => (seq![], unexpected_reply()),
        },
        ViewsetStage::ProbeTarget => if flag_of(reply) {
            (viewset_exists_notices(v.name), ViewsetNext::Finished(Err(plain(ErrorKindView::DirectoryExists))))
        } else {
            discovery_starts(v, seq![])
        },
        ViewsetStage::ProbeRepos => if flag_of(reply) {
            (seq![], ViewsetNext::Continue(at(v, ViewsetStage::ReadConfig)))
        } else {
            (not_viewset_root_notices(v.current_dir), ViewsetNext::Finished(Err(plain(ErrorKindView::NotInViewset))))
        },
        ViewsetStage::ReadConfig => match reply {
            Reply::Protocol(p) => match update_protocol(v.flag, v.env_protocol, stored_protocol(p)) {
                Err(value) => (seq![], ViewsetNext::Finished(Err(plain(ErrorKindView::InvalidProtocol { value })))),
                Ok(protocol) => (
                    seq![],
                    ViewsetNext::Continue(ViewsetRunView { stage: ViewsetStage::ReadExisting, protocol, stored: p, ..v }),
                ),
            },
            _ => (seq![], unexpected_reply()),
        },
        ViewsetStage::ReadExisting => match reply {
            Reply::Repositories(r) => match repos_result_view(r) {
                Err(e) => (seq![], ViewsetNext::Finished(Err(e))),
                Ok(rs) => {
                    let (ns, loaded) = loaded_repos(rs, repos_file(v), v.stored, v.aliases);
                    match loaded {
                        Err(e) => (ns, ViewsetNext::Finished(Err(e))),
                        Ok(existing) => discovery_starts(ViewsetRunView { existing, ..v }, ns),
                    }
                },
            },
            _ => (seq![], unexpected_reply()),
        },
        ViewsetStage::Discovery => match reply {
            Reply::Ran(o) => {
                let (ns, fx) = viewset_discovery_next(v.discovery->0, o);
                match fx {
                    FoundNext::Continue(d) => (ns, ViewsetNext::Continue(ViewsetRunView { discovery: Some(d), ..v })),
                    FoundNext::Finished(r) => discovered(v, r, ns),
                }
            },
            _ => (seq![], unexpected_reply()),
        },
        ViewsetStage::CreateEmpty => match reply {
            Reply::Io(Ok(_)) => (empty_viewset_notices(target_path(v), v.name, empty_when(v.later)), ViewsetNext::Finished(Ok(()))),
            Reply::Io(Err(c)) => (seq![], io_failure(c@)),
            _ => (seq![], unexpected_reply()),
        },
        ViewsetStage::Select => match reply {
            Reply::Selection(r) => match repos_result_view(r) {
                Err(e) => (seq![], ViewsetNext::Finished(Err(e))),
                Ok(chosen) => if chosen.len() > 0 {
                    (seq![], ViewsetNext::Continue(ViewsetRunView { stage: ViewsetStage::Confirm, selected: chosen, ..v }))
                } else if v.creating {
                    (
                        seq![info("No repositories selected. Creating empty viewset."@)],
                        ViewsetNext::Continue(ViewsetRunView { stage: ViewsetStage::CreateEmpty, later: true, ..v }),
                    )
                } else {
                    (seq![info("No new repositories selected."@), no_changes()], ViewsetNext::Finished(Ok(())))
                },
            },
            _ => (seq![], unexpected_reply()),
        },
        ViewsetStage::Confirm => match reply {
            Reply::Confirmed(Err(e)) => (seq![], ViewsetNext::Finished(Err(e@))),
            Reply::Confirmed(Ok(true)) => (
                seq![],
                ViewsetNext::Continue(
                    at(
                        v,
                        if v.creating {
                            ViewsetStage::CreateDir
                        } else {
                            ViewsetStage::WriteRepos
                        },
                    ),
                ),
            ),
            Reply::Confirmed(Ok(false)) => if v.creating {
                (seq![cancelled()], ViewsetNext::Finished(Ok(())))
            } else {
                (seq![cancelled(), no_changes()], ViewsetNext::Finished(Ok(())))
            },
            _ => (seq![], unexpected_reply()),
        },
        ViewsetStage::CreateDir => match reply {
            Reply::Io(Ok(_)) => (
                seq![notice(NoticeLevel::Success, "✓ Created viewset directory: "@ + target_path(v))],
                ViewsetNext::Continue(at(v, ViewsetStage::WriteRepos)),
            ),
            Reply::Io(Err(c)) => (seq![], io_failure(c@)),
            _ => (seq![], unexpected_reply()),
        },
        ViewsetStage::WriteRepos => match reply {
            Reply::Io(Ok(_)) => if v.creating {
                (seq![], ViewsetNext::Continue(at(v, ViewsetStage::WriteConfig)))
            } else {
                (viewset_updated_notices(v.selected), ViewsetNext::Finished(Ok(())))
            },
            Reply::Io(Err(c)) => (seq![], io_failure(c@)),
            _ => (seq![], unexpected_reply()),
        },
        ViewsetStage::WriteConfig => match reply {
            Reply::Io(Ok(_)) => (viewset_created_notices(v.name, v.selected.len()), ViewsetNext::Finished(Ok(()))),
            Reply::Io(Err(c)) => (seq![], io_failure(c@)),
            _ => (seq![], unexpected_reply()),
        },
    }
}

pub open spec fn viewset_step_is(step: Step<ViewsetRun, Result<(), ViewyardError>>, next: (Seq<NoticeView>, ViewsetNext)) -> bool {
    match next.1 {
        ViewsetNext::Continue(v) => step matches Step::Ask(ns, req, s) && notice_views(ns@) == next.0 && s@ == v && s.wf()
            && req@ == viewset_run_request(v),
        ViewsetNext::Finished(r) => step matches Step::Done(ns, x) && notice_views(ns@) == next.0
            && crate::command::unit_result_view(x) == r,
    }
}

pub open spec fn initial_viewset_run(
    creating: bool,
    name: Seq<char>,
    account: Option<Seq<char>>,
    flag: Option<Seq<char>>,
    env_protocol: Option<Seq<char>>,
    current_dir: Seq<char>,
    aliases: Map<Seq<char>, Seq<char>>,
    protocol: GitProtocol,
) -> ViewsetRunView {
    ViewsetRunView {
        creating,
        name,
        account,
        flag,
        env_protocol,
        current_dir,
        aliases,
        stage: ViewsetStage::GitCheck,
        protocol,
        stored: None,
        discovery: None,
        existing: seq![],
        available: seq![],
        selected: seq![],
        later: false,
    }
}

/// How a viewset command starts: it says what it does; a new viewset's protocol is
/// resolved from the flag and the environment before anything else.
pub open spec fn viewset_start(
    command: ViewsetCommand,
    current_dir: Seq<char>,
    env_protocol: Option<Seq<char>>,
    aliases: Map<Seq<char>, Seq<char>>,
) -> (Seq<NoticeView>, ViewsetNext) {
    match command {
        ViewsetCommand::Create { name, account, protocol } => {
            let ns = seq![info("Creating viewset: "@ + name@)];
            match chosen_protocol(opt_view(protocol), env_protocol) {
                Err(value) => (ns, ViewsetNext::Finished(Err(plain(ErrorKindView::InvalidProtocol { value })))),
                Ok(p) => (
                    ns,
                    ViewsetNext::Continue(
                        initial_viewset_run(true, name@, opt_view(account), opt_view(protocol), env_protocol, current_dir, aliases, p),
                    ),
                ),
            }
        },
        ViewsetCommand::Update { account, protocol } => (
            seq![info("Updating viewset with new repositories"@)],
            ViewsetNext::Continue(
                initial_viewset_run(
                    false,
                    seq![],
                    opt_view(account),
                    opt_view(protocol),
                    env_protocol,
                    current_dir,
                    aliases,
                    GitProtocol::Ssh,
                ),
            ),
        ),
    }
}


fn opt_ref(o: &Option<String>) -> (res: Option<&str>)
    ensures
        crate::github::opt_str(res) == opt_view(*o),
{
    match o {
        Some(s) => Some(s.as_str()),
        None => None,
    }
}

fn opt_lit(o: Option<&str>) -> (res: Option<String>)
    ensures
        opt_view(res) == crate::github::opt_str(o),
{
    match o {
        Some(s) => Some(lit(s)),
        None => None,
    }
}

/// Starts a viewset command in the directory `current_dir`, `env_protocol` being the value
/// of `VIEWYARD_GIT_PROTOCOL` and the repositories' URLs being pointed at the SSH host
/// `aliases`.
pub fn handle_viewset_command(
    action: ViewsetCommand,
    current_dir: &str,
    env_protocol: Option<&str>,
    aliases: SshHostAliases,
) -> (res: Step<ViewsetRun, Result<(), ViewyardError>>)
    ensures
        viewset_step_is(res, viewset_start(action, current_dir@, crate::github::opt_str(env_protocol), aliases@)),
{
    let ghost a = action;
    let mut ns = quiet();
    let (creating, name, account, flag, protocol) = match action {
        ViewsetCommand::Create { name, account, protocol } => {
            crate::batch::say_with(&mut ns, NoticeLevel::Info, "Creating viewset: ", name.as_str());
            let chosen = crate::git::resolve_protocol(opt_ref(&protocol), env_protocol);
            match chosen {
                Err(e) => {
                    return Step::Done(ns, Err(e));
                },
                Ok(p) => (true, name, account, protocol, p),
            }
        },
        ViewsetCommand::Update { account, protocol } => {
            tell(&mut ns, NoticeLevel::Info, "Updating viewset with new repositories");
            proof {
                reveal_strlit("");
            }
            (false, lit(""), account, protocol, GitProtocol::Ssh)
        },
    };
    let r = ViewsetRun {
        creating,
        name,
        account,
        flag,
        env_protocol: opt_lit(env_protocol),
        current_dir: lit(current_dir),
        aliases,
        stage: ViewsetStage::GitCheck,
        protocol,
        stored: None,
        discovery: None,
        existing: Vec::new(),
        available: Vec::new(),
        selected: Vec::new(),
        later: false,
    };
    assert(repo_views(r.existing@) =~= seq![]);
    assert(repo_views(r.available@) =~= seq![]);
    assert(repo_views(r.selected@) =~= seq![]);
    proof {
        match a {
            ViewsetCommand::Create { name, account, protocol } => {
                assert(notice_views(ns@) =~= seq![info("Creating viewset: "@ + name@)]);
            },
            ViewsetCommand::Update { account, protocol } => {
                assert(r.name@ =~= Seq::<char>::empty());
                assert(notice_views(ns@) =~= seq![info("Updating viewset with new repositories"@)]);
            },
        }
    }
    r.ask(ns)
}

impl ViewsetRun {
    fn root(&self) -> (res: String)
        ensures
            res@ == viewset_root(self@),
    {
        if self.creating {
            join_path(self.current_dir.as_str(), self.name.as_str())
        } else {
            self.current_dir.clone()
        }
    }

    /// The request the command is waiting on.
    pub fn request(&self) -> (res: Request)
        requires
            self.wf(),
        ensures
            res@ == viewset_run_request(self@),
    {
        let root = self.root();
        match self.stage {
            ViewsetStage::GitCheck => Request::Run(crate::git::git_version_command()),
            ViewsetStage::ProbeTarget => Request::PathExists(join_path(self.current_dir.as_str(), self.name.as_str())),
            ViewsetStage::ProbeRepos => Request::PathExists(join_path(root.as_str(), ".viewyard-repos.json")),
            ViewsetStage::ReadConfig => Request::ReadViewsetConfig(join_path(root.as_str(), ".viewyard-config.json")),
            ViewsetStage::ReadExisting => Request::ReadRepositories(join_path(root.as_str(), ".viewyard-repos.json")),
            ViewsetStage::Discovery => match &self.discovery {
                Some(d) => d.request(),
                None => Request::PathExists(root),
            },
            ViewsetStage::CreateEmpty => Request::CreateDirAll(join_path(self.current_dir.as_str(), self.name.as_str())),
            ViewsetStage::Select => Request::SelectRepositories(
                crate::status::copy_repos(&self.available),
                crate::status::copy_repos(&self.existing),
            ),
            ViewsetStage::Confirm => Request::ConfirmSelection(crate::status::copy_repos(&self.selected)),
            ViewsetStage::CreateDir => Request::CreateDirAll(join_path(self.current_dir.as_str(), self.name.as_str())),
            ViewsetStage::WriteRepos => {
                let listed = if self.creating {
                    crate::status::copy_repos(&self.selected)
                } else {
                    crate::viewset::merge_repositories(crate::status::copy_repos(&self.existing), &self.selected)
                };
                Request::WriteRepositories(join_path(root.as_str(), ".viewyard-repos.json"), listed)
            },
            ViewsetStage::WriteConfig => Request::WriteViewsetConfig(join_path(root.as_str(), ".viewyard-config.json"), self.protocol),
        }
    }

    fn ask(self, ns: Vec<Notice>) -> (res: Step<ViewsetRun, Result<(), ViewyardError>>)
        requires
            self.wf(),
        ensures
            res matches Step::Ask(ns2, req, s) && ns2@ == ns@ && s@ == self@ && s.wf() && req@ == viewset_run_request(self@),
    {
        let req = self.request();
        Step::Ask(ns, req, self)
    }

    fn start_discovery(self, ns: Vec<Notice>) -> (res: Step<ViewsetRun, Result<(), ViewyardError>>)
        ensures
            viewset_step_is(res, discovery_starts(self@, notice_views(ns@))),
    {
        let mut r = self;
        let aliases = r.aliases.duplicate();
        match discover_repositories_for_viewset(opt_ref(&r.account), r.protocol, aliases) {
            Step::Ask(_, req, d) => {
                r.discovery = Some(d);
                r.stage = ViewsetStage::Discovery;
                Step::Ask(ns, req, r)
            },
            Step::Done(_, _) => Step::Done(ns, Ok(())),
        }
    }

    fn discovered(self, found: Result<Vec<Repository>, ViewyardError>, ns: Vec<Notice>) -> (res: Step<
        ViewsetRun,
        Result<(), ViewyardError>,
    >)
        ensures
            viewset_step_is(res, discovered(self@, repos_result_view(found), notice_views(ns@))),
    {
        let mut r = self;
        let mut ns = ns;
        r.discovery = None;
        match found {
            Err(_) => {
                if r.creating {
                    r.stage = ViewsetStage::CreateEmpty;
                    r.later = false;
                    r.ask(ns)
                } else {
                    let ghost ns0 = notice_views(ns@);
                    tell(&mut ns, NoticeLevel::Info, "Falling back to manual repository management.");
                    tell(&mut ns, NoticeLevel::Info, "Edit .viewyard-repos.json manually to add repositories.");
                    assert(notice_views(ns@) =~= ns0 + manual_fallback_notices());
                    Step::Done(ns, Ok(()))
                }
            },
            Ok(all) => {
                if r.creating {
                    r.available = all;
                    r.stage = ViewsetStage::Select;
                    r.ask(ns)
                } else {
                    let available = crate::viewset::filter_existing_repositories(&all, &r.existing);
                    let (intro, any) = crate::viewset::select_repositories_intro(&available, &r.existing);
                    tell_all(&mut ns, intro);
                    if any {
                        r.available = available;
                        r.stage = ViewsetStage::Select;
                        r.ask(ns)
                    } else {
                        let ghost ns1 = notice_views(ns@);
                        tell(&mut ns, NoticeLevel::Success, "No changes made to viewset.");
                        assert(notice_views(ns@) =~= ns1 + seq![no_changes()]);
                        Step::Done(ns, Ok(()))
                    }
                }
            },
        }
    }
}


impl ViewsetRun {
    fn io_failed(c: String) -> (res: Step<ViewsetRun, Result<(), ViewyardError>>)
        ensures
            viewset_step_is(res, (seq![], io_failure(c@))),
    {
        Step::Done(quiet(), Err(ViewyardError::new(ErrorKind::Io { cause: c })))
    }

    fn unexpected() -> (res: Step<ViewsetRun, Result<(), ViewyardError>>)
        ensures
            viewset_step_is(res, (seq![], unexpected_reply())),
    {
        Step::Done(quiet(), Err(ViewyardError::new(ErrorKind::UnexpectedReply)))
    }

    /// The command's next step once its request was answered with `reply`.
    #[verifier::rlimit(40)]
    pub fn resume(self, reply: Reply) -> (res: Step<ViewsetRun, Result<(), ViewyardError>>)
        requires
            self.wf(),
        ensures
            viewset_step_is(res, viewset_run_next(self@, reply)),
    {
        let mut r = self;
        match r.stage {
            ViewsetStage::GitCheck => match reply {
                Reply::Ran(o) => match crate::git::check_git_availability(&o) {
                    Err(e) => Step::Done(quiet(), Err(e)),
                    Ok(()) => {
                        r.stage = if r.creating {
                            ViewsetStage::ProbeTarget
                        } else {
                            ViewsetStage::ProbeRepos
                        };
                        r.ask(quiet())
                    },
                },
                _ => ViewsetRun::unexpected(),
            },
            ViewsetStage::ProbeTarget => {
                if crate::status::flag_of_reply(&reply) {
                    Step::Done(crate::viewset::viewset_exists(r.name.as_str()), Err(ViewyardError::new(ErrorKind::DirectoryExists)))
                } else {
                    r.start_discovery(quiet())
                }
            },
            ViewsetStage::ProbeRepos => {
                if crate::status::flag_of_reply(&reply) {
                    r.stage = ViewsetStage::ReadConfig;
                    r.ask(quiet())
                } else {
                    Step::Done(crate::viewset::not_viewset_root(r.current_dir.as_str()), Err(ViewyardError::new(ErrorKind::NotInViewset)))
                }
            },
            ViewsetStage::ReadConfig => match reply {
                Reply::Protocol(p) => {
                    let stored = match p {
                        Some(q) => q,
                        None => GitProtocol::Ssh,
                    };
                    match crate::viewset::resolve_update_protocol(opt_ref(&r.flag), opt_ref(&r.env_protocol), stored) {
                        Err(e) => Step::Done(quiet(), Err(e)),
                        Ok(protocol) => {
                            r.protocol = protocol;
                            r.stored = p;
                            r.stage = ViewsetStage::ReadExisting;
                            r.ask(quiet())
                        },
                    }
                },
                _ => ViewsetRun::unexpected(),
            },
            ViewsetStage::ReadExisting => match reply {
                Reply::Repositories(Err(e)) => Step::Done(quiet(), Err(e)),
                Reply::Repositories(Ok(rs)) => {
                    let root = r.root();
                    let file = join_path(root.as_str(), ".viewyard-repos.json");
                    let (ns, loaded) = load_and_validate_repos(rs, file.as_str(), r.stored, &r.aliases);
                    match loaded {
                        Err(e) => Step::Done(ns, Err(e)),
                        Ok(existing) => {
                            r.existing = existing;
                            r.start_discovery(ns)
                        },
                    }
                },
                _ => ViewsetRun::unexpected(),
            },
            ViewsetStage::Discovery => match reply {
                Reply::Ran(o) => {
                    let d = r.discovery.take();
                    match d {
                        None => Step::Done(quiet(), Ok(())),
                        Some(d) => match d.resume(&o) {
                            Step::Ask(ns, req, d2) => {
                                r.discovery = Some(d2);
                                Step::Ask(ns, req, r)
                            },
                            Step::Done(ns, found) => r.discovered(found, ns),
                        },
                    }
                },
                _ => ViewsetRun::unexpected(),
            },
            ViewsetStage::CreateEmpty => match reply {
                Reply::Io(Ok(())) => {
                    let path = join_path(r.current_dir.as_str(), r.name.as_str());
                    let when = if r.later {
                        "later"
                    } else {
                        "when GitHub CLI is set up"
                    };
                    proof {
                        reveal_strlit("later");
                        reveal_strlit("when GitHub CLI is set up");
                    }
                    Step::Done(crate::viewset::empty_viewset_created(path.as_str(), r.name.as_str(), when), Ok(()))
                },
                Reply::Io(Err(c)) => ViewsetRun::io_failed(c),
                _ => ViewsetRun::unexpected(),
            },
            ViewsetStage::Select => match reply {
                Reply::Selection(Err(e)) => Step::Done(quiet(), Err(e)),
                Reply::Selection(Ok(chosen)) => {
                    let mut ns = quiet();
                    if chosen.len() > 0 {
                        r.selected = chosen;
                        r.stage = ViewsetStage::Confirm;
                        r.ask(ns)
                    } else if r.creating {
                        tell(&mut ns, NoticeLevel::Info, "No repositories selected. Creating empty viewset.");
                        assert(notice_views(ns@) =~= seq![info("No repositories selected. Creating empty viewset."@)]);
                        r.stage = ViewsetStage::CreateEmpty;
                        r.later = true;
                        r.ask(ns)
                    } else {
                        tell(&mut ns, NoticeLevel::Info, "No new repositories selected.");
                        tell(&mut ns, NoticeLevel::Success, "No changes made to viewset.");
                        assert(notice_views(ns@) =~= seq![info("No new repositories selected."@), no_changes()]);
                        Step::Done(ns, Ok(()))
                    }
                },
                _ => ViewsetRun::unexpected(),
            },
            ViewsetStage::Confirm => match reply {
                Reply::Confirmed(Err(e)) => Step::Done(quiet(), Err(e)),
                Reply::Confirmed(Ok(true)) => {
                    r.stage = if r.creating {
                        ViewsetStage::CreateDir
                    } else {
                        ViewsetStage::WriteRepos
                    };
                    r.ask(quiet())
                },
                Reply::Confirmed(Ok(false)) => {
                    let mut ns = quiet();
                    tell(&mut ns, NoticeLevel::Info, "Repository selection cancelled.");
                    if !r.creating {
                        tell(&mut ns, NoticeLevel::Success, "No changes made to viewset.");
                    }
                    assert(notice_views(ns@) =~= viewset_run_next(self@, reply).0);
                    Step::Done(ns, Ok(()))
                },
                _ => ViewsetRun::unexpected(),
            },
            ViewsetStage::CreateDir => match reply {
                Reply::Io(Ok(())) => {
                    let mut ns = quiet();
                    let path = join_path(r.current_dir.as_str(), r.name.as_str());
                    crate::batch::say_with(&mut ns, NoticeLevel::Success, "✓ Created viewset directory: ", path.as_str());
                    assert(notice_views(ns@) =~= seq![notice(NoticeLevel::Success, "✓ Created viewset directory: "@ + target_path(self@))]);
                    r.stage = ViewsetStage::WriteRepos;
                    r.ask(ns)
                },
                Reply::Io(Err(c)) => ViewsetRun::io_failed(c),
                _ => ViewsetRun::unexpected(),
            },
            ViewsetStage::WriteRepos => match reply {
                Reply::Io(Ok(())) => {
                    if r.creating {
                        r.stage = ViewsetStage::WriteConfig;
                        r.ask(quiet())
                    } else {
                        Step::Done(crate::viewset::viewset_updated(&r.selected), Ok(()))
                    }
                },
                Reply::Io(Err(c)) => ViewsetRun::io_failed(c),
                _ => ViewsetRun::unexpected(),
            },
            ViewsetStage::WriteConfig => match reply {
                Reply::Io(Ok(())) => Step::Done(crate::viewset::viewset_created(r.name.as_str(), r.selected.len()), Ok(())),
                Reply::Io(Err(c)) => ViewsetRun::io_failed(c),
                _ => ViewsetRun::unexpected(),
            },
        }
    }
}

} // verus!
