//! Viewsets: finding the repositories a viewset can hold, and loading those it holds.
use vstd::prelude::*;
pub use crate::session::info;
pub use crate::session::hint;
pub use crate::session::unexpected;

use crate::command::ProcessOutcome;
use crate::error::lit;
use crate::error::plain;
use crate::error::ErrorKind;
use crate::error::ErrorKindView;
use crate::error::ViewyardError;
use crate::error::ViewyardErrorView;
use crate::git::chosen_protocol;
use crate::git::SshHostAliases;
use crate::github::all_discovery_command;
use crate::github::all_discovery_next;
use crate::github::all_discovery_wf;
use crate::github::availability_command;
use crate::github::availability_next;
use crate::github::discovery_command;
use crate::github::discovery_next;
use crate::github::discovery_wf;
use crate::github::initial_all_discovery;
use crate::github::initial_discovery;
use crate::github::switching_text;
use crate::github::AccountDiscovery;
use crate::github::AccountDiscoveryView;
use crate::github::AllDiscovery;
use crate::github::AllDiscoveryNext;
use crate::github::AllDiscoveryView;
use crate::github::AvailabilityCheck;
use crate::github::DiscoveryNext;
use crate::github::GitHubService;
use crate::models::repo_views;
use crate::models::GitProtocol;
use crate::models::Repository;
use crate::models::RepositoryView;
use crate::session::joined_path;
use crate::session::join_path;
use crate::session::notice;
use crate::session::notice_views;
use crate::session::quiet;
use crate::session::tell;
use crate::session::tell_all;
use crate::session::tell_chars;
use crate::session::Notice;
use crate::session::NoticeLevel;
use crate::session::NoticeView;
use crate::session::Reply;
use crate::session::Request;
use crate::session::RequestView;
use crate::session::Step;
use crate::text::chars_of;
use crate::text::push_str;
use crate::view::loaded_repos;
use crate::view::load_and_validate_repos;
use crate::view::REPOS_FILE;

verus! {

/// The file of a viewset that stores its settings.
pub open spec fn CONFIG_FILE() -> Seq<char> {
    ".viewyard-config.json"@
}

// ---------------------------------------------------------------------------
// Choosing repositories
// ---------------------------------------------------------------------------

/// The names of the repositories.
pub open spec fn repo_names(rs: Seq<RepositoryView>) -> Seq<Seq<char>> {
    rs.map_values(|r: RepositoryView| r.name)
}

/// The repositories of `all` whose name is not among `existing`'s, in order.
pub open spec fn not_existing(all: Seq<RepositoryView>, existing: Seq<RepositoryView>) -> Seq<RepositoryView>
    decreases all.len(),
{
    if all.len() == 0 {
        seq![]
    } else {
        let rest = not_existing(all.drop_last(), existing);
        if repo_names(existing).contains(all.last().name) {
            rest
        } else {
            rest.push(all.last())
        }
    }
}

fn has_name(rs: &Vec<Repository>, name: &String) -> (res: bool)
    ensures
        res == repo_names(repo_views(rs@)).contains(name@),
{
    let n = chars_of(name.as_str());
    let mut i: usize = 0;
    while i < rs.len()
        invariant
            i <= rs.len(),
            n@ == name@,
            forall|j: int| 0 <= j < i ==> repo_names(repo_views(rs@))[j] != name@,
        decreases rs.len() - i,
    {
        if crate::text::chars_eq(&chars_of(rs[i].name.as_str()), &n) {
            assert(repo_names(repo_views(rs@))[i as int] == name@);
            return true;
        }
        i = i + 1;
    }
    false
}

/// The repositories of `all_repos` not already in the viewset, by name.
pub fn filter_existing_repositories(all_repos: &Vec<Repository>, existing_repos: &Vec<Repository>) -> (res: Vec<Repository>)
    ensures
        repo_views(res@) == not_existing(repo_views(all_repos@), repo_views(existing_repos@)),
{
    let mut out: Vec<Repository> = Vec::new();
    let mut i: usize = 0;
    assert(repo_views(out@) =~= seq![]);
    while i < all_repos.len()
        invariant
            i <= all_repos.len(),
            repo_views(out@) == not_existing(repo_views(all_repos@).take(i as int), repo_views(existing_repos@)),
        decreases all_repos.len() - i,
    {
        let ghost a = repo_views(all_repos@);
        assert(a.take(i + 1).drop_last() =~= a.take(i as int));
        assert(a.take(i + 1).last() == a[i as int]);
        if !has_name(existing_repos, &all_repos[i].name) {
            let r = all_repos[i].clone();
            let ghost before = repo_views(out@);
            out.push(r);
            assert(repo_views(out@) =~= before.push(r@));
        }
        i = i + 1;
    }
    assert(repo_views(all_repos@).take(i as int) =~= repo_views(all_repos@));
    out
}

/// The repositories whose directory is not present, in order.
pub open spec fn missing(rs: Seq<RepositoryView>, present: Seq<bool>) -> Seq<RepositoryView>
    decreases rs.len(),
{
    if rs.len() == 0 {
        seq![]
    } else {
        let rest = missing(rs.drop_last(), present.take(rs.len() - 1));
        if present[rs.len() - 1] {
            rest
        } else {
            rest.push(rs.last())
        }
    }
}

/// The repositories of a viewset missing from a view, `present` saying for each whether
/// its directory exists in the view.
pub fn find_missing_repositories(all_repos: &Vec<Repository>, present: &Vec<bool>) -> (res: Vec<Repository>)
    requires
        present.len() == all_repos.len(),
    ensures
        repo_views(res@) == missing(repo_views(all_repos@), present@),
{
    let mut out: Vec<Repository> = Vec::new();
    let mut i: usize = 0;
    assert(repo_views(out@) =~= seq![]);
    while i < all_repos.len()
        invariant
            i <= all_repos.len(),
            present.len() == all_repos.len(),
            repo_views(out@) == missing(repo_views(all_repos@).take(i as int), present@.take(i as int)),
        decreases all_repos.len() - i,
    {
        let ghost a = repo_views(all_repos@);
        assert(a.take(i + 1).drop_last() =~= a.take(i as int));
        assert(a.take(i + 1).last() == a[i as int]);
        assert(present@.take(i + 1).take(i as int) =~= present@.take(i as int));
        assert(present@.take(i + 1)[i as int] == present@[i as int]);
        if !present[i] {
            let r = all_repos[i].clone();
            let ghost before = repo_views(out@);
            out.push(r);
            assert(repo_views(out@) =~= before.push(r@));
        }
        i = i + 1;
    }
    assert(repo_views(all_repos@).take(i as int) =~= repo_views(all_repos@));
    assert(present@.take(i as int) =~= present@);
    out
}

// ---------------------------------------------------------------------------
// Discovering repositories for a viewset
// ---------------------------------------------------------------------------

/// Why discovery cannot start, and what to do.
pub open spec fn gh_unavailable_notices() -> Seq<NoticeView> {
    seq![
        notice(NoticeLevel::Error, "GitHub CLI is not available or not authenticated"@),
        hint("Install GitHub CLI: https://cli.github.com/"@),
        hint("Then authenticate: gh auth login"@),
        hint("Or manually edit .viewyard-repos.json to add repositories"@),
    ]
}

#[derive(Debug, Clone, Copy, PartialEq, Eq, Structural)]
pub enum ViewsetDiscoveryStage {
    /// Checking the GitHub CLI.
    Availability,
    /// Discovering the repositories of the one account asked for.
    One,
    /// Discovering those of every account.
    All,
}

/// Finding the repositories a viewset can hold: the GitHub CLI must be available; then
/// those of the account asked for, or of every account, are discovered.
#[derive(Debug)]
pub struct ViewsetDiscovery {
    pub account: Option<String>,
    pub protocol: GitProtocol,
    pub aliases: SshHostAliases,
    pub stage: ViewsetDiscoveryStage,
    pub check: AvailabilityCheck,
    pub one: Option<AccountDiscovery>,
    pub all: Option<AllDiscovery>,
}

pub struct ViewsetDiscoveryView {
    pub account: Option<Seq<char>>,
    pub protocol: GitProtocol,
    pub aliases: Map<Seq<char>, Seq<char>>,
    pub stage: ViewsetDiscoveryStage,
    pub check: AvailabilityCheck,
    pub one: Option<AccountDiscoveryView>,
    pub all: Option<AllDiscoveryView>,
}

impl View for ViewsetDiscovery {
    type V = ViewsetDiscoveryView;

    open spec fn view(&self) -> ViewsetDiscoveryView {
        ViewsetDiscoveryView {
            account: crate::models::opt_view(self.account),
            protocol: self.protocol,
            aliases: self.aliases@,
            stage: self.stage,
            check: self.check,
            one: match self.one {
                Some(d) => Some(d@),
                None => None,
            },
            all: match self.all {
                Some(d) => Some(d@),
                None => None,
            },
        }
    }
}

pub open spec fn viewset_discovery_wf(v: ViewsetDiscoveryView) -> bool {
    match v.stage {
        ViewsetDiscoveryStage::Availability => true,
        ViewsetDiscoveryStage::One => v.one is Some && discovery_wf(v.one->0),
        ViewsetDiscoveryStage::All => v.all is Some && all_discovery_wf(v.all->0),
    }
}

impl ViewsetDiscovery {
    pub open spec fn wf(&self) -> bool {
        viewset_discovery_wf(self@)
    }
}

pub open spec fn viewset_discovery_request(v: ViewsetDiscoveryView) -> RequestView {
    RequestView::Run(
        match v.stage {
            ViewsetDiscoveryStage::Availability => availability_command(v.check),
            ViewsetDiscoveryStage::One => discovery_command(v.one->0),
            ViewsetDiscoveryStage::All => all_discovery_command(v.all->0),
        },
    )
}

pub enum FoundNext {
    Continue(ViewsetDiscoveryView),
    Finished(Result<Seq<RepositoryView>, ViewyardErrorView>),
}

/// What a finished discovery gives: none found is an error.
pub open spec fn discovery_found(r: Result<Seq<RepositoryView>, ViewyardErrorView>, ns: Seq<NoticeView>) -> (Seq<NoticeView>, FoundNext) {
    match r {
        Err(e) => (ns, FoundNext::Finished(Err(e))),
        Ok(rs) => if rs.len() == 0 {
            (
                ns.push(notice(NoticeLevel::Warning, "No repositories found"@)),
                FoundNext::Finished(Err(plain(ErrorKindView::NoRepositoriesFound))),
            )
        } else {
            (ns, FoundNext::Finished(Ok(rs)))
        },
    }
}

/// Once the GitHub CLI is known available: the discovery starts.
pub open spec fn discovery_begins(v: ViewsetDiscoveryView) -> (Seq<NoticeView>, FoundNext) {
    let ns = seq![info("Discovering repositories from GitHub..."@)];
    match v.account {
        Some(a) => (
            ns.push(info(switching_text(a))),
            FoundNext::Continue(
                ViewsetDiscoveryView {
                    stage: ViewsetDiscoveryStage::One,
                    one: Some(initial_discovery(a, v.protocol, v.aliases)),
                    ..v
                },
            ),
        ),
        None => (
            ns,
            FoundNext::Continue(
                ViewsetDiscoveryView {
                    stage: ViewsetDiscoveryStage::All,
                    all: Some(initial_all_discovery(v.protocol, v.aliases)),
                    ..v
                },
            ),
        ),
    }
}

/// The next move once the current command gave `o`.
pub open spec fn viewset_discovery_next(v: ViewsetDiscoveryView, o: ProcessOutcome) -> (Seq<NoticeView>, FoundNext) {
    match v.stage {
        ViewsetDiscoveryStage::Availability => match availability_next(v.check, o) {
            None => (
                seq![],
                FoundNext::Continue(ViewsetDiscoveryView { check: AvailabilityCheck::Authentication, ..v }),
            ),
            Some(Err(e)) => (seq![], FoundNext::Finished(Err(e))),
            Some(Ok(false)) => (gh_unavailable_notices(), FoundNext::Finished(Err(plain(ErrorKindView::GhUnavailable)))),
            Some(Ok(true)) => discovery_begins(v),
        },
        ViewsetDiscoveryStage::One => {
            let (ns, nx) = discovery_next(v.one->0, o);
            match nx {
                DiscoveryNext::Continue(d) => (ns, FoundNext::Continue(ViewsetDiscoveryView { one: Some(d), ..v })),
                DiscoveryNext::Finished(r) => discovery_found(r, ns),
            }
        },
        ViewsetDiscoveryStage::All => {
            let (ns, nx) = all_discovery_next(v.all->0, o);
            match nx {
                AllDiscoveryNext::Continue(d) => (ns, FoundNext::Continue(ViewsetDiscoveryView { all: Some(d), ..v })),
                AllDiscoveryNext::Finished(r) => discovery_found(r, ns),
            }
        },
    }
}

pub open spec fn found_step_is(step: Step<ViewsetDiscovery, Result<Vec<Repository>, ViewyardError>>, next: (Seq<NoticeView>, FoundNext)) -> bool {
    match next.1 {
        FoundNext::Continue(v) => step matches Step::Ask(ns, req, s) && notice_views(ns@) == next.0 && s@ == v && s.wf()
            && req@ == viewset_discovery_request(v),
        FoundNext::Finished(r) => step matches Step::Done(ns, x) && notice_views(ns@) == next.0
            && crate::github::repos_result_view(x) == r,
    }
}

pub open spec fn initial_viewset_discovery(account: Option<Seq<char>>, protocol: GitProtocol, aliases: Map<Seq<char>, Seq<char>>) -> ViewsetDiscoveryView {
    ViewsetDiscoveryView {
        account,
        protocol,
        aliases,
        stage: ViewsetDiscoveryStage::Availability,
        check: AvailabilityCheck::Version,
        one: None,
        all: None,
    }
}

fn unavailable() -> (res: Vec<Notice>)
    ensures
        notice_views(res@) == gh_unavailable_notices(),
{
    let mut ns = quiet();
    tell(&mut ns, NoticeLevel::Error, "GitHub CLI is not available or not authenticated");
    tell(&mut ns, NoticeLevel::Hint, "Install GitHub CLI: https://cli.github.com/");
    tell(&mut ns, NoticeLevel::Hint, "Then authenticate: gh auth login");
    tell(&mut ns, NoticeLevel::Hint, "Or manually edit .viewyard-repos.json to add repositories");
    assert(notice_views(ns@) =~= gh_unavailable_notices());
    ns
}

/// Starts finding the repositories for a viewset, from `account` or, when none is given,
/// from every logged-in account.
pub fn discover_repositories_for_viewset(account: Option<&str>, protocol: GitProtocol, aliases: SshHostAliases) -> (res: Step<
    ViewsetDiscovery,
    Result<Vec<Repository>, ViewyardError>,
>)
    ensures
        res matches Step::Ask(ns, req, s) && notice_views(ns@) == Seq::<NoticeView>::empty()
            && s@ == initial_viewset_discovery(crate::github::opt_str(account), protocol, aliases@) && s.wf()
            && req@ == viewset_discovery_request(s@),
{
    let (inv, check) = GitHubService::check_availability();
    let d = ViewsetDiscovery {
        account: match account {
            Some(a) => Some(lit(a)),
            None => None,
        },
        protocol,
        aliases,
        stage: ViewsetDiscoveryStage::Availability,
        check,
        one: None,
        all: None,
    };
    Step::Ask(quiet(), Request::Run(inv), d)
}

impl ViewsetDiscovery {
    /// The request the discovery is waiting on.
    pub fn request(&self) -> (res: Request)
        requires
            self.wf(),
        ensures
            res@ == viewset_discovery_request(self@),
    {
        match self.stage {
            ViewsetDiscoveryStage::Availability => match self.check {
                AvailabilityCheck::Version => Request::Run(GitHubService::version_command()),
                AvailabilityCheck::Authentication => Request::Run(GitHubService::auth_status_command()),
            },
            ViewsetDiscoveryStage::One => match &self.one {
                Some(d) => Request::Run(d.command()),
                None => Request::Run(GitHubService::version_command()),
            },
            ViewsetDiscoveryStage::All => match &self.all {
                Some(d) => Request::Run(d.command()),
                None => Request::Run(GitHubService::version_command()),
            },
        }
    }

    fn found(r: Result<Vec<Repository>, ViewyardError>, ns: Vec<Notice>) -> (res: Step<ViewsetDiscovery, Result<Vec<Repository>, ViewyardError>>)
        ensures
            found_step_is(res, discovery_found(crate::github::repos_result_view(r), notice_views(ns@))),
    {
        let mut ns = ns;
        match r {
            Err(e) => Step::Done(ns, Err(e)),
            Ok(rs) => {
                if rs.len() == 0 {
                    tell(&mut ns, NoticeLevel::Warning, "No repositories found");
                    Step::Done(ns, Err(ViewyardError::new(ErrorKind::NoRepositoriesFound)))
                } else {
                    Step::Done(ns, Ok(rs))
                }
            },
        }
    }

    /// The discovery's next step once its command gave `outcome`.
    pub fn resume(self, outcome: &ProcessOutcome) -> (res: Step<ViewsetDiscovery, Result<Vec<Repository>, ViewyardError>>)
        requires
            self.wf(),
        ensures
            found_step_is(res, viewset_discovery_next(self@, *outcome)),
    {
        let mut d = self;
        match d.stage {
            ViewsetDiscoveryStage::Availability => match d.check.resume(outcome) {
                Step::Ask(_, req, check) => {
                    d.check = check;
                    Step::Ask(quiet(), req, d)
                },
                Step::Done(_, Err(e)) => Step::Done(quiet(), Err(e)),
                Step::Done(_, Ok(false)) => Step::Done(unavailable(), Err(ViewyardError::new(ErrorKind::GhUnavailable))),
                Step::Done(_, Ok(true)) => {
                    let mut ns = quiet();
                    tell(&mut ns, NoticeLevel::Info, "Discovering repositories from GitHub...");
                    let aliases = d.aliases.duplicate();
                    match &d.account {
                        Some(a) => {
                            match GitHubService::discover_repositories_from_account(a.as_str(), d.protocol, aliases) {
                                Step::Ask(first, req, one) => {
                                    tell_all(&mut ns, first);
                                    assert(notice_views(ns@) =~= seq![
                                        info("Discovering repositories from GitHub..."@),
                                        info(switching_text(a@)),
                                    ]);
                                    d.one = Some(one);
                                    d.stage = ViewsetDiscoveryStage::One;
                                    assert(notice_views(ns@) == viewset_discovery_next(self@, *outcome).0);
                                    Step::Ask(ns, req, d)
                                },
                                Step::Done(first, r) => Step::Done(first, r),
                            }
                        },
                        None => {
                            match GitHubService::discover_all_repositories(d.protocol, aliases) {
                                Step::Ask(first, req, all) => {
                                    tell_all(&mut ns, first);
                                    assert(notice_views(ns@) =~= seq![info("Discovering repositories from GitHub..."@)]);
                                    d.all = Some(all);
                                    d.stage = ViewsetDiscoveryStage::All;
                                    assert(notice_views(ns@) == viewset_discovery_next(self@, *outcome).0);
                                    Step::Ask(ns, req, d)
                                },
                                Step::Done(first, r) => Step::Done(first, r),
                            }
                        },
                    }
                },
            },
            ViewsetDiscoveryStage::One => {
                let one = d.one.take();
                match one {
                    None => Step::Done(quiet(), Ok(Vec::new())),
                    Some(one) => match one.resume(outcome) {
                        Step::Ask(ns, req, one2) => {
                            d.one = Some(one2);
                            Step::Ask(ns, req, d)
                        },
                        Step::Done(ns, r) => ViewsetDiscovery::found(r, ns),
                    },
                }
            },
            ViewsetDiscoveryStage::All => {
                let all = d.all.take();
                match all {
                    None => Step::Done(quiet(), Ok(Vec::new())),
                    Some(all) => match all.resume(outcome) {
                        Step::Ask(ns, req, all2) => {
                            d.all = Some(all2);
                            Step::Ask(ns, req, d)
                        },
                        Step::Done(ns, r) => ViewsetDiscovery::found(r, ns),
                    },
                }
            },
        }
    }
}


// ---------------------------------------------------------------------------
// Loading the repositories a viewset holds
// ---------------------------------------------------------------------------

#[derive(Debug, Clone, Copy, PartialEq, Eq, Structural)]
pub enum ViewsetLoadStage {
    /// Asking whether the viewset lists repositories.
    Probe,
    /// Reading them.
    Read,
    /// Reading the viewset's protocol.
    Config,
}

/// Loading the repositories of the viewset at `root` (`load_viewset_repositories`):
/// there must be some; their URLs are put in the viewset's protocol.
#[derive(Debug)]
pub struct ViewsetLoad {
    pub root: String,
    pub aliases: SshHostAliases,
    pub stage: ViewsetLoadStage,
    pub repos: Vec<Repository>,
}

pub struct ViewsetLoadView {
    pub root: Seq<char>,
    pub aliases: Map<Seq<char>, Seq<char>>,
    pub stage: ViewsetLoadStage,
    pub repos: Seq<RepositoryView>,
}

impl View for ViewsetLoad {
    type V = ViewsetLoadView;

    open spec fn view(&self) -> ViewsetLoadView {
        ViewsetLoadView { root: self.root@, aliases: self.aliases@, stage: self.stage, repos: repo_views(self.repos@) }
    }
}

pub open spec fn viewset_load_request(v: ViewsetLoadView) -> RequestView {
    match v.stage {
        ViewsetLoadStage::Probe => RequestView::PathExists(joined_path(v.root, REPOS_FILE())),
        ViewsetLoadStage::Read => RequestView::ReadRepositories(joined_path(v.root, REPOS_FILE())),
        ViewsetLoadStage::Config => RequestView::ReadViewsetConfig(joined_path(v.root, CONFIG_FILE())),
    }
}

/// What is said when the viewset lists no repositories; `listed` when the list exists but
/// is empty.
pub open spec fn no_repositories_notices(listed: bool) -> Seq<NoticeView> {
    let ns = seq![
        notice(NoticeLevel::Error, "No repositories found in this viewset"@),
        hint("Manually edit .viewyard-repos.json to add repositories to this viewset"@),
    ];
    if listed {
        ns
    } else {
        ns.push(hint("Or create a new viewset with 'viewyard viewset create <name>'"@))
    }
}

pub enum ViewsetLoadNext {
    Continue(ViewsetLoadView),
    Finished(Result<Seq<RepositoryView>, ViewyardErrorView>),
}

/// The next move of loading once `reply` came.
pub open spec fn viewset_load_next(v: ViewsetLoadView, reply: Reply) -> (Seq<NoticeView>, ViewsetLoadNext) {
    match v.stage {
        ViewsetLoadStage::Probe => match reply {
            Reply::Flag(true) => (seq![], ViewsetLoadNext::Continue(ViewsetLoadView { stage: ViewsetLoadStage::Read, ..v })),
            Reply::Flag(false) => (
                no_repositories_notices(false),
                ViewsetLoadNext::Finished(Err(plain(ErrorKindView::NoRepositoriesInViewset))),
            ),
            _ => (seq![], ViewsetLoadNext::Finished(Err(unexpected()))),
        },
        ViewsetLoadStage::Read => match reply {
            Reply::Repositories(r) => match crate::github::repos_result_view(r) {
                Err(e) => (seq![], ViewsetLoadNext::Finished(Err(e))),
                Ok(rs) => (seq![], ViewsetLoadNext::Continue(ViewsetLoadView { stage: ViewsetLoadStage::Config, repos: rs, ..v })),
            },
            _ => (seq![], ViewsetLoadNext::Finished(Err(unexpected()))),
        },
        ViewsetLoadStage::Config => match reply {
            Reply::Protocol(p) => {
                let (ns, r) = loaded_repos(v.repos, joined_path(v.root, REPOS_FILE()), p, v.aliases);
                match r {
                    Err(e) => (ns, ViewsetLoadNext::Finished(Err(e))),
                    Ok(out) => if out.len() == 0 {
                        (
                            ns + no_repositories_notices(true),
                            ViewsetLoadNext::Finished(Err(plain(ErrorKindView::NoRepositoriesInViewset))),
                        )
                    } else {
                        (ns, ViewsetLoadNext::Finished(Ok(out)))
                    },
                }
            },
            _ => (seq![], ViewsetLoadNext::Finished(Err(unexpected()))),
        },
    }
}

pub open spec fn viewset_load_step_is(step: Step<ViewsetLoad, Result<Vec<Repository>, ViewyardError>>, next: (Seq<NoticeView>, ViewsetLoadNext)) -> bool {
    match next.1 {
        ViewsetLoadNext::Continue(v) => step matches Step::Ask(ns, req, s) && notice_views(ns@) == next.0 && s@ == v
            && req@ == viewset_load_request(v),
        ViewsetLoadNext::Finished(r) => step matches Step::Done(ns, x) && notice_views(ns@) == next.0
            && crate::github::repos_result_view(x) == r,
    }
}

pub open spec fn initial_viewset_load(root: Seq<char>, aliases: Map<Seq<char>, Seq<char>>) -> ViewsetLoadView {
    ViewsetLoadView { root, aliases, stage: ViewsetLoadStage::Probe, repos: seq![] }
}

fn no_repositories(ns: &mut Vec<Notice>, listed: bool)
    ensures
        notice_views(final(ns)@) == notice_views(old(ns)@) + no_repositories_notices(listed),
{
    let ghost before = notice_views(ns@);
    tell(ns, NoticeLevel::Error, "No repositories found in this viewset");
    tell(ns, NoticeLevel::Hint, "Manually edit .viewyard-repos.json to add repositories to this viewset");
    if !listed {
        tell(ns, NoticeLevel::Hint, "Or create a new viewset with 'viewyard viewset create <name>'");
    }
    assert(notice_views(ns@) =~= before + no_repositories_notices(listed));
}

impl ViewsetLoad {
    /// Starts loading the repositories of the viewset at `root`.
    pub fn start(root: String, aliases: SshHostAliases) -> (res: ViewsetLoad)
        ensures
            res@ == initial_viewset_load(root@, aliases@),
    {
        let l = ViewsetLoad { root, aliases, stage: ViewsetLoadStage::Probe, repos: Vec::new() };
        assert(repo_views(l.repos@) =~= seq![]);
        l
    }

    /// The request loading is waiting on.
    pub fn request(&self) -> (res: Request)
        ensures
            res@ == viewset_load_request(self@),
    {
        match self.stage {
            ViewsetLoadStage::Probe => Request::PathExists(join_path(self.root.as_str(), ".viewyard-repos.json")),
            ViewsetLoadStage::Read => Request::ReadRepositories(join_path(self.root.as_str(), ".viewyard-repos.json")),
            ViewsetLoadStage::Config => Request::ReadViewsetConfig(join_path(self.root.as_str(), ".viewyard-config.json")),
        }
    }

    /// Loading's next step once its request was answered with `reply`.
    pub fn resume(self, reply: Reply) -> (res: Step<ViewsetLoad, Result<Vec<Repository>, ViewyardError>>)
        ensures
            viewset_load_step_is(res, viewset_load_next(self@, reply)),
    {
        let mut l = self;
        match l.stage {
            ViewsetLoadStage::Probe => match reply {
                Reply::Flag(true) => {
                    l.stage = ViewsetLoadStage::Read;
                    let req = l.request();
                    Step::Ask(quiet(), req, l)
                },
                Reply::Flag(false) => {
                    let mut ns = quiet();
                    no_repositories(&mut ns, false);
                    Step::Done(ns, Err(ViewyardError::new(ErrorKind::NoRepositoriesInViewset)))
                },
                _ => Step::Done(quiet(), Err(ViewyardError::new(ErrorKind::UnexpectedReply))),
            },
            ViewsetLoadStage::Read => match reply {
                Reply::Repositories(Err(e)) => Step::Done(quiet(), Err(e)),
                Reply::Repositories(Ok(rs)) => {
                    l.repos = rs;
                    l.stage = ViewsetLoadStage::Config;
                    let req = l.request();
                    Step::Ask(quiet(), req, l)
                },
                _ => Step::Done(quiet(), Err(ViewyardError::new(ErrorKind::UnexpectedReply))),
            },
            ViewsetLoadStage::Config => match reply {
                Reply::Protocol(p) => {
                    let file = join_path(l.root.as_str(), ".viewyard-repos.json");
                    let (mut ns, r) = load_and_validate_repos(l.repos, file.as_str(), p, &l.aliases);
                    match r {
                        Err(e) => Step::Done(ns, Err(e)),
                        Ok(out) => {
                            if out.len() == 0 {
                                no_repositories(&mut ns, true);
                                Step::Done(ns, Err(ViewyardError::new(ErrorKind::NoRepositoriesInViewset)))
                            } else {
                                Step::Done(ns, Ok(out))
                            }
                        },
                    }
                },
                _ => Step::Done(quiet(), Err(ViewyardError::new(ErrorKind::UnexpectedReply))),
            },
        }
    }
}


// ---------------------------------------------------------------------------
// Creating and updating a viewset
// ---------------------------------------------------------------------------

/// The protocol `viewset update` uses: a flag or the environment decides as for a new
/// viewset; else the protocol the viewset stores.
pub open spec fn update_protocol(flag: Option<Seq<char>>, env_var: Option<Seq<char>>, stored: GitProtocol) -> Result<GitProtocol, Seq<char>> {
    if flag is Some || env_var is Some {
        chosen_protocol(flag, env_var)
    } else {
        Ok(stored)
    }
}

/// The protocol for `viewset update`, from the `--protocol` flag, the
/// `VIEWYARD_GIT_PROTOCOL` variable and the protocol the viewset stores.
pub fn resolve_update_protocol(flag: Option<&str>, env_var: Option<&str>, stored: GitProtocol) -> (res: Result<GitProtocol, ViewyardError>)
    ensures
        match update_protocol(crate::github::opt_str(flag), crate::github::opt_str(env_var), stored) {
            Ok(p) => res == Ok::<GitProtocol, ViewyardError>(p),
            Err(v) => res matches Err(e) && e@ == plain(ErrorKindView::InvalidProtocol { value: v }),
        },
{
    if flag.is_some() || env_var.is_some() {
        crate::git::resolve_protocol(flag, env_var)
    } else {
        Ok(stored)
    }
}

/// What is said when the viewset to create already exists.
pub open spec fn viewset_exists_notices(name: Seq<char>) -> Seq<NoticeView> {
    seq![
        notice(NoticeLevel::Error, "Directory '"@ + name + "' already exists"@),
        hint("Choose a different name or remove the existing directory"@),
    ]
}

pub fn viewset_exists(name: &str) -> (res: Vec<Notice>)
    ensures
        notice_views(res@) == viewset_exists_notices(name@),
{
    let mut ns = quiet();
    let mut t = chars_of("Directory '");
    push_str(&mut t, name);
    push_str(&mut t, "' already exists");
    tell_chars(&mut ns, NoticeLevel::Error, t);
    tell(&mut ns, NoticeLevel::Hint, "Choose a different name or remove the existing directory");
    assert(notice_views(ns@) =~= viewset_exists_notices(name@));
    ns
}

/// What is said once an empty viewset was created at `path`, repositories to be added
/// `when`.
pub open spec fn empty_viewset_notices(path: Seq<char>, name: Seq<char>, when: Seq<char>) -> Seq<NoticeView> {
    seq![
        notice(NoticeLevel::Success, "✓ Created empty viewset directory: "@ + path),
        info("Navigate to: cd "@ + name),
        info("Manually edit .viewyard-repos.json to add repositories "@ + when),
        info("Then run 'viewyard view create <view-name>' to create your first view"@),
    ]
}

pub fn empty_viewset_created(path: &str, name: &str, when: &str) -> (res: Vec<Notice>)
    ensures
        notice_views(res@) == empty_viewset_notices(path@, name@, when@),
{
    let mut ns = quiet();
    crate::batch::say_with(&mut ns, NoticeLevel::Success, "✓ Created empty viewset directory: ", path);
    crate::batch::say_with(&mut ns, NoticeLevel::Info, "Navigate to: cd ", name);
    crate::batch::say_with(&mut ns, NoticeLevel::Info, "Manually edit .viewyard-repos.json to add repositories ", when);
    tell(&mut ns, NoticeLevel::Info, "Then run 'viewyard view create <view-name>' to create your first view");
    assert(notice_views(ns@) =~= empty_viewset_notices(path@, name@, when@));
    ns
}

/// What is said once a viewset holding `count` repositories was created.
pub open spec fn viewset_created_notices(name: Seq<char>, count: nat) -> Seq<NoticeView> {
    seq![
        notice(NoticeLevel::Success, "Viewset '"@ + name + "' created successfully with "@ + crate::text::decimal(count) + " repositories!"@),
        info("Navigate to: cd "@ + name),
        info("Run 'viewyard view create <view-name>' to create your first view"@),
    ]
}

pub fn viewset_created(name: &str, count: usize) -> (res: Vec<Notice>)
    ensures
        notice_views(res@) == viewset_created_notices(name@, count as nat),
{
    let mut ns = quiet();
    let mut t = chars_of("Viewset '");
    push_str(&mut t, name);
    push_str(&mut t, "' created successfully with ");
    crate::text::push_all(&mut t, &crate::text::decimal_chars(count as u64));
    push_str(&mut t, " repositories!");
    tell_chars(&mut ns, NoticeLevel::Success, t);
    crate::batch::say_with(&mut ns, NoticeLevel::Info, "Navigate to: cd ", name);
    tell(&mut ns, NoticeLevel::Info, "Run 'viewyard view create <view-name>' to create your first view");
    assert(notice_views(ns@) =~= viewset_created_notices(name@, count as nat));
    ns
}

/// Why `viewset update` cannot run outside a viewset's root, and what to do.
pub open spec fn not_viewset_root_notices(current_dir: Seq<char>) -> Seq<NoticeView> {
    seq![
        notice(NoticeLevel::Error, "Not in a viewset directory"@),
        hint("Current directory: "@ + current_dir),
        hint("Expected: directory containing .viewyard-repos.json"@),
        hint("Navigate to a viewset directory first"@),
        hint("Or create a new viewset: viewyard viewset create <name>"@),
    ]
}

pub fn not_viewset_root(current_dir: &str) -> (res: Vec<Notice>)
    ensures
        notice_views(res@) == not_viewset_root_notices(current_dir@),
{
    let mut ns = quiet();
    tell(&mut ns, NoticeLevel::Error, "Not in a viewset directory");
    let mut t = chars_of("Current directory: ");
    push_str(&mut t, current_dir);
    tell_chars(&mut ns, NoticeLevel::Hint, t);
    tell(&mut ns, NoticeLevel::Hint, "Expected: directory containing .viewyard-repos.json");
    tell(&mut ns, NoticeLevel::Hint, "Navigate to a viewset directory first");
    tell(&mut ns, NoticeLevel::Hint, "Or create a new viewset: viewyard viewset create <name>");
    assert(notice_views(ns@) =~= not_viewset_root_notices(current_dir@));
    ns
}

pub open spec fn bullet_lines(names: Seq<Seq<char>>, level: NoticeLevel) -> Seq<NoticeView> {
    names.map_values(|n: Seq<char>| notice(level, "  • "@ + n))
}

/// What is said before choosing the repositories to add to a viewset, and whether there
/// is any to choose.
pub open spec fn update_selection_intro(available: Seq<RepositoryView>, existing: Seq<RepositoryView>) -> (Seq<NoticeView>, bool) {
    if available.len() == 0 {
        (seq![info("All available repositories are already in the viewset."@)], false)
    } else {
        let head = seq![
            info(
                "Current viewset has "@ + crate::text::decimal(existing.len()) + " repositories. Found "@
                    + crate::text::decimal(available.len()) + " new repositories available to add."@,
            ),
        ];
        if existing.len() == 0 {
            (head, true)
        } else {
            (
                head + seq![notice(NoticeLevel::Plain, "Existing repositories in viewset:"@)]
                    + bullet_lines(repo_names(existing), NoticeLevel::Plain) + seq![notice(NoticeLevel::Plain, ""@)],
                true,
            )
        }
    }
}

fn bullets(ns: &mut Vec<Notice>, rs: &Vec<Repository>, level: NoticeLevel)
    ensures
        notice_views(final(ns)@) == notice_views(old(ns)@) + bullet_lines(repo_names(repo_views(rs@)), level),
{
    let ghost base = notice_views(ns@);
    let mut i: usize = 0;
    while i < rs.len()
        invariant
            i <= rs.len(),
            notice_views(ns@) == base + bullet_lines(repo_names(repo_views(rs@)).take(i as int), level),
        decreases rs.len() - i,
    {
        crate::batch::say_with(ns, level, "  • ", rs[i].name.as_str());
        assert(repo_names(repo_views(rs@)).take(i + 1) =~= repo_names(repo_views(rs@)).take(i as int).push(rs@[i as int].name@));
        assert(notice_views(ns@) =~= base + bullet_lines(repo_names(repo_views(rs@)).take(i + 1), level));
        i = i + 1;
    }
    assert(repo_names(repo_views(rs@)).take(i as int) =~= repo_names(repo_views(rs@)));
}

/// What is said before choosing the repositories to add, and whether there is any.
pub fn select_repositories_intro(available_repos: &Vec<Repository>, existing_repos: &Vec<Repository>) -> (res: (Vec<Notice>, bool))
    ensures
        (notice_views(res.0@), res.1) == update_selection_intro(repo_views(available_repos@), repo_views(existing_repos@)),
{
    let mut ns = quiet();
    if available_repos.len() == 0 {
        tell(&mut ns, NoticeLevel::Info, "All available repositories are already in the viewset.");
        assert(notice_views(ns@) =~= update_selection_intro(repo_views(available_repos@), repo_views(existing_repos@)).0);
        return (ns, false);
    }
    let mut t = chars_of("Current viewset has ");
    crate::text::push_all(&mut t, &crate::text::decimal_chars(existing_repos.len() as u64));
    push_str(&mut t, " repositories. Found ");
    crate::text::push_all(&mut t, &crate::text::decimal_chars(available_repos.len() as u64));
    push_str(&mut t, " new repositories available to add.");
    tell_chars(&mut ns, NoticeLevel::Info, t);
    if existing_repos.len() > 0 {
        tell(&mut ns, NoticeLevel::Plain, "Existing repositories in viewset:");
        bullets(&mut ns, existing_repos, NoticeLevel::Plain);
        tell(&mut ns, NoticeLevel::Plain, "");
    }
    assert(notice_views(ns@) =~= update_selection_intro(repo_views(available_repos@), repo_views(existing_repos@)).0);
    (ns, true)
}

/// What is said once `selected` were added to the viewset.
pub open spec fn viewset_updated_notices(selected: Seq<RepositoryView>) -> Seq<NoticeView> {
    seq![
        notice(NoticeLevel::Success, "Viewset updated successfully! Added "@ + crate::text::decimal(selected.len()) + " new repositories."@),
        info("Added repositories:"@),
    ] + bullet_lines(repo_names(selected), NoticeLevel::Info) + seq![
        info(""@),
        info("Next steps:"@),
        info("  • Update existing views: viewyard view update"@),
        info("  • Or create a new view: viewyard view create <view-name>"@),
    ]
}

pub fn viewset_updated(selected: &Vec<Repository>) -> (res: Vec<Notice>)
    ensures
        notice_views(res@) == viewset_updated_notices(repo_views(selected@)),
{
    let mut ns = quiet();
    let mut t = chars_of("Viewset updated successfully! Added ");
    crate::text::push_all(&mut t, &crate::text::decimal_chars(selected.len() as u64));
    push_str(&mut t, " new repositories.");
    tell_chars(&mut ns, NoticeLevel::Success, t);
    tell(&mut ns, NoticeLevel::Info, "Added repositories:");
    bullets(&mut ns, selected, NoticeLevel::Info);
    tell(&mut ns, NoticeLevel::Info, "");
    tell(&mut ns, NoticeLevel::Info, "Next steps:");
    tell(&mut ns, NoticeLevel::Info, "  • Update existing views: viewyard view update");
    tell(&mut ns, NoticeLevel::Info, "  • Or create a new view: viewyard view create <view-name>");
    assert(notice_views(ns@) =~= viewset_updated_notices(repo_views(selected@)));
    ns
}

/// The viewset's repositories after an update: those it had, then those chosen.
pub fn merge_repositories(existing: Vec<Repository>, selected: &Vec<Repository>) -> (res: Vec<Repository>)
    ensures
        repo_views(res@) == repo_views(existing@) + repo_views(selected@),
{
    let mut out = existing;
    let ghost base = repo_views(out@);
    let mut i: usize = 0;
    while i < selected.len()
        invariant
            i <= selected.len(),
            repo_views(out@) == base + repo_views(selected@).take(i as int),
        decreases selected.len() - i,
    {
        let r = selected[i].clone();
        assert(repo_views(out@.push(r)) =~= repo_views(out@).push(r@));
        assert(repo_views(selected@).take(i + 1) =~= repo_views(selected@).take(i as int).push(selected@[i as int]@));
        out.push(r);
        i = i + 1;
    }
    assert(repo_views(selected@).take(i as int) =~= repo_views(selected@));
    out
}

} // verus!
