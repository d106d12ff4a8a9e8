//! Views of a viewset: where the current directory stands, and the repositories the
//! viewset lists.
use vstd::prelude::*;

use crate::error::error_message;
use crate::error::lit;
use crate::error::plain;
use crate::error::within;
use crate::error::ErrorKind;
use crate::error::ErrorKindView;
use crate::error::ViewyardError;
use crate::error::ViewyardErrorView;
use crate::git::normalize_url_for_protocol;
use crate::git::normalized_url;
use crate::git::source_account;
use crate::git::transform_github_url_with_aliases;
use crate::git::url_for_account;
use crate::git::SshHostAliases;
use crate::github::file_name;
use crate::github::file_name_of;
use crate::models::repo_views;
use crate::models::GitProtocol;
use crate::models::Repository;
use crate::models::RepositoryView;
use crate::session::joined_path;
use crate::session::join_path;
use crate::session::notice;
use crate::session::notice_views;
use crate::session::quiet;
use crate::session::tell;
use crate::session::tell_chars;
use crate::session::Notice;
use crate::session::NoticeLevel;
use crate::session::NoticeView;
use crate::session::Reply;
use crate::session::Request;
use crate::session::RequestView;
use crate::session::Step;
use crate::text::chars_of;
use crate::text::contains;
use crate::text::contains_chars;
use crate::text::is_blank;
use crate::text::is_blank_chars;
use crate::text::push_str;
use crate::text::string_of;

verus! {

/// The file of a viewset that lists its repositories.
pub open spec fn REPOS_FILE() -> Seq<char> {
    ".viewyard-repos.json"@
}

// ---------------------------------------------------------------------------
// Loading the repositories of a viewset
// ---------------------------------------------------------------------------

/// The account a repository's working copy is set up for: the explicit one, else the one
/// named in its source.
pub open spec fn repo_account_of(r: RepositoryView) -> Option<Seq<char>> {
    match r.account {
        Some(a) => Some(a),
        None => match source_account(r.source) {
            Ok(a) => Some(a),
            Err(_) => None,
        },
    }
}

/// The URL pointed at the SSH host alias of the repository's account, if it has one.
pub open spec fn aliased_url(r: RepositoryView, aliases: Map<Seq<char>, Seq<char>>) -> Seq<char> {
    match repo_account_of(r) {
        Some(a) => url_for_account(r.url, a, aliases),
        None => r.url,
    }
}

/// The URL a loaded repository is cloned from: in the viewset's protocol when the viewset
/// names one, then, unless that protocol is HTTPS, pointed at the account's SSH alias.
pub open spec fn loaded_url(r: RepositoryView, protocol: Option<GitProtocol>, aliases: Map<Seq<char>, Seq<char>>) -> Seq<char> {
    match protocol {
        None => aliased_url(r, aliases),
        Some(p) => {
            let n = RepositoryView { url: normalized_url(r.url, p), ..r };
            if p == GitProtocol::Ssh {
                aliased_url(n, aliases)
            } else {
                n.url
            }
        },
    }
}

pub open spec fn with_loaded_urls(rs: Seq<RepositoryView>, protocol: Option<GitProtocol>, aliases: Map<Seq<char>, Seq<char>>) -> Seq<RepositoryView> {
    rs.map_values(|r: RepositoryView| RepositoryView { url: loaded_url(r, protocol, aliases), ..r })
}

/// What is wrong with the repository at `index`, if anything: an empty name, else an
/// empty URL.
pub open spec fn repo_problem(r: RepositoryView, index: nat, file: Seq<char>) -> Option<ErrorKindView> {
    if is_blank(r.name) {
        Some(ErrorKindView::EmptyRepoName { index, file })
    } else if is_blank(r.url) {
        Some(ErrorKindView::EmptyRepoUrl { index, name: r.name, file })
    } else {
        None
    }
}

/// A URL that names none of git, GitHub or GitLab is unusual.
pub open spec fn unusual_url(url: Seq<char>) -> bool {
    !contains(url, "git"@) && !contains(url, "github"@) && !contains(url, "gitlab"@)
}

pub open spec fn unusual_url_text(r: RepositoryView) -> Seq<char> {
    "Repository '"@ + r.name + "' has unusual URL format: "@ + r.url
        + "\nThis might not be a valid Git repository URL"@
}

/// Checking the repositories from `i` on: the warnings given before the first problem,
/// and that problem.
pub open spec fn checked_from(rs: Seq<RepositoryView>, file: Seq<char>, i: nat) -> (Seq<NoticeView>, Option<ErrorKindView>)
    decreases rs.len() - i,
{
    if i >= rs.len() {
        (seq![], None)
    } else {
        match repo_problem(rs[i as int], i, file) {
            Some(k) => (seq![], Some(k)),
            None => {
                let rest = checked_from(rs, file, i + 1);
                let w = if unusual_url(rs[i as int].url) {
                    seq![notice(NoticeLevel::Warning, unusual_url_text(rs[i as int]))]
                } else {
                    seq![]
                };
                (w + rest.0, rest.1)
            },
        }
    }
}

/// What loading the repositories `rs` of the configuration `file` gives: their URLs
/// adjusted, each checked, unusual URLs warned about.
pub open spec fn loaded_repos(
    rs: Seq<RepositoryView>,
    file: Seq<char>,
    protocol: Option<GitProtocol>,
    aliases: Map<Seq<char>, Seq<char>>,
) -> (Seq<NoticeView>, Result<Seq<RepositoryView>, ViewyardErrorView>) {
    let adjusted = with_loaded_urls(rs, protocol, aliases);
    let (ns, problem) = checked_from(adjusted, file, 0);
    match problem {
        Some(k) => (ns, Err(plain(k))),
        None => (ns, Ok(adjusted)),
    }
}

pub open spec fn loading_view(r: (Vec<Notice>, Result<Vec<Repository>, ViewyardError>)) -> (Seq<NoticeView>, Result<Seq<RepositoryView>, ViewyardErrorView>) {
    (notice_views(r.0@), crate::github::repos_result_view(r.1))
}

fn account_of(r: &Repository) -> (res: Option<String>)
    ensures
        crate::models::opt_view(res) == repo_account_of(r@),
{
    match &r.account {
        Some(a) => Some(a.clone()),
        None => match crate::git::extract_account_from_source(r.source.as_str()) {
            Ok(a) => Some(a),
            Err(_) => None,
        },
    }
}

fn adjusted_url(r: &Repository, protocol: Option<GitProtocol>, aliases: &SshHostAliases) -> (res: String)
    ensures
        res@ == loaded_url(r@, protocol, aliases@),
{
    match protocol {
        None => match account_of(r) {
            Some(a) => transform_github_url_with_aliases(r.url.as_str(), a.as_str(), aliases),
            None => r.url.clone(),
        },
        Some(p) => {
            let u = normalize_url_for_protocol(r.url.as_str(), p);
            match p {
                GitProtocol::Https => u,
                GitProtocol::Ssh => match account_of(r) {
                    Some(a) => transform_github_url_with_aliases(u.as_str(), a.as_str(), aliases),
                    None => u,
                },
            }
        },
    }
}

fn unusual_url_of(url: &String) -> (res: bool)
    ensures
        res == unusual_url(url@),
{
    let u = chars_of(url.as_str());
    !contains_chars(&u, &chars_of("git")) && !contains_chars(&u, &chars_of("github")) && !contains_chars(&u, &chars_of("gitlab"))
}

/// Loads the repositories `repos` read from the configuration `file`: each URL is put in
/// the viewset's `protocol` when one is given and, unless that is HTTPS, pointed at the
/// SSH host alias of the repository's account; then every repository must have a name and
/// a URL, and an unusual URL is warned about.
pub fn load_and_validate_repos(
    repos: Vec<Repository>,
    file: &str,
    protocol: Option<GitProtocol>,
    aliases: &SshHostAliases,
) -> (res: (Vec<Notice>, Result<Vec<Repository>, ViewyardError>))
    ensures
        loading_view(res) == loaded_repos(repo_views(repos@), file@, protocol, aliases@),
{
    let ghost given = repo_views(repos@);
    let ghost adjusted = with_loaded_urls(given, protocol, aliases@);
    let mut out: Vec<Repository> = Vec::new();
    let mut i: usize = 0;
    while i < repos.len()
        invariant
            i <= repos.len(),
            given == repo_views(repos@),
            adjusted == with_loaded_urls(given, protocol, aliases@),
            repo_views(out@) == adjusted.take(i as int),
        decreases repos.len() - i,
    {
        let r = &repos[i];
        let n = Repository {
            name: r.name.clone(),
            url: adjusted_url(r, protocol, aliases),
            is_private: r.is_private,
            source: r.source.clone(),
            account: crate::models::copy_opt_string(&r.account),
        };
        proof {
            assert(n@ == adjusted[i as int]);
            assert(adjusted.take(i + 1) =~= adjusted.take(i as int).push(n@));
            assert(repo_views(out@.push(n)) =~= repo_views(out@).push(n@));
        }
        out.push(n);
        i = i + 1;
    }
    assert(adjusted.take(i as int) =~= adjusted);
    let checked = out;
    let mut ns: Vec<Notice> = Vec::new();
    let mut k: usize = 0;
    assert(notice_views(ns@) + checked_from(adjusted, file@, 0).0 =~= checked_from(adjusted, file@, 0).0);
    while k < checked.len()
        invariant
            k <= checked.len(),
            repo_views(checked@) == adjusted,
            given == repo_views(repos@),
            adjusted == with_loaded_urls(given, protocol, aliases@),
            checked_from(adjusted, file@, 0).1 == checked_from(adjusted, file@, k as nat).1,
            checked_from(adjusted, file@, 0).0 == notice_views(ns@) + checked_from(adjusted, file@, k as nat).0,
        decreases checked.len() - k,
    {
        let r = &checked[k];
        assert(adjusted[k as int] == r@);
        if is_blank_chars(&chars_of(r.name.as_str())) {
            assert(notice_views(ns@) + seq![] =~= notice_views(ns@));
            assert(checked_from(adjusted, file@, k as nat) == (Seq::<NoticeView>::empty(), Some(ErrorKindView::EmptyRepoName { index: k as nat, file: file@ })));
            return (ns, Err(ViewyardError::new(ErrorKind::EmptyRepoName { index: k, file: lit(file) })));
        }
        if is_blank_chars(&chars_of(r.url.as_str())) {
            assert(notice_views(ns@) + seq![] =~= notice_views(ns@));
            assert(checked_from(adjusted, file@, k as nat) == (Seq::<NoticeView>::empty(), Some(ErrorKindView::EmptyRepoUrl { index: k as nat, name: r.name@, file: file@ })));
            return (ns, Err(ViewyardError::new(ErrorKind::EmptyRepoUrl { index: k, name: r.name.clone(), file: lit(file) })));
        }
        let ghost before = notice_views(ns@);
        if unusual_url_of(&r.url) {
            let mut t = chars_of("Repository '");
            push_str(&mut t, r.name.as_str());
            push_str(&mut t, "' has unusual URL format: ");
            push_str(&mut t, r.url.as_str());
            push_str(&mut t, "\nThis might not be a valid Git repository URL");
            tell_chars(&mut ns, NoticeLevel::Warning, t);
            assert(notice_views(ns@) + checked_from(adjusted, file@, (k + 1) as nat).0 =~= before + checked_from(adjusted, file@, k as nat).0);
        } else {
            assert(notice_views(ns@) + checked_from(adjusted, file@, (k + 1) as nat).0 =~= before + checked_from(adjusted, file@, k as nat).0);
        }
        k = k + 1;
    }
    assert(notice_views(ns@) + seq![] =~= notice_views(ns@));
    (ns, Ok(checked))
}

// ---------------------------------------------------------------------------
// The view the current directory is in
// ---------------------------------------------------------------------------

/// The view a workspace command runs in.
#[derive(Debug)]
pub struct ViewContext {
    pub viewset_name: String,
    pub view_root: String,
    pub view_name: String,
    pub active_repos: Vec<Repository>,
}

pub struct ViewContextView {
    pub viewset_name: Seq<char>,
    pub view_root: Seq<char>,
    pub view_name: Seq<char>,
    pub active_repos: Seq<RepositoryView>,
}

impl View for ViewContext {
    type V = ViewContextView;

    open spec fn view(&self) -> ViewContextView {
        ViewContextView {
            viewset_name: self.viewset_name@,
            view_root: self.view_root@,
            view_name: self.view_name@,
            active_repos: repo_views(self.active_repos@),
        }
    }
}

/// The last component of the path, or `unknown` when it has none.
pub open spec fn name_or_unknown(p: Seq<char>) -> Seq<char> {
    match file_name(p) {
        Some(n) => n,
        None => "unknown"@,
    }
}

/// Why a workspace command cannot run outside a view, and what to do.
pub open spec fn not_in_view_notices(current_dir: Seq<char>, parent: Option<Seq<char>>) -> Seq<NoticeView> {
    seq![
        notice(NoticeLevel::Error, "Workspace commands must be run from within a view directory"@),
        notice(NoticeLevel::Hint, "Current directory: "@ + current_dir),
        notice(NoticeLevel::Hint, match parent {
            Some(p) => "Parent directory: "@ + p,
            None => "No parent directory found"@,
        }),
        notice(NoticeLevel::Hint, "Expected structure: <viewset>/<view>/"@),
        notice(NoticeLevel::Hint, "Example: cd my-project/feature-123"@),
        notice(NoticeLevel::Hint, "Create a view: viewyard view create feature-123"@),
        notice(NoticeLevel::Hint, "List viewsets: find . -maxdepth 2 -name '.viewyard-repos.json' -exec dirname {} \\;"@),
    ]
}

/// The advice given when the viewset's configuration cannot be used.
pub open spec fn config_failure_notices(e: ViewyardErrorView) -> Seq<NoticeView> {
    seq![
        notice(NoticeLevel::Error, "Configuration validation failed: "@ + error_message(e)),
        notice(NoticeLevel::Info, "To fix this:"@),
        notice(NoticeLevel::Info, "   • Check the JSON syntax in .viewyard-repos.json"@),
        notice(NoticeLevel::Info, "   • Ensure all repositories have 'name' and 'url' fields"@),
        notice(NoticeLevel::Info, "   • Use 'cat .viewyard-repos.json' to inspect the file"@),
    ]
}

/// Where finding the view stands: asking whether the parent holds the repository list,
/// then reading it.
#[derive(Debug, Clone, Copy, PartialEq, Eq, Structural)]
pub enum ViewLoadStage {
    Probe,
    Read,
}

/// Finding the view the current directory is: its parent directory must be a viewset,
/// holding the repository list.
#[derive(Debug)]
pub struct ViewLoad {
    pub current_dir: String,
    pub parent: String,
    pub aliases: SshHostAliases,
    pub stage: ViewLoadStage,
}

pub struct ViewLoadView {
    pub current_dir: Seq<char>,
    pub parent: Seq<char>,
    pub aliases: Map<Seq<char>, Seq<char>>,
    pub stage: ViewLoadStage,
}

impl View for ViewLoad {
    type V = ViewLoadView;

    open spec fn view(&self) -> ViewLoadView {
        ViewLoadView { current_dir: self.current_dir@, parent: self.parent@, aliases: self.aliases@, stage: self.stage }
    }
}

pub open spec fn repos_file_of(parent: Seq<char>) -> Seq<char> {
    joined_path(parent, REPOS_FILE())
}

pub open spec fn view_load_request(v: ViewLoadView) -> RequestView {
    match v.stage {
        ViewLoadStage::Probe => RequestView::PathExists(repos_file_of(v.parent)),
        ViewLoadStage::Read => RequestView::ReadRepositories(repos_file_of(v.parent)),
    }
}

pub enum ViewLoadNext {
    Continue(ViewLoadView),
    Finished(Result<ViewContextView, ViewyardErrorView>),
}

pub open spec fn context_of(v: ViewLoadView, active: Seq<RepositoryView>) -> ViewContextView {
    ViewContextView {
        viewset_name: name_or_unknown(v.parent),
        view_root: v.current_dir,
        view_name: name_or_unknown(v.current_dir),
        active_repos: active,
    }
}

pub open spec fn replied_repos(r: Result<Vec<Repository>, ViewyardError>) -> Result<Seq<RepositoryView>, ViewyardErrorView> {
    crate::github::repos_result_view(r)
}

/// The next move of finding the view once `reply` came. A viewset whose list cannot be
/// read or used still gives the view, with no repositories.
pub open spec fn view_load_next(v: ViewLoadView, reply: Reply) -> (Seq<NoticeView>, ViewLoadNext) {
    match v.stage {
        ViewLoadStage::Probe => match reply {
            Reply::Flag(true) => (seq![], ViewLoadNext::Continue(ViewLoadView { stage: ViewLoadStage::Read, ..v })),
            Reply::Flag(false) => (
                not_in_view_notices(v.current_dir, Some(v.parent)),
                ViewLoadNext::Finished(Err(plain(ErrorKindView::NotInView))),
            ),
            _ => (seq![], ViewLoadNext::Finished(Err(plain(ErrorKindView::UnexpectedReply)))),
        },
        ViewLoadStage::Read => match reply {
            Reply::Repositories(r) => {
                let (ns, res) = match replied_repos(r) {
                    Ok(rs) => loaded_repos(rs, repos_file_of(v.parent), None, v.aliases),
                    Err(e) => (seq![], Err(e)),
                };
                match res {
                    Ok(active) => (ns, ViewLoadNext::Finished(Ok(context_of(v, active)))),
                    Err(e) => (ns + config_failure_notices(e), ViewLoadNext::Finished(Ok(context_of(v, seq![])))),
                }
            },
            _ => (seq![], ViewLoadNext::Finished(Err(plain(ErrorKindView::UnexpectedReply)))),
        },
    }
}

pub open spec fn context_result_view(r: Result<ViewContext, ViewyardError>) -> Result<ViewContextView, ViewyardErrorView> {
    match r {
        Ok(c) => Ok(c@),
        Err(e) => Err(e@),
    }
}

pub open spec fn view_load_step_is(step: Step<ViewLoad, Result<ViewContext, ViewyardError>>, next: (Seq<NoticeView>, ViewLoadNext)) -> bool {
    match next.1 {
        ViewLoadNext::Continue(v) => step matches Step::Ask(ns, req, s) && notice_views(ns@) == next.0 && s@ == v
            && req@ == view_load_request(v),
        ViewLoadNext::Finished(r) => step matches Step::Done(ns, x) && notice_views(ns@) == next.0 && context_result_view(x) == r,
    }
}

/// The first step of finding the view: none when the current directory has no parent.
pub open spec fn view_load_start(current_dir: Seq<char>, parent: Option<Seq<char>>, aliases: Map<Seq<char>, Seq<char>>) -> (Seq<NoticeView>, ViewLoadNext) {
    match parent {
        None => (not_in_view_notices(current_dir, None), ViewLoadNext::Finished(Err(plain(ErrorKindView::NotInView)))),
        Some(p) => (seq![], ViewLoadNext::Continue(ViewLoadView { current_dir, parent: p, aliases, stage: ViewLoadStage::Probe })),
    }
}

fn hint_line(ns: &mut Vec<Notice>, before: &str, text: &str)
    ensures
        notice_views(final(ns)@) == notice_views(old(ns)@).push(notice(NoticeLevel::Hint, before@ + text@)),
{
    let mut t = chars_of(before);
    push_str(&mut t, text);
    tell_chars(ns, NoticeLevel::Hint, t);
}

fn not_in_view(current_dir: &str, parent: Option<&str>) -> (res: Vec<Notice>)
    ensures
        notice_views(res@) == not_in_view_notices(current_dir@, crate::github::opt_str(parent)),
{
    let mut ns = quiet();
    tell(&mut ns, NoticeLevel::Error, "Workspace commands must be run from within a view directory");
    hint_line(&mut ns, "Current directory: ", current_dir);
    match parent {
        Some(p) => hint_line(&mut ns, "Parent directory: ", p),
        None => tell(&mut ns, NoticeLevel::Hint, "No parent directory found"),
    }
    tell(&mut ns, NoticeLevel::Hint, "Expected structure: <viewset>/<view>/");
    tell(&mut ns, NoticeLevel::Hint, "Example: cd my-project/feature-123");
    tell(&mut ns, NoticeLevel::Hint, "Create a view: viewyard view create feature-123");
    tell(&mut ns, NoticeLevel::Hint, "List viewsets: find . -maxdepth 2 -name '.viewyard-repos.json' -exec dirname {} \\;");
    assert(notice_views(ns@) =~= not_in_view_notices(current_dir@, crate::github::opt_str(parent)));
    ns
}

fn config_failure(ns: &mut Vec<Notice>, e: &ViewyardError)
    ensures
        notice_views(final(ns)@) == notice_views(old(ns)@) + config_failure_notices(e@),
{
    let ghost before = notice_views(ns@);
    let mut t = chars_of("Configuration validation failed: ");
    push_str(&mut t, e.message().as_str());
    tell_chars(ns, NoticeLevel::Error, t);
    tell(ns, NoticeLevel::Info, "To fix this:");
    tell(ns, NoticeLevel::Info, "   • Check the JSON syntax in .viewyard-repos.json");
    tell(ns, NoticeLevel::Info, "   • Ensure all repositories have 'name' and 'url' fields");
    tell(ns, NoticeLevel::Info, "   • Use 'cat .viewyard-repos.json' to inspect the file");
    assert(notice_views(ns@) =~= before + config_failure_notices(e@));
}

fn name_or_unknown_of(p: &str) -> (res: String)
    ensures
        res@ == name_or_unknown(p@),
{
    match file_name_of(&chars_of(p)) {
        Some(n) => string_of(&n),
        None => lit("unknown"),
    }
}

/// Starts finding the view the current directory `current_dir` is, `parent` being its
/// parent directory (none for a root), with the SSH host aliases the repositories' URLs
/// are pointed at.
pub fn load_view_context(current_dir: &str, parent: Option<&str>, aliases: SshHostAliases) -> (res: Step<
    ViewLoad,
    Result<ViewContext, ViewyardError>,
>)
    ensures
        view_load_step_is(res, view_load_start(current_dir@, crate::github::opt_str(parent), aliases@)),
{
    match parent {
        None => Step::Done(not_in_view(current_dir, None), Err(ViewyardError::new(ErrorKind::NotInView))),
        Some(p) => {
            let l = ViewLoad { current_dir: lit(current_dir), parent: lit(p), aliases, stage: ViewLoadStage::Probe };
            let file = join_path(p, ".viewyard-repos.json");
            Step::Ask(quiet(), Request::PathExists(file), l)
        },
    }
}

impl ViewLoad {
    /// The request finding the view is waiting on.
    pub fn request(&self) -> (res: Request)
        ensures
            res@ == view_load_request(self@),
    {
        let file = join_path(self.parent.as_str(), ".viewyard-repos.json");
        match self.stage {
            ViewLoadStage::Probe => Request::PathExists(file),
            ViewLoadStage::Read => Request::ReadRepositories(file),
        }
    }

    fn context(&self, active: Vec<Repository>) -> (res: ViewContext)
        ensures
            res@ == context_of(self@, repo_views(active@)),
    {
        ViewContext {
            viewset_name: name_or_unknown_of(self.parent.as_str()),
            view_root: self.current_dir.clone(),
            view_name: name_or_unknown_of(self.current_dir.as_str()),
            active_repos: active,
        }
    }

    /// The next step once the current request was answered with `reply`.
    pub fn resume(self, reply: Reply) -> (res: Step<ViewLoad, Result<ViewContext, ViewyardError>>)
        ensures
            view_load_step_is(res, view_load_next(self@, reply)),
    {
        let mut l = self;
        match l.stage {
            ViewLoadStage::Probe => match reply {
                Reply::Flag(true) => {
                    l.stage = ViewLoadStage::Read;
                    let file = join_path(l.parent.as_str(), ".viewyard-repos.json");
                    Step::Ask(quiet(), Request::ReadRepositories(file), l)
                },
                Reply::Flag(false) => Step::Done(
                    not_in_view(l.current_dir.as_str(), Some(l.parent.as_str())),
                    Err(ViewyardError::new(ErrorKind::NotInView)),
                ),
                _ => Step::Done(quiet(), Err(ViewyardError::new(ErrorKind::UnexpectedReply))),
            },
            ViewLoadStage::Read => match reply {
                Reply::Repositories(r) => {
                    let file = join_path(l.parent.as_str(), ".viewyard-repos.json");
                    let (mut ns, res) = match r {
                        Ok(rs) => load_and_validate_repos(rs, file.as_str(), None, &l.aliases),
                        Err(e) => (quiet(), Err(e)),
                    };
                    match res {
                        Ok(active) => {
                            let c = l.context(active);
                            Step::Done(ns, Ok(c))
                        },
                        Err(e) => {
                            config_failure(&mut ns, &e);
                            let none: Vec<Repository> = Vec::new();
                            assert(repo_views(none@) =~= seq![]);
                            let c = l.context(none);
                            Step::Done(ns, Ok(c))
                        },
                    }
                },
                _ => Step::Done(quiet(), Err(ViewyardError::new(ErrorKind::UnexpectedReply))),
            },
        }
    }
}

} // verus!
