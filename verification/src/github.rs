//! Discovering repositories through the GitHub CLI (`gh`).
use vstd::prelude::*;
pub use crate::session::info;

use crate::command::gh_invocation;
use crate::command::gh_invocation_of;
use crate::command::lossy_text;
use crate::command::str_views;
use crate::command::utf8_lossy;
use crate::command::Invocation;
use crate::command::InvocationView;
use crate::command::ProcessOutcome;
use crate::error::lit;
use crate::error::plain;
use crate::error::within;
use crate::error::ErrorKind;
use crate::error::ErrorKindView;
use crate::error::ViewyardError;
use crate::error::ViewyardErrorView;
use crate::git::url_for_account;
use crate::git::SshHostAliases;
use crate::models::repo_views;
use crate::models::opt_view;
use crate::models::GitProtocol;
use crate::models::Repository;
use crate::models::RepositoryView;
use crate::session::notice;
use crate::session::notice_views;
use crate::session::tell;
use crate::session::quiet;
use crate::session::tell_chars;
use crate::session::tell_all;
use crate::session::Notice;
use crate::session::NoticeLevel;
use crate::session::NoticeView;
use crate::session::Request;
use crate::session::RequestView;
use crate::session::Step;
use crate::text::chars_of;
use crate::text::contains;
use crate::text::contains_chars;
use crate::text::first_piece;
use crate::text::second_piece;
use crate::text::second_piece_chars;
use crate::text::decimal;
use crate::text::decimal_chars;
use crate::text::is_blank;
use crate::text::is_blank_chars;
use crate::text::lines;
use crate::text::lines_of;
use crate::text::push_all;
use crate::text::push_str;
use crate::text::string_of;
use crate::text::trim;
use crate::text::trim_chars;
use crate::text::views;

verus! {

/// The GitHub CLI, as the source of the repositories a viewset can hold.
#[derive(Debug)]
pub struct GitHubService;

// ---------------------------------------------------------------------------
// Reading `gh repo list` output
// ---------------------------------------------------------------------------

/// What one entry of `gh repo list --json` gives: its name, its URL and whether it is
/// private, each when present with the expected JSON type.
#[derive(Debug)]
pub struct RepoListing {
    pub name: Option<String>,
    pub url: Option<String>,
    pub is_private: Option<bool>,
}

pub open spec fn listing_views(v: Seq<RepoListing>) -> Seq<(Option<Seq<char>>, Option<Seq<char>>, Option<bool>)> {
    v.map_values(|e: RepoListing| (opt_view(e.name), opt_view(e.url), e.is_private))
}

/// What `serde_json` reads from `json` as an array of values, taking from each element
/// its `name` and `url_field` members when they are strings and its `isPrivate` member
/// when it is a boolean; or, when `json` is not such an array, the text of
/// `serde_json`'s error.
pub uninterp spec fn gh_repo_listing(json: Seq<char>, url_field: Seq<char>) -> Result<Seq<(Option<Seq<char>>, Option<Seq<char>>, Option<bool>)>, Seq<char>>;

/// Reads the output of `gh repo list --json` with `serde_json::from_str` into a
/// `Vec<serde_json::Value>`, then takes from each element its `name` and `url_field`
/// members when they are strings (`Value::as_str`) and its `isPrivate` member when it is a
/// boolean (`Value::as_bool`); on failure it gives the error's text. Both are named by
/// `gh_repo_listing`, as functions of the two arguments.
#[verifier::external_body]
fn parse_repo_listing(json: &str, url_field: &str) -> (res: Result<Vec<RepoListing>, String>)
    ensures
        match res {
            Ok(v) => gh_repo_listing(json@, url_field@) == Ok::<_, Seq<char>>(listing_views(v@)),
            Err(e) => gh_repo_listing(json@, url_field@) == Err::<Seq<(Option<Seq<char>>, Option<Seq<char>>, Option<bool>)>, _>(e@),
        },
{
    match serde_json::from_str::<Vec<serde_json::Value>>(json) {
        Ok(values) => Ok(values.iter().map(|v| RepoListing {
            name: v["name"].as_str().map(str::to_string),
            url: v[url_field].as_str().map(str::to_string),
            is_private: v["isPrivate"].as_bool(),
        }).collect()),
        Err(e) => Err(e.to_string()),
    }
}

/// The JSON member holding the clone URL for a protocol.
pub open spec fn url_field(protocol: GitProtocol) -> Seq<char> {
    match protocol {
        GitProtocol::Ssh => "sshUrl"@,
        GitProtocol::Https => "url"@,
    }
}

fn url_field_of(protocol: GitProtocol) -> (res: String)
    ensures
        res@ == url_field(protocol),
{
    match protocol {
        GitProtocol::Ssh => lit("sshUrl"),
        GitProtocol::Https => lit("url"),
    }
}

/// The pieces of `s` between the occurrences of `c` (`str::split`), `cur` being the piece
/// read so far.
pub open spec fn pieces_from(s: Seq<char>, c: char, cur: Seq<char>) -> Seq<Seq<char>>
    decreases s.len(),
{
    if s.len() == 0 {
        seq![cur]
    } else if s[0] == c {
        seq![cur] + pieces_from(s.drop_first(), c, seq![])
    } else {
        pieces_from(s.drop_first(), c, cur.push(s[0]))
    }
}

/// The last piece that names something: not empty, not `.`.
pub open spec fn last_named(ps: Seq<Seq<char>>) -> Option<Seq<char>>
    decreases ps.len(),
{
    if ps.len() == 0 {
        None
    } else if ps.last().len() == 0 || ps.last() == "."@ {
        last_named(ps.drop_last())
    } else {
        Some(ps.last())
    }
}

/// The last component of a path (`Path::file_name`): none for `..`, the root or `.`.
pub open spec fn file_name(p: Seq<char>) -> Option<Seq<char>> {
    match last_named(pieces_from(p, '/', seq![])) {
        Some(n) => if n == ".."@ {
            None
        } else {
            Some(n)
        },
        None => None,
    }
}

/// Index of the last `.` in `s`, or -1.
pub open spec fn last_dot(s: Seq<char>) -> int
    decreases s.len(),
{
    if s.len() == 0 {
        -1
    } else if s.last() == '.' {
        s.len() - 1
    } else {
        last_dot(s.drop_last())
    }
}

/// `git`, letters compared without regard to ASCII case.
pub open spec fn is_git_word(e: Seq<char>) -> bool {
    &&& e.len() == 3
    &&& (e[0] == 'g' || e[0] == 'G')
    &&& (e[1] == 'i' || e[1] == 'I')
    &&& (e[2] == 't' || e[2] == 'T')
}

/// Whether the path's extension (after the last `.` of its file name, that dot not
/// starting the name) is `git`, in any ASCII case.
pub open spec fn has_git_extension(url: Seq<char>) -> bool {
    match file_name(url) {
        Some(n) => last_dot(n) > 0 && is_git_word(n.skip(last_dot(n) + 1)),
        None => false,
    }
}

/// The clone URL used for a listed repository: for SSH the account's host alias is
/// applied; for HTTPS `.git` is appended unless the URL already ends in it.
pub open spec fn listed_url(url: Seq<char>, account: Seq<char>, protocol: GitProtocol, aliases: Map<Seq<char>, Seq<char>>) -> Seq<char> {
    match protocol {
        GitProtocol::Ssh => url_for_account(url, account, aliases),
        GitProtocol::Https => if has_git_extension(url) {
            url
        } else {
            url + ".git"@
        },
    }
}

/// Where a repository was found: `GitHub (account)` or `GitHub (org/account)`, marked
/// ` [private]` when private.
pub open spec fn listed_source(account: Seq<char>, org: Option<Seq<char>>, is_private: bool) -> Seq<char> {
    "GitHub ("@ + match org {
        Some(o) => o + "/"@ + account,
        None => account,
    } + ")"@ + if is_private {
        " [private]"@
    } else {
        seq![]
    }
}

/// The repository an entry stands for, when it has a name, a URL and a privacy flag.
pub open spec fn listed_repo(
    e: (Option<Seq<char>>, Option<Seq<char>>, Option<bool>),
    account: Seq<char>,
    org: Option<Seq<char>>,
    protocol: GitProtocol,
    aliases: Map<Seq<char>, Seq<char>>,
) -> Option<RepositoryView> {
    match e {
        (Some(name), Some(url), Some(p)) => Some(
            RepositoryView {
                name,
                url: listed_url(url, account, protocol, aliases),
                is_private: p,
                source: listed_source(account, org, p),
                account: Some(account),
            },
        ),
        _ => None,
    }
}

/// The repositories of the complete entries, in order.
pub open spec fn listed_repos(
    es: Seq<(Option<Seq<char>>, Option<Seq<char>>, Option<bool>)>,
    account: Seq<char>,
    org: Option<Seq<char>>,
    protocol: GitProtocol,
    aliases: Map<Seq<char>, Seq<char>>,
) -> Seq<RepositoryView>
    decreases es.len(),
{
    if es.len() == 0 {
        seq![]
    } else {
        let rest = listed_repos(es.drop_last(), account, org, protocol, aliases);
        match listed_repo(es.last(), account, org, protocol, aliases) {
            Some(r) => rest.push(r),
            None => rest,
        }
    }
}

fn pieces(s: &Vec<char>, c: char) -> (res: Vec<Vec<char>>)
    ensures
        views(res@) == pieces_from(s@, c, seq![]),
{
    let mut out: Vec<Vec<char>> = Vec::new();
    let mut cur: Vec<char> = Vec::new();
    let mut i: usize = 0;
    assert(s@.skip(0) =~= s@);
    assert(views(out@) + pieces_from(s@.skip(0), c, cur@) =~= pieces_from(s@, c, seq![]));
    while i < s.len()
        invariant
            i <= s.len(),
            views(out@) + pieces_from(s@.skip(i as int), c, cur@) == pieces_from(s@, c, seq![]),
        decreases s.len() - i,
    {
        assert(s@.skip(i as int).drop_first() =~= s@.skip(i + 1));
        assert(s@.skip(i as int)[0] == s@[i as int]);
        if s[i] == c {
            assert(views(out@.push(cur)) =~= views(out@) + seq![cur@]);
            out.push(cur);
            cur = Vec::new();
        } else {
            cur.push(s[i]);
        }
        i = i + 1;
    }
    assert(views(out@.push(cur)) =~= views(out@) + seq![cur@]);
    out.push(cur);
    out
}

fn is_dot(v: &Vec<char>) -> (res: bool)
    ensures
        res == (v@ == "."@),
{
    let d = chars_of(".");
    crate::text::chars_eq(v, &d)
}

pub fn file_name_of(p: &Vec<char>) -> (res: Option<Vec<char>>)
    ensures
        match file_name(p@) {
            Some(n) => res matches Some(r) && r@ == n,
            None => res is None,
        },
{
    let ps = pieces(p, '/');
    let mut i: usize = ps.len();
    assert(views(ps@).take(i as int) =~= views(ps@));
    while i > 0
        invariant
            i <= ps.len(),
            last_named(views(ps@).take(i as int)) == last_named(pieces_from(p@, '/', seq![])),
            views(ps@) == pieces_from(p@, '/', seq![]),
        decreases i,
    {
        let ghost t = views(ps@).take(i as int);
        assert(t.last() == ps@[i - 1]@);
        assert(t.drop_last() =~= views(ps@).take(i - 1));
        if ps[i - 1].len() == 0 || is_dot(&ps[i - 1]) {
            i = i - 1;
        } else {
            let dd = chars_of("..");
            if crate::text::chars_eq(&ps[i - 1], &dd) {
                return None;
            }
            return Some(crate::text::copy_chars(&ps[i - 1]));
        }
    }
    None
}

fn last_dot_of(s: &Vec<char>) -> (res: Option<usize>)
    ensures
        match res {
            Some(d) => last_dot(s@) == d as int && d < s.len(),
            None => last_dot(s@) == -1,
        },
{
    let mut i: usize = s.len();
    assert(s@.take(i as int) =~= s@);
    while i > 0
        invariant
            i <= s.len(),
            last_dot(s@.take(i as int)) == last_dot(s@),
        decreases i,
    {
        assert(s@.take(i as int).last() == s@[i - 1]);
        assert(s@.take(i as int).drop_last() =~= s@.take(i - 1));
        if s[i - 1] == '.' {
            return Some(i - 1);
        }
        i = i - 1;
    }
    None
}

fn has_git_extension_of(url: &Vec<char>) -> (res: bool)
    ensures
        res == has_git_extension(url@),
{
    match file_name_of(url) {
        None => false,
        Some(n) => match last_dot_of(&n) {
            None => false,
            Some(d) => {
                if d == 0 {
                    return false;
                }
                let e = crate::text::slice_chars(&n, d + 1, n.len());
                assert(e@ =~= n@.skip(d + 1));
                e.len() == 3 && (e[0] == 'g' || e[0] == 'G') && (e[1] == 'i' || e[1] == 'I') && (
                e[2] == 't' || e[2] == 'T')
            },
        },
    }
}

fn listed_url_of(url: &String, account: &str, protocol: GitProtocol, aliases: &SshHostAliases) -> (res: String)
    ensures
        res@ == listed_url(url@, account@, protocol, aliases@),
{
    match protocol {
        GitProtocol::Ssh => crate::git::transform_github_url_with_aliases(url.as_str(), account, aliases),
        GitProtocol::Https => {
            let u = chars_of(url.as_str());
            if has_git_extension_of(&u) {
                string_of(&u)
            } else {
                let mut v = u;
                push_str(&mut v, ".git");
                string_of(&v)
            }
        },
    }
}

fn listed_source_of(account: &str, org: Option<&str>, is_private: bool) -> (res: String)
    ensures
        res@ == listed_source(account@, match org {
            Some(o) => Some(o@),
            None => None,
        }, is_private),
{
    let mut v = chars_of("GitHub (");
    match org {
        Some(o) => {
            push_str(&mut v, o);
            push_str(&mut v, "/");
            push_str(&mut v, account);
        },
        None => {
            push_str(&mut v, account);
        },
    }
    push_str(&mut v, ")");
    if is_private {
        push_str(&mut v, " [private]");
    }
    proof {
        let inner = match org {
            Some(o) => o@ + "/"@ + account@,
            None => account@,
        };
        assert(v@ =~= "GitHub ("@ + inner + ")"@ + if is_private {
            " [private]"@
        } else {
            seq![]
        });
    }
    string_of(&v)
}

pub open spec fn opt_str(o: Option<&str>) -> Option<Seq<char>> {
    match o {
        Some(s) => Some(s@),
        None => None,
    }
}

/// The repositories of the complete entries of a listing, found under `account` (and
/// the organization `org`, if given).
pub fn repositories_from_listing(
    entries: &Vec<RepoListing>,
    account: &str,
    org: Option<&str>,
    protocol: GitProtocol,
    aliases: &SshHostAliases,
) -> (res: Vec<Repository>)
    ensures
        repo_views(res@) == listed_repos(listing_views(entries@), account@, opt_str(org), protocol, aliases@),
{
    let mut out: Vec<Repository> = Vec::new();
    let mut i: usize = 0;
    while i < entries.len()
        invariant
            i <= entries.len(),
            repo_views(out@) == listed_repos(listing_views(entries@).take(i as int), account@, opt_str(org), protocol, aliases@),
        decreases entries.len() - i,
    {
        let ghost es = listing_views(entries@);
        assert(es.take(i + 1).drop_last() =~= es.take(i as int));
        assert(es.take(i + 1).last() == es[i as int]);
        let e = &entries[i];
        match (&e.name, &e.url, e.is_private) {
            (Some(name), Some(url), Some(p)) => {
                let r = Repository {
                    name: name.clone(),
                    url: listed_url_of(url, account, protocol, aliases),
                    is_private: p,
                    source: listed_source_of(account, org, p),
                    account: Some(lit(account)),
                };
                assert(repo_views(out@.push(r)) =~= repo_views(out@).push(r@));
                out.push(r);
            },
            _ => {},
        }
        i = i + 1;
    }
    assert(listing_views(entries@).take(i as int) =~= listing_views(entries@));
    out
}


// ---------------------------------------------------------------------------
// Listing repositories
// ---------------------------------------------------------------------------

/// The `--json` fields asked of `gh repo list`.
pub open spec fn json_fields(protocol: GitProtocol) -> Seq<char> {
    "name,"@ + url_field(protocol) + ",isPrivate"@
}

/// `gh repo list [owner] --limit 1000 --json name,<url field>,isPrivate`.
pub open spec fn repo_list_args(owner: Option<Seq<char>>, protocol: GitProtocol) -> Seq<Seq<char>> {
    match owner {
        Some(o) => seq!["repo"@, "list"@, o, "--limit"@, "1000"@, "--json"@, json_fields(protocol)],
        None => seq!["repo"@, "list"@, "--limit"@, "1000"@, "--json"@, json_fields(protocol)],
    }
}

/// How a failed `gh repo list` is reported, by what its error output mentions.
#[derive(Debug, Clone, Copy, PartialEq, Eq, Structural)]
pub enum ListFailure {
    Authentication,
    RateLimit,
    Network,
    Other,
}

pub open spec fn list_failure(stderr: Seq<char>) -> ListFailure {
    if contains(stderr, "authentication"@) || contains(stderr, "not authenticated"@) {
        ListFailure::Authentication
    } else if contains(stderr, "rate limit"@) || contains(stderr, "API rate limit"@) {
        ListFailure::RateLimit
    } else if contains(stderr, "network"@) || contains(stderr, "timeout"@) {
        ListFailure::Network
    } else {
        ListFailure::Other
    }
}

/// The advice shown for a failed listing of an account's repositories.
pub open spec fn list_failure_notices(f: ListFailure) -> Seq<NoticeView> {
    match f {
        ListFailure::Authentication => seq![
            notice(NoticeLevel::Error, "❌ GitHub CLI authentication failed"@),
            notice(NoticeLevel::Info, "🔑 Authentication issues:"@),
            notice(NoticeLevel::Info, "   • Re-authenticate: gh auth login"@),
            notice(NoticeLevel::Info, "   • Check auth status: gh auth status"@),
            notice(NoticeLevel::Info, "   • Refresh token: gh auth refresh"@),
        ],
        ListFailure::RateLimit => seq![
            notice(NoticeLevel::Error, "❌ GitHub API rate limit exceeded"@),
            notice(NoticeLevel::Info, "⏰ Rate limit issues:"@),
            notice(NoticeLevel::Info, "   • Wait for rate limit reset (usually 1 hour)"@),
            notice(NoticeLevel::Info, "   • Check rate limit: gh api rate_limit"@),
            notice(NoticeLevel::Info, "   • Use personal access token for higher limits"@),
        ],
        ListFailure::Network => seq![
            notice(NoticeLevel::Error, "❌ Network error accessing GitHub"@),
            notice(NoticeLevel::Info, "🌐 Network issues:"@),
            notice(NoticeLevel::Info, "   • Check internet connection"@),
            notice(NoticeLevel::Info, "   • Try again in a few moments"@),
            notice(NoticeLevel::Info, "   • Check GitHub status: https://www.githubstatus.com/"@),
        ],
        ListFailure::Other => seq![],
    }
}

pub open spec fn list_failure_kind(f: ListFailure, account: Seq<char>, stderr: Seq<char>) -> ErrorKindView {
    match f {
        ListFailure::Authentication => ErrorKindView::GhAuthFailed,
        ListFailure::RateLimit => ErrorKindView::GhRateLimited,
        ListFailure::Network => ErrorKindView::GhNetwork,
        ListFailure::Other => ErrorKindView::GhListFailed { account, stderr },
    }
}

pub open spec fn user_limit_warning(account: Seq<char>) -> Seq<char> {
    "    Warning: Found exactly 1000 repositories for "@ + account
        + ". Some repositories may not be shown due to GitHub CLI limits."@
}

pub open spec fn org_limit_warning(org: Seq<char>) -> Seq<char> {
    "        Warning: Found exactly 1000 repositories for organization '"@ + org
        + "'. Some repositories may not be shown due to GitHub CLI limits."@
}

pub open spec fn org_failure_warning(org: Seq<char>, stderr: Seq<char>) -> Seq<char> {
    "Warning: Failed to list repositories for organization '"@ + org + "': "@ + stderr
}

pub open spec fn io_error(cause: Seq<char>, context: Seq<char>) -> ViewyardErrorView {
    within(plain(ErrorKindView::Io { cause }), context)
}

/// A listing of repositories: the notices it gives and its result.
pub type ListingView = (Seq<NoticeView>, Result<Seq<RepositoryView>, ViewyardErrorView>);

pub open spec fn repos_result_view(r: Result<Vec<Repository>, ViewyardError>) -> Result<Seq<RepositoryView>, ViewyardErrorView> {
    match r {
        Ok(v) => Ok(repo_views(v@)),
        Err(e) => Err(e@),
    }
}

pub open spec fn listing_view(r: (Vec<Notice>, Result<Vec<Repository>, ViewyardError>)) -> ListingView {
    (notice_views(r.0@), repos_result_view(r.1))
}

/// The repositories that a successful `gh repo list` output names, with the warning
/// given when the listing may have been cut at its limit.
pub open spec fn listed(
    json: Seq<char>,
    account: Seq<char>,
    org: Option<Seq<char>>,
    protocol: GitProtocol,
    aliases: Map<Seq<char>, Seq<char>>,
    parse_context: Seq<char>,
) -> ListingView {
    match gh_repo_listing(json, url_field(protocol)) {
        Err(detail) => (seq![], Err(within(plain(ErrorKindView::InvalidJson { detail }), parse_context))),
        Ok(entries) => {
            let repos = listed_repos(entries, account, org, protocol, aliases);
            let warning = match org {
                Some(o) => org_limit_warning(o),
                None => user_limit_warning(account),
            };
            (if repos.len() >= 1000 {
                seq![notice(NoticeLevel::Warning, warning)]
            } else {
                seq![]
            }, Ok(repos))
        },
    }
}

/// What listing an account's own repositories gives once `gh repo list` ended with `o`.
pub open spec fn user_repositories(
    account: Seq<char>,
    protocol: GitProtocol,
    aliases: Map<Seq<char>, Seq<char>>,
    o: ProcessOutcome,
) -> ListingView {
    match o {
        ProcessOutcome::SpawnFailed(c) => (seq![], Err(io_error(c@, "Failed to get user repositories"@))),
        ProcessOutcome::Finished(out) => if !out.success {
            let stderr = utf8_lossy(out.stderr@);
            let f = list_failure(stderr);
            (list_failure_notices(f), Err(plain(list_failure_kind(f, account, stderr))))
        } else {
            listed(utf8_lossy(out.stdout@), account, None, protocol, aliases, "Failed to parse user repositories JSON"@)
        },
    }
}

/// What listing an organization's repositories gives once `gh repo list <org>` ended with
/// `o`: a failed listing is only warned about.
pub open spec fn organization_repositories(
    org: Seq<char>,
    account: Seq<char>,
    protocol: GitProtocol,
    aliases: Map<Seq<char>, Seq<char>>,
    o: ProcessOutcome,
) -> ListingView {
    match o {
        ProcessOutcome::SpawnFailed(c) => (seq![], Err(io_error(c@, "Failed to get organization repositories"@))),
        ProcessOutcome::Finished(out) => if !out.success {
            (seq![notice(NoticeLevel::Stderr, org_failure_warning(org, utf8_lossy(out.stderr@)))], Ok(seq![]))
        } else {
            listed(utf8_lossy(out.stdout@), account, Some(org), protocol, aliases, "Failed to parse organization repositories JSON"@)
        },
    }
}

fn classify_list_failure(stderr: &Vec<char>) -> (res: ListFailure)
    ensures
        res == list_failure(stderr@),
{
    if contains_chars(stderr, &chars_of("authentication")) || contains_chars(stderr, &chars_of("not authenticated")) {
        ListFailure::Authentication
    } else if contains_chars(stderr, &chars_of("rate limit")) || contains_chars(stderr, &chars_of("API rate limit")) {
        ListFailure::RateLimit
    } else if contains_chars(stderr, &chars_of("network")) || contains_chars(stderr, &chars_of("timeout")) {
        ListFailure::Network
    } else {
        ListFailure::Other
    }
}

fn list_failure_advice(f: ListFailure) -> (res: Vec<Notice>)
    ensures
        notice_views(res@) == list_failure_notices(f),
{
    let mut ns: Vec<Notice> = Vec::new();
    match f {
        ListFailure::Authentication => {
            tell(&mut ns, NoticeLevel::Error, "❌ GitHub CLI authentication failed");
            tell(&mut ns, NoticeLevel::Info, "🔑 Authentication issues:");
            tell(&mut ns, NoticeLevel::Info, "   • Re-authenticate: gh auth login");
            tell(&mut ns, NoticeLevel::Info, "   • Check auth status: gh auth status");
            tell(&mut ns, NoticeLevel::Info, "   • Refresh token: gh auth refresh");
        },
        ListFailure::RateLimit => {
            tell(&mut ns, NoticeLevel::Error, "❌ GitHub API rate limit exceeded");
            tell(&mut ns, NoticeLevel::Info, "⏰ Rate limit issues:");
            tell(&mut ns, NoticeLevel::Info, "   • Wait for rate limit reset (usually 1 hour)");
            tell(&mut ns, NoticeLevel::Info, "   • Check rate limit: gh api rate_limit");
            tell(&mut ns, NoticeLevel::Info, "   • Use personal access token for higher limits");
        },
        ListFailure::Network => {
            tell(&mut ns, NoticeLevel::Error, "❌ Network error accessing GitHub");
            tell(&mut ns, NoticeLevel::Info, "🌐 Network issues:");
            tell(&mut ns, NoticeLevel::Info, "   • Check internet connection");
            tell(&mut ns, NoticeLevel::Info, "   • Try again in a few moments");
            tell(&mut ns, NoticeLevel::Info, "   • Check GitHub status: https://www.githubstatus.com/");
        },
        ListFailure::Other => {},
    }
    assert(notice_views(ns@) =~= list_failure_notices(f));
    ns
}

fn io_failure(cause: &String, context: &str) -> (res: ViewyardError)
    ensures
        res@ == io_error(cause@, context@),
{
    ViewyardError::new(ErrorKind::Io { cause: cause.clone() }).context(lit(context))
}

fn listed_of(
    json: &String,
    account: &str,
    org: Option<&str>,
    protocol: GitProtocol,
    aliases: &SshHostAliases,
    parse_context: &str,
) -> (res: (Vec<Notice>, Result<Vec<Repository>, ViewyardError>))
    ensures
        listing_view(res) == listed(json@, account@, opt_str(org), protocol, aliases@, parse_context@),
{
    let field = url_field_of(protocol);
    match parse_repo_listing(json.as_str(), field.as_str()) {
        Err(detail) => (Vec::new(), Err(ViewyardError::new(ErrorKind::InvalidJson { detail }).context(lit(parse_context)))),
        Ok(entries) => {
            let repos = repositories_from_listing(&entries, account, org, protocol, aliases);
            let mut ns: Vec<Notice> = Vec::new();
            if repos.len() >= 1000 {
                let mut w = match org {
                    Some(o) => {
                        let mut w = chars_of("        Warning: Found exactly 1000 repositories for organization '");
                        push_str(&mut w, o);
                        push_str(&mut w, "'. Some repositories may not be shown due to GitHub CLI limits.");
                        w
                    },
                    None => {
                        let mut w = chars_of("    Warning: Found exactly 1000 repositories for ");
                        push_str(&mut w, account);
                        push_str(&mut w, ". Some repositories may not be shown due to GitHub CLI limits.");
                        w
                    },
                };
                tell_chars(&mut ns, NoticeLevel::Warning, w);
            }
            assert(notice_views(ns@) =~= listed(json@, account@, opt_str(org), protocol, aliases@, parse_context@).0);
            (ns, Ok(repos))
        },
    }
}

impl GitHubService {
    /// `gh repo list --limit 1000 --json name,<url field>,isPrivate`, listing the current
    /// account's own repositories.
    pub fn user_repositories_command(protocol: GitProtocol) -> (res: Invocation)
        ensures
            res@ == gh_invocation_of(repo_list_args(None, protocol)),
    {
        let fields = json_fields_of(protocol);
        let f = fields.as_str();
        let r = gh_invocation(&["repo", "list", "--limit", "1000", "--json", f]);
        assert(str_views(seq!["repo", "list", "--limit", "1000", "--json", f]) =~= repo_list_args(None, protocol));
        r
    }

    /// `gh repo list <org> --limit 1000 --json name,<url field>,isPrivate`.
    pub fn organization_repositories_command(org: &str, protocol: GitProtocol) -> (res: Invocation)
        ensures
            res@ == gh_invocation_of(repo_list_args(Some(org@), protocol)),
    {
        let fields = json_fields_of(protocol);
        let f = fields.as_str();
        let r = gh_invocation(&["repo", "list", org, "--limit", "1000", "--json", f]);
        assert(str_views(seq!["repo", "list", org, "--limit", "1000", "--json", f]) =~= repo_list_args(Some(org@), protocol));
        r
    }

    /// The account's own repositories, from what `gh repo list` gave. A failed listing is
    /// explained (authentication, rate limit, network) and is an error.
    pub fn get_user_repositories(
        account: &str,
        protocol: GitProtocol,
        aliases: &SshHostAliases,
        outcome: &ProcessOutcome,
    ) -> (res: (Vec<Notice>, Result<Vec<Repository>, ViewyardError>))
        ensures
            listing_view(res) == user_repositories(account@, protocol, aliases@, *outcome),
    {
        match outcome {
            ProcessOutcome::SpawnFailed(c) => (Vec::new(), Err(io_failure(c, "Failed to get user repositories"))),
            ProcessOutcome::Finished(out) => {
                if !out.success {
                    let stderr = lossy_text(&out.stderr);
                    let f = classify_list_failure(&chars_of(stderr.as_str()));
                    let ns = list_failure_advice(f);
                    let kind = match f {
                        ListFailure::Authentication => ErrorKind::GhAuthFailed,
                        ListFailure::RateLimit => ErrorKind::GhRateLimited,
                        ListFailure::Network => ErrorKind::GhNetwork,
                        ListFailure::Other => ErrorKind::GhListFailed { account: lit(account), stderr },
                    };
                    (ns, Err(ViewyardError::new(kind)))
                } else {
                    let json = lossy_text(&out.stdout);
                    listed_of(&json, account, None, protocol, aliases, "Failed to parse user repositories JSON")
                }
            },
        }
    }

    /// The repositories of the organization `org`, from what `gh repo list <org>` gave. A
    /// failed listing is warned about and gives no repositories.
    pub fn get_repositories_for_organization(
        org: &str,
        account: &str,
        protocol: GitProtocol,
        aliases: &SshHostAliases,
        outcome: &ProcessOutcome,
    ) -> (res: (Vec<Notice>, Result<Vec<Repository>, ViewyardError>))
        ensures
            listing_view(res) == organization_repositories(org@, account@, protocol, aliases@, *outcome),
    {
        match outcome {
            ProcessOutcome::SpawnFailed(c) => (Vec::new(), Err(io_failure(c, "Failed to get organization repositories"))),
            ProcessOutcome::Finished(out) => {
                if !out.success {
                    let stderr = lossy_text(&out.stderr);
                    let mut w = chars_of("Warning: Failed to list repositories for organization '");
                    push_str(&mut w, org);
                    push_str(&mut w, "': ");
                    push_str(&mut w, stderr.as_str());
                    let mut ns: Vec<Notice> = Vec::new();
                    tell_chars(&mut ns, NoticeLevel::Stderr, w);
                    let v: Vec<Repository> = Vec::new();
                    assert(repo_views(v@) =~= seq![]);
                    (ns, Ok(v))
                } else {
                    let json = lossy_text(&out.stdout);
                    listed_of(&json, account, Some(org), protocol, aliases, "Failed to parse organization repositories JSON")
                }
            },
        }
    }
}

fn json_fields_of(protocol: GitProtocol) -> (res: String)
    ensures
        res@ == json_fields(protocol),
{
    let mut v = chars_of("name,");
    let f = url_field_of(protocol);
    push_str(&mut v, f.as_str());
    push_str(&mut v, ",isPrivate");
    string_of(&v)
}


// ---------------------------------------------------------------------------
// Accounts
// ---------------------------------------------------------------------------

pub open spec fn VERSION_ARGS() -> Seq<Seq<char>> {
    seq!["--version"@]
}

pub open spec fn AUTH_STATUS_ARGS() -> Seq<Seq<char>> {
    seq!["auth"@, "status"@]
}

pub open spec fn CURRENT_ACCOUNT_ARGS() -> Seq<Seq<char>> {
    seq!["api"@, "user"@, "--jq"@, ".login"@]
}

pub open spec fn ORGS_ARGS() -> Seq<Seq<char>> {
    seq!["api"@, "user/orgs"@, "--jq"@, ".[].login"@]
}

pub open spec fn switch_args(account: Seq<char>) -> Seq<Seq<char>> {
    seq!["auth"@, "switch"@, "--user"@, account]
}

pub open spec fn LOGGED_IN_MARK() -> Seq<char> {
    "✓ Logged in to github.com account"@
}

/// The account a line of `gh auth status` reports as logged in: the word after
/// `account `, when the line carries the logged-in mark and the word is not empty.
pub open spec fn logged_in_account(line: Seq<char>) -> Option<Seq<char>> {
    if !contains(line, LOGGED_IN_MARK()) {
        None
    } else {
        match second_piece(line, "account "@) {
            Some(part) => {
                let a = trim(first_piece(part, " "@));
                if a.len() > 0 {
                    Some(a)
                } else {
                    None
                }
            },
            None => None,
        }
    }
}

/// The logged-in accounts of the lines, in order.
pub open spec fn logged_in_accounts(ls: Seq<Seq<char>>) -> Seq<Seq<char>>
    decreases ls.len(),
{
    if ls.len() == 0 {
        seq![]
    } else {
        let rest = logged_in_accounts(ls.drop_last());
        match logged_in_account(ls.last()) {
            Some(a) => rest.push(a),
            None => rest,
        }
    }
}

/// What `get_available_accounts` gives once `gh auth status` ended with `o`.
pub open spec fn available_accounts(o: ProcessOutcome) -> Result<Seq<Seq<char>>, ViewyardErrorView> {
    match o {
        ProcessOutcome::SpawnFailed(c) => Err(io_error(c@, "Failed to get GitHub auth status"@)),
        ProcessOutcome::Finished(out) => if !out.success {
            Ok(seq![])
        } else {
            Ok(logged_in_accounts(lines(utf8_lossy(out.stdout@))))
        },
    }
}

/// What `get_current_account` gives once `gh api user --jq .login` ended with `o`.
pub open spec fn current_account(o: ProcessOutcome) -> Result<Seq<char>, ViewyardErrorView> {
    match o {
        ProcessOutcome::SpawnFailed(c) => Err(io_error(c@, "Failed to get current GitHub account"@)),
        ProcessOutcome::Finished(out) => if !out.success {
            Err(plain(ErrorKindView::GhCurrentAccountFailed))
        } else {
            Ok(trim(utf8_lossy(out.stdout@)))
        },
    }
}

/// What `switch_account` gives once `gh auth switch --user <account>` ended with `o`.
pub open spec fn switched(account: Seq<char>, o: ProcessOutcome) -> Result<(), ViewyardErrorView> {
    match o {
        ProcessOutcome::SpawnFailed(c) => Err(io_error(c@, "Failed to switch GitHub account"@)),
        ProcessOutcome::Finished(out) => if !out.success {
            Err(plain(ErrorKindView::GhSwitchFailed { account, stderr: utf8_lossy(out.stderr@) }))
        } else {
            Ok(())
        },
    }
}

/// The organizations named by `gh api user/orgs --jq .[].login`: its non-blank lines.
pub open spec fn org_lines(ls: Seq<Seq<char>>) -> Seq<Seq<char>>
    decreases ls.len(),
{
    if ls.len() == 0 {
        seq![]
    } else {
        let rest = org_lines(ls.drop_last());
        if is_blank(ls.last()) {
            rest
        } else {
            rest.push(ls.last())
        }
    }
}

/// The organizations the account belongs to, from what `gh api user/orgs` gave: none when
/// it failed.
pub open spec fn organizations(o: ProcessOutcome) -> Result<Seq<Seq<char>>, ViewyardErrorView> {
    match o {
        ProcessOutcome::SpawnFailed(c) => Err(io_error(c@, "Failed to get user organizations"@)),
        ProcessOutcome::Finished(out) => if !out.success {
            Ok(seq![])
        } else {
            Ok(org_lines(lines(utf8_lossy(out.stdout@))))
        },
    }
}

pub open spec fn strings_result_view(r: Result<Vec<String>, ViewyardError>) -> Result<Seq<Seq<char>>, ViewyardErrorView> {
    match r {
        Ok(v) => Ok(crate::error::string_views(v@)),
        Err(e) => Err(e@),
    }
}

fn accounts_of(text: &String) -> (res: Vec<String>)
    ensures
        crate::error::string_views(res@) == logged_in_accounts(lines(text@)),
{
    let ls = lines_of(&chars_of(text.as_str()));
    let mark = chars_of("✓ Logged in to github.com account");
    let key = chars_of("account ");
    let space = chars_of(" ");
    let mut out: Vec<String> = Vec::new();
    let mut i: usize = 0;
    while i < ls.len()
        invariant
            i <= ls.len(),
            views(ls@) == lines(text@),
            mark@ == LOGGED_IN_MARK(),
            key@ == "account "@,
            space@ == " "@,
            crate::error::string_views(out@) == logged_in_accounts(views(ls@).take(i as int)),
        decreases ls.len() - i,
    {
        proof {
            assert(views(ls@).take(i + 1).drop_last() =~= views(ls@).take(i as int));
            assert(views(ls@).take(i + 1).last() == ls@[i as int]@);
        }
        let line = &ls[i];
        if contains_chars(line, &mark) {
            match second_piece_chars(line, &key) {
                Some(part) => {
                    let a = trim_chars(&crate::text::first_piece_chars(&part, &space));
                    if a.len() > 0 {
                        let s = string_of(&a);
                        proof {
                            assert(crate::error::string_views(out@.push(s)) =~= crate::error::string_views(out@).push(s@));
                        }
                        out.push(s);
                    }
                },
                None => {},
            }
        }
        i = i + 1;
    }
    assert(views(ls@).take(i as int) =~= views(ls@));
    out
}

fn orgs_of(text: &String) -> (res: Vec<String>)
    ensures
        crate::error::string_views(res@) == org_lines(lines(text@)),
{
    let ls = lines_of(&chars_of(text.as_str()));
    let mut out: Vec<String> = Vec::new();
    let mut i: usize = 0;
    while i < ls.len()
        invariant
            i <= ls.len(),
            views(ls@) == lines(text@),
            crate::error::string_views(out@) == org_lines(views(ls@).take(i as int)),
        decreases ls.len() - i,
    {
        proof {
            assert(views(ls@).take(i + 1).drop_last() =~= views(ls@).take(i as int));
            assert(views(ls@).take(i + 1).last() == ls@[i as int]@);
        }
        if !is_blank_chars(&ls[i]) {
            let s = string_of(&ls[i]);
            proof {
                assert(crate::error::string_views(out@.push(s)) =~= crate::error::string_views(out@).push(s@));
            }
            out.push(s);
        }
        i = i + 1;
    }
    assert(views(ls@).take(i as int) =~= views(ls@));
    out
}

impl GitHubService {
    /// `gh --version`.
    pub fn version_command() -> (res: Invocation)
        ensures
            res@ == gh_invocation_of(VERSION_ARGS()),
    {
        let a: [&str; 1] = ["--version"];
        let r = gh_invocation(&a);
        assert(a@ =~= seq!["--version"]);
        assert(str_views(seq!["--version"]) =~= VERSION_ARGS());
        r
    }

    /// `gh auth status`.
    pub fn auth_status_command() -> (res: Invocation)
        ensures
            res@ == gh_invocation_of(AUTH_STATUS_ARGS()),
    {
        let r = gh_invocation(&["auth", "status"]);
        assert(str_views(seq!["auth", "status"]) =~= AUTH_STATUS_ARGS());
        r
    }

    /// `gh api user --jq .login`.
    pub fn current_account_command() -> (res: Invocation)
        ensures
            res@ == gh_invocation_of(CURRENT_ACCOUNT_ARGS()),
    {
        let r = gh_invocation(&["api", "user", "--jq", ".login"]);
        assert(str_views(seq!["api", "user", "--jq", ".login"]) =~= CURRENT_ACCOUNT_ARGS());
        r
    }

    /// `gh api user/orgs --jq .[].login`.
    pub fn organizations_command() -> (res: Invocation)
        ensures
            res@ == gh_invocation_of(ORGS_ARGS()),
    {
        let r = gh_invocation(&["api", "user/orgs", "--jq", ".[].login"]);
        assert(str_views(seq!["api", "user/orgs", "--jq", ".[].login"]) =~= ORGS_ARGS());
        r
    }

    /// `gh auth switch --user <account>`.
    pub fn switch_command(account: &str) -> (res: Invocation)
        ensures
            res@ == gh_invocation_of(switch_args(account@)),
    {
        let r = gh_invocation(&["auth", "switch", "--user", account]);
        assert(str_views(seq!["auth", "switch", "--user", account]) =~= switch_args(account@));
        r
    }

    /// The accounts `gh auth status` reports as logged in; none when it failed.
    pub fn get_available_accounts(outcome: &ProcessOutcome) -> (res: Result<Vec<String>, ViewyardError>)
        ensures
            strings_result_view(res) == available_accounts(*outcome),
    {
        match outcome {
            ProcessOutcome::SpawnFailed(c) => Err(io_failure(c, "Failed to get GitHub auth status")),
            ProcessOutcome::Finished(out) => {
                if !out.success {
                    let v: Vec<String> = Vec::new();
                    assert(crate::error::string_views(v@) =~= seq![]);
                    Ok(v)
                } else {
                    Ok(accounts_of(&lossy_text(&out.stdout)))
                }
            },
        }
    }

    /// The account the GitHub CLI is using, from `gh api user --jq .login`.
    pub fn get_current_account(outcome: &ProcessOutcome) -> (res: Result<String, ViewyardError>)
        ensures
            crate::command::text_result_view(res) == current_account(*outcome),
    {
        match outcome {
            ProcessOutcome::SpawnFailed(c) => Err(io_failure(c, "Failed to get current GitHub account")),
            ProcessOutcome::Finished(out) => {
                if !out.success {
                    Err(ViewyardError::new(ErrorKind::GhCurrentAccountFailed))
                } else {
                    let t = lossy_text(&out.stdout);
                    Ok(string_of(&trim_chars(&chars_of(t.as_str()))))
                }
            },
        }
    }

    /// Whether `gh auth switch --user <account>` succeeded.
    pub fn switch_account(account: &str, outcome: &ProcessOutcome) -> (res: Result<(), ViewyardError>)
        ensures
            crate::command::unit_result_view(res) == switched(account@, *outcome),
    {
        match outcome {
            ProcessOutcome::SpawnFailed(c) => Err(io_failure(c, "Failed to switch GitHub account")),
            ProcessOutcome::Finished(out) => {
                if !out.success {
                    Err(ViewyardError::new(ErrorKind::GhSwitchFailed { account: lit(account), stderr: lossy_text(&out.stderr) }))
                } else {
                    Ok(())
                }
            },
        }
    }

    /// The organizations named by `gh api user/orgs --jq .[].login`; none when it failed.
    pub fn get_organizations(outcome: &ProcessOutcome) -> (res: Result<Vec<String>, ViewyardError>)
        ensures
            strings_result_view(res) == organizations(*outcome),
    {
        match outcome {
            ProcessOutcome::SpawnFailed(c) => Err(io_failure(c, "Failed to get user organizations")),
            ProcessOutcome::Finished(out) => {
                if !out.success {
                    let v: Vec<String> = Vec::new();
                    assert(crate::error::string_views(v@) =~= seq![]);
                    Ok(v)
                } else {
                    Ok(orgs_of(&lossy_text(&out.stdout)))
                }
            },
        }
    }
}

// ---------------------------------------------------------------------------
// Availability of the GitHub CLI
// ---------------------------------------------------------------------------

/// Where the availability check stands: asking `gh --version`, then `gh auth status`.
#[derive(Debug, Clone, Copy, PartialEq, Eq, Structural)]
pub enum AvailabilityCheck {
    Version,
    Authentication,
}

pub open spec fn availability_command(s: AvailabilityCheck) -> InvocationView {
    match s {
        AvailabilityCheck::Version => gh_invocation_of(VERSION_ARGS()),
        AvailabilityCheck::Authentication => gh_invocation_of(AUTH_STATUS_ARGS()),
    }
}

/// The GitHub CLI is available when `gh --version` and `gh auth status` both succeed.
pub open spec fn availability_next(s: AvailabilityCheck, o: ProcessOutcome) -> Option<Result<bool, ViewyardErrorView>> {
    match s {
        AvailabilityCheck::Version => match o {
            ProcessOutcome::SpawnFailed(c) => Some(Err(io_error(c@, "Failed to check if gh CLI is installed"@))),
            ProcessOutcome::Finished(out) => if !out.success {
                Some(Ok(false))
            } else {
                None
            },
        },
        AvailabilityCheck::Authentication => match o {
            ProcessOutcome::SpawnFailed(c) => Some(Err(io_error(c@, "Failed to check gh CLI authentication status"@))),
            ProcessOutcome::Finished(out) => Some(Ok(out.success)),
        },
    }
}

impl GitHubService {
    /// Starts checking that the GitHub CLI is installed and authenticated.
    pub fn check_availability() -> (res: (Invocation, AvailabilityCheck))
        ensures
            res.1 == AvailabilityCheck::Version,
            res.0@ == availability_command(AvailabilityCheck::Version),
    {
        (GitHubService::version_command(), AvailabilityCheck::Version)
    }
}

impl AvailabilityCheck {
    /// The check's next step once its command gave `outcome`: `None` asks for
    /// `gh auth status` next.
    pub fn resume(self, outcome: &ProcessOutcome) -> (res: Step<AvailabilityCheck, Result<bool, ViewyardError>>)
        ensures
            match availability_next(self, *outcome) {
                Some(r) => res matches Step::Done(ns, x) && ns@.len() == 0 && crate::command::bool_result_view(x) == r,
                None => res matches Step::Ask(ns, req, s) && ns@.len() == 0 && s == AvailabilityCheck::Authentication
                    && req@ == RequestView::Run(availability_command(AvailabilityCheck::Authentication)),
            },
    {
        match self {
            AvailabilityCheck::Version => match outcome {
                ProcessOutcome::SpawnFailed(c) => Step::Done(Vec::new(), Err(io_failure(c, "Failed to check if gh CLI is installed"))),
                ProcessOutcome::Finished(out) => {
                    if !out.success {
                        Step::Done(Vec::new(), Ok(false))
                    } else {
                        Step::Ask(Vec::new(), Request::Run(GitHubService::auth_status_command()), AvailabilityCheck::Authentication)
                    }
                },
            },
            AvailabilityCheck::Authentication => match outcome {
                ProcessOutcome::SpawnFailed(c) => Step::Done(Vec::new(), Err(io_failure(c, "Failed to check gh CLI authentication status"))),
                ProcessOutcome::Finished(out) => Step::Done(Vec::new(), Ok(out.success)),
            },
        }
    }
}


// ---------------------------------------------------------------------------
// Discovering the repositories of one account
// ---------------------------------------------------------------------------

/// Where the discovery of an account's repositories stands.
#[derive(Debug, Clone, Copy, PartialEq, Eq, Structural)]
pub enum DiscoveryStage {
    /// Switching the GitHub CLI to the account.
    Switch,
    /// Listing the account's own repositories.
    UserRepositories,
    /// Listing the organizations the account belongs to.
    Organizations,
    /// Listing the repositories of the organization at this index.
    OrganizationRepositories(usize),
}

/// The discovery of the repositories an account can see: its own, then those of each of
/// its organizations.
#[derive(Debug)]
pub struct AccountDiscovery {
    pub account: String,
    pub protocol: GitProtocol,
    pub aliases: SshHostAliases,
    pub stage: DiscoveryStage,
    pub orgs: Vec<String>,
    pub repos: Vec<Repository>,
    /// How many of `repos` are the account's own.
    pub personal: usize,
}

pub struct AccountDiscoveryView {
    pub account: Seq<char>,
    pub protocol: GitProtocol,
    pub aliases: Map<Seq<char>, Seq<char>>,
    pub stage: DiscoveryStage,
    pub orgs: Seq<Seq<char>>,
    pub repos: Seq<RepositoryView>,
    pub personal: nat,
}

impl View for AccountDiscovery {
    type V = AccountDiscoveryView;

    open spec fn view(&self) -> AccountDiscoveryView {
        AccountDiscoveryView {
            account: self.account@,
            protocol: self.protocol,
            aliases: self.aliases@,
            stage: self.stage,
            orgs: crate::error::string_views(self.orgs@),
            repos: repo_views(self.repos@),
            personal: self.personal as nat,
        }
    }
}

pub open spec fn discovery_wf(v: AccountDiscoveryView) -> bool {
    &&& v.personal <= v.repos.len()
    &&& (v.stage matches DiscoveryStage::OrganizationRepositories(i) ==> i < v.orgs.len())
}

impl AccountDiscovery {
    pub open spec fn wf(&self) -> bool {
        discovery_wf(self@)
    }
}

/// The command each stage runs.
pub open spec fn discovery_command(v: AccountDiscoveryView) -> InvocationView {
    match v.stage {
        DiscoveryStage::Switch => gh_invocation_of(switch_args(v.account)),
        DiscoveryStage::UserRepositories => gh_invocation_of(repo_list_args(None, v.protocol)),
        DiscoveryStage::Organizations => gh_invocation_of(ORGS_ARGS()),
        DiscoveryStage::OrganizationRepositories(i) => gh_invocation_of(repo_list_args(Some(v.orgs[i as int]), v.protocol)),
    }
}

pub open spec fn switching_text(account: Seq<char>) -> Seq<char> {
    "  Switching to account: "@ + account
}

pub open spec fn fetching_personal_text(account: Seq<char>) -> Seq<char> {
    "  Fetching personal repositories for "@ + account
}

pub open spec fn found_personal_text(n: nat) -> Seq<char> {
    "    Found "@ + decimal(n) + " personal repositories"@
}

pub open spec fn fetching_orgs_text(account: Seq<char>) -> Seq<char> {
    "  Fetching organization repositories for "@ + account
}

pub open spec fn orgs_to_check_text(k: nat) -> Seq<char> {
    "    Found "@ + decimal(k) + " organizations to check"@
}

pub open spec fn checking_org_text(org: Seq<char>, position: nat, k: nat) -> Seq<char> {
    "    Checking organization "@ + org + " ("@ + decimal(position) + "/"@ + decimal(k) + ")"@
}

pub open spec fn found_in_org_text(n: nat, org: Seq<char>) -> Seq<char> {
    "      Found "@ + decimal(n) + " repositories in "@ + org
}

pub open spec fn found_org_total_text(n: nat) -> Seq<char> {
    "    Found "@ + decimal(n) + " organization repositories"@
}

pub open spec fn account_total_text(account: Seq<char>, n: nat) -> Seq<char> {
    "  Total repositories for "@ + account + ": "@ + decimal(n)
}

pub enum DiscoveryNext {
    Continue(AccountDiscoveryView),
    Finished(Result<Seq<RepositoryView>, ViewyardErrorView>),
}

pub open spec fn with_stage(v: AccountDiscoveryView, stage: DiscoveryStage) -> AccountDiscoveryView {
    AccountDiscoveryView { stage, ..v }
}

/// The end of a discovery: the count of organization repositories and the total.
pub open spec fn finish_discovery(v: AccountDiscoveryView, ns: Seq<NoticeView>) -> (Seq<NoticeView>, DiscoveryNext) {
    (
        ns + seq![
            info(found_org_total_text((v.repos.len() - v.personal) as nat)),
            info(account_total_text(v.account, v.repos.len())),
        ],
        DiscoveryNext::Finished(Ok(v.repos)),
    )
}

/// The discovery's notices and next move once the current stage's command gave `o`. Any
/// error ends the discovery.
pub open spec fn discovery_next(v: AccountDiscoveryView, o: ProcessOutcome) -> (Seq<NoticeView>, DiscoveryNext) {
    match v.stage {
        DiscoveryStage::Switch => match switched(v.account, o) {
            Err(e) => (seq![], DiscoveryNext::Finished(Err(e))),
            Ok(_) => (
                seq![info(fetching_personal_text(v.account))],
                DiscoveryNext::Continue(with_stage(v, DiscoveryStage::UserRepositories)),
            ),
        },
        DiscoveryStage::UserRepositories => {
            let (ns, r) = user_repositories(v.account, v.protocol, v.aliases, o);
            match r {
                Err(e) => (ns, DiscoveryNext::Finished(Err(e))),
                Ok(rs) => (
                    ns + seq![info(found_personal_text(rs.len())), info(fetching_orgs_text(v.account))],
                    DiscoveryNext::Continue(
                        AccountDiscoveryView { stage: DiscoveryStage::Organizations, repos: rs, personal: rs.len(), ..v },
                    ),
                ),
            }
        },
        DiscoveryStage::Organizations => match organizations(o) {
            Err(e) => (seq![], DiscoveryNext::Finished(Err(e))),
            Ok(orgs) => if orgs.len() == 0 {
                finish_discovery(AccountDiscoveryView { orgs, ..v }, seq![])
            } else {
                (
                    seq![info(orgs_to_check_text(orgs.len())), info(checking_org_text(orgs[0], 1, orgs.len()))],
                    DiscoveryNext::Continue(
                        AccountDiscoveryView { stage: DiscoveryStage::OrganizationRepositories(0), orgs, ..v },
                    ),
                )
            },
        },
        DiscoveryStage::OrganizationRepositories(i) => {
            let org = v.orgs[i as int];
            let (ns, r) = organization_repositories(org, v.account, v.protocol, v.aliases, o);
            match r {
                Err(e) => (ns, DiscoveryNext::Finished(Err(e))),
                Ok(rs) => {
                    let ns2 = ns.push(info(found_in_org_text(rs.len(), org)));
                    let v2 = AccountDiscoveryView { repos: v.repos + rs, ..v };
                    if i + 1 < v.orgs.len() {
                        (
                            ns2.push(info(checking_org_text(v.orgs[i + 1], (i + 2) as nat, v.orgs.len()))),
                            DiscoveryNext::Continue(with_stage(v2, DiscoveryStage::OrganizationRepositories((i + 1) as usize))),
                        )
                    } else {
                        finish_discovery(v2, ns2)
                    }
                },
            }
        },
    }
}

/// Whether `step` is the exec form of the notices and move `next`.
pub open spec fn discovery_step_is(step: Step<AccountDiscovery, Result<Vec<Repository>, ViewyardError>>, next: (Seq<NoticeView>, DiscoveryNext)) -> bool {
    match next.1 {
        DiscoveryNext::Continue(v) => step matches Step::Ask(ns, req, s) && notice_views(ns@) == next.0 && s@ == v && s.wf()
            && req@ == RequestView::Run(discovery_command(v)),
        DiscoveryNext::Finished(r) => step matches Step::Done(ns, x) && notice_views(ns@) == next.0 && repos_result_view(x) == r,
    }
}

pub open spec fn initial_discovery(account: Seq<char>, protocol: GitProtocol, aliases: Map<Seq<char>, Seq<char>>) -> AccountDiscoveryView {
    AccountDiscoveryView {
        account,
        protocol,
        aliases,
        stage: DiscoveryStage::Switch,
        orgs: seq![],
        repos: seq![],
        personal: 0,
    }
}

fn text_with_number(before: &str, n: usize, after: &str) -> (res: Vec<char>)
    ensures
        res@ == before@ + decimal(n as nat) + after@,
{
    let mut t = chars_of(before);
    push_all(&mut t, &decimal_chars(n as u64));
    push_str(&mut t, after);
    t
}

fn text_ending_with(before: &str, name: &str) -> (res: Vec<char>)
    ensures
        res@ == before@ + name@,
{
    let mut t = chars_of(before);
    push_str(&mut t, name);
    t
}

fn text_with_name(before: &str, name: &str, after: &str) -> (res: Vec<char>)
    ensures
        res@ == before@ + name@ + after@,
{
    let mut t = chars_of(before);
    push_str(&mut t, name);
    push_str(&mut t, after);
    t
}

fn checking_org_of(org: &str, position: usize, k: usize) -> (res: Vec<char>)
    ensures
        res@ == checking_org_text(org@, position as nat, k as nat),
{
    let mut t = chars_of("    Checking organization ");
    push_str(&mut t, org);
    push_str(&mut t, " (");
    push_all(&mut t, &decimal_chars(position as u64));
    push_str(&mut t, "/");
    push_all(&mut t, &decimal_chars(k as u64));
    push_str(&mut t, ")");
    t
}

impl GitHubService {
    /// Starts discovering the repositories of `account`: switches the GitHub CLI to it,
    /// lists its own repositories, then those of each organization it belongs to.
    pub fn discover_repositories_from_account(account: &str, protocol: GitProtocol, aliases: SshHostAliases) -> (res: Step<
        AccountDiscovery,
        Result<Vec<Repository>, ViewyardError>,
    >)
        ensures
            res matches Step::Ask(ns, req, s) && s@ == initial_discovery(account@, protocol, aliases@) && s.wf()
                && notice_views(ns@) == seq![info(switching_text(account@))]
                && req@ == RequestView::Run(discovery_command(s@)),
    {
        let d = AccountDiscovery {
            account: lit(account),
            protocol,
            aliases,
            stage: DiscoveryStage::Switch,
            orgs: Vec::new(),
            repos: Vec::new(),
            personal: 0,
        };
        assert(crate::error::string_views(d.orgs@) =~= seq![]);
        assert(repo_views(d.repos@) =~= seq![]);
        let mut ns: Vec<Notice> = Vec::new();
        tell_chars(&mut ns, NoticeLevel::Info, text_ending_with("  Switching to account: ", account));
        assert(notice_views(ns@) =~= seq![info(switching_text(account@))]);
        let inv = d.command();
        Step::Ask(ns, Request::Run(inv), d)
    }
}

impl AccountDiscovery {
    /// The command the current stage runs.
    pub fn command(&self) -> (res: Invocation)
        requires
            self.wf(),
        ensures
            res@ == discovery_command(self@),
    {
        match self.stage {
            DiscoveryStage::Switch => GitHubService::switch_command(self.account.as_str()),
            DiscoveryStage::UserRepositories => GitHubService::user_repositories_command(self.protocol),
            DiscoveryStage::Organizations => GitHubService::organizations_command(),
            DiscoveryStage::OrganizationRepositories(i) => GitHubService::organization_repositories_command(self.orgs[i].as_str(), self.protocol),
        }
    }

    fn ask(self, ns: Vec<Notice>) -> (res: Step<AccountDiscovery, Result<Vec<Repository>, ViewyardError>>)
        requires
            self.wf(),
        ensures
            res matches Step::Ask(ns2, req, s) && ns2@ == ns@ && s@ == self@ && s.wf() && req@ == RequestView::Run(discovery_command(self@)),
    {
        let inv = self.command();
        Step::Ask(ns, Request::Run(inv), self)
    }

    fn finish(self, ns: Vec<Notice>) -> (res: Step<AccountDiscovery, Result<Vec<Repository>, ViewyardError>>)
        requires
            self.wf(),
        ensures
            discovery_step_is(res, finish_discovery(self@, notice_views(ns@))),
    {
        let ghost ns0 = notice_views(ns@);
        let mut ns = ns;
        let org_count = self.repos.len() - self.personal;
        tell_chars(&mut ns, NoticeLevel::Info, text_with_number("    Found ", org_count, " organization repositories"));
        let mut t = text_with_name("  Total repositories for ", self.account.as_str(), ": ");
        push_all(&mut t, &decimal_chars(self.repos.len() as u64));
        tell_chars(&mut ns, NoticeLevel::Info, t);
        proof {
            let next = finish_discovery(self@, ns0);
            assert(notice_views(ns@) =~= next.0);
        }
        Step::Done(ns, Ok(self.repos))
    }

    /// The discovery's next step once the current stage's command gave `outcome`.
    pub fn resume(self, outcome: &ProcessOutcome) -> (res: Step<AccountDiscovery, Result<Vec<Repository>, ViewyardError>>)
        requires
            self.wf(),
        ensures
            discovery_step_is(res, discovery_next(self@, *outcome)),
    {
        let mut d = self;
        match d.stage {
            DiscoveryStage::Switch => match GitHubService::switch_account(d.account.as_str(), outcome) {
                Err(e) => Step::Done(quiet(), Err(e)),
                Ok(()) => {
                    let mut ns: Vec<Notice> = Vec::new();
                    tell_chars(&mut ns, NoticeLevel::Info, text_ending_with("  Fetching personal repositories for ", d.account.as_str()));
                    d.stage = DiscoveryStage::UserRepositories;
                    assert(notice_views(ns@) =~= discovery_next(self@, *outcome).0);
                    d.ask(ns)
                },
            },
            DiscoveryStage::UserRepositories => {
                let (mut ns, r) = GitHubService::get_user_repositories(d.account.as_str(), d.protocol, &d.aliases, outcome);
                match r {
                    Err(e) => Step::Done(ns, Err(e)),
                    Ok(rs) => {
                        let ghost ns0 = notice_views(ns@);
                        tell_chars(&mut ns, NoticeLevel::Info, text_with_number("    Found ", rs.len(), " personal repositories"));
                        tell_chars(&mut ns, NoticeLevel::Info, text_ending_with("  Fetching organization repositories for ", d.account.as_str()));
                        d.personal = rs.len();
                        d.repos = rs;
                        d.stage = DiscoveryStage::Organizations;
                        assert(notice_views(ns@) =~= discovery_next(self@, *outcome).0);
                        d.ask(ns)
                    },
                }
            },
            DiscoveryStage::Organizations => match GitHubService::get_organizations(outcome) {
                Err(e) => Step::Done(quiet(), Err(e)),
                Ok(orgs) => {
                    d.orgs = orgs;
                    if d.orgs.len() == 0 {
                        let none: Vec<Notice> = Vec::new();
                        assert(notice_views(none@) =~= seq![]);
                        d.finish(none)
                    } else {
                        let mut ns: Vec<Notice> = Vec::new();
                        tell_chars(&mut ns, NoticeLevel::Info, text_with_number("    Found ", d.orgs.len(), " organizations to check"));
                        tell_chars(&mut ns, NoticeLevel::Info, checking_org_of(d.orgs[0].as_str(), 1, d.orgs.len()));
                        d.stage = DiscoveryStage::OrganizationRepositories(0);
                        assert(notice_views(ns@) =~= discovery_next(self@, *outcome).0);
                        d.ask(ns)
                    }
                },
            },
            DiscoveryStage::OrganizationRepositories(i) => {
                assert(i < d.orgs.len());
                let (mut ns, r) = GitHubService::get_repositories_for_organization(
                    d.orgs[i].as_str(), d.account.as_str(), d.protocol, &d.aliases, outcome);
                match r {
                    Err(e) => Step::Done(ns, Err(e)),
                    Ok(rs) => {
                        let mut rs = rs;
                        let ghost before = d.repos@;
                        let ghost added = rs@;
                        let ghost ns0 = notice_views(ns@);
                        let mut t = text_with_number("      Found ", rs.len(), " repositories in ");
                        push_str(&mut t, d.orgs[i].as_str());
                        tell_chars(&mut ns, NoticeLevel::Info, t);
                        d.repos.append(&mut rs);
                        proof {
                            assert(repo_views(d.repos@) =~= repo_views(before) + repo_views(added));
                        }
                        if i + 1 < d.orgs.len() {
                            tell_chars(&mut ns, NoticeLevel::Info, checking_org_of(d.orgs[i + 1].as_str(), i + 2, d.orgs.len()));
                            d.stage = DiscoveryStage::OrganizationRepositories(i + 1);
                            assert(notice_views(ns@) =~= discovery_next(self@, *outcome).0);
                            d.ask(ns)
                        } else {
                            d.finish(ns)
                        }
                    },
                }
            },
        }
    }
}


// ---------------------------------------------------------------------------
// Discovering the repositories of every account
// ---------------------------------------------------------------------------

/// Where the discovery over all accounts stands.
#[derive(Debug, Clone, Copy, PartialEq, Eq, Structural)]
pub enum AllDiscoveryStage {
    /// Asking `gh auth status` for the logged-in accounts.
    Accounts,
    /// Asking which account is current, to restore it at the end.
    Current,
    /// Discovering the repositories of the account at `index`.
    Account,
    /// Switching back to the account that was current.
    Restore,
}

/// The discovery of the repositories of every logged-in account. A failure for one
/// account is warned about and the others go on; the account that was current is
/// restored at the end.
#[derive(Debug)]
pub struct AllDiscovery {
    pub protocol: GitProtocol,
    pub aliases: SshHostAliases,
    pub stage: AllDiscoveryStage,
    pub accounts: Vec<String>,
    pub initial_account: Option<String>,
    pub index: usize,
    pub inner: Option<AccountDiscovery>,
    pub all: Vec<Repository>,
}

pub struct AllDiscoveryView {
    pub protocol: GitProtocol,
    pub aliases: Map<Seq<char>, Seq<char>>,
    pub stage: AllDiscoveryStage,
    pub accounts: Seq<Seq<char>>,
    pub initial_account: Option<Seq<char>>,
    pub index: nat,
    pub inner: Option<AccountDiscoveryView>,
    pub all: Seq<RepositoryView>,
}

impl View for AllDiscovery {
    type V = AllDiscoveryView;

    open spec fn view(&self) -> AllDiscoveryView {
        AllDiscoveryView {
            protocol: self.protocol,
            aliases: self.aliases@,
            stage: self.stage,
            accounts: crate::error::string_views(self.accounts@),
            initial_account: opt_view(self.initial_account),
            index: self.index as nat,
            inner: match self.inner {
                Some(d) => Some(d@),
                None => None,
            },
            all: repo_views(self.all@),
        }
    }
}

pub open spec fn all_discovery_wf(v: AllDiscoveryView) -> bool {
    &&& v.stage == AllDiscoveryStage::Restore ==> v.initial_account is Some
    &&& v.stage == AllDiscoveryStage::Account ==> {
        &&& v.index < v.accounts.len()
        &&& v.inner is Some
        &&& discovery_wf(v.inner->0)
    }
}

impl AllDiscovery {
    pub open spec fn wf(&self) -> bool {
        all_discovery_wf(self@)
    }
}

pub open spec fn all_discovery_command(v: AllDiscoveryView) -> InvocationView {
    match v.stage {
        AllDiscoveryStage::Accounts => gh_invocation_of(AUTH_STATUS_ARGS()),
        AllDiscoveryStage::Current => gh_invocation_of(CURRENT_ACCOUNT_ARGS()),
        AllDiscoveryStage::Account => discovery_command(v.inner->0),
        AllDiscoveryStage::Restore => gh_invocation_of(switch_args(v.initial_account->0)),
    }
}

pub enum AllDiscoveryNext {
    Continue(AllDiscoveryView),
    Finished(Result<Seq<RepositoryView>, ViewyardErrorView>),
}

pub open spec fn account_failure_text(account: Seq<char>, e: ViewyardErrorView) -> Seq<char> {
    "Warning: Failed to discover repositories from account '"@ + account + "': "@ + crate::error::error_message(e)
}

/// After the accounts before `j` are done: the discovery of account `j`, or, when none is
/// left, the switch back to the account that was current (when it is one of them).
pub open spec fn next_account(v: AllDiscoveryView, j: nat, ns: Seq<NoticeView>) -> (Seq<NoticeView>, AllDiscoveryNext) {
    if j < v.accounts.len() {
        (
            ns.push(info(switching_text(v.accounts[j as int]))),
            AllDiscoveryNext::Continue(
                AllDiscoveryView {
                    stage: AllDiscoveryStage::Account,
                    index: j,
                    inner: Some(initial_discovery(v.accounts[j as int], v.protocol, v.aliases)),
                    ..v
                },
            ),
        )
    } else {
        match v.initial_account {
            Some(o) => if v.accounts.contains(o) {
                (ns, AllDiscoveryNext::Continue(AllDiscoveryView { stage: AllDiscoveryStage::Restore, inner: None, ..v }))
            } else {
                (ns, AllDiscoveryNext::Finished(Ok(v.all)))
            },
            None => (ns, AllDiscoveryNext::Finished(Ok(v.all))),
        }
    }
}

/// The discovery's notices and next move once the current command gave `o`.
pub open spec fn all_discovery_next(v: AllDiscoveryView, o: ProcessOutcome) -> (Seq<NoticeView>, AllDiscoveryNext) {
    match v.stage {
        AllDiscoveryStage::Accounts => match available_accounts(o) {
            Err(e) => (seq![], AllDiscoveryNext::Finished(Err(e))),
            Ok(accounts) => if accounts.len() == 0 {
                (seq![], AllDiscoveryNext::Finished(Err(plain(ErrorKindView::NoGitHubAccounts))))
            } else {
                (seq![], AllDiscoveryNext::Continue(AllDiscoveryView { stage: AllDiscoveryStage::Current, accounts, ..v }))
            },
        },
        AllDiscoveryStage::Current => {
            let initial_account = match current_account(o) {
                Ok(a) => Some(a),
                Err(_) => None,
            };
            next_account(AllDiscoveryView { initial_account, ..v }, 0, seq![])
        },
        AllDiscoveryStage::Account => {
            let d = v.inner->0;
            let (ns, nx) = discovery_next(d, o);
            match nx {
                DiscoveryNext::Continue(d2) => (ns, AllDiscoveryNext::Continue(AllDiscoveryView { inner: Some(d2), ..v })),
                DiscoveryNext::Finished(Ok(rs)) => next_account(AllDiscoveryView { all: v.all + rs, ..v }, v.index + 1, ns),
                DiscoveryNext::Finished(Err(e)) => next_account(
                    v,
                    v.index + 1,
                    ns.push(notice(NoticeLevel::Stderr, account_failure_text(v.accounts[v.index as int], e))),
                ),
            }
        },
        AllDiscoveryStage::Restore => (seq![], AllDiscoveryNext::Finished(Ok(v.all))),
    }
}

pub open spec fn all_discovery_step_is(step: Step<AllDiscovery, Result<Vec<Repository>, ViewyardError>>, next: (Seq<NoticeView>, AllDiscoveryNext)) -> bool {
    match next.1 {
        AllDiscoveryNext::Continue(v) => step matches Step::Ask(ns, req, s) && notice_views(ns@) == next.0 && s@ == v && s.wf()
            && req@ == RequestView::Run(all_discovery_command(v)),
        AllDiscoveryNext::Finished(r) => step matches Step::Done(ns, x) && notice_views(ns@) == next.0 && repos_result_view(x) == r,
    }
}

pub open spec fn initial_all_discovery(protocol: GitProtocol, aliases: Map<Seq<char>, Seq<char>>) -> AllDiscoveryView {
    AllDiscoveryView {
        protocol,
        aliases,
        stage: AllDiscoveryStage::Accounts,
        accounts: seq![],
        initial_account: None,
        index: 0,
        inner: None,
        all: seq![],
    }
}

fn contains_string(v: &Vec<String>, s: &String) -> (res: bool)
    ensures
        res == crate::error::string_views(v@).contains(s@),
{
    let t = chars_of(s.as_str());
    let mut i: usize = 0;
    while i < v.len()
        invariant
            i <= v.len(),
            t@ == s@,
            forall|j: int| 0 <= j < i ==> crate::error::string_views(v@)[j] != s@,
        decreases v.len() - i,
    {
        if crate::text::chars_eq(&chars_of(v[i].as_str()), &t) {
            assert(crate::error::string_views(v@)[i as int] == s@);
            return true;
        }
        i = i + 1;
    }
    false
}

impl GitHubService {
    /// Starts discovering the repositories of every logged-in account: asks
    /// `gh auth status` first.
    pub fn discover_all_repositories(protocol: GitProtocol, aliases: SshHostAliases) -> (res: Step<
        AllDiscovery,
        Result<Vec<Repository>, ViewyardError>,
    >)
        ensures
            res matches Step::Ask(ns, req, s) && s@ == initial_all_discovery(protocol, aliases@) && s.wf()
                && notice_views(ns@) == Seq::<NoticeView>::empty()
                && req@ == RequestView::Run(all_discovery_command(s@)),
    {
        let d = AllDiscovery {
            protocol,
            aliases,
            stage: AllDiscoveryStage::Accounts,
            accounts: Vec::new(),
            initial_account: None,
            index: 0,
            inner: None,
            all: Vec::new(),
        };
        assert(crate::error::string_views(d.accounts@) =~= seq![]);
        assert(repo_views(d.all@) =~= seq![]);
        Step::Ask(quiet(), Request::Run(GitHubService::auth_status_command()), d)
    }
}

impl AllDiscovery {
    /// The command the current stage runs.
    pub fn command(&self) -> (res: Invocation)
        requires
            self.wf(),
            self.stage == AllDiscoveryStage::Restore ==> self.initial_account is Some,
        ensures
            res@ == all_discovery_command(self@),
    {
        match self.stage {
            AllDiscoveryStage::Accounts => GitHubService::auth_status_command(),
            AllDiscoveryStage::Current => GitHubService::current_account_command(),
            AllDiscoveryStage::Account => match &self.inner {
                Some(d) => d.command(),
                None => GitHubService::auth_status_command(),
            },
            AllDiscoveryStage::Restore => match &self.initial_account {
                Some(o) => GitHubService::switch_command(o.as_str()),
                None => GitHubService::auth_status_command(),
            },
        }
    }

    /// Moves on to the account at `j`, or to the end.
    fn next_account(self, j: usize, ns: Vec<Notice>) -> (res: Step<AllDiscovery, Result<Vec<Repository>, ViewyardError>>)
        requires
            j <= self.accounts.len(),
        ensures
            all_discovery_step_is(res, next_account(self@, j as nat, notice_views(ns@))),
    {
        let mut a = self;
        let mut ns = ns;
        if j < a.accounts.len() {
            let (first, d) = match GitHubService::discover_repositories_from_account(a.accounts[j].as_str(), a.protocol, a.aliases.duplicate()) {
                Step::Ask(first, _, d) => (first, d),
                Step::Done(first, _) => {
                    assert(false);
                    return Step::Done(first, Ok(a.all));
                },
            };
            let ghost ns0 = notice_views(ns@);
            tell_all(&mut ns, first);
            assert(notice_views(ns@) =~= ns0.push(info(switching_text(crate::error::string_views(a.accounts@)[j as int]))));
            a.stage = AllDiscoveryStage::Account;
            a.index = j;
            a.inner = Some(d);
            let inv = a.command();
            Step::Ask(ns, Request::Run(inv), a)
        } else {
            match &a.initial_account {
                Some(o) => {
                    if contains_string(&a.accounts, o) {
                        a.stage = AllDiscoveryStage::Restore;
                        a.inner = None;
                        let inv = a.command();
                        return Step::Ask(ns, Request::Run(inv), a);
                    }
                },
                None => {},
            }
            Step::Done(ns, Ok(a.all))
        }
    }

    /// The discovery's next step once the current command gave `outcome`.
    pub fn resume(self, outcome: &ProcessOutcome) -> (res: Step<AllDiscovery, Result<Vec<Repository>, ViewyardError>>)
        requires
            self.wf(),
        ensures
            all_discovery_step_is(res, all_discovery_next(self@, *outcome)),
    {
        let mut a = self;
        match a.stage {
            AllDiscoveryStage::Accounts => match GitHubService::get_available_accounts(outcome) {
                Err(e) => Step::Done(quiet(), Err(e)),
                Ok(accounts) => {
                    if accounts.len() == 0 {
                        Step::Done(quiet(), Err(ViewyardError::new(ErrorKind::NoGitHubAccounts)))
                    } else {
                        a.accounts = accounts;
                        a.stage = AllDiscoveryStage::Current;
                        let inv = a.command();
                        Step::Ask(quiet(), Request::Run(inv), a)
                    }
                },
            },
            AllDiscoveryStage::Current => {
                a.initial_account = match GitHubService::get_current_account(outcome) {
                    Ok(acc) => Some(acc),
                    Err(_) => None,
                };
                a.next_account(0, quiet())
            },
            AllDiscoveryStage::Account => {
                assert(a.index < a.accounts.len());
                let d = a.inner.take();
                match d {
                    None => Step::Done(quiet(), Ok(a.all)),
                    Some(d) => match d.resume(outcome) {
                        Step::Ask(ns, req, d2) => {
                            a.inner = Some(d2);
                            Step::Ask(ns, req, a)
                        },
                        Step::Done(mut ns, r) => {
                            let j = a.index + 1;
                            match r {
                                Ok(mut rs) => {
                                    let ghost before = a.all@;
                                    let ghost added = rs@;
                                    a.all.append(&mut rs);
                                    assert(repo_views(a.all@) =~= repo_views(before) + repo_views(added));
                                    a.next_account(j, ns)
                                },
                                Err(e) => {
                                    let mut t = text_with_name("Warning: Failed to discover repositories from account '", a.accounts[a.index].as_str(), "': ");
                                    let m = e.message();
                                    push_str(&mut t, m.as_str());
                                    tell_chars(&mut ns, NoticeLevel::Stderr, t);
                                    a.next_account(j, ns)
                                },
                            }
                        },
                    },
                }
            },
            AllDiscoveryStage::Restore => Step::Done(quiet(), Ok(a.all)),
        }
    }
}

} // verus!
