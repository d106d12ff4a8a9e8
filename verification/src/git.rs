//! git: the commands the tool runs, and what it makes of their results.
//!
//! Configuration is only ever written with `--local`: the global git configuration is
//! read, never modified.
use vstd::prelude::*;
use crate::models::opt_view;
use vstd::utf8::decode_utf8;
use vstd::utf8::valid_utf8;
use vstd::string::StringSliceAdditionalSpecFns;

pub use crate::command::run_git_command;
pub use crate::command::run_git_command_string;

use crate::command::git_invocation;
use crate::command::git_text;
use crate::command::invocation_of;
use crate::command::lossy_text;
use crate::command::spawn_error;
use crate::command::spawn_failure;
use crate::command::str_views;
use crate::command::utf8_lossy;
use crate::command::Invocation;
use crate::command::InvocationView;
use crate::command::ProcessOutcome;
use crate::error::plain;
use crate::error::within;
use crate::error::ErrorKind;
use crate::error::ErrorKindView;
use crate::error::ViewyardError;
use crate::error::ViewyardErrorView;
use crate::models::GitProtocol;
use crate::session::Request;
use crate::session::RequestView;
use crate::session::Step;
use crate::text::chars_of;
use crate::text::concat;
use crate::text::is_blank;
use crate::text::is_blank_chars;
use crate::text::lines;
use crate::text::lines_of;
use crate::text::parse_u32;
use crate::text::parse_u32_chars;
use crate::text::push_all;
use crate::text::push_str;
use crate::text::starts_with;
use crate::text::starts_with_chars;
use crate::text::string_of;
use crate::text::strip_prefix;
use crate::text::strip_prefix_chars;
use crate::text::trim;
use crate::text::trim_chars;

verus! {

// ---------------------------------------------------------------------------
// Protocols and URLs
// ---------------------------------------------------------------------------

/// The protocol a value names, or the value itself when it names none.
pub open spec fn protocol_named(v: Seq<char>) -> Result<GitProtocol, Seq<char>> {
    if v == "ssh"@ {
        Ok(GitProtocol::Ssh)
    } else if v == "https"@ {
        Ok(GitProtocol::Https)
    } else {
        Err(v)
    }
}

/// The protocol chosen by a command-line flag and an environment variable: the flag wins
/// over the variable, and SSH is the default; a value given in either place that is not
/// `ssh` or `https` is refused (the flag's first).
pub open spec fn chosen_protocol(flag: Option<Seq<char>>, env_var: Option<Seq<char>>) -> Result<
    GitProtocol,
    Seq<char>,
> {
    match (flag, env_var) {
        (Some(f), _) if protocol_named(f) is Err => Err(f),
        (_, Some(e)) if protocol_named(e) is Err => Err(e),
        (Some(f), _) => protocol_named(f),
        (None, Some(e)) => protocol_named(e),
        (None, None) => Ok(GitProtocol::Ssh),
    }
}

pub open spec fn opt_str_view(o: Option<&str>) -> Option<Seq<char>> {
    match o {
        Some(s) => Some(s@),
        None => None,
    }
}

/// What is said when git cannot be run.
pub open spec fn GIT_MISSING() -> Seq<char> {
    "Git is not installed or not available in PATH. Please install git and try again."@
}

/// `git --version`, run to learn whether git can be run at all.
pub fn git_version_command() -> (res: Invocation)
    ensures
        res@ == invocation_of(seq!["--version"@], None),
{
    let a: [&str; 1] = ["--version"];
    let inv = git_invocation(&a, None);
    assert(a@ =~= seq!["--version"]);
    assert(str_views(seq!["--version"]) =~= seq!["--version"@]);
    inv
}

/// Whether git is available, once `git --version` ended with `outcome`: it is unless the
/// command could not be started at all.
pub fn check_git_availability(outcome: &ProcessOutcome) -> (res: Result<(), ViewyardError>)
    ensures
        match outcome {
            ProcessOutcome::SpawnFailed(c) => res matches Err(e)
                && e@ == within(plain(ErrorKindView::Io { cause: c@ }), GIT_MISSING()),
            ProcessOutcome::Finished(_) => res is Ok,
        },
{
    match outcome {
        ProcessOutcome::SpawnFailed(c) => Err(ViewyardError::new(ErrorKind::Io { cause: c.clone() }).context(string_of(&chars_of(
            "Git is not installed or not available in PATH. Please install git and try again.",
        )))),
        ProcessOutcome::Finished(_) => Ok(()),
    }
}

fn protocol_of(v: &str) -> (res: Result<GitProtocol, ViewyardError>)
    ensures
        match protocol_named(v@) {
            Ok(p) => res == Ok::<GitProtocol, ViewyardError>(p),
            Err(w) => res matches Err(e) && e@ == plain(ErrorKindView::InvalidProtocol { value: w }),
        },
{
    let c = chars_of(v);
    let ssh = chars_of("ssh");
    let https = chars_of("https");
    if crate::text::chars_eq(&c, &ssh) {
        Ok(GitProtocol::Ssh)
    } else if crate::text::chars_eq(&c, &https) {
        Ok(GitProtocol::Https)
    } else {
        Err(ViewyardError::new(ErrorKind::InvalidProtocol { value: string_of(&c) }))
    }
}

/// Resolves the git protocol from an optional flag and an optional environment variable:
/// the flag wins, SSH is the default, and either value, when given, must be `ssh` or
/// `https`.
pub fn resolve_protocol(flag: Option<&str>, env_var: Option<&str>) -> (res: Result<
    GitProtocol,
    ViewyardError,
>)
    ensures
        match chosen_protocol(opt_str_view(flag), opt_str_view(env_var)) {
            Ok(p) => res == Ok::<GitProtocol, ViewyardError>(p),
            Err(v) => res matches Err(e) && e@ == plain(ErrorKindView::InvalidProtocol { value: v }),
        },
{
    let from_flag = match flag {
        Some(f) => Some(protocol_of(f)),
        None => None,
    };
    let from_env = match env_var {
        Some(e) => Some(protocol_of(e)),
        None => None,
    };
    match (from_flag, from_env) {
        (Some(Err(e)), _) => Err(e),
        (_, Some(Err(e))) => Err(e),
        (Some(Ok(p)), _) => Ok(p),
        (None, Some(Ok(p))) => Ok(p),
        (None, None) => Ok(GitProtocol::Ssh),
    }
}

pub open spec fn GITHUB_SSH_PREFIX() -> Seq<char> {
    "git@github.com:"@
}

pub open spec fn GITHUB_HTTPS_PREFIX() -> Seq<char> {
    "https://github.com/"@
}

/// A GitHub URL rewritten for `protocol`; other URLs, and URLs already in that form,
/// are kept.
pub open spec fn normalized_url(url: Seq<char>, protocol: GitProtocol) -> Seq<char> {
    match protocol {
        GitProtocol::Https => match strip_prefix(url, GITHUB_SSH_PREFIX()) {
            Some(path) => GITHUB_HTTPS_PREFIX() + path,
            None => url,
        },
        GitProtocol::Ssh => match strip_prefix(url, GITHUB_HTTPS_PREFIX()) {
            Some(path) => GITHUB_SSH_PREFIX() + path,
            None => url,
        },
    }
}

/// Converts a GitHub repository URL to the given protocol.
pub fn normalize_url_for_protocol(url: &str, protocol: GitProtocol) -> (res: String)
    ensures
        res@ == normalized_url(url@, protocol),
{
    let u = chars_of(url);
    let (from, to) = match protocol {
        GitProtocol::Https => (chars_of("git@github.com:"), chars_of("https://github.com/")),
        GitProtocol::Ssh => (chars_of("https://github.com/"), chars_of("git@github.com:")),
    };
    match strip_prefix_chars(&u, &from) {
        Some(path) => string_of(&concat(&to, &path)),
        None => string_of(&u),
    }
}

// ---------------------------------------------------------------------------
// SSH host aliases
// ---------------------------------------------------------------------------

/// Account names and the SSH host aliases that stand for GitHub under them.
/// A later entry for the same account replaces an earlier one.
#[derive(Debug)]
pub struct SshHostAliases {
    pub entries: Vec<(String, String)>,
}

pub open spec fn alias_map(entries: Seq<(Seq<char>, Seq<char>)>) -> Map<Seq<char>, Seq<char>>
    decreases entries.len(),
{
    if entries.len() == 0 {
        Map::empty()
    } else {
        alias_map(entries.drop_last()).insert(entries.last().0, entries.last().1)
    }
}

pub open spec fn entry_views(v: Seq<(String, String)>) -> Seq<(Seq<char>, Seq<char>)> {
    v.map_values(|e: (String, String)| (e.0@, e.1@))
}

impl View for SshHostAliases {
    type V = Map<Seq<char>, Seq<char>>;

    open spec fn view(&self) -> Map<Seq<char>, Seq<char>> {
        alias_map(entry_views(self.entries@))
    }
}

proof fn lemma_alias_map_last(entries: Seq<(Seq<char>, Seq<char>)>, k: Seq<char>, i: int)
    requires
        0 <= i < entries.len(),
        entries[i].0 == k,
        forall|j: int| i < j < entries.len() ==> entries[j].0 != k,
    ensures
        alias_map(entries).contains_key(k),
        alias_map(entries)[k] == entries[i].1,
    decreases entries.len(),
{
    if i < entries.len() - 1 {
        lemma_alias_map_last(entries.drop_last(), k, i);
    }
}

proof fn lemma_alias_map_absent(entries: Seq<(Seq<char>, Seq<char>)>, k: Seq<char>)
    requires
        forall|j: int| 0 <= j < entries.len() ==> entries[j].0 != k,
    ensures
        !alias_map(entries).contains_key(k),
    decreases entries.len(),
{
    if entries.len() > 0 {
        lemma_alias_map_absent(entries.drop_last(), k);
    }
}

impl SshHostAliases {
    pub fn new() -> (res: SshHostAliases)
        ensures
            res@ == Map::<Seq<char>, Seq<char>>::empty(),
    {
        let res = SshHostAliases { entries: Vec::new() };
        assert(entry_views(res.entries@) =~= seq![]);
        res
    }

    /// Records `host` as the alias for `account`.
    pub fn insert(&mut self, account: String, host: String)
        ensures
            final(self)@ == old(self)@.insert(account@, host@),
    {
        let ghost before = self.entries@;
        self.entries.push((account, host));
        assert(entry_views(self.entries@).drop_last() =~= entry_views(before));
    }

    /// A copy holding the same aliases.
    pub fn duplicate(&self) -> (res: SshHostAliases)
        ensures
            res@ == self@,
    {
        let mut entries: Vec<(String, String)> = Vec::new();
        let mut i: usize = 0;
        while i < self.entries.len()
            invariant
                i <= self.entries.len(),
                entry_views(entries@) == entry_views(self.entries@).take(i as int),
            decreases self.entries.len() - i,
        {
            let e = (self.entries[i].0.clone(), self.entries[i].1.clone());
            proof {
                assert(entry_views(entries@.push(e)) =~= entry_views(entries@).push((e.0@, e.1@)));
                assert(entry_views(self.entries@).take(i + 1) =~= entry_views(self.entries@).take(i as int).push(entry_views(self.entries@)[i as int]));
            }
            entries.push(e);
            i = i + 1;
        }
        assert(entry_views(self.entries@).take(i as int) =~= entry_views(self.entries@));
        SshHostAliases { entries }
    }

    /// The alias recorded for `account`.
    pub fn get(&self, account: &str) -> (res: Option<String>)
        ensures
            match res {
                Some(h) => self@.contains_key(account@) && self@[account@] == h@,
                None => !self@.contains_key(account@),
            },
    {
        let a = chars_of(account);
        let mut i: usize = self.entries.len();
        while i > 0
            invariant
                i <= self.entries.len(),
                a@ == account@,
                forall|j: int|
                    i <= j < self.entries@.len() ==> entry_views(self.entries@)[j].0 != account@,
            decreases i,
        {
            let k = chars_of(self.entries[i - 1].0.as_str());
            if crate::text::chars_eq(&k, &a) {
                proof {
                    lemma_alias_map_last(entry_views(self.entries@), account@, i - 1);
                }
                return Some(self.entries[i - 1].1.clone());
            }
            i = i - 1;
        }
        proof {
            lemma_alias_map_absent(entry_views(self.entries@), account@);
        }
        None
    }
}

/// What the parser of an SSH configuration remembers between lines.
pub struct SshScan {
    pub host: Option<Seq<char>>,
    pub hostname: Option<Seq<char>>,
    pub aliases: Map<Seq<char>, Seq<char>>,
}

pub open spec fn GITHUB_ALIAS_PREFIX() -> Seq<char> {
    "github.com-"@
}

/// Records the host just finished when it is a GitHub alias named `github.com-<account>`.
pub open spec fn flush_host(s: SshScan) -> Map<Seq<char>, Seq<char>> {
    match (s.host, s.hostname) {
        (Some(host), Some(hostname)) => if hostname == "github.com"@ && starts_with(
            host,
            GITHUB_ALIAS_PREFIX(),
        ) {
            s.aliases.insert(host.skip(GITHUB_ALIAS_PREFIX().len() as int), host)
        } else {
            s.aliases
        },
        _ => s.aliases,
    }
}

/// One line of an SSH configuration: `Host` starts a new host, `HostName` names it.
pub open spec fn scan_line(s: SshScan, raw: Seq<char>) -> SshScan {
    let line = trim(raw);
    match strip_prefix(line, "Host "@) {
        Some(h) => SshScan { host: Some(trim(h)), hostname: None, aliases: flush_host(s) },
        None => match strip_prefix(line, "HostName "@) {
            Some(n) => SshScan { host: s.host, hostname: Some(trim(n)), aliases: s.aliases },
            None => s,
        },
    }
}

pub open spec fn scan_lines(ls: Seq<Seq<char>>) -> SshScan
    decreases ls.len(),
{
    if ls.len() == 0 {
        SshScan { host: None, hostname: None, aliases: Map::empty() }
    } else {
        scan_line(scan_lines(ls.drop_last()), ls.last())
    }
}

/// The GitHub host aliases an SSH configuration defines, by account.
pub open spec fn ssh_aliases(config: Seq<char>) -> Map<Seq<char>, Seq<char>> {
    flush_host(scan_lines(lines(config)))
}

/// Detects the SSH host aliases for GitHub that the SSH configuration `config_content`
/// defines: account -> host (e.g. "dheater" -> "github.com-dheater").
pub fn detect_ssh_host_aliases(config_content: &str) -> (res: SshHostAliases)
    ensures
        res@ == ssh_aliases(config_content@),
{
    let text = chars_of(config_content);
    let ls = lines_of(&text);
    let mut aliases = SshHostAliases::new();
    let mut host: Option<Vec<char>> = None;
    let mut hostname: Option<Vec<char>> = None;
    let host_kw = chars_of("Host ");
    let hostname_kw = chars_of("HostName ");
    let mut i: usize = 0;
    while i < ls.len()
        invariant
            i <= ls.len(),
            crate::text::views(ls@) == lines(config_content@),
            host_kw@ == "Host "@,
            hostname_kw@ == "HostName "@,
            ({
                let s = scan_lines(lines(config_content@).take(i as int));
                &&& s.aliases == aliases@
                &&& s.host == match host {
                    Some(h) => Some(h@),
                    None => None::<Seq<char>>,
                }
                &&& s.hostname == match hostname {
                    Some(h) => Some(h@),
                    None => None::<Seq<char>>,
                }
            }),
        decreases ls.len() - i,
    {
        proof {
            let l = lines(config_content@);
            assert(l.take(i + 1).drop_last() =~= l.take(i as int));
            assert(l.take(i + 1).last() == ls@[i as int]@);
        }
        let line = trim_chars(&ls[i]);
        match strip_prefix_chars(&line, &host_kw) {
            Some(h) => {
                flush_into(&mut aliases, &host, &hostname);
                host = Some(trim_chars(&h));
                hostname = None;
            },
            None => match strip_prefix_chars(&line, &hostname_kw) {
                Some(n) => {
                    hostname = Some(trim_chars(&n));
                },
                None => {},
            },
        }
        i = i + 1;
    }
    proof {
        assert(lines(config_content@).take(i as int) =~= lines(config_content@));
    }
    flush_into(&mut aliases, &host, &hostname);
    aliases
}

fn flush_into(aliases: &mut SshHostAliases, host: &Option<Vec<char>>, hostname: &Option<Vec<char>>)
    ensures
        final(aliases)@ == flush_host(
            SshScan {
                host: match *host {
                    Some(h) => Some(h@),
                    None => None,
                },
                hostname: match *hostname {
                    Some(h) => Some(h@),
                    None => None,
                },
                aliases: old(aliases)@,
            },
        ),
{
    match (host, hostname) {
        (Some(h), Some(n)) => {
            let gh = chars_of("github.com");
            let prefix = chars_of("github.com-");
            if crate::text::chars_eq(n, &gh) && starts_with_chars(h, &prefix) {
                let account = crate::text::slice_chars(h, prefix.len(), h.len());
                aliases.insert(string_of(&account), string_of(h));
            }
        },
        _ => {},
    }
}

/// `url` for `account` given its aliases: a GitHub SSH URL is pointed at the account's
/// SSH host alias when it has one; HTTPS URLs and other URLs are kept.
pub open spec fn url_for_account(
    url: Seq<char>,
    account: Seq<char>,
    aliases: Map<Seq<char>, Seq<char>>,
) -> Seq<char> {
    if starts_with(url, "https://"@) {
        url
    } else if !starts_with(url, GITHUB_SSH_PREFIX()) {
        url
    } else if aliases.contains_key(account) {
        crate::text::replace_all(url, GITHUB_SSH_PREFIX(), "git@"@ + aliases[account] + ":"@)
    } else {
        url
    }
}

/// Rewrites a GitHub SSH URL to use the account's SSH host alias from `aliases`.
pub fn transform_github_url_with_aliases(url: &str, account: &str, aliases: &SshHostAliases) -> (res:
    String)
    ensures
        res@ == url_for_account(url@, account@, aliases@),
{
    let u = chars_of(url);
    let https = chars_of("https://");
    let ssh = chars_of("git@github.com:");
    proof {
        reveal_strlit("git@github.com:");
    }
    if starts_with_chars(&u, &https) {
        return string_of(&u);
    }
    if !starts_with_chars(&u, &ssh) {
        return string_of(&u);
    }
    match aliases.get(account) {
        None => string_of(&u),
        Some(alias) => {
            let mut to = chars_of("git@");
            push_str(&mut to, alias.as_str());
            push_str(&mut to, ":");
            string_of(&crate::text::replace_all_chars(&u, &ssh, &to))
        },
    }
}

/// Transforms a GitHub SSH URL to use the appropriate SSH host alias, the aliases being
/// those that the SSH configuration text `ssh_config` defines (empty when there is none).
/// The URL is returned as it is when no alias is found or it is not a GitHub SSH URL.
pub fn transform_github_url_for_account(url: &str, account: &str, ssh_config: &str) -> (res:
    String)
    ensures
        res@ == url_for_account(url@, account@, ssh_aliases(ssh_config@)),
{
    let aliases = detect_ssh_host_aliases(ssh_config);
    transform_github_url_with_aliases(url, account, &aliases)
}

// ---------------------------------------------------------------------------
// Accounts
// ---------------------------------------------------------------------------

pub open spec fn GITHUB_SOURCE_MARK() -> Seq<char> {
    "GitHub ("@
}

/// The account named by a source string `GitHub (account)` or `GitHub (org/account)`,
/// anything after the closing parenthesis being ignored.
pub open spec fn source_account(source: Seq<char>) -> Result<Seq<char>, ErrorKindView> {
    let start = crate::text::find(source, GITHUB_SOURCE_MARK());
    if start < 0 {
        Err(ErrorKindView::NotGitHubSource { source })
    } else {
        let remaining = source.skip(start + GITHUB_SOURCE_MARK().len());
        let end = crate::text::find(remaining, ")"@);
        if end < 0 {
            Err(ErrorKindView::MalformedSource { source })
        } else {
            let part = remaining.take(end);
            let slash = crate::text::find(part, "/"@);
            let account = if slash < 0 {
                part
            } else {
                part.skip(slash + 1)
            };
            if account.len() == 0 {
                Err(ErrorKindView::InvalidAccountFormat { source })
            } else {
                Ok(account)
            }
        }
    }
}

/// Extracts the GitHub account from a repository source string.
/// Supports "GitHub (account)", "GitHub (org/account)", "GitHub (account) [private]".
pub fn extract_account_from_source(source: &str) -> (res: Result<String, ViewyardError>)
    ensures
        match source_account(source@) {
            Ok(a) => res matches Ok(s) && s@ == a,
            Err(k) => res matches Err(e) && e@ == plain(k),
        },
{
    let s = chars_of(source);
    let mark = chars_of("GitHub (");
    match crate::text::find_chars(&s, &mark) {
        None => Err(
            ViewyardError::new(ErrorKind::NotGitHubSource { source: string_of(&s) }),
        ),
        Some(start) => {
            let remaining = crate::text::slice_chars(&s, start + mark.len(), s.len());
            assert(remaining@ =~= s@.skip(start + GITHUB_SOURCE_MARK().len()));
            let close = chars_of(")");
            match crate::text::find_chars(&remaining, &close) {
                None => Err(
                    ViewyardError::new(ErrorKind::MalformedSource { source: string_of(&s) }),
                ),
                Some(end) => {
                    let part = crate::text::slice_chars(&remaining, 0, end);
                    assert(part@ =~= remaining@.take(end as int));
                    let slash = chars_of("/");
                    proof {
                        reveal_strlit("/");
                    }
                    let account = match crate::text::find_chars(&part, &slash) {
                        None => part,
                        Some(p) => {
                            let a = crate::text::slice_chars(&part, p + 1, part.len());
                            assert(a@ =~= part@.skip(p + 1));
                            a
                        },
                    };
                    if account.len() == 0 {
                        Err(
                            ViewyardError::new(
                                ErrorKind::InvalidAccountFormat { source: string_of(&s) },
                            ),
                        )
                    } else {
                        Ok(string_of(&account))
                    }
                },
            }
        },
    }
}

// ---------------------------------------------------------------------------
// Commands
// ---------------------------------------------------------------------------

pub open spec fn in_dir(cwd: &str) -> Option<Seq<char>> {
    Some(cwd@)
}

/// `git status --porcelain`.
pub fn get_status(cwd: &str) -> (res: Invocation)
    ensures
        res@ == invocation_of(seq!["status"@, "--porcelain"@], in_dir(cwd)),
{
    let r = git_invocation(&["status", "--porcelain"], Some(cwd));
    assert(str_views(seq!["status", "--porcelain"]) =~= seq!["status"@, "--porcelain"@]);
    r
}

/// `git branch --show-current`.
pub fn get_current_branch(cwd: &str) -> (res: Invocation)
    ensures
        res@ == invocation_of(seq!["branch"@, "--show-current"@], in_dir(cwd)),
{
    let r = git_invocation(&["branch", "--show-current"], Some(cwd));
    assert(str_views(seq!["branch", "--show-current"]) =~= seq!["branch"@, "--show-current"@]);
    r
}

/// `git add .`: stages every change.
pub fn add_all(cwd: &str) -> (res: Invocation)
    ensures
        res@ == invocation_of(seq!["add"@, "."@], in_dir(cwd)),
{
    let r = git_invocation(&["add", "."], Some(cwd));
    assert(str_views(seq!["add", "."]) =~= seq!["add"@, "."@]);
    r
}

/// `git commit -m <message>`.
pub fn commit(message: &str, cwd: &str) -> (res: Invocation)
    ensures
        res@ == invocation_of(seq!["commit"@, "-m"@, message@], in_dir(cwd)),
{
    let r = git_invocation(&["commit", "-m", message], Some(cwd));
    assert(str_views(seq!["commit", "-m", message]) =~= seq!["commit"@, "-m"@, message@]);
    r
}

/// `git push`.
pub fn push(cwd: &str) -> (res: Invocation)
    ensures
        res@ == invocation_of(seq!["push"@], in_dir(cwd)),
{
    let args: [&str; 1] = ["push"];
    let r = git_invocation(&args, Some(cwd));
    assert(args@ =~= seq!["push"]);
    assert(str_views(seq!["push"]) =~= seq!["push"@]);
    r
}

/// `git rebase <target_branch>`.
pub fn rebase(target_branch: &str, cwd: &str) -> (res: Invocation)
    ensures
        res@ == invocation_of(seq!["rebase"@, target_branch@], in_dir(cwd)),
{
    let r = git_invocation(&["rebase", target_branch], Some(cwd));
    assert(str_views(seq!["rebase", target_branch]) =~= seq!["rebase"@, target_branch@]);
    r
}

/// `git fetch`.
pub fn fetch(cwd: &str) -> (res: Invocation)
    ensures
        res@ == invocation_of(seq!["fetch"@], in_dir(cwd)),
{
    let args: [&str; 1] = ["fetch"];
    let r = git_invocation(&args, Some(cwd));
    assert(args@ =~= seq!["fetch"]);
    assert(str_views(seq!["fetch"]) =~= seq!["fetch"@]);
    r
}

/// `git merge --ff-only <branch_name>`.
pub fn merge_fast_forward(branch_name: &str, cwd: &str) -> (res: Invocation)
    ensures
        res@ == invocation_of(seq!["merge"@, "--ff-only"@, branch_name@], in_dir(cwd)),
{
    let r = git_invocation(&["merge", "--ff-only", branch_name], Some(cwd));
    assert(str_views(seq!["merge", "--ff-only", branch_name]) =~= seq![
        "merge"@,
        "--ff-only"@,
        branch_name@,
    ]);
    r
}

/// `git reset HEAD`: unstages what was staged.
pub fn reset_staged(cwd: &str) -> (res: Invocation)
    ensures
        res@ == invocation_of(seq!["reset"@, "HEAD"@], in_dir(cwd)),
{
    let r = git_invocation(&["reset", "HEAD"], Some(cwd));
    assert(str_views(seq!["reset", "HEAD"]) =~= seq!["reset"@, "HEAD"@]);
    r
}

pub open spec fn UNPUSHED_ARGS() -> Seq<Seq<char>> {
    seq!["rev-list"@, "--count"@, "@{u}..HEAD"@]
}

/// `git rev-list --count @{u}..HEAD`: counts the commits ahead of the upstream.
pub fn count_unpushed_commits(cwd: &str) -> (res: Invocation)
    ensures
        res@ == invocation_of(UNPUSHED_ARGS(), in_dir(cwd)),
{
    let r = git_invocation(&["rev-list", "--count", "@{u}..HEAD"], Some(cwd));
    assert(str_views(seq!["rev-list", "--count", "@{u}..HEAD"]) =~= UNPUSHED_ARGS());
    r
}

pub open spec fn STASH_ARGS() -> Seq<Seq<char>> {
    seq!["stash"@, "list"@]
}

/// `git stash list`.
pub fn list_stashes(cwd: &str) -> (res: Invocation)
    ensures
        res@ == invocation_of(STASH_ARGS(), in_dir(cwd)),
{
    let r = git_invocation(&["stash", "list"], Some(cwd));
    assert(str_views(seq!["stash", "list"]) =~= STASH_ARGS());
    r
}

pub open spec fn STATUS_ARGS() -> Seq<Seq<char>> {
    seq!["status"@, "--porcelain"@]
}

/// Whether the status output of `git status --porcelain` shows any change.
pub fn has_uncommitted_changes(outcome: &ProcessOutcome) -> (res: Result<bool, ViewyardError>)
    ensures
        match git_text(invocation_of(STATUS_ARGS(), None), *outcome) {
            Ok(s) => res == Ok::<bool, ViewyardError>(s.len() > 0),
            Err(e) => res matches Err(x) && x@ == e,
        },
{
    let inv = git_invocation(&["status", "--porcelain"], None);
    assert(str_views(seq!["status", "--porcelain"]) =~= STATUS_ARGS());
    match run_git_command_string(&inv, outcome) {
        Ok(s) => Ok(!s.as_str().is_empty()),
        Err(e) => Err(e),
    }
}

pub open spec fn UNPUSHED_SPAWN_CONTEXT() -> Seq<char> {
    "Failed to execute git command to check unpushed commits"@
}

/// Whether `git rev-list --count @{u}..HEAD` reports commits ahead of the upstream:
/// no upstream (exit code 128) counts as none.
pub open spec fn unpushed(o: ProcessOutcome) -> Result<bool, ViewyardErrorView> {
    match o {
        ProcessOutcome::SpawnFailed(cause) => Err(
            within(
                spawn_error(invocation_of(UNPUSHED_ARGS(), None), cause@),
                UNPUSHED_SPAWN_CONTEXT(),
            ),
        ),
        ProcessOutcome::Finished(out) => if out.success {
            let count = trim(utf8_lossy(out.stdout@));
            match parse_u32(count) {
                Some(n) => Ok(n > 0),
                None => Err(plain(ErrorKindView::CommitCountParse { text: count })),
            }
        } else if out.code == Some(128i32) {
            Ok(false)
        } else {
            Err(plain(ErrorKindView::UnpushedCheckFailed { stderr: utf8_lossy(out.stderr@) }))
        },
    }
}

/// Whether the repository has commits not pushed to its upstream, from the outcome of
/// `git rev-list --count @{u}..HEAD`.
pub fn has_unpushed_commits(outcome: &ProcessOutcome) -> (res: Result<bool, ViewyardError>)
    ensures
        crate::command::bool_result_view(res) == unpushed(*outcome),
{
    match outcome {
        ProcessOutcome::SpawnFailed(cause) => {
            let inv = git_invocation(&["rev-list", "--count", "@{u}..HEAD"], None);
            assert(str_views(seq!["rev-list", "--count", "@{u}..HEAD"]) =~= UNPUSHED_ARGS());
            let e = spawn_failure(&inv, cause);
            Err(e.context(crate::error::lit("Failed to execute git command to check unpushed commits")))
        },
        ProcessOutcome::Finished(out) => {
            if out.success {
                let text = lossy_text(&out.stdout);
                let count = trim_chars(&chars_of(text.as_str()));
                match parse_u32_chars(&count) {
                    Some(n) => Ok(n > 0),
                    None => Err(
                        ViewyardError::new(ErrorKind::CommitCountParse { text: string_of(&count) }),
                    ),
                }
            } else if out.code == Some(128i32) {
                Ok(false)
            } else {
                let stderr = lossy_text(&out.stderr);
                Err(ViewyardError::new(ErrorKind::UnpushedCheckFailed { stderr }))
            }
        },
    }
}

/// The number of stashes listed by `git stash list`: its lines, none for empty output.
pub open spec fn stash_count(o: ProcessOutcome) -> Result<nat, ViewyardErrorView> {
    match git_text(invocation_of(STASH_ARGS(), None), o) {
        Ok(s) => Ok(
            if s.len() == 0 {
                0
            } else {
                lines(s).len()
            },
        ),
        Err(e) => Err(within(e, "Failed to get stash count"@)),
    }
}

/// Counts the stashes, from the outcome of `git stash list`.
pub fn get_stash_count(outcome: &ProcessOutcome) -> (res: Result<usize, ViewyardError>)
    ensures
        crate::command::usize_result_view(res) == stash_count(*outcome),
{
    let inv = git_invocation(&["stash", "list"], None);
    assert(str_views(seq!["stash", "list"]) =~= STASH_ARGS());
    match run_git_command_string(&inv, outcome) {
        Ok(s) => {
            if s.as_str().is_empty() {
                Ok(0)
            } else {
                let ls = lines_of(&chars_of(s.as_str()));
                proof {
                    assert(crate::text::views(ls@).len() == ls@.len());
                }
                Ok(ls.len())
            }
        },
        Err(e) => Err(e.context(crate::error::lit("Failed to get stash count"))),
    }
}

/// `git show-ref --verify --quiet refs/remotes/<branch_name>`.
pub fn show_remote_ref(branch_name: &str, cwd: &str) -> (res: Invocation)
    ensures
        res@ == invocation_of(
            seq!["show-ref"@, "--verify"@, "--quiet"@, "refs/remotes/"@ + branch_name@],
            in_dir(cwd),
        ),
{
    let mut r = chars_of("refs/remotes/");
    push_str(&mut r, branch_name);
    let refname = string_of(&r);
    let rs = refname.as_str();
    let inv = git_invocation(&["show-ref", "--verify", "--quiet", rs], Some(cwd));
    assert(str_views(seq!["show-ref", "--verify", "--quiet", rs]) =~= seq![
        "show-ref"@,
        "--verify"@,
        "--quiet"@,
        "refs/remotes/"@ + branch_name@,
    ]);
    inv
}

/// A branch exists when `git show-ref --verify` for it ran and succeeded.
pub open spec fn ref_exists(o: ProcessOutcome) -> bool {
    o matches ProcessOutcome::Finished(out) && out.success
}

/// Whether the remote branch exists, from the outcome of `show_remote_ref`.
pub fn branch_exists(outcome: &ProcessOutcome) -> (res: bool)
    ensures
        res == ref_exists(*outcome),
{
    match outcome {
        ProcessOutcome::Finished(out) => out.success,
        ProcessOutcome::SpawnFailed(_) => false,
    }
}

// ---------------------------------------------------------------------------
// Configuration
// ---------------------------------------------------------------------------

/// Which git configuration a read goes to: the repository's own, or the global one,
/// which is only ever read.
#[derive(Debug, Clone, Copy, PartialEq, Eq, Structural)]
pub enum GitConfigScope {
    Local,
    GlobalReadOnly,
}

/// `git config --local <key>` in the repository, or `git config --global <key>`.
pub open spec fn config_read(key: Seq<char>, scope: GitConfigScope, cwd: Option<Seq<char>>) -> Result<
    InvocationView,
    ViewyardErrorView,
> {
    match scope {
        GitConfigScope::Local => match cwd {
            Some(c) => Ok(invocation_of(seq!["config"@, "--local"@, key], Some(c))),
            None => Err(plain(ErrorKindView::LocalConfigNeedsPath)),
        },
        GitConfigScope::GlobalReadOnly => Ok(
            invocation_of(seq!["config"@, "--global"@, key], None),
        ),
    }
}

/// The command that reads `key` from the configuration of `scope`; local configuration
/// needs the repository's path.
pub fn get_git_config_scoped(key: &str, scope: GitConfigScope, cwd: Option<&str>) -> (res: Result<
    Invocation,
    ViewyardError,
>)
    ensures
        match config_read(key@, scope, opt_str_view(cwd)) {
            Ok(i) => res matches Ok(r) && r@ == i,
            Err(e) => res matches Err(x) && x@ == e,
        },
{
    match scope {
        GitConfigScope::Local => match cwd {
            Some(c) => {
                let r = git_invocation(&["config", "--local", key], Some(c));
                assert(str_views(seq!["config", "--local", key]) =~= seq![
                    "config"@,
                    "--local"@,
                    key@,
                ]);
                Ok(r)
            },
            None => Err(ViewyardError::new(ErrorKind::LocalConfigNeedsPath)),
        },
        GitConfigScope::GlobalReadOnly => {
            let r = git_invocation(&["config", "--global", key], None);
            assert(str_views(seq!["config", "--global", key]) =~= seq![
                "config"@,
                "--global"@,
                key@,
            ]);
            Ok(r)
        },
    }
}

/// The command that reads `key` from the repository's local configuration.
pub fn get_git_config(key: &str, cwd: &str) -> (res: Invocation)
    ensures
        config_read(key@, GitConfigScope::Local, in_dir(cwd)) == Ok::<InvocationView, ViewyardErrorView>(res@),
{
    match get_git_config_scoped(key, GitConfigScope::Local, Some(cwd)) {
        Ok(r) => r,
        Err(_) => git_invocation(&["config", "--local", key], Some(cwd)),
    }
}

/// The command that reads `key` from the global configuration (read only).
pub fn get_global_git_config(key: &str) -> (res: Invocation)
    ensures
        config_read(key@, GitConfigScope::GlobalReadOnly, None) == Ok::<InvocationView, ViewyardErrorView>(res@),
{
    match get_git_config_scoped(key, GitConfigScope::GlobalReadOnly, None) {
        Ok(r) => r,
        Err(_) => git_invocation(&["config", "--global", key], None),
    }
}

/// `git config --local <key> <value>`: configuration is only ever written locally.
pub fn set_git_config(key: &str, value: &str, cwd: &str) -> (res: Invocation)
    ensures
        res@ == invocation_of(seq!["config"@, "--local"@, key@, value@], in_dir(cwd)),
{
    let r = git_invocation(&["config", "--local", key, value], Some(cwd));
    assert(str_views(seq!["config", "--local", key, value]) =~= seq![
        "config"@,
        "--local"@,
        key@,
        value@,
    ]);
    r
}

pub open spec fn SIGNING_KEY_READ() -> InvocationView {
    invocation_of(seq!["config"@, "--global"@, "user.signingkey"@], None)
}

/// The signing key of the global configuration, if one that is not blank is set.
pub open spec fn signing_key(o: ProcessOutcome) -> Option<Seq<char>> {
    match git_text(SIGNING_KEY_READ(), o) {
        Ok(k) => if is_blank(k) {
            None
        } else {
            Some(trim(k))
        },
        Err(_) => None,
    }
}

/// The signing key of the global configuration, from the outcome of
/// `get_global_git_config("user.signingkey")`.
pub fn detect_signing_key(outcome: &ProcessOutcome) -> (res: Option<String>)
    ensures
        match signing_key(*outcome) {
            Some(k) => res matches Some(s) && s@ == k,
            None => res is None,
        },
{
    let inv = get_global_git_config("user.signingkey");
    match run_git_command_string(&inv, outcome) {
        Ok(k) => {
            let c = chars_of(k.as_str());
            if is_blank_chars(&c) {
                None
            } else {
                Some(string_of(&trim_chars(&c)))
            }
        },
        Err(_) => None,
    }
}

/// The verdict on a repository directory from what the filesystem says of its path.
pub open spec fn directory_check(path: Seq<char>, name: Seq<char>, exists: bool, is_dir: bool) -> Result<
    (),
    ViewyardErrorView,
> {
    if !exists {
        Err(plain(ErrorKindView::RepositoryMissing { name, path }))
    } else if !is_dir {
        Err(plain(ErrorKindView::NotADirectory { name, path }))
    } else {
        Ok(())
    }
}

/// Validates that a repository directory exists and is a directory, from what the
/// filesystem says of `repo_path`.
pub fn validate_repository_directory(repo_path: &str, repo_name: &str, exists: bool, is_dir: bool) -> (res: Result<(), ViewyardError>)
    ensures
        crate::command::unit_result_view(res) == directory_check(repo_path@, repo_name@, exists, is_dir),
{
    if !exists {
        return Err(
            ViewyardError::new(
                ErrorKind::RepositoryMissing {
                    name: crate::error::lit(repo_name),
                    path: crate::error::lit(repo_path),
                },
            ),
        );
    }
    if !is_dir {
        return Err(
            ViewyardError::new(
                ErrorKind::NotADirectory {
                    name: crate::error::lit(repo_name),
                    path: crate::error::lit(repo_path),
                },
            ),
        );
    }
    Ok(())
}

// ---------------------------------------------------------------------------
// Default branch
// ---------------------------------------------------------------------------

/// Where the search for the remote's default branch stands.
#[derive(Debug, Clone, Copy, PartialEq, Eq, Structural)]
pub enum DefaultBranchStage {
    /// Asking `git symbolic-ref refs/remotes/origin/HEAD`.
    SymbolicRef,
    /// Asking `git remote show origin`.
    RemoteShow,
    /// Checking whether this common default exists.
    Candidate(CommonDefault),
}

/// The common default branches, tried in this order when the remote names none.
#[derive(Debug, Clone, Copy, PartialEq, Eq, Structural)]
pub enum CommonDefault {
    Main,
    Master,
    Develop,
}

pub open spec fn candidate_name(c: CommonDefault) -> Seq<char> {
    match c {
        CommonDefault::Main => "origin/main"@,
        CommonDefault::Master => "origin/master"@,
        CommonDefault::Develop => "origin/develop"@,
    }
}

/// The search for the default branch of the remote `origin` of the repository at `cwd`.
#[derive(Debug)]
pub struct DefaultBranchSearch {
    pub cwd: String,
    pub stage: DefaultBranchStage,
}

pub struct DefaultBranchSearchView {
    pub cwd: Seq<char>,
    pub stage: DefaultBranchStage,
}

impl View for DefaultBranchSearch {
    type V = DefaultBranchSearchView;

    open spec fn view(&self) -> DefaultBranchSearchView {
        DefaultBranchSearchView { cwd: self.cwd@, stage: self.stage }
    }
}

pub open spec fn search_at(cwd: Seq<char>, stage: DefaultBranchStage) -> DefaultBranchSearchView {
    DefaultBranchSearchView { cwd, stage }
}

pub open spec fn SYMBOLIC_REF_ARGS() -> Seq<Seq<char>> {
    seq!["symbolic-ref"@, "refs/remotes/origin/HEAD"@]
}

pub open spec fn REMOTE_SHOW_ARGS() -> Seq<Seq<char>> {
    seq!["remote"@, "show"@, "origin"@]
}

/// The command each stage of the search runs.
pub open spec fn default_branch_command(cwd: Seq<char>, stage: DefaultBranchStage) -> InvocationView {
    match stage {
        DefaultBranchStage::SymbolicRef => invocation_of(SYMBOLIC_REF_ARGS(), Some(cwd)),
        DefaultBranchStage::RemoteShow => invocation_of(REMOTE_SHOW_ARGS(), Some(cwd)),
        DefaultBranchStage::Candidate(i) => invocation_of(
            seq!["show-ref"@, "--verify"@, "--quiet"@, "refs/remotes/"@ + candidate_name(i)],
            Some(cwd),
        ),
    }
}

/// The branch `origin/HEAD` points at, from `git symbolic-ref refs/remotes/origin/HEAD`.
pub open spec fn origin_head_branch(o: ProcessOutcome) -> Option<Seq<char>> {
    match git_text(invocation_of(SYMBOLIC_REF_ARGS(), None), o) {
        Ok(s) => strip_prefix(s, "refs/remotes/origin/"@),
        Err(_) => None,
    }
}

/// The branch named by the first line `  HEAD branch: <branch>`.
pub open spec fn head_branch_in(ls: Seq<Seq<char>>) -> Option<Seq<char>>
    decreases ls.len(),
{
    if ls.len() == 0 {
        None
    } else {
        match strip_prefix(ls[0], "  HEAD branch: "@) {
            Some(b) => Some(trim(b)),
            None => head_branch_in(ls.drop_first()),
        }
    }
}

/// The head branch reported by `git remote show origin`.
pub open spec fn remote_show_head(o: ProcessOutcome) -> Option<Seq<char>> {
    match git_text(invocation_of(REMOTE_SHOW_ARGS(), None), o) {
        Ok(s) => head_branch_in(lines(s)),
        Err(_) => None,
    }
}

pub enum DefaultBranchNext {
    Continue(DefaultBranchStage),
    Found(Seq<char>),
    NotFound,
}

/// The search's next move after a stage's command gave `o`: origin/HEAD, then the remote's
/// HEAD branch, then the first of the common defaults that exists.
pub open spec fn default_branch_next(stage: DefaultBranchStage, o: ProcessOutcome) -> DefaultBranchNext {
    match stage {
        DefaultBranchStage::SymbolicRef => match origin_head_branch(o) {
            Some(b) => DefaultBranchNext::Found("origin/"@ + b),
            None => DefaultBranchNext::Continue(DefaultBranchStage::RemoteShow),
        },
        DefaultBranchStage::RemoteShow => match remote_show_head(o) {
            Some(b) => DefaultBranchNext::Found("origin/"@ + b),
            None => DefaultBranchNext::Continue(DefaultBranchStage::Candidate(CommonDefault::Main)),
        },
        DefaultBranchStage::Candidate(c) => if ref_exists(o) {
            DefaultBranchNext::Found(candidate_name(c))
        } else {
            match c {
                CommonDefault::Main => DefaultBranchNext::Continue(
                    DefaultBranchStage::Candidate(CommonDefault::Master),
                ),
                CommonDefault::Master => DefaultBranchNext::Continue(
                    DefaultBranchStage::Candidate(CommonDefault::Develop),
                ),
                CommonDefault::Develop => DefaultBranchNext::NotFound,
            }
        },
    }
}

proof fn lemma_head_branch_skip(ls: Seq<Seq<char>>, i: int)
    requires
        0 <= i < ls.len(),
    ensures
        head_branch_in(ls.skip(i)) == match strip_prefix(ls[i], "  HEAD branch: "@) {
            Some(b) => Some(trim(b)),
            None => head_branch_in(ls.skip(i + 1)),
        },
{
    assert(ls.skip(i).drop_first() =~= ls.skip(i + 1));
    assert(ls.skip(i)[0] == ls[i]);
}

fn default_candidate(c: CommonDefault) -> (res: Vec<char>)
    ensures
        res@ == candidate_name(c),
{
    match c {
        CommonDefault::Main => chars_of("origin/main"),
        CommonDefault::Master => chars_of("origin/master"),
        CommonDefault::Develop => chars_of("origin/develop"),
    }
}

fn head_branch_of(text: &String) -> (res: Option<Vec<char>>)
    ensures
        match head_branch_in(lines(text@)) {
            Some(b) => res matches Some(r) && r@ == b,
            None => res is None,
        },
{
    let ls = lines_of(&chars_of(text.as_str()));
    let prefix = chars_of("  HEAD branch: ");
    let mut i: usize = 0;
    assert(crate::text::views(ls@).skip(0) =~= crate::text::views(ls@));
    while i < ls.len()
        invariant
            i <= ls.len(),
            prefix@ == "  HEAD branch: "@,
            crate::text::views(ls@) == lines(text@),
            head_branch_in(crate::text::views(ls@).skip(i as int)) == head_branch_in(lines(text@)),
        decreases ls.len() - i,
    {
        proof {
            lemma_head_branch_skip(crate::text::views(ls@), i as int);
        }
        match strip_prefix_chars(&ls[i], &prefix) {
            Some(b) => {
                return Some(trim_chars(&b));
            },
            None => {},
        }
        i = i + 1;
    }
    None
}

/// Starts the search for the default branch of the remote `origin`: asks for
/// `git symbolic-ref refs/remotes/origin/HEAD` first.
pub fn get_default_branch(cwd: &str) -> (res: (Invocation, DefaultBranchSearch))
    ensures
        res.1@ == search_at(cwd@, DefaultBranchStage::SymbolicRef),
        res.0@ == default_branch_command(cwd@, DefaultBranchStage::SymbolicRef),
{
    let search = DefaultBranchSearch {
        cwd: crate::error::lit(cwd),
        stage: DefaultBranchStage::SymbolicRef,
    };
    let inv = search.command();
    (inv, search)
}

impl DefaultBranchSearch {
    /// The command the current stage runs.
    pub fn command(&self) -> (res: Invocation)
        ensures
            res@ == default_branch_command(self@.cwd, self@.stage),
    {
        let cwd = self.cwd.as_str();
        match self.stage {
            DefaultBranchStage::SymbolicRef => {
                let r = git_invocation(&["symbolic-ref", "refs/remotes/origin/HEAD"], Some(cwd));
                assert(str_views(seq!["symbolic-ref", "refs/remotes/origin/HEAD"]) =~= SYMBOLIC_REF_ARGS());
                r
            },
            DefaultBranchStage::RemoteShow => {
                let r = git_invocation(&["remote", "show", "origin"], Some(cwd));
                assert(str_views(seq!["remote", "show", "origin"]) =~= REMOTE_SHOW_ARGS());
                r
            },
            DefaultBranchStage::Candidate(c) => {
                let name = string_of(&default_candidate(c));
                show_remote_ref(name.as_str(), cwd)
            },
        }
    }

    /// The search's next step once the current stage's command gave `outcome`.
    pub fn resume(self, outcome: &ProcessOutcome) -> (res: Step<DefaultBranchSearch, Result<String, ViewyardError>>)
        ensures
            match default_branch_next(self@.stage, *outcome) {
                DefaultBranchNext::Continue(st) => res matches Step::Ask(ns, req, s) && ns@.len() == 0 && s@ == search_at(self@.cwd, st)
                    && req@ == RequestView::Run(default_branch_command(self@.cwd, st)),
                DefaultBranchNext::Found(b) => res matches Step::Done(ns, Ok(x)) && ns@.len() == 0 && x@ == b,
                DefaultBranchNext::NotFound => res matches Step::Done(ns, Err(e)) && ns@.len() == 0 && e@ == plain(ErrorKindView::NoDefaultBranch),
            },
    {
        match self.stage {
            DefaultBranchStage::SymbolicRef => {
                let inv = git_invocation(&["symbolic-ref", "refs/remotes/origin/HEAD"], None);
                assert(str_views(seq!["symbolic-ref", "refs/remotes/origin/HEAD"]) =~= SYMBOLIC_REF_ARGS());
                if let Ok(out) = run_git_command_string(&inv, outcome) {
                    let prefix = chars_of("refs/remotes/origin/");
                    if let Some(b) = strip_prefix_chars(&chars_of(out.as_str()), &prefix) {
                        let mut r = chars_of("origin/");
                        push_all(&mut r, &b);
                        return Step::Done(Vec::new(), Ok(string_of(&r)));
                    }
                }
                self.advance(DefaultBranchStage::RemoteShow)
            },
            DefaultBranchStage::RemoteShow => {
                let inv = git_invocation(&["remote", "show", "origin"], None);
                assert(str_views(seq!["remote", "show", "origin"]) =~= REMOTE_SHOW_ARGS());
                if let Ok(out) = run_git_command_string(&inv, outcome) {
                    if let Some(b) = head_branch_of(&out) {
                        let mut r = chars_of("origin/");
                        push_all(&mut r, &b);
                        return Step::Done(Vec::new(), Ok(string_of(&r)));
                    }
                }
                self.advance(DefaultBranchStage::Candidate(CommonDefault::Main))
            },
            DefaultBranchStage::Candidate(c) => {
                if branch_exists(outcome) {
                    Step::Done(Vec::new(), Ok(string_of(&default_candidate(c))))
                } else {
                    match c {
                        CommonDefault::Main => self.advance(DefaultBranchStage::Candidate(CommonDefault::Master)),
                        CommonDefault::Master => self.advance(DefaultBranchStage::Candidate(CommonDefault::Develop)),
                        CommonDefault::Develop => Step::Done(Vec::new(), Err(ViewyardError::new(ErrorKind::NoDefaultBranch))),
                    }
                }
            },
        }
    }

    fn advance(self, stage: DefaultBranchStage) -> (res: Step<DefaultBranchSearch, Result<String, ViewyardError>>)
        ensures
            res matches Step::Ask(ns, req, s) && ns@.len() == 0 && s@ == search_at(self@.cwd, stage)
                && req@ == RequestView::Run(default_branch_command(self@.cwd, stage)),
    {
        let next = DefaultBranchSearch { cwd: self.cwd, stage };
        let inv = next.command();
        Step::Ask(Vec::new(), Request::Run(inv), next)
    }
}

// ---------------------------------------------------------------------------
// Git user configuration
// ---------------------------------------------------------------------------

/// Where the configuration of a repository's git user stands.
#[derive(Debug, Clone, Copy, PartialEq, Eq, Structural)]
pub enum UserSetupStage {
    ReadName,
    ReadEmail,
    ReadSigningKey,
    WriteName,
    WriteEmail,
    ReadGlobalKey,
    WriteKey,
    ReadKeyForNotice,
}

/// Configures `user.name`, `user.email` and `user.signingkey` of the repository at
/// `repo_path` for `account`, locally, writing only what is not already right.
#[derive(Debug)]
pub struct GitUserSetup {
    pub repo_path: String,
    pub account: String,
    /// The context errors are reported in, if any.
    pub context: Option<String>,
    pub stage: UserSetupStage,
    pub current_name: Option<String>,
    pub current_email: Option<String>,
    pub current_key: Option<String>,
    pub name_set: bool,
    pub email_set: bool,
    pub global_key: Option<String>,
    pub key_set: bool,
}

pub struct GitUserSetupView {
    pub repo_path: Seq<char>,
    pub account: Seq<char>,
    pub context: Option<Seq<char>>,
    pub stage: UserSetupStage,
    pub current_name: Option<Seq<char>>,
    pub current_email: Option<Seq<char>>,
    pub current_key: Option<Seq<char>>,
    pub name_set: bool,
    pub email_set: bool,
    pub global_key: Option<Seq<char>>,
    pub key_set: bool,
}

impl View for GitUserSetup {
    type V = GitUserSetupView;

    open spec fn view(&self) -> GitUserSetupView {
        GitUserSetupView {
            repo_path: self.repo_path@,
            account: self.account@,
            context: opt_view(self.context),
            stage: self.stage,
            current_name: opt_view(self.current_name),
            current_email: opt_view(self.current_email),
            current_key: opt_view(self.current_key),
            name_set: self.name_set,
            email_set: self.email_set,
            global_key: opt_view(self.global_key),
            key_set: self.key_set,
        }
    }
}

/// The e-mail address configured for an account: GitHub's no-reply address.
pub open spec fn expected_email(account: Seq<char>) -> Seq<char> {
    account + "@users.noreply.github.com"@
}

pub open spec fn with_stage(s: GitUserSetupView, stage: UserSetupStage) -> GitUserSetupView {
    GitUserSetupView { stage, ..s }
}

/// The command each stage runs.
pub open spec fn user_setup_command(s: GitUserSetupView) -> InvocationView {
    let cwd = Some(s.repo_path);
    match s.stage {
        UserSetupStage::ReadName => invocation_of(seq!["config"@, "--local"@, "user.name"@], cwd),
        UserSetupStage::ReadEmail => invocation_of(seq!["config"@, "--local"@, "user.email"@], cwd),
        UserSetupStage::ReadSigningKey => invocation_of(
            seq!["config"@, "--local"@, "user.signingkey"@],
            cwd,
        ),
        UserSetupStage::WriteName => invocation_of(
            seq!["config"@, "--local"@, "user.name"@, s.account],
            cwd,
        ),
        UserSetupStage::WriteEmail => invocation_of(
            seq!["config"@, "--local"@, "user.email"@, expected_email(s.account)],
            cwd,
        ),
        UserSetupStage::ReadGlobalKey => SIGNING_KEY_READ(),
        UserSetupStage::WriteKey => invocation_of(
            seq!["config"@, "--local"@, "user.signingkey"@, key_to_write(s)],
            cwd,
        ),
        UserSetupStage::ReadKeyForNotice => SIGNING_KEY_READ(),
    }
}

/// The global signing key, which the key-writing stage writes.
pub open spec fn key_to_write(s: GitUserSetupView) -> Seq<char> {
    match s.global_key {
        Some(k) => k,
        None => seq![],
    }
}

pub enum UserSetupNext {
    Ask(GitUserSetupView),
    Done(Result<Option<Seq<char>>, ViewyardErrorView>),
}

/// The value a configuration read gave, if it gave one.
pub open spec fn read_value(inv: InvocationView, o: ProcessOutcome) -> Option<Seq<char>> {
    match git_text(inv, o) {
        Ok(v) => Some(v),
        Err(_) => None,
    }
}

/// `e` reported in the setup's context, if it has one.
pub open spec fn in_setup_context(s: GitUserSetupView, e: ViewyardErrorView) -> ViewyardErrorView {
    match s.context {
        Some(c) => within(e, c),
        None => e,
    }
}

/// The signing key as shown: cut after its first 20 bytes, followed by `...`, when longer.
/// A cut falling inside a character moves back to the character's start.
pub open spec fn shown_key(k: Seq<char>) -> Seq<char> {
    let b = vstd::utf8::encode_utf8(k);
    if b.len() > 20 {
        decode_utf8(b.subrange(0, boundary_at_most(b, 20))) + "..."@
    } else {
        k
    }
}

pub open spec fn boundary_at_most(b: Seq<u8>, m: int) -> int
    decreases m,
{
    if m <= 0 {
        0
    } else if vstd::utf8::is_char_boundary(b, m) {
        m
    } else {
        boundary_at_most(b, m - 1)
    }
}

/// What is reported after configuring: the account, its address, and the signing key.
pub open spec fn configured_notice(account: Seq<char>, key: Option<Seq<char>>) -> Seq<char> {
    "Configured git user: "@ + account + " <"@ + expected_email(account) + ">"@ + match key {
        Some(k) => ", signing: "@ + shown_key(k),
        None => seq![],
    }
}

/// The end: a notice when anything was written, a signing key written being shown as it
/// is read again.
pub open spec fn setup_finish(s: GitUserSetupView) -> UserSetupNext {
    if s.name_set || s.email_set || s.key_set {
        if s.key_set {
            UserSetupNext::Ask(with_stage(s, UserSetupStage::ReadKeyForNotice))
        } else {
            UserSetupNext::Done(Ok(Some(configured_notice(s.account, None))))
        }
    } else {
        UserSetupNext::Done(Ok(None))
    }
}

/// After the name: write the e-mail address unless it is already the expected one.
pub open spec fn setup_after_name(s: GitUserSetupView) -> UserSetupNext {
    if s.current_email == Some(expected_email(s.account)) {
        UserSetupNext::Ask(with_stage(s, UserSetupStage::ReadGlobalKey))
    } else {
        UserSetupNext::Ask(with_stage(s, UserSetupStage::WriteEmail))
    }
}

pub open spec fn write_failure(s: GitUserSetupView, o: ProcessOutcome, key: Seq<char>, value: Seq<char>) -> UserSetupNext {
    UserSetupNext::Done(
        Err(
            in_setup_context(
                s,
                within(
                    spawn_error(user_setup_command(s), spawn_cause(o)),
                    "Failed to set "@ + key + " to '"@ + value + "'"@,
                ),
            ),
        ),
    )
}

pub open spec fn spawn_cause(o: ProcessOutcome) -> Seq<char> {
    match o {
        ProcessOutcome::SpawnFailed(c) => c@,
        ProcessOutcome::Finished(_) => seq![],
    }
}

/// The setup's next move once the current stage's command gave `o`.
pub open spec fn user_setup_next(s: GitUserSetupView, o: ProcessOutcome) -> UserSetupNext {
    let value = read_value(user_setup_command(s), o);
    match s.stage {
        UserSetupStage::ReadName => UserSetupNext::Ask(
            GitUserSetupView { stage: UserSetupStage::ReadEmail, current_name: value, ..s },
        ),
        UserSetupStage::ReadEmail => UserSetupNext::Ask(
            GitUserSetupView { stage: UserSetupStage::ReadSigningKey, current_email: value, ..s },
        ),
        UserSetupStage::ReadSigningKey => {
            let t = GitUserSetupView { current_key: value, ..s };
            if t.current_name == Some(t.account) {
                setup_after_name(t)
            } else {
                UserSetupNext::Ask(with_stage(t, UserSetupStage::WriteName))
            }
        },
        UserSetupStage::WriteName => if o is SpawnFailed {
            write_failure(s, o, "user.name"@, s.account)
        } else {
            setup_after_name(GitUserSetupView { name_set: true, ..s })
        },
        UserSetupStage::WriteEmail => if o is SpawnFailed {
            write_failure(s, o, "user.email"@, expected_email(s.account))
        } else {
            UserSetupNext::Ask(
                GitUserSetupView { stage: UserSetupStage::ReadGlobalKey, email_set: true, ..s },
            )
        },
        UserSetupStage::ReadGlobalKey => {
            let t = GitUserSetupView { global_key: signing_key(o), ..s };
            match t.global_key {
                Some(k) => if t.current_key == Some(k) {
                    setup_finish(t)
                } else {
                    UserSetupNext::Ask(with_stage(t, UserSetupStage::WriteKey))
                },
                None => setup_finish(t),
            }
        },
        UserSetupStage::WriteKey => if o is SpawnFailed {
            write_failure(s, o, "user.signingkey"@, key_to_write(s))
        } else {
            setup_finish(GitUserSetupView { key_set: true, ..s })
        },
        UserSetupStage::ReadKeyForNotice => UserSetupNext::Done(
            Ok(Some(configured_notice(s.account, signing_key(o)))),
        ),
    }
}

pub open spec fn notice_result_view(r: Result<Option<String>, ViewyardError>) -> Result<
    Option<Seq<char>>,
    ViewyardErrorView,
> {
    match r {
        Ok(n) => Ok(opt_view(n)),
        Err(e) => Err(e@),
    }
}

/// `step` is the exec form of `next` for the git user setup.
pub open spec fn user_setup_step_is(step: Step<GitUserSetup, Result<Option<String>, ViewyardError>>, next: UserSetupNext) -> bool {
    match next {
        UserSetupNext::Ask(st) => step matches Step::Ask(ns, req, s) && ns@.len() == 0 && s@ == st && req@ == RequestView::Run(
            user_setup_command(st),
        ),
        UserSetupNext::Done(r) => step matches Step::Done(ns, x) && ns@.len() == 0 && notice_result_view(x) == r,
    }
}

fn opt_eq(o: &Option<String>, v: &Vec<char>) -> (res: bool)
    ensures
        res == (opt_view(*o) == Some(v@)),
{
    match o {
        Some(s) => crate::text::chars_eq(&chars_of(s.as_str()), v),
        None => false,
    }
}

fn expected_email_of(account: &String) -> (res: Vec<char>)
    ensures
        res@ == expected_email(account@),
{
    let mut e = chars_of(account.as_str());
    push_str(&mut e, "@users.noreply.github.com");
    e
}

fn shown_key_of(k: &String) -> (res: Vec<char>)
    ensures
        res@ == shown_key(k@),
{
    let s = k.as_str();
    proof {
        vstd::utf8::encode_utf8_valid_utf8(k@);
    }
    let byte_len = s.as_bytes().len();
    if byte_len > 20 {
        let mut m: usize = 20;
        while m > 0 && !s.is_char_boundary(m)
            invariant
                m <= 20,
                s.spec_bytes() == vstd::utf8::encode_utf8(k@),
                vstd::utf8::valid_utf8(s.spec_bytes()),
                s.spec_bytes().len() > 20,
                boundary_at_most(s.spec_bytes(), m as int) == boundary_at_most(s.spec_bytes(), 20),
            decreases m,
        {
            m = m - 1;
        }
        let (a, _rest) = s.split_at(m);
        proof {
            vstd::utf8::encode_utf8_decode_utf8(a@);
            assert(m as int == boundary_at_most(s.spec_bytes(), m as int));
            assert(a.spec_bytes() == vstd::utf8::encode_utf8(a@));
            assert(a@ == decode_utf8(s.spec_bytes().subrange(0, m as int)));
            assert(s.spec_bytes().len() > 20);
        }
        let mut r = chars_of(a);
        push_str(&mut r, "...");
        r
    } else {
        chars_of(s)
    }
}

fn configured_notice_of(account: &String, key: &Option<String>) -> (res: String)
    ensures
        res@ == configured_notice(account@, opt_view(*key)),
{
    let mut t = chars_of("Configured git user: ");
    push_str(&mut t, account.as_str());
    push_str(&mut t, " <");
    push_all(&mut t, &expected_email_of(account));
    push_str(&mut t, ">");
    match key {
        Some(k) => {
            push_str(&mut t, ", signing: ");
            push_all(&mut t, &shown_key_of(k));
        },
        None => {},
    }
    string_of(&t)
}

/// Starts configuring the git user of the repository at `repo_path` for `account`:
/// `user.name` is set to the account, `user.email` to its GitHub no-reply address, and
/// `user.signingkey` to the global signing key, if there is one, each locally and only when
/// not already so. The result is the notice to show when anything was written.
pub fn validate_and_configure_git_user(repo_path: &str, account: &str) -> (res: (Invocation, GitUserSetup))
    ensures
        res.1@ == initial_setup(repo_path@, account@, None),
        res.0@ == user_setup_command(res.1@),
{
    let setup = GitUserSetup::start(crate::error::lit(repo_path), crate::error::lit(account), None);
    let inv = setup.command();
    (inv, setup)
}

pub open spec fn initial_setup(repo_path: Seq<char>, account: Seq<char>, context: Option<Seq<char>>) -> GitUserSetupView {
    GitUserSetupView {
        repo_path,
        account,
        context,
        stage: UserSetupStage::ReadName,
        current_name: None,
        current_email: None,
        current_key: None,
        name_set: false,
        email_set: false,
        global_key: None,
        key_set: false,
    }
}

impl GitUserSetup {
    pub fn start(repo_path: String, account: String, context: Option<String>) -> (res: GitUserSetup)
        ensures
            res@ == initial_setup(repo_path@, account@, opt_view(context)),
    {
        GitUserSetup {
            repo_path,
            account,
            context,
            stage: UserSetupStage::ReadName,
            current_name: None,
            current_email: None,
            current_key: None,
            name_set: false,
            email_set: false,
            global_key: None,
            key_set: false,
        }
    }

    /// The command the current stage runs.
    pub fn command(&self) -> (res: Invocation)
        ensures
            res@ == user_setup_command(self@),
    {
        let cwd = self.repo_path.as_str();
        match self.stage {
            UserSetupStage::ReadName => {
                let r = get_git_config("user.name", cwd);
                assert(r@ == user_setup_command(self@));
                r
            },
            UserSetupStage::ReadEmail => {
                let r = get_git_config("user.email", cwd);
                assert(r@ == user_setup_command(self@));
                r
            },
            UserSetupStage::ReadSigningKey => {
                let r = get_git_config("user.signingkey", cwd);
                assert(r@ == user_setup_command(self@));
                r
            },
            UserSetupStage::WriteName => {
                let r = set_git_config("user.name", self.account.as_str(), cwd);
                assert(r@ == user_setup_command(self@));
                r
            },
            UserSetupStage::WriteEmail => {
                let e = string_of(&expected_email_of(&self.account));
                let r = set_git_config("user.email", e.as_str(), cwd);
                assert(r@ == user_setup_command(self@));
                r
            },
            UserSetupStage::ReadGlobalKey => {
                let r = get_global_git_config("user.signingkey");
                assert(r@ == user_setup_command(self@));
                r
            },
            UserSetupStage::WriteKey => {
                let k = match &self.global_key {
                    Some(k) => k.clone(),
                    None => String::new(),
                };
                assert(k@ == key_to_write(self@)) by {
                    if self.global_key is None {
                        assert(k@ =~= seq![]);
                    }
                }
                let r = set_git_config("user.signingkey", k.as_str(), cwd);
                assert(r@ == user_setup_command(self@));
                r
            },
            UserSetupStage::ReadKeyForNotice => {
                let r = get_global_git_config("user.signingkey");
                assert(r@ == user_setup_command(self@));
                r
            },
        }
    }

    fn ask(self) -> (res: Step<GitUserSetup, Result<Option<String>, ViewyardError>>)
        ensures
            user_setup_step_is(res, UserSetupNext::Ask(self@)),
    {
        let inv = self.command();
        Step::Ask(Vec::new(), Request::Run(inv), self)
    }

    fn fail(self, e: ViewyardError) -> (res: Step<GitUserSetup, Result<Option<String>, ViewyardError>>)
        ensures
            user_setup_step_is(res, UserSetupNext::Done(Err(in_setup_context(self@, e@)))),
    {
        match self.context {
            Some(c) => Step::Done(Vec::new(), Err(e.context(c))),
            None => Step::Done(Vec::new(), Err(e)),
        }
    }

    fn finish(self) -> (res: Step<GitUserSetup, Result<Option<String>, ViewyardError>>)
        ensures
            user_setup_step_is(res, setup_finish(self@)),
    {
        if self.name_set || self.email_set || self.key_set {
            if self.key_set {
                let mut s = self;
                s.stage = UserSetupStage::ReadKeyForNotice;
                s.ask()
            } else {
                Step::Done(Vec::new(), Ok(Some(configured_notice_of(&self.account, &None))))
            }
        } else {
            Step::Done(Vec::new(), Ok(None))
        }
    }

    fn after_name(self) -> (res: Step<GitUserSetup, Result<Option<String>, ViewyardError>>)
        ensures
            user_setup_step_is(res, setup_after_name(self@)),
    {
        let expected = expected_email_of(&self.account);
        let mut s = self;
        if opt_eq(&s.current_email, &expected) {
            s.stage = UserSetupStage::ReadGlobalKey;
        } else {
            s.stage = UserSetupStage::WriteEmail;
        }
        s.ask()
    }

    fn write_error(&self, outcome: &ProcessOutcome, key: &str, value: &Vec<char>) -> (res: ViewyardError)
        ensures
            res@ == within(
                spawn_error(user_setup_command(self@), spawn_cause(*outcome)),
                "Failed to set "@ + key@ + " to '"@ + value@ + "'"@,
            ),
    {
        let inv = self.command();
        let cause = match outcome {
            ProcessOutcome::SpawnFailed(c) => c.clone(),
            ProcessOutcome::Finished(_) => String::new(),
        };
        let e = spawn_failure(&inv, &cause);
        let mut t = chars_of("Failed to set ");
        push_str(&mut t, key);
        push_str(&mut t, " to '");
        push_all(&mut t, value);
        push_str(&mut t, "'");
        e.context(string_of(&t))
    }

    /// The setup's next step once the current stage's command gave `outcome`.
    pub fn resume(self, outcome: &ProcessOutcome) -> (res: Step<GitUserSetup, Result<Option<String>, ViewyardError>>)
        ensures
            user_setup_step_is(res, user_setup_next(self@, *outcome)),
    {
        let inv = self.command();
        let value = match run_git_command_string(&inv, outcome) {
            Ok(v) => Some(v),
            Err(_) => None,
        };
        let mut s = self;
        match s.stage {
            UserSetupStage::ReadName => {
                s.current_name = value;
                s.stage = UserSetupStage::ReadEmail;
                s.ask()
            },
            UserSetupStage::ReadEmail => {
                s.current_email = value;
                s.stage = UserSetupStage::ReadSigningKey;
                s.ask()
            },
            UserSetupStage::ReadSigningKey => {
                s.current_key = value;
                let account = chars_of(s.account.as_str());
                if opt_eq(&s.current_name, &account) {
                    s.after_name()
                } else {
                    s.stage = UserSetupStage::WriteName;
                    s.ask()
                }
            },
            UserSetupStage::WriteName => {
                if let ProcessOutcome::SpawnFailed(_) = outcome {
                    let account = chars_of(s.account.as_str());
                    let e = s.write_error(outcome, "user.name", &account);
                    s.fail(e)
                } else {
                    s.name_set = true;
                    s.after_name()
                }
            },
            UserSetupStage::WriteEmail => {
                if let ProcessOutcome::SpawnFailed(_) = outcome {
                    let expected = expected_email_of(&s.account);
                    let e = s.write_error(outcome, "user.email", &expected);
                    s.fail(e)
                } else {
                    s.email_set = true;
                    s.stage = UserSetupStage::ReadGlobalKey;
                    s.ask()
                }
            },
            UserSetupStage::ReadGlobalKey => {
                s.global_key = detect_signing_key(outcome);
                match &s.global_key {
                    Some(k) => {
                        let kc = chars_of(k.as_str());
                        if opt_eq(&s.current_key, &kc) {
                            s.finish()
                        } else {
                            s.stage = UserSetupStage::WriteKey;
                            s.ask()
                        }
                    },
                    None => s.finish(),
                }
            },
            UserSetupStage::WriteKey => {
                if let ProcessOutcome::SpawnFailed(_) = outcome {
                    let k = match &s.global_key {
                        Some(k) => chars_of(k.as_str()),
                        None => Vec::new(),
                    };
                    let e = s.write_error(outcome, "user.signingkey", &k);
                    s.fail(e)
                } else {
                    s.key_set = true;
                    s.finish()
                }
            },
            UserSetupStage::ReadKeyForNotice => {
                let key = detect_signing_key(outcome);
                Step::Done(Vec::new(), Ok(Some(configured_notice_of(&s.account, &key))))
            },
        }
    }
}

} // verus!
