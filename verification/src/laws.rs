//! Properties the library keeps across calls.
use vstd::prelude::*;

use crate::command::invocation_of;
use crate::command::InvocationView;
use crate::git::chosen_protocol;
use crate::git::protocol_named;
use crate::git::config_read;
use crate::git::normalized_url;
use crate::git::url_for_account;
use crate::git::GitConfigScope;
use crate::git::GITHUB_HTTPS_PREFIX;
use crate::git::GITHUB_SSH_PREFIX;
use crate::models::GitProtocol;
use crate::text::starts_with;
use crate::text::find;
use crate::text::matches_at;
use crate::text::lemma_find_first;
use crate::text::lemma_find_none;
use crate::error::ErrorKindView;
use crate::error::ViewyardErrorView;
use crate::git::source_account;
use crate::git::GITHUB_SOURCE_MARK;
use crate::github::listed_source;
use crate::github::listed_repos;
use crate::guard::operations_account;
use crate::guard::guard_request;
use crate::guard::validation_request;
use crate::guard::RepoGuardView;
use crate::guard::RepoValidationView;
use crate::git::user_setup_command;
use crate::git::GitUserSetupView;
use crate::session::RequestView;
use crate::survey::survey_request;
use crate::survey::query_answer;
use crate::survey::survey_next;
use crate::survey::survey_wf;
use crate::survey::SurveyNext;
use crate::survey::SurveyQuery;
use crate::survey::SurveyStage;
use crate::survey::SurveyView;
use crate::batch::commit_request;
use crate::batch::commit_next;
use crate::batch::commit_wf;
use crate::batch::push_next;
use crate::batch::push_wf;
use crate::batch::CommitStage;
use crate::session::joined_path;
use crate::setup::setup_next;
use crate::setup::setup_request;
use crate::setup::SetupStage;
use crate::session::NoticeView;
use crate::command::ProcessOutcome;
use crate::setup::RepoSetupView;
use crate::setup::SetupNext;
use crate::view::REPOS_FILE;
use crate::views::tmp_path;
use crate::views::view_next;
use crate::views::view_path;
use crate::views::view_request;
use crate::views::setup_from;
use crate::views::work_dir;
use crate::views::view_run_wf;
use crate::views::ViewNext;
use crate::views::ViewRunView;
use crate::views::ViewStage;
use crate::viewset::not_existing;
use crate::viewset::repo_names;
use crate::viewset_commands::viewset_run_request;
use crate::viewset_commands::ViewsetRunView;
use crate::viewset_commands::ViewsetStage;
use crate::batch::PushStage;
use crate::batch::RunNext;
use crate::session::Reply;
use crate::batch::push_request;
use crate::batch::push_after_survey;
use crate::batch::push_command;
use crate::command::ProcessOutput;
use crate::github::all_discovery_next;
use crate::github::all_discovery_wf;
use crate::github::discovery_next;
use crate::github::AllDiscoveryNext;
use crate::github::AllDiscoveryStage;
use crate::github::AllDiscoveryView;
use crate::github::DiscoveryNext;
use crate::rebase::initial_rebase_repo;
use crate::rebase::rebase_repo_next;
use crate::rebase::rebase_run_next;
use crate::rebase::rebase_run_wf;
use crate::rebase::RebaseRepoNext;
use crate::rebase::RebaseRunStage;
use crate::status::repo_status_next;
use crate::status::status_line;
use crate::status::RepoStatusNext;
use crate::status::RepoStatusStage;
use crate::status::RepoStatusView;
use crate::survey::repo_dir;
use crate::text::contains;
use crate::text::decimal;
use crate::text::join;
use crate::text::lemma_find_props;
use crate::text::parse_u32;
use crate::text::trim;
use vstd::utf8::decode_utf8;
use vstd::utf8::valid_utf8;
use crate::batch::CommitRunView;
use crate::batch::PushRunView;
use crate::rebase::rebase_repo_request;
use crate::rebase::rebase_run_request;
use crate::rebase::RebaseRepoView;
use crate::rebase::RebaseRunView;
use crate::status::repo_status_request;
use crate::status::status_run_request;
use crate::status::sync_request;
use crate::status::StatusRunView;
use crate::status::all_on_first;
use crate::status::branch_consistency;
use crate::status::branch_groups;
use crate::status::group_index;
use crate::status::lemma_group_index;
use crate::survey::warning;
use crate::git::flush_host;
use crate::git::scan_lines;
use crate::git::ssh_aliases;
use crate::git::SshScan;
use crate::git::GITHUB_ALIAS_PREFIX;
use crate::text::lines;
use crate::view::loaded_repos;
use crate::models::RepositoryView;

verus! {

/// A flag given on the command line decides the protocol, whichever valid protocol the
/// environment names.
pub proof fn law_flag_overrides_environment(flag: Seq<char>, env: Option<Seq<char>>)
    requires
        env matches Some(e) ==> protocol_named(e) is Ok,
    ensures
        chosen_protocol(Some(flag), env) == protocol_named(flag),
{
}

/// A value given for the protocol, on the command line or in the environment, that is not
/// `ssh` or `https` is refused whatever the other value is.
pub proof fn law_invalid_protocol_refused(flag: Option<Seq<char>>, env: Option<Seq<char>>)
    ensures
        (flag matches Some(f) && protocol_named(f) is Err) || (env matches Some(e) && protocol_named(e) is Err)
            <==> chosen_protocol(flag, env) is Err,
{
}

/// Without a flag or an environment variable the protocol is SSH.
pub proof fn law_protocol_defaults_to_ssh()
    ensures
        chosen_protocol(None, None) == Ok::<GitProtocol, Seq<char>>(GitProtocol::Ssh),
{
}

proof fn lemma_prefixes_differ(s: Seq<char>)
    ensures
        starts_with(s, GITHUB_SSH_PREFIX()) ==> !starts_with(s, GITHUB_HTTPS_PREFIX()),
        starts_with(GITHUB_HTTPS_PREFIX() + s, GITHUB_HTTPS_PREFIX()),
        !starts_with(GITHUB_HTTPS_PREFIX() + s, GITHUB_SSH_PREFIX()),
        starts_with(GITHUB_SSH_PREFIX() + s, GITHUB_SSH_PREFIX()),
        !starts_with(GITHUB_SSH_PREFIX() + s, GITHUB_HTTPS_PREFIX()),
{
    reveal_strlit("git@github.com:");
    reveal_strlit("https://github.com/");
    let h = GITHUB_HTTPS_PREFIX();
    let g = GITHUB_SSH_PREFIX();
    assert((h + s).take(h.len() as int) =~= h);
    assert((g + s).take(g.len() as int) =~= g);
    if starts_with(s, g) && starts_with(s, h) {
        assert(s.take(g.len() as int)[0] == s[0]);
        assert(s.take(h.len() as int)[0] == s[0]);
        assert(false);
    }
    if starts_with(h + s, g) {
        assert((h + s).take(g.len() as int)[0] == (h + s)[0]);
        assert(false);
    }
    if starts_with(g + s, h) {
        assert((g + s).take(h.len() as int)[0] == (g + s)[0]);
        assert(false);
    }
}

/// Normalizing a URL twice for the same protocol gives what normalizing once gave.
pub proof fn law_normalize_idempotent(url: Seq<char>, protocol: GitProtocol)
    ensures
        normalized_url(normalized_url(url, protocol), protocol) == normalized_url(url, protocol),
{
    let h = GITHUB_HTTPS_PREFIX();
    let g = GITHUB_SSH_PREFIX();
    match protocol {
        GitProtocol::Https => {
            if starts_with(url, g) {
                lemma_prefixes_differ(url.skip(g.len() as int));
            }
        },
        GitProtocol::Ssh => {
            if starts_with(url, h) {
                lemma_prefixes_differ(url.skip(h.len() as int));
            }
        },
    }
}

/// A GitHub SSH URL converted to HTTPS and back is the URL it was.
pub proof fn law_normalize_ssh_round_trip(url: Seq<char>)
    requires
        starts_with(url, GITHUB_SSH_PREFIX()),
    ensures
        normalized_url(normalized_url(url, GitProtocol::Https), GitProtocol::Ssh) == url,
{
    let h = GITHUB_HTTPS_PREFIX();
    let g = GITHUB_SSH_PREFIX();
    let path = url.skip(g.len() as int);
    lemma_prefixes_differ(path);
    assert((h + path).skip(h.len() as int) =~= path);
    assert(g + path =~= url);
}

/// A GitHub HTTPS URL converted to SSH and back is the URL it was.
pub proof fn law_normalize_https_round_trip(url: Seq<char>)
    requires
        starts_with(url, GITHUB_HTTPS_PREFIX()),
    ensures
        normalized_url(normalized_url(url, GitProtocol::Ssh), GitProtocol::Https) == url,
{
    let h = GITHUB_HTTPS_PREFIX();
    let g = GITHUB_SSH_PREFIX();
    let path = url.skip(h.len() as int);
    lemma_prefixes_differ(path);
    assert((g + path).skip(g.len() as int) =~= path);
    assert(h + path =~= url);
}

/// URLs that are not GitHub URLs of either form are never rewritten.
pub proof fn law_normalize_keeps_other_urls(url: Seq<char>, protocol: GitProtocol)
    requires
        !starts_with(url, GITHUB_SSH_PREFIX()),
        !starts_with(url, GITHUB_HTTPS_PREFIX()),
    ensures
        normalized_url(url, protocol) == url,
{
}

/// HTTPS URLs are used as they are, whatever SSH aliases exist for the account.
pub proof fn law_https_urls_not_aliased(url: Seq<char>, account: Seq<char>, aliases: Map<Seq<char>, Seq<char>>)
    requires
        starts_with(url, "https://"@),
    ensures
        url_for_account(url, account, aliases) == url,
{
}

/// A git invocation that writes to the global configuration: `git config --global` with a
/// value after the key.
pub open spec fn writes_global_config(inv: InvocationView) -> bool {
    &&& inv.program == "git"@
    &&& inv.args.len() >= 4
    &&& inv.args[0] == "config"@
    &&& inv.args[1] == "--global"@
}

/// Reading configuration never writes the global configuration, whatever the scope.
pub proof fn law_config_reads_never_write_global(key: Seq<char>, scope: GitConfigScope, cwd: Option<Seq<char>>)
    ensures
        config_read(key, scope, cwd) matches Ok(inv) ==> !writes_global_config(inv),
{
}

/// Setting configuration goes to the repository's local configuration.
pub proof fn law_config_writes_are_local(key: Seq<char>, value: Seq<char>, cwd: Seq<char>)
    ensures
        !writes_global_config(
            invocation_of(seq!["config"@, "--local"@, key, value], Some(cwd)),
        ),
{
    reveal_strlit("--local");
    reveal_strlit("--global");
    assert(("--local"@)[2] != ("--global"@)[2]);
}


// ---------------------------------------------------------------------------
// Discovery and the account of a repository
// ---------------------------------------------------------------------------

/// A name with no `)` and no `/` in it, as GitHub account and organization names are.
pub open spec fn plain_name(n: Seq<char>) -> bool {
    forall|i: int| 0 <= i < n.len() ==> #[trigger] n[i] != ')' && n[i] != '/'
}

proof fn lemma_find_char(s: Seq<char>, c: char, i: int)
    requires
        0 <= i <= s.len(),
        forall|k: int| 0 <= k < i ==> #[trigger] s[k] != c,
        i < s.len() ==> s[i] == c,
    ensures
        find(s, seq![c]) == if i < s.len() {
            i
        } else {
            -1
        },
{
    let p = seq![c];
    assert forall|k: int| matches_at(s, p, k) implies k >= i && (i < s.len() ==> k >= i) by {
        assert(s.subrange(k, k + 1)[0] == s[k]);
    }
    if i < s.len() {
        assert(s.subrange(i, i + 1) =~= p);
        assert forall|k: int| 0 <= k < i implies !#[trigger] matches_at(s, p, k) by {
            if matches_at(s, p, k) {
                assert(s.subrange(k, k + 1)[0] == s[k]);
            }
        }
        lemma_find_first(s, p, i);
    } else {
        assert forall|k: int| !#[trigger] matches_at(s, p, k) by {
            if matches_at(s, p, k) {
                assert(s.subrange(k, k + 1)[0] == s[k]);
            }
        }
        lemma_find_none(s, p);
    }
}

/// The source that discovery writes for a repository names the account it was found
/// under, and `extract_account_from_source` reads that account back.
pub proof fn law_discovered_source_names_account(account: Seq<char>, org: Option<Seq<char>>, is_private: bool)
    requires
        account.len() > 0,
        plain_name(account),
        org matches Some(o) ==> plain_name(o),
    ensures
        source_account(listed_source(account, org, is_private)) == Ok::<Seq<char>, ErrorKindView>(account),
{
    reveal_strlit("GitHub (");
    reveal_strlit(")");
    reveal_strlit("/");
    reveal_strlit(" [private]");
    let mark = GITHUB_SOURCE_MARK();
    let inner = match org {
        Some(o) => o + "/"@ + account,
        None => account,
    };
    let tail = if is_private {
        " [private]"@
    } else {
        seq![]
    };
    let src = listed_source(account, org, is_private);
    assert(src =~= mark + (inner + (")"@ + tail)));
    assert(matches_at(src, mark, 0)) by {
        assert(src.subrange(0, mark.len() as int) =~= mark);
    }
    lemma_find_first(src, mark, 0);
    let remaining = src.skip(mark.len() as int);
    assert(remaining =~= inner + (")"@ + tail));
    assert forall|k: int| 0 <= k < inner.len() implies #[trigger] remaining[k] != ')' by {
        match org {
            Some(o) => {
                if k < o.len() {
                    assert(inner[k] == o[k]);
                } else if k > o.len() {
                    assert(inner[k] == account[k - o.len() - 1]);
                }
            },
            None => {},
        }
    }
    assert(remaining[inner.len() as int] == ')');
    assert(")"@ =~= seq![')']);
    lemma_find_char(remaining, ')', inner.len() as int);
    let part = remaining.take(inner.len() as int);
    assert(part =~= inner);
    assert("/"@ =~= seq!['/']);
    match org {
        Some(o) => {
            assert(part[o.len() as int] == '/');
            assert forall|k: int| 0 <= k < o.len() implies #[trigger] part[k] != '/' by {
                assert(part[k] == o[k]);
            }
            lemma_find_char(part, '/', o.len() as int);
            assert(part.skip(o.len() as int + 1) =~= account);
        },
        None => {
            lemma_find_char(part, '/', part.len() as int);
        },
    }
}

/// Every repository discovered under an account is set up for that account.
pub proof fn law_discovered_repos_belong_to_account(
    es: Seq<(Option<Seq<char>>, Option<Seq<char>>, Option<bool>)>,
    account: Seq<char>,
    org: Option<Seq<char>>,
    protocol: GitProtocol,
    aliases: Map<Seq<char>, Seq<char>>,
    i: int,
)
    requires
        0 <= i < listed_repos(es, account, org, protocol, aliases).len(),
    ensures
        listed_repos(es, account, org, protocol, aliases)[i].account == Some(account),
        operations_account(listed_repos(es, account, org, protocol, aliases)[i]) == Ok::<Seq<char>, ViewyardErrorView>(account),
    decreases es.len(),
{
    if es.len() > 0 {
        let rest = listed_repos(es.drop_last(), account, org, protocol, aliases);
        if i < rest.len() {
            law_discovered_repos_belong_to_account(es.drop_last(), account, org, protocol, aliases, i);
        }
    }
}


// ---------------------------------------------------------------------------
// The global git configuration is never written
// ---------------------------------------------------------------------------

/// A request that runs a git command writing the global configuration.
pub open spec fn request_writes_global(req: RequestView) -> bool {
    req matches RequestView::Run(inv) && writes_global_config(inv)
}

proof fn lemma_words_differ()
    ensures
        "status"@ != "config"@,
        "add"@ != "config"@,
        "commit"@ != "config"@,
        "reset"@ != "config"@,
        "push"@ != "config"@,
        "fetch"@ != "config"@,
        "branch"@ != "config"@,
        "merge"@ != "config"@,
        "rebase"@ != "config"@,
        "rev-list"@ != "config"@,
        "stash"@ != "config"@,
        "symbolic-ref"@ != "config"@,
        "remote"@ != "config"@,
        "show-ref"@ != "config"@,
        "--local"@ != "--global"@,
        "clone"@ != "config"@,
        "checkout"@ != "config"@,
        "--version"@ != "config"@,
        "gh"@ != "git"@,
{
    reveal_strlit("config");
    reveal_strlit("status");
    reveal_strlit("add");
    reveal_strlit("commit");
    reveal_strlit("reset");
    reveal_strlit("push");
    reveal_strlit("fetch");
    reveal_strlit("branch");
    reveal_strlit("merge");
    reveal_strlit("rebase");
    reveal_strlit("rev-list");
    reveal_strlit("stash");
    reveal_strlit("symbolic-ref");
    reveal_strlit("remote");
    reveal_strlit("show-ref");
    reveal_strlit("--local");
    reveal_strlit("--global");
    reveal_strlit("clone");
    reveal_strlit("checkout");
    reveal_strlit("--version");
    reveal_strlit("gh");
    reveal_strlit("git");
    assert(("clone"@)[1] != ("config"@)[1]);
    assert(("checkout"@)[1] != ("config"@)[1]);
    assert(("--version"@)[0] != ("config"@)[0]);
    assert(("gh"@).len() != ("git"@).len());
    assert(("status"@)[0] != ("config"@)[0]);
    assert(("commit"@)[2] != ("config"@)[2]);
    assert(("branch"@)[0] != ("config"@)[0]);
    assert(("rebase"@)[0] != ("config"@)[0]);
    assert(("remote"@)[0] != ("config"@)[0]);
    assert(("--local"@)[2] != ("--global"@)[2]);
}

/// Configuring a repository's git user (`validate_and_configure_git_user`) never writes
/// the global git configuration: no command it runs, in any of its states, does.
pub proof fn law_user_setup_keeps_global_config(s: GitUserSetupView)
    ensures
        !writes_global_config(user_setup_command(s)),
{
    lemma_words_differ();
}

proof fn lemma_validation_local(v: RepoValidationView)
    ensures
        !request_writes_global(validation_request(v)),
{
    law_user_setup_keeps_global_config(v.setup->0);
}

proof fn lemma_guard_local(v: RepoGuardView)
    ensures
        !request_writes_global(guard_request(v)),
{
    lemma_validation_local(v.validation->0);
}

proof fn lemma_survey_local(v: SurveyView)
    ensures
        !request_writes_global(survey_request(v)),
{
    lemma_words_differ();
    lemma_guard_local(v.guard->0);
}

proof fn lemma_rebase_repo_local(v: RebaseRepoView)
    ensures
        !request_writes_global(rebase_repo_request(v)),
{
    lemma_words_differ();
}

proof fn lemma_status_parts_local(v: StatusRunView)
    ensures
        !request_writes_global(sync_request(v.sync->0)),
        !request_writes_global(repo_status_request(v.status->0)),
{
    lemma_words_differ();
}

/// No request that a workspace command makes, in any of its states, writes the global
/// git configuration: the git user of a repository is only ever configured locally.
pub proof fn law_workspace_commands_keep_global_config(
    commit: CommitRunView,
    push: PushRunView,
    rebase: RebaseRunView,
    status: StatusRunView,
)
    ensures
        !request_writes_global(commit_request(commit)),
        !request_writes_global(push_request(push)),
        !request_writes_global(rebase_run_request(rebase)),
        !request_writes_global(status_run_request(status)),
{
    lemma_words_differ();
    lemma_survey_local(commit.survey->0);
    lemma_survey_local(push.survey->0);
    lemma_survey_local(rebase.survey->0);
    lemma_rebase_repo_local(rebase.repo->0);
    lemma_guard_local(status.guard->0);
    lemma_status_parts_local(status);
}


// ---------------------------------------------------------------------------
// commit-all and push-all work through their targets in order
// ---------------------------------------------------------------------------

pub open spec fn commit_acting(v: CommitRunView) -> bool {
    v.stage == CommitStage::Add || v.stage == CommitStage::Commit || v.stage == CommitStage::Reset
}

/// While committing, the repositories reported as committed are exactly the targets
/// before the current one.
pub open spec fn commit_progress(v: CommitRunView) -> bool {
    commit_acting(v) ==> v.index <= v.targets.len() && v.committed == v.targets.take(v.index as int)
}

/// `commit-all` keeps its progress through every step: targets are committed one after
/// the other, in order, and it succeeds only once the last target is committed.
pub proof fn law_commit_all_in_order(v: CommitRunView, reply: Reply)
    requires
        commit_wf(v),
        commit_progress(v),
    ensures
        commit_next(v, reply).1 matches RunNext::Continue(w) ==> commit_progress(w),
        commit_acting(v) && commit_next(v, reply).1 == RunNext::<CommitRunView>::Finished(Ok(())) ==> (
            v.stage == CommitStage::Commit && v.index + 1 == v.targets.len()),
{
    if v.stage == CommitStage::Commit {
        assert(v.targets.take(v.index as int + 1) =~= v.targets.take(v.index as int).push(v.targets[v.index as int]));
    }
    if v.stage == CommitStage::Loading || v.stage == CommitStage::Surveying {
        assert forall|t: Seq<Seq<char>>| #[trigger] t.take(0) == Seq::<Seq<char>>::empty() by {
            assert(t.take(0) =~= Seq::<Seq<char>>::empty());
        }
    }
}

pub open spec fn push_progress(v: PushRunView) -> bool {
    v.stage == PushStage::Push ==> v.index <= v.targets.len() && v.pushed == v.targets.take(v.index as int)
}

/// `push-all` pushes its targets one after the other, in order, and succeeds only once
/// the last target is pushed.
pub proof fn law_push_all_in_order(v: PushRunView, reply: Reply)
    requires
        push_wf(v),
        push_progress(v),
    ensures
        push_next(v, reply).1 matches RunNext::Continue(w) ==> push_progress(w),
        v.stage == PushStage::Push && push_next(v, reply).1 == RunNext::<PushRunView>::Finished(Ok(())) ==> v.index + 1 == v.targets.len(),
{
    if v.stage == PushStage::Push {
        assert(v.targets.take(v.index as int + 1) =~= v.targets.take(v.index as int).push(v.targets[v.index as int]));
    }
    if v.stage == PushStage::Loading || v.stage == PushStage::Surveying {
        assert forall|t: Seq<Seq<char>>| #[trigger] t.take(0) == Seq::<Seq<char>>::empty() by {
            assert(t.take(0) =~= Seq::<Seq<char>>::empty());
        }
    }
}


// ---------------------------------------------------------------------------
// status: the branch consistency of a view
// ---------------------------------------------------------------------------

proof fn lemma_groups_one_branch(pairs: Seq<(Seq<char>, Seq<char>)>, b: Seq<char>)
    requires
        pairs.len() >= 1,
        forall|i: int| 0 <= i < pairs.len() ==> #[trigger] pairs[i].1 == b,
    ensures
        branch_groups(pairs).len() == 1,
        branch_groups(pairs)[0].0 == b,
    decreases pairs.len(),
{
    let rest = pairs.drop_last();
    let g = branch_groups(rest);
    assert(pairs.last().1 == b);
    if pairs.len() > 1 {
        assert forall|i: int| 0 <= i < rest.len() implies #[trigger] rest[i].1 == b by {
            assert(rest[i] == pairs[i]);
        }
        lemma_groups_one_branch(rest, b);
        assert(g.last() == g[0]);
        assert(group_index(g, b) == 0);
    } else {
        assert(g.len() == 0);
        assert(group_index(g, b) == -1);
    }
}

proof fn lemma_group_index_same_keys(g: Seq<(Seq<char>, Seq<Seq<char>>)>, h: Seq<(Seq<char>, Seq<Seq<char>>)>, b: Seq<char>)
    requires
        g.len() == h.len(),
        forall|i: int| 0 <= i < g.len() ==> #[trigger] g[i].0 == h[i].0,
    ensures
        group_index(g, b) == group_index(h, b),
    decreases g.len(),
{
    if g.len() > 0 {
        let g2 = g.drop_last();
        let h2 = h.drop_last();
        assert forall|i: int| 0 <= i < g2.len() implies #[trigger] g2[i].0 == h2[i].0 by {
            assert(g2[i] == g[i]);
            assert(h2[i] == h[i]);
        }
        lemma_group_index_same_keys(g2, h2, b);
    }
}

proof fn lemma_group_index_push(g: Seq<(Seq<char>, Seq<Seq<char>>)>, x: (Seq<char>, Seq<Seq<char>>), b: Seq<char>)
    requires
        group_index(g, b) >= 0,
    ensures
        group_index(g.push(x), b) >= 0,
{
    if x.0 != b {
        assert(g.push(x).drop_last() =~= g);
    }
}

/// Every branch that occurs has a group.
proof fn lemma_groups_cover(pairs: Seq<(Seq<char>, Seq<char>)>, i: int)
    requires
        0 <= i < pairs.len(),
    ensures
        group_index(branch_groups(pairs), pairs[i].1) >= 0,
    decreases pairs.len(),
{
    let g = branch_groups(pairs.drop_last());
    let (repo, branch) = pairs.last();
    let k = group_index(g, branch);
    lemma_group_index(g, branch);
    if i < pairs.len() - 1 {
        lemma_groups_cover(pairs.drop_last(), i);
        assert(pairs.drop_last()[i] == pairs[i]);
        if k < 0 {
            lemma_group_index_push(g, (branch, seq![repo]), pairs[i].1);
        } else {
            let h = g.update(k, (branch, g[k].1.push(repo)));
            lemma_group_index_same_keys(g, h, pairs[i].1);
        }
    } else {
        if k < 0 {
            assert(g.push((branch, seq![repo])).last().0 == branch);
        } else {
            let h = g.update(k, (branch, g[k].1.push(repo)));
            lemma_group_index_same_keys(g, h, branch);
        }
    }
}

/// `status` warns of a branch mismatch exactly when the repositories are not all on one
/// branch.
pub proof fn law_branch_mismatch_warned_iff_mixed(pairs: Seq<(Seq<char>, Seq<char>)>)
    ensures
        branch_consistency(pairs).len() == 0 <==> all_on_first(pairs),
{
    if pairs.len() <= 1 {
    } else if all_on_first(pairs) {
        lemma_groups_one_branch(pairs, pairs[0].1);
    } else {
        let j = choose|j: int| 0 <= j < pairs.len() && (#[trigger] pairs[j]).1 != pairs[0].1;
        let g = branch_groups(pairs);
        lemma_groups_cover(pairs, 0);
        lemma_groups_cover(pairs, j);
        lemma_group_index(g, pairs[0].1);
        lemma_group_index(g, pairs[j].1);
        assert(group_index(g, pairs[0].1) != group_index(g, pairs[j].1));
        assert(g.len() > 1);
        assert(branch_consistency(pairs)[0] == warning("Branch mismatch detected:"@));
    }
}


// ---------------------------------------------------------------------------
// SSH host aliases
// ---------------------------------------------------------------------------

/// Every alias names a host `github.com-<account>`.
pub open spec fn aliases_well_named(m: Map<Seq<char>, Seq<char>>) -> bool {
    forall|k: Seq<char>| #[trigger] m.contains_key(k) ==> starts_with(m[k], GITHUB_ALIAS_PREFIX())
}

proof fn lemma_flush_keeps_names(s: SshScan)
    requires
        aliases_well_named(s.aliases),
    ensures
        aliases_well_named(flush_host(s)),
{
}

proof fn lemma_scan_keeps_names(ls: Seq<Seq<char>>)
    ensures
        aliases_well_named(scan_lines(ls).aliases),
    decreases ls.len(),
{
    if ls.len() > 0 {
        lemma_scan_keeps_names(ls.drop_last());
        lemma_flush_keeps_names(scan_lines(ls.drop_last()));
    }
}

/// The aliases read from an SSH configuration all name hosts `github.com-<account>`.
pub proof fn law_detected_aliases_are_github_hosts(config: Seq<char>)
    ensures
        aliases_well_named(ssh_aliases(config)),
{
    lemma_scan_keeps_names(lines(config));
    lemma_flush_keeps_names(scan_lines(lines(config)));
}

/// Pointing a URL at an account's SSH host alias twice gives what doing it once gave:
/// a URL already on an alias host is left alone.
pub proof fn law_alias_transform_idempotent(url: Seq<char>, account: Seq<char>, aliases: Map<Seq<char>, Seq<char>>)
    requires
        aliases_well_named(aliases),
    ensures
        url_for_account(url_for_account(url, account, aliases), account, aliases) == url_for_account(url, account, aliases),
{
    reveal_strlit("git@github.com:");
    reveal_strlit("github.com-");
    reveal_strlit("git@");
    reveal_strlit(":");
    reveal_strlit("https://");
    let g = GITHUB_SSH_PREFIX();
    let once = url_for_account(url, account, aliases);
    if !starts_with(url, "https://"@) && starts_with(url, g) && aliases.contains_key(account) {
        let alias = aliases[account];
        let to = "git@"@ + alias + ":"@;
        assert(find(url, g) == 0) by {
            assert(url.take(g.len() as int) == g);
        }
        assert(once =~= url.take(0) + to + crate::text::replace_all(url.skip(g.len() as int), g, to));
        assert(starts_with(alias, GITHUB_ALIAS_PREFIX()));
        assert(alias.take(11)[10] == '-');
        assert(once[14] == alias[10]);
        assert(!starts_with(once, g)) by {
            if starts_with(once, g) {
                assert(once.take(15)[14] == g[14]);
            }
        }
        assert(!starts_with(once, "https://"@)) by {
            if starts_with(once, "https://"@) {
                assert(once.take(8)[0] == ("https://"@)[0]);
            }
        }
    }
}


// ---------------------------------------------------------------------------
// Loading a viewset's repositories
// ---------------------------------------------------------------------------

/// Loading the repositories of a viewset keeps each one, in order, with its name,
/// privacy, source and account; only its URL may change.
pub proof fn law_loading_keeps_repositories(
    rs: Seq<RepositoryView>,
    file: Seq<char>,
    protocol: Option<GitProtocol>,
    aliases: Map<Seq<char>, Seq<char>>,
)
    ensures
        loaded_repos(rs, file, protocol, aliases).1 matches Ok(out) ==> {
            &&& out.len() == rs.len()
            &&& forall|i: int| 0 <= i < rs.len() ==> {
                &&& #[trigger] out[i].name == rs[i].name
                &&& out[i].is_private == rs[i].is_private
                &&& out[i].source == rs[i].source
                &&& out[i].account == rs[i].account
            }
        },
{
}


// ---------------------------------------------------------------------------
// Views and viewsets
// ---------------------------------------------------------------------------

/// `viewset update` offers exactly the discovered repositories whose name the viewset
/// does not hold yet: none it holds, and every one it lacks.
pub proof fn law_update_offers_only_new_repositories(all: Seq<RepositoryView>, existing: Seq<RepositoryView>)
    ensures
        forall|i: int| 0 <= i < not_existing(all, existing).len()
            ==> !repo_names(existing).contains(#[trigger] not_existing(all, existing)[i].name),
        forall|j: int| 0 <= j < all.len() && !repo_names(existing).contains(#[trigger] all[j].name)
            ==> not_existing(all, existing).contains(all[j]),
    decreases all.len(),
{
    if all.len() > 0 {
        let init = all.drop_last();
        law_update_offers_only_new_repositories(init, existing);
        let rest = not_existing(init, existing);
        assert forall|j: int| 0 <= j < all.len() && !repo_names(existing).contains(#[trigger] all[j].name)
            implies not_existing(all, existing).contains(all[j]) by {
            if j < all.len() - 1 {
                assert(init[j] == all[j]);
                let k = choose|k: int| 0 <= k < rest.len() && rest[k] == init[j];
                if repo_names(existing).contains(all.last().name) {
                    assert(not_existing(all, existing)[k] == all[j]);
                } else {
                    assert(not_existing(all, existing) == rest.push(all.last()));
                    assert(not_existing(all, existing)[k] == all[j]);
                }
            } else {
                assert(not_existing(all, existing) == rest.push(all.last()));
                assert(not_existing(all, existing)[rest.len() as int] == all[j]);
            }
        }
    }
}

/// The list an update writes holds the repositories the viewset held, in order, followed
/// by those chosen: an update never drops or reorders a repository.
pub proof fn law_update_keeps_existing_repositories(v: ViewsetRunView)
    requires
        !v.creating,
        v.stage == ViewsetStage::WriteRepos,
    ensures
        viewset_run_request(v) == RequestView::WriteRepositories(
            joined_path(v.current_dir, REPOS_FILE()),
            v.existing + v.selected,
        ),
        (v.existing + v.selected).take(v.existing.len() as int) == v.existing,
        (v.existing + v.selected).skip(v.existing.len() as int) == v.selected,
{
    assert((v.existing + v.selected).take(v.existing.len() as int) =~= v.existing);
    assert((v.existing + v.selected).skip(v.existing.len() as int) =~= v.selected);
}

/// A new view is built in its temporary directory: when setting a repository up fails,
/// the command goes on to remove that directory, and then fails with the setup's error,
/// whatever the removal gave.
pub proof fn law_failed_view_create_removes_temporary_view(v: ViewRunView, reply: Reply, f: ViewyardErrorView, cleanup: Reply)
    requires
        v.creating,
        v.stage == ViewStage::Setup,
        view_run_wf(v),
        setup_next(v.setup->0, reply).1 == SetupNext::Finished(Err(f)),
    ensures
        view_next(v, reply).1 matches ViewNext::Continue(w) && {
            &&& w.stage == ViewStage::Cleanup
            &&& view_request(w) == RequestView::RemoveDirAll(tmp_path(view_path(v)))
            &&& w.failure matches Some(e) && e.kind == f.kind
                && view_next(w, cleanup).1 == ViewNext::Finished(Err(e))
        },
{
}

/// A new view is moved into place only once the last of its repositories is set up.
pub proof fn law_view_create_finalizes_after_every_repository(v: ViewRunView, reply: Reply)
    requires
        v.creating,
        v.stage == ViewStage::Setup,
        view_run_wf(v),
    ensures
        view_next(v, reply).1 matches ViewNext::Continue(w) && w.stage == ViewStage::Finalize
            ==> v.index + 1 == v.targets.len() && setup_next(v.setup->0, reply).1 == SetupNext::Finished(Ok(())),
{
}

proof fn lemma_setup_local(v: RepoSetupView)
    ensures
        !request_writes_global(setup_request(v)),
{
    lemma_words_differ();
    lemma_validation_local(v.validation->0);
    law_user_setup_keeps_global_config(v.user->0);
}

/// No request that a view or viewset command makes, in any of its states, writes the
/// global git configuration: cloning into a view configures each repository locally.
pub proof fn law_view_and_viewset_commands_keep_global_config(view: ViewRunView, viewset: ViewsetRunView)
    ensures
        !request_writes_global(view_request(view)),
        !request_writes_global(viewset_run_request(viewset)),
{
    lemma_words_differ();
    lemma_setup_local(view.setup->0);
}

/// The repositories a survey has picked once its step led to `next`.
pub open spec fn picked_after(next: SurveyNext) -> Seq<Seq<char>> {
    match next {
        SurveyNext::Continue(w) => w.chosen,
        SurveyNext::Finished(c) => c,
    }
}

/// The pass behind `commit-all` and `push-all` picks a repository exactly when its query
/// says yes (changes for `commit-all`, commits not pushed for `push-all`), and never
/// drops one it picked before.
pub proof fn law_survey_picks_exactly_what_the_query_confirms(v: SurveyView, reply: Reply)
    requires
        survey_wf(v),
        v.query != SurveyQuery::Nothing,
    ensures
        ({
            let picked = picked_after(survey_next(v, reply).1);
            if v.stage == SurveyStage::Query && query_answer(v.query, reply) == Ok::<bool, ViewyardErrorView>(true) {
                picked == v.chosen.push(v.repos[v.index as int].name)
            } else {
                picked == v.chosen
            }
        }),
{
}

/// Every repository of a view is set up on the view's branch, in the view's working
/// directory: the temporary one while the view is created.
pub proof fn law_view_repositories_use_the_view_branch(v: ViewRunView, j: nat, ns: Seq<NoticeView>)
    requires
        j < v.targets.len(),
    ensures
        setup_from(v, j, ns).1 matches ViewNext::Continue(w) && w.setup matches Some(s) && {
            &&& s.branch == v.view_name
            &&& s.repo == v.targets[j as int]
            &&& s.dir == work_dir(v)
            &&& v.creating ==> s.dir == tmp_path(view_path(v))
        },
{
}

/// Setting a repository up succeeds only once `git checkout <branch>` or
/// `git checkout -b <branch>` succeeded in it, or, when it is found already there, without
/// touching it.
pub proof fn law_setup_succeeds_only_on_its_branch(v: RepoSetupView, reply: Reply)
    ensures
        setup_next(v, reply).1 == SetupNext::Finished(Ok(())) ==> {
            ||| v.stage == SetupStage::Exists && reply == Reply::Flag(true)
            ||| {
                &&& v.stage == SetupStage::Checkout || v.stage == SetupStage::Create
                &&& setup_request(v) matches RequestView::Run(inv) && inv.args.last() == v.branch
                    && inv.args[0] == "checkout"@
                &&& reply matches Reply::Ran(ProcessOutcome::Finished(out)) && out.success
            }
        },
{
}


// ---------------------------------------------------------------------------
// What the workspace commands and discovery do with what they found
// ---------------------------------------------------------------------------

/// Once the survey of `push-all` has chosen repositories, the command's targets are
/// exactly those, in order, none pushed yet, and it starts by pushing the first of them;
/// with `law_push_all_in_order` every chosen repository is pushed before it succeeds.
pub proof fn law_push_all_targets_every_chosen_repository(v: PushRunView, chosen: Seq<Seq<char>>, ns: Seq<NoticeView>)
    requires
        chosen.len() > 0,
    ensures
        push_after_survey(v, chosen, ns).1 matches RunNext::Continue(w) && {
            &&& w.targets == chosen
            &&& w.index == 0
            &&& w.pushed.len() == 0
            &&& w.stage == PushStage::Push
            &&& push_progress(w)
            &&& push_request(w) == RequestView::Run(push_command(repo_dir(v.root, chosen[0])))
        },
{
    assert(chosen.take(0) =~= Seq::<Seq<char>>::empty());
}

/// `commit-all` picks a repository exactly when `git status --porcelain` ran and printed
/// something other than blanks, whatever it printed (untracked files too).
pub proof fn law_commit_all_picks_repositories_with_any_status_output(v: SurveyView, out: ProcessOutput)
    requires
        survey_wf(v),
        v.query == SurveyQuery::Changes,
        v.stage == SurveyStage::Query,
        out.success,
        valid_utf8(out.stdout@),
    ensures
        picked_after(survey_next(v, Reply::Ran(ProcessOutcome::Finished(out))).1) == if trim(decode_utf8(out.stdout@)).len() > 0 {
            v.chosen.push(v.repos[v.index as int].name)
        } else {
            v.chosen
        },
{
}

proof fn lemma_contains_at(s: Seq<char>, p: Seq<char>, i: int)
    requires
        matches_at(s, p, i),
    ensures
        contains(s, p),
{
    lemma_find_props(s, p);
}

proof fn lemma_join_push(items: Seq<Seq<char>>, sep: Seq<char>, x: Seq<char>)
    ensures
        join(items.push(x), sep) == if items.len() == 0 {
            x
        } else {
            join(items, sep) + sep + x
        },
{
    assert(items.push(x).drop_last() =~= items);
    if items.len() == 0 {
        assert(items.push(x).len() == 1);
    }
}

/// `status` shows a repository with commits ahead of its upstream with their number: when
/// `git rev-list --count @{u}..HEAD` printed a count `n > 0`, the repository's line says
/// `n commits ahead` (so the summary counts it as ahead).
pub proof fn law_status_shows_commits_ahead(v: RepoStatusView, out: ProcessOutput, n: u32)
    requires
        v.stage == RepoStatusStage::Ahead,
        out.success,
        valid_utf8(out.stdout@),
        parse_u32(trim(decode_utf8(out.stdout@))) == Some(n),
        n > 0,
    ensures
        repo_status_next(v, Reply::Ran(ProcessOutcome::Finished(out))).1 matches RepoStatusNext::Finished(Ok(Some(line))) && {
            &&& contains(line, decimal(n as nat) + " commits ahead"@)
            &&& contains(line, "ahead"@)
        },
{
    let p = decimal(n as nat) + " commits ahead"@;
    let w = RepoStatusView { parts: v.parts.push(p), ..v };
    let line = status_line(w);
    lemma_join_push(v.parts, ", "@, p);
    let a = if v.parts.len() == 0 { Seq::<char>::empty() } else { join(v.parts, ", "@) + ", "@ };
    assert(join(v.parts.push(p), ", "@) =~= a + p);
    let summary = if w.stashes > 0 {
        let st = decimal(w.stashes) + " stashes"@;
        lemma_join_push(v.parts.push(p), ", "@, st);
        assert(join(v.parts.push(p).push(st), ", "@) =~= a + p + (", "@ + st));
        a + p + (", "@ + st)
    } else {
        a + p
    };
    let icon = if v.has_changes { "!"@ } else { "→"@ };
    let prefix = icon + " "@ + v.name + " ("@ + v.branch + ") - "@;
    assert(line =~= prefix + summary);
    let i: int = prefix.len() as int + a.len() as int;
    assert(line.subrange(i, i + p.len()) =~= p);
    lemma_contains_at(line, p, i);
    reveal_strlit(" commits ahead");
    reveal_strlit("ahead");
    let k: int = i + p.len() as int - 5;
    assert(line.subrange(k, k + 5) =~= "ahead"@);
    lemma_contains_at(line, "ahead"@, k);
}

/// `rebase` goes on after each repository, whether it was rebased or failed: the next
/// target is started (with its fetch) or, after the last, the summary is given; and each
/// repository done is recorded as rebased or as failed.
pub proof fn law_rebase_attempts_every_target(v: RebaseRunView, reply: Reply, r: Result<(), ViewyardErrorView>)
    requires
        rebase_run_wf(v),
        v.stage == RebaseRunStage::Repo,
        rebase_repo_next(v.repo->0, reply).1 == RebaseRepoNext::Finished(r),
    ensures
        v.index + 1 < v.targets.len() ==> (rebase_run_next(v, reply).1 matches RunNext::Continue(w) && {
            &&& w.stage == RebaseRunStage::Repo
            &&& w.index == v.index + 1
            &&& w.repo == Some(initial_rebase_repo(repo_dir(v.root, v.targets[v.index + 1 as int])))
            &&& w.rebased.len() + w.failed.len() == v.rebased.len() + v.failed.len() + 1
        }),
        v.index + 1 == v.targets.len() ==> rebase_run_next(v, reply).1 is Finished,
{
}

/// The repositories gathered by a discovery step, when it did not fail.
pub open spec fn gathered(next: AllDiscoveryNext) -> Option<Seq<RepositoryView>> {
    match next {
        AllDiscoveryNext::Continue(w) => Some(w.all),
        AllDiscoveryNext::Finished(Ok(a)) => Some(a),
        AllDiscoveryNext::Finished(Err(_)) => None,
    }
}

/// Discovery over every account keeps what each account gave: once an account's
/// discovery ends with `rs`, the repositories gathered are those gathered before followed
/// by `rs`; an account whose discovery fails adds nothing and drops nothing.
pub proof fn law_all_accounts_repositories_accumulate(v: AllDiscoveryView, o: ProcessOutcome)
    requires
        all_discovery_wf(v),
        v.stage == AllDiscoveryStage::Account,
    ensures
        match discovery_next(v.inner->0, o).1 {
            DiscoveryNext::Finished(Ok(rs)) => gathered(all_discovery_next(v, o).1) == Some(v.all + rs),
            _ => gathered(all_discovery_next(v, o).1) == Some(v.all),
        },
{
}

} // verus!
