//! `status`: the state of every repository of a view, in one line each, with a summary.
use vstd::prelude::*;
pub use crate::session::hint;

use crate::command::git_text;
use crate::command::invocation_of;
use crate::command::InvocationView;
use crate::error::error_message;
use crate::error::lit;
use crate::error::plain;
use crate::error::string_views;
use crate::error::within;
use crate::error::ErrorKind;
use crate::error::ErrorKindView;
use crate::error::ViewyardError;
use crate::error::ViewyardErrorView;
use crate::git::stash_count;
use crate::git::unpushed;
use crate::git::SshHostAliases;
use crate::git::STASH_ARGS;
use crate::git::STATUS_ARGS;
use crate::git::UNPUSHED_ARGS;
use crate::models::repo_views;
use crate::models::Repository;
use crate::models::RepositoryView;
use crate::rebase::BRANCH_ARGS;
use crate::session::joined_path;
use crate::session::join_path;
use crate::session::notice;
use crate::session::notice_views;
use crate::session::quiet;
use crate::session::tell;
use crate::session::tell_all;
use crate::session::tell_chars;
use crate::session::Notice;
use crate::session::NoticeLevel;
use crate::session::NoticeView;
use crate::session::Reply;
use crate::session::Request;
use crate::session::RequestView;
use crate::session::Step;
use crate::survey::changes;
use crate::survey::repo_dir;
use crate::survey::warning;
use crate::text::chars_of;
use crate::text::contains;
use crate::text::contains_chars;
use crate::text::decimal;
use crate::text::decimal_chars;
use crate::text::join;
use crate::text::join_chars;
use crate::text::lines;
use crate::text::lines_of;
use crate::text::parse_u32;
use crate::text::parse_u32_chars;
use crate::text::push_all;
use crate::text::push_str;
use crate::text::string_of;
use crate::text::views;
use crate::batch::failure;
use crate::batch::info;
use crate::batch::say_error;
use crate::batch::say_with;
use crate::batch::RunNext;
use crate::guard::guard_next;
use crate::guard::guard_request;
use crate::guard::guard_wf;
use crate::guard::initial_guard;
use crate::guard::GuardNext;
use crate::guard::GuardOutcome;
use crate::guard::GuardResult;
use crate::guard::RepoGuard;
use crate::guard::RepoGuardView;
use crate::view::load_view_context;
use crate::view::view_load_next;
use crate::view::view_load_request;
use crate::view::view_load_start;
use crate::view::ViewContext;
use crate::view::ViewLoad;
use crate::view::ViewLoadNext;
use crate::view::ViewLoadView;

verus! {

pub open spec fn plain_line(text: Seq<char>) -> NoticeView {
    notice(NoticeLevel::Plain, text)
}

/// The text of a command's output, from the reply to it.
pub open spec fn text_reply(inv: InvocationView, reply: Reply) -> Result<Seq<char>, ViewyardErrorView> {
    match reply {
        Reply::Ran(o) => git_text(inv, o),
        _ => Err(plain(ErrorKindView::UnexpectedReply)),
    }
}

/// Whether the reply says yes; a reply other than a flag says no.
pub open spec fn flag_of(reply: Reply) -> bool {
    reply matches Reply::Flag(true)
}

fn text_reply_of(args: &[&str], reply: &Reply) -> (res: Result<String, ViewyardError>)
    ensures
        crate::command::text_result_view(res) == text_reply(invocation_of(crate::command::str_views(args@), None), *reply),
{
    match reply {
        Reply::Ran(o) => {
            let inv = crate::command::git_invocation(args, None);
            crate::command::run_git_command_string(&inv, o)
        },
        _ => Err(ViewyardError::new(ErrorKind::UnexpectedReply)),
    }
}

pub fn flag_of_reply(reply: &Reply) -> (res: bool)
    ensures
        res == flag_of(*reply),
{
    match reply {
        Reply::Flag(b) => *b,
        _ => false,
    }
}

fn branch_text(reply: &Reply) -> (res: Result<String, ViewyardError>)
    ensures
        crate::command::text_result_view(res) == text_reply(invocation_of(BRANCH_ARGS(), None), *reply),
{
    let r = text_reply_of(&["branch", "--show-current"], reply);
    assert(crate::command::str_views(seq!["branch", "--show-current"]) =~= BRANCH_ARGS());
    r
}

// ---------------------------------------------------------------------------
// Branch consistency and the summary
// ---------------------------------------------------------------------------

/// Where the group of `branch` is in `groups`, or -1.
pub open spec fn group_index(groups: Seq<(Seq<char>, Seq<Seq<char>>)>, branch: Seq<char>) -> int
    decreases groups.len(),
{
    if groups.len() == 0 {
        -1
    } else if groups.last().0 == branch {
        groups.len() - 1
    } else {
        group_index(groups.drop_last(), branch)
    }
}

/// The repositories grouped by branch, the groups in the order their branch first comes.
pub open spec fn branch_groups(pairs: Seq<(Seq<char>, Seq<char>)>) -> Seq<(Seq<char>, Seq<Seq<char>>)>
    decreases pairs.len(),
{
    if pairs.len() == 0 {
        seq![]
    } else {
        let g = branch_groups(pairs.drop_last());
        let (repo, branch) = pairs.last();
        let k = group_index(g, branch);
        if k < 0 {
            g.push((branch, seq![repo]))
        } else {
            g.update(k, (branch, g[k].1.push(repo)))
        }
    }
}

pub open spec fn group_line(g: (Seq<char>, Seq<Seq<char>>)) -> NoticeView {
    if g.1.len() == 1 {
        warning("  - "@ + g.1[0] + ": "@ + g.0)
    } else {
        info("  - "@ + decimal(g.1.len()) + " repos on: "@ + g.0)
    }
}

pub open spec fn group_lines(gs: Seq<(Seq<char>, Seq<Seq<char>>)>) -> Seq<NoticeView> {
    gs.map_values(|g: (Seq<char>, Seq<Seq<char>>)| group_line(g))
}

/// The warning given when the repositories are not all on one branch.
pub open spec fn branch_consistency(pairs: Seq<(Seq<char>, Seq<char>)>) -> Seq<NoticeView> {
    if pairs.len() <= 1 {
        seq![]
    } else {
        let gs = branch_groups(pairs);
        if gs.len() > 1 {
            seq![warning("Branch mismatch detected:"@)] + group_lines(gs) + seq![plain_line(""@)]
        } else {
            seq![]
        }
    }
}

pub open spec fn pair_views(v: Seq<(String, String)>) -> Seq<(Seq<char>, Seq<char>)> {
    crate::rebase::pair_views(v)
}

pub proof fn lemma_group_index(g: Seq<(Seq<char>, Seq<Seq<char>>)>, b: Seq<char>)
    ensures
        group_index(g, b) == -1 || (0 <= group_index(g, b) < g.len() && g[group_index(g, b)].0 == b),
    decreases g.len(),
{
    if g.len() > 0 && g.last().0 != b {
        lemma_group_index(g.drop_last(), b);
    }
}

fn group_index_of(groups: &Vec<(String, Vec<String>)>, branch: &String) -> (res: Option<usize>)
    ensures
        match res {
            Some(k) => group_index(group_views(groups@), branch@) == k as int && k < groups.len(),
            None => group_index(group_views(groups@), branch@) == -1,
        },
{
    let b = chars_of(branch.as_str());
    let mut i: usize = groups.len();
    assert(group_views(groups@).take(i as int) =~= group_views(groups@));
    while i > 0
        invariant
            i <= groups.len(),
            b@ == branch@,
            group_index(group_views(groups@).take(i as int), branch@) == group_index(group_views(groups@), branch@),
        decreases i,
    {
        let ghost t = group_views(groups@).take(i as int);
        assert(t.last() == group_views(groups@)[i - 1]);
        assert(t.drop_last() =~= group_views(groups@).take(i - 1));
        if crate::text::chars_eq(&chars_of(groups[i - 1].0.as_str()), &b) {
            return Some(i - 1);
        }
        i = i - 1;
    }
    None
}

pub open spec fn group_views(v: Seq<(String, Vec<String>)>) -> Seq<(Seq<char>, Seq<Seq<char>>)> {
    v.map_values(|g: (String, Vec<String>)| (g.0@, string_views(g.1@)))
}

fn group_by_branch(pairs: &Vec<(String, String)>) -> (res: Vec<(String, Vec<String>)>)
    ensures
        group_views(res@) == branch_groups(pair_views(pairs@)),
{
    let mut groups: Vec<(String, Vec<String>)> = Vec::new();
    let mut i: usize = 0;
    assert(group_views(groups@) =~= seq![]);
    while i < pairs.len()
        invariant
            i <= pairs.len(),
            group_views(groups@) == branch_groups(pair_views(pairs@).take(i as int)),
        decreases pairs.len() - i,
    {
        let ghost ps = pair_views(pairs@);
        assert(ps.take(i + 1).drop_last() =~= ps.take(i as int));
        assert(ps.take(i + 1).last() == ps[i as int]);
        let repo = pairs[i].0.clone();
        let branch = pairs[i].1.clone();
        match group_index_of(&groups, &branch) {
            None => {
                let mut members: Vec<String> = Vec::new();
                members.push(repo);
                let ghost before = group_views(groups@);
                assert(string_views(members@) =~= seq![repo@]);
                groups.push((branch, members));
                assert(group_views(groups@) =~= before.push((branch@, seq![repo@])));
            },
            Some(k) => {
                let ghost before = group_views(groups@);
                let ghost g0 = groups@;
                proof {
                    lemma_group_index(before, branch@);
                }
                let (name, mut members) = groups.remove(k);
                let ghost old_members = string_views(members@);
                members.push(repo);
                assert(string_views(members@) =~= old_members.push(repo@));
                let ghost newpair = (name, members);
                groups.insert(k, (name, members));
                assert(groups@ =~= g0.update(k as int, newpair));
                assert(group_views(groups@) =~= before.update(k as int, (branch@, before[k as int].1.push(repo@))));
            },
        }
        i = i + 1;
    }
    assert(pair_views(pairs@).take(i as int) =~= pair_views(pairs@));
    groups
}

/// Warns when the repositories, given as (name, branch) pairs, are not all on one branch,
/// listing the branches with the repositories on each.
pub fn check_branch_consistency(repo_branches: &Vec<(String, String)>) -> (res: Vec<Notice>)
    ensures
        notice_views(res@) == branch_consistency(pair_views(repo_branches@)),
{
    let mut ns = quiet();
    if repo_branches.len() <= 1 {
        return ns;
    }
    let groups = group_by_branch(repo_branches);
    if groups.len() > 1 {
        tell(&mut ns, NoticeLevel::Warning, "Branch mismatch detected:");
        let ghost base = notice_views(ns@);
        let mut i: usize = 0;
        while i < groups.len()
            invariant
                i <= groups.len(),
                notice_views(ns@) == base + group_lines(group_views(groups@).take(i as int)),
            decreases groups.len() - i,
        {
            let g = &groups[i];
            let ghost gv = group_views(groups@)[i as int];
            if g.1.len() == 1 {
                let mut t = chars_of("  - ");
                push_str(&mut t, g.1[0].as_str());
                push_str(&mut t, ": ");
                push_str(&mut t, g.0.as_str());
                tell_chars(&mut ns, NoticeLevel::Warning, t);
            } else {
                let mut t = chars_of("  - ");
                push_all(&mut t, &decimal_chars(g.1.len() as u64));
                push_str(&mut t, " repos on: ");
                push_str(&mut t, g.0.as_str());
                tell_chars(&mut ns, NoticeLevel::Info, t);
            }
            assert(group_views(groups@).take(i + 1) =~= group_views(groups@).take(i as int).push(gv));
            assert(group_lines(group_views(groups@).take(i + 1)) =~= group_lines(group_views(groups@).take(i as int)).push(group_line(gv)));
            i = i + 1;
        }
        assert(group_views(groups@).take(i as int) =~= group_views(groups@));
        tell(&mut ns, NoticeLevel::Plain, "");
        assert(notice_views(ns@) =~= branch_consistency(pair_views(repo_branches@)));
    }
    ns
}

/// Whether every pair is on the branch of the first.
pub open spec fn all_on_first(pairs: Seq<(Seq<char>, Seq<char>)>) -> bool {
    forall|i: int| 0 <= i < pairs.len() ==> #[trigger] pairs[i].1 == pairs[0].1
}

pub open spec fn count_part(n: nat, word: Seq<char>) -> Seq<Seq<char>> {
    if n > 0 {
        seq![decimal(n) + word]
    } else {
        seq![]
    }
}

/// The line summing up `status`: the total, the counts, and whether every repository is
/// on one branch.
pub open spec fn status_summary(clean: nat, dirty: nat, ahead: nat, pairs: Seq<(Seq<char>, Seq<char>)>) -> Seq<char> {
    let parts = count_part(clean, " clean"@) + count_part(dirty, " dirty"@) + count_part(ahead, " ahead"@);
    let status = if parts.len() == 0 {
        "all clean"@
    } else {
        join(parts, ", "@)
    };
    let consistency = if pairs.len() <= 1 {
        seq![]
    } else if all_on_first(pairs) {
        " | All on "@ + pairs[0].1 + " ✓"@
    } else {
        " | Mixed branches !"@
    };
    decimal(clean + dirty) + " repos: "@ + status + consistency
}

fn push_count_part(parts: &mut Vec<Vec<char>>, n: usize, word: &str)
    ensures
        views(final(parts)@) == views(old(parts)@) + count_part(n as nat, word@),
{
    if n > 0 {
        let mut t = decimal_chars(n as u64);
        push_str(&mut t, word);
        let ghost before = views(parts@);
        parts.push(t);
        assert(views(parts@) =~= before + count_part(n as nat, word@));
    } else {
        assert(views(parts@) =~= views(parts@) + count_part(n as nat, word@));
    }
}

/// The summary line of `status`, from the counts of clean, dirty and ahead repositories
/// and the (name, branch) pairs seen.
pub fn show_status_summary(clean_count: usize, dirty_count: usize, ahead_count: usize, repo_branches: &Vec<(String, String)>) -> (res: Notice)
    requires
        clean_count + dirty_count <= usize::MAX,
    ensures
        res@ == info(status_summary(clean_count as nat, dirty_count as nat, ahead_count as nat, pair_views(repo_branches@))),
{
    let ghost pv = pair_views(repo_branches@);
    let mut parts: Vec<Vec<char>> = Vec::new();
    assert(views(parts@) =~= seq![]);
    push_count_part(&mut parts, clean_count, " clean");
    push_count_part(&mut parts, dirty_count, " dirty");
    push_count_part(&mut parts, ahead_count, " ahead");
    let ghost spec_parts = count_part(clean_count as nat, " clean"@) + count_part(dirty_count as nat, " dirty"@) + count_part(ahead_count as nat, " ahead"@);
    assert(views(parts@) =~= spec_parts);
    let status = if parts.len() == 0 {
        chars_of("all clean")
    } else {
        join_chars(&parts, &chars_of(", "))
    };
    let mut consistency: Vec<char> = Vec::new();
    if repo_branches.len() > 1 {
        let first = chars_of(repo_branches[0].1.as_str());
        let mut same = true;
        let mut i: usize = 0;
        while i < repo_branches.len()
            invariant
                i <= repo_branches.len(),
                repo_branches.len() > 1,
                pv == pair_views(repo_branches@),
                first@ == pv[0].1,
                same == (forall|j: int| 0 <= j < i ==> #[trigger] pv[j].1 == pv[0].1),
            decreases repo_branches.len() - i,
        {
            assert(pv[i as int].1 == repo_branches@[i as int].1@);
            if !crate::text::chars_eq(&chars_of(repo_branches[i].1.as_str()), &first) {
                same = false;
            }
            i = i + 1;
        }
        assert(same == all_on_first(pv));
        if same {
            push_str(&mut consistency, " | All on ");
            push_all(&mut consistency, &first);
            push_str(&mut consistency, " ✓");
        } else {
            push_str(&mut consistency, " | Mixed branches !");
        }
    }
    proof {
        let c = if pv.len() <= 1 {
            Seq::<char>::empty()
        } else if all_on_first(pv) {
            " | All on "@ + pv[0].1 + " ✓"@
        } else {
            " | Mixed branches !"@
        };
        assert(consistency@ =~= c);
    }
    let mut t = decimal_chars((clean_count + dirty_count) as u64);
    push_str(&mut t, " repos: ");
    push_all(&mut t, &status);
    push_all(&mut t, &consistency);
    Notice { level: NoticeLevel::Info, text: string_of(&t) }
}


// ---------------------------------------------------------------------------
// Branch synchronization
// ---------------------------------------------------------------------------

/// Where `key` is in the association list, or -1.
pub open spec fn assoc_index(pairs: Seq<(Seq<char>, Seq<char>)>, key: Seq<char>) -> int
    decreases pairs.len(),
{
    if pairs.len() == 0 {
        -1
    } else if pairs.last().0 == key {
        pairs.len() - 1
    } else {
        assoc_index(pairs.drop_last(), key)
    }
}

/// `key` given `value`: a key already there keeps its place, with the new value.
pub open spec fn assoc_insert(pairs: Seq<(Seq<char>, Seq<char>)>, key: Seq<char>, value: Seq<char>) -> Seq<(Seq<char>, Seq<char>)> {
    let k = assoc_index(pairs, key);
    if k < 0 {
        pairs.push((key, value))
    } else {
        pairs.update(k, (key, value))
    }
}

proof fn lemma_assoc_index(pairs: Seq<(Seq<char>, Seq<char>)>, key: Seq<char>)
    ensures
        assoc_index(pairs, key) == -1 || (0 <= assoc_index(pairs, key) < pairs.len() && pairs[assoc_index(pairs, key)].0 == key),
    decreases pairs.len(),
{
    if pairs.len() > 0 && pairs.last().0 != key {
        lemma_assoc_index(pairs.drop_last(), key);
    }
}

#[derive(Debug, Clone, Copy, PartialEq, Eq, Structural)]
pub enum SyncStage {
    /// Asking whether the repository's directory exists.
    Exists,
    /// Asking whether it holds `.git`.
    GitDirectory,
    /// Asking for its branch.
    Branch,
}

/// The check that every repository of the view is on the view's branch.
#[derive(Debug)]
pub struct BranchSync {
    pub root: String,
    pub view_name: String,
    pub repos: Vec<Repository>,
    pub index: usize,
    pub stage: SyncStage,
    pub errors: Vec<String>,
    pub branches: Vec<(String, String)>,
}

pub struct BranchSyncView {
    pub root: Seq<char>,
    pub view_name: Seq<char>,
    pub repos: Seq<RepositoryView>,
    pub index: nat,
    pub stage: SyncStage,
    pub errors: Seq<Seq<char>>,
    pub branches: Seq<(Seq<char>, Seq<char>)>,
}

impl View for BranchSync {
    type V = BranchSyncView;

    open spec fn view(&self) -> BranchSyncView {
        BranchSyncView {
            root: self.root@,
            view_name: self.view_name@,
            repos: repo_views(self.repos@),
            index: self.index as nat,
            stage: self.stage,
            errors: string_views(self.errors@),
            branches: pair_views(self.branches@),
        }
    }
}

pub open spec fn sync_wf(v: BranchSyncView) -> bool {
    v.index < v.repos.len()
}

impl BranchSync {
    pub open spec fn wf(&self) -> bool {
        sync_wf(self@)
    }
}

pub open spec fn sync_dir(v: BranchSyncView) -> Seq<char> {
    repo_dir(v.root, v.repos[v.index as int].name)
}

pub open spec fn sync_request(v: BranchSyncView) -> RequestView {
    match v.stage {
        SyncStage::Exists => RequestView::PathExists(sync_dir(v)),
        SyncStage::GitDirectory => RequestView::PathExists(joined_path(sync_dir(v), ".git"@)),
        SyncStage::Branch => RequestView::Run(invocation_of(BRANCH_ARGS(), Some(sync_dir(v)))),
    }
}

pub enum SyncNext {
    Continue(BranchSyncView),
    Finished(Result<(), ViewyardErrorView>),
}

/// The repositories not on the expected branch, in the order of `branches`.
pub open spec fn mismatched(branches: Seq<(Seq<char>, Seq<char>)>, expected: Seq<char>) -> Seq<(Seq<char>, Seq<char>)>
    decreases branches.len(),
{
    if branches.len() == 0 {
        seq![]
    } else {
        let rest = mismatched(branches.drop_last(), expected);
        if branches.last().1 != expected {
            rest.push(branches.last())
        } else {
            rest
        }
    }
}

pub open spec fn mismatch_lines(ms: Seq<(Seq<char>, Seq<char>)>, expected: Seq<char>) -> Seq<NoticeView> {
    ms.map_values(|m: (Seq<char>, Seq<char>)| plain_line("  - "@ + m.0 + ": on '"@ + m.1 + "' (should be '"@ + expected + "')"@))
}

pub open spec fn error_lines(es: Seq<Seq<char>>) -> Seq<NoticeView> {
    es.map_values(|e: Seq<char>| warning(e))
}

/// The end of the check: errors are reported, else the repositories on another branch.
pub open spec fn sync_finish(v: BranchSyncView) -> (Seq<NoticeView>, SyncNext) {
    let expected = v.view_name;
    let ms = mismatched(v.branches, expected);
    if v.errors.len() > 0 {
        (error_lines(v.errors), SyncNext::Finished(Err(plain(ErrorKindView::BranchSyncErrors))))
    } else if ms.len() > 0 {
        (
            seq![
                failure("Branch synchronization error: Not all repositories are on the expected branch"@),
                hint("Expected branch: '"@ + expected + "'"@),
                hint("Mismatched repositories:"@),
            ] + mismatch_lines(ms, expected) + seq![
                failure(""@),
                hint("To fix this, checkout the correct branch in each repository:"@),
                hint("  cd <repo> && git checkout "@ + expected),
                hint("Or create the branch if it doesn't exist:"@),
                hint("  cd <repo> && git checkout -b "@ + expected),
            ],
            SyncNext::Finished(Err(plain(ErrorKindView::BranchSyncFailed))),
        )
    } else {
        (
            seq![info("✓ All repositories are synchronized on branch '"@ + expected + "'"@)],
            SyncNext::Finished(Ok(())),
        )
    }
}

/// The check from the repository at `i` on.
pub open spec fn sync_from(v: BranchSyncView, i: nat) -> (Seq<NoticeView>, SyncNext) {
    if i < v.repos.len() {
        (seq![], SyncNext::Continue(BranchSyncView { index: i, stage: SyncStage::Exists, ..v }))
    } else {
        sync_finish(v)
    }
}

pub open spec fn with_error(v: BranchSyncView, e: Seq<char>) -> BranchSyncView {
    BranchSyncView { errors: v.errors.push(e), ..v }
}

/// The check's next move once `reply` came.
pub open spec fn sync_next(v: BranchSyncView, reply: Reply) -> (Seq<NoticeView>, SyncNext) {
    let name = v.repos[v.index as int].name;
    match v.stage {
        SyncStage::Exists => if flag_of(reply) {
            (seq![], SyncNext::Continue(BranchSyncView { stage: SyncStage::GitDirectory, ..v }))
        } else {
            sync_from(with_error(v, "Repository '"@ + name + "' directory not found"@), v.index + 1)
        },
        SyncStage::GitDirectory => if flag_of(reply) {
            (seq![], SyncNext::Continue(BranchSyncView { stage: SyncStage::Branch, ..v }))
        } else {
            sync_from(with_error(v, "'"@ + name + "' is not a git repository"@), v.index + 1)
        },
        SyncStage::Branch => match text_reply(invocation_of(BRANCH_ARGS(), None), reply) {
            Ok(b) => sync_from(BranchSyncView { branches: assoc_insert(v.branches, name, b), ..v }, v.index + 1),
            Err(e) => sync_from(with_error(v, "Failed to get branch for '"@ + name + "': "@ + error_message(e)), v.index + 1),
        },
    }
}

pub open spec fn sync_step_is(step: Step<BranchSync, Result<(), ViewyardError>>, next: (Seq<NoticeView>, SyncNext)) -> bool {
    match next.1 {
        SyncNext::Continue(v) => step matches Step::Ask(ns, req, s) && notice_views(ns@) == next.0 && s@ == v && s.wf()
            && req@ == sync_request(v),
        SyncNext::Finished(r) => step matches Step::Done(ns, x) && notice_views(ns@) == next.0 && crate::command::unit_result_view(x) == r,
    }
}

pub open spec fn initial_sync(root: Seq<char>, view_name: Seq<char>, repos: Seq<RepositoryView>) -> BranchSyncView {
    BranchSyncView { root, view_name, repos, index: 0, stage: SyncStage::Exists, errors: seq![], branches: seq![] }
}

fn assoc_index_of(pairs: &Vec<(String, String)>, key: &String) -> (res: Option<usize>)
    ensures
        match res {
            Some(k) => assoc_index(pair_views(pairs@), key@) == k as int && k < pairs.len(),
            None => assoc_index(pair_views(pairs@), key@) == -1,
        },
{
    let b = chars_of(key.as_str());
    let mut i: usize = pairs.len();
    assert(pair_views(pairs@).take(i as int) =~= pair_views(pairs@));
    while i > 0
        invariant
            i <= pairs.len(),
            b@ == key@,
            assoc_index(pair_views(pairs@).take(i as int), key@) == assoc_index(pair_views(pairs@), key@),
        decreases i,
    {
        let ghost t = pair_views(pairs@).take(i as int);
        assert(t.last() == pair_views(pairs@)[i - 1]);
        assert(t.drop_last() =~= pair_views(pairs@).take(i - 1));
        if crate::text::chars_eq(&chars_of(pairs[i - 1].0.as_str()), &b) {
            return Some(i - 1);
        }
        i = i - 1;
    }
    None
}

fn assoc_put(pairs: &mut Vec<(String, String)>, key: String, value: String)
    ensures
        pair_views(final(pairs)@) == assoc_insert(pair_views(old(pairs)@), key@, value@),
{
    let ghost before = pair_views(pairs@);
    let ghost g0 = pairs@;
    proof {
        lemma_assoc_index(before, key@);
    }
    match assoc_index_of(pairs, &key) {
        None => {
            pairs.push((key, value));
            assert(pair_views(pairs@) =~= before.push((key@, value@)));
        },
        Some(k) => {
            let ghost kv = (key, value);
            pairs.remove(k);
            pairs.insert(k, (key, value));
            assert(pairs@ =~= g0.update(k as int, kv));
            assert(pair_views(pairs@) =~= before.update(k as int, (key@, value@)));
        },
    }
}

fn mismatched_of(branches: &Vec<(String, String)>, expected: &String) -> (res: Vec<(String, String)>)
    ensures
        pair_views(res@) == mismatched(pair_views(branches@), expected@),
{
    let e = chars_of(expected.as_str());
    let mut out: Vec<(String, String)> = Vec::new();
    let mut i: usize = 0;
    assert(pair_views(out@) =~= seq![]);
    while i < branches.len()
        invariant
            i <= branches.len(),
            e@ == expected@,
            pair_views(out@) == mismatched(pair_views(branches@).take(i as int), expected@),
        decreases branches.len() - i,
    {
        let ghost bs = pair_views(branches@);
        assert(bs.take(i + 1).drop_last() =~= bs.take(i as int));
        assert(bs.take(i + 1).last() == bs[i as int]);
        if !crate::text::chars_eq(&chars_of(branches[i].1.as_str()), &e) {
            let p = (branches[i].0.clone(), branches[i].1.clone());
            let ghost before = pair_views(out@);
            out.push(p);
            assert(pair_views(out@) =~= before.push((p.0@, p.1@)));
        }
        i = i + 1;
    }
    assert(pair_views(branches@).take(i as int) =~= pair_views(branches@));
    out
}

impl BranchSync {
    /// Starts checking that the repositories `repos` of the view at `root` are all on the
    /// branch `view_name`.
    pub fn start(root: String, view_name: String, repos: Vec<Repository>) -> (res: Step<BranchSync, Result<(), ViewyardError>>)
        ensures
            sync_step_is(res, sync_from(initial_sync(root@, view_name@, repo_views(repos@)), 0)),
    {
        let s = BranchSync { root, view_name, repos, index: 0, stage: SyncStage::Exists, errors: Vec::new(), branches: Vec::new() };
        assert(string_views(s.errors@) =~= seq![]);
        assert(pair_views(s.branches@) =~= seq![]);
        s.from(0)
    }

    /// The request the check is waiting on.
    pub fn request(&self) -> (res: Request)
        requires
            self.wf(),
        ensures
            res@ == sync_request(self@),
    {
        let dir = join_path(self.root.as_str(), self.repos[self.index].name.as_str());
        match self.stage {
            SyncStage::Exists => Request::PathExists(dir),
            SyncStage::GitDirectory => crate::guard::is_git_repo(dir.as_str()),
            SyncStage::Branch => Request::Run(crate::git::get_current_branch(dir.as_str())),
        }
    }

    fn finish(self) -> (res: Step<BranchSync, Result<(), ViewyardError>>)
        ensures
            sync_step_is(res, sync_finish(self@)),
    {
        let mut ns = quiet();
        if self.errors.len() > 0 {
            let mut i: usize = 0;
            while i < self.errors.len()
                invariant
                    i <= self.errors.len(),
                    notice_views(ns@) == error_lines(string_views(self.errors@).take(i as int)),
                decreases self.errors.len() - i,
            {
                let ghost before = notice_views(ns@);
                tell_chars(&mut ns, NoticeLevel::Warning, chars_of(self.errors[i].as_str()));
                assert(string_views(self.errors@).take(i + 1) =~= string_views(self.errors@).take(i as int).push(self.errors@[i as int]@));
                assert(notice_views(ns@) =~= error_lines(string_views(self.errors@).take(i + 1)));
                i = i + 1;
            }
            assert(string_views(self.errors@).take(i as int) =~= string_views(self.errors@));
            return Step::Done(ns, Err(ViewyardError::new(ErrorKind::BranchSyncErrors)));
        }
        let expected = self.view_name.as_str();
        let ms = mismatched_of(&self.branches, &self.view_name);
        if ms.len() > 0 {
            tell(&mut ns, NoticeLevel::Error, "Branch synchronization error: Not all repositories are on the expected branch");
            let mut t = chars_of("Expected branch: '");
            push_str(&mut t, expected);
            push_str(&mut t, "'");
            tell_chars(&mut ns, NoticeLevel::Hint, t);
            tell(&mut ns, NoticeLevel::Hint, "Mismatched repositories:");
            let ghost base = notice_views(ns@);
            let mut i: usize = 0;
            while i < ms.len()
                invariant
                    i <= ms.len(),
                    notice_views(ns@) == base + mismatch_lines(pair_views(ms@).take(i as int), expected@),
                decreases ms.len() - i,
            {
                let mut line = chars_of("  - ");
                push_str(&mut line, ms[i].0.as_str());
                push_str(&mut line, ": on '");
                push_str(&mut line, ms[i].1.as_str());
                push_str(&mut line, "' (should be '");
                push_str(&mut line, expected);
                push_str(&mut line, "')");
                tell_chars(&mut ns, NoticeLevel::Plain, line);
                assert(pair_views(ms@).take(i + 1) =~= pair_views(ms@).take(i as int).push(pair_views(ms@)[i as int]));
                assert(notice_views(ns@) =~= base + mismatch_lines(pair_views(ms@).take(i + 1), expected@));
                i = i + 1;
            }
            assert(pair_views(ms@).take(i as int) =~= pair_views(ms@));
            tell(&mut ns, NoticeLevel::Error, "");
            tell(&mut ns, NoticeLevel::Hint, "To fix this, checkout the correct branch in each repository:");
            say_with(&mut ns, NoticeLevel::Hint, "  cd <repo> && git checkout ", expected);
            tell(&mut ns, NoticeLevel::Hint, "Or create the branch if it doesn't exist:");
            say_with(&mut ns, NoticeLevel::Hint, "  cd <repo> && git checkout -b ", expected);
            assert(notice_views(ns@) =~= sync_finish(self@).0);
            return Step::Done(ns, Err(ViewyardError::new(ErrorKind::BranchSyncFailed)));
        }
        let mut t = chars_of("✓ All repositories are synchronized on branch '");
        push_str(&mut t, expected);
        push_str(&mut t, "'");
        tell_chars(&mut ns, NoticeLevel::Info, t);
        assert(notice_views(ns@) =~= sync_finish(self@).0);
        Step::Done(ns, Ok(()))
    }

    fn from(self, i: usize) -> (res: Step<BranchSync, Result<(), ViewyardError>>)
        requires
            i <= self.repos.len(),
        ensures
            sync_step_is(res, sync_from(self@, i as nat)),
    {
        let mut s = self;
        if i < s.repos.len() {
            s.index = i;
            s.stage = SyncStage::Exists;
            let req = s.request();
            Step::Ask(quiet(), req, s)
        } else {
            s.finish()
        }
    }

    fn record_error(&mut self, e: Vec<char>)
        ensures
            final(self)@ == with_error(old(self)@, e@),
    {
        let ghost before = self.errors@;
        let t = string_of(&e);
        self.errors.push(t);
        assert(string_views(self.errors@) =~= string_views(before).push(e@));
    }

    /// The check's next step once its request was answered with `reply`.
    pub fn resume(self, reply: Reply) -> (res: Step<BranchSync, Result<(), ViewyardError>>)
        requires
            self.wf(),
        ensures
            sync_step_is(res, sync_next(self@, reply)),
    {
        let mut s = self;
        let i = s.index;
        assert(i < s.repos.len());
        let name = s.repos[i].name.clone();
        match s.stage {
            SyncStage::Exists => {
                if flag_of_reply(&reply) {
                    s.stage = SyncStage::GitDirectory;
                    let req = s.request();
                    Step::Ask(quiet(), req, s)
                } else {
                    let mut t = chars_of("Repository '");
                    push_str(&mut t, name.as_str());
                    push_str(&mut t, "' directory not found");
                    s.record_error(t);
                    s.from(i + 1)
                }
            },
            SyncStage::GitDirectory => {
                if flag_of_reply(&reply) {
                    s.stage = SyncStage::Branch;
                    let req = s.request();
                    Step::Ask(quiet(), req, s)
                } else {
                    let mut t = chars_of("'");
                    push_str(&mut t, name.as_str());
                    push_str(&mut t, "' is not a git repository");
                    s.record_error(t);
                    s.from(i + 1)
                }
            },
            SyncStage::Branch => match branch_text(&reply) {
                Ok(b) => {
                    assoc_put(&mut s.branches, name, b);
                    s.from(i + 1)
                },
                Err(e) => {
                    let mut t = chars_of("Failed to get branch for '");
                    push_str(&mut t, name.as_str());
                    push_str(&mut t, "': ");
                    push_str(&mut t, e.message().as_str());
                    s.record_error(t);
                    s.from(i + 1)
                },
            },
        }
    }
}


// ---------------------------------------------------------------------------
// The status line of one repository
// ---------------------------------------------------------------------------

#[derive(Debug, Clone, Copy, PartialEq, Eq, Structural)]
pub enum RepoStatusStage {
    Branch,
    Changes,
    Unpushed,
    Stashes,
    /// Counting the changed files.
    Count,
    /// Counting the commits ahead.
    Ahead,
}

/// The status of one repository (`get_repo_status`): none for a clean repository, else a
/// line with its changes, commits ahead and stashes.
#[derive(Debug)]
pub struct RepoStatus {
    pub dir: String,
    pub name: String,
    pub stage: RepoStatusStage,
    pub branch: String,
    pub has_changes: bool,
    pub has_unpushed: bool,
    pub stashes: usize,
    pub parts: Vec<String>,
}

pub struct RepoStatusView {
    pub dir: Seq<char>,
    pub name: Seq<char>,
    pub stage: RepoStatusStage,
    pub branch: Seq<char>,
    pub has_changes: bool,
    pub has_unpushed: bool,
    pub stashes: nat,
    pub parts: Seq<Seq<char>>,
}

impl View for RepoStatus {
    type V = RepoStatusView;

    open spec fn view(&self) -> RepoStatusView {
        RepoStatusView {
            dir: self.dir@,
            name: self.name@,
            stage: self.stage,
            branch: self.branch@,
            has_changes: self.has_changes,
            has_unpushed: self.has_unpushed,
            stashes: self.stashes as nat,
            parts: string_views(self.parts@),
        }
    }
}

pub open spec fn repo_status_request(v: RepoStatusView) -> RequestView {
    let cwd = Some(v.dir);
    match v.stage {
        RepoStatusStage::Branch => RequestView::Run(invocation_of(BRANCH_ARGS(), cwd)),
        RepoStatusStage::Changes => RequestView::Run(invocation_of(STATUS_ARGS(), cwd)),
        RepoStatusStage::Unpushed => RequestView::Run(invocation_of(UNPUSHED_ARGS(), cwd)),
        RepoStatusStage::Stashes => RequestView::Run(invocation_of(STASH_ARGS(), cwd)),
        RepoStatusStage::Count => RequestView::Run(invocation_of(STATUS_ARGS(), cwd)),
        RepoStatusStage::Ahead => RequestView::Run(invocation_of(UNPUSHED_ARGS(), cwd)),
    }
}

pub enum RepoStatusNext {
    Continue(RepoStatusView),
    Finished(Result<Option<Seq<char>>, ViewyardErrorView>),
}

/// The status line, from what was found.
pub open spec fn status_line(v: RepoStatusView) -> Seq<char> {
    let parts = if v.stashes > 0 {
        v.parts.push(decimal(v.stashes) + " stashes"@)
    } else {
        v.parts
    };
    let summary = if parts.len() == 0 {
        "clean"@
    } else {
        join(parts, ", "@)
    };
    let icon = if v.has_changes {
        "!"@
    } else {
        "→"@
    };
    icon + " "@ + v.name + " ("@ + v.branch + ") - "@ + summary
}

/// After the changes were counted: the commits ahead are counted next, if any.
pub open spec fn status_after_count(v: RepoStatusView) -> (Seq<NoticeView>, RepoStatusNext) {
    if v.has_unpushed {
        (seq![], RepoStatusNext::Continue(RepoStatusView { stage: RepoStatusStage::Ahead, ..v }))
    } else {
        (seq![], RepoStatusNext::Finished(Ok(Some(status_line(v)))))
    }
}

pub open spec fn with_part(v: RepoStatusView, p: Seq<char>) -> RepoStatusView {
    RepoStatusView { parts: v.parts.push(p), ..v }
}

/// The status's next move once `reply` came.
pub open spec fn repo_status_next(v: RepoStatusView, reply: Reply) -> (Seq<NoticeView>, RepoStatusNext) {
    match v.stage {
        RepoStatusStage::Branch => match text_reply(invocation_of(BRANCH_ARGS(), None), reply) {
            Err(e) => (
                seq![],
                RepoStatusNext::Finished(Err(within(e, "Failed to get current branch for repository '"@ + v.name + "'"@))),
            ),
            Ok(b) => (seq![], RepoStatusNext::Continue(RepoStatusView { stage: RepoStatusStage::Changes, branch: b, ..v })),
        },
        RepoStatusStage::Changes => match reply {
            Reply::Ran(o) => match changes(o) {
                Err(e) => (seq![], RepoStatusNext::Finished(Err(e))),
                Ok(c) => (seq![], RepoStatusNext::Continue(RepoStatusView { stage: RepoStatusStage::Unpushed, has_changes: c, ..v })),
            },
            _ => (seq![], RepoStatusNext::Finished(Err(plain(ErrorKindView::UnexpectedReply)))),
        },
        RepoStatusStage::Unpushed => match reply {
            Reply::Ran(o) => match unpushed(o) {
                Err(e) => (seq![], RepoStatusNext::Finished(Err(e))),
                Ok(u) => (seq![], RepoStatusNext::Continue(RepoStatusView { stage: RepoStatusStage::Stashes, has_unpushed: u, ..v })),
            },
            _ => (seq![], RepoStatusNext::Finished(Err(plain(ErrorKindView::UnexpectedReply)))),
        },
        RepoStatusStage::Stashes => match reply {
            Reply::Ran(o) => match stash_count(o) {
                Err(e) => (seq![], RepoStatusNext::Finished(Err(e))),
                Ok(k) => {
                    let w = RepoStatusView { stashes: k, ..v };
                    if !v.has_changes && !v.has_unpushed && k == 0 {
                        (seq![], RepoStatusNext::Finished(Ok(None)))
                    } else if v.has_changes {
                        (seq![], RepoStatusNext::Continue(RepoStatusView { stage: RepoStatusStage::Count, ..w }))
                    } else {
                        status_after_count(w)
                    }
                },
            },
            _ => (seq![], RepoStatusNext::Finished(Err(plain(ErrorKindView::UnexpectedReply)))),
        },
        RepoStatusStage::Count => match text_reply(invocation_of(STATUS_ARGS(), None), reply) {
            Ok(s) => {
                let n = lines(s).len();
                status_after_count(if n > 0 {
                    with_part(v, decimal(n) + " changes"@)
                } else {
                    v
                })
            },
            Err(_) => status_after_count(with_part(v, "changes"@)),
        },
        RepoStatusStage::Ahead => {
            let w = match text_reply(invocation_of(UNPUSHED_ARGS(), None), reply) {
                Ok(s) => match parse_u32(s) {
                    Some(n) => if n > 0 {
                        with_part(v, decimal(n as nat) + " commits ahead"@)
                    } else {
                        v
                    },
                    None => v,
                },
                Err(_) => with_part(v, "commits ahead"@),
            };
            (seq![], RepoStatusNext::Finished(Ok(Some(status_line(w)))))
        },
    }
}

pub open spec fn opt_text_view(r: Result<Option<String>, ViewyardError>) -> Result<Option<Seq<char>>, ViewyardErrorView> {
    match r {
        Ok(Some(s)) => Ok(Some(s@)),
        Ok(None) => Ok(None),
        Err(e) => Err(e@),
    }
}

pub open spec fn repo_status_step_is(step: Step<RepoStatus, Result<Option<String>, ViewyardError>>, next: (Seq<NoticeView>, RepoStatusNext)) -> bool {
    match next.1 {
        RepoStatusNext::Continue(v) => step matches Step::Ask(ns, req, s) && notice_views(ns@) == next.0 && s@ == v
            && req@ == repo_status_request(v),
        RepoStatusNext::Finished(r) => step matches Step::Done(ns, x) && notice_views(ns@) == next.0 && opt_text_view(x) == r,
    }
}

pub open spec fn initial_repo_status(dir: Seq<char>, name: Seq<char>) -> RepoStatusView {
    RepoStatusView {
        dir,
        name,
        stage: RepoStatusStage::Branch,
        branch: seq![],
        has_changes: false,
        has_unpushed: false,
        stashes: 0,
        parts: seq![],
    }
}

fn count_text(n: u64, word: &str) -> (res: String)
    ensures
        res@ == decimal(n as nat) + word@,
{
    let mut t = decimal_chars(n);
    push_str(&mut t, word);
    string_of(&t)
}

impl RepoStatus {
    /// Starts finding the status of the repository `name` at `dir`.
    pub fn start(dir: String, name: String) -> (res: RepoStatus)
        ensures
            res@ == initial_repo_status(dir@, name@),
    {
        let r = RepoStatus {
            dir,
            name,
            stage: RepoStatusStage::Branch,
            branch: lit(""),
            has_changes: false,
            has_unpushed: false,
            stashes: 0,
            parts: Vec::new(),
        };
        proof {
            reveal_strlit("");
        }
        assert(r.branch@ =~= Seq::<char>::empty());
        assert(string_views(r.parts@) =~= seq![]);
        r
    }

    /// The request the status is waiting on.
    pub fn request(&self) -> (res: Request)
        ensures
            res@ == repo_status_request(self@),
    {
        let cwd = self.dir.as_str();
        match self.stage {
            RepoStatusStage::Branch => Request::Run(crate::git::get_current_branch(cwd)),
            RepoStatusStage::Changes => Request::Run(crate::git::get_status(cwd)),
            RepoStatusStage::Unpushed => Request::Run(crate::git::count_unpushed_commits(cwd)),
            RepoStatusStage::Stashes => Request::Run(crate::git::list_stashes(cwd)),
            RepoStatusStage::Count => Request::Run(crate::git::get_status(cwd)),
            RepoStatusStage::Ahead => Request::Run(crate::git::count_unpushed_commits(cwd)),
        }
    }

    fn ask(self) -> (res: Step<RepoStatus, Result<Option<String>, ViewyardError>>)
        ensures
            res matches Step::Ask(ns, req, s) && notice_views(ns@) == Seq::<NoticeView>::empty() && s@ == self@
                && req@ == repo_status_request(self@),
    {
        let req = self.request();
        Step::Ask(quiet(), req, self)
    }

    fn add_part(&mut self, p: String)
        ensures
            final(self)@ == with_part(old(self)@, p@),
    {
        let ghost before = self.parts@;
        self.parts.push(p);
        assert(string_views(self.parts@) =~= string_views(before).push(p@));
    }

    fn line(&self) -> (res: String)
        ensures
            res@ == status_line(self@),
    {
        let mut parts: Vec<Vec<char>> = Vec::new();
        let mut i: usize = 0;
        while i < self.parts.len()
            invariant
                i <= self.parts.len(),
                views(parts@) == string_views(self.parts@).take(i as int),
            decreases self.parts.len() - i,
        {
            let c = chars_of(self.parts[i].as_str());
            assert(views(parts@.push(c)) =~= views(parts@).push(c@));
            assert(string_views(self.parts@).take(i + 1) =~= string_views(self.parts@).take(i as int).push(self.parts@[i as int]@));
            parts.push(c);
            i = i + 1;
        }
        assert(string_views(self.parts@).take(i as int) =~= string_views(self.parts@));
        if self.stashes > 0 {
            let mut c = decimal_chars(self.stashes as u64);
            push_str(&mut c, " stashes");
            assert(views(parts@.push(c)) =~= views(parts@).push(c@));
            parts.push(c);
        }
        let summary = if parts.len() == 0 {
            chars_of("clean")
        } else {
            join_chars(&parts, &chars_of(", "))
        };
        let mut t = if self.has_changes {
            chars_of("!")
        } else {
            chars_of("→")
        };
        push_str(&mut t, " ");
        push_str(&mut t, self.name.as_str());
        push_str(&mut t, " (");
        push_str(&mut t, self.branch.as_str());
        push_str(&mut t, ") - ");
        push_all(&mut t, &summary);
        string_of(&t)
    }

    fn after_count(self) -> (res: Step<RepoStatus, Result<Option<String>, ViewyardError>>)
        ensures
            repo_status_step_is(res, status_after_count(self@)),
    {
        let mut r = self;
        if r.has_unpushed {
            r.stage = RepoStatusStage::Ahead;
            r.ask()
        } else {
            let l = r.line();
            Step::Done(quiet(), Ok(Some(l)))
        }
    }

    /// The status's next step once its request was answered with `reply`.
    pub fn resume(self, reply: Reply) -> (res: Step<RepoStatus, Result<Option<String>, ViewyardError>>)
        ensures
            repo_status_step_is(res, repo_status_next(self@, reply)),
    {
        let mut r = self;
        match r.stage {
            RepoStatusStage::Branch => match branch_text(&reply) {
                Err(e) => {
                    let mut c = chars_of("Failed to get current branch for repository '");
                    push_str(&mut c, r.name.as_str());
                    push_str(&mut c, "'");
                    Step::Done(quiet(), Err(e.context(string_of(&c))))
                },
                Ok(b) => {
                    r.branch = b;
                    r.stage = RepoStatusStage::Changes;
                    r.ask()
                },
            },
            RepoStatusStage::Changes => match reply {
                Reply::Ran(o) => match crate::git::has_uncommitted_changes(&o) {
                    Err(e) => Step::Done(quiet(), Err(e)),
                    Ok(c) => {
                        r.has_changes = c;
                        r.stage = RepoStatusStage::Unpushed;
                        r.ask()
                    },
                },
                _ => Step::Done(quiet(), Err(ViewyardError::new(ErrorKind::UnexpectedReply))),
            },
            RepoStatusStage::Unpushed => match reply {
                Reply::Ran(o) => match crate::git::has_unpushed_commits(&o) {
                    Err(e) => Step::Done(quiet(), Err(e)),
                    Ok(u) => {
                        r.has_unpushed = u;
                        r.stage = RepoStatusStage::Stashes;
                        r.ask()
                    },
                },
                _ => Step::Done(quiet(), Err(ViewyardError::new(ErrorKind::UnexpectedReply))),
            },
            RepoStatusStage::Stashes => match reply {
                Reply::Ran(o) => match crate::git::get_stash_count(&o) {
                    Err(e) => Step::Done(quiet(), Err(e)),
                    Ok(k) => {
                        r.stashes = k;
                        if !r.has_changes && !r.has_unpushed && k == 0 {
                            Step::Done(quiet(), Ok(None))
                        } else if r.has_changes {
                            r.stage = RepoStatusStage::Count;
                            r.ask()
                        } else {
                            r.after_count()
                        }
                    },
                },
                _ => Step::Done(quiet(), Err(ViewyardError::new(ErrorKind::UnexpectedReply))),
            },
            RepoStatusStage::Count => {
                let t = text_reply_of(&["status", "--porcelain"], &reply);
                assert(crate::command::str_views(seq!["status", "--porcelain"]) =~= STATUS_ARGS());
                match t {
                    Ok(s) => {
                        let ls = lines_of(&chars_of(s.as_str()));
                        assert(views(ls@).len() == ls@.len());
                        let n = ls.len();
                        if n > 0 {
                            r.add_part(count_text(n as u64, " changes"));
                        }
                        r.after_count()
                    },
                    Err(_) => {
                        r.add_part(lit("changes"));
                        r.after_count()
                    },
                }
            },
            RepoStatusStage::Ahead => {
                let t = text_reply_of(&["rev-list", "--count", "@{u}..HEAD"], &reply);
                assert(crate::command::str_views(seq!["rev-list", "--count", "@{u}..HEAD"]) =~= UNPUSHED_ARGS());
                match t {
                    Ok(s) => match parse_u32_chars(&chars_of(s.as_str())) {
                        Some(n) => {
                            if n > 0 {
                                r.add_part(count_text(n as u64, " commits ahead"));
                            }
                        },
                        None => {},
                    },
                    Err(_) => {
                        r.add_part(lit("commits ahead"));
                    },
                }
                let l = r.line();
                Step::Done(quiet(), Ok(Some(l)))
            },
        }
    }
}


// ---------------------------------------------------------------------------
// status over the view
// ---------------------------------------------------------------------------

#[derive(Debug, Clone, Copy, PartialEq, Eq, Structural)]
pub enum StatusStage {
    Loading,
    /// Checking that the repositories are on the view's branch.
    Sync,
    /// Checking the repository at `index`.
    Guard,
    /// Asking for its branch.
    Branch,
    /// Finding its status.
    Status,
}

/// `status`: one line per repository of the view, then the branch consistency and a
/// summary. Problems with one repository are warned about and the others go on.
#[derive(Debug)]
pub struct StatusRun {
    pub stage: StatusStage,
    pub load: Option<ViewLoad>,
    pub root: String,
    pub repos: Vec<Repository>,
    pub sync: Option<BranchSync>,
    pub index: usize,
    pub guard: Option<RepoGuard>,
    pub branch: String,
    pub status: Option<RepoStatus>,
    pub pairs: Vec<(String, String)>,
    pub clean: usize,
    pub dirty: usize,
    pub ahead: usize,
}

pub struct StatusRunView {
    pub stage: StatusStage,
    pub load: Option<ViewLoadView>,
    pub root: Seq<char>,
    pub repos: Seq<RepositoryView>,
    pub sync: Option<BranchSyncView>,
    pub index: nat,
    pub guard: Option<RepoGuardView>,
    pub branch: Seq<char>,
    pub status: Option<RepoStatusView>,
    pub pairs: Seq<(Seq<char>, Seq<char>)>,
    pub clean: nat,
    pub dirty: nat,
    pub ahead: nat,
}

impl View for StatusRun {
    type V = StatusRunView;

    open spec fn view(&self) -> StatusRunView {
        StatusRunView {
            stage: self.stage,
            load: match self.load {
                Some(l) => Some(l@),
                None => None,
            },
            root: self.root@,
            repos: repo_views(self.repos@),
            sync: match self.sync {
                Some(x) => Some(x@),
                None => None,
            },
            index: self.index as nat,
            guard: match self.guard {
                Some(g) => Some(g@),
                None => None,
            },
            branch: self.branch@,
            status: match self.status {
                Some(x) => Some(x@),
                None => None,
            },
            pairs: pair_views(self.pairs@),
            clean: self.clean as nat,
            dirty: self.dirty as nat,
            ahead: self.ahead as nat,
        }
    }
}

pub open spec fn status_run_wf(v: StatusRunView) -> bool {
    &&& v.clean + v.dirty <= v.index
    &&& v.ahead <= v.index
    &&& match v.stage {
        StatusStage::Loading => v.load is Some && v.clean == 0 && v.dirty == 0 && v.ahead == 0,
        StatusStage::Sync => v.sync is Some && sync_wf(v.sync->0) && v.clean == 0 && v.dirty == 0 && v.ahead == 0,
        StatusStage::Guard => v.index < v.repos.len() && v.guard is Some && guard_wf(v.guard->0),
        StatusStage::Branch => v.index < v.repos.len(),
        StatusStage::Status => v.index < v.repos.len() && v.status is Some,
    }
}

impl StatusRun {
    pub open spec fn wf(&self) -> bool {
        status_run_wf(self@)
    }
}

pub open spec fn status_dir(v: StatusRunView) -> Seq<char> {
    repo_dir(v.root, v.repos[v.index as int].name)
}

pub open spec fn status_run_request(v: StatusRunView) -> RequestView {
    match v.stage {
        StatusStage::Loading => view_load_request(v.load->0),
        StatusStage::Sync => sync_request(v.sync->0),
        StatusStage::Guard => guard_request(v.guard->0),
        StatusStage::Branch => RequestView::Run(invocation_of(BRANCH_ARGS(), Some(status_dir(v)))),
        StatusStage::Status => repo_status_request(v.status->0),
    }
}

/// The end of `status`: the branch consistency, then the summary.
pub open spec fn status_finish(v: StatusRunView, ns: Seq<NoticeView>) -> (Seq<NoticeView>, RunNext<StatusRunView>) {
    (
        ns + branch_consistency(v.pairs) + seq![info(status_summary(v.clean, v.dirty, v.ahead, v.pairs))],
        RunNext::Finished(Ok(())),
    )
}

/// The status from the repository at `i` on.
pub open spec fn status_from(v: StatusRunView, i: nat, ns: Seq<NoticeView>) -> (Seq<NoticeView>, RunNext<StatusRunView>) {
    if i < v.repos.len() {
        (
            ns,
            RunNext::Continue(
                StatusRunView {
                    stage: StatusStage::Guard,
                    index: i,
                    guard: Some(initial_guard(repo_dir(v.root, v.repos[i as int].name), v.repos[i as int])),
                    status: None,
                    ..v
                },
            ),
        )
    } else {
        status_finish(v, ns)
    }
}

/// After the branch check, whatever it found, every repository is looked at.
pub open spec fn status_synced(v: StatusRunView, ns: Seq<NoticeView>, r: Result<(), ViewyardErrorView>) -> (Seq<NoticeView>, RunNext<StatusRunView>) {
    let w = match r {
        Err(e) => seq![
            warning("Branch synchronization check failed: "@ + error_message(e)),
            info("Continuing with status check..."@),
        ],
        Ok(_) => seq![],
    };
    status_from(StatusRunView { sync: None, ..v }, 0, ns + w + seq![info(""@)])
}

pub open spec fn status_sync_step(v: StatusRunView, ns: Seq<NoticeView>, sx: SyncNext) -> (Seq<NoticeView>, RunNext<StatusRunView>) {
    match sx {
        SyncNext::Continue(y) => (ns, RunNext::Continue(StatusRunView { stage: StatusStage::Sync, sync: Some(y), ..v })),
        SyncNext::Finished(r) => status_synced(v, ns, r),
    }
}

pub open spec fn status_loaded(v: StatusRunView, ns: Seq<NoticeView>, lx: ViewLoadNext) -> (Seq<NoticeView>, RunNext<StatusRunView>) {
    match lx {
        ViewLoadNext::Continue(l) => (ns, RunNext::Continue(StatusRunView { stage: StatusStage::Loading, load: Some(l), ..v })),
        ViewLoadNext::Finished(Err(e)) => (ns, RunNext::Finished(Err(within(e, "Failed to run 'viewyard status'"@)))),
        ViewLoadNext::Finished(Ok(ctx)) => {
            let ns1 = ns + seq![
                info("Viewset: "@ + ctx.viewset_name),
                info("View: "@ + ctx.view_name),
                info("Root: "@ + ctx.view_root),
            ];
            let w = StatusRunView { load: None, root: ctx.view_root, repos: ctx.active_repos, ..v };
            if ctx.active_repos.len() == 0 {
                (ns1.push(warning("No repositories in this view"@)), RunNext::Finished(Ok(())))
            } else {
                let (sns, sx) = sync_from(initial_sync(ctx.view_root, ctx.view_name, ctx.active_repos), 0);
                status_sync_step(w, ns1 + sns, sx)
            }
        },
    }
}

/// The command's next move once `reply` came.
pub open spec fn status_run_next(v: StatusRunView, reply: Reply) -> (Seq<NoticeView>, RunNext<StatusRunView>) {
    let name = v.repos[v.index as int].name;
    match v.stage {
        StatusStage::Loading => {
            let (ns, lx) = view_load_next(v.load->0, reply);
            status_loaded(v, ns, lx)
        },
        StatusStage::Sync => {
            let (ns, sx) = sync_next(v.sync->0, reply);
            status_sync_step(v, ns, sx)
        },
        StatusStage::Guard => {
            let (ns, gx) = guard_next(v.guard->0, reply);
            let on = StatusRunView { stage: StatusStage::Branch, guard: None, ..v };
            match gx {
                GuardNext::Continue(g) => (ns, RunNext::Continue(StatusRunView { guard: Some(g), ..v })),
                GuardNext::Finished(GuardOutcome::DirectoryProblem(e)) => status_from(
                    v,
                    v.index + 1,
                    ns.push(warning(name + ": "@ + error_message(e))),
                ),
                GuardNext::Finished(GuardOutcome::OperationsProblem(e)) => (
                    ns.push(warning(name + ": Git configuration issue - "@ + error_message(e))),
                    RunNext::Continue(on),
                ),
                GuardNext::Finished(GuardOutcome::Passed) => (ns, RunNext::Continue(on)),
            }
        },
        StatusStage::Branch => {
            let b = match text_reply(invocation_of(BRANCH_ARGS(), None), reply) {
                Ok(b) => b,
                Err(_) => "unknown"@,
            };
            (
                seq![],
                RunNext::Continue(
                    StatusRunView {
                        stage: StatusStage::Status,
                        branch: b,
                        pairs: v.pairs.push((name, b)),
                        status: Some(initial_repo_status(status_dir(v), name)),
                        ..v
                    },
                ),
            )
        },
        StatusStage::Status => {
            let (ns, rx) = repo_status_next(v.status->0, reply);
            match rx {
                RepoStatusNext::Continue(r) => (ns, RunNext::Continue(StatusRunView { status: Some(r), ..v })),
                RepoStatusNext::Finished(Ok(Some(line))) => status_from(
                    StatusRunView {
                        dirty: if contains(line, "changes"@) {
                            v.dirty + 1
                        } else {
                            v.dirty
                        },
                        ahead: if contains(line, "ahead"@) {
                            v.ahead + 1
                        } else {
                            v.ahead
                        },
                        ..v
                    },
                    v.index + 1,
                    ns.push(plain_line(line)),
                ),
                RepoStatusNext::Finished(Ok(None)) => status_from(
                    StatusRunView { clean: v.clean + 1, ..v },
                    v.index + 1,
                    ns.push(plain_line("✓ "@ + name + " ("@ + v.branch + ") - clean"@)),
                ),
                RepoStatusNext::Finished(Err(e)) => status_from(
                    v,
                    v.index + 1,
                    ns.push(warning(name + ": Error getting status - "@ + error_message(e))),
                ),
            }
        },
    }
}

pub open spec fn status_header() -> NoticeView {
    notice(NoticeLevel::Header, "Repository Status"@)
}

pub open spec fn initial_status_run() -> StatusRunView {
    StatusRunView {
        stage: StatusStage::Loading,
        load: None,
        root: seq![],
        repos: seq![],
        sync: None,
        index: 0,
        guard: None,
        branch: seq![],
        status: None,
        pairs: seq![],
        clean: 0,
        dirty: 0,
        ahead: 0,
    }
}

/// How `status` starts: its header, then finding the view.
pub open spec fn status_start(current_dir: Seq<char>, parent: Option<Seq<char>>, aliases: Map<Seq<char>, Seq<char>>) -> (Seq<NoticeView>, RunNext<StatusRunView>) {
    let (ns, lx) = view_load_start(current_dir, parent, aliases);
    status_loaded(initial_status_run(), seq![status_header()] + ns, lx)
}

pub open spec fn status_run_step_is(step: Step<StatusRun, Result<(), ViewyardError>>, next: (Seq<NoticeView>, RunNext<StatusRunView>)) -> bool {
    match next.1 {
        RunNext::Continue(v) => step matches Step::Ask(ns, req, s) && notice_views(ns@) == next.0 && s@ == v && s.wf()
            && req@ == status_run_request(v),
        RunNext::Finished(r) => step matches Step::Done(ns, x) && notice_views(ns@) == next.0 && crate::command::unit_result_view(x) == r,
    }
}

impl StatusRun {
    /// The request the command is waiting on.
    pub fn request(&self) -> (res: Request)
        requires
            self.wf(),
        ensures
            res@ == status_run_request(self@),
    {
        match self.stage {
            StatusStage::Loading => match &self.load {
                Some(l) => l.request(),
                None => Request::PathExists(self.root.clone()),
            },
            StatusStage::Sync => match &self.sync {
                Some(x) => x.request(),
                None => Request::PathExists(self.root.clone()),
            },
            StatusStage::Guard => match &self.guard {
                Some(g) => g.request(),
                None => Request::PathExists(self.root.clone()),
            },
            StatusStage::Branch => {
                let dir = join_path(self.root.as_str(), self.repos[self.index].name.as_str());
                Request::Run(crate::git::get_current_branch(dir.as_str()))
            },
            StatusStage::Status => match &self.status {
                Some(x) => x.request(),
                None => Request::PathExists(self.root.clone()),
            },
        }
    }

    fn finish(self, ns: Vec<Notice>) -> (res: Step<StatusRun, Result<(), ViewyardError>>)
        requires
            self.clean + self.dirty <= usize::MAX,
        ensures
            status_run_step_is(res, status_finish(self@, notice_views(ns@))),
    {
        let ghost ns0 = notice_views(ns@);
        let mut ns = ns;
        tell_all(&mut ns, check_branch_consistency(&self.pairs));
        let n = show_status_summary(self.clean, self.dirty, self.ahead, &self.pairs);
        let ghost before = notice_views(ns@);
        ns.push(n);
        assert(notice_views(ns@) =~= before.push(n@));
        assert(notice_views(ns@) =~= ns0 + branch_consistency(self@.pairs) + seq![n@]);
        Step::Done(ns, Ok(()))
    }

    fn from(self, i: usize, ns: Vec<Notice>) -> (res: Step<StatusRun, Result<(), ViewyardError>>)
        requires
            i <= self.repos.len(),
            self.clean + self.dirty <= i,
            self.ahead <= i,
        ensures
            status_run_step_is(res, status_from(self@, i as nat, notice_views(ns@))),
    {
        let mut r = self;
        if i < r.repos.len() {
            let dir = join_path(r.root.as_str(), r.repos[i].name.as_str());
            let (_, g) = RepoGuard::start(dir, r.repos[i].clone());
            r.stage = StatusStage::Guard;
            r.index = i;
            r.guard = Some(g);
            r.status = None;
            let req = r.request();
            Step::Ask(ns, req, r)
        } else {
            r.finish(ns)
        }
    }

    fn synced(self, ns: Vec<Notice>, res: Result<(), ViewyardError>) -> (out: Step<StatusRun, Result<(), ViewyardError>>)
        requires
            self.clean == 0,
            self.dirty == 0,
            self.ahead == 0,
        ensures
            status_run_step_is(out, status_synced(self@, notice_views(ns@), crate::command::unit_result_view(res))),
    {
        let mut r = self;
        let ghost ns0 = notice_views(ns@);
        let ghost rv = crate::command::unit_result_view(res);
        let mut ns = ns;
        match res {
            Err(e) => {
                say_with(&mut ns, NoticeLevel::Warning, "Branch synchronization check failed: ", e.message().as_str());
                tell(&mut ns, NoticeLevel::Info, "Continuing with status check...");
            },
            Ok(()) => {},
        }
        tell(&mut ns, NoticeLevel::Info, "");
        r.sync = None;
        proof {
            let w = match rv {
                Err(e) => seq![
                    warning("Branch synchronization check failed: "@ + error_message(e)),
                    info("Continuing with status check..."@),
                ],
                Ok(_) => Seq::<NoticeView>::empty(),
            };
            assert(notice_views(ns@) =~= ns0 + w + seq![info(""@)]);
        }
        r.from(0, ns)
    }

    fn sync_step(self, step: Step<BranchSync, Result<(), ViewyardError>>) -> (res: Step<StatusRun, Result<(), ViewyardError>>)
        requires
            self.clean == 0,
            self.dirty == 0,
            self.ahead == 0,
            step matches Step::Ask(_, req, y) ==> y.wf() && req@ == sync_request(y@),
        ensures
            match step {
                Step::Ask(ns, _, y) => status_run_step_is(res, status_sync_step(self@, notice_views(ns@), SyncNext::Continue(y@))),
                Step::Done(ns, r) => status_run_step_is(res, status_sync_step(self@, notice_views(ns@), SyncNext::Finished(crate::command::unit_result_view(r)))),
            },
    {
        let mut r = self;
        match step {
            Step::Ask(ns, req, y) => {
                r.stage = StatusStage::Sync;
                r.sync = Some(y);
                Step::Ask(ns, req, r)
            },
            Step::Done(ns, res) => r.synced(ns, res),
        }
    }

    fn loaded(self, step: Step<ViewLoad, Result<ViewContext, ViewyardError>>) -> (res: Step<StatusRun, Result<(), ViewyardError>>)
        requires
            self.clean == 0,
            self.dirty == 0,
            self.ahead == 0,
            step matches Step::Ask(_, req, l) ==> req@ == view_load_request(l@),
        ensures
            match step {
                Step::Ask(ns, _, l) => status_run_step_is(res, status_loaded(self@, notice_views(ns@), ViewLoadNext::Continue(l@))),
                Step::Done(ns, r) => status_run_step_is(res, status_loaded(self@, notice_views(ns@), ViewLoadNext::Finished(crate::view::context_result_view(r)))),
            },
    {
        let mut r = self;
        match step {
            Step::Ask(ns, req, l) => {
                r.stage = StatusStage::Loading;
                r.load = Some(l);
                Step::Ask(ns, req, r)
            },
            Step::Done(ns, Err(e)) => Step::Done(ns, Err(e.context(lit("Failed to run 'viewyard status'")))),
            Step::Done(mut ns, Ok(ctx)) => {
                let ghost ns0 = notice_views(ns@);
                say_with(&mut ns, NoticeLevel::Info, "Viewset: ", ctx.viewset_name.as_str());
                say_with(&mut ns, NoticeLevel::Info, "View: ", ctx.view_name.as_str());
                say_with(&mut ns, NoticeLevel::Info, "Root: ", ctx.view_root.as_str());
                assert(notice_views(ns@) =~= ns0 + seq![
                    info("Viewset: "@ + ctx@.viewset_name),
                    info("View: "@ + ctx@.view_name),
                    info("Root: "@ + ctx@.view_root),
                ]);
                r.load = None;
                r.root = ctx.view_root.clone();
                if ctx.active_repos.len() == 0 {
                    tell(&mut ns, NoticeLevel::Warning, "No repositories in this view");
                    return Step::Done(ns, Ok(()));
                }
                r.repos = copy_repos(&ctx.active_repos);
                let y = BranchSync::start(ctx.view_root, ctx.view_name, ctx.active_repos);
                let y = match y {
                    Step::Ask(yns, req, y) => {
                        tell_all(&mut ns, yns);
                        Step::Ask(ns, req, y)
                    },
                    Step::Done(yns, res) => {
                        tell_all(&mut ns, yns);
                        Step::Done(ns, res)
                    },
                };
                r.sync_step(y)
            },
        }
    }

    /// Starts `status` in the directory `current_dir`, whose parent is `parent`.
    pub fn start(current_dir: &str, parent: Option<&str>, aliases: SshHostAliases) -> (res: Step<StatusRun, Result<(), ViewyardError>>)
        ensures
            status_run_step_is(res, status_start(current_dir@, crate::github::opt_str(parent), aliases@)),
    {
        let r = StatusRun {
            stage: StatusStage::Loading,
            load: None,
            root: lit(""),
            repos: Vec::new(),
            sync: None,
            index: 0,
            guard: None,
            branch: lit(""),
            status: None,
            pairs: Vec::new(),
            clean: 0,
            dirty: 0,
            ahead: 0,
        };
        proof {
            reveal_strlit("");
        }
        assert(repo_views(r.repos@) =~= seq![]);
        assert(pair_views(r.pairs@) =~= seq![]);
        assert(r.root@ =~= Seq::<char>::empty());
        assert(r.branch@ =~= Seq::<char>::empty());
        let mut ns = quiet();
        tell(&mut ns, NoticeLevel::Header, "Repository Status");
        let ghost header = notice_views(ns@);
        assert(header =~= seq![status_header()]);
        let step = load_view_context(current_dir, parent, aliases);
        let step = match step {
            Step::Ask(lns, req, l) => {
                let ghost lv = notice_views(lns@);
                tell_all(&mut ns, lns);
                assert(notice_views(ns@) == header + lv);
                Step::Ask(ns, req, l)
            },
            Step::Done(lns, res) => {
                let ghost lv = notice_views(lns@);
                tell_all(&mut ns, lns);
                assert(notice_views(ns@) == header + lv);
                Step::Done(ns, res)
            },
        };
        r.loaded(step)
    }

    /// The command's next step once its request was answered with `reply`.
    pub fn resume(self, reply: Reply) -> (res: Step<StatusRun, Result<(), ViewyardError>>)
        requires
            self.wf(),
        ensures
            status_run_step_is(res, status_run_next(self@, reply)),
    {
        let mut r = self;
        match r.stage {
            StatusStage::Loading => {
                let l = r.load.take();
                match l {
                    None => Step::Done(quiet(), Ok(())),
                    Some(l) => r.loaded(l.resume(reply)),
                }
            },
            StatusStage::Sync => {
                let y = r.sync.take();
                match y {
                    None => Step::Done(quiet(), Ok(())),
                    Some(y) => r.sync_step(y.resume(reply)),
                }
            },
            StatusStage::Guard => {
                assert(r.index < r.repos.len());
                let g = r.guard.take();
                match g {
                    None => Step::Done(quiet(), Ok(())),
                    Some(g) => match g.resume(reply) {
                        Step::Ask(ns, req, g2) => {
                            r.guard = Some(g2);
                            Step::Ask(ns, req, r)
                        },
                        Step::Done(mut ns, GuardResult::DirectoryProblem(e)) => {
                            say_error(&mut ns, NoticeLevel::Warning, "", r.repos[r.index].name.as_str(), &e);
                            proof {
                                reveal_strlit("");
                                assert(""@ + r@.repos[r.index as int].name =~= r@.repos[r.index as int].name);
                            }
                            let j = r.index + 1;
                            r.from(j, ns)
                        },
                        Step::Done(mut ns, GuardResult::OperationsProblem(e)) => {
                            let mut t = chars_of(r.repos[r.index].name.as_str());
                            push_str(&mut t, ": Git configuration issue - ");
                            push_str(&mut t, e.message().as_str());
                            tell_chars(&mut ns, NoticeLevel::Warning, t);
                            r.stage = StatusStage::Branch;
                            let req = r.request();
                            Step::Ask(ns, req, r)
                        },
                        Step::Done(ns, GuardResult::Passed) => {
                            r.stage = StatusStage::Branch;
                            let req = r.request();
                            Step::Ask(ns, req, r)
                        },
                    },
                }
            },
            StatusStage::Branch => {
                let b = match branch_text(&reply) {
                    Ok(b) => b,
                    Err(_) => lit("unknown"),
                };
                let name = r.repos[r.index].name.clone();
                let dir = join_path(r.root.as_str(), name.as_str());
                let ghost before = r.pairs@;
                r.pairs.push((name.clone(), b.clone()));
                assert(pair_views(r.pairs@) =~= pair_views(before).push((name@, b@)));
                r.branch = b;
                r.status = Some(RepoStatus::start(dir, name));
                r.stage = StatusStage::Status;
                let req = r.request();
                Step::Ask(quiet(), req, r)
            },
            StatusStage::Status => {
                assert(r.index < r.repos.len());
                let x = r.status.take();
                match x {
                    None => Step::Done(quiet(), Ok(())),
                    Some(x) => match x.resume(reply) {
                        Step::Ask(ns, req, x2) => {
                            r.status = Some(x2);
                            Step::Ask(ns, req, r)
                        },
                        Step::Done(mut ns, Ok(Some(line))) => {
                            let l = chars_of(line.as_str());
                            if contains_chars(&l, &chars_of("changes")) {
                                r.dirty = r.dirty + 1;
                            }
                            if contains_chars(&l, &chars_of("ahead")) {
                                r.ahead = r.ahead + 1;
                            }
                            tell_chars(&mut ns, NoticeLevel::Plain, l);
                            let j = r.index + 1;
                            r.from(j, ns)
                        },
                        Step::Done(mut ns, Ok(None)) => {
                            let mut t = chars_of("✓ ");
                            push_str(&mut t, r.repos[r.index].name.as_str());
                            push_str(&mut t, " (");
                            push_str(&mut t, r.branch.as_str());
                            push_str(&mut t, ") - clean");
                            tell_chars(&mut ns, NoticeLevel::Plain, t);
                            r.clean = r.clean + 1;
                            let j = r.index + 1;
                            r.from(j, ns)
                        },
                        Step::Done(mut ns, Err(e)) => {
                            let mut t = chars_of(r.repos[r.index].name.as_str());
                            push_str(&mut t, ": Error getting status - ");
                            push_str(&mut t, e.message().as_str());
                            tell_chars(&mut ns, NoticeLevel::Warning, t);
                            let j = r.index + 1;
                            r.from(j, ns)
                        },
                    },
                }
            },
        }
    }
}

pub fn copy_repos(v: &Vec<Repository>) -> (res: Vec<Repository>)
    ensures
        repo_views(res@) == repo_views(v@),
{
    let mut out: Vec<Repository> = Vec::new();
    let mut i: usize = 0;
    while i < v.len()
        invariant
            i <= v.len(),
            repo_views(out@) == repo_views(v@).take(i as int),
        decreases v.len() - i,
    {
        let r = v[i].clone();
        assert(repo_views(out@.push(r)) =~= repo_views(out@).push(r@));
        assert(repo_views(v@).take(i + 1) =~= repo_views(v@).take(i as int).push(v@[i as int]@));
        out.push(r);
        i = i + 1;
    }
    assert(repo_views(v@).take(i as int) =~= repo_views(v@));
    out
}

} // verus!
