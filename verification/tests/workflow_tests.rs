use viewyard::command::Invocation;
use viewyard::command::ProcessOutcome;
use viewyard::command::ProcessOutput;
use viewyard::git::detect_ssh_host_aliases;
use viewyard::git::SshHostAliases;
use viewyard::models::Repository;
use viewyard::session::Notice;
use viewyard::session::NoticeLevel;
use viewyard::session::Reply;
use viewyard::session::Request;
use viewyard::session::Step;
use viewyard::workspace::handle_command;
use viewyard::workspace::WorkspaceCommand;
use viewyard::workspace::WorkspaceRun;
use viewyard::status::check_branch_consistency;
use viewyard::status::show_status_summary;
use viewyard::view::load_and_validate_repos;
use viewyard::models::GitProtocol;
use viewyard::git::extract_account_from_source;
use viewyard::github::repositories_from_listing;
use viewyard::github::RepoListing;

fn finished(success: bool, code: i32, stdout: &str, stderr: &str) -> ProcessOutcome {
    ProcessOutcome::Finished(ProcessOutput {
        success,
        code: Some(code),
        stdout: stdout.as_bytes().to_vec(),
        stderr: stderr.as_bytes().to_vec(),
    })
}

fn ok(stdout: &str) -> Reply {
    Reply::Ran(finished(true, 0, stdout, ""))
}

fn repo(name: &str, account: Option<&str>) -> Repository {
    Repository {
        name: name.to_string(),
        url: format!("https://github.com/acct/{name}.git"),
        is_private: false,
        source: "GitHub (acct)".to_string(),
        account: account.map(|a| a.to_string()),
    }
}

/// What the environment of the tests answers: a view `/work/set/feat` of the viewset
/// `/work/set`, whose repositories are configured for `acct`.
struct World {
    repos: Vec<(&'static str, Option<&'static str>)>,
    answer_run: fn(&Invocation) -> Reply,
    requests: Vec<String>,
    conflict: bool,
}

impl World {
    fn answer(&mut self, req: &Request) -> Reply {
        match req {
            Request::PathExists(p) => {
                self.requests.push(format!("exists {p}"));
                Reply::Flag(if p.contains("rebase-") { self.conflict } else { true })
            },
            Request::IsDirectory(p) => {
                self.requests.push(format!("dir {p}"));
                Reply::Flag(true)
            },
            Request::ReadRepositories(p) => {
                self.requests.push(format!("read {p}"));
                Reply::Repositories(Ok(self.repos.iter().map(|(n, a)| repo(n, *a)).collect()))
            },
            Request::Run(inv) => {
                self.requests.push(format!("{} {} @{}", inv.program, inv.args.join(" "), inv.cwd.clone().unwrap_or_default()));
                let args: Vec<&str> = inv.args.iter().map(|s| s.as_str()).collect();
                match args.as_slice() {
                    ["config", "--local", "user.name"] => ok("acct\n"),
                    ["config", "--local", "user.email"] => ok("acct@users.noreply.github.com\n"),
                    ["config", "--local", "user.signingkey"] => Reply::Ran(finished(false, 1, "", "")),
                    ["config", "--global", "user.signingkey"] => Reply::Ran(finished(false, 1, "", "")),
                    _ => (self.answer_run)(inv),
                }
            },
            Request::ReadViewsetConfig(p) => {
                self.requests.push(format!("config {p}"));
                Reply::Protocol(None)
            },
            other => panic!("unexpected request {other:?}"),
        }
    }
}

fn run_command(command: WorkspaceCommand, world: &mut World) -> (Vec<Notice>, Result<(), String>) {
    let mut notices = Vec::new();
    let mut step = handle_command(command, "/work/set/feat", Some("/work/set"), SshHostAliases::new());
    let mut guard = 0;
    loop {
        guard += 1;
        assert!(guard < 1000, "the command did not end");
        match step {
            Step::Ask(ns, req, state) => {
                notices.extend(ns);
                let reply = world.answer(&req);
                step = WorkspaceRun::resume(state, reply);
            },
            Step::Done(ns, result) => {
                notices.extend(ns);
                return (notices, result.map_err(|e| e.chain()));
            },
        }
    }
}

fn texts(ns: &[Notice]) -> Vec<String> {
    ns.iter().map(|n| n.text.clone()).collect()
}

fn changes_in_a(inv: &Invocation) -> Reply {
    let dir = inv.cwd.clone().unwrap_or_default();
    match inv.args[0].as_str() {
        "status" => ok(if dir.ends_with("/a") { " M src/lib.rs\n" } else { "" }),
        "add" | "commit" | "reset" => ok(""),
        _ => Reply::Ran(finished(false, 1, "", "unexpected")),
    }
}

#[test]
fn commit_all_commits_only_repositories_with_changes() {
    let mut world = World { repos: vec![("a", Some("acct")), ("b", None)], answer_run: changes_in_a, requests: Vec::new(), conflict: false };
    let (ns, result) = run_command(WorkspaceCommand::CommitAll { message: "fix".to_string() }, &mut world);
    assert_eq!(result, Ok(()));
    let t = texts(&ns);
    assert_eq!(t[0], "Committing repositories with changes: fix");
    assert!(t.contains(&"Found 1 repositories with changes".to_string()));
    assert!(t.contains(&"Committing changes in a".to_string()));
    assert_eq!(t.last().unwrap(), "Successfully committed 1 repositories: a");
    assert!(world.requests.contains(&"git commit -m fix @/work/set/feat/a".to_string()));
    assert!(!world.requests.iter().any(|r| r.starts_with("git commit") && r.ends_with("/b")));
    assert!(world.requests.iter().all(|r| !r.contains("--global") || r == "git config --global user.signingkey @"));
}

fn commit_cannot_start(inv: &Invocation) -> Reply {
    match inv.args[0].as_str() {
        "status" => ok(" M x\n"),
        "commit" => Reply::Ran(ProcessOutcome::SpawnFailed("No such file or directory".to_string())),
        _ => ok(""),
    }
}

#[test]
fn commit_all_stops_at_first_failure_and_unstages() {
    let mut world = World { repos: vec![("a", Some("acct")), ("b", Some("acct"))], answer_run: commit_cannot_start, requests: Vec::new(), conflict: false };
    let (ns, result) = run_command(WorkspaceCommand::CommitAll { message: "m".to_string() }, &mut world);
    assert_eq!(result, Err("Commit failed for repository: a".to_string()));
    let t = texts(&ns);
    assert!(t.contains(&"Failed to commit a: Failed to execute git command: git commit -m m".to_string()));
    assert!(t.contains(&"Successfully committed repositories: none".to_string()));
    assert!(world.requests.contains(&"git reset HEAD @/work/set/feat/a".to_string()));
    assert!(!world.requests.iter().any(|r| r.starts_with("git add") && r.ends_with("/b")));
}

fn two_ahead(inv: &Invocation) -> Reply {
    match inv.args[0].as_str() {
        "rev-list" => ok("2\n"),
        "push" => ok(""),
        _ => Reply::Ran(finished(false, 1, "", "")),
    }
}

#[test]
fn push_all_pushes_repositories_ahead() {
    let mut world = World { repos: vec![("a", Some("acct"))], answer_run: two_ahead, requests: Vec::new(), conflict: false };
    let (ns, result) = run_command(WorkspaceCommand::PushAll, &mut world);
    assert_eq!(result, Ok(()));
    let t = texts(&ns);
    assert!(t.contains(&"Found 1 repositories with unpushed commits".to_string()));
    assert_eq!(t.last().unwrap(), "Successfully pushed 1 repositories: a");
}

fn no_upstream(inv: &Invocation) -> Reply {
    match inv.args[0].as_str() {
        "rev-list" => Reply::Ran(finished(false, 128, "", "fatal: no upstream configured")),
        _ => ok(""),
    }
}

#[test]
fn push_all_without_upstream_has_nothing_to_push() {
    let mut world = World { repos: vec![("a", Some("acct"))], answer_run: no_upstream, requests: Vec::new(), conflict: false };
    let (ns, result) = run_command(WorkspaceCommand::PushAll, &mut world);
    assert_eq!(result, Ok(()));
    assert_eq!(texts(&ns).last().unwrap(), "No repositories have unpushed commits");
}

#[test]
fn workspace_commands_outside_a_view_fail() {
    for command in [WorkspaceCommand::Status, WorkspaceCommand::Rebase, WorkspaceCommand::PushAll] {
        let step = handle_command(command, "/", None, SshHostAliases::new());
        match step {
            Step::Done(ns, Err(e)) => {
                assert_eq!(ns[1].text, "Workspace commands must be run from within a view directory");
                assert_eq!(ns[3].text, "No parent directory found");
                assert!(e.chain().contains("Not in a view directory"));
            },
            _ => panic!("a workspace command ran outside a view"),
        }
    }
}

#[test]
fn workspace_command_in_a_directory_without_viewset_fails() {
    let step = handle_command(WorkspaceCommand::Status, "/tmp/empty-dir", Some("/tmp"), SshHostAliases::new());
    let (state, req) = match step {
        Step::Ask(_, req, state) => (state, req),
        Step::Done(_, _) => panic!("the view was not looked for"),
    };
    match req {
        Request::PathExists(p) => assert_eq!(p, "/tmp/.viewyard-repos.json"),
        _ => panic!("unexpected request"),
    }
    match WorkspaceRun::resume(state, Reply::Flag(false)) {
        Step::Done(ns, Err(e)) => {
            assert_eq!(e.message(), "Failed to run 'viewyard status'");
            assert_eq!(e.chain(), "Failed to run 'viewyard status': Not in a view directory");
            assert_eq!(ns[0].text, "Workspace commands must be run from within a view directory");
            assert_eq!(ns[2].text, "Parent directory: /tmp");
        },
        _ => panic!("status ran without a viewset"),
    }
}

fn rebase_conflicts(inv: &Invocation) -> Reply {
    match inv.args[0].as_str() {
        "status" => ok(""),
        "fetch" => ok(""),
        "branch" => ok("feat\n"),
        "symbolic-ref" => ok("refs/remotes/origin/main\n"),
        "rebase" => Reply::Ran(ProcessOutcome::SpawnFailed("interrupted".to_string())),
        _ => ok(""),
    }
}

#[test]
fn rebase_reports_conflicts_and_fails() {
    let mut world = World { repos: vec![("a", Some("acct"))], answer_run: rebase_conflicts, requests: Vec::new(), conflict: false };
    let (ns, result) = run_command(WorkspaceCommand::Rebase, &mut world);
    assert_eq!(result, Err("Some repositories failed to rebase".to_string()));
    let t = texts(&ns);
    assert!(world.requests.contains(&"git rebase origin/main @/work/set/feat/a".to_string()));
    assert!(world.requests.contains(&"exists /work/set/feat/a/.git/rebase-merge".to_string()));
    assert!(t.contains(&"a: Failed to rebase - Rebase failed".to_string()));
    assert!(t.contains(&"Failed to rebase 1 repositories".to_string()));
    assert!(t.contains(&"   a: Rebase failed".to_string()));
}

fn on_main(inv: &Invocation) -> Reply {
    match inv.args[0].as_str() {
        "status" => ok(""),
        "fetch" => ok(""),
        "branch" => ok("main\n"),
        "symbolic-ref" => Reply::Ran(finished(false, 1, "", "")),
        "remote" => ok("* remote origin\n  HEAD branch: main\n"),
        "merge" => ok(""),
        _ => Reply::Ran(finished(false, 1, "", "")),
    }
}

#[test]
fn rebase_on_the_default_branch_fast_forwards() {
    let mut world = World { repos: vec![("a", Some("acct"))], answer_run: on_main, requests: Vec::new(), conflict: false };
    let (ns, result) = run_command(WorkspaceCommand::Rebase, &mut world);
    assert_eq!(result, Ok(()));
    assert!(world.requests.contains(&"git merge --ff-only origin/main @/work/set/feat/a".to_string()));
    let t = texts(&ns);
    assert!(t.contains(&"a: Rebased successfully".to_string()));
    assert_eq!(t.last().unwrap(), "Successfully rebased 1 repositories: a");
}

fn dirty_feature(inv: &Invocation) -> Reply {
    let dir = inv.cwd.clone().unwrap_or_default();
    match inv.args[0].as_str() {
        "branch" => ok("feat\n"),
        "status" => ok(if dir.ends_with("/a") { " M one\n?? two\n" } else { "" }),
        "rev-list" => ok("0\n"),
        "stash" => ok(if dir.ends_with("/b") { "stash@{0}: WIP\n" } else { "" }),
        _ => Reply::Ran(finished(false, 1, "", "")),
    }
}

#[test]
fn status_shows_each_repository_and_a_summary() {
    let mut world = World { repos: vec![("a", Some("acct")), ("b", Some("acct")), ("c", Some("acct"))], answer_run: dirty_feature, requests: Vec::new(), conflict: false };
    let (ns, result) = run_command(WorkspaceCommand::Status, &mut world);
    assert_eq!(result, Ok(()));
    let t = texts(&ns);
    assert_eq!(t[0], "Repository Status");
    assert!(t.contains(&"Viewset: set".to_string()));
    assert!(t.contains(&"View: feat".to_string()));
    assert!(t.contains(&"Root: /work/set/feat".to_string()));
    assert!(t.contains(&"✓ All repositories are synchronized on branch 'feat'".to_string()));
    assert!(t.contains(&"! a (feat) - 2 changes".to_string()));
    assert!(t.contains(&"→ b (feat) - 1 stashes".to_string()));
    assert!(t.contains(&"✓ c (feat) - clean".to_string()));
    assert_eq!(t.last().unwrap(), "2 repos: 1 clean, 1 dirty | All on feat ✓");
}

#[test]
fn status_warns_about_mixed_branches() {
    let pairs = vec![
        ("a".to_string(), "main".to_string()),
        ("b".to_string(), "feat".to_string()),
        ("c".to_string(), "main".to_string()),
    ];
    let ns = check_branch_consistency(&pairs);
    assert_eq!(texts(&ns), vec!["Branch mismatch detected:", "  - 2 repos on: main", "  - b: feat", ""]);
    assert_eq!(ns[2].level, NoticeLevel::Warning);
    assert_eq!(show_status_summary(0, 0, 0, &pairs).text, "0 repos: all clean | Mixed branches !");
    let same = vec![("a".to_string(), "x".to_string()), ("b".to_string(), "x".to_string())];
    assert!(check_branch_consistency(&same).is_empty());
    assert_eq!(show_status_summary(1, 1, 2, &same).text, "2 repos: 1 clean, 1 dirty, 2 ahead | All on x ✓");
}

#[test]
fn loading_repositories_checks_and_warns() {
    let mut odd = repo("odd", Some("acct"));
    odd.url = "/srv/mirror/odd".to_string();
    let (ns, r) = load_and_validate_repos(vec![odd], "f.json", None, &SshHostAliases::new());
    assert_eq!(r.unwrap().len(), 1);
    assert_eq!(texts(&ns), vec!["Repository 'odd' has unusual URL format: /srv/mirror/odd\nThis might not be a valid Git repository URL"]);

    let mut nameless = repo("x", None);
    nameless.name = "  ".to_string();
    let (_, r) = load_and_validate_repos(vec![repo("a", None), nameless], "f.json", None, &SshHostAliases::new());
    assert_eq!(r.unwrap_err().message(), "Invalid repository at index 1: 'name' field cannot be empty\nFile: f.json");

    let mut urlless = repo("y", None);
    urlless.url = String::new();
    let (_, r) = load_and_validate_repos(vec![urlless], "f.json", None, &SshHostAliases::new());
    assert_eq!(r.unwrap_err().message(), "Invalid repository at index 0: 'url' field cannot be empty\nRepository: y\nFile: f.json");
}

#[test]
fn loading_applies_protocol_and_aliases() {
    let aliases = detect_ssh_host_aliases("Host github.com-acct\n  HostName github.com\n");
    let (_, r) = load_and_validate_repos(vec![repo("a", None)], "f", Some(GitProtocol::Ssh), &aliases);
    assert_eq!(r.unwrap()[0].url, "git@github.com-acct:acct/a.git");
    let (_, r) = load_and_validate_repos(vec![repo("a", None)], "f", Some(GitProtocol::Https), &aliases);
    assert_eq!(r.unwrap()[0].url, "https://github.com/acct/a.git");
    let (_, r) = load_and_validate_repos(vec![repo("a", None)], "f", None, &aliases);
    assert_eq!(r.unwrap()[0].url, "https://github.com/acct/a.git");
}

#[test]
fn ssh_aliases_are_read_from_the_configuration() {
    let config = "Host github.com-work\n    HostName github.com\n    User git\nHost other\n    HostName example.com\nHost github.com-home\n  HostName github.com\n";
    let aliases = detect_ssh_host_aliases(config);
    assert_eq!(aliases.get("work"), Some("github.com-work".to_string()));
    assert_eq!(aliases.get("home"), Some("github.com-home".to_string()));
    assert_eq!(aliases.get("other"), None);
    assert_eq!(
        viewyard::git::transform_github_url_for_account("git@github.com:work/r.git", "work", config),
        "git@github.com-work:work/r.git"
    );
    // Applying the alias a second time changes nothing.
    assert_eq!(
        viewyard::git::transform_github_url_for_account("git@github.com-work:work/r.git", "work", config),
        "git@github.com-work:work/r.git"
    );
}

#[test]
fn discovered_source_reads_back_as_its_account() {
    let entries = vec![RepoListing {
        name: Some("r".to_string()),
        url: Some("https://github.com/org/r".to_string()),
        is_private: Some(true),
    }];
    let repos = repositories_from_listing(&entries, "me", Some("org"), GitProtocol::Https, &SshHostAliases::new());
    assert_eq!(repos[0].source, "GitHub (org/me) [private]");
    assert_eq!(repos[0].url, "https://github.com/org/r.git");
    assert_eq!(extract_account_from_source(&repos[0].source).unwrap(), "me");
}

fn commit_refused(inv: &Invocation) -> Reply {
    match inv.args[0].as_str() {
        "status" => ok(" M x\n"),
        "commit" => Reply::Ran(finished(false, 1, "", "nothing added to commit")),
        _ => ok(""),
    }
}

#[test]
fn commit_all_treats_a_refused_commit_as_a_failure() {
    let mut world = World { repos: vec![("a", Some("acct"))], answer_run: commit_refused, requests: Vec::new(), conflict: false };
    let (ns, result) = run_command(WorkspaceCommand::CommitAll { message: "m".to_string() }, &mut world);
    assert_eq!(result, Err("Commit failed for repository: a".to_string()));
    let t = texts(&ns);
    assert!(t.contains(&"Failed to commit a: Git command failed: git commit -m m\nnothing added to commit".to_string()));
    assert!(t.contains(&"Successfully committed repositories: none".to_string()));
    assert!(world.requests.contains(&"git reset HEAD @/work/set/feat/a".to_string()));
}

fn push_rejected(inv: &Invocation) -> Reply {
    match inv.args[0].as_str() {
        "rev-list" => ok("2\n"),
        "push" => Reply::Ran(finished(false, 1, "", "! [rejected] feat -> feat (non-fast-forward)")),
        _ => Reply::Ran(finished(false, 1, "", "")),
    }
}

#[test]
fn push_all_treats_a_rejected_push_as_a_failure() {
    let mut world = World { repos: vec![("a", Some("acct"))], answer_run: push_rejected, requests: Vec::new(), conflict: false };
    let (ns, result) = run_command(WorkspaceCommand::PushAll, &mut world);
    assert!(result.is_err());
    let t = texts(&ns);
    assert!(!t.iter().any(|l| l.starts_with("Successfully pushed 1")));
    assert!(t.iter().any(|l| l.contains("[rejected]")), "{t:?}");
}

fn rebase_stops(inv: &Invocation) -> Reply {
    match inv.args[0].as_str() {
        "status" => ok(""),
        "fetch" => ok(""),
        "branch" => ok("feat\n"),
        "symbolic-ref" => ok("refs/remotes/origin/main\n"),
        "rebase" => Reply::Ran(finished(false, 1, "", "CONFLICT (content): Merge conflict in x")),
        _ => ok(""),
    }
}

#[test]
fn rebase_detects_a_conflict_when_git_rebase_fails() {
    let mut world = World { repos: vec![("a", Some("acct"))], answer_run: rebase_stops, requests: Vec::new(), conflict: true };
    let (ns, result) = run_command(WorkspaceCommand::Rebase, &mut world);
    assert_eq!(result, Err("Some repositories failed to rebase".to_string()));
    let t = texts(&ns);
    assert!(t.contains(&"Rebase conflict detected!".to_string()), "{t:?}");
    assert!(t.contains(&"a: Failed to rebase - Rebase conflict requires manual resolution".to_string()), "{t:?}");
}

#[test]
fn rebase_failing_without_conflict_reports_git_error() {
    let mut world = World { repos: vec![("a", Some("acct"))], answer_run: rebase_stops, requests: Vec::new(), conflict: false };
    let (ns, result) = run_command(WorkspaceCommand::Rebase, &mut world);
    assert_eq!(result, Err("Some repositories failed to rebase".to_string()));
    assert!(texts(&ns).contains(&"a: Failed to rebase - Rebase failed".to_string()));
}

fn mixed_branches(inv: &Invocation) -> Reply {
    let dir = inv.cwd.clone().unwrap_or_default();
    match inv.args[0].as_str() {
        "branch" => ok(if dir.ends_with("/a") { "feat\n" } else { "main\n" }),
        "rev-list" => ok("0\n"),
        _ => ok(""),
    }
}

#[test]
fn workspace_commands_check_branches_first_and_go_on() {
    for (command, name) in [
        (WorkspaceCommand::CommitAll { message: "m".to_string() }, "commit-all"),
        (WorkspaceCommand::PushAll, "push-all"),
        (WorkspaceCommand::Rebase, "rebase"),
    ] {
        let mut world = World { repos: vec![("a", Some("acct")), ("b", Some("acct"))], answer_run: mixed_branches, requests: Vec::new(), conflict: false };
        let (ns, _) = run_command(command, &mut world);
        let t = texts(&ns);
        assert!(t.contains(&"Branch synchronization error: Not all repositories are on the expected branch".to_string()), "{t:?}");
        assert!(t.contains(&"Branch synchronization check failed: Branch synchronization failed".to_string()), "{t:?}");
        assert!(t.contains(&format!("Continuing with {name}...")), "{t:?}");
        assert!(world.requests.contains(&"git branch --show-current @/work/set/feat/b".to_string()));
    }
}

fn all_on_feat(inv: &Invocation) -> Reply {
    match inv.args[0].as_str() {
        "branch" => ok("feat\n"),
        "status" => ok(""),
        _ => ok(""),
    }
}

#[test]
fn commit_all_in_a_synchronized_view_says_so() {
    let mut world = World { repos: vec![("a", Some("acct")), ("b", Some("acct"))], answer_run: all_on_feat, requests: Vec::new(), conflict: false };
    let (ns, result) = run_command(WorkspaceCommand::CommitAll { message: "m".to_string() }, &mut world);
    assert_eq!(result, Ok(()));
    let t = texts(&ns);
    assert!(t.contains(&"✓ All repositories are synchronized on branch 'feat'".to_string()), "{t:?}");
    assert!(!t.iter().any(|l| l.starts_with("Branch synchronization check failed")));
}
