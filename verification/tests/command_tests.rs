use std::collections::BTreeMap;
use std::collections::BTreeSet;

use viewyard::command::Invocation;
use viewyard::command::ProcessOutcome;
use viewyard::command::ProcessOutput;
use viewyard::error::ViewyardError;
use viewyard::git::SshHostAliases;
use viewyard::models::Repository;
use viewyard::session::Notice;
use viewyard::session::NoticeLevel;
use viewyard::session::Reply;
use viewyard::session::Request;
use viewyard::session::Step;
use viewyard::views::handle_view_command;
use viewyard::views::ViewCommand;
use viewyard::views::ViewRun;
use viewyard::viewset_commands::handle_viewset_command;
use viewyard::viewset_commands::ViewsetCommand;
use viewyard::viewset_commands::ViewsetRun;
use viewyard::workspace::handle_command;
use viewyard::workspace::WorkspaceCommand;
use viewyard::workspace::WorkspaceRun;

/// A machine as the commands see it: directories, the repositories listed in files, and
/// whether programs can be found on the `PATH`.
struct Machine {
    dirs: BTreeSet<String>,
    lists: BTreeMap<String, Vec<Repository>>,
    empty_path: bool,
}

impl Machine {
    fn new() -> Machine {
        Machine { dirs: BTreeSet::new(), lists: BTreeMap::new(), empty_path: false }
    }

    fn run(&self, _inv: &Invocation) -> ProcessOutcome {
        if self.empty_path {
            return ProcessOutcome::SpawnFailed("No such file or directory (os error 2)".to_string());
        }
        ProcessOutcome::Finished(ProcessOutput { success: true, code: Some(0), stdout: Vec::new(), stderr: Vec::new() })
    }

    fn answer(&mut self, req: Request) -> Reply {
        match req {
            Request::Run(inv) => Reply::Ran(self.run(&inv)),
            Request::PathExists(p) => Reply::Flag(self.dirs.contains(&p) || self.lists.contains_key(&p)),
            Request::IsDirectory(p) => Reply::Flag(self.dirs.contains(&p)),
            Request::ReadRepositories(p) => Reply::Repositories(Ok(self.lists.get(&p).cloned().unwrap_or_default())),
            Request::ReadViewsetConfig(_) => Reply::Protocol(None),
            Request::CreateDirAll(p) => {
                self.dirs.insert(p);
                Reply::Io(Ok(()))
            },
            other => panic!("unexpected request {other:?}"),
        }
    }
}

/// What a command writes: its notices on standard output, those on standard error, and
/// whether it succeeded.
struct Output {
    stdout: String,
    stderr: String,
    success: bool,
}

fn drive<S>(
    first: Step<S, Result<(), ViewyardError>>,
    resume: fn(S, Reply) -> Step<S, Result<(), ViewyardError>>,
    machine: &mut Machine,
) -> Output {
    let mut notices: Vec<Notice> = Vec::new();
    let mut step = first;
    for _ in 0..1000 {
        match step {
            Step::Ask(ns, req, state) => {
                notices.extend(ns);
                let reply = machine.answer(req);
                step = resume(state, reply);
            },
            Step::Done(ns, result) => {
                notices.extend(ns);
                let mut out = Output { stdout: String::new(), stderr: String::new(), success: result.is_ok() };
                for n in notices {
                    match n.level {
                        NoticeLevel::Header | NoticeLevel::Info | NoticeLevel::Success | NoticeLevel::Plain => {
                            out.stdout.push_str(&n.text);
                            out.stdout.push('\n');
                        },
                        _ => {
                            out.stderr.push_str(&n.text);
                            out.stderr.push('\n');
                        },
                    }
                }
                if let Err(e) = result {
                    out.stderr.push_str(&e.chain());
                }
                return out;
            },
        }
    }
    panic!("the command did not end");
}

fn viewset_create(machine: &mut Machine, cwd: &str, name: &str, protocol: Option<&str>, env: Option<&str>) -> Output {
    let command = ViewsetCommand::Create { name: name.to_string(), account: None, protocol: protocol.map(String::from) };
    drive(handle_viewset_command(command, cwd, env, SshHostAliases::new()), ViewsetRun::resume, machine)
}

fn workspace(machine: &mut Machine, command: WorkspaceCommand, cwd: &str) -> Output {
    let parent = cwd.rsplit_once('/').map(|(p, _)| p.to_string());
    drive(handle_command(command, cwd, parent.as_deref(), SshHostAliases::new()), WorkspaceRun::resume, machine)
}

fn listed(name: &str, url: &str, source: &str) -> Repository {
    Repository { name: name.to_string(), url: url.to_string(), is_private: false, source: source.to_string(), account: None }
}

#[test]
fn test_create_viewset_without_github_cli() {
    let mut m = Machine::new();
    m.dirs.insert("/tmp/t".to_string());
    m.empty_path = true;
    let out = viewset_create(&mut m, "/tmp/t", "test-viewset", None, None);
    assert!(!out.success);
    assert!(
        out.stderr.contains("Failed to check if gh CLI is installed")
            || out.stderr.contains("No such file or directory")
            || out.stderr.contains("GitHub CLI"),
        "{}",
        out.stderr
    );
}

#[test]
fn test_create_viewset_with_github_cli_unavailable() {
    let mut m = Machine::new();
    m.empty_path = true;
    let out = viewset_create(&mut m, "/tmp/t", "test-viewset", None, None);
    assert!(!out.success);
    assert!(out.stderr.contains("Git is not installed") || out.stderr.contains("Failed to check if gh CLI is installed"));
}

#[test]
fn test_create_viewset_directory_already_exists() {
    let mut m = Machine::new();
    m.dirs.insert("/tmp/t/existing-viewset".to_string());
    let out = viewset_create(&mut m, "/tmp/t", "existing-viewset", None, None);
    assert!(!out.success);
    assert!(out.stderr.contains("already exists") || out.stderr.contains("Directory"));
}

#[test]
fn test_create_viewset_in_existing_directory() {
    let mut m = Machine::new();
    m.dirs.insert("/tmp/t/existing-viewset".to_string());
    m.empty_path = true;
    let out = viewset_create(&mut m, "/tmp/t", "existing-viewset", None, None);
    assert!(!out.success);
    assert!(
        out.stderr.contains("Git is not installed")
            || out.stderr.contains("exists")
            || out.stderr.contains("already")
            || out.stderr.contains("File exists")
    );
}

#[test]
fn test_viewset_config_written_with_https_when_flag_used() {
    let mut m = Machine::new();
    m.empty_path = true;
    let out = viewset_create(&mut m, "/tmp/t", "test-project", Some("https"), None);
    assert!(!out.success);
    assert!(!out.stderr.contains("unrecognized option"));
    assert!(!out.stderr.contains("invalid value"));
}

#[test]
fn test_viewset_create_rejects_unknown_protocol_value() {
    let mut m = Machine::new();
    let out = viewset_create(&mut m, "/tmp/t", "test-project", Some("ftp"), None);
    assert!(!out.success);
    assert!(out.stderr.contains("ftp") || out.stderr.contains("protocol"));
}

#[test]
fn test_viewset_create_rejects_unknown_protocol_via_env_var() {
    let mut m = Machine::new();
    let out = viewset_create(&mut m, "/tmp/t", "test-project", None, Some("ftp"));
    assert!(!out.success);
    assert!(out.stderr.contains("ftp") || out.stderr.contains("protocol"));
}

#[test]
fn test_workspace_commands_outside_view() {
    let mut m = Machine::new();
    let out = workspace(&mut m, WorkspaceCommand::Status, "/tmp/t");
    assert!(!out.success);
    assert!(out.stderr.contains("view directory"));
}

#[test]
fn test_workspace_status_outside_view() {
    let mut m = Machine::new();
    let out = workspace(&mut m, WorkspaceCommand::Status, "/tmp/t");
    assert!(!out.success);
    assert!(out.stderr.contains("view directory"));
}

#[test]
fn test_workspace_commit_all_outside_view() {
    let mut m = Machine::new();
    let out = workspace(&mut m, WorkspaceCommand::CommitAll { message: "test message".to_string() }, "/tmp/t");
    assert!(!out.success);
    assert!(out.stderr.contains("view directory"));
}

#[test]
fn test_workspace_push_all_outside_view() {
    let mut m = Machine::new();
    let out = workspace(&mut m, WorkspaceCommand::PushAll, "/tmp/t");
    assert!(!out.success);
    assert!(out.stderr.contains("view directory"));
}

#[test]
fn test_directory_without_git_repos_fails() {
    let mut m = Machine::new();
    m.dirs.insert("/tmp/t/empty-dir".to_string());
    m.dirs.insert("/tmp/t/empty-dir/not-a-repo".to_string());
    let out = workspace(&mut m, WorkspaceCommand::Status, "/tmp/t/empty-dir");
    assert!(!out.success);
    assert!(out.stderr.contains("Not in a view directory"));
}

#[test]
fn test_view_create_outside_viewset() {
    let mut m = Machine::new();
    let command = ViewCommand::Create { name: "test-view".to_string() };
    let out = drive(handle_view_command(command, "/tmp/t", Some("/tmp"), SshHostAliases::new()), ViewRun::resume, &mut m);
    assert!(!out.success);
    assert!(out.stderr.contains("Not in a viewset directory"));
}

fn view_of_viewset(m: &mut Machine, viewset: &str, view: &str, repos: Vec<Repository>) {
    m.dirs.insert(viewset.to_string());
    m.dirs.insert(format!("{viewset}/{view}"));
    for r in &repos {
        m.dirs.insert(format!("{viewset}/{view}/{}", r.name));
        m.dirs.insert(format!("{viewset}/{view}/{}/.git", r.name));
    }
    m.lists.insert(format!("{viewset}/.viewyard-repos.json"), repos);
}

#[test]
fn test_hierarchical_view_detection() {
    let mut m = Machine::new();
    view_of_viewset(&mut m, "/tmp/t/test-viewset", "test-view", vec![
        listed("repo1", "git@github.com:user/repo1.git", "GitHub (user)"),
        listed("repo2", "git@github.com:user/repo2.git", "GitHub (user)"),
    ]);
    let out = workspace(&mut m, WorkspaceCommand::Status, "/tmp/t/test-viewset/test-view");
    assert!(out.success, "{}", out.stderr);
    assert!(out.stdout.contains("Viewset: test-viewset"));
    assert!(out.stdout.contains("View: test-view"));
}

#[test]
fn test_https_url_loads_without_unusual_url_warning() {
    let mut m = Machine::new();
    view_of_viewset(&mut m, "/tmp/t", "default", vec![listed(
        "test-repo",
        "https://github.com/testorg/test-repo.git",
        "GitHub (testorg)",
    )]);
    let out = workspace(&mut m, WorkspaceCommand::Status, "/tmp/t/default");
    assert!(!out.stderr.contains("unusual URL format"));
}

#[test]
fn test_https_url_is_not_mutated_by_ssh_alias_transformation() {
    let mut m = Machine::new();
    view_of_viewset(&mut m, "/tmp/t", "default", vec![listed(
        "test-repo",
        "https://github.com/testorg/test-repo.git",
        "GitHub (testorg)",
    )]);
    let out = workspace(&mut m, WorkspaceCommand::Status, "/tmp/t/default");
    assert!(!out.stderr.contains("git@github.com-testorg"));
}
