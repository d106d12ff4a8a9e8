use std::collections::BTreeSet;

use viewyard::command::Invocation;
use viewyard::command::ProcessOutcome;
use viewyard::command::ProcessOutput;
use viewyard::error::ErrorKind;
use viewyard::error::ViewyardError;
use viewyard::git::SshHostAliases;
use viewyard::models::GitProtocol;
use viewyard::models::Repository;
use viewyard::session::Reply;
use viewyard::session::Request;
use viewyard::session::Step;
use viewyard::views::handle_view_command;
use viewyard::views::ViewCommand;
use viewyard::views::ViewRun;
use viewyard::viewset::filter_existing_repositories;
use viewyard::viewset::find_missing_repositories;
use viewyard::viewset::merge_repositories;
use viewyard::viewset::resolve_update_protocol;
use viewyard::viewset_commands::handle_viewset_command;
use viewyard::viewset_commands::ViewsetCommand;
use viewyard::viewset_commands::ViewsetRun;

fn finished(success: bool, stdout: &str, stderr: &str) -> ProcessOutcome {
    ProcessOutcome::Finished(ProcessOutput {
        success,
        code: Some(if success { 0 } else { 1 }),
        stdout: stdout.as_bytes().to_vec(),
        stderr: stderr.as_bytes().to_vec(),
    })
}

fn repo(name: &str) -> Repository {
    Repository {
        name: name.to_string(),
        url: format!("https://github.com/alice/{name}.git"),
        is_private: false,
        source: "GitHub (alice)".to_string(),
        account: None,
    }
}

fn names(rs: &[Repository]) -> Vec<String> {
    rs.iter().map(|r| r.name.clone()).collect()
}

/// A filesystem, git and a GitHub CLI logged in as `alice`, whose repositories are
/// `listed`, and a user who chooses the repositories named in `choose`.
struct World {
    paths: BTreeSet<String>,
    listed: Vec<&'static str>,
    gh_works: bool,
    stored: Option<GitProtocol>,
    existing: Vec<Repository>,
    choose: Vec<&'static str>,
    confirm: bool,
    log: Vec<String>,
    written: Option<(String, Vec<String>)>,
    config: Option<(String, GitProtocol)>,
    clone_error: Option<(&'static str, &'static str)>,
}

impl World {
    fn new() -> World {
        World {
            paths: BTreeSet::new(),
            listed: vec!["api", "web"],
            gh_works: true,
            stored: None,
            existing: Vec::new(),
            choose: vec!["web"],
            confirm: true,
            log: Vec::new(),
            written: None,
            config: None,
            clone_error: None,
        }
    }

    fn run(&mut self, inv: &Invocation) -> ProcessOutcome {
        let args: Vec<&str> = inv.args.iter().map(|s| s.as_str()).collect();
        self.log.push(format!("{} {}", inv.program, args.join(" ")));
        if inv.program == "gh" {
            if !self.gh_works {
                return finished(false, "", "gh: command failed");
            }
            return match args.as_slice() {
                ["repo", "list", ..] => {
                    let field = if args.contains(&"name,sshUrl,isPrivate") { "sshUrl" } else { "url" };
                    let entries: Vec<String> = self
                        .listed
                        .iter()
                        .map(|n| format!(r#"{{"name":"{n}","{field}":"https://github.com/alice/{n}.git","isPrivate":false}}"#))
                        .collect();
                    finished(true, &format!("[{}]", entries.join(",")), "")
                },
                _ => finished(true, "", ""),
            };
        }
        let cwd = inv.cwd.clone().unwrap_or_default();
        match args.as_slice() {
            ["clone", _url, name] if self.clone_error.map(|(n, _)| n) == Some(*name) => {
                finished(false, "", self.clone_error.unwrap().1)
            },
            ["clone", _url, name] => {
                self.paths.insert(format!("{cwd}/{name}"));
                self.paths.insert(format!("{cwd}/{name}/.git"));
                finished(true, "", "")
            },
            ["config", "--local", "user.name"] => finished(true, "alice\n", ""),
            ["config", "--local", "user.email"] => finished(true, "alice@users.noreply.github.com\n", ""),
            ["config", ..] => finished(false, "", ""),
            ["checkout", "-b", _] => finished(true, "", ""),
            ["checkout", _] => finished(false, "", "error: pathspec did not match"),
            _ => finished(true, "", ""),
        }
    }

    fn answer(&mut self, req: Request) -> Reply {
        match req {
            Request::Run(inv) => Reply::Ran(self.run(&inv)),
            Request::PathExists(p) | Request::IsDirectory(p) => Reply::Flag(self.paths.contains(&p)),
            Request::ReadRepositories(_) => Reply::Repositories(Ok(self.existing.clone())),
            Request::ReadViewsetConfig(_) => Reply::Protocol(self.stored),
            Request::CreateDirAll(p) => {
                self.log.push(format!("mkdir {p}"));
                self.paths.insert(p);
                Reply::Io(Ok(()))
            },
            Request::RemoveDirAll(p) => {
                self.log.push(format!("rm {p}"));
                self.paths.retain(|q| !q.starts_with(&p));
                Reply::Io(Ok(()))
            },
            Request::Rename(from, to) => {
                self.log.push(format!("mv {from} {to}"));
                let moved: Vec<String> = self.paths.iter().filter(|q| q.starts_with(&from)).cloned().collect();
                for q in moved {
                    self.paths.remove(&q);
                    self.paths.insert(q.replacen(&from, &to, 1));
                }
                Reply::Io(Ok(()))
            },
            Request::SelectRepositories(available, existing) => {
                self.log.push(format!("select {} / {}", names(&available).join(","), names(&existing).join(",")));
                Reply::Selection(Ok(available.into_iter().filter(|r| self.choose.contains(&r.name.as_str())).collect()))
            },
            Request::ConfirmSelection(selected) => {
                self.log.push(format!("confirm {}", names(&selected).join(",")));
                Reply::Confirmed(Ok(self.confirm))
            },
            Request::WriteRepositories(p, repos) => {
                self.written = Some((p, names(&repos)));
                Reply::Io(Ok(()))
            },
            Request::WriteViewsetConfig(p, protocol) => {
                self.config = Some((p, protocol));
                Reply::Io(Ok(()))
            },
        }
    }
}

fn drive<S>(
    first: Step<S, Result<(), ViewyardError>>,
    resume: fn(S, Reply) -> Step<S, Result<(), ViewyardError>>,
    world: &mut World,
) -> (Vec<String>, Result<(), String>) {
    let mut notices = Vec::new();
    let mut step = first;
    for _ in 0..1000 {
        match step {
            Step::Ask(ns, req, state) => {
                notices.extend(ns.into_iter().map(|n| n.text));
                let reply = world.answer(req);
                step = resume(state, reply);
            },
            Step::Done(ns, result) => {
                notices.extend(ns.into_iter().map(|n| n.text));
                return (notices, result.map_err(|e| e.chain()));
            },
        }
    }
    panic!("the command did not end");
}

fn viewset(command: ViewsetCommand, env: Option<&str>, world: &mut World) -> (Vec<String>, Result<(), String>) {
    drive(handle_viewset_command(command, "/work", env, SshHostAliases::new()), ViewsetRun::resume, world)
}

fn create(account: Option<&str>, protocol: Option<&str>) -> ViewsetCommand {
    ViewsetCommand::Create { name: "proj".to_string(), account: account.map(String::from), protocol: protocol.map(String::from) }
}

#[test]
fn viewset_create_stores_the_chosen_repositories_and_protocol() {
    let mut w = World::new();
    let (ns, r) = viewset(create(Some("alice"), Some("https")), None, &mut w);
    assert_eq!(r, Ok(()));
    assert_eq!(ns[0], "Creating viewset: proj");
    assert!(ns.contains(&"Discovering repositories from GitHub...".to_string()));
    assert!(ns.contains(&"✓ Created viewset directory: /work/proj".to_string()));
    assert_eq!(ns.last().unwrap(), "Run 'viewyard view create <view-name>' to create your first view");
    assert!(ns.contains(&"Viewset 'proj' created successfully with 1 repositories!".to_string()));
    assert_eq!(w.log[0], "git --version");
    assert!(w.log.contains(&"gh auth switch --user alice".to_string()));
    assert!(w.log.contains(&"select api,web / ".to_string()));
    assert!(w.log.contains(&"confirm web".to_string()));
    assert_eq!(w.written, Some(("/work/proj/.viewyard-repos.json".to_string(), vec!["web".to_string()])));
    assert_eq!(w.config, Some(("/work/proj/.viewyard-config.json".to_string(), GitProtocol::Https)));
}

#[test]
fn viewset_create_takes_the_protocol_from_the_environment() {
    let mut w = World::new();
    let (_, r) = viewset(create(Some("alice"), None), Some("https"), &mut w);
    assert_eq!(r, Ok(()));
    assert_eq!(w.config.unwrap().1, GitProtocol::Https);
    let mut w = World::new();
    let (_, r) = viewset(create(Some("alice"), Some("ssh")), Some("https"), &mut w);
    assert_eq!(r, Ok(()));
    assert_eq!(w.config.unwrap().1, GitProtocol::Ssh);
}

#[test]
fn viewset_create_refuses_an_unknown_protocol() {
    let mut w = World::new();
    let (ns, r) = viewset(create(None, Some("ftp")), None, &mut w);
    assert_eq!(r, Err("Invalid protocol 'ftp': expected 'ssh' or 'https'".to_string()));
    assert_eq!(ns, vec!["Creating viewset: proj".to_string()]);
    assert!(w.log.is_empty());
}

#[test]
fn viewset_create_refuses_an_existing_directory() {
    let mut w = World::new();
    w.paths.insert("/work/proj".to_string());
    let (ns, r) = viewset(create(None, None), None, &mut w);
    assert_eq!(r, Err("Directory already exists".to_string()));
    assert_eq!(ns[1], "Directory 'proj' already exists");
    assert!(w.written.is_none());
}

#[test]
fn viewset_create_without_the_github_cli_makes_an_empty_viewset() {
    let mut w = World::new();
    w.gh_works = false;
    let (ns, r) = viewset(create(None, None), None, &mut w);
    assert_eq!(r, Ok(()));
    assert!(ns.contains(&"GitHub CLI is not available or not authenticated".to_string()));
    assert!(ns.contains(&"✓ Created empty viewset directory: /work/proj".to_string()));
    assert!(ns.contains(&"Manually edit .viewyard-repos.json to add repositories when GitHub CLI is set up".to_string()));
    assert!(w.log.contains(&"mkdir /work/proj".to_string()));
    assert!(w.written.is_none());
}

#[test]
fn viewset_create_with_nothing_chosen_makes_an_empty_viewset() {
    let mut w = World::new();
    w.choose = vec![];
    let (ns, r) = viewset(create(Some("alice"), None), None, &mut w);
    assert_eq!(r, Ok(()));
    assert!(ns.contains(&"No repositories selected. Creating empty viewset.".to_string()));
    assert!(ns.contains(&"Manually edit .viewyard-repos.json to add repositories later".to_string()));
    assert!(w.written.is_none());
}

#[test]
fn viewset_create_cancelled_creates_nothing() {
    let mut w = World::new();
    w.confirm = false;
    let (ns, r) = viewset(create(Some("alice"), None), None, &mut w);
    assert_eq!(r, Ok(()));
    assert_eq!(ns.last().unwrap(), "Repository selection cancelled.");
    assert!(!w.log.iter().any(|l| l.starts_with("mkdir")));
}

fn update_world() -> World {
    let mut w = World::new();
    w.paths.insert("/work/.viewyard-repos.json".to_string());
    w.stored = Some(GitProtocol::Https);
    w.existing = vec![repo("api")];
    w
}

fn update() -> ViewsetCommand {
    ViewsetCommand::Update { account: Some("alice".to_string()), protocol: None }
}

#[test]
fn viewset_update_adds_only_new_repositories() {
    let mut w = update_world();
    let (ns, r) = viewset(update(), None, &mut w);
    assert_eq!(r, Ok(()));
    assert_eq!(ns[0], "Updating viewset with new repositories");
    assert!(ns.contains(&"Current viewset has 1 repositories. Found 1 new repositories available to add.".to_string()));
    assert!(ns.contains(&"Existing repositories in viewset:".to_string()));
    assert!(ns.contains(&"Viewset updated successfully! Added 1 new repositories.".to_string()));
    assert!(w.log.contains(&"gh repo list --limit 1000 --json name,url,isPrivate".to_string()));
    assert!(w.log.contains(&"select web / api".to_string()));
    assert_eq!(w.written, Some(("/work/.viewyard-repos.json".to_string(), vec!["api".to_string(), "web".to_string()])));
    assert!(w.config.is_none());
}

#[test]
fn viewset_update_outside_a_viewset_fails() {
    let mut w = World::new();
    let (ns, r) = viewset(update(), None, &mut w);
    assert_eq!(r, Err("Not in a viewset directory".to_string()));
    assert_eq!(ns[1], "Not in a viewset directory");
    assert_eq!(ns[2], "Current directory: /work");
}

#[test]
fn viewset_update_falls_back_to_manual_editing_without_discovery() {
    let mut w = update_world();
    w.gh_works = false;
    let (ns, r) = viewset(update(), None, &mut w);
    assert_eq!(r, Ok(()));
    assert_eq!(ns[ns.len() - 2], "Falling back to manual repository management.");
    assert_eq!(ns[ns.len() - 1], "Edit .viewyard-repos.json manually to add repositories.");
    assert!(w.written.is_none());
}

#[test]
fn viewset_update_with_everything_present_changes_nothing() {
    let mut w = update_world();
    w.existing = vec![repo("api"), repo("web")];
    let (ns, r) = viewset(update(), None, &mut w);
    assert_eq!(r, Ok(()));
    assert!(ns.contains(&"All available repositories are already in the viewset.".to_string()));
    assert_eq!(ns.last().unwrap(), "No changes made to viewset.");
    assert!(w.written.is_none());
}

#[test]
fn viewset_update_cancelled_changes_nothing() {
    let mut w = update_world();
    w.confirm = false;
    let (ns, r) = viewset(update(), None, &mut w);
    assert_eq!(r, Ok(()));
    assert_eq!(ns[ns.len() - 2], "Repository selection cancelled.");
    assert_eq!(ns[ns.len() - 1], "No changes made to viewset.");
    assert!(w.written.is_none());
}

#[test]
fn viewset_update_protocol_prefers_flag_then_environment_then_stored() {
    assert_eq!(resolve_update_protocol(None, None, GitProtocol::Https).unwrap(), GitProtocol::Https);
    assert_eq!(resolve_update_protocol(Some("ssh"), None, GitProtocol::Https).unwrap(), GitProtocol::Ssh);
    assert_eq!(resolve_update_protocol(None, Some("https"), GitProtocol::Ssh).unwrap(), GitProtocol::Https);
    assert!(matches!(resolve_update_protocol(None, Some("git"), GitProtocol::Ssh).unwrap_err().kind, ErrorKind::InvalidProtocol { .. }));
}

#[test]
fn filtering_keeps_the_order_of_new_repositories() {
    let all = vec![repo("c"), repo("a"), repo("b")];
    let existing = vec![repo("a")];
    assert_eq!(names(&filter_existing_repositories(&all, &existing)), vec!["c", "b"]);
    assert_eq!(names(&merge_repositories(existing, &vec![repo("c")])), vec!["a", "c"]);
    assert_eq!(names(&find_missing_repositories(&all, &vec![true, false, false])), vec!["a", "b"]);
}

fn view(command: ViewCommand, cwd: &str, world: &mut World) -> (Vec<String>, Result<(), String>) {
    let parent = cwd.rsplit_once('/').map(|(p, _)| p.to_string());
    drive(handle_view_command(command, cwd, parent.as_deref(), SshHostAliases::new()), ViewRun::resume, world)
}

fn view_world() -> World {
    let mut w = World::new();
    w.paths.insert("/work/proj/.viewyard-repos.json".to_string());
    w.existing = vec![repo("api"), repo("web")];
    w
}

#[test]
fn view_create_clones_every_repository_then_moves_the_view_into_place() {
    let mut w = view_world();
    let (ns, r) = drive(
        handle_view_command(ViewCommand::Create { name: "feat".to_string() }, "/work/proj", Some("/work"), SshHostAliases::new()),
        ViewRun::resume,
        &mut w,
    );
    assert_eq!(r, Ok(()));
    assert_eq!(ns[0], "Creating view: feat");
    assert!(ns.contains(&"View 'feat' created successfully with 2 repositories!".to_string()));
    assert!(w.log.contains(&"mkdir /work/proj/feat.tmp".to_string()));
    assert!(w.log.contains(&"git clone https://github.com/alice/api.git api".to_string()));
    assert!(w.log.contains(&"git checkout -b feat".to_string()));
    assert!(w.log.contains(&"mv /work/proj/feat.tmp /work/proj/feat".to_string()));
    assert!(w.paths.contains("/work/proj/feat/web/.git"));
}

#[test]
fn view_create_refuses_an_existing_view() {
    let mut w = view_world();
    w.paths.insert("/work/proj/feat".to_string());
    let (ns, r) = view(ViewCommand::Create { name: "feat".to_string() }, "/work/proj", &mut w);
    assert_eq!(r, Err("View already exists".to_string()));
    assert!(ns.contains(&"View 'feat' already exists".to_string()));
}

#[test]
fn view_update_adds_the_missing_repositories() {
    let mut w = view_world();
    w.paths.insert("/work/proj/feat".to_string());
    w.paths.insert("/work/proj/feat/api".to_string());
    let (ns, r) = view(ViewCommand::Update { name: None }, "/work/proj/feat", &mut w);
    assert_eq!(r, Ok(()));
    assert!(ns.contains(&"Updating view: feat".to_string()));
    assert!(ns.contains(&"Found 1 missing repositories to add: web".to_string()));
    assert!(ns.contains(&"  ✓ Added web".to_string()));
    assert_eq!(ns.last().unwrap(), "View 'feat' updated successfully! Added 1 repositories.");
    assert!(!w.log.iter().any(|l| l.contains("clone") && l.contains("api.git")));
}

#[test]
fn view_commands_need_a_viewset() {
    let mut w = World::new();
    let (ns, r) = view(ViewCommand::Create { name: "feat".to_string() }, "/elsewhere", &mut w);
    assert_eq!(r, Err("Not in a viewset directory".to_string()));
    assert!(ns.contains(&"Viewset commands must be run from within a viewset directory".to_string()));
}

#[test]
fn view_create_failure_removes_the_temporary_view() {
    let mut w = view_world();
    w.clone_error = Some(("web", "fatal: unable to access"));
    let (ns, r) = view(ViewCommand::Create { name: "feat".to_string() }, "/work/proj", &mut w);
    let e = r.unwrap_err();
    assert!(e.starts_with("Failed to setup repository 'web'"), "{e}");
    assert!(ns.contains(&"Cleaning up temporary files...".to_string()));
    assert!(w.log.contains(&"rm /work/proj/feat.tmp".to_string()));
    assert!(!w.log.iter().any(|l| l.starts_with("mv")));
    assert!(!w.paths.iter().any(|p| p.starts_with("/work/proj/feat")));
}

#[test]
fn view_update_reports_ssh_authentication_failures() {
    let mut w = view_world();
    w.paths.insert("/work/proj/feat".to_string());
    w.clone_error = Some(("api", "git@github.com: Permission denied (publickey)."));
    let (ns, r) = view(ViewCommand::Update { name: Some("feat".to_string()) }, "/work/proj", &mut w);
    assert_eq!(r, Err("Failed to add repository 'api': SSH authentication failed for repository 'api'".to_string()));
    assert!(ns.contains(&"SSH authentication failed for api".to_string()));
    assert!(ns.contains(&"   • Test SSH connection: ssh -T git@github.com".to_string()));
}

#[test]
fn view_update_reports_missing_repositories() {
    let mut w = view_world();
    w.paths.insert("/work/proj/feat".to_string());
    w.clone_error = Some(("api", "remote: Repository not found."));
    let (ns, r) = view(ViewCommand::Update { name: Some("feat".to_string()) }, "/work/proj", &mut w);
    assert_eq!(r, Err("Failed to add repository 'api': Repository 'api' not found or inaccessible".to_string()));
    assert!(ns.contains(&"Repository not found: api".to_string()));
}

#[test]
fn view_create_with_a_trailing_slash_uses_a_sibling_temporary_directory() {
    let mut w = view_world();
    let (_, r) = view(ViewCommand::Create { name: "feat/".to_string() }, "/work/proj", &mut w);
    assert_eq!(r, Ok(()));
    assert!(w.log.contains(&"mkdir /work/proj/feat.tmp".to_string()), "{:?}", w.log);
    assert!(w.log.contains(&"mv /work/proj/feat.tmp /work/proj/feat/".to_string()), "{:?}", w.log);
}
