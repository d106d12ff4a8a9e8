use std::collections::BTreeMap;
use std::collections::BTreeSet;

use viewyard::command::run_git_command;
use viewyard::command::run_git_command_string;
use viewyard::command::Invocation;
use viewyard::command::ProcessOutcome;
use viewyard::command::ProcessOutput;
use viewyard::git::check_git_availability;
use viewyard::git::get_default_branch;
use viewyard::git::resolve_protocol;
use viewyard::models::GitProtocol;
use viewyard::git::git_version_command;
use viewyard::git::get_git_config;
use viewyard::git::set_git_config;
use viewyard::git::validate_and_configure_git_user;
use viewyard::git::validate_repository_directory;
use viewyard::guard::validate_repository_for_operations;
use viewyard::models::Repository;
use viewyard::session::Reply;
use viewyard::session::Request;
use viewyard::session::Step;

fn outcome(success: bool, stdout: &str) -> ProcessOutcome {
    ProcessOutcome::Finished(ProcessOutput {
        success,
        code: Some(if success { 0 } else { 1 }),
        stdout: stdout.as_bytes().to_vec(),
        stderr: Vec::new(),
    })
}

/// A git repository cloned from an `origin`, as git commands run in it see it.
struct Repo {
    local: BTreeMap<String, String>,
    global: BTreeMap<String, String>,
    origin_head: Option<&'static str>,
    remote_refs: BTreeSet<&'static str>,
    global_writes: Vec<String>,
}

impl Repo {
    fn cloned(origin_default: &'static str) -> Repo {
        let mut local = BTreeMap::new();
        local.insert("user.name".to_string(), "Test User".to_string());
        local.insert("user.email".to_string(), "test@example.com".to_string());
        Repo {
            local,
            global: BTreeMap::new(),
            origin_head: Some(origin_default),
            remote_refs: [origin_default].into_iter().collect(),
            global_writes: Vec::new(),
        }
    }

    fn git(&mut self, inv: &Invocation) -> ProcessOutcome {
        assert_eq!(inv.program, "git");
        let args: Vec<&str> = inv.args.iter().map(|s| s.as_str()).collect();
        match args.as_slice() {
            ["config", "--local", key] => match self.local.get(*key) {
                Some(v) => outcome(true, &format!("{v}\n")),
                None => outcome(false, ""),
            },
            ["config", "--local", key, value] => {
                self.local.insert(key.to_string(), value.to_string());
                outcome(true, "")
            },
            ["config", "--global", key] => match self.global.get(*key) {
                Some(v) => outcome(true, &format!("{v}\n")),
                None => outcome(false, ""),
            },
            ["config", "--global", ..] | ["config", ..] => {
                self.global_writes.push(args.join(" "));
                outcome(true, "")
            },
            ["symbolic-ref", "refs/remotes/origin/HEAD"] => match self.origin_head {
                Some(b) => outcome(true, &format!("refs/remotes/origin/{b}\n")),
                None => outcome(false, ""),
            },
            ["remote", "show", "origin"] => outcome(false, ""),
            ["show-ref", "--verify", "--quiet", r] => {
                outcome(self.remote_refs.iter().any(|b| *r == format!("refs/remotes/origin/{b}")), "")
            },
            _ => outcome(false, ""),
        }
    }

    fn answer(&mut self, req: Request) -> Reply {
        match req {
            Request::Run(inv) => Reply::Ran(self.git(&inv)),
            Request::PathExists(_) | Request::IsDirectory(_) => Reply::Flag(true),
            other => panic!("unexpected request {other:?}"),
        }
    }

    fn default_branch(&mut self) -> Result<String, String> {
        let (inv, search) = get_default_branch("/repo");
        let mut step = search.resume(&self.git(&inv));
        loop {
            match step {
                Step::Ask(_, Request::Run(inv), s) => step = s.resume(&self.git(&inv)),
                Step::Ask(_, other, _) => panic!("unexpected request {other:?}"),
                Step::Done(_, r) => return r.map_err(|e| e.chain()),
            }
        }
    }

    fn configure_user(&mut self, account: &str) -> Result<Option<String>, String> {
        let (inv, setup) = validate_and_configure_git_user("/repo", account);
        let mut step = setup.resume(&self.git(&inv));
        loop {
            match step {
                Step::Ask(_, Request::Run(inv), s) => step = s.resume(&self.git(&inv)),
                Step::Ask(_, other, _) => panic!("unexpected request {other:?}"),
                Step::Done(_, r) => return r.map_err(|e| e.chain()),
            }
        }
    }

    fn validate(&mut self, repo: &Repository) -> Result<(), String> {
        let (req, validation) = validate_repository_for_operations("/repo", repo);
        let reply = self.answer(req);
        let mut step = validation.resume(reply);
        loop {
            match step {
                Step::Ask(_, req, s) => {
                    let reply = self.answer(req);
                    step = s.resume(reply);
                },
                Step::Done(_, r) => return r.map_err(|e| e.chain()),
            }
        }
    }

    fn read(&mut self, key: &str) -> String {
        let inv = get_git_config(key, "/repo");
        let o = self.git(&inv);
        run_git_command_string(&inv, &o).unwrap()
    }
}

#[test]
fn test_get_default_branch_with_symbolic_ref() {
    assert_eq!(Repo::cloned("main").default_branch(), Ok("origin/main".to_string()));
}

#[test]
fn test_get_default_branch_with_master() {
    assert_eq!(Repo::cloned("master").default_branch(), Ok("origin/master".to_string()));
}

#[test]
fn test_get_default_branch_with_custom_branch() {
    assert_eq!(Repo::cloned("develop").default_branch(), Ok("origin/develop".to_string()));
}

#[test]
fn test_get_default_branch_prefers_main_over_master() {
    let mut repo = Repo::cloned("main");
    repo.origin_head = None;
    repo.remote_refs = ["main", "master"].into_iter().collect();
    assert_eq!(repo.default_branch(), Ok("origin/main".to_string()));
}

#[test]
fn default_branch_falls_back_to_master_then_fails() {
    let mut repo = Repo::cloned("master");
    repo.origin_head = None;
    assert_eq!(repo.default_branch(), Ok("origin/master".to_string()));
    repo.remote_refs.clear();
    assert!(repo.default_branch().is_err());
}

#[test]
fn test_validate_repository_directory() {
    assert!(validate_repository_directory("/work/current", "current", true, true).is_ok());
    let e = validate_repository_directory("/work/current/this-directory-does-not-exist-12345", "nonexistent", false, false);
    assert!(e.is_err());
}

#[test]
fn test_git_config_operations() {
    let mut repo = Repo::cloned("main");
    let set = set_git_config("user.name", "testuser", "/repo");
    let o = repo.git(&set);
    assert!(run_git_command(&set, &o).is_ok());
    assert_eq!(repo.read("user.name"), "testuser");
    let set = set_git_config("user.email", "test@example.com", "/repo");
    let o = repo.git(&set);
    assert!(run_git_command(&set, &o).is_ok());
    assert_eq!(repo.read("user.email"), "test@example.com");
}

#[test]
fn test_validate_repository_for_operations() {
    let mut repo = Repo::cloned("main");
    let r = Repository {
        name: "test-repo".to_string(),
        url: "https://github.com/testuser/test-repo.git".to_string(),
        is_private: false,
        source: "GitHub (testuser)".to_string(),
        account: None,
    };
    assert_eq!(repo.validate(&r), Ok(()));
    assert_eq!(repo.read("user.name"), "testuser");
    assert_eq!(repo.read("user.email"), "testuser@users.noreply.github.com");
}

#[test]
fn test_validate_repository_with_explicit_account() {
    let mut repo = Repo::cloned("main");
    let r = Repository {
        name: "test-repo".to_string(),
        url: "https://github.com/org/test-repo.git".to_string(),
        is_private: false,
        source: "GitHub (org/someuser)".to_string(),
        account: Some("explicituser".to_string()),
    };
    assert_eq!(repo.validate(&r), Ok(()));
    assert_eq!(repo.read("user.name"), "explicituser");
    assert_eq!(repo.read("user.email"), "explicituser@users.noreply.github.com");
}

#[test]
fn test_signing_key_configuration() {
    let mut repo = Repo::cloned("main");
    repo.local.insert("user.signingkey".to_string(), "~/.ssh/test_key.pub".to_string());
    assert!(repo.configure_user("testuser").is_ok());
    assert_eq!(repo.read("user.name"), "testuser");
    assert_eq!(repo.read("user.email"), "testuser@users.noreply.github.com");
    assert_eq!(repo.read("user.signingkey"), "~/.ssh/test_key.pub");
}

#[test]
fn global_signing_key_is_copied_and_shown_shortened() {
    let mut repo = Repo::cloned("main");
    repo.global.insert("user.signingkey".to_string(), "ssh-ed25519 AAAAC3NzaC1lZDI1NTE5".to_string());
    let shown = repo.configure_user("testuser").unwrap();
    assert_eq!(
        shown,
        Some("Configured git user: testuser <testuser@users.noreply.github.com>, signing: ssh-ed25519 AAAAC3Nz...".to_string())
    );
    assert_eq!(repo.read("user.signingkey"), "ssh-ed25519 AAAAC3NzaC1lZDI1NTE5");
    assert!(repo.global_writes.is_empty());
}

#[test]
fn test_global_config_never_modified() {
    let mut repo = Repo::cloned("main");
    repo.global.insert("user.name".to_string(), "Global Name".to_string());
    let before = repo.global.clone();
    assert!(repo.configure_user("testuser").is_ok());
    assert!(repo.validate(&Repository {
        name: "test-repo".to_string(),
        url: "https://github.com/testuser/test-repo.git".to_string(),
        is_private: false,
        source: "GitHub (testuser)".to_string(),
        account: None,
    }).is_ok());
    assert_eq!(repo.global, before);
    assert!(repo.global_writes.is_empty());
}

#[test]
fn git_is_available_when_git_version_starts() {
    assert_eq!(git_version_command().args, vec!["--version".to_string()]);
    assert!(check_git_availability(&outcome(true, "git version 2.43.0\n")).is_ok());
    assert!(check_git_availability(&outcome(false, "")).is_ok());
    let e = check_git_availability(&ProcessOutcome::SpawnFailed("No such file or directory (os error 2)".to_string())).unwrap_err();
    assert_eq!(
        e.chain(),
        "Git is not installed or not available in PATH. Please install git and try again.: No such file or directory (os error 2)"
    );
}

#[test]
fn git_output_must_be_utf8() {
    let inv = get_git_config("user.name", "/repo");
    let bytes = |stdout: Vec<u8>, stderr: Vec<u8>, success: bool| {
        ProcessOutcome::Finished(ProcessOutput { success, code: Some(if success { 0 } else { 1 }), stdout, stderr })
    };
    assert_eq!(run_git_command_string(&inv, &bytes("  héllo wörld \n".as_bytes().to_vec(), vec![], true)).unwrap(), "héllo wörld");
    let e = run_git_command_string(&inv, &bytes(vec![b'o', 0xc3, b'k'], vec![], true)).unwrap_err();
    assert_eq!(e.message(), "Git command output is not valid UTF-8");
    let e = run_git_command_string(&inv, &bytes(vec![], vec![b'b', 0xff, b'd'], false)).unwrap_err();
    assert_eq!(e.message(), "Git command failed: git config --local user.name\nb\u{FFFD}d");
}

#[test]
fn git_commands_run_for_their_effect_fail_on_a_failing_exit() {
    let inv = viewyard::git::commit("m", "/repo");
    let failed = ProcessOutcome::Finished(ProcessOutput { success: false, code: Some(1), stdout: vec![], stderr: b"nothing to commit".to_vec() });
    assert_eq!(run_git_command(&inv, &failed).unwrap_err().message(), "Git command failed: git commit -m m\nnothing to commit");
    assert!(run_git_command(&inv, &outcome(true, "")).is_ok());
    let e = run_git_command(&inv, &ProcessOutcome::SpawnFailed("No such file or directory".to_string())).unwrap_err();
    assert_eq!(e.message(), "Failed to execute git command: git commit -m m");
}

#[test]
fn protocol_values_must_both_be_valid() {
    assert!(resolve_protocol(Some("ssh"), Some("ftp")).is_err());
    assert!(resolve_protocol(Some("ftp"), Some("https")).is_err());
    assert_eq!(resolve_protocol(Some("ssh"), Some("https")).unwrap(), GitProtocol::Ssh);
    assert_eq!(resolve_protocol(None, Some("https")).unwrap(), GitProtocol::Https);
}
