use viewyard::command::ProcessOutcome;
use viewyard::command::ProcessOutput;
use viewyard::git::detect_ssh_host_aliases;
use viewyard::git::SshHostAliases;
use viewyard::github::GitHubService;
use viewyard::models::GitProtocol;
use viewyard::session::NoticeLevel;
use viewyard::session::Request;
use viewyard::session::Step;

fn finished(success: bool, code: i32, stdout: &str, stderr: &str) -> ProcessOutcome {
    ProcessOutcome::Finished(ProcessOutput {
        success,
        code: Some(code),
        stdout: stdout.as_bytes().to_vec(),
        stderr: stderr.as_bytes().to_vec(),
    })
}

const AUTH_STATUS: &str = "github.com\n  ✓ Logged in to github.com account alice (keyring)\n  - Active account: true\n  ✓ Logged in to github.com account bob (GH_TOKEN)\n  - Active account: false\n";

#[test]
fn accounts_are_read_from_auth_status() {
    let accounts = GitHubService::get_available_accounts(&finished(true, 0, AUTH_STATUS, "")).unwrap();
    assert_eq!(accounts, vec!["alice".to_string(), "bob".to_string()]);
    let none = GitHubService::get_available_accounts(&finished(false, 1, "", "not logged in")).unwrap();
    assert!(none.is_empty());
    let e = GitHubService::get_available_accounts(&ProcessOutcome::SpawnFailed("No such file or directory (os error 2)".to_string())).unwrap_err();
    assert_eq!(e.chain(), "Failed to get GitHub auth status: No such file or directory (os error 2)");
}

#[test]
fn current_account_is_trimmed_and_decoded() {
    assert_eq!(GitHubService::get_current_account(&finished(true, 0, "alice\n", "")).unwrap(), "alice");
    let bytes = ProcessOutcome::Finished(ProcessOutput { success: true, code: Some(0), stdout: vec![b'a', 0xff, b'b'], stderr: vec![] });
    assert_eq!(GitHubService::get_current_account(&bytes).unwrap(), "a\u{FFFD}b");
    assert_eq!(GitHubService::get_current_account(&finished(false, 1, "", "")).unwrap_err().message(), "Failed to get current account");
}

#[test]
fn switching_account_reports_the_error_output() {
    assert!(GitHubService::switch_account("alice", &finished(true, 0, "", "")).is_ok());
    let e = GitHubService::switch_account("carol", &finished(false, 1, "", "no account carol\n")).unwrap_err();
    assert_eq!(e.message(), "Failed to switch to account 'carol': no account carol\n");
}

#[test]
fn user_repositories_are_read_from_the_listing() {
    let json = r#"[{"name":"one","sshUrl":"git@github.com:alice/one.git","isPrivate":false},{"name":"two","sshUrl":"git@github.com:alice/two.git","isPrivate":true},{"name":"three","isPrivate":false}]"#;
    let aliases = detect_ssh_host_aliases("Host github.com-alice\n HostName github.com\n");
    let (ns, r) = GitHubService::get_user_repositories("alice", GitProtocol::Ssh, &aliases, &finished(true, 0, json, ""));
    assert!(ns.is_empty());
    let repos = r.unwrap();
    assert_eq!(repos.len(), 2);
    assert_eq!(repos[0].name, "one");
    assert_eq!(repos[0].url, "git@github.com-alice:alice/one.git");
    assert_eq!(repos[0].source, "GitHub (alice)");
    assert_eq!(repos[1].source, "GitHub (alice) [private]");
    assert!(repos[1].is_private);
    assert_eq!(repos[1].account, Some("alice".to_string()));
}

#[test]
fn https_listing_urls_end_in_git() {
    let json = r#"[{"name":"one","url":"https://github.com/alice/one","isPrivate":false},{"name":"two","url":"https://github.com/alice/two.GIT","isPrivate":false}]"#;
    let (_, r) = GitHubService::get_user_repositories("alice", GitProtocol::Https, &SshHostAliases::new(), &finished(true, 0, json, ""));
    let repos = r.unwrap();
    assert_eq!(repos[0].url, "https://github.com/alice/one.git");
    assert_eq!(repos[1].url, "https://github.com/alice/two.GIT");
}

#[test]
fn failed_listings_are_explained() {
    let (ns, r) = GitHubService::get_user_repositories("alice", GitProtocol::Ssh, &SshHostAliases::new(), &finished(false, 1, "", "error: not authenticated"));
    assert_eq!(r.unwrap_err().message(), "GitHub CLI authentication failed");
    assert_eq!(ns[0].text, "❌ GitHub CLI authentication failed");
    assert_eq!(ns[0].level, NoticeLevel::Error);
    assert_eq!(ns.len(), 5);

    let (ns, r) = GitHubService::get_user_repositories("alice", GitProtocol::Ssh, &SshHostAliases::new(), &finished(false, 1, "", "API rate limit exceeded"));
    assert_eq!(r.unwrap_err().message(), "GitHub API rate limit exceeded");
    assert_eq!(ns[1].text, "⏰ Rate limit issues:");

    let (ns, r) = GitHubService::get_user_repositories("alice", GitProtocol::Ssh, &SshHostAliases::new(), &finished(false, 1, "", "dial tcp: i/o timeout"));
    assert_eq!(r.unwrap_err().message(), "Network error accessing GitHub");
    assert_eq!(ns[4].text, "   • Check GitHub status: https://www.githubstatus.com/");

    let (ns, r) = GitHubService::get_user_repositories("alice", GitProtocol::Ssh, &SshHostAliases::new(), &finished(false, 1, "", "boom"));
    assert_eq!(r.unwrap_err().message(), "Failed to list repositories for account 'alice': boom");
    assert!(ns.is_empty());

    let (_, r) = GitHubService::get_user_repositories("alice", GitProtocol::Ssh, &SshHostAliases::new(), &finished(true, 0, "{not json", ""));
    let e = r.unwrap_err();
    assert_eq!(e.message(), "Failed to parse user repositories JSON");
    assert!(e.chain().starts_with("Failed to parse user repositories JSON: "));
}

#[test]
fn an_inaccessible_organization_is_only_warned_about() {
    let (ns, r) = GitHubService::get_repositories_for_organization("acme", "alice", GitProtocol::Ssh, &SshHostAliases::new(), &finished(false, 1, "", "HTTP 403"));
    assert!(r.unwrap().is_empty());
    assert_eq!(ns[0].level, NoticeLevel::Stderr);
    assert_eq!(ns[0].text, "Warning: Failed to list repositories for organization 'acme': HTTP 403");
}

#[test]
fn a_full_listing_is_warned_about() {
    let entries: Vec<String> = (0..1000).map(|i| format!(r#"{{"name":"r{i}","sshUrl":"git@github.com:acme/r{i}.git","isPrivate":false}}"#)).collect();
    let json = format!("[{}]", entries.join(","));
    let (ns, r) = GitHubService::get_repositories_for_organization("acme", "alice", GitProtocol::Ssh, &SshHostAliases::new(), &finished(true, 0, &json, ""));
    assert_eq!(r.unwrap().len(), 1000);
    assert_eq!(ns[0].text, "        Warning: Found exactly 1000 repositories for organization 'acme'. Some repositories may not be shown due to GitHub CLI limits.");
}

#[test]
fn availability_needs_both_commands() {
    let (inv, check) = GitHubService::check_availability();
    assert_eq!(inv.args, vec!["--version".to_string()]);
    match check.resume(&finished(true, 0, "gh version 2", "")) {
        Step::Ask(_, Request::Run(inv), check) => {
            assert_eq!(inv.args, vec!["auth".to_string(), "status".to_string()]);
            match check.resume(&finished(false, 1, "", "")) {
                Step::Done(_, r) => assert_eq!(r.unwrap(), false),
                _ => panic!("the check went on"),
            }
        },
        _ => panic!("authentication was not checked"),
    }
    match check.resume(&ProcessOutcome::SpawnFailed("No such file or directory".to_string())) {
        Step::Done(_, r) => assert_eq!(r.unwrap_err().chain(), "Failed to check if gh CLI is installed: No such file or directory"),
        _ => panic!("the check went on"),
    }
}

#[test]
fn discovering_an_account_lists_its_own_and_its_organizations_repositories() {
    let mut step = GitHubService::discover_repositories_from_account("alice", GitProtocol::Https, SshHostAliases::new());
    let mut notices: Vec<String> = Vec::new();
    let mut asked: Vec<String> = Vec::new();
    let repos = loop {
        match step {
            Step::Ask(ns, req, d) => {
                notices.extend(ns.into_iter().map(|n| n.text));
                let inv = match req {
                    Request::Run(inv) => inv,
                    _ => panic!("discovery asked for something other than a command"),
                };
                asked.push(inv.args.join(" "));
                let out = match inv.args[0].as_str() {
                    "auth" => finished(true, 0, "", ""),
                    "api" => finished(true, 0, "acme\n\nwidgets\n", ""),
                    _ => {
                        if inv.args.len() == 7 && inv.args[2] == "acme" {
                            finished(true, 0, r#"[{"name":"tool","url":"https://github.com/acme/tool","isPrivate":true}]"#, "")
                        } else if inv.args.len() == 7 {
                            finished(false, 1, "", "denied")
                        } else {
                            finished(true, 0, r#"[{"name":"mine","url":"https://github.com/alice/mine.git","isPrivate":false}]"#, "")
                        }
                    },
                };
                step = d.resume(&out);
            },
            Step::Done(ns, r) => {
                notices.extend(ns.into_iter().map(|n| n.text));
                break r.unwrap();
            },
        }
    };
    assert_eq!(asked[0], "auth switch --user alice");
    assert_eq!(asked[1], "repo list --limit 1000 --json name,url,isPrivate");
    assert_eq!(asked[2], "api user/orgs --jq .[].login");
    assert_eq!(asked[3], "repo list acme --limit 1000 --json name,url,isPrivate");
    assert_eq!(repos.len(), 2);
    assert_eq!(repos[1].source, "GitHub (acme/alice) [private]");
    assert_eq!(notices, vec![
        "  Switching to account: alice",
        "  Fetching personal repositories for alice",
        "    Found 1 personal repositories",
        "  Fetching organization repositories for alice",
        "    Found 2 organizations to check",
        "    Checking organization acme (1/2)",
        "      Found 1 repositories in acme",
        "    Checking organization widgets (2/2)",
        "Warning: Failed to list repositories for organization 'widgets': denied",
        "      Found 0 repositories in widgets",
        "    Found 1 organization repositories",
        "  Total repositories for alice: 2",
    ]);
}
