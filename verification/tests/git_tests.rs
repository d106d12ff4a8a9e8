use viewyard::command::ProcessOutcome;
use viewyard::command::ProcessOutput;
use viewyard::git;
use viewyard::models::GitProtocol;
use viewyard::git::extract_account_from_source;
use viewyard::git::detect_signing_key;

fn finished(success: bool, code: i32, stdout: &str, stderr: &str) -> ProcessOutcome {
    ProcessOutcome::Finished(ProcessOutput {
        success,
        code: Some(code),
        stdout: stdout.as_bytes().to_vec(),
        stderr: stderr.as_bytes().to_vec(),
    })
}

#[test]
fn test_extract_account_from_source() {

    // Test personal repository
    assert_eq!(extract_account_from_source("GitHub (dheater)").unwrap(), "dheater");

    // Test organization repository
    assert_eq!(
        extract_account_from_source("GitHub (org/dheater)").unwrap(),
        "dheater"
    );

    // Test private repository
    assert_eq!(
        extract_account_from_source("GitHub (dheater) [private]").unwrap(),
        "dheater"
    );

    // Test organization private repository
    assert_eq!(
        extract_account_from_source("GitHub (myorg/dheater) [private]").unwrap(),
        "dheater"
    );

    // Test invalid formats
    assert!(extract_account_from_source("Not GitHub").is_err());
    assert!(extract_account_from_source("GitHub ()").is_err());
    assert!(extract_account_from_source("GitHub (org/)").is_err());
}

#[test]
fn test_signing_key_detection() {

    // With no global signing key configured, `git config --global user.signingkey`
    // exits with status 1 and prints nothing.
    let no_key = detect_signing_key(&finished(false, 1, "", ""));
    assert_eq!(no_key, None);
}

#[test]
fn test_transform_github_url_for_account() {
    // Test SSH URL transformation
    let ssh_url = "git@github.com:dheater/test-repo.git";

    // Without an SSH configuration no alias is found: the URL keeps its path.
    let transformed = git::transform_github_url_for_account(ssh_url, "dheater", "");
    assert!(transformed.contains("dheater/test-repo.git"));

    // Test non-SSH URL (should remain unchanged)
    let https_url = "https://github.com/dheater/test-repo.git";
    let unchanged = git::transform_github_url_for_account(https_url, "dheater", "");
    assert_eq!(unchanged, https_url);

    // Test non-GitHub URL (should remain unchanged)
    let gitlab_url = "git@gitlab.com:dheater/test-repo.git";
    let unchanged_gitlab = git::transform_github_url_for_account(gitlab_url, "dheater", "");
    assert_eq!(unchanged_gitlab, gitlab_url);
}

#[test]
fn test_resolve_protocol_defaults_to_ssh() {
    let protocol = git::resolve_protocol(None, None).unwrap();
    assert_eq!(protocol, GitProtocol::Ssh);
}

#[test]
fn test_resolve_protocol_env_var_https() {
    let protocol = git::resolve_protocol(None, Some("https")).unwrap();
    assert_eq!(protocol, GitProtocol::Https);
}

#[test]
fn test_resolve_protocol_env_var_ssh() {
    let protocol = git::resolve_protocol(None, Some("ssh")).unwrap();
    assert_eq!(protocol, GitProtocol::Ssh);
}

#[test]
fn test_resolve_protocol_flag_overrides_env_var() {
    // Flag says ssh, env says https — flag wins
    let protocol = git::resolve_protocol(Some("ssh"), Some("https")).unwrap();
    assert_eq!(protocol, GitProtocol::Ssh);
}

#[test]
fn test_resolve_protocol_flag_https_overrides_env_ssh() {
    let protocol = git::resolve_protocol(Some("https"), Some("ssh")).unwrap();
    assert_eq!(protocol, GitProtocol::Https);
}

#[test]
fn test_resolve_protocol_unknown_value_errors() {
    assert!(git::resolve_protocol(Some("ftp"), None).is_err());
    assert!(git::resolve_protocol(None, Some("ftp")).is_err());
}

#[test]
fn test_normalize_ssh_url_to_https() {
    let ssh_url = "git@github.com:dheater/viewyard.git";
    let result = git::normalize_url_for_protocol(ssh_url, GitProtocol::Https);
    assert_eq!(result, "https://github.com/dheater/viewyard.git");
}

#[test]
fn test_normalize_https_url_to_ssh() {
    let https_url = "https://github.com/dheater/viewyard.git";
    let result = git::normalize_url_for_protocol(https_url, GitProtocol::Ssh);
    assert_eq!(result, "git@github.com:dheater/viewyard.git");
}

#[test]
fn test_normalize_ssh_url_to_ssh_is_identity() {
    let ssh_url = "git@github.com:dheater/viewyard.git";
    let result = git::normalize_url_for_protocol(ssh_url, GitProtocol::Ssh);
    assert_eq!(result, ssh_url);
}

#[test]
fn test_normalize_https_url_to_https_is_identity() {
    let https_url = "https://github.com/dheater/viewyard.git";
    let result = git::normalize_url_for_protocol(https_url, GitProtocol::Https);
    assert_eq!(result, https_url);
}

#[test]
fn test_normalize_non_github_url_is_unchanged() {
    let gitlab_url = "git@gitlab.com:org/repo.git";
    assert_eq!(
        git::normalize_url_for_protocol(gitlab_url, GitProtocol::Https),
        gitlab_url
    );
    let gitlab_https = "https://gitlab.com/org/repo.git";
    assert_eq!(
        git::normalize_url_for_protocol(gitlab_https, GitProtocol::Ssh),
        gitlab_https
    );
}
