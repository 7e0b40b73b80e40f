use git_tui::push::CredentialAttempts;
use git_tui::push::CredentialPlan;
use git_tui::push::PushError;
use git_tui::push::RemoteInfo;
use git_tui::push::RepoFacts;
use git_tui::push::check_push_prerequisites;
use git_tui::push::failure_message;
use git_tui::push::get_available_remote;
use git_tui::push::is_terminal_message;
use git_tui::push::progress_message;
use git_tui::push::refspec_for;
use git_tui::push::ssh_key_paths;
use git_tui::push::success_message;

fn ready_facts() -> RepoFacts {
    RepoFacts { is_bare: false, head_exists: true, head_has_target: true, branch_ref_exists: true }
}

fn remote(name: &str, has_url: bool) -> RemoteInfo {
    RemoteInfo { name: name.to_string(), has_url }
}

#[test]
fn ready_repository_passes_prerequisites() {
    let branch = "main".to_string();
    assert!(check_push_prerequisites(&ready_facts(), &branch).is_ok());
}

#[test]
fn bare_repository_is_refused() {
    let branch = "main".to_string();
    let facts = RepoFacts { is_bare: true, ..ready_facts() };
    match check_push_prerequisites(&facts, &branch) {
        Err(PushError::BareRepository) => {},
        _ => panic!("expected the bare-repository refusal"),
    }
}

#[test]
fn missing_head_is_refused() {
    let branch = "main".to_string();
    let facts = RepoFacts { head_exists: false, ..ready_facts() };
    match check_push_prerequisites(&facts, &branch) {
        Err(PushError::NoHead) => {},
        _ => panic!("expected the missing-head refusal"),
    }
}

#[test]
fn headless_commitless_repository_is_refused() {
    let branch = "main".to_string();
    let facts = RepoFacts { head_has_target: false, ..ready_facts() };
    match check_push_prerequisites(&facts, &branch) {
        Err(PushError::NoCommits) => {},
        _ => panic!("expected the no-commits refusal"),
    }
}

#[test]
fn missing_branch_reference_is_refused_by_name() {
    let branch = "topic".to_string();
    let facts = RepoFacts { branch_ref_exists: false, ..ready_facts() };
    match check_push_prerequisites(&facts, &branch) {
        Err(PushError::BranchMissing(b)) => {
            assert_eq!(b, "topic");
            assert_eq!(
                PushError::BranchMissing(b).message(),
                "Branch 'topic' does not exist"
            );
        },
        _ => panic!("expected the missing-branch refusal"),
    }
}

#[test]
fn origin_is_preferred_over_position() {
    let remotes = vec![remote("fork", true), remote("origin", true)];
    assert_eq!(get_available_remote(&remotes).unwrap(), 1);
}

#[test]
fn preference_order_is_origin_upstream_master() {
    let remotes = vec![remote("master", true), remote("upstream", true)];
    assert_eq!(get_available_remote(&remotes).unwrap(), 1);
}

#[test]
fn preferred_remote_without_url_is_passed_over() {
    let remotes = vec![remote("fork", true), remote("origin", false)];
    assert_eq!(get_available_remote(&remotes).unwrap(), 0);
}

#[test]
fn first_remote_is_the_fallback() {
    let remotes = vec![remote("alpha", true), remote("beta", true)];
    assert_eq!(get_available_remote(&remotes).unwrap(), 0);
}

#[test]
fn no_remotes_is_a_terminal_error() {
    let remotes: Vec<RemoteInfo> = Vec::new();
    match get_available_remote(&remotes) {
        Err(PushError::NoRemotes) => {},
        _ => panic!("expected the no-remotes refusal"),
    }
}

#[test]
fn url_less_fallback_is_refused() {
    let remotes = vec![remote("alpha", false)];
    match get_available_remote(&remotes) {
        Err(PushError::RemoteWithoutUrl) => {},
        _ => panic!("expected the url-less refusal"),
    }
}

#[test]
fn credential_ladder_grants_each_strategy_once() {
    let mut c = CredentialAttempts::new();
    match c.next_plan(true) {
        CredentialPlan::Try { agent, disk_keys } => {
            assert!(agent);
            assert!(disk_keys);
        },
        _ => panic!("expected a first grant"),
    }
    match c.next_plan(true) {
        CredentialPlan::Try { agent, disk_keys } => {
            assert!(!agent);
            assert!(!disk_keys);
        },
        _ => panic!("expected an empty grant"),
    }
}

#[test]
fn credential_ladder_refuses_past_the_ceiling() {
    let mut c = CredentialAttempts::new();
    for _ in 0..5 {
        match c.next_plan(false) {
            CredentialPlan::Try { agent, disk_keys } => {
                assert!(!agent);
                assert!(!disk_keys);
            },
            _ => panic!("expected a grant below the ceiling"),
        }
    }
    assert!(matches!(c.next_plan(true), CredentialPlan::TooManyAttempts));
    assert!(matches!(c.next_plan(true), CredentialPlan::TooManyAttempts));
}

#[test]
fn ssh_keys_are_not_offered_when_not_allowed() {
    let mut c = CredentialAttempts::new();
    match c.next_plan(false) {
        CredentialPlan::Try { agent, disk_keys } => {
            assert!(!agent);
            assert!(!disk_keys);
        },
        _ => panic!("expected a grant"),
    }
    match c.next_plan(true) {
        CredentialPlan::Try { agent, disk_keys } => {
            assert!(agent);
            assert!(disk_keys);
        },
        _ => panic!("expected a grant"),
    }
}

#[test]
fn refspec_maps_branch_onto_itself() {
    assert_eq!(refspec_for("main"), "refs/heads/main:refs/heads/main");
}

#[test]
fn ssh_key_candidates_live_under_home() {
    let paths = ssh_key_paths("/home/me");
    assert_eq!(paths.len(), 3);
    assert_eq!(paths[0].0, "/home/me/.ssh/id_ed25519");
    assert_eq!(paths[0].1, "/home/me/.ssh/id_ed25519.pub");
    assert_eq!(paths[1].0, "/home/me/.ssh/id_rsa");
    assert_eq!(paths[2].0, "/home/me/.ssh/id_ecdsa");
}

#[test]
fn progress_message_reports_whole_percent() {
    assert_eq!(progress_message(1, 3), "Push progress: 33% (1/3)");
    assert_eq!(progress_message(0, 10), "Push progress: 0% (0/10)");
    assert_eq!(progress_message(10, 10), "Push progress: 100% (10/10)");
}

#[test]
fn terminal_messages_are_prefixed() {
    let ok = success_message("main");
    assert_eq!(ok, "✅ Successfully pushed branch 'main'");
    assert!(is_terminal_message(&ok));
    let bad = failure_message("Authentication failed");
    assert_eq!(bad, "❌ Push failed: Authentication failed");
    assert!(is_terminal_message(&bad));
    assert!(!is_terminal_message("Push progress: 50% (1/2)"));
    assert!(!is_terminal_message(""));
}

#[test]
fn error_messages_match_their_variants() {
    assert_eq!(PushError::BareRepository.message(), "Cannot push from bare repository");
    assert_eq!(PushError::NoHead.message(), "No HEAD found - repository may be empty");
    assert_eq!(PushError::NoCommits.message(), "No commits found - nothing to push");
    assert_eq!(
        PushError::NoRemotes.message(),
        "No remotes configured. Add a remote with: git remote add origin <url>"
    );
    assert_eq!(PushError::RemoteWithoutUrl.message(), "Remote has no URL configured");
    assert_eq!(PushError::TooManyAttempts.message(), "Too many authentication attempts");
    assert_eq!(PushError::AuthenticationFailed.message(), "Authentication failed");
}
