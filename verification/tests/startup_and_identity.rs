use git_tui::git::get_git_signature_info;
use git_tui::repo::repo_search_paths;

#[test]
fn repository_search_is_bounded_and_ordered() {
    let paths = repo_search_paths();
    assert_eq!(paths.len(), 6);
    assert_eq!(paths[0], ".");
    assert_eq!(paths[1], "../");
    assert_eq!(paths[2], "../../");
    assert_eq!(paths[5], "../../../../../");
}

#[test]
fn configured_identity_is_returned_whole() {
    let r = get_git_signature_info(Some("Ada".to_string()), Some("ada@example.org".to_string()));
    assert_eq!(r.unwrap(), ("Ada".to_string(), "ada@example.org".to_string()));
}

#[test]
fn missing_user_name_is_reported() {
    let r = get_git_signature_info(None, Some("ada@example.org".to_string()));
    assert_eq!(r.unwrap_err(), "Git user.name not configured");
}

#[test]
fn missing_user_email_is_reported() {
    let r = get_git_signature_info(Some("Ada".to_string()), None);
    assert_eq!(r.unwrap_err(), "Git user.email not configured");
}
