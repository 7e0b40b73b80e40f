use git_tui::action::Action;
use git_tui::app::App;
use git_tui::branch::Branch;
use git_tui::branch::local_tracking_name;
use git_tui::branch_tab::BranchBlock;
use git_tui::getstatus::GitFile;
use git_tui::git::Git;
use git_tui::keys::Key;
use git_tui::keys::KeyInput;
use git_tui::pages::Pages;
use git_tui::push::PushMode;
use git_tui::push::RemoteInfo;
use git_tui::push::RepoFacts;

fn test_branch() -> Branch {
    Branch::new(
        "main".to_string(),
        vec!["main".to_string(), "dev".to_string()],
        vec!["origin/main".to_string()],
    )
}

fn ready_facts() -> RepoFacts {
    RepoFacts { is_bare: false, head_exists: true, head_has_target: true, branch_ref_exists: true }
}

fn remotes_with_origin() -> Vec<RemoteInfo> {
    vec![RemoteInfo { name: "origin".to_string(), has_url: true }]
}

fn plain_key(code: Key) -> KeyInput {
    KeyInput { code, ctrl: false }
}

fn no_files() -> Vec<GitFile> {
    Vec::new()
}

#[test]
fn page_index_and_selection() {
    let mut p = Pages::StatusPAGE;
    assert_eq!(p.to_index(), 0);
    assert_eq!(p.change_page(1).to_index(), 1);
    assert_eq!(p.change_page(2).to_index(), 2);
    assert_eq!(p.change_page(9).to_index(), 0);
}

#[test]
fn commit_enter_requests_commit_of_typed_message() {
    let mut g = Git::new(test_branch());
    g.commit_popup.active = true;
    g.commit_key_event(Key::Char('w'));
    g.commit_key_event(Key::Char('i'));
    g.commit_key_event(Key::Char('p'));
    match g.commit_key_event(Key::Enter) {
        Action::Commit(m) => assert_eq!(m, "wip"),
        _ => panic!("expected a commit request"),
    }
    assert_eq!(g.commit_popup.input, "");
    assert!(!g.commit_popup.active);
}

#[test]
fn empty_commit_submit_then_cancel_changes_nothing() {
    let mut g = Git::new(test_branch());
    g.commit_popup.active = true;
    let branch_before = g.branch.current.clone();
    let push_before = g.push_process;
    match g.commit_key_event(Key::Enter) {
        Action::Nothing => {},
        _ => panic!("an empty submit must request nothing"),
    }
    g.commit_popup.active = true;
    match g.commit_key_event(Key::Esc) {
        Action::Nothing => {},
        _ => panic!("a cancel must request nothing"),
    }
    assert_eq!(g.branch.current, branch_before);
    assert_eq!(g.push_process, push_before);
    assert_eq!(g.commit_popup.input, "");
    assert_eq!(g.commit_popup.character_index, 0);
}

#[test]
fn push_dialog_escape_restores_the_question() {
    let mut g = Git::new(test_branch());
    g.push_mode = PushMode::Push;
    g.push_key_event(Key::Esc);
    assert_eq!(g.push_mode, PushMode::Normal);
    assert_eq!(g.push_message, "Are you sure you want to push your work ?");
}

#[test]
fn confirmed_push_spawns_exactly_one_worker() {
    let mut g = Git::new(test_branch());
    let first = g.set_push(&ready_facts(), &remotes_with_origin());
    let req = first.expect("the first confirmation must hand out a request");
    assert_eq!(req.branch, "main");
    assert_eq!(req.remote_index, 0);
    assert_eq!(req.refspec, "refs/heads/main:refs/heads/main");
    assert!(g.push_process);
    assert_eq!(g.push_message, "🔄 Initializing push...");
    let second = g.set_push(&ready_facts(), &remotes_with_origin());
    assert!(second.is_none(), "a second confirmation while in progress must be a no-op");
    assert!(g.push_process);
}

#[test]
fn bare_repository_push_fails_synchronously() {
    let mut g = Git::new(test_branch());
    let facts = RepoFacts { is_bare: true, ..ready_facts() };
    let r = g.set_push(&facts, &remotes_with_origin());
    assert!(r.is_none());
    assert!(!g.push_process, "the push must never reach the in-progress state");
    assert_eq!(g.push_message, "❌ Push failed: Cannot push from bare repository");
}

#[test]
fn remoteless_push_fails_synchronously() {
    let mut g = Git::new(test_branch());
    let none: Vec<RemoteInfo> = Vec::new();
    let r = g.set_push(&ready_facts(), &none);
    assert!(r.is_none());
    assert!(!g.push_process);
    assert_eq!(
        g.push_message,
        "❌ Push failed: No remotes configured. Add a remote with: git remote add origin <url>"
    );
}

#[test]
fn progress_polls_update_the_dialog_and_terminal_clears_it() {
    let mut g = Git::new(test_branch());
    g.set_push(&ready_facts(), &remotes_with_origin());
    g.update_push_status(None);
    assert!(g.push_process);
    g.update_push_status(Some("Push progress: 50% (1/2)".to_string()));
    assert!(g.push_process);
    assert_eq!(g.push_message, "Push progress: 50% (1/2)");
    g.update_push_status(Some("✅ Successfully pushed branch 'main'".to_string()));
    assert!(!g.push_process, "a terminal message ends the push");
    assert_eq!(g.push_message, "✅ Successfully pushed branch 'main'");
}

#[test]
fn push_dialog_swallows_keys_before_anything_else() {
    let mut a = App::new(Git::new(test_branch()));
    a.git.push_mode = PushMode::Push;
    match a.handle_key_event(plain_key(Key::Char('q')), &no_files(), &no_files()) {
        Action::Nothing => {},
        _ => panic!("the dialog must swallow the key"),
    }
    assert!(!a.exit, "a swallowed q must not quit");
    match a.handle_key_event(plain_key(Key::Enter), &no_files(), &no_files()) {
        Action::ConfirmPush => {},
        _ => panic!("enter in the dialog confirms the push"),
    }
}

#[test]
fn open_commit_popup_swallows_keys() {
    let mut a = App::new(Git::new(test_branch()));
    a.git.commit_popup.active = true;
    a.handle_key_event(plain_key(Key::Char('1')), &no_files(), &no_files());
    assert_eq!(a.page, Pages::StatusPAGE);
    assert_eq!(a.git.commit_popup.input, "1");
    assert!(!a.exit);
}

#[test]
fn quit_key_raises_the_exit_flag() {
    let mut a = App::new(Git::new(test_branch()));
    a.handle_key_event(plain_key(Key::Char('q')), &no_files(), &no_files());
    assert!(a.exit);
    let mut b = App::new(Git::new(test_branch()));
    b.handle_key_event(plain_key(Key::Esc), &no_files(), &no_files());
    assert!(b.exit);
}

#[test]
fn numeric_keys_select_pages() {
    let mut a = App::new(Git::new(test_branch()));
    a.handle_key_event(plain_key(Key::Char('2')), &no_files(), &no_files());
    assert_eq!(a.page, Pages::BranchPAGE);
    assert_eq!(a.branch_page.nb_local_branch, 2);
    assert_eq!(a.branch_page.nb_remote_branch, 1);
    a.handle_key_event(plain_key(Key::Char('3')), &no_files(), &no_files());
    assert_eq!(a.page, Pages::ConfigPage);
    a.handle_key_event(plain_key(Key::Char('1')), &no_files(), &no_files());
    assert_eq!(a.page, Pages::StatusPAGE);
}

#[test]
fn commit_popup_opens_from_the_status_tab() {
    let mut a = App::new(Git::new(test_branch()));
    match a.handle_key_event(plain_key(Key::Char('c')), &no_files(), &no_files()) {
        Action::Nothing => {},
        _ => panic!("opening the popup is internal"),
    }
    assert!(a.git.commit_popup.active);
}

#[test]
fn push_dialog_opens_from_the_status_tab() {
    let mut a = App::new(Git::new(test_branch()));
    a.handle_key_event(plain_key(Key::Char('p')), &no_files(), &no_files());
    assert_eq!(a.git.push_mode, PushMode::Push);
}

#[test]
fn branch_tab_checkout_names_the_selected_branch() {
    let mut a = App::new(Git::new(test_branch()));
    a.handle_key_event(plain_key(Key::Char('2')), &no_files(), &no_files());
    a.handle_key_event(plain_key(Key::Down), &no_files(), &no_files());
    match a.handle_key_event(plain_key(Key::Char('c')), &no_files(), &no_files()) {
        Action::Checkout { remote, name, local_name } => {
            assert!(!remote);
            assert_eq!(name, "dev");
            assert_eq!(local_name, "dev");
        },
        _ => panic!("expected a checkout request"),
    }
}

#[test]
fn remote_checkout_derives_the_tracking_name() {
    let mut a = App::new(Git::new(test_branch()));
    a.handle_key_event(plain_key(Key::Char('2')), &no_files(), &no_files());
    a.handle_key_event(KeyInput { code: Key::Right, ctrl: true }, &no_files(), &no_files());
    assert_eq!(a.branch_page.focused_block, BranchBlock::Remote);
    match a.handle_key_event(plain_key(Key::Char('c')), &no_files(), &no_files()) {
        Action::Checkout { remote, name, local_name } => {
            assert!(remote);
            assert_eq!(name, "origin/main");
            assert_eq!(local_name, "main");
        },
        _ => panic!("expected a checkout request"),
    }
}

#[test]
fn current_branch_cannot_be_deleted() {
    let mut a = App::new(Git::new(test_branch()));
    a.handle_key_event(plain_key(Key::Char('2')), &no_files(), &no_files());
    match a.handle_key_event(plain_key(Key::Char('d')), &no_files(), &no_files()) {
        Action::Nothing => {},
        _ => panic!("the current branch must not be deletable"),
    }
    a.handle_key_event(plain_key(Key::Down), &no_files(), &no_files());
    match a.handle_key_event(plain_key(Key::Char('d')), &no_files(), &no_files()) {
        Action::DeleteBranch(n) => assert_eq!(n, "dev"),
        _ => panic!("expected a delete request"),
    }
}

#[test]
fn new_branch_popup_submits_its_name() {
    let mut a = App::new(Git::new(test_branch()));
    a.handle_key_event(plain_key(Key::Char('2')), &no_files(), &no_files());
    a.handle_key_event(plain_key(Key::Char('n')), &no_files(), &no_files());
    assert!(a.branch_page.newbranch_popup.active);
    a.handle_key_event(plain_key(Key::Char('w')), &no_files(), &no_files());
    assert_eq!(a.branch_page.newbranch_popup.input, "w");
    match a.handle_key_event(plain_key(Key::Enter), &no_files(), &no_files()) {
        Action::CreateBranch(n) => assert_eq!(n, "w"),
        _ => panic!("expected a branch-creation request"),
    }
    assert!(!a.branch_page.newbranch_popup.active);
}

#[test]
fn empty_new_branch_submit_requests_nothing() {
    let mut a = App::new(Git::new(test_branch()));
    a.handle_key_event(plain_key(Key::Char('2')), &no_files(), &no_files());
    a.handle_key_event(plain_key(Key::Char('n')), &no_files(), &no_files());
    match a.handle_key_event(plain_key(Key::Enter), &no_files(), &no_files()) {
        Action::Nothing => {},
        _ => panic!("an empty name must create nothing"),
    }
}

#[test]
fn tracking_name_strips_only_the_origin_prefix() {
    assert_eq!(local_tracking_name("origin/main"), "main");
    assert_eq!(local_tracking_name("upstream/dev"), "upstream/dev");
    assert_eq!(local_tracking_name("main"), "main");
}

#[test]
fn delete_branch_guard_names_the_refusal() {
    let b = test_branch();
    assert!(b.delete_branch("dev").is_ok());
    assert_eq!(b.delete_branch("main").unwrap_err(), "Cannot delete the current branch");
}
