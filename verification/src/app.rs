//! The session controller: page state, modal precedence and global keys.
//!
//! A key press is routed to exactly one consumer, in a fixed precedence
//! order: the push dialog, then an open popup, then the active tab followed
//! by the global bindings (quit and page selection). Modal consumers swallow
//! the key entirely.

use vstd::prelude::*;

use crate::action::Action;
use crate::branch::Branch;
use crate::branch_tab::BranchTab;
use crate::branch_tab::spec_branch_key_post;
use crate::branch_tab::spec_newbranch_key_post;
use crate::getstatus::GitFile;
use crate::git::Git;
use crate::git::spec_commit_key_post;
use crate::git::spec_push_key_post;
use crate::keys::Key;
use crate::keys::KeyInput;
use crate::pages::Pages;
use crate::popup::Popup;
use crate::push::PushMode;
use crate::status_tab::StatusTab;
use crate::status_tab::spec_status_key_post;

verus! {

/// The root of the session: the exit flag, the active page, both tab
/// controllers and the workspace state.
pub struct App {
    pub exit: bool,
    pub page: Pages,
    pub status_page: StatusTab,
    pub branch_page: BranchTab,
    pub git: Git,
}

/// How the active tab consumes one key: the tab's own contract runs on its
/// state, and a request to open the commit popup or the push dialog is
/// consumed here by flipping the matching workspace flag. Every other
/// request passes through unchanged.
pub open spec fn spec_tab_phase(
    a0: App,
    a1: App,
    key: KeyInput,
    unstaged: Seq<GitFile>,
    staged: Seq<GitFile>,
    tab_r: Action,
    r_out: Action,
) -> bool {
    match a0.page {
        Pages::StatusPAGE => {
            &&& a1.exit == a0.exit
            &&& a1.page == a0.page
            &&& a1.branch_page == a0.branch_page
            &&& spec_status_key_post(a0.status_page, a1.status_page, key, unstaged, staged, tab_r)
            &&& match tab_r {
                Action::OpenCommitPopup => a1.git == (Git {
                    commit_popup: Popup { active: true, ..a0.git.commit_popup },
                    ..a0.git
                }) && (r_out is Nothing),
                Action::OpenPushDialog => a1.git == (Git { push_mode: PushMode::Push, ..a0.git })
                    && (r_out is Nothing),
                _ => a1.git == a0.git && r_out == tab_r,
            }
        },
        Pages::BranchPAGE => {
            &&& a1.exit == a0.exit
            &&& a1.page == a0.page
            &&& a1.status_page == a0.status_page
            &&& a1.git == a0.git
            &&& spec_branch_key_post(a0.branch_page, a1.branch_page, key, &a0.git.branch, tab_r)
            &&& r_out == tab_r
        },
        Pages::ConfigPage => a1 == a0 && (tab_r is Nothing) && (r_out is Nothing),
    }
}

/// The branch tab after recording a fresh snapshot's pane lengths, as
/// `BranchTab::set_counts` leaves it.
pub open spec fn spec_counts_set(t1: BranchTab, t2: BranchTab, b: Branch) -> bool {
    &&& t2.nb_local_branch == vstd::math::min(b.local_branches@.len() as int, u16::MAX as int)
    &&& t2.nb_remote_branch == vstd::math::min(b.remote_branches@.len() as int, u16::MAX as int)
    &&& t2.pos_local_branches == if t2.nb_local_branch == 0 {
        0int
    } else {
        vstd::math::min(t1.pos_local_branches as int, t2.nb_local_branch - 1)
    }
    &&& t2.pos_remote_branches == if t2.nb_remote_branch == 0 {
        0int
    } else {
        vstd::math::min(t1.pos_remote_branches as int, t2.nb_remote_branch - 1)
    }
    &&& t2.newbranch_popup == t1.newbranch_popup
    &&& t2.focused_block == t1.focused_block
}

/// How the global bindings consume one key after the tab phase: `q` and
/// escape raise the exit flag; the numeric keys select a page, and entering
/// the branch page records the snapshot's pane lengths; every other key
/// changes nothing more.
pub open spec fn spec_global_phase(a1: App, a2: App, key: KeyInput) -> bool {
    match key.code {
        Key::Esc => a2 == (App { exit: true, ..a1 }),
        Key::Char(c) => if c == 'q' {
            a2 == (App { exit: true, ..a1 })
        } else if c == '1' {
            a2 == (App { page: Pages::StatusPAGE, ..a1 })
        } else if c == '2' {
            &&& a2.page is BranchPAGE
            &&& a2.exit == a1.exit
            &&& a2.status_page == a1.status_page
            &&& a2.git == a1.git
            &&& spec_counts_set(a1.branch_page, a2.branch_page, a1.git.branch)
        } else if c == '3' {
            a2 == (App { page: Pages::ConfigPage, ..a1 })
        } else {
            a2 == a1
        },
        _ => a2 == a1,
    }
}

/// Everything outside the workspace state stands still.
pub open spec fn spec_same_but_git(a0: App, a1: App) -> bool {
    &&& a1.exit == a0.exit
    &&& a1.page == a0.page
    &&& a1.status_page == a0.status_page
    &&& a1.branch_page == a0.branch_page
}

/// Everything outside the branch tab stands still.
pub open spec fn spec_same_but_branch_tab(a0: App, a1: App) -> bool {
    &&& a1.exit == a0.exit
    &&& a1.page == a0.page
    &&& a1.status_page == a0.status_page
    &&& a1.git == a0.git
}

/// The push dialog has first claim on input.
pub open spec fn spec_push_dialog_shown(a: App) -> bool {
    a.git.push_mode is Push
}

/// The commit popup has input, behind the push dialog.
pub open spec fn spec_commit_popup_shown(a: App) -> bool {
    !(a.git.push_mode is Push) && a.git.commit_popup.active
}

/// The new-branch popup has input, behind the two above.
pub open spec fn spec_newbranch_popup_shown(a: App) -> bool {
    !(a.git.push_mode is Push) && !a.git.commit_popup.active
        && a.branch_page.newbranch_popup.active
}

/// No modal consumer is shown: the active tab and the global bindings see
/// the key.
pub open spec fn spec_no_modal_shown(a: App) -> bool {
    !(a.git.push_mode is Push) && !a.git.commit_popup.active
        && !a.branch_page.newbranch_popup.active
}

impl App {
    /// Both tabs' offsets lie inside their panes and both popups' cursors
    /// inside their contents.
    pub open spec fn wf(&self) -> bool {
        &&& self.status_page.wf()
        &&& self.branch_page.wf()
        &&& self.git.wf()
    }

    /// A fresh session on the status page, around one workspace state.
    pub fn new(git: Git) -> (r: App)
        requires
            git.wf(),
        ensures
            !r.exit,
            r.page is StatusPAGE,
            r.git == git,
            r.status_page.focused_block is Unstaged,
            r.status_page.line_in_file == 0,
            r.status_page.line_in_folder_unstaged == 0,
            r.status_page.line_in_folder_staged == 0,
            r.branch_page.focused_block is Local,
            r.branch_page.pos_local_branches == 0,
            r.branch_page.pos_remote_branches == 0,
            !r.branch_page.newbranch_popup.active,
            r.wf(),
    {
        App {
            exit: false,
            page: Pages::StatusPAGE,
            status_page: StatusTab::new(),
            branch_page: BranchTab::new(),
            git,
        }
    }

    /// Raises the exit flag; the render loop stops at its next turn.
    pub fn exit(&mut self)
        ensures
            *final(self) == (App { exit: true, ..*old(self) }),
    {
        self.exit = true;
    }

    /// Routes one key press by modal precedence: the push dialog swallows
    /// everything while shown; otherwise an open commit or new-branch popup
    /// does; otherwise the active tab handles the key and the global
    /// bindings (quit, page selection) run after it. The returned action is
    /// what the binary must perform against the repository.
    pub fn handle_key_event(&mut self, key: KeyInput, unstaged: &Vec<GitFile>, staged: &Vec<
        GitFile,
    >) -> (r: Action)
        requires
            old(self).wf(),
        ensures
            final(self).wf(),
            spec_push_dialog_shown(*old(self)) ==> spec_push_key_post(
                old(self).git,
                final(self).git,
                key.code,
                r,
            ) && spec_same_but_git(*old(self), *final(self)),
            spec_commit_popup_shown(*old(self)) ==> spec_commit_key_post(
                old(self).git,
                final(self).git,
                key.code,
                r,
            ) && spec_same_but_git(*old(self), *final(self)),
            spec_newbranch_popup_shown(*old(self)) ==> spec_newbranch_key_post(
                old(self).branch_page,
                final(self).branch_page,
                key.code,
                r,
            ) && spec_same_but_branch_tab(*old(self), *final(self)),
            spec_no_modal_shown(*old(self)) ==> (exists|mid: App, tab_r: Action|
                spec_tab_phase(*old(self), mid, key, unstaged@, staged@, tab_r, r)
                    && spec_global_phase(mid, *final(self), key)),
    {
        if matches!(self.git.push_mode, PushMode::Push) {
            return self.git.push_key_event(key.code);
        }
        if self.git.commit_popup.active {
            return self.git.commit_key_event(key.code);
        }
        if self.branch_page.newbranch_popup.active {
            return self.branch_page.newbranch_key_event(key.code);
        }
        let tab_r = match self.page {
            Pages::StatusPAGE => self.status_page.handle_key_event(key, unstaged, staged),
            Pages::BranchPAGE => self.branch_page.handle_key_event(key, &self.git.branch),
            Pages::ConfigPage => Action::Nothing,
        };
        let ghost tr = tab_r;
        let r_out = match tab_r {
            Action::OpenCommitPopup => {
                self.git.commit_popup.active = true;
                Action::Nothing
            },
            Action::OpenPushDialog => {
                self.git.push_mode = PushMode::Push;
                Action::Nothing
            },
            other => other,
        };
        let ghost mid = *self;
        let ghost rr = r_out;
        match key.code {
            Key::Esc => self.exit(),
            Key::Char(c) => {
                if c == 'q' {
                    self.exit();
                } else if c == '1' {
                    let p = self.page.change_page(0);
                    self.page = p;
                } else if c == '2' {
                    let p = self.page.change_page(1);
                    self.page = p;
                    let nb_local = self.git.branch.local_branches.len();
                    let nb_remote = self.git.branch.remote_branches.len();
                    self.branch_page.set_counts(nb_local, nb_remote);
                } else if c == '3' {
                    let p = self.page.change_page(2);
                    self.page = p;
                }
            },
            _ => {},
        }
        proof {
            assert(spec_tab_phase(*old(self), mid, key, unstaged@, staged@, tr, rr)
                && spec_global_phase(mid, *self, key));
        }
        r_out
    }
}

} // verus!
