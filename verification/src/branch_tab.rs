//! The branch tab: local and remote branch panes, checkout, delete and the
//! new-branch popup.

use vstd::prelude::*;

use crate::action::Action;
use crate::branch::Branch;
use crate::branch::local_tracking_name;
use crate::branch::spec_local_tracking_name;
use crate::keys::Key;
use crate::keys::KeyInput;
use crate::popup::Popup;
use crate::popup::spec_popup_submit_flow;
use crate::status_tab::spec_selected_index;

verus! {

/// The pane of the branch tab that holds keyboard focus.
#[derive(PartialEq, Eq, Structural, Clone, Copy, Debug)]
pub enum BranchBlock {
    Local,
    Remote,
}

/// Scroll offsets, pane row counts, focus and the new-branch popup of the
/// branch tab.
pub struct BranchTab {
    pub pos_local_branches: u16,
    pub pos_remote_branches: u16,
    pub nb_remote_branch: u16,
    pub nb_local_branch: u16,
    pub newbranch_popup: Popup,
    pub focused_block: BranchBlock,
}

/// Focus change for one directional chord: left focuses the local pane,
/// right the remote pane, anything else keeps the focus.
pub open spec fn spec_branch_focus_step(b: BranchBlock, k: Key) -> BranchBlock {
    if k is Left {
        BranchBlock::Local
    } else if k is Right {
        BranchBlock::Remote
    } else {
        b
    }
}

/// The tab after one scroll-down of the focused pane, stopping at its last
/// row.
pub open spec fn spec_branch_scroll_down(t: BranchTab) -> BranchTab {
    match t.focused_block {
        BranchBlock::Local => BranchTab {
            pos_local_branches: if t.pos_local_branches + 1 < t.nb_local_branch {
                (t.pos_local_branches + 1) as u16
            } else {
                t.pos_local_branches
            },
            ..t
        },
        BranchBlock::Remote => BranchTab {
            pos_remote_branches: if t.pos_remote_branches + 1 < t.nb_remote_branch {
                (t.pos_remote_branches + 1) as u16
            } else {
                t.pos_remote_branches
            },
            ..t
        },
    }
}

/// The tab after one scroll-up of the focused pane, stopping at the top.
pub open spec fn spec_branch_scroll_up(t: BranchTab) -> BranchTab {
    match t.focused_block {
        BranchBlock::Local => BranchTab {
            pos_local_branches: if t.pos_local_branches > 0 {
                (t.pos_local_branches - 1) as u16
            } else {
                0
            },
            ..t
        },
        BranchBlock::Remote => BranchTab {
            pos_remote_branches: if t.pos_remote_branches > 0 {
                (t.pos_remote_branches - 1) as u16
            } else {
                0
            },
            ..t
        },
    }
}

/// The focus after a sequence of directional chords.
pub open spec fn spec_apply_branch_focus(b: BranchBlock, ks: Seq<Key>) -> BranchBlock
    decreases ks.len(),
{
    if ks.len() == 0 {
        b
    } else {
        spec_apply_branch_focus(spec_branch_focus_step(b, ks[0]), ks.drop_first())
    }
}

impl BranchTab {
    /// Every pane offset lies inside its pane, and the popup's cursor lies
    /// inside its content.
    pub open spec fn wf(&self) -> bool {
        &&& (self.nb_local_branch == 0 ==> self.pos_local_branches == 0)
        &&& (self.nb_local_branch > 0 ==> self.pos_local_branches < self.nb_local_branch)
        &&& (self.nb_remote_branch == 0 ==> self.pos_remote_branches == 0)
        &&& (self.nb_remote_branch > 0 ==> self.pos_remote_branches < self.nb_remote_branch)
        &&& self.newbranch_popup.wf()
    }

    /// A fresh branch tab: both panes at the top, the local pane focused,
    /// the new-branch popup empty and hidden.
    pub fn new() -> (r: BranchTab)
        ensures
            r.pos_local_branches == 0,
            r.pos_remote_branches == 0,
            r.nb_local_branch == 0,
            r.nb_remote_branch == 0,
            r.newbranch_popup.input@ == Seq::<char>::empty(),
            r.newbranch_popup.character_index == 0,
            !r.newbranch_popup.active,
            r.focused_block is Local,
            r.wf(),
    {
        BranchTab {
            pos_local_branches: 0,
            pos_remote_branches: 0,
            nb_local_branch: 0,
            nb_remote_branch: 0,
            newbranch_popup: Popup::new(),
            focused_block: BranchBlock::Local,
        }
    }

    /// Scrolls the focused pane one row down, clamped to its contents.
    pub fn scroll_down(&mut self)
        ensures
            *final(self) == spec_branch_scroll_down(*old(self)),
            old(self).wf() ==> final(self).wf(),
    {
        match self.focused_block {
            BranchBlock::Local => {
                if (self.pos_local_branches as u32) + 1 < (self.nb_local_branch as u32) {
                    self.pos_local_branches = self.pos_local_branches + 1;
                }
            },
            BranchBlock::Remote => {
                if (self.pos_remote_branches as u32) + 1 < (self.nb_remote_branch as u32) {
                    self.pos_remote_branches = self.pos_remote_branches + 1;
                }
            },
        }
    }

    /// Scrolls the focused pane one row up, stopping at the top.
    pub fn scroll_up(&mut self)
        ensures
            *final(self) == spec_branch_scroll_up(*old(self)),
            old(self).wf() ==> final(self).wf(),
    {
        match self.focused_block {
            BranchBlock::Local => {
                if self.pos_local_branches > 0 {
                    self.pos_local_branches = self.pos_local_branches - 1;
                }
            },
            BranchBlock::Remote => {
                if self.pos_remote_branches > 0 {
                    self.pos_remote_branches = self.pos_remote_branches - 1;
                }
            },
        }
    }

    /// Moves focus for one directional chord; other keys change nothing.
    pub fn change_block(&mut self, code: Key)
        ensures
            *final(self) == (BranchTab {
                focused_block: spec_branch_focus_step(old(self).focused_block, code),
                ..*old(self)
            }),
    {
        if !code.is_direction() {
            return ;
        }
        match code {
            Key::Left => {
                self.focused_block = BranchBlock::Local;
            },
            Key::Right => {
                self.focused_block = BranchBlock::Remote;
            },
            _ => {},
        }
    }

    /// Rewinds both panes to the top and records the lengths of a freshly
    /// rebuilt branch snapshot.
    pub fn reset_branch(&mut self, branch: &Branch)
        ensures
            final(self).pos_local_branches == 0,
            final(self).pos_remote_branches == 0,
            final(self).nb_local_branch == vstd::math::min(
                branch.local_branches@.len() as int,
                u16::MAX as int,
            ),
            final(self).nb_remote_branch == vstd::math::min(
                branch.remote_branches@.len() as int,
                u16::MAX as int,
            ),
            final(self).newbranch_popup == old(self).newbranch_popup,
            final(self).focused_block == old(self).focused_block,
            old(self).wf() ==> final(self).wf(),
    {
        self.pos_local_branches = 0;
        self.pos_remote_branches = 0;
        self.nb_local_branch = if branch.local_branches.len() > u16::MAX as usize {
            u16::MAX
        } else {
            branch.local_branches.len() as u16
        };
        self.nb_remote_branch = if branch.remote_branches.len() > u16::MAX as usize {
            u16::MAX
        } else {
            branch.remote_branches.len() as u16
        };
    }

    /// Records freshly built pane lengths without moving the selection more
    /// than the shrunken lists force.
    pub fn set_counts(&mut self, nb_local: usize, nb_remote: usize)
        ensures
            final(self).nb_local_branch == vstd::math::min(nb_local as int, u16::MAX as int),
            final(self).nb_remote_branch == vstd::math::min(nb_remote as int, u16::MAX as int),
            final(self).pos_local_branches == if final(self).nb_local_branch == 0 {
                0int
            } else {
                vstd::math::min(
                    old(self).pos_local_branches as int,
                    final(self).nb_local_branch - 1,
                )
            },
            final(self).pos_remote_branches == if final(self).nb_remote_branch == 0 {
                0int
            } else {
                vstd::math::min(
                    old(self).pos_remote_branches as int,
                    final(self).nb_remote_branch - 1,
                )
            },
            final(self).newbranch_popup == old(self).newbranch_popup,
            final(self).focused_block == old(self).focused_block,
            old(self).newbranch_popup.wf() ==> final(self).wf(),
    {
        self.nb_local_branch = if nb_local > u16::MAX as usize {
            u16::MAX
        } else {
            nb_local as u16
        };
        self.nb_remote_branch = if nb_remote > u16::MAX as usize {
            u16::MAX
        } else {
            nb_remote as u16
        };
        if self.nb_local_branch == 0 {
            self.pos_local_branches = 0;
        } else if self.pos_local_branches >= self.nb_local_branch {
            self.pos_local_branches = self.nb_local_branch - 1;
        }
        if self.nb_remote_branch == 0 {
            self.pos_remote_branches = 0;
        } else if self.pos_remote_branches >= self.nb_remote_branch {
            self.pos_remote_branches = self.nb_remote_branch - 1;
        }
    }

    /// One key press on the branch tab. A control chord moves focus; plain
    /// arrows scroll; `c` asks to check out the selected branch, `d` to
    /// delete the selected local branch (never the current one), and `n`
    /// opens the new-branch popup.
    pub fn handle_key_event(&mut self, key: KeyInput, branch: &Branch) -> (r: Action)
        requires
            old(self).wf(),
        ensures
            final(self).wf(),
            spec_branch_key_post(*old(self), *final(self), key, branch, r),
    {
        if key.ctrl {
            self.change_block(key.code);
            return Action::Nothing;
        }
        match key.code {
            Key::Up => {
                self.scroll_up();
                Action::Nothing
            },
            Key::Down => {
                self.scroll_down();
                Action::Nothing
            },
            Key::Char(c) => {
                if c == 'c' {
                    match self.focused_block {
                        BranchBlock::Local => {
                            if branch.local_branches.len() > 0 {
                                let idx = if (self.pos_local_branches as usize)
                                    < branch.local_branches.len() {
                                    self.pos_local_branches as usize
                                } else {
                                    branch.local_branches.len() - 1
                                };
                                let name = branch.local_branches[idx].clone();
                                Action::Checkout {
                                    remote: false,
                                    name: name.clone(),
                                    local_name: name,
                                }
                            } else {
                                Action::Nothing
                            }
                        },
                        BranchBlock::Remote => {
                            if branch.remote_branches.len() > 0 {
                                let idx = if (self.pos_remote_branches as usize)
                                    < branch.remote_branches.len() {
                                    self.pos_remote_branches as usize
                                } else {
                                    branch.remote_branches.len() - 1
                                };
                                let name = branch.remote_branches[idx].clone();
                                let local_name = local_tracking_name(name.as_str());
                                Action::Checkout { remote: true, name, local_name }
                            } else {
                                Action::Nothing
                            }
                        },
                    }
                } else if c == 'd' {
                    if matches!(self.focused_block, BranchBlock::Remote) {
                        return Action::Nothing;
                    }
                    if branch.local_branches.len() > 0 {
                        let idx = if (self.pos_local_branches as usize)
                            < branch.local_branches.len() {
                            self.pos_local_branches as usize
                        } else {
                            branch.local_branches.len() - 1
                        };
                        let name = branch.local_branches[idx].clone();
                        match branch.delete_branch(name.as_str()) {
                            Ok(_) => Action::DeleteBranch(name),
                            Err(_) => Action::Nothing,
                        }
                    } else {
                        Action::Nothing
                    }
                } else if c == 'n' {
                    self.newbranch_popup.active = true;
                    Action::Nothing
                } else {
                    Action::Nothing
                }
            },
            _ => Action::Nothing,
        }
    }

    /// One key press while the new-branch popup is open: escape cancels,
    /// enter submits the entered name (an empty name asks for nothing), and
    /// the rest edit the buffer.
    pub fn newbranch_key_event(&mut self, key: Key) -> (r: Action)
        requires
            old(self).wf(),
        ensures
            final(self).wf(),
            spec_newbranch_key_post(*old(self), *final(self), key, r),
    {
        match key {
            Key::Esc => {
                self.newbranch_popup.cancel();
                Action::Nothing
            },
            Key::Enter => {
                let name = self.newbranch_popup.submit();
                if name.as_str().is_empty() {
                    Action::Nothing
                } else {
                    Action::CreateBranch(name)
                }
            },
            _ => {
                self.newbranch_popup.handle_edit_key(key);
                Action::Nothing
            },
        }
    }
}

impl Default for BranchTab {
    /// The same fresh tab `new` builds.
    fn default() -> (r: BranchTab)
        ensures
            r.pos_local_branches == 0,
            r.pos_remote_branches == 0,
            r.nb_local_branch == 0,
            r.nb_remote_branch == 0,
            !r.newbranch_popup.active,
            r.focused_block is Local,
            r.wf(),
    {
        BranchTab::new()
    }
}

/// Whether this key is one of the branch tab's own action characters.
pub open spec fn spec_is_branch_char(k: Key) -> bool {
    k == Key::Char('c') || k == Key::Char('d') || k == Key::Char('n')
}

/// One key press on the branch tab: a control chord moves focus, plain
/// arrows scroll, `c` asks for a checkout, `d` for a deletion, `n` opens the
/// new-branch popup, and every other key changes nothing.
pub open spec fn spec_branch_key_post(
    t0: BranchTab,
    t1: BranchTab,
    key: KeyInput,
    branch: &Branch,
    r: Action,
) -> bool {
    &&& key.ctrl ==> t1 == (BranchTab {
        focused_block: spec_branch_focus_step(t0.focused_block, key.code),
        ..t0
    }) && (r is Nothing)
    &&& !key.ctrl && key.code is Up ==> t1 == spec_branch_scroll_up(t0) && (r is Nothing)
    &&& !key.ctrl && key.code is Down ==> t1 == spec_branch_scroll_down(t0) && (r is Nothing)
    &&& !key.ctrl && key.code == Key::Char('c') ==> t1 == t0 && spec_checkout_case(t0, branch, r)
    &&& !key.ctrl && key.code == Key::Char('d') ==> t1 == t0 && spec_delete_case(t0, branch, r)
    &&& !key.ctrl && key.code == Key::Char('n') ==> t1 == (BranchTab {
        newbranch_popup: Popup { active: true, ..t0.newbranch_popup },
        ..t0
    }) && (r is Nothing)
    &&& !key.ctrl && !(key.code is Up) && !(key.code is Down) && !spec_is_branch_char(key.code)
        ==> t1 == t0 && (r is Nothing)
}

/// What a checkout press asks for: nothing on an empty pane; otherwise the
/// branch selected in the focused pane, with the local tracking name derived
/// for a remote branch.
pub open spec fn spec_checkout_case(t: BranchTab, branch: &Branch, r: Action) -> bool {
    match t.focused_block {
        BranchBlock::Local => {
            if branch.local_branches@.len() == 0 {
                r is Nothing
            } else {
                let name = branch.local_branches@[spec_selected_index(
                    t.pos_local_branches,
                    branch.local_branches@.len() as int,
                )];
                r matches Action::Checkout { remote, name: n, local_name } && !remote && n == name
                    && local_name == name
            }
        },
        BranchBlock::Remote => {
            if branch.remote_branches@.len() == 0 {
                r is Nothing
            } else {
                let name = branch.remote_branches@[spec_selected_index(
                    t.pos_remote_branches,
                    branch.remote_branches@.len() as int,
                )];
                r matches Action::Checkout { remote, name: n, local_name } && remote && n == name
                    && local_name@ == spec_local_tracking_name(name@)
            }
        },
    }
}

/// What a delete press asks for: nothing when the remote pane is focused,
/// the local pane is empty, or the selection is the current branch;
/// otherwise the deletion of the selected local branch.
pub open spec fn spec_delete_case(t: BranchTab, branch: &Branch, r: Action) -> bool {
    if t.focused_block is Remote || branch.local_branches@.len() == 0 {
        r is Nothing
    } else {
        let name = branch.local_branches@[spec_selected_index(
            t.pos_local_branches,
            branch.local_branches@.len() as int,
        )];
        if name@ == branch.current@ {
            r is Nothing
        } else {
            r matches Action::DeleteBranch(n) && n == name
        }
    }
}

/// One key press while the new-branch popup is open: the popup flow runs on
/// the new-branch buffer and the rest of the tab stands still.
pub open spec fn spec_newbranch_key_post(t0: BranchTab, t1: BranchTab, k: Key, r: Action) -> bool {
    &&& spec_popup_submit_flow(t0.newbranch_popup, t1.newbranch_popup, k, r, false)
    &&& t1.pos_local_branches == t0.pos_local_branches
    &&& t1.pos_remote_branches == t0.pos_remote_branches
    &&& t1.nb_local_branch == t0.nb_local_branch
    &&& t1.nb_remote_branch == t0.nb_remote_branch
    &&& t1.focused_block == t0.focused_block
}

/// One chord applied through `spec_apply_branch_focus` is one focus step.
pub proof fn lemma_apply_branch_focus_single(b: BranchBlock, k: Key)
    ensures
        spec_apply_branch_focus(b, seq![k]) == spec_branch_focus_step(b, k),
{
    let stepped = spec_branch_focus_step(b, k);
    assert(seq![k][0] == k);
    assert(seq![k].drop_first() =~= Seq::<Key>::empty());
    assert(spec_apply_branch_focus(stepped, Seq::<Key>::empty()) == stepped);
}

/// The focus graph of the branch tab is closed and has no unreachable state:
/// from either pane one chord reaches the other, and every chord sequence
/// lands on one of the two panes.
pub proof fn lemma_branch_focus_graph_connected(a: BranchBlock, b: BranchBlock)
    ensures
        exists|ks: Seq<Key>| spec_apply_branch_focus(a, ks) == b,
{
    match b {
        BranchBlock::Local => {
            lemma_apply_branch_focus_single(a, Key::Left);
            assert(spec_apply_branch_focus(a, seq![Key::Left]) == b);
        },
        BranchBlock::Remote => {
            lemma_apply_branch_focus_single(a, Key::Right);
            assert(spec_apply_branch_focus(a, seq![Key::Right]) == b);
        },
    }
}

/// Any finite sequence of scroll actions keeps both pane offsets inside
/// their panes.
pub proof fn lemma_branch_scroll_sequence_stays_in_bounds(t: BranchTab, ops: Seq<bool>)
    requires
        t.wf(),
    ensures
        spec_apply_branch_scrolls(t, ops).wf(),
    decreases ops.len(),
{
    if ops.len() > 0 {
        let stepped = if ops[0] {
            spec_branch_scroll_down(t)
        } else {
            spec_branch_scroll_up(t)
        };
        lemma_branch_scroll_sequence_stays_in_bounds(stepped, ops.drop_first());
    }
}

/// The tab after a sequence of scroll actions (`true` is down, `false` up).
pub open spec fn spec_apply_branch_scrolls(t: BranchTab, ops: Seq<bool>) -> BranchTab
    decreases ops.len(),
{
    if ops.len() == 0 {
        t
    } else {
        let stepped = if ops[0] {
            spec_branch_scroll_down(t)
        } else {
            spec_branch_scroll_up(t)
        };
        spec_apply_branch_scrolls(stepped, ops.drop_first())
    }
}

} // verus!
