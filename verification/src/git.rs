//! The session's workspace state: branch snapshot, commit popup and the push
//! state machine.
//!
//! A push goes `Normal → dialog shown → in progress → terminal message`. At
//! most one worker is ever alive: confirming while a push runs is a no-op,
//! and the in-progress flag falls only when the worker's single terminal
//! message arrives.

use vstd::prelude::*;
use vstd::string::StringExecFns;

use crate::action::Action;
use crate::branch::Branch;
use crate::keys::Key;
use crate::popup::Popup;
use crate::popup::spec_popup_submit_flow;
use crate::push::PushError;
use crate::push::PushMode;
use crate::push::RemoteInfo;
use crate::push::RepoFacts;
use crate::push::check_push_prerequisites;
use crate::push::confirm_push_message;
use crate::push::failure_message;
use crate::push::get_available_remote;
use crate::push::initializing_push_message;
use crate::push::is_terminal_message;
use crate::push::refspec_for;
use crate::push::spec_failure_message;
use crate::push::spec_is_terminal_message;
use crate::push::spec_push_error_message;
use crate::push::spec_refspec;
use crate::push::spec_select_remote;

verus! {

/// Workspace state owned by the session: the branch snapshot, the commit
/// popup, and the push dialog's mode, message and in-progress flag.
pub struct Git {
    pub branch: Branch,
    pub commit_popup: Popup,
    pub push_mode: PushMode,
    pub push_message: String,
    pub push_process: bool,
}

/// Everything a worker needs to push: the branch, which remote to use, and
/// the refspec mapping the branch onto its remote counterpart.
pub struct PushRequest {
    pub branch: String,
    pub remote_index: usize,
    pub refspec: String,
}

/// The first prerequisite that fails for these facts.
pub open spec fn spec_prereq_error(facts: RepoFacts, branch: String) -> PushError {
    if facts.is_bare {
        PushError::BareRepository
    } else if !facts.head_exists {
        PushError::NoHead
    } else if !facts.head_has_target {
        PushError::NoCommits
    } else {
        PushError::BranchMissing(branch)
    }
}

/// How one key drives the push dialog: escape closes it and restores the
/// confirmation question, enter asks the session to confirm the push, and
/// every other key is swallowed.
pub open spec fn spec_push_key_post(g0: Git, g1: Git, k: Key, r: Action) -> bool {
    match k {
        Key::Esc => {
            &&& g1.push_mode is Normal
            &&& g1.push_message@ == "Are you sure you want to push your work ?"@
            &&& g1.push_process == g0.push_process
            &&& g1.branch == g0.branch
            &&& g1.commit_popup == g0.commit_popup
            &&& r is Nothing
        },
        Key::Enter => g1 == g0 && (r is ConfirmPush),
        _ => g1 == g0 && (r is Nothing),
    }
}

/// How one key drives the commit popup: the popup flow runs on the commit
/// buffer (enter asks for a commit of the entered message) and the rest of
/// the workspace stands still.
pub open spec fn spec_commit_key_post(g0: Git, g1: Git, k: Key, r: Action) -> bool {
    &&& spec_popup_submit_flow(g0.commit_popup, g1.commit_popup, k, r, true)
    &&& g1.branch == g0.branch
    &&& g1.push_mode == g0.push_mode
    &&& g1.push_message == g0.push_message
    &&& g1.push_process == g0.push_process
}

/// What one confirmed push attempt does to the session. While a push is
/// already in progress the confirmation is a no-op and no request leaves.
/// Otherwise the prerequisite check and the remote selection run
/// synchronously: a failure leaves an error message and never a request; on
/// success exactly one request leaves and the in-progress flag rises.
pub open spec fn spec_set_push_post(
    g0: Git,
    g1: Git,
    facts: RepoFacts,
    remotes: Seq<RemoteInfo>,
    r: Option<PushRequest>,
) -> bool {
    if g0.push_process {
        g1 == g0 && r is None
    } else {
        &&& g1.branch == g0.branch
        &&& g1.commit_popup == g0.commit_popup
        &&& g1.push_mode == g0.push_mode
        &&& if !facts.spec_push_ready() {
            &&& r is None
            &&& !g1.push_process
            &&& g1.push_message@ == spec_failure_message(
                spec_push_error_message(spec_prereq_error(facts, g0.branch.current)),
            )
        } else {
            match spec_select_remote(remotes) {
                Result::Err(e) => {
                    &&& r is None
                    &&& !g1.push_process
                    &&& g1.push_message@ == spec_failure_message(spec_push_error_message(e))
                },
                Result::Ok(idx) => {
                    &&& r matches Some(req) && req.branch == g0.branch.current
                        && req.remote_index == idx && req.refspec@ == spec_refspec(
                        g0.branch.current@,
                    )
                    &&& g1.push_process
                    &&& g1.push_message@ == "🔄 Initializing push..."@
                },
            }
        }
    }
}

/// How one polled channel message moves the push state: the message is
/// shown, and a terminal message (and only a terminal message) clears the
/// in-progress flag. Without a message, or outside a push, nothing moves.
pub open spec fn spec_update_push_post(g0: Git, g1: Git, polled: Option<String>) -> bool {
    if !g0.push_process || polled is None {
        g1 == g0
    } else {
        &&& g1.push_message == polled->Some_0
        &&& g1.push_process == !spec_is_terminal_message(polled->Some_0@)
        &&& g1.branch == g0.branch
        &&& g1.commit_popup == g0.commit_popup
        &&& g1.push_mode == g0.push_mode
    }
}

impl Git {
    /// The commit popup's cursor is inside its content.
    pub open spec fn wf(&self) -> bool {
        self.commit_popup.wf()
    }

    /// A fresh session around one branch snapshot: no popup, no dialog, no
    /// push running.
    pub fn new(branch: Branch) -> (r: Git)
        ensures
            r.branch == branch,
            r.commit_popup.input@ == Seq::<char>::empty(),
            r.commit_popup.character_index == 0,
            !r.commit_popup.active,
            r.push_mode is Normal,
            r.push_message@ == "Are you sure you want to push your work ?"@,
            !r.push_process,
            r.wf(),
    {
        Git {
            branch,
            commit_popup: Popup::new(),
            push_mode: PushMode::Normal,
            push_message: confirm_push_message(),
            push_process: false,
        }
    }

    /// One key press while the commit popup is open.
    pub fn commit_key_event(&mut self, key: Key) -> (r: Action)
        requires
            old(self).wf(),
        ensures
            final(self).wf(),
            spec_commit_key_post(*old(self), *final(self), key, r),
    {
        match key {
            Key::Esc => {
                self.commit_popup.cancel();
                Action::Nothing
            },
            Key::Enter => {
                let message = self.commit_popup.submit();
                if message.as_str().is_empty() {
                    Action::Nothing
                } else {
                    Action::Commit(message)
                }
            },
            _ => {
                self.commit_popup.handle_edit_key(key);
                Action::Nothing
            },
        }
    }

    /// One key press while the push dialog is shown.
    pub fn push_key_event(&mut self, key: Key) -> (r: Action)
        ensures
            spec_push_key_post(*old(self), *final(self), key, r),
            old(self).wf() ==> final(self).wf(),
    {
        match key {
            Key::Esc => {
                self.push_mode = PushMode::Normal;
                self.push_message = confirm_push_message();
                Action::Nothing
            },
            Key::Enter => Action::ConfirmPush,
            _ => Action::Nothing,
        }
    }

    /// Confirms the push: runs the synchronous prerequisite check and remote
    /// selection against the given facts, and hands back the one request a
    /// worker should execute — or nothing, when a push is already running or
    /// a check failed (the error is shown in the dialog and no worker is
    /// ever spawned).
    pub fn set_push(&mut self, facts: &RepoFacts, remotes: &Vec<RemoteInfo>) -> (r: Option<
        PushRequest,
    >)
        ensures
            spec_set_push_post(*old(self), *final(self), *facts, remotes@, r),
            old(self).wf() ==> final(self).wf(),
    {
        if self.push_process {
            return None;
        }
        match check_push_prerequisites(facts, &self.branch.current) {
            Err(e) => {
                self.push_message = failure_message(e.message().as_str());
                None
            },
            Ok(_) => {
                match get_available_remote(remotes) {
                    Err(e) => {
                        self.push_message = failure_message(e.message().as_str());
                        None
                    },
                    Ok(idx) => {
                        self.push_process = true;
                        self.push_message = initializing_push_message();
                        let branch = self.branch.current.clone();
                        let refspec = refspec_for(self.branch.current.as_str());
                        Some(PushRequest { branch, remote_index: idx, refspec })
                    },
                }
            },
        }
    }

    /// Applies one non-blocking poll of the worker's channel.
    pub fn update_push_status(&mut self, polled: Option<String>)
        ensures
            spec_update_push_post(*old(self), *final(self), polled),
            old(self).wf() ==> final(self).wf(),
    {
        if !self.push_process {
            return ;
        }
        match polled {
            Some(message) => {
                let terminal = is_terminal_message(message.as_str());
                self.push_message = message;
                if terminal {
                    self.push_process = false;
                }
            },
            None => {},
        }
    }
}

/// The author and committer identity for a commit, from the repository's
/// configuration values: both must be configured, and the missing one is
/// named in the error.
pub fn get_git_signature_info(name: Option<String>, email: Option<String>) -> (r: Result<
    (String, String),
    String,
>)
    ensures
        name is Some && email is Some ==> (r matches Ok(p) && p.0 == name->0 && p.1 == email->0),
        name is None ==> (r matches Err(m) && m@ == "Git user.name not configured"@),
        name is Some && email is None ==> (r matches Err(m) && m@
            == "Git user.email not configured"@),
{
    match name {
        None => Err(String::from_str("Git user.name not configured")),
        Some(n) => match email {
            None => Err(String::from_str("Git user.email not configured")),
            Some(e) => Ok((n, e)),
        },
    }
}

/// Push single-flight: a confirmation that spawns a worker raises the
/// in-progress flag, and a second confirmation in immediate succession is a
/// no-op that spawns nothing — however it is answered, at most one request
/// ever leaves.
pub proof fn lemma_push_single_flight(
    g0: Git,
    g1: Git,
    g2: Git,
    facts1: RepoFacts,
    remotes1: Seq<RemoteInfo>,
    facts2: RepoFacts,
    remotes2: Seq<RemoteInfo>,
    r1: Option<PushRequest>,
    r2: Option<PushRequest>,
)
    requires
        spec_set_push_post(g0, g1, facts1, remotes1, r1),
        spec_set_push_post(g1, g2, facts2, remotes2, r2),
        r1 is Some,
    ensures
        g1.push_process,
        r2 is None,
        g2 == g1,
{
}

/// A push confirmed against a bare repository (or any failing prerequisite)
/// is refused synchronously: no request leaves, the in-progress flag never
/// rises, and the dialog shows the failure.
pub proof fn lemma_bare_repository_push_refused(
    g0: Git,
    g1: Git,
    facts: RepoFacts,
    remotes: Seq<RemoteInfo>,
    r: Option<PushRequest>,
)
    requires
        !g0.push_process,
        facts.is_bare,
        spec_set_push_post(g0, g1, facts, remotes, r),
    ensures
        r is None,
        !g1.push_process,
        g1.push_message@ == spec_failure_message(
            spec_push_error_message(PushError::BareRepository),
        ),
{
}

} // verus!
