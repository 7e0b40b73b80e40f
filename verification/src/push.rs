//! Push pipeline decisions: prerequisite checks, remote selection, the
//! credential strategy ladder, refspec building and the channel messages.
//!
//! Everything here computes on plain values; the binary queries the
//! repository for the facts, runs the one background worker, and feeds each
//! received channel message back to the session state.

use vstd::prelude::*;
use vstd::string::StrSliceExecFns;
use vstd::string::StringExecFns;

use crate::text::spec_decimal;
use crate::text::str_eq;
use crate::text::usize_to_string;

verus! {

/// Whether the push confirmation dialog is shown and swallowing input.
#[derive(PartialEq, Eq, Structural, Clone, Copy, Debug)]
pub enum PushMode {
    Push,
    Normal,
}

/// Why a push attempt was refused or failed.
#[derive(Debug)]
pub enum PushError {
    /// The workspace is a bare repository.
    BareRepository,
    /// The repository has no resolvable head.
    NoHead,
    /// The head points at no commit: nothing to push.
    NoCommits,
    /// The named branch reference does not exist.
    BranchMissing(String),
    /// No remote is configured at all.
    NoRemotes,
    /// The only candidate remote exposes no URL.
    RemoteWithoutUrl,
    /// The credential callback was invoked past its attempt ceiling.
    TooManyAttempts,
    /// Every credential strategy was tried without success.
    AuthenticationFailed,
}

/// The error text of each refusal, as shown in the push dialog.
pub open spec fn spec_push_error_message(e: PushError) -> Seq<char> {
    match e {
        PushError::BareRepository => "Cannot push from bare repository"@,
        PushError::NoHead => "No HEAD found - repository may be empty"@,
        PushError::NoCommits => "No commits found - nothing to push"@,
        PushError::BranchMissing(b) => "Branch '"@ + b@ + "' does not exist"@,
        PushError::NoRemotes => "No remotes configured. Add a remote with: git remote add origin <url>"@,
        PushError::RemoteWithoutUrl => "Remote has no URL configured"@,
        PushError::TooManyAttempts => "Too many authentication attempts"@,
        PushError::AuthenticationFailed => "Authentication failed"@,
    }
}

impl PushError {
    /// The error text of this refusal.
    pub fn message(&self) -> (r: String)
        ensures
            r@ == spec_push_error_message(*self),
    {
        match self {
            PushError::BareRepository => String::from_str("Cannot push from bare repository"),
            PushError::NoHead => String::from_str("No HEAD found - repository may be empty"),
            PushError::NoCommits => String::from_str("No commits found - nothing to push"),
            PushError::BranchMissing(b) => String::from_str("Branch '").concat(b.as_str()).concat(
                "' does not exist",
            ),
            PushError::NoRemotes => String::from_str(
                "No remotes configured. Add a remote with: git remote add origin <url>",
            ),
            PushError::RemoteWithoutUrl => String::from_str("Remote has no URL configured"),
            PushError::TooManyAttempts => String::from_str("Too many authentication attempts"),
            PushError::AuthenticationFailed => String::from_str("Authentication failed"),
        }
    }
}

/// What the repository reports about itself before a push: queried once,
/// synchronously, when the operator confirms.
pub struct RepoFacts {
    pub is_bare: bool,
    pub head_exists: bool,
    pub head_has_target: bool,
    pub branch_ref_exists: bool,
}

impl RepoFacts {
    /// Every prerequisite of a push holds.
    pub open spec fn spec_push_ready(&self) -> bool {
        !self.is_bare && self.head_exists && self.head_has_target && self.branch_ref_exists
    }
}

/// Fast-fail prerequisite check, run synchronously before any worker exists:
/// the workspace must not be bare, a head must resolve to a commit, and the
/// branch reference must exist. The first failing prerequisite names the
/// error; a worker is never spawned on failure.
pub fn check_push_prerequisites(facts: &RepoFacts, branch: &String) -> (r: Result<(), PushError>)
    ensures
        r is Ok <==> facts.spec_push_ready(),
        facts.is_bare ==> r matches Err(PushError::BareRepository),
        !facts.is_bare && !facts.head_exists ==> r matches Err(PushError::NoHead),
        !facts.is_bare && facts.head_exists && !facts.head_has_target ==> r matches Err(
            PushError::NoCommits,
        ),
        !facts.is_bare && facts.head_exists && facts.head_has_target
            && !facts.branch_ref_exists ==> (r matches Err(PushError::BranchMissing(b)) && b
            == branch),
{
    if facts.is_bare {
        return Err(PushError::BareRepository);
    }
    if !facts.head_exists {
        return Err(PushError::NoHead);
    }
    if !facts.head_has_target {
        return Err(PushError::NoCommits);
    }
    if !facts.branch_ref_exists {
        return Err(PushError::BranchMissing(branch.clone()));
    }
    Ok(())
}

/// One configured remote: its name and whether it exposes a URL.
pub struct RemoteInfo {
    pub name: String,
    pub has_url: bool,
}

/// The first remote with the given name and a URL, from position `i` on.
pub open spec fn spec_first_named_with_url(rs: Seq<RemoteInfo>, name: Seq<char>, i: int) -> Option<
    int,
>
    decreases rs.len() - i,
{
    if i < 0 || i >= rs.len() {
        None
    } else if rs[i].name@ == name && rs[i].has_url {
        Some(i)
    } else {
        spec_first_named_with_url(rs, name, i + 1)
    }
}

/// Which remote a push uses: conventional names in a fixed preference order,
/// then the first configured remote if it has a URL; no usable remote is a
/// terminal error for the attempt.
pub open spec fn spec_select_remote(rs: Seq<RemoteInfo>) -> Result<int, PushError> {
    if rs.len() == 0 {
        Err(PushError::NoRemotes)
    } else if spec_first_named_with_url(rs, "origin"@, 0) is Some {
        Ok(spec_first_named_with_url(rs, "origin"@, 0)->Some_0)
    } else if spec_first_named_with_url(rs, "upstream"@, 0) is Some {
        Ok(spec_first_named_with_url(rs, "upstream"@, 0)->Some_0)
    } else if spec_first_named_with_url(rs, "master"@, 0) is Some {
        Ok(spec_first_named_with_url(rs, "master"@, 0)->Some_0)
    } else if rs[0].has_url {
        Ok(0)
    } else {
        Err(PushError::RemoteWithoutUrl)
    }
}

/// The first remote with the given name and a URL.
fn find_named_with_url(remotes: &Vec<RemoteInfo>, name: &str) -> (r: Option<usize>)
    ensures
        r matches Some(i) ==> spec_first_named_with_url(remotes@, name@, 0) == Some(i as int),
        r is None ==> spec_first_named_with_url(remotes@, name@, 0) is None,
{
    let mut i: usize = 0;
    while i < remotes.len()
        invariant
            i <= remotes@.len(),
            spec_first_named_with_url(remotes@, name@, 0) == spec_first_named_with_url(
                remotes@,
                name@,
                i as int,
            ),
        decreases remotes@.len() - i,
    {
        if remotes[i].has_url && str_eq(remotes[i].name.as_str(), name) {
            return Some(i);
        }
        i += 1;
    }
    None
}

/// Picks the remote a push goes through: `origin`, `upstream` and `master`
/// in that order of preference (each only if it exposes a URL), then the
/// first configured remote; a remote set without any URL is refused.
pub fn get_available_remote(remotes: &Vec<RemoteInfo>) -> (r: Result<usize, PushError>)
    ensures
        r is Ok <==> spec_select_remote(remotes@) is Ok,
        r matches Ok(i) ==> spec_select_remote(remotes@) == Ok::<int, PushError>(i as int),
        r matches Err(e) ==> spec_select_remote(remotes@) matches Err(e2) && e2 == e,
{
    if remotes.len() == 0 {
        return Err(PushError::NoRemotes);
    }
    if let Some(i) = find_named_with_url(remotes, "origin") {
        return Ok(i);
    }
    if let Some(i) = find_named_with_url(remotes, "upstream") {
        return Ok(i);
    }
    if let Some(i) = find_named_with_url(remotes, "master") {
        return Ok(i);
    }
    if remotes[0].has_url {
        Ok(0)
    } else {
        Err(PushError::RemoteWithoutUrl)
    }
}

/// The ceiling on credential callback invocations in one push attempt.
pub const MAX_CREDENTIAL_ATTEMPTS: u8 = 5;

/// The credential strategies already consumed in this push attempt, and how
/// often the transport has asked.
pub struct CredentialAttempts {
    pub attempts: u8,
    pub agent_tried: bool,
    pub keys_tried: bool,
}

/// What one credential callback invocation is allowed to do: try the agent
/// and the on-disk keys (each granted at most once per attempt), or give up
/// because the transport asked too often.
#[derive(PartialEq, Eq, Structural, Clone, Copy, Debug)]
pub enum CredentialPlan {
    Try { agent: bool, disk_keys: bool },
    TooManyAttempts,
}

/// The strategy ladder's step: what one invocation may try, and the state
/// the ladder is left in.
pub open spec fn spec_next_plan(s: CredentialAttempts, ssh_key_allowed: bool) -> (
    CredentialAttempts,
    CredentialPlan,
) {
    let bumped = CredentialAttempts {
        attempts: if s.attempts < u8::MAX {
            (s.attempts + 1) as u8
        } else {
            u8::MAX
        },
        ..s
    };
    if s.attempts >= MAX_CREDENTIAL_ATTEMPTS {
        (bumped, CredentialPlan::TooManyAttempts)
    } else {
        (
            CredentialAttempts {
                agent_tried: s.agent_tried || ssh_key_allowed,
                keys_tried: s.keys_tried || ssh_key_allowed,
                ..bumped
            },
            CredentialPlan::Try {
                agent: ssh_key_allowed && !s.agent_tried,
                disk_keys: ssh_key_allowed && !s.keys_tried,
            },
        )
    }
}

impl CredentialAttempts {
    /// A fresh ladder for one push attempt.
    pub fn new() -> (r: CredentialAttempts)
        ensures
            r.attempts == 0,
            !r.agent_tried,
            !r.keys_tried,
    {
        CredentialAttempts { attempts: 0, agent_tried: false, keys_tried: false }
    }

    /// Serves one credential callback invocation: grants the agent and the
    /// on-disk keys each at most once per attempt, and refuses outright once
    /// the transport has asked `MAX_CREDENTIAL_ATTEMPTS` times.
    pub fn next_plan(&mut self, ssh_key_allowed: bool) -> (r: CredentialPlan)
        ensures
            (*final(self), r) == spec_next_plan(*old(self), ssh_key_allowed),
    {
        let past_limit = self.attempts >= MAX_CREDENTIAL_ATTEMPTS;
        self.attempts = self.attempts.saturating_add(1);
        if past_limit {
            return CredentialPlan::TooManyAttempts;
        }
        let plan = CredentialPlan::Try {
            agent: ssh_key_allowed && !self.agent_tried,
            disk_keys: ssh_key_allowed && !self.keys_tried,
        };
        self.agent_tried = self.agent_tried || ssh_key_allowed;
        self.keys_tried = self.keys_tried || ssh_key_allowed;
        plan
    }
}

/// The plans a ladder hands out over a whole sequence of callback
/// invocations (one flag per invocation: whether ssh keys were allowed).
pub open spec fn spec_run_credentials(s: CredentialAttempts, calls: Seq<bool>) -> Seq<
    CredentialPlan,
>
    decreases calls.len(),
{
    if calls.len() == 0 {
        Seq::empty()
    } else {
        let (s1, p) = spec_next_plan(s, calls[0]);
        seq![p] + spec_run_credentials(s1, calls.drop_first())
    }
}

/// How many of these plans grant an agent lookup.
pub open spec fn spec_count_agent_grants(ps: Seq<CredentialPlan>) -> int
    decreases ps.len(),
{
    if ps.len() == 0 {
        0
    } else {
        (match ps[0] {
            CredentialPlan::Try { agent, .. } => if agent {
                1int
            } else {
                0int
            },
            _ => 0int,
        }) + spec_count_agent_grants(ps.drop_first())
    }
}

/// How many of these plans grant an on-disk key lookup.
pub open spec fn spec_count_key_grants(ps: Seq<CredentialPlan>) -> int
    decreases ps.len(),
{
    if ps.len() == 0 {
        0
    } else {
        (match ps[0] {
            CredentialPlan::Try { disk_keys, .. } => if disk_keys {
                1int
            } else {
                0int
            },
            _ => 0int,
        }) + spec_count_key_grants(ps.drop_first())
    }
}

/// How many of these plans allow any strategy at all.
pub open spec fn spec_count_tries(ps: Seq<CredentialPlan>) -> int
    decreases ps.len(),
{
    if ps.len() == 0 {
        0
    } else {
        (match ps[0] {
            CredentialPlan::Try { .. } => 1int,
            _ => 0int,
        }) + spec_count_tries(ps.drop_first())
    }
}

/// Over any sequence of credential callback invocations, the agent and the
/// on-disk keys are each granted at most once, and at most
/// `MAX_CREDENTIAL_ATTEMPTS` invocations are allowed to try anything: the
/// ladder cannot loop however often the transport asks again.
pub proof fn lemma_credential_ladder_bounded(s: CredentialAttempts, calls: Seq<bool>)
    ensures
        spec_count_agent_grants(spec_run_credentials(s, calls)) <= if s.agent_tried {
            0int
        } else {
            1int
        },
        spec_count_key_grants(spec_run_credentials(s, calls)) <= if s.keys_tried {
            0int
        } else {
            1int
        },
        spec_count_tries(spec_run_credentials(s, calls)) <= if s.attempts
            >= MAX_CREDENTIAL_ATTEMPTS {
            0int
        } else {
            MAX_CREDENTIAL_ATTEMPTS - s.attempts
        },
    decreases calls.len(),
{
    if calls.len() > 0 {
        let (s1, p) = spec_next_plan(s, calls[0]);
        lemma_credential_ladder_bounded(s1, calls.drop_first());
        assert(spec_run_credentials(s, calls).drop_first() =~= spec_run_credentials(
            s1,
            calls.drop_first(),
        ));
    }
}

/// The refspec a push of this branch uses.
pub open spec fn spec_refspec(branch: Seq<char>) -> Seq<char> {
    "refs/heads/"@ + branch + ":refs/heads/"@ + branch
}

/// The refspec mapping the local branch onto the remote branch of the same
/// name.
pub fn refspec_for(branch: &str) -> (r: String)
    ensures
        r@ == spec_refspec(branch@),
{
    String::from_str("refs/heads/").concat(branch).concat(":refs/heads/").concat(branch)
}

/// The on-disk key pairs worth trying, by conventional file name, under the
/// given home directory.
pub fn ssh_key_paths(home: &str) -> (r: Vec<(String, String)>)
    ensures
        r@.len() == 3,
        r@[0].0@ == home@ + "/.ssh/id_ed25519"@,
        r@[0].1@ == home@ + "/.ssh/id_ed25519.pub"@,
        r@[1].0@ == home@ + "/.ssh/id_rsa"@,
        r@[1].1@ == home@ + "/.ssh/id_rsa.pub"@,
        r@[2].0@ == home@ + "/.ssh/id_ecdsa"@,
        r@[2].1@ == home@ + "/.ssh/id_ecdsa.pub"@,
{
    let mut r: Vec<(String, String)> = Vec::new();
    r.push(
        (
            String::from_str(home).concat("/.ssh/id_ed25519"),
            String::from_str(home).concat("/.ssh/id_ed25519.pub"),
        ),
    );
    r.push(
        (
            String::from_str(home).concat("/.ssh/id_rsa"),
            String::from_str(home).concat("/.ssh/id_rsa.pub"),
        ),
    );
    r.push(
        (
            String::from_str(home).concat("/.ssh/id_ecdsa"),
            String::from_str(home).concat("/.ssh/id_ecdsa.pub"),
        ),
    );
    r
}

/// The question shown while the push dialog awaits confirmation.
pub fn confirm_push_message() -> (r: String)
    ensures
        r@ == "Are you sure you want to push your work ?"@,
{
    String::from_str("Are you sure you want to push your work ?")
}

/// The message shown the moment a worker is spawned.
pub fn initializing_push_message() -> (r: String)
    ensures
        r@ == "🔄 Initializing push..."@,
{
    String::from_str("🔄 Initializing push...")
}

/// One progress report: whole percent complete, then done over total.
pub open spec fn spec_progress_message(current: int, total: int) -> Seq<char> {
    "Push progress: "@ + spec_decimal(current * 100 / total) + "% ("@ + spec_decimal(current)
        + "/"@ + spec_decimal(total) + ")"@
}

/// The progress line the worker sends while the transfer runs.
pub fn progress_message(current: usize, total: usize) -> (r: String)
    requires
        0 < total,
        current <= total,
    ensures
        r@ == spec_progress_message(current as int, total as int),
{
    let percentage = ((current as u128) * 100 / (total as u128)) as usize;
    proof {
        assert((current as int) * 100 / (total as int) <= 100) by (nonlinear_arith)
            requires
                0 < total,
                current <= total,
        ;
        assert(percentage == (current as int) * 100 / (total as int));
    }
    let mut r = String::from_str("Push progress: ");
    r.append(usize_to_string(percentage).as_str());
    r.append("% (");
    r.append(usize_to_string(current).as_str());
    r.append("/");
    r.append(usize_to_string(total).as_str());
    r.append(")");
    r
}

/// The single terminal message of a successful push.
pub open spec fn spec_success_message(branch: Seq<char>) -> Seq<char> {
    "✅ Successfully pushed branch '"@ + branch + "'"@
}

/// The terminal message the worker sends when the push succeeded.
pub fn success_message(branch: &str) -> (r: String)
    ensures
        r@ == spec_success_message(branch@),
        spec_is_terminal_message(r@),
{
    let r = String::from_str("✅ Successfully pushed branch '").concat(branch).concat("'");
    proof {
        reveal_strlit("✅ Successfully pushed branch '");
        reveal_strlit("✅");
    }
    r
}

/// The single terminal message of a failed push.
pub open spec fn spec_failure_message(detail: Seq<char>) -> Seq<char> {
    "❌ Push failed: "@ + detail
}

/// The terminal message the worker sends when the push failed, around the
/// transport's or the pipeline's own error text.
pub fn failure_message(detail: &str) -> (r: String)
    ensures
        r@ == spec_failure_message(detail@),
        spec_is_terminal_message(r@),
{
    let r = String::from_str("❌ Push failed: ").concat(detail);
    proof {
        reveal_strlit("❌ Push failed: ");
        reveal_strlit("❌");
    }
    r
}

/// Whether a channel message is terminal: prefixed to mark success or
/// failure. Receiving one clears the in-progress state.
pub open spec fn spec_is_terminal_message(s: Seq<char>) -> bool {
    s.len() > 0 && (s[0] == '✅' || s[0] == '❌')
}

/// Whether a channel message is the worker's terminal message.
pub fn is_terminal_message(msg: &str) -> (r: bool)
    ensures
        r == spec_is_terminal_message(msg@),
{
    if msg.unicode_len() == 0 {
        return false;
    }
    let c = msg.get_char(0);
    c == '✅' || c == '❌'
}

} // verus!
