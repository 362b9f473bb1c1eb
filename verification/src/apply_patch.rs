//! The runtime that applies a patch.
//!
//! Whether the patch is safe was assessed before it comes here. The runtime reuses that
//! decision, so that nobody is asked twice, and says how the patch is to be run.

use crate::exec_output::ToolError;
use crate::patch_changes::{
    change_views, change_views_go_one_for_one, FileChangeView, PatchChange,
};
use crate::patch_request::{
    ApplyPatchRequest, ExecApprovalRequirement, ExecPolicyAmendment, SandboxPermissions,
};
use crate::path::{
    clone_paths, option_path, path_text, path_views, path_views_go_one_for_one, FilePath, PathView,
};
use crate::text::{option_text, texts, texts_go_one_for_one};
use std::collections::HashMap;
use vstd::prelude::*;
use vstd::std_specs::convert::FromSpec;
use vstd::string::*;

verus! {

/// How long a patch may take, where the request does not say. A patch of large files takes
/// longer than most commands do, but it must not stall a turn for ever.
pub const DEFAULT_APPLY_PATCH_TIMEOUT_MS: u64 = 300_000;

/// The first argument with which the executable is told to apply a patch.
pub const CODEX_CORE_APPLY_PATCH_ARG1: &'static str = "--codex-run-as-apply-patch";

/// The name under which approvals of patches are cached.
pub const APPLY_PATCH_TOOL: &'static str = "apply_patch";

/// Which classes of requests are turned down without asking.
#[derive(Debug, Clone, Copy, PartialEq, Eq)]
pub struct RejectConfig {
    pub sandbox_approval: bool,
    pub rules: bool,
    pub skill_approval: bool,
    pub request_permissions: bool,
    pub mcp_elicitations: bool,
}

impl RejectConfig {
    pub fn rejects_sandbox_approval(&self) -> (rejects: bool)
        ensures
            rejects == self.sandbox_approval,
    {
        self.sandbox_approval
    }
}

/// When a person is asked.
#[derive(Debug, Clone, Copy, PartialEq, Eq)]
pub enum AskForApproval {
    UnlessTrusted,
    OnFailure,
    OnRequest,
    Reject(RejectConfig),
    Never,
}

/// Whether a tool wants to run in a sandbox.
#[derive(Debug, Clone, Copy, PartialEq, Eq)]
pub enum SandboxablePreference {
    Auto,
    Require,
    Forbid,
}

/// Whether a network rule lets a host through.
#[derive(Debug, Clone, Copy, PartialEq, Eq)]
pub enum NetworkPolicyRuleAction {
    Allow,
    Deny,
}

/// What is decided about a request.
#[derive(Debug, PartialEq, Eq)]
pub enum ReviewDecision {
    Approved,
    ApprovedExecpolicyAmendment { proposed_execpolicy_amendment: ExecPolicyAmendment },
    ApprovedForSession,
    NetworkPolicyAmendment { host: String, action: NetworkPolicyRuleAction },
    Denied,
    Abort,
}

impl Default for ReviewDecision {
    fn default() -> (decision: ReviewDecision)
        ensures
            decision == ReviewDecision::Denied,
    {
        ReviewDecision::Denied
    }
}

/// What the guardian is shown.
#[derive(Debug, PartialEq, Eq)]
pub enum GuardianApprovalRequest {
    ApplyPatch { cwd: FilePath, files: Vec<FilePath>, change_count: usize, patch: String },
}

/// What the guardian is shown, with texts as characters and paths as units.
pub ghost struct ReviewView {
    pub cwd: PathView,
    pub files: Seq<PathView>,
    pub change_count: nat,
    pub patch: Seq<char>,
}

impl View for GuardianApprovalRequest {
    type V = ReviewView;

    open spec fn view(&self) -> ReviewView {
        match *self {
            GuardianApprovalRequest::ApplyPatch { cwd, files, change_count, patch } => ReviewView {
                cwd: cwd@,
                files: path_views(files@),
                change_count: change_count as nat,
                patch: patch@,
            },
        }
    }
}

/// When a command is stopped.
#[derive(Debug, Clone, Copy, PartialEq, Eq)]
pub enum ExecExpiration {
    Timeout { millis: u64 },
}

impl From<u64> for ExecExpiration {
    fn from(millis: u64) -> (expiration: ExecExpiration) {
        ExecExpiration::Timeout { millis }
    }
}

impl vstd::std_specs::convert::FromSpecImpl<u64> for ExecExpiration {
    open spec fn obeys_from_spec() -> bool {
        true
    }

    open spec fn from_spec(millis: u64) -> ExecExpiration {
        ExecExpiration::Timeout { millis }
    }
}

impl ExecExpiration {
    /// After how many milliseconds the command is stopped.
    pub fn timeout_ms(&self) -> (millis: Option<u64>)
        ensures
            millis == Some(self->millis),
    {
        match self {
            ExecExpiration::Timeout { millis } => Some(*millis),
        }
    }
}

/// A command to run.
#[derive(Debug, PartialEq, Eq)]
pub struct CommandSpec<P> {
    pub program: String,
    pub args: Vec<String>,
    pub cwd: FilePath,
    pub expiration: ExecExpiration,
    pub env: Vec<(String, String)>,
    pub sandbox_permissions: SandboxPermissions,
    pub additional_permissions: Option<P>,
    pub justification: Option<String>,
}

/// A command with texts as characters and paths as units.
pub ghost struct CommandView<P> {
    pub program: Seq<char>,
    pub args: Seq<Seq<char>>,
    pub cwd: PathView,
    pub expiration: ExecExpiration,
    pub env: Seq<(String, String)>,
    pub sandbox_permissions: SandboxPermissions,
    pub additional_permissions: Option<P>,
    pub justification: Option<Seq<char>>,
}

impl<P> View for CommandSpec<P> {
    type V = CommandView<P>;

    open spec fn view(&self) -> CommandView<P> {
        CommandView {
            program: self.program@,
            args: texts(self.args@),
            cwd: self.cwd@,
            expiration: self.expiration,
            env: self.env@,
            sandbox_permissions: self.sandbox_permissions,
            additional_permissions: self.additional_permissions,
            justification: option_text(self.justification),
        }
    }
}

/// What a tool call is known by: the turn, and the call in it.
#[derive(Debug, PartialEq, Eq)]
pub struct ToolCtx {
    pub sub_id: String,
    pub call_id: String,
}

/// Where the output of a call is sent to while it runs.
#[derive(Debug, PartialEq, Eq)]
pub struct StdoutStream<Tx> {
    pub sub_id: String,
    pub call_id: String,
    pub tx_event: Tx,
}

/// How a patch is run: the patch, and how long it may take.
#[derive(Debug, PartialEq, Eq)]
pub struct PatchRun {
    pub patch: String,
    pub timeout_ms: u64,
}

/// How a patch is run, with the patch as characters.
pub ghost struct PatchRunView {
    pub patch: Seq<char>,
    pub timeout_ms: u64,
}

impl View for PatchRun {
    type V = PatchRunView;

    open spec fn view(&self) -> PatchRunView {
        PatchRunView { patch: self.patch@, timeout_ms: self.timeout_ms }
    }
}

/// What approval is asked for in: the call, the reason of a second try, and whether the turn
/// leaves approvals to the guardian.
#[derive(Debug, PartialEq, Eq)]
pub struct ApprovalCtx {
    pub call_id: String,
    pub retry_reason: Option<String>,
    pub routes_to_guardian: bool,
}

/// What a person is asked.
#[derive(Debug, PartialEq, Eq)]
pub struct PatchApprovalPrompt {
    pub call_id: String,
    pub changes: HashMap<u64, PatchChange>,
    pub reason: Option<String>,
    pub grant_root: Option<FilePath>,
}

/// What a person is asked, with texts as characters and paths as units.
pub ghost struct PromptView {
    pub call_id: Seq<char>,
    pub changes: Map<u64, (PathView, FileChangeView)>,
    pub reason: Option<Seq<char>>,
    pub grant_root: Option<PathView>,
}

impl View for PatchApprovalPrompt {
    type V = PromptView;

    open spec fn view(&self) -> PromptView {
        PromptView {
            call_id: self.call_id@,
            changes: change_views(self.changes@),
            reason: option_text(self.reason),
            grant_root: option_path(self.grant_root),
        }
    }
}

/// What is to be done to get a request approved.
#[derive(Debug, PartialEq, Eq)]
pub enum ApprovalStep {
    /// Nothing: it is decided.
    Decided(ReviewDecision),
    /// The guardian decides.
    ReviewByGuardian { request: GuardianApprovalRequest, retry_reason: Option<String> },
    /// A person is asked.
    AskUser(PatchApprovalPrompt),
    /// A person is asked, unless the cache answers for the keys.
    AskUnlessCached { tool: String, keys: Vec<FilePath>, prompt: PatchApprovalPrompt },
}

/// A step with texts as characters and paths as units.
pub ghost enum StepView {
    Decided(ReviewDecision),
    ReviewByGuardian { request: ReviewView, retry_reason: Option<Seq<char>> },
    AskUser(PromptView),
    AskUnlessCached { tool: Seq<char>, keys: Seq<PathView>, prompt: PromptView },
}

impl View for ApprovalStep {
    type V = StepView;

    open spec fn view(&self) -> StepView {
        match *self {
            ApprovalStep::Decided(decision) => StepView::Decided(decision),
            ApprovalStep::ReviewByGuardian { request, retry_reason } =>
                StepView::ReviewByGuardian {
                    request: request@,
                    retry_reason: option_text(retry_reason),
                },
            ApprovalStep::AskUser(prompt) => StepView::AskUser(prompt@),
            ApprovalStep::AskUnlessCached { tool, keys, prompt } => StepView::AskUnlessCached {
                tool: tool@,
                keys: path_views(keys@),
                prompt: prompt@,
            },
        }
    }
}

/// How long a request may take.
pub open spec fn patch_timeout_ms<P>(req: ApplyPatchRequest<P>) -> u64 {
    match req.timeout_ms {
        Some(millis) => millis,
        None => DEFAULT_APPLY_PATCH_TIMEOUT_MS,
    }
}

/// How the patch of a request is run.
pub open spec fn plan_of<P>(req: ApplyPatchRequest<P>) -> PatchRunView {
    PatchRunView { patch: req.action.patch@, timeout_ms: patch_timeout_ms(req) }
}

/// What the guardian is shown of a request: the whole patch, and no change twice.
pub open spec fn review_of<P>(req: ApplyPatchRequest<P>) -> ReviewView {
    ReviewView {
        cwd: req.action.cwd@,
        files: path_views(req.file_paths@),
        change_count: req.changes@.len(),
        patch: req.action.patch@,
    }
}

/// The command that applies the patch of a request with an executable, under permissions that
/// were copied from the request. Its environment is empty, so that nothing leaks into it.
pub open spec fn command_of<P>(
    req: ApplyPatchRequest<P>,
    exe: PathView,
    additional_permissions: Option<P>,
) -> CommandView<P> {
    CommandView {
        program: path_text(exe),
        args: seq![CODEX_CORE_APPLY_PATCH_ARG1@, req.action.patch@],
        cwd: req.action.cwd@,
        expiration: ExecExpiration::Timeout { millis: patch_timeout_ms(req) },
        env: Seq::empty(),
        sandbox_permissions: req.sandbox_permissions,
        additional_permissions,
        justification: None,
    }
}

/// Whether one value is a copy of another, where there is one.
pub open spec fn option_cloned<P: Clone>(from: Option<P>, copy: Option<P>) -> bool {
    match (from, copy) {
        (Some(from), Some(copy)) => cloned::<P>(from, copy),
        (None, None) => true,
        _ => false,
    }
}

/// Whether a command is the one that applies the patch of a request with an executable. Its
/// permissions are a copy of those of the request.
pub open spec fn is_command_for<P: Clone>(
    command: CommandView<P>,
    req: ApplyPatchRequest<P>,
    exe: PathView,
) -> bool {
    &&& option_cloned(req.additional_permissions, command.additional_permissions)
    &&& command == command_of(req, exe, command.additional_permissions)
}

/// What a person is asked about a request.
pub open spec fn prompt_of<P>(req: ApplyPatchRequest<P>, ctx: ApprovalCtx) -> PromptView {
    PromptView {
        call_id: ctx.call_id@,
        changes: change_views(req.changes@),
        reason: option_text(ctx.retry_reason),
        grant_root: None,
    }
}

/// What is to be done to get a request approved.
pub open spec fn approval_of<P>(req: ApplyPatchRequest<P>, ctx: ApprovalCtx) -> StepView {
    if ctx.routes_to_guardian {
        StepView::ReviewByGuardian {
            request: review_of(req),
            retry_reason: option_text(ctx.retry_reason),
        }
    } else if ctx.retry_reason is Some {
        StepView::AskUser(prompt_of(req, ctx))
    } else if req.permissions_preapproved {
        StepView::Decided(ReviewDecision::Approved)
    } else {
        StepView::AskUnlessCached {
            tool: APPLY_PATCH_TOOL@,
            keys: path_views(req.file_paths@),
            prompt: prompt_of(req, ctx),
        }
    }
}

/// Applies patches.
#[derive(Debug, Clone, Copy, PartialEq, Eq)]
pub struct ApplyPatchRuntime;

impl Default for ApplyPatchRuntime {
    fn default() -> (runtime: ApplyPatchRuntime)
        ensures
            runtime == ApplyPatchRuntime,
    {
        ApplyPatchRuntime
    }
}

fn build_prompt<P>(req: &ApplyPatchRequest<P>, ctx: &ApprovalCtx) -> (prompt: PatchApprovalPrompt)
    ensures
        prompt@ == prompt_of(*req, *ctx),
{
    PatchApprovalPrompt {
        call_id: ctx.call_id.clone(),
        changes: req.changes.clone(),
        reason: ctx.retry_reason.clone(),
        grant_root: None,
    }
}

/// What a person answered. Whoever closes the question without an answer has denied it.
pub fn decision_or_default(reply: Option<ReviewDecision>) -> (decision: ReviewDecision)
    ensures
        decision == match reply {
            Some(answer) => answer,
            None => ReviewDecision::Denied,
        },
{
    match reply {
        Some(answer) => answer,
        None => ReviewDecision::default(),
    }
}

impl ApplyPatchRuntime {
    pub fn new() -> (runtime: ApplyPatchRuntime)
        ensures
            runtime == ApplyPatchRuntime,
    {
        ApplyPatchRuntime
    }

    /// What the guardian is shown of a request.
    pub fn build_guardian_review_request<P>(req: &ApplyPatchRequest<P>) -> (request:
        GuardianApprovalRequest)
        ensures
            request@ == review_of(*req),
            match request {
                GuardianApprovalRequest::ApplyPatch { cwd, files, change_count, patch } => {
                    &&& cwd@ == req.action.cwd@
                    &&& patch@ == req.action.patch@
                    &&& change_count == req.changes@.len()
                    &&& files@.len() == req.file_paths@.len()
                    &&& forall|i: int|
                        0 <= i < files@.len() ==> (#[trigger] files@[i])@ == req.file_paths@[i]@
                },
            },
    {
        broadcast use vstd::std_specs::hash::group_hash_axioms;

        GuardianApprovalRequest::ApplyPatch {
            cwd: req.action.cwd.clone(),
            files: clone_paths(&req.file_paths),
            change_count: req.changes.len(),
            patch: req.action.patch.clone(),
        }
    }

    /// How long a request may take.
    pub fn timeout_ms<P>(req: &ApplyPatchRequest<P>) -> (millis: u64)
        ensures
            millis == patch_timeout_ms(*req),
            millis == match req.timeout_ms {
                Some(asked) => asked,
                None => 300_000,
            },
    {
        req.timeout_ms.unwrap_or(DEFAULT_APPLY_PATCH_TIMEOUT_MS)
    }

    /// The command that applies the patch with the executable that the request names, else
    /// with the one that runs now. `current_exe` is what looking for that one gave; it counts
    /// only where the request names none.
    pub fn build_command_spec<P: Clone>(
        req: &ApplyPatchRequest<P>,
        current_exe: Result<FilePath, String>,
    ) -> (spec: Result<CommandSpec<P>, ToolError>)
        ensures
            match (req.codex_exe, current_exe) {
                (Some(exe), _) => spec matches Ok(command) && is_command_for(
                    command@,
                    *req,
                    exe@,
                ),
                (None, Ok(exe)) => spec matches Ok(command) && is_command_for(
                    command@,
                    *req,
                    exe@,
                ),
                (None, Err(error)) => spec matches Err(ToolError::Rejected(message)) && message@
                    == "failed to determine codex exe: "@ + error@,
            },
            spec matches Ok(command) ==> {
                &&& command.args@.len() == 2
                &&& command.args@[0]@ == "--codex-run-as-apply-patch"@
                &&& command.args@[1]@ == req.action.patch@
                &&& command.cwd@ == req.action.cwd@
                &&& command.expiration == (ExecExpiration::Timeout {
                    millis: match req.timeout_ms {
                        Some(asked) => asked,
                        None => 300_000,
                    },
                })
                &&& command.env@.len() == 0
                &&& command.sandbox_permissions == req.sandbox_permissions
                &&& command.additional_permissions is Some == req.additional_permissions is Some
                &&& command.justification is None
            },
    {
        let exe: FilePath = match &req.codex_exe {
            Some(path) => path.clone(),
            None => match current_exe {
                Ok(path) => path,
                Err(error) => {
                    let mut message = "failed to determine codex exe: ".to_string();
                    message.append(error.as_str());
                    return Err(ToolError::Rejected(message));
                },
            },
        };
        let mut args: Vec<String> = Vec::new();
        args.push(CODEX_CORE_APPLY_PATCH_ARG1.to_string());
        args.push(req.action.patch.clone());
        assert(texts(args@) =~= seq![CODEX_CORE_APPLY_PATCH_ARG1@, req.action.patch@]);
        let command = CommandSpec {
            program: exe.to_text(),
            args,
            cwd: req.action.cwd.clone(),
            expiration: ExecExpiration::from(Self::timeout_ms(req)),
            env: Vec::new(),
            sandbox_permissions: req.sandbox_permissions,
            additional_permissions: req.additional_permissions.clone(),
            justification: None,
        };
        assert(command@ == command_of(*req, exe@, command.additional_permissions));
        Ok(command)
    }

    /// Where the output of a call is sent to, given the session's end of the channel.
    pub fn stdout_stream<Tx>(ctx: &ToolCtx, tx_event: Tx) -> (stream: Option<StdoutStream<Tx>>)
        ensures
            stream == Some(
                (StdoutStream { sub_id: ctx.sub_id, call_id: ctx.call_id, tx_event }),
            ),
    {
        Some(StdoutStream { sub_id: ctx.sub_id.clone(), call_id: ctx.call_id.clone(), tx_event })
    }

    pub fn sandbox_preference(&self) -> (preference: SandboxablePreference)
        ensures
            preference == SandboxablePreference::Auto,
    {
        SandboxablePreference::Auto
    }

    pub fn escalate_on_failure(&self) -> (escalate: bool)
        ensures
            escalate,
    {
        true
    }

    /// What an approval of a request is cached under.
    pub fn approval_keys<P>(&self, req: &ApplyPatchRequest<P>) -> (keys: Vec<FilePath>)
        ensures
            path_views(keys@) == path_views(req.file_paths@),
            keys@.len() == req.file_paths@.len(),
            forall|i: int|
                0 <= i < req.file_paths@.len() ==> (#[trigger] keys@[i])@ == req.file_paths@[i]@,
    {
        clone_paths(&req.file_paths)
    }

    /// What is to be done to get a request approved. The guardian comes before everything. A
    /// request that is tried again is asked about afresh. One that was approved before is not
    /// asked about. Else a person is asked, and the answer may be cached.
    pub fn start_approval<P>(
        &self,
        req: &ApplyPatchRequest<P>,
        ctx: &ApprovalCtx,
    ) -> (step: ApprovalStep)
        ensures
            step@ == approval_of(*req, *ctx),
            step is ReviewByGuardian == ctx.routes_to_guardian,
            step is AskUser == (!ctx.routes_to_guardian && ctx.retry_reason is Some),
            step is Decided == (!ctx.routes_to_guardian && ctx.retry_reason is None
                && req.permissions_preapproved),
            step matches ApprovalStep::Decided(decision) ==> decision is Approved,
            step matches ApprovalStep::AskUnlessCached { tool, keys, prompt } ==> {
                &&& tool@ == "apply_patch"@
                &&& keys@.len() == req.file_paths@.len()
                &&& forall|i: int|
                    0 <= i < req.file_paths@.len() ==> (#[trigger] keys@[i])@
                        == req.file_paths@[i]@
            },
    {
        if ctx.routes_to_guardian {
            return ApprovalStep::ReviewByGuardian {
                request: Self::build_guardian_review_request(req),
                retry_reason: ctx.retry_reason.clone(),
            };
        }
        if req.permissions_preapproved && ctx.retry_reason.is_none() {
            return ApprovalStep::Decided(ReviewDecision::Approved);
        }
        if ctx.retry_reason.is_some() {
            return ApprovalStep::AskUser(build_prompt(req, ctx));
        }
        ApprovalStep::AskUnlessCached {
            tool: APPLY_PATCH_TOOL.to_string(),
            keys: self.approval_keys(req),
            prompt: build_prompt(req, ctx),
        }
    }

    /// Whether a run without a sandbox may be asked for.
    pub fn wants_no_sandbox_approval(&self, policy: AskForApproval) -> (wants: bool)
        ensures
            wants == match policy {
                AskForApproval::Never => false,
                AskForApproval::Reject(config) => !config.sandbox_approval,
                AskForApproval::OnFailure => true,
                AskForApproval::OnRequest => true,
                AskForApproval::UnlessTrusted => true,
            },
    {
        match policy {
            AskForApproval::Never => false,
            AskForApproval::Reject(config) => !config.rejects_sandbox_approval(),
            AskForApproval::OnFailure => true,
            AskForApproval::OnRequest => true,
            AskForApproval::UnlessTrusted => true,
        }
    }

    /// What was decided about a request before it came here, in place of the policy that
    /// holds for commands.
    pub fn exec_approval_requirement<P>(&self, req: &ApplyPatchRequest<P>) -> (requirement: Option<
        ExecApprovalRequirement,
    >)
        ensures
            requirement matches Some(decided) && decided@ == req.exec_approval_requirement@,
    {
        Some(req.exec_approval_requirement.clone())
    }

    /// How the patch of a request is run.
    pub fn run<P>(&self, req: &ApplyPatchRequest<P>) -> (run: PatchRun)
        ensures
            run@ == plan_of(*req),
            run.patch@ == req.action.patch@,
            run.timeout_ms == match req.timeout_ms {
                Some(asked) => asked,
                None => 300_000,
            },
    {
        PatchRun { patch: req.action.patch.clone(), timeout_ms: Self::timeout_ms(req) }
    }
}

/// A command and a run of the same request may take equally long.
pub proof fn timeouts_agree<P>(
    req: ApplyPatchRequest<P>,
    exe: PathView,
    additional_permissions: Option<P>,
)
    ensures
        command_of(req, exe, additional_permissions).expiration->millis == plan_of(req).timeout_ms,
        req.timeout_ms is None ==> plan_of(req).timeout_ms == 300_000,
        req.timeout_ms matches Some(millis) ==> plan_of(req).timeout_ms == millis,
{
}

/// Nothing of a request reaches the command but the patch, its directory, how long it may take
/// and what it may do, and nothing of the environment does. Two commands of requests that agree
/// in these differ at most in how their permissions were copied; where a copy equals what it was
/// made of, they are equal.
pub proof fn command_carries_nothing_else<P: Clone>(
    some: ApplyPatchRequest<P>,
    other: ApplyPatchRequest<P>,
    exe: PathView,
    some_command: CommandView<P>,
    other_command: CommandView<P>,
)
    requires
        is_command_for(some_command, some, exe),
        is_command_for(other_command, other, exe),
        some.action.patch@ == other.action.patch@,
        some.action.cwd@ == other.action.cwd@,
        patch_timeout_ms(some) == patch_timeout_ms(other),
        some.sandbox_permissions == other.sandbox_permissions,
    ensures
        some_command == (CommandView {
            additional_permissions: some_command.additional_permissions,
            ..other_command
        }),
        some.additional_permissions == other.additional_permissions && (forall|from: P, copy: P|
            #[trigger] cloned::<P>(from, copy) ==> from == copy) ==> some_command == other_command,
        some_command.env.len() == 0,
        some_command.args.len() == 2,
{
}

/// Nothing of a request reaches a run but the patch and how long it may take. The executable,
/// the permissions, the files and the changes have no influence, and a request that does not
/// say how long runs as one that asks for the default.
pub proof fn run_carries_nothing_else<P, Q>(some: ApplyPatchRequest<P>, other: ApplyPatchRequest<Q>)
    requires
        some.action.patch@ == other.action.patch@,
        some.timeout_ms.unwrap_or(DEFAULT_APPLY_PATCH_TIMEOUT_MS) == other.timeout_ms.unwrap_or(
            DEFAULT_APPLY_PATCH_TIMEOUT_MS,
        ),
    ensures
        plan_of(some) == plan_of(other),
{
}

/// A turn that leaves approvals to the guardian never approves a patch by itself, nor asks a
/// person, though the patch was approved before.
pub proof fn guardian_comes_first<P>(req: ApplyPatchRequest<P>, ctx: ApprovalCtx)
    requires
        ctx.routes_to_guardian,
    ensures
        approval_of(req, ctx) is ReviewByGuardian,
        approval_of(req, ctx)->request.patch == req.action.patch@,
        approval_of(req, ctx)->ReviewByGuardian_retry_reason == option_text(ctx.retry_reason),
{
}

/// A patch that is tried again is never approved by what was decided before, and never by the
/// cache: whoever decides is told why it is tried again.
pub proof fn retry_is_reviewed_afresh<P>(req: ApplyPatchRequest<P>, ctx: ApprovalCtx)
    requires
        ctx.retry_reason is Some,
    ensures
        match approval_of(req, ctx) {
            StepView::ReviewByGuardian { retry_reason, .. } => retry_reason == option_text(
                ctx.retry_reason,
            ),
            StepView::AskUser(prompt) => prompt.reason == option_text(ctx.retry_reason),
            StepView::Decided(_) => false,
            StepView::AskUnlessCached { .. } => false,
        },
{
}

/// The one decision that is made without asking is to approve, and it is made exactly for a
/// patch that was approved before, is tried for the first time, and is not left to the
/// guardian.
pub proof fn only_preapproved_patches_skip_review<P>(req: ApplyPatchRequest<P>, ctx: ApprovalCtx)
    ensures
        (approval_of(req, ctx) is Decided) == (req.permissions_preapproved
            && ctx.retry_reason is None && !ctx.routes_to_guardian),
        approval_of(req, ctx) matches StepView::Decided(decision) ==> decision
            == ReviewDecision::Approved,
{
}

/// Whoever is asked is shown every change, and asked for no further rights.
pub proof fn prompts_show_every_change<P>(req: ApplyPatchRequest<P>, ctx: ApprovalCtx)
    ensures
        match approval_of(req, ctx) {
            StepView::AskUser(prompt) => prompt.changes == change_views(req.changes@)
                && prompt.grant_root is None,
            StepView::AskUnlessCached { prompt, .. } => prompt.changes == change_views(req.changes@)
                && prompt.grant_root is None && prompt.reason is None,
            _ => true,
        },
{
}

/// A command does what its request asks for: it runs the given executable, hands it the patch,
/// runs where the patch belongs, under the sandbox permissions of the request and a copy of its
/// further ones, for as long as the request says or else for five minutes, and with nothing of
/// the environment.
pub proof fn command_does_what_the_request_asks<P: Clone>(
    command: CommandSpec<P>,
    req: ApplyPatchRequest<P>,
    exe: FilePath,
)
    requires
        is_command_for(command@, req, exe@),
    ensures
        command.program@ == path_text(exe@),
        command.args@.len() == 2,
        command.args@[0]@ == "--codex-run-as-apply-patch"@,
        command.args@[1]@ == req.action.patch@,
        command.cwd@ == req.action.cwd@,
        req.timeout_ms matches Some(millis) ==> command.expiration == (ExecExpiration::Timeout {
            millis,
        }),
        req.timeout_ms is None ==> command.expiration == (ExecExpiration::Timeout {
            millis: 300_000,
        }),
        command.env@.len() == 0,
        command.sandbox_permissions == req.sandbox_permissions,
        command.additional_permissions is Some == req.additional_permissions is Some,
        req.additional_permissions matches Some(asked) ==> (command.additional_permissions
            matches Some(given) && cloned::<P>(asked, given)),
        command.justification is None,
{
    texts_go_one_for_one(command.args@, command@.args);
}

/// The guardian is shown the request as it is: the whole patch, where it applies, each file in
/// its place, and how many files are changed.
pub proof fn review_shows_the_request<P>(
    request: GuardianApprovalRequest,
    req: ApplyPatchRequest<P>,
)
    requires
        request@ == review_of(req),
    ensures
        match request {
            GuardianApprovalRequest::ApplyPatch { cwd, files, change_count, patch } => {
                &&& cwd@ == req.action.cwd@
                &&& patch@ == req.action.patch@
                &&& change_count == req.changes@.dom().len()
                &&& files@.len() == req.file_paths@.len()
                &&& forall|i: int|
                    0 <= i < files@.len() ==> (#[trigger] files@[i])@ == req.file_paths@[i]@
            },
        },
{
    match request {
        GuardianApprovalRequest::ApplyPatch { cwd, files, change_count, patch } => {
            path_views_go_one_for_one(files@, request@.files);
            path_views_go_one_for_one(req.file_paths@, request@.files);
        },
    }
}

/// A person is asked about the call in question and every change of the request, each under its
/// number, is told why it is tried again where it is, and is asked for no further rights.
pub proof fn prompt_shows_the_request<P>(
    prompt: PatchApprovalPrompt,
    req: ApplyPatchRequest<P>,
    ctx: ApprovalCtx,
)
    requires
        prompt@ == prompt_of(req, ctx),
    ensures
        prompt.call_id@ == ctx.call_id@,
        forall|file: u64| #[trigger]
            prompt.changes@.contains_key(file) == req.changes@.contains_key(file),
        forall|file: u64| #[trigger]
            prompt.changes@.contains_key(file) ==> prompt.changes@[file].path@
                == req.changes@[file].path@ && prompt.changes@[file].change@
                == req.changes@[file].change@,
        prompt.reason is Some == ctx.retry_reason is Some,
        ctx.retry_reason matches Some(why) ==> (prompt.reason matches Some(told) && told@ == why@),
        prompt.grant_root is None,
{
    let views = prompt@.changes;
    change_views_go_one_for_one(prompt.changes@, views);
    change_views_go_one_for_one(req.changes@, views);
    assert forall|file: u64| #[trigger]
        prompt.changes@.contains_key(file) == req.changes@.contains_key(file) by {
        assert(views.contains_key(file) == prompt.changes@.contains_key(file));
    }
    assert forall|file: u64| #[trigger] prompt.changes@.contains_key(file) implies
        prompt.changes@[file].path@ == req.changes@[file].path@ && prompt.changes@[file].change@
        == req.changes@[file].change@ by {
        assert(req.changes@.contains_key(file));
    }
}

/// Exactly one way leads to an approval. The guardian decides wherever the turn leaves it to the
/// guardian. Else a person decides on a second try. Else an earlier approval holds. Else a
/// person decides, unless the cache answers for every file of the request, each under its own
/// path and in its place.
pub proof fn approval_takes_the_one_way<P>(
    step: ApprovalStep,
    req: ApplyPatchRequest<P>,
    ctx: ApprovalCtx,
)
    requires
        step@ == approval_of(req, ctx),
    ensures
        step is ReviewByGuardian == ctx.routes_to_guardian,
        step is AskUser == (!ctx.routes_to_guardian && ctx.retry_reason is Some),
        step is Decided == (!ctx.routes_to_guardian && ctx.retry_reason is None
            && req.permissions_preapproved),
        step is AskUnlessCached == (!ctx.routes_to_guardian && ctx.retry_reason is None
            && !req.permissions_preapproved),
        step matches ApprovalStep::Decided(decision) ==> decision is Approved,
        step matches ApprovalStep::ReviewByGuardian { request, retry_reason } ==> {
            &&& request@ == review_of(req)
            &&& retry_reason is Some == ctx.retry_reason is Some
            &&& ctx.retry_reason matches Some(why) ==> (retry_reason matches Some(told) && told@
                == why@)
        },
        step matches ApprovalStep::AskUser(prompt) ==> prompt@ == prompt_of(req, ctx),
        step matches ApprovalStep::AskUnlessCached { tool, keys, prompt } ==> {
            &&& tool@ == "apply_patch"@
            &&& keys@.len() == req.file_paths@.len()
            &&& forall|i: int|
                0 <= i < req.file_paths@.len() ==> (#[trigger] keys@[i])@ == req.file_paths@[i]@
            &&& prompt@ == prompt_of(req, ctx)
        },
{
    if let ApprovalStep::AskUnlessCached { tool, keys, prompt } = step {
        path_views_go_one_for_one(keys@, path_views(keys@));
        path_views_go_one_for_one(req.file_paths@, path_views(keys@));
    }
}

/// A run is given the patch of its request, whole, and as long as the request says or else five
/// minutes.
pub proof fn run_does_what_the_request_asks<P>(run: PatchRun, req: ApplyPatchRequest<P>)
    requires
        run@ == plan_of(req),
    ensures
        run.patch@ == req.action.patch@,
        req.timeout_ms matches Some(millis) ==> run.timeout_ms == millis,
        req.timeout_ms is None ==> run.timeout_ms == 300_000,
{
}

/// A number of milliseconds makes an expiration after just that many.
pub proof fn expiration_keeps_its_time(millis: u64)
    ensures
        <ExecExpiration as FromSpec<u64>>::obeys_from_spec(),
        ExecExpiration::from_spec(millis) == (ExecExpiration::Timeout { millis }),
{
}

} // verus!
