//! A request to apply a patch, and what it is handled by.

use crate::patch_changes::PatchChange;
use crate::path::FilePath;
use crate::text::{option_text, texts};
use std::collections::HashMap;
use vstd::prelude::*;

verus! {

/// A patch, and the directory that its paths start from.
#[derive(Debug, PartialEq, Eq)]
pub struct ApplyPatchAction {
    pub patch: String,
    pub cwd: FilePath,
}

/// A command that would be allowed from now on.
#[derive(Debug, PartialEq, Eq)]
pub struct ExecPolicyAmendment {
    pub command: Vec<String>,
}

impl View for ExecPolicyAmendment {
    type V = Seq<Seq<char>>;

    open spec fn view(&self) -> Seq<Seq<char>> {
        texts(self.command@)
    }
}

impl Clone for ExecPolicyAmendment {
    fn clone(&self) -> (copy: ExecPolicyAmendment)
        ensures
            copy@ == self@,
    {
        let command = self.command.clone();
        assert(texts(command@) =~= texts(self.command@));
        ExecPolicyAmendment { command }
    }
}

/// The words of an amendment, where there is one.
pub open spec fn option_amendment(amendment: Option<ExecPolicyAmendment>) -> Option<
    Seq<Seq<char>>,
> {
    match amendment {
        Some(amendment) => Some(amendment@),
        None => None,
    }
}

/// Whether a run has to be approved.
#[derive(Debug, PartialEq, Eq)]
#[allow(inconsistent_fields)]
pub enum ExecApprovalRequirement {
    Skip { bypass_sandbox: bool, proposed_execpolicy_amendment: Option<ExecPolicyAmendment> },
    NeedsApproval {
        reason: Option<String>,
        proposed_execpolicy_amendment: Option<ExecPolicyAmendment>,
    },
    Forbidden { reason: String },
}

/// A requirement with its texts as characters.
#[allow(inconsistent_fields)]
pub ghost enum RequirementView {
    Skip { bypass_sandbox: bool, amendment: Option<Seq<Seq<char>>> },
    NeedsApproval { reason: Option<Seq<char>>, amendment: Option<Seq<Seq<char>>> },
    Forbidden { reason: Seq<char> },
}

impl View for ExecApprovalRequirement {
    type V = RequirementView;

    open spec fn view(&self) -> RequirementView {
        match *self {
            ExecApprovalRequirement::Skip { bypass_sandbox, proposed_execpolicy_amendment } =>
                RequirementView::Skip {
                    bypass_sandbox,
                    amendment: option_amendment(proposed_execpolicy_amendment),
                },
            ExecApprovalRequirement::NeedsApproval { reason, proposed_execpolicy_amendment } =>
                RequirementView::NeedsApproval {
                    reason: option_text(reason),
                    amendment: option_amendment(proposed_execpolicy_amendment),
                },
            ExecApprovalRequirement::Forbidden { reason } => RequirementView::Forbidden {
                reason: reason@,
            },
        }
    }
}

impl Clone for ExecApprovalRequirement {
    fn clone(&self) -> (copy: ExecApprovalRequirement)
        ensures
            copy@ == self@,
    {
        match self {
            ExecApprovalRequirement::Skip { bypass_sandbox, proposed_execpolicy_amendment } =>
                ExecApprovalRequirement::Skip {
                    bypass_sandbox: *bypass_sandbox,
                    proposed_execpolicy_amendment: proposed_execpolicy_amendment.clone(),
                },
            ExecApprovalRequirement::NeedsApproval { reason, proposed_execpolicy_amendment } =>
                ExecApprovalRequirement::NeedsApproval {
                    reason: reason.clone(),
                    proposed_execpolicy_amendment: proposed_execpolicy_amendment.clone(),
                },
            ExecApprovalRequirement::Forbidden { reason } => ExecApprovalRequirement::Forbidden {
                reason: reason.clone(),
            },
        }
    }
}

/// How a command asks to be confined.
#[derive(Debug, Clone, Copy, PartialEq, Eq)]
pub enum SandboxPermissions {
    UseDefault,
    RequireEscalated,
    WithAdditionalPermissions,
}

/// A request to apply a patch that was found safe, or approved, before. `changes` has one entry
/// for each file that the patch changes, under a number that stands for the file; which paths
/// name one file is settled by whoever makes the request. What the patch may do beyond its
/// sandbox is a `P`, which is handed on and not looked into.
#[derive(Debug)]
pub struct ApplyPatchRequest<P> {
    pub action: ApplyPatchAction,
    pub file_paths: Vec<FilePath>,
    pub changes: HashMap<u64, PatchChange>,
    pub exec_approval_requirement: ExecApprovalRequirement,
    pub sandbox_permissions: SandboxPermissions,
    pub additional_permissions: Option<P>,
    pub permissions_preapproved: bool,
    pub timeout_ms: Option<u64>,
    pub codex_exe: Option<FilePath>,
}

/// A requirement that a view shows is the requirement that was decided: of the same kind, with
/// the same reason and the same words of an amendment.
pub proof fn view_keeps_the_requirement(requirement: ExecApprovalRequirement)
    ensures
        match requirement {
            ExecApprovalRequirement::Skip { bypass_sandbox, proposed_execpolicy_amendment } =>
                requirement@ matches RequirementView::Skip { bypass_sandbox: bypass, amendment }
                    && bypass == bypass_sandbox && amendment is Some
                    == proposed_execpolicy_amendment is Some && (proposed_execpolicy_amendment
                    matches Some(proposed) ==> amendment == Some(proposed@)),
            ExecApprovalRequirement::NeedsApproval { reason, proposed_execpolicy_amendment } =>
                requirement@ matches RequirementView::NeedsApproval { reason: shown, amendment }
                    && shown is Some == reason is Some && (reason matches Some(text) ==> shown
                    == Some(text@)) && amendment is Some == proposed_execpolicy_amendment is Some
                    && (proposed_execpolicy_amendment matches Some(proposed) ==> amendment == Some(
                    proposed@,
                )),
            ExecApprovalRequirement::Forbidden { reason } => requirement@
                matches RequirementView::Forbidden { reason: shown } && shown == reason@,
        },
{
}

/// The words of an amendment and those of its view go one for one.
pub proof fn view_keeps_every_word(amendment: ExecPolicyAmendment)
    ensures
        amendment@.len() == amendment.command@.len(),
        forall|i: int|
            0 <= i < amendment.command@.len() ==> #[trigger] amendment@[i]
                == amendment.command@[i]@,
{
}

} // verus!
