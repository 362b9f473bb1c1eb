use codex_core::apply_patch::decision_or_default;
use codex_core::apply_patch::ApplyPatchRuntime;
use codex_core::apply_patch::ApprovalCtx;
use codex_core::apply_patch::ApprovalStep;
use codex_core::apply_patch::AskForApproval;
use codex_core::apply_patch::CommandSpec;
use codex_core::apply_patch::ExecExpiration;
use codex_core::apply_patch::GuardianApprovalRequest;
use codex_core::apply_patch::PatchApprovalPrompt;
use codex_core::apply_patch::PatchRun;
use codex_core::apply_patch::RejectConfig;
use codex_core::apply_patch::ReviewDecision;
use codex_core::apply_patch::SandboxablePreference;
use codex_core::apply_patch::StdoutStream;
use codex_core::apply_patch::ToolCtx;
use codex_core::apply_patch::CODEX_CORE_APPLY_PATCH_ARG1;
use codex_core::apply_patch::DEFAULT_APPLY_PATCH_TIMEOUT_MS;
use codex_core::exec_output::blocking_exec_result;
use codex_core::exec_output::patch_output;
use codex_core::exec_output::process_apply_patch;
use codex_core::exec_output::timeout_exec_output;
use codex_core::exec_output::ExecToolCallOutput;
use codex_core::exec_output::StreamOutput;
use codex_core::exec_output::ToolError;
use codex_core::exec_output::WorkerEnd;
use codex_core::patch_changes::FileChange;
use codex_core::patch_changes::PatchChange;
use codex_core::patch_request::ApplyPatchAction;
use codex_core::patch_request::ApplyPatchRequest;
use codex_core::patch_request::ExecApprovalRequirement;
use codex_core::patch_request::ExecPolicyAmendment;
use codex_core::patch_request::SandboxPermissions;
use codex_core::path::FilePath;
use std::collections::HashMap;
use std::time::Duration;

/// A profile that the library does not look into.
#[derive(Debug, Clone, PartialEq, Eq)]
struct PermissionProfile {
    network: Option<bool>,
    write: Option<Vec<String>>,
}

fn new_add_for_test(filename: &str, content: &str) -> ApplyPatchAction {
    ApplyPatchAction {
        patch: format!(
            "*** Begin Patch\n*** Update File: {filename}\n@@\n+ {content}\n*** End Patch"
        ),
        cwd: FilePath::from_text("/tmp"),
    }
}

fn request(filename: &str) -> ApplyPatchRequest<PermissionProfile> {
    ApplyPatchRequest {
        action: new_add_for_test(filename, "hello"),
        file_paths: vec![],
        changes: HashMap::new(),
        exec_approval_requirement: ExecApprovalRequirement::Skip {
            bypass_sandbox: false,
            proposed_execpolicy_amendment: None,
        },
        sandbox_permissions: SandboxPermissions::UseDefault,
        additional_permissions: None,
        permissions_preapproved: false,
        timeout_ms: None,
        codex_exe: Some(FilePath::from_text("/bin/echo")),
    }
}

fn moved() -> PatchChange {
    PatchChange {
        path: FilePath::from_text("/tmp/a.txt"),
        change: FileChange::Update {
            unified_diff: "@@".to_string(),
            move_path: Some(FilePath::from_text("/tmp/b.txt")),
        },
    }
}

fn deleted() -> PatchChange {
    PatchChange {
        path: FilePath::from_text("/tmp/c.txt"),
        change: FileChange::Delete {
            content: "gone".to_string(),
        },
    }
}

fn changing_request() -> ApplyPatchRequest<PermissionProfile> {
    let mut req = request("a.txt");
    req.file_paths = vec![FilePath::from_text("/tmp/a.txt")];
    req.changes = HashMap::from([(0, moved()), (1, deleted())]);
    req
}

fn context(retry_reason: Option<&str>, routes_to_guardian: bool) -> ApprovalCtx {
    ApprovalCtx {
        call_id: "call-1".to_string(),
        retry_reason: retry_reason.map(|reason| reason.to_string()),
        routes_to_guardian,
    }
}

fn prompt(reason: Option<&str>) -> PatchApprovalPrompt {
    PatchApprovalPrompt {
        call_id: "call-1".to_string(),
        changes: HashMap::from([(0, moved()), (1, deleted())]),
        reason: reason.map(|reason| reason.to_string()),
        grant_root: None,
    }
}

fn no_exe() -> Result<FilePath, String> {
    Err("no such file".to_string())
}

#[test]
fn wants_no_sandbox_approval_reject_respects_sandbox_flag() {
    let runtime = ApplyPatchRuntime::new();
    assert!(runtime.wants_no_sandbox_approval(AskForApproval::OnRequest));
    assert!(
        !runtime.wants_no_sandbox_approval(AskForApproval::Reject(RejectConfig {
            sandbox_approval: true,
            rules: false,
            skill_approval: false,
            request_permissions: false,
            mcp_elicitations: false,
        }))
    );
    assert!(
        runtime.wants_no_sandbox_approval(AskForApproval::Reject(RejectConfig {
            sandbox_approval: false,
            rules: false,
            skill_approval: false,
            request_permissions: false,
            mcp_elicitations: false,
        }))
    );
}

#[test]
fn wants_no_sandbox_approval_for_every_policy() {
    let runtime = ApplyPatchRuntime::default();
    assert!(!runtime.wants_no_sandbox_approval(AskForApproval::Never));
    assert!(runtime.wants_no_sandbox_approval(AskForApproval::OnFailure));
    assert!(runtime.wants_no_sandbox_approval(AskForApproval::UnlessTrusted));
}

#[test]
fn guardian_review_request_includes_full_patch_without_duplicate_changes() {
    let path = FilePath::from_text("/tmp/guardian-apply-patch-test.txt");
    let action = new_add_for_test("guardian-apply-patch-test.txt", "hello");
    let expected_cwd = action.cwd.clone();
    let expected_patch = action.patch.clone();
    let request: ApplyPatchRequest<PermissionProfile> = ApplyPatchRequest {
        action,
        file_paths: vec![path.clone()],
        changes: HashMap::from([(
            0,
            PatchChange {
                path,
                change: FileChange::Add {
                    content: "hello".to_string(),
                },
            },
        )]),
        exec_approval_requirement: ExecApprovalRequirement::NeedsApproval {
            reason: None,
            proposed_execpolicy_amendment: None,
        },
        sandbox_permissions: SandboxPermissions::UseDefault,
        additional_permissions: None,
        permissions_preapproved: false,
        timeout_ms: None,
        codex_exe: None,
    };

    let guardian_request = ApplyPatchRuntime::build_guardian_review_request(&request);

    assert_eq!(
        guardian_request,
        GuardianApprovalRequest::ApplyPatch {
            cwd: expected_cwd,
            files: request.file_paths,
            change_count: 1usize,
            patch: expected_patch,
        }
    );
}

#[test]
fn build_command_spec_uses_conservative_default_timeout() {
    let request = request("apply-patch-default-timeout-test.txt");

    let spec =
        ApplyPatchRuntime::build_command_spec(&request, no_exe()).expect("build command spec");

    assert_eq!(
        spec.expiration.timeout_ms(),
        Some(DEFAULT_APPLY_PATCH_TIMEOUT_MS)
    );
    assert_eq!(DEFAULT_APPLY_PATCH_TIMEOUT_MS, 300_000);
}

#[test]
fn build_command_spec_respects_explicit_timeout() {
    let explicit_timeout_ms = 42_000;
    let mut request = request("apply-patch-explicit-timeout-test.txt");
    request.timeout_ms = Some(explicit_timeout_ms);

    let spec =
        ApplyPatchRuntime::build_command_spec(&request, no_exe()).expect("build command spec");

    assert_eq!(spec.expiration.timeout_ms(), Some(explicit_timeout_ms));
}

#[test]
fn blocking_apply_patch_timeout_returns_timed_out_output() {
    let output = blocking_exec_result(WorkerEnd::TimedOut, Duration::from_millis(10))
        .expect("timeout output");

    assert!(output.timed_out);
    assert_eq!(output.exit_code, 124);
}

#[test]
fn blocking_apply_patch_timeout_preserves_successful_output() {
    let output = blocking_exec_result(
        WorkerEnd::Returned(Ok(ExecToolCallOutput {
            exit_code: 0,
            stdout: StreamOutput::new("ok".to_string()),
            stderr: StreamOutput::new(String::new()),
            aggregated_output: StreamOutput::new("ok".to_string()),
            duration: Duration::from_millis(1),
            timed_out: false,
        })),
        Duration::from_millis(50),
    )
    .expect("successful output");

    assert!(!output.timed_out);
    assert_eq!(output.exit_code, 0);
    assert_eq!(output.stdout.text, "ok");
}

#[test]
fn command_spec_is_exact() {
    let mut req = request("a.txt");
    req.sandbox_permissions = SandboxPermissions::WithAdditionalPermissions;
    req.additional_permissions = Some(PermissionProfile {
        network: Some(true),
        write: Some(vec!["/data".to_string()]),
    });
    let spec =
        ApplyPatchRuntime::build_command_spec(&req, Ok(FilePath::from_text("/bin/other"))).unwrap();
    assert_eq!(
        spec,
        CommandSpec {
            program: "/bin/echo".to_string(),
            args: vec![
                CODEX_CORE_APPLY_PATCH_ARG1.to_string(),
                req.action.patch.clone()
            ],
            cwd: FilePath::from_text("/tmp"),
            expiration: ExecExpiration::from(300_000),
            env: Vec::new(),
            sandbox_permissions: SandboxPermissions::WithAdditionalPermissions,
            additional_permissions: Some(PermissionProfile {
                network: Some(true),
                write: Some(vec!["/data".to_string()]),
            }),
            justification: None,
        }
    );
}

#[test]
fn command_spec_falls_back_to_the_current_executable() {
    let mut req = request("a.txt");
    req.codex_exe = None;
    let spec = ApplyPatchRuntime::build_command_spec(
        &req,
        Ok(FilePath::Bytes(vec![b'/', 0xff])),
    )
    .unwrap();
    assert_eq!(spec.program, "/\u{FFFD}");
    assert_eq!(
        ApplyPatchRuntime::build_command_spec(&req, no_exe()),
        Err(ToolError::Rejected(
            "failed to determine codex exe: no such file".to_string()
        ))
    );
}

#[test]
fn command_does_not_depend_on_the_rest_of_the_request() {
    let permissions = Some(PermissionProfile {
        network: Some(false),
        write: None,
    });
    let mut some = changing_request();
    some.permissions_preapproved = true;
    some.timeout_ms = Some(300_000);
    some.exec_approval_requirement = ExecApprovalRequirement::Forbidden {
        reason: "no".to_string(),
    };
    some.additional_permissions = permissions.clone();
    let mut other = request("a.txt");
    other.additional_permissions = permissions;
    assert_eq!(
        ApplyPatchRuntime::build_command_spec(&some, no_exe()),
        ApplyPatchRuntime::build_command_spec(&other, Ok(FilePath::from_text("/bin/other")))
    );
}

#[test]
fn run_and_command_take_equally_long() {
    let runtime = ApplyPatchRuntime::new();
    let mut req = request("a.txt");
    for (timeout_ms, expected) in [(None, 300_000), (Some(0), 0), (Some(u64::MAX), u64::MAX)] {
        req.timeout_ms = timeout_ms;
        assert_eq!(
            runtime.run(&req),
            PatchRun {
                patch: req.action.patch.clone(),
                timeout_ms: expected,
            }
        );
        let spec = ApplyPatchRuntime::build_command_spec(&req, no_exe()).unwrap();
        assert_eq!(spec.expiration.timeout_ms(), Some(expected));
        assert_eq!(ApplyPatchRuntime::timeout_ms(&req), expected);
    }
}

#[test]
fn stdout_stream_names_the_call() {
    let ctx = ToolCtx {
        sub_id: "sub".to_string(),
        call_id: "call".to_string(),
    };
    assert_eq!(
        ApplyPatchRuntime::stdout_stream(&ctx, 5u8),
        Some(StdoutStream {
            sub_id: "sub".to_string(),
            call_id: "call".to_string(),
            tx_event: 5u8,
        })
    );
}

#[test]
fn sandbox_is_left_to_the_policy_and_escalated() {
    let runtime = ApplyPatchRuntime::new();
    assert_eq!(runtime.sandbox_preference(), SandboxablePreference::Auto);
    assert!(runtime.escalate_on_failure());
}

#[test]
fn approval_is_keyed_by_the_files() {
    let runtime = ApplyPatchRuntime::new();
    assert_eq!(
        runtime.approval_keys(&changing_request()),
        vec![FilePath::from_text("/tmp/a.txt")]
    );
}

#[test]
fn exec_approval_requirement_is_what_was_decided_before() {
    let runtime = ApplyPatchRuntime::new();
    let mut req = request("a.txt");
    let decided = [
        ExecApprovalRequirement::Skip {
            bypass_sandbox: true,
            proposed_execpolicy_amendment: Some(ExecPolicyAmendment {
                command: vec!["ls".to_string()],
            }),
        },
        ExecApprovalRequirement::NeedsApproval {
            reason: Some("outside".to_string()),
            proposed_execpolicy_amendment: None,
        },
        ExecApprovalRequirement::Forbidden {
            reason: "no".to_string(),
        },
    ];
    for requirement in decided {
        req.exec_approval_requirement = requirement.clone();
        assert_eq!(runtime.exec_approval_requirement(&req), Some(requirement));
    }
}

#[test]
fn guardian_comes_before_an_earlier_approval() {
    let runtime = ApplyPatchRuntime::new();
    let mut req = changing_request();
    req.permissions_preapproved = true;
    for reason in [None, Some("sandbox denied")] {
        assert_eq!(
            runtime.start_approval(&req, &context(reason, true)),
            ApprovalStep::ReviewByGuardian {
                request: GuardianApprovalRequest::ApplyPatch {
                    cwd: FilePath::from_text("/tmp"),
                    files: vec![FilePath::from_text("/tmp/a.txt")],
                    change_count: 2,
                    patch: req.action.patch.clone(),
                },
                retry_reason: reason.map(|reason| reason.to_string()),
            }
        );
    }
}

#[test]
fn approved_before_is_not_asked_about() {
    let runtime = ApplyPatchRuntime::new();
    let mut req = changing_request();
    req.permissions_preapproved = true;
    assert_eq!(
        runtime.start_approval(&req, &context(None, false)),
        ApprovalStep::Decided(ReviewDecision::Approved)
    );
}

#[test]
fn retry_is_asked_about_afresh() {
    let runtime = ApplyPatchRuntime::new();
    for preapproved in [false, true] {
        let mut req = changing_request();
        req.permissions_preapproved = preapproved;
        assert_eq!(
            runtime.start_approval(&req, &context(Some("sandbox denied"), false)),
            ApprovalStep::AskUser(prompt(Some("sandbox denied")))
        );
    }
}

#[test]
fn first_try_is_asked_about_through_the_cache() {
    let runtime = ApplyPatchRuntime::new();
    assert_eq!(
        runtime.start_approval(&changing_request(), &context(None, false)),
        ApprovalStep::AskUnlessCached {
            tool: "apply_patch".to_string(),
            keys: vec![FilePath::from_text("/tmp/a.txt")],
            prompt: prompt(None),
        }
    );
}

#[test]
fn run_does_not_depend_on_the_rest_of_the_request() {
    let runtime = ApplyPatchRuntime::new();
    let mut some = changing_request();
    some.permissions_preapproved = true;
    some.codex_exe = None;
    some.sandbox_permissions = SandboxPermissions::RequireEscalated;
    some.timeout_ms = Some(300_000);
    assert_eq!(runtime.run(&some), runtime.run(&request("a.txt")));
}

#[test]
fn question_without_an_answer_is_denied() {
    assert_eq!(decision_or_default(None), ReviewDecision::Denied);
    assert_eq!(
        decision_or_default(Some(ReviewDecision::ApprovedForSession)),
        ReviewDecision::ApprovedForSession
    );
}

#[test]
fn patch_that_was_applied_exits_with_zero() {
    let output = process_apply_patch(true, b"Success\n", b"", Duration::from_millis(3)).unwrap();
    assert_eq!(
        output,
        ExecToolCallOutput {
            exit_code: 0,
            stdout: StreamOutput::new("Success\n".to_string()),
            stderr: StreamOutput::new(String::new()),
            aggregated_output: StreamOutput::new("Success\n".to_string()),
            duration: Duration::from_millis(3),
            timed_out: false,
        }
    );
}

#[test]
fn patch_that_was_not_applied_exits_with_one() {
    let output = process_apply_patch(false, b"a", b"\xffb", Duration::from_secs(1)).unwrap();
    assert_eq!(output.exit_code, 1);
    assert_eq!(output.stdout.text, "a");
    assert_eq!(output.stderr.text, "\u{FFFD}b");
    assert_eq!(output.aggregated_output.text, "a\u{FFFD}b");
    assert_eq!(output.duration, Duration::from_secs(1));
    assert!(!output.timed_out);
}

#[test]
fn streams_are_aggregated_one_after_the_other() {
    let output = patch_output(true, "out".to_string(), "err".to_string(), Duration::ZERO);
    assert_eq!(output.aggregated_output.text, "outerr");
}

#[test]
fn outcomes_differ_in_duration_only() {
    let mut some = process_apply_patch(true, b"a", b"b", Duration::from_millis(1)).unwrap();
    let other = process_apply_patch(true, b"a", b"b", Duration::from_millis(2)).unwrap();
    assert_ne!(some, other);
    some.duration = other.duration;
    assert_eq!(some, other);
}

#[test]
fn timeout_has_no_output() {
    assert_eq!(
        timeout_exec_output(Duration::from_millis(7)),
        ExecToolCallOutput {
            exit_code: 124,
            stdout: StreamOutput::new(String::new()),
            stderr: StreamOutput::new(String::new()),
            aggregated_output: StreamOutput::new(String::new()),
            duration: Duration::from_millis(7),
            timed_out: true,
        }
    );
}

#[test]
fn join_failure_rejects_the_call() {
    assert_eq!(
        blocking_exec_result(
            WorkerEnd::JoinFailed {
                error: "task 3 panicked".to_string(),
            },
            Duration::ZERO
        ),
        Err(ToolError::Rejected(
            "apply_patch worker join failed: task 3 panicked".to_string()
        ))
    );
    assert_eq!(
        blocking_exec_result(
            WorkerEnd::Returned(Err(ToolError::Codex("lost".to_string()))),
            Duration::ZERO
        ),
        Err(ToolError::Codex("lost".to_string()))
    );
}
