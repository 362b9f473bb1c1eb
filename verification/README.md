# codex_core

The decisions behind two parts of a coding session, verified with Verus.

A turn may change files, so before its tools run the session takes a snapshot of the repository,
as a commit that is on no branch. The tools wait for it at a gate, but not for ever. And a patch
that was found safe is applied by a runtime that says how long it may take, who approves it, and
what its outcome is.

- `src/ghost_snapshot.rs`: the snapshot task as a function from state and event to actions
- `src/snapshot_laws.rs`: what holds of every run of it
- `src/snapshot_warnings.rs`: the warnings about what a snapshot left out
- `src/patch_changes.rs`: what a patch does, file by file
- `src/patch_request.rs`: a request to apply a patch
- `src/apply_patch.rs`: the runtime: command, approval, timeout
- `src/exec_output.rs`: the outcome of a run
- `src/path.rs`, `src/text.rs`: paths, numbers and lists as text
- `app/`: the tokio side, which performs the actions and hands back the events
