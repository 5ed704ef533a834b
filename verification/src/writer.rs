//! Atomic writer: stage the payload next to the destination, flush it, then
//! publish it with a single rename. If the rename is blocked by an existing
//! destination, remove the destination and rename once more.
//!
//! The module verifies the writer's visibility guarantee over an explicit
//! model of the two paths involved. `FsModel` holds the complete content of
//! the destination and of the staging file, and `FaultPlan` says which step
//! of one `publish` call fails and how — a deterministic double for the
//! host's filesystem, so every failure interleaving can be driven by a test.
//! The surrounding code performs the same steps, in the same order, on the
//! real filesystem.

use vstd::prelude::*;

use crate::classify::{retryable_io_error, spec_retryable_io_error, IoErrorKind};

verus! {

/// Contents of the two paths the writer touches. `None` means the file is
/// absent; `Some` holds the file's complete bytes.
pub struct FsModel {
    /// The published artifact at the destination path.
    pub dest: Option<Vec<u8>>,
    /// The staging file, possibly holding a partial payload mid-write.
    pub staged: Option<Vec<u8>>,
}

/// Which step of one `publish` call fails, and with what condition.
/// `None` everywhere is a fault-free call.
pub struct FaultPlan {
    /// Creating the staging file fails.
    pub create: Option<IoErrorKind>,
    /// Writing the payload fails after this many bytes reached the staging file.
    pub write: Option<(usize, IoErrorKind)>,
    /// Flushing the staging file fails.
    pub flush: Option<IoErrorKind>,
    /// The first rename onto the destination fails.
    pub rename: Option<IoErrorKind>,
    /// The retried rename, after removing the destination, fails too.
    pub rename_retry: Option<IoErrorKind>,
}

/// A failed publish: the final condition seen, and whether the combined
/// failure is worth retrying.
#[derive(Clone, Copy, Debug, PartialEq, Eq, Structural)]
pub struct PublishError {
    pub kind: IoErrorKind,
    pub retryable: bool,
}

/// The first fault, if any, before the payload is fully staged and flushed.
pub open spec fn spec_stage_fault(plan: FaultPlan) -> Option<IoErrorKind> {
    if plan.create is Some {
        plan.create
    } else if plan.write is Some {
        Some((plan.write->Some_0).1)
    } else {
        plan.flush
    }
}

/// Whether one `publish` call under this plan succeeds: the payload must
/// stage cleanly, and at least one of the two renames must go through.
pub open spec fn spec_publish_ok(plan: FaultPlan) -> bool {
    &&& spec_stage_fault(plan) is None
    &&& (plan.rename is None || plan.rename_retry is None)
}

/// The destination's content after one `publish` call: the new payload on
/// success; untouched when the payload never staged; absent when the first
/// rename failed, the blocking destination was removed, and the retried
/// rename failed as well. Never a truncated intermediate.
pub open spec fn spec_publish_dest(
    old_dest: Option<Seq<u8>>,
    payload: Seq<u8>,
    plan: FaultPlan,
) -> Option<Seq<u8>> {
    if spec_publish_ok(plan) {
        Some(payload)
    } else if spec_stage_fault(plan) is Some {
        old_dest
    } else {
        None
    }
}

/// The error a failing plan reports: the staging fault as classified, or,
/// when both renames failed, the second condition, retryable when either
/// rename condition was.
pub open spec fn spec_publish_err(plan: FaultPlan) -> PublishError {
    match spec_stage_fault(plan) {
        Some(kind) => PublishError { kind, retryable: spec_retryable_io_error(kind) },
        None => {
            let first = plan.rename->Some_0;
            let second = plan.rename_retry->Some_0;
            PublishError {
                kind: second,
                retryable: spec_retryable_io_error(second) || spec_retryable_io_error(first),
            }
        },
    }
}

/// The destination's content, as a sequence of bytes.
pub open spec fn spec_dest_view(fs: FsModel) -> Option<Seq<u8>> {
    match fs.dest {
        Some(v) => Some(v@),
        None => None,
    }
}

/// Publish `payload` at the destination with a crash-safe visibility
/// transition, against the filesystem model and a fault plan. The
/// destination is never left truncated: it ends as the new payload, the old
/// complete content, or absent. Every reported error path cleans the
/// staging file up.
pub fn publish(fs: &mut FsModel, payload: &Vec<u8>, plan: &FaultPlan) -> (r: Result<
    (),
    PublishError,
>)
    ensures
        r is Ok <==> spec_publish_ok(*plan),
        spec_dest_view(*final(fs)) == spec_publish_dest(
            spec_dest_view(*old(fs)),
            payload@,
            *plan,
        ),
        final(fs).staged is None,
        r matches Err(e) ==> e == spec_publish_err(*plan),
{
    // Create the staging file. Even a failed call leaves no staging file of
    // its own behind.
    if let Some(kind) = plan.create {
        fs.staged = None;
        return Err(PublishError { kind, retryable: retryable_io_error(kind) });
    }
    fs.staged = Some(Vec::new());

    // Write the payload into it. A faulted write stops partway — only a
    // prefix reaches the staging file — but the cleanup below removes the
    // staging file before the error is reported, so no caller ever sees the
    // truncated intermediate, and the destination was never touched.
    if let Some((_written, kind)) = plan.write {
        fs.staged = None;
        return Err(PublishError { kind, retryable: retryable_io_error(kind) });
    }
    let mut full: Vec<u8> = Vec::new();
    let mut i: usize = 0;
    while i < payload.len()
        invariant
            i <= payload@.len(),
            full@ == payload@.subrange(0, i as int),
        decreases payload@.len() - i,
    {
        full.push(payload[i]);
        proof {
            assert(full@ =~= payload@.subrange(0, i + 1));
        }
        i = i + 1;
    }
    proof {
        assert(full@ =~= payload@);
    }
    fs.staged = Some(full);

    // Flush it fully.
    if let Some(kind) = plan.flush {
        fs.staged = None;
        return Err(PublishError { kind, retryable: retryable_io_error(kind) });
    }

    // One rename publishes the staging file onto the destination.
    if let Some(first) = plan.rename {
        // The platform refused to rename over the existing destination:
        // remove it and rename once more.
        fs.dest = None;
        if let Some(second) = plan.rename_retry {
            fs.staged = None;
            let retry_first = retryable_io_error(first);
            return Err(PublishError {
                kind: second,
                retryable: retryable_io_error(second) || retry_first,
            });
        }
    }
    let staged = fs.staged.take();
    match staged {
        Some(content) => {
            fs.dest = Some(content);
        },
        None => (),
    }
    Ok(())
}

/// Law: a successful publish leaves exactly the new payload at the
/// destination, byte for byte, whatever complete content stood there before.
pub proof fn lemma_publish_replaces_content(
    old_dest: Option<Seq<u8>>,
    payload: Seq<u8>,
    plan: FaultPlan,
)
    requires
        spec_publish_ok(plan),
    ensures
        spec_publish_dest(old_dest, payload, plan) == Some(payload),
{
}

/// Law: whatever the fault plan, the destination after `publish` is the old
/// complete content, the new complete payload, or absent — never a
/// truncated intermediate.
pub proof fn lemma_publish_never_truncates(
    old_dest: Option<Seq<u8>>,
    payload: Seq<u8>,
    plan: FaultPlan,
)
    ensures
        spec_publish_dest(old_dest, payload, plan) == old_dest || spec_publish_dest(
            old_dest,
            payload,
            plan,
        ) == Some(payload) || spec_publish_dest(old_dest, payload, plan) is None,
{
}

} // verus!
