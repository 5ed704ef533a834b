//! Completion tracker: the persisted record of which pipeline stages have
//! finished for the current period, and the self-healing completeness check
//! that refuses to trust its own flags without re-verifying the artifact.
//!
//! The surrounding code loads the record for the period, gathers the
//! artifact observation and the live-state answer, and persists the record
//! back after every change (write-through, never batched).

use vstd::prelude::*;

verus! {

/// Smallest byte count a plausible artifact can have.
pub const MIN_ARTIFACT_BYTES: u64 = 10240;

/// One pipeline stage whose completion is recorded.
#[derive(Clone, Copy, Debug, PartialEq, Eq, Structural)]
pub enum Stage {
    /// The payload was fetched and published.
    Downloaded,
    /// Optional post-processing ran over the artifact.
    PostProcessed,
    /// The artifact was put into effect on the host.
    Applied,
    /// The whole period's work finished.
    Finalized,
}

/// Persisted record for one work period. Created with all flags false when
/// the period starts; each flag moves false to true exactly once, driven by
/// its stage's success; the whole record is superseded when the period
/// rolls over.
#[derive(Clone, Debug)]
pub struct CompletionStatus {
    pub downloaded: bool,
    pub post_processed: bool,
    pub applied: bool,
    pub finalized: bool,
    /// When the payload was fetched, if it was.
    pub downloaded_at: Option<String>,
    /// When the period's work finished, if it did.
    pub finalized_at: Option<String>,
}

/// What the surrounding code observed about the artifact on disk.
#[derive(Clone, Copy, Debug, PartialEq, Eq, Structural)]
pub struct ArtifactObservation {
    /// The file exists at the expected path.
    pub exists: bool,
    /// Its size in bytes.
    pub len: u64,
    /// It decodes as a valid instance of the expected content type.
    pub decodable: bool,
}

/// An artifact counts only when it is present, at least plausibly large,
/// and independently decodable — not merely present.
pub open spec fn spec_artifact_valid(a: ArtifactObservation) -> bool {
    a.exists && a.len >= MIN_ARTIFACT_BYTES && a.decodable
}

/// Evaluate the verifier collaborator's observation.
pub fn artifact_valid(a: &ArtifactObservation) -> (r: bool)
    ensures
        r == spec_artifact_valid(*a),
{
    a.exists && a.len >= MIN_ARTIFACT_BYTES && a.decodable
}

/// The record a stage marking produces: the stage's flag set, its timestamp
/// taken on the first transition, everything else untouched. Re-marking an
/// already-true stage changes nothing — never an error.
pub open spec fn spec_record_stage(
    s: CompletionStatus,
    stage: Stage,
    now: Option<String>,
) -> CompletionStatus {
    match stage {
        Stage::Downloaded => {
            if s.downloaded {
                s
            } else {
                CompletionStatus { downloaded: true, downloaded_at: now, ..s }
            }
        },
        Stage::PostProcessed => {
            if s.post_processed {
                s
            } else {
                CompletionStatus { post_processed: true, ..s }
            }
        },
        Stage::Applied => {
            if s.applied {
                s
            } else {
                CompletionStatus { applied: true, ..s }
            }
        },
        Stage::Finalized => {
            if s.finalized {
                s
            } else {
                CompletionStatus { finalized: true, finalized_at: now, ..s }
            }
        },
    }
}

/// True when the record itself can be complete: a finalized period is one
/// whose artifact was applied.
pub open spec fn spec_wf(s: CompletionStatus) -> bool {
    s.finalized ==> s.applied
}

/// Whether the period counts as complete against reality: the record says
/// finalized, the artifact independently verifies, and the live-state
/// cross-check did not contradict it. A failed live-state query degrades to
/// "assume it matches" rather than blocking.
pub open spec fn spec_complete(
    s: CompletionStatus,
    artifact: ArtifactObservation,
    live_matches: Option<bool>,
) -> bool {
    s.finalized && spec_artifact_valid(artifact) && live_matches != Some(false)
}

impl CompletionStatus {
    /// A fresh record at the start of a period: nothing done yet.
    pub fn new() -> (r: CompletionStatus)
        ensures
            !r.downloaded && !r.post_processed && !r.applied && !r.finalized,
            r.downloaded_at is None && r.finalized_at is None,
            spec_wf(r),
    {
        CompletionStatus {
            downloaded: false,
            post_processed: false,
            applied: false,
            finalized: false,
            downloaded_at: None,
            finalized_at: None,
        }
    }

    /// Mark one stage done, with the timestamp to persist on a first
    /// transition. Monotonic and idempotent; the caller persists the record
    /// immediately after. Finalizing is only meaningful for an applied
    /// artifact, so a finalize mark requires the applied flag.
    pub fn record_stage(&mut self, stage: Stage, now: Option<String>)
        requires
            spec_wf(*old(self)),
            stage == Stage::Finalized ==> old(self).applied,
        ensures
            *final(self) == spec_record_stage(*old(self), stage, now),
            spec_wf(*final(self)),
    {
        match stage {
            Stage::Downloaded => {
                if !self.downloaded {
                    self.downloaded = true;
                    self.downloaded_at = now;
                }
            },
            Stage::PostProcessed => {
                if !self.post_processed {
                    self.post_processed = true;
                }
            },
            Stage::Applied => {
                if !self.applied {
                    self.applied = true;
                }
            },
            Stage::Finalized => {
                if !self.finalized {
                    self.finalized = true;
                    self.finalized_at = now;
                }
            },
        }
    }

    /// Decide whether this period's work is already done, trusting the
    /// record only as far as reality agrees. Returns `(complete, corrected)`.
    /// When the artifact fails verification or the live-state cross-check
    /// contradicts it although the record claimed the artifact was applied,
    /// the applied and finalized flags are corrected in place — `corrected`
    /// is true — and the caller persists the healed record. A record that is
    /// merely not finalized yet is left alone.
    pub fn is_complete(
        &mut self,
        artifact: &ArtifactObservation,
        live_matches: Option<bool>,
    ) -> (r: (bool, bool))
        ensures
            r.0 == spec_complete(*old(self), *artifact, live_matches),
            r.1 == (!(spec_artifact_valid(*artifact) && live_matches != Some(false)) && (old(
                self,
            ).applied || old(self).finalized)),
            r.1 ==> *final(self) == (CompletionStatus {
                applied: false,
                finalized: false,
                ..*old(self)
            }),
            !r.1 ==> *final(self) == *old(self),
            spec_wf(*old(self)) ==> spec_wf(*final(self)),
    {
        let valid = artifact_valid(artifact);
        let live_ok = match live_matches {
            Some(m) => m,
            None => true,
        };
        let complete = self.finalized && valid && live_ok;
        let disagreed = !(valid && live_ok) && (self.applied || self.finalized);
        if disagreed {
            // The record claims more than reality shows: heal it.
            self.applied = false;
            self.finalized = false;
        }
        (complete, disagreed)
    }
}

/// Law: marking the same stage twice leaves the record exactly as the first
/// marking left it, whatever timestamp the second marking carries.
pub proof fn lemma_record_stage_idempotent(
    s: CompletionStatus,
    stage: Stage,
    first: Option<String>,
    second: Option<String>,
)
    ensures
        spec_record_stage(spec_record_stage(s, stage, first), stage, second)
            == spec_record_stage(s, stage, first),
{
}

} // verus!
