//! The multipart upload coordinator: the state machine that drives one
//! session from init through the bounded-concurrency part uploads to finish
//! or abort, tracking per-part completion and surfacing the first failure.

use vstd::prelude::*;
use crate::error::UFileError;
use crate::multipart::{AbortMultipartUploadApi, FinishMultipartFileApi};
use crate::object::{InitMultipartState, MultipartUploadState};

verus! {

/// Where one upload session stands. `Uploading` lasts until every admitted
/// part has resolved; `Committed` and `Aborted` are terminal.
#[derive(Debug, Clone, Copy, PartialEq, Eq, Structural)]
pub enum UploadPhase {
    Uploading,
    Finishing,
    Committed,
    Aborted,
}

/// One upload session's coordinator. It owns the session exclusively for the
/// lifetime of one transfer, collects each part's result as it resolves in
/// whatever order, and keeps the first error; it never moves to the finish
/// step while any part failed or is outstanding.
pub struct MultipartUploadCoordinator {
    /// The session the init call produced.
    pub session: InitMultipartState,
    /// How many parts the split produced.
    pub total_parts: usize,
    /// The parts that resolved successfully, in completion order.
    pub completed: Vec<MultipartUploadState>,
    /// How many parts resolved in failure.
    pub failed_parts: usize,
    /// The first failure, kept for the caller; later failures do not
    /// replace it.
    pub first_error: Option<UFileError>,
    /// Where the session stands.
    pub phase: UploadPhase,
}

impl MultipartUploadCoordinator {
    /// The coordinator's invariant: no more parts have resolved than exist,
    /// and an error is recorded exactly when some part failed.
    pub open spec fn wf(self) -> bool {
        &&& self.completed@.len() + self.failed_parts <= self.total_parts
        &&& (self.first_error is Some <==> self.failed_parts > 0)
    }

    /// A coordinator for a fresh session, with every part outstanding.
    pub fn new(session: InitMultipartState, total_parts: usize) -> (r: Self)
        ensures
            r.wf(),
            r.session == session,
            r.total_parts == total_parts,
            r.completed@.len() == 0,
            r.failed_parts == 0,
            r.first_error is None,
            r.phase == UploadPhase::Uploading,
    {
        MultipartUploadCoordinator {
            session,
            total_parts,
            completed: Vec::new(),
            failed_parts: 0,
            first_error: None,
            phase: UploadPhase::Uploading,
        }
    }

    /// How many parts have resolved, successfully or not.
    pub fn parts_resolved(&self) -> (r: usize)
        requires
            self.wf(),
        ensures
            r == self.completed@.len() + self.failed_parts,
    {
        self.completed.len() + self.failed_parts
    }

    /// Record one part's success. Parts may complete in any order; the
    /// finish step sorts them later.
    pub fn on_part_success(&mut self, part: MultipartUploadState)
        requires
            old(self).wf(),
            old(self).phase == UploadPhase::Uploading,
            old(self).completed@.len() + old(self).failed_parts < old(self).total_parts,
        ensures
            final(self).wf(),
            final(self).completed@ == old(self).completed@.push(part),
            final(self).failed_parts == old(self).failed_parts,
            final(self).first_error == old(self).first_error,
            final(self).phase == old(self).phase,
            final(self).session == old(self).session,
            final(self).total_parts == old(self).total_parts,
    {
        self.completed.push(part);
    }

    /// Record one part's failure. The first error is kept and surfaced to
    /// the caller; sibling in-flight parts are not cancelled and may still
    /// report success afterward.
    pub fn on_part_failure(&mut self, error: UFileError)
        requires
            old(self).wf(),
            old(self).phase == UploadPhase::Uploading,
            old(self).completed@.len() + old(self).failed_parts < old(self).total_parts,
        ensures
            final(self).wf(),
            final(self).completed@ == old(self).completed@,
            final(self).failed_parts == old(self).failed_parts + 1,
            final(self).first_error == match old(self).first_error {
                Some(first) => Some(first),
                None => Some(error),
            },
            final(self).phase == old(self).phase,
            final(self).session == old(self).session,
            final(self).total_parts == old(self).total_parts,
    {
        if self.first_error.is_none() {
            self.first_error = Some(error);
        }
        self.failed_parts = self.failed_parts + 1;
    }

    /// Whether the finish step may be taken: only while uploading, only once
    /// every part has resolved successfully, and never after any failure.
    pub fn can_finish(&self) -> (r: bool)
        requires
            self.wf(),
        ensures
            r <==> (self.phase == UploadPhase::Uploading && self.first_error is None
                && self.completed@.len() == self.total_parts),
    {
        match self.phase {
            UploadPhase::Uploading => self.first_error.is_none() && self.completed.len()
                == self.total_parts,
            _ => false,
        }
    }

    /// Enter the finish step: hand the collected parts to the finish call's
    /// descriptor. Only reachable when every part succeeded, so a session
    /// with a failed part can never be committed.
    pub fn finish_api(&mut self) -> (r: FinishMultipartFileApi)
        requires
            old(self).wf(),
            old(self).phase == UploadPhase::Uploading,
            old(self).first_error is None,
            old(self).completed@.len() == old(self).total_parts,
        ensures
            final(self).wf(),
            final(self).phase == UploadPhase::Finishing,
            final(self).session == old(self).session,
            final(self).completed@.len() == 0,
            r.state == old(self).session,
            r.part_states@ == old(self).completed@,
            r.new_object is None,
            r.metadata_directive is None,
            r.metadata@.len() == 0,
            r.security_token is None,
    {
        let mut parts: Vec<MultipartUploadState> = Vec::new();
        core::mem::swap(&mut parts, &mut self.completed);
        self.phase = UploadPhase::Finishing;
        FinishMultipartFileApi::new(self.session.clone(), parts)
    }

    /// Record that the finish call succeeded: the session is committed and
    /// must not be reused.
    pub fn commit(&mut self)
        requires
            old(self).wf(),
            old(self).phase == UploadPhase::Finishing,
        ensures
            final(self).wf(),
            final(self).phase == UploadPhase::Committed,
            final(self).session == old(self).session,
            final(self).completed@ == old(self).completed@,
            final(self).first_error == old(self).first_error,
    {
        self.phase = UploadPhase::Committed;
    }

    /// Abort the session: hand the abort call's descriptor over and mark the
    /// session aborted. Callable instead of finish — typically after a part
    /// failed — and terminal; aborting does not undo parts already committed
    /// server-side.
    pub fn abort_api(&mut self) -> (r: AbortMultipartUploadApi)
        requires
            old(self).wf(),
            old(self).phase == UploadPhase::Uploading || old(self).phase
                == UploadPhase::Finishing,
        ensures
            final(self).wf(),
            final(self).phase == UploadPhase::Aborted,
            final(self).session == old(self).session,
            final(self).completed@ == old(self).completed@,
            final(self).first_error == old(self).first_error,
            r.state == old(self).session,
            r.metadata@.len() == 0,
            r.security_token is None,
    {
        self.phase = UploadPhase::Aborted;
        AbortMultipartUploadApi::new(self.session.clone())
    }
}

} // verus!
