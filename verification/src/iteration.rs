//! One iteration of the republishing loop: fetch the next item, wait,
//! upload its media, wait again, publish, advance the rotation cursor.
//!
//! The iteration is modelled as an explicit state machine so that its
//! failure contract is checkable: a failure at any point abandons the
//! iteration without advancing the rotation state, and — because media
//! identifiers recorded by an abandoned iteration are discarded — a
//! retry of the same index uploads its media afresh instead of reusing
//! orphaned identifiers.

use vstd::prelude::*;

verus! {

/// Where an iteration stands.
#[derive(Clone, Copy, PartialEq, Eq, Structural, Debug)]
pub enum IterationPhase {
    /// Resolving the index to an archived item.
    Fetching,
    /// Computing the target instant and waiting out the pre-upload wait.
    PreWait,
    /// Uploading the item's attachments.
    Uploading,
    /// Waiting out the remaining time before publishing.
    PostWait,
    /// Issuing the publish call(s).
    Publishing,
    /// Published; recording the advanced rotation cursor.
    Advancing,
    /// Terminal: the item was published and the cursor advanced.
    Completed,
    /// Terminal: a step failed; the cursor was not advanced and the
    /// same index will be retried.
    Abandoned,
}

/// The state of one pass over a single archive index.
pub struct Iteration {
    /// The archive index being processed.
    pub index: usize,
    /// Media identifiers uploaded by this iteration, empty until its own
    /// upload step records them.
    pub media_ids: Vec<u64>,
    pub phase: IterationPhase,
}

impl Iteration {
    /// Well-formedness: before the upload step has recorded identifiers,
    /// and after the iteration is abandoned, no media identifiers are
    /// held.
    pub open spec fn wf(self) -> bool {
        (self.phase == IterationPhase::Fetching || self.phase == IterationPhase::PreWait
            || self.phase == IterationPhase::Uploading || self.phase
            == IterationPhase::Abandoned) ==> self.media_ids@ == Seq::<u64>::empty()
    }

    /// Starts a fresh iteration for `index`: no media identifiers are
    /// carried in, whatever happened to earlier passes over this index.
    pub fn begin(index: usize) -> (it: Iteration)
        ensures
            it.index == index,
            it.phase == IterationPhase::Fetching,
            it.media_ids@ == Seq::<u64>::empty(),
            it.wf(),
    {
        let it = Iteration { index, media_ids: Vec::new(), phase: IterationPhase::Fetching };
        proof {
            assert(it.media_ids@ =~= Seq::<u64>::empty());
        }
        it
    }

    /// The item was fetched; the target instant is computed next and the
    /// pre-upload wait begins.
    pub fn item_fetched(&mut self)
        requires
            old(self).wf(),
            old(self).phase == IterationPhase::Fetching,
        ensures
            *final(self) == (Iteration { phase: IterationPhase::PreWait, ..*old(self) }),
            final(self).wf(),
    {
        self.phase = IterationPhase::PreWait;
    }

    /// The pre-upload wait has elapsed; the attachment uploads start.
    pub fn upload_started(&mut self)
        requires
            old(self).wf(),
            old(self).phase == IterationPhase::PreWait,
        ensures
            *final(self) == (Iteration { phase: IterationPhase::Uploading, ..*old(self) }),
            final(self).wf(),
    {
        self.phase = IterationPhase::Uploading;
    }

    /// Records the media identifiers this iteration's uploads produced —
    /// these and no others are what publishing may attach.
    pub fn media_uploaded(&mut self, ids: Vec<u64>)
        requires
            old(self).wf(),
            old(self).phase == IterationPhase::Uploading,
        ensures
            final(self).index == old(self).index,
            final(self).phase == IterationPhase::PostWait,
            final(self).media_ids@ == ids@,
            final(self).wf(),
    {
        self.media_ids = ids;
        self.phase = IterationPhase::PostWait;
    }

    /// The remaining wait has elapsed; publishing starts.
    pub fn wait_finished(&mut self)
        requires
            old(self).wf(),
            old(self).phase == IterationPhase::PostWait,
        ensures
            *final(self) == (Iteration { phase: IterationPhase::Publishing, ..*old(self) }),
            final(self).wf(),
    {
        self.phase = IterationPhase::Publishing;
    }

    /// The publish call(s) succeeded; the rotation cursor is to be
    /// advanced to this iteration's index.
    pub fn published(&mut self)
        requires
            old(self).wf(),
            old(self).phase == IterationPhase::Publishing,
        ensures
            *final(self) == (Iteration { phase: IterationPhase::Advancing, ..*old(self) }),
            final(self).wf(),
    {
        self.phase = IterationPhase::Advancing;
    }

    /// The advanced cursor was persisted; the iteration is complete.
    pub fn advanced(&mut self)
        requires
            old(self).wf(),
            old(self).phase == IterationPhase::Advancing,
        ensures
            *final(self) == (Iteration { phase: IterationPhase::Completed, ..*old(self) }),
            final(self).wf(),
    {
        self.phase = IterationPhase::Completed;
    }

    /// A step failed: the iteration is abandoned without advancing the
    /// rotation cursor, and any media identifiers it uploaded are
    /// discarded as orphaned.
    pub fn failed(&mut self)
        ensures
            final(self).index == old(self).index,
            final(self).phase == IterationPhase::Abandoned,
            final(self).media_ids@ == Seq::<u64>::empty(),
            final(self).wf(),
    {
        self.media_ids = Vec::new();
        self.phase = IterationPhase::Abandoned;
        proof {
            assert(self.media_ids@ =~= Seq::<u64>::empty());
        }
    }
}

/// Idempotent resume: an iteration that was abandoned — in particular
/// one that failed after its upload but before publishing — holds no
/// media identifiers, and neither does a fresh iteration before its own
/// upload step; since publishing attaches exactly the identifiers
/// recorded by [`Iteration::media_uploaded`] of the same iteration, a
/// retry of the index re-uploads instead of reusing orphaned
/// identifiers.
pub proof fn lemma_resume_discards_media(it: Iteration)
    requires
        it.wf(),
        it.phase == IterationPhase::Abandoned || it.phase == IterationPhase::Fetching
            || it.phase == IterationPhase::PreWait || it.phase == IterationPhase::Uploading,
    ensures
        it.media_ids@ == Seq::<u64>::empty(),
{
}

} // verus!
