//! What to wait for before a frame is complete.

use vstd::prelude::*;

verus! {

/// A fence that is not reached and that nothing can wait for.
#[derive(Clone, Copy, Debug, PartialEq, Eq, Structural)]
pub struct UnfinishedFence;

/// What the export of a fence has come to.
#[derive(Clone, Copy, Debug, PartialEq, Eq, Structural)]
pub enum FencePhase {
    /// It is not known yet whether the fence is reached.
    FirstLook,
    /// The fence was not reached, and is to be exported.
    Exporting,
    /// The fence could not be exported, but may have been reached meanwhile.
    SecondLook,
    Finished,
}

/// What to ask a fence. None of it blocks: nothing ever asks to wait for the fence.
#[derive(Clone, Copy, Debug, PartialEq, Eq, Structural)]
pub enum FenceRequest {
    /// Whether it is reached.
    Look,
    /// For a descriptor that becomes readable once it is reached.
    Export,
}

/// What a fence answers.
#[derive(Debug, PartialEq, Eq)]
pub enum FenceReply<Fd> {
    Reached(bool),
    Exported(Option<Fd>),
}

/// What to do next.
#[derive(Debug, PartialEq, Eq)]
pub enum FenceStep<Fd> {
    Ask(FenceRequest),
    /// The frame is complete, or complete once the descriptor becomes readable. Otherwise it must
    /// not be shown.
    Finished(Result<Option<Fd>, UnfinishedFence>),
}

/// The export of a fence that may still be pending.
///
/// A fence may be reached while it fails to be exported. Unfinished pixels are never to be
/// published, and nothing is to block, so a fence that is neither is an error.
#[derive(Clone, Copy, Debug, PartialEq, Eq, Structural)]
pub struct FenceExport {
    pub phase: FencePhase,
}

/// What becomes of a fence that was reached at first or not, was exported or not, and was reached
/// after that or not.
pub open spec fn fence_outcome<Fd>(first: bool, exported: Option<Fd>, second: bool) -> Result<
    Option<Fd>,
    UnfinishedFence,
> {
    if first {
        Ok(None)
    } else if exported is Some {
        Ok(exported)
    } else if second {
        Ok(None)
    } else {
        Err(UnfinishedFence)
    }
}

/// Begins to export a fence.
pub fn export_pending_fence() -> (begun: (FenceExport, FenceRequest))
    ensures
        begun.0.phase == FencePhase::FirstLook,
        begun.1 == FenceRequest::Look,
{
    (FenceExport { phase: FencePhase::FirstLook }, FenceRequest::Look)
}

impl FenceExport {
    /// Whether a reply is one that is waited for.
    pub open spec fn awaits<Fd>(self, reply: FenceReply<Fd>) -> bool {
        match self.phase {
            FencePhase::FirstLook => reply is Reached,
            FencePhase::Exporting => reply is Exported,
            FencePhase::SecondLook => reply is Reached,
            FencePhase::Finished => false,
        }
    }

    /// The state after a reply, and what to do next.
    pub open spec fn next<Fd>(self, reply: FenceReply<Fd>) -> (FenceExport, FenceStep<Fd>) {
        let finished = FenceExport { phase: FencePhase::Finished };
        match (self.phase, reply) {
            (FencePhase::FirstLook, FenceReply::Reached(false)) => (
                FenceExport { phase: FencePhase::Exporting },
                FenceStep::Ask(FenceRequest::Export),
            ),
            (FencePhase::Exporting, FenceReply::Exported(Some(fd))) => (
                finished,
                FenceStep::Finished(Ok(Some(fd))),
            ),
            (FencePhase::Exporting, FenceReply::Exported(None)) => (
                FenceExport { phase: FencePhase::SecondLook },
                FenceStep::Ask(FenceRequest::Look),
            ),
            (FencePhase::SecondLook, FenceReply::Reached(false)) => (
                finished,
                FenceStep::Finished(Err(UnfinishedFence)),
            ),
            _ => (finished, FenceStep::Finished(Ok(None))),
        }
    }

    /// Takes the fence's reply.
    pub fn step<Fd>(&mut self, reply: FenceReply<Fd>) -> (step: FenceStep<Fd>)
        requires
            old(self).awaits(reply),
        ensures
            (*final(self), step) == old(self).next(reply),
    {
        match reply {
            FenceReply::Exported(Some(fd)) => {
                self.phase = FencePhase::Finished;
                FenceStep::Finished(Ok(Some(fd)))
            },
            FenceReply::Exported(None) => {
                self.phase = FencePhase::SecondLook;
                FenceStep::Ask(FenceRequest::Look)
            },
            FenceReply::Reached(true) => {
                self.phase = FencePhase::Finished;
                FenceStep::Finished(Ok(None))
            },
            FenceReply::Reached(false) => {
                if matches!(self.phase, FencePhase::FirstLook) {
                    self.phase = FencePhase::Exporting;
                    FenceStep::Ask(FenceRequest::Export)
                } else {
                    self.phase = FencePhase::Finished;
                    FenceStep::Finished(Err(UnfinishedFence))
                }
            },
        }
    }
}

/// A frame counts as complete only if the last look at its fence saw it reached, whatever was
/// asked before.
pub proof fn only_a_reached_fence_needs_no_waiting<Fd>(export: FenceExport, reply: FenceReply<Fd>)
    requires
        export.awaits(reply),
    ensures
        export.next(reply).1 == FenceStep::<Fd>::Finished(Ok(None)) ==> reply
            == FenceReply::<Fd>::Reached(true),
{
}

/// However a fence answers, the export ends, after at most two looks and one export, with the
/// outcome of those answers. A fence that is reached while it fails to be exported is deliverable,
/// and a failed export alone says nothing about the fence.
pub proof fn fence_export_ends<Fd>(first: bool, exported: Option<Fd>, second: bool)
    ensures
        ({
            let begun = FenceExport { phase: FencePhase::FirstLook };
            let (looked, step) = begun.next(FenceReply::<Fd>::Reached(first));
            let (tried, retry) = looked.next(FenceReply::Exported(exported));
            let (done, last) = tried.next(FenceReply::<Fd>::Reached(second));
            let outcome = FenceStep::Finished(fence_outcome(first, exported, second));
            if first {
                step == outcome
            } else if exported is Some {
                step == FenceStep::<Fd>::Ask(FenceRequest::Export) && retry == outcome
            } else {
                &&& step == FenceStep::<Fd>::Ask(FenceRequest::Export)
                &&& retry == FenceStep::<Fd>::Ask(FenceRequest::Look)
                &&& last == outcome
            }
        }),
{
}

/// A frame whose fence is reached at first is complete, and nothing is exported. Otherwise it waits
/// for the descriptor, if there is one. Without a descriptor it is complete only if the fence is
/// reached meanwhile, and must not be shown if it is not.
pub proof fn unfinished_frames_are_not_shown<Fd>(first: bool, exported: Option<Fd>, second: bool)
    ensures
        ({
            let begun = FenceExport { phase: FencePhase::FirstLook };
            let (looked, step) = begun.next(FenceReply::<Fd>::Reached(first));
            let (tried, retry) = looked.next(FenceReply::Exported(exported));
            let (done, last) = tried.next(FenceReply::<Fd>::Reached(second));
            &&& first ==> step == FenceStep::<Fd>::Finished(Ok(None)) && looked.phase is Finished
            &&& !first ==> step == FenceStep::<Fd>::Ask(FenceRequest::Export)
            &&& !first && exported is Some ==> retry == FenceStep::Finished(Ok(exported))
                && tried.phase is Finished
            &&& !first && exported is None ==> retry == FenceStep::<Fd>::Ask(FenceRequest::Look)
            &&& !first && exported is None && second ==> last == FenceStep::<Fd>::Finished(Ok(None))
            &&& !first && exported is None && !second ==> last == FenceStep::<Fd>::Finished(
                Err(UnfinishedFence),
            )
            &&& !first && exported is None ==> done.phase is Finished
            &&& fence_outcome(first, exported, second) is Err <==> !first && exported is None
                && !second
        }),
{
}

/// The export begins with a look, and each reply leads on as it does.
pub proof fn fences_are_looked_at_first<Fd>(
    begun: (FenceExport, FenceRequest),
    export: &mut FenceExport,
    reply: FenceReply<Fd>,
    step: FenceStep<Fd>,
)
    requires
        call_ensures(export_pending_fence, (), begun),
        call_ensures(FenceExport::step::<Fd>, (export, reply), step),
        old(export).awaits(reply),
    ensures
        begun.0.phase is FirstLook,
        begun.1 is Look,
        reply == FenceReply::<Fd>::Reached(true) ==> step == FenceStep::<Fd>::Finished(Ok(None)),
        reply == FenceReply::<Fd>::Reached(false) && old(export).phase is FirstLook ==> step
            == FenceStep::<Fd>::Ask(FenceRequest::Export) && final(export).phase is Exporting,
        reply == FenceReply::<Fd>::Reached(false) && old(export).phase is SecondLook ==> step
            == FenceStep::<Fd>::Finished(Err(UnfinishedFence)),
        reply matches FenceReply::Exported(Some(fd)) ==> step == FenceStep::Finished(Ok(Some(fd))),
        reply == FenceReply::<Fd>::Exported(None) ==> step == FenceStep::<Fd>::Ask(
            FenceRequest::Look,
        ) && final(export).phase is SecondLook,
        step is Finished <==> final(export).phase is Finished,
{
}

/// Whatever a fence answers to what it was asked is taken, and nothing else is.
pub proof fn every_answer_is_taken<Fd>(export: FenceExport, reply: FenceReply<Fd>)
    ensures
        export.awaits(reply) <==> {
            ||| reply is Reached && (export.phase is FirstLook || export.phase is SecondLook)
            ||| reply is Exported && export.phase is Exporting
        },
{
}

} // verus!
