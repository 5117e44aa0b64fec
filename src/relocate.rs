//! Moving a file: an atomic rename first, and where that fails a copy
//! followed by the removal of the source. The caller performs each step on
//! the file system and reports how it went; the decisions are made here.
use vstd::prelude::*;

verus! {

/// Why a file could not be moved.
#[derive(Debug, Clone, PartialEq, Eq)]
pub enum RelocError {
    /// The source does not exist.
    SourceMissing,
    /// The source exists but is not a regular file.
    NotAFile,
    /// A copy or a removal failed, with the system's message.
    Io(String),
}

/// The next thing to do, or how the move ended.
#[derive(Debug, Clone, PartialEq, Eq)]
pub enum RelocStep {
    /// Look at the source.
    Inspect,
    /// Rename the source to the destination.
    Rename,
    /// Copy the source to the destination.
    Copy,
    /// Remove the source, now that the destination holds its copy.
    RemoveSource,
    /// The file has been moved.
    Moved,
    /// The move failed.
    Failed(RelocError),
}

/// What came of the step just performed.
#[derive(Debug, Clone, PartialEq, Eq)]
pub enum RelocEvent {
    /// The source was looked at.
    Inspected { exists: bool, is_file: bool },
    /// The step succeeded.
    Succeeded,
    /// The step failed, with the system's message.
    Failed(String),
}

/// The step after `step` once `event` has been reported. An event that does
/// not answer the step, or any event after the move has ended, changes
/// nothing.
pub open spec fn next_step(step: RelocStep, event: RelocEvent) -> RelocStep {
    match (step, event) {
        (RelocStep::Inspect, RelocEvent::Inspected { exists, is_file }) => if !exists {
            RelocStep::Failed(RelocError::SourceMissing)
        } else if !is_file {
            RelocStep::Failed(RelocError::NotAFile)
        } else {
            RelocStep::Rename
        },
        (RelocStep::Rename, RelocEvent::Succeeded) => RelocStep::Moved,
        (RelocStep::Rename, RelocEvent::Failed(_)) => RelocStep::Copy,
        (RelocStep::Copy, RelocEvent::Succeeded) => RelocStep::RemoveSource,
        (RelocStep::Copy, RelocEvent::Failed(m)) => RelocStep::Failed(RelocError::Io(m)),
        (RelocStep::RemoveSource, RelocEvent::Succeeded) => RelocStep::Moved,
        (RelocStep::RemoveSource, RelocEvent::Failed(m)) => RelocStep::Failed(RelocError::Io(m)),
        (s, _) => s,
    }
}

/// The step reached from `step` through `events`, in order.
pub open spec fn run_steps(step: RelocStep, events: Seq<RelocEvent>) -> RelocStep
    decreases events.len(),
{
    if events.len() == 0 {
        step
    } else {
        run_steps(next_step(step, events[0]), events.skip(1))
    }
}

/// Decides what follows `step` once `event` has been reported.
pub fn relocate_next(step: RelocStep, event: RelocEvent) -> (r: RelocStep)
    ensures
        r == next_step(step, event),
{
    match (step, event) {
        (RelocStep::Inspect, RelocEvent::Inspected { exists, is_file }) => if !exists {
            RelocStep::Failed(RelocError::SourceMissing)
        } else if !is_file {
            RelocStep::Failed(RelocError::NotAFile)
        } else {
            RelocStep::Rename
        },
        (RelocStep::Rename, RelocEvent::Succeeded) => RelocStep::Moved,
        (RelocStep::Rename, RelocEvent::Failed(_)) => RelocStep::Copy,
        (RelocStep::Copy, RelocEvent::Succeeded) => RelocStep::RemoveSource,
        (RelocStep::Copy, RelocEvent::Failed(m)) => RelocStep::Failed(RelocError::Io(m)),
        (RelocStep::RemoveSource, RelocEvent::Succeeded) => RelocStep::Moved,
        (RelocStep::RemoveSource, RelocEvent::Failed(m)) => RelocStep::Failed(RelocError::Io(m)),
        (s, _) => s,
    }
}

/// A move that has ended stays as it ended, whatever is reported after.
pub proof fn lemma_finished_is_final(step: RelocStep, events: Seq<RelocEvent>)
    requires
        step is Moved || step is Failed,
    ensures
        run_steps(step, events) == step,
    decreases events.len(),
{
    if events.len() > 0 {
        lemma_finished_is_final(next_step(step, events[0]), events.skip(1));
    }
}

/// Each step is entered only from the step before it in the protocol: the
/// rename only after the source was found to be a file, the copy only after
/// the rename failed, the removal of the source only after the copy
/// succeeded, and the move ends in success only after the rename, or the
/// removal that follows a copy, succeeded.
pub proof fn lemma_step_order(step: RelocStep, event: RelocEvent)
    ensures
        ({
            let n = next_step(step, event);
            &&& n is Rename && !(step is Rename) ==> step is Inspect && event == (
            RelocEvent::Inspected { exists: true, is_file: true })
            &&& n is Copy && !(step is Copy) ==> step is Rename && event is Failed
            &&& n is RemoveSource && !(step is RemoveSource) ==> step is Copy && event is Succeeded
            &&& n is Moved && !(step is Moved) ==> (step is Rename || step is RemoveSource)
                && event is Succeeded
        }),
{
}

/// A failed copy ends the move with the copy's error, and the source is
/// never removed after it: the fallback loses no data.
pub proof fn lemma_failed_copy_keeps_source(m: String, events: Seq<RelocEvent>)
    ensures
        run_steps(RelocStep::Copy, seq![RelocEvent::Failed(m)] + events) == RelocStep::Failed(
            RelocError::Io(m),
        ),
{
    let evs = seq![RelocEvent::Failed(m)] + events;
    assert(evs.skip(1) =~= events);
    lemma_finished_is_final(RelocStep::Failed(RelocError::Io(m)), events);
}

/// A failed rename falls back to a copy.
pub proof fn lemma_failed_rename_copies(m: String)
    ensures
        next_step(RelocStep::Rename, RelocEvent::Failed(m)) == RelocStep::Copy,
{
}

} // verus!
