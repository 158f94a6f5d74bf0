//! What holds of every relocation, whatever the file system reports.

use crate::relocate::{
    finished, first_step, next_step, Action, EventView, JobView, Outcome, Phase, StateView,
    StepView, CROSSES_DEVICES_OS_CODE,
};
use vstd::prelude::*;

verus! {

/// Whether an action copies, moves, removes or stamps a file.
pub open spec fn writes(action: Action) -> bool {
    action == Action::Copy || action == Action::PropagateTimes || action == Action::Rename
        || action == Action::CopyFresh || action == Action::RemoveSource
}

/// Whether a relocation in this phase has been told that the destination
/// is not there.
pub open spec fn cleared(phase: Phase) -> bool {
    phase == Phase::Copying || phase == Phase::Stamping || phase == Phase::Renaming || phase
        == Phase::FallingBack || phase == Phase::Removing
}

/// The steps that a relocation takes from `state` on as the events come in.
pub open spec fn run(job: JobView, state: StateView, events: Seq<EventView>) -> Seq<StepView>
    decreases events.len(),
{
    if events.len() == 0 {
        Seq::empty()
    } else {
        let step = next_step(job, state, events[0]);
        seq![step] + run(job, step.state, events.skip(1))
    }
}

/// A file that cannot be opened is skipped, which is no failure: whatever
/// the job and the code of the refusal, the relocation ends at once with
/// `Skipped` and asks for nothing more.
pub proof fn held_file_is_skipped(job: JobView, code: Option<i32>)
    ensures
        next_step(job, first_step().state, EventView::Failed(code)) == finished(
            Seq::empty(),
            Outcome::Skipped,
        ),
        !(Outcome::Skipped is Failed),
{
}

/// The source is removed only after its copy is done: a step asks to remove
/// the source only in answer to a fresh copy that succeeded.
pub proof fn source_removed_only_after_copy(job: JobView, state: StateView, event: EventView)
    requires
        next_step(job, state, event).action == Action::RemoveSource,
    ensures
        state.phase == Phase::FallingBack,
        event == EventView::Done,
{
}

/// A move falls back on copying only across volumes: a step asks for a
/// fresh copy only in answer to a rename that the operating system refused
/// with the code for another volume, and every rename refused so is
/// answered by a fresh copy.
pub proof fn fallback_only_across_volumes(job: JobView, state: StateView, event: EventView)
    ensures
        next_step(job, state, event).action == Action::CopyFresh <==> state.phase
            == Phase::Renaming && event == EventView::Failed(Some(CROSSES_DEVICES_OS_CODE)),
{
}

/// A fresh copy that fails leaves the source in place: the relocation ends
/// as failed without asking to remove it.
pub proof fn failed_copy_keeps_source(job: JobView, name: Seq<char>, code: Option<i32>)
    ensures
        next_step(
            job,
            StateView { phase: Phase::FallingBack, name },
            EventView::Failed(code),
        ).action == Action::Finish,
        next_step(
            job,
            StateView { phase: Phase::FallingBack, name },
            EventView::Failed(code),
        ).state.phase is Finished,
{
}

/// A relocation that is over stays over.
pub proof fn finished_stays(job: JobView, name: Seq<char>, outcome: Outcome, event: EventView)
    ensures
        next_step(job, StateView { phase: Phase::Finished(outcome), name }, event) == finished(
            name,
            outcome,
        ),
{
}

proof fn lemma_no_write(job: JobView, state: StateView, events: Seq<EventView>, at: int)
    requires
        !cleared(state.phase),
        forall|i: int| 0 <= i < events.len() ==> events[i] != EventView::Exists(false),
        0 <= at < run(job, state, events).len(),
    ensures
        !writes(run(job, state, events)[at].action),
    decreases events.len(),
{
    let step = next_step(job, state, events[0]);
    assert(events[0] != EventView::Exists(false));
    assert(!cleared(step.state.phase));
    assert(!writes(step.action));
    if at > 0 {
        let rest = events.skip(1);
        assert forall|i: int| 0 <= i < rest.len() implies rest[i] != EventView::Exists(false) by {
            assert(rest[i] == events[i + 1]);
        }
        lemma_no_write(job, step.state, rest, at - 1);
    }
}

/// Relocating again does nothing: in a relocation that is never told that
/// its destination is missing, no step copies, moves, removes or stamps a
/// file, whatever else is reported and in whatever order.
pub proof fn nothing_written_when_destination_exists(job: JobView, events: Seq<EventView>)
    requires
        forall|i: int| 0 <= i < events.len() ==> events[i] != EventView::Exists(false),
    ensures
        forall|at: int|
            0 <= at < run(job, first_step().state, events).len() ==> !writes(
                #[trigger] run(job, first_step().state, events)[at].action,
            ),
{
    assert forall|at: int| 0 <= at < run(job, first_step().state, events).len() implies !writes(
        #[trigger] run(job, first_step().state, events)[at].action,
    ) by {
        lemma_no_write(job, first_step().state, events, at);
    }
}

/// A destination that is there ends the relocation with nothing done.
pub proof fn existing_destination_ends(job: JobView, name: Seq<char>)
    ensures
        next_step(job, StateView { phase: Phase::Probing, name }, EventView::Exists(true))
            == finished(name, Outcome::AlreadyDone),
{
}

} // verus!
