//! Relocating one log file: the decisions between the steps that touch the
//! file system. The caller performs each action and reports what came of it.

use crate::matcher::{capture_views, Capture};
use crate::render::{render, rendered, RenderError};
use crate::settings::{ConfigFile, ConfigView};
use crate::template::ItemView;
use crate::timestamp::{assume_launch_time, launch_time, ResolvedTimestamp, TimestampError};
use crate::calendar::CivilDateTime;
use vstd::prelude::*;

verus! {

/// The code with which the operating system refuses to rename a file onto
/// another volume.
pub const CROSSES_DEVICES_OS_CODE: i32 = 17;

/// The step of a relocation at which the file system failed.
#[derive(Clone, Copy, Debug, PartialEq, Eq, Structural)]
pub enum IoStage {
    /// Reading the timestamp.
    Read,
    /// Creating the output folder.
    Folder,
    /// Looking for the destination.
    Probe,
    /// Copying the content.
    Copy,
    /// Renaming the file.
    Rename,
    /// Removing the source after it was copied.
    Remove,
}

/// Why a file was not relocated.
#[derive(Clone, Copy, Debug, PartialEq, Eq, Structural)]
pub enum Failure {
    Timestamp(TimestampError),
    Render(RenderError),
    Io(IoStage),
    /// An event was reported that the step before did not ask for.
    Unexpected,
}

/// How the relocation of a file ended.
#[derive(Clone, Copy, Debug, PartialEq, Eq, Structural)]
pub enum Outcome {
    /// The file is held open by another process; nothing was done.
    Skipped,
    /// The destination is there already; nothing was done.
    AlreadyDone,
    /// The file was copied; whether its times were carried over.
    Copied { times_kept: bool },
    /// The file was moved.
    Moved,
    Failed(Failure),
}

/// Where a relocation stands.
#[derive(Clone, Copy, Debug, PartialEq, Eq, Structural)]
pub enum Phase {
    Opening,
    Timing,
    Ensuring(ResolvedTimestamp),
    Probing,
    Copying,
    Stamping,
    Renaming,
    FallingBack,
    Removing,
    Finished(Outcome),
}

/// What the caller is to do next.
#[derive(Clone, Copy, Debug, PartialEq, Eq, Structural)]
pub enum Action {
    /// Open the source for reading and writing, to see that no one holds it.
    OpenExclusive,
    /// Read the first `TIMESTAMP_LENGTH` bytes of the source.
    ReadPrefix,
    /// Read the creation time of the source.
    ReadCreationTime,
    /// Close the source and make sure that the output folder is there.
    EnsureFolder,
    /// See whether the destination is there.
    ProbeDestination,
    /// Copy the source to the destination.
    Copy,
    /// Set the creation and modification times of the copy to the source's.
    PropagateTimes,
    /// Rename the source to the destination.
    Rename,
    /// Create the destination anew, copy the source into it, and flush it.
    CopyFresh,
    /// Remove the source.
    RemoveSource,
    /// Nothing more: the relocation is over.
    Finish,
}

/// What came of an action.
#[derive(Clone, Debug, PartialEq, Eq)]
pub enum Event {
    /// The action was done.
    Done,
    /// The action failed, with the code of the operating system if any.
    Failed(Option<i32>),
    /// Whether the destination is there.
    Exists(bool),
    /// The first bytes of the source.
    Prefix(Vec<u8>),
    /// The creation time of the source, as local civil time and in UTC.
    CreationTime(CivilDateTime, CivilDateTime),
}

/// The mathematical value of an `Event`.
pub enum EventView {
    Done,
    Failed(Option<i32>),
    Exists(bool),
    Prefix(Seq<u8>),
    CreationTime(CivilDateTime, CivilDateTime),
}

impl View for Event {
    type V = EventView;

    open spec fn view(&self) -> EventView {
        match self {
            Event::Done => EventView::Done,
            Event::Failed(code) => EventView::Failed(*code),
            Event::Exists(there) => EventView::Exists(*there),
            Event::Prefix(bytes) => EventView::Prefix(bytes@),
            Event::CreationTime(local, utc) => EventView::CreationTime(*local, *utc),
        }
    }
}

/// What a relocation goes by: the output template, the captures of the
/// file's match, and the three switches of the configuration.
pub struct JobView {
    pub pattern: Seq<ItemView>,
    pub captures: Seq<(Seq<char>, Seq<char>)>,
    pub use_utc: bool,
    pub file_ctime: bool,
    pub keep_old: bool,
}

/// What the relocation of a file goes by under a configuration, the file
/// having matched with the given captures.
pub open spec fn job_of(config: ConfigView, captures: Seq<(Seq<char>, Seq<char>)>) -> JobView {
    JobView {
        pattern: config.output.pattern,
        captures,
        use_utc: config.output.utc_time,
        file_ctime: config.output.file_ctime,
        keep_old: config.source.keep_old,
    }
}

/// A relocation under way: its phase, and the name of the destination
/// once it is rendered (empty before).
#[derive(Debug)]
pub struct State {
    pub phase: Phase,
    pub name: String,
}

/// The mathematical value of a `State`.
pub struct StateView {
    pub phase: Phase,
    pub name: Seq<char>,
}

impl View for State {
    type V = StateView;

    open spec fn view(&self) -> StateView {
        StateView { phase: self.phase, name: self.name@ }
    }
}

/// A state and the action that leads on from it.
#[derive(Debug)]
pub struct Step {
    pub state: State,
    pub action: Action,
}

/// The mathematical value of a `Step`.
pub struct StepView {
    pub state: StateView,
    pub action: Action,
}

impl View for Step {
    type V = StepView;

    open spec fn view(&self) -> StepView {
        StepView { state: self.state@, action: self.action }
    }
}

/// The step that ends a relocation.
pub open spec fn finished(name: Seq<char>, outcome: Outcome) -> StepView {
    StepView { state: StateView { phase: Phase::Finished(outcome), name }, action: Action::Finish }
}

/// The step that goes on in `phase` with `action`.
pub open spec fn onward(name: Seq<char>, phase: Phase, action: Action) -> StepView {
    StepView { state: StateView { phase, name }, action }
}

/// The first step of every relocation: open the source.
pub open spec fn first_step() -> StepView {
    onward(Seq::empty(), Phase::Opening, Action::OpenExclusive)
}

/// The step after trying to rename, to copy afresh or to remove the source.
/// A rename that fails because the destination is on another volume falls
/// back on copying afresh and then removing the source; the source is
/// removed only after the copy is done.
pub open spec fn move_step(state: StateView, event: EventView) -> StepView {
    match (state.phase, event) {
        (Phase::Renaming, EventView::Done) => finished(state.name, Outcome::Moved),
        (Phase::Renaming, EventView::Failed(code)) => if code == Some(CROSSES_DEVICES_OS_CODE) {
            onward(state.name, Phase::FallingBack, Action::CopyFresh)
        } else {
            finished(state.name, Outcome::Failed(Failure::Io(IoStage::Rename)))
        },
        (Phase::FallingBack, EventView::Done) => onward(
            state.name,
            Phase::Removing,
            Action::RemoveSource,
        ),
        (Phase::FallingBack, EventView::Failed(_)) => finished(
            state.name,
            Outcome::Failed(Failure::Io(IoStage::Copy)),
        ),
        (Phase::Removing, EventView::Done) => finished(state.name, Outcome::Moved),
        (Phase::Removing, EventView::Failed(_)) => finished(
            state.name,
            Outcome::Failed(Failure::Io(IoStage::Remove)),
        ),
        _ => finished(state.name, Outcome::Failed(Failure::Unexpected)),
    }
}

/// The step after `event` in `state`.
pub open spec fn next_step(job: JobView, state: StateView, event: EventView) -> StepView {
    match (state.phase, event) {
        (Phase::Finished(outcome), _) => finished(state.name, outcome),
        (Phase::Opening, EventView::Done) => onward(
            state.name,
            Phase::Timing,
            if job.file_ctime {
                Action::ReadCreationTime
            } else {
                Action::ReadPrefix
            },
        ),
        (Phase::Opening, EventView::Failed(_)) => finished(state.name, Outcome::Skipped),
        (Phase::Timing, EventView::Prefix(bytes)) => if job.file_ctime {
            finished(state.name, Outcome::Failed(Failure::Unexpected))
        } else {
            match launch_time(bytes) {
                Ok(at) => onward(state.name, Phase::Ensuring(at), Action::EnsureFolder),
                Err(e) => finished(state.name, Outcome::Failed(Failure::Timestamp(e))),
            }
        },
        (Phase::Timing, EventView::CreationTime(local, utc)) => if job.file_ctime {
            onward(
                state.name,
                Phase::Ensuring(ResolvedTimestamp { civil: local, instant: Some(utc) }),
                Action::EnsureFolder,
            )
        } else {
            finished(state.name, Outcome::Failed(Failure::Unexpected))
        },
        (Phase::Timing, EventView::Failed(_)) => finished(
            state.name,
            Outcome::Failed(Failure::Io(IoStage::Read)),
        ),
        (Phase::Ensuring(at), EventView::Done) => match rendered(
            job.pattern,
            at,
            job.use_utc,
            job.captures,
        ) {
            Ok(name) => onward(name, Phase::Probing, Action::ProbeDestination),
            Err(e) => finished(state.name, Outcome::Failed(Failure::Render(e))),
        },
        (Phase::Ensuring(_), EventView::Failed(_)) => finished(
            state.name,
            Outcome::Failed(Failure::Io(IoStage::Folder)),
        ),
        (Phase::Probing, EventView::Exists(there)) => if there {
            finished(state.name, Outcome::AlreadyDone)
        } else if job.keep_old {
            onward(state.name, Phase::Copying, Action::Copy)
        } else {
            onward(state.name, Phase::Renaming, Action::Rename)
        },
        (Phase::Probing, EventView::Failed(_)) => finished(
            state.name,
            Outcome::Failed(Failure::Io(IoStage::Probe)),
        ),
        (Phase::Copying, EventView::Done) => onward(
            state.name,
            Phase::Stamping,
            Action::PropagateTimes,
        ),
        (Phase::Copying, EventView::Failed(_)) => finished(
            state.name,
            Outcome::Failed(Failure::Io(IoStage::Copy)),
        ),
        (Phase::Stamping, EventView::Done) => finished(
            state.name,
            Outcome::Copied { times_kept: true },
        ),
        (Phase::Stamping, EventView::Failed(_)) => finished(
            state.name,
            Outcome::Copied { times_kept: false },
        ),
        (Phase::Renaming, _) | (Phase::FallingBack, _) | (Phase::Removing, _) => move_step(
            state,
            event,
        ),
        _ => finished(state.name, Outcome::Failed(Failure::Unexpected)),
    }
}

fn finish(name: String, outcome: Outcome) -> (step: Step)
    ensures
        step@ == finished(name@, outcome),
{
    Step { state: State { phase: Phase::Finished(outcome), name }, action: Action::Finish }
}

fn go_on(name: String, phase: Phase, action: Action) -> (step: Step)
    ensures
        step@ == onward(name@, phase, action),
{
    Step { state: State { phase, name }, action }
}

/// Begins the relocation of a file: the source is to be opened for reading
/// and writing.
pub fn begin() -> (step: Step)
    ensures
        step@ == first_step(),
{
    go_on(String::new(), Phase::Opening, Action::OpenExclusive)
}

/// Decides how a move goes on after a rename, a fresh copy or the removal
/// of the source was tried.
pub fn move_file(state: State, event: &Event) -> (step: Step)
    ensures
        step@ == move_step(state@, event@),
{
    let State { phase, name } = state;
    match (phase, event) {
        (Phase::Renaming, Event::Done) => finish(name, Outcome::Moved),
        (Phase::Renaming, Event::Failed(code)) => {
            let crosses = match code {
                Some(code) => *code == CROSSES_DEVICES_OS_CODE,
                None => false,
            };
            if crosses {
                go_on(name, Phase::FallingBack, Action::CopyFresh)
            } else {
                finish(name, Outcome::Failed(Failure::Io(IoStage::Rename)))
            }
        },
        (Phase::FallingBack, Event::Done) => go_on(name, Phase::Removing, Action::RemoveSource),
        (Phase::FallingBack, Event::Failed(_)) => finish(
            name,
            Outcome::Failed(Failure::Io(IoStage::Copy)),
        ),
        (Phase::Removing, Event::Done) => finish(name, Outcome::Moved),
        (Phase::Removing, Event::Failed(_)) => finish(
            name,
            Outcome::Failed(Failure::Io(IoStage::Remove)),
        ),
        _ => finish(name, Outcome::Failed(Failure::Unexpected)),
    }
}

/// Decides how the relocation of a file goes on after `event`. A source
/// that cannot be opened is skipped; a destination that is there already
/// ends the relocation with nothing done; with `keep_old` the file is
/// copied and its times are carried over as far as possible, without it the
/// file is moved.
pub fn move_log_file(
    config: &ConfigFile,
    captures: &Vec<Capture>,
    state: State,
    event: &Event,
) -> (step: Step)
    ensures
        step@ == next_step(job_of(config@, capture_views(captures@)), state@, event@),
{
    let file_ctime = config.output().file_ctime();
    let keep_old = config.source().keep_old();
    match state.phase {
        Phase::Renaming | Phase::FallingBack | Phase::Removing => {
            return move_file(state, event);
        },
        _ => {},
    }
    let State { phase, name } = state;
    match (phase, event) {
        (Phase::Finished(outcome), _) => finish(name, outcome),
        (Phase::Opening, Event::Done) => go_on(
            name,
            Phase::Timing,
            if file_ctime {
                Action::ReadCreationTime
            } else {
                Action::ReadPrefix
            },
        ),
        (Phase::Opening, Event::Failed(_)) => finish(name, Outcome::Skipped),
        (Phase::Timing, Event::Prefix(bytes)) => {
            if file_ctime {
                finish(name, Outcome::Failed(Failure::Unexpected))
            } else {
                match assume_launch_time(bytes.as_slice()) {
                    Ok(at) => go_on(name, Phase::Ensuring(at), Action::EnsureFolder),
                    Err(e) => finish(name, Outcome::Failed(Failure::Timestamp(e))),
                }
            }
        },
        (Phase::Timing, Event::CreationTime(local, utc)) => {
            if file_ctime {
                go_on(
                    name,
                    Phase::Ensuring(ResolvedTimestamp { civil: *local, instant: Some(*utc) }),
                    Action::EnsureFolder,
                )
            } else {
                finish(name, Outcome::Failed(Failure::Unexpected))
            }
        },
        (Phase::Timing, Event::Failed(_)) => finish(
            name,
            Outcome::Failed(Failure::Io(IoStage::Read)),
        ),
        (Phase::Ensuring(at), Event::Done) => {
            match render(config.output().pattern(), &at, config.output().utc_time(), captures) {
                Ok(rendered) => go_on(rendered, Phase::Probing, Action::ProbeDestination),
                Err(e) => finish(name, Outcome::Failed(Failure::Render(e))),
            }
        },
        (Phase::Ensuring(_), Event::Failed(_)) => finish(
            name,
            Outcome::Failed(Failure::Io(IoStage::Folder)),
        ),
        (Phase::Probing, Event::Exists(there)) => {
            if *there {
                finish(name, Outcome::AlreadyDone)
            } else if keep_old {
                go_on(name, Phase::Copying, Action::Copy)
            } else {
                go_on(name, Phase::Renaming, Action::Rename)
            }
        },
        (Phase::Probing, Event::Failed(_)) => finish(
            name,
            Outcome::Failed(Failure::Io(IoStage::Probe)),
        ),
        (Phase::Copying, Event::Done) => go_on(name, Phase::Stamping, Action::PropagateTimes),
        (Phase::Copying, Event::Failed(_)) => finish(
            name,
            Outcome::Failed(Failure::Io(IoStage::Copy)),
        ),
        (Phase::Stamping, Event::Done) => finish(name, Outcome::Copied { times_kept: true }),
        (Phase::Stamping, Event::Failed(_)) => finish(name, Outcome::Copied { times_kept: false }),
        _ => finish(name, Outcome::Failed(Failure::Unexpected)),
    }
}

} // verus!
