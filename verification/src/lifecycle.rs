//! The life of one spawn, as a state machine.
//!
//! Some units of work cannot be called from this crate: a task that has to
//! be awaited, a thread that has to be joined. For those the crate decides
//! and the caller acts. The caller starts a [`Spawn`], hands it each
//! [`Event`] as it happens and does what the [`Action`] that comes back
//! says, until that action is [`Action::Report`].
//!
//! A spawn rests in one of five stages. It is `Pending` until it is
//! launched and `Running` while the unit runs. When the unit has succeeded
//! or failed the verdict is fixed. A failed unit under a composition with an
//! error handler leads to `Handling`; a composition with a finalizer then
//! leads to `Finalizing`; and every spawn ends in `Done`.
use vstd::prelude::*;
use crate::failure::{join_error_text, tokio_error_to_string, AsyncSpawnResult};

verus! {

/// Which of the three compositions a spawn runs under.
#[derive(Clone, Copy, PartialEq, Eq, Debug, Structural)]
pub enum Composition {
    /// Capture only.
    Run,
    /// Capture, and an error handler for a failed unit.
    Catch,
    /// Capture, an error handler, and a finalizer that always runs.
    CatchFinally,
}

/// Whether a unit, a handler or a finalizer completed normally.
#[derive(Clone, Copy, PartialEq, Eq, Debug, Structural)]
pub enum Verdict {
    Success,
    Failure,
}

/// Where a spawn rests between two events.
#[derive(Clone, Copy, PartialEq, Eq, Debug, Structural)]
pub enum Stage {
    /// Not launched yet.
    Pending,
    /// The unit is running.
    Running,
    /// The unit failed and the error handler is running.
    Handling,
    /// The finalizer is running; the verdict on the unit is kept.
    Finalizing(Verdict),
    /// Nothing is left to do; the verdict on the unit is kept.
    Done(Verdict),
}

/// What happened outside, as the caller reports it. `M` is the type of the
/// description of a failure.
#[derive(PartialEq, Eq, Debug)]
pub enum Event<M> {
    /// The spawn was launched.
    Launched,
    /// The unit ran to normal completion.
    Succeeded,
    /// The unit terminated abnormally; the field describes the failure.
    Failed(M),
    /// The error handler has run; the field says how it ended.
    HandlerDone(Verdict),
    /// The finalizer has run; the field says how it ended.
    Finalized(Verdict),
}

/// What the caller has to do next.
#[derive(PartialEq, Eq, Debug)]
pub enum Action<M> {
    /// Run the unit behind a capture boundary.
    RunUnit,
    /// Run the error handler, behind a capture boundary, on this description.
    RunHandler(M),
    /// Run the finalizer behind a capture boundary.
    RunFinalizer,
    /// Stop, and report this verdict on the unit.
    Report(Verdict),
}

/// One spawn: the composition it runs under and the stage it has reached.
#[derive(Clone, Copy, PartialEq, Eq, Debug, Structural)]
pub struct Spawn {
    pub composition: Composition,
    pub stage: Stage,
}

impl Composition {
    /// Whether a failed unit is followed by the error handler.
    pub open spec fn has_handler(self) -> bool {
        self is Catch || self is CatchFinally
    }

    /// Whether the spawn ends with the finalizer.
    pub open spec fn has_finalizer(self) -> bool {
        self is CatchFinally
    }

    /// Whether a failed unit is followed by the error handler.
    pub fn handles(self) -> (yes: bool)
        ensures
            yes == self.has_handler(),
    {
        match self {
            Composition::Run => false,
            Composition::Catch => true,
            Composition::CatchFinally => true,
        }
    }

    /// Whether the spawn ends with the finalizer.
    pub fn finalizes(self) -> (yes: bool)
        ensures
            yes == self.has_finalizer(),
    {
        match self {
            Composition::Run => false,
            Composition::Catch => false,
            Composition::CatchFinally => true,
        }
    }
}

/// A spawn under `composition` that has not been launched.
pub open spec fn pending(composition: Composition) -> Spawn {
    Spawn { composition, stage: Stage::Pending }
}

/// The spawn `spawn` at another stage.
pub open spec fn at(spawn: Spawn, stage: Stage) -> Spawn {
    Spawn { composition: spawn.composition, stage }
}

/// What follows once the unit and, where it ran, the handler are through:
/// the finalizer if the composition has one, else the end.
pub open spec fn wind_up<M>(spawn: Spawn, verdict: Verdict) -> (Spawn, Action<M>) {
    if spawn.composition.has_finalizer() {
        (at(spawn, Stage::Finalizing(verdict)), Action::RunFinalizer)
    } else {
        (at(spawn, Stage::Done(verdict)), Action::Report(verdict))
    }
}

/// The transition relation: the spawn and the action that follow `event` at
/// `spawn`, or `None` where the stage does not await that event.
pub open spec fn next<M>(spawn: Spawn, event: Event<M>) -> Option<(Spawn, Action<M>)> {
    match (spawn.stage, event) {
        (Stage::Pending, Event::Launched) => Some((at(spawn, Stage::Running), Action::RunUnit)),
        (Stage::Running, Event::Succeeded) => Some(wind_up(spawn, Verdict::Success)),
        (Stage::Running, Event::Failed(description)) => if spawn.composition.has_handler() {
            Some((at(spawn, Stage::Handling), Action::RunHandler(description)))
        } else {
            Some(wind_up(spawn, Verdict::Failure))
        },
        (Stage::Handling, Event::HandlerDone(_)) => Some(wind_up(spawn, Verdict::Failure)),
        (Stage::Finalizing(verdict), Event::Finalized(_)) => Some(
            (at(spawn, Stage::Done(verdict)), Action::Report(verdict)),
        ),
        _ => None,
    }
}

impl Spawn {
    /// A spawn under `composition`, not launched yet.
    pub fn new(composition: Composition) -> (spawn: Spawn)
        ensures
            spawn == pending(composition),
    {
        Spawn { composition, stage: Stage::Pending }
    }

    /// The verdict on the unit, once it is fixed.
    pub open spec fn verdict(self) -> Option<Verdict> {
        match self.stage {
            Stage::Pending => None,
            Stage::Running => None,
            Stage::Handling => Some(Verdict::Failure),
            Stage::Finalizing(verdict) => Some(verdict),
            Stage::Done(verdict) => Some(verdict),
        }
    }

    /// The verdict on the unit, once it is fixed.
    pub fn fixed_verdict(&self) -> (verdict: Option<Verdict>)
        ensures
            verdict == self.verdict(),
    {
        match self.stage {
            Stage::Pending => None,
            Stage::Running => None,
            Stage::Handling => Some(Verdict::Failure),
            Stage::Finalizing(verdict) => Some(verdict),
            Stage::Done(verdict) => Some(verdict),
        }
    }

    /// Whether the spawn has ended.
    pub fn is_done(&self) -> (done: bool)
        ensures
            done == (self.stage is Done),
    {
        match self.stage {
            Stage::Done(_) => true,
            _ => false,
        }
    }

    fn wind_up<M>(&mut self, verdict: Verdict) -> (action: Action<M>)
        ensures
            (*final(self), action) == wind_up::<M>(*old(self), verdict),
    {
        if self.composition.finalizes() {
            self.stage = Stage::Finalizing(verdict);
            Action::RunFinalizer
        } else {
            self.stage = Stage::Done(verdict);
            Action::Report(verdict)
        }
    }

    /// Takes one event. Where the stage awaits it, the spawn moves on and
    /// the action to take comes back; where it does not, the spawn stays as
    /// it is and nothing comes back.
    pub fn step<M>(&mut self, event: Event<M>) -> (action: Option<Action<M>>)
        ensures
            match next(*old(self), event) {
                Some((after, issued)) => *final(self) == after && action == Some(issued),
                None => *final(self) == *old(self) && action is None,
            },
    {
        match (self.stage, event) {
            (Stage::Pending, Event::Launched) => {
                self.stage = Stage::Running;
                Some(Action::RunUnit)
            },
            (Stage::Running, Event::Succeeded) => Some(self.wind_up(Verdict::Success)),
            (Stage::Running, Event::Failed(description)) => {
                if self.composition.handles() {
                    self.stage = Stage::Handling;
                    Some(Action::RunHandler(description))
                } else {
                    Some(self.wind_up(Verdict::Failure))
                }
            },
            (Stage::Handling, Event::HandlerDone(_)) => Some(self.wind_up(Verdict::Failure)),
            (Stage::Finalizing(verdict), Event::Finalized(_)) => {
                self.stage = Stage::Done(verdict);
                Some(Action::Report(verdict))
            },
            _ => None,
        }
    }
}

/// The verdict on a completion result: success where it is `Ok`, failure
/// where it carries a failure value, of whatever kind.
pub open spec fn verdict_on<X>(result: Result<(), X>) -> Verdict {
    if result is Ok {
        Verdict::Success
    } else {
        Verdict::Failure
    }
}

/// Classifies a completion result as success or failure.
pub fn classify<X>(result: &Result<(), X>) -> (verdict: Verdict)
    ensures
        verdict == verdict_on(*result),
{
    match result {
        Ok(_) => Verdict::Success,
        Err(_) => Verdict::Failure,
    }
}

/// The event that reports how the unit of a spawn ended as a task: success
/// where the task was joined without failure, else failure, described by
/// the textual form of the join failure.
pub fn task_finished(result: &AsyncSpawnResult) -> (event: Event<String>)
    ensures
        result is Ok ==> event == Event::<String>::Succeeded,
        result matches Err(err) ==> (event matches Event::Failed(text) && text@ == join_error_text(
            *err,
        )),
{
    match result {
        Ok(_) => Event::Succeeded,
        Err(err) => Event::Failed(tokio_error_to_string(err)),
    }
}

} // verus!
