//! What holds of every run of a spawn.
//!
//! A run is a sequence of events handed to a spawn, one after the other,
//! from the moment it is pending. The spawn answers each event with one
//! action, so the actions of a run stand at the same positions as the
//! events that called for them. The laws below are stated of all runs that
//! the spawn accepts, whatever the caller reports of the handler and of the
//! finalizer.
use vstd::prelude::*;
use crate::lifecycle::{at, next, pending, wind_up, Action, Composition, Event, Spawn, Stage, Verdict};

verus! {

/// Hands `events` to `spawn` in order. The result is the spawn at the end
/// and the actions it issued, or `None` if it did not await one of them.
pub open spec fn run<M>(spawn: Spawn, events: Seq<Event<M>>) -> Option<(Spawn, Seq<Action<M>>)>
    decreases events.len(),
{
    if events.len() == 0 {
        Some((spawn, Seq::empty()))
    } else {
        match next(spawn, events[0]) {
            None => None,
            Some((after, issued)) => match run(after, events.drop_first()) {
                None => None,
                Some((last, rest)) => Some((last, seq![issued] + rest)),
            },
        }
    }
}

/// The verdict that an event on the unit fixes.
pub open spec fn verdict_of<M>(outcome: Event<M>) -> Verdict {
    if outcome is Failed {
        Verdict::Failure
    } else {
        Verdict::Success
    }
}

/// The actions that end a spawn: the finalizer where the composition has
/// one, then the report.
pub open spec fn closing<M>(composition: Composition, verdict: Verdict) -> Seq<Action<M>> {
    if composition.has_finalizer() {
        seq![Action::RunFinalizer, Action::Report(verdict)]
    } else {
        seq![Action::Report(verdict)]
    }
}

/// Whether the error handler is to run: the unit failed and the composition
/// has a handler.
pub open spec fn handler_is_due<M>(composition: Composition, outcome: Event<M>) -> bool {
    outcome is Failed && composition.has_handler()
}

/// The actions that follow the unit: the handler, on the description of the
/// failure, where the unit failed and the composition has a handler; then
/// the closing actions.
pub open spec fn after_unit<M>(composition: Composition, outcome: Event<M>) -> Seq<Action<M>> {
    match outcome {
        Event::Failed(description) => if composition.has_handler() {
            seq![Action::RunHandler(description)] + closing(composition, Verdict::Failure)
        } else {
            closing(composition, Verdict::Failure)
        },
        _ => closing(composition, Verdict::Success),
    }
}

/// All the actions of a spawn under `composition` whose unit ended in
/// `outcome`, in order.
pub open spec fn plan<M>(composition: Composition, outcome: Event<M>) -> Seq<Action<M>> {
    seq![Action::RunUnit] + after_unit(composition, outcome)
}

/// Whether `events` is a run that a pending spawn under `composition`
/// accepts, with `actions` issued and `last` reached.
pub open spec fn accepts<M>(
    composition: Composition,
    events: Seq<Event<M>>,
    actions: Seq<Action<M>>,
    last: Spawn,
) -> bool {
    run(pending(composition), events) == Some((last, actions))
}

/// Whether `events` is a run that takes a pending spawn under `composition`
/// to its end, with `actions` issued and `verdict` reported.
pub open spec fn completes<M>(
    composition: Composition,
    events: Seq<Event<M>>,
    actions: Seq<Action<M>>,
    verdict: Verdict,
) -> bool {
    accepts(composition, events, actions, at(pending(composition), Stage::Done(verdict)))
}

/// A spawn that is done accepts only the empty run.
proof fn lemma_run_from_done<M>(spawn: Spawn, events: Seq<Event<M>>)
    requires
        spawn.stage is Done,
        run(spawn, events) is Some,
    ensures
        events.len() == 0,
        run(spawn, events) == Some((spawn, Seq::<Action<M>>::empty())),
{
    if events.len() > 0 {
        assert(next(spawn, events[0]) is None);
    }
}

/// A spawn whose finalizer is running accepts the empty run and the run of
/// the one event that says the finalizer is through, which ends it.
proof fn lemma_run_from_finalizing<M>(spawn: Spawn, verdict: Verdict, events: Seq<Event<M>>)
    requires
        spawn.stage == Stage::Finalizing(verdict),
        run(spawn, events) is Some,
    ensures
        events.len() <= 1,
        events.len() == 0 ==> run(spawn, events) == Some((spawn, Seq::<Action<M>>::empty())),
        events.len() == 1 ==> events[0] is Finalized && run(spawn, events) == Some(
            (at(spawn, Stage::Done(verdict)), seq![Action::<M>::Report(verdict)]),
        ),
{
    if events.len() > 0 {
        let ended = at(spawn, Stage::Done(verdict));
        assert(next(spawn, events[0]) is Some);
        assert(next(spawn, events[0]) == Some((ended, Action::<M>::Report(verdict))));
        lemma_run_from_done(ended, events.drop_first());
        assert(seq![Action::<M>::Report(verdict)] + Seq::<Action<M>>::empty() =~= seq![
            Action::<M>::Report(verdict),
        ]);
    }
}

/// Of a run that starts where `wind_up` left the spawn: together with the
/// action that `wind_up` issued, its actions are the closing actions or the
/// first of them.
proof fn lemma_run_after_wind_up<M>(spawn: Spawn, verdict: Verdict, events: Seq<Event<M>>)
    requires
        run(wind_up::<M>(spawn, verdict).0, events) is Some,
    ensures
        ({
            let (resumed, issued) = wind_up::<M>(spawn, verdict);
            let (last, rest) = run(resumed, events)->Some_0;
            let actions = seq![issued] + rest;
            let whole = closing::<M>(spawn.composition, verdict);
            &&& rest.len() == events.len()
            &&& actions.is_prefix_of(whole)
            &&& last.composition == spawn.composition
            &&& last.stage is Done <==> actions.len() == whole.len()
            &&& last.stage is Done ==> last.stage == Stage::Done(verdict)
            &&& !(last.stage is Done) ==> last.stage == Stage::Finalizing(verdict)
            &&& last.verdict() == Some(verdict)
            &&& forall|i: int| 0 <= i < events.len() ==> events[i] is Finalized
        }),
{
    let (resumed, issued) = wind_up::<M>(spawn, verdict);
    let (last, rest) = run(resumed, events)->Some_0;
    let whole = closing::<M>(spawn.composition, verdict);
    if spawn.composition.has_finalizer() {
        lemma_run_from_finalizing(resumed, verdict, events);
        if events.len() == 0 {
            assert(seq![issued] + rest =~= seq![issued]);
            assert(seq![issued] =~= whole.subrange(0, 1));
        } else {
            assert(seq![issued] + rest =~= whole);
            assert(whole =~= whole.subrange(0, 2));
        }
    } else {
        lemma_run_from_done(resumed, events);
        assert(seq![issued] + rest =~= whole);
        assert(whole =~= whole.subrange(0, 1));
    }
}

/// Of a run that starts while the handler is running: its actions are the
/// closing actions, as far as the run goes.
proof fn lemma_run_from_handling<M>(spawn: Spawn, events: Seq<Event<M>>)
    requires
        spawn.stage is Handling,
        run(spawn, events) is Some,
    ensures
        ({
            let (last, actions) = run(spawn, events)->Some_0;
            let whole = closing::<M>(spawn.composition, Verdict::Failure);
            &&& actions.len() == events.len()
            &&& actions.is_prefix_of(whole)
            &&& last.composition == spawn.composition
            &&& last.stage is Done <==> actions.len() == whole.len()
            &&& last.verdict() == Some(Verdict::Failure)
            &&& events.len() > 0 ==> events[0] is HandlerDone
            &&& forall|i: int| 1 <= i < events.len() ==> events[i] is Finalized
        }),
{
    let whole = closing::<M>(spawn.composition, Verdict::Failure);
    if events.len() == 0 {
        assert(Seq::<Action<M>>::empty() =~= whole.subrange(0, 0));
    } else {
        assert(next(spawn, events[0]) is Some);
        assert(next(spawn, events[0]) == Some(wind_up::<M>(spawn, Verdict::Failure)));
        let later = events.drop_first();
        lemma_run_after_wind_up(spawn, Verdict::Failure, later);
        assert forall|i: int| 1 <= i < events.len() implies events[i] is Finalized by {
            assert(events[i] == later[i - 1]);
        }
    }
}

/// Of a run that starts while the unit is running: its first event is the
/// outcome of the unit, and its actions are those that follow the unit for
/// that outcome, as far as the run goes.
proof fn lemma_run_from_running<M>(spawn: Spawn, events: Seq<Event<M>>)
    requires
        spawn.stage is Running,
        run(spawn, events) is Some,
        events.len() > 0,
    ensures
        ({
            let (last, actions) = run(spawn, events)->Some_0;
            let whole = after_unit(spawn.composition, events[0]);
            &&& actions.len() == events.len()
            &&& actions.is_prefix_of(whole)
            &&& last.composition == spawn.composition
            &&& last.stage is Done <==> actions.len() == whole.len()
            &&& last.verdict() == Some(verdict_of(events[0]))
            &&& events[0] is Succeeded || events[0] is Failed
            &&& forall|i: int|
                1 <= i < events.len() ==> match #[trigger] events[i] {
                    Event::HandlerDone(_) => i == 1 && handler_is_due(spawn.composition, events[0]),
                    Event::Finalized(_) => !(i == 1 && handler_is_due(spawn.composition, events[0])),
                    _ => false,
                }
        }),
{
    let later = events.drop_first();
    let whole = after_unit(spawn.composition, events[0]);
    assert(next(spawn, events[0]) is Some);
    assert forall|i: int| 1 <= i < events.len() implies events[i] == later[i - 1] by {}
    match events[0] {
        Event::Failed(description) => {
            if spawn.composition.has_handler() {
                let handling = at(spawn, Stage::Handling);
                assert(next(spawn, events[0]) == Some(
                    (handling, Action::RunHandler(description)),
                ));
                lemma_run_from_handling(handling, later);
                let (last, rest) = run(handling, later)->Some_0;
                let tail = closing::<M>(spawn.composition, Verdict::Failure);
                let head = seq![Action::RunHandler(description)];
                assert(rest =~= tail.subrange(0, rest.len() as int));
                assert(head + rest =~= (head + tail).subrange(0, rest.len() as int + 1));
            } else {
                assert(next(spawn, events[0]) == Some(wind_up::<M>(spawn, Verdict::Failure)));
                lemma_run_after_wind_up(spawn, Verdict::Failure, later);
            }
        },
        _ => {
            assert(events[0] is Succeeded);
            assert(next(spawn, events[0]) == Some(wind_up::<M>(spawn, Verdict::Success)));
            lemma_run_after_wind_up(spawn, Verdict::Success, later);
        },
    }
}

/// Every run that a pending spawn accepts follows the plan.
///
/// The first event is the launch and the second the outcome of the unit.
/// The actions issued are the plan for that outcome, as far as the run
/// goes; a run of the launch alone has issued the run of the unit. The
/// spawn is done exactly when the whole plan is issued, and the verdict it
/// then reports is the one that the outcome of the unit fixed.
pub proof fn law_runs_follow_the_plan<M>(
    composition: Composition,
    events: Seq<Event<M>>,
    actions: Seq<Action<M>>,
    last: Spawn,
)
    requires
        accepts(composition, events, actions, last),
    ensures
        actions.len() == events.len(),
        last.composition == composition,
        events.len() == 0 ==> last.stage is Pending,
        events.len() > 0 ==> events[0] is Launched && actions[0] is RunUnit,
        events.len() == 1 ==> last.stage is Running,
        events.len() > 1 ==> events[1] is Succeeded || events[1] is Failed,
        events.len() > 1 ==> actions.is_prefix_of(plan(composition, events[1])),
        events.len() > 1 ==> (last.stage is Done <==> actions.len() == plan(
            composition,
            events[1],
        ).len()),
        events.len() > 1 ==> last.verdict() == Some(verdict_of(events[1])),
        forall|i: int|
            2 <= i < events.len() ==> match #[trigger] events[i] {
                Event::HandlerDone(_) => i == 2 && handler_is_due(composition, events[1]),
                Event::Finalized(_) => !(i == 2 && handler_is_due(composition, events[1])),
                _ => false,
            },
{
    let start = pending(composition);
    if events.len() > 0 {
        let running = at(start, Stage::Running);
        let later = events.drop_first();
        assert(next(start, events[0]) is Some);
        assert(next(start, events[0]) == Some((running, Action::<M>::RunUnit)));
        let (reached, rest) = run(running, later)->Some_0;
        assert(actions == seq![Action::<M>::RunUnit] + rest);
        if later.len() > 0 {
            assert(events[1] == later[0]);
            lemma_run_from_running(running, later);
            let whole = after_unit(composition, events[1]);
            let head = seq![Action::<M>::RunUnit];
            assert(rest =~= whole.subrange(0, rest.len() as int));
            assert(head + rest =~= (head + whole).subrange(0, rest.len() as int + 1));
            assert forall|i: int| 2 <= i < events.len() implies match #[trigger] events[i] {
                Event::HandlerDone(_) => i == 2 && handler_is_due(composition, events[1]),
                Event::Finalized(_) => !(i == 2 && handler_is_due(composition, events[1])),
                _ => false,
            } by {
                assert(events[i] == later[i - 1]);
            }
        } else {
            assert(rest =~= Seq::<Action<M>>::empty());
        }
    }
}

/// Whether two actions are of one kind: both the run of the unit, both a
/// run of the handler, both the run of the finalizer, or both a report.
pub open spec fn same_kind<M>(one: Action<M>, other: Action<M>) -> bool {
    match one {
        Action::RunUnit => other is RunUnit,
        Action::RunHandler(_) => other is RunHandler,
        Action::RunFinalizer => other is RunFinalizer,
        Action::Report(_) => other is Report,
    }
}

/// A complete run issues the whole plan for the outcome of its unit, and
/// reports the verdict that this outcome fixed.
pub proof fn law_complete_runs_issue_the_plan<M>(
    composition: Composition,
    events: Seq<Event<M>>,
    actions: Seq<Action<M>>,
    verdict: Verdict,
)
    requires
        completes(composition, events, actions, verdict),
    ensures
        events.len() >= 2,
        events[1] is Succeeded || events[1] is Failed,
        actions == plan(composition, events[1]),
        verdict == verdict_of(events[1]),
        actions.last() == Action::<M>::Report(verdict),
{
    let last = at(pending(composition), Stage::Done(verdict));
    law_runs_follow_the_plan(composition, events, actions, last);
    let whole = plan(composition, events[1]);
    assert(actions =~= whole);
}

/// In no run, complete or not, is anything done twice: the unit runs at
/// most once, the handler at most once, the finalizer at most once, and at
/// most one verdict is reported.
pub proof fn law_nothing_runs_twice<M>(
    composition: Composition,
    events: Seq<Event<M>>,
    actions: Seq<Action<M>>,
    last: Spawn,
)
    requires
        accepts(composition, events, actions, last),
    ensures
        forall|i: int, j: int|
            0 <= i < j < actions.len() ==> !same_kind(#[trigger] actions[i], #[trigger] actions[j]),
{
    law_runs_follow_the_plan(composition, events, actions, last);
    if events.len() > 1 {
        let whole = plan(composition, events[1]);
        assert forall|i: int, j: int| 0 <= i < j < actions.len() implies !same_kind(
            #[trigger] actions[i],
            #[trigger] actions[j],
        ) by {
            assert(actions[i] == whole[i]);
            assert(actions[j] == whole[j]);
        }
    }
}

/// Under a composition with an error handler, a unit that fails is handled
/// exactly once: the handler is run at one place in the run, straight after
/// the unit, on the description that the unit failed with, and the verdict
/// reported is failure.
pub proof fn law_failure_is_handled_once<M>(
    composition: Composition,
    events: Seq<Event<M>>,
    actions: Seq<Action<M>>,
    verdict: Verdict,
    description: M,
)
    requires
        composition.has_handler(),
        completes(composition, events, actions, verdict),
        events.contains(Event::Failed(description)),
    ensures
        verdict == Verdict::Failure,
        actions.len() > 2,
        actions[0] is RunUnit,
        actions[1] == Action::RunHandler(description),
        forall|i: int| 0 <= i < actions.len() && #[trigger] actions[i] is RunHandler ==> i == 1,
        actions.last() == Action::<M>::Report(Verdict::Failure),
{
    let last = at(pending(composition), Stage::Done(verdict));
    law_runs_follow_the_plan(composition, events, actions, last);
    law_complete_runs_issue_the_plan(composition, events, actions, verdict);
    let at_index = choose|i: int| 0 <= i < events.len() && events[i] == Event::Failed(description);
    assert(at_index == 1) by {
        if at_index >= 2 {
            assert(!(events[at_index] is Failed));
        }
    }
}

/// If the unit succeeds the handler is never run, and the verdict reported
/// is success.
pub proof fn law_success_skips_the_handler<M>(
    composition: Composition,
    events: Seq<Event<M>>,
    actions: Seq<Action<M>>,
    verdict: Verdict,
)
    requires
        completes(composition, events, actions, verdict),
        events.contains(Event::<M>::Succeeded),
    ensures
        verdict == Verdict::Success,
        forall|i: int| 0 <= i < actions.len() ==> !(#[trigger] actions[i] is RunHandler),
{
    let last = at(pending(composition), Stage::Done(verdict));
    law_runs_follow_the_plan(composition, events, actions, last);
    law_complete_runs_issue_the_plan(composition, events, actions, verdict);
    let at_index = choose|i: int| 0 <= i < events.len() && events[i] == Event::<M>::Succeeded;
    assert(at_index == 1) by {
        if at_index >= 2 {
            assert(!(events[at_index] is Succeeded));
        }
    }
}

/// The handler runs if and only if the composition has one and the unit
/// failed.
pub proof fn law_handler_runs_iff_the_unit_failed<M>(
    composition: Composition,
    events: Seq<Event<M>>,
    actions: Seq<Action<M>>,
    verdict: Verdict,
)
    requires
        completes(composition, events, actions, verdict),
    ensures
        (exists|i: int| 0 <= i < actions.len() && #[trigger] actions[i] is RunHandler)
            <==> handler_is_due(composition, events[1]),
{
    law_complete_runs_issue_the_plan(composition, events, actions, verdict);
    if handler_is_due(composition, events[1]) {
        assert(actions[1] is RunHandler);
    }
}

/// Under a composition with a finalizer, the finalizer runs exactly once,
/// whatever became of the unit and of the handler, and after both: it is
/// the last action before the report, every run of the unit or of the
/// handler stands before it, and it is issued in answer to the event that
/// says that the unit succeeded or that the handler is through.
pub proof fn law_finalizer_runs_once_and_last<M>(
    composition: Composition,
    events: Seq<Event<M>>,
    actions: Seq<Action<M>>,
    verdict: Verdict,
)
    requires
        composition.has_finalizer(),
        completes(composition, events, actions, verdict),
    ensures
        actions.len() == events.len(),
        actions.len() >= 3,
        actions[actions.len() - 2] is RunFinalizer,
        forall|i: int|
            0 <= i < actions.len() && #[trigger] actions[i] is RunFinalizer ==> i == actions.len()
                - 2,
        forall|i: int|
            0 <= i < actions.len() && (#[trigger] actions[i] is RunUnit || actions[i] is RunHandler)
                ==> i < actions.len() - 2,
        events[1] is Succeeded ==> actions.len() == 3,
        events[1] is Failed ==> actions.len() == 4 && events[2] is HandlerDone,
        events.last() is Finalized,
{
    let last = at(pending(composition), Stage::Done(verdict));
    law_runs_follow_the_plan(composition, events, actions, last);
    law_complete_runs_issue_the_plan(composition, events, actions, verdict);
    if events[1] is Failed {
        assert(match events[2] {
            Event::HandlerDone(_) => true,
            Event::Finalized(_) => false,
            _ => false,
        });
        assert(match events[3] {
            Event::HandlerDone(_) => false,
            Event::Finalized(_) => true,
            _ => false,
        });
    } else {
        assert(match events[2] {
            Event::HandlerDone(_) => false,
            Event::Finalized(_) => true,
            _ => false,
        });
    }
}

/// What the handler and the finalizer end in changes nothing: two complete
/// runs under one composition whose units ended alike issue the same
/// actions and report the same verdict. In particular a handler that fails
/// neither keeps the finalizer from running nor alters the verdict.
pub proof fn law_later_failures_are_dropped<M>(
    composition: Composition,
    events: Seq<Event<M>>,
    actions: Seq<Action<M>>,
    verdict: Verdict,
    other_events: Seq<Event<M>>,
    other_actions: Seq<Action<M>>,
    other_verdict: Verdict,
)
    requires
        completes(composition, events, actions, verdict),
        completes(composition, other_events, other_actions, other_verdict),
        events[1] == other_events[1],
    ensures
        actions == other_actions,
        verdict == other_verdict,
{
    law_complete_runs_issue_the_plan(composition, events, actions, verdict);
    law_complete_runs_issue_the_plan(composition, other_events, other_actions, other_verdict);
}

/// A handler that itself fails is dropped: the verdict reported is still
/// failure, the unit's, and under a composition with a finalizer the
/// finalizer still runs, once, after the handler.
pub proof fn law_failed_handler_is_dropped<M>(
    composition: Composition,
    events: Seq<Event<M>>,
    actions: Seq<Action<M>>,
    verdict: Verdict,
)
    requires
        completes(composition, events, actions, verdict),
        events.contains(Event::<M>::HandlerDone(Verdict::Failure)),
    ensures
        events[1] is Failed,
        verdict == Verdict::Failure,
        actions == plan(composition, events[1]),
        composition.has_finalizer() ==> actions.len() == 4 && actions[2] is RunFinalizer
            && actions[1] is RunHandler,
{
    let last = at(pending(composition), Stage::Done(verdict));
    law_runs_follow_the_plan(composition, events, actions, last);
    law_complete_runs_issue_the_plan(composition, events, actions, verdict);
    let at_index = choose|i: int|
        0 <= i < events.len() && events[i] == Event::<M>::HandlerDone(Verdict::Failure);
    assert(at_index == 2 && handler_is_due(composition, events[1])) by {
        if at_index >= 2 {
            assert(match events[at_index] {
                Event::HandlerDone(_) => at_index == 2 && handler_is_due(composition, events[1]),
                Event::Finalized(_) => true,
                _ => false,
            });
        }
    }
}

/// Once a spawn is done it takes no further event.
pub proof fn law_done_is_terminal<M>(spawn: Spawn, event: Event<M>)
    requires
        spawn.stage is Done,
    ensures
        next(spawn, event) is None,
{
}

/// The verdict never changes once it is fixed: whatever event a spawn with
/// a verdict takes, the spawn that follows has the same verdict.
pub proof fn law_verdict_is_fixed<M>(spawn: Spawn, event: Event<M>)
    requires
        spawn.verdict() is Some,
        next(spawn, event) is Some,
    ensures
        next(spawn, event)->Some_0.0.verdict() == spawn.verdict(),
{
}

} // verus!
