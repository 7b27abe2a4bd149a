//! Several spawns at once.
//!
//! Spawns that run side by side share nothing: each is a value of its own.
//! Here that is stated of every interleaving. A schedule is a sequence of
//! events, each addressed to one of several spawns by its index; the events
//! of different spawns may come in any order. Whatever the order, each spawn
//! goes through the run that is made of its own events, and issues what it
//! would issue alone.
use vstd::prelude::*;
use crate::laws::{completes, law_failure_is_handled_once, run};
use crate::lifecycle::{at, next, pending, Action, Event, Spawn, Stage, Verdict};

verus! {

/// The events of `schedule` that are addressed to the spawn `which`, in
/// order.
pub open spec fn events_for<M>(schedule: Seq<(int, Event<M>)>, which: int) -> Seq<Event<M>>
    decreases schedule.len(),
{
    if schedule.len() == 0 {
        Seq::empty()
    } else if schedule[0].0 == which {
        seq![schedule[0].1] + events_for(schedule.drop_first(), which)
    } else {
        events_for(schedule.drop_first(), which)
    }
}

/// The actions in `issued` that the spawn `which` issued, in order.
pub open spec fn actions_for<M>(issued: Seq<(int, Action<M>)>, which: int) -> Seq<Action<M>>
    decreases issued.len(),
{
    if issued.len() == 0 {
        Seq::empty()
    } else if issued[0].0 == which {
        seq![issued[0].1] + actions_for(issued.drop_first(), which)
    } else {
        actions_for(issued.drop_first(), which)
    }
}

/// Hands each event of `schedule` to the spawn it is addressed to. The
/// result is the spawns at the end and the actions issued, each with the
/// index of the spawn that issued it, or `None` if an event is addressed to
/// no spawn or to one that did not await it.
pub open spec fn run_all<M>(spawns: Seq<Spawn>, schedule: Seq<(int, Event<M>)>) -> Option<
    (Seq<Spawn>, Seq<(int, Action<M>)>),
>
    decreases schedule.len(),
{
    if schedule.len() == 0 {
        Some((spawns, Seq::empty()))
    } else {
        let (which, event) = schedule[0];
        if 0 <= which < spawns.len() {
            match next(spawns[which], event) {
                None => None,
                Some((after, issued)) => match run_all(
                    spawns.update(which, after),
                    schedule.drop_first(),
                ) {
                    None => None,
                    Some((finals, rest)) => Some((finals, seq![(which, issued)] + rest)),
                },
            }
        } else {
            None
        }
    }
}

/// A run that starts with `event` is the step on `event` and then the run
/// of the rest.
proof fn lemma_run_unfolds<M>(spawn: Spawn, event: Event<M>, later: Seq<Event<M>>)
    ensures
        run(spawn, seq![event] + later) == match next(spawn, event) {
            None => None,
            Some((after, issued)) => match run(after, later) {
                None => None,
                Some((last, rest)) => Some((last, seq![issued] + rest)),
            },
        },
{
    let events = seq![event] + later;
    assert(events[0] == event);
    assert(events.drop_first() =~= later);
}

/// The actions of one spawn among issued actions that start with `action`
/// of the spawn `index`.
proof fn lemma_actions_for_unfolds<M>(
    index: int,
    action: Action<M>,
    later: Seq<(int, Action<M>)>,
    which: int,
)
    ensures
        actions_for(seq![(index, action)] + later, which) == if index == which {
            seq![action] + actions_for(later, which)
        } else {
            actions_for(later, which)
        },
{
    let issued = seq![(index, action)] + later;
    assert(issued[0] == (index, action));
    assert(issued.drop_first() =~= later);
}

/// Spawns do not interfere: in every interleaving that is accepted, each
/// spawn ends where the run of its own events takes it, and the actions it
/// issued are those of that run.
pub proof fn law_spawns_do_not_interfere<M>(
    spawns: Seq<Spawn>,
    schedule: Seq<(int, Event<M>)>,
    which: int,
)
    requires
        run_all(spawns, schedule) is Some,
        0 <= which < spawns.len(),
    ensures
        ({
            let (finals, issued) = run_all(spawns, schedule)->Some_0;
            &&& finals.len() == spawns.len()
            &&& run(spawns[which], events_for(schedule, which)) == Some(
                (finals[which], actions_for(issued, which)),
            )
        }),
    decreases schedule.len(),
{
    if schedule.len() > 0 {
        let (index, event) = schedule[0];
        let later = schedule.drop_first();
        let (after, action) = next(spawns[index], event)->Some_0;
        let moved = spawns.update(index, after);
        let (finals, rest) = run_all(moved, later)->Some_0;
        law_spawns_do_not_interfere(moved, later, which);
        lemma_actions_for_unfolds(index, action, rest, which);
        if index == which {
            lemma_run_unfolds(spawns[which], event, events_for(later, which));
        }
    }
}

/// No cross-talk: of several spawns that run side by side under a
/// composition with an error handler, each one whose unit failed has its
/// own handler run exactly once, on the description of its own failure,
/// however the events of the others are interleaved with its own.
pub proof fn law_each_failure_reaches_its_own_handler<M>(
    spawns: Seq<Spawn>,
    schedule: Seq<(int, Event<M>)>,
    which: int,
    description: M,
)
    requires
        run_all(spawns, schedule) is Some,
        0 <= which < spawns.len(),
        spawns[which].stage is Pending,
        spawns[which].composition.has_handler(),
        run_all(spawns, schedule)->Some_0.0[which].stage is Done,
        events_for(schedule, which).contains(Event::Failed(description)),
    ensures
        ({
            let own = actions_for(run_all(spawns, schedule)->Some_0.1, which);
            &&& own.len() > 2
            &&& own[0] is RunUnit
            &&& own[1] == Action::RunHandler(description)
            &&& forall|i: int| 0 <= i < own.len() && #[trigger] own[i] is RunHandler ==> i == 1
            &&& own.last() == Action::<M>::Report(Verdict::Failure)
        }),
{
    law_spawns_do_not_interfere(spawns, schedule, which);
    let (finals, issued) = run_all(spawns, schedule)->Some_0;
    let composition = spawns[which].composition;
    let own_events = events_for(schedule, which);
    let own = actions_for(issued, which);
    assert(spawns[which] == pending(composition));
    let verdict = finals[which].stage->Done_0;
    lemma_composition_is_kept(spawns[which], own_events);
    assert(finals[which] == at(pending(composition), Stage::Done(verdict)));
    assert(completes(composition, own_events, own, verdict));
    law_failure_is_handled_once(composition, own_events, own, verdict, description);
}

/// No run changes the composition of a spawn.
proof fn lemma_composition_is_kept<M>(spawn: Spawn, events: Seq<Event<M>>)
    requires
        run(spawn, events) is Some,
    ensures
        run(spawn, events)->Some_0.0.composition == spawn.composition,
    decreases events.len(),
{
    if events.len() > 0 {
        let (after, _) = next(spawn, events[0])->Some_0;
        lemma_composition_is_kept(after, events.drop_first());
    }
}

} // verus!
