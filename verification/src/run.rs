//! Runs of the stage machine, and what holds of every one of them.

use vstd::prelude::*;
use crate::codes::{succeeded, WM_QUIT};
use crate::stage::{Event, Stage};

verus! {

/// The stage reached from `stage` by the events of `events`, first to last.
pub open spec fn run(stage: Stage, events: Seq<Event>) -> Stage
    decreases events.len(),
{
    if events.len() == 0 {
        stage
    } else {
        run(stage, events.drop_last()).after(events.last())
    }
}

/// Whether each event of `events` is admitted by the stage that the events
/// before it lead to from `stage`.
pub open spec fn admitted(stage: Stage, events: Seq<Event>) -> bool
    decreases events.len(),
{
    events.len() == 0 || {
        &&& admitted(stage, events.drop_last())
        &&& run(stage, events.drop_last()).admits(events.last())
    }
}

/// The events of an adapter search that sees `adapters` in turn, where the
/// probe of each returns the code at its position in `codes`.
pub open spec fn search_events(adapters: Seq<usize>, codes: Seq<i32>) -> Seq<Event> {
    Seq::new(
        2 * adapters.len(),
        |k: int|
            if k % 2 == 0 {
                Event::Created { handle: adapters[k / 2] }
            } else {
                Event::Probed { code: codes[k / 2] }
            },
    )
}

/// No admitted event takes bring-up back to an earlier place in its order.
pub proof fn lemma_stage_never_falls_back(stage: Stage, event: Event)
    requires
        stage.admits(event),
    ensures
        stage.after(event).rank() >= stage.rank(),
{
}

/// No run of admitted events ends at an earlier place than it began.
pub proof fn lemma_run_never_falls_back(stage: Stage, events: Seq<Event>)
    requires
        admitted(stage, events),
    ensures
        run(stage, events).rank() >= stage.rank(),
    decreases events.len(),
{
    if events.len() > 0 {
        lemma_run_never_falls_back(stage, events.drop_last());
        lemma_stage_never_falls_back(run(stage, events.drop_last()), events.last());
    }
}

/// The game ends in one way only: the message just dispatched was the quit
/// message. It then holds exactly what it had gathered.
pub proof fn lemma_ends_only_on_quit(stage: Stage, event: Event)
    requires
        stage.admits(event),
        stage.after(event) is Finished,
    ensures
        event is Done,
        stage matches Stage::Dispatch { made, message } && message == WM_QUIT
            && stage.after(event) == (Stage::Finished { made }),
{
}

/// Bring-up fails only on the failure of a call, with that call's code.
pub proof fn lemma_fails_only_on_failed_call(stage: Stage, event: Event)
    requires
        stage.admits(event),
        stage.after(event) is Failed,
    ensures
        event matches Event::Failed { code } && stage.after(event) == (Stage::Failed { code }),
{
}

/// Every failure of a call that the stage admits fails bring-up, with that
/// call's code: no failure is passed over.
pub proof fn lemma_failed_call_fails(stage: Stage, code: i32)
    requires
        stage.admits(Event::Failed { code }),
    ensures
        stage.after(Event::Failed { code }) == (Stage::Failed { code }),
{
}

/// A handle, once gathered, stays as it is for as long as bring-up has not
/// failed.
pub proof fn lemma_handles_are_kept(stage: Stage, event: Event)
    requires
        stage.admits(event),
        !(stage.after(event) is Failed),
    ensures
        stage.hwnd() is Some ==> stage.after(event).hwnd() == stage.hwnd(),
        stage.factory() is Some ==> stage.after(event).factory() == stage.factory(),
        stage.adapter() is Some ==> stage.after(event).adapter() == stage.adapter(),
        stage.device() is Some ==> stage.after(event).device() == stage.device(),
{
}

/// What a run of admitted events ends with is what it began with, handle by
/// handle, unless it ends in failure.
pub proof fn lemma_run_keeps_handles(stage: Stage, events: Seq<Event>)
    requires
        admitted(stage, events),
        !(run(stage, events) is Failed),
    ensures
        stage.hwnd() is Some ==> run(stage, events).hwnd() == stage.hwnd(),
        stage.factory() is Some ==> run(stage, events).factory() == stage.factory(),
        stage.adapter() is Some ==> run(stage, events).adapter() == stage.adapter(),
        stage.device() is Some ==> run(stage, events).device() == stage.device(),
    decreases events.len(),
{
    if events.len() > 0 {
        let before = run(stage, events.drop_last());
        lemma_run_keeps_handles(stage, events.drop_last());
        lemma_handles_are_kept(before, events.last());
    }
}

/// A search that sees one more adapter is the search before it, then the
/// enumeration of that adapter, then its probe.
proof fn lemma_search_goes_on_by_one_adapter(
    start: Stage,
    adapters: Seq<usize>,
    codes: Seq<i32>,
)
    requires
        adapters.len() == codes.len(),
        adapters.len() > 0,
    ensures
        ({
            let events = search_events(adapters, codes);
            let before = run(start, search_events(adapters.drop_last(), codes.drop_last()));
            let probing = before.after(Event::Created { handle: adapters.last() });
            &&& run(start, events) == probing.after(Event::Probed { code: codes.last() })
            &&& admitted(start, events) == {
                &&& admitted(start, search_events(adapters.drop_last(), codes.drop_last()))
                &&& before.admits(Event::Created { handle: adapters.last() })
                &&& probing.admits(Event::Probed { code: codes.last() })
            }
        }),
{
    let events = search_events(adapters, codes);
    let earlier = search_events(adapters.drop_last(), codes.drop_last());
    assert(events.drop_last().drop_last() =~= earlier);
    assert(events.drop_last().last() == Event::Created { handle: adapters.last() });
    assert(events.last() == Event::Probed { code: codes.last() });
    reveal_with_fuel(run, 3);
    reveal_with_fuel(admitted, 3);
}

/// A search whose probes all fail has come to the index after the last
/// adapter it saw.
pub proof fn lemma_failed_probes_move_on(
    hwnd: isize,
    factory: usize,
    adapters: Seq<usize>,
    codes: Seq<i32>,
)
    requires
        adapters.len() == codes.len(),
        adapters.len() <= u32::MAX,
        forall|i: int| 0 <= i < codes.len() ==> !succeeded(#[trigger] codes[i]),
    ensures
        ({
            let start = Stage::Adapter { hwnd, factory, index: 0 };
            let events = search_events(adapters, codes);
            &&& admitted(start, events)
            &&& run(start, events) == Stage::Adapter {
                hwnd,
                factory,
                index: adapters.len() as u32,
            }
        }),
    decreases adapters.len(),
{
    if adapters.len() > 0 {
        let start = Stage::Adapter { hwnd, factory, index: 0 };
        lemma_failed_probes_move_on(hwnd, factory, adapters.drop_last(), codes.drop_last());
        lemma_search_goes_on_by_one_adapter(start, adapters, codes);
    }
}

/// The adapter search takes the first adapter whose probe succeeds: if the
/// probes of all adapters but the last fail and the probe of the last
/// succeeds, the device is made on the last, with window and factory as they
/// were.
pub proof fn lemma_search_takes_first_passing_adapter(
    hwnd: isize,
    factory: usize,
    adapters: Seq<usize>,
    codes: Seq<i32>,
)
    requires
        adapters.len() == codes.len(),
        0 < adapters.len() <= u32::MAX,
        forall|i: int| 0 <= i < codes.len() - 1 ==> !succeeded(#[trigger] codes[i]),
        succeeded(codes.last()),
    ensures
        ({
            let start = Stage::Adapter { hwnd, factory, index: 0 };
            let events = search_events(adapters, codes);
            &&& admitted(start, events)
            &&& run(start, events) == Stage::Device { hwnd, factory, adapter: adapters.last() }
        }),
{
    let start = Stage::Adapter { hwnd, factory, index: 0 };
    lemma_failed_probes_move_on(hwnd, factory, adapters.drop_last(), codes.drop_last());
    lemma_search_goes_on_by_one_adapter(start, adapters, codes);
}

} // verus!
