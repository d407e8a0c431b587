use vstd::prelude::*;

use crate::worker::{accepts, next_report, Report, next_action, next_phase, phase_after, ActionView, Event, PhaseView};

verus! {

/// The actions that a worker with poll interval `interval` takes, starting in
/// phase `p`, over the events `evs`, up to the first event that the phase it
/// is in does not accept.
pub open spec fn run(p: PhaseView, evs: Seq<Event>, interval: u64) -> Seq<ActionView>
    decreases evs.len(),
{
    if evs.len() == 0 || !accepts(p, evs[0]) {
        seq![]
    } else {
        seq![next_action(p, evs[0], interval)] + run(next_phase(p, evs[0]), evs.drop_first(), interval)
    }
}

/// The action taken in a phase leads into the phase that the machine is in
/// next.
pub proof fn lemma_action_leads_to_next_phase(p: PhaseView, e: Event, interval: u64)
    requires
        accepts(p, e),
    ensures
        phase_after(next_action(p, e, interval)) == next_phase(p, e),
{
}

/// In a run, each action after the first is the one that the phase entered
/// by its predecessor takes on the event at its place.
pub proof fn lemma_run_successor(p: PhaseView, evs: Seq<Event>, interval: u64, i: int)
    requires
        0 <= i,
        i + 1 < run(p, evs, interval).len(),
    ensures
        run(p, evs, interval).len() <= evs.len(),
        accepts(phase_after(run(p, evs, interval)[i]), evs[i + 1]),
        run(p, evs, interval)[i + 1] == next_action(
            phase_after(run(p, evs, interval)[i]),
            evs[i + 1],
            interval,
        ),
    decreases evs.len(),
{
    lemma_run_len(p, evs, interval);
    let q = next_phase(p, evs[0]);
    let rest = evs.drop_first();
    lemma_action_leads_to_next_phase(p, evs[0], interval);
    if i == 0 {
        assert(rest[0] == evs[1]);
        assert(accepts(q, rest[0]));
    } else {
        lemma_run_successor(q, rest, interval, i - 1);
        assert(rest[i] == evs[i + 1]);
    }
}

/// A run is no longer than its events.
pub proof fn lemma_run_len(p: PhaseView, evs: Seq<Event>, interval: u64)
    ensures
        run(p, evs, interval).len() <= evs.len(),
    decreases evs.len(),
{
    if evs.len() > 0 && accepts(p, evs[0]) {
        lemma_run_len(next_phase(p, evs[0]), evs.drop_first(), interval);
    }
}

/// Facts of one step of a run, read off the action before it: a dispatched
/// task is completed or released next; a disposition is followed by the wait,
/// and only once its call has returned; the wait is followed by a fetch; a
/// fetch is followed by a dispatch or the wait.
pub proof fn lemma_run_next(p: PhaseView, evs: Seq<Event>, interval: u64, i: int)
    requires
        0 <= i,
        i + 1 < run(p, evs, interval).len(),
    ensures
        ({
            let a = run(p, evs, interval);
            &&& a[i] matches ActionView::Dispatch(t) ==> a[i + 1] == ActionView::Complete(t)
                || a[i + 1] == ActionView::Release(t)
            &&& a[i] matches ActionView::Dispatch(t) ==> (a[i + 1] == ActionView::Release(t)
                <==> evs[i + 1] is HandlerFailed)
            &&& (a[i] is Complete || a[i] is Release) ==> a[i + 1] == ActionView::Wait(interval)
                && (evs[i + 1] is DispositionSucceeded || evs[i + 1] is DispositionFailed)
            &&& a[i] is Wait ==> a[i + 1] is Fetch
            &&& a[i] is Fetch ==> a[i + 1] is Dispatch || a[i + 1] == ActionView::Wait(interval)
            &&& a[i + 1] is Fetch ==> a[i] is Wait
            &&& a[i + 1] is Dispatch ==> a[i] is Fetch
            &&& (a[i + 1] is Complete || a[i + 1] is Release) ==> a[i] is Dispatch
            &&& a[i + 1] is Wait ==> a[i + 1] == ActionView::Wait(interval)
        }),
{
    lemma_run_successor(p, evs, interval, i);
}

/// No task is lost: a task handed to the handler is completed or released by
/// the very next action, and no other completion or release comes before the
/// worker fetches again.
pub proof fn lemma_no_task_loss(
    p: PhaseView,
    evs: Seq<Event>,
    interval: u64,
    t: Seq<char>,
    i: int,
    j: int,
)
    requires
        0 <= i < j < run(p, evs, interval).len(),
        run(p, evs, interval)[i] == ActionView::Dispatch(t),
        run(p, evs, interval)[j] is Fetch,
        forall|k: int| i < k < j ==> !(#[trigger] run(p, evs, interval)[k] is Fetch),
    ensures
        i + 1 < j,
        ({
            let a = run(p, evs, interval);
            &&& a[i + 1] == ActionView::Complete(t) || a[i + 1] == ActionView::Release(t)
            &&& forall|k: int| i + 1 < k < j ==> !(#[trigger] a[k] is Complete || a[k] is Release)
        }),
{
    let a = run(p, evs, interval);
    lemma_run_next(p, evs, interval, i);
    assert forall|k: int| i + 1 < k < j implies !(#[trigger] a[k] is Complete || a[k] is Release) by {
        if a[k] is Complete || a[k] is Release {
            lemma_run_next(p, evs, interval, k - 1);
            lemma_run_next(p, evs, interval, k - 2);
            assert(a[k - 2] is Fetch);
        }
    }
}

/// A handler failure leads to the release of the very task that was handed
/// to the handler.
pub proof fn lemma_handler_failure_releases(
    p: PhaseView,
    evs: Seq<Event>,
    interval: u64,
    t: Seq<char>,
    i: int,
)
    requires
        0 <= i,
        i + 1 < evs.len(),
        i < run(p, evs, interval).len(),
        run(p, evs, interval)[i] == ActionView::Dispatch(t),
        evs[i + 1] is HandlerFailed,
    ensures
        i + 1 < run(p, evs, interval).len(),
        run(p, evs, interval)[i + 1] == ActionView::Release(t),
{
    lemma_run_accepted(p, evs, interval, i);
    lemma_run_next(p, evs, interval, i);
}

/// A run stops only at an event that its phase does not accept: after action
/// `i`, any event that the phase entered accepts yields one more action.
pub proof fn lemma_run_accepted(p: PhaseView, evs: Seq<Event>, interval: u64, i: int)
    requires
        0 <= i < run(p, evs, interval).len(),
        i + 1 < evs.len(),
        accepts(phase_after(run(p, evs, interval)[i]), evs[i + 1]),
    ensures
        i + 1 < run(p, evs, interval).len(),
    decreases evs.len(),
{
    let q = next_phase(p, evs[0]);
    let rest = evs.drop_first();
    lemma_action_leads_to_next_phase(p, evs[0], interval);
    if i > 0 {
        assert(rest[i] == evs[i + 1]);
        lemma_run_accepted(q, rest, interval, i - 1);
    } else {
        assert(rest[0] == evs[1]);
    }
}

/// The loop never halts: every phase accepts some event.
pub proof fn lemma_no_terminal_phase(p: PhaseView)
    ensures
        exists|e: Event| accepts(p, e),
{
    match p {
        PhaseView::Fetching => assert(accepts(p, Event::FetchFailed)),
        PhaseView::Dispatching(_) => assert(accepts(p, Event::HandlerFailed)),
        PhaseView::Completing(_) => assert(accepts(p, Event::DispositionFailed)),
        PhaseView::Releasing(_) => assert(accepts(p, Event::DispositionFailed)),
        PhaseView::Waiting => assert(accepts(p, Event::WaitElapsed)),
    }
}

/// Whatever happens, the worker fetches again within four actions.
pub proof fn lemma_fetch_recurs(p: PhaseView, evs: Seq<Event>, interval: u64, i: int)
    requires
        0 <= i,
        i + 4 <= run(p, evs, interval).len(),
    ensures
        exists|k: int| i <= k < i + 4 && (#[trigger] run(p, evs, interval)[k]) is Fetch,
{
    let a = run(p, evs, interval);
    lemma_run_next(p, evs, interval, i);
    lemma_run_next(p, evs, interval, i + 1);
    lemma_run_next(p, evs, interval, i + 2);
    if a[i] is Fetch {
        assert(a[i] is Fetch);
    } else if a[i + 1] is Fetch {
        assert(a[i + 1] is Fetch);
    } else if a[i + 2] is Fetch {
        assert(a[i + 2] is Fetch);
    } else {
        assert(a[i + 3] is Fetch);
    }
}

/// Sequential exclusivity: once a task is completed or released, the next
/// action is the wait, taken only after the complete or release call has
/// returned; so no fetch comes before that call has returned.
pub proof fn lemma_resolve_before_fetch(p: PhaseView, evs: Seq<Event>, interval: u64, i: int, j: int)
    requires
        0 <= i < j < run(p, evs, interval).len(),
        run(p, evs, interval)[i] is Complete || run(p, evs, interval)[i] is Release,
        run(p, evs, interval)[j] is Fetch,
    ensures
        i + 1 < j,
        evs[i + 1] is DispositionSucceeded || evs[i + 1] is DispositionFailed,
{
    lemma_run_next(p, evs, interval, i);
}

/// Every fetch after the first comes right after a wait of the configured
/// interval, so `n` cycles hold `n` waits of that length.
pub proof fn lemma_wait_before_fetch(p: PhaseView, evs: Seq<Event>, interval: u64, j: int)
    requires
        0 < j < run(p, evs, interval).len(),
        run(p, evs, interval)[j] is Fetch,
    ensures
        run(p, evs, interval)[j - 1] == ActionView::Wait(interval),
{
    lemma_run_next(p, evs, interval, j - 1);
    if j >= 2 {
        lemma_run_next(p, evs, interval, j - 2);
    } else {
        lemma_first_wait(p, evs, interval);
    }
}

/// Every wait of a run lasts the configured interval.
pub proof fn lemma_waits_use_interval(p: PhaseView, evs: Seq<Event>, interval: u64, k: int)
    requires
        0 <= k < run(p, evs, interval).len(),
        run(p, evs, interval)[k] is Wait,
    ensures
        run(p, evs, interval)[k] == ActionView::Wait(interval),
{
    if k == 0 {
        lemma_first_wait(p, evs, interval);
    } else {
        lemma_run_next(p, evs, interval, k - 1);
    }
}

/// The first action of a run, where it is a wait, is a wait of the
/// configured interval.
pub proof fn lemma_first_wait(p: PhaseView, evs: Seq<Event>, interval: u64)
    requires
        run(p, evs, interval).len() > 0,
        run(p, evs, interval)[0] is Wait,
    ensures
        run(p, evs, interval)[0] == ActionView::Wait(interval),
{
}

/// An empty fetch result is no error: nothing is reported, and the worker
/// waits the same interval as after any other cycle.
pub proof fn lemma_empty_fetch_is_quiet(task_ids: Vec<Option<String>>, interval: u64)
    requires
        task_ids@.len() == 0,
    ensures
        next_report(PhaseView::Fetching, Event::Fetched { task_ids }) == Report::Quiet,
        !next_report(PhaseView::Fetching, Event::Fetched { task_ids }).spec_is_error(),
        next_action(PhaseView::Fetching, Event::Fetched { task_ids }, interval) == ActionView::Wait(
            interval,
        ),
        next_action(PhaseView::Fetching, Event::FetchFailed, interval) == ActionView::Wait(
            interval,
        ),
{
}

/// A failed fetch does not stop the loop: the worker waits, then fetches
/// again.
pub proof fn lemma_fetch_failure_recovers(evs: Seq<Event>, interval: u64)
    requires
        evs.len() >= 2,
        evs[0] is FetchFailed,
        evs[1] is WaitElapsed,
    ensures
        run(PhaseView::Fetching, evs, interval).len() >= 2,
        run(PhaseView::Fetching, evs, interval)[0] == ActionView::Wait(interval),
        run(PhaseView::Fetching, evs, interval)[1] is Fetch,
{
    let rest = evs.drop_first();
    assert(rest[0] == evs[1]);
    assert(run(PhaseView::Waiting, rest, interval)[0] is Fetch);
}

} // verus!
