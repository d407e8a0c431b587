use vstd::prelude::*;

use crate::config::{Config, TopicConfig};
use crate::request::{fetch_and_lock_dto, is_fetch_request, FetchRequest};

verus! {

/// A topic worker asks the engine for one task at a time, so that handlers of
/// one topic run strictly one after another.
pub const MAX_TASKS_PER_FETCH: i32 = 1;

/// Where a topic worker stands in its cycle: fetch, dispatch, resolve, wait.
#[derive(Clone, Debug)]
pub enum Phase {
    /// A lock-and-fetch call is in flight.
    Fetching,
    /// The handler runs on the task with this identifier.
    Dispatching { task_id: String },
    /// The complete call for the task with this identifier is in flight.
    Completing { task_id: String },
    /// The release call for the task with this identifier is in flight.
    Releasing { task_id: String },
    /// The worker sleeps out its poll interval.
    Waiting,
}

pub enum PhaseView {
    Fetching,
    Dispatching(Seq<char>),
    Completing(Seq<char>),
    Releasing(Seq<char>),
    Waiting,
}

impl View for Phase {
    type V = PhaseView;

    open spec fn view(&self) -> PhaseView {
        match self {
            Phase::Fetching => PhaseView::Fetching,
            Phase::Dispatching { task_id } => PhaseView::Dispatching(task_id@),
            Phase::Completing { task_id } => PhaseView::Completing(task_id@),
            Phase::Releasing { task_id } => PhaseView::Releasing(task_id@),
            Phase::Waiting => PhaseView::Waiting,
        }
    }
}

/// What the embedding program observed since the last action.
#[derive(Clone, Debug)]
pub enum Event {
    /// The lock-and-fetch call returned these tasks, each by its identifier
    /// (`None` for a task that came without one).
    Fetched { task_ids: Vec<Option<String>> },
    /// The lock-and-fetch call failed.
    FetchFailed,
    /// The handler returned output variables.
    HandlerSucceeded,
    /// The handler returned an error.
    HandlerFailed,
    /// The complete or release call returned success.
    DispositionSucceeded,
    /// The complete or release call failed.
    DispositionFailed,
    /// The poll interval has elapsed.
    WaitElapsed,
}

/// What the embedding program is to do next.
#[derive(Clone, Debug)]
pub enum Action {
    /// Call lock-and-fetch with this request.
    Fetch { request: FetchRequest },
    /// Run the handler on the fetched task with this identifier.
    Dispatch { task_id: String },
    /// Complete the task with this identifier, with the handler's output variables.
    Complete { task_id: String },
    /// Release the lock on the task with this identifier.
    Release { task_id: String },
    /// Sleep this many seconds.
    Wait { seconds: u64 },
}

pub enum ActionView {
    Fetch,
    Dispatch(Seq<char>),
    Complete(Seq<char>),
    Release(Seq<char>),
    Wait(u64),
}

impl View for Action {
    type V = ActionView;

    open spec fn view(&self) -> ActionView {
        match self {
            Action::Fetch { .. } => ActionView::Fetch,
            Action::Dispatch { task_id } => ActionView::Dispatch(task_id@),
            Action::Complete { task_id } => ActionView::Complete(task_id@),
            Action::Release { task_id } => ActionView::Release(task_id@),
            Action::Wait { seconds } => ActionView::Wait(*seconds),
        }
    }
}

/// What a transition has to report in the log.
#[derive(Clone, Copy, Debug, PartialEq, Eq, Structural)]
pub enum Report {
    /// Nothing worth a log line.
    Quiet,
    /// The lock-and-fetch call failed.
    FetchFailed,
    /// The engine returned a task without an identifier.
    MalformedTask,
    /// A task was completed.
    Completed,
    /// The complete call failed; the task is abandoned.
    CompleteFailed,
    /// A task whose handler failed was released.
    Released,
    /// The release call failed; the lock expires on the engine side.
    ReleaseFailed,
}

impl Report {
    pub open spec fn spec_is_error(self) -> bool {
        match self {
            Report::FetchFailed | Report::MalformedTask | Report::CompleteFailed
            | Report::ReleaseFailed => true,
            _ => false,
        }
    }

    /// Whether the report is to be logged as an error.
    pub fn is_error(&self) -> (r: bool)
        ensures
            r == self.spec_is_error(),
    {
        match self {
            Report::FetchFailed | Report::MalformedTask | Report::CompleteFailed
            | Report::ReleaseFailed => true,
            _ => false,
        }
    }
}

/// One step of the state machine: the phase entered, the action to perform
/// and what to report.
#[derive(Clone, Debug)]
pub struct Transition {
    pub phase: Phase,
    pub action: Action,
    pub report: Report,
}

/// Whether `e` is an event that can happen in phase `p`.
pub open spec fn accepts(p: PhaseView, e: Event) -> bool {
    match p {
        PhaseView::Fetching => e is Fetched || e is FetchFailed,
        PhaseView::Dispatching(_) => e is HandlerSucceeded || e is HandlerFailed,
        PhaseView::Completing(_) | PhaseView::Releasing(_) => e is DispositionSucceeded
            || e is DispositionFailed,
        PhaseView::Waiting => e is WaitElapsed,
    }
}

/// The phase that follows `p` on event `e`.
pub open spec fn next_phase(p: PhaseView, e: Event) -> PhaseView {
    match p {
        PhaseView::Fetching => match e {
            Event::Fetched { task_ids } => if task_ids@.len() == 0 {
                PhaseView::Waiting
            } else {
                match task_ids@[0] {
                    Some(id) => PhaseView::Dispatching(id@),
                    None => PhaseView::Waiting,
                }
            },
            _ => PhaseView::Waiting,
        },
        PhaseView::Dispatching(id) => if e is HandlerSucceeded {
            PhaseView::Completing(id)
        } else {
            PhaseView::Releasing(id)
        },
        PhaseView::Completing(_) | PhaseView::Releasing(_) => PhaseView::Waiting,
        PhaseView::Waiting => PhaseView::Fetching,
    }
}

/// The phase that an action leads into.
pub open spec fn phase_after(a: ActionView) -> PhaseView {
    match a {
        ActionView::Fetch => PhaseView::Fetching,
        ActionView::Dispatch(id) => PhaseView::Dispatching(id),
        ActionView::Complete(id) => PhaseView::Completing(id),
        ActionView::Release(id) => PhaseView::Releasing(id),
        ActionView::Wait(_) => PhaseView::Waiting,
    }
}

/// The action that goes with entering phase `q`, for a poll interval of
/// `interval` seconds.
pub open spec fn action_into(q: PhaseView, interval: u64) -> ActionView {
    match q {
        PhaseView::Fetching => ActionView::Fetch,
        PhaseView::Dispatching(id) => ActionView::Dispatch(id),
        PhaseView::Completing(id) => ActionView::Complete(id),
        PhaseView::Releasing(id) => ActionView::Release(id),
        PhaseView::Waiting => ActionView::Wait(interval),
    }
}

/// The action taken in phase `p` on event `e`.
pub open spec fn next_action(p: PhaseView, e: Event, interval: u64) -> ActionView {
    action_into(next_phase(p, e), interval)
}

/// What is reported in phase `p` on event `e`.
pub open spec fn next_report(p: PhaseView, e: Event) -> Report {
    match p {
        PhaseView::Fetching => match e {
            Event::Fetched { task_ids } => if task_ids@.len() > 0 && task_ids@[0].is_none() {
                Report::MalformedTask
            } else {
                Report::Quiet
            },
            _ => Report::FetchFailed,
        },
        PhaseView::Completing(_) => if e is DispositionSucceeded {
            Report::Completed
        } else {
            Report::CompleteFailed
        },
        PhaseView::Releasing(_) => if e is DispositionSucceeded {
            Report::Released
        } else {
            Report::ReleaseFailed
        },
        _ => Report::Quiet,
    }
}

/// Binds a topic to the function that handles its tasks.
pub struct Handler<A> {
    pub topic: String,
    pub handler_function: A,
}

/// The polling state machine of one topic.
#[derive(Clone, Debug)]
pub struct TopicWorker {
    pub topic: String,
    pub worker_id: String,
    pub lock_duration: Option<i64>,
    pub wait_interval: u64,
}

impl TopicWorker {
    /// The worker for `topic` under the shared settings `config`.
    pub fn new(config: &Config, topic: &TopicConfig) -> (r: Self)
        ensures
            r.topic@ == topic.topic_id@,
            r.worker_id@ == config.worker_id@,
            r.lock_duration == config.lock_duration,
            r.wait_interval == config.spec_interval_for(*topic),
    {
        TopicWorker {
            topic: topic.topic_id.clone(),
            worker_id: config.worker_id.clone(),
            lock_duration: config.lock_duration,
            wait_interval: config.interval_for(topic),
        }
    }

    /// `r` is the lock-and-fetch request of this worker.
    pub open spec fn is_own_request(&self, r: FetchRequest) -> bool {
        is_fetch_request(r, self.topic@, self.worker_id@, self.lock_duration, MAX_TASKS_PER_FETCH)
    }

    /// The lock-and-fetch request of this worker.
    pub fn fetch_request(&self) -> (r: FetchRequest)
        ensures
            self.is_own_request(r),
    {
        fetch_and_lock_dto(
            self.topic.as_str(),
            self.worker_id.as_str(),
            self.lock_duration,
            MAX_TASKS_PER_FETCH,
        )
    }

    /// The first phase and action of the worker: it fetches at once.
    pub fn start(&self) -> (r: Transition)
        ensures
            r.phase@ == PhaseView::Fetching,
            r.action is Fetch,
            self.is_own_request(r.action->request),
            r.report == Report::Quiet,
    {
        Transition {
            phase: Phase::Fetching,
            action: Action::Fetch { request: self.fetch_request() },
            report: Report::Quiet,
        }
    }
    /// Whether `event` can happen in phase `phase`.
    pub fn accepts(phase: &Phase, event: &Event) -> (r: bool)
        ensures
            r == accepts(phase@, *event),
    {
        match phase {
            Phase::Fetching => matches!(event, Event::Fetched { .. } | Event::FetchFailed),
            Phase::Dispatching { .. } => matches!(
                event,
                Event::HandlerSucceeded | Event::HandlerFailed
            ),
            Phase::Completing { .. } | Phase::Releasing { .. } => matches!(
                event,
                Event::DispositionSucceeded | Event::DispositionFailed
            ),
            Phase::Waiting => matches!(event, Event::WaitElapsed),
        }
    }

    /// Enters phase `phase` with the action that goes with it.
    fn enter(&self, phase: Phase, report: Report) -> (r: Transition)
        ensures
            r.phase@ == phase@,
            r.action@ == action_into(phase@, self.wait_interval),
            r.action is Fetch ==> self.is_own_request(r.action->request),
            r.report == report,
    {
        let action = match &phase {
            Phase::Fetching => Action::Fetch { request: self.fetch_request() },
            Phase::Dispatching { task_id } => Action::Dispatch { task_id: task_id.clone() },
            Phase::Completing { task_id } => Action::Complete { task_id: task_id.clone() },
            Phase::Releasing { task_id } => Action::Release { task_id: task_id.clone() },
            Phase::Waiting => Action::Wait { seconds: self.wait_interval },
        };
        Transition { phase, action, report }
    }

    /// One step of the cycle: from phase `phase`, on event `event`, the next
    /// phase, the action to perform and what to report.
    ///
    /// A fetch that returns no task, fails, or returns a task without an
    /// identifier leads to the wait; a fetched task goes to the handler; a
    /// handler's success leads to completing the task and its failure to
    /// releasing it; either disposition, whatever its outcome, leads to the
    /// wait; the wait leads to the next fetch.
    pub fn step(&self, phase: &Phase, event: Event) -> (r: Transition)
        requires
            accepts(phase@, event),
        ensures
            r.phase@ == next_phase(phase@, event),
            r.action@ == next_action(phase@, event, self.wait_interval),
            r.action is Fetch ==> self.is_own_request(r.action->request),
            r.report == next_report(phase@, event),
    {
        match phase {
            Phase::Fetching => match event {
                Event::Fetched { task_ids } => {
                    if task_ids.len() == 0 {
                        self.enter(Phase::Waiting, Report::Quiet)
                    } else {
                        match &task_ids[0] {
                            Some(id) => self.enter(
                                Phase::Dispatching { task_id: id.clone() },
                                Report::Quiet,
                            ),
                            None => self.enter(Phase::Waiting, Report::MalformedTask),
                        }
                    }
                },
                _ => self.enter(Phase::Waiting, Report::FetchFailed),
            },
            Phase::Dispatching { task_id } => match event {
                Event::HandlerSucceeded => self.enter(
                    Phase::Completing { task_id: task_id.clone() },
                    Report::Quiet,
                ),
                _ => self.enter(Phase::Releasing { task_id: task_id.clone() }, Report::Quiet),
            },
            Phase::Completing { .. } => match event {
                Event::DispositionSucceeded => self.enter(Phase::Waiting, Report::Completed),
                _ => self.enter(Phase::Waiting, Report::CompleteFailed),
            },
            Phase::Releasing { .. } => match event {
                Event::DispositionSucceeded => self.enter(Phase::Waiting, Report::Released),
                _ => self.enter(Phase::Waiting, Report::ReleaseFailed),
            },
            Phase::Waiting => self.enter(Phase::Fetching, Report::Quiet),
        }
    }
}

} // verus!
