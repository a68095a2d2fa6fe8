use vstd::prelude::*;
use crate::channel::{Broadcast, SendError};
use crate::engine::{all_ended, Component, Supervisor, EngineError, Failure, Phase, Step, Task};
use crate::tasks::{all_skipped, picked, SubmitHandle, ExecutorTask, Next, StrategyTask};

verus! {

/// An engine together with its two channels: the event channel, read by
/// every strategy, and the action channel, read by every executor. Each
/// channel is closed exactly when the engine's drain order says so.
pub struct Pipeline<E, A> {
    engine: Supervisor,
    events: Broadcast<E>,
    actions: Broadcast<A>,
    capacity: usize,
    failed: Vec<u64>,
}

impl<E: Clone, A: Clone> Pipeline<E, A> {
    pub closed spec fn engine(&self) -> Supervisor {
        self.engine
    }

    pub closed spec fn events(&self) -> Broadcast<E> {
        self.events
    }

    pub closed spec fn actions(&self) -> Broadcast<A> {
        self.actions
    }

    /// For each executor, how many of its executions failed.
    pub closed spec fn failures(&self) -> Seq<u64> {
        self.failed@
    }

    pub closed spec fn capacity(&self) -> nat {
        self.capacity as nat
    }

    pub open spec fn wf(&self) -> bool {
        &&& self.capacity() > 0
        &&& self.engine().wf()
        &&& self.events().wf()
        &&& self.actions().wf()
        &&& self.events().is_closed() == self.engine().events_closed()
        &&& self.actions().is_closed() == self.engine().actions_closed()
        &&& self.engine().phase() != Phase::Built ==> {
            &&& self.events().subscribers() == self.engine().strategies().len()
            &&& self.actions().subscribers() == self.engine().executors().len()
            &&& self.failures().len() == self.engine().executors().len()
        }
    }

    /// A built pipeline with nothing registered, whose channels will hold
    /// at most `capacity` unread items per reader.
    pub fn new(capacity: usize) -> (r: Self)
        requires
            capacity > 0,
        ensures
            r.wf(),
            r.engine().phase() == Phase::Built,
            r.engine().collectors().len() == 0,
            r.engine().strategies().len() == 0,
            r.engine().executors().len() == 0,
    {
        Pipeline {
            engine: Supervisor::new(),
            events: Broadcast::new(0, capacity),
            actions: Broadcast::new(0, capacity),
            capacity,
            failed: Vec::new(),
        }
    }

    /// Registers a component; see `Supervisor::register`.
    pub fn register(&mut self, c: Component) -> (r: Result<usize, EngineError>)
        requires
            old(self).wf(),
        ensures
            final(self).wf(),
            old(self).engine().phase() != Phase::Built ==> r == Err::<usize, EngineError>(
                EngineError::AlreadyStarted,
            ) && *final(self) == *old(self),
            old(self).engine().phase() == Phase::Built && old(self).engine().live(c).len() >= usize::MAX
                ==> r == Err::<usize, EngineError>(EngineError::RegistryFull) && *final(self) == *old(self),
            old(self).engine().phase() == Phase::Built && old(self).engine().live(c).len() < usize::MAX ==> {
                &&& r == Ok::<usize, EngineError>(old(self).engine().live(c).len() as usize)
                &&& final(self).engine().live(c) == old(self).engine().live(c).push(true)
                &&& forall|d: Component| d != c ==> final(self).engine().live(d) == old(self).engine().live(d)
                &&& final(self).engine().phase() == Phase::Built
                &&& final(self).engine().shutdown_requested() == old(self).engine().shutdown_requested()
                &&& final(self).events() == old(self).events()
                &&& final(self).actions() == old(self).actions()
            },
    {
        let r = self.engine.register(c);
        proof {
            if r is Err {
                assert(*self == *old(self));
            }
        }
        r
    }

    /// Closes the channels that `step` says to close.
    fn apply(&mut self, step: Step)
        requires
            old(self).events.wf(),
            old(self).actions.wf(),
        ensures
            final(self).events.wf(),
            final(self).actions.wf(),
            final(self).engine == old(self).engine,
            final(self).capacity == old(self).capacity,
            final(self).failed == old(self).failed,
            final(self).events.history() == old(self).events.history(),
            final(self).actions.history() == old(self).actions.history(),
            final(self).events.subscribers() == old(self).events.subscribers(),
            final(self).actions.subscribers() == old(self).actions.subscribers(),
            final(self).events.is_closed() == (old(self).events.is_closed() || step.close_events),
            final(self).actions.is_closed() == (old(self).actions.is_closed() || step.close_actions),
    {
        if step.close_events {
            self.events.close();
        }
        if step.close_actions {
            self.actions.close();
        }
    }

    /// Starts the run: the event channel gets one reader per strategy, the
    /// action channel one per executor, and what can be closed at once is.
    pub fn start(&mut self) -> (r: Result<Step, EngineError>)
        requires
            old(self).wf(),
        ensures
            final(self).wf(),
            old(self).engine().phase() != Phase::Built ==> r == Err::<Step, EngineError>(
                EngineError::AlreadyStarted,
            ) && *final(self) == *old(self),
            old(self).engine().phase() == Phase::Built ==> {
                &&& r matches Ok(step) && step.close_events == all_ended(old(self).engine().collectors())
                    && step.close_actions == final(self).engine().actions_closed()
                    && step.stopped == (final(self).engine().phase() == Phase::Stopped)
                &&& final(self).engine().phase() != Phase::Built
                &&& final(self).engine().failure() is None
                &&& final(self).engine().shutdown_requested() == old(self).engine().shutdown_requested()
                &&& final(self).engine().collectors() == old(self).engine().collectors()
                &&& final(self).engine().strategies() == old(self).engine().strategies()
                &&& final(self).engine().executors() == old(self).engine().executors()
                &&& final(self).events().history().len() == 0
                &&& final(self).actions().history().len() == 0
                &&& forall|i: int| 0 <= i < final(self).failures().len() ==> final(self).failures()[i] == 0
            },
    {
        if self.engine.current_phase() != Phase::Built {
            return Err(EngineError::AlreadyStarted);
        }
        self.events = Broadcast::new(self.engine.strategy_count(), self.capacity);
        self.actions = Broadcast::new(self.engine.executor_count(), self.capacity);
        let n = self.engine.executor_count();
        let mut failed: Vec<u64> = Vec::new();
        while failed.len() < n
            invariant
                failed@.len() <= n,
                forall|i: int| 0 <= i < failed@.len() ==> failed@[i] == 0,
            decreases n - failed@.len(),
        {
            failed.push(0);
        }
        self.failed = failed;
        let r = self.engine.start();
        match r {
            Ok(step) => {
                self.apply(step);
                Ok(step)
            },
            Err(e) => Err(e),
        }
    }

    /// Collector `index` offers `item` to every strategy; it comes back if
    /// the event channel is full or closed.
    pub fn send_event(&mut self, index: usize, item: E) -> (r: Result<(), SendError<E>>)
        requires
            old(self).wf(),
        ensures
            final(self).wf(),
            final(self).engine() == old(self).engine(),
            final(self).actions() == old(self).actions(),
            old(self).events().is_closed() ==> r == Err::<(), SendError<E>>(SendError::Closed(item)),
            !old(self).events().is_closed() && old(self).events().is_full() ==> r == Err::<(), SendError<E>>(SendError::Full(item)),
            !old(self).events().is_closed() && !old(self).events().is_full() ==> r is Ok,
            r is Ok ==> final(self).events().history() == old(self).events().history().push(item)
                && final(self).events().origins() == old(self).events().origins().push(index as nat),
            r is Err ==> final(self).events().history() == old(self).events().history(),
    {
        self.events.send(index, item)
    }

    /// The next event for strategy `index`, in delivery order. No strategy
    /// has an index past the registry: for such an index the run is over.
    pub fn next_event(&mut self, index: usize) -> (r: Next<E>)
        requires
            old(self).wf(),
        ensures
            final(self).wf(),
            index >= old(self).events().subscribers() ==> r is Finish && *final(self) == *old(self),
            final(self).engine() == old(self).engine(),
            final(self).actions() == old(self).actions(),
            final(self).events().history() == old(self).events().history(),
            forall|j: int| 0 <= j < old(self).events().subscribers() && j != index ==> final(self).events().cursor(j) == old(self).events().cursor(j),
            index < old(self).events().subscribers() && old(self).events().pending(index as int) > 0 ==> {
                &&& final(self).events().cursor(index as int) == old(self).events().cursor(index as int) + 1
                &&& r matches Next::Handle(e) && cloned(old(self).events().history()[old(self).events().cursor(index as int) as int], e)
            },
            index < old(self).events().subscribers() && old(self).events().pending(index as int) == 0 ==> {
                &&& final(self).events().cursor(index as int) == old(self).events().cursor(index as int)
                &&& old(self).events().is_closed() ==> r is Finish
                &&& !old(self).events().is_closed() ==> r is Wait
            },
    {
        if index >= self.events.subscriber_count() {
            return Next::Finish;
        }
        let task = StrategyTask { index };
        task.next_event(&mut self.events)
    }

    /// Strategy `index` submits `action` to every executor; it comes back if
    /// the action channel is full or closed.
    pub fn submit(&mut self, index: usize, action: A) -> (r: Result<(), SendError<A>>)
        requires
            old(self).wf(),
        ensures
            final(self).wf(),
            final(self).engine() == old(self).engine(),
            final(self).events() == old(self).events(),
            old(self).actions().is_closed() ==> r == Err::<(), SendError<A>>(SendError::Closed(action)),
            !old(self).actions().is_closed() && old(self).actions().is_full() ==> r == Err::<(), SendError<A>>(SendError::Full(action)),
            !old(self).actions().is_closed() && !old(self).actions().is_full() ==> r is Ok,
            r is Ok ==> final(self).actions().history() == old(self).actions().history().push(action)
                && final(self).actions().origins() == old(self).actions().origins().push(index as nat),
            r is Err ==> final(self).actions().history() == old(self).actions().history(),
    {
        let submitter = SubmitHandle { index };
        submitter.submit(&mut self.actions, action)
    }

    /// The next action addressed to executor `index` by its mapping `f`;
    /// see `ExecutorTask::next_action`. For an index past the registry the
    /// run is over.
    pub fn next_action<T, F: Fn(&A) -> Option<T>>(&mut self, index: usize, f: &F) -> (r: Next<T>)
        requires
            old(self).wf(),
            forall|a: &A| call_requires(*f, (a,)),
        ensures
            final(self).wf(),
            index >= old(self).actions().subscribers() ==> r is Finish && *final(self) == *old(self),
            final(self).engine() == old(self).engine(),
            final(self).events() == old(self).events(),
            final(self).actions().history() == old(self).actions().history(),
            forall|j: int| 0 <= j < old(self).actions().subscribers() && j != index ==> final(self).actions().cursor(j) == old(self).actions().cursor(j),
            index < old(self).actions().subscribers() ==> ({
                let c0 = old(self).actions().cursor(index as int) as int;
                let c1 = final(self).actions().cursor(index as int) as int;
                match r {
                    Next::Handle(t) => picked(*f, old(self).actions().history(), c0, c1, t),
                    _ => {
                        &&& c0 <= c1 == old(self).actions().history().len()
                        &&& all_skipped(*f, old(self).actions().history(), c0, c1)
                        &&& (r is Finish <==> old(self).actions().is_closed())
                    },
                }
            }),
    {
        if index >= self.actions.subscriber_count() {
            return Next::Finish;
        }
        let task = ExecutorTask { index };
        task.next_action(&mut self.actions, f)
    }

    /// Records how one execution by executor `index` went. A failure is
    /// counted and nothing else: the executor stays alive and reads on from
    /// where it was, so the actions after a failed one still reach it.
    pub fn record_execution(&mut self, index: usize, ok: bool)
        requires
            old(self).wf(),
        ensures
            final(self).wf(),
            final(self).engine() == old(self).engine(),
            final(self).events() == old(self).events(),
            final(self).actions() == old(self).actions(),
            final(self).failures() == if !ok && index < old(self).failures().len() {
                let n = old(self).failures()[index as int];
                old(self).failures().update(index as int, if n < u64::MAX { (n + 1) as u64 } else { n })
            } else {
                old(self).failures()
            },
    {
        if !ok && index < self.failed.len() {
            let n = self.failed[index];
            self.failed.set(index, n.saturating_add(1));
        }
    }

    /// How many executions of executor `index` failed so far.
    pub fn failed_executions(&self, index: usize) -> (r: u64)
        ensures
            index < self.failures().len() ==> r == self.failures()[index as int],
            index >= self.failures().len() ==> r == 0,
    {
        if index < self.failed.len() {
            self.failed[index]
        } else {
            0
        }
    }

    /// Records the end of `task`, and closes what its end allows to close;
    /// see `Supervisor::task_ended`.
    pub fn task_ended(&mut self, task: Task, error: Option<String>) -> (r: Result<Step, EngineError>)
        requires
            old(self).wf(),
        ensures
            final(self).wf(),
            final(self).events().history() == old(self).events().history(),
            final(self).actions().history() == old(self).actions().history(),
            ({
                let e0 = old(self).engine();
                let e1 = final(self).engine();
                let live = e0.live(task.component);
                let i = task.index as int;
                if e0.phase() == Phase::Built || e0.phase() == Phase::Stopped {
                    r == Err::<Step, EngineError>(EngineError::NotRunning) && *final(self) == *old(self)
                } else if i >= live.len() {
                    r == Err::<Step, EngineError>(EngineError::UnknownTask) && *final(self) == *old(self)
                } else if !live[i] {
                    r == Err::<Step, EngineError>(EngineError::AlreadyEnded) && *final(self) == *old(self)
                } else {
                    &&& r matches Ok(step)
                        && step.close_events == (!e0.events_closed() && e1.events_closed())
                        && step.close_actions == (!e0.actions_closed() && e1.actions_closed())
                        && step.stopped == (e1.phase() == Phase::Stopped)
                    &&& e1.live(task.component) == live.update(i, false)
                    &&& forall|d: Component| d != task.component ==> #[trigger] e1.live(d) == e0.live(d)
                    &&& e1.phase() != Phase::Built
                    &&& e1.failure() == match (e0.failure(), error) {
                        (None, Some(m)) => Some(Failure { task, message: m }),
                        _ => e0.failure(),
                    }
                    &&& e1.shutdown_requested() == e0.shutdown_requested()
                    &&& final(self).events().is_closed() == e1.events_closed()
                    &&& final(self).actions().is_closed() == e1.actions_closed()
                    &&& final(self).failures() == old(self).failures()
                }
            }),
    {
        let r = self.engine.task_ended(task, error);
        match r {
            Ok(step) => {
                self.apply(step);
                Ok(step)
            },
            Err(e) => Err(e),
        }
    }

    /// Whether collectors should go on taking events; see `Supervisor::collecting`.
    pub fn collecting(&self) -> (r: bool)
        ensures
            r == (self.engine().phase() == Phase::Running && !self.engine().shutdown_requested()),
    {
        self.engine.collecting()
    }

    /// Raises the shutdown signal; see `Supervisor::request_shutdown`.
    pub fn request_shutdown(&mut self)
        requires
            old(self).wf(),
        ensures
            final(self).wf(),
            final(self).engine().shutdown_requested(),
            final(self).engine().phase() == old(self).engine().phase(),
            final(self).engine().collectors() == old(self).engine().collectors(),
            final(self).engine().strategies() == old(self).engine().strategies(),
            final(self).engine().executors() == old(self).engine().executors(),
            final(self).engine().failure() == old(self).engine().failure(),
            final(self).events() == old(self).events(),
            final(self).actions() == old(self).actions(),
            final(self).failures() == old(self).failures(),
    {
        self.engine.request_shutdown();
    }

    /// The result of the run; see `Supervisor::outcome`.
    pub fn outcome(&self) -> (r: Option<Result<(), Failure>>)
        ensures
            self.engine().phase() != Phase::Stopped ==> r is None,
            self.engine().phase() == Phase::Stopped ==> r == Some(match self.engine().failure() {
                None => Ok::<(), Failure>(()),
                Some(f) => Err(f),
            }),
    {
        self.engine.outcome()
    }
}

/// A run is over only when every collector has ended, both channels are
/// closed, and every strategy and executor task has ended.
pub proof fn lemma_run_over_means_drained<E: Clone, A: Clone>(p: &Pipeline<E, A>)
    requires
        p.wf(),
        p.engine().phase() == Phase::Stopped,
    ensures
        all_ended(p.engine().collectors()),
        p.events().is_closed(),
        p.actions().is_closed(),
        all_ended(p.engine().strategies()),
        all_ended(p.engine().executors()),
{
}

/// The event channel closes only once every collector has ended, and the
/// action channel only once every strategy has ended too.
pub proof fn lemma_closing_order<E: Clone, A: Clone>(p: &Pipeline<E, A>)
    requires
        p.wf(),
        p.engine().phase() != Phase::Built,
    ensures
        p.events().is_closed() <==> all_ended(p.engine().collectors()),
        p.actions().is_closed() <==> p.events().is_closed() && all_ended(p.engine().strategies()),
{
}

} // verus!
