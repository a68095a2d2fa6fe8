use vstd::prelude::*;

verus! {

/// The three kinds of component an engine runs, one task each.
#[derive(Clone, Copy, PartialEq, Eq, Structural, Debug)]
pub enum Component {
    Collector,
    Strategy,
    Executor,
}

/// One running task: its kind and its place in that kind's registry.
#[derive(Clone, Copy, PartialEq, Eq, Structural, Debug)]
pub struct Task {
    pub component: Component,
    pub index: usize,
}

/// A task that ended with an error it could not recover from.
#[derive(Clone, Debug)]
pub struct Failure {
    pub task: Task,
    pub message: String,
}

/// Where an engine is in its life.
#[derive(Clone, Copy, PartialEq, Eq, Structural, Debug)]
pub enum Phase {
    /// Components are being registered; nothing runs.
    Built,
    /// Every task has been started.
    Running,
    /// Every collector has ended; what is in flight is being finished.
    Draining,
    /// Every task has ended.
    Stopped,
}

/// A request that does not fit the engine's state.
#[derive(Clone, Copy, PartialEq, Eq, Structural, Debug)]
pub enum EngineError {
    /// Components are registered, and the engine started, only while it is built.
    AlreadyStarted,
    /// Tasks end only while the engine runs or drains.
    NotRunning,
    /// No task of that kind has that index.
    UnknownTask,
    /// That task has already ended.
    AlreadyEnded,
    /// A registry already holds as many components as an index can count.
    RegistryFull,
}

/// What the caller must do after a change of the engine's state.
#[derive(Clone, Copy, PartialEq, Eq, Structural, Debug)]
pub struct Step {
    /// Close the producer side of the event channel.
    pub close_events: bool,
    /// Close the producer side of the action channels.
    pub close_actions: bool,
    /// Every task has ended: the run is over.
    pub stopped: bool,
}

pub open spec fn all_alive(live: Seq<bool>) -> bool {
    forall|i: int| 0 <= i < live.len() ==> live[i]
}

pub open spec fn all_ended(live: Seq<bool>) -> bool {
    forall|i: int| 0 <= i < live.len() ==> !live[i]
}

/// The supervisor of a run: which components are registered, which tasks
/// are still alive, which channels are closed, and the first failure.
pub struct Supervisor {
    phase: Phase,
    collectors: Vec<bool>,
    strategies: Vec<bool>,
    executors: Vec<bool>,
    events_closed: bool,
    actions_closed: bool,
    shutdown: bool,
    failure: Option<Failure>,
}

impl Supervisor {
    pub closed spec fn phase(&self) -> Phase {
        self.phase
    }

    /// For each registered collector, whether its task is alive (or not yet started).
    pub closed spec fn collectors(&self) -> Seq<bool> {
        self.collectors@
    }

    pub closed spec fn strategies(&self) -> Seq<bool> {
        self.strategies@
    }

    pub closed spec fn executors(&self) -> Seq<bool> {
        self.executors@
    }

    pub closed spec fn events_closed(&self) -> bool {
        self.events_closed
    }

    pub closed spec fn actions_closed(&self) -> bool {
        self.actions_closed
    }

    pub closed spec fn shutdown_requested(&self) -> bool {
        self.shutdown
    }

    pub closed spec fn failure(&self) -> Option<Failure> {
        self.failure
    }

    pub open spec fn live(&self, c: Component) -> Seq<bool> {
        match c {
            Component::Collector => self.collectors(),
            Component::Strategy => self.strategies(),
            Component::Executor => self.executors(),
        }
    }

    /// The drain order: events close once every collector has ended, actions
    /// once the strategies have too, and the run stops once the executors have.
    pub open spec fn wf(&self) -> bool {
        &&& self.phase() == Phase::Built ==> {
            &&& !self.events_closed() && !self.actions_closed()
            &&& self.failure() is None
            &&& all_alive(self.collectors())
            &&& all_alive(self.strategies())
            &&& all_alive(self.executors())
        }
        &&& self.phase() != Phase::Built ==> {
            &&& self.events_closed() == all_ended(self.collectors())
            &&& self.actions_closed() == (self.events_closed() && all_ended(self.strategies()))
            &&& (self.phase() == Phase::Stopped) == (self.actions_closed() && all_ended(
                self.executors(),
            ))
            &&& (self.phase() == Phase::Draining) == (self.events_closed() && self.phase()
                != Phase::Stopped)
        }
    }

    /// A built engine with nothing registered.
    pub fn new() -> (r: Self)
        ensures
            r.wf(),
            r.phase() == Phase::Built,
            r.collectors() == Seq::<bool>::empty(),
            r.strategies() == Seq::<bool>::empty(),
            r.executors() == Seq::<bool>::empty(),
            !r.shutdown_requested(),
    {
        Supervisor {
            phase: Phase::Built,
            collectors: Vec::new(),
            strategies: Vec::new(),
            executors: Vec::new(),
            events_closed: false,
            actions_closed: false,
            shutdown: false,
            failure: None,
        }
    }

    pub fn collector_count(&self) -> (r: usize)
        ensures
            r == self.collectors().len(),
    {
        self.collectors.len()
    }

    pub fn strategy_count(&self) -> (r: usize)
        ensures
            r == self.strategies().len(),
    {
        self.strategies.len()
    }

    pub fn executor_count(&self) -> (r: usize)
        ensures
            r == self.executors().len(),
    {
        self.executors.len()
    }

    pub fn current_phase(&self) -> (r: Phase)
        ensures
            r == self.phase(),
    {
        self.phase
    }

    /// Registers one component of kind `c`; its index is returned. Refused
    /// once the engine has been started.
    pub fn register(&mut self, c: Component) -> (r: Result<usize, EngineError>)
        requires
            old(self).wf(),
        ensures
            final(self).wf(),
            old(self).phase() != Phase::Built ==> r == Err::<usize, EngineError>(
                EngineError::AlreadyStarted,
            ) && *final(self) == *old(self),
            old(self).phase() == Phase::Built && old(self).live(c).len() >= usize::MAX ==> r
                == Err::<usize, EngineError>(EngineError::RegistryFull) && *final(self)
                == *old(self),
            old(self).phase() == Phase::Built && old(self).live(c).len() < usize::MAX ==> {
                &&& r == Ok::<usize, EngineError>(old(self).live(c).len() as usize)
                &&& final(self).live(c) == old(self).live(c).push(true)
                &&& forall|d: Component| d != c ==> final(self).live(d) == old(self).live(d)
                &&& final(self).phase() == Phase::Built
                &&& final(self).shutdown_requested() == old(self).shutdown_requested()
            },
    {
        if self.phase != Phase::Built {
            return Err(EngineError::AlreadyStarted);
        }
        match c {
            Component::Collector => {
                if self.collectors.len() == usize::MAX {
                    return Err(EngineError::RegistryFull);
                }
                self.collectors.push(true);
                assert forall|i: int| 0 <= i < self.collectors@.len() implies self.collectors@[i] by {
                    if i < old(self).collectors@.len() {
                        assert(old(self).collectors@[i]);
                    }
                }
                assert(all_alive(self.collectors()));
                Ok(self.collectors.len() - 1)
            },
            Component::Strategy => {
                if self.strategies.len() == usize::MAX {
                    return Err(EngineError::RegistryFull);
                }
                self.strategies.push(true);
                assert forall|i: int| 0 <= i < self.strategies@.len() implies self.strategies@[i] by {
                    if i < old(self).strategies@.len() {
                        assert(old(self).strategies@[i]);
                    }
                }
                assert(all_alive(self.strategies()));
                Ok(self.strategies.len() - 1)
            },
            Component::Executor => {
                if self.executors.len() == usize::MAX {
                    return Err(EngineError::RegistryFull);
                }
                self.executors.push(true);
                assert forall|i: int| 0 <= i < self.executors@.len() implies self.executors@[i] by {
                    if i < old(self).executors@.len() {
                        assert(old(self).executors@[i]);
                    }
                }
                assert(all_alive(self.executors()));
                Ok(self.executors.len() - 1)
            },
        }
    }

    /// Registers a collector; see `register`.
    pub fn add_collector(&mut self) -> (r: Result<usize, EngineError>)
        requires
            old(self).wf(),
        ensures
            final(self).wf(),
            old(self).phase() != Phase::Built ==> r == Err::<usize, EngineError>(
                EngineError::AlreadyStarted,
            ),
            old(self).phase() == Phase::Built && old(self).collectors().len() < usize::MAX ==> r
                == Ok::<usize, EngineError>(old(self).collectors().len() as usize)
                && final(self).collectors() == old(self).collectors().push(true)
                && final(self).strategies() == old(self).strategies()
                && final(self).executors() == old(self).executors(),
    {
        let r = self.register(Component::Collector);
        assert(final(self).live(Component::Strategy) == old(self).live(Component::Strategy));
        assert(final(self).live(Component::Executor) == old(self).live(Component::Executor));
        r
    }

    /// Registers a strategy; see `register`.
    pub fn add_strategy(&mut self) -> (r: Result<usize, EngineError>)
        requires
            old(self).wf(),
        ensures
            final(self).wf(),
            old(self).phase() != Phase::Built ==> r == Err::<usize, EngineError>(
                EngineError::AlreadyStarted,
            ),
            old(self).phase() == Phase::Built && old(self).strategies().len() < usize::MAX ==> r
                == Ok::<usize, EngineError>(old(self).strategies().len() as usize)
                && final(self).strategies() == old(self).strategies().push(true)
                && final(self).collectors() == old(self).collectors()
                && final(self).executors() == old(self).executors(),
    {
        let r = self.register(Component::Strategy);
        assert(final(self).live(Component::Collector) == old(self).live(Component::Collector));
        assert(final(self).live(Component::Executor) == old(self).live(Component::Executor));
        r
    }

    /// Registers an executor; see `register`.
    pub fn add_executor(&mut self) -> (r: Result<usize, EngineError>)
        requires
            old(self).wf(),
        ensures
            final(self).wf(),
            old(self).phase() != Phase::Built ==> r == Err::<usize, EngineError>(
                EngineError::AlreadyStarted,
            ),
            old(self).phase() == Phase::Built && old(self).executors().len() < usize::MAX ==> r
                == Ok::<usize, EngineError>(old(self).executors().len() as usize)
                && final(self).executors() == old(self).executors().push(true)
                && final(self).collectors() == old(self).collectors()
                && final(self).strategies() == old(self).strategies(),
    {
        let r = self.register(Component::Executor);
        assert(final(self).live(Component::Collector) == old(self).live(Component::Collector));
        assert(final(self).live(Component::Strategy) == old(self).live(Component::Strategy));
        r
    }

    /// Between a change of liveness and the closing that it calls for.
    pub open spec fn unsettled(&self) -> bool {
        &&& self.phase() == Phase::Running || self.phase() == Phase::Draining
        &&& self.events_closed() ==> all_ended(self.collectors())
        &&& self.actions_closed() ==> self.events_closed() && all_ended(self.strategies())
        &&& self.phase() == Phase::Draining ==> self.events_closed()
    }

    /// Closes what the ended tasks allow to close, in drain order.
    fn settle(&mut self) -> (r: Step)
        requires
            old(self).unsettled(),
        ensures
            final(self).wf(),
            final(self).phase() != Phase::Built,
            final(self).collectors() == old(self).collectors(),
            final(self).strategies() == old(self).strategies(),
            final(self).executors() == old(self).executors(),
            final(self).failure() == old(self).failure(),
            final(self).shutdown_requested() == old(self).shutdown_requested(),
            r.close_events == (!old(self).events_closed() && final(self).events_closed()),
            r.close_actions == (!old(self).actions_closed() && final(self).actions_closed()),
            r.stopped == (final(self).phase() == Phase::Stopped),
    {
        let mut step = Step { close_events: false, close_actions: false, stopped: false };
        if !self.events_closed && ended(&self.collectors) {
            self.events_closed = true;
            step.close_events = true;
        }
        if self.events_closed && !self.actions_closed && ended(&self.strategies) {
            self.actions_closed = true;
            step.close_actions = true;
        }
        if self.actions_closed && ended(&self.executors) {
            self.phase = Phase::Stopped;
            step.stopped = true;
        } else if self.events_closed {
            self.phase = Phase::Draining;
        }
        step
    }

    /// Starts the run: every registered task is taken to be running. What
    /// can be closed at once (no collectors, say) is returned.
    pub fn start(&mut self) -> (r: Result<Step, EngineError>)
        requires
            old(self).wf(),
        ensures
            final(self).wf(),
            old(self).phase() != Phase::Built ==> r == Err::<Step, EngineError>(
                EngineError::AlreadyStarted,
            ) && *final(self) == *old(self),
            old(self).phase() == Phase::Built ==> {
                &&& r matches Ok(step) && step.close_events == all_ended(old(self).collectors())
                    && step.close_actions == final(self).actions_closed()
                    && step.stopped == (final(self).phase() == Phase::Stopped)
                &&& final(self).phase() != Phase::Built
                &&& final(self).collectors() == old(self).collectors()
                &&& final(self).strategies() == old(self).strategies()
                &&& final(self).executors() == old(self).executors()
                &&& final(self).failure() is None
                &&& final(self).shutdown_requested() == old(self).shutdown_requested()
            },
    {
        if self.phase != Phase::Built {
            return Err(EngineError::AlreadyStarted);
        }
        self.phase = Phase::Running;
        Ok(self.settle())
    }

    /// Records that `task` ended, with the message of its error if it failed.
    /// The first failure of the run is kept; later ones are not.
    pub fn task_ended(&mut self, task: Task, error: Option<String>) -> (r: Result<Step, EngineError>)
        requires
            old(self).wf(),
        ensures
            final(self).wf(),
            old(self).events_closed() ==> final(self).events_closed(),
            old(self).actions_closed() ==> final(self).actions_closed(),
            final(self).collectors().len() == old(self).collectors().len(),
            final(self).strategies().len() == old(self).strategies().len(),
            final(self).executors().len() == old(self).executors().len(),
            ({
                let live = old(self).live(task.component);
                let i = task.index as int;
                if old(self).phase() == Phase::Built || old(self).phase() == Phase::Stopped {
                    r == Err::<Step, EngineError>(EngineError::NotRunning) && *final(self) == *old(self)
                } else if i >= live.len() {
                    r == Err::<Step, EngineError>(EngineError::UnknownTask) && *final(self) == *old(self)
                } else if !live[i] {
                    r == Err::<Step, EngineError>(EngineError::AlreadyEnded) && *final(self) == *old(self)
                } else {
                    &&& r matches Ok(step)
                        && step.close_events == (!old(self).events_closed() && final(self).events_closed())
                        && step.close_actions == (!old(self).actions_closed() && final(self).actions_closed())
                        && step.stopped == (final(self).phase() == Phase::Stopped)
                    &&& final(self).live(task.component) == live.update(i, false)
                    &&& forall|d: Component| d != task.component ==> #[trigger] final(self).live(d) == old(self).live(d)
                    &&& final(self).phase() != Phase::Built
                    &&& final(self).failure() == match (old(self).failure(), error) {
                        (None, Some(m)) => Some(Failure { task, message: m }),
                        _ => old(self).failure(),
                    }
                    &&& final(self).shutdown_requested() == old(self).shutdown_requested()
                }
            }),
    {
        if self.phase == Phase::Built || self.phase == Phase::Stopped {
            return Err(EngineError::NotRunning);
        }
        let i = task.index;
        match task.component {
            Component::Collector => {
                if i >= self.collectors.len() {
                    return Err(EngineError::UnknownTask);
                }
                if !self.collectors[i] {
                    return Err(EngineError::AlreadyEnded);
                }
                self.collectors.set(i, false);
            },
            Component::Strategy => {
                if i >= self.strategies.len() {
                    return Err(EngineError::UnknownTask);
                }
                if !self.strategies[i] {
                    return Err(EngineError::AlreadyEnded);
                }
                self.strategies.set(i, false);
            },
            Component::Executor => {
                if i >= self.executors.len() {
                    return Err(EngineError::UnknownTask);
                }
                if !self.executors[i] {
                    return Err(EngineError::AlreadyEnded);
                }
                self.executors.set(i, false);
            },
        }
        if self.failure.is_none() {
            if let Some(m) = error {
                self.failure = Some(Failure { task, message: m });
            }
        }
        proof {
            lemma_ended_stays(old(self).collectors(), self.collectors());
            lemma_ended_stays(old(self).strategies(), self.strategies());
            lemma_ended_stays(old(self).executors(), self.executors());
        }
        let step = self.settle();
        Ok(step)
    }

    /// Raises the shutdown signal: collectors stop taking further events, and
    /// the run drains as when they end by themselves.
    pub fn request_shutdown(&mut self)
        requires
            old(self).wf(),
        ensures
            final(self).wf(),
            final(self).shutdown_requested(),
            final(self).phase() == old(self).phase(),
            final(self).collectors() == old(self).collectors(),
            final(self).strategies() == old(self).strategies(),
            final(self).executors() == old(self).executors(),
            final(self).failure() == old(self).failure(),
    {
        self.shutdown = true;
    }

    /// Whether collector tasks should go on taking events.
    pub fn collecting(&self) -> (r: bool)
        ensures
            r == (self.phase() == Phase::Running && !self.shutdown_requested()),
    {
        self.phase == Phase::Running && !self.shutdown
    }

    /// The result of the run: nothing until every task has ended; then
    /// success, or the first failure.
    pub fn outcome(&self) -> (r: Option<Result<(), Failure>>)
        ensures
            self.phase() != Phase::Stopped ==> r is None,
            self.phase() == Phase::Stopped ==> r == Some(match self.failure() {
                None => Ok::<(), Failure>(()),
                Some(f) => Err(f),
            }),
    {
        if self.phase != Phase::Stopped {
            return None;
        }
        match &self.failure {
            None => Some(Ok(())),
            Some(f) => Some(Err(Failure { task: f.task, message: f.message.clone() })),
        }
    }
}

/// A run is over only when every collector has ended and everything
/// downstream has drained: both channels closed and every task ended.
pub proof fn lemma_stopped_means_drained(e: &Supervisor)
    requires
        e.wf(),
        e.phase() == Phase::Stopped,
    ensures
        e.events_closed(),
        e.actions_closed(),
        all_ended(e.collectors()),
        all_ended(e.strategies()),
        all_ended(e.executors()),
{
}

/// Whether no task in `live` is alive.
fn ended(live: &Vec<bool>) -> (r: bool)
    ensures
        r == all_ended(live@),
{
    let mut i: usize = 0;
    while i < live.len()
        invariant
            i <= live@.len(),
            forall|j: int| 0 <= j < i ==> !live@[j],
        decreases live@.len() - i,
    {
        if live[i] {
            return false;
        }
        i = i + 1;
    }
    true
}

/// Once every task of a kind has ended, the end of one more changes nothing.
proof fn lemma_ended_stays(before: Seq<bool>, after: Seq<bool>)
    requires
        before.len() == after.len(),
        forall|i: int| 0 <= i < before.len() && !before[i] ==> !after[i],
    ensures
        all_ended(before) ==> all_ended(after),
{
}

} // verus!
