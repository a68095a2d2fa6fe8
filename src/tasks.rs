use vstd::prelude::*;
use crate::channel::{Broadcast, Recv, SendError};

verus! {

/// What a strategy or executor task does next.
pub enum Next<T> {
    /// Hand this value to the component.
    Handle(T),
    /// Nothing to read yet: wait for the channel.
    Wait,
    /// The channel is closed and drained: the task ends.
    Finish,
}

/// The collector adapter: an item of a collector's own type becomes an
/// event by the collector's mapping.
pub fn adapt_event<T, E, F: Fn(T) -> E>(f: &F, item: T) -> (r: E)
    requires
        call_requires(*f, (item,)),
    ensures
        call_ensures(*f, (item,), r),
{
    f(item)
}

/// The executor adapter: an action is handed to the inner executor only
/// where the executor's mapping gives it a value; on `None` it is skipped.
pub fn route_action<A, T, F: Fn(&A) -> Option<T>>(f: &F, action: &A) -> (r: Option<T>)
    requires
        call_requires(*f, (action,)),
    ensures
        call_ensures(*f, (action,), r),
{
    f(action)
}

/// The task of collector `index`: it feeds the event channel.
pub struct CollectorTask {
    pub index: usize,
}

impl CollectorTask {
    /// Maps `item` to an event and offers it to every strategy; the event
    /// comes back if the channel is full or closed.
    pub fn forward<T, E: Clone, F: Fn(T) -> E>(&self, events: &mut Broadcast<E>, f: &F, item: T) -> (r: Result<(), SendError<E>>)
        requires
            old(events).wf(),
            call_requires(*f, (item,)),
        ensures
            final(events).wf(),
            final(events).subscribers() == old(events).subscribers(),
            final(events).is_closed() == old(events).is_closed(),
            forall|k: int| 0 <= k < old(events).subscribers() ==> final(events).cursor(k) == old(events).cursor(k),
            old(events).is_closed() || old(events).is_full() ==> r is Err
                && final(events).history() == old(events).history(),
            !old(events).is_closed() && !old(events).is_full() ==> r is Ok,
            r is Ok ==> exists|e: E| call_ensures(*f, (item,), e)
                && final(events).history() == old(events).history().push(e)
                && final(events).origins() == old(events).origins().push(self.index as nat),
            r is Err ==> final(events).history() == old(events).history()
                && final(events).origins() == old(events).origins(),
    {
        let e = adapt_event(f, item);
        events.send(self.index, e)
    }
}

/// The handle through which strategy `index` submits actions to every executor.
pub struct SubmitHandle {
    pub index: usize,
}

impl SubmitHandle {
    /// Offers `action` to every executor; it comes back if the channel is
    /// full or closed.
    pub fn submit<A: Clone>(&self, actions: &mut Broadcast<A>, action: A) -> (r: Result<(), SendError<A>>)
        requires
            old(actions).wf(),
        ensures
            final(actions).wf(),
            final(actions).subscribers() == old(actions).subscribers(),
            final(actions).is_closed() == old(actions).is_closed(),
            forall|k: int| 0 <= k < old(actions).subscribers() ==> final(actions).cursor(k) == old(actions).cursor(k),
            old(actions).is_closed() ==> r == Err::<(), SendError<A>>(SendError::Closed(action)),
            !old(actions).is_closed() && old(actions).is_full() ==> r == Err::<(), SendError<A>>(SendError::Full(action)),
            !old(actions).is_closed() && !old(actions).is_full() ==> r is Ok,
            r is Ok ==> final(actions).history() == old(actions).history().push(action)
                && final(actions).origins() == old(actions).origins().push(self.index as nat),
            r is Err ==> final(actions).history() == old(actions).history()
                && final(actions).origins() == old(actions).origins(),
    {
        actions.send(self.index, action)
    }
}

/// The task of strategy `index`: it reads the event channel.
pub struct StrategyTask {
    pub index: usize,
}

impl StrategyTask {
    /// The next event for this strategy, in delivery order.
    pub fn next_event<E: Clone>(&self, events: &mut Broadcast<E>) -> (r: Next<E>)
        requires
            old(events).wf(),
            self.index < old(events).subscribers(),
        ensures
            final(events).wf(),
            final(events).history() == old(events).history(),
            final(events).subscribers() == old(events).subscribers(),
            final(events).is_closed() == old(events).is_closed(),
            forall|j: int| 0 <= j < old(events).subscribers() && j != self.index ==> final(events).cursor(j) == old(events).cursor(j),
            old(events).pending(self.index as int) > 0 ==> {
                &&& final(events).cursor(self.index as int) == old(events).cursor(self.index as int) + 1
                &&& r matches Next::Handle(e) && cloned(old(events).history()[old(events).cursor(self.index as int) as int], e)
            },
            old(events).pending(self.index as int) == 0 ==> {
                &&& final(events).cursor(self.index as int) == old(events).cursor(self.index as int)
                &&& old(events).is_closed() ==> r is Finish
                &&& !old(events).is_closed() ==> r is Wait
            },
    {
        match events.recv(self.index) {
            Recv::Item(e) => Next::Handle(e),
            Recv::Empty => Next::Wait,
            Recv::Closed => Next::Finish,
        }
    }
}

/// The executor's mapping was applied to (a clone of) `action` and gave `None`.
pub open spec fn skipped<A: Clone, T, F: Fn(&A) -> Option<T>>(f: F, action: A) -> bool {
    exists|x: A| cloned(action, x) && call_ensures(f, (&x,), None::<T>)
}

/// Every item of `h` from `c0` up to `c1` was skipped by the mapping `f`.
pub open spec fn all_skipped<A: Clone, T, F: Fn(&A) -> Option<T>>(f: F, h: Seq<A>, c0: int, c1: int) -> bool {
    forall|i: int| c0 <= i < c1 ==> skipped(f, #[trigger] h[i])
}

/// Reading from `c0` to `c1`, the mapping `f` skipped every item but the
/// last, which it mapped to `t`.
pub open spec fn picked<A: Clone, T, F: Fn(&A) -> Option<T>>(f: F, h: Seq<A>, c0: int, c1: int, t: T) -> bool {
    &&& c0 < c1
    &&& all_skipped(f, h, c0, c1 - 1)
    &&& exists|x: A| cloned(h[c1 - 1], x) && call_ensures(f, (&x,), Some(t))
}

/// The task of executor `index`: it reads the action channel. Whether an
/// execution failed plays no part here: a task ends only when its channel
/// is closed and drained.
pub struct ExecutorTask {
    pub index: usize,
}

impl ExecutorTask {
    /// Reads actions until one that the mapping `f` addresses to this
    /// executor, which is returned mapped; those it skips are passed over.
    pub fn next_action<A: Clone, T, F: Fn(&A) -> Option<T>>(&self, actions: &mut Broadcast<A>, f: &F) -> (r: Next<T>)
        requires
            old(actions).wf(),
            self.index < old(actions).subscribers(),
            forall|a: &A| call_requires(*f, (a,)),
        ensures
            final(actions).wf(),
            final(actions).history() == old(actions).history(),
            final(actions).subscribers() == old(actions).subscribers(),
            final(actions).is_closed() == old(actions).is_closed(),
            forall|j: int| 0 <= j < old(actions).subscribers() && j != self.index ==> final(actions).cursor(j) == old(actions).cursor(j),
            old(actions).cursor(self.index as int) <= final(actions).cursor(self.index as int),
            ({
                let k = self.index as int;
                let c0 = old(actions).cursor(k) as int;
                let c1 = final(actions).cursor(k) as int;
                match r {
                    Next::Handle(t) => picked(*f, old(actions).history(), c0, c1, t),
                    _ => {
                        &&& c1 == old(actions).history().len()
                        &&& all_skipped(*f, old(actions).history(), c0, c1)
                        &&& (r is Finish <==> old(actions).is_closed())
                    },
                }
            }),
    {
        let ghost c0 = actions.cursor(self.index as int) as int;
        proof {
            actions.lemma_wf_bounds(self.index as int);
        }
        loop
            invariant
                actions.wf(),
                actions.history() == old(actions).history(),
                actions.subscribers() == old(actions).subscribers(),
                actions.is_closed() == old(actions).is_closed(),
                self.index < actions.subscribers(),
                forall|a: &A| call_requires(*f, (a,)),
                forall|j: int| 0 <= j < old(actions).subscribers() && j != self.index ==> actions.cursor(j) == old(actions).cursor(j),
                c0 == old(actions).cursor(self.index as int),
                c0 <= actions.cursor(self.index as int),
                all_skipped(*f, actions.history(), c0, actions.cursor(self.index as int) as int),
            decreases actions.pending(self.index as int),
        {
            proof {
                actions.lemma_wf_bounds(self.index as int);
            }
            let ghost c = actions.cursor(self.index as int) as int;
            match actions.recv(self.index) {
                Recv::Item(a) => {
                    let routed = route_action(f, &a);
                    match routed {
                        Some(t) => {
                            assert(cloned(actions.history()[c], a) && call_ensures(*f, (&a,), Some(t)));
                            assert(actions.cursor(self.index as int) - 1 == c);
                            assert(picked(*f, old(actions).history(), c0, c + 1, t));
                            return Next::Handle(t);
                        },
                        None => {
                            assert(cloned(actions.history()[c], a) && call_ensures(*f, (&a,), None::<T>));
                            assert(skipped(*f, actions.history()[c]));
                        },
                    }
                },
                Recv::Empty => {
                    return Next::Wait;
                },
                Recv::Closed => {
                    return Next::Finish;
                },
            }
        }
    }
}

} // verus!
