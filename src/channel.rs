use vstd::prelude::*;

verus! {

/// The items of `items` whose origin (given position by position in `origins`)
/// is `source`, in the order in which they stand.
pub open spec fn from_source<T>(items: Seq<T>, origins: Seq<nat>, source: nat) -> Seq<T>
    decreases items.len(),
{
    if items.len() == 0 || origins.len() != items.len() {
        Seq::empty()
    } else {
        let rest = from_source(items.drop_last(), origins.drop_last(), source);
        if origins.last() == source {
            rest.push(items.last())
        } else {
            rest
        }
    }
}

/// `a` is an initial part of `b`.
pub open spec fn is_prefix<T>(a: Seq<T>, b: Seq<T>) -> bool {
    a.len() <= b.len() && a == b.take(a.len() as int)
}

/// Appending an item adds it to the items of its own source and leaves the
/// items of every other source as they were.
pub proof fn lemma_from_source_push<T>(items: Seq<T>, origins: Seq<nat>, x: T, o: nat, source: nat)
    requires
        items.len() == origins.len(),
    ensures
        from_source(items.push(x), origins.push(o), source) == if o == source {
            from_source(items, origins, source).push(x)
        } else {
            from_source(items, origins, source)
        },
{
    assert(items.push(x).drop_last() =~= items);
    assert(origins.push(o).drop_last() =~= origins);
}

/// The items of one source within the first `i` items are an initial part of
/// all the items of that source.
pub proof fn lemma_from_source_take<T>(items: Seq<T>, origins: Seq<nat>, i: int, source: nat)
    requires
        items.len() == origins.len(),
        0 <= i <= items.len(),
    ensures
        is_prefix(
            from_source(items.take(i), origins.take(i), source),
            from_source(items, origins, source),
        ),
    decreases items.len(),
{
    if i == items.len() {
        assert(items.take(i) =~= items);
        assert(origins.take(i) =~= origins);
        let all = from_source(items, origins, source);
        assert(all.take(all.len() as int) =~= all);
    } else {
        let (h, o) = (items.drop_last(), origins.drop_last());
        lemma_from_source_take(h, o, i, source);
        assert(h.take(i) =~= items.take(i));
        assert(o.take(i) =~= origins.take(i));
        let part = from_source(items.take(i), origins.take(i), source);
        let rest = from_source(h, o, source);
        assert(from_source(h.take(i), o.take(i), source) == part);
        assert(part.len() <= rest.len() && part == rest.take(part.len() as int));
        if origins.last() == source {
            assert(from_source(items, origins, source) == rest.push(items.last()));
            assert(part =~= rest.push(items.last()).take(part.len() as int));
        } else {
            assert(from_source(items, origins, source) == rest);
        }
    }
}

/// What a sender is told when its item was not taken; the item comes back.
pub enum SendError<T> {
    /// The channel was closed: no more items are accepted.
    Closed(T),
    /// Some subscriber has `capacity` items still to read: the sender waits.
    Full(T),
}

/// What a subscriber gets when it asks for its next item.
pub enum Recv<T> {
    /// The next item, in the order in which the items were sent.
    Item(T),
    /// Nothing to read yet, and the channel is still open.
    Empty,
    /// The channel is closed and this subscriber has read every item.
    Closed,
}

/// A bounded multi-producer broadcast channel: every subscriber reads every
/// item, in the order in which the items were sent.
///
/// Items that every subscriber has read are dropped; no subscriber may fall
/// more than `capacity` items behind, which is what makes senders wait.
pub struct Broadcast<T> {
    buf: Vec<T>,
    base: usize,
    cursors: Vec<usize>,
    capacity: usize,
    closed: bool,
    history: Ghost<Seq<T>>,
    origins: Ghost<Seq<nat>>,
}

impl<T: Clone> Broadcast<T> {
    /// Every item ever sent, in order.
    pub closed spec fn history(&self) -> Seq<T> {
        self.history@
    }

    /// The producer that sent each item of `history`.
    pub closed spec fn origins(&self) -> Seq<nat> {
        self.origins@
    }

    /// How many items subscriber `k` has read.
    pub closed spec fn cursor(&self, k: int) -> nat {
        self.cursors@[k] as nat
    }

    pub closed spec fn subscribers(&self) -> nat {
        self.cursors@.len()
    }

    pub closed spec fn capacity(&self) -> nat {
        self.capacity as nat
    }

    pub closed spec fn is_closed(&self) -> bool {
        self.closed
    }

    /// The items subscriber `k` has read so far.
    pub open spec fn received(&self, k: int) -> Seq<T> {
        self.history().take(self.cursor(k) as int)
    }

    /// The items subscriber `k` has still to read.
    pub open spec fn pending(&self, k: int) -> nat {
        (self.history().len() - self.cursor(k)) as nat
    }

    /// Whether a send would have to wait: some subscriber is `capacity` items
    /// behind, or the count of items sent has reached the largest `usize`.
    pub open spec fn is_full(&self) -> bool {
        ||| exists|k: int| 0 <= k < self.subscribers() && self.pending(k) >= self.capacity()
        ||| self.history().len() >= usize::MAX
    }

    pub closed spec fn wf(&self) -> bool {
        &&& self.capacity > 0
        &&& self.origins@.len() == self.history@.len()
        &&& self.history@.len() <= usize::MAX
        &&& self.base + self.buf@.len() == self.history@.len()
        &&& self.buf@ == self.history@.subrange(self.base as int, self.history@.len() as int)
        &&& forall|k: int|
            0 <= k < self.cursors@.len() ==> self.base <= #[trigger] self.cursors@[k]
                <= self.history@.len()
        &&& if self.cursors@.len() == 0 {
            self.base == self.history@.len()
        } else {
            exists|k: int| 0 <= k < self.cursors@.len() && #[trigger] self.cursors@[k] == self.base
        }
    }

    pub proof fn lemma_wf_bounds(&self, k: int)
        requires
            self.wf(),
            0 <= k < self.subscribers(),
        ensures
            self.cursor(k) <= self.history().len(),
            self.origins().len() == self.history().len(),
    {
        assert(self.base <= self.cursors@[k] <= self.history@.len());
    }

    /// An open, empty channel for `subscribers` readers.
    pub fn new(subscribers: usize, capacity: usize) -> (r: Self)
        requires
            capacity > 0,
        ensures
            r.wf(),
            r.history() == Seq::<T>::empty(),
            r.subscribers() == subscribers,
            r.capacity() == capacity,
            !r.is_closed(),
            forall|k: int| 0 <= k < subscribers ==> r.cursor(k) == 0,
    {
        let mut cursors: Vec<usize> = Vec::new();
        let mut i: usize = 0;
        while i < subscribers
            invariant
                i <= subscribers,
                cursors@.len() == i,
                forall|k: int| 0 <= k < i ==> cursors@[k] == 0,
            decreases subscribers - i,
        {
            cursors.push(0);
            i = i + 1;
        }
        let r = Broadcast {
            buf: Vec::new(),
            base: 0,
            cursors,
            capacity,
            closed: false,
            history: Ghost(Seq::empty()),
            origins: Ghost(Seq::empty()),
        };
        assert(r.buf@ =~= r.history@.subrange(0, 0));
        if subscribers > 0 {
            assert(r.cursors@[0] == r.base);
        }
        r
    }

    pub fn subscriber_count(&self) -> (r: usize)
        requires
            self.wf(),
        ensures
            r == self.subscribers(),
    {
        self.cursors.len()
    }

    pub fn closed(&self) -> (r: bool)
        requires
            self.wf(),
        ensures
            r == self.is_closed(),
    {
        self.closed
    }

    /// Whether subscriber `k` has read every item sent so far.
    pub fn caught_up(&self, k: usize) -> (r: bool)
        requires
            self.wf(),
            k < self.subscribers(),
        ensures
            r == (self.pending(k as int) == 0),
    {
        self.cursors[k] == self.base + self.buf.len()
    }

    /// Offers `item`, sent by producer `source`, to every subscriber.
    pub fn send(&mut self, source: usize, item: T) -> (r: Result<(), SendError<T>>)
        requires
            old(self).wf(),
        ensures
            final(self).wf(),
            final(self).subscribers() == old(self).subscribers(),
            final(self).capacity() == old(self).capacity(),
            final(self).is_closed() == old(self).is_closed(),
            forall|k: int| 0 <= k < old(self).subscribers() ==> final(self).cursor(k) == old(self).cursor(k),
            old(self).is_closed() ==> r == Err::<(), SendError<T>>(SendError::Closed(item)),
            !old(self).is_closed() && old(self).is_full() ==> r == Err::<(), SendError<T>>(SendError::Full(item)),
            !old(self).is_closed() && !old(self).is_full() ==> r is Ok,
            r is Ok ==> final(self).history() == old(self).history().push(item)
                && final(self).origins() == old(self).origins().push(source as nat),
            r is Err ==> final(self).history() == old(self).history()
                && final(self).origins() == old(self).origins(),
    {
        if self.closed {
            return Err(SendError::Closed(item));
        }
        if self.buf.len() >= self.capacity || self.base + self.buf.len() == usize::MAX {
            proof {
                if self.buf@.len() >= self.capacity {
                    let k = choose|k: int| 0 <= k < self.cursors@.len() && #[trigger] self.cursors@[k] == self.base;
                    assert(self.pending(k) >= self.capacity());
                }
            }
            return Err(SendError::Full(item));
        }
        assert(!self.is_full() ==> self.buf@.len() < self.capacity) by {
            if self.cursors@.len() > 0 {
                let k = choose|k: int| 0 <= k < self.cursors@.len() && #[trigger] self.cursors@[k] == self.base;
                assert(self.pending(k) == self.buf@.len());
            }
        }
        proof {
            self.history@ = self.history@.push(item);
            self.origins@ = self.origins@.push(source as nat);
        }
        if self.cursors.len() == 0 {
            self.base = self.base + 1;
        } else {
            self.buf.push(item);
        }
        assert(self.buf@ =~= self.history@.subrange(self.base as int, self.history@.len() as int));
        Ok(())
    }

    /// Takes the next item of subscriber `k`.
    pub fn recv(&mut self, k: usize) -> (r: Recv<T>)
        requires
            old(self).wf(),
            k < old(self).subscribers(),
        ensures
            final(self).wf(),
            final(self).history() == old(self).history(),
            final(self).origins() == old(self).origins(),
            final(self).subscribers() == old(self).subscribers(),
            final(self).capacity() == old(self).capacity(),
            final(self).is_closed() == old(self).is_closed(),
            forall|j: int| 0 <= j < old(self).subscribers() && j != k ==> final(self).cursor(j) == old(self).cursor(j),
            old(self).pending(k as int) > 0 ==> {
                &&& final(self).cursor(k as int) == old(self).cursor(k as int) + 1
                &&& r matches Recv::Item(x) && cloned(old(self).history()[old(self).cursor(k as int) as int], x)
            },
            old(self).pending(k as int) == 0 ==> {
                &&& final(self).cursor(k as int) == old(self).cursor(k as int)
                &&& old(self).is_closed() ==> r is Closed
                &&& !old(self).is_closed() ==> r is Empty
            },
    {
        let c = self.cursors[k];
        if c == self.base + self.buf.len() {
            if self.closed {
                return Recv::Closed;
            } else {
                return Recv::Empty;
            }
        }
        let x = self.buf[c - self.base].clone();
        // the oldest item is dropped once every subscriber has read it
        let mut others_behind = false;
        let mut j: usize = 0;
        while j < self.cursors.len()
            invariant
                self.wf(),
                k < self.cursors@.len(),
                j <= self.cursors@.len(),
                others_behind <==> exists|i: int|
                    0 <= i < j && i != k && #[trigger] self.cursors@[i] == self.base,
            decreases self.cursors@.len() - j,
        {
            if j != k && self.cursors[j] == self.base {
                others_behind = true;
            }
            j = j + 1;
        }
        let ghost old_cursors = self.cursors@;
        self.cursors.set(k, c + 1);
        assert(self.cursors@[k as int] == c + 1);
        proof {
            if others_behind {
                let w = choose|i: int| 0 <= i < old_cursors.len() && i != k && #[trigger] old_cursors[i] == self.base;
                assert(self.cursors@[w] == self.base);
            } else if c != self.base {
                let w = choose|i: int| 0 <= i < old_cursors.len() && #[trigger] old_cursors[i] == self.base;
                assert(w != k);
                assert(self.cursors@[w] == self.base);
            }
            assert forall|i: int| 0 <= i < self.cursors@.len() implies self.base <= #[trigger] self.cursors@[i]
                <= self.history@.len() by {
                if i != k {
                    assert(old_cursors[i] == self.cursors@[i]);
                }
            }
        }
        if !others_behind && c == self.base {
            self.buf.remove(0);
            self.base = self.base + 1;
            assert(self.buf@ =~= self.history@.subrange(self.base as int, self.history@.len() as int));
            assert forall|i: int| 0 <= i < self.cursors@.len() implies self.base <= #[trigger] self.cursors@[i] by {
                if i != k {
                    assert(old_cursors[i] == self.cursors@[i]);
                    assert(old_cursors[i] != self.base - 1);
                }
            }
            assert(self.cursors@[k as int] == self.base);
        }
        Recv::Item(x)
    }

    /// Closes the channel: no more sends are accepted, and subscribers read
    /// what is left before they are told that it is closed.
    pub fn close(&mut self)
        requires
            old(self).wf(),
        ensures
            final(self).wf(),
            final(self).is_closed(),
            final(self).history() == old(self).history(),
            final(self).origins() == old(self).origins(),
            final(self).subscribers() == old(self).subscribers(),
            final(self).capacity() == old(self).capacity(),
            forall|k: int| 0 <= k < old(self).subscribers() ==> final(self).cursor(k) == old(self).cursor(k),
    {
        self.closed = true;
    }
}

/// Delivery keeps each source's order and loses or repeats nothing: what a
/// subscriber has read from one producer is an initial part of everything
/// that producer sent, and all of it once the subscriber has caught up.
pub proof fn lemma_delivery_per_source<T: Clone>(b: &Broadcast<T>, k: int, source: nat)
    requires
        b.wf(),
        0 <= k < b.subscribers(),
    ensures
        is_prefix(
            from_source(b.received(k), b.origins().take(b.cursor(k) as int), source),
            from_source(b.history(), b.origins(), source),
        ),
        b.pending(k) == 0 ==> from_source(b.received(k), b.origins().take(b.cursor(k) as int), source)
            == from_source(b.history(), b.origins(), source),
{
    b.lemma_wf_bounds(k);
    lemma_from_source_take(b.history(), b.origins(), b.cursor(k) as int, source);
    if b.pending(k) == 0 {
        assert(b.received(k) =~= b.history());
        assert(b.origins().take(b.cursor(k) as int) =~= b.origins());
    }
}

/// Broadcast, not shared work: two subscribers that have both caught up have
/// read the same items, namely every item that was sent.
pub proof fn lemma_broadcast<T: Clone>(b: &Broadcast<T>, j: int, k: int)
    requires
        b.wf(),
        0 <= j < b.subscribers(),
        0 <= k < b.subscribers(),
        b.pending(j) == 0,
        b.pending(k) == 0,
    ensures
        b.received(j) == b.history(),
        b.received(k) == b.history(),
{
    b.lemma_wf_bounds(j);
    b.lemma_wf_bounds(k);
    assert(b.received(j) =~= b.history());
    assert(b.received(k) =~= b.history());
}

} // verus!
