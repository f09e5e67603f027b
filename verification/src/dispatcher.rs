use crate::types::events::{DomainEvent, DomainEventModel};
use vstd::prelude::*;

verus! {

/// Hands the events of a session to its subscribers.
///
/// The events are kept in the order they were published. Each subscriber
/// reads them at its own pace, from the moment it subscribed: publishing
/// never waits for a subscriber, and no subscriber can hold up another.
#[derive(Debug)]
pub struct Dispatcher {
    log: Vec<DomainEvent>,
    /// For each subscriber, how many events had been published when it
    /// subscribed.
    starts: Vec<usize>,
    /// For each subscriber, the place in the log of the next event it reads.
    cursors: Vec<usize>,
}

/// The mathematical value of a [`Dispatcher`].
pub struct DispatcherModel {
    /// Every event that was published, in order.
    pub log: Seq<DomainEventModel>,
    pub starts: Seq<usize>,
    pub cursors: Seq<usize>,
}

impl DispatcherModel {
    /// The subscribers are as many as their cursors, and each cursor lies
    /// between the place where its subscriber began and the end of the log.
    pub open spec fn wf(self) -> bool {
        &&& self.starts.len() == self.cursors.len()
        &&& forall|i: int|
            0 <= i < self.cursors.len() ==> self.starts[i] <= #[trigger] self.cursors[i]
                <= self.log.len()
    }

    /// How many subscribers there are.
    pub open spec fn subscribers(self) -> nat {
        self.cursors.len()
    }

    /// The events that a subscriber has read so far, in the order it read
    /// them.
    pub open spec fn delivered(self, id: int) -> Seq<DomainEventModel>
        recommends
            self.wf(),
            0 <= id < self.subscribers(),
    {
        self.log.subrange(self.starts[id] as int, self.cursors[id] as int)
    }

    /// The events that a subscriber has yet to read, in the order it will
    /// read them.
    pub open spec fn pending(self, id: int) -> Seq<DomainEventModel>
        recommends
            self.wf(),
            0 <= id < self.subscribers(),
    {
        self.log.subrange(self.cursors[id] as int, self.log.len() as int)
    }

    /// The dispatcher after `event` was published.
    pub open spec fn published(self, event: DomainEventModel) -> DispatcherModel {
        DispatcherModel { log: self.log.push(event), ..self }
    }

    /// The dispatcher after one more subscriber joined.
    pub open spec fn subscribed(self) -> DispatcherModel {
        DispatcherModel {
            starts: self.starts.push(self.log.len() as usize),
            cursors: self.cursors.push(self.log.len() as usize),
            ..self
        }
    }

    /// The dispatcher after the subscriber `id` read its next event.
    pub open spec fn polled(self, id: int) -> DispatcherModel
        recommends
            self.wf(),
            0 <= id < self.subscribers(),
            self.cursors[id] < self.log.len(),
    {
        DispatcherModel {
            cursors: self.cursors.update(id, (self.cursors[id] + 1) as usize),
            ..self
        }
    }
}

impl DeepView for Dispatcher {
    type V = DispatcherModel;

    closed spec fn deep_view(&self) -> DispatcherModel {
        DispatcherModel {
            log: self.log.deep_view(),
            starts: self.starts@,
            cursors: self.cursors@,
        }
    }
}

impl Dispatcher {
    /// Whether the dispatcher is in order.
    pub open spec fn wf(&self) -> bool {
        self.deep_view().wf()
    }

    /// A dispatcher without events and without subscribers.
    pub fn new() -> (r: Dispatcher)
        ensures
            r.wf(),
            r.deep_view().log.len() == 0,
            r.deep_view().subscribers() == 0,
    {
        Dispatcher { log: Vec::new(), starts: Vec::new(), cursors: Vec::new() }
    }

    /// How many subscribers there are.
    pub fn subscribers(&self) -> (r: usize)
        requires
            self.wf(),
        ensures
            r == self.deep_view().subscribers(),
    {
        self.cursors.len()
    }

    /// How many events were published so far.
    pub fn published(&self) -> (r: usize)
        ensures
            r == self.deep_view().log.len(),
    {
        self.log.len()
    }

    /// Adds a subscriber and returns its number. It will read the events
    /// that are published from now on.
    pub fn subscribe(&mut self) -> (id: usize)
        requires
            old(self).wf(),
        ensures
            final(self).wf(),
            id == old(self).deep_view().subscribers(),
            final(self).deep_view() == old(self).deep_view().subscribed(),
            final(self).deep_view().delivered(id as int).len() == 0,
            final(self).deep_view().pending(id as int).len() == 0,
    {
        let id = self.cursors.len();
        let at = self.log.len();
        self.starts.push(at);
        self.cursors.push(at);
        id
    }

    /// Publishes an event: every subscriber has it to read after what it
    /// had to read before. What the subscribers have read does not change.
    pub fn publish(&mut self, event: DomainEvent)
        requires
            old(self).wf(),
        ensures
            final(self).wf(),
            final(self).deep_view() == old(self).deep_view().published(event.deep_view()),
            forall|id: int|
                0 <= id < old(self).deep_view().subscribers() ==> {
                    &&& #[trigger] final(self).deep_view().pending(id) == old(
                        self,
                    ).deep_view().pending(id).push(event.deep_view())
                    &&& final(self).deep_view().delivered(id) == old(self).deep_view().delivered(
                        id,
                    )
                },
    {
        let ghost before = self.deep_view();
        self.log.push(event);
        proof {
            let after = self.deep_view();
            assert(after.log =~= before.log.push(event.deep_view()));
            assert forall|id: int| 0 <= id < before.subscribers() implies {
                &&& #[trigger] after.pending(id) == before.pending(id).push(event.deep_view())
                &&& after.delivered(id) == before.delivered(id)
            } by {
                assert(before.starts[id] <= before.cursors[id] <= before.log.len());
                assert(after.pending(id) =~= before.pending(id).push(event.deep_view()));
                assert(after.delivered(id) =~= before.delivered(id));
            }
        }
    }

    /// The next event for the subscriber `id`, which has then read it.
    ///
    /// Returns `None`, and changes nothing, exactly where there is no such
    /// subscriber or it has read every event.
    pub fn poll(&mut self, id: usize) -> (r: Option<&DomainEvent>)
        requires
            old(self).wf(),
        ensures
            final(self).wf(),
            match r {
                Some(event) => {
                    &&& id < old(self).deep_view().subscribers()
                    &&& old(self).deep_view().pending(id as int).len() > 0
                    &&& event.deep_view() == old(self).deep_view().pending(id as int)[0]
                    &&& final(self).deep_view() == old(self).deep_view().polled(id as int)
                    &&& final(self).deep_view().delivered(id as int) == old(
                        self,
                    ).deep_view().delivered(id as int).push(event.deep_view())
                    &&& final(self).deep_view().pending(id as int) == old(
                        self,
                    ).deep_view().pending(id as int).skip(1)
                },
                None => {
                    &&& final(self).deep_view() == old(self).deep_view()
                    &&& id < old(self).deep_view().subscribers() ==> old(
                        self,
                    ).deep_view().pending(id as int).len() == 0
                },
            },
    {
        if id >= self.cursors.len() {
            return None;
        }
        let at = self.cursors[id];
        if at >= self.log.len() {
            return None;
        }
        let ghost before = self.deep_view();
        assert(before.starts[id as int] <= before.cursors[id as int] <= before.log.len());
        self.cursors.set(id, at + 1);
        proof {
            let after = self.deep_view();
            assert(after.cursors =~= before.cursors.update(id as int, (at + 1) as usize));
            assert(after.delivered(id as int) =~= before.delivered(id as int).push(
                before.log[at as int],
            ));
            assert(after.pending(id as int) =~= before.pending(id as int).skip(1));
            assert forall|i: int| 0 <= i < after.cursors.len() implies after.starts[i]
                <= #[trigger] after.cursors[i] <= after.log.len() by {
                assert(before.starts[i] <= before.cursors[i] <= before.log.len());
            }
        }
        Some(&self.log[at])
    }

    /// How many events the subscriber `id` has yet to read; zero where
    /// there is no such subscriber.
    pub fn backlog(&self, id: usize) -> (r: usize)
        requires
            self.wf(),
        ensures
            r == if id < self.deep_view().subscribers() {
                self.deep_view().pending(id as int).len()
            } else {
                0
            },
    {
        if id >= self.cursors.len() {
            return 0;
        }
        assert(self.deep_view().starts[id as int] <= self.deep_view().cursors[id as int]
            <= self.deep_view().log.len());
        self.log.len() - self.cursors[id]
    }
}

/// What a subscriber has read and what it has yet to read are, one after
/// the other, the events that were published since it subscribed, in the
/// order they were published.
pub proof fn lemma_delivery_in_order(dispatcher: DispatcherModel, id: int)
    requires
        dispatcher.wf(),
        0 <= id < dispatcher.subscribers(),
    ensures
        dispatcher.delivered(id) + dispatcher.pending(id) == dispatcher.log.skip(
            dispatcher.starts[id] as int,
        ),
{
    assert(dispatcher.starts[id] <= dispatcher.cursors[id] <= dispatcher.log.len());
    assert(dispatcher.delivered(id) + dispatcher.pending(id) =~= dispatcher.log.skip(
        dispatcher.starts[id] as int,
    ));
}

} // verus!
