//! The register of an event channel: who has subscribed, and to whom an
//! event goes. The handlers themselves live outside; a subscription is known
//! here by its handle.

use vstd::prelude::*;
use super::Event;

verus! {

/// The handle of a subscription.
#[derive(Debug, PartialEq, Eq, Structural, Clone, Copy)]
pub struct Subscription {
    pub id: u64,
}

/// One channel of the router: the handles of its subscribers in the order in
/// which they subscribed.
pub struct Channel {
    subscribers: Vec<u64>,
    next: u64,
}

/// The handles in `ids` without `id`, in their order.
pub open spec fn without(ids: Seq<u64>, id: u64) -> Seq<u64> {
    ids.filter(|x: u64| x != id)
}

impl Channel {
    /// The handles of the subscribers in the order in which they
    /// subscribed.
    pub closed spec fn subscribers(&self) -> Seq<u64> {
        self.subscribers@
    }

    /// The handle that the next subscriber gets.
    pub closed spec fn next(&self) -> u64 {
        self.next
    }

    /// Handles rise with the order of subscription and lie below the next
    /// handle, so none occurs twice.
    #[verifier::type_invariant]
    spec fn wf(&self) -> bool {
        &&& forall|i: int, j: int|
            #![trigger self.subscribers()[i], self.subscribers()[j]]
            0 <= i < j < self.subscribers().len() ==> self.subscribers()[i] < self.subscribers()[j]
        &&& forall|i: int|
            0 <= i < self.subscribers().len() ==> #[trigger] self.subscribers()[i] < self.next()
    }

    /// A channel without subscribers.
    pub fn new() -> (r: Self)
        ensures
            r.subscribers() == Seq::<u64>::empty(),
    {
        Channel { subscribers: Vec::new(), next: 0 }
    }

    /// Registers a handler and gives it its handle. There is none once all
    /// handles have been given out.
    pub fn subscribe(&mut self) -> (r: Option<Subscription>)
        ensures
            match r {
                Some(s) => s.id == old(self).next() && final(self).subscribers() == old(
                    self,
                ).subscribers().push(s.id) && !old(self).subscribers().contains(s.id),
                None => old(self).next() == u64::MAX && final(self).subscribers() == old(
                    self,
                ).subscribers(),
            },
    {
        proof {
            use_type_invariant(&*self);
        }
        if self.next == u64::MAX {
            return None;
        }
        let id = self.next;
        proof {
            if self.subscribers@.contains(id) {
                let w = choose|w: int| 0 <= w < self.subscribers@.len() && self.subscribers@[w] == id;
                assert(self.subscribers()[w] < self.next());
            }
        }
        let mut ids = self.subscribers.clone();
        assert(ids@ == self.subscribers@);
        ids.push(id);
        proof {
            assert forall|i: int, j: int| 0 <= i < j < ids@.len() implies ids@[i] < ids@[j] by {
                if j < ids@.len() - 1 {
                    assert(self.subscribers()[i] < self.subscribers()[j]);
                } else {
                    assert(self.subscribers()[i] < self.next());
                }
            }
            assert forall|i: int| 0 <= i < ids@.len() implies #[trigger] ids@[i] < id + 1 by {
                if i < ids@.len() - 1 {
                    assert(self.subscribers()[i] < self.next());
                }
            }
        }
        *self = Channel { subscribers: ids, next: id + 1 };
        Some(Subscription { id })
    }

    /// Removes the handler of a handle; the others stay in their order.
    /// Answers whether there was such a handler.
    pub fn unsubscribe(&mut self, subscription: Subscription) -> (r: bool)
        ensures
            r == old(self).subscribers().contains(subscription.id),
            final(self).subscribers() == without(old(self).subscribers(), subscription.id),
            final(self).next() == old(self).next(),
    {
        proof {
            use_type_invariant(&*self);
        }
        let mut kept: Vec<u64> = Vec::new();
        let mut found = false;
        let n = self.subscribers.len();
        let mut i: usize = 0;
        while i < n
            invariant
                n == self.subscribers.len(),
                i <= n,
                self.wf(),
                *self == *old(self),
                kept@ == without(self.subscribers@.take(i as int), subscription.id),
                found == self.subscribers@.take(i as int).contains(subscription.id),
                forall|k: int| 0 <= k < kept.len() ==> #[trigger] kept@[k] < self.next,
                forall|k: int, l: int|
                    #![trigger kept@[k], kept@[l]]
                    0 <= k < l < kept.len() ==> kept@[k] < kept@[l],
                forall|k: int, m: int|
                    #![trigger kept@[k], self.subscribers@[m]]
                    0 <= k < kept.len() && i <= m < n ==> kept@[k] < self.subscribers@[m],
            decreases n - i,
        {
            let id = self.subscribers[i];
            proof {
                assert(self.subscribers()[i as int] < self.next());
                assert forall|m: int| i < m < n implies id < #[trigger] self.subscribers@[m] by {
                    assert(self.subscribers()[i as int] < self.subscribers()[m]);
                }
                let before = self.subscribers@.take(i as int);
                let upto = self.subscribers@.take(i + 1);
                assert(upto == before.push(id));
                lemma_without_push(before, id, subscription.id);
                if upto.contains(subscription.id) {
                    let w = choose|w: int| 0 <= w < upto.len() && upto[w] == subscription.id;
                    if w < i {
                        assert(before[w] == subscription.id);
                    }
                }
                if before.contains(subscription.id) {
                    let w = choose|w: int| 0 <= w < before.len() && before[w] == subscription.id;
                    assert(upto[w] == subscription.id);
                }
                if id == subscription.id {
                    assert(upto[i as int] == subscription.id);
                }
            }
            if id == subscription.id {
                found = true;
            } else {
                kept.push(id);
            }
            i = i + 1;
        }
        proof {
            assert(self.subscribers@.take(n as int) == self.subscribers@);
        }
        *self = Channel { subscribers: kept, next: self.next };
        found
    }

    /// The handlers to which an event goes: every subscriber at the time of
    /// publishing, once each, in the order of subscription.
    pub fn publish(&self) -> (r: Vec<Subscription>)
        ensures
            r.len() == self.subscribers().len(),
            forall|i: int| 0 <= i < r.len() ==> (#[trigger] r@[i]).id == self.subscribers()[i],
            forall|i: int, j: int|
                #![trigger r@[i], r@[j]]
                0 <= i < j < r.len() ==> r@[i].id != r@[j].id,
    {
        proof {
            use_type_invariant(self);
            assert forall|i: int, j: int| 0 <= i < j < self.subscribers().len() implies
                self.subscribers()[i] != self.subscribers()[j] by {
                assert(self.subscribers()[i] < self.subscribers()[j]);
            }
        }
        let mut out: Vec<Subscription> = Vec::new();
        let n = self.subscribers.len();
        let mut i: usize = 0;
        while i < n
            invariant
                n == self.subscribers.len(),
                i <= n,
                out.len() == i,
                forall|k: int| 0 <= k < i ==> (#[trigger] out@[k]).id == self.subscribers@[k],
                forall|k: int, l: int|
                    #![trigger self.subscribers@[k], self.subscribers@[l]]
                    0 <= k < l < n ==> self.subscribers@[k] != self.subscribers@[l],
            decreases n - i,
        {
            out.push(Subscription { id: self.subscribers[i] });
            i = i + 1;
        }
        out
    }
}

/// Filtering a sequence with one more item: the item is kept unless it is
/// the one left out.
proof fn lemma_without_push(ids: Seq<u64>, last: u64, id: u64)
    ensures
        without(ids.push(last), id) == if last != id {
            without(ids, id).push(last)
        } else {
            without(ids, id)
        },
{
    reveal(Seq::filter);
    assert(ids.push(last).drop_last() == ids);
}

/// After unsubscribing, the handle is gone and every other handle is still
/// there.
pub proof fn lemma_unsubscribed_is_gone(ids: Seq<u64>, id: u64, other: u64)
    ensures
        !without(ids, id).contains(id),
        other != id ==> (without(ids, id).contains(other) <==> ids.contains(other)),
    decreases ids.len(),
{
    reveal(Seq::filter);
    if ids.len() > 0 {
        let front = ids.drop_last();
        lemma_unsubscribed_is_gone(front, id, other);
        lemma_without_push(front, ids.last(), id);
        assert(ids == front.push(ids.last()));
        let kept = without(front, id);
        if ids.last() != id {
            assert(without(ids, id) == kept.push(ids.last()));
            assert(kept.push(ids.last()).last() == ids.last());
            if kept.push(ids.last()).contains(id) {
                let w = choose|w: int| 0 <= w < kept.len() + 1 && kept.push(ids.last())[w] == id;
                assert(kept[w] == id);
            }
        }
        if other != id {
            if ids.contains(other) {
                let w = choose|w: int| 0 <= w < ids.len() && ids[w] == other;
                if w < front.len() {
                    assert(front[w] == other);
                    assert(kept.contains(other));
                    let v = choose|v: int| 0 <= v < kept.len() && kept[v] == other;
                    assert(without(ids, id)[v] == other);
                } else {
                    assert(without(ids, id).last() == other);
                }
            }
            if without(ids, id).contains(other) {
                let w = choose|w: int| 0 <= w < without(ids, id).len() && without(ids, id)[w] == other;
                if w < kept.len() {
                    assert(kept[w] == other);
                    assert(front.contains(other));
                    let v = choose|v: int| 0 <= v < front.len() && front[v] == other;
                    assert(ids[v] == other);
                } else {
                    assert(ids.last() == other);
                    assert(ids[ids.len() - 1] == other);
                }
            }
        }
    }
}

/// One of the two channels of the router.
#[derive(Debug, PartialEq, Eq, Structural, Clone, Copy)]
pub enum Route {
    /// The channel of the commands.
    Commands,
    /// The channel of the errors.
    Errors,
}

/// The channel on which an event travels: a command on the channel of the
/// commands, an error on the channel of the errors.
pub open spec fn route_of(event: Event) -> Route {
    match event {
        Event::Command(_) => Route::Commands,
        Event::Error(_) => Route::Errors,
    }
}

/// The router: one channel for commands and one for errors, each with
/// subscribers of its own.
pub struct Router {
    commands: Channel,
    errors: Channel,
}

impl Router {
    /// The handles of the subscribers of a channel, in the order in which
    /// they subscribed.
    pub closed spec fn subscribers(&self, route: Route) -> Seq<u64> {
        match route {
            Route::Commands => self.commands.subscribers(),
            Route::Errors => self.errors.subscribers(),
        }
    }

    /// The handle that the next subscriber of a channel gets.
    pub closed spec fn next(&self, route: Route) -> u64 {
        match route {
            Route::Commands => self.commands.next(),
            Route::Errors => self.errors.next(),
        }
    }

    /// A router without subscribers.
    pub fn new() -> (r: Self)
        ensures
            r.subscribers(Route::Commands) == Seq::<u64>::empty(),
            r.subscribers(Route::Errors) == Seq::<u64>::empty(),
    {
        Router { commands: Channel::new(), errors: Channel::new() }
    }

    /// Registers a handler on a channel and gives it its handle; the other
    /// channel stays as it is. There is no handle once the channel has given
    /// out all of its handles.
    pub fn subscribe(&mut self, route: Route) -> (r: Option<Subscription>)
        ensures
            forall|other: Route|
                other != route ==> final(self).subscribers(other) == old(self).subscribers(other)
                    && final(self).next(other) == old(self).next(other),
            match r {
                Some(s) => s.id == old(self).next(route) && final(self).subscribers(route) == old(
                    self,
                ).subscribers(route).push(s.id) && !old(self).subscribers(route).contains(s.id),
                None => old(self).next(route) == u64::MAX && final(self).subscribers(route) == old(
                    self,
                ).subscribers(route),
            },
    {
        match route {
            Route::Commands => self.commands.subscribe(),
            Route::Errors => self.errors.subscribe(),
        }
    }

    /// Removes the handler of a handle from a channel; the other handlers
    /// and the other channel stay as they are. Answers whether there was such
    /// a handler.
    pub fn unsubscribe(&mut self, route: Route, subscription: Subscription) -> (r: bool)
        ensures
            forall|other: Route|
                other != route ==> final(self).subscribers(other) == old(self).subscribers(other)
                    && final(self).next(other) == old(self).next(other),
            r == old(self).subscribers(route).contains(subscription.id),
            final(self).subscribers(route) == without(
                old(self).subscribers(route),
                subscription.id,
            ),
            final(self).next(route) == old(self).next(route),
    {
        match route {
            Route::Commands => self.commands.unsubscribe(subscription),
            Route::Errors => self.errors.unsubscribe(subscription),
        }
    }

    /// The channel of an event.
    pub fn route(event: Event) -> (r: Route)
        ensures
            r == route_of(event),
    {
        match event {
            Event::Command(_) => Route::Commands,
            Event::Error(_) => Route::Errors,
        }
    }

    /// The handlers to which an event goes: every subscriber of the event's
    /// channel at the time of publishing, once each, in the order of
    /// subscription, and no subscriber of the other channel.
    pub fn publish(&self, event: Event) -> (r: Vec<Subscription>)
        ensures
            r.len() == self.subscribers(route_of(event)).len(),
            forall|i: int|
                0 <= i < r.len() ==> (#[trigger] r@[i]).id == self.subscribers(route_of(event))[i],
            forall|i: int, j: int|
                #![trigger r@[i], r@[j]]
                0 <= i < j < r.len() ==> r@[i].id != r@[j].id,
    {
        match event {
            Event::Command(_) => self.commands.publish(),
            Event::Error(_) => self.errors.publish(),
        }
    }
}

} // verus!
