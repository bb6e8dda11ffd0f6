//! The single owner of the live snapshot and of the list of subscriptions.
//!
//! The dispatcher decides what the snapshot is and who is to be told of it.
//! Telling them is the caller's part: after each [`Dispatcher::dispatch`] the
//! caller hands [`Dispatcher::state`] to every holder of a handle in
//! [`Dispatcher::subscribers`].

use crate::laws::law_reachable_bounded;
use crate::state::{app_state_reducer, reduce, replay, ActionModel, AppAction, AppModel, AppState};
use vstd::prelude::*;

verus! {

/// Whether `after` is `before` with its occurrence of `handle` taken out.
pub open spec fn taken_out(before: Seq<u64>, handle: u64, after: Seq<u64>) -> bool {
    exists|i: int| 0 <= i < before.len() && before[i] == handle && after == before.remove(i)
}

/// A snapshot together with the actions that led to it.
struct Live {
    state: AppState,
    applied: Ghost<Seq<ActionModel>>,
}

/// The single owner of the live snapshot: every change goes through
/// [`Dispatcher::dispatch`], one action at a time.
pub struct Dispatcher {
    live: Live,
    subscribers: Vec<u64>,
    next_handle: u64,
}

impl Dispatcher {
    #[verifier::type_invariant]
    spec fn consistent(self) -> bool {
        &&& self.live.state@ == replay(AppModel::initial(), self.live.applied@)
        &&& self.subscribers@.no_duplicates()
        &&& forall|i: int|
            0 <= i < self.subscribers@.len() ==> (#[trigger] self.subscribers@[i])
                < self.next_handle
    }

    /// The current snapshot.
    pub closed spec fn model(self) -> AppModel {
        self.live.state@
    }

    /// The actions dispatched so far, oldest first.
    pub closed spec fn history(self) -> Seq<ActionModel> {
        self.live.applied@
    }

    /// The handles of the live subscriptions, oldest first.
    pub closed spec fn handles(self) -> Seq<u64> {
        self.subscribers@
    }

    /// How many handles have been given out so far.
    pub closed spec fn issued(self) -> nat {
        self.next_handle as nat
    }

    /// A dispatcher at session start, with no subscription.
    pub fn new() -> (r: Dispatcher)
        ensures
            r.model() == AppModel::initial(),
            r.history() == Seq::<ActionModel>::empty(),
            r.handles() == Seq::<u64>::empty(),
            r.issued() == 0,
    {
        Dispatcher {
            live: Live { state: AppState::default(), applied: Ghost(Seq::empty()) },
            subscribers: Vec::new(),
            next_handle: 0,
        }
    }

    /// Applies one action to the live snapshot. The subscriptions stay as
    /// they are: their holders are due the new snapshot.
    pub fn dispatch(&mut self, action: AppAction)
        ensures
            final(self).model() == reduce(old(self).model(), action@),
            final(self).history() == old(self).history().push(action@),
            final(self).handles() == old(self).handles(),
            final(self).issued() == old(self).issued(),
    {
        proof {
            use_type_invariant(&*self);
        }
        let ghost done = self.live.applied@.push(action@);
        let next = app_state_reducer(&self.live.state, action);
        proof {
            assert(done.drop_last() =~= self.live.applied@);
        }
        self.live = Live { state: next, applied: Ghost(done) };
    }

    /// The current snapshot, for readers. It is what replaying the history
    /// from session start gives, so its net-value history and its log are
    /// within capacity.
    pub fn state(&self) -> (r: &AppState)
        ensures
            r@ == self.model(),
            self.model() == replay(AppModel::initial(), self.history()),
            self.model().histories_bounded(),
    {
        proof {
            use_type_invariant(self);
            law_reachable_bounded(self.live.applied@);
        }
        &self.live.state
    }

    /// The handles of the live subscriptions, oldest first; no handle occurs
    /// twice.
    pub fn subscribers(&self) -> (r: &Vec<u64>)
        ensures
            r@ == self.handles(),
            self.handles().no_duplicates(),
    {
        proof {
            use_type_invariant(self);
        }
        &self.subscribers
    }

    /// Opens a subscription and gives out its handle, one that was never
    /// given out before. The snapshot and the history are untouched: a new
    /// subscriber is due the snapshots of later dispatches only. Gives `None`,
    /// and changes nothing, once every handle has been given out.
    pub fn subscribe(&mut self) -> (r: Option<u64>)
        ensures
            final(self).model() == old(self).model(),
            final(self).history() == old(self).history(),
            match r {
                Some(handle) => {
                    &&& old(self).issued() < u64::MAX
                    &&& handle == old(self).issued()
                    &&& final(self).issued() == old(self).issued() + 1
                    &&& !old(self).handles().contains(handle)
                    &&& final(self).handles() == old(self).handles().push(handle)
                },
                None => {
                    &&& old(self).issued() == u64::MAX
                    &&& final(self).issued() == old(self).issued()
                    &&& final(self).handles() == old(self).handles()
                },
            },
    {
        proof {
            use_type_invariant(&*self);
        }
        if self.next_handle == u64::MAX {
            return None;
        }
        let handle = self.next_handle;
        let ghost before = self.subscribers@;
        assert(!before.contains(handle));
        self.next_handle = handle + 1;
        proof {
            let after = before.push(handle);
            assert forall|i: int, j: int|
                0 <= i < after.len() && 0 <= j < after.len() && i != j implies after[i]
                != after[j] by {
                if i < before.len() {
                    assert(after[i] == before[i]);
                }
                if j < before.len() {
                    assert(after[j] == before[j]);
                }
            }
        }
        let mut handles = self.subscribers.clone();
        assert(handles@ =~= before);
        handles.push(handle);
        self.subscribers = handles;
        Some(handle)
    }

    /// Closes the subscription with the given handle. Says whether there was
    /// one; the other subscriptions keep their order.
    pub fn unsubscribe(&mut self, handle: u64) -> (r: bool)
        ensures
            final(self).model() == old(self).model(),
            final(self).history() == old(self).history(),
            final(self).issued() == old(self).issued(),
            r == old(self).handles().contains(handle),
            !final(self).handles().contains(handle),
            r ==> taken_out(old(self).handles(), handle, final(self).handles()),
            !r ==> final(self).handles() == old(self).handles(),
    {
        proof {
            use_type_invariant(&*self);
        }
        let ghost before = self.subscribers@;
        let mut i: usize = 0;
        while i < self.subscribers.len()
            invariant
                i <= self.subscribers.len(),
                self.subscribers@ == before,
                *self == *old(self),
                self.live.state@ == replay(AppModel::initial(), self.live.applied@),
                before.no_duplicates(),
                forall|j: int| 0 <= j < before.len() ==> (#[trigger] before[j]) < self.next_handle,
                forall|j: int| 0 <= j < i ==> before[j] != handle,
            decreases self.subscribers.len() - i,
        {
            if self.subscribers[i] == handle {
                proof {
                    let after = before.remove(i as int);
                    assert forall|a: int, b: int|
                        0 <= a < after.len() && 0 <= b < after.len() && a != b implies after[a]
                        != after[b] by {
                        let a0 = if a < i { a } else { a + 1 };
                        let b0 = if b < i { b } else { b + 1 };
                        assert(after[a] == before[a0]);
                        assert(after[b] == before[b0]);
                    }
                    assert forall|a: int| 0 <= a < after.len() implies (#[trigger] after[a])
                        < self.next_handle && after[a] != handle by {
                        let a0 = if a < i { a } else { a + 1 };
                        assert(after[a] == before[a0]);
                    }
                    assert(before.contains(handle));
                    assert(!after.contains(handle));
                    assert(after.no_duplicates());
                }
                let mut handles = self.subscribers.clone();
                assert(handles@ =~= before);
                handles.remove(i);
                assert(handles@ == before.remove(i as int));
                self.subscribers = handles;
                return true;
            }
            i += 1;
        }
        false
    }
}

} // verus!
