//! The device event listener: its lifecycle (`Stopped`, `Running`) and the
//! ordered set of subscribed listener handles. The background worker that
//! dispatches events runs outside this module; every call here returns what
//! that worker has to do.
use crate::error::{ErrorKind, Result};
use vstd::prelude::*;

verus! {

/// A receiver of device events.
pub trait UsbmuxdEventListener {
    fn on_event(&mut self, event: &String);
}

/// The lifecycle state of the event listener.
#[derive(Debug, Clone, Copy, PartialEq, Eq)]
pub enum ListenerState {
    Stopped,
    Running,
}

/// What the owner of the background worker has to do after a call.
#[derive(Debug, Clone, Copy, PartialEq, Eq)]
pub enum ListenerAction {
    /// Nothing.
    Nothing,
    /// Spawn the polling worker.
    SpawnWorker,
    /// Signal the worker to stop and wait until it has exited.
    StopAndJoin,
}

/// The subscribed listener handles, in subscription order, and the
/// lifecycle state. A handle is an identity, chosen by the caller.
pub struct ListenerRegistry {
    subscribers: Vec<u64>,
    state: ListenerState,
}

/// The abstract state of a registry: its handles in order and its state.
pub type RegistryView = (Seq<u64>, ListenerState);

impl View for ListenerRegistry {
    type V = RegistryView;

    closed spec fn view(&self) -> RegistryView {
        (self.subscribers@, self.state)
    }
}

/// The registry after `start`.
pub open spec fn spec_start(v: RegistryView) -> (RegistryView, ListenerAction) {
    match v.1 {
        ListenerState::Stopped => ((v.0, ListenerState::Running), ListenerAction::SpawnWorker),
        ListenerState::Running => (v, ListenerAction::Nothing),
    }
}

/// The registry after `stop`.
pub open spec fn spec_stop(v: RegistryView) -> (RegistryView, ListenerAction) {
    match v.1 {
        ListenerState::Running => ((v.0, ListenerState::Stopped), ListenerAction::StopAndJoin),
        ListenerState::Stopped => (v, ListenerAction::Nothing),
    }
}

/// The registry after subscribing `id`: it goes last, and a stopped
/// listener starts.
pub open spec fn spec_subscribe(v: RegistryView, id: u64) -> (RegistryView, ListenerAction) {
    spec_start((v.0.push(id), v.1))
}

/// The registry after subscribing each of `ids` in turn.
pub open spec fn subscribe_all(v: RegistryView, ids: Seq<u64>) -> RegistryView
    decreases ids.len(),
{
    if ids.len() == 0 {
        v
    } else {
        spec_subscribe(subscribe_all(v, ids.drop_last()), ids.last()).0
    }
}

/// The position of the first occurrence of `id` in `s`, if any.
pub open spec fn first_index(s: Seq<u64>, id: u64) -> Option<int>
    decreases s.len(),
{
    if s.len() == 0 {
        None
    } else if s[0] == id {
        Some(0)
    } else {
        match first_index(s.drop_first(), id) {
            Some(i) => Some(i + 1),
            None => None,
        }
    }
}

proof fn lemma_first_index(s: Seq<u64>, id: u64)
    ensures
        first_index(s, id) is None <==> !s.contains(id),
        first_index(s, id) matches Some(i) ==> 0 <= i < s.len() && s[i] == id && forall|j: int|
            0 <= j < i ==> s[j] != id,
    decreases s.len(),
{
    if s.len() > 0 {
        lemma_first_index(s.drop_first(), id);
        if s[0] != id {
            if s.contains(id) {
                let k = choose|k: int| 0 <= k < s.len() && s[k] == id;
                assert(s.drop_first()[k - 1] == id);
            }
            if s.drop_first().contains(id) {
                let k = choose|k: int| 0 <= k < s.drop_first().len() && s.drop_first()[k] == id;
                assert(s[k + 1] == id);
            }
            if first_index(s, id) is Some {
                let i = first_index(s, id)->Some_0;
                assert forall|j: int| 0 <= j < i implies s[j] != id by {
                    if j > 0 {
                        assert(s[j] == s.drop_first()[j - 1]);
                    }
                }
            }
        }
    }
}

impl ListenerRegistry {
    /// A stopped listener with no subscribers.
    pub fn new() -> (r: ListenerRegistry)
        ensures
            r@ == (Seq::<u64>::empty(), ListenerState::Stopped),
    {
        ListenerRegistry { subscribers: Vec::new(), state: ListenerState::Stopped }
    }

    /// The lifecycle state.
    pub fn state(&self) -> (r: ListenerState)
        ensures
            r == self@.1,
    {
        self.state
    }

    /// The subscribed handles, in the order in which a dispatch cycle calls them.
    pub fn subscribers(&self) -> (r: Vec<u64>)
        ensures
            r@ == self@.0,
    {
        let mut r: Vec<u64> = Vec::new();
        let mut i: usize = 0;
        while i < self.subscribers.len()
            invariant
                0 <= i <= self.subscribers@.len(),
                r@ == self.subscribers@.subrange(0, i as int),
            decreases self.subscribers@.len() - i,
        {
            r.push(self.subscribers[i]);
            i = i + 1;
            assert(r@ =~= self.subscribers@.subrange(0, i as int));
        }
        assert(self.subscribers@.subrange(0, i as int) =~= self.subscribers@);
        r
    }

    /// Starts the listener if it is stopped.
    pub fn start(&mut self) -> (r: ListenerAction)
        ensures
            (final(self)@, r) == spec_start(old(self)@),
    {
        match self.state {
            ListenerState::Stopped => {
                self.state = ListenerState::Running;
                ListenerAction::SpawnWorker
            },
            ListenerState::Running => ListenerAction::Nothing,
        }
    }

    /// Stops the listener if it is running; on a stopped listener nothing
    /// changes and nothing is to be done.
    pub fn stop(&mut self) -> (r: ListenerAction)
        ensures
            (final(self)@, r) == spec_stop(old(self)@),
            old(self)@.1 == ListenerState::Stopped ==> final(self)@ == old(self)@ && r
                == ListenerAction::Nothing,
    {
        match self.state {
            ListenerState::Running => {
                self.state = ListenerState::Stopped;
                ListenerAction::StopAndJoin
            },
            ListenerState::Stopped => ListenerAction::Nothing,
        }
    }

    /// Subscribes a handle; the first subscription of a stopped listener
    /// starts it.
    pub fn subscribe(&mut self, id: u64) -> (r: ListenerAction)
        ensures
            (final(self)@, r) == spec_subscribe(old(self)@, id),
    {
        self.subscribers.push(id);
        self.start()
    }

    /// Removes the first subscription of `id`; fails with `ListenerNotFound`,
    /// changing nothing, when `id` is not subscribed. The state does not change.
    pub fn unsubscribe(&mut self, id: u64) -> (r: Result<()>)
        ensures
            !old(self)@.0.contains(id) ==> r == Err::<(), ErrorKind>(ErrorKind::ListenerNotFound)
                && final(self)@ == old(self)@,
            old(self)@.0.contains(id) ==> r is Ok && final(self)@ == (
                old(self)@.0.remove(first_index(old(self)@.0, id)->Some_0),
                old(self)@.1,
            ),
    {
        proof {
            lemma_first_index(self.subscribers@, id);
        }
        let mut i: usize = 0;
        while i < self.subscribers.len()
            invariant
                0 <= i <= self.subscribers@.len(),
                self.subscribers@ == old(self).subscribers@,
                self.state == old(self).state,
                forall|j: int| 0 <= j < i ==> self.subscribers@[j] != id,
                first_index(self.subscribers@, id) is None <==> !self.subscribers@.contains(id),
                first_index(self.subscribers@, id) matches Some(k) ==> 0 <= k
                    < self.subscribers@.len() && self.subscribers@[k] == id && forall|j: int|
                    0 <= j < k ==> self.subscribers@[j] != id,
            decreases self.subscribers@.len() - i,
        {
            if self.subscribers[i] == id {
                assert(first_index(self.subscribers@, id) == Some(i as int));
                self.subscribers.remove(i);
                return Ok(());
            }
            i = i + 1;
        }
        Err(ErrorKind::ListenerNotFound)
    }
}

/// Stopping a stopped listener changes nothing and asks for no work, so it
/// cannot block.
pub proof fn lemma_stop_stopped_is_noop(v: RegistryView)
    requires
        v.1 == ListenerState::Stopped,
    ensures
        spec_stop(v) == (v, ListenerAction::Nothing),
        spec_stop(spec_stop(v).0) == (v, ListenerAction::Nothing),
{
}

/// Two distinct handles subscribed one after the other are both among the
/// handles that a dispatch cycle calls, and the listener is running.
pub proof fn lemma_two_subscribers_dispatched(v: RegistryView, a: u64, b: u64)
    requires
        a != b,
    ensures
        ({
            let w = spec_subscribe(spec_subscribe(v, a).0, b).0;
            &&& w.0.contains(a)
            &&& w.0.contains(b)
            &&& w.1 == ListenerState::Running
        }),
{
    let w = spec_subscribe(spec_subscribe(v, a).0, b).0;
    assert(w.0 == v.0.push(a).push(b));
    assert(w.0[v.0.len() as int] == a);
    assert(w.0[v.0.len() as int + 1] == b);
}

/// Subscribing a sequence of handles appends them in order.
pub proof fn lemma_subscribe_all(v: RegistryView, ids: Seq<u64>)
    ensures
        subscribe_all(v, ids).0 == v.0 + ids,
        ids.len() > 0 ==> subscribe_all(v, ids).1 == ListenerState::Running,
        ids.len() == 0 ==> subscribe_all(v, ids).1 == v.1,
    decreases ids.len(),
{
    if ids.len() > 0 {
        lemma_subscribe_all(v, ids.drop_last());
        assert(v.0 + ids =~= (v.0 + ids.drop_last()).push(ids.last()));
    }
}

/// How many of the subscriptions of `ids`, made in turn from `v`, asked
/// for a worker to be spawned.
pub open spec fn spawn_count(v: RegistryView, ids: Seq<u64>) -> nat
    decreases ids.len(),
{
    if ids.len() == 0 {
        0
    } else {
        spawn_count(v, ids.drop_last()) + if spec_subscribe(
            subscribe_all(v, ids.drop_last()),
            ids.last(),
        ).1 == ListenerAction::SpawnWorker {
            1nat
        } else {
            0nat
        }
    }
}

/// Subscriptions in turn spawn a worker once when the listener was
/// stopped, and never when it was running.
pub proof fn lemma_spawn_count(v: RegistryView, ids: Seq<u64>)
    ensures
        spawn_count(v, ids) == (if v.1 == ListenerState::Stopped && ids.len() > 0 {
            1nat
        } else {
            0nat
        }),
    decreases ids.len(),
{
    if ids.len() > 0 {
        lemma_spawn_count(v, ids.drop_last());
        lemma_subscribe_all(v, ids.drop_last());
    }
}

/// Distinct handles, none of them subscribed yet, subscribed in turn: the
/// subscribers become the old ones followed by the new ones in order, a
/// dispatch cycle calls each new handle exactly once, and at most one
/// worker is spawned.
pub proof fn lemma_each_subscriber_dispatched_once(v: RegistryView, ids: Seq<u64>)
    requires
        ids.no_duplicates(),
        forall|h: u64| ids.contains(h) ==> !v.0.contains(h),
    ensures
        ({
            let w = subscribe_all(v, ids).0;
            &&& w == v.0 + ids
            &&& forall|h: u64| ids.contains(h) ==> #[trigger] w.to_multiset().count(h) == 1
            &&& spawn_count(v, ids) <= 1
        }),
{
    lemma_subscribe_all(v, ids);
    lemma_spawn_count(v, ids);
    let w = subscribe_all(v, ids).0;
    assert forall|h: u64| ids.contains(h) implies #[trigger] w.to_multiset().count(h) == 1 by {
        vstd::seq_lib::lemma_multiset_commutative(v.0, ids);
        ids.lemma_multiset_has_no_duplicates();
        v.0.to_multiset_ensures();
        ids.to_multiset_ensures();
    }
}

} // verus!
