//! Ordered, predicate-gated listeners and their sequential, fault-isolated
//! dispatch. Handlers run outside the library: a `Dispatch` says which
//! listener runs next and is told how each run ended.
use vstd::prelude::*;
use crate::event::ApplicationEvenType;

verus! {

/// A registered listener: its name and the event kinds it reacts to.
#[derive(Clone, Debug)]
pub struct ListenerRegistration {
    pub name: String,
    pub accepts: Vec<ApplicationEvenType>,
}

pub open spec fn accepts(l: ListenerRegistration, event: ApplicationEvenType) -> bool {
    l.accepts@.contains(event)
}

/// The indices of the listeners that accept `event`, in registration order.
pub open spec fn targets(listeners: Seq<ListenerRegistration>, event: ApplicationEvenType) -> Seq<
    int,
>
    decreases listeners.len(),
{
    if listeners.len() == 0 {
        Seq::empty()
    } else if accepts(listeners.last(), event) {
        targets(listeners.drop_last(), event).push(listeners.len() - 1)
    } else {
        targets(listeners.drop_last(), event)
    }
}

/// The targets, among `t`, whose run failed; `outcomes[i]` tells how the run
/// of `t[i]` ended.
pub open spec fn failed_targets(t: Seq<int>, outcomes: Seq<bool>) -> Seq<int>
    decreases t.len(),
{
    if t.len() == 0 || outcomes.len() == 0 {
        Seq::empty()
    } else if outcomes.last() {
        failed_targets(t.drop_last(), outcomes.drop_last())
    } else {
        failed_targets(t.drop_last(), outcomes.drop_last()).push(t.last())
    }
}

fn contains_event(v: &Vec<ApplicationEvenType>, event: ApplicationEvenType) -> (r: bool)
    ensures
        r == v@.contains(event),
{
    for i in 0..v.len()
        invariant
            forall|j: int| 0 <= j < i ==> v@[j] != event,
    {
        if v[i] == event {
            return true;
        }
    }
    false
}

/// The ordered listener list.
pub struct ApplicationEventMultiCaster {
    listeners: Vec<ListenerRegistration>,
}

impl ApplicationEventMultiCaster {
    pub closed spec fn view(&self) -> Seq<ListenerRegistration> {
        self.listeners@
    }

    pub fn new() -> (r: ApplicationEventMultiCaster)
        ensures
            r@ == Seq::<ListenerRegistration>::empty(),
    {
        ApplicationEventMultiCaster { listeners: Vec::new() }
    }

    /// Appends a listener; it runs after every listener registered before.
    pub fn register(&mut self, listener: ListenerRegistration)
        ensures
            final(self)@ == old(self)@.push(listener),
    {
        self.listeners.push(listener);
    }

    pub fn listener(&self, index: usize) -> (r: &ListenerRegistration)
        requires
            index < self@.len(),
        ensures
            *r == self@[index as int],
    {
        &self.listeners[index]
    }

    /// Starts broadcasting `event`: the listeners that accept it are run one
    /// after the other, in registration order.
    pub fn multicast_event(&self, event: ApplicationEvenType) -> (r: Dispatch)
        ensures
            r.wf(),
            r.event() == event,
            r.targets() == targets(self@, event),
            r.position() == 0,
            r.invoked() == Seq::<int>::empty(),
            r.failed() == Seq::<int>::empty(),
            r.outcomes() == Seq::<bool>::empty(),
    {
        let mut t: Vec<usize> = Vec::new();
        for i in 0..self.listeners.len()
            invariant
                t@.map_values(|x: usize| x as int) == targets(
                    self.listeners@.subrange(0, i as int),
                    event,
                ),
        {
            let ghost prefix = self.listeners@.subrange(0, i + 1);
            assert(prefix.drop_last() =~= self.listeners@.subrange(0, i as int));
            assert(prefix.last() == self.listeners@[i as int]);
            if contains_event(&self.listeners[i].accepts, event) {
                let ghost old_t = t@;
                t.push(i);
                assert(t@.map_values(|x: usize| x as int) =~= old_t.map_values(|x: usize| x as int).push(
                    i as int,
                ));
            }
        }
        assert(self.listeners@.subrange(0, self.listeners.len() as int) =~= self.listeners@);
        let r = Dispatch {
            event,
            targets: t,
            position: 0,
            invoked: Vec::new(),
            failed: Vec::new(),
            outcomes: Vec::new(),
        };
        assert(r.invoked() =~= Seq::<int>::empty());
        assert(r.failed() =~= Seq::<int>::empty());
        assert(r.targets().subrange(0, 0) =~= Seq::<int>::empty());
        assert(r.outcomes().subrange(0, 0) =~= Seq::<bool>::empty());
        r
    }
}

/// One broadcast in progress.
pub struct Dispatch {
    event: ApplicationEvenType,
    targets: Vec<usize>,
    position: usize,
    invoked: Vec<usize>,
    failed: Vec<usize>,
    outcomes: Vec<bool>,
}

impl Dispatch {
    pub closed spec fn event(&self) -> ApplicationEvenType {
        self.event
    }

    /// The listeners to run, in order.
    pub closed spec fn targets(&self) -> Seq<int> {
        self.targets@.map_values(|x: usize| x as int)
    }

    /// How many of them have run.
    pub closed spec fn position(&self) -> int {
        self.position as int
    }

    /// The listeners that have run, in order.
    pub closed spec fn invoked(&self) -> Seq<int> {
        self.invoked@.map_values(|x: usize| x as int)
    }

    /// How each run ended, in order.
    pub closed spec fn outcomes(&self) -> Seq<bool> {
        self.outcomes@
    }

    /// The listeners whose run failed, in order.
    pub closed spec fn failed(&self) -> Seq<int> {
        self.failed@.map_values(|x: usize| x as int)
    }

    pub closed spec fn wf(&self) -> bool {
        &&& self.position <= self.targets@.len()
        &&& self.invoked() == self.targets().subrange(0, self.position as int)
        &&& self.outcomes@.len() == self.position
        &&& self.failed() == failed_targets(
            self.targets().subrange(0, self.position as int),
            self.outcomes@,
        )
    }

    /// The listener to run next, or `None` once every target has run.
    pub fn next_listener(&self) -> (r: Option<usize>)
        requires
            self.wf(),
        ensures
            self.position() < self.targets().len() ==> r == Some(
                self.targets()[self.position()] as usize,
            ),
            self.position() >= self.targets().len() ==> r is None,
    {
        if self.position < self.targets.len() {
            Some(self.targets[self.position])
        } else {
            None
        }
    }

    /// Whether every target has run.
    pub fn is_complete(&self) -> (r: bool)
        requires
            self.wf(),
        ensures
            r == (self.position() == self.targets().len()),
    {
        self.position == self.targets.len()
    }

    /// Records how the run of the current listener ended and moves on; a
    /// failure is kept, never passed on, and the next listener still runs.
    pub fn record(&mut self, ok: bool)
        requires
            old(self).wf(),
            old(self).position() < old(self).targets().len(),
        ensures
            final(self).wf(),
            final(self).event() == old(self).event(),
            final(self).targets() == old(self).targets(),
            final(self).position() == old(self).position() + 1,
            final(self).invoked() == old(self).invoked().push(old(self).targets()[old(self).position()]),
            final(self).outcomes() == old(self).outcomes().push(ok),
            final(self).failed() == (if ok {
                old(self).failed()
            } else {
                old(self).failed().push(old(self).targets()[old(self).position()])
            }),
    {
        assert(self.targets@.map_values(|x: usize| x as int).len() == self.targets@.len());
        let current = self.targets[self.position];
        let len = self.targets.len();
        assert(self.position < len);
        let next = self.position + 1;
        let ghost old_invoked = self.invoked@;
        let ghost old_failed = self.failed@;
        let ghost old_outcomes = self.outcomes@;
        let ghost p = self.position as int;
        self.invoked.push(current);
        if !ok {
            self.failed.push(current);
        }
        self.outcomes.push(ok);
        self.position = next;
        proof {
            let t = self.targets();
            assert(t.subrange(0, p + 1).drop_last() =~= t.subrange(0, p));
            assert(self.outcomes@.drop_last() =~= old_outcomes);
            assert(self.invoked() =~= old_invoked.map_values(|x: usize| x as int).push(current as int));
            assert(self.invoked() =~= t.subrange(0, p + 1));
            if ok {
                assert(self.failed() =~= old_failed.map_values(|x: usize| x as int));
            } else {
                assert(self.failed() =~= old_failed.map_values(|x: usize| x as int).push(
                    current as int,
                ));
            }
        }
    }
}

/// Once a broadcast is complete, every listener that accepts the event has
/// run, in registration order, whatever the earlier runs returned; the
/// failures are exactly the targets whose run failed.
pub proof fn lemma_complete_dispatch_ran_all(d: Dispatch)
    requires
        d.wf(),
        d.position() == d.targets().len(),
    ensures
        d.invoked() == d.targets(),
        d.failed() == failed_targets(d.targets(), d.outcomes()),
{
    assert(d.targets().subrange(0, d.position()) =~= d.targets());
}

/// A broadcast with no accepting listener is complete from the start.
pub proof fn lemma_no_targets_no_runs(
    listeners: Seq<ListenerRegistration>,
    event: ApplicationEvenType,
)
    requires
        forall|i: int| 0 <= i < listeners.len() ==> !accepts(#[trigger] listeners[i], event),
    ensures
        targets(listeners, event) == Seq::<int>::empty(),
    decreases listeners.len(),
{
    if listeners.len() > 0 {
        assert forall|i: int| 0 <= i < listeners.drop_last().len() implies !accepts(
            #[trigger] listeners.drop_last()[i],
            event,
        ) by {
            assert(listeners.drop_last()[i] == listeners[i]);
        }
        lemma_no_targets_no_runs(listeners.drop_last(), event);
    }
}

} // verus!
