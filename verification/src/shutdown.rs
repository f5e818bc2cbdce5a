use vstd::prelude::*;

verus! {

/// What a subscriber sees when it polls its subscription.
#[derive(Clone, Copy, Debug, PartialEq, Eq, Structural)]
pub enum SignalState {
    /// The signal has not fired yet.
    Empty,
    /// The signal has fired; the subscriber now counts as having observed it.
    Fired,
}

/// The abstract state of the coordinator: whether the one signal has fired,
/// and which subscribers have observed it.
pub struct ShutdownView {
    pub fired: bool,
    pub observed: Seq<bool>,
}

/// Firing publishes the signal. It touches nothing else: in particular a
/// subscriber that has already observed the signal stays observed.
pub open spec fn spec_fire(s: ShutdownView) -> ShutdownView {
    ShutdownView { fired: true, observed: s.observed }
}

/// Registering a subscriber adds one unobserved slot and hands back its id.
pub open spec fn spec_subscribe(s: ShutdownView) -> (ShutdownView, int) {
    (ShutdownView { fired: s.fired, observed: s.observed.push(false) }, s.observed.len() as int)
}

/// Polling: once the signal has fired every poll reports it, and the polling
/// subscriber is marked observed; before that, polls report nothing and
/// change nothing.
pub open spec fn spec_check(s: ShutdownView, id: int) -> (ShutdownView, SignalState) {
    if s.fired {
        (ShutdownView { fired: true, observed: s.observed.update(id, true) }, SignalState::Fired)
    } else {
        (s, SignalState::Empty)
    }
}

/// The fan-out cancellation signal: one producer, many independently
/// registered subscribers, each able to poll for the signal. Not re-armable.
pub struct ShutdownCoordinator {
    fired: bool,
    observed: Vec<bool>,
}

impl View for ShutdownCoordinator {
    type V = ShutdownView;

    closed spec fn view(&self) -> ShutdownView {
        ShutdownView { fired: self.fired, observed: self.observed@ }
    }
}

impl ShutdownCoordinator {
    /// Nothing has fired and nobody is subscribed.
    pub fn new() -> (r: ShutdownCoordinator)
        ensures
            !r@.fired,
            r@.observed == Seq::<bool>::empty(),
    {
        let r = ShutdownCoordinator { fired: false, observed: Vec::new() };
        proof {
            assert(r@.observed =~= Seq::<bool>::empty());
        }
        r
    }

    /// How many subscribers are registered.
    pub fn subscriber_count(&self) -> (r: usize)
        ensures
            r == self@.observed.len(),
    {
        self.observed.len()
    }

    /// Whether the signal has fired.
    pub fn has_fired(&self) -> (r: bool)
        ensures
            r == self@.fired,
    {
        self.fired
    }

    /// Register one subscriber; the returned id names it in later polls.
    /// A subscriber registered after the signal fired starts unobserved and
    /// sees the signal at its first poll.
    pub fn subscribe(&mut self) -> (id: usize)
        ensures
            (final(self)@, id as int) == spec_subscribe(old(self)@),
    {
        let id = self.observed.len();
        self.observed.push(false);
        id
    }

    /// Publish the signal to every subscriber. Idempotent: firing again
    /// changes nothing.
    pub fn fire(&mut self)
        ensures
            final(self)@ == spec_fire(old(self)@),
    {
        self.fired = true;
    }

    /// Poll for the signal on behalf of one subscriber.
    pub fn try_check(&mut self, id: usize) -> (r: SignalState)
        requires
            id < old(self)@.observed.len(),
        ensures
            (final(self)@, r) == spec_check(old(self)@, id as int),
            r == SignalState::Fired <==> old(self)@.fired,
    {
        if self.fired {
            self.observed.set(id, true);
            SignalState::Fired
        } else {
            SignalState::Empty
        }
    }

    /// Whether one subscriber has observed the signal.
    pub fn has_observed(&self, id: usize) -> (r: bool)
        requires
            id < self@.observed.len(),
        ensures
            r == self@.observed[id as int],
    {
        self.observed[id]
    }
}

/// Firing twice is the same as firing once: no double delivery and no state
/// corruption, and every subscriber that had already observed the signal
/// stays observed.
pub proof fn lemma_fire_idempotent(s: ShutdownView)
    ensures
        spec_fire(spec_fire(s)) == spec_fire(s),
        spec_fire(s).observed == s.observed,
{
}

/// Fan-out: after the signal fires, every registered subscriber — whenever
/// it was registered — sees Fired at its next poll and is marked observed.
pub proof fn lemma_fire_reaches_all(s: ShutdownView, id: int)
    requires
        0 <= id < s.observed.len(),
    ensures
        spec_check(spec_fire(s), id).1 == SignalState::Fired,
        spec_check(spec_fire(s), id).0.observed[id],
{
}

/// A subscriber registered only after the signal fired still observes it at
/// its first poll.
pub proof fn lemma_late_subscriber_observes(s: ShutdownView)
    requires
        s.fired,
    ensures
        ({
            let (s1, id) = spec_subscribe(s);
            spec_check(s1, id).1 == SignalState::Fired
        }),
{
}

/// Before the signal fires, no poll reports it and no poll changes anything.
pub proof fn lemma_unfired_reports_empty(s: ShutdownView, id: int)
    requires
        !s.fired,
    ensures
        spec_check(s, id).1 == SignalState::Empty,
        spec_check(s, id).0 == s,
{
}

} // verus!
