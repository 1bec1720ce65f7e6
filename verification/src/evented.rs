//! The per-direction readiness tracker.
//!
//! A reactor reports that a descriptor became readable once per edge. The
//! transport behind the descriptor has a readiness of its own: it may still
//! answer "try again" after the descriptor was reported readable. The tracker
//! sits between the two. While it is armed, a poll consults the reactor; once
//! the reactor has reported readiness the tracker is disarmed, and polls
//! answer `Ready` without consulting the reactor until the tracker is armed
//! again.

use vstd::prelude::*;

verus! {

/// `std::io::Error`, the failure that registering a descriptor with a reactor
/// ends in. Nothing is claimed of it: a value of it is handed back as it came
/// and is never read.
#[verifier::external_type_specification]
#[verifier::external_body]
pub struct ExIoError(std::io::Error);

/// Whether a descriptor is ready.
#[derive(Debug, Clone, Copy, PartialEq, Eq, Structural)]
pub enum Async {
    /// socket is ready
    Ready,
    /// socket is not ready
    NotReady,
}

impl Async {
    /// Whether a poll that answered this obliges the caller to register read
    /// interest with the reactor before it suspends.
    pub fn needs_wakeup(&self) -> (r: bool)
        ensures
            r == Tracker::needs_wakeup(*self),
    {
        match self {
            Async::NotReady => true,
            Async::Ready => false,
        }
    }
}

/// The tracker as a two-state machine over one descriptor.
pub struct Tracker {
    /// The descriptor that is registered with the reactor.
    pub descriptor: i32,
    /// `true`: the next poll consults the reactor. `false`: readiness was
    /// observed and has not been used up yet.
    pub armed: bool,
}

impl Tracker {
    /// A tracker as registration leaves it: armed.
    pub open spec fn fresh(descriptor: i32) -> Tracker {
        Tracker { descriptor, armed: true }
    }

    /// What a poll answers when the reactor's answer to a query made now
    /// would be `reactor`. A disarmed tracker answers `Ready` whatever the
    /// reactor would say.
    pub open spec fn readiness(self, reactor: Async) -> Async {
        if self.armed {
            reactor
        } else {
            Async::Ready
        }
    }

    /// The tracker after that poll: observing readiness disarms it, and
    /// nothing else changes it.
    pub open spec fn observe(self, reactor: Async) -> Tracker {
        if self.armed && reactor == Async::Ready {
            Tracker { armed: false, ..self }
        } else {
            self
        }
    }

    /// The tracker after a re-arm.
    pub open spec fn schedule(self) -> Tracker {
        Tracker { armed: true, ..self }
    }

    /// Whether a poll answering `answer` obliges the caller to register read
    /// interest with the reactor, so that the task is woken on the next edge.
    pub open spec fn needs_wakeup(answer: Async) -> bool {
        answer == Async::NotReady
    }
}

/// Edge-triggered readiness state over one descriptor.
#[derive(Debug, Clone, Copy, PartialEq, Eq)]
pub struct NanoEvented {
    sockfd: i32,
    should_poll: bool,
}

impl View for NanoEvented {
    type V = Tracker;

    closed spec fn view(&self) -> Tracker {
        Tracker { descriptor: self.sockfd, armed: self.should_poll }
    }
}

impl NanoEvented {
    /// Builds the tracker for `sockfd` from the outcome of registering the
    /// descriptor for read readiness with the reactor.
    ///
    /// A failed registration yields no tracker and is handed back as it
    /// came. A successful one yields an armed tracker.
    pub fn try_new(sockfd: i32, registration: Result<(), std::io::Error>) -> (r: Result<
        NanoEvented,
        std::io::Error,
    >)
        ensures
            registration is Ok ==> r is Ok && r->Ok_0@ == Tracker::fresh(sockfd),
            registration is Err ==> r is Err && r->Err_0 == registration->Err_0,
    {
        match registration {
            Ok(_) => Ok(NanoEvented { sockfd, should_poll: true }),
            Err(e) => Err(e),
        }
    }

    /// The descriptor this tracker stands for.
    pub fn sockfd(&self) -> (r: i32)
        ensures
            r == self@.descriptor,
    {
        self.sockfd
    }

    /// Whether the next poll has to consult the reactor. While this is
    /// `false` the reactor must not be queried on behalf of the tracker.
    pub fn should_poll(&self) -> (r: bool)
        ensures
            r == self@.armed,
    {
        self.should_poll
    }

    /// Polls the tracker. `reactor` is the reactor's answer to a readiness
    /// query on the descriptor; it is read only while the tracker is armed.
    ///
    /// Armed and `NotReady`: the tracker stays armed and answers `NotReady`;
    /// the caller registers read interest so that it is woken later. Armed
    /// and `Ready`: the tracker disarms and answers `Ready`. Disarmed: the
    /// answer is `Ready` and nothing changes.
    pub fn poll(&mut self, reactor: Async) -> (r: Async)
        ensures
            r == old(self)@.readiness(reactor),
            final(self)@ == old(self)@.observe(reactor),
    {
        if self.should_poll {
            match reactor {
                Async::NotReady => Async::NotReady,
                Async::Ready => {
                    self.should_poll = false;
                    Async::Ready
                },
            }
        } else {
            Async::Ready
        }
    }

    /// Arms the tracker again. It is called when the transport answered "try
    /// again" although the descriptor had been reported ready; the caller
    /// registers read interest with the reactor right after.
    pub fn schedule(&mut self)
        ensures
            final(self)@ == old(self)@.schedule(),
    {
        self.should_poll = true;
    }
}

/// A poll that answers `NotReady` leaves the tracker as it was, so a second
/// poll against the same reactor answer reports `NotReady` again: readiness
/// never appears without the reactor reporting it.
pub proof fn lemma_not_ready_is_stable(t: Tracker, reactor: Async)
    requires
        t.readiness(reactor) == Async::NotReady,
    ensures
        t.armed,
        reactor == Async::NotReady,
        t.observe(reactor) == t,
        t.observe(reactor).readiness(reactor) == Async::NotReady,
{
}

/// After a re-arm the tracker is armed whatever it was before, and it
/// answers exactly what the reactor reports: an edge is neither invented nor
/// lost.
pub proof fn lemma_schedule_arms(t: Tracker, reactor: Async)
    ensures
        t.schedule().armed,
        t.schedule().descriptor == t.descriptor,
        t.schedule().schedule() == t.schedule(),
        t.schedule().readiness(reactor) == reactor,
{
}

/// One edge is consumed once. When the reactor reports readiness to an armed
/// tracker, that poll answers `Ready` and disarms it. From then on every
/// poll answers `Ready` and leaves the tracker disarmed, whatever the reactor
/// would say, so the reactor is not asked about the same edge again until
/// the tracker is re-armed.
pub proof fn lemma_edge_is_consumed_once(t: Tracker, later: Async)
    requires
        t.armed,
    ensures
        t.readiness(Async::Ready) == Async::Ready,
        !t.observe(Async::Ready).armed,
        t.observe(Async::Ready).readiness(later) == Async::Ready,
        t.observe(Async::Ready).observe(later) == t.observe(Async::Ready),
        t.observe(Async::Ready).schedule() == t,
{
}

/// Polling never changes the descriptor, and only a `Ready` answer of the
/// reactor to an armed tracker changes the armed flag.
pub proof fn lemma_observe_changes_only_on_edge(t: Tracker, reactor: Async)
    ensures
        t.observe(reactor).descriptor == t.descriptor,
        t.observe(reactor) != t <==> (t.armed && reactor == Async::Ready),
        Tracker::needs_wakeup(t.readiness(reactor)) <==> (t.armed && reactor == Async::NotReady),
{
}

} // verus!
