//! The socket adapter.
//!
//! A [`Socket`] holds what the adapter knows of one transport handle: its
//! name, the endpoint that was attached to it, if any, and a readiness
//! tracker for each direction that the handle supports. The handle itself
//! stays with the driver.
//!
//! Receiving and sending are each a short exchange with the driver.
//! [`Socket::poll`] and [`Socket::start_send`] answer with a step: ask the
//! reactor, perform one non-blocking transport operation, or finish with a
//! result. The driver performs the step and reports back, to the same
//! function for the reactor's answer, and to [`Socket::fetch`] or
//! [`Socket::send`] for the outcome of the transport operation. One poll or
//! one offer leads to at most one transport operation.
//!
//! A result of `NotReady` or `Rejected` is a suspension: before the driver
//! returns it to the scheduler, it registers read interest for the
//! descriptor of that direction, so that the task is woken on the next edge.

use vstd::prelude::*;
use crate::error::SocketError;
use crate::error::TransportError;
use crate::evented::Async;
use crate::evented::NanoEvented;
use crate::model::clearance;
use crate::model::cleared_tracker;
use crate::model::endpoint_view;
use crate::model::name_view;
use crate::model::refusal;
use crate::model::request_view;
use crate::model::tracker_view;
use crate::model::Clearance;
use crate::model::EndpointView;
use crate::model::SocketView;

verus! {

/// The longest socket name, in bytes, that is asked of the transport.
pub const MAX_SOCKET_NAME_LENGTH: usize = 128;

/// How an endpoint comes to be: by binding to a local address or by
/// connecting to a remote one.
#[derive(Debug, Clone, Copy, PartialEq, Eq, Structural)]
pub enum EndpointKind {
    Bound,
    Connected,
}

/// The address binding of a socket. The transport's own endpoint stays with
/// the driver; this is the record of which one it is.
#[derive(Debug, PartialEq, Eq)]
pub struct Endpoint {
    kind: EndpointKind,
    address: String,
}

impl View for Endpoint {
    type V = EndpointView;

    closed spec fn view(&self) -> EndpointView {
        EndpointView { kind: self.kind, address: self.address@ }
    }
}

impl Endpoint {
    /// Whether the endpoint binds or connects.
    pub fn kind(&self) -> (r: EndpointKind)
        ensures
            r == self@.kind,
    {
        self.kind
    }

    /// The transport address of the endpoint.
    pub fn address(&self) -> (r: &str)
        ensures
            r@ == self@.address,
    {
        self.address.as_str()
    }
}

/// The result of polling the socket as a stream of messages.
#[derive(Debug, PartialEq, Eq)]
pub enum StreamPoll {
    /// One whole message.
    Ready(Vec<u8>),
    /// Nothing to yield now; the caller suspends.
    NotReady,
    /// The stream is over. The adapter never ends the stream by itself.
    End,
    /// The stream failed.
    Error(SocketError),
}

/// The result of offering the socket one message to send.
#[derive(Debug, PartialEq, Eq)]
pub enum SinkSend {
    /// The transport took the whole message.
    Accepted,
    /// The message was not taken and comes back unchanged; the caller
    /// suspends and offers it again.
    Rejected(Vec<u8>),
    /// The sink failed.
    Error(SocketError),
}

impl StreamPoll {
    /// Whether the result is a suspension. Before a suspension goes back to
    /// the scheduler, read interest is registered for the receive
    /// descriptor; no other result asks for that.
    pub open spec fn suspends(self) -> bool {
        self is NotReady
    }

    /// Whether the driver has to register read interest for the receive
    /// descriptor before it returns this result.
    pub fn needs_wakeup(&self) -> (r: bool)
        ensures
            r == self.suspends(),
    {
        match self {
            StreamPoll::NotReady => true,
            _ => false,
        }
    }
}

impl SinkSend {
    /// Whether the result is a suspension. Before a suspension goes back to
    /// the scheduler, read interest is registered for the send descriptor;
    /// no other result asks for that.
    pub open spec fn suspends(self) -> bool {
        self is Rejected
    }

    /// Whether the driver has to register read interest for the send
    /// descriptor before it returns this result.
    pub fn needs_wakeup(&self) -> (r: bool)
        ensures
            r == self.suspends(),
    {
        match self {
            SinkSend::Rejected(_) => true,
            _ => false,
        }
    }
}

/// What the driver does next on behalf of a receive poll.
#[derive(Debug, PartialEq, Eq)]
pub enum RecvStep {
    /// Ask the reactor whether the receive descriptor is readable, and poll
    /// again with the answer.
    Query,
    /// Perform one non-blocking read of a whole message and hand the
    /// outcome to [`Socket::fetch`].
    Read,
    /// The poll is over.
    Done(StreamPoll),
}

/// What the driver does next on behalf of a send.
#[derive(Debug, PartialEq, Eq)]
pub enum SendStep {
    /// Ask the reactor whether the send descriptor is readable, and offer
    /// the message again with the answer.
    Query(Vec<u8>),
    /// Perform one non-blocking write of the whole message and hand message
    /// and outcome to [`Socket::send`].
    Write(Vec<u8>),
    /// The send is over.
    Done(SinkSend),
}

/// What a socket shows of itself for diagnostics.
#[derive(Debug, PartialEq, Eq)]
pub struct Summary {
    /// The socket's name.
    pub socket: String,
    /// Whether an endpoint is attached.
    pub endpoint: bool,
    /// The receive tracker, if any.
    pub recv_evented: Option<NanoEvented>,
    /// The send tracker, if any.
    pub send_evented: Option<NanoEvented>,
}

/// The adapter's state for one transport handle.
#[derive(Debug)]
pub struct Socket {
    name: String,
    endpoint: Option<Endpoint>,
    // poll stuff
    recv_evented: Option<NanoEvented>,
    send_evented: Option<NanoEvented>,
}

impl View for Socket {
    type V = SocketView;

    closed spec fn view(&self) -> SocketView {
        SocketView {
            name: self.name@,
            endpoint: endpoint_view(self.endpoint),
            recv: tracker_view(self.recv_evented),
            send: tracker_view(self.send_evented),
        }
    }
}

/// Says why a direction cannot be used at all, if it cannot.
fn refuse(attached: bool, tracker: &Option<NanoEvented>) -> (r: Option<SocketError>)
    ensures
        r == refusal(attached, tracker_view(*tracker)),
{
    if !attached {
        Some(SocketError::EndpointMissing)
    } else if tracker.is_none() {
        Some(SocketError::UnsupportedDirection)
    } else {
        None
    }
}

/// Decides the clearance of one direction on its tracker, and hands the
/// tracker back as the decision leaves it.
fn clear_direction(attached: bool, tracker: Option<NanoEvented>, reactor: Option<Async>) -> (r: (
    Clearance,
    Option<NanoEvented>,
))
    ensures
        r.0 == clearance(attached, tracker_view(tracker), reactor),
        tracker_view(r.1) == cleared_tracker(attached, tracker_view(tracker), reactor),
        r.1 is Some <==> tracker is Some,
{
    if let Some(e) = refuse(attached, &tracker) {
        return (Clearance::Fail(e), tracker);
    }
    match tracker {
        None => (Clearance::Fail(SocketError::UnsupportedDirection), None),
        Some(mut evented) => {
            if !evented.should_poll() {
                (Clearance::Proceed, Some(evented))
            } else {
                match reactor {
                    None => (Clearance::Query, Some(evented)),
                    Some(answer) => match evented.poll(answer) {
                        Async::Ready => (Clearance::Proceed, Some(evented)),
                        Async::NotReady => (Clearance::Suspend, Some(evented)),
                    },
                }
            }
        },
    }
}

/// Arms the tracker of one direction, if there is one.
fn rearm(tracker: Option<NanoEvented>) -> (r: Option<NanoEvented>)
    ensures
        match tracker {
            Some(t) => tracker_view(r) == Some(t@.schedule()),
            None => r is None,
        },
{
    match tracker {
        Some(mut evented) => {
            evented.schedule();
            Some(evented)
        },
        None => None,
    }
}

impl Socket {
    #[verifier::type_invariant]
    spec fn inv(self) -> bool {
        self.recv_evented is Some || self.send_evented is Some
    }

    /// Builds the adapter's state for a freshly opened transport handle.
    ///
    /// `name` is what the transport answered when asked for the socket's
    /// name. `recv_evented` and `send_evented` are the trackers that could
    /// be built for the handle's receive and send descriptors.
    ///
    /// Construction succeeds exactly when at least one tracker is there. The
    /// socket then has no endpoint, and carries the transport's name or,
    /// where the transport gave none, a fixed fallback.
    pub fn new(
        name: Result<String, TransportError>,
        recv_evented: Option<NanoEvented>,
        send_evented: Option<NanoEvented>,
    ) -> (r: Result<Socket, SocketError>)
        ensures
            r is Ok <==> (recv_evented is Some || send_evented is Some),
            r is Err ==> r->Err_0 == SocketError::NoUsableDirection,
            r is Ok ==> r->Ok_0@ == SocketView::fresh(
                name_view(name),
                tracker_view(recv_evented),
                tracker_view(send_evented),
            ),
            r is Ok ==> r->Ok_0@.wf(),
    {
        // at least one listening socket should be available
        if recv_evented.is_none() && send_evented.is_none() {
            return Err(SocketError::NoUsableDirection);
        }
        let name = match name {
            Ok(n) => n,
            Err(_) => "Unable to get socket name".to_owned(),
        };

        Ok(Socket { name, endpoint: None, recv_evented, send_evented })
    }

    /// Asks to bind the socket to `addr`.
    ///
    /// A socket without an endpoint answers with the endpoint that the
    /// transport is to establish by binding; the outcome goes to
    /// [`Socket::attach`]. A socket with an endpoint refuses, whatever the
    /// address.
    pub fn bind(&self, addr: &str) -> (r: Result<Endpoint, SocketError>)
        ensures
            request_view(r) == self@.attach_request(EndpointKind::Bound, addr@),
    {
        if self.endpoint.is_some() {
            Err(SocketError::EndpointAlreadyAttached)
        } else {
            Ok(Endpoint { kind: EndpointKind::Bound, address: addr.to_owned() })
        }
    }

    /// Asks to connect the socket to `addr`: as [`Socket::bind`], for an
    /// endpoint that the transport establishes by connecting.
    pub fn connect(&self, addr: &str) -> (r: Result<Endpoint, SocketError>)
        ensures
            request_view(r) == self@.attach_request(EndpointKind::Connected, addr@),
    {
        if self.endpoint.is_some() {
            Err(SocketError::EndpointAlreadyAttached)
        } else {
            Ok(Endpoint { kind: EndpointKind::Connected, address: addr.to_owned() })
        }
    }

    /// Records how the transport's bind or connect for `endpoint` ended.
    ///
    /// The endpoint is attached when the socket had none and the transport
    /// succeeded. A failure of the transport is handed on and leaves the
    /// socket without an endpoint. A socket that has an endpoint keeps it
    /// and refuses.
    pub fn attach(&mut self, endpoint: Endpoint, outcome: Result<(), TransportError>) -> (r: Result<
        (),
        SocketError,
    >)
        ensures
            r == old(self)@.attach_result(outcome),
            final(self)@ == old(self)@.attach(endpoint@, outcome),
            final(self)@.wf(),
    {
        proof {
            use_type_invariant(&*self);
        }
        if self.endpoint.is_some() {
            return Err(SocketError::EndpointAlreadyAttached);
        }
        match outcome {
            Ok(_) => {
                self.endpoint = Some(endpoint);
                Ok(())
            },
            Err(e) => Err(SocketError::Transport(e)),
        }
    }

    /// Polls the socket for the next message.
    ///
    /// `reactor` is `None` on the first call of a poll. When the answer is
    /// [`RecvStep::Query`], the driver asks the reactor about the receive
    /// descriptor and calls again with the answer.
    ///
    /// A socket without an endpoint, or without a receive tracker, fails at
    /// once. Otherwise the receive tracker decides: not ready suspends the
    /// poll without touching the transport, ready asks for one read.
    pub fn poll(&mut self, reactor: Option<Async>) -> (r: RecvStep)
        ensures
            r == old(self)@.poll_step(reactor),
            final(self)@ == old(self)@.after_poll(reactor),
            final(self)@.wf(),
    {
        proof {
            use_type_invariant(&*self);
        }
        let attached = self.endpoint.is_some();
        let (decision, tracker) = clear_direction(attached, self.recv_evented, reactor);
        self.recv_evented = tracker;
        match decision {
            Clearance::Fail(e) => RecvStep::Done(StreamPoll::Error(e)),
            Clearance::Query => RecvStep::Query,
            Clearance::Proceed => RecvStep::Read,
            Clearance::Suspend => RecvStep::Done(StreamPoll::NotReady),
        }
    }

    /// Ends a receive poll with the outcome of the transport's read.
    ///
    /// A socket without an endpoint, or without a receive tracker, fails
    /// whatever the outcome. Otherwise the bytes read are yielded as one
    /// message, "try again" arms the receive tracker and suspends the poll,
    /// and any other report of the transport is the poll's error.
    pub fn fetch(&mut self, outcome: Result<Vec<u8>, TransportError>) -> (r: StreamPoll)
        ensures
            r == old(self)@.fetch_result(outcome),
            final(self)@ == old(self)@.after_fetch(outcome),
            final(self)@.wf(),
    {
        proof {
            use_type_invariant(&*self);
        }
        if let Some(e) = refuse(self.endpoint.is_some(), &self.recv_evented) {
            return StreamPoll::Error(e);
        }
        match outcome {
            Ok(buf) => StreamPoll::Ready(buf),
            Err(TransportError::TryAgain) => {
                self.recv_evented = rearm(self.recv_evented);
                StreamPoll::NotReady
            },
            Err(err) => StreamPoll::Error(SocketError::Transport(err)),
        }
    }

    /// Offers `item` to the socket for sending.
    ///
    /// `reactor` is `None` on the first call of an offer. When the answer is
    /// [`SendStep::Query`], the driver asks the reactor about the send
    /// descriptor and offers the message, which came back with the step,
    /// again with the answer.
    ///
    /// A socket without an endpoint, or without a send tracker, fails at
    /// once. Otherwise the send tracker decides: not ready rejects the
    /// message without touching the transport, ready asks for one write.
    pub fn start_send(&mut self, item: Vec<u8>, reactor: Option<Async>) -> (r: SendStep)
        ensures
            r == old(self)@.send_step(item, reactor),
            final(self)@ == old(self)@.after_start_send(reactor),
            final(self)@.wf(),
    {
        proof {
            use_type_invariant(&*self);
        }
        let attached = self.endpoint.is_some();
        let (decision, tracker) = clear_direction(attached, self.send_evented, reactor);
        self.send_evented = tracker;
        match decision {
            Clearance::Fail(e) => SendStep::Done(SinkSend::Error(e)),
            Clearance::Query => SendStep::Query(item),
            Clearance::Proceed => SendStep::Write(item),
            Clearance::Suspend => SendStep::Done(SinkSend::Rejected(item)),
        }
    }

    /// Ends a send with the outcome of the transport's write of `item`.
    ///
    /// A socket without an endpoint, or without a send tracker, fails
    /// whatever the outcome. Otherwise a write that succeeded accepts the
    /// message, "try again" arms the send tracker and hands the message back
    /// unchanged, and any other report of the transport is the send's error.
    pub fn send(&mut self, item: Vec<u8>, outcome: Result<usize, TransportError>) -> (r: SinkSend)
        ensures
            r == old(self)@.send_result(item, outcome),
            final(self)@ == old(self)@.after_send(outcome),
            final(self)@.wf(),
    {
        proof {
            use_type_invariant(&*self);
        }
        if let Some(e) = refuse(self.endpoint.is_some(), &self.send_evented) {
            return SinkSend::Error(e);
        }
        match outcome {
            Ok(_) => SinkSend::Accepted,
            Err(TransportError::TryAgain) => {
                self.send_evented = rearm(self.send_evented);
                SinkSend::Rejected(item)
            },
            Err(err) => SinkSend::Error(SocketError::Transport(err)),
        }
    }

    /// Flushes the sink. The adapter buffers nothing, so there is never
    /// anything left to flush.
    pub fn poll_complete(&self) -> (r: Async)
        ensures
            r == Async::Ready,
    {
        Async::Ready
    }

    /// Ends the socket's life and hands out the endpoint that the driver has
    /// to shut down: the attached one, or none when none was attached.
    pub fn close(self) -> (r: Option<Endpoint>)
        ensures
            endpoint_view(r) == self@.endpoint,
    {
        self.endpoint
    }

    /// The socket's name.
    pub fn name(&self) -> (r: &str)
        ensures
            r@ == self@.name,
    {
        self.name.as_str()
    }

    /// The attached endpoint, if any.
    pub fn endpoint(&self) -> (r: Option<&Endpoint>)
        ensures
            match r {
                Some(e) => self@.endpoint == Some(e@),
                None => self@.endpoint is None,
            },
    {
        self.endpoint.as_ref()
    }

    /// The receive tracker, if any.
    pub fn recv_evented(&self) -> (r: Option<NanoEvented>)
        ensures
            tracker_view(r) == self@.recv,
    {
        self.recv_evented
    }

    /// The send tracker, if any.
    pub fn send_evented(&self) -> (r: Option<NanoEvented>)
        ensures
            tracker_view(r) == self@.send,
    {
        self.send_evented
    }

    /// What the socket shows of itself for diagnostics: its name, whether
    /// an endpoint is attached, and its trackers, of which there is at
    /// least one.
    pub fn describe(&self) -> (r: Summary)
        ensures
            r.socket@ == self@.name,
            r.endpoint == self@.attached(),
            tracker_view(r.recv_evented) == self@.recv,
            tracker_view(r.send_evented) == self@.send,
            r.recv_evented is Some || r.send_evented is Some,
    {
        proof {
            use_type_invariant(self);
        }
        Summary {
            socket: self.name.clone(),
            endpoint: self.endpoint.is_some(),
            recv_evented: self.recv_evented,
            send_evented: self.send_evented,
        }
    }
}

} // verus!
