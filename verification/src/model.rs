//! The socket as the contracts see it.
//!
//! [`SocketView`] is the mathematical value of a [`Socket`]: its name, its
//! endpoint and the state of its trackers. Every operation of the socket is
//! given here as a pair of functions on that value, one for what the
//! operation answers and one for the socket it leaves behind. The contracts
//! in [`crate::socket`] equate the executable operations with these
//! functions, and [`crate::laws`] proves what follows from them.
//!
//! [`Socket`]: crate::socket::Socket

use vstd::prelude::*;
use crate::error::SocketError;
use crate::error::TransportError;
use crate::evented::Async;
use crate::evented::NanoEvented;
use crate::evented::Tracker;
use crate::socket::Endpoint;
use crate::socket::EndpointKind;
use crate::socket::RecvStep;
use crate::socket::SendStep;
use crate::socket::SinkSend;
use crate::socket::StreamPoll;

verus! {

/// An endpoint as the contracts see it.
pub struct EndpointView {
    /// Whether the endpoint binds or connects.
    pub kind: EndpointKind,
    /// The transport address of the endpoint.
    pub address: Seq<char>,
}

/// The socket as the contracts see it.
pub struct SocketView {
    /// The name the socket goes by in diagnostics.
    pub name: Seq<char>,
    /// The attached endpoint, if any.
    pub endpoint: Option<EndpointView>,
    /// The tracker of the receive direction, if the socket has one.
    pub recv: Option<Tracker>,
    /// The tracker of the send direction, if the socket has one.
    pub send: Option<Tracker>,
}

/// What one direction decides, from endpoint and tracker, before the
/// transport is touched.
#[derive(Debug, Clone, Copy, PartialEq, Eq, Structural)]
pub enum Clearance {
    /// The operation is refused outright.
    Fail(SocketError),
    /// The reactor has to be asked first.
    Query,
    /// The transport may be tried.
    Proceed,
    /// The descriptor is not ready.
    Suspend,
}

/// A tracker that may be absent, as the contracts see it.
pub open spec fn tracker_view(tracker: Option<NanoEvented>) -> Option<Tracker> {
    match tracker {
        Some(t) => Some(t@),
        None => None,
    }
}

/// An endpoint that may be absent, as the contracts see it.
pub open spec fn endpoint_view(endpoint: Option<Endpoint>) -> Option<EndpointView> {
    match endpoint {
        Some(e) => Some(e@),
        None => None,
    }
}

/// The answer to a request to bind or connect, as the contracts see it.
pub open spec fn request_view(answer: Result<Endpoint, SocketError>) -> Result<
    EndpointView,
    SocketError,
> {
    match answer {
        Ok(e) => Ok(e@),
        Err(e) => Err(e),
    }
}

/// What the transport answered when asked for the socket's name, as the
/// contracts see it.
pub open spec fn name_view(name: Result<String, TransportError>) -> Result<
    Seq<char>,
    TransportError,
> {
    match name {
        Ok(n) => Ok(n@),
        Err(e) => Err(e),
    }
}

/// The name a socket goes by when the transport could not tell its name.
pub open spec fn fallback_name() -> Seq<char> {
    "Unable to get socket name"@
}

/// Why a direction cannot be used at all, if it cannot. A missing endpoint
/// is found before a missing tracker.
pub open spec fn refusal(attached: bool, tracker: Option<Tracker>) -> Option<SocketError> {
    if !attached {
        Some(SocketError::EndpointMissing)
    } else if tracker is None {
        Some(SocketError::UnsupportedDirection)
    } else {
        None
    }
}

/// The clearance of one direction. A direction that cannot be used fails
/// before the reactor or the tracker's state is looked at. A disarmed
/// tracker lets the transport be tried at once. An armed one asks for the
/// reactor's answer, and goes by it when it is there.
pub open spec fn clearance(
    attached: bool,
    tracker: Option<Tracker>,
    reactor: Option<Async>,
) -> Clearance {
    match refusal(attached, tracker) {
        Some(e) => Clearance::Fail(e),
        None => if !tracker->Some_0.armed {
            Clearance::Proceed
        } else {
            match reactor {
                None => Clearance::Query,
                Some(Async::Ready) => Clearance::Proceed,
                Some(Async::NotReady) => Clearance::Suspend,
            }
        },
    }
}

/// The tracker of that direction afterwards: it has observed the reactor's
/// answer if the direction can be used and an answer was given, and is
/// untouched otherwise.
pub open spec fn cleared_tracker(
    attached: bool,
    tracker: Option<Tracker>,
    reactor: Option<Async>,
) -> Option<Tracker> {
    match (refusal(attached, tracker), reactor) {
        (None, Some(answer)) => Some(tracker->Some_0.observe(answer)),
        _ => tracker,
    }
}

/// The tracker of a direction after the transport's outcome: "try again" on
/// a direction that can be used arms it, and nothing else touches it.
pub open spec fn settled_tracker<T>(
    attached: bool,
    tracker: Option<Tracker>,
    outcome: Result<T, TransportError>,
) -> Option<Tracker> {
    match (refusal(attached, tracker), outcome) {
        (None, Err(TransportError::TryAgain)) => Some(tracker->Some_0.schedule()),
        _ => tracker,
    }
}

impl SocketView {
    /// A socket has something to poll on: a tracker for at least one
    /// direction.
    pub open spec fn wf(self) -> bool {
        self.recv is Some || self.send is Some
    }

    /// Whether an endpoint is attached.
    pub open spec fn attached(self) -> bool {
        self.endpoint is Some
    }

    /// A socket as construction leaves it: no endpoint yet, and the
    /// transport's name or, without one, the fallback.
    pub open spec fn fresh(
        name: Result<Seq<char>, TransportError>,
        recv: Option<Tracker>,
        send: Option<Tracker>,
    ) -> SocketView {
        SocketView {
            name: match name {
                Ok(n) => n,
                Err(_) => fallback_name(),
            },
            endpoint: None,
            recv,
            send,
        }
    }

    /// The answer to a request to bind or connect: the endpoint that the
    /// transport is to establish, or a refusal when one is attached already.
    pub open spec fn attach_request(self, kind: EndpointKind, address: Seq<char>) -> Result<
        EndpointView,
        SocketError,
    > {
        if self.attached() {
            Err(SocketError::EndpointAlreadyAttached)
        } else {
            Ok(EndpointView { kind, address })
        }
    }

    /// The result of attaching, given how the transport's bind or connect
    /// ended.
    pub open spec fn attach_result(self, outcome: Result<(), TransportError>) -> Result<
        (),
        SocketError,
    > {
        if self.attached() {
            Err(SocketError::EndpointAlreadyAttached)
        } else {
            match outcome {
                Ok(_) => Ok(()),
                Err(e) => Err(SocketError::Transport(e)),
            }
        }
    }

    /// The socket after attaching: the endpoint is taken only by a socket
    /// without one, and only when the transport established it.
    pub open spec fn attach(
        self,
        endpoint: EndpointView,
        outcome: Result<(), TransportError>,
    ) -> SocketView {
        if !self.attached() && outcome is Ok {
            SocketView { endpoint: Some(endpoint), ..self }
        } else {
            self
        }
    }

    /// The step that a receive poll answers with.
    pub open spec fn poll_step(self, reactor: Option<Async>) -> RecvStep {
        match clearance(self.attached(), self.recv, reactor) {
            Clearance::Fail(e) => RecvStep::Done(StreamPoll::Error(e)),
            Clearance::Query => RecvStep::Query,
            Clearance::Proceed => RecvStep::Read,
            Clearance::Suspend => RecvStep::Done(StreamPoll::NotReady),
        }
    }

    /// The socket after a receive poll.
    pub open spec fn after_poll(self, reactor: Option<Async>) -> SocketView {
        SocketView { recv: cleared_tracker(self.attached(), self.recv, reactor), ..self }
    }

    /// The result of a receive poll, given how the transport's read ended.
    /// A receive direction that cannot be used fails whatever was read.
    /// Otherwise a message is yielded as it was read, "try again" suspends,
    /// and any other report of the transport ends the poll with that report.
    pub open spec fn fetch_result(self, outcome: Result<Vec<u8>, TransportError>) -> StreamPoll {
        match refusal(self.attached(), self.recv) {
            Some(e) => StreamPoll::Error(e),
            None => match outcome {
                Ok(message) => StreamPoll::Ready(message),
                Err(TransportError::TryAgain) => StreamPoll::NotReady,
                Err(e) => StreamPoll::Error(SocketError::Transport(e)),
            },
        }
    }

    /// The socket after the read.
    pub open spec fn after_fetch(self, outcome: Result<Vec<u8>, TransportError>) -> SocketView {
        SocketView { recv: settled_tracker(self.attached(), self.recv, outcome), ..self }
    }

    /// The step that an offer to send `item` answers with. The message
    /// travels with the step and comes back in a rejection.
    pub open spec fn send_step(self, item: Vec<u8>, reactor: Option<Async>) -> SendStep {
        match clearance(self.attached(), self.send, reactor) {
            Clearance::Fail(e) => SendStep::Done(SinkSend::Error(e)),
            Clearance::Query => SendStep::Query(item),
            Clearance::Proceed => SendStep::Write(item),
            Clearance::Suspend => SendStep::Done(SinkSend::Rejected(item)),
        }
    }

    /// The socket after an offer to send.
    pub open spec fn after_start_send(self, reactor: Option<Async>) -> SocketView {
        SocketView { send: cleared_tracker(self.attached(), self.send, reactor), ..self }
    }

    /// The result of a send, given how the transport's write of `item`
    /// ended. A send direction that cannot be used fails whatever was
    /// written. Otherwise a write that succeeded accepts the message, "try
    /// again" hands it back for another offer, and any other report of the
    /// transport ends the send with that report.
    pub open spec fn send_result(
        self,
        item: Vec<u8>,
        outcome: Result<usize, TransportError>,
    ) -> SinkSend {
        match refusal(self.attached(), self.send) {
            Some(e) => SinkSend::Error(e),
            None => match outcome {
                Ok(_) => SinkSend::Accepted,
                Err(TransportError::TryAgain) => SinkSend::Rejected(item),
                Err(e) => SinkSend::Error(SocketError::Transport(e)),
            },
        }
    }

    /// The socket after the write.
    pub open spec fn after_send(self, outcome: Result<usize, TransportError>) -> SocketView {
        SocketView { send: settled_tracker(self.attached(), self.send, outcome), ..self }
    }
}

} // verus!
