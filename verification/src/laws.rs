//! What holds of every socket.
//!
//! Each law is stated over [`SocketView`] and the functions of
//! [`crate::model`], the same that the contracts of [`crate::socket`] use, so
//! it holds of every run of the executable operations.

use vstd::prelude::*;
use crate::error::SocketError;
use crate::error::TransportError;
use crate::evented::Async;
use crate::model::EndpointView;
use crate::model::SocketView;
use crate::socket::EndpointKind;
use crate::socket::RecvStep;
use crate::socket::SendStep;
use crate::socket::SinkSend;
use crate::socket::StreamPoll;

verus! {

/// An endpoint is attached at most once. After an attach that succeeded,
/// the socket holds that endpoint; every later request to bind or connect is
/// refused, whatever the address, and every later attach is refused,
/// whatever the transport reported, and leaves the first endpoint where it
/// is.
pub proof fn lemma_endpoint_attaches_once(
    s: SocketView,
    first: EndpointView,
    first_outcome: Result<(), TransportError>,
    kind: EndpointKind,
    address: Seq<char>,
    second: EndpointView,
    second_outcome: Result<(), TransportError>,
)
    requires
        s.attach_result(first_outcome) is Ok,
    ensures
        s.attach(first, first_outcome).endpoint == Some(first),
        s.attach(first, first_outcome).attach_request(kind, address) == Err::<
            EndpointView,
            SocketError,
        >(SocketError::EndpointAlreadyAttached),
        s.attach(first, first_outcome).attach_result(second_outcome) == Err::<(), SocketError>(
            SocketError::EndpointAlreadyAttached,
        ),
        s.attach(first, first_outcome).attach(second, second_outcome) == s.attach(
            first,
            first_outcome,
        ),
{
}

/// An attach that did not succeed changes nothing, and attaching never
/// touches the name or the trackers.
pub proof fn lemma_attach_keeps_the_rest(
    s: SocketView,
    endpoint: EndpointView,
    outcome: Result<(), TransportError>,
)
    ensures
        s.attach_result(outcome) is Err ==> s.attach(endpoint, outcome) == s,
        s.attach(endpoint, outcome).name == s.name,
        s.attach(endpoint, outcome).recv == s.recv,
        s.attach(endpoint, outcome).send == s.send,
        s.attach(endpoint, outcome).wf() == s.wf(),
{
}

/// Without an endpoint both directions fail at once. Whatever the reactor
/// and the transport report, every operation of the stream and of the sink
/// ends with an error, never with a suspension and never with a step for
/// the driver, and the socket is left as it was.
pub proof fn lemma_unattached_socket_fails(
    s: SocketView,
    item: Vec<u8>,
    reactor: Option<Async>,
    read: Result<Vec<u8>, TransportError>,
    written: Result<usize, TransportError>,
)
    requires
        !s.attached(),
    ensures
        s.poll_step(reactor) == RecvStep::Done(StreamPoll::Error(SocketError::EndpointMissing)),
        s.fetch_result(read) == StreamPoll::Error(SocketError::EndpointMissing),
        s.send_step(item, reactor) == SendStep::Done(
            SinkSend::Error(SocketError::EndpointMissing),
        ),
        s.send_result(item, written) == SinkSend::Error(SocketError::EndpointMissing),
        s.after_poll(reactor) == s,
        s.after_fetch(read) == s,
        s.after_start_send(reactor) == s,
        s.after_send(written) == s,
{
}

/// A direction without a tracker fails at once on an attached socket,
/// whatever the reactor and the transport report, and leaves the socket as
/// it was.
pub proof fn lemma_missing_direction_fails(
    s: SocketView,
    item: Vec<u8>,
    reactor: Option<Async>,
    read: Result<Vec<u8>, TransportError>,
    written: Result<usize, TransportError>,
)
    requires
        s.attached(),
    ensures
        s.recv is None ==> {
            &&& s.poll_step(reactor) == RecvStep::Done(
                StreamPoll::Error(SocketError::UnsupportedDirection),
            )
            &&& s.fetch_result(read) == StreamPoll::Error(SocketError::UnsupportedDirection)
            &&& s.after_poll(reactor) == s
            &&& s.after_fetch(read) == s
        },
        s.send is None ==> {
            &&& s.send_step(item, reactor) == SendStep::Done(
                SinkSend::Error(SocketError::UnsupportedDirection),
            )
            &&& s.send_result(item, written) == SinkSend::Error(
                SocketError::UnsupportedDirection,
            )
            &&& s.after_start_send(reactor) == s
            &&& s.after_send(written) == s
        },
{
}

/// A poll that suspends on the reactor's answer leaves the socket as it was,
/// so polling again against the same answer suspends again.
pub proof fn lemma_suspended_poll_is_stable(s: SocketView, reactor: Option<Async>)
    requires
        s.poll_step(reactor) == RecvStep::Done(StreamPoll::NotReady),
    ensures
        reactor == Some(Async::NotReady),
        s.after_poll(reactor) == s,
        s.after_poll(reactor).poll_step(reactor) == RecvStep::Done(StreamPoll::NotReady),
{
}

/// The same for the sink: an offer that is rejected on the reactor's answer
/// leaves the socket as it was and is rejected again against the same
/// answer.
pub proof fn lemma_rejected_offer_is_stable(s: SocketView, item: Vec<u8>, reactor: Option<Async>)
    requires
        s.send_step(item, reactor) == SendStep::Done(SinkSend::Rejected(item)),
    ensures
        reactor == Some(Async::NotReady),
        s.after_start_send(reactor) == s,
        s.after_start_send(reactor).send_step(item, reactor) == SendStep::Done(
            SinkSend::Rejected(item),
        ),
{
}

/// When the transport answers a read with "try again", the poll suspends and
/// the receive tracker is armed: the next poll asks for the reactor.
/// Readiness reported then is used for one read and disarms the tracker, and
/// the polls that follow ask for a read without asking the reactor again.
pub proof fn lemma_try_again_rearms_receive(s: SocketView, later: Option<Async>)
    requires
        s.attached(),
        s.recv is Some,
    ensures
        s.fetch_result(Err(TransportError::TryAgain)) == StreamPoll::NotReady,
        s.after_fetch(Err(TransportError::TryAgain)).recv == Some(s.recv->Some_0.schedule()),
        s.after_fetch(Err(TransportError::TryAgain)).poll_step(None) == RecvStep::Query,
        s.after_fetch(Err(TransportError::TryAgain)).poll_step(Some(Async::Ready))
            == RecvStep::Read,
        s.after_fetch(Err(TransportError::TryAgain)).after_poll(Some(Async::Ready)).poll_step(
            later,
        ) == RecvStep::Read,
        s.after_fetch(Err(TransportError::TryAgain)).after_poll(Some(Async::Ready)).after_poll(
            later,
        ) == s.after_fetch(Err(TransportError::TryAgain)).after_poll(Some(Async::Ready)),
{
}

/// The same for the send direction: "try again" on a write hands the message
/// back and arms the send tracker, and readiness reported after that is used
/// without asking the reactor again.
pub proof fn lemma_try_again_rearms_send(s: SocketView, item: Vec<u8>, later: Option<Async>)
    requires
        s.attached(),
        s.send is Some,
    ensures
        s.send_result(item, Err(TransportError::TryAgain)) == SinkSend::Rejected(item),
        s.after_send(Err(TransportError::TryAgain)).send == Some(s.send->Some_0.schedule()),
        s.after_send(Err(TransportError::TryAgain)).send_step(item, None) == SendStep::Query(
            item,
        ),
        s.after_send(Err(TransportError::TryAgain)).send_step(item, Some(Async::Ready))
            == SendStep::Write(item),
        s.after_send(Err(TransportError::TryAgain)).after_start_send(
            Some(Async::Ready),
        ).send_step(item, later) == SendStep::Write(item),
        s.after_send(Err(TransportError::TryAgain)).after_start_send(
            Some(Async::Ready),
        ).after_start_send(later) == s.after_send(
            Err(TransportError::TryAgain),
        ).after_start_send(Some(Async::Ready)),
{
}

/// The adapter never alters a message. Whatever step or result carries a
/// message on the way out carries the one that was offered, and a message
/// that the transport read is yielded as it is. So when the transport
/// delivers to the receiver the bytes that the sender wrote, the receiver
/// yields the sender's message, one message for one message.
pub proof fn lemma_message_passes_unchanged(
    sender: SocketView,
    receiver: SocketView,
    item: Vec<u8>,
    reactor: Option<Async>,
    written: Result<usize, TransportError>,
)
    requires
        sender.attached(),
        sender.send is Some,
        receiver.attached(),
        receiver.recv is Some,
    ensures
        sender.send_step(item, reactor) matches SendStep::Write(m) ==> m == item,
        sender.send_step(item, reactor) matches SendStep::Query(m) ==> m == item,
        sender.send_step(item, reactor) matches SendStep::Done(SinkSend::Rejected(m)) ==> m
            == item,
        sender.send_result(item, written) matches SinkSend::Rejected(m) ==> m == item,
        written is Ok ==> sender.send_result(item, written) == SinkSend::Accepted,
        receiver.fetch_result(Ok(item)) == StreamPoll::Ready(item),
        receiver.after_fetch(Ok(item)) == receiver,
{
}

/// Backpressure is never an error. No result carries "try again" as the
/// transport's failure. Every other report of the transport, on a direction
/// that can be used, is handed on as it came and changes nothing.
pub proof fn lemma_transport_reports(s: SocketView, item: Vec<u8>, e: TransportError)
    ensures
        s.fetch_result(Err(e)) != StreamPoll::Error(
            SocketError::Transport(TransportError::TryAgain),
        ),
        s.send_result(item, Err(e)) != SinkSend::Error(
            SocketError::Transport(TransportError::TryAgain),
        ),
        s.attached() && s.recv is Some && !e.is_transient() ==> s.fetch_result(Err(e))
            == StreamPoll::Error(SocketError::Transport(e)),
        s.attached() && s.send is Some && !e.is_transient() ==> s.send_result(item, Err(e))
            == SinkSend::Error(SocketError::Transport(e)),
        !e.is_transient() ==> s.after_fetch(Err(e)) == s && s.after_send(Err(e)) == s,
{
}

/// When a wake-up is owed. A receive poll suspends in two cases and no
/// other: the reactor told an armed receive tracker that the descriptor is
/// not ready, or the transport answered the read with "try again". An offer
/// to send suspends in the two like cases. Either way the socket has an
/// endpoint and a tracker for the direction, and that tracker is armed
/// afterwards.
pub proof fn lemma_suspension(
    s: SocketView,
    item: Vec<u8>,
    reactor: Option<Async>,
    read: Result<Vec<u8>, TransportError>,
    written: Result<usize, TransportError>,
)
    ensures
        s.poll_step(reactor) matches RecvStep::Done(r) && r.suspends() <==> s.attached()
            && s.recv is Some && s.recv->Some_0.armed && reactor == Some(Async::NotReady),
        s.fetch_result(read).suspends() <==> s.attached() && s.recv is Some && read == Err::<
            Vec<u8>,
            TransportError,
        >(TransportError::TryAgain),
        s.send_step(item, reactor) matches SendStep::Done(r) && r.suspends() <==> s.attached()
            && s.send is Some && s.send->Some_0.armed && reactor == Some(Async::NotReady),
        s.send_result(item, written).suspends() <==> s.attached() && s.send is Some && written
            == Err::<usize, TransportError>(TransportError::TryAgain),
        s.poll_step(reactor) matches RecvStep::Done(r) && r.suspends() ==> s.after_poll(
            reactor,
        ).recv->Some_0.armed,
        s.fetch_result(read).suspends() ==> s.after_fetch(read).recv->Some_0.armed,
        s.send_step(item, reactor) matches SendStep::Done(r) && r.suspends()
            ==> s.after_start_send(reactor).send->Some_0.armed,
        s.send_result(item, written).suspends() ==> s.after_send(written).send->Some_0.armed,
{
}

/// The adapter never ends the stream: no poll, whatever the reactor and the
/// transport report, results in `End`.
pub proof fn lemma_stream_never_ends(
    s: SocketView,
    reactor: Option<Async>,
    read: Result<Vec<u8>, TransportError>,
)
    ensures
        s.poll_step(reactor) != RecvStep::Done(StreamPoll::End),
        s.fetch_result(read) != StreamPoll::End,
{
}

/// No step changes which directions a socket has, its name or its endpoint,
/// and each direction's steps leave the other direction's tracker alone. So
/// a socket that has something to poll on keeps it.
pub proof fn lemma_steps_keep_shape(
    s: SocketView,
    reactor: Option<Async>,
    read: Result<Vec<u8>, TransportError>,
    written: Result<usize, TransportError>,
)
    ensures
        s.after_poll(reactor).wf() == s.wf(),
        s.after_fetch(read).wf() == s.wf(),
        s.after_start_send(reactor).wf() == s.wf(),
        s.after_send(written).wf() == s.wf(),
        s.after_poll(reactor).endpoint == s.endpoint,
        s.after_fetch(read).endpoint == s.endpoint,
        s.after_start_send(reactor).endpoint == s.endpoint,
        s.after_send(written).endpoint == s.endpoint,
        s.after_poll(reactor).name == s.name,
        s.after_fetch(read).name == s.name,
        s.after_start_send(reactor).name == s.name,
        s.after_send(written).name == s.name,
        s.after_poll(reactor).send == s.send,
        s.after_fetch(read).send == s.send,
        s.after_start_send(reactor).recv == s.recv,
        s.after_send(written).recv == s.recv,
{
}

} // verus!
