//! A pair of bounded message channels that connects two threads both ways.
use vstd::prelude::*;

use std::sync::mpsc::Receiver;
use std::sync::mpsc::SyncSender;
use std::time::Duration;

verus! {

/// The sending half of a bounded standard channel; opaque to proofs.
#[verifier::external_type_specification]
#[verifier::external_body]
#[verifier::reject_recursive_types(T)]
pub struct ExSyncSender<T>(SyncSender<T>);

/// The receiving half of a standard channel; opaque to proofs.
#[verifier::external_type_specification]
#[verifier::external_body]
#[verifier::reject_recursive_types(T)]
pub struct ExReceiver<T>(Receiver<T>);

/// `std::sync::mpsc::sync_channel` makes a new channel that holds at most
/// `bound` messages. Nothing is claimed of the two halves it returns.
pub assume_specification<T>[ std::sync::mpsc::sync_channel::<T> ](bound: usize) -> (SyncSender<T>, Receiver<T>);

/// Why nothing was received.
#[derive(Clone, Copy, PartialEq, Eq, Structural, Debug)]
pub enum ChannelError {
    /// The other end has hung up and nothing is left to receive.
    Disconnected,
    /// Nothing arrived before the time ran out.
    Timeout,
    /// Nothing is waiting right now.
    Empty,
}

/// Calls `SyncSender::send`. Its documentation says that a send fails only when
/// the receiver is gone, and that the failure hands the message back: the
/// contract claims that an `Err` holds the very value that was given.
#[verifier::external_body]
fn send_on<T>(sender: &SyncSender<T>, data: T) -> (r: Result<(), T>)
    ensures
        r matches Err(back) ==> back == data,
{
    match sender.send(data) {
        Ok(()) => Ok(()),
        Err(e) => Err(e.0),
    }
}

/// Calls `Receiver::recv`. Its only error is a hung-up sender, so the
/// contract claims that an `Err` is `Disconnected`; what arrives depends on the
/// other thread and is not stated.
#[verifier::external_body]
fn recv_on<T>(receiver: &Receiver<T>) -> (r: Result<T, ChannelError>)
    ensures
        r matches Err(e) ==> e == ChannelError::Disconnected,
{
    match receiver.recv() {
        Ok(v) => Ok(v),
        Err(_) => Err(ChannelError::Disconnected),
    }
}

/// Calls `Receiver::recv_timeout`. Its error is a timeout or a hung-up sender
/// (one arm each here); the contract claims no other error.
#[verifier::external_body]
fn recv_timeout_on<T>(receiver: &Receiver<T>, timeout: Duration) -> (r: Result<T, ChannelError>)
    ensures
        r matches Err(e) ==> e == ChannelError::Timeout || e == ChannelError::Disconnected,
{
    match receiver.recv_timeout(timeout) {
        Ok(v) => Ok(v),
        Err(std::sync::mpsc::RecvTimeoutError::Timeout) => Err(ChannelError::Timeout),
        Err(std::sync::mpsc::RecvTimeoutError::Disconnected) => Err(ChannelError::Disconnected),
    }
}

/// Calls `Receiver::try_recv`. Its error is an empty channel or a hung-up
/// sender (one arm each here); the contract claims no other error.
#[verifier::external_body]
fn try_recv_on<T>(receiver: &Receiver<T>) -> (r: Result<T, ChannelError>)
    ensures
        r matches Err(e) ==> e == ChannelError::Empty || e == ChannelError::Disconnected,
{
    match receiver.try_recv() {
        Ok(v) => Ok(v),
        Err(std::sync::mpsc::TryRecvError::Empty) => Err(ChannelError::Empty),
        Err(std::sync::mpsc::TryRecvError::Disconnected) => Err(ChannelError::Disconnected),
    }
}

/// How many messages each direction holds before a send waits.
pub const CHANNEL_CAPACITY: usize = 3;

/// One end of a two-way connection: it sends on one channel and receives on
/// the other. It keeps, for proofs only, the messages that its channel has
/// taken, in the order they were sent.
#[verifier::reject_recursive_types(T)]
pub struct DualChannel<T> {
    sender: SyncSender<T>,
    receiver: Receiver<T>,
    sent: Ghost<Seq<T>>,
}

impl<T> DualChannel<T> {
    /// The messages this end has handed to its channel and the channel took,
    /// oldest first.
    pub closed spec fn sent_messages(&self) -> Seq<T> {
        self.sent@
    }

    /// Makes the two ends of a connection: what one end sends, the other
    /// receives. Each direction holds `CHANNEL_CAPACITY` messages. Neither end
    /// has sent anything yet.
    pub fn new() -> (r: (Self, Self))
        ensures
            r.0.sent_messages() == Seq::<T>::empty(),
            r.1.sent_messages() == Seq::<T>::empty(),
    {
        let (sender_a, receiver_a) = std::sync::mpsc::sync_channel(CHANNEL_CAPACITY);
        let (sender_b, receiver_b) = std::sync::mpsc::sync_channel(CHANNEL_CAPACITY);
        (
            DualChannel { sender: sender_a, receiver: receiver_b, sent: Ghost(Seq::empty()) },
            DualChannel { sender: sender_b, receiver: receiver_a, sent: Ghost(Seq::empty()) },
        )
    }

    /// Sends `data` to the other end, waiting while its channel is full. When
    /// the channel takes it, it joins the sent messages; when the other end is
    /// gone, the message comes back unchanged in the error and nothing joins.
    pub fn send(&mut self, data: T) -> (r: Result<(), T>)
        ensures
            r matches Err(back) ==> back == data,
            final(self).sent_messages() == (if r is Ok {
                old(self).sent_messages().push(data)
            } else {
                old(self).sent_messages()
            }),
    {
        let ghost d = data;
        let r = send_on(&self.sender, data);
        proof {
            if r is Ok {
                self.sent@ = self.sent@.push(d);
            }
        }
        r
    }

    /// Waits for the next message. The only failure is a hung-up other end.
    pub fn receive(&self) -> (r: Result<T, ChannelError>)
        ensures
            r matches Err(e) ==> e == ChannelError::Disconnected,
    {
        recv_on(&self.receiver)
    }

    /// Waits at most `timeout` for the next message; fails with `Timeout` or
    /// `Disconnected`.
    pub fn receive_timeout(&self, timeout: Duration) -> (r: Result<T, ChannelError>)
        ensures
            r matches Err(e) ==> e == ChannelError::Timeout || e == ChannelError::Disconnected,
    {
        recv_timeout_on(&self.receiver, timeout)
    }

    /// Takes the next message if one is waiting; fails with `Empty` or
    /// `Disconnected`.
    pub fn try_receive(&self) -> (r: Result<T, ChannelError>)
        ensures
            r matches Err(e) ==> e == ChannelError::Empty || e == ChannelError::Disconnected,
    {
        try_recv_on(&self.receiver)
    }
}

} // verus!
