use crate::radio::packet::Packet;
use embassy_sync::blocking_mutex::raw::NoopRawMutex;
use embassy_sync::channel::{Channel, TrySendError};
use vstd::prelude::*;

verus! {

/// Number of packets a mailbox holds.
pub const NUM_PACKETS: usize = 5;

/// A bounded queue of packets between the link and the application, kept in
/// an `embassy_sync::channel::Channel`.
#[verifier::external_body]
pub struct Mailbox {
    channel: Channel<NoopRawMutex, Packet, NUM_PACKETS>,
}

/// The packets waiting in a mailbox, oldest first.
pub uninterp spec fn mailbox_queue(mailbox: Mailbox) -> Seq<Packet>;

/// What a queue becomes when `packet` is posted to it with room made by
/// dropping the oldest packet of a full queue.
pub open spec fn queue_with(queue: Seq<Packet>, packet: Packet) -> Seq<Packet> {
    if queue.len() < NUM_PACKETS {
        queue.push(packet)
    } else {
        queue.skip(1).push(packet)
    }
}

impl Mailbox {
    /// `Channel::new`: a channel with nothing in it.
    #[verifier::external_body]
    fn with_empty_channel() -> (mailbox: Self)
        ensures
            mailbox_queue(mailbox) == Seq::<Packet>::empty(),
    {
        Mailbox { channel: Channel::new() }
    }

    /// A mailbox in which nothing waits.
    pub fn new() -> (mailbox: Self)
        ensures
            mailbox_queue(mailbox) == Seq::<Packet>::empty(),
    {
        Mailbox::with_empty_channel()
    }

    /// `Channel::try_send`: puts the packet behind the ones that wait when
    /// fewer than five wait, and hands it back, leaving the queue as it was,
    /// when five do. No more than five packets ever wait.
    #[verifier::external_body]
    fn try_send(&mut self, packet: Packet) -> (r: Result<(), Packet>)
        ensures
            r is Ok <==> mailbox_queue(*old(self)).len() < NUM_PACKETS,
            r is Ok ==> mailbox_queue(*final(self)) == mailbox_queue(*old(self)).push(packet),
            r matches Err(back) ==> back == packet && mailbox_queue(*final(self))
                == mailbox_queue(*old(self)),
            mailbox_queue(*final(self)).len() <= NUM_PACKETS,
    {
        match self.channel.try_send(packet) {
            Ok(()) => Ok(()),
            Err(TrySendError::Full(back)) => Err(back),
        }
    }

    /// `Channel::try_receive`: takes the oldest packet out of the queue, if
    /// one waits.
    #[verifier::external_body]
    fn try_receive(&mut self) -> (r: Option<Packet>)
        ensures
            r is Some <==> mailbox_queue(*old(self)).len() > 0,
            r matches Some(packet) ==> packet == mailbox_queue(*old(self))[0] && mailbox_queue(
                *final(self),
            ) == mailbox_queue(*old(self)).skip(1),
            r is None ==> mailbox_queue(*final(self)) == mailbox_queue(*old(self)),
    {
        self.channel.try_receive().ok()
    }

    /// Posts a packet without ever waiting: a full mailbox drops its oldest
    /// packet to take the new one.
    pub fn post(&mut self, packet: Packet)
        ensures
            mailbox_queue(*final(self)) == queue_with(mailbox_queue(*old(self)), packet),
            mailbox_queue(*final(self)).len() <= NUM_PACKETS,
    {
        match self.try_send(packet) {
            Ok(()) => {},
            Err(back) => {
                let _ = self.try_receive();
                let _ = self.try_send(back);
            },
        }
    }

    /// Takes the oldest packet out of the mailbox, if one waits.
    pub fn take(&mut self) -> (packet: Option<Packet>)
        ensures
            packet is Some <==> mailbox_queue(*old(self)).len() > 0,
            packet matches Some(p) ==> p == mailbox_queue(*old(self))[0] && mailbox_queue(
                *final(self),
            ) == mailbox_queue(*old(self)).skip(1),
            packet is None ==> mailbox_queue(*final(self)) == mailbox_queue(*old(self)),
    {
        self.try_receive()
    }
}

} // verus!
