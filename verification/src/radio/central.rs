use crate::radio::mailbox::{mailbox_queue, queue_with, Mailbox};
use crate::radio::packet::{Packet, PacketType};
use vstd::prelude::*;

verus! {

/// Microseconds the central listens for a packet in a slot.
pub const RECEIVE_TIMEOUT_US: u64 = 600;

/// Microseconds of one slot of the schedule.
pub const TASK_TIMEOUT_US: u64 = 1000;

/// Microseconds a sender waits for the acknowledgement of a packet.
pub const ACK_TIMEOUT_US: u64 = 200;

/// Microseconds between two rounds of advertising.
pub const ADVERTISEMENT_TIMEOUT_US: u64 = 500_000;

/// Number of peripherals the central serves in turn.
pub const NUM_CONNECTIONS: usize = 1;

/// Number of times a packet is sent before the sender gives up on it.
pub const NUM_RETRIES: usize = 3;

/// Number of slots a connection spends receiving before it sends.
pub const MAX_CONNECTION_EVENTS: u32 = 500;

/// Number of events in a row that may fail before the connection is taken
/// to be lost.
pub const MAX_MISSED_EVENTS: u32 = 5;

#[derive(Clone, Copy, PartialEq, Eq, Debug, Structural)]
pub enum ConnectionState {
    Advertisement,
    ConnectedReceive,
    ConnectedSend,
}

/// What a sender does after one attempt to get a packet acknowledged.
#[derive(Clone, Copy, PartialEq, Eq, Debug, Structural)]
pub enum SendStep {
    /// The acknowledgement came.
    Acked,
    /// None came and attempts are left: send the same packet again.
    Resend,
    /// None came and no attempt is left.
    GaveUp,
}

/// What follows attempt number `attempt` (counted from 0) at sending a
/// packet: it is sent again, unchanged, until it is acknowledged or was sent
/// `NUM_RETRIES` times.
pub fn after_attempt(attempt: usize, acked: bool) -> (step: SendStep)
    ensures
        step == if acked {
            SendStep::Acked
        } else if attempt + 1 < NUM_RETRIES {
            SendStep::Resend
        } else {
            SendStep::GaveUp
        },
{
    if acked {
        SendStep::Acked
    } else if attempt < NUM_RETRIES - 1 {
        SendStep::Resend
    } else {
        SendStep::GaveUp
    }
}

/// The state of the link from the central to one peripheral.
#[derive(Clone, Copy, PartialEq, Eq, Debug, Structural)]
pub struct CentralConnection {
    pub state: ConnectionState,
    /// Number of slots spent receiving since the connection last sent.
    pub num_events: u32,
    /// Number of packets in a row that were not acknowledged.
    pub num_miss_events: u32,
    /// The logical address of the peripheral.
    pub addr: u8,
    /// The sequence id of the data packet that came in last.
    pub rx_id: u8,
    /// The sequence id of the data packet that was sent last.
    pub tx_id: u8,
}

impl CentralConnection {
    /// The counters stay within their limits.
    pub open spec fn wf(&self) -> bool {
        &&& self.num_events < MAX_CONNECTION_EVENTS
        &&& self.num_miss_events <= MAX_MISSED_EVENTS
        &&& self.state != ConnectionState::Advertisement ==> self.num_miss_events
            < MAX_MISSED_EVENTS
    }

    /// Whether `packet` acknowledges the data packet that was sent last: an
    /// acknowledgement from the peripheral that carries the sequence id of
    /// that packet.
    pub open spec fn is_ack(&self, packet: Packet) -> bool {
        &&& packet.spec_type() == Some(PacketType::Ack)
        &&& packet.spec_addr() == self.addr
        &&& packet.spec_id() == self.tx_id
    }

    /// Whether the connection waits for a packet like this one: an
    /// advertisement while it is not connected; data from its peripheral
    /// while it receives; the acknowledgement of what it sent while it sends.
    pub open spec fn wants(&self, packet: Packet) -> bool {
        match self.state {
            ConnectionState::Advertisement => packet.spec_type() == Some(PacketType::Advertise),
            ConnectionState::ConnectedReceive => packet.spec_type() == Some(PacketType::Data)
                && packet.spec_addr() == self.addr,
            ConnectionState::ConnectedSend => self.is_ack(packet),
        }
    }

    /// Whether a data packet is handed to the application: when it does not
    /// repeat the sequence id of the data packet that came in before it.
    pub open spec fn delivers(&self, packet: Packet) -> bool {
        packet.spec_id() != self.rx_id
    }

    /// The sequence id that follows `id`: one more, starting over after 255.
    pub open spec fn next_id(id: u8) -> u8 {
        ((id + 1) % 256) as u8
    }

    /// The reply to an advertisement: an empty packet that names the
    /// address the advertisement came from.
    pub open spec fn is_establish_reply(reply: Packet, to: Packet) -> bool {
        &&& reply.wf()
        &&& reply.spec_type() == Some(PacketType::EstablishConnection)
        &&& reply.spec_id() == to.spec_addr()
        &&& reply.spec_len() == 0
    }

    /// The acknowledgement of a data packet: it carries the id of that
    /// packet and, as its one byte of payload, the address of the peripheral.
    pub open spec fn is_ack_of(&self, ack: Packet, data: Packet) -> bool {
        &&& ack.wf()
        &&& ack.spec_type() == Some(PacketType::Ack)
        &&& ack.spec_id() == data.spec_id()
        &&& ack.payload() == seq![self.addr]
    }

    /// The inbox after a slot in which the connection listened and
    /// `received` came in: only a data packet that is not a repetition is
    /// added to it.
    pub open spec fn inbox_after(&self, received: Option<Packet>, inbox: Seq<Packet>) -> Seq<
        Packet,
    > {
        match received {
            Some(packet) => if self.state == ConnectionState::ConnectedReceive && self.delivers(
                packet,
            ) {
                queue_with(inbox, packet)
            } else {
                inbox
            },
            None => inbox,
        }
    }

    /// The connection after a slot in which it listened and `received` came
    /// in. An advertisement makes the connection, with the counters and the
    /// sequence ids of both directions starting anew.
    pub open spec fn after_listen(&self, received: Option<Packet>) -> CentralConnection {
        match self.state {
            ConnectionState::Advertisement => match received {
                Some(packet) => CentralConnection {
                    state: ConnectionState::ConnectedReceive,
                    num_events: 0,
                    num_miss_events: 0,
                    addr: packet.spec_addr(),
                    rx_id: 0,
                    tx_id: 0,
                },
                None => *self,
            },
            _ => {
                let rx_id = match received {
                    Some(packet) => packet.spec_id(),
                    None => self.rx_id,
                };
                if self.num_events + 1 >= MAX_CONNECTION_EVENTS {
                    CentralConnection {
                        state: ConnectionState::ConnectedSend,
                        num_events: 0,
                        num_miss_events: self.num_miss_events,
                        addr: self.addr,
                        rx_id,
                        tx_id: self.tx_id,
                    }
                } else {
                    CentralConnection {
                        state: self.state,
                        num_events: (self.num_events + 1) as u32,
                        num_miss_events: self.num_miss_events,
                        addr: self.addr,
                        rx_id,
                        tx_id: self.tx_id,
                    }
                }
            },
        }
    }

    /// The connection after a slot in which it sent a packet that was, or
    /// was not, acknowledged.
    pub open spec fn after_send(&self, acked: bool) -> CentralConnection {
        let missed = if acked {
            0
        } else {
            (self.num_miss_events + 1) as u32
        };
        CentralConnection {
            state: if missed >= MAX_MISSED_EVENTS {
                ConnectionState::Advertisement
            } else {
                ConnectionState::ConnectedReceive
            },
            num_events: self.num_events,
            num_miss_events: missed,
            addr: self.addr,
            rx_id: self.rx_id,
            tx_id: self.tx_id,
        }
    }

    /// A connection that waits for its peripheral to advertise.
    pub fn default() -> (connection: Self)
        ensures
            connection.wf(),
            connection.state == ConnectionState::Advertisement,
            connection.num_events == 0,
            connection.num_miss_events == 0,
            connection.addr == 0,
            connection.rx_id == 0,
            connection.tx_id == 0,
    {
        CentralConnection {
            state: ConnectionState::Advertisement,
            num_events: 0,
            num_miss_events: 0,
            addr: 0,
            rx_id: 0,
            tx_id: 0,
        }
    }

    /// How long to listen in this slot, in microseconds.
    pub fn listen_timeout(&self) -> (timeout: u64)
        ensures
            timeout == if self.state == ConnectionState::ConnectedSend {
                ACK_TIMEOUT_US
            } else {
                RECEIVE_TIMEOUT_US
            },
    {
        match self.state {
            ConnectionState::ConnectedSend => ACK_TIMEOUT_US,
            _ => RECEIVE_TIMEOUT_US,
        }
    }

    /// Whether a packet that came in is one the connection waits for.
    pub fn accepts(&self, packet: &Packet) -> (wanted: bool)
        ensures
            wanted == self.wants(*packet),
    {
        match self.state {
            ConnectionState::Advertisement => packet.is_type(PacketType::Advertise),
            ConnectionState::ConnectedReceive => packet.is_type(PacketType::Data) && packet.address()
                == self.addr,
            ConnectionState::ConnectedSend => self.accepts_ack(packet),
        }
    }

    /// Whether a packet that came in acknowledges the data packet that was
    /// sent last.
    pub fn accepts_ack(&self, packet: &Packet) -> (acked: bool)
        ensures
            acked == self.is_ack(*packet),
    {
        packet.is_type(PacketType::Ack) && packet.address() == self.addr && packet.id()
            == self.tx_id
    }

    /// Ends a slot in which the connection listened. `received` is the
    /// packet that came in, if one that the connection waits for came in
    /// before the timeout. Returns the packet to send in reply.
    ///
    /// An advertisement establishes the connection and is answered. A data
    /// packet is always acknowledged with its own id, and handed to `inbox`
    /// unless it repeats the id of the data packet before it; a full inbox
    /// drops its oldest packet for it. Every receive slot counts towards the
    /// switch to sending.
    pub fn handle_listen(&mut self, received: Option<Packet>, inbox: &mut Mailbox) -> (reply:
        Option<Packet>)
        requires
            old(self).wf(),
            old(self).state != ConnectionState::ConnectedSend,
            received matches Some(packet) ==> old(self).wants(packet),
        ensures
            final(self).wf(),
            *final(self) == old(self).after_listen(received),
            reply is Some <==> received is Some,
            mailbox_queue(*final(inbox)) == old(self).inbox_after(
                received,
                mailbox_queue(*old(inbox)),
            ),
            received matches Some(packet) ==> reply matches Some(r) && if old(self).state
                == ConnectionState::Advertisement {
                CentralConnection::is_establish_reply(r, packet)
            } else {
                old(self).is_ack_of(r, packet)
            },
    {
        match self.state {
            ConnectionState::Advertisement => {
                match received {
                    Some(packet) => {
                        let mut establish_packet = Packet::default();
                        establish_packet.set_type(PacketType::EstablishConnection);
                        establish_packet.set_id(packet.address());
                        self.state = ConnectionState::ConnectedReceive;
                        self.addr = packet.address();
                        self.num_events = 0;
                        self.num_miss_events = 0;
                        self.rx_id = 0;
                        self.tx_id = 0;
                        Some(establish_packet)
                    },
                    None => None,
                }
            },
            _ => {
                let reply = match received {
                    Some(packet) => {
                        let mut ack_packet = Packet::default();
                        ack_packet.set_id(packet.id());
                        ack_packet.set_type(PacketType::Ack);
                        ack_packet.set_len(1);
                        ack_packet.set(0, self.addr);
                        assert(ack_packet.payload() =~= seq![self.addr]);
                        if packet.id() != self.rx_id {
                            self.rx_id = packet.id();
                            inbox.post(packet);
                        }
                        Some(ack_packet)
                    },
                    None => None,
                };
                self.num_events += 1;
                if self.num_events >= MAX_CONNECTION_EVENTS {
                    self.state = ConnectionState::ConnectedSend;
                    self.num_events = 0;
                }
                reply
            },
        }
    }

    /// Opens a slot in which the connection sends: the packet to send is
    /// the oldest that waits in `outbox`, or an empty one that keeps the
    /// schedule alive. It is marked as data and carries the next sequence id
    /// of the connection; every repetition of it is sent with that id.
    pub fn next_outbound(&mut self, outbox: &mut Mailbox) -> (packet: Packet)
        requires
            old(self).state == ConnectionState::ConnectedSend,
        ensures
            *final(self) == (CentralConnection {
                tx_id: CentralConnection::next_id(old(self).tx_id),
                ..*old(self)
            }),
            packet.spec_type() == Some(PacketType::Data),
            packet.spec_id() == final(self).tx_id,
            mailbox_queue(*old(outbox)).len() > 0 ==> {
                &&& mailbox_queue(*final(outbox)) == mailbox_queue(*old(outbox)).skip(1)
                &&& packet.bytes() == mailbox_queue(*old(outbox))[0].bytes().update(
                    2,
                    PacketType::Data.number(),
                ).update(1, final(self).tx_id)
                &&& packet.spec_addr() == mailbox_queue(*old(outbox))[0].spec_addr()
            },
            mailbox_queue(*old(outbox)).len() == 0 ==> {
                &&& mailbox_queue(*final(outbox)) == mailbox_queue(*old(outbox))
                &&& packet.wf()
                &&& packet.spec_len() == 0
            },
    {
        let mut packet = match outbox.take() {
            Some(packet) => packet,
            None => Packet::default(),
        };
        proof {
            packet.lemma_bytes_len();
        }
        self.tx_id = self.tx_id.wrapping_add(1);
        packet.set_type(PacketType::Data);
        packet.set_id(self.tx_id);
        packet
    }

    /// Ends a slot in which the connection sent. An acknowledged packet
    /// clears the count of misses; one that was given up on adds to it, and
    /// the fifth miss in a row sends the connection back to waiting for an
    /// advertisement. Otherwise the connection receives again.
    pub fn handle_send(&mut self, acked: bool)
        requires
            old(self).wf(),
            old(self).state == ConnectionState::ConnectedSend,
        ensures
            final(self).wf(),
            *final(self) == old(self).after_send(acked),
    {
        if acked {
            self.num_miss_events = 0
        } else {
            self.num_miss_events += 1;
        }
        if self.num_miss_events >= MAX_MISSED_EVENTS {
            self.state = ConnectionState::Advertisement;
        } else {
            self.state = ConnectionState::ConnectedReceive;
        }
    }
}

/// A data packet that arrives again with the id it had when it was handed
/// to the application is acknowledged again, with that id, and not handed
/// over again: after the packet and its repetition the inbox holds it once.
pub proof fn lemma_duplicate_delivered_once(
    connection: CentralConnection,
    first: Packet,
    again: Packet,
    inbox: Seq<Packet>,
)
    requires
        connection.wf(),
        connection.state == ConnectionState::ConnectedReceive,
        connection.num_events + 2 < MAX_CONNECTION_EVENTS,
        connection.wants(first),
        connection.delivers(first),
        again.spec_id() == first.spec_id(),
        again.spec_type() == Some(PacketType::Data),
        again.spec_addr() == first.spec_addr(),
    ensures
        connection.after_listen(Some(first)).wants(again),
        !connection.after_listen(Some(first)).delivers(again),
        connection.after_listen(Some(first)).inbox_after(
            Some(again),
            connection.inbox_after(Some(first), inbox),
        ) == queue_with(inbox, first),
        connection.after_listen(Some(first)).after_listen(Some(again)).rx_id == first.spec_id(),
        forall|ack: Packet|
            connection.after_listen(Some(first)).is_ack_of(ack, again) ==> ack.spec_id()
                == first.spec_id(),
{
}

/// Two data packets that the connection sends one after the other carry
/// different sequence ids, so the receiver can tell the next packet from a
/// repetition of the last.
pub proof fn lemma_outbound_ids_differ(id: u8)
    ensures
        CentralConnection::next_id(id) != id,
{
}

} // verus!
