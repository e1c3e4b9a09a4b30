use crate::radio::central::{
    ConnectionState, MAX_CONNECTION_EVENTS, MAX_MISSED_EVENTS, NUM_CONNECTIONS, TASK_TIMEOUT_US,
};
use crate::radio::mailbox::{mailbox_queue, queue_with, Mailbox};
use crate::radio::packet::{Packet, PacketType, PACKET_SIZE, TYPE_INDEX};
use vstd::prelude::*;

verus! {

/// Microseconds the central spends on its receive slots before it sends:
/// the time a peripheral has for sending.
pub const PHASE_US: u64 = 500_000;

/// Microseconds of one round of slots over all connections.
pub const PERIOD_US: u64 = 1000;

/// A phase is as long as the slots of all connections take for the events
/// of one receive run, and a slot round as long as one slot of each.
pub proof fn lemma_phase_length()
    ensures
        PHASE_US == TASK_TIMEOUT_US * NUM_CONNECTIONS * MAX_CONNECTION_EVENTS,
        PERIOD_US == TASK_TIMEOUT_US * NUM_CONNECTIONS,
{
}

/// When the part of a send phase ends in which a packet may still be sent,
/// and when the phase itself ends.
#[derive(Clone, Copy, PartialEq, Eq, Debug, Structural)]
pub struct SendWindow {
    /// No packet is sent at or after this time.
    pub guard_at: u64,
    /// The peripheral listens again from this time on.
    pub switch_at: u64,
}

/// The state of the link from a peripheral to the central. Times are in
/// microseconds.
#[derive(Clone, Copy, PartialEq, Eq, Debug, Structural)]
pub struct PeripheralConnection {
    pub state: ConnectionState,
    /// The sequence id of the data packet that was sent last.
    pub tx_id: u8,
    /// The sequence id of the data packet that came in last.
    pub rx_id: u8,
    /// Number of receive phases in a row in which nothing came in.
    pub num_missed_events: u32,
    /// When the central was last heard, moved on by one phase for each phase
    /// in which it was not.
    pub prev_recv_time: u64,
}

/// The start of the first slot round after `now`, for rounds counted from
/// `time`.
pub open spec fn next_time_period(time: u64, now: u64) -> int {
    time + PERIOD_US * ((now - time) / (PERIOD_US as int) + 1)
}

/// The next slot round starts after `now`, and no later than one round after
/// it.
pub proof fn lemma_next_time_period(time: u64, now: u64)
    requires
        time <= now,
    ensures
        now < next_time_period(time, now) <= now + PERIOD_US,
        (next_time_period(time, now) - time) % (PERIOD_US as int) == 0,
{
    let elapsed = now - time;
    let rounds = elapsed / (PERIOD_US as int) + 1;
    assert(PERIOD_US * rounds == PERIOD_US * (elapsed / (PERIOD_US as int)) + PERIOD_US)
        by (nonlinear_arith)
        requires
            rounds == elapsed / (PERIOD_US as int) + 1,
    ;
    assert((PERIOD_US * rounds) % (PERIOD_US as int) == 0) by (nonlinear_arith)
        requires
            PERIOD_US == 1000,
    ;
}

pub fn get_next_time_period(time: u64, now: u64) -> (next: u64)
    requires
        time <= now,
        now + PERIOD_US <= u64::MAX,
    ensures
        next == next_time_period(time, now),
{
    proof {
        lemma_next_time_period(time, now);
    }
    let periods: u64 = (now - time) / PERIOD_US + 1;
    assert(PERIOD_US * periods == next_time_period(time, now) - time);
    time + PERIOD_US * periods
}

impl PeripheralConnection {
    pub open spec fn wf(&self) -> bool {
        self.num_missed_events <= MAX_MISSED_EVENTS
    }

    /// Whether `packet` acknowledges the data packet that was sent last,
    /// `tx_addr` being the logical address the peripheral sends on: an
    /// acknowledgement that carries the sequence id of that packet and, as
    /// its first byte, the address.
    pub open spec fn is_ack(&self, packet: Packet, tx_addr: u8) -> bool {
        &&& packet.spec_type() == Some(PacketType::Ack)
        &&& packet.spec_id() == self.tx_id
        &&& packet.spec_len() >= 1
        &&& packet.payload()[0] == tx_addr
    }

    /// Whether the connection waits for a packet like this one, `tx_addr`
    /// being the logical address the peripheral sends on: the reply to its
    /// advertisement, which names that address, while it is not connected;
    /// data while it receives; the acknowledgement of the packet it sent
    /// last while it sends.
    pub open spec fn wants(&self, packet: Packet, tx_addr: u8) -> bool {
        match self.state {
            ConnectionState::Advertisement => packet.spec_type() == Some(
                PacketType::EstablishConnection,
            ) && packet.spec_id() == tx_addr,
            ConnectionState::ConnectedReceive => packet.spec_type() == Some(PacketType::Data),
            ConnectionState::ConnectedSend => self.is_ack(packet, tx_addr),
        }
    }

    /// Whether a data packet is handed to the application: when it has a
    /// payload and does not repeat the sequence id of the data packet that
    /// came in before it. An empty packet only shows that the central is
    /// there; a repeated one was sent again because its acknowledgement was
    /// lost.
    pub open spec fn delivers(&self, packet: Packet) -> bool {
        packet.spec_len() != 0 && packet.spec_id() != self.rx_id
    }

    /// The connection after a round of advertising that was, or was not,
    /// answered at `now`. An answer makes the connection, with the count of
    /// misses and the sequence ids of both directions starting anew.
    pub open spec fn after_advertise(&self, established: bool, now: u64) -> PeripheralConnection {
        if established {
            PeripheralConnection {
                state: ConnectionState::ConnectedSend,
                tx_id: 0,
                rx_id: 0,
                num_missed_events: 0,
                prev_recv_time: now,
            }
        } else {
            *self
        }
    }

    /// The connection after a receive phase that ended at `now`. A data
    /// packet that came in leaves its sequence id behind.
    pub open spec fn after_listen(&self, received: Option<Packet>, now: u64) -> PeripheralConnection {
        match received {
            Some(packet) => PeripheralConnection {
                state: self.state,
                tx_id: self.tx_id,
                rx_id: packet.spec_id(),
                num_missed_events: 0,
                prev_recv_time: now,
            },
            None => if self.num_missed_events >= MAX_MISSED_EVENTS {
                PeripheralConnection { state: ConnectionState::Advertisement, ..*self }
            } else {
                PeripheralConnection {
                    state: ConnectionState::ConnectedSend,
                    tx_id: self.tx_id,
                    rx_id: self.rx_id,
                    num_missed_events: (self.num_missed_events + 1) as u32,
                    prev_recv_time: (self.prev_recv_time + PHASE_US) as u64,
                }
            },
        }
    }

    /// The inbox after a receive phase: a data packet is added to it if it
    /// is one that is handed to the application.
    pub open spec fn inbox_after(&self, received: Option<Packet>, inbox: Seq<Packet>) -> Seq<
        Packet,
    > {
        match received {
            Some(packet) => if self.delivers(packet) {
                queue_with(inbox, packet)
            } else {
                inbox
            },
            None => inbox,
        }
    }

    /// A peripheral that is not connected.
    pub fn new(now: u64) -> (connection: Self)
        ensures
            connection == (PeripheralConnection {
                state: ConnectionState::Advertisement,
                tx_id: 0,
                rx_id: 0,
                num_missed_events: 0,
                prev_recv_time: now,
            }),
            connection.wf(),
    {
        PeripheralConnection {
            state: ConnectionState::Advertisement,
            tx_id: 0,
            rx_id: 0,
            num_missed_events: 0,
            prev_recv_time: now,
        }
    }

    /// The packet a peripheral advertises itself with.
    pub fn advertise_packet() -> (packet: Packet)
        ensures
            packet.wf(),
            packet.spec_type() == Some(PacketType::Advertise),
            packet.spec_len() == 0,
            packet.payload() == Seq::<u8>::empty(),
            packet.spec_addr() == 0,
            packet.bytes() == Seq::new(PACKET_SIZE as nat, |i: int| 2u8).update(
                TYPE_INDEX as int,
                PacketType::Advertise.number(),
            ),
    {
        let mut adv_packet = Packet::default();
        adv_packet.set_type(PacketType::Advertise);
        assert(adv_packet.payload() =~= Seq::<u8>::empty());
        adv_packet
    }

    /// Whether a packet that came in is one the connection waits for.
    pub fn accepts(&self, packet: &Packet, tx_addr: u8) -> (wanted: bool)
        requires
            packet.wf(),
        ensures
            wanted == self.wants(*packet, tx_addr),
    {
        match self.state {
            ConnectionState::Advertisement => packet.is_type(PacketType::EstablishConnection)
                && packet.id() == tx_addr,
            ConnectionState::ConnectedReceive => packet.is_type(PacketType::Data),
            ConnectionState::ConnectedSend => self.accepts_ack(packet, tx_addr),
        }
    }

    /// Whether a packet that came in acknowledges the data packet that was
    /// sent last. The answer does not depend on the phase the connection is
    /// in, so it serves during a send phase as well as after it.
    pub fn accepts_ack(&self, packet: &Packet, tx_addr: u8) -> (acked: bool)
        requires
            packet.wf(),
        ensures
            acked == self.is_ack(*packet, tx_addr),
    {
        packet.is_type(PacketType::Ack) && packet.id() == self.tx_id && packet.len() >= 1
            && packet.get(0) == tx_addr
    }

    /// Ends a round of advertising. An answer at `now` connects the
    /// peripheral: it sends first, with its sequence ids and misses counted
    /// anew.
    pub fn handle_advertise(&mut self, established: bool, now: u64)
        requires
            old(self).state == ConnectionState::Advertisement,
        ensures
            *final(self) == old(self).after_advertise(established, now),
            established ==> final(self).wf(),
    {
        if established {
            self.state = ConnectionState::ConnectedSend;
            self.prev_recv_time = now;
            self.tx_id = 0;
            self.rx_id = 0;
            self.num_missed_events = 0;
        }
    }

    /// Ends a receive phase at `now`. A data packet is always acknowledged
    /// with its own id. It is handed to `inbox`, which drops its oldest
    /// packet if it is full, unless it is empty or repeats the id of the
    /// data packet before it. A phase without a packet counts as a miss and
    /// lets the peripheral send; after five misses in a row it advertises
    /// again.
    pub fn handle_listen(&mut self, received: Option<Packet>, now: u64, inbox: &mut Mailbox) -> (reply:
        Option<Packet>)
        requires
            old(self).wf(),
            old(self).state == ConnectionState::ConnectedReceive,
            received is None && old(self).num_missed_events < MAX_MISSED_EVENTS ==> old(
                self,
            ).prev_recv_time + PHASE_US <= u64::MAX,
            received matches Some(packet) ==> packet.wf(),
        ensures
            *final(self) == old(self).after_listen(received, now),
            final(self).wf(),
            mailbox_queue(*final(inbox)) == old(self).inbox_after(
                received,
                mailbox_queue(*old(inbox)),
            ),
            reply is Some <==> received is Some,
            received matches Some(packet) ==> reply matches Some(ack) && ack.wf()
                && ack.spec_type() == Some(PacketType::Ack) && ack.spec_id() == packet.spec_id()
                && ack.spec_len() == 0,
    {
        match received {
            Some(packet) => {
                self.prev_recv_time = now;
                let mut ack_packet = Packet::default();
                ack_packet.set_id(packet.id());
                ack_packet.set_type(PacketType::Ack);
                if packet.len() != 0 && packet.id() != self.rx_id {
                    inbox.post(packet);
                }
                self.rx_id = packet.id();
                self.num_missed_events = 0;
                Some(ack_packet)
            },
            None => {
                if self.num_missed_events >= MAX_MISSED_EVENTS {
                    self.state = ConnectionState::Advertisement;
                } else {
                    self.num_missed_events += 1;
                    self.prev_recv_time += PHASE_US;
                    self.state = ConnectionState::ConnectedSend;
                }
                None
            },
        }
    }

    /// Opens a send phase: the peripheral will listen again when the phase
    /// is over, and sends nothing in its last slot round.
    pub fn begin_send(&mut self) -> (window: SendWindow)
        requires
            old(self).state == ConnectionState::ConnectedSend,
            old(self).prev_recv_time + PHASE_US <= u64::MAX,
        ensures
            *final(self) == (PeripheralConnection {
                state: ConnectionState::ConnectedReceive,
                ..*old(self)
            }),
            window.switch_at == old(self).prev_recv_time + PHASE_US,
            window.guard_at == old(self).prev_recv_time + PHASE_US - PERIOD_US,
    {
        let switch_at = self.prev_recv_time + PHASE_US;
        self.state = ConnectionState::ConnectedReceive;
        let guard_at = self.prev_recv_time + (PHASE_US - PERIOD_US);
        SendWindow { guard_at, switch_at }
    }

    /// Whether `now` is a time at which a send can be planned: not before
    /// the time the slot rounds are counted from, and not within a slot
    /// round of the end of the clock.
    pub fn can_plan(&self, now: u64) -> (ok: bool)
        ensures
            ok == (self.prev_recv_time <= now && now + PERIOD_US <= u64::MAX),
    {
        self.prev_recv_time <= now && now <= u64::MAX - PERIOD_US
    }

    /// Whether the window is over for sending at `now`: when the next slot
    /// round starts at or after its guard time. `plan_send` takes nothing
    /// then, whatever waits.
    pub fn window_closed(&self, window: SendWindow, now: u64) -> (closed: bool)
        requires
            self.prev_recv_time <= now,
            now + PERIOD_US <= u64::MAX,
        ensures
            closed == (next_time_period(self.prev_recv_time, now) >= window.guard_at),
    {
        get_next_time_period(self.prev_recv_time, now) >= window.guard_at
    }

    /// The next sequence id: one more than the last, starting over after
    /// 255.
    pub fn get_next_tx_id(&mut self) -> (id: u8)
        ensures
            id == (old(self).tx_id + 1) % 256,
            *final(self) == (PeripheralConnection { tx_id: id, ..*old(self) }),
    {
        self.tx_id = self.tx_id.wrapping_add(1);
        self.tx_id
    }

    /// Picks what to send when a packet waits in `outbox` at `now`: the
    /// oldest packet, marked as data and given the next sequence id, to be
    /// sent at the start of the next slot round. Nothing is taken when that
    /// round starts at or after the guard time of the window, or when no
    /// packet waits.
    pub fn plan_send(&mut self, window: SendWindow, now: u64, outbox: &mut Mailbox) -> (plan:
        Option<(Packet, u64)>)
        requires
            old(self).prev_recv_time <= now,
            now + PERIOD_US <= u64::MAX,
        ensures
            plan is Some <==> next_time_period(old(self).prev_recv_time, now) < window.guard_at
                && mailbox_queue(*old(outbox)).len() > 0,
            plan matches Some((packet, send_at)) ==> {
                &&& send_at == next_time_period(old(self).prev_recv_time, now)
                &&& packet.spec_type() == Some(PacketType::Data)
                &&& packet.spec_id() == (old(self).tx_id + 1) % 256
                &&& packet.spec_len() == mailbox_queue(*old(outbox))[0].spec_len()
                &&& packet.spec_addr() == mailbox_queue(*old(outbox))[0].spec_addr()
                &&& (mailbox_queue(*old(outbox))[0].wf() ==> packet.wf() && packet.payload()
                    == mailbox_queue(*old(outbox))[0].payload())
                &&& mailbox_queue(*final(outbox)) == mailbox_queue(*old(outbox)).skip(1)
                &&& *final(self) == (PeripheralConnection {
                    tx_id: packet.spec_id(),
                    ..*old(self)
                })
            },
            plan is None ==> *final(self) == *old(self) && mailbox_queue(*final(outbox))
                == mailbox_queue(*old(outbox)),
    {
        let next_period = get_next_time_period(self.prev_recv_time, now);
        if next_period >= window.guard_at {
            return None;
        }
        match outbox.take() {
            Some(queued) => {
                let mut packet = queued;
                let id = self.get_next_tx_id();
                packet.set_id(id);
                packet.set_type(PacketType::Data);
                Some((packet, next_period))
            },
            None => None,
        }
    }

    /// Ends the sending of one packet: an acknowledgement clears the count
    /// of misses.
    pub fn handle_send(&mut self, acked: bool)
        ensures
            *final(self) == if acked {
                PeripheralConnection { num_missed_events: 0, ..*old(self) }
            } else {
                *old(self)
            },
    {
        if acked {
            self.num_missed_events = 0;
        }
    }
}

/// A data packet that arrives again with the id it had when it was handed
/// to the application is acknowledged again and not handed over again:
/// after the packet and its repetition the inbox holds it once. The packet
/// that follows it, with another id, is handed over.
pub proof fn lemma_peripheral_duplicate_delivered_once(
    connection: PeripheralConnection,
    first: Packet,
    again: Packet,
    next: Packet,
    inbox: Seq<Packet>,
    now: u64,
    later: u64,
)
    requires
        connection.delivers(first),
        again.spec_id() == first.spec_id(),
        next.spec_id() != first.spec_id(),
        next.spec_len() != 0,
    ensures
        !connection.after_listen(Some(first), now).delivers(again),
        connection.after_listen(Some(first), now).inbox_after(
            Some(again),
            connection.inbox_after(Some(first), inbox),
        ) == queue_with(inbox, first),
        connection.after_listen(Some(first), now).after_listen(Some(again), later).rx_id
            == first.spec_id(),
        connection.after_listen(Some(first), now).after_listen(Some(again), later).delivers(next),
{
}

/// The sequence ids of a peripheral run through all values in turn, so two
/// packets sent one after the other never carry the same id.
pub proof fn lemma_tx_ids_differ(id: u8)
    ensures
        (id + 1) % 256 != id,
        0 <= (id + 1) % 256 < 256,
{
}

} // verus!
