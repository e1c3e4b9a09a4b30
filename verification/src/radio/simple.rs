use crate::radio::packet::{Packet, PacketType, PACKET_SIZE, TYPE_INDEX};
use vstd::prelude::*;

verus! {

/// Microseconds between two pulses of a connected pair.
pub const PULSE_PERIOD_US: u64 = 1_000_000;

/// Microseconds between two rounds of advertising of a peripheral that is
/// not connected.
pub const SCAN_ROUND_US: u64 = 1_000_000;

/// Microseconds the central waits after a packet before it answers.
pub const REPLY_DELAY_US: u64 = 40;

/// Number of missed pulses after which a connection is taken to be lost.
pub const MAX_MISSED_PULSES: u32 = 10;

#[derive(Clone, Copy, PartialEq, Eq, Debug, Structural)]
pub enum PulseState {
    Scanning,
    Connected,
}

/// One end of the plain link that only keeps a connection alive with a
/// pulse every second. Times are in microseconds.
#[derive(Clone, Copy, PartialEq, Eq, Debug, Structural)]
pub struct PulseLink {
    pub state: PulseState,
    /// When the next pulse is due.
    pub last_time: u64,
    /// Number of pulses that were missed since the connection was made.
    pub missed: u32,
}

impl PulseLink {
    pub open spec fn wf(&self) -> bool {
        self.missed <= MAX_MISSED_PULSES && (self.state == PulseState::Connected ==> self.missed
            < MAX_MISSED_PULSES)
    }

    /// The link after the other end was found at `now`.
    pub open spec fn after_found(now: u64) -> PulseLink {
        PulseLink { state: PulseState::Connected, last_time: now, missed: 0 }
    }

    /// The link after a pulse that did, or did not, come through. The misses
    /// are counted over the whole connection, and the tenth ends it.
    pub open spec fn after_pulse(&self, came: bool) -> PulseLink {
        if came {
            *self
        } else if self.missed + 1 >= MAX_MISSED_PULSES {
            PulseLink { state: PulseState::Scanning, missed: (self.missed + 1) as u32, ..*self }
        } else {
            PulseLink { missed: (self.missed + 1) as u32, ..*self }
        }
    }

    pub fn new(now: u64) -> (link: Self)
        ensures
            link == (PulseLink { state: PulseState::Scanning, last_time: now, missed: 0 }),
            link.wf(),
    {
        PulseLink { state: PulseState::Scanning, last_time: now, missed: 0 }
    }

    /// The central, scanning, got `packet` at `now`: an advertisement
    /// connects it, and is answered with the packet returned.
    pub fn central_scan(&mut self, packet: &Packet, now: u64) -> (reply: Option<Packet>)
        requires
            old(self).state == PulseState::Scanning,
        ensures
            packet.spec_type() == Some(PacketType::Advertise) ==> {
                &&& *final(self) == PulseLink::after_found(now)
                &&& reply matches Some(r)
                &&& r.wf()
                &&& r.spec_type() == Some(PacketType::EstablishConnection)
                &&& r.spec_len() == 0
            },
            packet.spec_type() != Some(PacketType::Advertise) ==> *final(self) == *old(self)
                && reply is None,
    {
        if packet.is_type(PacketType::Advertise) {
            self.state = PulseState::Connected;
            self.last_time = now;
            self.missed = 0;
            let mut reply = Packet::default();
            reply.set_type(PacketType::EstablishConnection);
            Some(reply)
        } else {
            None
        }
    }

    /// The packet the peripheral advertises itself with.
    pub fn advertise_packet() -> (packet: Packet)
        ensures
            packet.wf(),
            packet.spec_type() == Some(PacketType::Advertise),
            packet.spec_len() == 0,
            packet.payload() == Seq::<u8>::empty(),
            packet.spec_addr() == 0,
            packet.bytes() == Seq::new(PACKET_SIZE as nat, |i: int| 2u8).update(
                TYPE_INDEX as int,
                PacketType::Advertise.number(),
            ),
    {
        let mut adv_packet = Packet::default();
        adv_packet.set_type(PacketType::Advertise);
        assert(adv_packet.payload() =~= Seq::<u8>::empty());
        adv_packet
    }

    /// The peripheral, scanning, got an answer to its advertisement at
    /// `now`, or none.
    pub fn peripheral_scan(&mut self, established: bool, now: u64)
        requires
            old(self).state == PulseState::Scanning,
        ensures
            *final(self) == if established {
                PulseLink::after_found(now)
            } else {
                *old(self)
            },
    {
        if established {
            self.state = PulseState::Connected;
            self.last_time = now;
            self.missed = 0;
        }
    }

    /// Opens the next pulse of a connection and tells when it ends.
    pub fn begin_pulse(&mut self) -> (deadline: u64)
        requires
            old(self).state == PulseState::Connected,
            old(self).last_time + PULSE_PERIOD_US <= u64::MAX,
        ensures
            deadline == old(self).last_time + PULSE_PERIOD_US,
            *final(self) == (PulseLink { last_time: deadline, ..*old(self) }),
    {
        self.last_time += PULSE_PERIOD_US;
        self.last_time
    }

    /// The packet that carries the pulse: empty data from the peripheral,
    /// an empty acknowledgement from the central.
    pub fn pulse_packet(packet_type: PacketType) -> (packet: Packet)
        ensures
            packet.wf(),
            packet.spec_type() == Some(packet_type),
            packet.spec_len() == 0,
    {
        let mut packet = Packet::default();
        packet.set_type(packet_type);
        packet
    }

    /// Ends a pulse: `came` tells whether the packet of the other end came
    /// in. Returns whether the connection goes on.
    pub fn end_pulse(&mut self, came: bool) -> (connected: bool)
        requires
            old(self).wf(),
            old(self).state == PulseState::Connected,
        ensures
            *final(self) == old(self).after_pulse(came),
            final(self).wf(),
            connected == (final(self).state == PulseState::Connected),
    {
        if came {
            true
        } else {
            self.missed += 1;
            if self.missed >= MAX_MISSED_PULSES {
                self.state = PulseState::Scanning;
                false
            } else {
                true
            }
        }
    }
}

} // verus!
