use crate::radio::packet::{Packet, PacketType};
use vstd::prelude::*;

verus! {

/// Number of logical addresses the radio receives on.
pub const NUM_ADDRESSES: usize = 8;

/// Number of times a data packet is sent before it is given up.
pub const SEND_ATTEMPTS: usize = 10;

/// Microseconds a sender waits for an acknowledgement.
pub const AWAIT_ACK_US: u64 = 300;

/// The sequence ids of a radio that sends and receives data with
/// acknowledgements: the id it sent last, and for each logical address the
/// id it received last.
#[derive(Clone, Copy, Debug)]
pub struct Radio {
    /// The logical address the radio sends on.
    pub tx_addreses: u8,
    pub rx_id: [u8; NUM_ADDRESSES],
    pub tx_id: u8,
}

impl Radio {
    pub fn new() -> (radio: Self)
        ensures
            radio.tx_addreses == 0,
            radio.tx_id == 0,
            radio.rx_id@ == Seq::new(NUM_ADDRESSES as nat, |i: int| 0u8),
    {
        let radio = Radio { tx_addreses: 0, rx_id: [0u8;NUM_ADDRESSES], tx_id: 0u8 };
        assert(radio.rx_id@ =~= Seq::new(NUM_ADDRESSES as nat, |i: int| 0u8));
        radio
    }

    /// Whether a data packet that arrived on logical address `addr` is new:
    /// when its id is not the one received last on that address.
    pub open spec fn is_new(&self, packet: Packet, addr: u8) -> bool {
        packet.spec_id() != self.rx_id[addr as int]
    }

    /// Makes `packet` the next data packet: it gets the next sequence id,
    /// which starts over after 255. The packet is then sent up to
    /// `SEND_ATTEMPTS` times, unchanged, until it is acknowledged.
    pub fn send(&mut self, packet: &mut Packet)
        ensures
            final(self).tx_id == (old(self).tx_id + 1) % 256,
            final(self).rx_id == old(self).rx_id,
            final(self).tx_addreses == old(self).tx_addreses,
            final(packet).spec_id() == final(self).tx_id,
            final(packet).spec_type() == Some(PacketType::Data),
            final(packet).spec_len() == old(packet).spec_len(),
            final(packet).spec_addr() == old(packet).spec_addr(),
            final(packet).wf() == old(packet).wf(),
            old(packet).wf() ==> final(packet).payload() == old(packet).payload(),
    {
        self.tx_id = self.tx_id.wrapping_add(1);
        packet.set_id(self.tx_id);
        packet.set_type(PacketType::Data);
    }

    /// Whether attempt number `attempt` (counted from 0) is followed by
    /// another when it was not acknowledged.
    pub fn send_again(attempt: usize, acked: bool) -> (again: bool)
        ensures
            again == (!acked && attempt + 1 < SEND_ATTEMPTS),
    {
        !acked && attempt < SEND_ATTEMPTS - 1
    }

    /// The acknowledgement of the packet with sequence id `id`.
    pub fn transmit_ack(id: u8) -> (ack: Packet)
        ensures
            ack.wf(),
            ack.spec_type() == Some(PacketType::Ack),
            ack.spec_id() == id,
            ack.spec_len() == 1,
    {
        let mut packet = Packet::default();
        packet.set_type(PacketType::Ack);
        packet.set_len(1);
        packet.set_id(id);
        packet
    }

    /// Whether `packet` acknowledges the packet with sequence id `id`: an
    /// acknowledgement with that id whose first byte is the address this
    /// radio sends on.
    pub fn await_ack(&self, packet: &Packet, id: u8) -> (acked: bool)
        requires
            packet.wf(),
        ensures
            acked == (packet.spec_type() == Some(PacketType::Ack) && packet.spec_id() == id
                && packet.spec_len() >= 1 && packet.payload()[0] == self.tx_addreses),
    {
        packet.is_type(PacketType::Ack) && packet.id() == id && packet.len() >= 1 && packet.get(0)
            == self.tx_addreses
    }

    /// Takes in a data packet that arrived on logical address `addr`.
    /// Returns its acknowledgement, which is always sent, and whether the
    /// packet goes on to the application: when it is new. A packet that
    /// repeats the id received last on its address is acknowledged again
    /// and dropped.
    pub fn receive(&mut self, packet: &mut Packet, addr: u8) -> (r: (Packet, bool))
        requires
            addr < NUM_ADDRESSES,
            old(packet).spec_type() == Some(PacketType::Data),
        ensures
            r.0.wf(),
            r.0.spec_type() == Some(PacketType::Ack),
            r.0.spec_id() == old(packet).spec_id(),
            r.0.spec_len() == 1,
            r.1 == old(self).is_new(*old(packet), addr),
            final(self).rx_id@ == old(self).rx_id@.update(addr as int, old(packet).spec_id()),
            final(self).tx_id == old(self).tx_id,
            final(self).tx_addreses == old(self).tx_addreses,
            final(packet).bytes() == old(packet).bytes(),
            final(packet).spec_addr() == if r.1 {
                addr
            } else {
                old(packet).spec_addr()
            },
    {
        let ack = Radio::transmit_ack(packet.id());
        if packet.id() != self.rx_id[addr as usize] {
            self.rx_id[addr as usize] = packet.id();
            packet.set_address(addr);
            (ack, true)
        } else {
            assert(self.rx_id@ =~= old(self).rx_id@.update(addr as int, old(packet).spec_id()));
            (ack, false)
        }
    }
}

/// A data packet that is sent again with the id it went to the application
/// under is not new when it arrives again, so it is acknowledged and
/// dropped; what was received on other addresses plays no part in that.
pub proof fn lemma_retransmission_dropped(before: Radio, after: Radio, first: Packet, again: Packet, addr: u8)
    requires
        addr < NUM_ADDRESSES,
        after.rx_id@ == before.rx_id@.update(addr as int, first.spec_id()),
        again.spec_id() == first.spec_id(),
    ensures
        !after.is_new(again, addr),
        forall|other: u8|
            other < NUM_ADDRESSES && other != addr ==> after.is_new(again, other) == before.is_new(
                again,
                other,
            ),
{
    assert(after.rx_id@[addr as int] == first.spec_id());
    assert forall|other: u8| other < NUM_ADDRESSES && other != addr implies after.is_new(
        again,
        other,
    ) == before.is_new(again, other) by {
        assert(after.rx_id@[other as int] == before.rx_id@[other as int]);
    }
}

} // verus!
