use vstd::prelude::*;
use vstd::slice::slice_subrange;

verus! {

/// Most bytes of payload that a packet carries.
pub const BUFFER_SIZE: usize = 32;

/// Number of bytes in front of the payload: length, sequence id, type.
pub const META_SIZE: usize = 3;

/// Number of bytes a packet takes on the air and in memory.
pub const PACKET_SIZE: usize = 35;

pub const LEN_INDEX: usize = 0;

pub const ID_INDEX: usize = 1;

pub const TYPE_INDEX: usize = 2;

#[derive(Clone, Copy, PartialEq, Eq, Debug, Structural)]
pub enum PacketType {
    Data,
    Ack,
    Advertise,
    EstablishConnection,
}

impl PacketType {
    pub open spec fn number(self) -> u8 {
        match self {
            PacketType::Data => 0,
            PacketType::Ack => 1,
            PacketType::Advertise => 2,
            PacketType::EstablishConnection => 3,
        }
    }

    /// The type a byte names, if it names one.
    pub open spec fn of_number(number: u8) -> Option<PacketType> {
        if number == 0 {
            Some(PacketType::Data)
        } else if number == 1 {
            Some(PacketType::Ack)
        } else if number == 2 {
            Some(PacketType::Advertise)
        } else if number == 3 {
            Some(PacketType::EstablishConnection)
        } else {
            None
        }
    }

    pub fn to_u8(self) -> (number: u8)
        ensures
            number == self.number(),
    {
        match self {
            PacketType::Data => 0,
            PacketType::Ack => 1,
            PacketType::Advertise => 2,
            PacketType::EstablishConnection => 3,
        }
    }

    /// Reads a type byte, handing the byte back when it names no type.
    pub fn try_from_primitive(number: u8) -> (r: Result<PacketType, u8>)
        ensures
            match PacketType::of_number(number) {
                Some(t) => r == Ok::<PacketType, u8>(t),
                None => r == Err::<PacketType, u8>(number),
            },
    {
        match number {
            0 => Ok(PacketType::Data),
            1 => Ok(PacketType::Ack),
            2 => Ok(PacketType::Advertise),
            3 => Ok(PacketType::EstablishConnection),
            _ => Err(number),
        }
    }
}

/// One packet as the radio sends and receives it: a length byte that counts
/// what follows it up to the end of the payload, the sequence id, the type,
/// and the payload. `addr` is the logical address the packet arrived on.
#[derive(Clone, Copy, Debug)]
pub struct Packet {
    pub addr: u8,
    buffer: [u8; PACKET_SIZE],
}

impl Packet {
    /// The bytes of the packet as they go over the air.
    pub closed spec fn bytes(&self) -> Seq<u8> {
        self.buffer@
    }

    /// The logical address the packet arrived on.
    pub closed spec fn spec_addr(&self) -> u8 {
        self.addr
    }

    /// The length byte counts at least the id and the type, and no more
    /// payload than a packet holds.
    pub open spec fn wf(&self) -> bool {
        &&& self.bytes().len() == PACKET_SIZE
        &&& META_SIZE - 1 <= self.bytes()[LEN_INDEX as int] <= META_SIZE - 1 + BUFFER_SIZE
    }

    /// Number of payload bytes.
    pub open spec fn spec_len(&self) -> int {
        self.bytes()[LEN_INDEX as int] - (META_SIZE - 1)
    }

    pub open spec fn spec_id(&self) -> u8 {
        self.bytes()[ID_INDEX as int]
    }

    pub open spec fn spec_type(&self) -> Option<PacketType> {
        PacketType::of_number(self.bytes()[TYPE_INDEX as int])
    }

    /// The payload: the bytes behind the three bytes of meta data, as many
    /// as the length byte counts.
    pub open spec fn payload(&self) -> Seq<u8> {
        self.bytes().subrange(META_SIZE as int, META_SIZE + self.spec_len())
    }

    /// Every packet has the bytes of a full buffer, whatever its length byte
    /// says.
    pub proof fn lemma_bytes_len(&self)
        ensures
            self.bytes().len() == PACKET_SIZE,
    {
    }

    /// An empty packet as a fresh buffer holds it: every byte is 2, the
    /// length byte of an empty packet. So its id is 2, and its type byte
    /// names an advertisement until a type is set.
    pub fn default() -> (packet: Self)
        ensures
            packet.wf(),
            packet.spec_addr() == 0,
            packet.bytes() == Seq::new(PACKET_SIZE as nat, |i: int| 2u8),
            packet.spec_len() == 0,
            packet.spec_id() == 2,
            packet.spec_type() == Some(PacketType::Advertise),
    {
        let packet = Packet { addr: 0, buffer: [2u8;PACKET_SIZE] };
        assert(packet.buffer@ =~= Seq::new(PACKET_SIZE as nat, |i: int| 2u8));
        packet
    }

    /// A packet from the bytes the radio received on logical address
    /// `addr`, unless their length byte counts less than the meta data or
    /// more than a packet holds.
    pub fn from_bytes(addr: u8, bytes: [u8; PACKET_SIZE]) -> (packet: Option<Self>)
        ensures
            packet is Some <==> META_SIZE - 1 <= bytes[LEN_INDEX as int] <= META_SIZE - 1
                + BUFFER_SIZE,
            packet matches Some(p) ==> p.wf() && p.bytes() == bytes@ && p.spec_addr() == addr,
    {
        if bytes[LEN_INDEX] < (META_SIZE - 1) as u8 || bytes[LEN_INDEX] > (META_SIZE - 1
            + BUFFER_SIZE) as u8 {
            None
        } else {
            Some(Packet { addr, buffer: bytes })
        }
    }

    /// The logical address the packet arrived on.
    pub fn address(&self) -> (addr: u8)
        ensures
            addr == self.spec_addr(),
    {
        self.addr
    }

    /// Notes the logical address the packet arrived on.
    pub fn set_address(&mut self, addr: u8)
        ensures
            final(self).spec_addr() == addr,
            final(self).bytes() == old(self).bytes(),
    {
        self.addr = addr;
    }

    /// The bytes to hand to the radio.
    pub fn to_bytes(&self) -> (bytes: [u8; PACKET_SIZE])
        ensures
            bytes@ == self.bytes(),
    {
        self.buffer
    }

    pub fn is_empty(&self) -> (empty: bool)
        requires
            self.wf(),
        ensures
            empty == (self.spec_len() == 0),
    {
        self.len() == 0
    }

    pub fn len(&self) -> (len: usize)
        requires
            self.wf(),
        ensures
            len == self.spec_len(),
            len <= BUFFER_SIZE,
    {
        self.buffer[LEN_INDEX] as usize - (META_SIZE - 1)
    }

    pub fn set_len(&mut self, len: usize)
        requires
            len <= BUFFER_SIZE,
        ensures
            final(self).wf(),
            final(self).spec_len() == len,
            final(self).bytes() == old(self).bytes().update(
                LEN_INDEX as int,
                (META_SIZE - 1 + len) as u8,
            ),
            final(self).spec_addr() == old(self).spec_addr(),
            final(self).spec_id() == old(self).spec_id(),
            final(self).spec_type() == old(self).spec_type(),
    {
        self.buffer[LEN_INDEX] = (META_SIZE - 1) as u8 + len as u8;
    }

    pub fn id(&self) -> (id: u8)
        ensures
            id == self.spec_id(),
    {
        self.buffer[ID_INDEX]
    }

    pub fn set_id(&mut self, id: u8)
        ensures
            final(self).spec_id() == id,
            final(self).bytes() == old(self).bytes().update(ID_INDEX as int, id),
            final(self).spec_addr() == old(self).spec_addr(),
            final(self).wf() == old(self).wf(),
            final(self).spec_type() == old(self).spec_type(),
            final(self).spec_len() == old(self).spec_len(),
            old(self).wf() ==> final(self).payload() == old(self).payload(),
    {
        self.buffer[ID_INDEX] = id;
        assert(old(self).wf() ==> self.payload() =~= old(self).payload());
    }

    /// The type of the packet, or its type byte if that names no type.
    pub fn packet_type(&self) -> (r: Result<PacketType, u8>)
        ensures
            match self.spec_type() {
                Some(t) => r == Ok::<PacketType, u8>(t),
                None => r == Err::<PacketType, u8>(self.bytes()[TYPE_INDEX as int]),
            },
    {
        PacketType::try_from_primitive(self.buffer[TYPE_INDEX])
    }

    /// Whether the packet is of type `wanted`.
    pub fn is_type(&self, wanted: PacketType) -> (is: bool)
        ensures
            is == (self.spec_type() == Some(wanted)),
    {
        match self.packet_type() {
            Ok(found) => found == wanted,
            Err(_) => false,
        }
    }

    pub fn set_type(&mut self, packet_type: PacketType)
        ensures
            final(self).spec_type() == Some(packet_type),
            final(self).bytes() == old(self).bytes().update(
                TYPE_INDEX as int,
                packet_type.number(),
            ),
            final(self).spec_addr() == old(self).spec_addr(),
            final(self).wf() == old(self).wf(),
            final(self).spec_id() == old(self).spec_id(),
            final(self).spec_len() == old(self).spec_len(),
            old(self).wf() ==> final(self).payload() == old(self).payload(),
    {
        self.buffer[TYPE_INDEX] = packet_type.to_u8();
        assert(old(self).wf() ==> self.payload() =~= old(self).payload());
    }

    /// Makes `src` the payload.
    pub fn copy_from_slice(&mut self, src: &[u8])
        requires
            src@.len() <= BUFFER_SIZE,
        ensures
            final(self).wf(),
            final(self).payload() == src@,
            final(self).spec_len() == src@.len(),
            final(self).spec_id() == old(self).spec_id(),
            final(self).spec_type() == old(self).spec_type(),
            final(self).spec_addr() == old(self).spec_addr(),
            forall|i: int|
                META_SIZE + src@.len() <= i < PACKET_SIZE ==> final(self).bytes()[i] == old(
                    self,
                ).bytes()[i],
    {
        let mut i: usize = 0;
        while i < src.len()
            invariant
                i <= src@.len() <= BUFFER_SIZE,
                self.addr == old(self).addr,
                forall|j: int| 0 <= j < i ==> self.buffer[META_SIZE + j] == src@[j],
                forall|j: int|
                    0 <= j < PACKET_SIZE && !(META_SIZE <= j < META_SIZE + i) ==> self.buffer[j]
                        == old(self).buffer[j],
            decreases src@.len() - i,
        {
            self.buffer[META_SIZE + i] = src[i];
            i += 1;
        }
        self.set_len(src.len());
        assert(self.payload() =~= src@);
    }

    /// The payload.
    pub fn as_slice(&self) -> (payload: &[u8])
        requires
            self.wf(),
        ensures
            payload@ == self.payload(),
    {
        let len = self.len();
        slice_subrange(self.buffer.as_slice(), META_SIZE, META_SIZE + len)
    }

    /// Byte `index` of the payload.
    pub fn get(&self, index: usize) -> (byte: u8)
        requires
            self.wf(),
            index < self.spec_len(),
        ensures
            byte == self.payload()[index as int],
    {
        self.buffer[META_SIZE + index]
    }

    /// Sets byte `index` of the payload.
    pub fn set(&mut self, index: usize, byte: u8)
        requires
            old(self).wf(),
            index < old(self).spec_len(),
        ensures
            final(self).wf(),
            final(self).payload() == old(self).payload().update(index as int, byte),
            final(self).bytes() == old(self).bytes().update(META_SIZE + index, byte),
            final(self).spec_addr() == old(self).spec_addr(),
    {
        self.buffer[META_SIZE + index] = byte;
        assert(self.payload() =~= old(self).payload().update(index as int, byte));
    }
}

} // verus!
